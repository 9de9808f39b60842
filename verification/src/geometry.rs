//! The demo's fixed geometry and the buffer objects that hold it.
//!
//! Two triangles are described by six vertices of three coordinates each and
//! six draw indices. Coordinates are stored in hundredths of the clip-space
//! unit, so the library needs no floating point; the shell divides by
//! [`COORD_SCALE`] when it hands the data to the driver.

use vstd::prelude::*;
use crate::commands::GlCommand;

verus! {

/// Number of vertices in the demo's vertex buffer.
pub const VERTEX_COUNT: usize = 6;

/// Coordinates per vertex (x, y, z).
pub const COMPONENTS_PER_VERTEX: usize = 3;

/// Number of draw indices in the demo's index buffer.
pub const INDEX_COUNT: usize = 6;

/// A coordinate of `c` hundredths stands for the clip-space value `c / 100`.
pub const COORD_SCALE: i32 = 100;

/// Size in bytes of one single-precision float, the element type of the
/// vertex buffer as the driver sees it.
pub const FLOAT_BYTE_SIZE: usize = 4;

/// Size in bytes of one draw index, an unsigned 32-bit integer. The index
/// upload length is computed from this, the index element's own size.
pub const INDEX_BYTE_SIZE: usize = 4;

/// The vertex positions, in hundredths: two triangles, one on the left and
/// one on the right, each with a left, a right and a top corner.
pub open spec fn spec_vertex_coords() -> Seq<i32> {
    seq![
        -90i32, -50i32, 0i32,
          0i32, -50i32, 0i32,
        -45i32,  50i32, 0i32,
          0i32, -50i32, 0i32,
         90i32, -50i32, 0i32,
         45i32,  50i32, 0i32,
    ]
}

/// The draw indices into the vertex array.
pub open spec fn spec_draw_indices() -> Seq<u32> {
    seq![0u32, 1u32, 3u32, 1u32, 2u32, 3u32]
}

/// The vertex positions as a vector, in hundredths of the clip-space unit.
pub fn vertex_coords() -> (v: Vec<i32>)
    ensures
        v@ == spec_vertex_coords(),
        v@.len() == VERTEX_COUNT * COMPONENTS_PER_VERTEX,
{
    let mut v: Vec<i32> = Vec::new();
    v.push(-90); v.push(-50); v.push(0);
    v.push(0); v.push(-50); v.push(0);
    v.push(-45); v.push(50); v.push(0);
    v.push(0); v.push(-50); v.push(0);
    v.push(90); v.push(-50); v.push(0);
    v.push(45); v.push(50); v.push(0);
    proof {
        assert(v@ =~= spec_vertex_coords());
    }
    v
}

/// The draw indices as a vector.
pub fn draw_indices() -> (v: Vec<u32>)
    ensures
        v@ == spec_draw_indices(),
        v@.len() == INDEX_COUNT,
{
    let mut v: Vec<u32> = Vec::new();
    v.push(0); v.push(1); v.push(3);
    v.push(1); v.push(2); v.push(3);
    proof {
        assert(v@ =~= spec_draw_indices());
    }
    v
}

/// Exact byte length of the vertex upload: one float per coordinate.
pub fn vertex_upload_byte_len() -> (n: usize)
    ensures
        n == VERTEX_COUNT * COMPONENTS_PER_VERTEX * FLOAT_BYTE_SIZE,
{
    VERTEX_COUNT * COMPONENTS_PER_VERTEX * FLOAT_BYTE_SIZE
}

/// Exact byte length of the index upload: one unsigned 32-bit integer per
/// index.
pub fn index_upload_byte_len() -> (n: usize)
    ensures
        n == INDEX_COUNT * INDEX_BYTE_SIZE,
{
    INDEX_COUNT * INDEX_BYTE_SIZE
}

/// Why a set of buffer handles was rejected.
#[derive(PartialEq, Eq, Structural, Clone, Copy, Debug)]
pub enum GeometryError {
    /// The vertex array handle was zero.
    ZeroVertexArrayHandle,
    /// The vertex buffer handle was zero.
    ZeroVertexBufferHandle,
    /// The index buffer handle was zero.
    ZeroIndexBufferHandle,
}

/// The demo's one set of buffer objects: exactly one vertex array object,
/// one vertex buffer and one index buffer, each named by a non-zero handle.
#[derive(PartialEq, Eq, Structural, Clone, Copy, Debug)]
pub struct GeometryBuffer {
    /// Handle of the vertex array object.
    pub vao: u32,
    /// Handle of the vertex buffer object.
    pub vbo: u32,
    /// Handle of the index buffer object.
    pub ebo: u32,
}

impl GeometryBuffer {
    /// A well-formed geometry buffer holds three non-zero handles.
    pub open spec fn wf(&self) -> bool {
        self.vao != 0 && self.vbo != 0 && self.ebo != 0
    }

    /// Accept the three handles the driver generated, rejecting a zero
    /// handle: the driver names every real object with a non-zero one.
    pub fn initialize(vao: u32, vbo: u32, ebo: u32) -> (r: Result<GeometryBuffer, GeometryError>)
        ensures
            r is Ok <==> (vao != 0 && vbo != 0 && ebo != 0),
            r is Ok ==> r->Ok_0 == (GeometryBuffer { vao, vbo, ebo }) && r->Ok_0.wf(),
            vao == 0 ==> r == Err::<GeometryBuffer, GeometryError>(GeometryError::ZeroVertexArrayHandle),
            vao != 0 && vbo == 0 ==> r == Err::<GeometryBuffer, GeometryError>(GeometryError::ZeroVertexBufferHandle),
            vao != 0 && vbo != 0 && ebo == 0 ==> r == Err::<GeometryBuffer, GeometryError>(GeometryError::ZeroIndexBufferHandle),
    {
        if vao == 0 {
            Err(GeometryError::ZeroVertexArrayHandle)
        } else if vbo == 0 {
            Err(GeometryError::ZeroVertexBufferHandle)
        } else if ebo == 0 {
            Err(GeometryError::ZeroIndexBufferHandle)
        } else {
            Ok(GeometryBuffer { vao, vbo, ebo })
        }
    }

    /// The upload sequence, as data. Order matters: each upload and
    /// attribute call targets the object bound just before it, and the two
    /// closing unbinds reset the state so later bind calls cannot touch
    /// these buffers.
    pub open spec fn spec_upload_plan(&self) -> Seq<GlCommand> {
        seq![
            GlCommand::BindVertexArray { vao: self.vao },
            GlCommand::BindArrayBuffer { vbo: self.vbo },
            GlCommand::UploadVertexData {
                byte_len: (VERTEX_COUNT * COMPONENTS_PER_VERTEX * FLOAT_BYTE_SIZE) as usize,
            },
            GlCommand::BindElementArrayBuffer { ebo: self.ebo },
            GlCommand::UploadIndexData { byte_len: (INDEX_COUNT * INDEX_BYTE_SIZE) as usize },
            GlCommand::VertexAttribPointer {
                index: 0,
                size: COMPONENTS_PER_VERTEX as u32,
                stride_bytes: (COMPONENTS_PER_VERTEX * FLOAT_BYTE_SIZE) as u32,
                offset_bytes: 0,
            },
            GlCommand::EnableVertexAttribArray { index: 0 },
            GlCommand::BindArrayBuffer { vbo: 0 },
            GlCommand::BindVertexArray { vao: 0 },
        ]
    }

    /// Compute the upload sequence for these buffers.
    pub fn upload_plan(&self) -> (plan: Vec<GlCommand>)
        ensures
            plan@ == self.spec_upload_plan(),
    {
        let mut plan: Vec<GlCommand> = Vec::new();
        plan.push(GlCommand::BindVertexArray { vao: self.vao });
        plan.push(GlCommand::BindArrayBuffer { vbo: self.vbo });
        plan.push(GlCommand::UploadVertexData { byte_len: vertex_upload_byte_len() });
        plan.push(GlCommand::BindElementArrayBuffer { ebo: self.ebo });
        plan.push(GlCommand::UploadIndexData { byte_len: index_upload_byte_len() });
        plan.push(GlCommand::VertexAttribPointer {
            index: 0,
            size: 3,
            stride_bytes: 12,
            offset_bytes: 0,
        });
        plan.push(GlCommand::EnableVertexAttribArray { index: 0 });
        plan.push(GlCommand::BindArrayBuffer { vbo: 0 });
        plan.push(GlCommand::BindVertexArray { vao: 0 });
        proof {
            assert(plan@ =~= self.spec_upload_plan());
        }
        plan
    }
}

} // verus!
