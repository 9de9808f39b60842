//! Graphics-driver commands as plain data.
//!
//! The library never calls the graphics driver. Instead its verified
//! functions compute ordered sequences of `GlCommand` values; the unverified
//! shell walks such a sequence and performs each command with one driver
//! call. Every field is a plain integer, so two commands are equal exactly
//! when they ask the driver for the same thing.

use vstd::prelude::*;

verus! {

/// One driver call, as data. Colour components are in hundredths, so that
/// the library needs no floating point: the shell divides by 100.
#[derive(PartialEq, Eq, Structural, Clone, Copy, Debug)]
pub enum GlCommand {
    /// Bind the vertex array object with this handle (0 unbinds).
    BindVertexArray { vao: u32 },
    /// Bind the vertex buffer with this handle (0 unbinds).
    BindArrayBuffer { vbo: u32 },
    /// Bind the index buffer with this handle (0 unbinds).
    BindElementArrayBuffer { ebo: u32 },
    /// Upload the demo's vertex positions into the bound vertex buffer as
    /// static draw-once data; `byte_len` is the exact upload length.
    UploadVertexData { byte_len: usize },
    /// Upload the demo's draw indices into the bound index buffer as static
    /// draw-once data; `byte_len` is the exact upload length.
    UploadIndexData { byte_len: usize },
    /// Describe one vertex attribute: `size` floats per vertex, read every
    /// `stride_bytes` bytes starting `offset_bytes` into the buffer.
    VertexAttribPointer { index: u32, size: u32, stride_bytes: u32, offset_bytes: u32 },
    /// Enable the vertex attribute at this location.
    EnableVertexAttribArray { index: u32 },
    /// Attach a compiled shader to a program object.
    AttachShader { program: u32, shader: u32 },
    /// Link the program object with this handle.
    LinkProgram { program: u32 },
    /// Delete a shader object (safe after attachment: the driver keeps it
    /// alive while it is attached).
    DeleteShader { shader: u32 },
    /// Set the clear colour; components are hundredths of the unit range.
    ClearColor { red: i32, green: i32, blue: i32, alpha: i32 },
    /// Clear the colour buffer.
    ClearColorBuffer,
    /// Select the linked program with this handle for drawing.
    UseProgram { program: u32 },
    /// Draw `index_count` indices as triangles. Each index is an unsigned
    /// integer of `index_byte_width` bytes; reading starts `byte_offset`
    /// bytes into the bound index buffer.
    DrawIndexedTriangles { index_count: u32, index_byte_width: u32, byte_offset: usize },
    /// Map the output to the pixel rectangle at (x, y) of the given size.
    Viewport { x: i32, y: i32, width: i32, height: i32 },
}

} // verus!
