//! The application: configuration, lifecycle, and the per-frame work.
//!
//! The lifecycle is `Uninitialized -> Running -> Closing`. The shell creates
//! the window and the driver objects; `Application::initialize` accepts
//! them, already validated, and yields a running application. Each frame the
//! shell asks for the frame's command sequence, executes it, presents the
//! frame, and hands the drained event queue to `handle_events`, which moves
//! the application to `Closing` once the window should close.

use vstd::prelude::*;
use crate::commands::GlCommand;
use crate::events::{EventEffect, WindowEvent, WindowState};
use crate::events::{spec_dispatch_all, spec_dispatch_effect};
use crate::geometry::GeometryBuffer;

verus! {

/// Major part of the context version the window is created with.
pub const CONTEXT_VERSION_MAJOR: u32 = 3;

/// Minor part of the context version the window is created with.
pub const CONTEXT_VERSION_MINOR: u32 = 3;

/// Red component of the clear colour, in hundredths.
pub const CLEAR_RED: i32 = 20;

/// Green component of the clear colour, in hundredths.
pub const CLEAR_GREEN: i32 = 30;

/// Blue component of the clear colour, in hundredths.
pub const CLEAR_BLUE: i32 = 30;

/// Alpha component of the clear colour, in hundredths: opaque.
pub const CLEAR_ALPHA: i32 = 100;

/// Immutable configuration the application is constructed with.
pub struct AppConfig {
    /// Window width at start, in pixels.
    pub width: u32,
    /// Window height at start, in pixels.
    pub height: u32,
    /// The window's title text.
    pub title: String,
}

impl AppConfig {
    /// Gather the window configuration.
    pub fn new(width: u32, height: u32, title: String) -> (c: AppConfig)
        ensures
            c.width == width,
            c.height == height,
            c.title@ == title@,
    {
        AppConfig { width, height, title }
    }
}

/// Where the application stands in its life.
#[derive(PartialEq, Eq, Structural, Clone, Copy, Debug)]
pub enum AppPhase {
    /// Nothing is built yet.
    Uninitialized,
    /// The main loop is drawing frames.
    Running,
    /// The window should close; the main loop stops.
    Closing,
}

/// The running demo: its phase, the window's state, the linked program and
/// the geometry it draws every frame.
pub struct Application {
    /// Where the application stands in its life.
    pub phase: AppPhase,
    /// The window's stored size and close flag.
    pub window: WindowState,
    /// Handle of the linked shader program.
    pub program: u32,
    /// The buffer objects holding the demo's geometry.
    pub geometry: GeometryBuffer,
}

/// One frame's command sequence: clear to the fixed colour, select the
/// program and the vertex array, and draw the six indices as triangles.
pub open spec fn spec_frame_plan(program: u32, vao: u32) -> Seq<GlCommand> {
    seq![
        GlCommand::ClearColor { red: CLEAR_RED, green: CLEAR_GREEN, blue: CLEAR_BLUE, alpha: CLEAR_ALPHA },
        GlCommand::ClearColorBuffer,
        GlCommand::UseProgram { program },
        GlCommand::BindVertexArray { vao },
        GlCommand::DrawIndexedTriangles { index_count: 6, index_byte_width: 4, byte_offset: 0 },
    ]
}

impl Application {
    /// A well-formed application holds a non-zero program handle and
    /// well-formed geometry once it runs.
    pub open spec fn wf(&self) -> bool {
        self.phase != AppPhase::Uninitialized ==> self.program != 0 && self.geometry.wf()
    }

    /// Move from `Uninitialized` to `Running`: accept the validated program
    /// and geometry and take the window size from the configuration, with
    /// the close flag down. The caller validates first — a failed window,
    /// compile or link never reaches this constructor.
    pub fn initialize(config: &AppConfig, program: u32, geometry: GeometryBuffer) -> (app:
        Application)
        requires
            program != 0,
            geometry.wf(),
        ensures
            app.phase == AppPhase::Running,
            app.window == (WindowState {
                width: config.width,
                height: config.height,
                should_close: false,
            }),
            app.program == program,
            app.geometry == geometry,
            app.wf(),
    {
        Application {
            phase: AppPhase::Running,
            window: WindowState::new(config.width, config.height),
            program,
            geometry,
        }
    }

    /// Whether the main loop should draw another frame: it runs while the
    /// window is not marked for closing.
    pub fn should_continue(&self) -> (r: bool)
        ensures
            r == (self.phase == AppPhase::Running && !self.window.should_close),
    {
        match self.phase {
            AppPhase::Running => !self.window.should_close,
            _ => false,
        }
    }

    /// Compute this frame's command sequence.
    pub fn frame_plan(&self) -> (plan: Vec<GlCommand>)
        ensures
            plan@ == spec_frame_plan(self.program, self.geometry.vao),
    {
        let mut plan: Vec<GlCommand> = Vec::new();
        plan.push(GlCommand::ClearColor {
            red: CLEAR_RED,
            green: CLEAR_GREEN,
            blue: CLEAR_BLUE,
            alpha: CLEAR_ALPHA,
        });
        plan.push(GlCommand::ClearColorBuffer);
        plan.push(GlCommand::UseProgram { program: self.program });
        plan.push(GlCommand::BindVertexArray { vao: self.geometry.vao });
        plan.push(GlCommand::DrawIndexedTriangles {
            index_count: 6,
            index_byte_width: 4,
            byte_offset: 0,
        });
        proof {
            assert(plan@ =~= spec_frame_plan(self.program, self.geometry.vao));
        }
        plan
    }

    /// Dispatch the drained event queue in arrival order, returning the
    /// shell's work for each event. Once the window is marked for closing
    /// the application moves to `Closing`; the program and the geometry
    /// never change.
    pub fn handle_events(&mut self, evs: &Vec<WindowEvent>) -> (effs: Vec<EventEffect>)
        ensures
            final(self).window == spec_dispatch_all(old(self).window, evs@),
            final(self).program == old(self).program,
            final(self).geometry == old(self).geometry,
            final(self).phase == if old(self).phase == AppPhase::Running && spec_dispatch_all(
                old(self).window,
                evs@,
            ).should_close {
                AppPhase::Closing
            } else {
                old(self).phase
            },
            old(self).wf() ==> final(self).wf(),
            effs@.len() == evs@.len(),
            forall|i: int| 0 <= i < evs@.len() ==> effs@[i] == spec_dispatch_effect(
                spec_dispatch_all(old(self).window, evs@.take(i)),
                evs@[i],
            ),
    {
        let effs = self.window.dispatch_all(evs);
        let running = match self.phase {
            AppPhase::Running => true,
            _ => false,
        };
        if running && self.window.should_close {
            self.phase = AppPhase::Closing;
        }
        effs
    }
}

/// One frame issues exactly one draw call: the command at one position of
/// the frame sequence, and no other, is a draw, and it requests six indices
/// of four-byte unsigned-integer type starting at offset zero.
pub proof fn lemma_frame_plan_one_draw(program: u32, vao: u32)
    ensures
        forall|j: int|
            0 <= j < spec_frame_plan(program, vao).len() ==> ((spec_frame_plan(program, vao)[j]
                is DrawIndexedTriangles) <==> j == 4),
        spec_frame_plan(program, vao)[4] == (GlCommand::DrawIndexedTriangles {
            index_count: 6,
            index_byte_width: 4,
            byte_offset: 0,
        }),
{
}

} // verus!
