//! The context: the dialect, the driver's limits, and the context-wide
//! "current program" and "current surface" slots.
//!
//! A context is not safe to share between threads without a lock: it models
//! the one driver connection, whose state is global to it.
use vstd::prelude::*;
use crate::buffer::{Buffer, BufferTarget};
use crate::{gl, Dialect, GeometryMode, GolemError};

verus! {

/// What a [`Context`] holds.
pub struct ContextView {
    pub dialect: Dialect,
    pub max_texture_size: u32,
    pub current_program: Option<u32>,
    pub current_surface: Option<u32>,
}

impl ContextView {
    /// The state after the program `id` is made current.
    pub open spec fn with_program(self, id: u32) -> ContextView {
        ContextView { current_program: Some(id), ..self }
    }

    /// The state after the render target becomes `surface` (`None`: the
    /// default framebuffer).
    pub open spec fn with_surface(self, surface: Option<u32>) -> ContextView {
        ContextView { current_surface: surface, ..self }
    }
}

/// The driver call of one draw: bind `element_buffer`, then draw `count`
/// indices of type `element_type`, starting at byte `offset`, as `mode`.
#[derive(Clone, Copy, Debug, PartialEq, Eq, Structural)]
pub struct DrawCall {
    pub element_buffer: u32,
    pub mode: u32,
    pub count: i32,
    pub element_type: u32,
    pub offset: i32,
}

/// What a draw of the indices `start..end` of `element_buffer` returns.
pub open spec fn draw_result(
    ctx: ContextView,
    element_buffer: u32,
    start: nat,
    end: nat,
    mode: GeometryMode,
) -> Result<DrawCall, GolemError> {
    if ctx.current_program is None {
        Err(GolemError::NoBoundProgram)
    } else {
        Ok(
            DrawCall {
                element_buffer,
                mode: mode.spec_to_gl(),
                count: (end - start) as i32,
                element_type: gl::UNSIGNED_INT,
                offset: (4 * start) as i32,
            },
        )
    }
}

/// The state shared by every resource of one driver connection.
pub struct Context {
    dialect: Dialect,
    max_texture_size: u32,
    current_program: Option<u32>,
    current_surface: Option<u32>,
}

impl View for Context {
    type V = ContextView;

    closed spec fn view(&self) -> ContextView {
        ContextView {
            dialect: self.dialect,
            max_texture_size: self.max_texture_size,
            current_program: self.current_program,
            current_surface: self.current_surface,
        }
    }
}

impl Context {
    #[verifier::type_invariant]
    spec fn size_fits(self) -> bool {
        self.max_texture_size <= i32::MAX
    }

    /// A context for a driver that speaks `dialect` and reports
    /// `max_texture_size` as its largest texture dimension; no program is
    /// current and the default framebuffer is the render target.
    pub fn new(dialect: Dialect, max_texture_size: u32) -> (r: Context)
        requires
            max_texture_size <= i32::MAX,
        ensures
            r@ == (ContextView {
                dialect,
                max_texture_size,
                current_program: None,
                current_surface: None,
            }),
    {
        Context { dialect, max_texture_size, current_program: None, current_surface: None }
    }

    pub fn dialect(&self) -> (r: Dialect)
        ensures
            r == self@.dialect,
    {
        self.dialect
    }

    pub fn max_texture_size(&self) -> (r: u32)
        ensures
            r == self@.max_texture_size,
            r <= i32::MAX,
    {
        proof {
            use_type_invariant(self);
        }
        self.max_texture_size
    }

    pub fn current_program(&self) -> (r: Option<u32>)
        ensures
            r == self@.current_program,
    {
        self.current_program
    }

    pub fn current_surface(&self) -> (r: Option<u32>)
        ensures
            r == self@.current_surface,
    {
        self.current_surface
    }

    /// Whether the program `id` is the current one.
    pub fn is_program_bound(&self, id: u32) -> (r: bool)
        ensures
            r == (self@.current_program == Some(id)),
    {
        match self.current_program {
            Some(current) => current == id,
            None => false,
        }
    }

    /// Makes the program `id` the current one.
    pub fn bind_program(&mut self, id: u32)
        ensures
            final(self)@ == old(self)@.with_program(id),
    {
        proof {
            use_type_invariant(&*self);
        }
        self.current_program = Some(id);
    }

    /// Makes `surface` the render target (`None`: the default framebuffer).
    pub fn bind_surface(&mut self, surface: Option<u32>)
        ensures
            final(self)@ == old(self)@.with_surface(surface),
    {
        proof {
            use_type_invariant(&*self);
        }
        self.current_surface = surface;
    }

    /// The buffers that a clear resets: color and depth.
    pub fn clear_mask(&self) -> (r: u32)
        ensures
            r == gl::COLOR_BUFFER_BIT | gl::DEPTH_BUFFER_BIT,
    {
        gl::COLOR_BUFFER_BIT | gl::DEPTH_BUFFER_BIT
    }

    /// Draws the indices `start..end` of `elements` with the current program,
    /// as `mode`; fails with `NoBoundProgram` where no program is current.
    pub fn draw(&self, elements: &Buffer, start: usize, end: usize, mode: GeometryMode) -> (r:
        Result<DrawCall, GolemError>)
        requires
            elements.spec_target() == BufferTarget::Element,
            start <= end,
            4 * end <= i32::MAX,
        ensures
            r == draw_result(self@, elements.spec_id(), start as nat, end as nat, mode),
    {
        if self.current_program.is_none() {
            return Err(GolemError::NoBoundProgram);
        }
        Ok(
            DrawCall {
                element_buffer: elements.id(),
                mode: mode.to_gl(),
                count: (end - start) as i32,
                element_type: gl::UNSIGNED_INT,
                offset: (4 * start) as i32,
            },
        )
    }
}

/// Binding the same program twice in a row leaves the state that binding it
/// once leaves.
pub proof fn lemma_bind_program_idempotent(ctx: ContextView, id: u32)
    ensures
        ctx.with_program(id).with_program(id) == ctx.with_program(id),
{
}

} // verus!
