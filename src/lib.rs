//! A thin, verified layer over an OpenGL / WebGL driver.
//!
//! The library owns every decision that is not a driver call: the GLSL text
//! generated from attribute and uniform descriptions, the bookkeeping of buffer
//! and texture storage, the context-wide "current program" and "current
//! surface" slots, and the exact arguments of each driver call. Each operation
//! returns a plain description of the driver call it decided on; the host
//! application performs it with its GL binding.
use vstd::prelude::*;

pub mod gl;
pub mod attribute;
pub mod uniform;
pub mod shader;
pub mod buffer;
pub mod context;
pub mod texture;
pub mod surface;
pub mod depth;

pub use attribute::{Attribute, AttributeType, Position};
pub use buffer::{Buffer, BufferTarget, BufferUpload, ElementBuffer, VertexBuffer};
pub use context::{Context, ContextView, DrawCall};
pub use depth::DepthTestFunction;
pub use shader::{AttributePointer, BuildAction, BuildStage, ProgramBinding, ShaderBuild, ShaderDescription, ShaderProgram};
pub use surface::{PixelRead, Surface, SurfaceAttachment};
pub use texture::{TexImage, TexParameter, TexSubImage, Texture, TextureFilter, TextureUnit, TextureWrap};
pub use uniform::{Uniform, UniformType};

verus! {

/// The GLSL dialect that generated shader text is written in.
///
/// `Desktop` is GLSL 1.50 for desktop OpenGL; `Web` is GLSL ES 1.00 for WebGL 1.
/// It is chosen once, when the [`Context`] is created.
#[derive(Clone, Copy, Debug, PartialEq, Eq, Structural)]
pub enum Dialect {
    Desktop,
    Web,
}

impl Dialect {
    /// The dialect of a driver: GLSL ES where the driver is an embedded
    /// (ES or WebGL) one, desktop GLSL otherwise.
    pub fn for_driver(is_embedded: bool) -> (r: Dialect)
        ensures
            r == (if is_embedded {
                Dialect::Web
            } else {
                Dialect::Desktop
            }),
    {
        if is_embedded {
            Dialect::Web
        } else {
            Dialect::Desktop
        }
    }
}

/// The scalar kind of a uniform.
#[derive(Clone, Copy, Debug, PartialEq, Eq, Structural)]
pub enum NumberType {
    Int,
    Float,
}

/// The layout of pixel data handed to or read from the driver.
#[derive(Clone, Copy, Debug, PartialEq, Eq, Structural)]
pub enum ColorFormat {
    RGB,
    RGBA,
}

impl ColorFormat {
    pub open spec fn spec_bytes_per_pixel(self) -> u32 {
        match self {
            ColorFormat::RGB => 3,
            ColorFormat::RGBA => 4,
        }
    }

    pub open spec fn spec_gl_format(self) -> u32 {
        match self {
            ColorFormat::RGB => gl::RGB,
            ColorFormat::RGBA => gl::RGBA,
        }
    }

    /// How many bytes one pixel takes: 3 for RGB, 4 for RGBA.
    pub fn bytes_per_pixel(&self) -> (r: u32)
        ensures
            r == self.spec_bytes_per_pixel(),
    {
        match self {
            ColorFormat::RGB => 3,
            ColorFormat::RGBA => 4,
        }
    }

    /// The driver's enum for this pixel format.
    pub fn gl_format(&self) -> (r: u32)
        ensures
            r == self.spec_gl_format(),
    {
        match self {
            ColorFormat::RGB => gl::RGB,
            ColorFormat::RGBA => gl::RGBA,
        }
    }
}

/// The dimension of a vector or square matrix: 2, 3 or 4.
#[derive(Clone, Copy, Debug, PartialEq, Eq, Structural)]
pub enum Dimension {
    D2,
    D3,
    D4,
}

impl Dimension {
    pub open spec fn spec_value(self) -> int {
        match self {
            Dimension::D2 => 2,
            Dimension::D3 => 3,
            Dimension::D4 => 4,
        }
    }

    /// The dimension written as one decimal digit.
    pub open spec fn spec_digit(self) -> Seq<char> {
        match self {
            Dimension::D2 => seq!['2'],
            Dimension::D3 => seq!['3'],
            Dimension::D4 => seq!['4'],
        }
    }

    pub fn value(&self) -> (r: i32)
        ensures
            r as int == self.spec_value(),
            2 <= r <= 4,
    {
        match self {
            Dimension::D2 => 2,
            Dimension::D3 => 3,
            Dimension::D4 => 4,
        }
    }

    /// Appends the dimension's digit to `text`.
    pub fn write_digit(&self, text: &mut String)
        ensures
            final(text)@ == old(text)@ + self.spec_digit(),
    {
        let d = match self {
            Dimension::D2 => "2",
            Dimension::D3 => "3",
            Dimension::D4 => "4",
        };
        proof {
            reveal_strlit("2");
            reveal_strlit("3");
            reveal_strlit("4");
        }
        assert(d@ =~= self.spec_digit());
        text.append(d);
    }
}

/// The primitive topology of a draw call.
#[derive(Clone, Copy, Debug, PartialEq, Eq, Structural)]
pub enum GeometryMode {
    Points,
    Lines,
    LineStrip,
    LineLoop,
    TriangleStrip,
    TriangleFan,
    Triangles,
}

impl GeometryMode {
    pub open spec fn spec_to_gl(self) -> u32 {
        match self {
            GeometryMode::Points => gl::POINTS,
            GeometryMode::Lines => gl::LINES,
            GeometryMode::LineStrip => gl::LINE_STRIP,
            GeometryMode::LineLoop => gl::LINE_LOOP,
            GeometryMode::TriangleStrip => gl::TRIANGLE_STRIP,
            GeometryMode::TriangleFan => gl::TRIANGLE_FAN,
            GeometryMode::Triangles => gl::TRIANGLES,
        }
    }

    /// The driver's enum for this topology.
    pub fn to_gl(&self) -> (r: u32)
        ensures
            r == self.spec_to_gl(),
    {
        match self {
            GeometryMode::Points => gl::POINTS,
            GeometryMode::Lines => gl::LINES,
            GeometryMode::LineStrip => gl::LINE_STRIP,
            GeometryMode::LineLoop => gl::LINE_LOOP,
            GeometryMode::TriangleStrip => gl::TRIANGLE_STRIP,
            GeometryMode::TriangleFan => gl::TRIANGLE_FAN,
            GeometryMode::Triangles => gl::TRIANGLES,
        }
    }
}

/// The conditions that the library reports to its caller.
#[derive(Clone, Debug, PartialEq, Eq)]
pub enum GolemError {
    /// A vertex or fragment stage failed to compile, or the program failed to
    /// link; holds the driver's diagnostic text unchanged.
    ShaderCompilationError(String),
    /// Any other failure reported by the driver, with its message.
    ContextError(String),
    /// A uniform was addressed by a name that the program does not have.
    NoSuchUniform(String),
    /// A uniform was set on a program that is not the current one.
    NotCurrentProgram,
    /// A draw was requested while no program was bound.
    NoBoundProgram,
}

impl From<String> for GolemError {
    fn from(other: String) -> (r: GolemError)
        ensures
            r == GolemError::ContextError(other),
    {
        GolemError::ContextError(other)
    }
}

impl vstd::std_specs::convert::FromSpecImpl<String> for GolemError {
    open spec fn obeys_from_spec() -> bool {
        true
    }

    open spec fn from_spec(v: String) -> GolemError {
        GolemError::ContextError(v)
    }
}

} // verus!
