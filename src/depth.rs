//! How incoming pixels are compared with the depth buffer.
use vstd::prelude::*;
use crate::gl;

verus! {

/// The comparison of an incoming pixel's depth value with the one stored in
/// the depth buffer that lets the pixel be drawn.
#[derive(Clone, Copy, Debug, PartialEq, Eq, Structural)]
pub enum DepthTestFunction {
    /// Never drawn.
    Never,
    /// Drawn where its depth is less than the stored one.
    Less,
    /// Drawn where its depth equals the stored one.
    Equal,
    /// Drawn where its depth is at most the stored one.
    LessOrEqual,
    /// Drawn where its depth is greater than the stored one.
    Greater,
    /// Drawn where its depth differs from the stored one.
    NotEqual,
    /// Drawn where its depth is at least the stored one.
    GreaterOrEqual,
    /// Always drawn.
    Always,
}

impl Default for DepthTestFunction {
    fn default() -> (r: DepthTestFunction)
        ensures
            r == DepthTestFunction::Less,
    {
        DepthTestFunction::Less
    }
}

impl DepthTestFunction {
    pub open spec fn spec_to_gl(self) -> u32 {
        match self {
            DepthTestFunction::Never => gl::NEVER,
            DepthTestFunction::Less => gl::LESS,
            DepthTestFunction::Equal => gl::EQUAL,
            DepthTestFunction::LessOrEqual => gl::LEQUAL,
            DepthTestFunction::Greater => gl::GREATER,
            DepthTestFunction::NotEqual => gl::NOTEQUAL,
            DepthTestFunction::GreaterOrEqual => gl::GEQUAL,
            DepthTestFunction::Always => gl::ALWAYS,
        }
    }

    /// The driver's enum for this comparison.
    pub fn to_gl(&self) -> (r: u32)
        ensures
            r == self.spec_to_gl(),
    {
        match self {
            DepthTestFunction::Never => gl::NEVER,
            DepthTestFunction::Less => gl::LESS,
            DepthTestFunction::Equal => gl::EQUAL,
            DepthTestFunction::LessOrEqual => gl::LEQUAL,
            DepthTestFunction::Greater => gl::GREATER,
            DepthTestFunction::NotEqual => gl::NOTEQUAL,
            DepthTestFunction::GreaterOrEqual => gl::GEQUAL,
            DepthTestFunction::Always => gl::ALWAYS,
        }
    }
}

} // verus!
