//! Two-dimensional textures, the bookkeeping of their size, and their
//! sampling parameters.
use vstd::prelude::*;
use crate::context::Context;
use crate::{gl, ColorFormat};

verus! {

/// How a texture is sampled between texels.
#[derive(Clone, Copy, Debug, PartialEq, Eq, Structural)]
pub enum TextureFilter {
    Linear,
    Nearest,
}

impl TextureFilter {
    pub open spec fn spec_to_gl(self) -> i32 {
        match self {
            TextureFilter::Linear => gl::LINEAR as i32,
            TextureFilter::Nearest => gl::NEAREST as i32,
        }
    }

    /// The driver's enum for this filter.
    pub fn to_gl(&self) -> (r: i32)
        ensures
            r == self.spec_to_gl(),
    {
        match self {
            TextureFilter::Linear => gl::LINEAR as i32,
            TextureFilter::Nearest => gl::NEAREST as i32,
        }
    }
}

/// How a texture is sampled outside its edges.
#[derive(Clone, Copy, Debug, PartialEq, Eq, Structural)]
pub enum TextureWrap {
    Repeat,
    ClampToEdge,
    MirroredRepeat,
}

impl TextureWrap {
    pub open spec fn spec_to_gl(self) -> i32 {
        match self {
            TextureWrap::Repeat => gl::REPEAT as i32,
            TextureWrap::ClampToEdge => gl::CLAMP_TO_EDGE as i32,
            TextureWrap::MirroredRepeat => gl::MIRRORED_REPEAT as i32,
        }
    }

    /// The driver's enum for this wrapping mode.
    pub fn to_gl(&self) -> (r: i32)
        ensures
            r == self.spec_to_gl(),
    {
        match self {
            TextureWrap::Repeat => gl::REPEAT as i32,
            TextureWrap::ClampToEdge => gl::CLAMP_TO_EDGE as i32,
            TextureWrap::MirroredRepeat => gl::MIRRORED_REPEAT as i32,
        }
    }
}

/// The driver call that sets one parameter of `texture`.
#[derive(Clone, Copy, Debug, PartialEq, Eq, Structural)]
pub struct TexParameter {
    pub texture: u32,
    pub target: u32,
    pub param: u32,
    pub value: i32,
}

/// The driver calls of a full image upload to `texture`: allocate
/// `width` x `height` texels stored as `internal_format`, from bytes laid out
/// as `format` (or uninitialized), then generate the mipmaps.
#[derive(Clone, Copy, Debug, PartialEq, Eq, Structural)]
pub struct TexImage {
    pub texture: u32,
    pub target: u32,
    pub internal_format: i32,
    pub width: i32,
    pub height: i32,
    pub format: u32,
    pub data_type: u32,
}

/// The driver calls of an upload to the `width` x `height` region of
/// `texture` at (`x`, `y`), then regenerating the mipmaps.
#[derive(Clone, Copy, Debug, PartialEq, Eq, Structural)]
pub struct TexSubImage {
    pub texture: u32,
    pub target: u32,
    pub x: i32,
    pub y: i32,
    pub width: i32,
    pub height: i32,
    pub format: u32,
    pub data_type: u32,
}

/// The driver calls that make `texture` (or none) the texture of `unit`.
#[derive(Clone, Copy, Debug, PartialEq, Eq, Structural)]
pub struct TextureUnit {
    pub unit: u32,
    pub texture: Option<u32>,
}

/// A driver texture and the size of the image it last received; a new
/// texture is 0 x 0 until its first image.
#[derive(Debug)]
pub struct Texture {
    id: u32,
    width: u32,
    height: u32,
}

impl Texture {
    #[verifier::type_invariant]
    spec fn size_fits(self) -> bool {
        self.width <= i32::MAX && self.height <= i32::MAX
    }

    pub closed spec fn spec_id(self) -> u32 {
        self.id
    }

    pub closed spec fn spec_width(self) -> u32 {
        self.width
    }

    pub closed spec fn spec_height(self) -> u32 {
        self.height
    }

    /// Wraps the driver texture `id`, which holds no image yet, with the
    /// parameter it receives on creation: linear minification.
    pub fn new(id: u32) -> (r: (Texture, TexParameter))
        ensures
            r.0.spec_id() == id,
            r.0.spec_width() == 0,
            r.0.spec_height() == 0,
            r.1 == (TexParameter {
                texture: id,
                target: gl::TEXTURE_2D,
                param: gl::TEXTURE_MIN_FILTER,
                value: gl::LINEAR as i32,
            }),
    {
        let tex = Texture { id, width: 0, height: 0 };
        let filter = tex.set_minification(TextureFilter::Linear);
        (tex, filter)
    }

    pub fn id(&self) -> (r: u32)
        ensures
            r == self.spec_id(),
    {
        self.id
    }

    /// Whether the `width` x `height` region at (`x`, `y`) lies within the
    /// current image.
    pub open spec fn region_fits(self, x: u32, y: u32, width: u32, height: u32) -> bool {
        x + width <= self.spec_width() && y + height <= self.spec_height()
    }

    pub fn width(&self) -> (r: u32)
        ensures
            r == self.spec_width(),
            r <= i32::MAX,
    {
        proof {
            use_type_invariant(self);
        }
        self.width
    }

    pub fn height(&self) -> (r: u32)
        ensures
            r == self.spec_height(),
            r <= i32::MAX,
    {
        proof {
            use_type_invariant(self);
        }
        self.height
    }

    /// Makes `tex` (or none) the texture of unit `bind_point`.
    pub fn bind(tex: Option<&Texture>, bind_point: u32) -> (r: TextureUnit)
        requires
            bind_point <= u32::MAX - gl::TEXTURE0,
        ensures
            r.unit == gl::TEXTURE0 + bind_point,
            r.texture == (match tex {
                Some(t) => Some(t.spec_id()),
                None => None::<u32>,
            }),
    {
        let texture = match tex {
            Some(t) => Some(t.id()),
            None => None,
        };
        TextureUnit { unit: gl::TEXTURE0 + bind_point, texture }
    }

    /// Allocates a `width` x `height` image, from bytes laid out as `color`,
    /// and records its size; both must be below the driver's largest
    /// texture dimension.
    pub fn set_image(&mut self, ctx: &Context, width: u32, height: u32, color: ColorFormat) -> (r:
        TexImage)
        requires
            width < ctx@.max_texture_size,
            height < ctx@.max_texture_size,
        ensures
            final(self).spec_id() == old(self).spec_id(),
            final(self).spec_width() == width,
            final(self).spec_height() == height,
            r == (TexImage {
                texture: old(self).spec_id(),
                target: gl::TEXTURE_2D,
                internal_format: gl::RGBA as i32,
                width: width as i32,
                height: height as i32,
                format: color.spec_gl_format(),
                data_type: gl::UNSIGNED_BYTE,
            }),
    {
        // the driver's limit fits in an i32, and so does each dimension
        let _limit = ctx.max_texture_size();
        *self = Texture { id: self.id, width, height };
        TexImage {
            texture: self.id,
            target: gl::TEXTURE_2D,
            internal_format: gl::RGBA as i32,
            width: width as i32,
            height: height as i32,
            format: color.gl_format(),
            data_type: gl::UNSIGNED_BYTE,
        }
    }

    /// Uploads bytes laid out as `color` to the `width` x `height` region at
    /// (`x`, `y`), which must lie within the current image.
    pub fn set_subimage(&self, x: u32, y: u32, width: u32, height: u32, color: ColorFormat) -> (r:
        TexSubImage)
        requires
            self.region_fits(x, y, width, height),
        ensures
            r == (TexSubImage {
                texture: self.spec_id(),
                target: gl::TEXTURE_2D,
                x: x as i32,
                y: y as i32,
                width: width as i32,
                height: height as i32,
                format: color.spec_gl_format(),
                data_type: gl::UNSIGNED_BYTE,
            }),
    {
        proof {
            use_type_invariant(self);
        }
        TexSubImage {
            texture: self.id,
            target: gl::TEXTURE_2D,
            x: x as i32,
            y: y as i32,
            width: width as i32,
            height: height as i32,
            format: color.gl_format(),
            data_type: gl::UNSIGNED_BYTE,
        }
    }

    fn set_texture_param(&self, param: u32, value: i32) -> (r: TexParameter)
        ensures
            r == (TexParameter { texture: self.spec_id(), target: gl::TEXTURE_2D, param, value }),
    {
        TexParameter { texture: self.id, target: gl::TEXTURE_2D, param, value }
    }

    /// Sets how the texture is sampled when it is drawn smaller than it is.
    pub fn set_minification(&self, min: TextureFilter) -> (r: TexParameter)
        ensures
            r == (TexParameter {
                texture: self.spec_id(),
                target: gl::TEXTURE_2D,
                param: gl::TEXTURE_MIN_FILTER,
                value: min.spec_to_gl(),
            }),
    {
        self.set_texture_param(gl::TEXTURE_MIN_FILTER, min.to_gl())
    }

    /// Sets how the texture is sampled when it is drawn larger than it is.
    pub fn set_magnification(&self, max: TextureFilter) -> (r: TexParameter)
        ensures
            r == (TexParameter {
                texture: self.spec_id(),
                target: gl::TEXTURE_2D,
                param: gl::TEXTURE_MAG_FILTER,
                value: max.spec_to_gl(),
            }),
    {
        self.set_texture_param(gl::TEXTURE_MAG_FILTER, max.to_gl())
    }

    /// Sets how the texture wraps horizontally.
    pub fn set_wrap_h(&self, wrap: TextureWrap) -> (r: TexParameter)
        ensures
            r == (TexParameter {
                texture: self.spec_id(),
                target: gl::TEXTURE_2D,
                param: gl::TEXTURE_WRAP_S,
                value: wrap.spec_to_gl(),
            }),
    {
        self.set_texture_param(gl::TEXTURE_WRAP_S, wrap.to_gl())
    }

    /// Sets how the texture wraps vertically.
    pub fn set_wrap_v(&self, wrap: TextureWrap) -> (r: TexParameter)
        ensures
            r == (TexParameter {
                texture: self.spec_id(),
                target: gl::TEXTURE_2D,
                param: gl::TEXTURE_WRAP_T,
                value: wrap.spec_to_gl(),
            }),
    {
        self.set_texture_param(gl::TEXTURE_WRAP_T, wrap.to_gl())
    }
}

/// Once an image of `width` x `height` is set, no region reaching past its
/// right or bottom edge may be uploaded to the texture.
pub proof fn lemma_image_size_bounds_regions(
    before: Texture,
    after: Texture,
    width: u32,
    height: u32,
    x: u32,
    y: u32,
    region_width: u32,
    region_height: u32,
)
    requires
        after.spec_id() == before.spec_id(),
        after.spec_width() == width,
        after.spec_height() == height,
    ensures
        x + region_width > width ==> !after.region_fits(x, y, region_width, region_height),
        y + region_height > height ==> !after.region_fits(x, y, region_width, region_height),
{
}

} // verus!
