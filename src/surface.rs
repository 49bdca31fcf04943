//! Render targets: framebuffers whose color goes to a texture.
use vstd::prelude::*;
use crate::context::Context;
use crate::texture::Texture;
use crate::{gl, ColorFormat};

verus! {

/// The driver calls that attach `texture` as the color output of
/// `framebuffer`, then bind `restore` (`None`: the default framebuffer) again.
#[derive(Clone, Copy, Debug, PartialEq, Eq, Structural)]
pub struct SurfaceAttachment {
    pub framebuffer: u32,
    pub attachment: u32,
    pub texture_target: u32,
    pub texture: u32,
    pub restore: Option<u32>,
}

/// The driver calls that read the `width` x `height` pixels at (`x`, `y`) of
/// `framebuffer` as bytes laid out as `format`, then bind `restore` (`None`:
/// the default framebuffer) again.
#[derive(Clone, Copy, Debug, PartialEq, Eq, Structural)]
pub struct PixelRead {
    pub framebuffer: u32,
    pub x: i32,
    pub y: i32,
    pub width: i32,
    pub height: i32,
    pub format: u32,
    pub data_type: u32,
    pub restore: Option<u32>,
}

/// A framebuffer that renders to a texture.
#[derive(Debug)]
pub struct Surface {
    id: u32,
    texture: Texture,
}

impl Surface {
    pub closed spec fn spec_id(self) -> u32 {
        self.id
    }

    pub closed spec fn spec_texture(self) -> Texture {
        self.texture
    }

    /// Wraps the driver framebuffer `id`, whose color goes to `texture`,
    /// with the attachment of the texture as its color output, made while
    /// the context's render target stays what it was.
    pub fn new(ctx: &Context, id: u32, texture: Texture) -> (r: (Surface, SurfaceAttachment))
        ensures
            r.0.spec_id() == id,
            r.0.spec_texture() == texture,
            r.1 == (SurfaceAttachment {
                framebuffer: id,
                attachment: gl::COLOR_ATTACHMENT0,
                texture_target: gl::TEXTURE_2D,
                texture: texture.spec_id(),
                restore: ctx@.current_surface,
            }),
    {
        let attachment = SurfaceAttachment {
            framebuffer: id,
            attachment: gl::COLOR_ATTACHMENT0,
            texture_target: gl::TEXTURE_2D,
            texture: texture.id(),
            restore: ctx.current_surface(),
        };
        (Surface { id, texture }, attachment)
    }

    pub fn id(&self) -> (r: u32)
        ensures
            r == self.spec_id(),
    {
        self.id
    }

    /// Makes this surface the render target.
    pub fn bind(&self, ctx: &mut Context)
        ensures
            final(ctx)@ == old(ctx)@.with_surface(Some(self.spec_id())),
    {
        ctx.bind_surface(Some(self.id));
    }

    /// Makes the default framebuffer the render target.
    pub fn unbind(ctx: &mut Context)
        ensures
            final(ctx)@ == old(ctx)@.with_surface(None),
    {
        ctx.bind_surface(None);
    }

    /// The texture the surface renders to.
    pub fn texture(&self) -> (r: &Texture)
        ensures
            *r == self.spec_texture(),
    {
        &self.texture
    }

    /// The texture the surface renders to, to upload a new image to it.
    pub fn texture_mut(&mut self) -> (r: &mut Texture)
        ensures
            *r == old(self).spec_texture(),
            final(self).spec_id() == old(self).spec_id(),
            final(self).spec_texture() == *final(r),
    {
        &mut self.texture
    }

    /// Whether this surface is the render target.
    pub fn is_bound(&self, ctx: &Context) -> (r: bool)
        ensures
            r == (ctx@.current_surface == Some(self.spec_id())),
    {
        match ctx.current_surface() {
            Some(surface) => surface == self.id,
            None => false,
        }
    }

    /// Reads the `width` x `height` pixels at (`x`, `y`) into a buffer of
    /// `buffer_len` bytes; the surface must be bound, and the buffer must
    /// hold `width * height` pixels of `format`.
    pub fn get_pixel_data(
        &self,
        ctx: &Context,
        x: u32,
        y: u32,
        width: u32,
        height: u32,
        format: ColorFormat,
        buffer_len: usize,
    ) -> (r: PixelRead)
        requires
            ctx@.current_surface == Some(self.spec_id()),
            width * height * format.spec_bytes_per_pixel() <= u32::MAX,
            width * height * format.spec_bytes_per_pixel() <= buffer_len,
            x <= i32::MAX,
            y <= i32::MAX,
            width <= i32::MAX,
            height <= i32::MAX,
        ensures
            r == (PixelRead {
                framebuffer: self.spec_id(),
                x: x as i32,
                y: y as i32,
                width: width as i32,
                height: height as i32,
                format: format.spec_gl_format(),
                data_type: gl::UNSIGNED_BYTE,
                restore: ctx@.current_surface,
            }),
    {
        PixelRead {
            framebuffer: self.id,
            x: x as i32,
            y: y as i32,
            width: width as i32,
            height: height as i32,
            format: format.gl_format(),
            data_type: gl::UNSIGNED_BYTE,
            restore: ctx.current_surface(),
        }
    }
}

} // verus!
