//! Two-dimensional textures, their sampling format, and the lazily created
//! render-target surface of a texture.

use vstd::prelude::*;

verus! {

use crate::glcall::FilterParam;
use crate::glcall::GlCall;
use crate::glcall::GlId;
use crate::glcall::WrapParam;

/// How texture coordinates outside the unit square are treated.
#[derive(Debug, Clone, Copy, PartialEq, Eq, Structural)]
pub enum TextureFormatWrap {
    Repeat,
    Clamp,
    Border,
}

/// How texels are filtered, for magnification and minification alike.
#[derive(Debug, Clone, Copy, PartialEq, Eq, Structural)]
pub enum TextureFormatFilter {
    Linear,
    Nearest,
}

/// Sampling parameters applied when a texture is bound for a draw: a wrap
/// mode and a filter mode.
#[derive(Debug, Clone, Copy, PartialEq, Eq, Structural)]
pub struct TextureFormat {
    pub wrap: TextureFormatWrap,
    pub filter: TextureFormatFilter,
}

impl TextureFormat {
    /// The default sampling parameters: clamped coordinates, linear filter.
    pub fn new() -> (r: TextureFormat)
        ensures
            r == (TextureFormat { wrap: TextureFormatWrap::Clamp, filter: TextureFormatFilter::Linear }),
    {
        TextureFormat { wrap: TextureFormatWrap::Clamp, filter: TextureFormatFilter::Linear }
    }

    /// The same parameters with the wrap mode replaced.
    pub fn set_wrap(self, option: TextureFormatWrap) -> (r: TextureFormat)
        ensures
            r == (TextureFormat { wrap: option, ..self }),
    {
        TextureFormat { wrap: option, ..self }
    }

    /// The same parameters with the filter mode replaced.
    pub fn set_filter(self, option: TextureFormatFilter) -> (r: TextureFormat)
        ensures
            r == (TextureFormat { filter: option, ..self }),
    {
        TextureFormat { filter: option, ..self }
    }

    /// The wrap parameter as the graphics API names it.
    pub open spec fn spec_wrap_param(self) -> WrapParam {
        match self.wrap {
            TextureFormatWrap::Repeat => WrapParam::Repeat,
            TextureFormatWrap::Clamp => WrapParam::ClampToEdge,
            TextureFormatWrap::Border => WrapParam::ClampToBorder,
        }
    }

    /// The filter parameter as the graphics API names it.
    pub open spec fn spec_filter_param(self) -> FilterParam {
        match self.filter {
            TextureFormatFilter::Linear => FilterParam::Linear,
            TextureFormatFilter::Nearest => FilterParam::Nearest,
        }
    }

    /// The wrap parameter as the graphics API names it.
    pub fn wrap_param(&self) -> (r: WrapParam)
        ensures
            r == self.spec_wrap_param(),
    {
        match self.wrap {
            TextureFormatWrap::Repeat => WrapParam::Repeat,
            TextureFormatWrap::Clamp => WrapParam::ClampToEdge,
            TextureFormatWrap::Border => WrapParam::ClampToBorder,
        }
    }

    /// The filter parameter as the graphics API names it.
    pub fn filter_param(&self) -> (r: FilterParam)
        ensures
            r == self.spec_filter_param(),
    {
        match self.filter {
            TextureFormatFilter::Linear => FilterParam::Linear,
            TextureFormatFilter::Nearest => FilterParam::Nearest,
        }
    }
}

/// A render-target view of a texture: one framebuffer object with the
/// texture as its color attachment, and one combined depth and stencil
/// renderbuffer sized to the texture.
#[derive(Debug, Clone, Copy, PartialEq, Eq)]
pub struct Surface {
    object_framebuffer: GlId,
    object_renderbuffer: GlId,
    size: (usize, usize),
}

impl Surface {
    /// The framebuffer object's name.
    pub closed spec fn spec_framebuffer(self) -> GlId {
        self.object_framebuffer
    }

    /// The renderbuffer object's name.
    pub closed spec fn spec_renderbuffer(self) -> GlId {
        self.object_renderbuffer
    }

    /// The surface's size, which is its parent texture's.
    pub closed spec fn spec_size(self) -> (usize, usize) {
        self.size
    }

    /// The framebuffer object's name.
    pub fn handle_framebuffer(&self) -> (r: GlId)
        ensures
            r == self.spec_framebuffer(),
    {
        self.object_framebuffer
    }

    /// The renderbuffer object's name.
    pub fn handle_renderbuffer(&self) -> (r: GlId)
        ensures
            r == self.spec_renderbuffer(),
    {
        self.object_renderbuffer
    }

    /// The surface's width in pixels.
    pub fn width(&self) -> (r: usize)
        ensures
            r == self.spec_size().0,
    {
        self.size.0
    }

    /// The surface's height in pixels.
    pub fn height(&self) -> (r: usize)
        ensures
            r == self.spec_size().1,
    {
        self.size.1
    }
}

/// The calls that create and upload a texture image: bind the texture
/// object, specify a `width` by `height` RGBA image with one byte per
/// channel (or no initial data), and unbind.
pub open spec fn texture_image_calls(
    object: GlId,
    width: usize,
    height: usize,
    pixels: Option<Vec<u8>>,
) -> Seq<GlCall> {
    seq![
        GlCall::BindTexture { texture: object },
        GlCall::TexImage2d { width, height, pixels },
        GlCall::UnbindTexture,
    ]
}

/// The calls that build a surface over a texture: bind a fresh framebuffer,
/// attach the texture as its color attachment, allocate a depth and stencil
/// renderbuffer of the texture's size and attach it, demand completeness,
/// and unbind back to the default framebuffer.
pub open spec fn surface_setup_calls(
    object: GlId,
    width: usize,
    height: usize,
    framebuffer: GlId,
    renderbuffer: GlId,
) -> Seq<GlCall> {
    seq![
        GlCall::BindFramebuffer { framebuffer },
        GlCall::AttachTexture { texture: object },
        GlCall::BindRenderbuffer { renderbuffer },
        GlCall::RenderbufferDepthStencil { width, height },
        GlCall::UnbindRenderbuffer,
        GlCall::AttachDepthStencil { renderbuffer },
        GlCall::CheckFramebufferComplete,
        GlCall::UnbindFramebuffer,
    ]
}

/// A two-dimensional image resource: a texture object and its fixed size,
/// with at most one lazily created surface cached for the texture's
/// lifetime.
#[derive(Debug)]
pub struct Texture {
    size: (usize, usize),
    object: GlId,
    surface: Option<Surface>,
}

/// What `Texture::surface` leaves behind and returns: the cached surface and
/// no calls where one exists; otherwise a surface over the given fresh
/// framebuffer and renderbuffer objects, now cached, and the plan that
/// builds it.
pub closed spec fn surface_outcome(t: Texture, framebuffer: GlId, renderbuffer: GlId) -> (
    Texture,
    Surface,
    Seq<GlCall>,
) {
    match t.spec_surface() {
        Some(s) => (t, s, Seq::<GlCall>::empty()),
        None => {
            let s = Surface {
                object_framebuffer: framebuffer,
                object_renderbuffer: renderbuffer,
                size: t.spec_size(),
            };
            (
                Texture { surface: Some(s), ..t },
                s,
                surface_setup_calls(
                    t.spec_object(),
                    t.spec_size().0,
                    t.spec_size().1,
                    framebuffer,
                    renderbuffer,
                ),
            )
        },
    }
}

impl Texture {
    /// The texture's size in pixels.
    pub closed spec fn spec_size(self) -> (usize, usize) {
        self.size
    }

    /// The texture object's name.
    pub closed spec fn spec_object(self) -> GlId {
        self.object
    }

    /// The cached surface, if one was created.
    pub closed spec fn spec_surface(self) -> Option<Surface> {
        self.surface
    }

    /// Well-formed: a cached surface has its parent texture's size.
    pub open spec fn wf(self) -> bool {
        match self.spec_surface() {
            Some(s) => s.spec_size() == self.spec_size(),
            None => true,
        }
    }

    /// A texture of the given size around the texture object `object`, and
    /// the plan that uploads its initial image: `data` holds `width * height`
    /// packed RGBA texels of one byte per channel.
    pub fn new(object: GlId, width: usize, height: usize, data: Vec<u8>) -> (r: (
        Texture,
        Vec<GlCall>,
    ))
        requires
            data@.len() == width * height * 4,
        ensures
            r.0.wf(),
            r.0.spec_size() == (width, height),
            r.0.spec_object() == object,
            r.0.spec_surface() is None,
            r.1@ == texture_image_calls(object, width, height, Some(data)),
    {
        let ghost given = data;
        let mut calls: Vec<GlCall> = Vec::new();
        calls.push(GlCall::BindTexture { texture: object });
        calls.push(GlCall::TexImage2d { width, height, pixels: Some(data) });
        calls.push(GlCall::UnbindTexture);
        proof {
            assert(calls@ =~= texture_image_calls(object, width, height, Some(given)));
        }
        (Texture { size: (width, height), object, surface: None }, calls)
    }

    /// As `new`, but checked: returns nothing, and plans nothing, where
    /// `data` does not hold exactly `width * height * 4` bytes.
    pub fn new_checked(object: GlId, width: usize, height: usize, data: Vec<u8>) -> (r: Option<
        (Texture, Vec<GlCall>),
    >)
        ensures
            r is Some <==> data@.len() == width * height * 4,
            match r {
                Some(p) => {
                    &&& p.0.wf()
                    &&& p.0.spec_size() == (width, height)
                    &&& p.0.spec_object() == object
                    &&& p.0.spec_surface() is None
                },
                None => true,
            },
    {
        let len = data.len();
        match width.checked_mul(height) {
            Some(wh) => {
                match wh.checked_mul(4) {
                    Some(n) => {
                        if n == len {
                            Some(Self::new(object, width, height, data))
                        } else {
                            None
                        }
                    },
                    None => None,
                }
            },
            None => {
                proof {
                    assert(width * height * 4 >= width * height) by (nonlinear_arith);
                }
                None
            },
        }
    }

    /// A texture of the given size with no initial image data, and the plan
    /// that allocates it.
    pub fn new_empty(object: GlId, width: usize, height: usize) -> (r: (Texture, Vec<GlCall>))
        ensures
            r.0.wf(),
            r.0.spec_size() == (width, height),
            r.0.spec_object() == object,
            r.0.spec_surface() is None,
            r.1@ == texture_image_calls(object, width, height, None),
    {
        let mut calls: Vec<GlCall> = Vec::new();
        calls.push(GlCall::BindTexture { texture: object });
        calls.push(GlCall::TexImage2d { width, height, pixels: None });
        calls.push(GlCall::UnbindTexture);
        proof {
            assert(calls@ =~= texture_image_calls(object, width, height, None));
        }
        (Texture { size: (width, height), object, surface: None }, calls)
    }

    /// The texture object's name.
    pub fn handle(&self) -> (r: GlId)
        ensures
            r == self.spec_object(),
    {
        self.object
    }

    /// The texture's width in pixels.
    pub fn width(&self) -> (r: usize)
        ensures
            r == self.spec_size().0,
    {
        self.size.0
    }

    /// The texture's height in pixels.
    pub fn height(&self) -> (r: usize)
        ensures
            r == self.spec_size().1,
    {
        self.size.1
    }

    /// Whether a surface was created for this texture yet. Where it was, a
    /// call of `surface` needs no fresh objects and plans nothing.
    pub fn has_surface(&self) -> (r: bool)
        ensures
            r == (self.spec_surface() is Some),
    {
        self.surface.is_some()
    }

    /// The texture's render-target surface. The first call consumes the two
    /// fresh object names and returns the plan that builds the surface; the
    /// surface is then cached, and every later call returns the identical
    /// surface with nothing further planned.
    pub fn surface(&mut self, framebuffer: GlId, renderbuffer: GlId) -> (r: (Surface, Vec<GlCall>))
        requires
            old(self).wf(),
        ensures
            final(self).wf(),
            *final(self) == surface_outcome(*old(self), framebuffer, renderbuffer).0,
            r.0 == surface_outcome(*old(self), framebuffer, renderbuffer).1,
            r.1@ == surface_outcome(*old(self), framebuffer, renderbuffer).2,
            final(self).spec_size() == old(self).spec_size(),
            final(self).spec_object() == old(self).spec_object(),
            final(self).spec_surface() == Some(r.0),
            r.0.spec_size() == old(self).spec_size(),
            old(self).spec_surface() is Some ==> old(self).spec_surface() == Some(r.0)
                && r.1@ == Seq::<GlCall>::empty(),
            old(self).spec_surface() is None ==> r.0.spec_framebuffer() == framebuffer
                && r.0.spec_renderbuffer() == renderbuffer && r.1@ == surface_setup_calls(
                old(self).spec_object(),
                old(self).spec_size().0,
                old(self).spec_size().1,
                framebuffer,
                renderbuffer,
            ),
    {
        match self.surface {
            Some(s) => (s, Vec::new()),
            None => {
                let s = Surface {
                    object_framebuffer: framebuffer,
                    object_renderbuffer: renderbuffer,
                    size: self.size,
                };
                let mut calls: Vec<GlCall> = Vec::new();
                calls.push(GlCall::BindFramebuffer { framebuffer });
                calls.push(GlCall::AttachTexture { texture: self.object });
                calls.push(GlCall::BindRenderbuffer { renderbuffer });
                calls.push(GlCall::RenderbufferDepthStencil {
                    width: self.size.0,
                    height: self.size.1,
                });
                calls.push(GlCall::UnbindRenderbuffer);
                calls.push(GlCall::AttachDepthStencil { renderbuffer });
                calls.push(GlCall::CheckFramebufferComplete);
                calls.push(GlCall::UnbindFramebuffer);
                proof {
                    assert(calls@ =~= surface_setup_calls(
                        self.object,
                        self.size.0,
                        self.size.1,
                        framebuffer,
                        renderbuffer,
                    ));
                }
                self.surface = Some(s);
                (s, calls)
            },
        }
    }
}

/// However a texture was obtained, its surface is created at most once: after
/// one call of `surface`, a second call — with any fresh object names —
/// returns the identical surface, leaves the texture unchanged, and plans no
/// further calls.
pub proof fn law_surface_created_once(
    t: Texture,
    framebuffer1: GlId,
    renderbuffer1: GlId,
    framebuffer2: GlId,
    renderbuffer2: GlId,
)
    ensures
        ({
            let first = surface_outcome(t, framebuffer1, renderbuffer1);
            let second = surface_outcome(first.0, framebuffer2, renderbuffer2);
            &&& second.1 == first.1
            &&& second.0 == first.0
            &&& second.2 =~= Seq::<GlCall>::empty()
        }),
{
}

} // verus!
