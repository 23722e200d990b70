//! The vocabulary of planned graphics-device calls.
//!
//! A `GlCall` is one call into the graphics bindings, recorded as plain data:
//! object names are `u32` handles, scalar payloads are IEEE-754 bit patterns.
//! The verified planners in this crate produce sequences of these; the
//! unverified shell performs them in order.

use vstd::prelude::*;

verus! {

/// The name (identifier) of a graphics-device object, as the device reports it.
pub type GlId = u32;

/// One call into the graphics bindings, as plain data.
///
/// Scalar fields named `*_bits` carry the IEEE-754 bit pattern of a
/// single-precision float; this library routes such values without ever
/// interpreting them.
#[derive(Debug, Clone, PartialEq)]
pub enum GlCall {
    /// Set the viewport to the given size, anchored at the origin.
    Viewport { width: usize, height: usize },
    /// Bind the given framebuffer object as the render target.
    BindFramebuffer { framebuffer: GlId },
    /// Bind the default (on-screen) framebuffer as the render target.
    UnbindFramebuffer,
    /// Attach the given texture as the bound framebuffer's color attachment.
    AttachTexture { texture: GlId },
    /// Bind the given renderbuffer object.
    BindRenderbuffer { renderbuffer: GlId },
    /// Allocate combined depth and stencil storage for the bound renderbuffer.
    RenderbufferDepthStencil { width: usize, height: usize },
    /// Unbind the current renderbuffer object.
    UnbindRenderbuffer,
    /// Attach the given renderbuffer as the bound framebuffer's
    /// depth and stencil attachment.
    AttachDepthStencil { renderbuffer: GlId },
    /// Query the bound framebuffer's completeness; the shell treats an
    /// incomplete framebuffer as a fatal contract violation.
    CheckFramebufferComplete,
    /// Bind the given two-dimensional texture object.
    BindTexture { texture: GlId },
    /// Upload image data for the bound texture: `width * height` packed RGBA
    /// texels of one byte per channel, or no initial data.
    TexImage2d { width: usize, height: usize, pixels: Option<Vec<u8>> },
    /// Unbind the current two-dimensional texture object.
    UnbindTexture,
    /// Set the horizontal wrap parameter of the bound texture.
    TexWrapS { wrap: WrapParam },
    /// Set the vertical wrap parameter of the bound texture.
    TexWrapT { wrap: WrapParam },
    /// Set the magnification filter of the bound texture.
    TexMagFilter { filter: FilterParam },
    /// Set the minification filter of the bound texture.
    TexMinFilter { filter: FilterParam },
    /// Select the numbered texture unit as the active one.
    ActiveTexture { unit: u32 },
    /// Bind the given buffer object as the array buffer.
    BindBuffer { buffer: GlId },
    /// Upload the vertex data currently held by the planning buffer into the
    /// bound array buffer, with a static-draw usage hint. The payload stays
    /// with the shell; `len` records how many vertex records it holds.
    BufferVertexData { len: usize },
    /// Describe one vertex attribute of the bound array buffer: `size`
    /// float components per vertex, records `stride` bytes apart, the first
    /// starting `offset` bytes in, not normalized.
    VertexAttribPointer { index: u32, size: u8, stride: u32, offset: u32 },
    /// Enable the numbered vertex attribute of the bound vertex array.
    EnableVertexAttribArray { index: u32 },
    /// Bind the given vertex array object.
    BindVertexArray { array: GlId },
    /// Unbind the current vertex array object.
    UnbindVertexArray,
    /// Activate the given linked program object.
    UseProgram { program: GlId },
    /// Set the named float uniform of the active program.
    Uniform1f { name: String, x_bits: u32 },
    /// Set the named two-component vector uniform of the active program.
    Uniform2f { name: String, x_bits: u32, y_bits: u32 },
    /// Set the named three-component vector uniform of the active program.
    Uniform3f { name: String, x_bits: u32, y_bits: u32, z_bits: u32 },
    /// Set the named four-component vector uniform of the active program.
    Uniform4f { name: String, x_bits: u32, y_bits: u32, z_bits: u32, w_bits: u32 },
    /// Set the named 4x4 float matrix uniform of the active program,
    /// in column-major order, untransposed.
    UniformMatrix4 { name: String, column_major_bits: [u32; 16] },
    /// Set the named integer (sampler) uniform of the active program.
    Uniform1i { name: String, value: i32 },
    /// Enable the depth comparison test.
    EnableDepthTest,
    /// Disable the depth comparison test.
    DisableDepthTest,
    /// Enable blending.
    EnableBlend,
    /// Disable blending.
    DisableBlend,
    /// Program one blend factor pair for all channels; the factors are
    /// graphics-API enum values.
    BlendFunc { src: u32, dst: u32 },
    /// Program separate color and alpha blend factor pairs; the factors are
    /// graphics-API enum values.
    BlendFuncSeparate { src_color: u32, dst_color: u32, src_alpha: u32, dst_alpha: u32 },
    /// Set the blend constant color; each channel is a float bit pattern.
    BlendColor { r_bits: u32, g_bits: u32, b_bits: u32, a_bits: u32 },
    /// Set the clear color; each channel is a float bit pattern.
    ClearColor { r_bits: u32, g_bits: u32, b_bits: u32, a_bits: u32 },
    /// Clear the color and depth buffers of the bound render target.
    ClearColorAndDepth,
    /// Issue a triangle-list draw of `count` vertices from the bound
    /// vertex array, starting at the first.
    DrawTriangles { count: usize },
}

/// A texture coordinate wrap parameter, as the graphics API names them.
#[derive(Debug, Clone, Copy, PartialEq, Eq, Structural)]
pub enum WrapParam {
    Repeat,
    ClampToEdge,
    ClampToBorder,
}

/// A texture sampling filter parameter, as the graphics API names them.
#[derive(Debug, Clone, Copy, PartialEq, Eq, Structural)]
pub enum FilterParam {
    Linear,
    Nearest,
}

} // verus!
