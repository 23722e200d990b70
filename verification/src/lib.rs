//! A typed, checked model of an immediate-mode GPU draw-call pipeline.
//!
//! Every operation that would touch the graphics device is described here as
//! a plan: a sequence of [`glcall::GlCall`] values computed, and proved
//! correct, from plain data. A thin unverified shell owns the device handles,
//! performs each planned call through the graphics bindings, and hands the
//! results of device queries (compile status, reflection tables, generated
//! object names) back into this library as plain values.

use vstd::prelude::*;

mod color;
mod draw;
mod glcall;
mod shader;
mod texture;
mod uniform;
mod vertex;

pub use color::Color;
pub use color::hex_color_channels;
pub use color::parse_hex_rgba;
pub use draw::Config;
pub use draw::ConfigBlend;
pub use draw::Draw;
pub use draw::DrawError;
pub use draw::blend_factor_value;
pub use draw::clear_calls;
pub use draw::config_calls;
pub use draw::draw_plan_calls;
pub use draw::entries_valid;
pub use draw::entry_calls;
pub use draw::entry_valid;
pub use draw::first_uniform_error;
pub use draw::first_uniform_error_from;
pub use draw::assigned_units;
pub use draw::law_fault_iff_binding_invalid;
pub use draw::law_last_blend_mode_wins;
pub use draw::law_plans_restore_defaults;
pub use draw::law_texture_units_sequential;
pub use draw::sampler_count;
pub use draw::spec_blended;
pub use draw::spec_blended_sep;
pub use draw::target_bind_calls;
pub use draw::target_restore_calls;
pub use draw::target_value;
pub use draw::uniform_calls;
pub use glcall::FilterParam;
pub use glcall::GlCall;
pub use glcall::GlId;
pub use glcall::WrapParam;
pub use shader::Shader;
pub use shader::ShaderPart;
pub use shader::ShaderPartFragment;
pub use shader::ShaderPartVertex;
pub use shader::lookup_uniform;
pub use texture::Surface;
pub use texture::Texture;
pub use texture::TextureFormat;
pub use texture::TextureFormatFilter;
pub use texture::TextureFormatWrap;
pub use texture::law_surface_created_once;
pub use texture::surface_outcome;
pub use texture::surface_setup_calls;
pub use texture::texture_image_calls;
pub use uniform::UniformEmpty;
pub use uniform::UniformItem;
pub use uniform::UniformKind;
pub use uniform::UniformTypes;
pub use uniform::value_kind;
pub use vertex::VertexBuffer;
pub use vertex::VertexFormat;
pub use vertex::buffer_setup_calls;
pub use vertex::emit_calls;
pub use vertex::field_offset;
pub use vertex::law_rebuffer_replaces;
pub use vertex::rebuffer_calls;
pub use vertex::rebuffer_outcome;
pub use vertex::total_stride;

verus! {

/// Width in pixels of the default render target's viewport.
pub const DEFAULT_VIEWPORT_WIDTH: usize = 640;

/// Height in pixels of the default render target's viewport.
pub const DEFAULT_VIEWPORT_HEIGHT: usize = 480;

} // verus!
