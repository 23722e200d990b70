//! Per-draw pipeline configuration and the draw orchestrator: the one place
//! where a render target, a shader, a vertex buffer, a list of uniform
//! bindings and a configuration are combined into a validated plan of calls.

use vstd::prelude::*;

verus! {

use crate::color::Color;
use crate::glcall::GlCall;
use crate::glcall::GlId;
use crate::shader::Shader;
use crate::shader::lookup_uniform;
use crate::texture::Surface;
use crate::uniform::UniformItem;
use crate::uniform::UniformKind;
use crate::uniform::UniformTypes;
use crate::uniform::value_kind;
use crate::vertex::VertexBuffer;
use crate::DEFAULT_VIEWPORT_WIDTH;
use crate::DEFAULT_VIEWPORT_HEIGHT;

/// One blend factor, as the blend equation names them.
#[derive(Debug, Clone, Copy, PartialEq, Eq, Structural)]
pub enum ConfigBlend {
    Zero,
    One,
    SrcColor,
    InvSrcColor,
    DstColor,
    InvDstColor,
    SrcAlpha,
    InvSrcAlpha,
    DstAlpha,
    InvDstAlpha,
    ConstColor,
    InvConstColor,
    ConstAlpha,
    InvConstAlpha,
}

/// The graphics-API enum value of a blend factor.
pub open spec fn blend_factor_value(factor: ConfigBlend) -> u32 {
    match factor {
        ConfigBlend::Zero => 0,
        ConfigBlend::One => 1,
        ConfigBlend::SrcColor => 0x0300,
        ConfigBlend::InvSrcColor => 0x0301,
        ConfigBlend::SrcAlpha => 0x0302,
        ConfigBlend::InvSrcAlpha => 0x0303,
        ConfigBlend::DstAlpha => 0x0304,
        ConfigBlend::InvDstAlpha => 0x0305,
        ConfigBlend::DstColor => 0x0306,
        ConfigBlend::InvDstColor => 0x0307,
        ConfigBlend::ConstColor => 0x8001,
        ConfigBlend::InvConstColor => 0x8002,
        ConfigBlend::ConstAlpha => 0x8003,
        ConfigBlend::InvConstAlpha => 0x8004,
    }
}

impl ConfigBlend {
    /// The graphics-API enum value of this factor.
    fn to(&self) -> (r: u32)
        ensures
            r == blend_factor_value(*self),
    {
        match self {
            ConfigBlend::Zero => 0,
            ConfigBlend::One => 1,
            ConfigBlend::SrcColor => 0x0300,
            ConfigBlend::InvSrcColor => 0x0301,
            ConfigBlend::SrcAlpha => 0x0302,
            ConfigBlend::InvSrcAlpha => 0x0303,
            ConfigBlend::DstAlpha => 0x0304,
            ConfigBlend::InvDstAlpha => 0x0305,
            ConfigBlend::DstColor => 0x0306,
            ConfigBlend::InvDstColor => 0x0307,
            ConfigBlend::ConstColor => 0x8001,
            ConfigBlend::InvConstColor => 0x8002,
            ConfigBlend::ConstAlpha => 0x8003,
            ConfigBlend::InvConstAlpha => 0x8004,
        }
    }
}

/// The pipeline state for one draw: whether depth testing is on, the blend
/// mode if blending is on — one factor pair for all channels, or separate
/// color and alpha pairs — and the blend constant color. Purely descriptive;
/// owns nothing.
#[derive(Debug, Clone, Copy, PartialEq)]
pub struct Config {
    pub test_depth: bool,
    pub blendmode: Option<((ConfigBlend, ConfigBlend), Option<(ConfigBlend, ConfigBlend)>)>,
    pub blendcolor: Color,
}

/// `config` with blending set to the one combined factor pair: what
/// `Config::blend` returns.
pub open spec fn spec_blended(config: Config, src: ConfigBlend, dst: ConfigBlend) -> Config {
    Config { blendmode: Some(((src, dst), None)), ..config }
}

/// `config` with blending set to separate color and alpha factor pairs: what
/// `Config::blend_sep` returns.
pub open spec fn spec_blended_sep(
    config: Config,
    src_c: ConfigBlend,
    dst_c: ConfigBlend,
    src_a: ConfigBlend,
    dst_a: ConfigBlend,
) -> Config {
    Config { blendmode: Some(((src_c, dst_c), Some((src_a, dst_a)))), ..config }
}

impl Config {
    /// The default configuration: no depth test, no blending, an opaque
    /// white blend constant color.
    pub fn new() -> (r: Config)
        ensures
            r.test_depth == false,
            r.blendmode is None,
            r.blendcolor == Color::spec_opaque_white(),
    {
        Config { test_depth: false, blendmode: None, blendcolor: Color::opaque_white() }
    }

    /// The same configuration with depth testing turned on or off.
    pub fn depth(self, test: bool) -> (r: Config)
        ensures
            r == (Config { test_depth: test, ..self }),
    {
        Config { test_depth: test, ..self }
    }

    /// The same configuration with blending on, using one factor pair for
    /// all channels. This replaces whatever blend mode was set before.
    pub fn blend(self, src: ConfigBlend, dst: ConfigBlend) -> (r: Config)
        ensures
            r == spec_blended(self, src, dst),
    {
        Config { blendmode: Some(((src, dst), None)), ..self }
    }

    /// The same configuration with blending on, using separate color and
    /// alpha factor pairs. This replaces whatever blend mode was set before.
    pub fn blend_sep(
        self,
        src_c: ConfigBlend,
        dst_c: ConfigBlend,
        src_a: ConfigBlend,
        dst_a: ConfigBlend,
    ) -> (r: Config)
        ensures
            r == spec_blended_sep(self, src_c, dst_c, src_a, dst_a),
    {
        Config { blendmode: Some(((src_c, dst_c), Some((src_a, dst_a)))), ..self }
    }

    /// The same configuration with the given blend constant color, the color
    /// the constant blend factors refer to.
    pub fn blend_color(self, color: Color) -> (r: Config)
        ensures
            r == (Config { blendcolor: color, ..self }),
    {
        Config { blendcolor: color, ..self }
    }
}

/// Only one blend mode is active at draw time: the last one set. Setting
/// separate factor pairs fully supersedes a combined pair set earlier, and
/// leaves no trace of it.
pub proof fn law_last_blend_mode_wins(
    config: Config,
    src: ConfigBlend,
    dst: ConfigBlend,
    src_c: ConfigBlend,
    dst_c: ConfigBlend,
    src_a: ConfigBlend,
    dst_a: ConfigBlend,
)
    ensures
        spec_blended_sep(spec_blended(config, src, dst), src_c, dst_c, src_a, dst_a)
            == spec_blended_sep(config, src_c, dst_c, src_a, dst_a),
        spec_blended(spec_blended_sep(config, src_c, dst_c, src_a, dst_a), src, dst)
            == spec_blended(config, src, dst),
{
}

/// A fatal fault in how a draw call binds its uniforms; the caller violated
/// the layer's contract, and the shell terminates rather than render a
/// silently wrong frame.
#[derive(Debug, Clone, PartialEq)]
pub enum DrawError {
    /// The named uniform is bound in the call but not declared by the shader.
    UniformNotDeclared { name: String },
    /// The named uniform is bound with a value whose shape differs from the
    /// type the shader declares.
    UniformTypeMismatch { name: String },
}

/// The render target as a value: the surface bound for the draw, or nothing
/// for the default target.
pub open spec fn target_value(target: Option<&Surface>) -> Option<Surface> {
    match target {
        Some(s) => Some(*s),
        None => None,
    }
}

/// The calls that bind a render target: viewport to the target's size and
/// its framebuffer bound, or the default viewport and the default
/// framebuffer.
pub open spec fn target_bind_calls(target: Option<Surface>) -> Seq<GlCall> {
    match target {
        Some(s) => seq![
            GlCall::Viewport { width: s.spec_size().0, height: s.spec_size().1 },
            GlCall::BindFramebuffer { framebuffer: s.spec_framebuffer() },
        ],
        None => seq![
            GlCall::Viewport { width: DEFAULT_VIEWPORT_WIDTH, height: DEFAULT_VIEWPORT_HEIGHT },
            GlCall::UnbindFramebuffer,
        ],
    }
}

/// The calls that restore the default viewport and framebuffer after a draw
/// into a surface; a draw into the default target leaves nothing to restore.
pub open spec fn target_restore_calls(target: Option<Surface>) -> Seq<GlCall> {
    match target {
        Some(_) => seq![
            GlCall::Viewport { width: DEFAULT_VIEWPORT_WIDTH, height: DEFAULT_VIEWPORT_HEIGHT },
            GlCall::UnbindFramebuffer,
        ],
        None => Seq::<GlCall>::empty(),
    }
}

/// Whether one binding is valid against a reflection table: the shader
/// declares the name, with exactly the bound value's shape.
pub open spec fn entry_valid(
    table: Seq<(String, UniformKind)>,
    entry: (String, UniformTypes),
) -> bool {
    lookup_uniform(table, entry.0@) == Some(value_kind(entry.1))
}

/// Whether every binding of a list is valid against a reflection table.
pub open spec fn entries_valid(
    table: Seq<(String, UniformKind)>,
    entries: Seq<(String, UniformTypes)>,
) -> bool {
    forall|i: int| 0 <= i < entries.len() ==> entry_valid(table, #[trigger] entries[i])
}

/// The first fault among the bindings from index `i` on, in traversal order:
/// an undeclared name, or a declared type the bound value's shape does not
/// match.
pub open spec fn first_uniform_error_from(
    table: Seq<(String, UniformKind)>,
    entries: Seq<(String, UniformTypes)>,
    i: int,
) -> Option<DrawError>
    decreases entries.len() - i,
{
    if i < 0 || i >= entries.len() {
        None
    } else {
        match lookup_uniform(table, entries[i].0@) {
            None => Some(DrawError::UniformNotDeclared { name: entries[i].0 }),
            Some(kind) => {
                if kind == value_kind(entries[i].1) {
                    first_uniform_error_from(table, entries, i + 1)
                } else {
                    Some(DrawError::UniformTypeMismatch { name: entries[i].0 })
                }
            },
        }
    }
}

/// The first fault among all the bindings, or nothing where each one is
/// valid.
pub open spec fn first_uniform_error(
    table: Seq<(String, UniformKind)>,
    entries: Seq<(String, UniformTypes)>,
) -> Option<DrawError> {
    first_uniform_error_from(table, entries, 0)
}

/// There is no fault from index `i` on exactly where every binding from `i`
/// on is valid.
proof fn lemma_no_error_means_valid(
    table: Seq<(String, UniformKind)>,
    entries: Seq<(String, UniformTypes)>,
    i: int,
)
    requires
        0 <= i <= entries.len(),
    ensures
        (first_uniform_error_from(table, entries, i) is None) <==> (forall|j: int|
            i <= j < entries.len() ==> entry_valid(table, #[trigger] entries[j])),
    decreases entries.len() - i,
{
    if i < entries.len() {
        lemma_no_error_means_valid(table, entries, i + 1);
    }
}

/// A draw plans without a fault exactly where every binding of the list is
/// valid against the shader's reflection table.
pub proof fn law_fault_iff_binding_invalid(
    table: Seq<(String, UniformKind)>,
    entries: Seq<(String, UniformTypes)>,
)
    ensures
        (first_uniform_error(table, entries) is None) <==> entries_valid(table, entries),
{
    lemma_no_error_means_valid(table, entries, 0);
}

/// The number of sampler bindings in a list: how many texture units a draw
/// of it occupies.
pub open spec fn sampler_count(entries: Seq<(String, UniformTypes)>) -> int
    decreases entries.len(),
{
    if entries.len() == 0 {
        0
    } else {
        sampler_count(entries.drop_last()) + (if entries.last().1 is Sampler2D {
            1int
        } else {
            0int
        })
    }
}

/// A list never occupies more texture units than it has entries.
proof fn lemma_sampler_count_bounds(entries: Seq<(String, UniformTypes)>)
    ensures
        0 <= sampler_count(entries) <= entries.len(),
    decreases entries.len(),
{
    if entries.len() > 0 {
        lemma_sampler_count_bounds(entries.drop_last());
    }
}

/// The texture units a list's sampler bindings are given, in traversal
/// order: each sampler's unit is the number of samplers before it.
pub open spec fn assigned_units(entries: Seq<(String, UniformTypes)>) -> Seq<int>
    decreases entries.len(),
{
    if entries.len() == 0 {
        Seq::<int>::empty()
    } else {
        assigned_units(entries.drop_last()) + (if entries.last().1 is Sampler2D {
            seq![sampler_count(entries.drop_last())]
        } else {
            Seq::<int>::empty()
        })
    }
}

/// Texture units are allocated sequentially, restarting at zero for every
/// draw: across any list of bindings, the sampler bindings receive exactly
/// the units zero, one, two and so on, in traversal order.
pub proof fn law_texture_units_sequential(entries: Seq<(String, UniformTypes)>)
    ensures
        assigned_units(entries) =~= Seq::new(
            sampler_count(entries) as nat,
            |k: int| k,
        ),
    decreases entries.len(),
{
    lemma_sampler_count_bounds(entries);
    if entries.len() > 0 {
        lemma_sampler_count_bounds(entries.drop_last());
        law_texture_units_sequential(entries.drop_last());
    }
}

/// The calls that apply one uniform binding. A scalar, vector or matrix
/// value is set directly under its name. A sampler binding is given the
/// texture unit `unit`: the sampler uniform is set to that unit's index, the
/// unit is made active, the texture is bound to it, and the binding's wrap
/// and filter parameters are applied — the filter to magnification and
/// minification alike.
pub open spec fn entry_calls(entry: (String, UniformTypes), unit: int) -> Seq<GlCall> {
    match entry.1 {
        UniformTypes::Float1(x) => seq![GlCall::Uniform1f { name: entry.0, x_bits: x }],
        UniformTypes::Float2(x, y) => seq![
            GlCall::Uniform2f { name: entry.0, x_bits: x, y_bits: y },
        ],
        UniformTypes::Float3(x, y, z) => seq![
            GlCall::Uniform3f { name: entry.0, x_bits: x, y_bits: y, z_bits: z },
        ],
        UniformTypes::Float4(x, y, z, w) => seq![
            GlCall::Uniform4f { name: entry.0, x_bits: x, y_bits: y, z_bits: z, w_bits: w },
        ],
        UniformTypes::Mat4x4(m) => seq![
            GlCall::UniformMatrix4 { name: entry.0, column_major_bits: m },
        ],
        UniformTypes::Sampler2D(texture, format) => seq![
            GlCall::Uniform1i { name: entry.0, value: unit as i32 },
            GlCall::ActiveTexture { unit: unit as u32 },
            GlCall::BindTexture { texture },
            GlCall::TexWrapS { wrap: format.spec_wrap_param() },
            GlCall::TexWrapT { wrap: format.spec_wrap_param() },
            GlCall::TexMagFilter { filter: format.spec_filter_param() },
            GlCall::TexMinFilter { filter: format.spec_filter_param() },
        ],
    }
}

/// The calls that apply a whole list of bindings, in traversal order. Each
/// entry is applied exactly once; each sampler binding takes the next
/// sequential texture unit, starting at zero for every draw.
pub open spec fn uniform_calls(entries: Seq<(String, UniformTypes)>) -> Seq<GlCall>
    decreases entries.len(),
{
    if entries.len() == 0 {
        Seq::<GlCall>::empty()
    } else {
        uniform_calls(entries.drop_last()) + entry_calls(
            entries.last(),
            sampler_count(entries.drop_last()),
        )
    }
}

/// The calls that apply a configuration: the depth test set on or off, the
/// blend mode programmed and enabled — or blending disabled — and the blend
/// constant color always programmed, for determinism even when blending is
/// off.
pub open spec fn config_calls(config: Config) -> Seq<GlCall> {
    (if config.test_depth {
        seq![GlCall::EnableDepthTest]
    } else {
        seq![GlCall::DisableDepthTest]
    }) + (match config.blendmode {
        Some((color_pair, alpha)) => seq![GlCall::EnableBlend] + match alpha {
            Some(alpha_pair) => seq![
                GlCall::BlendFuncSeparate {
                    src_color: blend_factor_value(color_pair.0),
                    dst_color: blend_factor_value(color_pair.1),
                    src_alpha: blend_factor_value(alpha_pair.0),
                    dst_alpha: blend_factor_value(alpha_pair.1),
                },
            ],
            None => seq![
                GlCall::BlendFunc {
                    src: blend_factor_value(color_pair.0),
                    dst: blend_factor_value(color_pair.1),
                },
            ],
        },
        None => seq![GlCall::DisableBlend],
    }) + seq![
        GlCall::BlendColor {
            r_bits: config.blendcolor.r_bits,
            g_bits: config.blendcolor.g_bits,
            b_bits: config.blendcolor.b_bits,
            a_bits: config.blendcolor.a_bits,
        },
    ]
}

/// The full plan of a clear: bind the target, set the clear color, clear the
/// color and depth buffers, and restore the default target where a surface
/// was bound.
pub open spec fn clear_calls(target: Option<Surface>, color: Color) -> Seq<GlCall> {
    target_bind_calls(target) + seq![
        GlCall::ClearColor {
            r_bits: color.r_bits,
            g_bits: color.g_bits,
            b_bits: color.b_bits,
            a_bits: color.a_bits,
        },
        GlCall::ClearColorAndDepth,
    ] + target_restore_calls(target)
}

/// The full plan of a draw: bind the target, activate the program, apply
/// every uniform binding, apply the configuration, draw `verts` vertices as
/// triangles from the vertex array `array`, and restore the default target
/// where a surface was bound.
pub open spec fn draw_plan_calls(
    target: Option<Surface>,
    array: GlId,
    verts: int,
    program: GlId,
    entries: Seq<(String, UniformTypes)>,
    config: Config,
) -> Seq<GlCall> {
    target_bind_calls(target) + seq![GlCall::UseProgram { program }] + uniform_calls(entries)
        + config_calls(config) + seq![
        GlCall::BindVertexArray { array },
        GlCall::DrawTriangles { count: verts as usize },
        GlCall::UnbindVertexArray,
    ] + target_restore_calls(target)
}

/// Every plan that binds a surface target leaves the binding state as it
/// found it: its last two calls restore the default viewport and bind the
/// default framebuffer. A plan for the default target binds that target
/// up front and has nothing to restore.
pub proof fn law_plans_restore_defaults(
    surface: Surface,
    color: Color,
    array: GlId,
    verts: int,
    program: GlId,
    entries: Seq<(String, UniformTypes)>,
    config: Config,
)
    ensures
        ({
            let plan = draw_plan_calls(Some(surface), array, verts, program, entries, config);
            &&& plan.len() >= 2
            &&& plan[plan.len() - 2] == (GlCall::Viewport {
                width: DEFAULT_VIEWPORT_WIDTH,
                height: DEFAULT_VIEWPORT_HEIGHT,
            })
            &&& plan[plan.len() - 1] == GlCall::UnbindFramebuffer
        }),
        ({
            let plan = clear_calls(Some(surface), color);
            &&& plan.len() >= 2
            &&& plan[plan.len() - 2] == (GlCall::Viewport {
                width: DEFAULT_VIEWPORT_WIDTH,
                height: DEFAULT_VIEWPORT_HEIGHT,
            })
            &&& plan[plan.len() - 1] == GlCall::UnbindFramebuffer
        }),
        draw_plan_calls(None, array, verts, program, entries, config)[0] == (GlCall::Viewport {
            width: DEFAULT_VIEWPORT_WIDTH,
            height: DEFAULT_VIEWPORT_HEIGHT,
        }),
        draw_plan_calls(None, array, verts, program, entries, config)[1]
            == GlCall::UnbindFramebuffer,
{
}

/// Appends the calls that bind the render target.
fn push_target_bind(calls: &mut Vec<GlCall>, target: Option<&Surface>)
    ensures
        final(calls)@ == old(calls)@ + target_bind_calls(target_value(target)),
{
    match target {
        Some(surf) => {
            calls.push(GlCall::Viewport { width: surf.width(), height: surf.height() });
            calls.push(GlCall::BindFramebuffer { framebuffer: surf.handle_framebuffer() });
        },
        None => {
            calls.push(GlCall::Viewport {
                width: DEFAULT_VIEWPORT_WIDTH,
                height: DEFAULT_VIEWPORT_HEIGHT,
            });
            calls.push(GlCall::UnbindFramebuffer);
        },
    }
    proof {
        assert(calls@ =~= old(calls)@ + target_bind_calls(target_value(target)));
    }
}

/// Appends the calls that restore the default target after a draw into a
/// surface; nothing is appended for the default target.
fn push_target_restore(calls: &mut Vec<GlCall>, target: Option<&Surface>)
    ensures
        final(calls)@ == old(calls)@ + target_restore_calls(target_value(target)),
{
    if target.is_some() {
        calls.push(GlCall::Viewport {
            width: DEFAULT_VIEWPORT_WIDTH,
            height: DEFAULT_VIEWPORT_HEIGHT,
        });
        calls.push(GlCall::UnbindFramebuffer);
    }
    proof {
        assert(calls@ =~= old(calls)@ + target_restore_calls(target_value(target)));
    }
}

/// Appends the calls that apply one binding, declared as `kind` by the
/// shader and given the texture unit `unit` if it is a sampler. Appends
/// nothing and reports the mismatch where the value's shape is not `kind`.
fn push_entry_calls(
    calls: &mut Vec<GlCall>,
    name: &String,
    value: UniformTypes,
    kind: UniformKind,
    unit: usize,
) -> (fits: bool)
    requires
        unit < i32::MAX,
    ensures
        fits == (kind == value_kind(value)),
        fits ==> final(calls)@ == old(calls)@ + entry_calls((*name, value), unit as int),
        !fits ==> final(calls)@ == old(calls)@,
{
    let fits = match (kind, value) {
        (UniformKind::Float, UniformTypes::Float1(x)) => {
            calls.push(GlCall::Uniform1f { name: name.clone(), x_bits: x });
            true
        },
        (UniformKind::FloatVec2, UniformTypes::Float2(x, y)) => {
            calls.push(GlCall::Uniform2f { name: name.clone(), x_bits: x, y_bits: y });
            true
        },
        (UniformKind::FloatVec3, UniformTypes::Float3(x, y, z)) => {
            calls.push(GlCall::Uniform3f { name: name.clone(), x_bits: x, y_bits: y, z_bits: z });
            true
        },
        (UniformKind::FloatVec4, UniformTypes::Float4(x, y, z, w)) => {
            calls.push(GlCall::Uniform4f {
                name: name.clone(),
                x_bits: x,
                y_bits: y,
                z_bits: z,
                w_bits: w,
            });
            true
        },
        (UniformKind::FloatMat4x4, UniformTypes::Mat4x4(m)) => {
            calls.push(GlCall::UniformMatrix4 { name: name.clone(), column_major_bits: m });
            true
        },
        (UniformKind::Sampler2D, UniformTypes::Sampler2D(texture, format)) => {
            calls.push(GlCall::Uniform1i { name: name.clone(), value: unit as i32 });
            calls.push(GlCall::ActiveTexture { unit: unit as u32 });
            calls.push(GlCall::BindTexture { texture });
            let wrap = format.wrap_param();
            calls.push(GlCall::TexWrapS { wrap });
            calls.push(GlCall::TexWrapT { wrap });
            let filter = format.filter_param();
            calls.push(GlCall::TexMagFilter { filter });
            calls.push(GlCall::TexMinFilter { filter });
            true
        },
        _ => false,
    };
    proof {
        if fits {
            assert(calls@ =~= old(calls)@ + entry_calls((*name, value), unit as int));
        } else {
            assert(calls@ =~= old(calls)@);
        }
    }
    fits
}

/// Appends the calls that apply a configuration.
fn push_config_calls(calls: &mut Vec<GlCall>, config: &Config)
    ensures
        final(calls)@ == old(calls)@ + config_calls(*config),
{
    if config.test_depth {
        calls.push(GlCall::EnableDepthTest);
    } else {
        calls.push(GlCall::DisableDepthTest);
    }
    match config.blendmode {
        Some((color_pair, alpha)) => {
            calls.push(GlCall::EnableBlend);
            match alpha {
                Some(alpha_pair) => {
                    calls.push(GlCall::BlendFuncSeparate {
                        src_color: color_pair.0.to(),
                        dst_color: color_pair.1.to(),
                        src_alpha: alpha_pair.0.to(),
                        dst_alpha: alpha_pair.1.to(),
                    });
                },
                None => {
                    calls.push(GlCall::BlendFunc {
                        src: color_pair.0.to(),
                        dst: color_pair.1.to(),
                    });
                },
            }
        },
        None => {
            calls.push(GlCall::DisableBlend);
        },
    }
    calls.push(GlCall::BlendColor {
        r_bits: config.blendcolor.r_bits,
        g_bits: config.blendcolor.g_bits,
        b_bits: config.blendcolor.b_bits,
        a_bits: config.blendcolor.a_bits,
    });
    proof {
        assert(calls@ =~= old(calls)@ + config_calls(*config));
    }
}

/// The stateless draw orchestrator. It owns no device resources and keeps no
/// state between calls: every plan it produces sets each relevant piece of
/// pipeline state unconditionally and restores what it rebound.
#[derive(Debug)]
pub struct Draw {}

impl Draw {
    /// A fresh orchestrator.
    pub fn new() -> Draw {
        Draw {}
    }

    /// Plans a clear of `target` — a surface, or the default target — to the
    /// given color, clearing both the color and the depth buffer.
    pub fn clear(&mut self, target: Option<&Surface>, color: Color) -> (calls: Vec<GlCall>)
        ensures
            calls@ == clear_calls(target_value(target), color),
    {
        let mut calls: Vec<GlCall> = Vec::new();
        push_target_bind(&mut calls, target);
        calls.push(GlCall::ClearColor {
            r_bits: color.r_bits,
            g_bits: color.g_bits,
            b_bits: color.b_bits,
            a_bits: color.a_bits,
        });
        calls.push(GlCall::ClearColorAndDepth);
        push_target_restore(&mut calls, target);
        proof {
            assert(calls@ =~= clear_calls(target_value(target), color));
        }
        calls
    }

    /// Plans one draw: bind `target`, activate `shader`'s program, apply
    /// each binding of `uniform` — validated against the shader's reflection
    /// table, with texture units allocated sequentially from zero — apply
    /// `config`, draw `vertex`'s current contents as triangles, and restore
    /// the default target where a surface was bound.
    ///
    /// Where a binding names a uniform the shader does not declare, or its
    /// value's shape differs from the declared type, the first such fault is
    /// returned and nothing may be performed: these are fatal contract
    /// violations in the caller.
    pub fn draw<T>(
        &mut self,
        target: Option<&Surface>,
        vertex: &VertexBuffer<T>,
        shader: &Shader,
        uniform: &UniformItem,
        config: Config,
    ) -> (r: Result<Vec<GlCall>, DrawError>)
        requires
            uniform.spec_entries().len() <= i32::MAX,
        ensures
            r is Ok <==> entries_valid(shader.spec_table(), uniform.spec_entries()),
            (r matches Ok(calls) ==> calls@ == draw_plan_calls(
                target_value(target),
                vertex.spec_array(),
                vertex.spec_verts_len(),
                shader.spec_object(),
                uniform.spec_entries(),
                config,
            )),
            (r matches Err(e) ==> Some(e) == first_uniform_error(
                shader.spec_table(),
                uniform.spec_entries(),
            )),
    {
        let ghost table = shader.spec_table();
        let mut calls: Vec<GlCall> = Vec::new();
        push_target_bind(&mut calls, target);
        calls.push(GlCall::UseProgram { program: shader.handle() });
        proof {
            assert(calls@ =~= target_bind_calls(target_value(target)) + seq![
                GlCall::UseProgram { program: shader.spec_object() },
            ]);
        }
        let ghost prefix = calls@;

        let entries = uniform.entries();
        let ghost entry_seq = uniform.spec_entries();
        let n = entries.len();
        let mut i_tex: usize = 0;
        proof {
            assert(entry_seq.take(0) =~= Seq::<(String, UniformTypes)>::empty());
        }
        for i in 0..n
            invariant
                n == entry_seq.len(),
                n <= i32::MAX,
                entries@ == entry_seq,
                entry_seq == uniform.spec_entries(),
                table == shader.spec_table(),
                first_uniform_error(table, entry_seq) == first_uniform_error_from(
                    table,
                    entry_seq,
                    i as int,
                ),
                i_tex == sampler_count(entry_seq.take(i as int)),
                0 <= i_tex <= i,
                calls@ == prefix + uniform_calls(entry_seq.take(i as int)),
        {
            proof {
                lemma_sampler_count_bounds(entry_seq.take(i as int));
            }
            let name: &String = &entries[i].0;
            let value: UniformTypes = entries[i].1;
            let declared = shader.get_uniform(name.as_str());
            let ghost unit = i_tex as int;
            match declared {
                None => {
                    proof {
                        assert(first_uniform_error_from(table, entry_seq, i as int) == Some(
                            DrawError::UniformNotDeclared { name: entry_seq[i as int].0 },
                        ));
                        lemma_no_error_means_valid(table, entry_seq, 0);
                    }
                    return Err(DrawError::UniformNotDeclared { name: name.clone() });
                },
                Some(kind) => {
                    let fits = push_entry_calls(&mut calls, name, value, kind, i_tex);
                    if fits {
                        let is_sampler = match value {
                            UniformTypes::Sampler2D(..) => true,
                            _ => false,
                        };
                        if is_sampler {
                            i_tex = i_tex + 1;
                        }
                    }
                    if !fits {
                        proof {
                            assert(kind != value_kind(entry_seq[i as int].1));
                            assert(first_uniform_error_from(table, entry_seq, i as int) == Some(
                                DrawError::UniformTypeMismatch { name: entry_seq[i as int].0 },
                            ));
                            lemma_no_error_means_valid(table, entry_seq, 0);
                        }
                        return Err(DrawError::UniformTypeMismatch { name: name.clone() });
                    }
                    proof {
                        assert(kind == value_kind(entry_seq[i as int].1));
                        assert(entry_valid(table, entry_seq[i as int]));
                        assert(first_uniform_error_from(table, entry_seq, i as int)
                            == first_uniform_error_from(table, entry_seq, i + 1));
                        assert(entry_seq.take(i + 1).drop_last() =~= entry_seq.take(i as int));
                        assert(entry_seq.take(i + 1).last() == entry_seq[i as int]);
                        assert(uniform_calls(entry_seq.take(i + 1)) == uniform_calls(
                            entry_seq.take(i as int),
                        ) + entry_calls(entry_seq[i as int], unit));
                        assert(calls@ =~= prefix + uniform_calls(entry_seq.take(i + 1)));
                    }
                },
            }
        }
        proof {
            assert(entry_seq.take(n as int) =~= entry_seq);
            lemma_no_error_means_valid(table, entry_seq, 0);
        }
        push_config_calls(&mut calls, &config);

        calls.push(GlCall::BindVertexArray { array: vertex.handle_array() });
        calls.push(GlCall::DrawTriangles { count: vertex.get_verts_len() });
        calls.push(GlCall::UnbindVertexArray);
        push_target_restore(&mut calls, target);
        proof {
            assert(calls@ =~= draw_plan_calls(
                target_value(target),
                vertex.spec_array(),
                vertex.spec_verts_len(),
                shader.spec_object(),
                entry_seq,
                config,
            ));
        }
        Ok(calls)
    }
}

} // verus!
