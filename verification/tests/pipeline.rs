use lykoi::Color;
use lykoi::Config;
use lykoi::FilterParam;
use lykoi::WrapParam;
use lykoi::ConfigBlend;
use lykoi::Draw;
use lykoi::DrawError;
use lykoi::GlCall;
use lykoi::Shader;
use lykoi::ShaderPart;
use lykoi::ShaderPartFragment;
use lykoi::ShaderPartVertex;
use lykoi::Texture;
use lykoi::TextureFormat;
use lykoi::TextureFormatFilter;
use lykoi::TextureFormatWrap;
use lykoi::UniformEmpty;
use lykoi::UniformItem;
use lykoi::UniformKind;
use lykoi::UniformTypes;
use lykoi::VertexBuffer;
use lykoi::VertexFormat;

fn parts() -> (ShaderPart<ShaderPartVertex>, ShaderPart<ShaderPartFragment>) {
    let vertex = ShaderPartVertex::new(1, true, String::new()).unwrap();
    let fragment = ShaderPartFragment::new(2, true, String::new()).unwrap();
    (vertex, fragment)
}

fn linked_shader(uniforms: Vec<(String, UniformKind)>) -> Shader {
    let (vertex, fragment) = parts();
    Shader::new(vertex, fragment, 9, true, String::new(), uniforms).unwrap()
}

#[test]
fn shader_part_compile_failure_returns_log() {
    let failed = ShaderPartVertex::new(1, false, String::from("syntax error"));
    assert_eq!(failed.unwrap_err(), "syntax error");
    let ok = ShaderPartFragment::new(2, true, String::from("ignored"));
    assert!(ok.is_ok());
}

#[test]
fn shader_link_failure_returns_log() {
    let (vertex, fragment) = parts();
    let failed = Shader::new(vertex, fragment, 9, false, String::from("link error"), Vec::new());
    assert_eq!(failed.unwrap_err(), "link error");
}

#[test]
fn shader_reflection_table_is_exact() {
    let shader = linked_shader(vec![
        (String::from("u_color"), UniformKind::FloatVec4),
        (String::from("u_tex"), UniformKind::Sampler2D),
    ]);
    assert_eq!(shader.handle(), 9);
    assert_eq!(shader.get_uniform("u_color"), Some(UniformKind::FloatVec4));
    assert_eq!(shader.get_uniform("u_tex"), Some(UniformKind::Sampler2D));
    assert_eq!(shader.get_uniform("missing"), None);
    assert_eq!(shader.get_uniform(""), None);
}

#[test]
fn shader_reflection_later_entry_wins() {
    let shader = linked_shader(vec![
        (String::from("u_x"), UniformKind::Float),
        (String::from("u_x"), UniformKind::FloatVec2),
    ]);
    assert_eq!(shader.get_uniform("u_x"), Some(UniformKind::FloatVec2));
}

#[test]
fn config_defaults_and_builders() {
    let config = Config::new();
    assert!(!config.test_depth);
    assert!(config.blendmode.is_none());
    assert_eq!(config.blendcolor, Color::opaque_white());

    let config = config.depth(true);
    assert!(config.test_depth);

    let config = config.blend(ConfigBlend::Zero, ConfigBlend::One);
    assert_eq!(config.blendmode, Some(((ConfigBlend::Zero, ConfigBlend::One), None)));

    let config = config.blend_color(Color::from_bits(1, 2, 3, 4));
    assert_eq!(config.blendcolor, Color::from_bits(1, 2, 3, 4));
}

#[test]
fn blend_sep_supersedes_blend() {
    let combined_only = Config::new().blend_sep(
        ConfigBlend::SrcAlpha,
        ConfigBlend::InvSrcAlpha,
        ConfigBlend::One,
        ConfigBlend::Zero,
    );
    let after_blend = Config::new().blend(ConfigBlend::Zero, ConfigBlend::One).blend_sep(
        ConfigBlend::SrcAlpha,
        ConfigBlend::InvSrcAlpha,
        ConfigBlend::One,
        ConfigBlend::Zero,
    );
    assert_eq!(after_blend.blendmode, combined_only.blendmode);
    assert_eq!(
        after_blend.blendmode,
        Some((
            (ConfigBlend::SrcAlpha, ConfigBlend::InvSrcAlpha),
            Some((ConfigBlend::One, ConfigBlend::Zero))
        ))
    );
}

#[test]
fn uniform_list_grows_by_wrapping() {
    let list = UniformItem::new();
    assert_eq!(list.len(), 0);
    let list = list.add("u_a", UniformTypes::Float1(5));
    let list = list.add("u_b", UniformTypes::Float2(1, 2));
    assert_eq!(list.len(), 2);

    let started = UniformEmpty.add("u_a", UniformTypes::Float1(5));
    assert_eq!(started.len(), 1);
}

#[test]
fn clear_default_target_plans_no_restore() {
    let mut draw = Draw::new();
    let calls = draw.clear(None, Color::from_bits(1, 2, 3, 4));
    assert_eq!(
        calls,
        vec![
            GlCall::Viewport { width: 640, height: 480 },
            GlCall::UnbindFramebuffer,
            GlCall::ClearColor { r_bits: 1, g_bits: 2, b_bits: 3, a_bits: 4 },
            GlCall::ClearColorAndDepth,
        ]
    );
}

#[test]
fn clear_surface_target_restores_defaults() {
    let (mut texture, _) = Texture::new_empty(3, 32, 16);
    let (surface, _) = texture.surface(10, 11);
    let mut draw = Draw::new();
    let calls = draw.clear(Some(&surface), Color::opaque_white());
    assert_eq!(calls[0], GlCall::Viewport { width: 32, height: 16 });
    assert_eq!(calls[1], GlCall::BindFramebuffer { framebuffer: 10 });
    assert_eq!(calls[calls.len() - 2], GlCall::Viewport { width: 640, height: 480 });
    assert_eq!(calls[calls.len() - 1], GlCall::UnbindFramebuffer);
}

#[test]
fn draw_rejects_undeclared_uniform() {
    let shader = linked_shader(vec![(String::from("u_color"), UniformKind::FloatVec4)]);
    let format = VertexFormat::new().field_vec2().bound();
    let (buffer, _) = VertexBuffer::<[f32; 2]>::new(&format, 5, 6);
    let uniforms = UniformItem::new().add("u_missing", UniformTypes::Float1(0));
    let mut draw = Draw::new();
    let result = draw.draw(None, &buffer, &shader, &uniforms, Config::new());
    assert_eq!(
        result.unwrap_err(),
        DrawError::UniformNotDeclared { name: String::from("u_missing") }
    );
}

#[test]
fn draw_rejects_shape_mismatch() {
    // The shader declares u_color as a four-component vector; binding a
    // three-component value is a fatal contract violation.
    let shader = linked_shader(vec![(String::from("u_color"), UniformKind::FloatVec4)]);
    let format = VertexFormat::new().field_vec2().bound();
    let (buffer, _) = VertexBuffer::<[f32; 2]>::new(&format, 5, 6);
    let uniforms = UniformItem::new().add("u_color", UniformTypes::Float3(1, 2, 3));
    let mut draw = Draw::new();
    let result = draw.draw(None, &buffer, &shader, &uniforms, Config::new());
    assert_eq!(
        result.unwrap_err(),
        DrawError::UniformTypeMismatch { name: String::from("u_color") }
    );
}

#[test]
fn draw_reports_first_fault_in_traversal_order() {
    let shader = linked_shader(vec![(String::from("u_a"), UniformKind::Float)]);
    let format = VertexFormat::new().field_vec2().bound();
    let (buffer, _) = VertexBuffer::<[f32; 2]>::new(&format, 5, 6);
    let uniforms = UniformItem::new()
        .add("u_a", UniformTypes::Float2(0, 0))
        .add("u_b", UniformTypes::Float1(0));
    let mut draw = Draw::new();
    let result = draw.draw(None, &buffer, &shader, &uniforms, Config::new());
    assert_eq!(result.unwrap_err(), DrawError::UniformTypeMismatch { name: String::from("u_a") });
}

#[test]
fn draw_binds_each_uniform_exactly_once() {
    let shader = linked_shader(vec![
        (String::from("u_a"), UniformKind::Float),
        (String::from("u_b"), UniformKind::FloatVec2),
        (String::from("u_m"), UniformKind::FloatMat4x4),
    ]);
    let format = VertexFormat::new().field_vec2().bound();
    let (buffer, _) = VertexBuffer::<[f32; 2]>::new(&format, 5, 6);
    let uniforms = UniformItem::new()
        .add("u_a", UniformTypes::Float1(7))
        .add("u_b", UniformTypes::Float2(8, 9))
        .add("u_m", UniformTypes::Mat4x4([0; 16]));
    let mut draw = Draw::new();
    let calls = draw.draw(None, &buffer, &shader, &uniforms, Config::new()).unwrap();

    let a_sets = calls
        .iter()
        .filter(|c| matches!(c, GlCall::Uniform1f { name, .. } if name == "u_a"))
        .count();
    let b_sets = calls
        .iter()
        .filter(|c| matches!(c, GlCall::Uniform2f { name, .. } if name == "u_b"))
        .count();
    let m_sets = calls
        .iter()
        .filter(|c| matches!(c, GlCall::UniformMatrix4 { name, .. } if name == "u_m"))
        .count();
    assert_eq!((a_sets, b_sets, m_sets), (1, 1, 1));
}

#[test]
fn draw_allocates_texture_units_sequentially() {
    let shader = linked_shader(vec![
        (String::from("u_first"), UniformKind::Sampler2D),
        (String::from("u_second"), UniformKind::Sampler2D),
    ]);
    let format = VertexFormat::new().field_vec2().bound();
    let (buffer, _) = VertexBuffer::<[f32; 2]>::new(&format, 5, 6);
    let sampling = TextureFormat::new()
        .set_wrap(TextureFormatWrap::Repeat)
        .set_filter(TextureFormatFilter::Nearest);
    let uniforms = UniformItem::new()
        .add("u_first", UniformTypes::Sampler2D(31, sampling))
        .add("u_second", UniformTypes::Sampler2D(32, sampling));
    let mut draw = Draw::new();
    let calls = draw.draw(None, &buffer, &shader, &uniforms, Config::new()).unwrap();

    let units: Vec<u32> = calls
        .iter()
        .filter_map(|c| match c {
            GlCall::ActiveTexture { unit } => Some(*unit),
            _ => None,
        })
        .collect();
    assert_eq!(units, vec![0, 1]);
    assert!(calls.contains(&GlCall::Uniform1i { name: String::from("u_first"), value: 0 }));
    assert!(calls.contains(&GlCall::Uniform1i { name: String::from("u_second"), value: 1 }));
    assert!(calls.contains(&GlCall::BindTexture { texture: 31 }));
    assert!(calls.contains(&GlCall::BindTexture { texture: 32 }));
}

#[test]
fn draw_applies_blend_factor_values() {
    let shader = linked_shader(Vec::new());
    let format = VertexFormat::new().field_vec2().bound();
    let (buffer, _) = VertexBuffer::<[f32; 2]>::new(&format, 5, 6);
    let mut draw = Draw::new();

    let combined = Config::new().blend(ConfigBlend::Zero, ConfigBlend::One);
    let calls = draw.draw(None, &buffer, &shader, &UniformItem::new(), combined).unwrap();
    assert!(calls.contains(&GlCall::EnableBlend));
    assert!(calls.contains(&GlCall::BlendFunc { src: 0, dst: 1 }));

    let separate = Config::new().blend_sep(
        ConfigBlend::SrcAlpha,
        ConfigBlend::InvSrcAlpha,
        ConfigBlend::ConstColor,
        ConfigBlend::InvConstAlpha,
    );
    let calls = draw.draw(None, &buffer, &shader, &UniformItem::new(), separate).unwrap();
    assert!(calls.contains(&GlCall::BlendFuncSeparate {
        src_color: 0x0302,
        dst_color: 0x0303,
        src_alpha: 0x8001,
        dst_alpha: 0x8004,
    }));
    assert!(!calls.iter().any(|c| matches!(c, GlCall::BlendFunc { .. })));
}

#[test]
fn draw_programs_blend_color_even_when_blending_is_off() {
    let shader = linked_shader(Vec::new());
    let format = VertexFormat::new().field_vec2().bound();
    let (buffer, _) = VertexBuffer::<[f32; 2]>::new(&format, 5, 6);
    let mut draw = Draw::new();
    let calls = draw.draw(None, &buffer, &shader, &UniformItem::new(), Config::new()).unwrap();
    assert!(calls.contains(&GlCall::DisableBlend));
    assert!(calls.contains(&GlCall::BlendColor {
        r_bits: 0x3F80_0000,
        g_bits: 0x3F80_0000,
        b_bits: 0x3F80_0000,
        a_bits: 0x3F80_0000,
    }));
}

#[test]
fn end_to_end_quad_draw_leaves_defaults_bound() {
    // A 2x2 white texture, a shader with one sampler uniform, a two-triangle
    // quad, and a default configuration: the draw plans without any fault.
    let (texture, _) = Texture::new(7, 2, 2, vec![255u8; 16]);
    let shader = linked_shader(vec![(String::from("u_tex"), UniformKind::Sampler2D)]);
    let format = VertexFormat::new().field_vec2().field_vec2().bound();
    let quad = vec![
        [0.0f32, 1.0, 0.0, 1.0],
        [1.0, 0.0, 1.0, 0.0],
        [0.0, 0.0, 0.0, 0.0],
        [0.0, 1.0, 0.0, 1.0],
        [1.0, 1.0, 1.0, 1.0],
        [1.0, 0.0, 1.0, 0.0],
    ];
    let (buffer, _) = VertexBuffer::new_from(quad, &format, 5, 6);
    let uniforms =
        UniformItem::new().add("u_tex", UniformTypes::Sampler2D(texture.handle(), TextureFormat::new()));
    let mut draw = Draw::new();
    let calls = draw.draw(None, &buffer, &shader, &uniforms, Config::new()).unwrap();

    // The plan starts by binding the default target, so the draw leaves the
    // default viewport and framebuffer bound afterward.
    assert_eq!(calls[0], GlCall::Viewport { width: 640, height: 480 });
    assert_eq!(calls[1], GlCall::UnbindFramebuffer);
    assert_eq!(calls[2], GlCall::UseProgram { program: 9 });
    assert!(calls.contains(&GlCall::DrawTriangles { count: 6 }));
    assert_eq!(calls[calls.len() - 1], GlCall::UnbindVertexArray);
}

#[test]
fn draw_into_surface_restores_defaults_afterward() {
    let (mut target_texture, _) = Texture::new_empty(3, 64, 64);
    let (surface, _) = target_texture.surface(10, 11);
    let shader = linked_shader(Vec::new());
    let format = VertexFormat::new().field_vec2().bound();
    let (buffer, _) = VertexBuffer::<[f32; 2]>::new(&format, 5, 6);
    let mut draw = Draw::new();
    let calls = draw.draw(Some(&surface), &buffer, &shader, &UniformItem::new(), Config::new())
        .unwrap();
    assert_eq!(calls[0], GlCall::Viewport { width: 64, height: 64 });
    assert_eq!(calls[1], GlCall::BindFramebuffer { framebuffer: 10 });
    assert_eq!(calls[calls.len() - 2], GlCall::Viewport { width: 640, height: 480 });
    assert_eq!(calls[calls.len() - 1], GlCall::UnbindFramebuffer);
}

#[test]
fn texture_format_builders() {
    let format = TextureFormat::new();
    assert_eq!(format.wrap, TextureFormatWrap::Clamp);
    assert_eq!(format.filter, TextureFormatFilter::Linear);
    let format = format.set_wrap(TextureFormatWrap::Border);
    assert_eq!(format.wrap, TextureFormatWrap::Border);
    let format = format.set_filter(TextureFormatFilter::Nearest);
    assert_eq!(format.filter, TextureFormatFilter::Nearest);
    assert_eq!(format.wrap, TextureFormatWrap::Border);
}

#[test]
fn sampler_binding_applies_wrap_and_filter_to_both_axes() {
    let shader = linked_shader(vec![(String::from("u_tex"), UniformKind::Sampler2D)]);
    let format = VertexFormat::new().field_vec2().bound();
    let (buffer, _) = VertexBuffer::<[f32; 2]>::new(&format, 5, 6);
    let sampling = TextureFormat::new()
        .set_wrap(TextureFormatWrap::Repeat)
        .set_filter(TextureFormatFilter::Nearest);
    let uniforms = UniformItem::new().add("u_tex", UniformTypes::Sampler2D(31, sampling));
    let mut draw = Draw::new();
    let calls = draw.draw(None, &buffer, &shader, &uniforms, Config::new()).unwrap();

    assert!(calls.contains(&GlCall::TexWrapS { wrap: WrapParam::Repeat }));
    assert!(calls.contains(&GlCall::TexWrapT { wrap: WrapParam::Repeat }));
    assert!(calls.contains(&GlCall::TexMagFilter { filter: FilterParam::Nearest }));
    assert!(calls.contains(&GlCall::TexMinFilter { filter: FilterParam::Nearest }));
}
