use lykoi::Color;
use lykoi::GlCall;
use lykoi::Texture;
use lykoi::VertexBuffer;
use lykoi::VertexFormat;
use lykoi::parse_hex_rgba;

#[test]
fn texture_new_reports_size() {
    let pixels = vec![255u8; 2 * 2 * 4];
    let (texture, calls) = Texture::new(7, 2, 2, pixels.clone());
    assert_eq!(texture.width(), 2);
    assert_eq!(texture.height(), 2);
    assert_eq!(texture.handle(), 7);
    assert_eq!(
        calls,
        vec![
            GlCall::BindTexture { texture: 7 },
            GlCall::TexImage2d { width: 2, height: 2, pixels: Some(pixels) },
            GlCall::UnbindTexture,
        ]
    );
}

#[test]
fn texture_new_checked_rejects_bad_size() {
    assert!(Texture::new_checked(1, 2, 2, vec![0u8; 15]).is_none());
    assert!(Texture::new_checked(1, 2, 2, vec![0u8; 17]).is_none());
    assert!(Texture::new_checked(1, 2, 2, vec![0u8; 0]).is_none());
    let accepted = Texture::new_checked(1, 2, 2, vec![0u8; 16]);
    assert!(accepted.is_some());
    let (texture, _) = accepted.unwrap();
    assert_eq!(texture.width(), 2);
    assert_eq!(texture.height(), 2);
}

#[test]
fn texture_new_checked_rejects_overflowing_size() {
    assert!(Texture::new_checked(1, usize::MAX, 2, vec![0u8; 16]).is_none());
    assert!(Texture::new_checked(1, usize::MAX / 2, 1, vec![0u8; 16]).is_none());
}

#[test]
fn texture_new_empty_plans_no_pixels() {
    let (texture, calls) = Texture::new_empty(3, 8, 4);
    assert_eq!(texture.width(), 8);
    assert_eq!(texture.height(), 4);
    assert_eq!(
        calls,
        vec![
            GlCall::BindTexture { texture: 3 },
            GlCall::TexImage2d { width: 8, height: 4, pixels: None },
            GlCall::UnbindTexture,
        ]
    );
}

#[test]
fn surface_cached_identity() {
    let (mut texture, _) = Texture::new_empty(3, 8, 4);
    assert!(!texture.has_surface());
    let (first, build_calls) = texture.surface(10, 11);
    assert!(texture.has_surface());
    assert_eq!(first.handle_framebuffer(), 10);
    assert_eq!(first.handle_renderbuffer(), 11);
    assert_eq!(first.width(), 8);
    assert_eq!(first.height(), 4);
    assert_eq!(
        build_calls,
        vec![
            GlCall::BindFramebuffer { framebuffer: 10 },
            GlCall::AttachTexture { texture: 3 },
            GlCall::BindRenderbuffer { renderbuffer: 11 },
            GlCall::RenderbufferDepthStencil { width: 8, height: 4 },
            GlCall::UnbindRenderbuffer,
            GlCall::AttachDepthStencil { renderbuffer: 11 },
            GlCall::CheckFramebufferComplete,
            GlCall::UnbindFramebuffer,
        ]
    );

    // A second request returns the identical surface and builds nothing,
    // whatever fresh object names are on offer.
    let (second, again_calls) = texture.surface(20, 21);
    assert_eq!(second, first);
    assert_eq!(second.handle_framebuffer(), 10);
    assert_eq!(second.handle_renderbuffer(), 11);
    assert!(again_calls.is_empty());
}

#[test]
fn vertex_format_two_vec2_fields() {
    let format = VertexFormat::new().field_vec2().field_vec2().bound();
    assert_eq!(format.stride(), 16);
    assert_eq!(format.len(), 2);
    assert_eq!(
        format.emit(),
        vec![
            GlCall::VertexAttribPointer { index: 0, size: 2, stride: 16, offset: 0 },
            GlCall::EnableVertexAttribArray { index: 0 },
            GlCall::VertexAttribPointer { index: 1, size: 2, stride: 16, offset: 8 },
            GlCall::EnableVertexAttribArray { index: 1 },
        ]
    );
}

#[test]
fn vertex_format_mixed_fields_offsets() {
    let format = VertexFormat::new().field_vec3().field_float().field_vec4().bound();
    assert_eq!(format.stride(), 12 + 4 + 16);
    let emitted = format.emit();
    assert_eq!(
        emitted[0],
        GlCall::VertexAttribPointer { index: 0, size: 3, stride: 32, offset: 0 }
    );
    assert_eq!(
        emitted[2],
        GlCall::VertexAttribPointer { index: 1, size: 1, stride: 32, offset: 12 }
    );
    assert_eq!(
        emitted[4],
        GlCall::VertexAttribPointer { index: 2, size: 4, stride: 32, offset: 16 }
    );
}

#[test]
fn vertex_format_empty_emits_nothing() {
    let format = VertexFormat::new();
    assert_eq!(format.stride(), 0);
    assert!(format.emit().is_empty());
}

#[test]
fn vertex_buffer_setup_binds_format_while_bound() {
    let format = VertexFormat::new().field_vec2().field_vec2().bound();
    let (buffer, calls) = VertexBuffer::<[f32; 4]>::new(&format, 5, 6);
    assert_eq!(buffer.handle_buffer(), 5);
    assert_eq!(buffer.handle_array(), 6);
    assert_eq!(buffer.get_verts_len(), 0);
    assert_eq!(calls[0], GlCall::BindVertexArray { array: 6 });
    assert_eq!(calls[1], GlCall::BindBuffer { buffer: 5 });
    assert_eq!(
        calls[2],
        GlCall::VertexAttribPointer { index: 0, size: 2, stride: 16, offset: 0 }
    );
    assert_eq!(calls[calls.len() - 1], GlCall::UnbindVertexArray);
}

#[test]
fn rebuffer_round_trip_replaces_count() {
    let format = VertexFormat::new().field_vec2().bound();
    let (mut buffer, _) = VertexBuffer::<[f32; 2]>::new(&format, 5, 6);
    let first = vec![[0.0f32, 0.0], [1.0, 0.0], [0.0, 1.0]];
    let calls = buffer.rebuffer(first);
    assert_eq!(buffer.get_verts_len(), 3);
    assert_eq!(
        calls,
        vec![
            GlCall::BindVertexArray { array: 6 },
            GlCall::BindBuffer { buffer: 5 },
            GlCall::BufferVertexData { len: 3 },
            GlCall::UnbindVertexArray,
        ]
    );

    // A second upload fully replaces the first: no residue in the count.
    let second = vec![[0.0f32, 0.0], [1.0, 0.0], [0.0, 1.0], [1.0, 1.0], [0.5, 0.5]];
    buffer.rebuffer(second);
    assert_eq!(buffer.get_verts_len(), 5);
}

#[test]
fn vertex_buffer_new_from_uploads_at_once() {
    let format = VertexFormat::new().field_vec2().bound();
    let data = vec![[0.0f32, 0.0], [1.0, 0.0], [0.0, 1.0]];
    let (buffer, calls) = VertexBuffer::new_from(data, &format, 5, 6);
    assert_eq!(buffer.get_verts_len(), 3);
    assert_eq!(calls[calls.len() - 2], GlCall::BufferVertexData { len: 3 });
}

#[test]
fn color_from_bits_and_white() {
    let white = Color::opaque_white();
    assert_eq!(white.r_bits, 0x3F80_0000);
    assert_eq!(white, Color::from_bits(0x3F80_0000, 0x3F80_0000, 0x3F80_0000, 0x3F80_0000));
    let c = Color::from_bits(1, 2, 3, 4);
    assert_eq!((c.r_bits, c.g_bits, c.b_bits, c.a_bits), (1, 2, 3, 4));
}

#[test]
fn hex_color_short_forms_scale_by_seventeen() {
    assert_eq!(parse_hex_rgba("#fff"), Some((255, 255, 255, 255)));
    assert_eq!(parse_hex_rgba("#abc"), Some((170, 187, 204, 255)));
    assert_eq!(parse_hex_rgba("#abcd"), Some((170, 187, 204, 221)));
    assert_eq!(parse_hex_rgba("048"), Some((0, 68, 136, 255)));
}

#[test]
fn hex_color_long_forms_read_byte_pairs() {
    assert_eq!(parse_hex_rgba("#1a2b3c"), Some((0x1a, 0x2b, 0x3c, 255)));
    assert_eq!(parse_hex_rgba("12345678"), Some((0x12, 0x34, 0x56, 0x78)));
    assert_eq!(parse_hex_rgba("#FFffFFff"), Some((255, 255, 255, 255)));
}

#[test]
fn hex_color_rejects_bad_input() {
    assert_eq!(parse_hex_rgba(""), None);
    assert_eq!(parse_hex_rgba("#"), None);
    assert_eq!(parse_hex_rgba("12"), None);
    assert_eq!(parse_hex_rgba("12345"), None);
    assert_eq!(parse_hex_rgba("1234567"), None);
    assert_eq!(parse_hex_rgba("123456789"), None);
    assert_eq!(parse_hex_rgba("ggg"), None);
    assert_eq!(parse_hex_rgba("#12g"), None);
    assert_eq!(parse_hex_rgba("#12x45z"), None);
}

#[test]
fn hex_color_strips_every_leading_hash() {
    assert_eq!(parse_hex_rgba("##fff"), Some((255, 255, 255, 255)));
    assert_eq!(parse_hex_rgba("###1a2b3c"), Some((0x1a, 0x2b, 0x3c, 255)));
}
