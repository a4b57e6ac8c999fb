use hex_picker::gl_helpers::{
    bind_buffer, clear, compile_program, compile_shader, concat_bytes, delete_buffer,
    delete_program, draw_mesh, enable_texture, enable_vertex_attrib_array,
    fill_current_color_vbo, fill_current_coord_vbo, fill_current_texture_coords_vbo, get_attr,
    get_uniform, info_log_len, init_opengl, link_program, load_image, load_texture,
    set_clear_color, uniform_mat4f, use_program, vertex_attrib_pointer, viewport, BufferSource,
    GlCall, GlError, Image, LoadResult, PixelFormat, TextureParameter, TextureSetting, GL_TRUE,
};
use hex_picker::types::{AttrId, Color3, MatId, ShaderId, Size2, TextureId, VboId};

#[test]
fn draw_mesh_covers_three_vertices_per_face() {
    assert_eq!(draw_mesh(0), GlCall::DrawArrays { first: 0, count: 0 });
    assert_eq!(draw_mesh(1), GlCall::DrawArrays { first: 0, count: 3 });
    assert_eq!(draw_mesh(4), GlCall::DrawArrays { first: 0, count: 12 });
    assert_eq!(draw_mesh(96), GlCall::DrawArrays { first: 0, count: 288 });
    assert_eq!(draw_mesh(715_827_882), GlCall::DrawArrays { first: 0, count: 2_147_483_646 });
}

#[test]
fn buffer_uploads_count_bytes() {
    assert_eq!(
        fill_current_coord_vbo(6),
        GlCall::BufferData { size: 72, source: BufferSource::Coords }
    );
    assert_eq!(
        fill_current_color_vbo(6),
        GlCall::BufferData { size: 72, source: BufferSource::Colors }
    );
    assert_eq!(
        fill_current_texture_coords_vbo(6),
        GlCall::BufferData { size: 48, source: BufferSource::TextureCoords }
    );
    assert_eq!(
        fill_current_coord_vbo(0),
        GlCall::BufferData { size: 0, source: BufferSource::Coords }
    );
}

#[test]
fn attribute_pointer_is_tightly_packed_floats() {
    assert_eq!(
        vertex_attrib_pointer(AttrId(5), 3),
        GlCall::VertexAttribPointer {
            attr: AttrId(5),
            components_count: 3,
            normalized: false,
            stride: 0
        }
    );
}

#[test]
fn locations_become_handles() {
    assert_eq!(get_attr(0), AttrId(0));
    assert_eq!(get_attr(7), AttrId(7));
    assert_eq!(get_attr(-1), AttrId(u32::MAX));
    assert_eq!(get_uniform(3), 3);
    assert_eq!(get_uniform(-1), u32::MAX);
    assert_eq!(
        uniform_mat4f(MatId(9)),
        GlCall::UniformMatrix4 { location: 9, count: 1, transpose: false }
    );
    assert_eq!(
        uniform_mat4f(MatId(u32::MAX)),
        GlCall::UniformMatrix4 { location: -1, count: 1, transpose: false }
    );
}

#[test]
fn single_calls() {
    assert_eq!(use_program(&ShaderId(3)), GlCall::UseProgram { program: ShaderId(3) });
    assert_eq!(delete_program(&ShaderId(3)), GlCall::DeleteProgram { program: ShaderId(3) });
    assert_eq!(bind_buffer(&VboId(4)), GlCall::BindBuffer { buffer: VboId(4) });
    assert_eq!(delete_buffer(&VboId(4)), GlCall::DeleteBuffer { buffer: VboId(4) });
    assert_eq!(
        enable_vertex_attrib_array(&AttrId(2)),
        GlCall::EnableVertexAttribArray { attr: AttrId(2) }
    );
    assert_eq!(init_opengl(), GlCall::EnableDepthTest);
    assert_eq!(clear(), GlCall::Clear { color_buffer: true, depth_buffer: true });
    assert_eq!(
        set_clear_color(Color3 { r: 10, g: 20, b: 30 }),
        GlCall::ClearColor { color: Color3 { r: 10, g: 20, b: 30 }, alpha: 255 }
    );
    assert_eq!(
        viewport(Size2 { w: 640, h: 480 }),
        GlCall::Viewport { x: 0, y: 0, width: 640, height: 480 }
    );
}

#[test]
fn concat_bytes_joins() {
    assert_eq!(concat_bytes(b"ab", b"cd"), b"abcd".to_vec());
    assert_eq!(concat_bytes(b"", b"cd"), b"cd".to_vec());
    assert_eq!(concat_bytes(b"ab", b""), b"ab".to_vec());
}

#[test]
fn info_log_drops_the_terminator() {
    assert_eq!(info_log_len(12), 11);
    assert_eq!(info_log_len(1), 0);
    assert_eq!(info_log_len(0), 0);
    assert_eq!(info_log_len(-4), 0);
}

#[test]
fn compiled_shader_is_accepted() {
    assert_eq!(compile_shader(17, GL_TRUE, b""), Ok(17));
    assert_eq!(compile_shader(17, GL_TRUE, b"warning: unused"), Ok(17));
}

#[test]
fn failed_shader_reports_the_log() {
    let err = compile_shader(17, 0, b"0:1: syntax error").unwrap_err();
    assert_eq!(err, GlError::CompileShader { log: b"0:1: syntax error".to_vec() });
    assert_eq!(err.message(), b"compile_shader(): 0:1: syntax error".to_vec());
    assert!(compile_shader(17, 2, b"x").is_err());
    assert!(compile_shader(17, -1, b"x").is_err());
}

#[test]
fn linked_program_is_accepted() {
    assert_eq!(link_program(4, GL_TRUE, b""), Ok(4));
}

#[test]
fn failed_link_reports_the_log() {
    let err = link_program(4, 0, b"undefined varying").unwrap_err();
    assert_eq!(err, GlError::LinkProgram { log: b"undefined varying".to_vec() });
    assert_eq!(err.message(), b"link_program(): undefined varying".to_vec());
}

#[test]
fn program_build_marks_shaders_for_deletion() {
    let (program, calls) = compile_program(11, 12, 13);
    assert_eq!(program, ShaderId(13));
    assert_eq!(
        calls,
        vec![GlCall::DeleteShader { shader: 12 }, GlCall::DeleteShader { shader: 11 }]
    );
}

#[test]
fn texture_is_bound_to_unit_zero() {
    assert_eq!(
        enable_texture(6, &TextureId(8)),
        vec![
            GlCall::Uniform1ui { location: 6, value: 0 },
            GlCall::ActiveTexture { unit: 0 },
            GlCall::BindTexture { texture: TextureId(8) },
        ]
    );
}

fn image(depth: usize) -> Image {
    Image { width: 2, height: 3, depth, data: vec![0; 6 * depth] }
}

#[test]
fn byte_images_are_accepted() {
    assert_eq!(load_image(LoadResult::ImageU8(image(3))), Ok(image(3)));
}

#[test]
fn decoder_failure_keeps_its_message() {
    let err = load_image(LoadResult::Error(b"file not found".to_vec())).unwrap_err();
    assert_eq!(err, GlError::ImageLoad { message: b"file not found".to_vec() });
    assert_eq!(err.message(), b"file not found".to_vec());
}

#[test]
fn float_images_are_unknown() {
    let err = load_image(LoadResult::ImageF32).unwrap_err();
    assert_eq!(err, GlError::UnknownImageFormat);
    assert_eq!(err.message(), b"Unknown image format".to_vec());
}

fn texture_calls(format: PixelFormat) -> Vec<GlCall> {
    vec![
        GlCall::ActiveTexture { unit: 0 },
        GlCall::BindTexture { texture: TextureId(21) },
        GlCall::TexImage2D { level: 0, format, width: 2, height: 3, border: 0 },
        GlCall::TexParameter {
            parameter: TextureParameter::WrapS,
            setting: TextureSetting::ClampToEdge,
        },
        GlCall::TexParameter {
            parameter: TextureParameter::WrapT,
            setting: TextureSetting::ClampToEdge,
        },
        GlCall::TexParameter {
            parameter: TextureParameter::MinFilter,
            setting: TextureSetting::Linear,
        },
        GlCall::TexParameter {
            parameter: TextureParameter::MagFilter,
            setting: TextureSetting::Linear,
        },
    ]
}

#[test]
fn rgb_and_rgba_become_textures() {
    assert_eq!(load_texture(&image(3), TextureId(21)), Ok(texture_calls(PixelFormat::Rgb)));
    assert_eq!(load_texture(&image(4), TextureId(21)), Ok(texture_calls(PixelFormat::Rgba)));
}

#[test]
fn other_depths_are_refused() {
    for depth in [0usize, 1, 2, 5, 8] {
        let err = load_texture(&image(depth), TextureId(21)).unwrap_err();
        assert_eq!(err, GlError::WrongDepth);
        assert_eq!(err.message(), b"wrong depth".to_vec());
    }
}
