//! The GPU resource layer: which calls go to the graphics context, with which
//! arguments and in which order.
//!
//! Nothing here reaches the context. Each helper returns the call, or the
//! calls, that the caller has to issue; what the context answers (a status,
//! a location, a fresh handle) comes back in as an argument.

use vstd::prelude::*;
use vstd::slice::slice_to_vec;
use vstd::string::StringSliceAdditionalSpecFns;
use crate::types::{AttrId, Color3, MatId, ShaderId, Size2, TextureId, VboId};

verus! {

/// The array that a buffer upload reads from.
#[derive(Clone, Copy, Debug, PartialEq, Eq, Structural)]
pub enum BufferSource {
    /// Vertex positions, three floats each.
    Coords,
    /// Vertex colours, three floats each.
    Colors,
    /// Texture coordinates, two floats each.
    TextureCoords,
}

/// The layout of the pixels of an image.
#[derive(Clone, Copy, Debug, PartialEq, Eq, Structural)]
pub enum PixelFormat {
    Rgb,
    Rgba,
}

/// A parameter of the bound 2D texture.
#[derive(Clone, Copy, Debug, PartialEq, Eq, Structural)]
pub enum TextureParameter {
    WrapS,
    WrapT,
    MinFilter,
    MagFilter,
}

/// The value given to a [`TextureParameter`].
#[derive(Clone, Copy, Debug, PartialEq, Eq, Structural)]
pub enum TextureSetting {
    ClampToEdge,
    Linear,
}

/// One call into the graphics context.
///
/// Buffer calls address the array buffer, texture calls the 2D texture,
/// draws are triangle lists, attribute data is floating point, uploads are
/// static, and pixels are read and written as unsigned bytes.
#[derive(Clone, Copy, Debug, PartialEq, Eq, Structural)]
pub enum GlCall {
    UseProgram { program: ShaderId },
    DeleteProgram { program: ShaderId },
    DeleteShader { shader: u32 },
    EnableDepthTest,
    ClearColor { color: Color3, alpha: u8 },
    Clear { color_buffer: bool, depth_buffer: bool },
    Viewport { x: i32, y: i32, width: i32, height: i32 },
    BindBuffer { buffer: VboId },
    DeleteBuffer { buffer: VboId },
    BufferData { size: i64, source: BufferSource },
    EnableVertexAttribArray { attr: AttrId },
    VertexAttribPointer { attr: AttrId, components_count: i32, normalized: bool, stride: i32 },
    DrawArrays { first: i32, count: i32 },
    UniformMatrix4 { location: i32, count: i32, transpose: bool },
    Uniform1ui { location: i32, value: u32 },
    ActiveTexture { unit: u32 },
    BindTexture { texture: TextureId },
    TexImage2D { level: i32, format: PixelFormat, width: i32, height: i32, border: i32 },
    TexParameter { parameter: TextureParameter, setting: TextureSetting },
    ReadPixels { x: i32, y: i32, width: i32, height: i32 },
}

/// A defect in a build asset. None of them can be recovered from: the caller
/// reports the message and gives up.
#[derive(Debug, PartialEq, Eq)]
pub enum GlError {
    /// A shader did not compile; `log` is what the driver said.
    CompileShader { log: Vec<u8> },
    /// A program did not link; `log` is what the driver said.
    LinkProgram { log: Vec<u8> },
    /// The image decoder failed with this message.
    ImageLoad { message: Vec<u8> },
    /// The image decoded to something other than 8-bit channels.
    UnknownImageFormat,
    /// The image has neither three nor four channels.
    WrongDepth,
}

/// Every upload among `calls` stands directly behind a call that binds a
/// buffer: no upload relies on what an earlier list has left bound.
pub open spec fn uploads_follow_binds(calls: Seq<GlCall>) -> bool {
    forall|i: int|
        0 <= i < calls.len() && (#[trigger] calls[i]) is BufferData ==> i > 0 && calls[i
            - 1] is BindBuffer
}

/// No buffer and no program is released twice among `calls`.
pub open spec fn releases_once(calls: Seq<GlCall>) -> bool {
    forall|i: int, j: int|
        0 <= i < j < calls.len() && ((#[trigger] calls[i]) is DeleteBuffer
            || calls[i] is DeleteProgram) ==> calls[i] != #[trigger] calls[j]
}

/// No program is released among `calls`.
pub open spec fn releases_no_program(calls: Seq<GlCall>) -> bool {
    forall|i: int| 0 <= i < calls.len() ==> !((#[trigger] calls[i]) is DeleteProgram)
}

/// The status value with which the context reports success.
pub const GL_TRUE: i32 = 1;

/// The number of bytes of one vertex position (three floats).
pub const VERTEX_COORD_SIZE: usize = 12;

/// The number of bytes of one vertex colour (three floats).
pub const COLOR_SIZE: usize = 12;

/// The number of bytes of one texture coordinate (two floats).
pub const TEXTURE_COORD_SIZE: usize = 8;

/// `a` followed by `b`.
pub fn concat_bytes(a: &[u8], b: &[u8]) -> (out: Vec<u8>)
    ensures
        out@ == a@ + b@,
{
    let mut out: Vec<u8> = Vec::new();
    let mut i: usize = 0;
    while i < a.len()
        invariant
            i <= a@.len(),
            out@ == a@.subrange(0, i as int),
        decreases a@.len() - i,
    {
        out.push(a[i]);
        i = i + 1;
    }
    let mut j: usize = 0;
    while j < b.len()
        invariant
            j <= b@.len(),
            out@ == a@ + b@.subrange(0, j as int),
        decreases b@.len() - j,
    {
        out.push(b[j]);
        j = j + 1;
    }
    out
}

/// The text with which a failed shader compilation is reported.
pub open spec fn compile_prefix() -> Seq<u8> {
    "compile_shader(): ".spec_bytes()
}

/// The text with which a failed program link is reported.
pub open spec fn link_prefix() -> Seq<u8> {
    "link_program(): ".spec_bytes()
}

/// The text that stands for an image that is not made of bytes.
pub open spec fn unknown_format_text() -> Seq<u8> {
    "Unknown image format".spec_bytes()
}

/// The text that stands for an image with an unusable channel count.
pub open spec fn wrong_depth_text() -> Seq<u8> {
    "wrong depth".spec_bytes()
}

impl GlError {
    /// What [`GlError::message`] returns.
    pub open spec fn message_spec(self) -> Seq<u8> {
        match self {
            GlError::CompileShader { log } => compile_prefix() + log@,
            GlError::LinkProgram { log } => link_prefix() + log@,
            GlError::ImageLoad { message } => message@,
            GlError::UnknownImageFormat => unknown_format_text(),
            GlError::WrongDepth => wrong_depth_text(),
        }
    }

    /// The diagnostic to report before giving up: the driver's or the
    /// decoder's own words, behind the name of the step that failed.
    pub fn message(&self) -> (text: Vec<u8>)
        ensures
            text@ == self.message_spec(),
    {
        match self {
            GlError::CompileShader { log } => concat_bytes(
                "compile_shader(): ".as_bytes(),
                log.as_slice(),
            ),
            GlError::LinkProgram { log } => concat_bytes("link_program(): ".as_bytes(), log.as_slice()),
            GlError::ImageLoad { message } => slice_to_vec(message.as_slice()),
            GlError::UnknownImageFormat => slice_to_vec("Unknown image format".as_bytes()),
            GlError::WrongDepth => slice_to_vec("wrong depth".as_bytes()),
        }
    }
}

/// The number of bytes of an info log whose reported length is `length`.
/// The reported length counts the terminating NUL, the log does not hold it.
pub open spec fn info_log_len_spec(length: i32) -> int {
    if length >= 1 {
        length - 1
    } else {
        0
    }
}

/// The size of the buffer into which an info log of reported length
/// `length` is fetched.
pub fn info_log_len(length: i32) -> (len: usize)
    ensures
        len == info_log_len_spec(length),
{
    if length >= 1 {
        (length - 1) as usize
    } else {
        0
    }
}

/// Judges a shader that the context has just compiled: `status` is its
/// compile status and `info_log` its info log (read only when the status is
/// not [`GL_TRUE`]; anything may be passed otherwise).
pub fn compile_shader(shader: u32, status: i32, info_log: &[u8]) -> (res: Result<u32, GlError>)
    ensures
        match res {
            Ok(handle) => status == GL_TRUE && handle == shader,
            Err(GlError::CompileShader { log }) => status != GL_TRUE && log@ == info_log@,
            Err(_) => false,
        },
{
    if status == GL_TRUE {
        Ok(shader)
    } else {
        Err(GlError::CompileShader { log: slice_to_vec(info_log) })
    }
}

/// Judges a program that the context has just linked: `status` is its link
/// status and `info_log` its info log (read only when the status is not
/// [`GL_TRUE`]).
pub fn link_program(program: u32, status: i32, info_log: &[u8]) -> (res: Result<u32, GlError>)
    ensures
        match res {
            Ok(handle) => status == GL_TRUE && handle == program,
            Err(GlError::LinkProgram { log }) => status != GL_TRUE && log@ == info_log@,
            Err(_) => false,
        },
{
    if status == GL_TRUE {
        Ok(program)
    } else {
        Err(GlError::LinkProgram { log: slice_to_vec(info_log) })
    }
}

/// Finishes a program build. The two shaders have been compiled and linked
/// into `program`; they are marked for deletion, the fragment shader first,
/// so that they go when the program goes.
pub fn compile_program(vertex_shader: u32, fragment_shader: u32, program: u32) -> (res: (
    ShaderId,
    Vec<GlCall>,
))
    ensures
        res.0 == ShaderId(program),
        res.1@ == seq![
            GlCall::DeleteShader { shader: fragment_shader },
            GlCall::DeleteShader { shader: vertex_shader },
        ],
{
    let mut calls: Vec<GlCall> = Vec::new();
    calls.push(GlCall::DeleteShader { shader: fragment_shader });
    calls.push(GlCall::DeleteShader { shader: vertex_shader });
    (ShaderId(program), calls)
}

/// The attribute handle for a location as the context reports it. The
/// context answers -1 for a name that the program does not have; that
/// becomes the handle with all bits set.
pub fn get_attr(location: i32) -> (attr: AttrId)
    ensures
        attr.0 == location as u32,
{
    AttrId(#[verifier::truncate] (location as u32))
}

/// The uniform handle for a location as the context reports it, -1
/// becoming the value with all bits set.
pub fn get_uniform(location: i32) -> (id: u32)
    ensures
        id == location as u32,
{
    #[verifier::truncate]
    (location as u32)
}

/// The draw of `faces_count` triangles: `3 * faces_count` vertices,
/// starting at vertex 0.
pub fn draw_mesh(faces_count: i32) -> (call: GlCall)
    requires
        i32::MIN <= 3 * faces_count <= i32::MAX,
    ensures
        call == (GlCall::DrawArrays { first: 0, count: (3 * faces_count) as i32 }),
{
    let starting_index: i32 = 0;
    let vertices_count: i32 = faces_count * 3;
    GlCall::DrawArrays { first: starting_index, count: vertices_count }
}

/// The upload of one 4x4 matrix, untransposed, to the uniform `mat_id`.
pub fn uniform_mat4f(mat_id: MatId) -> (call: GlCall)
    ensures
        call == (GlCall::UniformMatrix4 { location: mat_id.0 as i32, count: 1, transpose: false }),
{
    GlCall::UniformMatrix4 {
        location: #[verifier::truncate] (mat_id.0 as i32),
        count: 1,
        transpose: false,
    }
}

/// The release of one buffer.
pub fn delete_buffer(buffer: &VboId) -> (call: GlCall)
    ensures
        call == (GlCall::DeleteBuffer { buffer: *buffer }),
{
    GlCall::DeleteBuffer { buffer: *buffer }
}

/// The upload of `len` items of `item_size` bytes each into the bound buffer.
fn fill_buffer(len: usize, item_size: usize, source: BufferSource) -> (call: GlCall)
    requires
        1 <= item_size <= 16,
        len * item_size <= i64::MAX,
    ensures
        call == (GlCall::BufferData { size: (len * item_size) as i64, source }),
{
    assert(len <= len * item_size) by (nonlinear_arith)
        requires
            1 <= item_size,
            0 <= len,
    ;
    let count: i64 = len as i64;
    let buffer_size: i64 = count * (item_size as i64);
    GlCall::BufferData { size: buffer_size, source }
}

/// The upload of `len` vertex positions into the bound buffer. The caller
/// binds the buffer immediately before.
pub fn fill_current_coord_vbo(len: usize) -> (call: GlCall)
    requires
        len * VERTEX_COORD_SIZE <= i64::MAX,
    ensures
        call == (GlCall::BufferData {
            size: (len * VERTEX_COORD_SIZE) as i64,
            source: BufferSource::Coords,
        }),
{
    fill_buffer(len, VERTEX_COORD_SIZE, BufferSource::Coords)
}

/// The upload of `len` vertex colours into the bound buffer. The caller
/// binds the buffer immediately before.
pub fn fill_current_color_vbo(len: usize) -> (call: GlCall)
    requires
        len * COLOR_SIZE <= i64::MAX,
    ensures
        call == (GlCall::BufferData { size: (len * COLOR_SIZE) as i64, source: BufferSource::Colors }),
{
    fill_buffer(len, COLOR_SIZE, BufferSource::Colors)
}

/// The upload of `len` texture coordinates into the bound buffer. The
/// caller binds the buffer immediately before.
pub fn fill_current_texture_coords_vbo(len: usize) -> (call: GlCall)
    requires
        len * TEXTURE_COORD_SIZE <= i64::MAX,
    ensures
        call == (GlCall::BufferData {
            size: (len * TEXTURE_COORD_SIZE) as i64,
            source: BufferSource::TextureCoords,
        }),
{
    fill_buffer(len, TEXTURE_COORD_SIZE, BufferSource::TextureCoords)
}

/// Points the attribute `attr` at the bound buffer: `components_count`
/// floats per vertex, tightly packed, from the start, not normalised.
pub fn vertex_attrib_pointer(attr: AttrId, components_count: i32) -> (call: GlCall)
    ensures
        call == (GlCall::VertexAttribPointer { attr, components_count, normalized: false, stride: 0 }),
{
    let normalized: bool = false;
    let stride: i32 = 0;
    GlCall::VertexAttribPointer { attr, components_count, normalized, stride }
}

/// Makes `shader` the active program.
pub fn use_program(shader: &ShaderId) -> (call: GlCall)
    ensures
        call == (GlCall::UseProgram { program: *shader }),
{
    GlCall::UseProgram { program: *shader }
}

/// Switches the attribute `attr` on.
pub fn enable_vertex_attrib_array(attr: &AttrId) -> (call: GlCall)
    ensures
        call == (GlCall::EnableVertexAttribArray { attr: *attr }),
{
    GlCall::EnableVertexAttribArray { attr: *attr }
}

/// The one setting made once the context's functions are loaded: depth
/// testing is switched on.
pub fn init_opengl() -> (call: GlCall)
    ensures
        call == GlCall::EnableDepthTest,
{
    GlCall::EnableDepthTest
}

/// The release of a program.
pub fn delete_program(shader: &ShaderId) -> (call: GlCall)
    ensures
        call == (GlCall::DeleteProgram { program: *shader }),
{
    GlCall::DeleteProgram { program: *shader }
}

/// Sets the colour that a clear fills with; it is fully opaque.
pub fn set_clear_color(color: Color3) -> (call: GlCall)
    ensures
        call == (GlCall::ClearColor { color, alpha: 255 }),
{
    GlCall::ClearColor { color, alpha: 255 }
}

/// Clears the colour buffer and the depth buffer.
pub fn clear() -> (call: GlCall)
    ensures
        call == (GlCall::Clear { color_buffer: true, depth_buffer: true }),
{
    GlCall::Clear { color_buffer: true, depth_buffer: true }
}

/// Makes the whole window of size `size` the viewport.
pub fn viewport(size: Size2) -> (call: GlCall)
    ensures
        call == (GlCall::Viewport { x: 0, y: 0, width: size.w, height: size.h }),
{
    GlCall::Viewport { x: 0, y: 0, width: size.w, height: size.h }
}

/// Makes `buffer` the bound array buffer.
pub fn bind_buffer(buffer: &VboId) -> (call: GlCall)
    ensures
        call == (GlCall::BindBuffer { buffer: *buffer }),
{
    GlCall::BindBuffer { buffer: *buffer }
}

/// What [`enable_texture`] returns.
pub open spec fn enable_texture_calls(basic_texture_loc: i32, texture: TextureId) -> Seq<GlCall> {
    seq![
        GlCall::Uniform1ui { location: basic_texture_loc, value: 0 },
        GlCall::ActiveTexture { unit: 0 },
        GlCall::BindTexture { texture },
    ]
}

/// Makes `texture` the texture that the program samples: the sampler
/// uniform, found at `basic_texture_loc`, is set to unit 0, and the texture
/// is bound to that unit.
pub fn enable_texture(basic_texture_loc: i32, texture: &TextureId) -> (calls: Vec<GlCall>)
    ensures
        calls@ == enable_texture_calls(basic_texture_loc, *texture),
{
    let mut calls: Vec<GlCall> = Vec::new();
    calls.push(GlCall::Uniform1ui { location: basic_texture_loc, value: 0 });
    calls.push(GlCall::ActiveTexture { unit: 0 });
    calls.push(GlCall::BindTexture { texture: *texture });
    calls
}

/// A decoded image: `height` rows of `width` pixels of `depth` channels.
#[derive(Debug, PartialEq, Eq)]
pub struct Image {
    pub width: usize,
    pub height: usize,
    pub depth: usize,
    pub data: Vec<u8>,
}

/// What the image decoder hands back.
#[derive(Debug, PartialEq, Eq)]
pub enum LoadResult {
    /// The decoder failed, with this message.
    Error(Vec<u8>),
    /// An image with 8-bit channels.
    ImageU8(Image),
    /// An image with floating-point channels, which nothing here can use.
    ImageF32,
}

/// Accepts a decoded image only if it has 8-bit channels. A decoder failure
/// keeps the decoder's message.
pub fn load_image(load_result: LoadResult) -> (res: Result<Image, GlError>)
    ensures
        match load_result {
            LoadResult::ImageU8(image) => res == Ok::<Image, GlError>(image),
            LoadResult::Error(message) => res == Err::<Image, GlError>(
                GlError::ImageLoad { message },
            ),
            LoadResult::ImageF32 => res == Err::<Image, GlError>(GlError::UnknownImageFormat),
        },
{
    match load_result {
        LoadResult::ImageU8(image) => Ok(image),
        LoadResult::Error(message) => Err(GlError::ImageLoad { message }),
        LoadResult::ImageF32 => Err(GlError::UnknownImageFormat),
    }
}

/// The pixel layout of an image with `depth` channels: four are RGBA, three
/// are RGB, and nothing else can become a texture.
pub open spec fn texture_format(depth: usize) -> Option<PixelFormat> {
    if depth == 4 {
        Some(PixelFormat::Rgba)
    } else if depth == 3 {
        Some(PixelFormat::Rgb)
    } else {
        None
    }
}

/// The calls that turn an image of the given layout and size into the
/// texture `id`: bound to unit 0, filled at level 0 without a border,
/// clamped to the edge on both axes and filtered linearly both ways.
pub open spec fn load_texture_calls(
    format: PixelFormat,
    width: i32,
    height: i32,
    id: TextureId,
) -> Seq<GlCall> {
    seq![
        GlCall::ActiveTexture { unit: 0 },
        GlCall::BindTexture { texture: id },
        GlCall::TexImage2D { level: 0, format, width, height, border: 0 },
        GlCall::TexParameter {
            parameter: TextureParameter::WrapS,
            setting: TextureSetting::ClampToEdge,
        },
        GlCall::TexParameter {
            parameter: TextureParameter::WrapT,
            setting: TextureSetting::ClampToEdge,
        },
        GlCall::TexParameter {
            parameter: TextureParameter::MinFilter,
            setting: TextureSetting::Linear,
        },
        GlCall::TexParameter {
            parameter: TextureParameter::MagFilter,
            setting: TextureSetting::Linear,
        },
    ]
}

/// Plans the upload of `image` as the texture `id`, a handle that the
/// context has just generated. An image with neither three nor four
/// channels is refused, and then nothing is to be issued.
pub fn load_texture(image: &Image, id: TextureId) -> (res: Result<Vec<GlCall>, GlError>)
    requires
        image.width <= i32::MAX,
        image.height <= i32::MAX,
    ensures
        match texture_format(image.depth) {
            Some(format) => res is Ok && res->Ok_0@ == load_texture_calls(
                format,
                image.width as i32,
                image.height as i32,
                id,
            ),
            None => res == Err::<Vec<GlCall>, GlError>(GlError::WrongDepth),
        },
{
    let format: PixelFormat = if image.depth == 4 {
        PixelFormat::Rgba
    } else if image.depth == 3 {
        PixelFormat::Rgb
    } else {
        return Err(GlError::WrongDepth);
    };
    let level: i32 = 0;
    let border: i32 = 0;
    let mut calls: Vec<GlCall> = Vec::new();
    calls.push(GlCall::ActiveTexture { unit: 0 });
    calls.push(GlCall::BindTexture { texture: id });
    calls.push(
        GlCall::TexImage2D {
            level,
            format,
            width: image.width as i32,
            height: image.height as i32,
            border,
        },
    );
    calls.push(
        GlCall::TexParameter {
            parameter: TextureParameter::WrapS,
            setting: TextureSetting::ClampToEdge,
        },
    );
    calls.push(
        GlCall::TexParameter {
            parameter: TextureParameter::WrapT,
            setting: TextureSetting::ClampToEdge,
        },
    );
    calls.push(
        GlCall::TexParameter {
            parameter: TextureParameter::MinFilter,
            setting: TextureSetting::Linear,
        },
    );
    calls.push(
        GlCall::TexParameter {
            parameter: TextureParameter::MagFilter,
            setting: TextureSetting::Linear,
        },
    );
    Ok(calls)
}

} // verus!
