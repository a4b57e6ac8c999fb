//! Tile picking: every tile of the map is drawn in a colour that spells its
//! coordinate, one pixel is read back under the cursor, and the colour found
//! there is turned back into a coordinate.

use vstd::prelude::*;
use vstd::arithmetic::div_mod::lemma_fundamental_div_mod_converse;
use crate::gl_helpers::{
    clear, delete_program, enable_vertex_attrib_array, get_attr, get_uniform,
    releases_no_program, releases_once, set_clear_color, uniform_mat4f, uploads_follow_binds,
    use_program, vertex_attrib_pointer, BufferSource, GlCall,
};
use crate::mesh::{upload_calls, Mesh};
use crate::types::{AttrId, Color3, MapPos, MatId, ScreenPos, ShaderId, Size2, VboId};

verus! {

/// A point of a hexagon, relative to the hexagon's centre.
#[derive(Clone, Copy, Debug, PartialEq, Eq, Structural)]
pub enum HexPoint {
    /// The corner with this index. Corners are counted round the hexagon,
    /// and corner 6 is corner 0 again.
    Corner(i32),
    /// The centre itself.
    Center,
}

/// One vertex of the picking mesh: a point of the hexagon of a tile. The
/// geometry of the map says where in the world that is.
#[derive(Clone, Copy, Debug, PartialEq, Eq, Structural)]
pub struct HexVertex {
    pub tile: MapPos,
    pub point: HexPoint,
}

/// The `n`-th tile of a map, row by row.
pub open spec fn tile_at(map_size: Size2, n: int) -> MapPos {
    MapPos { x: (n % (map_size.w as int)) as i32, y: (n / (map_size.w as int)) as i32 }
}

/// The colour that spells a tile: red is `x / 255`, green is `y / 255`, and
/// blue is full. No pixel of the cleared background has any blue, so blue
/// tells a tile from the background.
pub open spec fn tile_color_spec(pos: MapPos) -> Color3 {
    Color3 { r: pos.x as u8, g: pos.y as u8, b: 255 }
}

/// The point at place `k` of the 18 vertices of one tile: triangle `k / 3`
/// runs from corner `k / 3` over corner `k / 3 + 1` to the centre.
pub open spec fn hex_point_at(k: int) -> HexPoint {
    if k % 3 == 0 {
        HexPoint::Corner((k / 3) as i32)
    } else if k % 3 == 1 {
        HexPoint::Corner((k / 3 + 1) as i32)
    } else {
        HexPoint::Center
    }
}

/// The `k`-th vertex of the picking mesh of a map.
pub open spec fn hex_vertex_at(map_size: Size2, k: int) -> HexVertex {
    HexVertex { tile: tile_at(map_size, k / 18), point: hex_point_at(k % 18) }
}

/// The colour of the `k`-th vertex of the picking mesh of a map.
pub open spec fn hex_color_at(map_size: Size2, k: int) -> Color3 {
    tile_color_spec(tile_at(map_size, k / 18))
}

/// The vertices of the picking mesh of a map.
pub open spec fn hex_map_vertices(map_size: Size2) -> Seq<HexVertex> {
    Seq::new(18 * map_size.tile_count(), |k: int| hex_vertex_at(map_size, k))
}

/// The colours of the picking mesh of a map, one for each vertex.
pub open spec fn hex_map_colors(map_size: Size2) -> Seq<Color3> {
    Seq::new(18 * map_size.tile_count(), |k: int| hex_color_at(map_size, k))
}

/// What a framebuffer with byte channels holds where a fragment of this
/// colour, fully opaque, was drawn.
pub open spec fn rendered_pixel(color: Color3) -> [u8; 4] {
    [color.r, color.g, color.b, 255u8]
}

/// The tile that a read-back pixel spells, if it spells one.
pub open spec fn decode_pixel_spec(data: [u8; 4]) -> Option<MapPos> {
    if data[2] != 0 {
        Some(MapPos { x: data[0] as i32, y: data[1] as i32 })
    } else {
        None
    }
}

/// The colour in which every vertex of the tile `pos` is drawn.
pub fn tile_color(pos: MapPos) -> (color: Color3)
    requires
        pos.encodable(),
    ensures
        color == tile_color_spec(pos),
        color.r == pos.x,
        color.g == pos.y,
        color.b == 255,
{
    Color3 { r: pos.x as u8, g: pos.y as u8, b: 255 }
}

/// Reads a tile out of one RGBA pixel: a pixel with any blue in it spells
/// the tile `(red, green)`, a pixel without blue is background.
pub fn decode_pixel(data: [u8; 4]) -> (tile: Option<MapPos>)
    ensures
        tile == decode_pixel_spec(data),
{
    if data[2] != 0 {
        Some(MapPos { x: data[0] as i32, y: data[1] as i32 })
    } else {
        None
    }
}

/// A tile that is drawn and read back is found again.
pub proof fn lemma_encoding_round_trip(pos: MapPos)
    requires
        pos.encodable(),
    ensures
        decode_pixel_spec(rendered_pixel(tile_color_spec(pos))) == Some(pos),
{
}

/// The cleared background, black with any opacity, is no tile.
pub proof fn lemma_background_is_no_tile(alpha: u8)
    ensures
        decode_pixel_spec([0u8, 0u8, 0u8, alpha]) == None::<MapPos>,
{
}

/// Two different tiles are never drawn in one colour.
pub proof fn lemma_encoding_is_injective(a: MapPos, b: MapPos)
    requires
        a.encodable(),
        b.encodable(),
        tile_color_spec(a) == tile_color_spec(b),
    ensures
        a == b,
{
}

/// Where the index of a vertex falls: vertex `part` of triangle `edge` of
/// tile number `x + y * w`.
proof fn lemma_vertex_index(map_size: Size2, x: int, y: int, edge: int, part: int)
    requires
        0 <= x < map_size.w,
        0 <= y < map_size.h,
        0 <= edge < 6,
        0 <= part < 3,
    ensures
        ({
            let k = 18 * (y * map_size.w + x) + 3 * edge + part;
            &&& 0 <= k < 18 * map_size.tile_count()
            &&& tile_at(map_size, k / 18) == MapPos { x: x as i32, y: y as i32 }
            &&& (k % 18) / 3 == edge
            &&& (k % 18) % 3 == part
        }),
{
    let w = map_size.w as int;
    let h = map_size.h as int;
    let t = y * w + x;
    let k = 18 * t + 3 * edge + part;
    assert(0 <= y * w) by (nonlinear_arith)
        requires
            0 <= y,
            0 < w,
    ;
    assert(y * w + w <= h * w) by (nonlinear_arith)
        requires
            0 <= y < h,
            0 < w,
    ;
    assert(w * h == h * w) by (nonlinear_arith);
    lemma_fundamental_div_mod_converse(t, w, y, x);
    assert(k / 18 == t);
    assert(k % 18 == 3 * edge + part);
}

/// The picking mesh of a map: for every tile, row by row, a fan of six
/// triangles round the tile's centre, and for every vertex of a tile the
/// colour that spells the tile.
pub fn build_hex_map_mesh(map_size: Size2) -> (mesh: (Vec<HexVertex>, Vec<Color3>))
    requires
        map_size.encodable(),
    ensures
        mesh.0@ == hex_map_vertices(map_size),
        mesh.1@ == hex_map_colors(map_size),
        mesh.0@.len() == 18 * map_size.tile_count(),
        mesh.1@.len() == 18 * map_size.tile_count(),
{
    let mut c_data: Vec<Color3> = Vec::new();
    let mut v_data: Vec<HexVertex> = Vec::new();
    let mut y: i32 = 0;
    while y < map_size.h
        invariant
            map_size.encodable(),
            0 <= y,
            y <= map_size.h || y == 0,
            0 < map_size.w || v_data@.len() == 0,
            v_data@.len() == c_data@.len(),
            0 < map_size.w ==> v_data@.len() == 18 * (y * map_size.w),
            forall|k: int|
                0 <= k < v_data@.len() ==> v_data@[k] == hex_vertex_at(map_size, k) && c_data@[k]
                    == hex_color_at(map_size, k),
        decreases map_size.h - y,
    {
        let mut x: i32 = 0;
        while x < map_size.w
            invariant
                map_size.encodable(),
                0 <= y < map_size.h,
                0 <= x,
                x <= map_size.w || x == 0,
                0 < map_size.w || v_data@.len() == 0,
                v_data@.len() == c_data@.len(),
                0 < map_size.w ==> v_data@.len() == 18 * (y * map_size.w + x),
                forall|k: int|
                    0 <= k < v_data@.len() ==> v_data@[k] == hex_vertex_at(map_size, k)
                        && c_data@[k] == hex_color_at(map_size, k),
            decreases map_size.w - x,
        {
            let tile_pos = MapPos { x, y };
            let color = tile_color(tile_pos);
            let mut num: i32 = 0;
            while num < 6
                invariant
                    map_size.encodable(),
                    0 <= y < map_size.h,
                    0 <= x < map_size.w,
                    0 <= num <= 6,
                    tile_pos == (MapPos { x, y }),
                    color == tile_color_spec(tile_pos),
                    v_data@.len() == c_data@.len(),
                    v_data@.len() == 18 * (y * map_size.w + x) + 3 * num,
                    forall|k: int|
                        0 <= k < v_data@.len() ==> v_data@[k] == hex_vertex_at(map_size, k)
                            && c_data@[k] == hex_color_at(map_size, k),
                decreases 6 - num,
            {
                proof {
                    lemma_vertex_index(map_size, x as int, y as int, num as int, 0);
                    lemma_vertex_index(map_size, x as int, y as int, num as int, 1);
                    lemma_vertex_index(map_size, x as int, y as int, num as int, 2);
                }
                v_data.push(HexVertex { tile: tile_pos, point: HexPoint::Corner(num) });
                c_data.push(color);
                v_data.push(HexVertex { tile: tile_pos, point: HexPoint::Corner(num + 1) });
                c_data.push(color);
                v_data.push(HexVertex { tile: tile_pos, point: HexPoint::Center });
                c_data.push(color);
                num = num + 1;
            }
            x = x + 1;
        }
        assert(18 * (y * map_size.w + map_size.w) == 18 * ((y + 1) * map_size.w))
            by (nonlinear_arith);
        y = y + 1;
    }
    proof {
        if 0 < map_size.w && 0 < map_size.h {
            assert(y == map_size.h);
            assert(y * map_size.w == map_size.w * map_size.h) by (nonlinear_arith)
                requires
                    y == map_size.h,
            ;
        } else if 0 < map_size.w {
            assert(y == 0);
        }
        assert(v_data@.len() == 18 * map_size.tile_count());
        assert(v_data@ =~= hex_map_vertices(map_size));
        assert(c_data@ =~= hex_map_colors(map_size));
    }
    (v_data, c_data)
}

/// The eighteen vertices of one tile all have the same colour and all
/// belong to that tile.
pub proof fn lemma_tile_has_one_color(map_size: Size2, i: int, j: int)
    requires
        0 <= i < 18 * map_size.tile_count(),
        0 <= j < 18 * map_size.tile_count(),
        i / 18 == j / 18,
    ensures
        hex_map_colors(map_size)[i] == hex_map_colors(map_size)[j],
        hex_map_vertices(map_size)[i].tile == hex_map_vertices(map_size)[j].tile,
{
}

/// The three vertices of each triangle of the picking mesh have the same
/// colour.
pub proof fn lemma_triangle_has_one_color(map_size: Size2, i: int, j: int)
    requires
        0 <= i < 18 * map_size.tile_count(),
        0 <= j < 18 * map_size.tile_count(),
        i / 3 == j / 3,
    ensures
        hex_map_colors(map_size)[i] == hex_map_colors(map_size)[j],
{
    assert(i / 18 == j / 18);
}

/// Every tile of an encodable map is encodable.
pub proof fn lemma_tiles_are_encodable(map_size: Size2, n: int)
    requires
        map_size.encodable(),
        0 <= n < map_size.tile_count(),
    ensures
        tile_at(map_size, n).encodable(),
        0 <= n % (map_size.w as int) < map_size.w,
        0 <= n / (map_size.w as int) < map_size.h,
{
    let w = map_size.w as int;
    let h = map_size.h as int;
    assert(0 <= n % w < w && 0 <= n / w < h) by (nonlinear_arith)
        requires
            0 < w,
            0 < h,
            0 <= n < w * h,
    ;
}

/// What a pick reads where a triangle of the picking mesh was drawn is the
/// tile of that triangle: the pixel of any vertex colour of the mesh spells
/// the tile that the vertex belongs to.
pub proof fn lemma_drawn_tile_is_picked(map_size: Size2, k: int)
    requires
        map_size.encodable(),
        0 <= k < 18 * map_size.tile_count(),
    ensures
        decode_pixel_spec(rendered_pixel(hex_map_colors(map_size)[k])) == Some(
            hex_map_vertices(map_size)[k].tile,
        ),
{
    lemma_tiles_are_encodable(map_size, k / 18);
    lemma_encoding_round_trip(tile_at(map_size, k / 18));
}

/// How far a picker has come.
#[derive(Clone, Copy, Debug, PartialEq, Eq, Structural)]
pub enum PickerState {
    /// Nothing is on the GPU yet.
    Uninitialized,
    /// The program is linked and the mesh uploaded: tiles can be picked.
    Ready,
    /// The program has been released. The mesh is still on the GPU, until
    /// the picker is given up.
    ProgramReleased,
}

/// What the context has made for a picker and reports of its program: the
/// linked picking program, the locations of its two vertex attributes and of
/// its matrix uniform as the context reports them, and two freshly generated
/// buffers.
#[derive(Clone, Copy, Debug, PartialEq, Eq, Structural)]
pub struct PickerResources {
    pub program: ShaderId,
    pub position_location: i32,
    pub color_location: i32,
    pub mvp_location: i32,
    pub vbo: VboId,
    pub color_vbo: VboId,
}

/// What [`TilePicker::init`] asks for: the calls to issue, and the two
/// arrays that the uploads among them read from.
#[derive(Debug)]
pub struct PickerSetup {
    pub calls: Vec<GlCall>,
    pub vertices: Vec<HexVertex>,
    pub colors: Vec<Color3>,
}

/// The picker: the picking program with its cached locations, the mesh that
/// shows every tile in its own colour, and the size of the window.
#[derive(Debug)]
pub struct TilePicker {
    pub program: ShaderId,
    pub map_mesh: Mesh,
    pub mat_id: MatId,
    pub win_size: Size2,
    pub position_attr: AttrId,
    pub color_attr: AttrId,
    pub state: PickerState,
}

impl TilePicker {
    /// The invariant of a picker: an uninitialised picker has nothing on
    /// the GPU, every other has its whole mesh there.
    pub open spec fn wf(self) -> bool {
        &&& self.map_mesh.wf()
        &&& self.state != PickerState::Uninitialized ==> self.map_mesh.vbo is Some
            && self.map_mesh.color_vbo is Some
        &&& self.state == PickerState::Uninitialized ==> self.map_mesh.vbo is None
    }

    /// Whether the picker owns a program: from the moment it is taken into
    /// use until the program is released.
    pub open spec fn owns_program(self) -> bool {
        self.state == PickerState::Ready
    }

    /// What [`TilePicker::cleanup_opengl`] plans: the release of the
    /// program, if the picker owns one.
    pub open spec fn cleanup_calls(self) -> Seq<GlCall> {
        if self.owns_program() {
            seq![GlCall::DeleteProgram { program: self.program }]
        } else {
            seq![]
        }
    }

    /// The picker that [`TilePicker::cleanup_opengl`] leaves behind: one
    /// that owns no program.
    pub open spec fn after_cleanup(self) -> TilePicker {
        if self.owns_program() {
            TilePicker { state: PickerState::ProgramReleased, ..self }
        } else {
            self
        }
    }

    /// What [`TilePicker::init`] plans for a map of `map_size`.
    pub open spec fn init_calls(resources: PickerResources, map_size: Size2) -> Seq<GlCall> {
        let position_attr = AttrId(resources.position_location as u32);
        let color_attr = AttrId(resources.color_location as u32);
        let count = 18 * map_size.tile_count();
        seq![
            GlCall::UseProgram { program: resources.program },
            GlCall::EnableVertexAttribArray { attr: position_attr },
            GlCall::EnableVertexAttribArray { attr: color_attr },
            GlCall::VertexAttribPointer {
                attr: position_attr,
                components_count: 3,
                normalized: false,
                stride: 0,
            },
            GlCall::VertexAttribPointer {
                attr: color_attr,
                components_count: 3,
                normalized: false,
                stride: 0,
            },
        ] + upload_calls(resources.vbo, count as int, BufferSource::Coords) + upload_calls(
            resources.color_vbo,
            count as int,
            BufferSource::Colors,
        )
    }

    /// What [`TilePicker::pick_tile`] plans.
    pub open spec fn pick_calls(self, mouse_pos: ScreenPos) -> Seq<GlCall> {
        seq![
            GlCall::UseProgram { program: self.program },
            GlCall::UniformMatrix4 { location: self.mat_id.0 as i32, count: 1, transpose: false },
            GlCall::ClearColor { color: Color3 { r: 0, g: 0, b: 0 }, alpha: 255 },
            GlCall::Clear { color_buffer: true, depth_buffer: true },
        ] + self.map_mesh.draw_calls(self.position_attr, self.color_attr) + seq![
            GlCall::ReadPixels {
                x: mouse_pos.x,
                y: (self.win_size.h - mouse_pos.y) as i32,
                width: 1,
                height: 1,
            },
        ]
    }

    /// What [`TilePicker::release`] plans: the release of the program, if
    /// the picker owns one, and of every buffer of the mesh.
    pub open spec fn release_calls(self) -> Seq<GlCall> {
        self.cleanup_calls() + self.map_mesh.release_all_calls()
    }

    /// A picker for a window of `win_size`, with nothing on the GPU.
    pub fn new(win_size: Size2) -> (picker: TilePicker)
        ensures
            picker.wf(),
            picker.state == PickerState::Uninitialized,
            picker.win_size == win_size,
            picker.program == ShaderId(0),
            picker.mat_id == MatId(0),
            picker.map_mesh.vbo is None,
            picker.map_mesh.color_vbo is None,
            picker.map_mesh.len == 0,
    {
        TilePicker {
            program: ShaderId(0),
            map_mesh: Mesh::new(),
            mat_id: MatId(0),
            win_size,
            position_attr: AttrId(0),
            color_attr: AttrId(0),
            state: PickerState::Uninitialized,
        }
    }

    /// The name of the position attribute of the picking program.
    pub fn position_attr_name() -> (name: &'static str)
        ensures
            name@ == "in_vertex_coordinates"@,
    {
        "in_vertex_coordinates"
    }

    /// The name of the colour attribute of the picking program.
    pub fn color_attr_name() -> (name: &'static str)
        ensures
            name@ == "color"@,
    {
        "color"
    }

    /// The name of the matrix uniform of the picking program, which takes
    /// the camera's combined transform.
    pub fn mvp_uniform_name() -> (name: &'static str)
        ensures
            name@ == "mvp_mat"@,
    {
        "mvp_mat"
    }

    /// Records the new size of the window. Nothing else changes.
    pub fn set_win_size(&mut self, win_size: Size2)
        ensures
            *final(self) == (TilePicker { win_size, ..*old(self) }),
    {
        self.win_size = win_size;
    }

    /// Releases the picking program, if the picker owns one, and records
    /// that it is gone: no later call releases it again. A picker that owns
    /// no program plans nothing and stays as it is.
    pub fn cleanup_opengl(&mut self) -> (call: Option<GlCall>)
        ensures
            *final(self) == old(self).after_cleanup(),
            old(self).wf() ==> final(self).wf(),
            !final(self).owns_program(),
            call == (if old(self).owns_program() {
                Some(GlCall::DeleteProgram { program: old(self).program })
            } else {
                None::<GlCall>
            }),
    {
        match self.state {
            PickerState::Ready => {
                self.state = PickerState::ProgramReleased;
                Some(delete_program(&self.program))
            },
            _ => None,
        }
    }

    /// Gives up the picker: what it still owns is released, each thing
    /// once. That is the program, unless none was ever made or it has been
    /// released already, and then every buffer of the mesh.
    pub fn release(self) -> (calls: Vec<GlCall>)
        requires
            self.wf(),
        ensures
            calls@ == self.release_calls(),
    {
        let mut picker = self;
        let mut calls: Vec<GlCall> = Vec::new();
        if let Some(call) = picker.cleanup_opengl() {
            calls.push(call);
        }
        let TilePicker { map_mesh, .. } = picker;
        let mut freed = map_mesh.release();
        calls.append(&mut freed);
        calls
    }

    /// Takes a picker into use. The program becomes the active one, its two
    /// attributes are switched on and described, the picking mesh of the map
    /// is built and its positions and colours are uploaded into the two
    /// buffers, and the three locations are kept for every later pick.
    pub fn init(&mut self, resources: PickerResources, map_size: Size2) -> (setup: PickerSetup)
        requires
            old(self).wf(),
            old(self).state == PickerState::Uninitialized,
            map_size.encodable(),
            resources.vbo != resources.color_vbo,
        ensures
            final(self).wf(),
            final(self).state == PickerState::Ready,
            final(self).win_size == old(self).win_size,
            final(self).program == resources.program,
            final(self).position_attr == AttrId(resources.position_location as u32),
            final(self).color_attr == AttrId(resources.color_location as u32),
            final(self).mat_id == MatId(resources.mvp_location as u32),
            final(self).map_mesh.vbo == Some(resources.vbo),
            final(self).map_mesh.color_vbo == Some(resources.color_vbo),
            final(self).map_mesh.len == 18 * map_size.tile_count(),
            setup.calls@ == Self::init_calls(resources, map_size),
            setup.vertices@ == hex_map_vertices(map_size),
            setup.colors@ == hex_map_colors(map_size),
    {
        self.program = resources.program;
        let mut calls: Vec<GlCall> = Vec::new();
        calls.push(use_program(&self.program));
        let position_attr = get_attr(resources.position_location);
        let color_attr = get_attr(resources.color_location);
        calls.push(enable_vertex_attrib_array(&position_attr));
        calls.push(enable_vertex_attrib_array(&color_attr));
        calls.push(vertex_attrib_pointer(position_attr, 3));
        calls.push(vertex_attrib_pointer(color_attr, 3));
        let (vertex_data, color_data) = build_hex_map_mesh(map_size);
        proof {
            lemma_mesh_size(map_size);
            assert(self.map_mesh.buffers() =~= Set::empty());
        }
        let mut upload = self.map_mesh.init(resources.vbo, vertex_data.len());
        calls.append(&mut upload);
        let mut color_upload = self.map_mesh.set_color(resources.color_vbo, color_data.len());
        calls.append(&mut color_upload);
        self.mat_id = MatId(get_uniform(resources.mvp_location));
        self.position_attr = position_attr;
        self.color_attr = color_attr;
        self.state = PickerState::Ready;
        assert(calls@ =~= Self::init_calls(resources, map_size));
        PickerSetup { calls, vertices: vertex_data, colors: color_data }
    }

    /// Plans one pick under the cursor. The picking program is made active
    /// and given the camera's current transform, the frame is cleared to
    /// black, the mesh is drawn, and one pixel is read back under the
    /// cursor, counted from the bottom of the window as the framebuffer
    /// counts. What the read returns goes to
    /// [`TilePicker::read_coords_from_image_buffer`].
    pub fn pick_tile(&self, mouse_pos: ScreenPos) -> (calls: Vec<GlCall>)
        requires
            self.wf(),
            self.state == PickerState::Ready,
            i32::MIN <= self.win_size.h - mouse_pos.y <= i32::MAX,
        ensures
            calls@ == self.pick_calls(mouse_pos),
    {
        let mut calls: Vec<GlCall> = Vec::new();
        calls.push(use_program(&self.program));
        calls.push(uniform_mat4f(self.mat_id));
        calls.push(set_clear_color(Color3 { r: 0, g: 0, b: 0 }));
        calls.push(clear());
        let mut draw = self.map_mesh.draw(self.position_attr, self.color_attr);
        calls.append(&mut draw);
        let height: i32 = self.win_size.h;
        let reverted_y: i32 = height - mouse_pos.y;
        calls.push(GlCall::ReadPixels { x: mouse_pos.x, y: reverted_y, width: 1, height: 1 });
        assert(calls@ =~= self.pick_calls(mouse_pos));
        calls
    }

    /// The tile under the cursor, from the pixel that the read at the end
    /// of a pick returned, or `None` where the cursor is over no tile.
    pub fn read_coords_from_image_buffer(&self, data: [u8; 4]) -> (tile: Option<MapPos>)
        ensures
            tile == decode_pixel_spec(data),
    {
        decode_pixel(data)
    }
}

/// The picking mesh of an encodable map is small: its vertex count is a
/// whole number of triangles and fits every counter that holds it.
pub proof fn lemma_mesh_size(map_size: Size2)
    requires
        map_size.encodable(),
    ensures
        18 * map_size.tile_count() <= 18 * 255 * 255,
        (18 * map_size.tile_count()) % 3 == 0,
{
    if 0 < map_size.w && 0 < map_size.h {
        assert(map_size.w * map_size.h <= 255 * 255) by (nonlinear_arith)
            requires
                0 < map_size.w <= 255,
                0 < map_size.h <= 255,
        ;
    }
}

/// Whatever a picker plans, it binds a buffer directly before it fills it,
/// and it releases no buffer and no program twice; and a pick begins by
/// making the picking program the active one.
pub proof fn lemma_picker_calls_are_orderly(
    picker: TilePicker,
    resources: PickerResources,
    map_size: Size2,
    mouse_pos: ScreenPos,
)
    requires
        picker.wf(),
    ensures
        uploads_follow_binds(TilePicker::init_calls(resources, map_size)),
        uploads_follow_binds(picker.pick_calls(mouse_pos)),
        releases_once(picker.cleanup_calls()),
        releases_once(picker.release_calls()),
        picker.pick_calls(mouse_pos)[0] == (GlCall::UseProgram { program: picker.program }),
{
}

/// Over its whole life a picker releases its program exactly once, and a
/// picker that never had a program releases none. Whether the program is
/// released ahead of the rest or not, what is planned in all is the release
/// that a picker given up at once would plan: the program first if the
/// picker owns one, then the buffers of the mesh; and once the program is
/// gone, neither a second release of it nor the giving up plans it again.
pub proof fn lemma_program_is_released_once(picker: TilePicker)
    requires
        picker.wf(),
    ensures
        picker.cleanup_calls() + picker.after_cleanup().release_calls() == picker.release_calls(),
        releases_once(picker.cleanup_calls() + picker.after_cleanup().release_calls()),
        picker.after_cleanup().cleanup_calls() == Seq::<GlCall>::empty(),
        releases_no_program(picker.after_cleanup().release_calls()),
        picker.owns_program() ==> picker.release_calls() == seq![
            GlCall::DeleteProgram { program: picker.program },
        ] + picker.map_mesh.release_all_calls(),
        !picker.owns_program() ==> releases_no_program(picker.release_calls()),
        releases_no_program(picker.map_mesh.release_all_calls()),
{
    let after = picker.after_cleanup();
    assert(after.map_mesh == picker.map_mesh);
    assert(after.cleanup_calls() =~= Seq::<GlCall>::empty());
    assert(picker.cleanup_calls() + after.release_calls() =~= picker.release_calls());
}

} // verus!
