use hex_picker::gl_helpers::{BufferSource, GlCall};
use hex_picker::tile_picker::{
    build_hex_map_mesh, decode_pixel, tile_color, HexPoint, HexVertex, PickerResources,
    PickerState, TilePicker,
};
use hex_picker::types::{AttrId, Color3, MapPos, MatId, ScreenPos, ShaderId, Size2, VboId};
use std::collections::HashMap;

#[test]
fn every_tile_survives_the_round_trip() {
    for x in 0..=254 {
        for y in 0..=254 {
            let color = tile_color(MapPos { x, y });
            assert_eq!(color.b, 255);
            let pixel = [color.r, color.g, color.b, 255];
            assert_eq!(decode_pixel(pixel), Some(MapPos { x, y }));
        }
    }
}

#[test]
fn tile_color_is_exact() {
    assert_eq!(tile_color(MapPos { x: 0, y: 0 }), Color3 { r: 0, g: 0, b: 255 });
    assert_eq!(tile_color(MapPos { x: 2, y: 1 }), Color3 { r: 2, g: 1, b: 255 });
    assert_eq!(tile_color(MapPos { x: 254, y: 17 }), Color3 { r: 254, g: 17, b: 255 });
    assert_eq!(Color3 { r: 2, g: 1, b: 255 }.r as f32 / 255.0, 2.0f32 / 255.0);
}

#[test]
fn background_is_no_tile() {
    assert_eq!(decode_pixel([0, 0, 0, 0]), None);
    assert_eq!(decode_pixel([0, 0, 0, 255]), None);
    assert_eq!(decode_pixel([9, 9, 0, 255]), None);
}

#[test]
fn any_blue_is_a_tile() {
    assert_eq!(decode_pixel([3, 4, 1, 0]), Some(MapPos { x: 3, y: 4 }));
    assert_eq!(decode_pixel([0, 0, 255, 255]), Some(MapPos { x: 0, y: 0 }));
    assert_eq!(decode_pixel([255, 255, 128, 7]), Some(MapPos { x: 255, y: 255 }));
}

#[test]
fn mesh_has_eighteen_vertices_a_tile() {
    for (w, h) in [(0, 0), (1, 1), (4, 4), (3, 5), (7, 2), (0, 3), (3, 0), (-2, 4)] {
        let (vertices, colors) = build_hex_map_mesh(Size2 { w, h });
        let tiles = if w > 0 && h > 0 { (w * h) as usize } else { 0 };
        assert_eq!(vertices.len(), 18 * tiles);
        assert_eq!(colors.len(), 18 * tiles);
    }
}

#[test]
fn maps_over_255_a_side_cannot_be_picked_from() {
    assert!(Size2 { w: 255, h: 255 }.is_encodable());
    assert!(Size2 { w: 4, h: 4 }.is_encodable());
    assert!(Size2 { w: 0, h: -3 }.is_encodable());
    assert!(!Size2 { w: 256, h: 4 }.is_encodable());
    assert!(!Size2 { w: 4, h: 256 }.is_encodable());
    assert!(!Size2 { w: i32::MAX, h: i32::MAX }.is_encodable());
}

#[test]
fn largest_map_fits() {
    let (vertices, colors) = build_hex_map_mesh(Size2 { w: 255, h: 255 });
    assert_eq!(vertices.len(), 18 * 255 * 255);
    assert_eq!(colors.len(), 18 * 255 * 255);
    assert_eq!(vertices[vertices.len() - 1].tile, MapPos { x: 254, y: 254 });
    assert_eq!(colors[colors.len() - 1], Color3 { r: 254, g: 254, b: 255 });
}

#[test]
fn tiles_come_row_by_row_in_one_color_each() {
    let (vertices, colors) = build_hex_map_mesh(Size2 { w: 3, h: 2 });
    let order = [(0, 0), (1, 0), (2, 0), (0, 1), (1, 1), (2, 1)];
    for (t, (x, y)) in order.iter().enumerate() {
        for k in 0..18 {
            assert_eq!(vertices[18 * t + k].tile, MapPos { x: *x, y: *y });
            assert_eq!(colors[18 * t + k], Color3 { r: *x as u8, g: *y as u8, b: 255 });
        }
    }
    for triangle in colors.chunks(3) {
        assert_eq!(triangle[0], triangle[1]);
        assert_eq!(triangle[1], triangle[2]);
    }
}

#[test]
fn each_tile_is_a_fan_round_its_centre() {
    let (vertices, _) = build_hex_map_mesh(Size2 { w: 1, h: 1 });
    let tile = MapPos { x: 0, y: 0 };
    let mut expected = Vec::new();
    for edge in 0..6 {
        expected.push(HexVertex { tile, point: HexPoint::Corner(edge) });
        expected.push(HexVertex { tile, point: HexPoint::Corner(edge + 1) });
        expected.push(HexVertex { tile, point: HexPoint::Center });
    }
    assert_eq!(vertices, expected);
}

fn resources() -> PickerResources {
    PickerResources {
        program: ShaderId(5),
        position_location: 0,
        color_location: 1,
        mvp_location: 2,
        vbo: VboId(31),
        color_vbo: VboId(32),
    }
}

fn pointer(attr: u32) -> GlCall {
    GlCall::VertexAttribPointer {
        attr: AttrId(attr),
        components_count: 3,
        normalized: false,
        stride: 0,
    }
}

#[test]
fn new_picker_is_uninitialized() {
    let picker = TilePicker::new(Size2 { w: 640, h: 480 });
    assert_eq!(picker.state, PickerState::Uninitialized);
    assert_eq!(picker.win_size, Size2 { w: 640, h: 480 });
    assert_eq!(picker.program, ShaderId(0));
    assert_eq!(picker.mat_id, MatId(0));
    assert_eq!(picker.map_mesh.vbo, None);
}

#[test]
fn a_picker_never_used_releases_nothing() {
    let mut picker = TilePicker::new(Size2 { w: 640, h: 480 });
    assert_eq!(picker.cleanup_opengl(), None);
    assert_eq!(picker.state, PickerState::Uninitialized);
    assert_eq!(picker.release(), vec![]);
    let untouched = TilePicker::new(Size2 { w: 640, h: 480 });
    assert_eq!(untouched.release(), vec![]);
}

#[test]
fn the_program_is_released_once() {
    let mut picker = TilePicker::new(Size2 { w: 640, h: 480 });
    picker.init(resources(), Size2 { w: 1, h: 1 });
    assert_eq!(picker.cleanup_opengl(), Some(GlCall::DeleteProgram { program: ShaderId(5) }));
    assert_eq!(picker.state, PickerState::ProgramReleased);
    assert_eq!(picker.program, ShaderId(5));
    assert_eq!(picker.map_mesh.vbo, Some(VboId(31)));
    assert_eq!(picker.cleanup_opengl(), None);
    assert_eq!(picker.state, PickerState::ProgramReleased);
    assert_eq!(
        picker.release(),
        vec![
            GlCall::DeleteBuffer { buffer: VboId(31) },
            GlCall::DeleteBuffer { buffer: VboId(32) },
        ]
    );
}

#[test]
fn a_thousand_pickers_leak_nothing() {
    let mut programs: Vec<u32> = Vec::new();
    let mut buffers: Vec<u32> = Vec::new();
    let mut double_frees = 0;
    for round in 0..1000u32 {
        let mut picker = TilePicker::new(Size2 { w: 640, h: 480 });
        let mut planned: Vec<GlCall> = Vec::new();
        if round % 4 != 0 {
            let made = PickerResources {
                program: ShaderId(round + 1),
                vbo: VboId(2 * round + 1),
                color_vbo: VboId(2 * round + 2),
                ..resources()
            };
            programs.push(made.program.0);
            buffers.push(made.vbo.0);
            buffers.push(made.color_vbo.0);
            picker.init(made, Size2 { w: 2, h: 2 });
        }
        if round % 3 == 0 {
            planned.extend(picker.cleanup_opengl());
        }
        planned.extend(picker.release());
        for call in planned {
            let found = match call {
                GlCall::DeleteProgram { program } => {
                    programs.iter().position(|p| *p == program.0).map(|at| programs.remove(at))
                }
                GlCall::DeleteBuffer { buffer } => {
                    buffers.iter().position(|b| *b == buffer.0).map(|at| buffers.remove(at))
                }
                other => panic!("{:?} is no release", other),
            };
            if found.is_none() {
                double_frees += 1;
            }
        }
        assert!(programs.is_empty());
        assert!(buffers.is_empty());
    }
    assert_eq!(double_frees, 0);
}

#[test]
fn picker_names() {
    assert_eq!(TilePicker::position_attr_name(), "in_vertex_coordinates");
    assert_eq!(TilePicker::color_attr_name(), "color");
    assert_eq!(TilePicker::mvp_uniform_name(), "mvp_mat");
}

#[test]
fn set_win_size_changes_only_the_size() {
    let mut picker = TilePicker::new(Size2 { w: 640, h: 480 });
    picker.init(resources(), Size2 { w: 2, h: 2 });
    picker.set_win_size(Size2 { w: 800, h: 600 });
    assert_eq!(picker.win_size, Size2 { w: 800, h: 600 });
    assert_eq!(picker.state, PickerState::Ready);
    assert_eq!(picker.program, ShaderId(5));
    assert_eq!(picker.map_mesh.len, 72);
}

#[test]
fn init_plans_the_whole_setup() {
    let mut picker = TilePicker::new(Size2 { w: 640, h: 480 });
    let setup = picker.init(resources(), Size2 { w: 4, h: 4 });
    assert_eq!(
        setup.calls,
        vec![
            GlCall::UseProgram { program: ShaderId(5) },
            GlCall::EnableVertexAttribArray { attr: AttrId(0) },
            GlCall::EnableVertexAttribArray { attr: AttrId(1) },
            pointer(0),
            pointer(1),
            GlCall::BindBuffer { buffer: VboId(31) },
            GlCall::BufferData { size: 288 * 12, source: BufferSource::Coords },
            GlCall::BindBuffer { buffer: VboId(32) },
            GlCall::BufferData { size: 288 * 12, source: BufferSource::Colors },
        ]
    );
    assert_eq!(setup.vertices.len(), 288);
    assert_eq!(setup.colors.len(), 288);
    assert_eq!(picker.state, PickerState::Ready);
    assert_eq!(picker.program, ShaderId(5));
    assert_eq!(picker.position_attr, AttrId(0));
    assert_eq!(picker.color_attr, AttrId(1));
    assert_eq!(picker.mat_id, MatId(2));
    assert_eq!(picker.map_mesh.vbo, Some(VboId(31)));
    assert_eq!(picker.map_mesh.color_vbo, Some(VboId(32)));
    assert_eq!(picker.map_mesh.len, 288);
}

#[test]
fn pick_reads_one_pixel_from_the_bottom() {
    let mut picker = TilePicker::new(Size2 { w: 640, h: 480 });
    picker.init(resources(), Size2 { w: 1, h: 1 });
    let calls = picker.pick_tile(ScreenPos { x: 100, y: 30 });
    assert_eq!(
        calls,
        vec![
            GlCall::UseProgram { program: ShaderId(5) },
            GlCall::UniformMatrix4 { location: 2, count: 1, transpose: false },
            GlCall::ClearColor { color: Color3 { r: 0, g: 0, b: 0 }, alpha: 255 },
            GlCall::Clear { color_buffer: true, depth_buffer: true },
            GlCall::BindBuffer { buffer: VboId(32) },
            GlCall::EnableVertexAttribArray { attr: AttrId(1) },
            pointer(1),
            GlCall::BindBuffer { buffer: VboId(31) },
            GlCall::EnableVertexAttribArray { attr: AttrId(0) },
            pointer(0),
            GlCall::DrawArrays { first: 0, count: 18 },
            GlCall::ReadPixels { x: 100, y: 450, width: 1, height: 1 },
        ]
    );
    assert_eq!(picker.read_coords_from_image_buffer([0, 0, 255, 255]), Some(MapPos { x: 0, y: 0 }));
    assert_eq!(picker.read_coords_from_image_buffer([0, 0, 0, 255]), None);
}

#[test]
fn release_frees_program_and_buffers() {
    let mut picker = TilePicker::new(Size2 { w: 640, h: 480 });
    picker.init(resources(), Size2 { w: 1, h: 1 });
    assert_eq!(
        picker.release(),
        vec![
            GlCall::DeleteProgram { program: ShaderId(5) },
            GlCall::DeleteBuffer { buffer: VboId(31) },
            GlCall::DeleteBuffer { buffer: VboId(32) },
        ]
    );
}

/// World-space centre of a tile: offset rows of unit-spaced hexagons.
fn tile_to_world(tile: MapPos) -> (f64, f64) {
    let shift = if tile.y % 2 == 1 { 0.5 } else { 0.0 };
    (tile.x as f64 + shift, tile.y as f64 * 0.75f64.sqrt())
}

/// Offset of a hexagon's corner from its centre.
fn corner_offset(index: i32) -> (f64, f64) {
    let radius = 1.0 / 3.0f64.sqrt();
    let angle = std::f64::consts::PI / 6.0 + std::f64::consts::PI / 3.0 * index as f64;
    (radius * angle.cos(), radius * angle.sin())
}

fn world_of(vertex: &HexVertex) -> (f64, f64) {
    let (cx, cy) = tile_to_world(vertex.tile);
    match vertex.point {
        HexPoint::Corner(index) => {
            let (dx, dy) = corner_offset(index);
            (cx + dx, cy + dy)
        }
        HexPoint::Center => (cx, cy),
    }
}

/// The camera of the scenario: 60 pixels a world unit, the origin of the
/// world 90 pixels in from the bottom-left corner of the window.
fn world_to_screen(p: (f64, f64)) -> (f64, f64) {
    (90.0 + 60.0 * p.0, 90.0 + 60.0 * p.1)
}

fn inside(p: (f64, f64), a: (f64, f64), b: (f64, f64), c: (f64, f64)) -> bool {
    let side = |u: (f64, f64), v: (f64, f64)| (v.0 - u.0) * (p.1 - u.1) - (v.1 - u.1) * (p.0 - u.0);
    let (d1, d2, d3) = (side(a, b), side(b, c), side(c, a));
    let negative = d1 < 0.0 || d2 < 0.0 || d3 < 0.0;
    let positive = d1 > 0.0 || d2 > 0.0 || d3 > 0.0;
    !(negative && positive)
}

/// A context in software: it keeps what is uploaded and rasterises a draw
/// at the one pixel that is read.
struct SoftwareContext {
    bound: Option<VboId>,
    active_program: Option<ShaderId>,
    coords: HashMap<u32, Vec<(f64, f64)>>,
    colors: HashMap<u32, Vec<Color3>>,
    attached: HashMap<u32, VboId>,
    clear_color: [u8; 4],
    cleared: bool,
    drawn: Option<(VboId, VboId, usize)>,
}

impl SoftwareContext {
    fn new() -> SoftwareContext {
        SoftwareContext {
            bound: None,
            active_program: None,
            coords: HashMap::new(),
            colors: HashMap::new(),
            attached: HashMap::new(),
            clear_color: [9, 9, 9, 9],
            cleared: false,
            drawn: None,
        }
    }

    /// Issues the calls in order; returns what the last read returned.
    fn issue(
        &mut self,
        calls: &[GlCall],
        vertices: &[HexVertex],
        colors: &[Color3],
        position_attr: AttrId,
        color_attr: AttrId,
    ) -> Option<[u8; 4]> {
        let mut read = None;
        for call in calls {
            match *call {
                GlCall::UseProgram { program } => self.active_program = Some(program),
                GlCall::BindBuffer { buffer } => self.bound = Some(buffer),
                GlCall::BufferData { size, source } => {
                    let buffer = self.bound.unwrap();
                    match source {
                        BufferSource::Coords => {
                            assert_eq!(size as usize, vertices.len() * 12);
                            let data = vertices.iter().map(|v| world_to_screen(world_of(v)));
                            self.coords.insert(buffer.0, data.collect());
                        }
                        BufferSource::Colors => {
                            assert_eq!(size as usize, colors.len() * 12);
                            self.colors.insert(buffer.0, colors.to_vec());
                        }
                        BufferSource::TextureCoords => unreachable!(),
                    }
                }
                GlCall::VertexAttribPointer { attr, components_count, .. } => {
                    assert_eq!(components_count, 3);
                    if let Some(buffer) = self.bound {
                        self.attached.insert(attr.0, buffer);
                    }
                }
                GlCall::ClearColor { color, alpha } => {
                    self.clear_color = [color.r, color.g, color.b, alpha]
                }
                GlCall::Clear { color_buffer, .. } => {
                    assert!(color_buffer);
                    self.cleared = true;
                    self.drawn = None;
                }
                GlCall::DrawArrays { first, count } => {
                    assert!(self.active_program.is_some());
                    assert_eq!(first, 0);
                    let positions = self.attached[&position_attr.0];
                    let tints = self.attached[&color_attr.0];
                    self.drawn = Some((positions, tints, count as usize));
                }
                GlCall::ReadPixels { x, y, width, height } => {
                    assert_eq!((width, height), (1, 1));
                    assert!(self.cleared);
                    let point = (x as f64 + 0.5, y as f64 + 0.5);
                    let mut pixel = self.clear_color;
                    if let Some((positions, tints, count)) = self.drawn {
                        let positions = &self.coords[&positions.0];
                        let tints = &self.colors[&tints.0];
                        for t in 0..count / 3 {
                            let (a, b, c) =
                                (positions[3 * t], positions[3 * t + 1], positions[3 * t + 2]);
                            if inside(point, a, b, c) {
                                let tint = tints[3 * t];
                                pixel = [tint.r, tint.g, tint.b, 255];
                            }
                        }
                    }
                    read = Some(pixel);
                }
                _ => {}
            }
        }
        read
    }
}

fn pick(
    picker: &TilePicker,
    context: &mut SoftwareContext,
    mouse_pos: ScreenPos,
) -> Option<MapPos> {
    let calls = picker.pick_tile(mouse_pos);
    let pixel = context
        .issue(&calls, &[], &[], picker.position_attr, picker.color_attr)
        .unwrap();
    picker.read_coords_from_image_buffer(pixel)
}

#[test]
fn picking_finds_the_tile_under_the_cursor() {
    let win_size = Size2 { w: 400, h: 360 };
    let mut context = SoftwareContext::new();
    let mut picker = TilePicker::new(win_size);
    let setup = picker.init(resources(), Size2 { w: 4, h: 4 });
    context.issue(
        &setup.calls,
        &setup.vertices,
        &setup.colors,
        picker.position_attr,
        picker.color_attr,
    );

    let centre = world_to_screen(tile_to_world(MapPos { x: 2, y: 1 }));
    let click = ScreenPos { x: centre.0 as i32, y: win_size.h - centre.1 as i32 };
    assert_eq!(pick(&picker, &mut context, click), Some(MapPos { x: 2, y: 1 }));

    for corner in [
        ScreenPos { x: 0, y: 1 },
        ScreenPos { x: 399, y: 1 },
        ScreenPos { x: 0, y: 360 },
        ScreenPos { x: 399, y: 360 },
    ] {
        assert_eq!(pick(&picker, &mut context, corner), None);
    }

    for x in 0..4 {
        for y in 0..4 {
            let centre = world_to_screen(tile_to_world(MapPos { x, y }));
            let click = ScreenPos { x: centre.0 as i32, y: win_size.h - centre.1 as i32 };
            assert_eq!(pick(&picker, &mut context, click), Some(MapPos { x, y }));
        }
    }
}
