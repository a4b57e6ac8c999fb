//! A mesh: a position buffer, an optional colour buffer, and the draw that
//! renders them as a triangle list.

use vstd::prelude::*;
use crate::gl_helpers::{
    bind_buffer, delete_buffer, draw_mesh, enable_vertex_attrib_array, fill_current_color_vbo,
    fill_current_coord_vbo, releases_once, uploads_follow_binds, vertex_attrib_pointer,
    BufferSource, GlCall,
};
use crate::types::{AttrId, VboId};

verus! {

/// The buffers of one mesh and the number of its vertices.
///
/// A mesh is the only owner of its buffers: they are generated for it,
/// handed to [`Mesh::init`] and [`Mesh::set_color`], and given up by a later
/// call of one of those two or by [`Mesh::release`].
#[derive(Debug)]
pub struct Mesh {
    pub vbo: Option<VboId>,
    pub color_vbo: Option<VboId>,
    pub len: i32,
}

/// The release of a buffer, if there is one.
pub open spec fn release_calls(buffer: Option<VboId>) -> Seq<GlCall> {
    match buffer {
        Some(buffer) => seq![GlCall::DeleteBuffer { buffer }],
        None => seq![],
    }
}

/// Binding `buffer` and filling it with `len` items of 12 bytes from `source`.
pub open spec fn upload_calls(buffer: VboId, len: int, source: BufferSource) -> Seq<GlCall> {
    seq![GlCall::BindBuffer { buffer }, GlCall::BufferData { size: (len * 12) as i64, source }]
}

/// Binding `buffer` and pointing the attribute `attr` at it, three floats a
/// vertex.
pub open spec fn attach_calls(buffer: VboId, attr: AttrId) -> Seq<GlCall> {
    seq![
        GlCall::BindBuffer { buffer },
        GlCall::EnableVertexAttribArray { attr },
        GlCall::VertexAttribPointer { attr, components_count: 3, normalized: false, stride: 0 },
    ]
}

/// The buffers that are alive once `calls` have been issued, of those that
/// were alive before.
pub open spec fn live_after(live: Set<VboId>, calls: Seq<GlCall>) -> Set<VboId> {
    Set::new(
        |buffer: VboId|
            live.contains(buffer) && forall|i: int|
                0 <= i < calls.len() ==> calls[i] != (GlCall::DeleteBuffer { buffer }),
    )
}

impl Mesh {
    /// The invariant of a mesh: whole triangles only; colours only on top of
    /// positions; and two buffers where there are two.
    pub open spec fn wf(self) -> bool {
        &&& 0 <= self.len
        &&& self.len % 3 == 0
        &&& self.vbo is None ==> self.color_vbo is None && self.len == 0
        &&& self.color_vbo is Some ==> self.color_vbo != self.vbo
    }

    /// The buffers that the mesh owns.
    pub open spec fn buffers(self) -> Set<VboId> {
        Set::new(|buffer: VboId| self.vbo == Some(buffer) || self.color_vbo == Some(buffer))
    }

    /// What [`Mesh::init`] returns.
    pub open spec fn init_calls(self, vbo: VboId, vertex_count: int) -> Seq<GlCall> {
        release_calls(self.vbo) + upload_calls(vbo, vertex_count, BufferSource::Coords)
    }

    /// What [`Mesh::set_color`] returns.
    pub open spec fn set_color_calls(self, vbo: VboId, colors_count: int) -> Seq<GlCall> {
        release_calls(self.color_vbo) + upload_calls(vbo, colors_count, BufferSource::Colors)
    }

    /// What [`Mesh::draw`] returns.
    pub open spec fn draw_calls(self, position_attr: AttrId, color_attr: AttrId) -> Seq<GlCall> {
        match self.vbo {
            Some(vbo) => {
                let colors = match self.color_vbo {
                    Some(color_vbo) => attach_calls(color_vbo, color_attr),
                    None => seq![],
                };
                colors + attach_calls(vbo, position_attr) + seq![
                    GlCall::DrawArrays { first: 0, count: self.len },
                ]
            },
            None => seq![],
        }
    }

    /// What [`Mesh::release`] returns.
    pub open spec fn release_all_calls(self) -> Seq<GlCall> {
        release_calls(self.vbo) + release_calls(self.color_vbo)
    }

    /// A mesh without buffers and without vertices.
    pub fn new() -> (mesh: Mesh)
        ensures
            mesh.wf(),
            mesh.vbo is None,
            mesh.color_vbo is None,
            mesh.len == 0,
    {
        Mesh { vbo: None, color_vbo: None, len: 0 }
    }

    /// The name under which a program exposes the position attribute that
    /// [`Mesh::draw`] is given.
    pub fn position_attr_name() -> (name: &'static str)
        ensures
            name@ == "position"@,
    {
        "position"
    }

    /// The name under which a program exposes the colour attribute that
    /// [`Mesh::draw`] is given.
    pub fn color_attr_name() -> (name: &'static str)
        ensures
            name@ == "color"@,
    {
        "color"
    }

    /// Takes `vbo`, a buffer that the context has just generated, as the
    /// position buffer, and plans the upload of `vertex_count` positions
    /// into it. A position buffer that the mesh already had is released
    /// first. Colours that the mesh carries stay, so the vertex count must
    /// then stay too.
    pub fn init(&mut self, vbo: VboId, vertex_count: usize) -> (calls: Vec<GlCall>)
        requires
            old(self).wf(),
            vertex_count <= i32::MAX,
            vertex_count % 3 == 0,
            old(self).color_vbo is Some ==> vertex_count == old(self).len,
            !old(self).buffers().contains(vbo),
        ensures
            final(self).wf(),
            final(self).vbo == Some(vbo),
            final(self).color_vbo == old(self).color_vbo,
            final(self).len == vertex_count,
            calls@ == old(self).init_calls(vbo, vertex_count as int),
    {
        let mut calls: Vec<GlCall> = Vec::new();
        if let Some(previous) = self.vbo {
            calls.push(delete_buffer(&previous));
        }
        self.len = vertex_count as i32;
        self.vbo = Some(vbo);
        calls.push(bind_buffer(&vbo));
        calls.push(fill_current_coord_vbo(vertex_count));
        assert(self.color_vbo is Some ==> self.color_vbo != self.vbo) by {
            if self.color_vbo is Some {
                assert(old(self).buffers().contains(self.color_vbo->Some_0));
            }
        }
        calls
    }

    /// Takes `vbo`, a buffer that the context has just generated, as the
    /// colour buffer, and plans the upload of one colour per vertex into it.
    /// A colour buffer that the mesh already had is released first.
    pub fn set_color(&mut self, vbo: VboId, colors_count: usize) -> (calls: Vec<GlCall>)
        requires
            old(self).wf(),
            old(self).vbo is Some,
            colors_count == old(self).len,
            !old(self).buffers().contains(vbo),
        ensures
            final(self).wf(),
            final(self).vbo == old(self).vbo,
            final(self).color_vbo == Some(vbo),
            final(self).len == old(self).len,
            calls@ == old(self).set_color_calls(vbo, colors_count as int),
    {
        let mut calls: Vec<GlCall> = Vec::new();
        if let Some(previous) = self.color_vbo {
            calls.push(delete_buffer(&previous));
        }
        self.color_vbo = Some(vbo);
        calls.push(bind_buffer(&vbo));
        calls.push(fill_current_color_vbo(colors_count));
        assert(self.color_vbo != self.vbo) by {
            assert(!old(self).buffers().contains(vbo));
        }
        calls
    }

    /// Plans one draw of the mesh: the colour buffer, if there is one, is
    /// bound and attached to `color_attr`; then the position buffer is bound
    /// and attached to `position_attr`; then all `len / 3` triangles are
    /// drawn. A mesh without a position buffer draws nothing.
    pub fn draw(&self, position_attr: AttrId, color_attr: AttrId) -> (calls: Vec<GlCall>)
        requires
            self.wf(),
        ensures
            calls@ == self.draw_calls(position_attr, color_attr),
    {
        let mut calls: Vec<GlCall> = Vec::new();
        if let Some(vbo) = self.vbo {
            if let Some(color_vbo) = self.color_vbo {
                calls.push(bind_buffer(&color_vbo));
                calls.push(enable_vertex_attrib_array(&color_attr));
                calls.push(vertex_attrib_pointer(color_attr, 3));
            }
            calls.push(bind_buffer(&vbo));
            calls.push(enable_vertex_attrib_array(&position_attr));
            calls.push(vertex_attrib_pointer(position_attr, 3));
            calls.push(draw_mesh(self.len / 3));
        }
        calls
    }

    /// Gives up the mesh: each buffer that it owns is released, once.
    pub fn release(self) -> (calls: Vec<GlCall>)
        requires
            self.wf(),
        ensures
            calls@ == self.release_all_calls(),
    {
        let mut calls: Vec<GlCall> = Vec::new();
        if let Some(vbo) = self.vbo {
            calls.push(delete_buffer(&vbo));
        }
        if let Some(color_vbo) = self.color_vbo {
            calls.push(delete_buffer(&color_vbo));
        }
        calls
    }
}

/// Issuing `first` and then `second` leaves alive what `second` leaves alive
/// of what `first` left alive.
pub proof fn lemma_live_after_concat(live: Set<VboId>, first: Seq<GlCall>, second: Seq<GlCall>)
    ensures
        live_after(live, first + second) == live_after(live_after(live, first), second),
{
    let whole = first + second;
    assert forall|buffer: VboId|
        live_after(live, whole).contains(buffer) <==> live_after(
            live_after(live, first),
            second,
        ).contains(buffer) by {
        let gone = GlCall::DeleteBuffer { buffer };
        if live_after(live, whole).contains(buffer) {
            assert forall|i: int| 0 <= i < first.len() implies first[i] != gone by {
                assert(whole[i] == first[i]);
            }
            assert forall|i: int| 0 <= i < second.len() implies second[i] != gone by {
                assert(whole[first.len() + i] == second[i]);
            }
        }
        if live_after(live_after(live, first), second).contains(buffer) {
            assert forall|i: int| 0 <= i < whole.len() implies whole[i] != gone by {
                if i < first.len() {
                    assert(whole[i] == first[i]);
                } else {
                    assert(whole[i] == second[i - first.len()]);
                }
            }
        }
    }
    assert(live_after(live, whole) =~= live_after(live_after(live, first), second));
}

/// [`Mesh::init`] leaks nothing. Of the buffers alive once `vbo` has been
/// generated and the planned calls issued, the mesh owns what it is said to
/// own afterwards, and the rest are the buffers that were alive before and
/// were not the mesh's.
pub proof fn lemma_init_leaks_nothing(
    before: Mesh,
    after: Mesh,
    vbo: VboId,
    vertex_count: int,
    live: Set<VboId>,
)
    requires
        before.wf(),
        before.buffers().subset_of(live),
        !live.contains(vbo),
        after.vbo == Some(vbo),
        after.color_vbo == before.color_vbo,
    ensures
        live_after(live.insert(vbo), before.init_calls(vbo, vertex_count)) == live.difference(
            before.buffers(),
        ).union(after.buffers()),
{
    let calls = before.init_calls(vbo, vertex_count);
    let left = live_after(live.insert(vbo), calls);
    let right = live.difference(before.buffers()).union(after.buffers());
    assert forall|buffer: VboId| left.contains(buffer) <==> right.contains(buffer) by {
        let gone = GlCall::DeleteBuffer { buffer };
        if before.vbo == Some(buffer) {
            assert(calls[0] == gone);
            assert(before.buffers().contains(buffer));
        }
        if before.color_vbo == Some(buffer) {
            assert(before.buffers().contains(buffer));
        }
    }
    assert(left =~= right);
}

/// [`Mesh::set_color`] leaks nothing, in the sense of
/// [`lemma_init_leaks_nothing`].
pub proof fn lemma_set_color_leaks_nothing(
    before: Mesh,
    after: Mesh,
    vbo: VboId,
    colors_count: int,
    live: Set<VboId>,
)
    requires
        before.wf(),
        before.buffers().subset_of(live),
        !live.contains(vbo),
        after.vbo == before.vbo,
        after.color_vbo == Some(vbo),
    ensures
        live_after(live.insert(vbo), before.set_color_calls(vbo, colors_count))
            == live.difference(before.buffers()).union(after.buffers()),
{
    let calls = before.set_color_calls(vbo, colors_count);
    let left = live_after(live.insert(vbo), calls);
    let right = live.difference(before.buffers()).union(after.buffers());
    assert forall|buffer: VboId| left.contains(buffer) <==> right.contains(buffer) by {
        let gone = GlCall::DeleteBuffer { buffer };
        if before.color_vbo == Some(buffer) {
            assert(calls[0] == gone);
            assert(before.buffers().contains(buffer));
        }
        if before.vbo == Some(buffer) {
            assert(before.buffers().contains(buffer));
        }
    }
    assert(left =~= right);
}

/// [`Mesh::release`] frees every buffer of the mesh and no other.
pub proof fn lemma_release_frees_all(mesh: Mesh, live: Set<VboId>)
    ensures
        live_after(live, mesh.release_all_calls()) == live.difference(mesh.buffers()),
{
    let calls = mesh.release_all_calls();
    let left = live_after(live, calls);
    let right = live.difference(mesh.buffers());
    assert forall|buffer: VboId| left.contains(buffer) <==> right.contains(buffer) by {
        let gone = GlCall::DeleteBuffer { buffer };
        if mesh.vbo == Some(buffer) {
            assert(calls[0] == gone);
        }
        if mesh.color_vbo == Some(buffer) {
            assert(calls[calls.len() - 1] == gone);
        }
    }
    assert(left =~= right);
}

/// A whole life of a mesh leaves the context as it found it: after a mesh
/// has been given a freshly generated position buffer and a freshly
/// generated colour buffer and has then been released, exactly the buffers
/// that were alive before it are alive.
pub proof fn lemma_lifecycle_leaks_nothing(
    live: Set<VboId>,
    vbo: VboId,
    color_vbo: VboId,
    vertex_count: int,
)
    requires
        !live.contains(vbo),
        !live.contains(color_vbo),
        vbo != color_vbo,
        0 <= vertex_count <= i32::MAX,
        vertex_count % 3 == 0,
    ensures
        ({
            let fresh = Mesh { vbo: None, color_vbo: None, len: 0 };
            let filled = Mesh { vbo: Some(vbo), color_vbo: None, len: vertex_count as i32 };
            let colored = Mesh {
                vbo: Some(vbo),
                color_vbo: Some(color_vbo),
                len: vertex_count as i32,
            };
            live_after(
                live_after(
                    live_after(live.insert(vbo), fresh.init_calls(vbo, vertex_count)).insert(
                        color_vbo,
                    ),
                    filled.set_color_calls(color_vbo, vertex_count),
                ),
                colored.release_all_calls(),
            ) == live
        }),
{
    let fresh = Mesh { vbo: None, color_vbo: None, len: 0 };
    let filled = Mesh { vbo: Some(vbo), color_vbo: None, len: vertex_count as i32 };
    let colored = Mesh { vbo: Some(vbo), color_vbo: Some(color_vbo), len: vertex_count as i32 };
    assert(fresh.buffers() =~= Set::empty());
    assert(filled.buffers() =~= set![vbo]);
    assert(colored.buffers() =~= set![vbo, color_vbo]);
    lemma_init_leaks_nothing(fresh, filled, vbo, vertex_count, live);
    let live1 = live_after(live.insert(vbo), fresh.init_calls(vbo, vertex_count));
    assert(live1 =~= live.insert(vbo));
    lemma_set_color_leaks_nothing(filled, colored, color_vbo, vertex_count, live1);
    let live2 = live_after(live1.insert(color_vbo), filled.set_color_calls(color_vbo, vertex_count));
    assert(live2 =~= live.insert(vbo).insert(color_vbo));
    lemma_release_frees_all(colored, live2);
    assert(live_after(live2, colored.release_all_calls()) =~= live);
}

/// Whatever a mesh plans, it binds a buffer directly before it fills it,
/// and it releases no buffer twice.
pub proof fn lemma_mesh_calls_are_orderly(
    mesh: Mesh,
    vbo: VboId,
    count: int,
    position_attr: AttrId,
    color_attr: AttrId,
)
    requires
        mesh.wf(),
    ensures
        uploads_follow_binds(mesh.init_calls(vbo, count)),
        uploads_follow_binds(mesh.set_color_calls(vbo, count)),
        uploads_follow_binds(mesh.draw_calls(position_attr, color_attr)),
        uploads_follow_binds(mesh.release_all_calls()),
        releases_once(mesh.init_calls(vbo, count)),
        releases_once(mesh.set_color_calls(vbo, count)),
        releases_once(mesh.draw_calls(position_attr, color_attr)),
        releases_once(mesh.release_all_calls()),
{
}

} // verus!
