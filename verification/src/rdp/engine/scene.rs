//! The display list that drawn primitives are collected in until a sync
//! hands them to the renderer: the vertices, the indices of the quads'
//! triangles, and the entries that draw ranges of them or bind a texture
//! or a fragment state. What a vertex holds is the renderer's business.

use std::ops::Range;
use vstd::prelude::*;

verus! {

/// One entry of a display list.
#[derive(Debug, PartialEq, Eq)]
pub enum DisplayListItem {
    /// Draws the vertices in the range as triangles.
    Triangles(Range<u32>),
    /// Draws the indices in the range, two triangles to a quad.
    Quads(Range<u32>),
    /// Binds the texture with this key.
    BindTexture(usize),
    /// Binds the fragment state with this key.
    BindFragmentState(usize),
}

/// The abstract state of a scene.
pub struct SceneView<V> {
    pub display_list: Seq<DisplayListItem>,
    pub vertices: Seq<V>,
    pub indices: Seq<u32>,
    pub bound_texture: usize,
    pub bound_fragment_state: Option<usize>,
}

/// The primitives drawn since the last sync.
pub struct Scene<V> {
    display_list: Vec<DisplayListItem>,
    vertices: Vec<V>,
    indices: Vec<u32>,
    bound_texture: usize,
    bound_fragment_state: Option<usize>,
}

impl<V> View for Scene<V> {
    type V = SceneView<V>;

    closed spec fn view(&self) -> SceneView<V> {
        SceneView {
            display_list: self.display_list@,
            vertices: self.vertices@,
            indices: self.indices@,
            bound_texture: self.bound_texture,
            bound_fragment_state: self.bound_fragment_state,
        }
    }
}

/// Whether an entry draws only what the scene holds: a triangle range lies
/// within the vertices and holds whole triangles, a quad range lies
/// within the indices and holds whole quads.
pub open spec fn item_in_bounds(item: DisplayListItem, vertices: nat, indices: nat) -> bool {
    match item {
        DisplayListItem::Triangles(r) => r.start <= r.end <= vertices && (r.end - r.start) % 3 == 0,
        DisplayListItem::Quads(r) => r.start <= r.end <= indices && (r.end - r.start) % 6 == 0,
        _ => true,
    }
}

/// The display list after the triangles up to vertex `end`: a last entry
/// that draws triangles grows to `end`, else a new entry draws the last
/// three vertices.
pub open spec fn with_triangles(list: Seq<DisplayListItem>, end: u32) -> Seq<DisplayListItem> {
    if list.len() > 0 && list.last() is Triangles {
        let start = match list.last() {
            DisplayListItem::Triangles(r) => r.start,
            _ => 0,
        };
        list.update(list.len() - 1, DisplayListItem::Triangles(Range { start, end }))
    } else {
        list.push(DisplayListItem::Triangles(Range { start: (end - 3) as u32, end }))
    }
}

/// The display list after the quads up to index `end`: a last entry that
/// draws quads grows to `end`, else a new entry draws the last six indices.
pub open spec fn with_quads(list: Seq<DisplayListItem>, end: u32) -> Seq<DisplayListItem> {
    if list.len() > 0 && list.last() is Quads {
        let start = match list.last() {
            DisplayListItem::Quads(r) => r.start,
            _ => 0,
        };
        list.update(list.len() - 1, DisplayListItem::Quads(Range { start, end }))
    } else {
        list.push(DisplayListItem::Quads(Range { start: (end - 6) as u32, end }))
    }
}

/// The indices of a quad's two triangles, from its first vertex `base`.
pub open spec fn quad_indices(base: u32) -> Seq<u32> {
    seq![base, (base + 1) as u32, (base + 2) as u32, (base + 2) as u32, (base + 1) as u32, (base + 3) as u32]
}

impl<V> SceneView<V> {
    /// Whether the scene is consistent: every entry draws only what the
    /// scene holds, every index names a vertex, a last entry that draws
    /// triangles or quads ends at the last vertex or index, and the
    /// counts fit the 32-bit ranges.
    pub open spec fn wf(self) -> bool {
        &&& self.vertices.len() <= u32::MAX
        &&& self.indices.len() <= u32::MAX
        &&& forall|i: int|
            0 <= i < self.display_list.len() ==> item_in_bounds(
                #[trigger] self.display_list[i],
                self.vertices.len(),
                self.indices.len(),
            )
        &&& forall|j: int| 0 <= j < self.indices.len() ==> #[trigger] self.indices[j] < self.vertices.len()
        &&& self.display_list.len() > 0 ==> match self.display_list.last() {
            DisplayListItem::Triangles(r) => r.end == self.vertices.len(),
            DisplayListItem::Quads(r) => r.end == self.indices.len(),
            _ => true,
        }
    }
}

impl<V> SceneView<V> {
    /// The scene after a triangle of `vertices`.
    pub open spec fn with_triangle(self, vertices: Seq<V>) -> SceneView<V> {
        SceneView {
            vertices: self.vertices + vertices,
            display_list: with_triangles(self.display_list, (self.vertices.len() + 3) as u32),
            ..self
        }
    }

    /// The scene after a quad of `vertices`.
    pub open spec fn with_quad(self, vertices: Seq<V>) -> SceneView<V> {
        SceneView {
            vertices: self.vertices + vertices,
            indices: self.indices + quad_indices(self.vertices.len() as u32),
            display_list: with_quads(self.display_list, (self.indices.len() + 6) as u32),
            ..self
        }
    }

    /// The scene after binding the texture with `key`.
    pub open spec fn with_texture(self, key: usize) -> SceneView<V> {
        if key == self.bound_texture {
            self
        } else {
            SceneView {
                display_list: self.display_list.push(DisplayListItem::BindTexture(key)),
                bound_texture: key,
                ..self
            }
        }
    }

    /// The scene after binding the fragment state with `key`.
    pub open spec fn with_fragment_state(self, key: usize) -> SceneView<V> {
        if self.bound_fragment_state == Some(key) {
            self
        } else {
            SceneView {
                display_list: self.display_list.push(DisplayListItem::BindFragmentState(key)),
                bound_fragment_state: Some(key),
                ..self
            }
        }
    }
}

impl<V: Copy> Scene<V> {
    /// An empty scene with texture 0 and no fragment state bound.
    pub fn new() -> (r: Self)
        ensures
            r@.display_list.len() == 0,
            r@.vertices.len() == 0,
            r@.indices.len() == 0,
            r@.bound_texture == 0,
            r@.bound_fragment_state is None,
            r@.wf(),
    {
        Scene {
            display_list: Vec::new(),
            vertices: Vec::new(),
            indices: Vec::new(),
            bound_texture: 0,
            bound_fragment_state: None,
        }
    }

    /// Empties the scene, as after a sync.
    pub fn clear(&mut self)
        ensures
            final(self)@.display_list.len() == 0,
            final(self)@.vertices.len() == 0,
            final(self)@.indices.len() == 0,
            final(self)@.bound_texture == 0,
            final(self)@.bound_fragment_state is None,
            final(self)@.wf(),
    {
        self.display_list = Vec::new();
        self.vertices = Vec::new();
        self.indices = Vec::new();
        self.bound_texture = 0;
        self.bound_fragment_state = None;
    }
    /// The entries of the display list.
    pub fn display_list(&self) -> (r: &[DisplayListItem])
        ensures
            r@ == self@.display_list,
    {
        self.display_list.as_slice()
    }

    /// The vertices drawn so far.
    pub fn vertices(&self) -> (r: &[V])
        ensures
            r@ == self@.vertices,
    {
        self.vertices.as_slice()
    }

    /// The indices of the quads' triangles.
    pub fn indices(&self) -> (r: &[u32])
        ensures
            r@ == self@.indices,
    {
        self.indices.as_slice()
    }

    /// Adds a triangle: its vertices go after the others and are drawn by
    /// the last entry when that draws triangles, else by a new one.
    pub fn push_triangle(&mut self, vertices: &[V; 3])
        requires
            old(self)@.wf(),
            old(self)@.vertices.len() + 3 <= u32::MAX,
        ensures
            final(self)@ == old(self)@.with_triangle(vertices@),
            final(self)@.wf(),
    {
        let ghost before = self@;
        self.vertices.push(vertices[0]);
        self.vertices.push(vertices[1]);
        self.vertices.push(vertices[2]);
        assert(self.vertices@ =~= before.vertices + vertices@);
        let end = self.vertices.len() as u32;
        let n = self.display_list.len();
        let mut merged = false;
        if n > 0 {
            if let DisplayListItem::Triangles(r) = &self.display_list[n - 1] {
                let start = r.start;
                self.display_list.set(n - 1, DisplayListItem::Triangles(Range { start, end }));
                merged = true;
            }
        }
        if !merged {
            self.display_list.push(DisplayListItem::Triangles(Range { start: end - 3, end }));
        }
        proof {
            let v = self@;
            assert(v.display_list == with_triangles(before.display_list, end));
            assert forall|i: int| 0 <= i < v.display_list.len() implies item_in_bounds(
                #[trigger] v.display_list[i],
                v.vertices.len(),
                v.indices.len(),
            ) by {
                if i < before.display_list.len() && !(merged && i == n - 1) {
                    assert(item_in_bounds(before.display_list[i], before.vertices.len(), before.indices.len()));
                }
            }
        }
    }

    /// Adds a quad: its vertices go after the others, the indices of its
    /// two triangles after the other indices, and those are drawn by the
    /// last entry when that draws quads, else by a new one.
    pub fn push_quad(&mut self, vertices: &[V; 4])
        requires
            old(self)@.wf(),
            old(self)@.vertices.len() + 4 <= u32::MAX,
            old(self)@.indices.len() + 6 <= u32::MAX,
        ensures
            final(self)@ == old(self)@.with_quad(vertices@),
            final(self)@.wf(),
    {
        let ghost before = self@;
        let base_vertex = self.vertices.len() as u32;
        self.vertices.push(vertices[0]);
        self.vertices.push(vertices[1]);
        self.vertices.push(vertices[2]);
        self.vertices.push(vertices[3]);
        assert(self.vertices@ =~= before.vertices + vertices@);
        self.indices.push(base_vertex);
        self.indices.push(base_vertex + 1);
        self.indices.push(base_vertex + 2);
        self.indices.push(base_vertex + 2);
        self.indices.push(base_vertex + 1);
        self.indices.push(base_vertex + 3);
        assert(self.indices@ =~= before.indices + quad_indices(base_vertex));
        let end = self.indices.len() as u32;
        let n = self.display_list.len();
        let mut merged = false;
        if n > 0 {
            if let DisplayListItem::Quads(r) = &self.display_list[n - 1] {
                let start = r.start;
                self.display_list.set(n - 1, DisplayListItem::Quads(Range { start, end }));
                merged = true;
            }
        }
        if !merged {
            self.display_list.push(DisplayListItem::Quads(Range { start: end - 6, end }));
        }
        proof {
            let v = self@;
            assert(v.display_list == with_quads(before.display_list, end));
            assert forall|i: int| 0 <= i < v.display_list.len() implies item_in_bounds(
                #[trigger] v.display_list[i],
                v.vertices.len(),
                v.indices.len(),
            ) by {
                if i < before.display_list.len() && !(merged && i == n - 1) {
                    assert(item_in_bounds(before.display_list[i], before.vertices.len(), before.indices.len()));
                }
            }
            assert forall|j: int| 0 <= j < v.indices.len() implies #[trigger] v.indices[j]
                < v.vertices.len() by {
                if j < before.indices.len() {
                    assert(before.indices[j] < before.vertices.len());
                }
            }
        }
    }

    /// Binds the texture with `key` for what is drawn next; an entry is
    /// added only when that texture is not bound already.
    pub fn bind_texture(&mut self, key: usize)
        requires
            old(self)@.wf(),
        ensures
            final(self)@ == old(self)@.with_texture(key),
            final(self)@.wf(),
    {
        if key == self.bound_texture {
            return;
        }
        let ghost before = self@;
        self.display_list.push(DisplayListItem::BindTexture(key));
        self.bound_texture = key;
        proof {
            let v = self@;
            assert forall|i: int| 0 <= i < v.display_list.len() implies item_in_bounds(
                #[trigger] v.display_list[i],
                v.vertices.len(),
                v.indices.len(),
            ) by {
                if i < before.display_list.len() {
                    assert(item_in_bounds(before.display_list[i], before.vertices.len(), before.indices.len()));
                }
            }
        }
    }

    /// Binds the fragment state with `key` for what is drawn next; an
    /// entry is added only when that state is not bound already.
    pub fn bind_fragment_state(&mut self, key: usize)
        requires
            old(self)@.wf(),
        ensures
            final(self)@ == old(self)@.with_fragment_state(key),
            final(self)@.wf(),
    {
        if let Some(bound) = self.bound_fragment_state {
            if bound == key {
                return;
            }
        }
        let ghost before = self@;
        self.display_list.push(DisplayListItem::BindFragmentState(key));
        self.bound_fragment_state = Some(key);
        proof {
            let v = self@;
            assert forall|i: int| 0 <= i < v.display_list.len() implies item_in_bounds(
                #[trigger] v.display_list[i],
                v.vertices.len(),
                v.indices.len(),
            ) by {
                if i < before.display_list.len() {
                    assert(item_in_bounds(before.display_list[i], before.vertices.len(), before.indices.len()));
                }
            }
        }
    }
}

} // verus!
