use vstd::prelude::*;

verus! {

/// Sizes of one mesh that is drawn this frame.
#[derive(Clone, Copy, Debug, PartialEq, Eq, Structural)]
pub struct MeshSize {
    pub vertex_count: usize,
    pub index_count: usize,
}

/// Where a mesh lies in the frame's shared vertex and index buffers, as the
/// indexed draw call reads it.
#[derive(Clone, Copy, Debug, PartialEq, Eq, Structural)]
pub struct DrawRange {
    pub index_start: u32,
    pub index_count: u32,
    pub vertex_offset: i32,
}

/// Vertices of the meshes before mesh `k`.
pub open spec fn vertex_prefix(s: Seq<MeshSize>, k: nat) -> nat
    decreases k,
{
    if k == 0 || k > s.len() {
        0
    } else {
        vertex_prefix(s, (k - 1) as nat) + s[k - 1].vertex_count as nat
    }
}

/// Indices of the meshes before mesh `k`.
pub open spec fn index_prefix(s: Seq<MeshSize>, k: nat) -> nat
    decreases k,
{
    if k == 0 || k > s.len() {
        0
    } else {
        index_prefix(s, (k - 1) as nat) + s[k - 1].index_count as nat
    }
}

/// The draw range of mesh `k` when all meshes are appended, in order, to one
/// vertex list and one index list (the buffer offsets are cast as the draw
/// call's integer types).
pub open spec fn draw_range_spec(s: Seq<MeshSize>, k: nat) -> DrawRange {
    DrawRange {
        index_start: index_prefix(s, k) as u32,
        index_count: s[k as int].index_count as u32,
        vertex_offset: vertex_prefix(s, k) as i32,
    }
}

proof fn lemma_prefix_monotone(s: Seq<MeshSize>, a: nat, b: nat)
    requires
        a <= b <= s.len(),
    ensures
        vertex_prefix(s, a) <= vertex_prefix(s, b),
        index_prefix(s, a) <= index_prefix(s, b),
    decreases b,
{
    if a < b {
        lemma_prefix_monotone(s, a, (b - 1) as nat);
    }
}

/// The draw calls of a frame: each mesh draws its own indices, starting where
/// the indices of the meshes before it end, with its vertices offset by the
/// number of vertices before it.
pub fn plan_draw_calls(meshes: &Vec<MeshSize>) -> (r: Vec<DrawRange>)
    requires
        vertex_prefix(meshes@, meshes.len() as nat) <= usize::MAX,
        index_prefix(meshes@, meshes.len() as nat) <= usize::MAX,
    ensures
        r.len() == meshes.len(),
        forall|k: int| 0 <= k < meshes.len() ==> #[trigger] r@[k] == draw_range_spec(meshes@, k as nat),
{
    let mut calls: Vec<DrawRange> = Vec::new();
    let mut vertices: usize = 0;
    let mut indices: usize = 0;
    let mut k: usize = 0;
    while k < meshes.len()
        invariant
            k <= meshes.len(),
            vertex_prefix(meshes@, meshes.len() as nat) <= usize::MAX,
            index_prefix(meshes@, meshes.len() as nat) <= usize::MAX,
            vertices == vertex_prefix(meshes@, k as nat),
            indices == index_prefix(meshes@, k as nat),
            calls.len() == k,
            forall|j: int| 0 <= j < k ==> #[trigger] calls@[j] == draw_range_spec(meshes@, j as nat),
        decreases meshes.len() - k,
    {
        let mesh = meshes[k];
        calls.push(DrawRange {
            index_start: indices as u32,
            index_count: mesh.index_count as u32,
            vertex_offset: vertices as i32,
        });
        proof {
            lemma_prefix_monotone(meshes@, (k + 1) as nat, meshes.len() as nat);
        }
        vertices = vertices + mesh.vertex_count;
        indices = indices + mesh.index_count;
        k = k + 1;
    }
    calls
}

/// When the frame's indices fit the draw call's `u32` (and its vertices its
/// `i32`), the draw ranges tile the index buffer: each starts where the one
/// before it ends, the first at 0, and each vertex offset is the number of
/// vertices before it.
pub proof fn lemma_draw_ranges_tile(s: Seq<MeshSize>, k: nat)
    requires
        k + 1 < s.len(),
        index_prefix(s, s.len()) <= u32::MAX,
        vertex_prefix(s, s.len()) <= i32::MAX,
    ensures
        draw_range_spec(s, 0).index_start == 0,
        draw_range_spec(s, 0).vertex_offset == 0,
        draw_range_spec(s, k + 1).index_start
            == draw_range_spec(s, k).index_start + draw_range_spec(s, k).index_count,
        draw_range_spec(s, k).vertex_offset == vertex_prefix(s, k),
        draw_range_spec(s, k).index_start + draw_range_spec(s, k).index_count <= index_prefix(s, s.len()),
{
    lemma_prefix_monotone(s, k + 1, s.len());
    lemma_prefix_monotone(s, k, s.len());
}

/// The first of the admitted lights (the first `max_lights`) that casts
/// shadows, if any: the light whose direction drives the shadow map.
pub open spec fn is_first_caster(casts: Seq<bool>, max_lights: nat, i: nat) -> bool {
    &&& i < max_lights
    &&& i < casts.len()
    &&& casts[i as int]
    &&& forall|j: int| 0 <= j < i ==> !casts[j]
}

/// Picks the shadow-casting light among the lights in order: the first one
/// that casts shadows among the first `max_lights`; later lights are not packed
/// and cannot cast.
pub fn first_shadow_caster(casts: &Vec<bool>, max_lights: usize) -> (r: Option<usize>)
    ensures
        r matches Some(i) ==> is_first_caster(casts@, max_lights as nat, i as nat),
        r is None ==> forall|j: int| 0 <= j < casts.len() && j < max_lights ==> !casts@[j],
{
    let mut i: usize = 0;
    while i < casts.len() && i < max_lights
        invariant
            i <= casts.len(),
            i <= max_lights,
            forall|j: int| 0 <= j < i ==> !casts@[j],
        decreases casts.len() - i,
    {
        if casts[i] {
            return Some(i);
        }
        i = i + 1;
    }
    None
}

/// Copies at most `cap` items, in order: the prefix that fits into a
/// fixed-size GPU array (extra items are dropped).
pub fn take_capped<T: Copy>(items: &Vec<T>, cap: usize) -> (r: Vec<T>)
    ensures
        r@ == items@.take(if items.len() < cap { items.len() as int } else { cap as int }),
{
    let n = if items.len() < cap { items.len() } else { cap };
    let mut out: Vec<T> = Vec::new();
    let mut i: usize = 0;
    while i < n
        invariant
            n <= items.len(),
            i <= n,
            out@ == items@.take(i as int),
        decreases n - i,
    {
        out.push(items[i]);
        assert(items@.take(i as int).push(items@[i as int]) =~= items@.take(i + 1));
        i = i + 1;
    }
    out
}


/// The running totals, stated on the meshes: nothing comes before the first
/// mesh, and each mesh adds its own counts.
pub proof fn lemma_prefix_steps(s: Seq<MeshSize>, k: nat)
    requires
        k < s.len(),
    ensures
        vertex_prefix(s, 0) == 0,
        index_prefix(s, 0) == 0,
        vertex_prefix(s, k + 1) == vertex_prefix(s, k) + s[k as int].vertex_count,
        index_prefix(s, k + 1) == index_prefix(s, k) + s[k as int].index_count,
{
}

/// Every mesh's draw range, the last one and a lone one included: it draws
/// exactly that mesh's indices, starting after the indices of the meshes
/// before it, with its vertices offset by the vertices before it (cast to the
/// draw call's integer types). The first range starts at 0 with no offset.
pub proof fn lemma_draw_range_each(s: Seq<MeshSize>, k: nat)
    requires
        k < s.len(),
    ensures
        draw_range_spec(s, k).index_count == s[k as int].index_count as u32,
        draw_range_spec(s, k).index_start == index_prefix(s, k) as u32,
        draw_range_spec(s, k).vertex_offset == vertex_prefix(s, k) as i32,
        draw_range_spec(s, 0).index_start == 0,
        draw_range_spec(s, 0).vertex_offset == 0,
        draw_range_spec(s, 0).index_count == s[0].index_count as u32,
{
}

} // verus!
