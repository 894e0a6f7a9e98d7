use vstd::prelude::*;

verus! {

/// Capacity, in items, that vertex and index buffers are first made with.
pub const DEFAULT_CAPACITY: usize = 16384;

/// A texture reference: owned by the texture cache, or resolved by the host.
#[derive(Clone, Copy, PartialEq, Eq, Structural, Debug)]
pub enum TextureId {
    Managed(u64),
    User(u64),
}

/// A scissor rectangle in pixels.
#[derive(Clone, Copy, PartialEq, Eq, Structural, Debug)]
pub struct ClipRect {
    pub left: i32,
    pub top: i32,
    pub right: i32,
    pub bottom: i32,
}

/// One mesh of a frame: its clip rectangle, how many vertices and indices it
/// takes from the frame's flat arrays, and its texture.
#[derive(Clone, Copy, PartialEq, Eq, Structural, Debug)]
pub struct MeshDescriptor {
    pub clip: ClipRect,
    pub vertices: usize,
    pub indices: usize,
    pub texture_id: TextureId,
}

/// One indexed triangle-list draw.
#[derive(Clone, Copy, PartialEq, Eq, Structural, Debug)]
pub struct DrawCall {
    pub clip: ClipRect,
    pub texture_id: TextureId,
    pub base_vertex: usize,
    pub num_vertices: usize,
    pub start_index: usize,
    pub primitive_count: usize,
}

pub open spec fn sum_vertices(s: Seq<MeshDescriptor>) -> nat
    decreases s.len(),
{
    if s.len() == 0 {
        0
    } else {
        sum_vertices(s.drop_last()) + s.last().vertices as nat
    }
}

pub open spec fn sum_indices(s: Seq<MeshDescriptor>) -> nat
    decreases s.len(),
{
    if s.len() == 0 {
        0
    } else {
        sum_indices(s.drop_last()) + s.last().indices as nat
    }
}

impl MeshDescriptor {
    /// Turns one converted mesh into a descriptor and its vertex and index slices.
    /// A mesh without vertices or without indices draws nothing and gives `None`.
    pub fn from_mesh<V>(vertices: Vec<V>, indices: Vec<u32>, clip: ClipRect, texture_id: TextureId) -> (r:
        Option<(MeshDescriptor, Vec<V>, Vec<u32>)>)
        ensures
            r.is_none() <==> vertices@.len() == 0 || indices@.len() == 0,
            r matches Some((d, vs, is)) ==> {
                &&& d == MeshDescriptor {
                    clip,
                    vertices: vertices@.len() as usize,
                    indices: indices@.len() as usize,
                    texture_id,
                }
                &&& vs@ == vertices@
                &&& is@ == indices@
                &&& d.vertices > 0 && d.indices > 0
            },
    {
        if vertices.len() == 0 || indices.len() == 0 {
            return None;
        }
        let d = MeshDescriptor { clip, vertices: vertices.len(), indices: indices.len(), texture_id };
        Some((d, vertices, indices))
    }
}

/// A frame's meshes, in draw order, over flat vertex and index arrays that they
/// partition.
pub struct FrameGeometry<V> {
    meshes: Vec<MeshDescriptor>,
    vertices: Vec<V>,
    indices: Vec<u32>,
}

/// The draw calls for `meshes`: call `i` covers the vertices and indices that come
/// after those of the meshes before it.
pub open spec fn draw_calls_of(meshes: Seq<MeshDescriptor>) -> Seq<DrawCall> {
    Seq::new(
        meshes.len(),
        |i: int|
            DrawCall {
                clip: meshes[i].clip,
                texture_id: meshes[i].texture_id,
                base_vertex: sum_vertices(meshes.subrange(0, i)) as usize,
                num_vertices: meshes[i].vertices,
                start_index: sum_indices(meshes.subrange(0, i)) as usize,
                primitive_count: meshes[i].indices / 3,
            },
    )
}

pub proof fn lemma_prefix_sums_grow(s: Seq<MeshDescriptor>, i: int, j: int)
    requires
        0 <= i <= j <= s.len(),
    ensures
        sum_vertices(s.subrange(0, i)) <= sum_vertices(s.subrange(0, j)),
        sum_indices(s.subrange(0, i)) <= sum_indices(s.subrange(0, j)),
    decreases j - i,
{
    if i < j {
        lemma_prefix_sums_grow(s, i, j - 1);
        assert(s.subrange(0, j).drop_last() =~= s.subrange(0, j - 1));
    }
}

impl<V> FrameGeometry<V> {
    pub closed spec fn mesh_seq(&self) -> Seq<MeshDescriptor> {
        self.meshes@
    }

    pub closed spec fn vertex_seq(&self) -> Seq<V> {
        self.vertices@
    }

    pub closed spec fn index_seq(&self) -> Seq<u32> {
        self.indices@
    }

    /// The meshes, in draw order.
    pub fn meshes(&self) -> (r: &Vec<MeshDescriptor>)
        ensures
            r@ == self.mesh_seq(),
    {
        &self.meshes
    }

    /// The frame's flat vertex array.
    pub fn vertices(&self) -> (r: &Vec<V>)
        ensures
            r@ == self.vertex_seq(),
    {
        &self.vertices
    }

    /// The frame's flat index array.
    pub fn indices(&self) -> (r: &Vec<u32>)
        ensures
            r@ == self.index_seq(),
    {
        &self.indices
    }

    /// The counts of the meshes add up to the lengths of the flat arrays.
    pub open spec fn wf(&self) -> bool {
        &&& sum_vertices(self.mesh_seq()) == self.vertex_seq().len()
        &&& sum_indices(self.mesh_seq()) == self.index_seq().len()
    }

    pub fn new() -> (r: Self)
        ensures
            r.wf(),
            r.mesh_seq().len() == 0,
            r.vertex_seq().len() == 0,
            r.index_seq().len() == 0,
    {
        FrameGeometry { meshes: Vec::new(), vertices: Vec::new(), indices: Vec::new() }
    }

    /// Drops the previous frame's geometry.
    pub fn clear(&mut self)
        ensures
            final(self).wf(),
            final(self).mesh_seq().len() == 0,
            final(self).vertex_seq().len() == 0,
            final(self).index_seq().len() == 0,
    {
        self.meshes.clear();
        self.vertices.clear();
        self.indices.clear();
    }

    /// Appends one mesh with its vertices and indices.
    pub fn push_mesh(&mut self, desc: MeshDescriptor, vertices: Vec<V>, indices: Vec<u32>)
        requires
            old(self).wf(),
            desc.vertices == vertices@.len(),
            desc.indices == indices@.len(),
            old(self).vertex_seq().len() + vertices@.len() <= usize::MAX,
            old(self).index_seq().len() + indices@.len() <= usize::MAX,
        ensures
            final(self).wf(),
            final(self).mesh_seq() == old(self).mesh_seq().push(desc),
            final(self).vertex_seq() == old(self).vertex_seq() + vertices@,
            final(self).index_seq() == old(self).index_seq() + indices@,
    {
        let mut vertices = vertices;
        let mut indices = indices;
        self.meshes.push(desc);
        self.vertices.append(&mut vertices);
        self.indices.append(&mut indices);
        assert(self.mesh_seq().drop_last() =~= old(self).mesh_seq());
    }

    /// Adds a converted mesh unless it is empty; returns whether it was added.
    /// Returns false, with nothing added, when the flat arrays would outgrow `usize`.
    pub fn add_mesh(&mut self, vertices: Vec<V>, indices: Vec<u32>, clip: ClipRect, texture_id: TextureId) -> (r: bool)
        requires
            old(self).wf(),
        ensures
            final(self).wf(),
            r == (vertices@.len() > 0 && indices@.len() > 0
                && old(self).vertex_seq().len() + vertices@.len() <= usize::MAX
                && old(self).index_seq().len() + indices@.len() <= usize::MAX),
            r ==> final(self).mesh_seq() == old(self).mesh_seq().push(
                MeshDescriptor {
                    clip,
                    vertices: vertices@.len() as usize,
                    indices: indices@.len() as usize,
                    texture_id,
                },
            ) && final(self).vertex_seq() == old(self).vertex_seq() + vertices@
                && final(self).index_seq() == old(self).index_seq() + indices@,
            !r ==> final(self).mesh_seq() == old(self).mesh_seq() && final(self).vertex_seq()
                == old(self).vertex_seq() && final(self).index_seq() == old(self).index_seq(),
    {
        if vertices.len() > usize::MAX - self.vertices.len() || indices.len() > usize::MAX
            - self.indices.len() {
            return false;
        }
        match MeshDescriptor::from_mesh(vertices, indices, clip, texture_id) {
            Some((d, vs, is)) => {
                self.push_mesh(d, vs, is);
                true
            },
            None => false,
        }
    }

    /// One draw call per mesh, in order, each over that mesh's range of the flat
    /// arrays, drawing `indices / 3` triangles.
    pub fn draw_calls(&self) -> (r: Vec<DrawCall>)
        requires
            self.wf(),
        ensures
            r@ == draw_calls_of(self.mesh_seq()),
    {
        let ghost m = self.mesh_seq();
        let mut out: Vec<DrawCall> = Vec::new();
        let mut vtx: usize = 0;
        let mut idx: usize = 0;
        let nv = self.vertices.len();
        let ni = self.indices.len();
        let mut i: usize = 0;
        while i < self.meshes.len()
            invariant
                self.wf(),
                nv == self.vertex_seq().len(),
                ni == self.index_seq().len(),
                m == self.mesh_seq(),
                i <= m.len(),
                out@.len() == i,
                vtx == sum_vertices(m.subrange(0, i as int)),
                idx == sum_indices(m.subrange(0, i as int)),
                forall|k: int| 0 <= k < i ==> out@[k] == draw_calls_of(m)[k],
            decreases m.len() - i,
        {
            let d = self.meshes[i];
            out.push(
                DrawCall {
                    clip: d.clip,
                    texture_id: d.texture_id,
                    base_vertex: vtx,
                    num_vertices: d.vertices,
                    start_index: idx,
                    primitive_count: d.indices / 3,
                },
            );
            proof {
                assert(m.subrange(0, i as int + 1).drop_last() =~= m.subrange(0, i as int));
                lemma_prefix_sums_grow(m, i as int + 1, m.len() as int);
                assert(m.subrange(0, m.len() as int) =~= m);
                assert(vtx + d.vertices <= nv);
                assert(idx + d.indices <= ni);
            }
            vtx = vtx + d.vertices;
            idx = idx + d.indices;
            i = i + 1;
        }
        assert(out@ =~= draw_calls_of(m));
        out
    }
}

/// The counts of the meshes add up to the lengths of the flat arrays, and each draw
/// call's range lies inside them, ending where the next one starts; the last one
/// ends at the end of the arrays.
pub proof fn lemma_draw_ranges_partition<V>(g: FrameGeometry<V>)
    requires
        g.wf(),
    ensures
        sum_vertices(g.mesh_seq()) == g.vertex_seq().len(),
        sum_indices(g.mesh_seq()) == g.index_seq().len(),
        forall|i: int|
            0 <= i < g.mesh_seq().len() ==> {
                &&& sum_vertices(g.mesh_seq().subrange(0, i)) + g.mesh_seq()[i].vertices
                    == sum_vertices(g.mesh_seq().subrange(0, i + 1))
                &&& sum_indices(g.mesh_seq().subrange(0, i)) + g.mesh_seq()[i].indices == sum_indices(
                    g.mesh_seq().subrange(0, i + 1),
                )
                &&& sum_vertices(g.mesh_seq().subrange(0, i + 1)) <= g.vertex_seq().len()
                &&& sum_indices(g.mesh_seq().subrange(0, i + 1)) <= g.index_seq().len()
            },
{
    let m = g.mesh_seq();
    assert(m.subrange(0, m.len() as int) =~= m);
    assert forall|i: int| 0 <= i < m.len() implies {
        &&& sum_vertices(m.subrange(0, i)) + m[i].vertices == sum_vertices(m.subrange(0, i + 1))
        &&& sum_indices(m.subrange(0, i)) + m[i].indices == sum_indices(m.subrange(0, i + 1))
        &&& sum_vertices(m.subrange(0, i + 1)) <= g.vertex_seq().len()
        &&& sum_indices(m.subrange(0, i + 1)) <= g.index_seq().len()
    } by {
        assert(m.subrange(0, i + 1).drop_last() =~= m.subrange(0, i));
        lemma_prefix_sums_grow(m, i + 1, m.len() as int);
    }
}

/// A vertex and index buffer pair with the capacities, in items, they were made
/// with; a released side has no handle and no capacity.
pub struct Buffers<VB, IB> {
    pub vtx: Option<VB>,
    pub idx: Option<IB>,
    pub vtx_capacity: usize,
    pub idx_capacity: usize,
}

/// The capacity a buffer must be recreated with to hold `needed` items, or `None`
/// when the live buffer already holds them. Buffers never shrink.
pub open spec fn grow_to(live: bool, capacity: usize, needed: usize) -> Option<usize> {
    if !live {
        Some(if needed > DEFAULT_CAPACITY { needed } else { DEFAULT_CAPACITY })
    } else if needed > capacity {
        Some(needed)
    } else {
        None
    }
}

/// A released pair: no handle and no capacity on either side.
pub open spec fn is_released<VB, IB>(b: Buffers<VB, IB>) -> bool {
    &&& b.vtx.is_none()
    &&& b.idx.is_none()
    &&& b.vtx_capacity == 0
    &&& b.idx_capacity == 0
}

impl<VB, IB> Buffers<VB, IB> {
    pub fn create_buffers(vtx: VB, idx: IB, vtx_capacity: usize, idx_capacity: usize) -> (r: Self)
        ensures
            r.vtx == Some(vtx),
            r.idx == Some(idx),
            r.vtx_capacity == vtx_capacity,
            r.idx_capacity == idx_capacity,
    {
        Buffers { vtx: Some(vtx), idx: Some(idx), vtx_capacity, idx_capacity }
    }

    /// No buffers; what a pair is before creation and after release.
    pub fn empty() -> (r: Self)
        ensures
            is_released(r),
    {
        Buffers { vtx: None, idx: None, vtx_capacity: 0, idx_capacity: 0 }
    }

    /// The capacity the vertex buffer must be recreated with before `count` vertices
    /// are uploaded, or `None` when it holds them already.
    pub fn vertex_growth(&self, count: usize) -> (r: Option<usize>)
        ensures
            r == grow_to(self.vtx.is_some(), self.vtx_capacity, count),
    {
        grow(self.vtx.is_some(), self.vtx_capacity, count)
    }

    /// The capacity the index buffer must be recreated with before `count` indices
    /// are uploaded, or `None` when it holds them already.
    pub fn index_growth(&self, count: usize) -> (r: Option<usize>)
        ensures
            r == grow_to(self.idx.is_some(), self.idx_capacity, count),
    {
        grow(self.idx.is_some(), self.idx_capacity, count)
    }

    /// Puts a recreated vertex buffer in place; the old one is handed back to be released.
    pub fn replace_vertex_buffer(&mut self, vtx: VB, capacity: usize) -> (r: Option<VB>)
        requires
            old(self).vtx.is_none() || capacity >= old(self).vtx_capacity,
        ensures
            r == old(self).vtx,
            *final(self) == (Buffers { vtx: Some(vtx), vtx_capacity: capacity, ..*old(self) }),
    {
        self.vtx_capacity = capacity;
        let prev = self.vtx.take();
        self.vtx = Some(vtx);
        prev
    }

    /// Puts a recreated index buffer in place; the old one is handed back to be released.
    pub fn replace_index_buffer(&mut self, idx: IB, capacity: usize) -> (r: Option<IB>)
        requires
            old(self).idx.is_none() || capacity >= old(self).idx_capacity,
        ensures
            r == old(self).idx,
            *final(self) == (Buffers { idx: Some(idx), idx_capacity: capacity, ..*old(self) }),
    {
        self.idx_capacity = capacity;
        let prev = self.idx.take();
        self.idx = Some(idx);
        prev
    }

    /// Releases both buffers; releasing again does nothing more.
    pub fn delete_buffers(&mut self)
        ensures
            is_released(*final(self)),
            is_released(*old(self)) ==> *final(self) == *old(self),
    {
        self.vtx = None;
        self.idx = None;
        self.vtx_capacity = 0;
        self.idx_capacity = 0;
    }
}

fn grow(live: bool, capacity: usize, needed: usize) -> (r: Option<usize>)
    ensures
        r == grow_to(live, capacity, needed),
{
    if !live {
        Some(if needed > DEFAULT_CAPACITY { needed } else { DEFAULT_CAPACITY })
    } else if needed > capacity {
        Some(needed)
    } else {
        None
    }
}

/// Releasing a buffer pair twice is the same as releasing it once: every released
/// pair is the same value, with no handle and both capacities at zero.
pub proof fn lemma_release_idempotent<VB, IB>(a: Buffers<VB, IB>, b: Buffers<VB, IB>)
    requires
        is_released(a),
        is_released(b),
    ensures
        a == b,
        a.vtx_capacity == 0 && a.idx_capacity == 0,
{
}

/// A capacity that `grow_to` hands out holds what was asked for and is no smaller
/// than that of the live buffer it replaces.
pub proof fn lemma_growth_never_shrinks(live: bool, capacity: usize, needed: usize)
    ensures
        grow_to(live, capacity, needed) matches Some(c) ==> c >= needed && (live ==> c
            >= capacity),
        grow_to(live, capacity, needed).is_none() ==> live && needed <= capacity,
{
}

} // verus!
