use vstd::prelude::*;

verus! {

/// A 3-D position. Each coordinate is the IEEE-754 bit pattern of a 32-bit
/// float; the core stores and moves coordinates but never computes with them.
#[derive(Clone, Copy, Debug, PartialEq, Eq, Structural)]
pub struct Position {
    pub x: u32,
    pub y: u32,
    pub z: u32,
}

/// A linear-space RGBA color. Each channel is the IEEE-754 bit pattern of a
/// 32-bit float, range-agnostic (no clamping anywhere in the core).
#[derive(Clone, Copy, Debug, PartialEq, Eq, Structural)]
pub struct LinearRgba {
    pub r: u32,
    pub g: u32,
    pub b: u32,
    pub a: u32,
}

/// A vertex with all the attributes the renderer needs: a 3-D position and a
/// linear-space color. Immutable once constructed; equality is structural.
#[derive(Clone, Copy, Debug, PartialEq, Eq, Structural)]
pub struct Vertex {
    pub position: Position,
    pub color: LinearRgba,
}

/// The index type: a 32-bit reference into the vertex list of the same
/// buffer pair.
pub type IndexType = u32;

/// The mathematical value of a [`VertexBuffers`]: the two lists as sequences.
#[verifier::ext_equal]
pub ghost struct BufModel {
    pub vertices: Seq<Vertex>,
    pub indices: Seq<IndexType>,
}

/// The pair of lists produced by tessellating one filled or stroked shape,
/// or by merging several such pairs. Indices are grouped in triples, each
/// naming one triangle's three vertices.
pub struct VertexBuffers {
    pub vertices: Vec<Vertex>,
    pub indices: Vec<IndexType>,
}

impl View for VertexBuffers {
    type V = BufModel;

    open spec fn view(&self) -> BufModel {
        BufModel { vertices: self.vertices@, indices: self.indices@ }
    }
}

/// The model of the empty pair.
pub open spec fn empty_model() -> BufModel {
    BufModel { vertices: Seq::empty(), indices: Seq::empty() }
}

/// The buffer-pair invariant: every index refers into the vertex list.
pub open spec fn buf_wf(b: BufModel) -> bool {
    forall|i: int| 0 <= i < b.indices.len() ==> (#[trigger] b.indices[i]) < b.vertices.len()
}

/// Every index of `indices`, re-based by `offset`.
pub open spec fn shifted(indices: Seq<IndexType>, offset: IndexType) -> Seq<IndexType> {
    indices.map_values(|i: IndexType| (i + offset) as IndexType)
}

/// The result of appending source pair `s` to destination pair `d`: the
/// vertex lists are concatenated, and every source index is re-based by the
/// destination's prior vertex count.
pub open spec fn merged_one(d: BufModel, s: BufModel) -> BufModel {
    BufModel {
        vertices: d.vertices + s.vertices,
        indices: d.indices + shifted(s.indices, d.vertices.len() as IndexType),
    }
}

/// Merging a well-formed source into a well-formed destination keeps every
/// index strictly below the merged vertex count.
pub proof fn lemma_merged_one_wf(d: BufModel, s: BufModel)
    requires
        buf_wf(d),
        buf_wf(s),
        d.vertices.len() + s.vertices.len() <= u32::MAX,
    ensures
        buf_wf(merged_one(d, s)),
{
    let m = merged_one(d, s);
    assert forall|i: int| 0 <= i < m.indices.len() implies (#[trigger] m.indices[i])
        < m.vertices.len() by {
        if i < d.indices.len() {
            assert(m.indices[i] == d.indices[i]);
        } else {
            let j = i - d.indices.len();
            assert(m.indices[i] == shifted(s.indices, d.vertices.len() as IndexType)[j]);
            assert(s.indices[j] < s.vertices.len());
        }
    }
}

/// The models of a list of buffer pairs, in the same order.
pub open spec fn models(bs: Seq<VertexBuffers>) -> Seq<BufModel> {
    bs.map_values(|b: VertexBuffers| b@)
}

/// The total vertex count of a list of buffer pairs.
pub open spec fn total_vertices(ss: Seq<BufModel>) -> nat
    decreases ss.len(),
{
    if ss.len() == 0 {
        0
    } else {
        ss[0].vertices.len() + total_vertices(ss.drop_first())
    }
}

/// The result of merging the sources `ss`, in order, into destination `d`:
/// an ordered fold of [`merged_one`], so each source is re-based by all the
/// content merged before it, earlier sources of the same call included.
pub open spec fn merged(d: BufModel, ss: Seq<BufModel>) -> BufModel
    decreases ss.len(),
{
    if ss.len() == 0 {
        d
    } else {
        merged(merged_one(d, ss[0]), ss.drop_first())
    }
}

/// Folding one more source on the right is one more [`merged_one`] step.
pub proof fn lemma_merged_push(d: BufModel, ss: Seq<BufModel>, s: BufModel)
    ensures
        merged(d, ss.push(s)) == merged_one(merged(d, ss), s),
    decreases ss.len(),
{
    let ps = ss.push(s);
    if ss.len() == 0 {
        assert(ps[0] == s);
        assert(ps.drop_first() =~= Seq::<BufModel>::empty());
        assert(merged(d, ps) == merged(merged_one(d, s), ps.drop_first()));
        assert(merged(merged_one(d, s), ps.drop_first()) == merged_one(d, s));
        assert(merged(d, ss) == d);
    } else {
        assert(ps[0] == ss[0]);
        assert(ps.drop_first() =~= ss.drop_first().push(s));
        assert(merged(d, ps) == merged(merged_one(d, ss[0]), ss.drop_first().push(s)));
        lemma_merged_push(merged_one(d, ss[0]), ss.drop_first(), s);
        assert(merged(d, ss) == merged(merged_one(d, ss[0]), ss.drop_first()));
    }
}

/// Index validity for bulk merges: merging any list of well-formed sources
/// into a well-formed destination keeps every index strictly below the
/// resulting vertex count.
pub proof fn lemma_merged_wf(d: BufModel, ss: Seq<BufModel>)
    requires
        buf_wf(d),
        forall|i: int| 0 <= i < ss.len() ==> buf_wf(#[trigger] ss[i]),
        d.vertices.len() + total_vertices(ss) <= u32::MAX,
    ensures
        buf_wf(merged(d, ss)),
    decreases ss.len(),
{
    if ss.len() > 0 {
        lemma_merged_one_wf(d, ss[0]);
        assert(forall|i: int| 0 <= i < ss.drop_first().len() ==> buf_wf(
            #[trigger] ss.drop_first()[i],
        ));
        lemma_merged_wf(merged_one(d, ss[0]), ss.drop_first());
    }
}

impl VertexBuffers {
    /// The empty pair: no vertices, no indices.
    pub fn new() -> (r: VertexBuffers)
        ensures
            r@ == empty_model(),
            buf_wf(r@),
    {
        let r = VertexBuffers { vertices: Vec::new(), indices: Vec::new() };
        proof {
            assert(r@ =~= empty_model());
        }
        r
    }

    /// Appends one source pair: the source's vertices go unchanged after the
    /// destination's, and every source index is stored re-based by the
    /// destination's prior vertex count, so it still names the same vertex.
    pub fn extend_one(&mut self, item: VertexBuffers)
        requires
            buf_wf(old(self)@),
            buf_wf(item@),
            old(self)@.vertices.len() + item@.vertices.len() <= u32::MAX,
        ensures
            final(self)@ == merged_one(old(self)@, item@),
            buf_wf(final(self)@),
    {
        let ghost dest0 = self@;
        let ghost src0 = item@;
        let offset: u32 = self.vertices.len() as u32;
        let mut item = item;
        self.vertices.append(&mut item.vertices);
        let n: usize = item.indices.len();
        let mut k: usize = 0;
        while k < n
            invariant
                k <= n,
                n == src0.indices.len(),
                item@.indices == src0.indices,
                offset == dest0.vertices.len(),
                dest0.vertices.len() + src0.vertices.len() <= u32::MAX,
                buf_wf(src0),
                self@.vertices == dest0.vertices + src0.vertices,
                self@.indices.len() == dest0.indices.len() + k,
                forall|j: int| 0 <= j < dest0.indices.len() ==> #[trigger] self@.indices[j]
                    == dest0.indices[j],
                forall|j: int| 0 <= j < k ==> #[trigger] self@.indices[dest0.indices.len() + j]
                    == (src0.indices[j] + offset) as IndexType,
            decreases n - k,
        {
            let idx = item.indices[k];
            self.indices.push(idx + offset);
            k += 1;
        }
        proof {
            let rhs = dest0.indices + shifted(src0.indices, offset);
            assert forall|i: int| 0 <= i < self@.indices.len() implies #[trigger] self@.indices[i]
                == rhs[i] by {
                if dest0.indices.len() <= i {
                    let j = i - dest0.indices.len();
                    assert(self@.indices[dest0.indices.len() + j] == (src0.indices[j]
                        + offset) as IndexType);
                }
            }
            assert(self@.indices =~= rhs);
            assert(self@ =~= merged_one(dest0, src0));
            lemma_merged_one_wf(dest0, src0);
        }
    }

    /// Appends a whole list of source pairs, in order. A running offset
    /// starts at the destination's vertex count and grows by each source's
    /// vertex count, so each source's indices are re-based past everything
    /// merged before them — earlier sources of the same call included.
    pub fn extend(&mut self, bufs: Vec<VertexBuffers>)
        requires
            buf_wf(old(self)@),
            forall|i: int| 0 <= i < bufs@.len() ==> buf_wf(#[trigger] bufs@[i]@),
            old(self)@.vertices.len() + total_vertices(models(bufs@)) <= u32::MAX,
        ensures
            final(self)@ == merged(old(self)@, models(bufs@)),
            buf_wf(final(self)@),
    {
        let ghost dest0 = self@;
        let ghost all = models(bufs@);
        let mut bufs = bufs;
        while bufs.len() > 0
            invariant
                buf_wf(self@),
                bufs@.len() <= all.len(),
                models(bufs@) =~= all.subrange(all.len() - bufs@.len(), all.len() as int),
                self@ == merged(dest0, all.take(all.len() - bufs@.len())),
                self@.vertices.len() + total_vertices(models(bufs@)) <= u32::MAX,
                forall|i: int| 0 <= i < bufs@.len() ==> buf_wf(#[trigger] bufs@[i]@),
            decreases bufs@.len(),
        {
            let ghost done: int = all.len() - bufs@.len();
            let ghost remaining = models(bufs@);
            let first = bufs.remove(0);
            proof {
                assert(first@ == remaining[0]);
                assert(remaining[0] == all[done]);
                assert(total_vertices(remaining) == remaining[0].vertices.len()
                    + total_vertices(remaining.drop_first()));
                assert(models(bufs@) =~= remaining.drop_first());
            }
            self.extend_one(first);
            proof {
                lemma_merged_push(dest0, all.take(done), all[done]);
                assert(all.take(done).push(all[done]) =~= all.take(done + 1));
                assert(models(bufs@) =~= all.subrange(all.len() - bufs@.len(), all.len() as int));
            }
        }
        proof {
            assert(all.take(all.len() as int) =~= all);
        }
    }
}

/// The fixed per-shape context of vertex construction: the color baked into
/// every vertex the shape's fill or stroke pass emits. It carries no state
/// across shapes. The shape's affine transform is applied upstream, where
/// the triangulation's floating-point work happens: this constructor
/// receives each point already transformed into its final 3-D position.
#[derive(Clone, Copy, Debug, PartialEq, Eq, Structural)]
pub struct VertexConstructor {
    pub color: LinearRgba,
}

/// The vertex a constructor produces for a given transformed position.
pub open spec fn constructed_vertex(c: VertexConstructor, position: Position) -> Vertex {
    Vertex { position, color: c.color }
}

impl VertexConstructor {
    /// Produces one fully-attributed vertex: the transformed position paired
    /// with the constructor's fixed color. Total over all inputs; used
    /// identically for fill-pass and stroke-pass points.
    pub fn new_vertex(&self, position: Position) -> (v: Vertex)
        ensures
            v == constructed_vertex(*self, position),
    {
        Vertex { position, color: self.color }
    }
}

/// Constructor determinism: two constructions from equal (position, color)
/// contexts yield the same vertex, bit for bit.
pub proof fn lemma_new_vertex_deterministic(
    c1: VertexConstructor,
    c2: VertexConstructor,
    p1: Position,
    p2: Position,
)
    requires
        c1 == c2,
        p1 == p2,
    ensures
        constructed_vertex(c1, p1) == constructed_vertex(c2, p2),
{
}

/// Content associativity of merging: bulk-merging the two sources `[a, b]`
/// into a destination yields exactly the pair that merging `a` and then `b`
/// one at a time yields — the same vertex list and the same re-based indices.
pub proof fn lemma_merge_two_matches_sequential(d: BufModel, a: BufModel, b: BufModel)
    ensures
        merged(d, seq![a, b]) == merged_one(merged_one(d, a), b),
{
    let ss = seq![a, b];
    assert(ss[0] == a);
    assert(ss.drop_first() =~= seq![b]);
    assert(merged(d, ss) == merged(merged_one(d, a), seq![b]));
    assert(seq![b][0] == b);
    assert(seq![b].drop_first() =~= Seq::<BufModel>::empty());
    assert(merged(merged_one(d, a), seq![b]) == merged(
        merged_one(merged_one(d, a), b),
        seq![b].drop_first(),
    ));
    assert(merged(merged_one(merged_one(d, a), b), seq![b].drop_first()) == merged_one(
        merged_one(d, a),
        b,
    ));
}

/// Offset correctness: appending a source whose indices read `0, 1, 2` to a
/// destination holding `n` vertices appends exactly `n, n + 1, n + 2`.
pub proof fn lemma_appended_indices_rebased(d: BufModel, s: BufModel)
    requires
        s.indices =~= seq![0 as IndexType, 1 as IndexType, 2 as IndexType],
        buf_wf(s),
        d.vertices.len() + s.vertices.len() <= u32::MAX,
    ensures
        merged_one(d, s).indices =~= d.indices + seq![
            d.vertices.len() as IndexType,
            (d.vertices.len() + 1) as IndexType,
            (d.vertices.len() + 2) as IndexType,
        ],
{
    let n = d.vertices.len() as IndexType;
    assert(shifted(s.indices, n) =~= seq![n, (n + 1) as IndexType, (n + 2) as IndexType]);
}

/// Empty-source identity: merging the empty pair into any destination
/// leaves the destination's vertex and index lists unchanged.
pub proof fn lemma_empty_source_identity(d: BufModel)
    ensures
        merged_one(d, empty_model()) == d,
{
    let e = empty_model();
    assert(shifted(e.indices, d.vertices.len() as IndexType) =~= Seq::<IndexType>::empty());
    assert(merged_one(d, e) =~= d);
}

} // verus!
