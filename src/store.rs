use vstd::prelude::*;

use crate::error::PipelineError;

verus! {

/// The largest vector dimension a collection can be configured with; it keeps every exact
/// similarity comparison within 128-bit arithmetic.
pub const MAX_DIMENSION: usize = 4096;

/// How similarity between a stored vector and a query is measured.
#[derive(Debug, Clone, Copy, PartialEq, Eq, Structural)]
pub enum Distance {
    /// The cosine of the angle between the two vectors; a zero vector has cosine 0.
    Cosine,
    /// The dot product of the two vectors.
    Dot,
}

/// A record of a collection: an identifier, a vector and the payload stored beside it.
pub struct IndexedPoint {
    pub id: u64,
    pub vector: Vec<i16>,
    pub payload: String,
}

/// A similarity score held exactly as the fraction `num / den`, with `den > 0`.
///
/// Under `Dot` it is the dot product over 1. Under `Cosine` it is
/// `sign(v.q) * (v.q)^2 / |v|^2`, which equals `sign(cos) * cos^2 * |q|^2`: for a fixed query
/// it orders stored vectors exactly as their cosine does.
#[derive(Debug, Clone, Copy, PartialEq, Eq, Structural)]
pub struct Similarity {
    pub num: i128,
    pub den: i128,
}

impl Similarity {
    pub open spec fn pair(&self) -> (int, int) {
        (self.num as int, self.den as int)
    }
}

/// A search hit: the identifier of a stored point, its similarity to the query, and its
/// payload (empty when the search did not ask for payloads).
pub struct ScoredPoint {
    pub id: u64,
    pub score: Similarity,
    pub payload: String,
}

/// What a stored point is, as plain values.
pub ghost struct PointView {
    pub id: u64,
    pub vector: Seq<i16>,
    pub payload: Seq<char>,
}

impl IndexedPoint {
    pub open spec fn view(&self) -> PointView {
        PointView { id: self.id, vector: self.vector@, payload: self.payload@ }
    }
}

/// The sum of the products of the first `n` components of two vectors.
pub open spec fn dot_upto(a: Seq<i16>, b: Seq<i16>, n: int) -> int
    decreases n,
{
    if n <= 0 {
        0
    } else {
        dot_upto(a, b, n - 1) + a[n - 1] * b[n - 1]
    }
}

/// The dot product of two vectors.
pub open spec fn dot(a: Seq<i16>, b: Seq<i16>) -> int {
    dot_upto(a, b, a.len() as int)
}

/// The similarity of stored vector `v` to query `q` under `metric`, as a fraction
/// `(numerator, denominator)`.
pub open spec fn similarity(metric: Distance, v: Seq<i16>, q: Seq<i16>) -> (int, int) {
    match metric {
        Distance::Dot => (dot(v, q), 1),
        Distance::Cosine => {
            let d = dot(v, q);
            let n = dot(v, v);
            if n == 0 {
                (0, 1)
            } else if d >= 0 {
                (d * d, n)
            } else {
                (-(d * d), n)
            }
        },
    }
}

/// The fraction `s1` is larger than `s2`, or equal to it with `id1` the smaller identifier:
/// hit `(s1, id1)` comes before hit `(s2, id2)`.
pub open spec fn ranks_before(s1: (int, int), id1: u64, s2: (int, int), id2: u64) -> bool {
    s1.0 * s2.1 > s2.0 * s1.1 || (s1.0 * s2.1 == s2.0 * s1.1 && id1 < id2)
}

/// Numerator and denominator within the bounds that every similarity of a collection meets.
pub open spec fn bounded(s: (int, int)) -> bool {
    -0x1000000000000000000000 <= s.0 <= 0x1000000000000000000000 && 1 <= s.1 <= 0x40000000000
}

/// A hit `(s, id)` comes after `prev` in ranking order (every hit comes after `None`).
pub open spec fn after(prev: Option<((int, int), u64)>, s: (int, int), id: u64) -> bool {
    match prev {
        None => true,
        Some(p) => ranks_before(p.0, p.1, s, id),
    }
}

/// The hit that precedes position `j` of a result list, if any.
pub open spec fn prev_of(r: Seq<ScoredPoint>, j: int) -> Option<((int, int), u64)> {
    if j <= 0 {
        None
    } else {
        Some((r[j - 1].score.pair(), r[j - 1].id))
    }
}

/// `h` reports stored point `p`: its identifier, its similarity to `q`, and its payload when
/// payloads were asked for (else the empty text).
pub open spec fn reports(h: ScoredPoint, p: PointView, metric: Distance, q: Seq<i16>, with_payload: bool) -> bool {
    &&& h.id == p.id
    &&& h.score.pair() == similarity(metric, p.vector, q)
    &&& h.payload@ == (if with_payload { p.payload } else { Seq::<char>::empty() })
}

/// `h` reports some stored point of `pts`.
pub open spec fn reported(pts: Seq<PointView>, metric: Distance, q: Seq<i16>, with_payload: bool, h: ScoredPoint) -> bool {
    exists|i: int| 0 <= i < pts.len() && #[trigger] reports(h, pts[i], metric, q, with_payload)
}

/// `r` is the start of the ranking of `pts` against `q`: each hit reports a stored point,
/// comes after the hit before it, and no stored point ranks between the two.
pub open spec fn is_ranked_prefix(pts: Seq<PointView>, metric: Distance, q: Seq<i16>, with_payload: bool, r: Seq<ScoredPoint>) -> bool {
    &&& forall|j: int| 0 <= j < r.len() ==> #[trigger] reported(pts, metric, q, with_payload, r[j])
    &&& forall|j: int| 0 <= j < r.len() ==> after(prev_of(r, j), #[trigger] r[j].score.pair(), r[j].id)
    &&& forall|j: int, i: int| 0 <= j < r.len() && 0 <= i < pts.len()
        && after(prev_of(r, j), similarity(metric, pts[i].vector, q), pts[i].id)
        ==> pts[i].id == #[trigger] r[j].id
            || ranks_before(r[j].score.pair(), r[j].id, similarity(metric, #[trigger] pts[i].vector, q), pts[i].id)
}

/// No stored point ranks after `prev`.
pub open spec fn exhausted(pts: Seq<PointView>, metric: Distance, q: Seq<i16>, prev: Option<((int, int), u64)>) -> bool {
    forall|i: int| 0 <= i < pts.len() ==> !after(prev, similarity(metric, #[trigger] pts[i].vector, q), pts[i].id)
}

/// `hits` is the answer to a search of `pts` for `q` limited to `top_k` hits: the ranking
/// of the stored points under `metric`, cut after `top_k` hits.
pub open spec fn is_search_result(
    pts: Seq<PointView>,
    metric: Distance,
    q: Seq<i16>,
    top_k: int,
    with_payload: bool,
    hits: Seq<ScoredPoint>,
) -> bool {
    &&& hits.len() <= top_k
    &&& is_ranked_prefix(pts, metric, q, with_payload, hits)
    &&& hits.len() < top_k ==> exhausted(pts, metric, q, prev_of(hits, hits.len() as int))
}

/// Identifiers of stored points are unique.
pub open spec fn unique_ids(pts: Seq<PointView>) -> bool {
    forall|i: int, j: int| 0 <= i < pts.len() && 0 <= j < pts.len() && i != j ==> #[trigger] pts[i].id != #[trigger] pts[j].id
}

/// Ranking order is transitive.
pub proof fn lemma_ranks_transitive(a: (int, int), ai: u64, b: (int, int), bi: u64, c: (int, int), ci: u64)
    requires
        a.1 > 0,
        b.1 > 0,
        c.1 > 0,
        ranks_before(a, ai, b, bi),
        ranks_before(b, bi, c, ci),
    ensures
        ranks_before(a, ai, c, ci),
{
    let p = a.0 * b.1 - b.0 * a.1;
    let q = b.0 * c.1 - c.0 * b.1;
    let x = a.0 * c.1 - c.0 * a.1;
    assert(x * b.1 == p * c.1 + q * a.1) by (nonlinear_arith)
        requires
            p == a.0 * b.1 - b.0 * a.1,
            q == b.0 * c.1 - c.0 * b.1,
            x == a.0 * c.1 - c.0 * a.1,
    ;
    assert(p >= 0 && q >= 0);
    assert(p * c.1 >= 0 && q * a.1 >= 0) by (nonlinear_arith)
        requires
            p >= 0,
            q >= 0,
            a.1 > 0,
            c.1 > 0,
    ;
    assert(p > 0 || q > 0 ==> p * c.1 + q * a.1 > 0) by (nonlinear_arith)
        requires
            p >= 0,
            q >= 0,
            a.1 > 0,
            c.1 > 0,
    ;
    assert(x * b.1 >= 0 ==> x >= 0) by (nonlinear_arith)
        requires
            b.1 > 0,
    ;
    assert(x * b.1 > 0 ==> x > 0) by (nonlinear_arith)
        requires
            b.1 > 0,
    ;
    assert(x * b.1 == 0 ==> x == 0) by (nonlinear_arith)
        requires
            b.1 > 0,
    ;
}

/// A search of a collection that holds no point finds nothing, and is no error.
pub proof fn lemma_search_empty(metric: Distance, q: Seq<i16>, top_k: int, with_payload: bool, hits: Seq<ScoredPoint>)
    requires
        is_search_result(Seq::<PointView>::empty(), metric, q, top_k, with_payload, hits),
    ensures
        hits.len() == 0,
{
    if hits.len() > 0 {
        assert(reported(Seq::<PointView>::empty(), metric, q, with_payload, hits[0]));
    }
}

/// The point that ranks before every other stored point (higher similarity to the query,
/// or equal similarity and a smaller identifier) is the first hit of any search that asks
/// for at least one hit.
pub proof fn lemma_best_point_first(
    pts: Seq<PointView>,
    metric: Distance,
    q: Seq<i16>,
    top_k: int,
    with_payload: bool,
    hits: Seq<ScoredPoint>,
    a: int,
)
    requires
        unique_ids(pts),
        0 <= a < pts.len(),
        forall|i: int| 0 <= i < pts.len() && i != a ==> ranks_before(
            similarity(metric, pts[a].vector, q),
            pts[a].id,
            similarity(metric, #[trigger] pts[i].vector, q),
            pts[i].id,
        ),
        top_k >= 1,
        is_search_result(pts, metric, q, top_k, with_payload, hits),
    ensures
        hits.len() >= 1,
        reports(hits[0], pts[a], metric, q, with_payload),
{
    if hits.len() == 0 {
        assert(!after(prev_of(hits, 0), similarity(metric, pts[a].vector, q), pts[a].id));
    }
    assert(reported(pts, metric, q, with_payload, hits[0]));
    let i = choose|i: int| 0 <= i < pts.len() && #[trigger] reports(hits[0], pts[i], metric, q, with_payload);
    assert(after(prev_of(hits, 0), similarity(metric, pts[a].vector, q), pts[a].id));
    if i != a {
        assert(pts[a].id == hits[0].id
            || ranks_before(hits[0].score.pair(), hits[0].id, similarity(metric, pts[a].vector, q), pts[a].id));
        assert(ranks_before(similarity(metric, pts[a].vector, q), pts[a].id, similarity(metric, pts[i].vector, q), pts[i].id));
    }
}

/// A search of a collection that holds a single point returns that point, whatever the
/// query: in particular a search for the vector just written finds it.
pub proof fn lemma_single_point_found(p: PointView, metric: Distance, q: Seq<i16>, top_k: int, with_payload: bool, hits: Seq<ScoredPoint>)
    requires
        top_k >= 1,
        is_search_result(seq![p], metric, q, top_k, with_payload, hits),
    ensures
        hits.len() == 1,
        reports(hits[0], p, metric, q, with_payload),
{
    let pts = seq![p];
    lemma_best_point_first(pts, metric, q, top_k, with_payload, hits, 0);
    if hits.len() > 1 {
        assert(reported(pts, metric, q, with_payload, hits[1]));
        let i = choose|i: int| 0 <= i < pts.len() && #[trigger] reports(hits[1], pts[i], metric, q, with_payload);
        assert(after(prev_of(hits, 1), hits[1].score.pair(), hits[1].id));
    }
}

/// A named collection of points whose vectors all have the configured dimension, compared
/// under the configured distance.
pub struct Collection {
    name: String,
    dimension: usize,
    distance: Distance,
    points: Vec<IndexedPoint>,
}

impl Collection {
    pub closed spec fn spec_name(&self) -> Seq<char> {
        self.name@
    }

    pub closed spec fn spec_dimension(&self) -> nat {
        self.dimension as nat
    }

    pub closed spec fn spec_distance(&self) -> Distance {
        self.distance
    }

    /// The stored points, in the order in which they were first inserted.
    pub closed spec fn points(&self) -> Seq<PointView> {
        self.points@.map_values(|p: IndexedPoint| p@)
    }

    /// The dimension is at most `MAX_DIMENSION`, every stored vector has it, and identifiers
    /// are unique.
    pub open spec fn wf(&self) -> bool {
        &&& self.spec_dimension() <= MAX_DIMENSION
        &&& forall|i: int| 0 <= i < self.points().len() ==> #[trigger] self.points()[i].vector.len() == self.spec_dimension()
        &&& unique_ids(self.points())
    }

    /// An empty collection that replaces any earlier one of the same name: indexing
    /// always starts from scratch.
    pub fn recreate(name: String, dimension: usize, distance: Distance) -> (c: Collection)
        requires
            dimension <= MAX_DIMENSION,
        ensures
            c.wf(),
            c.spec_name() == name@,
            c.spec_dimension() == dimension,
            c.spec_distance() == distance,
            c.points() == Seq::<PointView>::empty(),
    {
        let c = Collection { name, dimension, distance, points: Vec::new() };
        assert(c.points() =~= Seq::<PointView>::empty());
        c
    }

    pub fn name(&self) -> (r: &String)
        ensures
            r@ == self.spec_name(),
    {
        &self.name
    }

    pub fn dimension(&self) -> (r: usize)
        ensures
            r == self.spec_dimension(),
    {
        self.dimension
    }

    pub fn distance(&self) -> (r: Distance)
        ensures
            r == self.spec_distance(),
    {
        self.distance
    }

    pub fn len(&self) -> (r: usize)
        ensures
            r == self.points().len(),
    {
        self.points.len()
    }

    /// Inserts `point`, or overwrites the stored point with the same identifier in place.
    /// A vector whose length is not the collection's dimension is rejected and nothing
    /// is written.
    pub fn upsert(&mut self, point: IndexedPoint) -> (r: Result<(), PipelineError>)
        requires
            old(self).wf(),
        ensures
            final(self).wf(),
            final(self).spec_name() == old(self).spec_name(),
            final(self).spec_dimension() == old(self).spec_dimension(),
            final(self).spec_distance() == old(self).spec_distance(),
            point.vector@.len() != old(self).spec_dimension() <==> r is Err,
            r is Err ==> r == Err::<(), PipelineError>(PipelineError::Config {
                expected: old(self).spec_dimension() as usize,
                found: point.vector@.len() as usize,
            }) && final(self).points() == old(self).points(),
            r is Ok ==> (exists|i: int| 0 <= i < old(self).points().len() && old(self).points()[i].id == point.id)
                ==> (exists|i: int| 0 <= i < old(self).points().len() && old(self).points()[i].id == point.id
                    && final(self).points() == old(self).points().update(i, point@)),
            r is Ok ==> (forall|i: int| 0 <= i < old(self).points().len() ==> old(self).points()[i].id != point.id)
                ==> final(self).points() == old(self).points().push(point@),
    {
        if point.vector.len() != self.dimension {
            return Err(PipelineError::Config { expected: self.dimension, found: point.vector.len() });
        }
        let ghost before = self.points();
        let mut i: usize = 0;
        while i < self.points.len()
            invariant
                i <= self.points.len(),
                *self == *old(self),
                self.points() == before,
                before == old(self).points(),
                old(self).wf(),
                point.vector@.len() == self.dimension,
                forall|k: int| 0 <= k < i ==> before[k].id != point.id,
            decreases self.points.len() - i,
        {
            if self.points[i].id == point.id {
                let ghost pv = point@;
                assert(before[i as int].id == point.id);
                self.points.set(i, point);
                assert(self.points() =~= before.update(i as int, pv));
                assert forall|a: int, b: int| 0 <= a < self.points().len() && 0 <= b < self.points().len() && a != b implies
                    #[trigger] self.points()[a].id != #[trigger] self.points()[b].id by {
                    assert(self.points()[a].id == before[a].id);
                    assert(self.points()[b].id == before[b].id);
                }
                return Ok(());
            }
            i = i + 1;
        }
        let ghost pv = point@;
        self.points.push(point);
        assert(self.points() =~= before.push(pv));
        Ok(())
    }

    /// The hits of `query` in ranking order under the collection's distance: most similar
    /// first, equal similarity by ascending identifier, at most `top_k` of them, and fewer
    /// only when every stored point is already listed. Payloads are returned only when
    /// `with_payload` is set. A query whose length is not the collection's dimension is
    /// rejected.
    pub fn search(&self, query: &Vec<i16>, top_k: usize, with_payload: bool) -> (r: Result<Vec<ScoredPoint>, PipelineError>)
        requires
            self.wf(),
        ensures
            query@.len() != self.spec_dimension() <==> r is Err,
            match r {
                Ok(hits) => is_search_result(self.points(), self.spec_distance(), query@, top_k as int, with_payload, hits@),
                Err(e) => e == PipelineError::Config {
                    expected: self.spec_dimension() as usize,
                    found: query@.len() as usize,
                },
            },
    {
        if query.len() != self.dimension {
            return Err(PipelineError::Config { expected: self.dimension, found: query.len() });
        }
        let ghost pts = self.points();
        let ghost q = query@;
        let metric = self.distance;
        let n = self.points.len();
        let mut scores: Vec<Similarity> = Vec::new();
        let mut i: usize = 0;
        while i < n
            invariant
                n == self.points@.len(),
                pts == self.points(),
                metric == self.spec_distance(),
                self.wf(),
                query@.len() == self.dimension,
                q == query@,
                i <= n,
                scores@.len() == i,
                forall|k: int| 0 <= k < i ==> (#[trigger] scores@[k]).pair() == similarity(metric, pts[k].vector, q)
                    && bounded(scores@[k].pair()),
            decreases n - i,
        {
            assert(pts[i as int].vector == self.points@[i as int].vector@);
            let s = similarity_of(metric, &self.points[i].vector, query);
            scores.push(s);
            i = i + 1;
        }
        let mut hits: Vec<ScoredPoint> = Vec::new();
        let mut done = false;
        while hits.len() < top_k && !done
            invariant
                n == self.points@.len(),
                pts == self.points(),
                metric == self.spec_distance(),
                self.wf(),
                scores@.len() == n,
                forall|k: int| 0 <= k < n ==> (#[trigger] scores@[k]).pair() == similarity(metric, pts[k].vector, q)
                    && bounded(scores@[k].pair()),
                hits@.len() <= top_k,
                is_ranked_prefix(pts, metric, q, with_payload, hits@),
                forall|j: int| 0 <= j < hits@.len() ==> bounded(#[trigger] hits@[j].score.pair()),
                done ==> exhausted(pts, metric, q, prev_of(hits@, hits@.len() as int)),
            decreases top_k - hits@.len(), (if done { 0int } else { 1int }),
        {
            let ghost prev = prev_of(hits@, hits@.len() as int);
            let has_prev = hits.len() > 0;
            let mut ps = Similarity { num: 0, den: 1 };
            let mut pid: u64 = 0;
            if has_prev {
                ps = hits[hits.len() - 1].score;
                pid = hits[hits.len() - 1].id;
            }
            let mut best: usize = 0;
            let mut found = false;
            let mut i: usize = 0;
            while i < n
                invariant
                    n == self.points@.len(),
                    pts == self.points(),
                    self.wf(),
                    scores@.len() == n,
                    forall|k: int| 0 <= k < n ==> (#[trigger] scores@[k]).pair() == similarity(metric, pts[k].vector, q)
                        && bounded(scores@[k].pair()),
                    prev == prev_of(hits@, hits@.len() as int),
                    has_prev == (hits@.len() > 0),
                    has_prev ==> prev == Some((ps.pair(), pid)) && bounded(ps.pair()),
                    i <= n,
                    found ==> best < i && after(prev, similarity(metric, pts[best as int].vector, q), pts[best as int].id),
                    found ==> forall|k: int| 0 <= k < i && after(prev, similarity(metric, pts[k].vector, q), pts[k].id)
                        ==> pts[k].id == pts[best as int].id
                            || ranks_before(similarity(metric, pts[best as int].vector, q), pts[best as int].id,
                                similarity(metric, #[trigger] pts[k].vector, q), pts[k].id),
                    !found ==> forall|k: int| 0 <= k < i ==> !after(prev, similarity(metric, #[trigger] pts[k].vector, q), pts[k].id),
                decreases n - i,
            {
                let s = scores[i];
                let id = self.points[i].id;
                assert(pts[i as int].id == id);
                let ghost si = similarity(metric, pts[i as int].vector, q);
                let is_after = if has_prev { precedes(ps, pid, s, id) } else { true };
                if is_after {
                    let better = if found {
                        let b = scores[best];
                        let bid = self.points[best].id;
                        assert(pts[best as int].id == bid);
                        precedes(s, id, b, bid)
                    } else {
                        true
                    };
                    if better {
                        proof {
                            if found {
                                let ghost sb = similarity(metric, pts[best as int].vector, q);
                                assert forall|k: int| 0 <= k < i && after(prev, similarity(metric, pts[k].vector, q), pts[k].id)
                                    implies pts[k].id == id
                                        || ranks_before(si, id, similarity(metric, #[trigger] pts[k].vector, q), pts[k].id) by {
                                    let sk = similarity(metric, pts[k].vector, q);
                                    assert(scores@[k].pair() == sk);
                                    if pts[k].id == pts[best as int].id {
                                        assert(k == best);
                                    } else {
                                        lemma_ranks_transitive(si, id, sb, pts[best as int].id, sk, pts[k].id);
                                    }
                                }
                            }
                        }
                        best = i;
                        found = true;
                    } else {
                        proof {
                            assert(pts[best as int].id != id);
                        }
                    }
                }
                i = i + 1;
            }
            if found {
                let ghost old_hits = hits@;
                let hit = ScoredPoint {
                    id: self.points[best].id,
                    score: scores[best],
                    payload: if with_payload { self.points[best].payload.clone() } else { String::new() },
                };
                assert(reports(hit, pts[best as int], metric, q, with_payload));
                hits.push(hit);
                assert(hits@ == old_hits.push(hit));
                assert forall|j: int| 0 <= j < old_hits.len() implies prev_of(hits@, j) == prev_of(old_hits, j) by {}
                assert(prev_of(hits@, old_hits.len() as int) == prev);
                assert(reported(pts, metric, q, with_payload, hits@[old_hits.len() as int]));
            } else {
                done = true;
            }
        }
        Ok(hits)
    }
}

/// Whether hit `(a, aid)` comes before hit `(b, bid)`.
fn precedes(a: Similarity, aid: u64, b: Similarity, bid: u64) -> (r: bool)
    requires
        bounded(a.pair()),
        bounded(b.pair()),
    ensures
        r == ranks_before(a.pair(), aid, b.pair(), bid),
{
    assert(-0x40000000000000000000000000000000 <= (a.num as int) * (b.den as int) <= 0x40000000000000000000000000000000)
        by (nonlinear_arith)
        requires
            bounded(a.pair()),
            bounded(b.pair()),
    ;
    assert(-0x40000000000000000000000000000000 <= (b.num as int) * (a.den as int) <= 0x40000000000000000000000000000000)
        by (nonlinear_arith)
        requires
            bounded(a.pair()),
            bounded(b.pair()),
    ;
    let l = a.num * b.den;
    let r = b.num * a.den;
    l > r || (l == r && aid < bid)
}

/// The dot product of a vector with itself is never negative.
proof fn lemma_dot_self_nonneg(v: Seq<i16>, n: int)
    ensures
        dot_upto(v, v, n) >= 0,
    decreases n,
{
    if n > 0 {
        lemma_dot_self_nonneg(v, n - 1);
        let x = v[n - 1] as int;
        assert(x * x >= 0) by (nonlinear_arith);
    }
}

/// The similarity of `v` to `q` under `metric`.
fn similarity_of(metric: Distance, v: &Vec<i16>, q: &Vec<i16>) -> (r: Similarity)
    requires
        v@.len() == q@.len(),
        v@.len() <= MAX_DIMENSION,
    ensures
        r.pair() == similarity(metric, v@, q@),
        bounded(r.pair()),
{
    let d = dot_product(v, q);
    match metric {
        Distance::Dot => Similarity { num: d, den: 1 },
        Distance::Cosine => {
            let n = dot_product(v, v);
            proof {
                lemma_dot_self_nonneg(v@, v@.len() as int);
            }
            if n == 0 {
                Similarity { num: 0, den: 1 }
            } else {
                assert(0 <= (d as int) * (d as int) <= 0x1000000000000000000000) by (nonlinear_arith)
                    requires
                        -0x40000000000 <= d <= 0x40000000000,
                ;
                let sq = d * d;
                if d >= 0 {
                    Similarity { num: sq, den: n }
                } else {
                    Similarity { num: -sq, den: n }
                }
            }
        },
    }
}

/// Dot product of two vectors of equal length.
fn dot_product(a: &Vec<i16>, b: &Vec<i16>) -> (r: i128)
    requires
        a@.len() == b@.len(),
        a@.len() <= MAX_DIMENSION,
    ensures
        r as int == dot(a@, b@),
        -0x40000000000 <= r <= 0x40000000000,
{
    let mut s: i128 = 0;
    let mut k: usize = 0;
    while k < a.len()
        invariant
            k <= a@.len(),
            a@.len() == b@.len(),
            a@.len() <= MAX_DIMENSION,
            s as int == dot_upto(a@, b@, k as int),
            -(k as int) * 0x40000000 <= s as int <= (k as int) * 0x40000000,
        decreases a@.len() - k,
    {
        let x = a[k] as i128;
        let y = b[k] as i128;
        assert(-0x40000000 <= x * y <= 0x40000000) by (nonlinear_arith)
            requires
                -0x8000 <= x < 0x8000,
                -0x8000 <= y < 0x8000,
        ;
        s = s + x * y;
        k = k + 1;
    }
    s
}

} // verus!
