//! Zero counts: the distinct zero counts of a spectrum's rows, and the cell ledger that files each
//! sampled point of the shared-actuator plant under its `(stator coordinate, authority)` cell.
use vstd::prelude::*;
use vstd::pervasive::VecAdditionalExecFns;
use crate::labels::Authority;
use crate::shared_actuator::is_live;

verus! {

/// `s` is strictly increasing: sorted, each value once.
pub open spec fn strictly_increasing(s: Seq<usize>) -> bool {
    forall|i: int, j: int| 0 <= i < j < s.len() ==> s[i] < s[j]
}

/// Insert `x` into a strictly increasing list, keeping it strictly increasing and adding nothing
/// else.
pub fn insert_distinct(v: &mut Vec<usize>, x: usize)
    requires
        strictly_increasing(old(v)@),
    ensures
        strictly_increasing(final(v)@),
        forall|y: usize| final(v)@.contains(y) <==> (old(v)@.contains(y) || y == x),
        final(v)@.len() <= old(v)@.len() + 1,
{
    let mut pos: usize = 0;
    while pos < v.len() && v[pos] < x
        invariant
            pos <= v.len(),
            forall|j: int| 0 <= j < pos ==> v@[j] < x,
        decreases v.len() - pos,
    {
        pos = pos + 1;
    }
    let ghost d0 = v@;
    if pos < v.len() && v[pos] == x {
        assert(v@[pos as int] == x);
        return;
    }
    v.insert(pos, x);
    proof {
        assert(pos == d0.len() || d0[pos as int] > x);
        assert forall|a: int, b: int| 0 <= a < b < v@.len() implies v@[a] < v@[b] by {
            if b < pos {
                assert(v@[a] == d0[a] && v@[b] == d0[b]);
            } else if b == pos {
                assert(v@[a] == d0[a]);
            } else if a < pos {
                assert(v@[a] == d0[a] && v@[b] == d0[b - 1]);
                if b - 1 > pos {
                    assert(d0[pos as int] < d0[b - 1]);
                }
            } else if a == pos {
                assert(v@[b] == d0[b - 1]);
                if b - 1 > pos {
                    assert(d0[pos as int] < d0[b - 1]);
                }
            } else {
                assert(v@[a] == d0[a - 1] && v@[b] == d0[b - 1]);
            }
        }
        assert forall|y: usize| v@.contains(y) <==> (d0.contains(y) || y == x) by {
            if v@.contains(y) {
                let k: int = choose|k: int| 0 <= k < v@.len() && v@[k] == y;
                if k < pos {
                    assert(d0[k] == y);
                } else if k > pos {
                    assert(d0[k - 1] == y);
                }
            }
            if d0.contains(y) {
                let k: int = choose|k: int| 0 <= k < d0.len() && d0[k] == y;
                if k < pos {
                    assert(v@[k] == y);
                } else {
                    assert(v@[k + 1] == y);
                }
            }
            if y == x {
                assert(v@[pos as int] == y);
            }
        }
    }
}

/// The DISTINCT values of a list of zero counts, in increasing order — each count once.
pub fn distinct_zero_counts(xs: &Vec<usize>) -> (d: Vec<usize>)
    ensures
        strictly_increasing(d@),
        forall|x: usize| d@.contains(x) <==> xs@.contains(x),
{
    let mut d: Vec<usize> = Vec::new();
    let mut i: usize = 0;
    while i < xs.len()
        invariant
            i <= xs.len(),
            strictly_increasing(d@),
            forall|x: usize| d@.contains(x) <==> xs@.take(i as int).contains(x),
        decreases xs.len() - i,
    {
        let ghost d0 = d@;
        insert_distinct(&mut d, xs[i]);
        proof {
            let t0 = xs@.take(i as int);
            let t1 = xs@.take(i + 1);
            assert(t1 =~= t0.push(xs@[i as int]));
            assert forall|y: usize| d@.contains(y) <==> t1.contains(y) by {
                if t0.contains(y) {
                    let w: int = choose|w: int| 0 <= w < t0.len() && t0[w] == y;
                    assert(t1[w] == y);
                }
                if y == xs@[i as int] {
                    assert(t1[i as int] == y);
                }
                if t1.contains(y) {
                    let w: int = choose|w: int| 0 <= w < t1.len() && t1[w] == y;
                    if w < i {
                        assert(t0[w] == y);
                    }
                }
            }
        }
        i = i + 1;
    }
    assert(xs@.take(xs.len() as int) =~= xs@);
    d
}

} // verus!

verus! {

/// One sampled point of the shared-actuator plant, as the ledger files it: the stator's
/// coordinate, which leg held the actuator, and how many zero roots its spectrum had.
#[derive(Clone, Copy, Debug, PartialEq, Eq)]
pub struct CellSample {
    /// The stator watches the incidence margin (else `phi`).
    pub inc: bool,
    /// Which leg held the actuator.
    pub authority: Authority,
    /// The number of zero roots.
    pub zeros: usize,
    /// The parent rung's own reader was interior at this point too.
    pub parent: bool,
}

/// The cell a key names: the stator coordinate and the authority.
pub type CellKey = (bool, Authority);

/// A sample's cell.
pub open spec fn sample_key(s: CellSample) -> CellKey {
    (s.inc, s.authority)
}

/// A sample is filed under `k`: its authority is live and its cell is `k`. `Dormant` and `Tie`
/// points name no parent and are not filed.
pub open spec fn filed(s: CellSample, k: CellKey) -> bool {
    is_live(s.authority) && sample_key(s) == k
}

/// How many samples of `ss` are filed under `k`.
pub open spec fn filed_count(ss: Seq<CellSample>, k: CellKey) -> nat
    decreases ss.len(),
{
    if ss.len() == 0 {
        0
    } else {
        filed_count(ss.drop_last(), k) + (if filed(ss.last(), k) {
            1nat
        } else {
            0nat
        })
    }
}

/// How many samples of `ss` filed under `k` had an interior parent reading.
pub open spec fn filed_parent_count(ss: Seq<CellSample>, k: CellKey) -> nat
    decreases ss.len(),
{
    if ss.len() == 0 {
        0
    } else {
        filed_parent_count(ss.drop_last(), k) + (if filed(ss.last(), k) && ss.last().parent {
            1nat
        } else {
            0nat
        })
    }
}

/// Some sample of `ss` filed under `k` has `z` zero roots.
pub open spec fn filed_zero(ss: Seq<CellSample>, k: CellKey, z: usize) -> bool {
    exists|i: int| 0 <= i < ss.len() && filed(ss[i], k) && #[trigger] ss[i].zeros == z
}

/// Some sample of `ss` before index `n` is filed under `k`.
pub open spec fn filed_before(ss: Seq<CellSample>, k: CellKey, n: int) -> bool {
    exists|i: int| 0 <= i < n && #[trigger] filed(ss[i], k)
}

/// One cell of the ledger.
#[derive(Clone, Debug)]
pub struct ZeroCell {
    /// The stator watches the incidence margin.
    pub inc: bool,
    /// The leg that held the actuator.
    pub authority: Authority,
    /// How many samples were filed here.
    pub n: usize,
    /// How many of them had an interior parent reading.
    pub n_parent: usize,
    /// The DISTINCT zero counts seen here, in increasing order. The rank law says one member.
    pub zeros: Vec<usize>,
}

/// A cell's key.
pub open spec fn cell_key(c: ZeroCell) -> CellKey {
    (c.inc, c.authority)
}

/// The ledger of `ss` is `cells`: one cell per filed key, in the order the keys first appear,
/// each holding its sample count and the distinct zero counts its samples had.
pub open spec fn is_ledger(ss: Seq<CellSample>, cells: Seq<ZeroCell>) -> bool {
    &&& forall|j: int| 0 <= j < cells.len() ==> is_live(#[trigger] cells[j].authority)
    &&& forall|j1: int, j2: int|
        0 <= j1 < j2 < cells.len() ==> cell_key(#[trigger] cells[j1]) != cell_key(
            #[trigger] cells[j2],
        )
    &&& forall|j: int|
        0 <= j < cells.len() ==> #[trigger] cells[j].n == filed_count(ss, cell_key(cells[j]))
    &&& forall|j: int|
        0 <= j < cells.len() ==> #[trigger] cells[j].n_parent == filed_parent_count(
            ss,
            cell_key(cells[j]),
        )
    &&& forall|j: int| 0 <= j < cells.len() ==> strictly_increasing(#[trigger] cells[j].zeros@)
    &&& forall|j: int, z: usize|
        0 <= j < cells.len() ==> (#[trigger] cells[j].zeros@.contains(z) <==> filed_zero(
            ss,
            cell_key(cells[j]),
            z,
        ))
    &&& forall|j: int|
        0 <= j < cells.len() ==> filed_before(ss, cell_key(#[trigger] cells[j]), ss.len() as int)
    &&& forall|i: int|
        0 <= i < ss.len() && is_live(#[trigger] ss[i].authority) ==> exists|j: int|
            0 <= j < cells.len() && cell_key(#[trigger] cells[j]) == sample_key(ss[i])
    &&& forall|j1: int, j2: int, i2: int|
        0 <= j1 < j2 < cells.len() && 0 <= i2 < ss.len() && #[trigger] filed(
            ss[i2],
            cell_key(#[trigger] cells[j2]),
        ) ==> filed_before(ss, cell_key(#[trigger] cells[j1]), i2)
}

/// How many samples of `ss` carry a live authority: the points the ledger files.
pub open spec fn live_count(ss: Seq<CellSample>) -> nat
    decreases ss.len(),
{
    if ss.len() == 0 {
        0
    } else {
        live_count(ss.drop_last()) + (if is_live(ss.last().authority) {
            1nat
        } else {
            0nat
        })
    }
}

/// The sum of the cells' sample counts.
pub open spec fn cells_total(cs: Seq<ZeroCell>) -> nat
    decreases cs.len(),
{
    if cs.len() == 0 {
        0
    } else {
        cells_total(cs.drop_last()) + cs.last().n as nat
    }
}

proof fn lemma_total_same(a: Seq<ZeroCell>, b: Seq<ZeroCell>)
    requires
        a.len() == b.len(),
        forall|j: int| 0 <= j < a.len() ==> #[trigger] a[j].n == b[j].n,
    ensures
        cells_total(a) == cells_total(b),
    decreases a.len(),
{
    if a.len() > 0 {
        let (a0, b0) = (a.drop_last(), b.drop_last());
        assert forall|j: int| 0 <= j < a0.len() implies #[trigger] a0[j].n == b0[j].n by {
            assert(a0[j] == a[j] && b0[j] == b[j]);
        }
        lemma_total_same(a0, b0);
        assert(a.last().n == b.last().n);
    }
}

proof fn lemma_total_change(a: Seq<ZeroCell>, b: Seq<ZeroCell>, jj: int)
    requires
        a.len() == b.len(),
        0 <= jj < a.len(),
        forall|j: int| 0 <= j < a.len() && j != jj ==> #[trigger] a[j].n == b[j].n,
    ensures
        cells_total(b) + a[jj].n == cells_total(a) + b[jj].n,
    decreases a.len(),
{
    let (a0, b0) = (a.drop_last(), b.drop_last());
    if jj == a.len() - 1 {
        assert forall|j: int| 0 <= j < a0.len() implies #[trigger] a0[j].n == b0[j].n by {
            assert(a0[j] == a[j] && b0[j] == b[j]);
        }
        lemma_total_same(a0, b0);
    } else {
        assert forall|j: int| 0 <= j < a0.len() && j != jj implies #[trigger] a0[j].n
            == b0[j].n by {
            assert(a0[j] == a[j] && b0[j] == b[j]);
        }
        lemma_total_change(a0, b0, jj);
        assert(a0[jj] == a[jj] && b0[jj] == b[jj]);
        assert(a.last().n == b.last().n);
    }
}

proof fn lemma_push_facts(ss: Seq<CellSample>, s: CellSample)
    ensures
        forall|k: CellKey|
            #[trigger] filed_count(ss.push(s), k) == filed_count(ss, k) + (if filed(s, k) {
                1nat
            } else {
                0nat
            }),
        forall|k: CellKey|
            #[trigger] filed_parent_count(ss.push(s), k) == filed_parent_count(ss, k) + (if filed(
                s,
                k,
            ) && s.parent {
                1nat
            } else {
                0nat
            }),
        forall|k: CellKey, z: usize|
            #[trigger] filed_zero(ss.push(s), k, z) <==> (filed_zero(ss, k, z) || (filed(s, k)
                && s.zeros == z)),
        forall|k: CellKey, n: int|
            0 <= n <= ss.len() ==> (#[trigger] filed_before(ss.push(s), k, n) <==> filed_before(
                ss,
                k,
                n,
            )),
        forall|k: CellKey|
            #[trigger] filed_before(ss.push(s), k, ss.len() + 1int) <==> (filed_before(
                ss,
                k,
                ss.len() as int,
            ) || filed(s, k)),
{
    let t = ss.push(s);
    assert(t.drop_last() =~= ss);
    assert(t.last() == s);
    assert forall|k: CellKey, z: usize|
        #[trigger] filed_zero(t, k, z) <==> (filed_zero(ss, k, z) || (filed(s, k) && s.zeros
            == z)) by {
        if filed_zero(t, k, z) {
            let i: int = choose|i: int| 0 <= i < t.len() && filed(t[i], k) && #[trigger] t[i].zeros == z;
            if i < ss.len() {
                assert(ss[i] == t[i]);
            }
        }
        if filed_zero(ss, k, z) {
            let i: int = choose|i: int| 0 <= i < ss.len() && filed(ss[i], k) && #[trigger] ss[i].zeros
                == z;
            assert(t[i] == ss[i]);
        }
        if filed(s, k) && s.zeros == z {
            assert(t[ss.len() as int] == s);
        }
    }
    assert forall|k: CellKey, n: int| 0 <= n <= ss.len() implies (#[trigger] filed_before(
        t,
        k,
        n,
    ) <==> filed_before(ss, k, n)) by {
        if filed_before(t, k, n) {
            let i: int = choose|i: int| 0 <= i < n && #[trigger] filed(t[i], k);
            assert(ss[i] == t[i]);
        }
        if filed_before(ss, k, n) {
            let i: int = choose|i: int| 0 <= i < n && #[trigger] filed(ss[i], k);
            assert(t[i] == ss[i]);
        }
    }
    assert forall|k: CellKey|
        #[trigger] filed_before(t, k, ss.len() + 1int) <==> (filed_before(ss, k, ss.len() as int)
            || filed(s, k)) by {
        if filed_before(t, k, ss.len() + 1int) {
            let i: int = choose|i: int| 0 <= i < ss.len() + 1 && #[trigger] filed(t[i], k);
            if i < ss.len() {
                assert(ss[i] == t[i]);
            }
        }
        if filed_before(ss, k, ss.len() as int) {
            let i: int = choose|i: int| 0 <= i < ss.len() && #[trigger] filed(ss[i], k);
            assert(t[i] == ss[i]);
        }
        if filed(s, k) {
            assert(t[ss.len() as int] == s);
        }
    }
}

proof fn lemma_filed_count_bounded(ss: Seq<CellSample>, k: CellKey)
    ensures
        filed_count(ss, k) <= ss.len(),
        filed_parent_count(ss, k) <= filed_count(ss, k),
    decreases ss.len(),
{
    if ss.len() > 0 {
        lemma_filed_count_bounded(ss.drop_last(), k);
    }
}

proof fn lemma_ledger_skip(ss: Seq<CellSample>, s: CellSample, cells: Seq<ZeroCell>)
    requires
        is_ledger(ss, cells),
        !is_live(s.authority),
    ensures
        is_ledger(ss.push(s), cells),
{
    lemma_push_facts(ss, s);
    let t = ss.push(s);
    assert forall|j: int| 0 <= j < cells.len() implies #[trigger] cells[j].n == filed_count(
        t,
        cell_key(cells[j]),
    ) by {
        assert(!filed(s, cell_key(cells[j])));
    }
    assert forall|j: int| 0 <= j < cells.len() implies #[trigger] cells[j].n_parent
        == filed_parent_count(t, cell_key(cells[j])) by {
        assert(!filed(s, cell_key(cells[j])));
    }
    assert forall|j: int, z: usize| 0 <= j < cells.len() implies (
    #[trigger] cells[j].zeros@.contains(z) <==> filed_zero(t, cell_key(cells[j]), z)) by {
        assert(!filed(s, cell_key(cells[j])));
    }
    assert forall|j: int| 0 <= j < cells.len() implies filed_before(
        t,
        cell_key(#[trigger] cells[j]),
        t.len() as int,
    ) by {
        assert(filed_before(ss, cell_key(cells[j]), ss.len() as int));
    }
    assert forall|i: int| 0 <= i < t.len() && is_live(#[trigger] t[i].authority) implies exists|
        j: int,
    | 0 <= j < cells.len() && cell_key(#[trigger] cells[j]) == sample_key(t[i]) by {
        assert(i < ss.len());
        assert(t[i] == ss[i]);
        assert(is_live(ss[i].authority));
    }
    assert forall|j1: int, j2: int, i2: int|
        0 <= j1 < j2 < cells.len() && 0 <= i2 < t.len() && #[trigger] filed(
            t[i2],
            cell_key(#[trigger] cells[j2]),
        ) implies filed_before(t, cell_key(#[trigger] cells[j1]), i2) by {
        assert(i2 < ss.len());
        assert(t[i2] == ss[i2]);
        assert(filed(ss[i2], cell_key(cells[j2])));
        assert(filed_before(ss, cell_key(cells[j1]), i2));
    }
}

proof fn lemma_ledger_update(
    ss: Seq<CellSample>,
    s: CellSample,
    cells: Seq<ZeroCell>,
    jj: int,
    next: Seq<ZeroCell>,
)
    requires
        is_ledger(ss, cells),
        is_live(s.authority),
        0 <= jj < cells.len(),
        cell_key(cells[jj]) == sample_key(s),
        next.len() == cells.len(),
        forall|j: int| 0 <= j < cells.len() && j != jj ==> next[j] == cells[j],
        cell_key(next[jj]) == cell_key(cells[jj]),
        next[jj].n == cells[jj].n + 1,
        next[jj].n_parent == cells[jj].n_parent + (if s.parent {
            1int
        } else {
            0int
        }),
        strictly_increasing(next[jj].zeros@),
        forall|z: usize|
            next[jj].zeros@.contains(z) <==> (cells[jj].zeros@.contains(z) || z == s.zeros),
    ensures
        is_ledger(ss.push(s), next),
{
    lemma_push_facts(ss, s);
    let t = ss.push(s);
    let kk = sample_key(s);
    assert forall|j: int| 0 <= j < next.len() implies is_live(#[trigger] next[j].authority) by {
        if j != jj {
            assert(next[j] == cells[j]);
        }
        assert(is_live(cells[j].authority));
    }
    assert forall|j1: int, j2: int| 0 <= j1 < j2 < next.len() implies cell_key(
        #[trigger] next[j1],
    ) != cell_key(#[trigger] next[j2]) by {
        assert(cell_key(next[j1]) == cell_key(cells[j1]));
        assert(cell_key(next[j2]) == cell_key(cells[j2]));
        assert(cell_key(cells[j1]) != cell_key(cells[j2]));
    }
    assert forall|j: int| 0 <= j < next.len() implies #[trigger] next[j].n == filed_count(
        t,
        cell_key(next[j]),
    ) by {
        if j != jj {
            assert(next[j] == cells[j]);
            assert(cell_key(cells[j]) != cell_key(cells[jj]));
            assert(!filed(s, cell_key(cells[j])));
            assert(cells[j].n == filed_count(ss, cell_key(cells[j])));
        } else {
            assert(filed(s, kk));
            assert(cells[jj].n == filed_count(ss, cell_key(cells[jj])));
        }
    }
    assert forall|j: int| 0 <= j < next.len() implies #[trigger] next[j].n_parent
        == filed_parent_count(t, cell_key(next[j])) by {
        if j != jj {
            assert(next[j] == cells[j]);
            assert(cell_key(cells[j]) != cell_key(cells[jj]));
            assert(!filed(s, cell_key(cells[j])));
            assert(cells[j].n_parent == filed_parent_count(ss, cell_key(cells[j])));
        } else {
            assert(filed(s, kk));
            assert(cells[jj].n_parent == filed_parent_count(ss, cell_key(cells[jj])));
        }
    }
    assert forall|j: int| 0 <= j < next.len() implies strictly_increasing(
        #[trigger] next[j].zeros@,
    ) by {
        if j != jj {
            assert(next[j] == cells[j]);
            assert(strictly_increasing(cells[j].zeros@));
        }
    }
    assert forall|j: int, z: usize| 0 <= j < next.len() implies (
    #[trigger] next[j].zeros@.contains(z) <==> filed_zero(t, cell_key(next[j]), z)) by {
        if j != jj {
            assert(next[j] == cells[j]);
            assert(cell_key(cells[j]) != cell_key(cells[jj]));
            assert(!filed(s, cell_key(cells[j])));
            assert(cells[j].zeros@.contains(z) <==> filed_zero(ss, cell_key(cells[j]), z));
        } else {
            assert(filed(s, kk));
            assert(cells[jj].zeros@.contains(z) <==> filed_zero(ss, cell_key(cells[jj]), z));
        }
    }
    assert forall|j: int| 0 <= j < next.len() implies filed_before(
        t,
        cell_key(#[trigger] next[j]),
        t.len() as int,
    ) by {
        assert(cell_key(next[j]) == cell_key(cells[j]));
        assert(filed_before(ss, cell_key(cells[j]), ss.len() as int));
    }
    assert forall|i: int| 0 <= i < t.len() && is_live(#[trigger] t[i].authority) implies exists|
        j: int,
    | 0 <= j < next.len() && cell_key(#[trigger] next[j]) == sample_key(t[i]) by {
        if i < ss.len() {
            assert(t[i] == ss[i]);
            assert(is_live(ss[i].authority));
            let j: int = choose|j: int| 0 <= j < cells.len() && cell_key(#[trigger] cells[j]) == sample_key(ss[i]);
            assert(cell_key(next[j]) == cell_key(cells[j]));
        } else {
            assert(t[i] == s);
            assert(cell_key(next[jj]) == kk);
        }
    }
    assert forall|j1: int, j2: int, i2: int|
        0 <= j1 < j2 < next.len() && 0 <= i2 < t.len() && #[trigger] filed(
            t[i2],
            cell_key(#[trigger] next[j2]),
        ) implies filed_before(t, cell_key(#[trigger] next[j1]), i2) by {
        assert(cell_key(next[j1]) == cell_key(cells[j1]));
        assert(cell_key(next[j2]) == cell_key(cells[j2]));
        if i2 < ss.len() {
            assert(t[i2] == ss[i2]);
            assert(filed(ss[i2], cell_key(cells[j2])));
            assert(filed_before(ss, cell_key(cells[j1]), i2));
        } else {
            assert(filed_before(ss, cell_key(cells[j2]), ss.len() as int));
            let w: int = choose|w: int| 0 <= w < ss.len() && #[trigger] filed(ss[w], cell_key(cells[j2]));
            assert(filed_before(ss, cell_key(cells[j1]), w));
            let v: int = choose|v: int| 0 <= v < w && #[trigger] filed(ss[v], cell_key(cells[j1]));
            assert(t[v] == ss[v]);
            assert(filed(t[v], cell_key(cells[j1])));
        }
    }
}

proof fn lemma_ledger_new(ss: Seq<CellSample>, s: CellSample, cells: Seq<ZeroCell>, fresh: ZeroCell)
    requires
        is_ledger(ss, cells),
        is_live(s.authority),
        forall|j: int| 0 <= j < cells.len() ==> cell_key(#[trigger] cells[j]) != sample_key(s),
        cell_key(fresh) == sample_key(s),
        fresh.n == 1,
        fresh.n_parent == (if s.parent {
            1nat
        } else {
            0nat
        }),
        fresh.zeros@ == seq![s.zeros],
    ensures
        is_ledger(ss.push(s), cells.push(fresh)),
{
    lemma_push_facts(ss, s);
    let t = ss.push(s);
    let next = cells.push(fresh);
    let kk = sample_key(s);
    assert(next[cells.len() as int] == fresh);
    assert forall|j: int| 0 <= j < cells.len() implies #[trigger] next[j] == cells[j] by {}
    assert(filed_count(ss, kk) == 0 && filed_parent_count(ss, kk) == 0) by {
        lemma_no_cell_no_sample(ss, cells, kk);
        lemma_unfiled_count_zero(ss, kk);
    }
    assert(!filed_before(ss, kk, ss.len() as int)) by {
        lemma_no_cell_no_sample(ss, cells, kk);
    }
    assert forall|j: int| 0 <= j < next.len() implies is_live(#[trigger] next[j].authority) by {
        if j < cells.len() {
            assert(is_live(cells[j].authority));
        }
    }
    assert forall|j1: int, j2: int| 0 <= j1 < j2 < next.len() implies cell_key(
        #[trigger] next[j1],
    ) != cell_key(#[trigger] next[j2]) by {
        if j2 < cells.len() {
            assert(cell_key(cells[j1]) != cell_key(cells[j2]));
        } else {
            assert(cell_key(cells[j1]) != kk);
        }
    }
    assert forall|j: int| 0 <= j < next.len() implies #[trigger] next[j].n == filed_count(
        t,
        cell_key(next[j]),
    ) by {
        if j < cells.len() {
            assert(cell_key(cells[j]) != kk);
            assert(!filed(s, cell_key(cells[j])));
            assert(cells[j].n == filed_count(ss, cell_key(cells[j])));
        } else {
            assert(filed(s, kk));
        }
    }
    assert forall|j: int| 0 <= j < next.len() implies #[trigger] next[j].n_parent
        == filed_parent_count(t, cell_key(next[j])) by {
        if j < cells.len() {
            assert(cell_key(cells[j]) != kk);
            assert(!filed(s, cell_key(cells[j])));
            assert(cells[j].n_parent == filed_parent_count(ss, cell_key(cells[j])));
        } else {
            assert(filed(s, kk));
        }
    }
    assert forall|j: int| 0 <= j < next.len() implies strictly_increasing(
        #[trigger] next[j].zeros@,
    ) by {
        if j < cells.len() {
            assert(strictly_increasing(cells[j].zeros@));
        }
    }
    assert forall|j: int, z: usize| 0 <= j < next.len() implies (
    #[trigger] next[j].zeros@.contains(z) <==> filed_zero(t, cell_key(next[j]), z)) by {
        if j < cells.len() {
            assert(cell_key(cells[j]) != kk);
            assert(!filed(s, cell_key(cells[j])));
            assert(cells[j].zeros@.contains(z) <==> filed_zero(ss, cell_key(cells[j]), z));
        } else {
            assert(filed(s, kk));
            if filed_zero(ss, kk, z) {
                let i: int = choose|i: int| 0 <= i < ss.len() && filed(ss[i], kk) && #[trigger] ss[i].zeros == z;
                assert(filed_before(ss, kk, ss.len() as int));
            }
            if z == s.zeros {
                assert(fresh.zeros@[0] == z);
            }
        }
    }
    assert forall|j: int| 0 <= j < next.len() implies filed_before(
        t,
        cell_key(#[trigger] next[j]),
        t.len() as int,
    ) by {
        if j < cells.len() {
            assert(filed_before(ss, cell_key(cells[j]), ss.len() as int));
        } else {
            assert(filed(s, kk));
        }
    }
    assert forall|i: int| 0 <= i < t.len() && is_live(#[trigger] t[i].authority) implies exists|
        j: int,
    | 0 <= j < next.len() && cell_key(#[trigger] next[j]) == sample_key(t[i]) by {
        if i < ss.len() {
            assert(t[i] == ss[i]);
            assert(is_live(ss[i].authority));
            let j: int = choose|j: int| 0 <= j < cells.len() && cell_key(#[trigger] cells[j]) == sample_key(ss[i]);
            assert(next[j] == cells[j]);
        } else {
            assert(t[i] == s);
            assert(cell_key(next[cells.len() as int]) == kk);
        }
    }
    assert forall|j1: int, j2: int, i2: int|
        0 <= j1 < j2 < next.len() && 0 <= i2 < t.len() && #[trigger] filed(
            t[i2],
            cell_key(#[trigger] next[j2]),
        ) implies filed_before(t, cell_key(#[trigger] next[j1]), i2) by {
        if j2 < cells.len() {
            if i2 < ss.len() {
                assert(t[i2] == ss[i2]);
                assert(filed(ss[i2], cell_key(cells[j2])));
                assert(filed_before(ss, cell_key(cells[j1]), i2));
            } else {
                assert(t[i2] == s);
                assert(cell_key(cells[j2]) != kk);
            }
        } else {
            if i2 < ss.len() {
                assert(t[i2] == ss[i2]);
                assert(filed(ss[i2], kk));
                assert(filed_before(ss, kk, ss.len() as int));
            } else {
                assert(filed_before(ss, cell_key(cells[j1]), ss.len() as int));
            }
        }
    }
}

proof fn lemma_no_cell_no_sample(ss: Seq<CellSample>, cells: Seq<ZeroCell>, k: CellKey)
    requires
        is_ledger(ss, cells),
        forall|j: int| 0 <= j < cells.len() ==> cell_key(#[trigger] cells[j]) != k,
    ensures
        forall|i: int| 0 <= i < ss.len() ==> !#[trigger] filed(ss[i], k),
{
    assert forall|i: int| 0 <= i < ss.len() implies !#[trigger] filed(ss[i], k) by {
        if filed(ss[i], k) {
            assert(is_live(ss[i].authority));
            let j: int = choose|j: int| 0 <= j < cells.len() && cell_key(#[trigger] cells[j]) == sample_key(ss[i]);
        }
    }
}

proof fn lemma_unfiled_count_zero(ss: Seq<CellSample>, k: CellKey)
    requires
        forall|i: int| 0 <= i < ss.len() ==> !#[trigger] filed(ss[i], k),
    ensures
        filed_count(ss, k) == 0,
        filed_parent_count(ss, k) == 0,
    decreases ss.len(),
{
    if ss.len() > 0 {
        let t = ss.drop_last();
        assert forall|i: int| 0 <= i < t.len() implies !#[trigger] filed(t[i], k) by {
            assert(t[i] == ss[i]);
        }
        lemma_unfiled_count_zero(t, k);
        assert(!filed(ss[ss.len() - 1], k));
    }
}

fn find_cell(cells: &Vec<ZeroCell>, inc: bool, authority: Authority) -> (slot: Option<usize>)
    ensures
        slot matches Some(j) ==> j < cells.len() && cell_key(cells@[j as int]) == (inc, authority),
        slot is None ==> forall|j: int|
            0 <= j < cells.len() ==> cell_key(#[trigger] cells@[j]) != (inc, authority),
{
    let mut j: usize = 0;
    while j < cells.len()
        invariant
            j <= cells.len(),
            forall|i: int| 0 <= i < j ==> cell_key(#[trigger] cells@[i]) != (inc, authority),
        decreases cells.len() - j,
    {
        if cells[j].inc == inc && cells[j].authority == authority {
            return Some(j);
        }
        j = j + 1;
    }
    None
}

fn live_authority(a: Authority) -> (b: bool)
    ensures
        b == is_live(a),
{
    match a {
        Authority::Fuel => true,
        Authority::Gov => true,
        _ => false,
    }
}

/// File every sample under its `(stator coordinate, authority)` cell: `Dormant` and `Tie` points
/// are passed over, a cell is opened where its key first appears, and each cell counts its
/// samples and collects their DISTINCT zero counts in increasing order.
pub fn cell_ledger(samples: &Vec<CellSample>) -> (cells: Vec<ZeroCell>)
    ensures
        is_ledger(samples@, cells@),
        cells_total(cells@) == live_count(samples@),
{
    let mut cells: Vec<ZeroCell> = Vec::new();
    let mut i: usize = 0;
    while i < samples.len()
        invariant
            i <= samples.len(),
            is_ledger(samples@.take(i as int), cells@),
            cells_total(cells@) == live_count(samples@.take(i as int)),
        decreases samples.len() - i,
    {
        let s = samples[i];
        let ghost ss = samples@.take(i as int);
        let ghost c0 = cells@;
        proof {
            assert(samples@.take(i + 1) =~= ss.push(s));
            assert(ss.push(s).drop_last() =~= ss);
            assert(live_count(samples@.take(i + 1)) == live_count(ss) + (if is_live(s.authority) {
                1nat
            } else {
                0nat
            }));
        }
        if !live_authority(s.authority) {
            proof {
                lemma_ledger_skip(ss, s, c0);
            }
        } else {
            match find_cell(&cells, s.inc, s.authority) {
                Some(j) => {
                    proof {
                        lemma_filed_count_bounded(ss, sample_key(s));
                    }
                    let mut c = ZeroCell {
                        inc: s.inc,
                        authority: s.authority,
                        n: 0,
                        n_parent: 0,
                        zeros: Vec::new(),
                    };
                    cells.set_and_swap(j, &mut c);
                    c.n = c.n + 1;
                    if s.parent {
                        c.n_parent = c.n_parent + 1;
                    }
                    insert_distinct(&mut c.zeros, s.zeros);
                    cells.set(j, c);
                    proof {
                        lemma_ledger_update(ss, s, c0, j as int, cells@);
                        lemma_total_change(c0, cells@, j as int);
                    }
                },
                None => {
                    let mut z: Vec<usize> = Vec::new();
                    z.push(s.zeros);
                    let fresh = ZeroCell {
                        inc: s.inc,
                        authority: s.authority,
                        n: 1,
                        n_parent: if s.parent {
                            1
                        } else {
                            0
                        },
                        zeros: z,
                    };
                    proof {
                        assert(fresh.zeros@ =~= seq![s.zeros]);
                        lemma_ledger_new(ss, s, c0, fresh);
                    }
                    cells.push(fresh);
                    proof {
                        assert(cells@.drop_last() =~= c0);
                    }
                },
            }
        }
        i = i + 1;
    }
    assert(samples@.take(samples.len() as int) =~= samples@);
    cells
}

/// What the gains reader returned at one sampled point of a march.
#[derive(Clone, Copy, Debug, PartialEq, Eq)]
pub enum GainRead {
    /// Not interior: the point was dropped, either near a leg's switch or off a loop's regime.
    Dropped {
        /// Near a switch (else off a regime).
        near_switch: bool,
    },
    /// Interior: the point's label, its zero count, and whether the parent's reader was interior.
    Interior {
        /// Which leg held the actuator.
        authority: Authority,
        /// The number of zero roots.
        zeros: usize,
        /// The parent rung's reader was interior too.
        parent: bool,
    },
}

/// The interior reads of `rs`, as the samples of an arm whose stator watches `inc`.
pub open spec fn read_samples(rs: Seq<GainRead>, inc: bool) -> Seq<CellSample>
    decreases rs.len(),
{
    if rs.len() == 0 {
        Seq::empty()
    } else {
        let prev = read_samples(rs.drop_last(), inc);
        match rs.last() {
            GainRead::Interior { authority, zeros, parent } => prev.push(
                CellSample { inc, authority, zeros, parent },
            ),
            GainRead::Dropped { .. } => prev,
        }
    }
}

/// How many reads of `rs` were dropped near a switch (`near_switch`) or off a regime (`!near_switch`).
pub open spec fn dropped_count(rs: Seq<GainRead>, near_switch: bool) -> nat
    decreases rs.len(),
{
    if rs.len() == 0 {
        0
    } else {
        dropped_count(rs.drop_last(), near_switch) + (if rs.last() == (GainRead::Dropped {
            near_switch,
        }) {
            1nat
        } else {
            0nat
        })
    }
}

/// How many interior reads of `rs` carry a live label but no interior parent reading.
pub open spec fn unparented_count(rs: Seq<GainRead>) -> nat
    decreases rs.len(),
{
    if rs.len() == 0 {
        0
    } else {
        unparented_count(rs.drop_last()) + (match rs.last() {
            GainRead::Interior { authority, parent, .. } => if is_live(authority) && !parent {
                1nat
            } else {
                0nat
            },
            GainRead::Dropped { .. } => 0nat,
        })
    }
}

proof fn lemma_read_counts_bounded(rs: Seq<GainRead>)
    ensures
        dropped_count(rs, true) <= rs.len(),
        dropped_count(rs, false) <= rs.len(),
        unparented_count(rs) <= rs.len(),
    decreases rs.len(),
{
    if rs.len() > 0 {
        lemma_read_counts_bounded(rs.drop_last());
    }
}

/// One arm of the cell ledger: its cells, and how many of its reads were passed over and why.
#[derive(Clone, Debug)]
pub struct ArmTally {
    /// The cells the arm's interior reads were filed under.
    pub cells: Vec<ZeroCell>,
    /// Reads dropped near a leg's switch.
    pub skipped_switch: usize,
    /// Reads dropped off a loop's regime.
    pub skipped_regime: usize,
    /// Live interior reads whose parent reading was not interior.
    pub skipped_parent: usize,
}

/// Tally one arm: the dropped reads counted by why they were dropped, the live reads with no
/// parent reading counted, and every interior read filed in the ledger.
pub fn cells_arm(reads: &Vec<GainRead>, inc: bool) -> (t: ArmTally)
    ensures
        is_ledger(read_samples(reads@, inc), t.cells@),
        cells_total(t.cells@) == live_count(read_samples(reads@, inc)),
        t.skipped_switch == dropped_count(reads@, true),
        t.skipped_regime == dropped_count(reads@, false),
        t.skipped_parent == unparented_count(reads@),
{
    let mut samples: Vec<CellSample> = Vec::new();
    let mut sk_switch: usize = 0;
    let mut sk_regime: usize = 0;
    let mut sk_parent: usize = 0;
    let mut i: usize = 0;
    while i < reads.len()
        invariant
            i <= reads.len(),
            samples@ == read_samples(reads@.take(i as int), inc),
            sk_switch == dropped_count(reads@.take(i as int), true),
            sk_regime == dropped_count(reads@.take(i as int), false),
            sk_parent == unparented_count(reads@.take(i as int)),
        decreases reads.len() - i,
    {
        let ghost t0 = reads@.take(i as int);
        let ghost t1 = reads@.take(i + 1);
        proof {
            assert(t1.drop_last() =~= t0);
            assert(t1.last() == reads@[i as int]);
            lemma_read_counts_bounded(t0);
        }
        match reads[i] {
            GainRead::Dropped { near_switch } => {
                if near_switch {
                    sk_switch = sk_switch + 1;
                } else {
                    sk_regime = sk_regime + 1;
                }
            },
            GainRead::Interior { authority, zeros, parent } => {
                if live_authority(authority) && !parent {
                    sk_parent = sk_parent + 1;
                }
                samples.push(CellSample { inc, authority, zeros, parent });
            },
        }
        i = i + 1;
    }
    assert(reads@.take(reads.len() as int) =~= reads@);
    let cells = cell_ledger(&samples);
    ArmTally { cells, skipped_switch: sk_switch, skipped_regime: sk_regime, skipped_parent: sk_parent }
}

/// The rank law as the ledger reads it: every cell saw exactly one zero count.
pub fn zero_law_holds(cells: &Vec<ZeroCell>) -> (holds: bool)
    ensures
        holds == forall|j: int| 0 <= j < cells.len() ==> #[trigger] cells@[j].zeros@.len() == 1,
{
    let mut j: usize = 0;
    while j < cells.len()
        invariant
            j <= cells.len(),
            forall|i: int| 0 <= i < j ==> #[trigger] cells@[i].zeros@.len() == 1,
        decreases cells.len() - j,
    {
        if cells[j].zeros.len() != 1 {
            return false;
        }
        j = j + 1;
    }
    true
}

/// The order the authority labels are listed in: dormant, tie, fuel leg, governor.
pub open spec fn authority_rank(a: Authority) -> nat {
    match a {
        Authority::Dormant => 0,
        Authority::Tie => 1,
        Authority::Fuel => 2,
        Authority::Gov => 3,
    }
}

/// Some sample of `ss` carries label `a`.
pub open spec fn has_label(ss: Seq<(Authority, usize)>, a: Authority) -> bool {
    exists|i: int| 0 <= i < ss.len() && (#[trigger] ss[i]).0 == a
}

/// Some sample of `ss` carries label `a` and has `z` zero roots.
pub open spec fn has_label_zero(ss: Seq<(Authority, usize)>, a: Authority, z: usize) -> bool {
    exists|i: int| 0 <= i < ss.len() && #[trigger] ss[i] == (a, z)
}

/// The distinct zero counts of one label.
#[derive(Clone, Debug)]
pub struct LabelZeros {
    /// The label.
    pub authority: Authority,
    /// The distinct zero counts its samples had, in increasing order.
    pub zeros: Vec<usize>,
}

fn zeros_of_label(samples: &Vec<(Authority, usize)>, a: Authority) -> (z: Vec<usize>)
    ensures
        strictly_increasing(z@),
        forall|x: usize| z@.contains(x) <==> has_label_zero(samples@, a, x),
        z@.len() > 0 <==> has_label(samples@, a),
{
    let mut z: Vec<usize> = Vec::new();
    let mut i: usize = 0;
    while i < samples.len()
        invariant
            i <= samples.len(),
            strictly_increasing(z@),
            forall|x: usize| z@.contains(x) <==> has_label_zero(samples@.take(i as int), a, x),
            z@.len() > 0 <==> has_label(samples@.take(i as int), a),
        decreases samples.len() - i,
    {
        let (b, n) = samples[i];
        let ghost t0 = samples@.take(i as int);
        let ghost t1 = samples@.take(i + 1);
        proof {
            assert(t1 =~= t0.push((b, n)));
        }
        if b == a {
            insert_distinct(&mut z, n);
            proof {
                assert(z@.contains(n));
                assert(t1[i as int] == (a, n));
            }
        }
        proof {
            assert forall|x: usize| z@.contains(x) <==> has_label_zero(t1, a, x) by {
                if has_label_zero(t0, a, x) {
                    let w: int = choose|w: int| 0 <= w < t0.len() && #[trigger] t0[w] == (a, x);
                    assert(t1[w] == t0[w]);
                }
                if has_label_zero(t1, a, x) {
                    let w: int = choose|w: int| 0 <= w < t1.len() && #[trigger] t1[w] == (a, x);
                    if w < i {
                        assert(t0[w] == t1[w]);
                    }
                }
            }
            if has_label(t0, a) {
                let w: int = choose|w: int| 0 <= w < t0.len() && (#[trigger] t0[w]).0 == a;
                assert(t1[w] == t0[w]);
            }
            if has_label(t1, a) {
                let w: int = choose|w: int| 0 <= w < t1.len() && (#[trigger] t1[w]).0 == a;
                if w < i {
                    assert(t0[w] == t1[w]);
                } else {
                    assert(b == a);
                }
            }
            if z@.len() > 0 && !has_label(t0, a) {
                assert(b == a);
                assert(t1[i as int].0 == a);
            }
        }
        i = i + 1;
    }
    assert(samples@.take(samples.len() as int) =~= samples@);
    z
}

/// The table of zero counts by label: one row per label that occurs, in label order, each with
/// the distinct zero counts its samples had.
pub fn zeros_by_authority(samples: &Vec<(Authority, usize)>) -> (t: Vec<LabelZeros>)
    ensures
        forall|j1: int, j2: int|
            0 <= j1 < j2 < t.len() ==> authority_rank((#[trigger] t@[j1]).authority)
                < authority_rank((#[trigger] t@[j2]).authority),
        forall|j: int| 0 <= j < t.len() ==> strictly_increasing((#[trigger] t@[j]).zeros@),
        forall|j: int, x: usize|
            0 <= j < t.len() ==> (#[trigger] t@[j].zeros@.contains(x) <==> has_label_zero(
                samples@,
                t@[j].authority,
                x,
            )),
        forall|a: Authority|
            has_label(samples@, a) <==> exists|j: int|
                0 <= j < t.len() && (#[trigger] t@[j]).authority == a,
{
    let mut t: Vec<LabelZeros> = Vec::new();
    let ghost mut at: Map<Authority, int> = Map::empty();
    let zd = zeros_of_label(samples, Authority::Dormant);
    if zd.len() > 0 {
        proof {
            at = at.insert(Authority::Dormant, t.len() as int);
        }
        t.push(LabelZeros { authority: Authority::Dormant, zeros: zd });
    }
    let zt = zeros_of_label(samples, Authority::Tie);
    if zt.len() > 0 {
        proof {
            at = at.insert(Authority::Tie, t.len() as int);
        }
        t.push(LabelZeros { authority: Authority::Tie, zeros: zt });
    }
    let zf = zeros_of_label(samples, Authority::Fuel);
    if zf.len() > 0 {
        proof {
            at = at.insert(Authority::Fuel, t.len() as int);
        }
        t.push(LabelZeros { authority: Authority::Fuel, zeros: zf });
    }
    let zg = zeros_of_label(samples, Authority::Gov);
    if zg.len() > 0 {
        proof {
            at = at.insert(Authority::Gov, t.len() as int);
        }
        t.push(LabelZeros { authority: Authority::Gov, zeros: zg });
    }
    proof {
        assert forall|a: Authority| has_label(samples@, a) implies exists|j: int|
            0 <= j < t.len() && (#[trigger] t@[j]).authority == a by {
            assert(at.dom().contains(a));
            assert(t@[at[a]].authority == a);
        }
    }
    t
}

} // verus!
