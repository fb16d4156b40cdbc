//! Two loops on one actuator: the composition-law scope, the labels a marched point carries and
//! the readers that count and locate them, the parent rung each authority cell IS, the sixteen
//! cell names of the ledger, and the entry test and initial-condition order of the six-state
//! march.
use vstd::prelude::*;
use crate::knobs::{Knobs, Rung, ShareLaw};
use crate::labels::{Authority, Regime};
use crate::reference_split::{
    ArmingRefusal, RigStator, SplitArming, arming_admitted, is_first_refusal,
    split_family_sibling,
};

verus! {

/// `knobs` with the composition law set to `law` and nothing else moved.
pub open spec fn with_share(knobs: Knobs, law: ShareLaw) -> Knobs {
    Knobs { share_law: law, ..knobs }
}

/// A composition-law scope: the law set for as long as the scope is open, and restored to the
/// value it displaced when it closes. The field is written directly: the setter has one definer.
#[must_use]
#[derive(Debug)]
pub struct ShareScope {
    prev: ShareLaw,
}

impl ShareScope {
    /// What this scope displaced, as a spec value.
    pub closed spec fn prev(&self) -> ShareLaw {
        self.prev
    }

    /// Open a scope: set the composition law.
    pub fn set(core: &mut Knobs, law: ShareLaw) -> (scope: ShareScope)
        ensures
            scope.prev() == old(core).share_law,
            *final(core) == with_share(*old(core), law),
    {
        let prev = core.share_law;
        core.share_law = law;
        ShareScope { prev }
    }

    /// What this scope displaced.
    pub fn displaced(&self) -> (prev: ShareLaw)
        ensures
            prev == self.prev(),
    {
        self.prev
    }

    /// Close the scope: restore the displaced law.
    pub fn close(self, core: &mut Knobs)
        ensures
            *final(core) == with_share(*old(core), self.prev()),
    {
        core.share_law = self.prev;
    }
}

/// Opening a composition-law scope and closing it leaves the machine exactly as it was.
pub proof fn share_scope_round_trip(k: Knobs, law: ShareLaw)
    ensures
        with_share(with_share(k, law), k.share_law) == k,
{
}

/// What the readers read of one marched point: which march produced it, and the labels it
/// carries.
#[derive(Clone, Copy, Debug, PartialEq, Eq, Structural)]
pub enum PointTag {
    /// A point of the six-state shared-actuator march.
    Shared {
        /// Which fuel-side leg held the actuator.
        authority: Authority,
        /// The stator's regime; `None` on a stator-less machine.
        v_regime: Option<Regime>,
    },
    /// A point of the five-state three-loop march.
    Triple {
        /// The stator's regime.
        regime: Regime,
    },
    /// A point of any other march: it carries neither label.
    Other,
}

/// A point's authority label, or `None` where its march carries none.
pub open spec fn spec_authority_of(p: PointTag) -> Option<Authority> {
    match p {
        PointTag::Shared { authority, .. } => Some(authority),
        _ => None,
    }
}

/// A point's authority label, or `None` where the trajectory carries none — the ANSWER for a
/// point of an inherited march, not a fallback.
pub fn authority_of(p: &PointTag) -> (a: Option<Authority>)
    ensures
        a == spec_authority_of(*p),
{
    match p {
        PointTag::Shared { authority, .. } => Some(*authority),
        _ => None,
    }
}

/// The stator regime a point carries, `None` where it has no stator or no such label.
pub fn v_regime_of(p: &PointTag) -> (r: Option<Regime>)
    ensures
        r == (match *p {
            PointTag::Shared { v_regime, .. } => v_regime,
            PointTag::Triple { regime } => Some(regime),
            PointTag::Other => None::<Regime>,
        }),
{
    match p {
        PointTag::Shared { v_regime, .. } => *v_regime,
        PointTag::Triple { regime } => Some(*regime),
        PointTag::Other => None,
    }
}

} // verus!

verus! {

/// How many points of `s` carry authority label `a`.
pub open spec fn auth_count(s: Seq<PointTag>, a: Authority) -> nat
    decreases s.len(),
{
    if s.len() == 0 {
        0
    } else {
        auth_count(s.drop_last(), a) + (if spec_authority_of(s.last()) == Some(a) {
            1nat
        } else {
            0nat
        })
    }
}

/// Every point of `s` carries an authority label.
pub open spec fn all_labelled(s: Seq<PointTag>) -> bool {
    forall|i: int| 0 <= i < s.len() ==> (#[trigger] spec_authority_of(s[i])) is Some
}

/// The authority census of a march: how many points each label holds.
#[derive(Clone, Copy, Debug, PartialEq, Eq)]
pub struct AuthorityCensus {
    pub dormant: usize,
    pub tie: usize,
    pub fuel: usize,
    pub gov: usize,
}

/// The count the census holds for one label.
pub open spec fn census_count(c: AuthorityCensus, a: Authority) -> nat {
    match a {
        Authority::Dormant => c.dormant as nat,
        Authority::Tie => c.tie as nat,
        Authority::Fuel => c.fuel as nat,
        Authority::Gov => c.gov as nat,
    }
}

proof fn lemma_take_step(s: Seq<PointTag>, i: int)
    requires
        0 <= i < s.len(),
    ensures
        s.take(i + 1).drop_last() == s.take(i),
        s.take(i + 1).last() == s[i],
        s.take(i + 1).len() == i + 1,
{
    assert(s.take(i + 1).drop_last() =~= s.take(i));
}

proof fn lemma_auth_count_bounded(s: Seq<PointTag>, a: Authority)
    ensures
        auth_count(s, a) <= s.len(),
    decreases s.len(),
{
    if s.len() > 0 {
        lemma_auth_count_bounded(s.drop_last(), a);
    }
}

/// The census of the shared-actuator march: every point counted under the label it carries.
///
/// Every point of that march carries a label, and a point without one means the march left
/// through an inherited integrator and the census would be counting a different plant, so such a
/// trajectory is outside this function's domain.
pub fn authority_census(points: &Vec<PointTag>) -> (c: AuthorityCensus)
    requires
        all_labelled(points@),
    ensures
        forall|a: Authority| #[trigger] census_count(c, a) == auth_count(points@, a),
{
    let mut c = AuthorityCensus { dormant: 0, tie: 0, fuel: 0, gov: 0 };
    let mut i: usize = 0;
    while i < points.len()
        invariant
            i <= points.len(),
            all_labelled(points@),
            forall|a: Authority| #[trigger] census_count(c, a) == auth_count(points@.take(i as int), a),
        decreases points.len() - i,
    {
        proof {
            lemma_take_step(points@, i as int);
            lemma_auth_count_bounded(points@.take(i as int), Authority::Dormant);
            lemma_auth_count_bounded(points@.take(i as int), Authority::Tie);
            lemma_auth_count_bounded(points@.take(i as int), Authority::Fuel);
            lemma_auth_count_bounded(points@.take(i as int), Authority::Gov);
            assert(census_count(c, Authority::Dormant) == auth_count(points@.take(i as int), Authority::Dormant));
            assert(census_count(c, Authority::Tie) == auth_count(points@.take(i as int), Authority::Tie));
            assert(census_count(c, Authority::Fuel) == auth_count(points@.take(i as int), Authority::Fuel));
            assert(census_count(c, Authority::Gov) == auth_count(points@.take(i as int), Authority::Gov));
            assert(spec_authority_of(points@[i as int]) is Some);
        }
        match authority_of(&points[i]) {
            Some(Authority::Dormant) => c.dormant = c.dormant + 1,
            Some(Authority::Tie) => c.tie = c.tie + 1,
            Some(Authority::Fuel) => c.fuel = c.fuel + 1,
            Some(Authority::Gov) => c.gov = c.gov + 1,
            None => {},
        }
        i = i + 1;
    }
    assert(points@.take(points.len() as int) =~= points@);
    c
}

/// On a march whose every point is labelled, the four census cells partition it: they sum to the
/// number of points.
pub proof fn census_partitions_the_march(s: Seq<PointTag>)
    requires
        all_labelled(s),
    ensures
        auth_count(s, Authority::Dormant) + auth_count(s, Authority::Tie) + auth_count(
            s,
            Authority::Fuel,
        ) + auth_count(s, Authority::Gov) == s.len(),
    decreases s.len(),
{
    if s.len() > 0 {
        let t = s.drop_last();
        assert forall|i: int| 0 <= i < t.len() implies (#[trigger] spec_authority_of(t[i])) is Some by {
            assert(t[i] == s[i]);
        }
        census_partitions_the_march(t);
        assert(spec_authority_of(s[s.len() - 1]) is Some);
    }
}

} // verus!

verus! {

/// Point `i` of `s` is a hand-over: its authority label differs from the previous point's, and
/// neither is `Dormant`. A point with no label counts as a non-dormant label here.
pub open spec fn is_handover(s: Seq<PointTag>, i: int) -> bool {
    &&& 1 <= i < s.len()
    &&& spec_authority_of(s[i]) != spec_authority_of(s[i - 1])
    &&& spec_authority_of(s[i]) != Some(Authority::Dormant)
    &&& spec_authority_of(s[i - 1]) != Some(Authority::Dormant)
}

/// Point `i` of `s` is a step from the fuel leg's authority to the governor's.
pub open spec fn is_fuel_to_gov(s: Seq<PointTag>, i: int) -> bool {
    &&& 1 <= i < s.len()
    &&& spec_authority_of(s[i]) == Some(Authority::Gov)
    &&& spec_authority_of(s[i - 1]) == Some(Authority::Fuel)
}

fn same_label(a: Option<Authority>, b: Option<Authority>) -> (r: bool)
    ensures
        r == (a == b),
{
    match (a, b) {
        (None, None) => true,
        (Some(x), Some(y)) => x == y,
        _ => false,
    }
}

fn is_dormant_label(a: Option<Authority>) -> (r: bool)
    ensures
        r == (a == Some(Authority::Dormant)),
{
    match a {
        Some(Authority::Dormant) => true,
        _ => false,
    }
}

/// Every index at which authority changes hands between two non-dormant labels, in march order.
pub fn handover_indices(points: &Vec<PointTag>) -> (h: Vec<usize>)
    ensures
        forall|k: int| 0 <= k < h.len() ==> is_handover(points@, #[trigger] h@[k] as int),
        forall|k1: int, k2: int| 0 <= k1 < k2 < h.len() ==> h@[k1] < h@[k2],
        forall|i: int| #[trigger] is_handover(points@, i) ==> h@.contains(i as usize),
{
    let mut h: Vec<usize> = Vec::new();
    let mut i: usize = 1;
    while i < points.len()
        invariant
            1 <= i,
            i <= points.len() || points.len() == 0,
            forall|k: int| 0 <= k < h.len() ==> is_handover(points@, #[trigger] h@[k] as int),
            forall|k: int| 0 <= k < h.len() ==> #[trigger] h@[k] < i,
            forall|k1: int, k2: int| 0 <= k1 < k2 < h.len() ==> h@[k1] < h@[k2],
            forall|j: int| 1 <= j < i && #[trigger] is_handover(points@, j) ==> h@.contains(j as usize),
        decreases points.len() - i,
    {
        let ghost h0 = h@;
        let a = authority_of(&points[i]);
        let b = authority_of(&points[i - 1]);
        if !same_label(a, b) && !is_dormant_label(a) && !is_dormant_label(b) {
            h.push(i);
            proof {
                assert(h@[h.len() - 1] == i);
            }
        }
        proof {
            assert forall|j: int| 1 <= j < i + 1 && #[trigger] is_handover(points@, j) implies h@.contains(
                j as usize,
            ) by {
                if j == i {
                    assert(h@[h.len() - 1] == i);
                } else {
                    let w: int = choose|w: int| 0 <= w < h0.len() && h0[w] == j as usize;
                    assert(h@[w] == j as usize);
                }
            }
        }
        i = i + 1;
    }
    h
}

/// The first step from the fuel leg's authority to the governor's, or `None` where the label
/// never makes that transition.
pub fn first_fuel_to_gov(points: &Vec<PointTag>) -> (r: Option<usize>)
    ensures
        r matches Some(i) ==> is_fuel_to_gov(points@, i as int) && forall|j: int|
            1 <= j < i ==> !is_fuel_to_gov(points@, j),
        r is None ==> forall|j: int| !is_fuel_to_gov(points@, j),
{
    let mut i: usize = 1;
    while i < points.len()
        invariant
            1 <= i,
            forall|j: int| 1 <= j < i ==> !is_fuel_to_gov(points@, j),
        decreases points.len() - i,
    {
        match (authority_of(&points[i]), authority_of(&points[i - 1])) {
            (Some(Authority::Gov), Some(Authority::Fuel)) => return Some(i),
            _ => {},
        }
        i = i + 1;
    }
    None
}

/// A step from the fuel leg to the governor is a hand-over: the ledger's hand-over point is one
/// of the census reader's hand-overs.
pub proof fn fuel_to_gov_is_a_handover(s: Seq<PointTag>, i: int)
    requires
        is_fuel_to_gov(s, i),
    ensures
        is_handover(s, i),
{
}

} // verus!

verus! {

/// The rung a live authority cell of the shared-actuator plant IS.
#[derive(Clone, Copy, Debug, PartialEq, Eq, Structural)]
pub enum ParentRung {
    /// `phi` stator, fuel leg holding: the three-loop rung.
    R68,
    /// Incidence stator, fuel leg holding: the reference split.
    R69,
    /// `phi` stator, governor holding: the cross split.
    R70,
    /// Incidence stator, governor holding: the full split.
    R71,
}

/// The parent rung of the live cell `(inc, auth)`.
pub open spec fn spec_parent_of(inc: bool, auth: Authority) -> ParentRung {
    match (inc, auth) {
        (false, Authority::Fuel) => ParentRung::R68,
        (false, _) => ParentRung::R70,
        (true, Authority::Fuel) => ParentRung::R69,
        (true, _) => ParentRung::R71,
    }
}

/// A live authority: one of the two legs holds the actuator. `Dormant` and `Tie` name no parent.
pub open spec fn is_live(auth: Authority) -> bool {
    auth == Authority::Fuel || auth == Authority::Gov
}

/// Which parent rung a cell IS: chosen by the stator's coordinate and by which leg holds the
/// actuator.
pub fn parent_of(inc: bool, auth: Authority) -> (p: ParentRung)
    requires
        is_live(auth),
    ensures
        p == spec_parent_of(inc, auth),
        (p == ParentRung::R69 || p == ParentRung::R71) == inc,
        (p == ParentRung::R70 || p == ParentRung::R71) == (auth == Authority::Gov),
{
    match (inc, auth) {
        (false, Authority::Fuel) => ParentRung::R68,
        (false, _) => ParentRung::R70,
        (true, Authority::Fuel) => ParentRung::R69,
        (true, _) => ParentRung::R71,
    }
}

/// The number of independent constraints the parent rung's three live loops hold.
pub open spec fn live_constraints(p: ParentRung) -> nat {
    match p {
        ParentRung::R68 => 1,
        ParentRung::R69 => 2,
        ParentRung::R70 => 2,
        ParentRung::R71 => 3,
    }
}

/// The predicted count of zero roots in each live cell — the ledger's table.
pub fn predicted_zeros(inc: bool, auth: Authority) -> (z: usize)
    requires
        is_live(auth),
    ensures
        z == 3 - live_constraints(spec_parent_of(inc, auth)),
        z + (if inc {
            1int
        } else {
            0int
        }) + (if auth == Authority::Gov {
            1int
        } else {
            0int
        }) == 2,
{
    match (inc, auth) {
        (false, Authority::Fuel) => 2,
        (false, _) => 1,
        (true, Authority::Fuel) => 1,
        (true, _) => 0,
    }
}

/// The rank law of the shared actuator: every live cell is its parent rung, whose zero count is
/// `n - m` with three live loops and `m` independent constraints; the count changes at a
/// hand-over between the legs with no state moving.
pub proof fn zeros_are_loops_minus_constraints(inc: bool)
    ensures
        live_constraints(spec_parent_of(inc, Authority::Fuel)) < live_constraints(
            spec_parent_of(inc, Authority::Gov),
        ),
        live_constraints(spec_parent_of(inc, Authority::Gov)) <= 3,
{
}

/// Which of the four loops a ledger cell arms — `(fuel leg, governor, valve, stator)`.
pub type LoopSet = (bool, bool, bool, bool);

/// The cell a bit pattern names: bit 0 the fuel leg, bit 1 the governor, bit 2 the valve, bit 3
/// the stator.
pub open spec fn spec_cell_of_bits(bits: u32) -> LoopSet {
    (bits % 2 == 1, (bits / 2) % 2 == 1, (bits / 4) % 2 == 1, (bits / 8) % 2 == 1)
}

/// The loops the ledger cell with this bit pattern arms.
pub fn cell_of_bits(bits: u32) -> (on: LoopSet)
    requires
        bits < 16,
    ensures
        on == spec_cell_of_bits(bits),
        on.0 == (bits & 1 != 0),
        on.1 == (bits & 2 != 0),
        on.2 == (bits & 4 != 0),
        on.3 == (bits & 8 != 0),
{
    proof {
        lemma_pattern_bits(bits);
    }
    (bits % 2 == 1, (bits / 2) % 2 == 1, (bits / 4) % 2 == 1, (bits / 8) % 2 == 1)
}

proof fn lemma_pattern_bits(b: u32)
    ensures
        (b % 2 == 1) == (b & 1 != 0),
        ((b / 2) % 2 == 1) == (b & 2 != 0),
        ((b / 4) % 2 == 1) == (b & 4 != 0),
        ((b / 8) % 2 == 1) == (b & 8 != 0),
{
    assert((b % 2 == 1) == (b & 1 != 0)) by (bit_vector);
    assert(((b / 2) % 2 == 1) == (b & 2 != 0)) by (bit_vector);
    assert(((b / 4) % 2 == 1) == (b & 4 != 0)) by (bit_vector);
    assert(((b / 8) % 2 == 1) == (b & 8 != 0)) by (bit_vector);
}

/// The ledger's sixteen keys, by bit pattern.
pub open spec fn bill_table(b: u32) -> Seq<char> {
    if b == 0 {
        seq!['b', 'a', 'r', 'e']
    } else if b == 1 {
        seq!['F']
    } else if b == 2 {
        seq!['G']
    } else if b == 3 {
        seq!['F', 'G']
    } else if b == 4 {
        seq!['V']
    } else if b == 5 {
        seq!['F', 'V']
    } else if b == 6 {
        seq!['G', 'V']
    } else if b == 7 {
        seq!['F', 'G', 'V']
    } else if b == 8 {
        seq!['S']
    } else if b == 9 {
        seq!['F', 'S']
    } else if b == 10 {
        seq!['G', 'S']
    } else if b == 11 {
        seq!['F', 'G', 'S']
    } else if b == 12 {
        seq!['V', 'S']
    } else if b == 13 {
        seq!['F', 'V', 'S']
    } else if b == 14 {
        seq!['G', 'V', 'S']
    } else {
        seq!['F', 'G', 'V', 'S']
    }
}

/// Bit `i` of a cell's pattern arms loop `i` in fuel leg, governor, valve, stator order, so the
/// cell a pattern names carries the key the ledger tabulates for it, at every one of the sixteen
/// patterns.
pub proof fn cell_keys_follow_the_pattern_bits(b: u32)
    requires
        b < 16,
    ensures
        spec_cell_of_bits(b) == (b & 1 != 0, b & 2 != 0, b & 4 != 0, b & 8 != 0),
        spec_bill_key(spec_cell_of_bits(b)) == bill_table(b),
{
    lemma_pattern_bits(b);
    let k = spec_bill_key(spec_cell_of_bits(b));
    if b == 0 {
        assert(k =~= bill_table(b));
    } else if b == 1 {
        assert(k =~= bill_table(b));
    } else if b == 2 {
        assert(k =~= bill_table(b));
    } else if b == 3 {
        assert(k =~= bill_table(b));
    } else if b == 4 {
        assert(k =~= bill_table(b));
    } else if b == 5 {
        assert(k =~= bill_table(b));
    } else if b == 6 {
        assert(k =~= bill_table(b));
    } else if b == 7 {
        assert(k =~= bill_table(b));
    } else if b == 8 {
        assert(k =~= bill_table(b));
    } else if b == 9 {
        assert(k =~= bill_table(b));
    } else if b == 10 {
        assert(k =~= bill_table(b));
    } else if b == 11 {
        assert(k =~= bill_table(b));
    } else if b == 12 {
        assert(k =~= bill_table(b));
    } else if b == 13 {
        assert(k =~= bill_table(b));
    } else if b == 14 {
        assert(k =~= bill_table(b));
    } else {
        assert(k =~= bill_table(b));
    }
}

/// `seq![c]` when `b`, else empty.
pub open spec fn letter_if(b: bool, c: char) -> Seq<char> {
    if b {
        seq![c]
    } else {
        Seq::empty()
    }
}

/// A ledger cell's key: the letters of the loops it arms in `F`, `G`, `V`, `S` order, and
/// `"bare"` for the empty set.
pub open spec fn spec_bill_key(on: LoopSet) -> Seq<char> {
    if !on.0 && !on.1 && !on.2 && !on.3 {
        seq!['b', 'a', 'r', 'e']
    } else {
        letter_if(on.0, 'F') + letter_if(on.1, 'G') + letter_if(on.2, 'V') + letter_if(on.3, 'S')
    }
}

/// The key of a ledger cell.
pub fn bill_key(on: LoopSet) -> (key: Vec<char>)
    ensures
        key@ == spec_bill_key(on),
{
    let mut key: Vec<char> = Vec::new();
    if !on.0 && !on.1 && !on.2 && !on.3 {
        key.push('b');
        key.push('a');
        key.push('r');
        key.push('e');
        assert(key@ =~= seq!['b', 'a', 'r', 'e']);
        return key;
    }
    if on.0 {
        key.push('F');
    }
    assert(key@ =~= letter_if(on.0, 'F'));
    if on.1 {
        key.push('G');
    }
    assert(key@ =~= letter_if(on.0, 'F') + letter_if(on.1, 'G'));
    if on.2 {
        key.push('V');
    }
    assert(key@ =~= letter_if(on.0, 'F') + letter_if(on.1, 'G') + letter_if(on.2, 'V'));
    if on.3 {
        key.push('S');
    }
    assert(key@ =~= letter_if(on.0, 'F') + letter_if(on.1, 'G') + letter_if(on.2, 'V')
        + letter_if(on.3, 'S'));
    key
}

proof fn lemma_key_letters(on: LoopSet)
    ensures
        spec_bill_key(on).contains('F') == on.0,
        spec_bill_key(on).contains('G') == on.1,
        spec_bill_key(on).contains('V') == on.2,
        spec_bill_key(on).contains('S') == on.3,
{
    let k = spec_bill_key(on);
    if !on.0 && !on.1 && !on.2 && !on.3 {
        assert(!k.contains('F')) by {
            assert(forall|i: int| 0 <= i < 4 ==> k[i] != 'F');
        }
        assert(!k.contains('G')) by {
            assert(forall|i: int| 0 <= i < 4 ==> k[i] != 'G');
        }
        assert(!k.contains('V')) by {
            assert(forall|i: int| 0 <= i < 4 ==> k[i] != 'V');
        }
        assert(!k.contains('S')) by {
            assert(forall|i: int| 0 <= i < 4 ==> k[i] != 'S');
        }
    } else {
        let a = letter_if(on.0, 'F');
        let b = letter_if(on.1, 'G');
        let c = letter_if(on.2, 'V');
        let d = letter_if(on.3, 'S');
        assert(k == a + b + c + d);
        assert forall|x: char| k.contains(x) <==> (a.contains(x) || b.contains(x) || c.contains(
            x,
        ) || d.contains(x)) by {
            vstd::seq_lib::lemma_seq_concat_contains_all_elements(a, b, x);
            vstd::seq_lib::lemma_seq_concat_contains_all_elements(a + b, c, x);
            vstd::seq_lib::lemma_seq_concat_contains_all_elements(a + b + c, d, x);
        }
        if on.0 {
            assert(a[0] == 'F');
        }
        if on.1 {
            assert(b[0] == 'G');
        }
        if on.2 {
            assert(c[0] == 'V');
        }
        if on.3 {
            assert(d[0] == 'S');
        }
    }
}

/// The sixteen ledger keys are distinct: no two loop sets share a key, so every cell is found
/// by its name.
pub proof fn bill_keys_are_distinct(a: LoopSet, b: LoopSet)
    requires
        spec_bill_key(a) == spec_bill_key(b),
    ensures
        a == b,
{
    lemma_key_letters(a);
    lemma_key_letters(b);
}

/// A loop of the ledger.
#[derive(Clone, Copy, Debug, PartialEq, Eq, Structural)]
pub enum BillLeg {
    /// The fuel leg.
    Fuel,
    /// The governor.
    Gov,
    /// The valve.
    Valve,
    /// The stator.
    Stator,
}

/// The currency a loop's credit is paid in.
#[derive(Clone, Copy, Debug, PartialEq, Eq, Structural)]
pub enum Currency {
    /// The `phi` wall's violation integral.
    Phi,
    /// The turbine-temperature exceedance integral.
    Tt4,
    /// The incidence wall's violation integral.
    Incidence,
}

/// A loop's own currency, as a spec value: the governor defends the turbine temperature; the
/// fuel leg and the valve the `phi` wall; the stator whichever wall its coordinate watches.
pub open spec fn spec_own_currency(leg: BillLeg, inc: bool) -> Currency {
    match leg {
        BillLeg::Fuel => Currency::Phi,
        BillLeg::Gov => Currency::Tt4,
        BillLeg::Valve => Currency::Phi,
        BillLeg::Stator => if inc {
            Currency::Incidence
        } else {
            Currency::Phi
        },
    }
}

/// A loop's own currency: the only one that depends on the arm is the stator's, because a `phi`
/// stator and an incidence stator do not defend the same wall.
pub fn own_currency(leg: BillLeg, inc: bool) -> (c: Currency)
    ensures
        c == spec_own_currency(leg, inc),
        (c == Currency::Tt4) == (leg == BillLeg::Gov),
        (c == Currency::Incidence) == (leg == BillLeg::Stator && inc),
{
    match leg {
        BillLeg::Fuel => Currency::Phi,
        BillLeg::Gov => Currency::Tt4,
        BillLeg::Valve => Currency::Phi,
        BillLeg::Stator => if inc {
            Currency::Incidence
        } else {
            Currency::Phi
        },
    }
}

/// The cell that arms `leg` alone.
pub open spec fn spec_only(leg: BillLeg) -> LoopSet {
    (leg == BillLeg::Fuel, leg == BillLeg::Gov, leg == BillLeg::Valve, leg == BillLeg::Stator)
}

/// The cell that arms every loop but `leg`.
pub open spec fn spec_all_but(leg: BillLeg) -> LoopSet {
    (leg != BillLeg::Fuel, leg != BillLeg::Gov, leg != BillLeg::Valve, leg != BillLeg::Stator)
}

/// The cell a loop's solo credit is read off: that loop alone.
pub fn only(leg: BillLeg) -> (on: LoopSet)
    ensures
        on == spec_only(leg),
{
    (
        leg == BillLeg::Fuel,
        leg == BillLeg::Gov,
        leg == BillLeg::Valve,
        leg == BillLeg::Stator,
    )
}

/// The cell a loop's marginal credit is read off: every loop but that one.
pub fn all_but(leg: BillLeg) -> (on: LoopSet)
    ensures
        on == spec_all_but(leg),
{
    (
        leg != BillLeg::Fuel,
        leg != BillLeg::Gov,
        leg != BillLeg::Valve,
        leg != BillLeg::Stator,
    )
}

/// The solo and marginal cells of a loop are complements, and the four marginal cells are four
/// different ledger cells, none of them the bare or the full one: each marginal credit is read
/// off its own cell, found by its own key.
pub proof fn marginal_cells_are_distinct(a: BillLeg, b: BillLeg)
    ensures
        spec_only(a).0 != spec_all_but(a).0 && spec_only(a).1 != spec_all_but(a).1
            && spec_only(a).2 != spec_all_but(a).2 && spec_only(a).3 != spec_all_but(a).3,
        a != b ==> spec_bill_key(spec_all_but(a)) != spec_bill_key(spec_all_but(b)),
        spec_bill_key(spec_all_but(a)) != spec_bill_key((true, true, true, true)),
        spec_bill_key(spec_all_but(a)) != spec_bill_key((false, false, false, false)),
{
    if a != b && spec_bill_key(spec_all_but(a)) == spec_bill_key(spec_all_but(b)) {
        bill_keys_are_distinct(spec_all_but(a), spec_all_but(b));
    }
    if spec_bill_key(spec_all_but(a)) == spec_bill_key((true, true, true, true)) {
        bill_keys_are_distinct(spec_all_but(a), (true, true, true, true));
    }
    if spec_bill_key(spec_all_but(a)) == spec_bill_key((false, false, false, false)) {
        bill_keys_are_distinct(spec_all_but(a), (false, false, false, false));
    }
}

} // verus!

verus! {

/// What the six-state integrator reads of its limiters, as presence flags.
#[derive(Clone, Copy, Debug, PartialEq, Eq)]
pub struct FuelLegArming {
    /// A fuel-leg lag was passed to the march.
    pub lag_arg: bool,
    /// The machine carries a fuel-leg lag of its own.
    pub lag_core: bool,
    /// A governor clock was passed to the march.
    pub tau_gov_arg: bool,
    /// The machine carries a governor clock of its own.
    pub tau_gov_core: bool,
    /// An accel schedule is armed.
    pub accel: bool,
    /// A fuel-leg floor is armed.
    pub floor: bool,
    /// A governor set point is given.
    pub tt4_max: bool,
    /// A forced release edge is given.
    pub s_off: bool,
    /// A forced release clock is given.
    pub tau_rel: bool,
    /// The valve is floored.
    pub valve_floor: bool,
    /// The floored valve carries a time constant.
    pub valve_lagged: bool,
}

/// The six-state integrator's refusals, in the order it runs them.
#[derive(Clone, Copy, Debug, PartialEq, Eq, Structural)]
pub enum Refusal72 {
    /// A governor clock without a set point.
    GovernorWithoutSetPoint,
    /// Forced release edges beside legs that pin their own.
    ForcedReleaseEdges,
    /// An instantaneous valve beside lagged fuel-side legs.
    InstantaneousValve,
}

/// Where the shared-actuator march goes.
#[derive(Clone, Copy, Debug, PartialEq, Eq, Structural)]
pub enum Route72 {
    /// Through the parent rung's integrator, with the lag and the governor clock resolved from the
    /// argument or else the machine.
    Parent { lag: bool, tau_gov: bool },
    /// Refused.
    Refused(Refusal72),
    /// The six-state march itself.
    Shared,
}

/// The route of the six-state integrator, as a spec value.
pub open spec fn spec_route72(a: FuelLegArming) -> Route72 {
    let lag = a.lag_arg || a.lag_core;
    let tau_gov = a.tau_gov_arg || a.tau_gov_core;
    let has_fuel = lag && (a.accel || a.floor);
    if !tau_gov || !has_fuel {
        Route72::Parent { lag, tau_gov }
    } else if !a.tt4_max {
        Route72::Refused(Refusal72::GovernorWithoutSetPoint)
    } else if a.s_off || a.tau_rel {
        Route72::Refused(Refusal72::ForcedReleaseEdges)
    } else if a.valve_floor && !a.valve_lagged {
        Route72::Refused(Refusal72::InstantaneousValve)
    } else {
        Route72::Shared
    }
}

/// The entry test of the six-state integrator: both fuel-side legs must be present — the
/// governor's clock and a lagged fuel leg with an accel schedule or a floor — or the march leaves
/// through the parent's integrator; then its three refusals.
pub fn r72_route(a: &FuelLegArming) -> (r: Route72)
    ensures
        r == spec_route72(*a),
        r matches Route72::Parent { lag, tau_gov } ==> lag == (a.lag_arg || a.lag_core) && tau_gov
            == (a.tau_gov_arg || a.tau_gov_core),
        (a.lag_arg || a.lag_core) && (a.tau_gov_arg || a.tau_gov_core) && (a.accel || a.floor)
            && a.tt4_max && !a.s_off && !a.tau_rel && (a.valve_floor ==> a.valve_lagged) ==> r
            == Route72::Shared,
{
    let lag = a.lag_arg || a.lag_core;
    let tau_gov = a.tau_gov_arg || a.tau_gov_core;
    let has_fuel = lag && (a.accel || a.floor);
    if !tau_gov || !has_fuel {
        Route72::Parent { lag, tau_gov }
    } else if !a.tt4_max {
        Route72::Refused(Refusal72::GovernorWithoutSetPoint)
    } else if a.s_off || a.tau_rel {
        Route72::Refused(Refusal72::ForcedReleaseEdges)
    } else if a.valve_floor && !a.valve_lagged {
        Route72::Refused(Refusal72::InstantaneousValve)
    } else {
        Route72::Shared
    }
}

/// The entry test resolves each fuel-side leg as argument-or-machine: a lag or a governor clock
/// carried by the machine alone counts exactly as one passed in. With both legs so resolved, an
/// accel schedule or floor, a set point, no forced release edge and any floored valve lagged,
/// the march is the six-state one; a march that leaves through the parent carries the resolved
/// lag and clock, and leaves only when a leg is missing.
pub proof fn entry_resolves_legs_from_argument_or_machine(a: FuelLegArming)
    ensures
        (a.lag_arg || a.lag_core) && (a.tau_gov_arg || a.tau_gov_core) && (a.accel || a.floor)
            && a.tt4_max && !a.s_off && !a.tau_rel && (a.valve_floor ==> a.valve_lagged)
            ==> spec_route72(a) == Route72::Shared,
        spec_route72(a) matches Route72::Parent { lag, tau_gov } ==> lag == (a.lag_arg
            || a.lag_core) && tau_gov == (a.tau_gov_arg || a.tau_gov_core) && !(lag && tau_gov
            && (a.accel || a.floor)),
        spec_route72(FuelLegArming { lag_arg: false, lag_core: true, ..a }) == spec_route72(
            FuelLegArming { lag_arg: true, lag_core: false, ..a },
        ),
        spec_route72(FuelLegArming { tau_gov_arg: false, tau_gov_core: true, ..a })
            == spec_route72(FuelLegArming { tau_gov_arg: true, tau_gov_core: false, ..a }),
{
}

/// The shared-actuator march runs only with both fuel-side legs armed, and only on a governor
/// with a set point, with no forced release edge, and with any floored valve lagged.
pub proof fn shared_march_needs_both_legs(a: FuelLegArming)
    requires
        spec_route72(a) == Route72::Shared,
    ensures
        a.tau_gov_arg || a.tau_gov_core,
        a.lag_arg || a.lag_core,
        a.accel || a.floor,
        a.tt4_max,
        !a.s_off && !a.tau_rel,
        a.valve_floor ==> a.valve_lagged,
{
}

/// The declared order of the four-way joint initial condition: the triple's `g -> q -> v` with
/// the fuel leg appended, as `r q v f`.
pub open spec fn ic_order4_declared() -> Seq<char> {
    seq!['r', 'q', 'v', 'f']
}

/// `order` is a permutation of the four sweep letters `f`, `q`, `r`, `v`.
pub open spec fn is_sweep_order(order: Seq<char>) -> bool {
    &&& order.len() == 4
    &&& order.contains('f')
    &&& order.contains('q')
    &&& order.contains('r')
    &&& order.contains('v')
}

fn has_char(v: &Vec<char>, c: char) -> (r: bool)
    ensures
        r == v@.contains(c),
{
    let mut i: usize = 0;
    while i < v.len()
        invariant
            i <= v.len(),
            forall|j: int| 0 <= j < i ==> v@[j] != c,
        decreases v.len() - i,
    {
        if v[i] == c {
            return true;
        }
        i = i + 1;
    }
    false
}

/// Whether an initial-condition order is admissible: a permutation of `f`, `q`, `r`, `v`.
pub fn is_ic_order(order: &Vec<char>) -> (ok: bool)
    ensures
        ok == is_sweep_order(order@),
{
    order.len() == 4 && has_char(order, 'f') && has_char(order, 'q') && has_char(order, 'r')
        && has_char(order, 'v')
}

/// The declared order is admissible.
pub proof fn declared_ic_order_is_a_sweep_order()
    ensures
        is_sweep_order(ic_order4_declared()),
{
    let o = ic_order4_declared();
    assert(o[3] == 'f');
    assert(o[1] == 'q');
    assert(o[0] == 'r');
    assert(o[2] == 'v');
}

/// One step of the joint initial-condition sweep.
#[derive(Clone, Copy, Debug, PartialEq, Eq, Structural)]
pub enum IcStep {
    /// `f`: the fuel leg's clip.
    FuelClip,
    /// `r`: the governor's clip.
    GovClip,
    /// `q`: the valve position.
    Valve,
    /// `v`: the stator position.
    Stator,
}

/// A letter of the sweep alphabet.
pub open spec fn is_sweep_letter(c: char) -> bool {
    c == 'f' || c == 'q' || c == 'r' || c == 'v'
}

/// The step a sweep letter names, as a spec value.
pub open spec fn spec_ic_step(c: char) -> IcStep {
    if c == 'f' {
        IcStep::FuelClip
    } else if c == 'r' {
        IcStep::GovClip
    } else if c == 'q' {
        IcStep::Valve
    } else {
        IcStep::Stator
    }
}

/// Whether a sweep step moves its state, as a spec value.
pub open spec fn spec_ic_updates(s: IcStep, b0_given: bool, v0_given: bool, has_stator: bool) -> bool {
    match s {
        IcStep::FuelClip => true,
        IcStep::GovClip => true,
        IcStep::Valve => !b0_given,
        IcStep::Stator => !v0_given && has_stator,
    }
}

/// The step a sweep letter names.
pub fn ic_step_of(c: char) -> (s: IcStep)
    requires
        is_sweep_letter(c),
    ensures
        s == spec_ic_step(c),
        c == 'f' ==> s == IcStep::FuelClip,
        c == 'r' ==> s == IcStep::GovClip,
        c == 'q' ==> s == IcStep::Valve,
        c == 'v' ==> s == IcStep::Stator,
{
    if c == 'f' {
        IcStep::FuelClip
    } else if c == 'r' {
        IcStep::GovClip
    } else if c == 'q' {
        IcStep::Valve
    } else {
        IcStep::Stator
    }
}

/// Whether a sweep step moves its state: the two clips always; the valve unless its initial
/// position is given; the stator only on a machine with a stator and no given initial position.
pub fn ic_step_updates(s: IcStep, b0_given: bool, v0_given: bool, has_stator: bool) -> (u: bool)
    ensures
        u == spec_ic_updates(s, b0_given, v0_given, has_stator),
{
    match s {
        IcStep::FuelClip => true,
        IcStep::GovClip => true,
        IcStep::Valve => !b0_given,
        IcStep::Stator => !v0_given && has_stator,
    }
}

/// One sweep of the joint initial condition: a step per letter, in the order's own order, each
/// with whether it moves its state.
pub fn ic_sweep(order: &Vec<char>, b0_given: bool, v0_given: bool, has_stator: bool) -> (plan: Vec<
    (IcStep, bool),
>)
    requires
        forall|i: int| 0 <= i < order.len() ==> is_sweep_letter(#[trigger] order@[i]),
    ensures
        plan.len() == order.len(),
        forall|i: int|
            0 <= i < order.len() ==> #[trigger] plan@[i] == (
                spec_ic_step(order@[i]),
                spec_ic_updates(spec_ic_step(order@[i]), b0_given, v0_given, has_stator),
            ),
{
    let mut plan: Vec<(IcStep, bool)> = Vec::new();
    let mut i: usize = 0;
    while i < order.len()
        invariant
            i <= order.len(),
            forall|k: int| 0 <= k < order.len() ==> is_sweep_letter(#[trigger] order@[k]),
            plan.len() == i,
            forall|k: int|
                0 <= k < i ==> #[trigger] plan@[k] == (
                    spec_ic_step(order@[k]),
                    spec_ic_updates(spec_ic_step(order@[k]), b0_given, v0_given, has_stator),
                ),
        decreases order.len() - i,
    {
        let step = ic_step_of(order[i]);
        let moves = ic_step_updates(step, b0_given, v0_given, has_stator);
        plan.push((step, moves));
        i = i + 1;
    }
    plan
}

/// What the shared rig is asked to arm.
#[derive(Clone, Copy, Debug, PartialEq, Eq)]
pub struct SharedRigFlags {
    /// The stator watches the incidence margin (else `phi`).
    pub inc: bool,
    /// The fuel leg: a surge floor and an asymmetric lag.
    pub fuel: bool,
    /// A lagged, floored valve.
    pub valve: bool,
    /// A floored stator.
    pub stator: bool,
    /// The governor.
    pub gov: bool,
}

/// What the shared rig builds.
#[derive(Clone, Copy, Debug, PartialEq, Eq)]
pub struct SharedRigPlan {
    /// The valve limiter is built.
    pub valve: bool,
    /// The one stator's floor, in the coordinate the arm chooses; never two stators.
    pub stator: RigStator,
    /// The fuel leg's surge floor is built.
    pub surge: bool,
    /// The fuel leg's asymmetric lag is built.
    pub lag: bool,
}

/// The shared rig: the valve and the fuel leg as asked, the one stator in the arm's own
/// coordinate, and the governor's set point written onto the machine built — `None` when the
/// governor is not armed, which is a real assignment, not a skip.
pub fn r72_shared_rig(m: &mut Knobs, arm: &SharedRigFlags, tt4_max: u64) -> (plan: SharedRigPlan)
    ensures
        plan.valve == arm.valve,
        plan.surge == arm.fuel,
        plan.lag == arm.fuel,
        plan.stator == (if !arm.stator {
            RigStator::Unarmed
        } else if arm.inc {
            RigStator::Inc
        } else {
            RigStator::Phi
        }),
        *final(m) == (Knobs {
            gov_max: if arm.gov {
                Some(tt4_max)
            } else {
                None
            },
            ..*old(m)
        }),
{
    m.gov_max = if arm.gov {
        Some(tt4_max)
    } else {
        None
    };
    let stator = if !arm.stator {
        RigStator::Unarmed
    } else if arm.inc {
        RigStator::Inc
    } else {
        RigStator::Phi
    };
    SharedRigPlan { valve: arm.valve, stator, surge: arm.fuel, lag: arm.fuel }
}

/// The shared-actuator rung's sibling constructor: the cascade's guards, and no knob carried.
pub fn r72_at_lever(core: &Knobs, built: Knobs, arm: &SplitArming) -> (m: Result<
    Knobs,
    ArmingRefusal,
>)
    ensures
        m matches Ok(k) ==> arming_admitted(*arm) && k == built,
        m matches Err(g) ==> is_first_refusal(*arm, g) && !arming_admitted(*arm),
        arming_admitted(*arm) ==> m is Ok,
{
    split_family_sibling(Rung::R72, core, built, arm)
}

} // verus!
