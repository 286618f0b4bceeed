//! A Hot-Cold set of checkpoints.
//!
//! A checkpoint is built around some inner data, for which all possible checkpoints can
//! be enumerated in order. A checkpoint is *satisfied* when every checkpoint of the same
//! data up to and including it has been reached.
use crate::set::{HotColdSet, Member, MemberError, TryAsMember};
use std::collections::BTreeSet;
use vstd::laws_cmp::obeys_cmp;
use vstd::laws_eq::obeys_concrete_eq;
use vstd::prelude::*;
use vstd::std_specs::cmp::{OrdSpec, PartialOrdSpec};

verus! {

/// Errors of checkpoint enumeration.
#[derive(Debug, Clone)]
pub enum CheckpointError {
    EnumerateCheckpoints(String),
    GetInnerData(String),
}

/// Whether `a` comes before `b` or equals it, in the order of the checkpoints.
pub open spec fn at_most<T: Ord>(a: T, b: T) -> bool {
    !(a.cmp_spec(&b) is Greater)
}

/// The elements of `all` that come at most as late as `bound`.
pub open spec fn up_to<T: Ord>(all: Set<T>, bound: T) -> Set<T> {
    all.filter(|c: T| at_most(c, bound))
}

/// Whether the order of `T` is a lawful total order whose equality is the identity.
pub open spec fn lawful_order<T: Ord>() -> bool {
    obeys_cmp::<T>() && obeys_concrete_eq::<T>()
}

/// Whether every element of `s` comes at most as late as every later one.
pub open spec fn ascending<T: Ord>(s: Seq<T>) -> bool {
    forall|i: int, j: int| 0 <= i < j < s.len() ==> at_most(s[i], s[j])
}

/// What a lawful order gives: `<=` decides `at_most`, equal checkpoints are identical,
/// `Less` and `Greater` are converse, and `Less` is transitive.
proof fn lemma_lawful_order<T: Ord>()
    requires
        lawful_order::<T>(),
    ensures
        T::obeys_partial_cmp_spec(),
        forall|x: T, y: T| #[trigger] x.partial_cmp_spec(&y) == Some(x.cmp_spec(&y)),
        forall|x: T, y: T| #[trigger] x.cmp_spec(&y) is Equal ==> x == y,
        forall|x: T, y: T| (#[trigger] x.cmp_spec(&y) is Less) <==> (y.cmp_spec(&x) is Greater),
        forall|x: T, y: T, z: T| #[trigger] x.cmp_spec(&y) is Less && #[trigger] y.cmp_spec(&z) is Less ==> x.cmp_spec(&z) is Less,
{
    reveal(vstd::laws_cmp::obeys_cmp_partial_ord);
    reveal(vstd::laws_cmp::obeys_cmp_ord);
    reveal(vstd::laws_cmp::obeys_partial_cmp_spec_properties);
    reveal(vstd::laws_eq::obeys_concrete_eq);
    assert forall|x: T, y: T| #[trigger] x.partial_cmp_spec(&y) == Some(x.cmp_spec(&y)) by {}
    assert forall|x: T, y: T| (#[trigger] x.cmp_spec(&y) is Less) <==> (y.cmp_spec(&x) is Greater) by {
        assert(x.partial_cmp_spec(&y) == Some(x.cmp_spec(&y)));
        assert(y.partial_cmp_spec(&x) == Some(y.cmp_spec(&x)));
    }
    assert forall|x: T, y: T, z: T| #[trigger] x.cmp_spec(&y) is Less && #[trigger] y.cmp_spec(&z) is Less implies x.cmp_spec(&z) is Less by {
        assert(x.partial_cmp_spec(&y) == Some(x.cmp_spec(&y)));
        assert(y.partial_cmp_spec(&z) == Some(y.cmp_spec(&z)));
        assert(x.partial_cmp_spec(&z) == Some(x.cmp_spec(&z)));
    }
    assert forall|x: T, y: T| #[trigger] x.cmp_spec(&y) is Equal implies x == y by {
        assert(x.partial_cmp_spec(&y) == Some(x.cmp_spec(&y)));
    }
}

/// Removes the first element of the set, its minimum, and returns it.
///
/// Calls `BTreeSet::pop_first`, whose documentation says that it removes the first
/// element from the set and returns it, if any, and that the first element is always
/// the minimum element in the set. The contract states that the number of elements drops
/// by one when an element comes out and that nothing comes out of an empty set; and, over
/// the set's view for lawfully ordered elements, which element comes out.
#[verifier::external_body]
fn pop_first<T: Ord>(s: &mut BTreeSet<T>) -> (r: Option<T>)
    ensures
        r is Some ==> old(s).len() > 0 && final(s).len() == old(s).len() - 1,
        r is None ==> old(s).len() == 0 && final(s).len() == 0,
        obeys_cmp::<T>() ==> old(s)@.finite() && final(s)@.finite(),
        obeys_cmp::<T>() ==> match r {
            None => old(s)@.is_empty() && final(s)@ == old(s)@,
            Some(x) => {
                &&& old(s)@.contains(x)
                &&& final(s)@ == old(s)@.remove(x)
                &&& forall|y: T| old(s)@.contains(y) ==> at_most(x, y)
            },
        },
{
    s.pop_first()
}

/// The elements still to be looked at: those left in the set and the one taken out of it.
spec fn pending_of<T>(rest: Set<T>, next: Option<T>) -> Set<T> {
    match next {
        Some(x) => rest.insert(x),
        None => rest,
    }
}

/// The checkpoints of `all` that come at most as late as `bound`, taken in ascending order
/// while they do.
pub fn satisfying_among<T: Ord>(all: BTreeSet<T>, bound: &T) -> (r: BTreeSet<T>)
    ensures
        lawful_order::<T>() ==> r@ == up_to(all@, *bound),
{
    let ghost initial = all@;
    let mut rest = all;
    let mut taken: BTreeSet<T> = BTreeSet::new();
    let mut next = pop_first(&mut rest);
    loop
        invariant
            lawful_order::<T>() ==> rest@.finite(),
            initial == all@,
            lawful_order::<T>() ==> {
                let pending = pending_of(rest@, next);
                &&& pending.subset_of(initial)
                &&& taken@ == up_to(initial, *bound).difference(pending)
                &&& forall|t: T, p: T| taken@.contains(t) && pending.contains(p) ==> at_most(t, p)
                &&& next matches Some(x) ==> !rest@.contains(x) && forall|y: T| rest@.contains(y) ==> at_most(x, y)
                &&& next is None ==> rest@.is_empty()
            },
        decreases rest.len() + (if next is Some { 1int } else { 0int }),
    {
        match next {
            None => {
                proof {
                    if lawful_order::<T>() {
                        assert(taken@ =~= up_to(initial, *bound));
                    }
                }
                return taken;
            },
            Some(x) => {
                proof {
                    if lawful_order::<T>() {
                        lemma_lawful_order::<T>();
                    }
                }
                if x <= *bound {
                    let ghost before = taken@;
                    let ghost rest_before = rest@;
                    taken.insert(x);
                    next = pop_first(&mut rest);
                    proof {
                        if lawful_order::<T>() {
                            let pending = pending_of(rest@, next);
                            assert(pending =~= rest_before);
                            assert(taken@ =~= up_to(initial, *bound).difference(pending));
                        }
                    }
                } else {
                    proof {
                        if lawful_order::<T>() {
                            assert forall|y: T| rest@.contains(y) implies !at_most(y, *bound) by {
                                assert(at_most(x, y));
                                assert(x != y);
                                assert(bound.cmp_spec(&x) is Less);
                                assert(x.cmp_spec(&y) is Less);
                                assert(bound.cmp_spec(&y) is Less);
                            }
                            assert(taken@ =~= up_to(initial, *bound));
                        }
                    }
                    return taken;
                }
            },
        }
    }
}

/// The union of the sets of `sets`.
pub open spec fn union_of<T>(sets: Seq<Set<T>>) -> Set<T> {
    Set::new(|x: T| exists|i: int| 0 <= i < sets.len() && #[trigger] sets[i].contains(x))
}

/// The views of a sequence of sets.
pub open spec fn views_of<T>(sets: Seq<BTreeSet<T>>) -> Seq<Set<T>> {
    sets.map_values(|s: BTreeSet<T>| s@)
}

/// The elements of `s`, in ascending order.
pub fn drain_ascending<T: Ord>(s: BTreeSet<T>) -> (r: Vec<T>)
    ensures
        lawful_order::<T>() ==> {
            &&& r@.to_set() == s@
            &&& r@.no_duplicates()
            &&& ascending(r@)
        },
{
    let ghost initial = s@;
    let mut rest = s;
    let mut out: Vec<T> = Vec::new();
    let mut next = pop_first(&mut rest);
    loop
        invariant
            lawful_order::<T>() ==> rest@.finite(),
            initial == s@,
            lawful_order::<T>() ==> {
                let pending = pending_of(rest@, next);
                &&& pending.disjoint(out@.to_set())
                &&& out@.to_set().union(pending) == initial
                &&& out@.no_duplicates()
                &&& ascending(out@)
                &&& forall|i: int, p: T| 0 <= i < out@.len() && pending.contains(p) ==> at_most(out@[i], p)
                &&& next matches Some(x) ==> !rest@.contains(x) && forall|y: T| rest@.contains(y) ==> at_most(x, y)
                &&& next is None ==> rest@.is_empty()
            },
        decreases rest.len() + (if next is Some { 1int } else { 0int }),
    {
        match next {
            None => {
                proof {
                    if lawful_order::<T>() {
                        assert(out@.to_set().union(rest@) =~= out@.to_set());
                    }
                }
                return out;
            },
            Some(x) => {
                let ghost out_before = out@;
                let ghost rest_before = rest@;
                out.push(x);
                next = pop_first(&mut rest);
                proof {
                    if lawful_order::<T>() {
                        let pending = pending_of(rest@, next);
                        assert(pending =~= rest_before);
                        assert(out@ == out_before.push(x));
                        assert(out_before.to_set().insert(x) =~= out@.to_set()) by {
                            assert forall|y: T| out@.to_set().contains(y) implies out_before.to_set().insert(x).contains(y) by {
                                let k = choose|k: int| 0 <= k < out@.len() && out@[k] == y;
                                if k < out_before.len() {
                                    assert(out_before[k] == y);
                                }
                            }
                            assert forall|y: T| out_before.to_set().insert(x).contains(y) implies out@.to_set().contains(y) by {
                                if y == x {
                                    assert(out@[out_before.len() as int] == x);
                                } else {
                                    let k = choose|k: int| 0 <= k < out_before.len() && out_before[k] == y;
                                    assert(out@[k] == y);
                                }
                            }
                        }
                        assert(out@.to_set().union(pending) =~= initial);
                        assert(pending.disjoint(out@.to_set()));
                        assert forall|i: int, j: int| 0 <= i < j < out@.len() implies out@[i] != out@[j] by {
                            if j == out_before.len() {
                                assert(out_before.to_set().contains(out_before[i]));
                            }
                        }
                        assert(out@.no_duplicates());
                    }
                }
            },
        }
    }
}

/// Moves every element of `s` into `into`.
fn merge_into<T: Ord>(into: &mut BTreeSet<T>, s: BTreeSet<T>)
    ensures
        lawful_order::<T>() ==> final(into)@ == old(into)@.union(s@),
{
    let ghost initial = s@;
    let mut rest = s;
    let mut next = pop_first(&mut rest);
    loop
        invariant
            lawful_order::<T>() ==> rest@.finite(),
            initial == s@,
            lawful_order::<T>() ==> into@.union(pending_of(rest@, next)) == old(into)@.union(initial),
            lawful_order::<T>() ==> (next is None ==> rest@.is_empty()),
        decreases rest.len() + (if next is Some { 1int } else { 0int }),
    {
        match next {
            None => {
                proof {
                    if lawful_order::<T>() {
                        assert(into@.union(rest@) =~= into@);
                    }
                }
                return;
            },
            Some(x) => {
                let ghost into_before = into@;
                let ghost rest_before = rest@;
                into.insert(x);
                next = pop_first(&mut rest);
                proof {
                    if lawful_order::<T>() {
                        assert(pending_of(rest@, next) =~= rest_before);
                        assert(into@.union(pending_of(rest@, next)) =~= into_before.union(rest_before.insert(x)));
                    }
                }
            },
        }
    }
}

/// The union of the sets, in ascending order.
pub fn union_ascending<T: Ord>(sets: Vec<BTreeSet<T>>) -> (r: Vec<T>)
    ensures
        lawful_order::<T>() ==> {
            &&& r@.to_set() == union_of(views_of(sets@))
            &&& r@.no_duplicates()
            &&& ascending(r@)
        },
{
    let ghost initial = sets@;
    let mut remaining = sets;
    let mut union: BTreeSet<T> = BTreeSet::new();
    while remaining.len() > 0
        invariant
            initial == sets@,
            remaining@.len() <= initial.len(),
            remaining@ == initial.subrange(0, remaining@.len() as int),
            lawful_order::<T>() ==> union@ == union_of(views_of(initial.subrange(remaining@.len() as int, initial.len() as int))),
        decreases remaining@.len(),
    {
        let ghost before = union@;
        let ghost k = remaining@.len() - 1;
        let ghost remaining_before = remaining@;
        let one = remaining.pop().unwrap();
        let ghost one_view = one@;
        assert(one == initial[k]) by {
            assert(remaining_before[k] == initial[k]);
        }
        assert(remaining@ =~= initial.subrange(0, remaining@.len() as int));
        merge_into(&mut union, one);
        proof {
            if lawful_order::<T>() {
                let done = views_of(initial.subrange(k + 1, initial.len() as int));
                let now = views_of(initial.subrange(k, initial.len() as int));
                assert(now[0] == one_view);
                assert forall|j: int| 0 <= j < done.len() implies now[j + 1] == #[trigger] done[j] by {}
                assert(union@ =~= union_of(now)) by {
                    assert forall|x: T| union@.contains(x) implies union_of(now).contains(x) by {
                        if one_view.contains(x) {
                            assert(now[0].contains(x));
                        } else {
                            let j = choose|j: int| 0 <= j < done.len() && #[trigger] done[j].contains(x);
                            assert(now[j + 1].contains(x));
                        }
                    }
                    assert forall|x: T| union_of(now).contains(x) implies union@.contains(x) by {
                        let j = choose|j: int| 0 <= j < now.len() && #[trigger] now[j].contains(x);
                        if j > 0 {
                            assert(done[j - 1].contains(x));
                        }
                    }
                }
            }
        }
    }
    proof {
        if lawful_order::<T>() {
            assert(initial.subrange(0, initial.len() as int) =~= initial);
        }
    }
    drain_ascending(union)
}

/// Converts each checkpoint into a member, stopping at the first that fails.
fn checkpoints_to_members<T: TryAsMember>(checkpoints: Vec<T>) -> (r: Result<Vec<Member>, CheckpointError>)
    ensures
        r matches Ok(ms) ==> {
            &&& ms@.len() == checkpoints@.len()
            &&& forall|i: int| 0 <= i < checkpoints@.len() ==> call_ensures(T::try_as_member, (&checkpoints@[i],), Ok::<Member, MemberError>(#[trigger] ms@[i]))
        },
        r matches Err(e) ==> {
            &&& e matches CheckpointError::EnumerateCheckpoints(msg) && msg@ == "Failed to convert checkpoint to member"@
            &&& exists|i: int, me: MemberError| 0 <= i < checkpoints@.len() && #[trigger] call_ensures(T::try_as_member, (&checkpoints@[i],), Err::<Member, MemberError>(me))
        },
{
    let mut members: Vec<Member> = Vec::new();
    let mut i: usize = 0;
    while i < checkpoints.len()
        invariant
            0 <= i <= checkpoints@.len(),
            members@.len() == i,
            forall|k: int| 0 <= k < i ==> call_ensures(T::try_as_member, (&checkpoints@[k],), Ok::<Member, MemberError>(#[trigger] members@[k])),
        decreases checkpoints@.len() - i,
    {
        match checkpoints[i].try_as_member() {
            Ok(m) => members.push(m),
            Err(me) => {
                proof { reveal_strlit("Failed to convert checkpoint to member"); }
                return Err(CheckpointError::EnumerateCheckpoints("Failed to convert checkpoint to member".to_owned()));
            },
        }
        i = i + 1;
    }
    Ok(members)
}

/// A checkpoint, built around some inner data for which all checkpoints can be enumerated.
pub trait Checkpoint: Sized + PartialEq + Eq + PartialOrd + Ord + TryAsMember {
    /// The inner data type around which the checkpoint is built.
    type Data;

    /// Enumerates all possible checkpoints for given inner data.
    fn enumerate_checkpoints(inner: &Self::Data) -> Result<BTreeSet<Self>, CheckpointError>;

    /// Enumerates all possible checkpoints for given data as members, in ascending order.
    fn enumerate_checkpoints_as_members(inner: &Self::Data) -> (r: Result<Vec<Member>, CheckpointError>)
        default_ensures
            r matches Ok(ms) ==> exists|all: BTreeSet<Self>, cs: Seq<Self>| {
                &&& #[trigger] call_ensures(Self::enumerate_checkpoints, (inner,), Ok::<BTreeSet<Self>, CheckpointError>(all))
                &&& lawful_order::<Self>() ==> cs.to_set() == all@ && cs.no_duplicates() && ascending(cs)
                &&& ms@.len() == #[trigger] cs.len()
                &&& forall|i: int| 0 <= i < cs.len() ==> call_ensures(Self::try_as_member, (&cs[i],), Ok::<Member, MemberError>(#[trigger] ms@[i]))
            },
            r matches Err(e) ==> {
                ||| call_ensures(Self::enumerate_checkpoints, (inner,), Err::<BTreeSet<Self>, CheckpointError>(e))
                ||| {
                    &&& e matches CheckpointError::EnumerateCheckpoints(msg) && msg@ == "Failed to convert checkpoint to member"@
                    &&& exists|all: BTreeSet<Self>, c: Self, me: MemberError| {
                        &&& #[trigger] call_ensures(Self::enumerate_checkpoints, (inner,), Ok::<BTreeSet<Self>, CheckpointError>(all))
                        &&& (lawful_order::<Self>() ==> all@.contains(c))
                        &&& #[trigger] call_ensures(Self::try_as_member, (&c,), Err::<Member, MemberError>(me))
                    }
                }
            },
    {
        match Self::enumerate_checkpoints(inner) {
            Err(e) => Err(e),
            Ok(all) => {
                let ghost all_ghost = all;
                let cs = drain_ascending(all);
                let r = checkpoints_to_members(cs);
                proof {
                    if r is Err {
                        let (i, me) = choose|i: int, me: MemberError| 0 <= i < cs@.len() && #[trigger] call_ensures(Self::try_as_member, (&cs@[i],), Err::<Member, MemberError>(me));
                        if lawful_order::<Self>() {
                            assert(cs@.to_set().contains(cs@[i]));
                        }
                        assert(call_ensures(Self::enumerate_checkpoints, (inner,), Ok::<BTreeSet<Self>, CheckpointError>(all_ghost)));
                    }
                    if r is Ok {
                        assert(call_ensures(Self::enumerate_checkpoints, (inner,), Ok::<BTreeSet<Self>, CheckpointError>(all_ghost)));
                    }
                }
                r
            },
        }
    }

    /// Tries to return the inner data of the checkpoint.
    fn try_inner(&self) -> Result<&Self::Data, CheckpointError>;

    /// Returns the checkpoints of the same inner data that come before or include this one;
    /// a failure to get the inner data or to enumerate its checkpoints is returned as it is.
    fn satisfying_checkpoints(&self) -> (r: Result<BTreeSet<Self>, CheckpointError>)
        default_ensures
            r matches Ok(s) ==> exists|inner: &Self::Data, all: BTreeSet<Self>| {
                &&& #[trigger] call_ensures(Self::try_inner, (self,), Ok::<&Self::Data, CheckpointError>(inner))
                &&& #[trigger] call_ensures(Self::enumerate_checkpoints, (inner,), Ok::<BTreeSet<Self>, CheckpointError>(all))
                &&& lawful_order::<Self>() ==> s@ == up_to(all@, *self)
            },
            r matches Err(e) ==> {
                ||| call_ensures(Self::try_inner, (self,), Err::<&Self::Data, CheckpointError>(e))
                ||| exists|inner: &Self::Data| {
                    &&& #[trigger] call_ensures(Self::try_inner, (self,), Ok::<&Self::Data, CheckpointError>(inner))
                    &&& call_ensures(Self::enumerate_checkpoints, (inner,), Err::<BTreeSet<Self>, CheckpointError>(e))
                }
            },
    {
        match self.try_inner() {
            Err(e) => Err(e),
            Ok(inner) => match Self::enumerate_checkpoints(inner) {
                Err(e) => Err(e),
                Ok(all) => {
                    let ghost all_ghost = all;
                    let s = satisfying_among(all, self);
                    assert(call_ensures(Self::enumerate_checkpoints, (inner,), Ok::<BTreeSet<Self>, CheckpointError>(all_ghost)));
                    Ok(s)
                },
            },
        }
    }
}

/// Errors of the checkpoint Hot-Cold set.
#[derive(Debug, Clone)]
pub enum CheckpointHotColdSetError {
    InternalError(String),
}

/// The quoted and escaped text of a string, as std's `Debug` for strings writes it.
pub uninterp spec fn string_debug(text: Seq<char>) -> Seq<char>;

/// The `Debug` text of a string.
///
/// Formats the string with `format!` and std's `Debug` for strings, which quotes and escapes
/// it; the contract names the text, which depends on the string alone.
#[verifier::external_body]
fn string_debug_text(text: &String) -> (s: String)
    ensures
        s@ == string_debug(text@),
{
    format!("{:?}", text)
}

/// The text of a checkpoint error, as its derived `Debug` writes it: the variant's name and
/// its message's `Debug` text in parentheses.
pub open spec fn checkpoint_error_text(e: CheckpointError) -> Seq<char> {
    match e {
        CheckpointError::EnumerateCheckpoints(m) => "EnumerateCheckpoints("@ + string_debug(m@) + ")"@,
        CheckpointError::GetInnerData(m) => "GetInnerData("@ + string_debug(m@) + ")"@,
    }
}

/// The text of a checkpoint error, as its derived `Debug` writes it.
fn checkpoint_error_debug(e: &CheckpointError) -> (s: String)
    ensures
        s@ == checkpoint_error_text(*e),
{
    let (name, m) = match e {
        CheckpointError::EnumerateCheckpoints(m) => ("EnumerateCheckpoints(", m),
        CheckpointError::GetInnerData(m) => ("GetInnerData(", m),
    };
    let mut s = name.to_owned();
    let quoted = string_debug_text(m);
    s.append(quoted.as_str());
    s.append(")");
    s
}

/// The message of a failure to get satisfying checkpoints.
pub open spec fn satisfying_failure(e: CheckpointError) -> Seq<char> {
    "Failed to get satisfying checkpoints: "@ + checkpoint_error_text(e)
}

/// Describes a failure to get satisfying checkpoints: a fixed prefix and the error's text.
fn satisfying_failure_message(e: &CheckpointError) -> (s: String)
    ensures
        s@ == satisfying_failure(*e),
{
    let mut s = "Failed to get satisfying checkpoints: ".to_owned();
    let text = checkpoint_error_debug(e);
    s.append(text.as_str());
    s
}

/// All checkpoints that the given checkpoints need, in ascending order: the union of the
/// satisfying checkpoints of each, or the first failure to get them, described behind a
/// fixed prefix. No checkpoint needs none.
pub fn all_satisfying_checkpoints<M: Checkpoint>(checkpoints: &[M]) -> (r: Result<Vec<M>, CheckpointHotColdSetError>)
    ensures
        checkpoints@.len() == 0 ==> (r matches Ok(v) && v@.len() == 0),
        r matches Ok(v) ==> exists|sets: Seq<BTreeSet<M>>| {
            &&& #[trigger] sets.len() == checkpoints@.len()
            &&& forall|i: int| 0 <= i < sets.len() ==> call_ensures(M::satisfying_checkpoints, (&checkpoints@[i],), Ok::<BTreeSet<M>, CheckpointError>(#[trigger] sets[i]))
            &&& lawful_order::<M>() ==> v@.to_set() == union_of(views_of(sets)) && v@.no_duplicates() && ascending(v@)
        },
        r matches Err(CheckpointHotColdSetError::InternalError(m)) ==> exists|done: Seq<BTreeSet<M>>, e: CheckpointError| {
            &&& #[trigger] done.len() < checkpoints@.len()
            &&& forall|j: int| 0 <= j < done.len() ==> call_ensures(M::satisfying_checkpoints, (&checkpoints@[j],), Ok::<BTreeSet<M>, CheckpointError>(#[trigger] done[j]))
            &&& #[trigger] call_ensures(M::satisfying_checkpoints, (&checkpoints@[done.len() as int],), Err::<BTreeSet<M>, CheckpointError>(e))
            &&& m@ == satisfying_failure(e)
        },
{
    if checkpoints.len() == 0 {
        proof {
            let sets = Seq::<BTreeSet<M>>::empty();
            assert(union_of(views_of(sets)) =~= Set::<M>::empty());
            assert(Seq::<M>::empty().to_set() =~= Set::<M>::empty());
            assert(sets.len() == checkpoints@.len());
        }
        return Ok(Vec::new());
    }
    let mut sets: Vec<BTreeSet<M>> = Vec::new();
    let mut i: usize = 0;
    while i < checkpoints.len()
        invariant
            0 <= i <= checkpoints@.len(),
            sets@.len() == i,
            forall|k: int| 0 <= k < i ==> call_ensures(M::satisfying_checkpoints, (&checkpoints@[k],), Ok::<BTreeSet<M>, CheckpointError>(#[trigger] sets@[k])),
        decreases checkpoints@.len() - i,
    {
        match checkpoints[i].satisfying_checkpoints() {
            Ok(s) => sets.push(s),
            Err(e) => {
                let ghost eg = e;
                let m = satisfying_failure_message(&e);
                proof {
                    let done = sets@;
                    assert(done.len() < checkpoints@.len());
                    assert(call_ensures(M::satisfying_checkpoints, (&checkpoints@[done.len() as int],), Err::<BTreeSet<M>, CheckpointError>(eg)));
                    assert(m@ == satisfying_failure(eg));
                }
                return Err(CheckpointHotColdSetError::InternalError(m));
            },
        }
        i = i + 1;
    }
    let ghost sets_view = sets@;
    let v = union_ascending(sets);
    proof {
        assert(sets_view.len() == checkpoints@.len());
    }
    Ok(v)
}

/// A Hot-Cold set of checkpoints.
pub struct CheckpointHotColdSet<M, HG, CG, H, C> where M: Checkpoint {
    hot_cold_set: HotColdSet<M, HG, CG, H, C>,
}

impl<M: Checkpoint, HG, CG, H, C> CheckpointHotColdSet<M, HG, CG, H, C> {
    /// The underlying Hot-Cold set.
    pub closed spec fn inner(&self) -> HotColdSet<M, HG, CG, H, C> {
        self.hot_cold_set
    }

    /// Creates a checkpoint set over a new Hot-Cold set of the given Hot and Cold sets.
    pub fn new(hot: H, cold: C) -> (s: Self)
        ensures
            s.inner().hot_set() == hot,
            s.inner().cold_set() == cold,
            s.inner().consistent(),
    {
        CheckpointHotColdSet { hot_cold_set: HotColdSet::new(hot, cold) }
    }

    /// Borrows the Hot-Cold set.
    pub fn hot_cold_set(&self) -> (s: &HotColdSet<M, HG, CG, H, C>)
        ensures
            *s == self.inner(),
    {
        &self.hot_cold_set
    }

    /// Borrows the Hot-Cold set mutably.
    pub fn hot_cold_set_mut(&mut self) -> (s: &mut HotColdSet<M, HG, CG, H, C>)
        ensures
            *s == old(self).inner(),
            final(self).inner() == *final(s),
    {
        &mut self.hot_cold_set
    }
}

} // verus!
