//! A Hot-Cold set keeps the inclusion of members synchronized between two sets.
//!
//! The Hot set is written to and read from first and may be garbage collected;
//! the Cold set is written to second, is append-only and serves as a backup.
//! An insertion runs a three-phase handshake in which the application is the
//! coordinator: prepare Hot, prepare Cold, commit Hot, commit Cold, with
//! rollbacks when a step fails.
//!
//! The handshake itself awaits the Hot and Cold sets in turn, so it is written
//! here as a state machine: [next_insert_step] says, from the step that was just
//! performed and whether it succeeded, what to perform next or how the insertion
//! ends. The driver that awaits each step feeds the results back in.
use core::marker::PhantomData;
use vstd::prelude::*;

verus! {

/// A member of the set, in its common byte representation.
#[derive(Debug, Clone, PartialEq, Eq, Hash, PartialOrd, Ord)]
pub struct Member(pub Vec<u8>);

/// An error thrown when a member cannot be converted into a common representation.
#[derive(Debug, Clone, Copy, PartialEq, Eq, Structural)]
pub enum MemberError {
    ConversionFailed,
}

/// A member of the set converts itself into the common representation.
pub trait TryAsMember {
    fn try_as_member(&self) -> Result<Member, MemberError>;
}

/// An error thrown when the set cannot be recovered.
#[derive(Debug, Clone, Copy, PartialEq, Eq, Structural)]
pub enum RecoveryError {
    Irrecoverable,
}

/// Error types for the Hot guard.
#[derive(Debug, Clone, Copy, PartialEq, Eq, Structural)]
pub enum HotGuardError {
    FailedToRollback,
    FailedToCommit,
}

/// Error types for the Hot set operations.
#[derive(Debug, Clone, Copy, PartialEq, Eq, Structural)]
pub enum HotError {
    Internal,
}

/// Error types for the Cold guard.
#[derive(Debug, Clone, Copy, PartialEq, Eq, Structural)]
pub enum ColdGuardError {
    FailedToCommit,
}

/// Error types for the Cold set operations.
#[derive(Debug, Clone, Copy, PartialEq, Eq, Structural)]
pub enum ColdError {
    Internal,
}

/// A partial insertion state in which the Hot set, or both sets, were partially committed.
#[derive(Debug, Clone, Copy, PartialEq, Eq, Structural)]
pub enum InsertionPartial {
    Hot,
    Both,
}

/// Error types for the Hot-Cold set operations.
#[derive(Debug)]
pub enum HotColdError<M> where M: TryAsMember {
    /// The set is inconsistent (partially committed); the members are handed back.
    Inconsistent(InsertionPartial, Vec<M>),
    /// The set was already inconsistent, or could not be recovered.
    Irrecoverable,
    /// The insertion failed and left both sets clean.
    FailedToInsert,
}

impl<M: TryAsMember> HotColdError<M> {
    /// The message that describes the error.
    pub fn message(&self) -> (s: &'static str)
        ensures
            self is Inconsistent ==> s@ == "hot-cold set is inconsistent (partially committed)"@,
            self is Irrecoverable ==> s@ == "hot-cold set is already inconsistent"@,
            self is FailedToInsert ==> s@ == "failed to insert member"@,
    {
        match self {
            HotColdError::Inconsistent(_, _) => "hot-cold set is inconsistent (partially committed)",
            HotColdError::Irrecoverable => "hot-cold set is already inconsistent",
            HotColdError::FailedToInsert => "failed to insert member",
        }
    }
}

/// One step of the insertion handshake, performed by the coordinator against a set.
#[derive(Debug, Clone, Copy, PartialEq, Eq, Structural)]
pub enum InsertAction {
    /// Prepare to insert the members into the Hot set (SYN).
    HotPrepare,
    /// Prepare to insert the members into the Cold set (ACK).
    ColdPrepare,
    /// Commit the prepared insertion in the Hot set (SYN-ACK).
    HotCommit,
    /// Commit the prepared insertion in the Cold set.
    ColdCommit,
    /// Roll back the prepared insertion in the Hot set.
    HotRollback,
    /// Roll back the prepared insertion in the Cold set.
    ColdRollback,
}

/// How an insertion handshake ends.
#[derive(Debug, Clone, Copy, PartialEq, Eq, Structural)]
pub enum InsertOutcome {
    /// Both sets committed the members.
    Inserted,
    /// The insertion failed and no set is left partially committed.
    FailedToInsert,
    /// The insertion failed and left the given sets partially committed.
    Inconsistent(InsertionPartial),
}

/// What the coordinator does after a step of the handshake.
#[derive(Debug, Clone, Copy, PartialEq, Eq, Structural)]
pub enum InsertStep {
    /// Perform this step next.
    Perform(InsertAction),
    /// The handshake is over.
    Finish(InsertOutcome),
}

/// The step after `done`, given whether `done` succeeded.
pub open spec fn spec_next_insert_step(done: InsertAction, succeeded: bool) -> InsertStep {
    match done {
        InsertAction::HotPrepare => if succeeded {
            InsertStep::Perform(InsertAction::ColdPrepare)
        } else {
            InsertStep::Finish(InsertOutcome::FailedToInsert)
        },
        InsertAction::ColdPrepare => if succeeded {
            InsertStep::Perform(InsertAction::HotCommit)
        } else {
            InsertStep::Perform(InsertAction::HotRollback)
        },
        InsertAction::HotCommit => if succeeded {
            InsertStep::Perform(InsertAction::ColdCommit)
        } else {
            InsertStep::Perform(InsertAction::ColdRollback)
        },
        InsertAction::ColdCommit => if succeeded {
            InsertStep::Finish(InsertOutcome::Inserted)
        } else {
            InsertStep::Finish(InsertOutcome::Inconsistent(InsertionPartial::Both))
        },
        InsertAction::ColdRollback => if succeeded {
            InsertStep::Finish(InsertOutcome::Inconsistent(InsertionPartial::Hot))
        } else {
            InsertStep::Finish(InsertOutcome::Inconsistent(InsertionPartial::Both))
        },
        InsertAction::HotRollback => if succeeded {
            InsertStep::Finish(InsertOutcome::FailedToInsert)
        } else {
            InsertStep::Finish(InsertOutcome::Inconsistent(InsertionPartial::Hot))
        },
    }
}

/// The first step of every insertion: prepare the Hot set.
pub fn first_insert_action() -> (a: InsertAction)
    ensures
        a == InsertAction::HotPrepare,
{
    InsertAction::HotPrepare
}

/// Decides what follows the step `done` of the handshake, given whether it succeeded.
///
/// - If preparing the Hot set fails, nothing was prepared: the insertion fails cleanly.
/// - If preparing the Cold set fails, the Hot set is rolled back; if that rollback fails
///   the Hot set stays partially committed.
/// - If committing the Hot set fails, the Cold set is rolled back; the Hot set is then
///   partially committed either way, and so is the Cold set if its rollback fails.
/// - If committing the Cold set fails, both sets are partially committed.
pub fn next_insert_step(done: InsertAction, succeeded: bool) -> (s: InsertStep)
    ensures
        s == spec_next_insert_step(done, succeeded),
{
    match done {
        InsertAction::HotPrepare => if succeeded {
            InsertStep::Perform(InsertAction::ColdPrepare)
        } else {
            InsertStep::Finish(InsertOutcome::FailedToInsert)
        },
        InsertAction::ColdPrepare => if succeeded {
            InsertStep::Perform(InsertAction::HotCommit)
        } else {
            InsertStep::Perform(InsertAction::HotRollback)
        },
        InsertAction::HotCommit => if succeeded {
            InsertStep::Perform(InsertAction::ColdCommit)
        } else {
            InsertStep::Perform(InsertAction::ColdRollback)
        },
        InsertAction::ColdCommit => if succeeded {
            InsertStep::Finish(InsertOutcome::Inserted)
        } else {
            InsertStep::Finish(InsertOutcome::Inconsistent(InsertionPartial::Both))
        },
        InsertAction::ColdRollback => if succeeded {
            InsertStep::Finish(InsertOutcome::Inconsistent(InsertionPartial::Hot))
        } else {
            InsertStep::Finish(InsertOutcome::Inconsistent(InsertionPartial::Both))
        },
        InsertAction::HotRollback => if succeeded {
            InsertStep::Finish(InsertOutcome::FailedToInsert)
        } else {
            InsertStep::Finish(InsertOutcome::Inconsistent(InsertionPartial::Hot))
        },
    }
}

/// The run of the handshake from `action` on, when the steps succeed as `results` says:
/// the steps performed and, once the handshake is over, its outcome.
pub open spec fn spec_insert_run(action: InsertAction, results: Seq<bool>) -> (Seq<InsertAction>, Option<InsertOutcome>)
    decreases results.len(),
{
    if results.len() == 0 {
        (Seq::empty(), None)
    } else {
        match spec_next_insert_step(action, results[0]) {
            InsertStep::Finish(o) => (seq![action], Some(o)),
            InsertStep::Perform(next) => {
                let rest = spec_insert_run(next, results.drop_first());
                (seq![action] + rest.0, rest.1)
            },
        }
    }
}

/// The whole handshake, from preparing the Hot set.
pub open spec fn spec_insertion(results: Seq<bool>) -> (Seq<InsertAction>, Option<InsertOutcome>) {
    spec_insert_run(InsertAction::HotPrepare, results)
}

/// The result that an insertion with the given outcome reports, the members being handed
/// back when the sets are left inconsistent.
pub open spec fn spec_outcome_result<M: TryAsMember>(outcome: InsertOutcome, members: Seq<M>, r: Result<(), HotColdError<M>>) -> bool {
    match outcome {
        InsertOutcome::Inserted => r is Ok,
        InsertOutcome::FailedToInsert => r matches Err(HotColdError::FailedToInsert),
        InsertOutcome::Inconsistent(which) => r matches Err(HotColdError::Inconsistent(w, ms)) && w == which && ms@ == members,
    }
}

/// Turns the outcome of a handshake into the result an insertion reports.
pub fn outcome_to_result<M: TryAsMember>(outcome: InsertOutcome, members: Vec<M>) -> (r: Result<(), HotColdError<M>>)
    ensures
        spec_outcome_result(outcome, members@, r),
{
    match outcome {
        InsertOutcome::Inserted => Ok(()),
        InsertOutcome::FailedToInsert => Err(HotColdError::FailedToInsert),
        InsertOutcome::Inconsistent(which) => Err(HotColdError::Inconsistent(which, members)),
    }
}

/// The Hot-Cold set ensures synchronized inclusion of members between the Hot and Cold sets.
///
/// It holds the two sets and whether the last insertions left them consistent. The
/// type parameters name the member type and the guard types that the sets hand out.
pub struct HotColdSet<M, HG, CG, H, C> {
    _member_marker: PhantomData<M>,
    _hot_guard_marker: PhantomData<HG>,
    _cold_guard_marker: PhantomData<CG>,
    hot: H,
    cold: C,
    is_consistent: bool,
}

impl<M, HG, CG, H, C> HotColdSet<M, HG, CG, H, C> {
    /// The Hot set.
    pub closed spec fn hot_set(&self) -> H {
        self.hot
    }

    /// The Cold set.
    pub closed spec fn cold_set(&self) -> C {
        self.cold
    }

    /// Whether the set is consistent.
    pub closed spec fn consistent(&self) -> bool {
        self.is_consistent
    }

    /// Creates a new Hot-Cold set with the given Hot and Cold sets; it starts consistent.
    pub fn new(hot: H, cold: C) -> (s: Self)
        ensures
            s.hot_set() == hot,
            s.cold_set() == cold,
            s.consistent(),
    {
        HotColdSet {
            _member_marker: PhantomData,
            _hot_guard_marker: PhantomData,
            _cold_guard_marker: PhantomData,
            hot,
            cold,
            is_consistent: true,
        }
    }

    /// Gets the Hot set.
    pub fn hot(&self) -> (h: &H)
        ensures
            *h == self.hot_set(),
    {
        &self.hot
    }

    /// Gets the Cold set.
    pub fn cold(&self) -> (c: &C)
        ensures
            *c == self.cold_set(),
    {
        &self.cold
    }

    /// Whether the set is consistent.
    pub fn is_consistent(&self) -> (b: bool)
        ensures
            b == self.consistent(),
    {
        self.is_consistent
    }

    /// Sets the consistency of the set, for manual consistency management.
    pub fn set_is_consistent(&mut self, is_consistent: bool)
        ensures
            final(self).consistent() == is_consistent,
            final(self).hot_set() == old(self).hot_set(),
            final(self).cold_set() == old(self).cold_set(),
            (final(self).hot_set(), final(self).consistent()) == spec_after_call(
                (old(self).hot_set(), old(self).consistent()),
                SetCall::SetIsConsistent(is_consistent),
            ),
    {
        self.is_consistent = is_consistent;
    }
}

impl<M: TryAsMember, HG, CG, H, C> HotColdSet<M, HG, CG, H, C> {
    /// Starts an insertion: a consistent set begins the handshake by preparing the Hot set;
    /// an inconsistent set refuses the insertion, since it should have been recovered first.
    pub fn start_insert(&self) -> (r: Result<InsertAction, HotColdError<M>>)
        ensures
            self.consistent() ==> r == Ok::<InsertAction, HotColdError<M>>(InsertAction::HotPrepare),
            !self.consistent() ==> r matches Err(HotColdError::Irrecoverable),
    {
        if self.is_consistent() {
            Ok(first_insert_action())
        } else {
            Err(HotColdError::Irrecoverable)
        }
    }

    /// Ends an insertion on a consistent set whose handshake ended with `outcome`: any failure
    /// marks the set inconsistent, and the outcome becomes the reported result.
    pub fn finish_insert(&mut self, outcome: InsertOutcome, members: Vec<M>) -> (r: Result<(), HotColdError<M>>)
        ensures
            spec_outcome_result(outcome, members@, r),
            final(self).consistent() == (old(self).consistent() && outcome == InsertOutcome::Inserted),
            final(self).hot_set() == old(self).hot_set(),
            final(self).cold_set() == old(self).cold_set(),
            (final(self).hot_set(), final(self).consistent()) == spec_after_call(
                (old(self).hot_set(), old(self).consistent()),
                SetCall::Insert(outcome),
            ),
    {
        let r = outcome_to_result(outcome, members);
        if r.is_err() {
            self.set_is_consistent(false);
        }
        r
    }
}

/// A set to recover after a partially committed insertion.
#[derive(Debug, Clone, Copy, PartialEq, Eq, Structural)]
pub enum RecoverAction {
    Hot,
    Cold,
}

/// What an insertion with recovery does next.
#[derive(Debug)]
pub enum RinsertStep<M> where M: TryAsMember {
    /// Recover this set next.
    Recover(RecoverAction),
    /// The insertion with recovery is over, with this result.
    Return(Result<(), HotColdError<M>>),
}

/// Decides what follows an insertion in an insertion with recovery: success and errors
/// other than inconsistency are returned as they are; an inconsistent insertion recovers
/// the Hot set first.
pub fn rinsert_after_insert<M: TryAsMember>(r: Result<(), HotColdError<M>>) -> (s: RinsertStep<M>)
    ensures
        (r matches Err(HotColdError::Inconsistent(_, _))) ==> s == RinsertStep::<M>::Recover(RecoverAction::Hot),
        !(r matches Err(HotColdError::Inconsistent(_, _))) ==> s == RinsertStep::<M>::Return(r),
{
    match r {
        Err(HotColdError::Inconsistent(_, _)) => RinsertStep::Recover(RecoverAction::Hot),
        other => RinsertStep::Return(other),
    }
}

/// The step after recovering `recovered` in an insertion that left `which` partially
/// committed, given whether the recovery succeeded.
pub open spec fn spec_rinsert_after_recover(which: InsertionPartial, recovered: RecoverAction, succeeded: bool) -> Option<RecoverAction> {
    if succeeded && recovered == RecoverAction::Hot && which == InsertionPartial::Both {
        Some(RecoverAction::Cold)
    } else {
        None
    }
}

/// Decides what follows the recovery of a set: a failed recovery makes the set irrecoverable;
/// after the Hot set of an insertion that left both sets partial, the Cold set is recovered;
/// once every partial set is recovered, the insertion is just a failed insertion.
pub fn rinsert_after_recover<M: TryAsMember>(which: InsertionPartial, recovered: RecoverAction, succeeded: bool) -> (s: RinsertStep<M>)
    ensures
        spec_rinsert_after_recover(which, recovered, succeeded) matches Some(next) ==> s == RinsertStep::<M>::Recover(next),
        spec_rinsert_after_recover(which, recovered, succeeded) is None ==> (
            if succeeded { s matches RinsertStep::Return(Err(HotColdError::FailedToInsert)) }
            else { s matches RinsertStep::Return(Err(HotColdError::Irrecoverable)) }),
        !succeeded ==> s matches RinsertStep::Return(Err(HotColdError::Irrecoverable)),
        succeeded && which == InsertionPartial::Both && recovered == RecoverAction::Hot
            ==> s == RinsertStep::<M>::Recover(RecoverAction::Cold),
        succeeded && !(which == InsertionPartial::Both && recovered == RecoverAction::Hot)
            ==> s matches RinsertStep::Return(Err(HotColdError::FailedToInsert)),
{
    if !succeeded {
        RinsertStep::Return(Err(HotColdError::Irrecoverable))
    } else {
        match (which, recovered) {
            (InsertionPartial::Both, RecoverAction::Hot) => RinsertStep::Recover(RecoverAction::Cold),
            _ => RinsertStep::Return(Err(HotColdError::FailedToInsert)),
        }
    }
}


/// The end of an insertion with recovery whose insertion returned `r`, when the recoveries
/// succeed as `recoveries` says; `None` while a recovery is still to be performed.
pub open spec fn spec_rinsert_run<M: TryAsMember>(r: Result<(), HotColdError<M>>, recoveries: Seq<bool>) -> Option<Result<(), HotColdError<M>>> {
    match r {
        Err(HotColdError::Inconsistent(which, _)) => {
            if recoveries.len() == 0 {
                None
            } else {
                match spec_rinsert_after_recover(which, RecoverAction::Hot, recoveries[0]) {
                    Some(next) => if recoveries.len() < 2 {
                        None
                    } else {
                        match spec_rinsert_after_recover(which, next, recoveries[1]) {
                            Some(_) => None,
                            None => if recoveries[1] {
                                Some(Err(HotColdError::FailedToInsert))
                            } else {
                                Some(Err(HotColdError::Irrecoverable))
                            },
                        }
                    },
                    None => if recoveries[0] {
                        Some(Err(HotColdError::FailedToInsert))
                    } else {
                        Some(Err(HotColdError::Irrecoverable))
                    },
                }
            }
        },
        _ => Some(r),
    }
}

/// Every insertion handshake ends within four steps, whatever the sets answer.
pub proof fn lemma_insertion_terminates(results: Seq<bool>)
    requires
        results.len() >= 4,
    ensures
        spec_insertion(results).1 is Some,
        spec_insertion(results).0.len() <= 4,
        spec_insertion(results).0[0] == InsertAction::HotPrepare,
{
    reveal_with_fuel(spec_insert_run, 5);
}

/// An insertion commits both sets exactly when all four of preparing Hot, preparing Cold,
/// committing Hot and committing Cold succeed, in that order.
pub proof fn lemma_inserted_iff_all_steps_succeed(results: Seq<bool>)
    requires
        results.len() >= 4,
    ensures
        (spec_insertion(results).1 == Some(InsertOutcome::Inserted)) <==> (results[0] && results[1] && results[2] && results[3]),
        spec_insertion(results).1 == Some(InsertOutcome::Inserted) ==> spec_insertion(results).0 == seq![
            InsertAction::HotPrepare,
            InsertAction::ColdPrepare,
            InsertAction::HotCommit,
            InsertAction::ColdCommit,
        ],
{
    reveal_with_fuel(spec_insert_run, 5);
}

/// The Cold set is committed only after the Hot set was committed, and the Cold set is
/// rolled back only after committing the Hot set failed.
pub proof fn lemma_cold_follows_hot_commit(results: Seq<bool>, i: int)
    requires
        results.len() >= 4,
        0 <= i < spec_insertion(results).0.len(),
    ensures
        spec_insertion(results).0[i] == InsertAction::ColdCommit ==> (i == 3 && spec_insertion(results).0[2] == InsertAction::HotCommit && results[2]),
        spec_insertion(results).0[i] == InsertAction::ColdRollback ==> (i == 3 && spec_insertion(results).0[2] == InsertAction::HotCommit && !results[2]),
        spec_insertion(results).0[i] == InsertAction::HotRollback ==> (i == 2 && spec_insertion(results).0[1] == InsertAction::ColdPrepare && !results[1]),
{
    reveal_with_fuel(spec_insert_run, 5);
}

/// A clean failure leaves nothing prepared: either preparing the Hot set failed, or preparing
/// the Cold set failed and the Hot set was rolled back.
pub proof fn lemma_failed_insert_is_clean(results: Seq<bool>)
    requires
        results.len() >= 4,
        spec_insertion(results).1 == Some(InsertOutcome::FailedToInsert),
    ensures
        (spec_insertion(results).0 == seq![InsertAction::HotPrepare] && !results[0])
        || (spec_insertion(results).0 == seq![InsertAction::HotPrepare, InsertAction::ColdPrepare, InsertAction::HotRollback]
            && results[0] && !results[1] && results[2]),
{
    reveal_with_fuel(spec_insert_run, 5);
}

/// When only the Hot set is reported partially committed, the Cold set holds nothing
/// prepared: preparing it failed, or it was rolled back. When both are reported, the Cold
/// set was prepared and neither committed nor rolled back.
pub proof fn lemma_partial_sets(results: Seq<bool>)
    requires
        results.len() >= 4,
    ensures
        spec_insertion(results).1 == Some(InsertOutcome::Inconsistent(InsertionPartial::Hot)) ==> (
            (results[0] && !results[1] && !results[2])
            || (results[0] && results[1] && !results[2] && results[3])),
        spec_insertion(results).1 == Some(InsertOutcome::Inconsistent(InsertionPartial::Both)) ==> (
            results[0] && results[1] && !results[3]),
{
    reveal_with_fuel(spec_insert_run, 5);
}

/// An insertion with recovery either inserts, fails after recovering the sets, or fails into
/// an irrecoverable state: it never reports the sets as partially committed, and it reports
/// a plain failure after an inconsistent insertion only when every recovery succeeded. It
/// succeeds exactly when the insertion did.
pub proof fn lemma_rinsert_ends_recovered_or_irrecoverable<M: TryAsMember>(r: Result<(), HotColdError<M>>, recoveries: Seq<bool>)
    requires
        recoveries.len() >= 2,
    ensures
        spec_rinsert_run(r, recoveries) is Some,
        (spec_rinsert_run(r, recoveries) matches Some(Ok(_))) <==> r is Ok,
        spec_rinsert_run(r, recoveries) matches Some(res) ==> (res is Ok || res matches Err(HotColdError::FailedToInsert)
            || res matches Err(HotColdError::Irrecoverable)),
        !(spec_rinsert_run(r, recoveries) matches Some(Err(HotColdError::Inconsistent(_, _)))),
        (r matches Err(HotColdError::Inconsistent(InsertionPartial::Hot, _))) ==> (
            (spec_rinsert_run(r, recoveries) matches Some(Err(HotColdError::FailedToInsert))) <==> recoveries[0]),
        (r matches Err(HotColdError::Inconsistent(InsertionPartial::Both, _))) ==> (
            (spec_rinsert_run(r, recoveries) matches Some(Err(HotColdError::FailedToInsert))) <==> (recoveries[0] && recoveries[1])),
{
}

/// In an insertion with recovery, a recovery that fails ends it as irrecoverable, whatever
/// the insertion left partial and whichever set was being recovered; a successful recovery
/// leads to another only when the insertion left both sets partial and the Hot set was the
/// one recovered, and then the Cold set is recovered next.
pub proof fn lemma_failed_recovery_is_irrecoverable(which: InsertionPartial, recovered: RecoverAction, succeeded: bool)
    ensures
        !succeeded ==> spec_rinsert_after_recover(which, recovered, succeeded) is None,
        (spec_rinsert_after_recover(which, recovered, succeeded) is Some) <==> (
            succeeded && which == InsertionPartial::Both && recovered == RecoverAction::Hot),
        spec_rinsert_after_recover(which, recovered, succeeded) matches Some(next) ==> next == RecoverAction::Cold,
{
}

/// A call that changes a Hot-Cold set: setting its consistency, or an insertion (with or
/// without recovery) whose handshake ended with the given outcome. An insertion into an
/// inconsistent set is refused before any handshake and changes nothing.
pub enum SetCall {
    SetIsConsistent(bool),
    Insert(InsertOutcome),
}

/// The Hot set and the consistency of a set after one call, as `set_is_consistent` and
/// `start_insert` with `finish_insert` state them.
pub open spec fn spec_after_call<H>(state: (H, bool), call: SetCall) -> (H, bool) {
    match call {
        SetCall::SetIsConsistent(b) => (state.0, b),
        SetCall::Insert(outcome) => (state.0, state.1 && outcome == InsertOutcome::Inserted),
    }
}

/// The Hot set and the consistency of a set after the calls, in order.
pub open spec fn spec_after_calls<H>(state: (H, bool), calls: Seq<SetCall>) -> (H, bool)
    decreases calls.len(),
{
    if calls.len() == 0 {
        state
    } else {
        spec_after_call(spec_after_calls(state, calls.drop_last()), calls.last())
    }
}

/// Whether every insertion among the calls from `from` on inserted.
pub open spec fn all_inserted_from(calls: Seq<SetCall>, from: int) -> bool {
    forall|j: int| from <= j < calls.len() ==> (#[trigger] calls[j] matches SetCall::Insert(o) ==> o == InsertOutcome::Inserted)
}

/// Whether none of the calls from `from` on sets the consistency.
pub open spec fn no_setting_from(calls: Seq<SetCall>, from: int) -> bool {
    forall|j: int| from <= j < calls.len() ==> #[trigger] calls[j] is Insert
}

/// No call replaces the Hot set.
proof fn lemma_hot_kept<H>(hot: H, consistent: bool, calls: Seq<SetCall>)
    ensures
        spec_after_calls((hot, consistent), calls).0 == hot,
    decreases calls.len(),
{
    if calls.len() > 0 {
        lemma_hot_kept(hot, consistent, calls.drop_last());
    }
}

/// Whatever calls a Hot-Cold set goes through, its Hot set stays the one it was made with,
/// and it is consistent exactly when the latest setting of its consistency (or its creation,
/// consistent, when there is none) made it so and every insertion since inserted.
pub proof fn lemma_consistency_follows_latest_calls<H>(hot: H, calls: Seq<SetCall>, k: int)
    requires
        -1 <= k < calls.len(),
        k >= 0 ==> calls[k] is SetIsConsistent,
        no_setting_from(calls, k + 1),
    ensures
        spec_after_calls((hot, true), calls).0 == hot,
        spec_after_calls((hot, true), calls).1 == ((if k >= 0 { calls[k]->SetIsConsistent_0 } else { true }) && all_inserted_from(calls, k + 1)),
    decreases calls.len(),
{
    if calls.len() > 0 {
        let init = calls.drop_last();
        if k == calls.len() - 1 {
            lemma_hot_kept(hot, true, init);
        } else {
            assert(no_setting_from(init, k + 1));
            lemma_consistency_follows_latest_calls(hot, init, k);
            assert(all_inserted_from(calls, k + 1) == (all_inserted_from(init, k + 1) && (calls.last() matches SetCall::Insert(o) ==> o == InsertOutcome::Inserted))) by {
                if all_inserted_from(calls, k + 1) {
                    assert forall|j: int| k + 1 <= j < init.len() implies (#[trigger] init[j] matches SetCall::Insert(o) ==> o == InsertOutcome::Inserted) by {
                        assert(init[j] == calls[j]);
                    }
                    assert(calls[calls.len() - 1] == calls.last());
                }
                if all_inserted_from(init, k + 1) && (calls.last() matches SetCall::Insert(o) ==> o == InsertOutcome::Inserted) {
                    assert forall|j: int| k + 1 <= j < calls.len() implies (#[trigger] calls[j] matches SetCall::Insert(o) ==> o == InsertOutcome::Inserted) by {
                        if j < init.len() {
                            assert(init[j] == calls[j]);
                        }
                    }
                }
            }
        }
    }
}

} // verus!
