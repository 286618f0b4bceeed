use protocol_units::set::{
    first_insert_action, next_insert_step, outcome_to_result, rinsert_after_insert,
    rinsert_after_recover, HotColdError, HotColdSet, InsertAction, InsertOutcome, InsertStep,
    InsertionPartial, Member, MemberError, RecoverAction, RinsertStep, TryAsMember,
};
use std::collections::BTreeSet;

#[derive(Debug, Clone, PartialEq, Eq)]
struct TestMember(u8);

impl TryAsMember for TestMember {
    fn try_as_member(&self) -> Result<Member, MemberError> {
        Ok(Member(vec![self.0]))
    }
}

/// A set kept in memory that answers each step as `answers` says, recording prepared members.
struct MemorySet {
    set: BTreeSet<Member>,
    answers: Vec<bool>,
}

impl MemorySet {
    fn reliable() -> Self {
        MemorySet { set: BTreeSet::new(), answers: Vec::new() }
    }

    fn answer(&mut self) -> bool {
        if self.answers.is_empty() {
            true
        } else {
            self.answers.remove(0)
        }
    }

    fn contains(&self, members: &[TestMember]) -> bool {
        members.iter().all(|m| self.set.contains(&m.try_as_member().unwrap()))
    }
}

/// Runs the insertion handshake against two in-memory sets, the Hot set storing the members
/// when it prepares them, as the reliable test sets do.
fn run_insertion(hot: &mut MemorySet, cold: &mut MemorySet, members: &[TestMember]) -> (Vec<InsertAction>, InsertOutcome) {
    let mut performed = Vec::new();
    let mut action = first_insert_action();
    loop {
        performed.push(action);
        let ok = match action {
            InsertAction::HotPrepare => {
                let ok = hot.answer();
                if ok {
                    for m in members {
                        hot.set.insert(m.try_as_member().unwrap());
                    }
                }
                ok
            }
            InsertAction::HotCommit | InsertAction::HotRollback => hot.answer(),
            InsertAction::ColdPrepare | InsertAction::ColdCommit | InsertAction::ColdRollback => cold.answer(),
        };
        match next_insert_step(action, ok) {
            InsertStep::Perform(next) => action = next,
            InsertStep::Finish(outcome) => return (performed, outcome),
        }
    }
}

fn insert(
    set: &mut HotColdSet<TestMember, (), (), MemorySet, MemorySet>,
    hot: &mut MemorySet,
    cold: &mut MemorySet,
    members: Vec<TestMember>,
) -> Result<(), HotColdError<TestMember>> {
    set.start_insert()?;
    let (_, outcome) = run_insertion(hot, cold, &members);
    set.finish_insert(outcome, members)
}

#[test]
fn test_successful_insertion() {
    let mut hot_cold_set: HotColdSet<TestMember, (), (), MemorySet, MemorySet> =
        HotColdSet::new(MemorySet::reliable(), MemorySet::reliable());
    let mut hot = MemorySet::reliable();
    let mut cold = MemorySet::reliable();
    let members = vec![TestMember(1), TestMember(2)];
    let result = insert(&mut hot_cold_set, &mut hot, &mut cold, members.clone());
    assert!(result.is_ok());
    assert!(hot.contains(&members));
    assert!(hot_cold_set.is_consistent());
}

#[test]
fn new_set_is_consistent_and_holds_its_sets() {
    let set: HotColdSet<TestMember, (), (), u8, u16> = HotColdSet::new(7, 9);
    assert!(set.is_consistent());
    assert_eq!(*set.hot(), 7);
    assert_eq!(*set.cold(), 9);
}

#[test]
fn set_is_consistent_overrides_consistency() {
    let mut set: HotColdSet<TestMember, (), (), u8, u8> = HotColdSet::new(0, 0);
    set.set_is_consistent(false);
    assert!(!set.is_consistent());
    set.set_is_consistent(true);
    assert!(set.is_consistent());
}

#[test]
fn all_steps_succeeding_commits_both_sets() {
    let mut hot = MemorySet::reliable();
    let mut cold = MemorySet::reliable();
    let (performed, outcome) = run_insertion(&mut hot, &mut cold, &[TestMember(3)]);
    assert_eq!(
        performed,
        vec![InsertAction::HotPrepare, InsertAction::ColdPrepare, InsertAction::HotCommit, InsertAction::ColdCommit]
    );
    assert_eq!(outcome, InsertOutcome::Inserted);
}

#[test]
fn failed_hot_prepare_is_a_clean_failure() {
    let mut hot = MemorySet { set: BTreeSet::new(), answers: vec![false] };
    let mut cold = MemorySet::reliable();
    let (performed, outcome) = run_insertion(&mut hot, &mut cold, &[TestMember(3)]);
    assert_eq!(performed, vec![InsertAction::HotPrepare]);
    assert_eq!(outcome, InsertOutcome::FailedToInsert);
}

#[test]
fn failed_cold_prepare_rolls_back_hot() {
    let mut hot = MemorySet::reliable();
    let mut cold = MemorySet { set: BTreeSet::new(), answers: vec![false] };
    let (performed, outcome) = run_insertion(&mut hot, &mut cold, &[TestMember(3)]);
    assert_eq!(performed, vec![InsertAction::HotPrepare, InsertAction::ColdPrepare, InsertAction::HotRollback]);
    assert_eq!(outcome, InsertOutcome::FailedToInsert);

    let mut hot = MemorySet { set: BTreeSet::new(), answers: vec![true, false] };
    let mut cold = MemorySet { set: BTreeSet::new(), answers: vec![false] };
    let (_, outcome) = run_insertion(&mut hot, &mut cold, &[TestMember(3)]);
    assert_eq!(outcome, InsertOutcome::Inconsistent(InsertionPartial::Hot));
}

#[test]
fn failed_hot_commit_rolls_back_cold() {
    let mut hot = MemorySet { set: BTreeSet::new(), answers: vec![true, false] };
    let mut cold = MemorySet::reliable();
    let (performed, outcome) = run_insertion(&mut hot, &mut cold, &[TestMember(3)]);
    assert_eq!(
        performed,
        vec![InsertAction::HotPrepare, InsertAction::ColdPrepare, InsertAction::HotCommit, InsertAction::ColdRollback]
    );
    assert_eq!(outcome, InsertOutcome::Inconsistent(InsertionPartial::Hot));

    let mut hot = MemorySet { set: BTreeSet::new(), answers: vec![true, false] };
    let mut cold = MemorySet { set: BTreeSet::new(), answers: vec![true, false] };
    let (_, outcome) = run_insertion(&mut hot, &mut cold, &[TestMember(3)]);
    assert_eq!(outcome, InsertOutcome::Inconsistent(InsertionPartial::Both));
}

#[test]
fn failed_cold_commit_leaves_both_partial() {
    let mut hot = MemorySet::reliable();
    let mut cold = MemorySet { set: BTreeSet::new(), answers: vec![true, false] };
    let (_, outcome) = run_insertion(&mut hot, &mut cold, &[TestMember(3)]);
    assert_eq!(outcome, InsertOutcome::Inconsistent(InsertionPartial::Both));
}

#[test]
fn failed_insertion_marks_set_inconsistent_and_refuses_more() {
    let mut set: HotColdSet<TestMember, (), (), MemorySet, MemorySet> =
        HotColdSet::new(MemorySet::reliable(), MemorySet::reliable());
    let mut hot = MemorySet { set: BTreeSet::new(), answers: vec![false] };
    let mut cold = MemorySet::reliable();
    let r = insert(&mut set, &mut hot, &mut cold, vec![TestMember(1)]);
    assert!(matches!(r, Err(HotColdError::FailedToInsert)));
    assert!(!set.is_consistent());
    let mut hot = MemorySet::reliable();
    let r = insert(&mut set, &mut hot, &mut cold, vec![TestMember(1)]);
    assert!(matches!(r, Err(HotColdError::Irrecoverable)));
}

#[test]
fn inconsistent_outcome_hands_members_back() {
    let r = outcome_to_result(InsertOutcome::Inconsistent(InsertionPartial::Both), vec![TestMember(4), TestMember(5)]);
    match r {
        Err(HotColdError::Inconsistent(InsertionPartial::Both, ms)) => assert_eq!(ms, vec![TestMember(4), TestMember(5)]),
        _ => panic!("expected an inconsistent result"),
    }
    assert!(outcome_to_result::<TestMember>(InsertOutcome::Inserted, vec![]).is_ok());
}

#[test]
fn rinsert_recovers_partial_sets() {
    let step = rinsert_after_insert::<TestMember>(Err(HotColdError::Inconsistent(InsertionPartial::Both, vec![])));
    assert!(matches!(step, RinsertStep::Recover(RecoverAction::Hot)));
    let step = rinsert_after_recover::<TestMember>(InsertionPartial::Both, RecoverAction::Hot, true);
    assert!(matches!(step, RinsertStep::Recover(RecoverAction::Cold)));
    let step = rinsert_after_recover::<TestMember>(InsertionPartial::Both, RecoverAction::Cold, true);
    assert!(matches!(step, RinsertStep::Return(Err(HotColdError::FailedToInsert))));
    let step = rinsert_after_recover::<TestMember>(InsertionPartial::Hot, RecoverAction::Hot, true);
    assert!(matches!(step, RinsertStep::Return(Err(HotColdError::FailedToInsert))));
    let step = rinsert_after_recover::<TestMember>(InsertionPartial::Both, RecoverAction::Hot, false);
    assert!(matches!(step, RinsertStep::Return(Err(HotColdError::Irrecoverable))));
    let step = rinsert_after_insert::<TestMember>(Ok(()));
    assert!(matches!(step, RinsertStep::Return(Ok(()))));
    let step = rinsert_after_insert::<TestMember>(Err(HotColdError::Irrecoverable));
    assert!(matches!(step, RinsertStep::Return(Err(HotColdError::Irrecoverable))));
}

#[test]
fn error_messages() {
    assert_eq!(HotColdError::<TestMember>::FailedToInsert.message(), "failed to insert member");
    assert_eq!(HotColdError::<TestMember>::Irrecoverable.message(), "hot-cold set is already inconsistent");
    assert_eq!(
        HotColdError::<TestMember>::Inconsistent(InsertionPartial::Hot, vec![]).message(),
        "hot-cold set is inconsistent (partially committed)"
    );
}
