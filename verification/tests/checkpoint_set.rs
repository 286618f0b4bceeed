use protocol_units::checkpoint_set::{
    all_satisfying_checkpoints, satisfying_among, union_ascending, Checkpoint, CheckpointError,
    CheckpointHotColdSet,
};
use protocol_units::set::{
    first_insert_action, next_insert_step, InsertAction, InsertOutcome, InsertStep, Member,
    MemberError, TryAsMember,
};
use std::collections::BTreeSet;

/// A < B < C
#[derive(Debug, Clone, Copy, PartialEq, Eq, PartialOrd, Ord)]
pub enum TestCheckpoint {
    A(u8),
    B(u8),
    C(u8),
}

impl TryAsMember for TestCheckpoint {
    fn try_as_member(&self) -> Result<Member, MemberError> {
        let (tag, inner) = match self {
            TestCheckpoint::A(i) => (b'A', *i),
            TestCheckpoint::B(i) => (b'B', *i),
            TestCheckpoint::C(i) => (b'C', *i),
        };
        Ok(Member(vec![tag, inner]))
    }
}

impl Checkpoint for TestCheckpoint {
    type Data = u8;

    fn enumerate_checkpoints(inner: &Self::Data) -> Result<BTreeSet<Self>, CheckpointError> {
        let mut checkpoints = BTreeSet::new();
        checkpoints.insert(TestCheckpoint::A(*inner));
        checkpoints.insert(TestCheckpoint::B(*inner));
        checkpoints.insert(TestCheckpoint::C(*inner));
        Ok(checkpoints)
    }

    fn try_inner(&self) -> Result<&Self::Data, CheckpointError> {
        match self {
            TestCheckpoint::A(inner) => Ok(inner),
            TestCheckpoint::B(inner) => Ok(inner),
            TestCheckpoint::C(inner) => Ok(inner),
        }
    }
}

/// A reliable set kept in memory: every step succeeds and preparing stores the members.
#[derive(Default)]
struct ReliableSet {
    set: BTreeSet<Member>,
}

impl ReliableSet {
    fn contains(&self, checkpoints: &[TestCheckpoint]) -> bool {
        checkpoints.iter().all(|c| self.set.contains(&c.try_as_member().unwrap()))
    }
}

type CpSet = CheckpointHotColdSet<TestCheckpoint, (), (), ReliableSet, ReliableSet>;

/// Inserts into the Hot-Cold set: the reliable Hot set stores the members when prepared, the
/// reliable Cold set stores nothing.
fn insert(set: &mut CpSet, hot: &mut ReliableSet, members: Vec<TestCheckpoint>) {
    let hcs = set.hot_cold_set_mut();
    hcs.start_insert().unwrap();
    let mut action = first_insert_action();
    let outcome = loop {
        if action == InsertAction::HotPrepare {
            for m in &members {
                hot.set.insert(m.try_as_member().unwrap());
            }
        }
        match next_insert_step(action, true) {
            InsertStep::Perform(next) => action = next,
            InsertStep::Finish(o) => break o,
        }
    };
    assert_eq!(outcome, InsertOutcome::Inserted);
    hcs.finish_insert(outcome, members).unwrap();
}

fn hot_satisfied(hot: &ReliableSet, checkpoints: &[TestCheckpoint]) -> bool {
    let all = all_satisfying_checkpoints(checkpoints).unwrap();
    hot.contains(&all)
}

#[test]
pub fn test_checkpoint_set_simple() {
    let mut checkpoint_hot_cold_set: CpSet = CheckpointHotColdSet::new(ReliableSet::default(), ReliableSet::default());
    let mut hot = ReliableSet::default();
    let cold = ReliableSet::default();
    let checkpoint = TestCheckpoint::A(1);

    assert_eq!(hot.contains(&[checkpoint]), false);
    assert_eq!(cold.contains(&[checkpoint]), false);
    assert_eq!(hot_satisfied(&hot, &[checkpoint]), false);
    assert_eq!(hot_satisfied(&cold, &[checkpoint]), false);

    insert(&mut checkpoint_hot_cold_set, &mut hot, vec![checkpoint]);

    assert_eq!(hot.contains(&[checkpoint]), true);
    assert_eq!(cold.contains(&[checkpoint]), false);
    assert_eq!(hot_satisfied(&hot, &[checkpoint]), true);
    assert_eq!(hot_satisfied(&cold, &[checkpoint]), false);
    assert!(checkpoint_hot_cold_set.hot_cold_set().is_consistent());
}

#[test]
pub fn test_checkpoint_set_satisfied() {
    let mut set: CpSet = CheckpointHotColdSet::new(ReliableSet::default(), ReliableSet::default());
    let mut hot = ReliableSet::default();

    insert(&mut set, &mut hot, vec![TestCheckpoint::C(1)]);
    assert_eq!(hot.contains(&[TestCheckpoint::C(1)]), true);
    assert_eq!(hot_satisfied(&hot, &[TestCheckpoint::C(1)]), false);

    insert(&mut set, &mut hot, vec![TestCheckpoint::B(1)]);
    assert_eq!(hot.contains(&[TestCheckpoint::B(1)]), true);
    assert_eq!(hot_satisfied(&hot, &[TestCheckpoint::B(1)]), false);
    assert_eq!(hot_satisfied(&hot, &[TestCheckpoint::C(1)]), false);

    insert(&mut set, &mut hot, vec![TestCheckpoint::A(2)]);
    assert_eq!(hot.contains(&[TestCheckpoint::A(2)]), true);
    assert_eq!(hot_satisfied(&hot, &[TestCheckpoint::A(2)]), true);
    assert_eq!(hot_satisfied(&hot, &[TestCheckpoint::B(1)]), false);
    assert_eq!(hot_satisfied(&hot, &[TestCheckpoint::C(1)]), false);

    insert(&mut set, &mut hot, vec![TestCheckpoint::A(1)]);
    assert_eq!(hot.contains(&[TestCheckpoint::A(1)]), true);
    assert_eq!(hot_satisfied(&hot, &[TestCheckpoint::A(1)]), true);
    assert_eq!(hot_satisfied(&hot, &[TestCheckpoint::B(1)]), true);
    assert_eq!(hot_satisfied(&hot, &[TestCheckpoint::C(1)]), true);
}

#[test]
fn satisfying_checkpoints_are_those_up_to_the_checkpoint() {
    let s = TestCheckpoint::B(4).satisfying_checkpoints().unwrap();
    let expected: BTreeSet<TestCheckpoint> = [TestCheckpoint::A(4), TestCheckpoint::B(4)].into_iter().collect();
    assert_eq!(s, expected);
    let s = TestCheckpoint::A(4).satisfying_checkpoints().unwrap();
    assert_eq!(s.len(), 1);
}

#[test]
fn satisfying_among_takes_while_at_most_bound() {
    let all: BTreeSet<u32> = [1, 3, 5, 7].into_iter().collect();
    let r = satisfying_among(all, &5);
    assert_eq!(r.into_iter().collect::<Vec<_>>(), vec![1, 3, 5]);
    let r = satisfying_among(BTreeSet::<u32>::new(), &5);
    assert!(r.is_empty());
}

#[test]
fn union_is_ascending_without_duplicates() {
    let a: BTreeSet<u32> = [5, 1].into_iter().collect();
    let b: BTreeSet<u32> = [3, 5, 9].into_iter().collect();
    assert_eq!(union_ascending(vec![a, b]), vec![1, 3, 5, 9]);
    assert_eq!(union_ascending::<u32>(vec![]), Vec::<u32>::new());
}

#[test]
fn all_satisfying_checkpoints_of_several() {
    let all = all_satisfying_checkpoints(&[TestCheckpoint::B(2), TestCheckpoint::A(1), TestCheckpoint::A(2)]).unwrap();
    assert_eq!(all, vec![TestCheckpoint::A(1), TestCheckpoint::A(2), TestCheckpoint::B(2)]);
    assert_eq!(all_satisfying_checkpoints::<TestCheckpoint>(&[]).unwrap(), Vec::<TestCheckpoint>::new());
    assert_eq!(all_satisfying_checkpoints::<Unconvertible>(&[]).unwrap(), Vec::<Unconvertible>::new());
}

#[test]
fn enumerate_checkpoints_as_members_in_order() {
    let members = TestCheckpoint::enumerate_checkpoints_as_members(&7).unwrap();
    assert_eq!(members, vec![Member(vec![b'A', 7]), Member(vec![b'B', 7]), Member(vec![b'C', 7])]);
}

#[derive(Debug, Clone, Copy, PartialEq, Eq, PartialOrd, Ord)]
struct Unconvertible(u8);

impl TryAsMember for Unconvertible {
    fn try_as_member(&self) -> Result<Member, MemberError> {
        Err(MemberError::ConversionFailed)
    }
}

impl Checkpoint for Unconvertible {
    type Data = u8;
    fn enumerate_checkpoints(inner: &u8) -> Result<BTreeSet<Self>, CheckpointError> {
        Ok([Unconvertible(*inner)].into_iter().collect())
    }
    fn try_inner(&self) -> Result<&u8, CheckpointError> {
        Err(CheckpointError::GetInnerData("no inner data".to_string()))
    }
}

#[test]
fn conversion_and_inner_data_failures() {
    match Unconvertible::enumerate_checkpoints_as_members(&1) {
        Err(CheckpointError::EnumerateCheckpoints(m)) => assert_eq!(m, "Failed to convert checkpoint to member"),
        other => panic!("unexpected {:?}", other),
    }
    match all_satisfying_checkpoints(&[Unconvertible(1)]) {
        Err(protocol_units::checkpoint_set::CheckpointHotColdSetError::InternalError(m)) => {
            assert_eq!(m, "Failed to get satisfying checkpoints: GetInnerData(\"no inner data\")")
        }
        other => panic!("unexpected {:?}", other),
    }
}
