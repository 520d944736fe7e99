use bayes_mixture::schedule::{Phase, RunSchedule};

#[test]
fn schedule_burn_in_then_record() {
    let mut s = RunSchedule::new(100, 500);
    assert_eq!(s.steps_left(), 600);
    let mut burn = 0;
    let mut rec = 0;
    while let Some(p) = s.next_phase() {
        match p {
            Phase::BurnIn => {
                assert_eq!(rec, 0);
                burn += 1;
            }
            Phase::Record => rec += 1,
        }
    }
    assert_eq!(burn, 100);
    assert_eq!(rec, 500);
    assert_eq!(s.next_phase(), None);
    assert_eq!(s.steps_left(), 0);
}

#[test]
fn schedule_without_burn_in() {
    let mut s = RunSchedule::new(0, 2);
    assert_eq!(s.next_phase(), Some(Phase::Record));
    assert_eq!(s.next_phase(), Some(Phase::Record));
    assert_eq!(s.next_phase(), None);
}

#[test]
fn schedule_empty_run() {
    let mut s = RunSchedule::new(0, 0);
    assert_eq!(s.next_phase(), None);
}
