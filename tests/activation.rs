use seccomp_stages::activation::{Action, Activation, Phase, SeccompError};
use seccomp_stages::stages::{stage_syscalls, Arch, Stage};
use seccomp_stages::syscall::Syscall;

/// Runs an activation against a backend whose answers to create, permit and
/// commit are given in order (a release always succeeds); returns every
/// action asked for, the last being the finish.
fn drive(mut act: Activation, answers: Vec<bool>) -> Vec<Action> {
    let mut seen = Vec::new();
    let mut next = answers.into_iter();
    loop {
        let a = act.action();
        seen.push(a);
        let ok = match a {
            Action::Finish(_) => return seen,
            Action::Release => true,
            _ => next.next().expect("backend asked more often than scripted"),
        };
        act.record(ok);
        assert!(seen.len() < 1000);
    }
}

fn releases(acts: &[Action]) -> usize {
    acts.iter().filter(|a| **a == Action::Release).count()
}

#[test]
fn accepting_backend_runs_the_script() {
    let list = vec![Syscall::Read, Syscall::Write, Syscall::Close];
    let acts = drive(Activation::new(list), vec![true; 5]);
    assert_eq!(
        acts,
        vec![
            Action::Create,
            Action::Permit(Syscall::Read),
            Action::Permit(Syscall::Write),
            Action::Permit(Syscall::Close),
            Action::Commit,
            Action::Release,
            Action::Finish(Ok(())),
        ]
    );
}

#[test]
fn empty_list_goes_straight_to_commit() {
    let acts = drive(Activation::new(Vec::new()), vec![true, true]);
    assert_eq!(
        acts,
        vec![Action::Create, Action::Commit, Action::Release, Action::Finish(Ok(()))]
    );
}

#[test]
fn failed_create_releases_nothing() {
    let acts = drive(Activation::new(vec![Syscall::Read]), vec![false]);
    assert_eq!(acts, vec![Action::Create, Action::Finish(Err(SeccompError::FFI))]);
    assert_eq!(releases(&acts), 0);
}

#[test]
fn failed_permit_skips_commit_and_releases_once() {
    let list = vec![Syscall::Read, Syscall::Write, Syscall::Close];
    let acts = drive(Activation::new(list), vec![true, true, false]);
    assert_eq!(
        acts,
        vec![
            Action::Create,
            Action::Permit(Syscall::Read),
            Action::Permit(Syscall::Write),
            Action::Release,
            Action::Finish(Err(SeccompError::FFI)),
        ]
    );
    assert!(!acts.contains(&Action::Commit));
    assert_eq!(releases(&acts), 1);
}

#[test]
fn failed_first_permit_of_a_stage() {
    let act = Activation::for_stage(Stage::SteadyState, Arch::X86_64);
    let acts = drive(act, vec![true, false]);
    assert_eq!(
        acts,
        vec![
            Action::Create,
            Action::Permit(Syscall::Futex),
            Action::Release,
            Action::Finish(Err(SeccompError::FFI)),
        ]
    );
}

#[test]
fn failed_commit_still_releases_once() {
    let acts = drive(Activation::new(vec![Syscall::Read]), vec![true, true, false]);
    assert_eq!(
        acts,
        vec![
            Action::Create,
            Action::Permit(Syscall::Read),
            Action::Commit,
            Action::Release,
            Action::Finish(Err(SeccompError::FFI)),
        ]
    );
    assert_eq!(releases(&acts), 1);
}

#[test]
fn permitting_twice_succeeds_like_once() {
    let twice = drive(Activation::new(vec![Syscall::Read, Syscall::Read]), vec![true; 4]);
    let once = drive(Activation::new(vec![Syscall::Read]), vec![true; 3]);
    assert_eq!(twice.last(), once.last());
    assert_eq!(twice.last(), Some(&Action::Finish(Ok(()))));
    assert_eq!(releases(&twice), 1);
}

#[test]
fn stage_activation_permits_its_whole_list() {
    for stage in [Stage::Setup, Stage::SteadyState] {
        let list = stage_syscalls(stage, Arch::Aarch64);
        let acts = drive(Activation::for_stage(stage, Arch::Aarch64), vec![true; list.len() + 2]);
        let permitted: Vec<Syscall> = acts
            .iter()
            .filter_map(|a| match a {
                Action::Permit(s) => Some(*s),
                _ => None,
            })
            .collect();
        assert_eq!(permitted, list);
        assert_eq!(acts[acts.len() - 3], Action::Commit);
        assert_eq!(acts.last(), Some(&Action::Finish(Ok(()))));
    }
}

#[test]
fn phases_in_order() {
    let mut act = Activation::new(vec![Syscall::Read, Syscall::Write]);
    assert_eq!(act.current_phase(), Phase::Create);
    act.record(true);
    assert_eq!(act.current_phase(), Phase::Permit(0));
    act.record(true);
    assert_eq!(act.current_phase(), Phase::Permit(1));
    act.record(true);
    assert_eq!(act.current_phase(), Phase::Commit);
    act.record(true);
    assert_eq!(act.current_phase(), Phase::Release(true));
    assert!(!act.is_finished());
    act.record(true);
    assert_eq!(act.current_phase(), Phase::Finished(true));
    assert!(act.is_finished());
    act.record(false);
    assert_eq!(act.current_phase(), Phase::Finished(true));
}
