use seccomp_stages::stages::{condition_of, stage_syscalls, Applies, Arch, Stage};
use seccomp_stages::syscall::{catalog_at, Syscall, CATALOG_LEN};

fn setup_x86_64() -> Vec<Syscall> {
    vec![
        Syscall::Futex,
        Syscall::Read,
        Syscall::Write,
        Syscall::Open,
        Syscall::Close,
        Syscall::Stat,
        Syscall::Fstat,
        Syscall::Lstat,
        Syscall::Poll,
        Syscall::Lseek,
        Syscall::Mmap,
        Syscall::Mprotect,
        Syscall::Munmap,
        Syscall::RtSigprocmask,
        Syscall::Ioctl,
        Syscall::Readv,
        Syscall::Socket,
        Syscall::Connect,
        Syscall::Sendto,
        Syscall::Recvfrom,
        Syscall::Sendmsg,
        Syscall::Recvmsg,
        Syscall::Bind,
        Syscall::Getsockname,
        Syscall::Setsockopt,
        Syscall::Getsockopt,
        Syscall::Clone,
        Syscall::Uname,
        Syscall::Fcntl,
        Syscall::Getdents,
        Syscall::Chdir,
        Syscall::Getuid,
        Syscall::Getgid,
        Syscall::Geteuid,
        Syscall::Getegid,
        Syscall::Setuid,
        Syscall::Setgid,
        Syscall::Getgroups,
        Syscall::Setgroups,
        Syscall::Getresuid,
        Syscall::Getresgid,
        Syscall::Sigaltstack,
        Syscall::Prctl,
        Syscall::Chroot,
        Syscall::SchedGetaffinity,
        Syscall::SchedYield,
        Syscall::Getdents64,
        Syscall::ClockGetres,
        Syscall::ExitGroup,
        Syscall::SetRobustList,
        Syscall::Openat,
        Syscall::Seccomp,
        Syscall::Getrandom,
        Syscall::Pipe,
        Syscall::Wait4,
        Syscall::ClockGettime,
    ]
}

fn setup_arm() -> Vec<Syscall> {
    vec![
        Syscall::Futex,
        Syscall::Read,
        Syscall::Write,
        Syscall::Open,
        Syscall::Close,
        Syscall::Stat,
        Syscall::Stat64,
        Syscall::Fstat,
        Syscall::Fstat64,
        Syscall::Lstat,
        Syscall::Lstat64,
        Syscall::Poll,
        Syscall::Lseek,
        Syscall::Mmap2,
        Syscall::Mprotect,
        Syscall::Munmap,
        Syscall::RtSigprocmask,
        Syscall::Ioctl,
        Syscall::Readv,
        Syscall::Socket,
        Syscall::Connect,
        Syscall::Send,
        Syscall::Sendto,
        Syscall::Recvfrom,
        Syscall::Sendmsg,
        Syscall::Recvmsg,
        Syscall::Bind,
        Syscall::Getsockname,
        Syscall::Setsockopt,
        Syscall::Getsockopt,
        Syscall::Clone,
        Syscall::Uname,
        Syscall::Fcntl,
        Syscall::Fcntl64,
        Syscall::Getdents,
        Syscall::Chdir,
        Syscall::Getuid,
        Syscall::Getuid32,
        Syscall::Getgid,
        Syscall::Geteuid,
        Syscall::Geteuid32,
        Syscall::Getegid,
        Syscall::Setuid,
        Syscall::Setgid,
        Syscall::Getgroups,
        Syscall::Setgroups,
        Syscall::Getresuid,
        Syscall::Getresuid32,
        Syscall::Getresgid,
        Syscall::Getresgid32,
        Syscall::Sigaltstack,
        Syscall::Prctl,
        Syscall::Chroot,
        Syscall::SchedGetaffinity,
        Syscall::SchedYield,
        Syscall::Getdents64,
        Syscall::ClockGetres,
        Syscall::ExitGroup,
        Syscall::SetRobustList,
        Syscall::Openat,
        Syscall::Seccomp,
        Syscall::Getrandom,
        Syscall::Pipe,
        Syscall::Wait4,
        Syscall::ClockGettime,
        Syscall::Gettimeofday,
    ]
}

fn setup_aarch64() -> Vec<Syscall> {
    vec![
        Syscall::Futex,
        Syscall::Read,
        Syscall::Write,
        Syscall::Close,
        Syscall::Fstat,
        Syscall::Ppoll,
        Syscall::Lseek,
        Syscall::Mmap,
        Syscall::Mprotect,
        Syscall::Munmap,
        Syscall::RtSigprocmask,
        Syscall::Ioctl,
        Syscall::Readv,
        Syscall::Socket,
        Syscall::Connect,
        Syscall::Sendto,
        Syscall::Recvfrom,
        Syscall::Sendmsg,
        Syscall::Recvmsg,
        Syscall::Bind,
        Syscall::Getsockname,
        Syscall::Setsockopt,
        Syscall::Getsockopt,
        Syscall::Clone,
        Syscall::Uname,
        Syscall::Fcntl,
        Syscall::Chdir,
        Syscall::Getuid,
        Syscall::Getgid,
        Syscall::Geteuid,
        Syscall::Getegid,
        Syscall::Setuid,
        Syscall::Setgid,
        Syscall::Getgroups,
        Syscall::Setgroups,
        Syscall::Getresuid,
        Syscall::Getresgid,
        Syscall::Sigaltstack,
        Syscall::Prctl,
        Syscall::Chroot,
        Syscall::SchedGetaffinity,
        Syscall::SchedYield,
        Syscall::Getdents64,
        Syscall::ClockGetres,
        Syscall::ExitGroup,
        Syscall::SetRobustList,
        Syscall::Openat,
        Syscall::Newfstatat,
        Syscall::Seccomp,
        Syscall::Getrandom,
        Syscall::Wait4,
        Syscall::ClockGettime,
    ]
}

fn steady_x86_64() -> Vec<Syscall> {
    vec![
        Syscall::Futex,
        Syscall::Read,
        Syscall::Write,
        Syscall::Close,
        Syscall::Poll,
        Syscall::Mmap,
        Syscall::Mprotect,
        Syscall::Munmap,
        Syscall::RtSigprocmask,
        Syscall::Readv,
        Syscall::Clone,
        Syscall::Sigaltstack,
        Syscall::SchedGetaffinity,
        Syscall::SchedYield,
        Syscall::ExitGroup,
        Syscall::SetRobustList,
        Syscall::ClockGettime,
    ]
}

fn steady_arm() -> Vec<Syscall> {
    vec![
        Syscall::Futex,
        Syscall::Read,
        Syscall::Write,
        Syscall::Close,
        Syscall::Poll,
        Syscall::Mmap2,
        Syscall::Mprotect,
        Syscall::Munmap,
        Syscall::RtSigprocmask,
        Syscall::Readv,
        Syscall::Clone,
        Syscall::Sigaltstack,
        Syscall::SchedGetaffinity,
        Syscall::SchedYield,
        Syscall::ExitGroup,
        Syscall::SetRobustList,
        Syscall::ClockGettime,
    ]
}

fn steady_aarch64() -> Vec<Syscall> {
    vec![
        Syscall::Futex,
        Syscall::Read,
        Syscall::Write,
        Syscall::Close,
        Syscall::Ppoll,
        Syscall::Mmap,
        Syscall::Mprotect,
        Syscall::Munmap,
        Syscall::RtSigprocmask,
        Syscall::Readv,
        Syscall::Clone,
        Syscall::Sigaltstack,
        Syscall::SchedGetaffinity,
        Syscall::SchedYield,
        Syscall::ExitGroup,
        Syscall::SetRobustList,
        Syscall::ClockGettime,
    ]
}

fn arches() -> Vec<Arch> {
    vec![Arch::X86_64, Arch::X86, Arch::Arm, Arch::Aarch64]
}

#[test]
fn setup_list_x86_64() {
    assert_eq!(stage_syscalls(Stage::Setup, Arch::X86_64), setup_x86_64());
}

#[test]
fn setup_list_x86_matches_x86_64() {
    assert_eq!(stage_syscalls(Stage::Setup, Arch::X86), setup_x86_64());
    assert_eq!(stage_syscalls(Stage::SteadyState, Arch::X86), steady_x86_64());
}

#[test]
fn setup_list_arm() {
    assert_eq!(stage_syscalls(Stage::Setup, Arch::Arm), setup_arm());
}

#[test]
fn setup_list_aarch64() {
    assert_eq!(stage_syscalls(Stage::Setup, Arch::Aarch64), setup_aarch64());
}

#[test]
fn steady_list_x86_64() {
    assert_eq!(stage_syscalls(Stage::SteadyState, Arch::X86_64), steady_x86_64());
}

#[test]
fn steady_list_arm() {
    assert_eq!(stage_syscalls(Stage::SteadyState, Arch::Arm), steady_arm());
}

#[test]
fn steady_list_aarch64() {
    assert_eq!(stage_syscalls(Stage::SteadyState, Arch::Aarch64), steady_aarch64());
}

#[test]
fn steady_state_is_within_setup_on_every_arch() {
    for arch in arches() {
        let setup = stage_syscalls(Stage::Setup, arch);
        for s in stage_syscalls(Stage::SteadyState, arch) {
            assert!(setup.contains(&s), "{:?} on {:?}", s, arch);
        }
    }
}

#[test]
fn steady_state_drops_setup_only_calls() {
    for arch in arches() {
        let steady = stage_syscalls(Stage::SteadyState, arch);
        for s in [
            Syscall::Socket,
            Syscall::Connect,
            Syscall::Bind,
            Syscall::Open,
            Syscall::Openat,
            Syscall::Setuid,
            Syscall::Setgid,
            Syscall::Setgroups,
            Syscall::Chroot,
            Syscall::Chdir,
            Syscall::Seccomp,
            Syscall::Prctl,
        ] {
            assert!(!steady.contains(&s), "{:?} on {:?}", s, arch);
        }
    }
}

#[test]
fn lists_have_no_repeats() {
    for arch in arches() {
        for stage in [Stage::Setup, Stage::SteadyState] {
            let list = stage_syscalls(stage, arch);
            for (i, a) in list.iter().enumerate() {
                assert!(!list[i + 1..].contains(a));
            }
        }
    }
}

#[test]
fn polling_and_mapping_variants_follow_the_arch() {
    let x86 = stage_syscalls(Stage::SteadyState, Arch::X86_64);
    assert!(x86.contains(&Syscall::Poll) && !x86.contains(&Syscall::Ppoll));
    assert!(x86.contains(&Syscall::Mmap) && !x86.contains(&Syscall::Mmap2));
    let a64 = stage_syscalls(Stage::SteadyState, Arch::Aarch64);
    assert!(a64.contains(&Syscall::Ppoll) && !a64.contains(&Syscall::Poll));
    let arm = stage_syscalls(Stage::SteadyState, Arch::Arm);
    assert!(arm.contains(&Syscall::Mmap2) && !arm.contains(&Syscall::Mmap));
    let setup_x86 = stage_syscalls(Stage::Setup, Arch::X86_64);
    assert!(!setup_x86.contains(&Syscall::Getuid32));
    assert!(stage_syscalls(Stage::Setup, Arch::Arm).contains(&Syscall::Getuid32));
}

#[test]
fn conditions_select_architectures() {
    assert!(Applies::Everywhere.holds_on(Arch::Arm));
    assert!(!Applies::Nowhere.holds_on(Arch::X86_64));
    assert!(Applies::NotAarch64.holds_on(Arch::X86));
    assert!(!Applies::NotAarch64.holds_on(Arch::Aarch64));
    assert!(Applies::Aarch64Only.holds_on(Arch::Aarch64));
    assert!(!Applies::ArmOnly.holds_on(Arch::Aarch64));
    assert!(!Applies::NotArm.holds_on(Arch::Arm));
    assert_eq!(condition_of(Stage::Setup, Syscall::Open), Applies::NotAarch64);
    assert_eq!(condition_of(Stage::SteadyState, Syscall::Open), Applies::Nowhere);
    assert_eq!(condition_of(Stage::SteadyState, Syscall::Mmap2), Applies::ArmOnly);
}

#[test]
fn catalog_and_names() {
    assert_eq!(CATALOG_LEN, 69);
    assert_eq!(catalog_at(0), Syscall::Futex);
    assert_eq!(catalog_at(CATALOG_LEN - 1), Syscall::Gettimeofday);
    assert_eq!(Syscall::RtSigprocmask.name(), "rt_sigprocmask");
    assert_eq!(Syscall::Newfstatat.name(), "newfstatat");
    assert_eq!(Syscall::Getresgid32.name(), "getresgid32");
    assert_eq!(Syscall::SetRobustList.name(), "set_robust_list");
}

#[test]
fn scenario_setup_then_steady_state_on_x86_64() {
    let setup = stage_syscalls(Stage::Setup, Arch::X86_64);
    for s in [Syscall::Openat, Syscall::Read, Syscall::Socket, Syscall::Connect, Syscall::Setuid] {
        assert!(setup.contains(&s));
    }
    let steady = stage_syscalls(Stage::SteadyState, Arch::X86_64);
    assert!(!steady.contains(&Syscall::Socket));
    assert!(steady.contains(&Syscall::Read));
}
