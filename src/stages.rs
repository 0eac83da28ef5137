use vstd::prelude::*;

use crate::syscall::{catalog, catalog_at, lemma_catalog_complete, Syscall, CATALOG_LEN};

verus! {

/// A target instruction-set architecture.
#[derive(Clone, Copy, Debug, PartialEq, Eq, Structural)]
pub enum Arch {
    X86_64,
    X86,
    Arm,
    Aarch64,
}

/// The architectures on which a stage permits a syscall name.
#[derive(Clone, Copy, Debug, PartialEq, Eq, Structural)]
pub enum Applies {
    Everywhere,
    Nowhere,
    NotAarch64,
    Aarch64Only,
    ArmOnly,
    NotArm,
}

/// Whether a condition of a stage table selects `arch`.
pub open spec fn applies_on(a: Applies, arch: Arch) -> bool {
    match a {
        Applies::Everywhere => true,
        Applies::Nowhere => false,
        Applies::NotAarch64 => arch != Arch::Aarch64,
        Applies::Aarch64Only => arch == Arch::Aarch64,
        Applies::ArmOnly => arch == Arch::Arm,
        Applies::NotArm => arch != Arch::Arm,
    }
}

impl Applies {
    /// Whether this condition selects `arch`.
    pub fn holds_on(self, arch: Arch) -> (r: bool)
        ensures
            r == applies_on(self, arch),
    {
        match self {
            Applies::Everywhere => true,
            Applies::Nowhere => false,
            Applies::NotAarch64 => !matches!(arch, Arch::Aarch64),
            Applies::Aarch64Only => matches!(arch, Arch::Aarch64),
            Applies::ArmOnly => matches!(arch, Arch::Arm),
            Applies::NotArm => !matches!(arch, Arch::Arm),
        }
    }
}

/// The two stages of confinement, in the order in which they are activated.
///
/// Each activation installs a further filter on top of those already in the
/// kernel: the process-wide filter stack only ever narrows, and nothing here
/// or in the kernel removes a stage once it is installed. Activating `Setup`
/// twice, or `SteadyState` first, is the caller's mistake.
#[derive(Clone, Copy, Debug, PartialEq, Eq, Structural)]
pub enum Stage {
    /// Process start-up and privileged setup.
    Setup,
    /// Request processing over descriptors that are already open.
    SteadyState,
}

/// The setup stage's table: where each syscall name is permitted.
pub open spec fn setup_condition(s: Syscall) -> Applies {
    match s {
        Syscall::Open | Syscall::Stat | Syscall::Lstat | Syscall::Poll | Syscall::Getdents
        | Syscall::Pipe => Applies::NotAarch64,
        Syscall::Stat64 | Syscall::Fstat64 | Syscall::Lstat64 | Syscall::Mmap2 | Syscall::Send
        | Syscall::Fcntl64 | Syscall::Getuid32 | Syscall::Geteuid32 | Syscall::Getresuid32
        | Syscall::Getresgid32 | Syscall::Gettimeofday => Applies::ArmOnly,
        Syscall::Ppoll | Syscall::Newfstatat => Applies::Aarch64Only,
        Syscall::Mmap => Applies::NotArm,
        _ => Applies::Everywhere,
    }
}

/// The steady-state stage's table: where each syscall name is permitted.
pub open spec fn steady_condition(s: Syscall) -> Applies {
    match s {
        Syscall::Futex | Syscall::Read | Syscall::Write | Syscall::Close | Syscall::Mprotect
        | Syscall::Munmap | Syscall::RtSigprocmask | Syscall::Readv | Syscall::Clone
        | Syscall::Sigaltstack | Syscall::SchedGetaffinity | Syscall::SchedYield
        | Syscall::ExitGroup | Syscall::SetRobustList | Syscall::ClockGettime
        => Applies::Everywhere,
        Syscall::Poll => Applies::NotAarch64,
        Syscall::Ppoll => Applies::Aarch64Only,
        Syscall::Mmap => Applies::NotArm,
        Syscall::Mmap2 => Applies::ArmOnly,
        _ => Applies::Nowhere,
    }
}

/// Where `stage` permits the syscall `s`.
pub open spec fn condition(stage: Stage, s: Syscall) -> Applies {
    match stage {
        Stage::Setup => setup_condition(s),
        Stage::SteadyState => steady_condition(s),
    }
}

/// Whether `stage` permits `s` on `arch`.
pub open spec fn permitted(stage: Stage, arch: Arch, s: Syscall) -> bool {
    applies_on(condition(stage, s), arch)
}

/// The elements of `q` that `stage` permits on `arch`, in the order of `q`.
pub open spec fn select(q: Seq<Syscall>, stage: Stage, arch: Arch) -> Seq<Syscall>
    decreases q.len(),
{
    if q.len() == 0 {
        Seq::empty()
    } else {
        let rest = select(q.drop_last(), stage, arch);
        if permitted(stage, arch, q.last()) {
            rest.push(q.last())
        } else {
            rest
        }
    }
}

/// The resolved list of `stage` for `arch`: the syscalls that its table
/// permits there, in catalog order.
pub open spec fn stage_list(stage: Stage, arch: Arch) -> Seq<Syscall> {
    select(catalog(), stage, arch)
}

/// Where `stage` permits the syscall `s`.
pub fn condition_of(stage: Stage, s: Syscall) -> (r: Applies)
    ensures
        r == condition(stage, s),
{
    match stage {
        Stage::Setup => match s {
            Syscall::Open | Syscall::Stat | Syscall::Lstat | Syscall::Poll | Syscall::Getdents
            | Syscall::Pipe => Applies::NotAarch64,
            Syscall::Stat64 | Syscall::Fstat64 | Syscall::Lstat64 | Syscall::Mmap2
            | Syscall::Send | Syscall::Fcntl64 | Syscall::Getuid32 | Syscall::Geteuid32
            | Syscall::Getresuid32 | Syscall::Getresgid32 | Syscall::Gettimeofday
            => Applies::ArmOnly,
            Syscall::Ppoll | Syscall::Newfstatat => Applies::Aarch64Only,
            Syscall::Mmap => Applies::NotArm,
            _ => Applies::Everywhere,
        },
        Stage::SteadyState => match s {
            Syscall::Futex | Syscall::Read | Syscall::Write | Syscall::Close | Syscall::Mprotect
            | Syscall::Munmap | Syscall::RtSigprocmask | Syscall::Readv | Syscall::Clone
            | Syscall::Sigaltstack | Syscall::SchedGetaffinity | Syscall::SchedYield
            | Syscall::ExitGroup | Syscall::SetRobustList | Syscall::ClockGettime
            => Applies::Everywhere,
            Syscall::Poll => Applies::NotAarch64,
            Syscall::Ppoll => Applies::Aarch64Only,
            Syscall::Mmap => Applies::NotArm,
            Syscall::Mmap2 => Applies::ArmOnly,
            _ => Applies::Nowhere,
        },
    }
}

/// Resolves the table of `stage` for `arch` into the flat list of syscalls to
/// permit, in catalog order.
pub fn stage_syscalls(stage: Stage, arch: Arch) -> (r: Vec<Syscall>)
    ensures
        r@ == stage_list(stage, arch),
{
    let mut r: Vec<Syscall> = Vec::new();
    let mut i: usize = 0;
    while i < CATALOG_LEN
        invariant
            i <= CATALOG_LEN,
            r@ == select(catalog().take(i as int), stage, arch),
        decreases CATALOG_LEN - i,
    {
        let s = catalog_at(i);
        assert(catalog().take(i + 1).drop_last() =~= catalog().take(i as int));
        if condition_of(stage, s).holds_on(arch) {
            r.push(s);
        }
        i += 1;
    }
    assert(catalog().take(CATALOG_LEN as int) =~= catalog());
    r
}

/// An element of `q` is selected exactly when `stage` permits it on `arch`.
pub proof fn lemma_select_contains(q: Seq<Syscall>, stage: Stage, arch: Arch, s: Syscall)
    ensures
        select(q, stage, arch).contains(s) <==> (q.contains(s) && permitted(stage, arch, s)),
    decreases q.len(),
{
    if q.len() > 0 {
        let p = q.drop_last();
        lemma_select_contains(p, stage, arch, s);
        let rest = select(p, stage, arch);
        let r = select(q, stage, arch);
        if q.contains(s) && permitted(stage, arch, s) {
            let k = choose|k: int| 0 <= k < q.len() && q[k] == s;
            if k < q.len() - 1 {
                assert(p[k] == s);
                let j = choose|j: int| 0 <= j < rest.len() && rest[j] == s;
                assert(r[j] == s);
            } else {
                assert(r[rest.len() as int] == s);
            }
        }
        if r.contains(s) {
            let k = choose|k: int| 0 <= k < r.len() && r[k] == s;
            if k < rest.len() {
                assert(rest[k] == s);
                let j = choose|j: int| 0 <= j < p.len() && p[j] == s;
                assert(q[j] == s);
            } else {
                assert(q[q.len() - 1] == s);
            }
        }
    }
}

/// The resolved list of a stage holds a syscall exactly when the stage's table
/// permits it on that architecture.
pub proof fn lemma_stage_list_contains(stage: Stage, arch: Arch, s: Syscall)
    ensures
        stage_list(stage, arch).contains(s) <==> permitted(stage, arch, s),
{
    lemma_catalog_complete(s);
    lemma_select_contains(catalog(), stage, arch, s);
}

/// On every architecture the setup list keeps what start-up and privileged
/// setup need: file probing and reading, socket set-up, credential queries and
/// drops, chroot, the calls that install the next filter, and what keeps the
/// runtime alive; the polling and mapping variants follow the architecture.
pub proof fn lemma_setup_keeps_setup_needs(arch: Arch)
    ensures
        stage_list(Stage::Setup, arch).contains(Syscall::Read),
        stage_list(Stage::Setup, arch).contains(Syscall::Write),
        stage_list(Stage::Setup, arch).contains(Syscall::Close),
        stage_list(Stage::Setup, arch).contains(Syscall::Openat),
        stage_list(Stage::Setup, arch).contains(Syscall::Fstat),
        stage_list(Stage::Setup, arch).contains(Syscall::Lseek),
        stage_list(Stage::Setup, arch).contains(Syscall::Getdents64),
        stage_list(Stage::Setup, arch).contains(Syscall::Socket),
        stage_list(Stage::Setup, arch).contains(Syscall::Connect),
        stage_list(Stage::Setup, arch).contains(Syscall::Bind),
        stage_list(Stage::Setup, arch).contains(Syscall::Setsockopt),
        stage_list(Stage::Setup, arch).contains(Syscall::Getsockname),
        stage_list(Stage::Setup, arch).contains(Syscall::Getuid),
        stage_list(Stage::Setup, arch).contains(Syscall::Getgid),
        stage_list(Stage::Setup, arch).contains(Syscall::Geteuid),
        stage_list(Stage::Setup, arch).contains(Syscall::Getegid),
        stage_list(Stage::Setup, arch).contains(Syscall::Setuid),
        stage_list(Stage::Setup, arch).contains(Syscall::Setgid),
        stage_list(Stage::Setup, arch).contains(Syscall::Getgroups),
        stage_list(Stage::Setup, arch).contains(Syscall::Setgroups),
        stage_list(Stage::Setup, arch).contains(Syscall::Chdir),
        stage_list(Stage::Setup, arch).contains(Syscall::Chroot),
        stage_list(Stage::Setup, arch).contains(Syscall::Prctl),
        stage_list(Stage::Setup, arch).contains(Syscall::Seccomp),
        stage_list(Stage::Setup, arch).contains(Syscall::Futex),
        stage_list(Stage::Setup, arch).contains(Syscall::Mprotect),
        stage_list(Stage::Setup, arch).contains(Syscall::Munmap),
        stage_list(Stage::Setup, arch).contains(Syscall::Sigaltstack),
        stage_list(Stage::Setup, arch).contains(Syscall::SchedYield),
        stage_list(Stage::Setup, arch).contains(Syscall::RtSigprocmask),
        stage_list(Stage::Setup, arch).contains(Syscall::Clone),
        stage_list(Stage::Setup, arch).contains(Syscall::ExitGroup),
        stage_list(Stage::Setup, arch).contains(Syscall::SetRobustList),
        stage_list(Stage::Setup, arch).contains(Syscall::ClockGettime),
        stage_list(Stage::Setup, arch).contains(Syscall::Getrandom),
        arch != Arch::Aarch64 ==> stage_list(Stage::Setup, arch).contains(Syscall::Poll),
        arch == Arch::Aarch64 ==> stage_list(Stage::Setup, arch).contains(Syscall::Ppoll),
        arch != Arch::Arm ==> stage_list(Stage::Setup, arch).contains(Syscall::Mmap),
        arch == Arch::Arm ==> stage_list(Stage::Setup, arch).contains(Syscall::Mmap2),
{
    lemma_stage_list_contains(Stage::Setup, arch, Syscall::Read);
    lemma_stage_list_contains(Stage::Setup, arch, Syscall::Write);
    lemma_stage_list_contains(Stage::Setup, arch, Syscall::Close);
    lemma_stage_list_contains(Stage::Setup, arch, Syscall::Openat);
    lemma_stage_list_contains(Stage::Setup, arch, Syscall::Fstat);
    lemma_stage_list_contains(Stage::Setup, arch, Syscall::Lseek);
    lemma_stage_list_contains(Stage::Setup, arch, Syscall::Getdents64);
    lemma_stage_list_contains(Stage::Setup, arch, Syscall::Socket);
    lemma_stage_list_contains(Stage::Setup, arch, Syscall::Connect);
    lemma_stage_list_contains(Stage::Setup, arch, Syscall::Bind);
    lemma_stage_list_contains(Stage::Setup, arch, Syscall::Setsockopt);
    lemma_stage_list_contains(Stage::Setup, arch, Syscall::Getsockname);
    lemma_stage_list_contains(Stage::Setup, arch, Syscall::Getuid);
    lemma_stage_list_contains(Stage::Setup, arch, Syscall::Getgid);
    lemma_stage_list_contains(Stage::Setup, arch, Syscall::Geteuid);
    lemma_stage_list_contains(Stage::Setup, arch, Syscall::Getegid);
    lemma_stage_list_contains(Stage::Setup, arch, Syscall::Setuid);
    lemma_stage_list_contains(Stage::Setup, arch, Syscall::Setgid);
    lemma_stage_list_contains(Stage::Setup, arch, Syscall::Getgroups);
    lemma_stage_list_contains(Stage::Setup, arch, Syscall::Setgroups);
    lemma_stage_list_contains(Stage::Setup, arch, Syscall::Chdir);
    lemma_stage_list_contains(Stage::Setup, arch, Syscall::Chroot);
    lemma_stage_list_contains(Stage::Setup, arch, Syscall::Prctl);
    lemma_stage_list_contains(Stage::Setup, arch, Syscall::Seccomp);
    lemma_stage_list_contains(Stage::Setup, arch, Syscall::Futex);
    lemma_stage_list_contains(Stage::Setup, arch, Syscall::Mprotect);
    lemma_stage_list_contains(Stage::Setup, arch, Syscall::Munmap);
    lemma_stage_list_contains(Stage::Setup, arch, Syscall::Sigaltstack);
    lemma_stage_list_contains(Stage::Setup, arch, Syscall::SchedYield);
    lemma_stage_list_contains(Stage::Setup, arch, Syscall::RtSigprocmask);
    lemma_stage_list_contains(Stage::Setup, arch, Syscall::Clone);
    lemma_stage_list_contains(Stage::Setup, arch, Syscall::ExitGroup);
    lemma_stage_list_contains(Stage::Setup, arch, Syscall::SetRobustList);
    lemma_stage_list_contains(Stage::Setup, arch, Syscall::ClockGettime);
    lemma_stage_list_contains(Stage::Setup, arch, Syscall::Getrandom);
    lemma_stage_list_contains(Stage::Setup, arch, Syscall::Poll);
    lemma_stage_list_contains(Stage::Setup, arch, Syscall::Ppoll);
    lemma_stage_list_contains(Stage::Setup, arch, Syscall::Mmap);
    lemma_stage_list_contains(Stage::Setup, arch, Syscall::Mmap2);
}

/// On every architecture the steady-state list keeps what request processing
/// over open descriptors needs: reading, writing and closing, memory
/// protection, worker threads, timing and a clean exit; the polling and
/// mapping variants follow the architecture.
pub proof fn lemma_steady_state_keeps_steady_needs(arch: Arch)
    ensures
        stage_list(Stage::SteadyState, arch).contains(Syscall::Futex),
        stage_list(Stage::SteadyState, arch).contains(Syscall::Read),
        stage_list(Stage::SteadyState, arch).contains(Syscall::Write),
        stage_list(Stage::SteadyState, arch).contains(Syscall::Close),
        stage_list(Stage::SteadyState, arch).contains(Syscall::Readv),
        stage_list(Stage::SteadyState, arch).contains(Syscall::Mprotect),
        stage_list(Stage::SteadyState, arch).contains(Syscall::Munmap),
        stage_list(Stage::SteadyState, arch).contains(Syscall::RtSigprocmask),
        stage_list(Stage::SteadyState, arch).contains(Syscall::Clone),
        stage_list(Stage::SteadyState, arch).contains(Syscall::Sigaltstack),
        stage_list(Stage::SteadyState, arch).contains(Syscall::SchedGetaffinity),
        stage_list(Stage::SteadyState, arch).contains(Syscall::SchedYield),
        stage_list(Stage::SteadyState, arch).contains(Syscall::ExitGroup),
        stage_list(Stage::SteadyState, arch).contains(Syscall::SetRobustList),
        stage_list(Stage::SteadyState, arch).contains(Syscall::ClockGettime),
        arch != Arch::Aarch64 ==> stage_list(Stage::SteadyState, arch).contains(Syscall::Poll),
        arch == Arch::Aarch64 ==> stage_list(Stage::SteadyState, arch).contains(Syscall::Ppoll),
        arch != Arch::Arm ==> stage_list(Stage::SteadyState, arch).contains(Syscall::Mmap),
        arch == Arch::Arm ==> stage_list(Stage::SteadyState, arch).contains(Syscall::Mmap2),
{
    lemma_stage_list_contains(Stage::SteadyState, arch, Syscall::Futex);
    lemma_stage_list_contains(Stage::SteadyState, arch, Syscall::Read);
    lemma_stage_list_contains(Stage::SteadyState, arch, Syscall::Write);
    lemma_stage_list_contains(Stage::SteadyState, arch, Syscall::Close);
    lemma_stage_list_contains(Stage::SteadyState, arch, Syscall::Readv);
    lemma_stage_list_contains(Stage::SteadyState, arch, Syscall::Mprotect);
    lemma_stage_list_contains(Stage::SteadyState, arch, Syscall::Munmap);
    lemma_stage_list_contains(Stage::SteadyState, arch, Syscall::RtSigprocmask);
    lemma_stage_list_contains(Stage::SteadyState, arch, Syscall::Clone);
    lemma_stage_list_contains(Stage::SteadyState, arch, Syscall::Sigaltstack);
    lemma_stage_list_contains(Stage::SteadyState, arch, Syscall::SchedGetaffinity);
    lemma_stage_list_contains(Stage::SteadyState, arch, Syscall::SchedYield);
    lemma_stage_list_contains(Stage::SteadyState, arch, Syscall::ExitGroup);
    lemma_stage_list_contains(Stage::SteadyState, arch, Syscall::SetRobustList);
    lemma_stage_list_contains(Stage::SteadyState, arch, Syscall::ClockGettime);
    lemma_stage_list_contains(Stage::SteadyState, arch, Syscall::Poll);
    lemma_stage_list_contains(Stage::SteadyState, arch, Syscall::Ppoll);
    lemma_stage_list_contains(Stage::SteadyState, arch, Syscall::Mmap);
    lemma_stage_list_contains(Stage::SteadyState, arch, Syscall::Mmap2);
}

/// Narrowing: on every architecture, the steady-state list holds no syscall
/// that the setup list lacks, so activating it from inside the setup stage
/// can only take permissions away.
pub proof fn lemma_steady_state_narrows_setup(arch: Arch, s: Syscall)
    ensures
        stage_list(Stage::SteadyState, arch).contains(s) ==> stage_list(Stage::Setup, arch).contains(s),
{
    lemma_stage_list_contains(Stage::SteadyState, arch, s);
    lemma_stage_list_contains(Stage::Setup, arch, s);
}

/// The steady-state list keeps none of the setup-only operations: no path
/// resolution, no new sockets, no credential changes, no further filter
/// installation; it keeps reading and writing on open descriptors and exiting.
pub proof fn lemma_steady_state_drops_setup_only(arch: Arch)
    ensures
        !stage_list(Stage::SteadyState, arch).contains(Syscall::Open),
        !stage_list(Stage::SteadyState, arch).contains(Syscall::Openat),
        !stage_list(Stage::SteadyState, arch).contains(Syscall::Stat),
        !stage_list(Stage::SteadyState, arch).contains(Syscall::Chdir),
        !stage_list(Stage::SteadyState, arch).contains(Syscall::Chroot),
        !stage_list(Stage::SteadyState, arch).contains(Syscall::Socket),
        !stage_list(Stage::SteadyState, arch).contains(Syscall::Connect),
        !stage_list(Stage::SteadyState, arch).contains(Syscall::Bind),
        !stage_list(Stage::SteadyState, arch).contains(Syscall::Setuid),
        !stage_list(Stage::SteadyState, arch).contains(Syscall::Setgid),
        !stage_list(Stage::SteadyState, arch).contains(Syscall::Setgroups),
        !stage_list(Stage::SteadyState, arch).contains(Syscall::Prctl),
        !stage_list(Stage::SteadyState, arch).contains(Syscall::Seccomp),
        stage_list(Stage::SteadyState, arch).contains(Syscall::Read),
        stage_list(Stage::SteadyState, arch).contains(Syscall::Write),
        stage_list(Stage::SteadyState, arch).contains(Syscall::Close),
        stage_list(Stage::SteadyState, arch).contains(Syscall::ExitGroup),
{
    lemma_stage_list_contains(Stage::SteadyState, arch, Syscall::Open);
    lemma_stage_list_contains(Stage::SteadyState, arch, Syscall::Openat);
    lemma_stage_list_contains(Stage::SteadyState, arch, Syscall::Stat);
    lemma_stage_list_contains(Stage::SteadyState, arch, Syscall::Chdir);
    lemma_stage_list_contains(Stage::SteadyState, arch, Syscall::Chroot);
    lemma_stage_list_contains(Stage::SteadyState, arch, Syscall::Socket);
    lemma_stage_list_contains(Stage::SteadyState, arch, Syscall::Connect);
    lemma_stage_list_contains(Stage::SteadyState, arch, Syscall::Bind);
    lemma_stage_list_contains(Stage::SteadyState, arch, Syscall::Setuid);
    lemma_stage_list_contains(Stage::SteadyState, arch, Syscall::Setgid);
    lemma_stage_list_contains(Stage::SteadyState, arch, Syscall::Setgroups);
    lemma_stage_list_contains(Stage::SteadyState, arch, Syscall::Prctl);
    lemma_stage_list_contains(Stage::SteadyState, arch, Syscall::Seccomp);
    lemma_stage_list_contains(Stage::SteadyState, arch, Syscall::Read);
    lemma_stage_list_contains(Stage::SteadyState, arch, Syscall::Write);
    lemma_stage_list_contains(Stage::SteadyState, arch, Syscall::Close);
    lemma_stage_list_contains(Stage::SteadyState, arch, Syscall::ExitGroup);
}

} // verus!
