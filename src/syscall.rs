use vstd::prelude::*;

verus! {

/// A kernel operation class that a stage may permit, named symbolically.
///
/// The numeric identifier of each name depends on the instruction-set
/// architecture and is looked up by the filtering backend when a rule is added.
#[derive(Clone, Copy, Debug, PartialEq, Eq, Structural, Hash)]
pub enum Syscall {
    Futex,
    Read,
    Write,
    Open,
    Close,
    Stat,
    Stat64,
    Fstat,
    Fstat64,
    Lstat,
    Lstat64,
    Poll,
    Ppoll,
    Lseek,
    Mmap,
    Mmap2,
    Mprotect,
    Munmap,
    RtSigprocmask,
    Ioctl,
    Readv,
    Socket,
    Connect,
    Send,
    Sendto,
    Recvfrom,
    Sendmsg,
    Recvmsg,
    Bind,
    Getsockname,
    Setsockopt,
    Getsockopt,
    Clone,
    Uname,
    Fcntl,
    Fcntl64,
    Getdents,
    Chdir,
    Getuid,
    Getuid32,
    Getgid,
    Geteuid,
    Geteuid32,
    Getegid,
    Setuid,
    Setgid,
    Getgroups,
    Setgroups,
    Getresuid,
    Getresuid32,
    Getresgid,
    Getresgid32,
    Sigaltstack,
    Prctl,
    Chroot,
    SchedGetaffinity,
    SchedYield,
    Getdents64,
    ClockGetres,
    ExitGroup,
    SetRobustList,
    Openat,
    Newfstatat,
    Seccomp,
    Getrandom,
    Pipe,
    Wait4,
    ClockGettime,
    Gettimeofday,
}

/// The kernel's name of a syscall.
pub open spec fn syscall_name(s: Syscall) -> Seq<char> {
    match s {
        Syscall::Futex => "futex"@,
        Syscall::Read => "read"@,
        Syscall::Write => "write"@,
        Syscall::Open => "open"@,
        Syscall::Close => "close"@,
        Syscall::Stat => "stat"@,
        Syscall::Stat64 => "stat64"@,
        Syscall::Fstat => "fstat"@,
        Syscall::Fstat64 => "fstat64"@,
        Syscall::Lstat => "lstat"@,
        Syscall::Lstat64 => "lstat64"@,
        Syscall::Poll => "poll"@,
        Syscall::Ppoll => "ppoll"@,
        Syscall::Lseek => "lseek"@,
        Syscall::Mmap => "mmap"@,
        Syscall::Mmap2 => "mmap2"@,
        Syscall::Mprotect => "mprotect"@,
        Syscall::Munmap => "munmap"@,
        Syscall::RtSigprocmask => "rt_sigprocmask"@,
        Syscall::Ioctl => "ioctl"@,
        Syscall::Readv => "readv"@,
        Syscall::Socket => "socket"@,
        Syscall::Connect => "connect"@,
        Syscall::Send => "send"@,
        Syscall::Sendto => "sendto"@,
        Syscall::Recvfrom => "recvfrom"@,
        Syscall::Sendmsg => "sendmsg"@,
        Syscall::Recvmsg => "recvmsg"@,
        Syscall::Bind => "bind"@,
        Syscall::Getsockname => "getsockname"@,
        Syscall::Setsockopt => "setsockopt"@,
        Syscall::Getsockopt => "getsockopt"@,
        Syscall::Clone => "clone"@,
        Syscall::Uname => "uname"@,
        Syscall::Fcntl => "fcntl"@,
        Syscall::Fcntl64 => "fcntl64"@,
        Syscall::Getdents => "getdents"@,
        Syscall::Chdir => "chdir"@,
        Syscall::Getuid => "getuid"@,
        Syscall::Getuid32 => "getuid32"@,
        Syscall::Getgid => "getgid"@,
        Syscall::Geteuid => "geteuid"@,
        Syscall::Geteuid32 => "geteuid32"@,
        Syscall::Getegid => "getegid"@,
        Syscall::Setuid => "setuid"@,
        Syscall::Setgid => "setgid"@,
        Syscall::Getgroups => "getgroups"@,
        Syscall::Setgroups => "setgroups"@,
        Syscall::Getresuid => "getresuid"@,
        Syscall::Getresuid32 => "getresuid32"@,
        Syscall::Getresgid => "getresgid"@,
        Syscall::Getresgid32 => "getresgid32"@,
        Syscall::Sigaltstack => "sigaltstack"@,
        Syscall::Prctl => "prctl"@,
        Syscall::Chroot => "chroot"@,
        Syscall::SchedGetaffinity => "sched_getaffinity"@,
        Syscall::SchedYield => "sched_yield"@,
        Syscall::Getdents64 => "getdents64"@,
        Syscall::ClockGetres => "clock_getres"@,
        Syscall::ExitGroup => "exit_group"@,
        Syscall::SetRobustList => "set_robust_list"@,
        Syscall::Openat => "openat"@,
        Syscall::Newfstatat => "newfstatat"@,
        Syscall::Seccomp => "seccomp"@,
        Syscall::Getrandom => "getrandom"@,
        Syscall::Pipe => "pipe"@,
        Syscall::Wait4 => "wait4"@,
        Syscall::ClockGettime => "clock_gettime"@,
        Syscall::Gettimeofday => "gettimeofday"@,
    }
}

impl Syscall {
    /// The kernel's name of this syscall, as the backend's name registry knows it.
    pub fn name(self) -> (r: &'static str)
        ensures
            r@ == syscall_name(self),
    {
        match self {
            Syscall::Futex => "futex",
            Syscall::Read => "read",
            Syscall::Write => "write",
            Syscall::Open => "open",
            Syscall::Close => "close",
            Syscall::Stat => "stat",
            Syscall::Stat64 => "stat64",
            Syscall::Fstat => "fstat",
            Syscall::Fstat64 => "fstat64",
            Syscall::Lstat => "lstat",
            Syscall::Lstat64 => "lstat64",
            Syscall::Poll => "poll",
            Syscall::Ppoll => "ppoll",
            Syscall::Lseek => "lseek",
            Syscall::Mmap => "mmap",
            Syscall::Mmap2 => "mmap2",
            Syscall::Mprotect => "mprotect",
            Syscall::Munmap => "munmap",
            Syscall::RtSigprocmask => "rt_sigprocmask",
            Syscall::Ioctl => "ioctl",
            Syscall::Readv => "readv",
            Syscall::Socket => "socket",
            Syscall::Connect => "connect",
            Syscall::Send => "send",
            Syscall::Sendto => "sendto",
            Syscall::Recvfrom => "recvfrom",
            Syscall::Sendmsg => "sendmsg",
            Syscall::Recvmsg => "recvmsg",
            Syscall::Bind => "bind",
            Syscall::Getsockname => "getsockname",
            Syscall::Setsockopt => "setsockopt",
            Syscall::Getsockopt => "getsockopt",
            Syscall::Clone => "clone",
            Syscall::Uname => "uname",
            Syscall::Fcntl => "fcntl",
            Syscall::Fcntl64 => "fcntl64",
            Syscall::Getdents => "getdents",
            Syscall::Chdir => "chdir",
            Syscall::Getuid => "getuid",
            Syscall::Getuid32 => "getuid32",
            Syscall::Getgid => "getgid",
            Syscall::Geteuid => "geteuid",
            Syscall::Geteuid32 => "geteuid32",
            Syscall::Getegid => "getegid",
            Syscall::Setuid => "setuid",
            Syscall::Setgid => "setgid",
            Syscall::Getgroups => "getgroups",
            Syscall::Setgroups => "setgroups",
            Syscall::Getresuid => "getresuid",
            Syscall::Getresuid32 => "getresuid32",
            Syscall::Getresgid => "getresgid",
            Syscall::Getresgid32 => "getresgid32",
            Syscall::Sigaltstack => "sigaltstack",
            Syscall::Prctl => "prctl",
            Syscall::Chroot => "chroot",
            Syscall::SchedGetaffinity => "sched_getaffinity",
            Syscall::SchedYield => "sched_yield",
            Syscall::Getdents64 => "getdents64",
            Syscall::ClockGetres => "clock_getres",
            Syscall::ExitGroup => "exit_group",
            Syscall::SetRobustList => "set_robust_list",
            Syscall::Openat => "openat",
            Syscall::Newfstatat => "newfstatat",
            Syscall::Seccomp => "seccomp",
            Syscall::Getrandom => "getrandom",
            Syscall::Pipe => "pipe",
            Syscall::Wait4 => "wait4",
            Syscall::ClockGettime => "clock_gettime",
            Syscall::Gettimeofday => "gettimeofday",
        }
    }
}

/// How many syscalls the catalog holds.
pub const CATALOG_LEN: usize = 69;

/// The syscall at a position of the catalog: every syscall that some stage
/// mentions, in the order in which stages list them.
pub open spec fn catalog_entry(i: usize) -> Syscall {
    match i {
        0 => Syscall::Futex,
        1 => Syscall::Read,
        2 => Syscall::Write,
        3 => Syscall::Open,
        4 => Syscall::Close,
        5 => Syscall::Stat,
        6 => Syscall::Stat64,
        7 => Syscall::Fstat,
        8 => Syscall::Fstat64,
        9 => Syscall::Lstat,
        10 => Syscall::Lstat64,
        11 => Syscall::Poll,
        12 => Syscall::Ppoll,
        13 => Syscall::Lseek,
        14 => Syscall::Mmap,
        15 => Syscall::Mmap2,
        16 => Syscall::Mprotect,
        17 => Syscall::Munmap,
        18 => Syscall::RtSigprocmask,
        19 => Syscall::Ioctl,
        20 => Syscall::Readv,
        21 => Syscall::Socket,
        22 => Syscall::Connect,
        23 => Syscall::Send,
        24 => Syscall::Sendto,
        25 => Syscall::Recvfrom,
        26 => Syscall::Sendmsg,
        27 => Syscall::Recvmsg,
        28 => Syscall::Bind,
        29 => Syscall::Getsockname,
        30 => Syscall::Setsockopt,
        31 => Syscall::Getsockopt,
        32 => Syscall::Clone,
        33 => Syscall::Uname,
        34 => Syscall::Fcntl,
        35 => Syscall::Fcntl64,
        36 => Syscall::Getdents,
        37 => Syscall::Chdir,
        38 => Syscall::Getuid,
        39 => Syscall::Getuid32,
        40 => Syscall::Getgid,
        41 => Syscall::Geteuid,
        42 => Syscall::Geteuid32,
        43 => Syscall::Getegid,
        44 => Syscall::Setuid,
        45 => Syscall::Setgid,
        46 => Syscall::Getgroups,
        47 => Syscall::Setgroups,
        48 => Syscall::Getresuid,
        49 => Syscall::Getresuid32,
        50 => Syscall::Getresgid,
        51 => Syscall::Getresgid32,
        52 => Syscall::Sigaltstack,
        53 => Syscall::Prctl,
        54 => Syscall::Chroot,
        55 => Syscall::SchedGetaffinity,
        56 => Syscall::SchedYield,
        57 => Syscall::Getdents64,
        58 => Syscall::ClockGetres,
        59 => Syscall::ExitGroup,
        60 => Syscall::SetRobustList,
        61 => Syscall::Openat,
        62 => Syscall::Newfstatat,
        63 => Syscall::Seccomp,
        64 => Syscall::Getrandom,
        65 => Syscall::Pipe,
        66 => Syscall::Wait4,
        67 => Syscall::ClockGettime,
        _ => Syscall::Gettimeofday,
    }
}

/// The catalog as a sequence.
pub open spec fn catalog() -> Seq<Syscall> {
    Seq::new(CATALOG_LEN as nat, |i: int| catalog_entry(i as usize))
}

/// The syscall at position `i` of the catalog.
pub fn catalog_at(i: usize) -> (r: Syscall)
    requires
        i < CATALOG_LEN,
    ensures
        r == catalog()[i as int],
{
    match i {
        0 => Syscall::Futex,
        1 => Syscall::Read,
        2 => Syscall::Write,
        3 => Syscall::Open,
        4 => Syscall::Close,
        5 => Syscall::Stat,
        6 => Syscall::Stat64,
        7 => Syscall::Fstat,
        8 => Syscall::Fstat64,
        9 => Syscall::Lstat,
        10 => Syscall::Lstat64,
        11 => Syscall::Poll,
        12 => Syscall::Ppoll,
        13 => Syscall::Lseek,
        14 => Syscall::Mmap,
        15 => Syscall::Mmap2,
        16 => Syscall::Mprotect,
        17 => Syscall::Munmap,
        18 => Syscall::RtSigprocmask,
        19 => Syscall::Ioctl,
        20 => Syscall::Readv,
        21 => Syscall::Socket,
        22 => Syscall::Connect,
        23 => Syscall::Send,
        24 => Syscall::Sendto,
        25 => Syscall::Recvfrom,
        26 => Syscall::Sendmsg,
        27 => Syscall::Recvmsg,
        28 => Syscall::Bind,
        29 => Syscall::Getsockname,
        30 => Syscall::Setsockopt,
        31 => Syscall::Getsockopt,
        32 => Syscall::Clone,
        33 => Syscall::Uname,
        34 => Syscall::Fcntl,
        35 => Syscall::Fcntl64,
        36 => Syscall::Getdents,
        37 => Syscall::Chdir,
        38 => Syscall::Getuid,
        39 => Syscall::Getuid32,
        40 => Syscall::Getgid,
        41 => Syscall::Geteuid,
        42 => Syscall::Geteuid32,
        43 => Syscall::Getegid,
        44 => Syscall::Setuid,
        45 => Syscall::Setgid,
        46 => Syscall::Getgroups,
        47 => Syscall::Setgroups,
        48 => Syscall::Getresuid,
        49 => Syscall::Getresuid32,
        50 => Syscall::Getresgid,
        51 => Syscall::Getresgid32,
        52 => Syscall::Sigaltstack,
        53 => Syscall::Prctl,
        54 => Syscall::Chroot,
        55 => Syscall::SchedGetaffinity,
        56 => Syscall::SchedYield,
        57 => Syscall::Getdents64,
        58 => Syscall::ClockGetres,
        59 => Syscall::ExitGroup,
        60 => Syscall::SetRobustList,
        61 => Syscall::Openat,
        62 => Syscall::Newfstatat,
        63 => Syscall::Seccomp,
        64 => Syscall::Getrandom,
        65 => Syscall::Pipe,
        66 => Syscall::Wait4,
        67 => Syscall::ClockGettime,
        _ => Syscall::Gettimeofday,
    }
}

/// Every syscall appears in the catalog.
pub proof fn lemma_catalog_complete(s: Syscall)
    ensures
        catalog().contains(s),
{
    match s {
        Syscall::Futex => assert(catalog()[0] == s),
        Syscall::Read => assert(catalog()[1] == s),
        Syscall::Write => assert(catalog()[2] == s),
        Syscall::Open => assert(catalog()[3] == s),
        Syscall::Close => assert(catalog()[4] == s),
        Syscall::Stat => assert(catalog()[5] == s),
        Syscall::Stat64 => assert(catalog()[6] == s),
        Syscall::Fstat => assert(catalog()[7] == s),
        Syscall::Fstat64 => assert(catalog()[8] == s),
        Syscall::Lstat => assert(catalog()[9] == s),
        Syscall::Lstat64 => assert(catalog()[10] == s),
        Syscall::Poll => assert(catalog()[11] == s),
        Syscall::Ppoll => assert(catalog()[12] == s),
        Syscall::Lseek => assert(catalog()[13] == s),
        Syscall::Mmap => assert(catalog()[14] == s),
        Syscall::Mmap2 => assert(catalog()[15] == s),
        Syscall::Mprotect => assert(catalog()[16] == s),
        Syscall::Munmap => assert(catalog()[17] == s),
        Syscall::RtSigprocmask => assert(catalog()[18] == s),
        Syscall::Ioctl => assert(catalog()[19] == s),
        Syscall::Readv => assert(catalog()[20] == s),
        Syscall::Socket => assert(catalog()[21] == s),
        Syscall::Connect => assert(catalog()[22] == s),
        Syscall::Send => assert(catalog()[23] == s),
        Syscall::Sendto => assert(catalog()[24] == s),
        Syscall::Recvfrom => assert(catalog()[25] == s),
        Syscall::Sendmsg => assert(catalog()[26] == s),
        Syscall::Recvmsg => assert(catalog()[27] == s),
        Syscall::Bind => assert(catalog()[28] == s),
        Syscall::Getsockname => assert(catalog()[29] == s),
        Syscall::Setsockopt => assert(catalog()[30] == s),
        Syscall::Getsockopt => assert(catalog()[31] == s),
        Syscall::Clone => assert(catalog()[32] == s),
        Syscall::Uname => assert(catalog()[33] == s),
        Syscall::Fcntl => assert(catalog()[34] == s),
        Syscall::Fcntl64 => assert(catalog()[35] == s),
        Syscall::Getdents => assert(catalog()[36] == s),
        Syscall::Chdir => assert(catalog()[37] == s),
        Syscall::Getuid => assert(catalog()[38] == s),
        Syscall::Getuid32 => assert(catalog()[39] == s),
        Syscall::Getgid => assert(catalog()[40] == s),
        Syscall::Geteuid => assert(catalog()[41] == s),
        Syscall::Geteuid32 => assert(catalog()[42] == s),
        Syscall::Getegid => assert(catalog()[43] == s),
        Syscall::Setuid => assert(catalog()[44] == s),
        Syscall::Setgid => assert(catalog()[45] == s),
        Syscall::Getgroups => assert(catalog()[46] == s),
        Syscall::Setgroups => assert(catalog()[47] == s),
        Syscall::Getresuid => assert(catalog()[48] == s),
        Syscall::Getresuid32 => assert(catalog()[49] == s),
        Syscall::Getresgid => assert(catalog()[50] == s),
        Syscall::Getresgid32 => assert(catalog()[51] == s),
        Syscall::Sigaltstack => assert(catalog()[52] == s),
        Syscall::Prctl => assert(catalog()[53] == s),
        Syscall::Chroot => assert(catalog()[54] == s),
        Syscall::SchedGetaffinity => assert(catalog()[55] == s),
        Syscall::SchedYield => assert(catalog()[56] == s),
        Syscall::Getdents64 => assert(catalog()[57] == s),
        Syscall::ClockGetres => assert(catalog()[58] == s),
        Syscall::ExitGroup => assert(catalog()[59] == s),
        Syscall::SetRobustList => assert(catalog()[60] == s),
        Syscall::Openat => assert(catalog()[61] == s),
        Syscall::Newfstatat => assert(catalog()[62] == s),
        Syscall::Seccomp => assert(catalog()[63] == s),
        Syscall::Getrandom => assert(catalog()[64] == s),
        Syscall::Pipe => assert(catalog()[65] == s),
        Syscall::Wait4 => assert(catalog()[66] == s),
        Syscall::ClockGettime => assert(catalog()[67] == s),
        Syscall::Gettimeofday => assert(catalog()[68] == s),
    }
}

} // verus!
