//! The aarch64 Linux system call numbers (kernel 5.10), by name.

use vstd::prelude::*;

verus! {

/// The aarch64 system call names and numbers, in the order the table lists them.
pub open spec fn aarch64_syscalls() -> Seq<(&'static str, i64)> {
    seq![
        ("accept4", 242i64),
        ("accept", 202i64),
        ("acct", 89i64),
        ("add_key", 217i64),
        ("adjtimex", 171i64),
        ("bind", 200i64),
        ("bpf", 280i64),
        ("brk", 214i64),
        ("capget", 90i64),
        ("capset", 91i64),
        ("chdir", 49i64),
        ("chroot", 51i64),
        ("clock_adjtime", 266i64),
        ("clock_getres", 114i64),
        ("clock_gettime", 113i64),
        ("clock_nanosleep", 115i64),
        ("clock_settime", 112i64),
        ("clone3", 435i64),
        ("clone", 220i64),
        ("close_range", 436i64),
        ("close", 57i64),
        ("connect", 203i64),
        ("copy_file_range", 285i64),
        ("delete_module", 106i64),
        ("dup3", 24i64),
        ("dup", 23i64),
        ("epoll_create1", 20i64),
        ("epoll_ctl", 21i64),
        ("epoll_pwait", 22i64),
        ("eventfd2", 19i64),
        ("execveat", 281i64),
        ("execve", 221i64),
        ("exit_group", 94i64),
        ("exit", 93i64),
        ("faccessat2", 439i64),
        ("faccessat", 48i64),
        ("fadvise64", 223i64),
        ("fallocate", 47i64),
        ("fanotify_init", 262i64),
        ("fanotify_mark", 263i64),
        ("fchdir", 50i64),
        ("fchmodat", 53i64),
        ("fchmod", 52i64),
        ("fchownat", 54i64),
        ("fchown", 55i64),
        ("fcntl", 25i64),
        ("fdatasync", 83i64),
        ("fgetxattr", 10i64),
        ("finit_module", 273i64),
        ("flistxattr", 13i64),
        ("flock", 32i64),
        ("fremovexattr", 16i64),
        ("fsconfig", 431i64),
        ("fsetxattr", 7i64),
        ("fsmount", 432i64),
        ("fsopen", 430i64),
        ("fspick", 433i64),
        ("fstatfs", 44i64),
        ("fstat", 80i64),
        ("fsync", 82i64),
        ("ftruncate", 46i64),
        ("futex", 98i64),
        ("getcpu", 168i64),
        ("getcwd", 17i64),
        ("getdents64", 61i64),
        ("getegid", 177i64),
        ("geteuid", 175i64),
        ("getgid", 176i64),
        ("getgroups", 158i64),
        ("getitimer", 102i64),
        ("get_mempolicy", 236i64),
        ("getpeername", 205i64),
        ("getpgid", 155i64),
        ("getpid", 172i64),
        ("getppid", 173i64),
        ("getpriority", 141i64),
        ("getrandom", 278i64),
        ("getresgid", 150i64),
        ("getresuid", 148i64),
        ("getrlimit", 163i64),
        ("get_robust_list", 100i64),
        ("getrusage", 165i64),
        ("getsid", 156i64),
        ("getsockname", 204i64),
        ("getsockopt", 209i64),
        ("gettid", 178i64),
        ("gettimeofday", 169i64),
        ("getuid", 174i64),
        ("getxattr", 8i64),
        ("init_module", 105i64),
        ("inotify_add_watch", 27i64),
        ("inotify_init1", 26i64),
        ("inotify_rm_watch", 28i64),
        ("io_cancel", 3i64),
        ("ioctl", 29i64),
        ("io_destroy", 1i64),
        ("io_getevents", 4i64),
        ("io_pgetevents", 292i64),
        ("ioprio_get", 31i64),
        ("ioprio_set", 30i64),
        ("io_setup", 0i64),
        ("io_submit", 2i64),
        ("io_uring_enter", 426i64),
        ("io_uring_register", 427i64),
        ("io_uring_setup", 425i64),
        ("kcmp", 272i64),
        ("kexec_file_load", 294i64),
        ("kexec_load", 104i64),
        ("keyctl", 219i64),
        ("kill", 129i64),
        ("lgetxattr", 9i64),
        ("linkat", 37i64),
        ("listen", 201i64),
        ("listxattr", 11i64),
        ("llistxattr", 12i64),
        ("lookup_dcookie", 18i64),
        ("lremovexattr", 15i64),
        ("lseek", 62i64),
        ("lsetxattr", 6i64),
        ("madvise", 233i64),
        ("mbind", 235i64),
        ("membarrier", 283i64),
        ("memfd_create", 279i64),
        ("migrate_pages", 238i64),
        ("mincore", 232i64),
        ("mkdirat", 34i64),
        ("mknodat", 33i64),
        ("mlock2", 284i64),
        ("mlockall", 230i64),
        ("mlock", 228i64),
        ("mmap", 222i64),
        ("mount", 40i64),
        ("move_mount", 429i64),
        ("move_pages", 239i64),
        ("mprotect", 226i64),
        ("mq_getsetattr", 185i64),
        ("mq_notify", 184i64),
        ("mq_open", 180i64),
        ("mq_timedreceive", 183i64),
        ("mq_timedsend", 182i64),
        ("mq_unlink", 181i64),
        ("mremap", 216i64),
        ("msgctl", 187i64),
        ("msgget", 186i64),
        ("msgrcv", 188i64),
        ("msgsnd", 189i64),
        ("msync", 227i64),
        ("munlockall", 231i64),
        ("munlock", 229i64),
        ("munmap", 215i64),
        ("name_to_handle_at", 264i64),
        ("nanosleep", 101i64),
        ("newfstatat", 79i64),
        ("nfsservctl", 42i64),
        ("openat2", 437i64),
        ("openat", 56i64),
        ("open_by_handle_at", 265i64),
        ("open_tree", 428i64),
        ("perf_event_open", 241i64),
        ("personality", 92i64),
        ("pidfd_getfd", 438i64),
        ("pidfd_open", 434i64),
        ("pidfd_send_signal", 424i64),
        ("pipe2", 59i64),
        ("pivot_root", 41i64),
        ("pkey_alloc", 289i64),
        ("pkey_free", 290i64),
        ("pkey_mprotect", 288i64),
        ("ppoll", 73i64),
        ("prctl", 167i64),
        ("pread64", 67i64),
        ("preadv2", 286i64),
        ("preadv", 69i64),
        ("prlimit64", 261i64),
        ("process_madvise", 440i64),
        ("process_vm_readv", 270i64),
        ("process_vm_writev", 271i64),
        ("pselect6", 72i64),
        ("ptrace", 117i64),
        ("pwrite64", 68i64),
        ("pwritev2", 287i64),
        ("pwritev", 70i64),
        ("quotactl", 60i64),
        ("readahead", 213i64),
        ("readlinkat", 78i64),
        ("read", 63i64),
        ("readv", 65i64),
        ("reboot", 142i64),
        ("recvfrom", 207i64),
        ("recvmmsg", 243i64),
        ("recvmsg", 212i64),
        ("remap_file_pages", 234i64),
        ("removexattr", 14i64),
        ("renameat2", 276i64),
        ("renameat", 38i64),
        ("request_key", 218i64),
        ("restart_syscall", 128i64),
        ("rseq", 293i64),
        ("rt_sigaction", 134i64),
        ("rt_sigpending", 136i64),
        ("rt_sigprocmask", 135i64),
        ("rt_sigqueueinfo", 138i64),
        ("rt_sigreturn", 139i64),
        ("rt_sigsuspend", 133i64),
        ("rt_sigtimedwait", 137i64),
        ("rt_tgsigqueueinfo", 240i64),
        ("sched_getaffinity", 123i64),
        ("sched_getattr", 275i64),
        ("sched_getparam", 121i64),
        ("sched_get_priority_max", 125i64),
        ("sched_get_priority_min", 126i64),
        ("sched_getscheduler", 120i64),
        ("sched_rr_get_interval", 127i64),
        ("sched_setaffinity", 122i64),
        ("sched_setattr", 274i64),
        ("sched_setparam", 118i64),
        ("sched_setscheduler", 119i64),
        ("sched_yield", 124i64),
        ("seccomp", 277i64),
        ("semctl", 191i64),
        ("semget", 190i64),
        ("semop", 193i64),
        ("semtimedop", 192i64),
        ("sendfile", 71i64),
        ("sendmmsg", 269i64),
        ("sendmsg", 211i64),
        ("sendto", 206i64),
        ("setdomainname", 162i64),
        ("setfsgid", 152i64),
        ("setfsuid", 151i64),
        ("setgid", 144i64),
        ("setgroups", 159i64),
        ("sethostname", 161i64),
        ("setitimer", 103i64),
        ("set_mempolicy", 237i64),
        ("setns", 268i64),
        ("setpgid", 154i64),
        ("setpriority", 140i64),
        ("setregid", 143i64),
        ("setresgid", 149i64),
        ("setresuid", 147i64),
        ("setreuid", 145i64),
        ("setrlimit", 164i64),
        ("set_robust_list", 99i64),
        ("setsid", 157i64),
        ("setsockopt", 208i64),
        ("set_tid_address", 96i64),
        ("settimeofday", 170i64),
        ("setuid", 146i64),
        ("setxattr", 5i64),
        ("shmat", 196i64),
        ("shmctl", 195i64),
        ("shmdt", 197i64),
        ("shmget", 194i64),
        ("shutdown", 210i64),
        ("sigaltstack", 132i64),
        ("signalfd4", 74i64),
        ("socketpair", 199i64),
        ("socket", 198i64),
        ("splice", 76i64),
        ("statfs", 43i64),
        ("statx", 291i64),
        ("swapoff", 225i64),
        ("swapon", 224i64),
        ("symlinkat", 36i64),
        ("sync_file_range", 84i64),
        ("syncfs", 267i64),
        ("sync", 81i64),
        ("sysinfo", 179i64),
        ("syslog", 116i64),
        ("tee", 77i64),
        ("tgkill", 131i64),
        ("timer_create", 107i64),
        ("timer_delete", 111i64),
        ("timerfd_create", 85i64),
        ("timerfd_gettime", 87i64),
        ("timerfd_settime", 86i64),
        ("timer_getoverrun", 109i64),
        ("timer_gettime", 108i64),
        ("timer_settime", 110i64),
        ("times", 153i64),
        ("tkill", 130i64),
        ("truncate", 45i64),
        ("umask", 166i64),
        ("umount2", 39i64),
        ("uname", 160i64),
        ("unlinkat", 35i64),
        ("unshare", 97i64),
        ("userfaultfd", 282i64),
        ("utimensat", 88i64),
        ("vhangup", 58i64),
        ("vmsplice", 75i64),
        ("wait4", 260i64),
        ("waitid", 95i64),
        ("write", 64i64),
        ("writev", 66i64),
    ]
}

/// The aarch64 system call names and numbers (see [`aarch64_syscalls`]).
pub fn syscall_entries() -> (t: Vec<(&'static str, i64)>)
    ensures
        t@ == aarch64_syscalls(),
{
    let t: Vec<(&'static str, i64)> = vec![
        ("accept4", 242i64),
        ("accept", 202i64),
        ("acct", 89i64),
        ("add_key", 217i64),
        ("adjtimex", 171i64),
        ("bind", 200i64),
        ("bpf", 280i64),
        ("brk", 214i64),
        ("capget", 90i64),
        ("capset", 91i64),
        ("chdir", 49i64),
        ("chroot", 51i64),
        ("clock_adjtime", 266i64),
        ("clock_getres", 114i64),
        ("clock_gettime", 113i64),
        ("clock_nanosleep", 115i64),
        ("clock_settime", 112i64),
        ("clone3", 435i64),
        ("clone", 220i64),
        ("close_range", 436i64),
        ("close", 57i64),
        ("connect", 203i64),
        ("copy_file_range", 285i64),
        ("delete_module", 106i64),
        ("dup3", 24i64),
        ("dup", 23i64),
        ("epoll_create1", 20i64),
        ("epoll_ctl", 21i64),
        ("epoll_pwait", 22i64),
        ("eventfd2", 19i64),
        ("execveat", 281i64),
        ("execve", 221i64),
        ("exit_group", 94i64),
        ("exit", 93i64),
        ("faccessat2", 439i64),
        ("faccessat", 48i64),
        ("fadvise64", 223i64),
        ("fallocate", 47i64),
        ("fanotify_init", 262i64),
        ("fanotify_mark", 263i64),
        ("fchdir", 50i64),
        ("fchmodat", 53i64),
        ("fchmod", 52i64),
        ("fchownat", 54i64),
        ("fchown", 55i64),
        ("fcntl", 25i64),
        ("fdatasync", 83i64),
        ("fgetxattr", 10i64),
        ("finit_module", 273i64),
        ("flistxattr", 13i64),
        ("flock", 32i64),
        ("fremovexattr", 16i64),
        ("fsconfig", 431i64),
        ("fsetxattr", 7i64),
        ("fsmount", 432i64),
        ("fsopen", 430i64),
        ("fspick", 433i64),
        ("fstatfs", 44i64),
        ("fstat", 80i64),
        ("fsync", 82i64),
        ("ftruncate", 46i64),
        ("futex", 98i64),
        ("getcpu", 168i64),
        ("getcwd", 17i64),
        ("getdents64", 61i64),
        ("getegid", 177i64),
        ("geteuid", 175i64),
        ("getgid", 176i64),
        ("getgroups", 158i64),
        ("getitimer", 102i64),
        ("get_mempolicy", 236i64),
        ("getpeername", 205i64),
        ("getpgid", 155i64),
        ("getpid", 172i64),
        ("getppid", 173i64),
        ("getpriority", 141i64),
        ("getrandom", 278i64),
        ("getresgid", 150i64),
        ("getresuid", 148i64),
        ("getrlimit", 163i64),
        ("get_robust_list", 100i64),
        ("getrusage", 165i64),
        ("getsid", 156i64),
        ("getsockname", 204i64),
        ("getsockopt", 209i64),
        ("gettid", 178i64),
        ("gettimeofday", 169i64),
        ("getuid", 174i64),
        ("getxattr", 8i64),
        ("init_module", 105i64),
        ("inotify_add_watch", 27i64),
        ("inotify_init1", 26i64),
        ("inotify_rm_watch", 28i64),
        ("io_cancel", 3i64),
        ("ioctl", 29i64),
        ("io_destroy", 1i64),
        ("io_getevents", 4i64),
        ("io_pgetevents", 292i64),
        ("ioprio_get", 31i64),
        ("ioprio_set", 30i64),
        ("io_setup", 0i64),
        ("io_submit", 2i64),
        ("io_uring_enter", 426i64),
        ("io_uring_register", 427i64),
        ("io_uring_setup", 425i64),
        ("kcmp", 272i64),
        ("kexec_file_load", 294i64),
        ("kexec_load", 104i64),
        ("keyctl", 219i64),
        ("kill", 129i64),
        ("lgetxattr", 9i64),
        ("linkat", 37i64),
        ("listen", 201i64),
        ("listxattr", 11i64),
        ("llistxattr", 12i64),
        ("lookup_dcookie", 18i64),
        ("lremovexattr", 15i64),
        ("lseek", 62i64),
        ("lsetxattr", 6i64),
        ("madvise", 233i64),
        ("mbind", 235i64),
        ("membarrier", 283i64),
        ("memfd_create", 279i64),
        ("migrate_pages", 238i64),
        ("mincore", 232i64),
        ("mkdirat", 34i64),
        ("mknodat", 33i64),
        ("mlock2", 284i64),
        ("mlockall", 230i64),
        ("mlock", 228i64),
        ("mmap", 222i64),
        ("mount", 40i64),
        ("move_mount", 429i64),
        ("move_pages", 239i64),
        ("mprotect", 226i64),
        ("mq_getsetattr", 185i64),
        ("mq_notify", 184i64),
        ("mq_open", 180i64),
        ("mq_timedreceive", 183i64),
        ("mq_timedsend", 182i64),
        ("mq_unlink", 181i64),
        ("mremap", 216i64),
        ("msgctl", 187i64),
        ("msgget", 186i64),
        ("msgrcv", 188i64),
        ("msgsnd", 189i64),
        ("msync", 227i64),
        ("munlockall", 231i64),
        ("munlock", 229i64),
        ("munmap", 215i64),
        ("name_to_handle_at", 264i64),
        ("nanosleep", 101i64),
        ("newfstatat", 79i64),
        ("nfsservctl", 42i64),
        ("openat2", 437i64),
        ("openat", 56i64),
        ("open_by_handle_at", 265i64),
        ("open_tree", 428i64),
        ("perf_event_open", 241i64),
        ("personality", 92i64),
        ("pidfd_getfd", 438i64),
        ("pidfd_open", 434i64),
        ("pidfd_send_signal", 424i64),
        ("pipe2", 59i64),
        ("pivot_root", 41i64),
        ("pkey_alloc", 289i64),
        ("pkey_free", 290i64),
        ("pkey_mprotect", 288i64),
        ("ppoll", 73i64),
        ("prctl", 167i64),
        ("pread64", 67i64),
        ("preadv2", 286i64),
        ("preadv", 69i64),
        ("prlimit64", 261i64),
        ("process_madvise", 440i64),
        ("process_vm_readv", 270i64),
        ("process_vm_writev", 271i64),
        ("pselect6", 72i64),
        ("ptrace", 117i64),
        ("pwrite64", 68i64),
        ("pwritev2", 287i64),
        ("pwritev", 70i64),
        ("quotactl", 60i64),
        ("readahead", 213i64),
        ("readlinkat", 78i64),
        ("read", 63i64),
        ("readv", 65i64),
        ("reboot", 142i64),
        ("recvfrom", 207i64),
        ("recvmmsg", 243i64),
        ("recvmsg", 212i64),
        ("remap_file_pages", 234i64),
        ("removexattr", 14i64),
        ("renameat2", 276i64),
        ("renameat", 38i64),
        ("request_key", 218i64),
        ("restart_syscall", 128i64),
        ("rseq", 293i64),
        ("rt_sigaction", 134i64),
        ("rt_sigpending", 136i64),
        ("rt_sigprocmask", 135i64),
        ("rt_sigqueueinfo", 138i64),
        ("rt_sigreturn", 139i64),
        ("rt_sigsuspend", 133i64),
        ("rt_sigtimedwait", 137i64),
        ("rt_tgsigqueueinfo", 240i64),
        ("sched_getaffinity", 123i64),
        ("sched_getattr", 275i64),
        ("sched_getparam", 121i64),
        ("sched_get_priority_max", 125i64),
        ("sched_get_priority_min", 126i64),
        ("sched_getscheduler", 120i64),
        ("sched_rr_get_interval", 127i64),
        ("sched_setaffinity", 122i64),
        ("sched_setattr", 274i64),
        ("sched_setparam", 118i64),
        ("sched_setscheduler", 119i64),
        ("sched_yield", 124i64),
        ("seccomp", 277i64),
        ("semctl", 191i64),
        ("semget", 190i64),
        ("semop", 193i64),
        ("semtimedop", 192i64),
        ("sendfile", 71i64),
        ("sendmmsg", 269i64),
        ("sendmsg", 211i64),
        ("sendto", 206i64),
        ("setdomainname", 162i64),
        ("setfsgid", 152i64),
        ("setfsuid", 151i64),
        ("setgid", 144i64),
        ("setgroups", 159i64),
        ("sethostname", 161i64),
        ("setitimer", 103i64),
        ("set_mempolicy", 237i64),
        ("setns", 268i64),
        ("setpgid", 154i64),
        ("setpriority", 140i64),
        ("setregid", 143i64),
        ("setresgid", 149i64),
        ("setresuid", 147i64),
        ("setreuid", 145i64),
        ("setrlimit", 164i64),
        ("set_robust_list", 99i64),
        ("setsid", 157i64),
        ("setsockopt", 208i64),
        ("set_tid_address", 96i64),
        ("settimeofday", 170i64),
        ("setuid", 146i64),
        ("setxattr", 5i64),
        ("shmat", 196i64),
        ("shmctl", 195i64),
        ("shmdt", 197i64),
        ("shmget", 194i64),
        ("shutdown", 210i64),
        ("sigaltstack", 132i64),
        ("signalfd4", 74i64),
        ("socketpair", 199i64),
        ("socket", 198i64),
        ("splice", 76i64),
        ("statfs", 43i64),
        ("statx", 291i64),
        ("swapoff", 225i64),
        ("swapon", 224i64),
        ("symlinkat", 36i64),
        ("sync_file_range", 84i64),
        ("syncfs", 267i64),
        ("sync", 81i64),
        ("sysinfo", 179i64),
        ("syslog", 116i64),
        ("tee", 77i64),
        ("tgkill", 131i64),
        ("timer_create", 107i64),
        ("timer_delete", 111i64),
        ("timerfd_create", 85i64),
        ("timerfd_gettime", 87i64),
        ("timerfd_settime", 86i64),
        ("timer_getoverrun", 109i64),
        ("timer_gettime", 108i64),
        ("timer_settime", 110i64),
        ("times", 153i64),
        ("tkill", 130i64),
        ("truncate", 45i64),
        ("umask", 166i64),
        ("umount2", 39i64),
        ("uname", 160i64),
        ("unlinkat", 35i64),
        ("unshare", 97i64),
        ("userfaultfd", 282i64),
        ("utimensat", 88i64),
        ("vhangup", 58i64),
        ("vmsplice", 75i64),
        ("wait4", 260i64),
        ("waitid", 95i64),
        ("write", 64i64),
        ("writev", 66i64),
    ];
    assert(t@ =~= aarch64_syscalls());
    t
}

/// Every system call number in the table lies in `0..=440`.
#[verifier::rlimit(100)]
pub proof fn lemma_syscall_numbers_in_range()
    ensures
        forall|i: int|
            0 <= i < aarch64_syscalls().len() ==> 0 <= #[trigger] aarch64_syscalls()[i].1 <= 440,
{
    let s = aarch64_syscalls();
    assert(s.len() == 296);
    assert forall|i: int| 0 <= i < s.len() implies 0 <= #[trigger] s[i].1 <= 440 by {}
}

/// The position in the table of the system call numbered `n`, or -1 for a number the table
/// lacks.
spec fn position_of_number(n: i64) -> int {
    match n {
        242 => 0,
        202 => 1,
        89 => 2,
        217 => 3,
        171 => 4,
        200 => 5,
        280 => 6,
        214 => 7,
        90 => 8,
        91 => 9,
        49 => 10,
        51 => 11,
        266 => 12,
        114 => 13,
        113 => 14,
        115 => 15,
        112 => 16,
        435 => 17,
        220 => 18,
        436 => 19,
        57 => 20,
        203 => 21,
        285 => 22,
        106 => 23,
        24 => 24,
        23 => 25,
        20 => 26,
        21 => 27,
        22 => 28,
        19 => 29,
        281 => 30,
        221 => 31,
        94 => 32,
        93 => 33,
        439 => 34,
        48 => 35,
        223 => 36,
        47 => 37,
        262 => 38,
        263 => 39,
        50 => 40,
        53 => 41,
        52 => 42,
        54 => 43,
        55 => 44,
        25 => 45,
        83 => 46,
        10 => 47,
        273 => 48,
        13 => 49,
        32 => 50,
        16 => 51,
        431 => 52,
        7 => 53,
        432 => 54,
        430 => 55,
        433 => 56,
        44 => 57,
        80 => 58,
        82 => 59,
        46 => 60,
        98 => 61,
        168 => 62,
        17 => 63,
        61 => 64,
        177 => 65,
        175 => 66,
        176 => 67,
        158 => 68,
        102 => 69,
        236 => 70,
        205 => 71,
        155 => 72,
        172 => 73,
        173 => 74,
        141 => 75,
        278 => 76,
        150 => 77,
        148 => 78,
        163 => 79,
        100 => 80,
        165 => 81,
        156 => 82,
        204 => 83,
        209 => 84,
        178 => 85,
        169 => 86,
        174 => 87,
        8 => 88,
        105 => 89,
        27 => 90,
        26 => 91,
        28 => 92,
        3 => 93,
        29 => 94,
        1 => 95,
        4 => 96,
        292 => 97,
        31 => 98,
        30 => 99,
        0 => 100,
        2 => 101,
        426 => 102,
        427 => 103,
        425 => 104,
        272 => 105,
        294 => 106,
        104 => 107,
        219 => 108,
        129 => 109,
        9 => 110,
        37 => 111,
        201 => 112,
        11 => 113,
        12 => 114,
        18 => 115,
        15 => 116,
        62 => 117,
        6 => 118,
        233 => 119,
        235 => 120,
        283 => 121,
        279 => 122,
        238 => 123,
        232 => 124,
        34 => 125,
        33 => 126,
        284 => 127,
        230 => 128,
        228 => 129,
        222 => 130,
        40 => 131,
        429 => 132,
        239 => 133,
        226 => 134,
        185 => 135,
        184 => 136,
        180 => 137,
        183 => 138,
        182 => 139,
        181 => 140,
        216 => 141,
        187 => 142,
        186 => 143,
        188 => 144,
        189 => 145,
        227 => 146,
        231 => 147,
        229 => 148,
        215 => 149,
        264 => 150,
        101 => 151,
        79 => 152,
        42 => 153,
        437 => 154,
        56 => 155,
        265 => 156,
        428 => 157,
        241 => 158,
        92 => 159,
        438 => 160,
        434 => 161,
        424 => 162,
        59 => 163,
        41 => 164,
        289 => 165,
        290 => 166,
        288 => 167,
        73 => 168,
        167 => 169,
        67 => 170,
        286 => 171,
        69 => 172,
        261 => 173,
        440 => 174,
        270 => 175,
        271 => 176,
        72 => 177,
        117 => 178,
        68 => 179,
        287 => 180,
        70 => 181,
        60 => 182,
        213 => 183,
        78 => 184,
        63 => 185,
        65 => 186,
        142 => 187,
        207 => 188,
        243 => 189,
        212 => 190,
        234 => 191,
        14 => 192,
        276 => 193,
        38 => 194,
        218 => 195,
        128 => 196,
        293 => 197,
        134 => 198,
        136 => 199,
        135 => 200,
        138 => 201,
        139 => 202,
        133 => 203,
        137 => 204,
        240 => 205,
        123 => 206,
        275 => 207,
        121 => 208,
        125 => 209,
        126 => 210,
        120 => 211,
        127 => 212,
        122 => 213,
        274 => 214,
        118 => 215,
        119 => 216,
        124 => 217,
        277 => 218,
        191 => 219,
        190 => 220,
        193 => 221,
        192 => 222,
        71 => 223,
        269 => 224,
        211 => 225,
        206 => 226,
        162 => 227,
        152 => 228,
        151 => 229,
        144 => 230,
        159 => 231,
        161 => 232,
        103 => 233,
        237 => 234,
        268 => 235,
        154 => 236,
        140 => 237,
        143 => 238,
        149 => 239,
        147 => 240,
        145 => 241,
        164 => 242,
        99 => 243,
        157 => 244,
        208 => 245,
        96 => 246,
        170 => 247,
        146 => 248,
        5 => 249,
        196 => 250,
        195 => 251,
        197 => 252,
        194 => 253,
        210 => 254,
        132 => 255,
        74 => 256,
        199 => 257,
        198 => 258,
        76 => 259,
        43 => 260,
        291 => 261,
        225 => 262,
        224 => 263,
        36 => 264,
        84 => 265,
        267 => 266,
        81 => 267,
        179 => 268,
        116 => 269,
        77 => 270,
        131 => 271,
        107 => 272,
        111 => 273,
        85 => 274,
        87 => 275,
        86 => 276,
        109 => 277,
        108 => 278,
        110 => 279,
        153 => 280,
        130 => 281,
        45 => 282,
        166 => 283,
        39 => 284,
        160 => 285,
        35 => 286,
        97 => 287,
        282 => 288,
        88 => 289,
        58 => 290,
        75 => 291,
        260 => 292,
        95 => 293,
        64 => 294,
        66 => 295,
        _ => -1,
    }
}

/// No two system calls of the table share a number.
#[verifier::rlimit(100)]
pub proof fn lemma_syscall_numbers_distinct()
    ensures
        forall|i: int, j: int|
            0 <= i < j < aarch64_syscalls().len() ==> #[trigger] aarch64_syscalls()[i].1
                != #[trigger] aarch64_syscalls()[j].1,
{
    let s = aarch64_syscalls();
    assert(s.len() == 296);
    assert forall|i: int| 0 <= i < s.len() implies position_of_number(#[trigger] s[i].1) == i by {}
}

/// The character of `s` at `i` as a number, or zero past either end.
spec fn char_at(s: Seq<char>, i: int) -> int {
    if 0 <= i < s.len() {
        s[i] as int
    } else {
        0
    }
}

/// A number telling the system call names of the table apart: made of the name's length
/// and of a few of its characters from the front and from the back.
spec fn name_key(s: Seq<char>) -> int {
    let n = s.len() as int;
    let k = ((n * 128 + char_at(s, 0)) * 128 + char_at(s, 1)) * 128 + char_at(s, 6);
    (((k * 128 + char_at(s, n - 2)) * 128 + char_at(s, n - 3)) * 128 + char_at(s, n - 4)) * 128
        + char_at(s, n - 7)
}

/// The position in the table of the system call whose name has key `k`, or -1 for a key
/// that no name of the table has.
spec fn position_of_key(k: int) -> int {
    if k == 4370676003386081 {
        0
    } else if k == 3807712082751872 {
        1
    } else if k == 2681812148613248 {
        2
    } else if k == 4370728853630945 {
        3
    } else if k == 4933673438377188 {
        4
    } else if k == 2686416376721664 {
        5
    } else if k == 2123706945536000 {
        6
    } else if k == 2123775669207040 {
        7
    } else if k == 3816439433263104 {
        8
    } else if k == 3816439433459712 {
        9
    } else if k == 3253730006348800 {
        10
    } else if k == 3816679972534528 {
        11
    } else if k == 7757493119384161 {
        12
    } else if k == 7194544759945823 {
        13
    } else if k == 7757494729996903 {
        14
    } else if k == 8883396499043950 {
        15
    } else if k == 7757497951222387 {
        16
    } else if k == 3816817390499712 {
        17
    } else if k == 3253867455968768 {
        18
    } else if k == 6631597763440869 {
        19
    } else if k == 3253867466454528 {
        20
    } else if k == 4379901557307235 {
        21
    } else if k == 8883498240422117 {
        22
    } else if k == 7761650108953183 {
        23
    } else if k == 2695624790995456 {
        24
    } else if k == 2132674847768576 {
        25
    } else if k == 7766427171631331 {
        26
    } else if k == 5514627389124591 {
        27
    } else if k == 6640530762529772 {
        28
    } else if k == 4951883829066358 {
        29
    } else if k == 4951951736929144 {
        30
    } else if k == 3826025835852416 {
        31
    } else if k == 6077856249280884 {
        32
    } else if k == 2700125902090880 {
        33
    } else if k == 6081464287918563 {
        34
    } else if k == 5518514294946275 {
        35
    } else if k == 5518510446442980 {
        36
    } else if k == 5518509502657004 {
        37
    } else if k == 7770310635664614 {
        38
    } else if k == 7770310654326502 {
        39
    } else if k == 3829702300611584 {
        40
    } else if k == 4955628228917219 {
        41
    } else if k == 3829702313341952 {
        42
    } else if k == 4955628229082083 {
        43
    } else if k == 3829702330151936 {
        44
    } else if k == 3266752370422144 {
        45
    } else if k == 5518619012135393 {
        46
    } else if k == 5518720761671909 {
        47
    } else if k == 7207637445603935 {
        48
    } else if k == 6081837413511411 {
        49
    } else if k == 3267061572433408 {
        50
    } else if k == 7207944552526070 {
        51
    } else if k == 4956180149024627 {
        52
    } else if k == 5519133078532325 {
        53
    } else if k == 4393233159124966 {
        54
    } else if k == 3830252048234368 {
        55
    } else if k == 3830252043925504 {
        56
    } else if k == 4393232873894118 {
        57
    } else if k == 3267302086490496 {
        58
    } else if k == 3267302113835392 {
        59
    } else if k == 5519162337686002 {
        60
    } else if k == 3267370814356096 {
        61
    } else if k == 3834169081264640 {
        62
    } else if k == 3834169095944704 {
        63
    } else if k == 6085999912090212 {
        64
    } else if k == 4397145863615207 {
        65
    } else if k == 4397145863844583 {
        66
    } else if k == 3834169066650112 {
        67
    } else if k == 5523050348771316 {
        68
    } else if k == 5523048178087156 {
        69
    } else if k == 7774847987512941 {
        70
    } else if k == 6648949443688293 {
        71
    } else if k == 4397145863616615 {
        72
    } else if k == 3834169066797568 {
        73
    } else if k == 4397145863764071 {
        74
    } else if k == 6648948653193586 {
        75
    } else if k == 5523045782992756 {
        76
    } else if k == 5523046575766004 {
        77
    } else if k == 5523050334091764 {
        78
    } else if k == 5523048186475764 {
        79
    } else if k == 8900744975119987 {
        80
    } else if k == 5523044960860660 {
        81
    } else if k == 3834169066846720 {
        82
    } else if k == 6648947564640111 {
        83
    } else if k == 6085997617739251 {
        84
    } else if k == 3834169066863104 {
        85
    } else if k == 7211895882330989 {
        86
    } else if k == 3834169066879488 {
        87
    } else if k == 4960100135284965 {
        88
    } else if k == 6658053967278687 {
        89
    } else if k == 10035756353269988 {
        90
    } else if k == 7783956575057785 {
        91
    } else if k == 9472806399848685 {
        92
    } else if k == 5532185183975263 {
        93
    } else if k == 3280358826637184 {
        94
    } else if k == 6095139722017380 {
        95
    } else if k == 7221035612746484 {
        96
    } else if k == 7783989592699636 {
        97
    } else if k == 6095134063718386 {
        98
    } else if k == 6095134063914994 {
        99
    } else if k == 4969240096223983 {
        100
    } else if k == 5532187876880735 {
        101
    } else if k == 8346937904150375 {
        102
    } else if k == 10035787764414949 {
        103
    } else if k == 8346937937703655 {
        104
    } else if k == 2725792634697088 {
        105
    } else if k == 8918338197255788 {
        106
    } else if k == 6103590040761957 {
        107
    } else if k == 3851761275698304 {
        108
    } else if k == 2725998791128448 {
        109
    } else if k == 5545109040738533 {
        110
    } else if k == 3856296721446656 {
        111
    } else if k == 3856296729983360 {
        112
    } else if k == 5545177760215283 {
        113
    } else if k == 6108225692578035 {
        114
    } else if k == 8360128025393124 {
        115
    } else if k == 7234332831592694 {
        116
    } else if k == 3293690373699968 {
        117
    } else if k == 5545521357598949 {
        118
    } else if k == 4423396993170285 {
        119
    } else if k == 3297504323596544 {
        120
    } else if k == 6112387752687970 {
        121
    } else if k == 7238283664323295 {
        122
    } else if k == 7801371562209509 {
        123
    } else if k == 4423671869075949 {
        124
    } else if k == 4423744579482861 {
        125
    } else if k == 4423744579254253 {
        126
    } else if k == 3860797868013440 {
        127
    } else if k == 4986726767949292 {
        128
    } else if k == 3297847898011136 {
        129
    } else if k == 2734932300101248 {
        130
    } else if k == 3297951000393600 {
        131
    } else if k == 6112730563835877 {
        132
    } else if k == 6112726786633957 {
        133
    } else if k == 4986861772175984 {
        134
    } else if k == 7801650229883123 {
        135
    } else if k == 5549847702305375 {
        136
    } else if k == 4423949135656941 {
        137
    } else if k == 8927546382643954 {
        138
    } else if k == 7238696505539053 {
        139
    } else if k == 5549847719081567 {
        140
    } else if k == 3861004005634688 {
        141
    } else if k == 3861038405055360 {
        142
    } else if k == 3861038373663616 {
        143
    } else if k == 3861038369649536 {
        144
    } else if k == 3861038392734592 {
        145
    } else if k == 3298088439413120 {
        146
    } else if k == 6112935644001772 {
        147
    } else if k == 4424085765092973 {
        148
    } else if k == 3861107084850944 {
        149
    } else if k == 10057297220334318 {
        150
    } else if k == 5553694917097070 {
        151
    } else if k == 6116781227585766 {
        152
    } else if k == 6116821264038771 {
        153
    } else if k == 4432694794024815 {
        154
    } else if k == 3869731379196544 {
        155
    } else if k == 10062213347275502 {
        156
    } else if k == 5558611849558629 {
        157
    } else if k == 8940332733183982 {
        158
    } else if k == 6688527313696367 {
        159
    } else if k == 6688666334081764 {
        160
    } else if k == 6125718525982694 {
        161
    } else if k == 10066369265251295 {
        162
    } else if k == 3310938962539648 {
        163
    } else if k == 6125719352244591 {
        164
    } else if k == 6125786461058681 {
        165
    } else if k == 5562838097376101 {
        166
    } else if k == 7814637369784944 {
        167
    } else if k == 3311179495372800 {
        168
    } else if k == 3311248231430400 {
        169
    } else if k == 4437161966907632 {
        170
    } else if k == 4437161564254448 {
        171
    } else if k == 3874198151262848 {
        172
    } else if k == 5563079053882604 {
        173
    } else if k == 8940778633722733 {
        174
    } else if k == 9503728555553517 {
        175
    } else if k == 10066678511383775 {
        176
    } else if k == 5000163589944051 {
        177
    } else if k == 3874266868644096 {
        178
    } else if k == 5000284255910519 {
        179
    } else if k == 5000301569997431 {
        180
    } else if k == 4437351581168880 {
        181
    } else if k == 5004630355931381 {
        182
    } else if k == 5571424533705825 {
        183
    } else if k == 6134376903145316 {
        184
    } else if k == 2756647654619392 {
        185
    } else if k == 3319597614264960 {
        186
    } else if k == 3882547590983936 {
        187
    } else if k == 5008477294211941 {
        188
    } else if k == 5008478376261349 {
        189
    } else if k == 4445525201615730 {
        190
    } else if k == 9512074484510949 {
        191
    } else if k == 6697329580912886 {
        192
    } else if k == 5571423499743982 {
        193
    } else if k == 5008473506543333 {
        194
    } else if k == 6697328475566053 {
        195
    } else if k == 8949128303768051 {
        196
    } else if k == 2757128699574528 {
        197
    } else if k == 7260788745730663 {
        198
    } else if k == 7823742723584624 {
        199
    } else if k == 8386692687361778 {
        200
    } else if k == 8949642882168037 {
        201
    } else if k == 7260793315621479 {
        202
    } else if k == 7823743528826995 {
        203
    } else if k == 8949643693554669 {
        204
    } else if k == 10075540641527013 {
        205
    } else if k == 10079354064893798 {
        206
    } else if k == 7827554251387111 {
        207
    } else if k == 8390504164929765 {
        208
    } else if k == 12894103792218089 {
        209
    } else if k == 12894103808995305 {
        210
    } else if k == 10642303986907880 {
        211
    } else if k == 12331156791736686 {
        212
    } else if k == 10079357286119270 {
        213
    } else if k == 7827557472612595 {
        214
    } else if k == 8390507386155237 {
        215
    } else if k == 10642307208133352 {
        216
    } else if k == 6701659159360740 {
        217
    } else if k == 4449925651493363 {
        218
    } else if k == 3886945647785600 {
        219
    } else if k == 3886945616393856 {
        220
    } else if k == 3323995684041344 {
        221
    } else if k == 6138772562981620 {
        222
    } else if k == 5012874528977765 {
        223
    } else if k == 5012876422772453 {
        224
    } else if k == 4449923248124531 {
        225
    } else if k == 3886945647802112 {
        226
    } else if k == 7827621345261409 {
        227
    } else if k == 5012873717348837 {
        228
    } else if k == 5012873717578213 {
        229
    } else if k == 3886945624783360 {
        230
    } else if k == 5575826906904564 {
        231
    } else if k == 6701726538692463 {
        232
    } else if k == 5575824736220404 {
        233
    } else if k == 7827624545646189 {
        234
    } else if k == 3323995682058880 {
        235
    } else if k == 4449922421749875 {
        236
    } else if k == 6701725211326834 {
        237
    } else if k == 5012873717347045 {
        238
    } else if k == 5575823133899252 {
        239
    } else if k == 5575826892225012 {
        240
    } else if k == 5012873717576421 {
        241
    } else if k == 5575824744609012 {
        242
    } else if k == 8953521533253235 {
        243
    } else if k == 3886945624979968 {
        244
    } else if k == 6138774175872499 {
        245
    } else if k == 8953522070059361 {
        246
    } else if k == 7264672440464237 {
        247
    } else if k == 3886945625012736 {
        248
    } else if k == 5012876693418213 {
        249
    } else if k == 3324098733896704 {
        250
    } else if k == 3887048727000704 {
        251
    } else if k == 3324098740188160 {
        252
    } else if k == 3887048695608960 {
        253
    } else if k == 5012980584149608 {
        254
    } else if k == 6701863688239724 {
        255
    } else if k == 5575960293914215 {
        256
    } else if k == 6139119100524651 {
        257
    } else if k == 3887289213841792 {
        258
    } else if k == 3887323569354240 {
        259
    } else if k == 3887461014777984 {
        260
    } else if k == 3324511090407936 {
        261
    } else if k == 4450541427751027 {
        262
    } else if k == 3887564112801920 {
        263
    } else if k == 5576511385696109 {
        264
    } else if k == 8954210581983461 {
        265
    } else if k == 3887632813192960 {
        266
    } else if k == 2761732923488640 {
        267
    } else if k == 4450612563129587 {
        268
    } else if k == 3887632832215424 {
        269
    } else if k == 2202493802840064 {
        270
    } else if k == 3891412397094272 {
        271
    } else if k == 7269207428854495 {
        272
    } else if k == 7269207697356383 {
        273
    } else if k == 8395107604132575 {
        274
    } else if k == 8958057543006823 {
        275
    } else if k == 8958057543006835 {
        276
    } else if k == 9521008318658927 {
        277
    } else if k == 7832158441470567 {
        278
    } else if k == 7832161662696051 {
        279
    } else if k == 3328531148534912 {
        280
    } else if k == 3328599882626432 {
        281
    } else if k == 5017721416217074 {
        282
    } else if k == 3333066663163520 {
        283
    } else if k == 4458979994090229 {
        284
    } else if k == 3333101010319104 {
        285
    } else if k == 5021976883820398 {
        286
    } else if k == 4459028039627893 {
        287
    } else if k == 6711003922118246 {
        288
    } else if k == 5585137827641193 {
        289
    } else if k == 4463222886889334 {
        290
    } else if k == 5026341111625325 {
        291
    } else if k == 3341450441552000 {
        292
    } else if k == 3904400372085888 {
        293
    } else if k == 3342034557106432 {
        294
    } else if k == 3904984479249536 {
        295
    } else {
        -1
    }
}

/// No two system calls of the table share a name.
#[verifier::rlimit(100)]
pub proof fn lemma_syscall_names_distinct()
    ensures
        forall|i: int, j: int|
            0 <= i < j < aarch64_syscalls().len() ==> (#[trigger] aarch64_syscalls()[i]).0@
                != (#[trigger] aarch64_syscalls()[j]).0@,
{
    let s = aarch64_syscalls();
    reveal_strlit("accept4");
    reveal_strlit("accept");
    reveal_strlit("acct");
    reveal_strlit("add_key");
    reveal_strlit("adjtimex");
    reveal_strlit("bind");
    reveal_strlit("bpf");
    reveal_strlit("brk");
    reveal_strlit("capget");
    reveal_strlit("capset");
    reveal_strlit("chdir");
    reveal_strlit("chroot");
    reveal_strlit("clock_adjtime");
    reveal_strlit("clock_getres");
    reveal_strlit("clock_gettime");
    reveal_strlit("clock_nanosleep");
    reveal_strlit("clock_settime");
    reveal_strlit("clone3");
    reveal_strlit("clone");
    reveal_strlit("close_range");
    reveal_strlit("close");
    reveal_strlit("connect");
    reveal_strlit("copy_file_range");
    reveal_strlit("delete_module");
    reveal_strlit("dup3");
    reveal_strlit("dup");
    reveal_strlit("epoll_create1");
    reveal_strlit("epoll_ctl");
    reveal_strlit("epoll_pwait");
    reveal_strlit("eventfd2");
    reveal_strlit("execveat");
    reveal_strlit("execve");
    reveal_strlit("exit_group");
    reveal_strlit("exit");
    reveal_strlit("faccessat2");
    reveal_strlit("faccessat");
    reveal_strlit("fadvise64");
    reveal_strlit("fallocate");
    reveal_strlit("fanotify_init");
    reveal_strlit("fanotify_mark");
    reveal_strlit("fchdir");
    reveal_strlit("fchmodat");
    reveal_strlit("fchmod");
    reveal_strlit("fchownat");
    reveal_strlit("fchown");
    reveal_strlit("fcntl");
    reveal_strlit("fdatasync");
    reveal_strlit("fgetxattr");
    reveal_strlit("finit_module");
    reveal_strlit("flistxattr");
    reveal_strlit("flock");
    reveal_strlit("fremovexattr");
    reveal_strlit("fsconfig");
    reveal_strlit("fsetxattr");
    reveal_strlit("fsmount");
    reveal_strlit("fsopen");
    reveal_strlit("fspick");
    reveal_strlit("fstatfs");
    reveal_strlit("fstat");
    reveal_strlit("fsync");
    reveal_strlit("ftruncate");
    reveal_strlit("futex");
    reveal_strlit("getcpu");
    reveal_strlit("getcwd");
    reveal_strlit("getdents64");
    reveal_strlit("getegid");
    reveal_strlit("geteuid");
    reveal_strlit("getgid");
    reveal_strlit("getgroups");
    reveal_strlit("getitimer");
    reveal_strlit("get_mempolicy");
    reveal_strlit("getpeername");
    reveal_strlit("getpgid");
    reveal_strlit("getpid");
    reveal_strlit("getppid");
    reveal_strlit("getpriority");
    reveal_strlit("getrandom");
    reveal_strlit("getresgid");
    reveal_strlit("getresuid");
    reveal_strlit("getrlimit");
    reveal_strlit("get_robust_list");
    reveal_strlit("getrusage");
    reveal_strlit("getsid");
    reveal_strlit("getsockname");
    reveal_strlit("getsockopt");
    reveal_strlit("gettid");
    reveal_strlit("gettimeofday");
    reveal_strlit("getuid");
    reveal_strlit("getxattr");
    reveal_strlit("init_module");
    reveal_strlit("inotify_add_watch");
    reveal_strlit("inotify_init1");
    reveal_strlit("inotify_rm_watch");
    reveal_strlit("io_cancel");
    reveal_strlit("ioctl");
    reveal_strlit("io_destroy");
    reveal_strlit("io_getevents");
    reveal_strlit("io_pgetevents");
    reveal_strlit("ioprio_get");
    reveal_strlit("ioprio_set");
    reveal_strlit("io_setup");
    reveal_strlit("io_submit");
    reveal_strlit("io_uring_enter");
    reveal_strlit("io_uring_register");
    reveal_strlit("io_uring_setup");
    reveal_strlit("kcmp");
    reveal_strlit("kexec_file_load");
    reveal_strlit("kexec_load");
    reveal_strlit("keyctl");
    reveal_strlit("kill");
    reveal_strlit("lgetxattr");
    reveal_strlit("linkat");
    reveal_strlit("listen");
    reveal_strlit("listxattr");
    reveal_strlit("llistxattr");
    reveal_strlit("lookup_dcookie");
    reveal_strlit("lremovexattr");
    reveal_strlit("lseek");
    reveal_strlit("lsetxattr");
    reveal_strlit("madvise");
    reveal_strlit("mbind");
    reveal_strlit("membarrier");
    reveal_strlit("memfd_create");
    reveal_strlit("migrate_pages");
    reveal_strlit("mincore");
    reveal_strlit("mkdirat");
    reveal_strlit("mknodat");
    reveal_strlit("mlock2");
    reveal_strlit("mlockall");
    reveal_strlit("mlock");
    reveal_strlit("mmap");
    reveal_strlit("mount");
    reveal_strlit("move_mount");
    reveal_strlit("move_pages");
    reveal_strlit("mprotect");
    reveal_strlit("mq_getsetattr");
    reveal_strlit("mq_notify");
    reveal_strlit("mq_open");
    reveal_strlit("mq_timedreceive");
    reveal_strlit("mq_timedsend");
    reveal_strlit("mq_unlink");
    reveal_strlit("mremap");
    reveal_strlit("msgctl");
    reveal_strlit("msgget");
    reveal_strlit("msgrcv");
    reveal_strlit("msgsnd");
    reveal_strlit("msync");
    reveal_strlit("munlockall");
    reveal_strlit("munlock");
    reveal_strlit("munmap");
    reveal_strlit("name_to_handle_at");
    reveal_strlit("nanosleep");
    reveal_strlit("newfstatat");
    reveal_strlit("nfsservctl");
    reveal_strlit("openat2");
    reveal_strlit("openat");
    reveal_strlit("open_by_handle_at");
    reveal_strlit("open_tree");
    reveal_strlit("perf_event_open");
    reveal_strlit("personality");
    reveal_strlit("pidfd_getfd");
    reveal_strlit("pidfd_open");
    reveal_strlit("pidfd_send_signal");
    reveal_strlit("pipe2");
    reveal_strlit("pivot_root");
    reveal_strlit("pkey_alloc");
    reveal_strlit("pkey_free");
    reveal_strlit("pkey_mprotect");
    reveal_strlit("ppoll");
    reveal_strlit("prctl");
    reveal_strlit("pread64");
    reveal_strlit("preadv2");
    reveal_strlit("preadv");
    reveal_strlit("prlimit64");
    reveal_strlit("process_madvise");
    reveal_strlit("process_vm_readv");
    reveal_strlit("process_vm_writev");
    reveal_strlit("pselect6");
    reveal_strlit("ptrace");
    reveal_strlit("pwrite64");
    reveal_strlit("pwritev2");
    reveal_strlit("pwritev");
    reveal_strlit("quotactl");
    reveal_strlit("readahead");
    reveal_strlit("readlinkat");
    reveal_strlit("read");
    reveal_strlit("readv");
    reveal_strlit("reboot");
    reveal_strlit("recvfrom");
    reveal_strlit("recvmmsg");
    reveal_strlit("recvmsg");
    reveal_strlit("remap_file_pages");
    reveal_strlit("removexattr");
    reveal_strlit("renameat2");
    reveal_strlit("renameat");
    reveal_strlit("request_key");
    reveal_strlit("restart_syscall");
    reveal_strlit("rseq");
    reveal_strlit("rt_sigaction");
    reveal_strlit("rt_sigpending");
    reveal_strlit("rt_sigprocmask");
    reveal_strlit("rt_sigqueueinfo");
    reveal_strlit("rt_sigreturn");
    reveal_strlit("rt_sigsuspend");
    reveal_strlit("rt_sigtimedwait");
    reveal_strlit("rt_tgsigqueueinfo");
    reveal_strlit("sched_getaffinity");
    reveal_strlit("sched_getattr");
    reveal_strlit("sched_getparam");
    reveal_strlit("sched_get_priority_max");
    reveal_strlit("sched_get_priority_min");
    reveal_strlit("sched_getscheduler");
    reveal_strlit("sched_rr_get_interval");
    reveal_strlit("sched_setaffinity");
    reveal_strlit("sched_setattr");
    reveal_strlit("sched_setparam");
    reveal_strlit("sched_setscheduler");
    reveal_strlit("sched_yield");
    reveal_strlit("seccomp");
    reveal_strlit("semctl");
    reveal_strlit("semget");
    reveal_strlit("semop");
    reveal_strlit("semtimedop");
    reveal_strlit("sendfile");
    reveal_strlit("sendmmsg");
    reveal_strlit("sendmsg");
    reveal_strlit("sendto");
    reveal_strlit("setdomainname");
    reveal_strlit("setfsgid");
    reveal_strlit("setfsuid");
    reveal_strlit("setgid");
    reveal_strlit("setgroups");
    reveal_strlit("sethostname");
    reveal_strlit("setitimer");
    reveal_strlit("set_mempolicy");
    reveal_strlit("setns");
    reveal_strlit("setpgid");
    reveal_strlit("setpriority");
    reveal_strlit("setregid");
    reveal_strlit("setresgid");
    reveal_strlit("setresuid");
    reveal_strlit("setreuid");
    reveal_strlit("setrlimit");
    reveal_strlit("set_robust_list");
    reveal_strlit("setsid");
    reveal_strlit("setsockopt");
    reveal_strlit("set_tid_address");
    reveal_strlit("settimeofday");
    reveal_strlit("setuid");
    reveal_strlit("setxattr");
    reveal_strlit("shmat");
    reveal_strlit("shmctl");
    reveal_strlit("shmdt");
    reveal_strlit("shmget");
    reveal_strlit("shutdown");
    reveal_strlit("sigaltstack");
    reveal_strlit("signalfd4");
    reveal_strlit("socketpair");
    reveal_strlit("socket");
    reveal_strlit("splice");
    reveal_strlit("statfs");
    reveal_strlit("statx");
    reveal_strlit("swapoff");
    reveal_strlit("swapon");
    reveal_strlit("symlinkat");
    reveal_strlit("sync_file_range");
    reveal_strlit("syncfs");
    reveal_strlit("sync");
    reveal_strlit("sysinfo");
    reveal_strlit("syslog");
    reveal_strlit("tee");
    reveal_strlit("tgkill");
    reveal_strlit("timer_create");
    reveal_strlit("timer_delete");
    reveal_strlit("timerfd_create");
    reveal_strlit("timerfd_gettime");
    reveal_strlit("timerfd_settime");
    reveal_strlit("timer_getoverrun");
    reveal_strlit("timer_gettime");
    reveal_strlit("timer_settime");
    reveal_strlit("times");
    reveal_strlit("tkill");
    reveal_strlit("truncate");
    reveal_strlit("umask");
    reveal_strlit("umount2");
    reveal_strlit("uname");
    reveal_strlit("unlinkat");
    reveal_strlit("unshare");
    reveal_strlit("userfaultfd");
    reveal_strlit("utimensat");
    reveal_strlit("vhangup");
    reveal_strlit("vmsplice");
    reveal_strlit("wait4");
    reveal_strlit("waitid");
    reveal_strlit("write");
    reveal_strlit("writev");
    assert(s.len() == 296);
    assert forall|i: int| 0 <= i < s.len() implies position_of_key(name_key((#[trigger] s[i]).0@)) == i by {}
}

} // verus!
