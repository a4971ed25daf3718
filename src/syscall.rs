//! The system call router.
use vstd::prelude::*;

use crate::config::{APP_BASE_ADDRESS, APP_SIZE_LIMIT};
use crate::event::Event;

verus! {

/// System call number of `write(fd, buf, len)`.
pub const SYSCALL_WRITE: usize = 0;

/// System call number of `exit(code)`.
pub const SYSCALL_EXIT: usize = 1;

/// The one file descriptor that `write` accepts: standard output.
pub const FD_STDOUT: usize = 1;

/// What a refused system call returns to the application.
pub const SYSCALL_ERROR: isize = -1;

/// The buffer `[buf, buf + len)` lies within the execution window.
pub open spec fn buffer_in_window(buf: usize, len: usize) -> bool {
    APP_BASE_ADDRESS <= buf && buf - APP_BASE_ADDRESS + len <= APP_SIZE_LIMIT
}

/// The bytes of the buffer `[buf, buf + len)`, read from the window.
pub open spec fn window_slice(window: Seq<u8>, buf: usize, len: usize) -> Seq<u8> {
    window.subrange(buf - APP_BASE_ADDRESS, buf - APP_BASE_ADDRESS + len)
}

/// `write` is carried out: the descriptor is standard output and the buffer
/// belongs to the application.
pub open spec fn write_accepted(fd: usize, buf: usize, len: usize) -> bool {
    fd == FD_STDOUT && buffer_in_window(buf, len)
}

/// `log` is `before` with one `Output` entry of exactly `bytes` appended.
pub open spec fn output_appended(before: Seq<Event>, log: Seq<Event>, bytes: Seq<u8>) -> bool {
    &&& log.len() == before.len() + 1
    &&& log.drop_last() == before
    &&& log.last() matches Event::Output(v) && v@ == bytes
}

/// How a system call ends.
#[derive(Clone, Copy, Debug, PartialEq, Eq, Structural)]
pub enum SyscallOutcome {
    /// The call returns this value to the same application.
    Return(isize),
    /// The application has exited with this code and must not be resumed.
    Exit(i32),
}

/// The value that a returning system call hands back.
pub open spec fn syscall_return(id: usize, fd: usize, buf: usize, len: usize) -> isize {
    if id == SYSCALL_WRITE && write_accepted(fd, buf, len) {
        len as isize
    } else {
        SYSCALL_ERROR
    }
}

/// `write(fd, buf, len)`: copies the buffer from the execution window to the
/// console and returns its length; a descriptor other than standard output,
/// or a buffer outside the window, gets an error and writes nothing.
pub fn sys_write(fd: usize, buf: usize, len: usize, window: &Vec<u8>, log: &mut Vec<Event>) -> (r:
    isize)
    requires
        window@.len() == APP_SIZE_LIMIT,
    ensures
        write_accepted(fd, buf, len) ==> r == len && output_appended(
            old(log)@,
            final(log)@,
            window_slice(window@, buf, len),
        ),
        !write_accepted(fd, buf, len) ==> r == SYSCALL_ERROR && final(log)@ == old(log)@,
{
    if fd != FD_STDOUT || buf < APP_BASE_ADDRESS || len > APP_SIZE_LIMIT || buf
        - APP_BASE_ADDRESS > APP_SIZE_LIMIT - len {
        return SYSCALL_ERROR;
    }
    let start: usize = buf - APP_BASE_ADDRESS;
    let mut bytes: Vec<u8> = Vec::new();
    let mut i: usize = 0;
    while i < len
        invariant
            i <= len,
            start + len <= APP_SIZE_LIMIT,
            window@.len() == APP_SIZE_LIMIT,
            bytes@ == window@.subrange(start as int, start + i),
        decreases len - i,
    {
        bytes.push(window[start + i]);
        i = i + 1;
        assert(bytes@ =~= window@.subrange(start as int, start + i));
    }
    log.push(Event::Output(bytes));
    assert(final(log)@.drop_last() =~= old(log)@);
    len as isize
}

/// `exit(code)`: records the code on the console. The caller moves the batch
/// on; the exiting application is never resumed.
pub fn sys_exit(code: i32, log: &mut Vec<Event>)
    ensures
        final(log)@ == old(log)@.push(Event::Exited(code)),
{
    log.push(Event::Exited(code));
}

/// Routes system call `id` with its three argument registers. Unknown
/// numbers are a soft error: the caller gets the error value and goes on.
pub fn syscall(id: usize, args: [usize; 3], window: &Vec<u8>, log: &mut Vec<Event>) -> (r:
    SyscallOutcome)
    requires
        window@.len() == APP_SIZE_LIMIT,
    ensures
        id == SYSCALL_EXIT ==> r == SyscallOutcome::Exit(args[0] as i32) && final(log)@ == old(
            log,
        )@.push(Event::Exited(args[0] as i32)),
        id != SYSCALL_EXIT ==> r == SyscallOutcome::Return(
            syscall_return(id, args[0], args[1], args[2]),
        ),
        id == SYSCALL_WRITE && write_accepted(args[0], args[1], args[2]) ==> output_appended(
            old(log)@,
            final(log)@,
            window_slice(window@, args[1], args[2]),
        ),
        !(id == SYSCALL_EXIT || (id == SYSCALL_WRITE && write_accepted(args[0], args[1], args[2])))
            ==> final(log)@ == old(log)@,
{
    if id == SYSCALL_WRITE {
        SyscallOutcome::Return(sys_write(args[0], args[1], args[2], window, log))
    } else if id == SYSCALL_EXIT {
        let code: i32 = args[0] as i32;
        sys_exit(code, log);
        SyscallOutcome::Exit(code)
    } else {
        SyscallOutcome::Return(SYSCALL_ERROR)
    }
}

} // verus!
