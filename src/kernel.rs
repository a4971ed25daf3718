//! The trap dispatcher: the kernel's whole reaction to a trap.
//!
//! The caller owns the hardware. It enters user mode with the frame that an
//! [`Action`] names, and on the next trap it hands the saved frame and the
//! classified cause to [`Kernel::handle_trap`], which decides whether the same
//! application resumes, the next one starts, or the machine halts.
use vstd::prelude::*;

use crate::app_table::{declared_count, init_error, table_images, table_ok, AppTable, InitError};
use crate::batch::{advance_event, advanced, launch_target, loaded_window, BatchManager};
use crate::config::{APP_BASE_ADDRESS, APP_SIZE_LIMIT, USER_STACK_TOP};
use crate::event::{Action, Event};
use crate::syscall::{
    output_appended, syscall, syscall_return, window_slice, write_accepted, SyscallOutcome,
    SYSCALL_EXIT, SYSCALL_WRITE,
};
use crate::trap::{TrapCause, TrapContext, REG_A0, REG_A1, REG_A2, REG_A7};

verus! {

/// The trap ends the running application: every trap but a system call,
/// and the `exit` call.
pub open spec fn ends_app(cause: TrapCause, id: usize) -> bool {
    cause != TrapCause::UserEnvCall || id == SYSCALL_EXIT
}

/// What the console records when the running application ends: its exit
/// code, or the trap that killed it.
pub open spec fn end_event(cause: TrapCause, stval: usize, a0: usize) -> Event {
    if cause == TrapCause::UserEnvCall {
        Event::Exited(a0 as i32)
    } else {
        Event::Fault { cause, stval }
    }
}

/// `exit` from application `k` is followed by the load of application
/// `k + 1`, or by the halt when `k` was the last; the exiting application is
/// never resumed. Launching `k` leaves the index at `k + 1`, and the trap
/// that `exit` raises ends the application and advances from there.
pub proof fn lemma_exit_loads_next(count: nat, k: nat)
    requires
        k < count,
    ensures
        launch_target(count, k) == Some(k),
        advanced(count, k) == k + 1,
        ends_app(TrapCause::UserEnvCall, SYSCALL_EXIT),
        launch_target(count, advanced(count, k)) == if k + 1 < count {
            Some(k + 1)
        } else {
            None::<nat>
        },
{
}

/// A fault, or any trap that is not a system call, ends the running
/// application just as `exit` does, whatever the registers hold: the same
/// application is launched next, the index and the window change alike,
/// and only the console entry for the ending differs.
pub proof fn lemma_fault_like_exit(cause: TrapCause, id: usize)
    requires
        cause != TrapCause::UserEnvCall,
    ensures
        ends_app(cause, id),
        ends_app(cause, id) == ends_app(TrapCause::UserEnvCall, SYSCALL_EXIT),
{
}

/// A blob that declares no application is refused at boot, with the error
/// for an empty table, so no application is ever entered.
pub proof fn lemma_empty_table_refused(blob: Seq<u8>)
    requires
        blob.len() >= 8,
        declared_count(blob) == 0,
    ensures
        !table_ok(blob),
        init_error(blob) == InitError::Empty,
{
}

/// The kernel: the batch state and the console record of everything that
/// was reported so far.
pub struct Kernel {
    batch: BatchManager,
    log: Vec<Event>,
    sstatus: usize,
}

impl Kernel {
    pub closed spec fn images(&self) -> Seq<Seq<u8>> {
        self.batch.images()
    }

    pub open spec fn count(&self) -> nat {
        self.images().len()
    }

    /// The index of the next application to load.
    pub closed spec fn current(&self) -> nat {
        self.batch.current()
    }

    /// The contents of the execution window.
    pub closed spec fn window(&self) -> Seq<u8> {
        self.batch.window()
    }

    /// Everything reported on the console so far, in order.
    pub closed spec fn events(&self) -> Seq<Event> {
        self.log@
    }

    /// The status register value from which application frames are built.
    pub closed spec fn sstatus(&self) -> usize {
        self.sstatus
    }

    pub closed spec fn wf(&self) -> bool {
        self.batch.wf()
    }

    /// Validates and indexes the application blob. A malformed or empty
    /// table is fatal: no application is ever entered.
    pub fn boot(blob: Vec<u8>, sstatus: usize) -> (r: Result<Kernel, InitError>)
        ensures
            r is Ok <==> table_ok(blob@),
            match r {
                Ok(k) => {
                    &&& k.wf()
                    &&& k.images() == table_images(blob@)
                    &&& k.current() == 0
                    &&& k.events() == Seq::<Event>::empty()
                    &&& k.sstatus() == sstatus
                },
                Err(e) => e == init_error(blob@),
            },
    {
        match AppTable::parse(blob) {
            Ok(table) => Ok(Kernel { batch: BatchManager::new(table), log: Vec::new(), sstatus }),
            Err(e) => Err(e),
        }
    }

    /// Starts the next application, or halts when none is left.
    pub fn run_next_app(&mut self) -> (r: Action)
        requires
            old(self).wf(),
        ensures
            final(self).wf(),
            final(self).images() == old(self).images(),
            final(self).sstatus() == old(self).sstatus(),
            final(self).current() == advanced(old(self).count(), old(self).current()),
            r.launched() == launch_target(old(self).count(), old(self).current()),
            r !is Resume,
            r matches Action::Enter { context, .. } ==> context.is_initial(
                old(self).sstatus(),
                APP_BASE_ADDRESS,
                USER_STACK_TOP,
            ),
            old(self).current() < old(self).count() ==> final(self).window() == loaded_window(
                old(self).images()[old(self).current() as int],
            ),
            old(self).current() >= old(self).count() ==> final(self).window() == old(self).window(),
            final(self).events() == old(self).events().push(
                advance_event(old(self).count(), old(self).current()),
            ),
    {
        self.batch.run_next_app(self.sstatus, &mut self.log)
    }

    /// Handles one trap taken while an application ran. `cx` is the frame
    /// saved on entry, `cause` the classified trap cause and `stval` the
    /// faulting value. A system call other than `exit` is answered in `a0`
    /// and the same application resumes after the `ecall`; `exit` and every
    /// other trap end the application and move the batch on.
    pub fn handle_trap(&mut self, cx: &mut TrapContext, cause: TrapCause, stval: usize) -> (r:
        Action)
        requires
            old(self).wf(),
        ensures
            final(self).wf(),
            final(self).images() == old(self).images(),
            final(self).sstatus() == old(self).sstatus(),
            ({
                let id = old(cx).x@[REG_A7 as int];
                let a0 = old(cx).x@[REG_A0 as int];
                let a1 = old(cx).x@[REG_A1 as int];
                let a2 = old(cx).x@[REG_A2 as int];
                if ends_app(cause, id) {
                    &&& r.launched() == launch_target(old(self).count(), old(self).current())
                    &&& r !is Resume
                    &&& r matches Action::Enter { context, .. } ==> context.is_initial(
                        old(self).sstatus(),
                        APP_BASE_ADDRESS,
                        USER_STACK_TOP,
                    )
                    &&& final(self).current() == advanced(old(self).count(), old(self).current())
                    &&& old(self).current() < old(self).count() ==> final(self).window()
                        == loaded_window(old(self).images()[old(self).current() as int])
                    &&& old(self).current() >= old(self).count() ==> final(self).window()
                        == old(self).window()
                    &&& final(self).events() == old(self).events().push(
                        end_event(cause, stval, a0),
                    ).push(advance_event(old(self).count(), old(self).current()))
                    &&& *final(cx) == *old(cx)
                } else {
                    &&& r == Action::Resume
                    &&& final(self).current() == old(self).current()
                    &&& final(self).window() == old(self).window()
                    &&& final(cx).sepc == old(cx).sepc.wrapping_add(4)
                    &&& final(cx).sstatus == old(cx).sstatus
                    &&& final(cx).x@ == old(cx).x@.update(
                        REG_A0 as int,
                        syscall_return(id, a0, a1, a2) as usize,
                    )
                    &&& id == SYSCALL_WRITE && write_accepted(a0, a1, a2) ==> output_appended(
                        old(self).events(),
                        final(self).events(),
                        window_slice(old(self).window(), a1, a2),
                    )
                    &&& !(id == SYSCALL_WRITE && write_accepted(a0, a1, a2))
                        ==> final(self).events() == old(self).events()
                }
            }),
    {
        match cause {
            TrapCause::UserEnvCall => {
                let args: [usize; 3] = [cx.x[REG_A0], cx.x[REG_A1], cx.x[REG_A2]];
                let outcome = syscall(cx.x[REG_A7], args, self.batch.window_bytes(), &mut self.log);
                match outcome {
                    SyscallOutcome::Return(value) => {
                        cx.sepc = cx.sepc.wrapping_add(4);
                        cx.x[REG_A0] = value as usize;
                        Action::Resume
                    },
                    SyscallOutcome::Exit(_) => self.run_next_app(),
                }
            },
            _ => {
                self.log.push(Event::Fault { cause, stval });
                self.run_next_app()
            },
        }
    }

    /// Everything reported on the console so far, in order.
    pub fn log(&self) -> (r: &Vec<Event>)
        ensures
            r@ == self.events(),
    {
        &self.log
    }

    /// The execution window, from which the running application executes.
    pub fn window_bytes(&self) -> (r: &Vec<u8>)
        requires
            self.wf(),
        ensures
            r@ == self.window(),
    {
        self.batch.window_bytes()
    }

    /// The number of applications in the batch.
    pub fn app_count(&self) -> (r: usize)
        ensures
            r == self.count(),
    {
        self.batch.app_count()
    }

    /// The index of the next application to load.
    pub fn current_index(&self) -> (r: usize)
        ensures
            r == self.current(),
    {
        self.batch.current_index()
    }
}

} // verus!
