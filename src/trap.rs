//! The trap frame and the classification of trap causes.
use vstd::prelude::*;

verus! {

/// Index of the stack pointer `sp` (x2) among the general-purpose registers.
pub const REG_SP: usize = 2;

/// Index of `a0` (x10): first argument and return value of a system call.
pub const REG_A0: usize = 10;

/// Index of `a1` (x11): second argument of a system call.
pub const REG_A1: usize = 11;

/// Index of `a2` (x12): third argument of a system call.
pub const REG_A2: usize = 12;

/// Index of `a7` (x17): the system call number.
pub const REG_A7: usize = 17;

/// The previous-privilege bit (SPP) of `sstatus`: set means the trap came
/// from supervisor mode, clear means `sret` returns to user mode.
pub const SSTATUS_SPP: usize = 0x100;

/// Exception code of an illegal instruction.
pub const EXC_ILLEGAL_INSTRUCTION: usize = 2;

/// Exception code of a load access fault.
pub const EXC_LOAD_FAULT: usize = 5;

/// Exception code of a store or AMO access fault.
pub const EXC_STORE_FAULT: usize = 7;

/// Exception code of an environment call from user mode.
pub const EXC_USER_ENV_CALL: usize = 8;

/// Exception code of a load page fault.
pub const EXC_LOAD_PAGE_FAULT: usize = 13;

/// Exception code of a store or AMO page fault.
pub const EXC_STORE_PAGE_FAULT: usize = 15;

/// The registers saved when control passes from user mode to the kernel:
/// the 32 general-purpose registers, the saved status register and the
/// exception return address.
#[derive(Clone, Copy, Debug, PartialEq, Eq)]
pub struct TrapContext {
    pub x: [usize; 32],
    pub sstatus: usize,
    pub sepc: usize,
}

/// What caused a trap, as the dispatcher tells causes apart.
#[derive(Clone, Copy, Debug, PartialEq, Eq, Structural)]
pub enum TrapCause {
    /// An `ecall` from user mode: a system call.
    UserEnvCall,
    /// An instruction the hart refused to execute.
    IllegalInstruction,
    LoadFault,
    LoadPageFault,
    StoreFault,
    StorePageFault,
    /// Any other exception, or an interrupt: none is expected while an
    /// application runs.
    Unsupported { interrupt: bool, code: usize },
}

/// The cause that a trap with this interrupt flag and code denotes.
pub open spec fn cause_of(interrupt: bool, code: usize) -> TrapCause {
    if interrupt {
        TrapCause::Unsupported { interrupt, code }
    } else if code == EXC_USER_ENV_CALL {
        TrapCause::UserEnvCall
    } else if code == EXC_ILLEGAL_INSTRUCTION {
        TrapCause::IllegalInstruction
    } else if code == EXC_LOAD_FAULT {
        TrapCause::LoadFault
    } else if code == EXC_LOAD_PAGE_FAULT {
        TrapCause::LoadPageFault
    } else if code == EXC_STORE_FAULT {
        TrapCause::StoreFault
    } else if code == EXC_STORE_PAGE_FAULT {
        TrapCause::StorePageFault
    } else {
        TrapCause::Unsupported { interrupt, code }
    }
}

impl TrapCause {
    /// Classifies a trap from the interrupt flag and the code held in `scause`.
    pub fn classify(interrupt: bool, code: usize) -> (r: TrapCause)
        ensures
            r == cause_of(interrupt, code),
    {
        if interrupt {
            TrapCause::Unsupported { interrupt, code }
        } else if code == EXC_USER_ENV_CALL {
            TrapCause::UserEnvCall
        } else if code == EXC_ILLEGAL_INSTRUCTION {
            TrapCause::IllegalInstruction
        } else if code == EXC_LOAD_FAULT {
            TrapCause::LoadFault
        } else if code == EXC_LOAD_PAGE_FAULT {
            TrapCause::LoadPageFault
        } else if code == EXC_STORE_FAULT {
            TrapCause::StoreFault
        } else if code == EXC_STORE_PAGE_FAULT {
            TrapCause::StorePageFault
        } else {
            TrapCause::Unsupported { interrupt, code }
        }
    }
}

impl TrapContext {
    /// The frame with which an application starts: every register zero but
    /// the stack pointer, execution at `entry`, and `sstatus` with the
    /// previous-privilege bit cleared so that `sret` lands in user mode.
    pub open spec fn is_initial(self, sstatus: usize, entry: usize, sp: usize) -> bool {
        &&& self.x@ == Seq::new(32, |i: int| 0usize).update(REG_SP as int, sp)
        &&& self.sstatus == sstatus & !SSTATUS_SPP
        &&& self.sepc == entry
    }

    /// Builds the initial frame of an application from the current `sstatus`.
    pub fn app_init_context(sstatus: usize, entry: usize, sp: usize) -> (r: TrapContext)
        ensures
            r.is_initial(sstatus, entry, sp),
    {
        let mut x: [usize; 32] = [0usize; 32];
        x[REG_SP] = sp;
        let r = TrapContext { x, sstatus: sstatus & !SSTATUS_SPP, sepc: entry };
        assert(r.x@ =~= Seq::new(32, |i: int| 0usize).update(REG_SP as int, sp));
        r
    }
}

} // verus!
