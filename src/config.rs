//! Memory layout of the execution window and the user stack.
use vstd::prelude::*;

verus! {

/// Address at which every application is loaded and entered.
pub const APP_BASE_ADDRESS: usize = 0x8040_0000;

/// Size of the execution window: the largest image an application may have.
pub const APP_SIZE_LIMIT: usize = 0x2_0000;

/// Size of the user stack that each launch gets afresh.
pub const USER_STACK_SIZE: usize = 0x2000;

/// Initial stack pointer of an application: the user stack lies right
/// above the execution window and grows down.
pub const USER_STACK_TOP: usize = APP_BASE_ADDRESS + APP_SIZE_LIMIT + USER_STACK_SIZE;

} // verus!
