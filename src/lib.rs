//! A batch-processing kernel core for a single-hart RISC-V machine.
//!
//! The kernel holds a table of application images, copies one image at a time
//! into a fixed execution window, enters it in user mode, and regains control
//! on every trap: a system call resumes the same application, an `exit` or a
//! fault moves on to the next one, and the machine halts once every
//! application has run. Everything that touches real hardware (the privilege
//! switch itself, the console, the power-off call) stays outside this library:
//! the functions here decide, and the caller carries out what they decide.
pub mod app_table;
pub mod batch;
pub mod config;
pub mod event;
pub mod kernel;
pub mod prime;
pub mod syscall;
pub mod trap;
