//! Verified core of the pw_kernel interrupt-control support: the flag
//! types and syscall return encoding shared by kernel and user space, the
//! interrupt object state machine, and the register arithmetic of the
//! RISC-V PLIC and Arm NVIC interrupt controllers.

pub mod status;
pub mod syscall_defs;
pub mod interrupt_object;
pub mod plic;
pub mod nvic;
pub mod interrupt_controller;
pub mod syscall_host;
