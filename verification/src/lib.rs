//! Privilege-boundary core of an embedded multiprogramming kernel.
//!
//! The crate models and verifies the three mechanisms that sit on the
//! boundary between untrusted processes and the kernel:
//!
//! * the trap dispatcher ([`trap`]), which classifies every hardware trap by
//!   origin, checkpoints the interrupted process into its
//!   [`process_state::StoredProcessState`] record, and hands control back to
//!   the kernel's context-switch code;
//! * the deferred call scheduler ([`deferred_call`]), a fixed-capacity,
//!   allocation-free registry of callback sites driven by a pending bitmask;
//! * the syscall router ([`router`]), which maps a numeric driver identifier
//!   to a registered service and forwards a four-word command request.
//!
//! Around this core stand the in-kernel services that answer commands
//! ([`drivers`], [`external_driver`]) and an experimental layer that tunnels
//! syscalls over a serial link ([`external_call`], [`external_redirect`],
//! [`uart1`], [`virtual_uart`]). Hardware access itself (register reads,
//! UART transfers) stays outside the crate: every function here computes
//! over plain machine words and buffers, and returns the action the caller
//! must carry out.

pub mod deferred_call;
pub mod diagnostics;
pub mod drivers;
pub mod external_call;
pub mod external_driver;
pub mod external_redirect;
pub mod router;
pub mod process_state;
pub mod sys_redirect;
pub mod syscall;
pub mod trap;
pub mod uart1;
pub mod virtual_uart;
