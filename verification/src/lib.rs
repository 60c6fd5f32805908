//! Early-boot trap and privilege infrastructure of a single-core x86-64 kernel,
//! as decisions over plain values.
//!
//! Nothing in this crate touches a port, a descriptor table or a register.
//! Each function computes what has to be written where, and its contract says
//! exactly what that is; the kernel binary around it performs the writes.
//!
//! - `interrupts`: vector numbering, the vector table, the controllers' setup
//!   and what each handler does.
//! - `boot`: the order in which interrupt delivery is brought up.
//! - `pit`: the port program of the periodic timer.
//! - `serial`: the bytes that go on the wire of the diagnostic output.
//! - `usermode`: the trap-return frame that enters user mode.
//!
//! Everything is verified but five private functions in `usermode` that call
//! the `x86_64` crate for address arithmetic and page flags. Their contracts
//! are taken on trust; each says in its documentation what it claims.

pub mod boot;
pub mod interrupts;
pub mod pit;
pub mod serial;
pub mod usermode;
