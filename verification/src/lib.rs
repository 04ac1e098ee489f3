//! A counter program for a host that keeps state in accounts.
//!
//! An account stores one unsigned 32-bit counter in the first four bytes of
//! its data, little-endian. An invocation finds the first account handed to
//! it, checks that the invoked program owns it, and adds one to the counter.
//! [`processor::process_instruction`] is the whole of it; its contract says
//! for every input whether the invocation is served and what the accounts
//! hold afterwards.

pub mod account;
pub mod codec;
pub mod encoding;
pub mod error;
pub mod processor;
pub mod state;

pub use account::{AccountInfo, Pubkey};
pub use error::ProgramError;
pub use processor::process_instruction;
pub use state::MathStuffSquare;
