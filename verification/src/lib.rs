//! Swap eligibility and amount resolution for an entangled token pair.
//!
//! Two mints, a parent and a child, are linked so that a holder of either can
//! exchange it for the other. Each side has its own activation window: a
//! go-live instant before which swaps are forbidden, and an optional freeze
//! instant at and after which they are forbidden again. A swap request either
//! names an exact amount or asks for everything both balances permit.
//!
//! The library decides, from two configuration records, two balance
//! snapshots, a timestamp and a request, whether a swap may proceed and what
//! quantity to transfer. It is pure: the caller supplies the clock reading and
//! the balance snapshots, and performs the actual transfer with the resolved
//! amount afterwards.

pub mod error;
pub mod laws;
pub mod state;
pub mod swap;

pub use error::ErrorCode;
pub use state::{EntanglerConfig, EntanglerState, SwapV0Args, TokenBalanceSnapshot};
pub use swap::{swap_shared_logic, SwapAmount};
