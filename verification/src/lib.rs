//! A rendezvous is an execution barrier between a pair of threads; this crate
//! also offers the option of exchanging data at the synchronisation point.
//!
//! The handshake uses only release stores and acquire loads on a pair of
//! progress counters, one written by each side: no compare-and-swap, no locks
//! and no blocking system calls. Each side keeps a private generation count,
//! publishes `generation + 1` to its own counter, then polls the peer's
//! counter until it moves past the remembered pre-increment value.
//!
//! [`Rendezvous`] is the bare barrier. [`RendezvousData`] layers slot
//! bookkeeping on the same handshake: a pair of handles alternate exclusive
//! ownership of two storage slots, and the handshake is the sole point at
//! which ownership moves. The storage cells themselves sit beside the
//! counters in whatever layer embeds the handles; the index a handle reports
//! is what makes access to the matching cell exclusive. The protocol and the
//! slot accounting are stated and proved in [`protocol`].
//!
//! The blocking operations poll on a spin budget far beyond any practical
//! run and report whether the handshake completed; an exhausted budget
//! leaves the handle's round untouched, so the call may simply be repeated.
//! A handle pair must be used with matched call counts: the side whose peer
//! never arrives makes no progress, which is the intended liveness
//! trade-off of a spin-based primitive, never a safety failure.

pub mod padded;
pub mod protocol;
pub mod rendezvous;
pub mod rendezvous_data;

pub use padded::Padded;
pub use rendezvous::Rendezvous;
pub use rendezvous_data::RendezvousData;
