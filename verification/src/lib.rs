//! A local-loopback OAuth redirect capture library.
//!
//! A desktop application completing a browser-based OAuth flow stands up a
//! short-lived HTTP listener on the user's own machine, receives the
//! provider's redirect there, extracts the bearer token or authorization
//! code from it, and hands the value back to the waiting caller exactly
//! once — or fails with a timeout.
//!
//! This crate holds everything that decides: request dispatch
//! ([`handler`]), the multi-strategy token extraction ([`extract`] over the
//! byte-level parsing in [`bytes`]), the write-once capture record
//! ([`state`]), and the listener's and waiter's step logic ([`flow`]).  The
//! socket, the clock and the threads stay with the caller, which feeds the
//! library plain values and performs the actions it decides on.

pub mod bytes;
pub mod extract;
pub mod flow;
pub mod handler;
pub mod state;

use vstd::prelude::*;

verus! {

/// The fixed loopback port the capture listener binds to.  OAuth providers
/// require a pre-registered exact redirect URI, so the port never varies.
pub const AUTH_CALLBACK_PORT: u16 = 43123;

/// Legacy shim: callers once asked for a free port; the answer is always the
/// fixed callback port.
pub fn get_free_port() -> (p: u16)
    ensures
        p == AUTH_CALLBACK_PORT,
{
    AUTH_CALLBACK_PORT
}

} // verus!
