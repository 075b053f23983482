//! The Android debug bridge on Windows. It answers as elsewhere, but forwards that an earlier
//! session left are dropped before a new one is made.
use vstd::prelude::*;

pub use crate::adb::{device_connected, remove_forward};

use crate::adb as bridge;

verus! {

/// The calls of `adb`, one after another, that forward the local `port` to the same port of the
/// phone. The first clears what may be left of an earlier session; [`forward_outcome`] says what
/// their outcomes amount to.
pub fn forward(port: u16) -> (r: Vec<Vec<String>>)
    ensures
        r.deep_view() == seq![
            seq!["forward"@, "--remove"@, bridge::port_spec(port)],
            seq!["forward"@, bridge::port_spec(port), bridge::port_spec(port)],
        ],
{
    let mut calls: Vec<Vec<String>> = Vec::new();
    calls.push(bridge::remove_forward(port));
    calls.push(bridge::forward(port));
    assert(calls.deep_view() =~= seq![
        seq!["forward"@, "--remove"@, bridge::port_spec(port)],
        seq!["forward"@, bridge::port_spec(port), bridge::port_spec(port)],
    ]);
    calls
}

/// Whether the port is forwarded after the two calls of [`forward`] went well or not. There may have
/// been nothing to clear, so the second alone decides.
pub fn forward_outcome(_first: bool, second: bool) -> (r: bool)
    ensures
        r == second,
{
    second
}

} // verus!
