//! Trusted declarations for the per-camera byte channels.
//!
//! The render phase and the simulation tick communicate exclusively through
//! unbounded single-producer/single-consumer channels of raw frame bytes.
//! The channel endpoints come from crossbeam_channel; what a receive returns
//! depends on what the other execution context has sent so far, so nothing
//! is promised about the drained values — the verified code states what
//! holds whatever came back.

use vstd::prelude::*;

verus! {

/// crossbeam_channel's producer endpoint, declared so that library types
/// and signatures can carry it.
#[verifier::external_type_specification]
#[verifier::external_body]
#[verifier::reject_recursive_types(T)]
pub struct ExSender<T>(crossbeam_channel::Sender<T>);

/// crossbeam_channel's consumer endpoint, declared so that library types
/// and signatures can carry it.
#[verifier::external_type_specification]
#[verifier::external_body]
#[verifier::reject_recursive_types(T)]
pub struct ExReceiver<T>(crossbeam_channel::Receiver<T>);

/// Relies on crossbeam_channel::unbounded: creates a fresh channel of
/// unbounded capacity and returns its two endpoints.
#[verifier::external_body]
pub(crate) fn channel_unbounded() -> (crossbeam_channel::Sender<Vec<u8>>, crossbeam_channel::Receiver<
    Vec<u8>,
>) {
    crossbeam_channel::unbounded()
}

/// Relies on Receiver::len: how many messages sit in the channel at this
/// moment. The other execution context may add more at any time, so no
/// more is stated.
#[verifier::external_body]
pub(crate) fn channel_len(r: &crossbeam_channel::Receiver<Vec<u8>>) -> usize {
    r.len()
}

/// Relies on Receiver::try_recv: takes the oldest pending message without
/// ever blocking, or returns nothing when the channel is empty or its
/// sender is gone — which is no error, only "no new frame". What comes
/// back depends on the sending side, so no more is stated.
#[verifier::external_body]
pub(crate) fn try_recv_bytes(r: &crossbeam_channel::Receiver<Vec<u8>>) -> Option<Vec<u8>> {
    r.try_recv().ok()
}

/// Relies on Sender::send: on an unbounded channel the call never blocks;
/// it fails only when every receiver was dropped, and the payload is then
/// discarded. Returns whether the channel accepted the payload.
#[verifier::external_body]
pub(crate) fn send_bytes(s: &crossbeam_channel::Sender<Vec<u8>>, payload: Vec<u8>) -> bool {
    s.send(payload).is_ok()
}

} // verus!
