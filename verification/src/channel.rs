use vstd::prelude::*;

verus! {

use crossbeam::channel::{Receiver, Sender};

#[verifier::external_type_specification]
#[verifier::external_body]
#[verifier::reject_recursive_types(T)]
pub struct ExSender<T>(Sender<T>);

#[verifier::external_type_specification]
#[verifier::external_body]
#[verifier::reject_recursive_types(T)]
pub struct ExReceiver<T>(Receiver<T>);

/// What one non-blocking look at a channel's receiving end found: a
/// message, nothing for now, or a peer that is gone for good.
pub enum ChannelPoll<T> {
    Item(T),
    Empty,
    Disconnected,
}

/// Relies on crossbeam_channel::unbounded: the two ends of a fresh
/// unbounded channel, on which sending never blocks.
#[verifier::external_body]
pub(crate) fn channel_pair<T>() -> (Sender<T>, Receiver<T>) {
    crossbeam::channel::unbounded()
}

/// Relies on crossbeam_channel::Sender::send: on an unbounded channel the
/// message is enqueued and true comes back, unless every receiver has been
/// dropped, in which case the message is lost and false comes back. Never
/// blocks on an unbounded channel and never panics.
#[verifier::external_body]
pub(crate) fn channel_send<T>(tx: &Sender<T>, msg: T) -> (delivered: bool) {
    tx.send(msg).is_ok()
}

/// Relies on crossbeam_channel::Receiver::try_recv: returns immediately,
/// never blocks and never panics; hands back a queued message if one is
/// there, otherwise reports the channel empty, or disconnected when it is
/// empty and every sender has been dropped.
#[verifier::external_body]
pub(crate) fn channel_try_recv<T>(rx: &Receiver<T>) -> (polled: ChannelPoll<T>) {
    match rx.try_recv() {
        Ok(msg) => ChannelPoll::Item(msg),
        Err(crossbeam::channel::TryRecvError::Empty) => ChannelPoll::Empty,
        Err(crossbeam::channel::TryRecvError::Disconnected) => ChannelPoll::Disconnected,
    }
}

} // verus!
