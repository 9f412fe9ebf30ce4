//! Trusted surface over the cross-thread transport.
//!
//! The live callback sinks forward events through a bounded
//! multi-producer/single-consumer channel. The channel is shared mutable
//! state raced by other threads, so nothing is assumed about its contents;
//! what each delivered item holds is stated by the verified functions that
//! build the items. The deterministic counterpart of the transport's policy
//! (bounded, FIFO, drop on full or closed) is [`crate::queue::EventQueue`].

use vstd::prelude::*;

verus! {

#[verifier::external_type_specification]
#[verifier::external_body]
#[verifier::reject_recursive_types(T)]
pub struct ExSender<T>(async_std::channel::Sender<T>);

#[verifier::external_type_specification]
#[verifier::external_body]
#[verifier::reject_recursive_types(T)]
pub struct ExReceiver<T>(async_std::channel::Receiver<T>);

/// Relies on async_std::channel::bounded: yields the sending and receiving
/// halves of a channel that holds at most `capacity` items. The capacity
/// must be positive; the call panics on zero.
#[verifier::external_body]
pub(crate) fn channel_bounded<T>(capacity: usize) -> (pair: (
    async_std::channel::Sender<T>,
    async_std::channel::Receiver<T>,
))
    requires
        capacity >= 1,
{
    async_std::channel::bounded(capacity)
}

/// Relies on async_std::channel::Sender::clone: yields another sending
/// half of the same channel.
#[verifier::external_body]
pub(crate) fn sender_clone<T>(sender: &async_std::channel::Sender<T>) -> (cloned: async_std::channel::Sender<T>) {
    sender.clone()
}

/// Relies on async_std::channel::Sender::try_send: offers one item without
/// blocking. The item is queued exactly when the channel is neither full
/// nor closed at the instant of the call; otherwise it is dropped. Other
/// threads race on the channel, so no outcome is promised here.
#[verifier::external_body]
pub(crate) fn sender_try_send<T>(sender: &async_std::channel::Sender<T>, item: T) -> (delivered: bool) {
    sender.try_send(item).is_ok()
}

} // verus!
