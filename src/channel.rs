//! The fan-out channel of an epoch: tokio's broadcast channel, in which each
//! receiver has its own bounded window onto the frames sent.
use vstd::prelude::*;
use tokio::sync::broadcast::{Receiver, Sender, WeakSender};

verus! {

/// tokio's broadcast sender, carried through opaquely.
#[verifier::external_type_specification]
#[verifier::external_body]
#[verifier::reject_recursive_types(T)]
pub struct ExSender<T>(Sender<T>);

/// tokio's broadcast receiver, carried through opaquely.
#[verifier::external_type_specification]
#[verifier::external_body]
#[verifier::reject_recursive_types(T)]
pub struct ExReceiver<T>(Receiver<T>);

/// tokio's weak broadcast sender, which does not keep its channel open.
#[verifier::external_type_specification]
#[verifier::external_body]
#[verifier::reject_recursive_types(T)]
pub struct ExWeakSender<T>(WeakSender<T>);

/// Relies on tokio::sync::broadcast::channel, which makes a new channel and
/// panics when `capacity` is zero or above `usize::MAX / 2`.
pub assume_specification<T: Clone>[ tokio::sync::broadcast::channel::<T> ](capacity: usize) -> (
    Sender<T>,
    Receiver<T>,
)
    requires
        0 < capacity <= usize::MAX / 2,
;

/// Relies on tokio::sync::broadcast::Sender::subscribe, which adds a receiver
/// to the sender's channel.
pub assume_specification<T>[ Sender::<T>::subscribe ](s: &Sender<T>) -> Receiver<T>;

/// Relies on tokio::sync::broadcast::Sender::downgrade, which makes a weak
/// sender for the same channel.
pub assume_specification<T>[ Sender::<T>::downgrade ](s: &Sender<T>) -> WeakSender<T>;

/// Relies on tokio::sync::broadcast::WeakSender::upgrade, which gives a
/// sender while some sender of the channel is alive, and `None` after the
/// last one was dropped (which closes the channel).
pub assume_specification<T>[ WeakSender::<T>::upgrade ](s: &WeakSender<T>) -> Option<Sender<T>>;

} // verus!
