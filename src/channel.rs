//! The channel handles that the sender holds. They come from tokio; the
//! library only moves them around, so they stay opaque here.
use crate::event::Event;
use vstd::prelude::*;

verus! {

#[verifier::external_type_specification]
#[verifier::external_body]
#[verifier::reject_recursive_types(T)]
pub struct ExUnboundedSender<T>(tokio::sync::mpsc::UnboundedSender<T>);

#[verifier::external_type_specification]
#[verifier::external_body]
#[verifier::reject_recursive_types(T)]
pub struct ExUnboundedReceiver<T>(tokio::sync::mpsc::UnboundedReceiver<T>);

/// Relies on tokio's `Clone` for `UnboundedSender`: a further handle to the
/// same queue (it only counts one more transmit handle). Nothing about the
/// queue is modelled here, so no more is stated.
pub assume_specification<T>[ <tokio::sync::mpsc::UnboundedSender<T> as Clone>::clone ](
    tx: &tokio::sync::mpsc::UnboundedSender<T>,
) -> tokio::sync::mpsc::UnboundedSender<T>;

/// The transmit half of a sender's event queue; producers hold clones of it.
pub type Sender = tokio::sync::mpsc::UnboundedSender<Event>;

/// The receive half of a sender's event queue; only the sender holds it.
pub type Receiver = tokio::sync::mpsc::UnboundedReceiver<Event>;

} // verus!
