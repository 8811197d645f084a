//! The outside types that the library carries: concurrent maps and the
//! sending halves of channels. Verus sees nothing inside them.

use dashmap::DashMap;
use tokio::sync::{broadcast, mpsc};
use vstd::prelude::*;

verus! {

#[verifier::external_type_specification]
#[verifier::external_body]
#[verifier::reject_recursive_types(K)]
#[verifier::reject_recursive_types(V)]
#[verifier::reject_recursive_types(S)]
pub struct ExDashMap<K, V, S>(DashMap<K, V, S>);

#[verifier::external_type_specification]
#[verifier::external_body]
#[verifier::reject_recursive_types(T)]
pub struct ExBroadcastSender<T>(broadcast::Sender<T>);

/// `Clone` of a broadcast sender: another handle on the same channel.
/// Nothing is claimed of the handle that comes back.
pub assume_specification<T>[ <broadcast::Sender<T> as Clone>::clone ](
    sender: &broadcast::Sender<T>,
) -> broadcast::Sender<T>;

#[verifier::external_type_specification]
#[verifier::external_body]
#[verifier::reject_recursive_types(T)]
pub struct ExMpscSender<T>(mpsc::Sender<T>);

} // verus!
