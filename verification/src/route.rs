//! Routes through the credit network.
//!
//! A route lists the participants a payment traverses, from the paying
//! source to the receiving destination, in traversal order. The routing
//! oracle reports each candidate route together with the maximum total
//! amount it can currently carry.

use vstd::prelude::*;

use crate::keys::PublicKey;

verus! {

/// An ordered path through the network: source, zero or more
/// intermediaries, and destination.
///
/// A route used for a payment must hold at least two entries (its source
/// and its destination); shorter routes are invalid and are rejected by
/// the route selector.
#[derive(Clone, Debug, PartialEq, Eq)]
pub struct FriendsRoute {
    pub public_keys: Vec<PublicKey>,
}

impl FriendsRoute {
    /// Number of participants on the route.
    pub fn len(&self) -> (n: usize)
        ensures
            n == self.public_keys@.len(),
    {
        self.public_keys.len()
    }
}

/// A candidate route paired with the maximum total amount (payment plus
/// fees) it can currently carry, as reported by the routing oracle.
///
/// The capacity is a snapshot taken at query time; it is not re-validated
/// between selection and use.
#[derive(Clone, Debug, PartialEq, Eq)]
pub struct RouteWithCapacity {
    pub route: FriendsRoute,
    pub capacity: u128,
}

} // verus!
