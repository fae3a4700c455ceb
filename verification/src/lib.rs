//! A verified ledger for a small food-ordering marketplace.
//!
//! The ledger registers customers, restaurants and deliverers, publishes a
//! food catalog, and drives each order through a fixed lifecycle
//! (submission, confirmation, dispatch, pickup, acceptance) with a companion
//! delivery record. The hosting environment supplies, per call, the caller's
//! account, the current time and the transferred payment amount; they enter
//! every operation as plain arguments. Every mutating operation validates
//! all of its preconditions before the first write, so a rejected call
//! leaves the store untouched.

use vstd::prelude::*;

pub mod catalog;
pub mod delivery;
pub mod laws;
pub mod orders;
pub mod queries;
pub mod registry;
pub mod types;

use types::{AccountId, Data, DataView};
use vstd::hash_map::HashMapWithView;

verus! {

broadcast use vstd::std_specs::hash::group_hash_axioms;

impl Default for Data {
    /// An empty store whose manager is the reserved zero account.
    fn default() -> (d: Data)
        ensures
            d@ == DataView::initial(0),
    {
        let d = Data {
            manager: 0,
            customers: Vec::new(),
            restaurants: Vec::new(),
            delivers: Vec::new(),
            food_data: Vec::new(),
            order_data: Vec::new(),
            delivery_data: Vec::new(),
            restaurant_food_data: Vec::new(),
            restaurant_order_data: Vec::new(),
            customer_order_data: Vec::new(),
            deliver_delivery_data: Vec::new(),
            customer_account_id: HashMapWithView::new(),
            restaurant_account_id: HashMapWithView::new(),
            deliver_account_id: HashMapWithView::new(),
        };
        proof {
            assert(d@ =~= DataView::initial(0));
        }
        d
    }
}

/// The marketplace ledger: one owned store, threaded by reference through
/// every operation.
pub struct FoodOrder {
    pub data: Data,
}

impl View for FoodOrder {
    type V = DataView;

    open spec fn view(&self) -> DataView {
        self.data@
    }
}

impl FoodOrder {
    /// A fresh ledger whose manager is the deploying caller.
    pub fn new(manager: AccountId) -> (r: FoodOrder)
        ensures
            r@ == DataView::initial(manager),
            r@.wf(),
    {
        let mut data = Data::default();
        data.manager = manager;
        proof {
            assert(data@ =~= DataView::initial(manager));
        }
        FoodOrder { data }
    }
}

} // verus!
