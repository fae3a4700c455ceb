//! Laws of the ledger, stated over the same spec predicates the operations'
//! contracts use and proved once and for all: id allocation is sequential
//! and never reuses an id, roles are exclusive only within themselves, the
//! order state machine admits exactly one move out of `Submitted`, and the
//! remaining eta can never fall below zero.

use vstd::prelude::*;

use crate::catalog::{add_food_check, food_added};
use crate::orders::{
    accept_delivery_check, confirm_order_check, dispatch_order_check, order_dispatched,
    order_submitted,
};
use crate::queries::eta_remaining;
use crate::registry::{
    add_customer_check, add_deliver_check, add_restaurant_check, customer_added, deliver_added,
    restaurant_added,
};
use crate::types::{
    lemma_no_delivery_when_not_dispatched, AccountId, Balance, CustomerId, DataView, DeliverId,
    FoodId, FoodOrderError, OrderId, OrderStatus, RestaurantId, Timestamp,
};

verus! {

/// Sequential registrations receive consecutive ids: the first registration
/// gets one more than the number of rows already stored, the next one the
/// id after that, so starting from an empty store the ids are exactly
/// 1, 2, 3, ... and no id is ever repeated or skipped.
pub proof fn lemma_customer_ids_sequential(
    s0: DataView,
    s1: DataView,
    s2: DataView,
    account1: AccountId,
    name1: String,
    address1: String,
    phone1: String,
    id1: CustomerId,
    account2: AccountId,
    name2: String,
    address2: String,
    phone2: String,
    id2: CustomerId,
)
    requires
        customer_added(s0, s1, account1, name1, address1, phone1, id1),
        customer_added(s1, s2, account2, name2, address2, phone2, id2),
    ensures
        id1 == s0.customers.len() + 1,
        id2 == id1 + 1,
        id2 != id1,
{
}

/// The same law for order submission: each submitted order takes the next
/// order id, so order ids grow one by one and are never reused.
pub proof fn lemma_order_ids_sequential(
    s0: DataView,
    s1: DataView,
    s2: DataView,
    caller1: AccountId,
    food_id1: FoodId,
    restaurant_id1: RestaurantId,
    address1: String,
    value1: Balance,
    now1: Timestamp,
    id1: OrderId,
    caller2: AccountId,
    food_id2: FoodId,
    restaurant_id2: RestaurantId,
    address2: String,
    value2: Balance,
    now2: Timestamp,
    id2: OrderId,
)
    requires
        order_submitted(s0, s1, caller1, food_id1, restaurant_id1, address1, value1, now1, id1),
        order_submitted(s1, s2, caller2, food_id2, restaurant_id2, address2, value2, now2, id2),
    ensures
        id1 == s0.order_data.len() + 1,
        id2 == id1 + 1,
        id2 != id1,
{
}

/// The same law for the manager-registered roles and for the catalog: each
/// creation takes the id one past the rows already stored, so every entity
/// kind numbers its rows 1, 2, 3, ... in creation order.
pub proof fn lemma_restaurant_ids_sequential(
    s0: DataView,
    s1: DataView,
    s2: DataView,
    account1: AccountId,
    name1: String,
    address1: String,
    phone1: String,
    id1: RestaurantId,
    account2: AccountId,
    name2: String,
    address2: String,
    phone2: String,
    id2: RestaurantId,
)
    requires
        restaurant_added(s0, s1, account1, name1, address1, phone1, id1),
        restaurant_added(s1, s2, account2, name2, address2, phone2, id2),
    ensures
        id1 == s0.restaurants.len() + 1,
        id2 == id1 + 1,
        id2 != id1,
{
}

/// The same law for deliverer registration.
pub proof fn lemma_deliver_ids_sequential(
    s0: DataView,
    s1: DataView,
    s2: DataView,
    account1: AccountId,
    name1: String,
    address1: String,
    phone1: String,
    id1: DeliverId,
    account2: AccountId,
    name2: String,
    address2: String,
    phone2: String,
    id2: DeliverId,
)
    requires
        deliver_added(s0, s1, account1, name1, address1, phone1, id1),
        deliver_added(s1, s2, account2, name2, address2, phone2, id2),
    ensures
        id1 == s0.delivers.len() + 1,
        id2 == id1 + 1,
        id2 != id1,
{
}

/// The same law for the food catalog.
pub proof fn lemma_food_ids_sequential(
    s0: DataView,
    s1: DataView,
    s2: DataView,
    caller1: AccountId,
    name1: String,
    description1: String,
    price1: Balance,
    eta1: u64,
    now1: Timestamp,
    id1: FoodId,
    caller2: AccountId,
    name2: String,
    description2: String,
    price2: Balance,
    eta2: u64,
    now2: Timestamp,
    id2: FoodId,
)
    requires
        food_added(s0, s1, caller1, name1, description1, price1, eta1, now1, id1),
        food_added(s1, s2, caller2, name2, description2, price2, eta2, now2, id2),
    ensures
        id1 == s0.food_data.len() + 1,
        id2 == id1 + 1,
        id2 != id1,
{
}

/// The same law for delivery records, which only dispatching creates.
pub proof fn lemma_delivery_ids_sequential(
    s0: DataView,
    s1: DataView,
    s2: DataView,
    order_id1: OrderId,
    now1: Timestamp,
    id1: u64,
    order_id2: OrderId,
    now2: Timestamp,
    id2: u64,
)
    requires
        order_dispatched(s0, s1, order_id1, now1, id1),
        order_dispatched(s1, s2, order_id2, now2, id2),
    ensures
        id1 == s0.delivery_data.len() + 1,
        id2 == id1 + 1,
        id2 != id1,
{
}

/// Role exclusivity holds within a role only. After an account registers as
/// a customer, a second customer registration of the same account is
/// rejected as `AlreadyRegistered`, while its standing under the restaurant
/// and deliverer roles — and so the outcome of registering it there — is
/// exactly what it was before.
pub proof fn lemma_role_exclusivity_customer(
    s0: DataView,
    s1: DataView,
    account: AccountId,
    name: String,
    address: String,
    phone: String,
    id: CustomerId,
)
    requires
        customer_added(s0, s1, account, name, address, phone, id),
    ensures
        s1.is_customer(account),
        add_customer_check(s1, account) == Some(FoodOrderError::AlreadyRegistered),
        forall|b: AccountId| #[trigger] s1.is_restaurant(b) == s0.is_restaurant(b),
        forall|b: AccountId| #[trigger] s1.is_deliver(b) == s0.is_deliver(b),
        forall|caller: AccountId, b: AccountId|
            #[trigger] add_restaurant_check(s1, caller, b)
                == add_restaurant_check(s0, caller, b),
        forall|caller: AccountId, b: AccountId|
            #[trigger] add_deliver_check(s1, caller, b) == add_deliver_check(s0, caller, b),
{
}

/// The mirror image: registering an account as a restaurant leaves its
/// customer standing untouched, so the same account may hold both roles at
/// once.
pub proof fn lemma_role_exclusivity_restaurant(
    s0: DataView,
    s1: DataView,
    account: AccountId,
    name: String,
    address: String,
    phone: String,
    id: RestaurantId,
)
    requires
        restaurant_added(s0, s1, account, name, address, phone, id),
    ensures
        s1.is_restaurant(account),
        forall|b: AccountId| #[trigger] s1.is_customer(b) == s0.is_customer(b),
        forall|b: AccountId| #[trigger] add_customer_check(s1, b) == add_customer_check(s0, b),
        forall|b: AccountId| #[trigger] s1.is_deliver(b) == s0.is_deliver(b),
{
}

/// A caller that holds no restaurant role cannot publish food, whatever
/// else the store holds.
pub proof fn lemma_add_food_needs_role(s: DataView, caller: AccountId)
    requires
        !s.is_restaurant(caller),
    ensures
        add_food_check(s, caller) == Some(FoodOrderError::Unauthorized),
{
}

/// Out of `Submitted`, exactly one move exists: the owning restaurant's
/// confirmation. Dispatching or accepting a submitted order is rejected as
/// an invalid transition even for fully authorized callers, and no delivery
/// record can reference the order yet.
pub proof fn lemma_submitted_admits_only_confirm(
    s: DataView,
    restaurant_caller: AccountId,
    customer_caller: AccountId,
    order_id: OrderId,
)
    requires
        s.wf(),
        s.valid_order_id(order_id),
        s.order_at(order_id).status == OrderStatus::Submitted,
        s.is_restaurant(restaurant_caller),
        s.food_at(s.order_at(order_id).food_id).restaurant_id
            == s.restaurant_id_of(restaurant_caller),
        s.is_customer(customer_caller),
        s.order_at(order_id).customer_id == s.customer_id_of(customer_caller),
    ensures
        confirm_order_check(s, restaurant_caller, order_id) is None,
        dispatch_order_check(s, restaurant_caller, order_id)
            == Some(FoodOrderError::InvalidTransition),
        accept_delivery_check(s, customer_caller, order_id)
            == Some(FoodOrderError::InvalidTransition),
        forall|j: int| 0 <= j < s.delivery_data.len()
            ==> #[trigger] s.delivery_data[j].order_id != order_id,
{
    lemma_no_delivery_when_not_dispatched(s.order_data, s.delivery_data, order_id - 1);
}

/// The remaining eta saturates: it never falls below zero, however far the
/// elapsed time has run past the promised duration, and it never exceeds
/// the promise itself.
pub proof fn lemma_eta_never_negative(eta: u64, start: Timestamp, now: Timestamp)
    ensures
        0 <= eta_remaining(eta, start, now) <= eta,
        now - start >= eta ==> eta_remaining(eta, start, now) == 0,
{
}


} // verus!

