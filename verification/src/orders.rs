//! Order lifecycle: submission against the catalog with exact payment,
//! restaurant-side confirmation and dispatch, and customer-side acceptance.
//!
//! The status machine is strict: `Submitted` to `Confirmed` to `Dispatched`
//! to `Delivered` to `Accepted`, no skips and no way back. Dispatching an
//! order creates its one companion delivery record; acceptance is only
//! granted once the order has been delivered.

use vstd::prelude::*;

use crate::types::{
    dispatched_or_later, lemma_deliveries_wf_dispatch, lemma_deliveries_wf_push_order,
    lemma_deliveries_wf_update_status, lemma_no_delivery_when_not_dispatched, status_update_ok,
    AccountId, Balance, DataView, Delivery, DeliveryId, DeliveryStatus, FoodId, FoodOrderError,
    Order, OrderId, OrderStatus, RestaurantId, Timestamp,
};
use crate::FoodOrder;

verus! {

/// First failing precondition of `submit_order`, if any.
pub open spec fn submit_order_check(
    s: DataView,
    caller: AccountId,
    food_id: FoodId,
    restaurant_id: RestaurantId,
    transferred_value: Balance,
) -> Option<FoodOrderError> {
    if !s.is_customer(caller) {
        Some(FoodOrderError::Unauthorized)
    } else if !s.valid_food_id(food_id) {
        Some(FoodOrderError::NotFound)
    } else if !s.valid_restaurant_id(restaurant_id) {
        Some(FoodOrderError::NotFound)
    } else if s.food_at(food_id).price != transferred_value {
        Some(FoodOrderError::PaymentMismatch)
    } else {
        None
    }
}

/// The store after the caller's customer submitted order `id`: the order is
/// appended with status `Submitted`, the paid price equal to the transferred
/// value, no deliverer and no eta yet, and the id is appended to the
/// customer's and the restaurant's order indices.
pub open spec fn order_submitted(
    pre: DataView,
    post: DataView,
    caller: AccountId,
    food_id: FoodId,
    restaurant_id: RestaurantId,
    delivery_address: String,
    transferred_value: Balance,
    now: Timestamp,
    id: OrderId,
) -> bool {
    let cid = pre.customer_id_of(caller);
    &&& id == pre.order_data.len() + 1
    &&& post == DataView {
        order_data: pre.order_data.push(
            Order {
                food_id,
                restaurant_id,
                customer_id: cid,
                deliver_id: 0,
                delivery_address,
                status: OrderStatus::Submitted,
                timestamp: now,
                price: transferred_value,
                eta: 0,
            },
        ),
        customer_order_data: pre.customer_order_data.update(
            cid - 1,
            pre.customer_order_data[cid - 1].push(id),
        ),
        restaurant_order_data: pre.restaurant_order_data.update(
            restaurant_id - 1,
            pre.restaurant_order_data[restaurant_id - 1].push(id),
        ),
        ..pre
    }
}

/// First failing precondition of `confirm_order`, if any: the order must
/// exist, the caller must be a restaurant owning the ordered food item, and
/// the order must still be `Submitted`.
pub open spec fn confirm_order_check(
    s: DataView,
    caller: AccountId,
    order_id: OrderId,
) -> Option<FoodOrderError> {
    if !s.valid_order_id(order_id) {
        Some(FoodOrderError::NotFound)
    } else if !s.is_restaurant(caller) {
        Some(FoodOrderError::Unauthorized)
    } else if s.food_at(s.order_at(order_id).food_id).restaurant_id
        != s.restaurant_id_of(caller) {
        Some(FoodOrderError::NotOwner)
    } else if s.order_at(order_id).status != OrderStatus::Submitted {
        Some(FoodOrderError::InvalidTransition)
    } else {
        None
    }
}

/// The store after the order was confirmed: status `Confirmed` and the food
/// item's promised eta recorded on the order; everything else untouched.
pub open spec fn order_confirmed(pre: DataView, post: DataView, order_id: OrderId) -> bool {
    post == DataView {
        order_data: pre.order_data.update(
            order_id - 1,
            Order {
                status: OrderStatus::Confirmed,
                eta: pre.food_at(pre.order_at(order_id).food_id).eta,
                ..pre.order_at(order_id)
            },
        ),
        ..pre
    }
}

/// First failing precondition of `dispatch_order`, if any: as for
/// confirmation, except that the order must be `Confirmed`.
pub open spec fn dispatch_order_check(
    s: DataView,
    caller: AccountId,
    order_id: OrderId,
) -> Option<FoodOrderError> {
    if !s.valid_order_id(order_id) {
        Some(FoodOrderError::NotFound)
    } else if !s.is_restaurant(caller) {
        Some(FoodOrderError::Unauthorized)
    } else if s.food_at(s.order_at(order_id).food_id).restaurant_id
        != s.restaurant_id_of(caller) {
        Some(FoodOrderError::NotOwner)
    } else if s.order_at(order_id).status != OrderStatus::Confirmed {
        Some(FoodOrderError::InvalidTransition)
    } else {
        None
    }
}

/// The store after the order was dispatched: status `Dispatched`, and the
/// one companion delivery record `did` appended, waiting, with no deliverer
/// assigned and the order's parties and address copied over.
pub open spec fn order_dispatched(
    pre: DataView,
    post: DataView,
    order_id: OrderId,
    now: Timestamp,
    did: DeliveryId,
) -> bool {
    &&& did == pre.delivery_data.len() + 1
    &&& post == DataView {
        order_data: pre.order_data.update(
            order_id - 1,
            Order { status: OrderStatus::Dispatched, ..pre.order_at(order_id) },
        ),
        delivery_data: pre.delivery_data.push(
            Delivery {
                order_id,
                restaurant_id: pre.order_at(order_id).restaurant_id,
                customer_id: pre.order_at(order_id).customer_id,
                deliver_id: 0,
                delivery_address: pre.order_at(order_id).delivery_address,
                status: DeliveryStatus::Waiting,
                timestamp: now,
            },
        ),
        ..pre
    }
}

/// First failing precondition of `accept_delivery`, if any: the caller must
/// be the customer the order belongs to, and the order must have been
/// delivered. Acceptance of an undelivered order is rejected as an invalid
/// transition.
pub open spec fn accept_delivery_check(
    s: DataView,
    caller: AccountId,
    order_id: OrderId,
) -> Option<FoodOrderError> {
    if !s.is_customer(caller) {
        Some(FoodOrderError::Unauthorized)
    } else if !s.valid_order_id(order_id) {
        Some(FoodOrderError::NotFound)
    } else if s.order_at(order_id).customer_id != s.customer_id_of(caller) {
        Some(FoodOrderError::NotOwner)
    } else if s.order_at(order_id).status != OrderStatus::Delivered {
        Some(FoodOrderError::InvalidTransition)
    } else {
        None
    }
}

/// The store after the customer accepted the delivered order: its status is
/// `Accepted`; everything else untouched.
pub open spec fn order_accepted(pre: DataView, post: DataView, order_id: OrderId) -> bool {
    post == DataView {
        order_data: pre.order_data.update(
            order_id - 1,
            Order { status: OrderStatus::Accepted, ..pre.order_at(order_id) },
        ),
        ..pre
    }
}

impl FoodOrder {
    /// Submits an order for `food_id` at `restaurant_id`, paying
    /// `transferred_value`, which must equal the item's listed price
    /// exactly; returns the assigned order id.
    pub fn submit_order(
        &mut self,
        caller: AccountId,
        food_id: FoodId,
        restaurant_id: RestaurantId,
        delivery_address: String,
        transferred_value: Balance,
        now: Timestamp,
    ) -> (r: Result<OrderId, FoodOrderError>)
        requires
            old(self)@.wf(),
            old(self)@.order_data.len() < u64::MAX,
        ensures
            final(self)@.wf(),
            match submit_order_check(old(self)@, caller, food_id, restaurant_id,
                transferred_value) {
                Some(e) => r == Err::<OrderId, FoodOrderError>(e) && final(self)@ == old(self)@,
                None => r is Ok && order_submitted(
                    old(self)@,
                    final(self)@,
                    caller,
                    food_id,
                    restaurant_id,
                    delivery_address,
                    transferred_value,
                    now,
                    r->Ok_0,
                ),
            },
    {
        let cid = match self.data.customer_account_id.get(&caller) {
            Some(cid) => *cid,
            None => {
                return Err(FoodOrderError::Unauthorized);
            },
        };
        let n_foods = self.data.food_data.len();
        if food_id < 1 || food_id > n_foods as u64 {
            return Err(FoodOrderError::NotFound);
        }
        let n_restaurants = self.data.restaurants.len();
        if restaurant_id < 1 || restaurant_id > n_restaurants as u64 {
            return Err(FoodOrderError::NotFound);
        }
        if self.data.food_data[(food_id - 1) as usize].price != transferred_value {
            return Err(FoodOrderError::PaymentMismatch);
        }
        let ghost pre = self@;
        let n_customers = self.data.customers.len();
        proof {
            assert(pre.customer_account_id.contains_key(caller));
            assert(1 <= cid <= n_customers);
        }
        let id = self.data.order_data.len() as u64 + 1;
        let order = Order {
            food_id,
            restaurant_id,
            customer_id: cid,
            deliver_id: 0,
            delivery_address,
            status: OrderStatus::Submitted,
            timestamp: now,
            price: transferred_value,
            eta: 0,
        };
        let ghost target = DataView {
            order_data: pre.order_data.push(order),
            customer_order_data: pre.customer_order_data.update(
                cid - 1,
                pre.customer_order_data[cid - 1].push(id),
            ),
            restaurant_order_data: pre.restaurant_order_data.update(
                restaurant_id - 1,
                pre.restaurant_order_data[restaurant_id - 1].push(id),
            ),
            ..pre
        };
        self.data.order_data.push(order);
        let cidx = (cid - 1) as usize;
        self.data.customer_order_data[cidx].push(id);
        let ridx = (restaurant_id - 1) as usize;
        self.data.restaurant_order_data[ridx].push(id);
        proof {
            assert(self@ =~= target);
            lemma_deliveries_wf_push_order(
                pre.order_data,
                pre.delivery_data,
                target.order_data.last(),
            );
        }
        Ok(id)
    }

    /// Confirms a submitted order of the caller's restaurant and records the
    /// food item's promised eta on it.
    pub fn confirm_order(
        &mut self,
        caller: AccountId,
        order_id: OrderId,
    ) -> (r: Result<(), FoodOrderError>)
        requires
            old(self)@.wf(),
        ensures
            final(self)@.wf(),
            match confirm_order_check(old(self)@, caller, order_id) {
                Some(e) => r == Err::<(), FoodOrderError>(e) && final(self)@ == old(self)@,
                None => r is Ok && order_confirmed(old(self)@, final(self)@, order_id),
            },
    {
        let n_orders = self.data.order_data.len();
        if order_id < 1 || order_id > n_orders as u64 {
            return Err(FoodOrderError::NotFound);
        }
        let rid = match self.data.restaurant_account_id.get(&caller) {
            Some(rid) => *rid,
            None => {
                return Err(FoodOrderError::Unauthorized);
            },
        };
        let oidx = (order_id - 1) as usize;
        let food_id = self.data.order_data[oidx].food_id;
        let n_foods = self.data.food_data.len();
        proof {
            assert(1 <= food_id <= n_foods);
        }
        let fidx = (food_id - 1) as usize;
        if self.data.food_data[fidx].restaurant_id != rid {
            return Err(FoodOrderError::NotOwner);
        }
        if self.data.order_data[oidx].status != OrderStatus::Submitted {
            return Err(FoodOrderError::InvalidTransition);
        }
        let ghost pre = self@;
        let eta = self.data.food_data[fidx].eta;
        let ghost target = DataView {
            order_data: pre.order_data.update(
                order_id - 1,
                Order {
                    status: OrderStatus::Confirmed,
                    eta: pre.food_at(pre.order_at(order_id).food_id).eta,
                    ..pre.order_at(order_id)
                },
            ),
            ..pre
        };
        self.data.order_data[oidx].status = OrderStatus::Confirmed;
        self.data.order_data[oidx].eta = eta;
        proof {
            assert(self@ =~= target);
            assert(status_update_ok(
                pre.order_at(order_id).status,
                target.order_at(order_id).status,
            ));
            lemma_deliveries_wf_update_status(
                pre.order_data,
                pre.delivery_data,
                order_id - 1,
                target.order_at(order_id),
            );
        }
        Ok(())
    }

    /// Dispatches a confirmed order of the caller's restaurant: the order
    /// moves to `Dispatched` and its one companion delivery record is
    /// created, waiting for any whitelisted deliverer to claim it. Returns
    /// the assigned delivery id.
    pub fn dispatch_order(
        &mut self,
        caller: AccountId,
        order_id: OrderId,
        now: Timestamp,
    ) -> (r: Result<DeliveryId, FoodOrderError>)
        requires
            old(self)@.wf(),
            old(self)@.delivery_data.len() < u64::MAX,
        ensures
            final(self)@.wf(),
            match dispatch_order_check(old(self)@, caller, order_id) {
                Some(e) => r == Err::<DeliveryId, FoodOrderError>(e)
                    && final(self)@ == old(self)@,
                None => r is Ok && order_dispatched(
                    old(self)@,
                    final(self)@,
                    order_id,
                    now,
                    r->Ok_0,
                ),
            },
    {
        let n_orders = self.data.order_data.len();
        if order_id < 1 || order_id > n_orders as u64 {
            return Err(FoodOrderError::NotFound);
        }
        let rid = match self.data.restaurant_account_id.get(&caller) {
            Some(rid) => *rid,
            None => {
                return Err(FoodOrderError::Unauthorized);
            },
        };
        let oidx = (order_id - 1) as usize;
        let food_id = self.data.order_data[oidx].food_id;
        let n_foods = self.data.food_data.len();
        proof {
            assert(1 <= food_id <= n_foods);
        }
        let fidx = (food_id - 1) as usize;
        if self.data.food_data[fidx].restaurant_id != rid {
            return Err(FoodOrderError::NotOwner);
        }
        if self.data.order_data[oidx].status != OrderStatus::Confirmed {
            return Err(FoodOrderError::InvalidTransition);
        }
        let ghost pre = self@;
        let did = self.data.delivery_data.len() as u64 + 1;
        let o_restaurant_id = self.data.order_data[oidx].restaurant_id;
        let o_customer_id = self.data.order_data[oidx].customer_id;
        let o_address = self.data.order_data[oidx].delivery_address.clone();
        let delivery = Delivery {
            order_id,
            restaurant_id: o_restaurant_id,
            customer_id: o_customer_id,
            deliver_id: 0,
            delivery_address: o_address,
            status: DeliveryStatus::Waiting,
            timestamp: now,
        };
        let ghost target = DataView {
            order_data: pre.order_data.update(
                order_id - 1,
                Order { status: OrderStatus::Dispatched, ..pre.order_at(order_id) },
            ),
            delivery_data: pre.delivery_data.push(
                Delivery {
                    order_id,
                    restaurant_id: pre.order_at(order_id).restaurant_id,
                    customer_id: pre.order_at(order_id).customer_id,
                    deliver_id: 0,
                    delivery_address: pre.order_at(order_id).delivery_address,
                    status: DeliveryStatus::Waiting,
                    timestamp: now,
                },
            ),
            ..pre
        };
        self.data.order_data[oidx].status = OrderStatus::Dispatched;
        self.data.delivery_data.push(delivery);
        proof {
            assert(self@ =~= target);
            lemma_deliveries_wf_dispatch(
                pre.order_data,
                pre.delivery_data,
                order_id - 1,
                target.order_at(order_id),
                target.delivery_data.last(),
            );
        }
        Ok(did)
    }

    /// The ordering customer acknowledges the delivered order, closing its
    /// lifecycle with status `Accepted`. An order that has not reached
    /// `Delivered` is rejected as an invalid transition: acceptance never
    /// skips ahead.
    pub fn accept_delivery(
        &mut self,
        caller: AccountId,
        order_id: OrderId,
    ) -> (r: Result<(), FoodOrderError>)
        requires
            old(self)@.wf(),
        ensures
            final(self)@.wf(),
            match accept_delivery_check(old(self)@, caller, order_id) {
                Some(e) => r == Err::<(), FoodOrderError>(e) && final(self)@ == old(self)@,
                None => r is Ok && order_accepted(old(self)@, final(self)@, order_id),
            },
    {
        let cid = match self.data.customer_account_id.get(&caller) {
            Some(cid) => *cid,
            None => {
                return Err(FoodOrderError::Unauthorized);
            },
        };
        let n_orders = self.data.order_data.len();
        if order_id < 1 || order_id > n_orders as u64 {
            return Err(FoodOrderError::NotFound);
        }
        let oidx = (order_id - 1) as usize;
        if self.data.order_data[oidx].customer_id != cid {
            return Err(FoodOrderError::NotOwner);
        }
        if self.data.order_data[oidx].status != OrderStatus::Delivered {
            return Err(FoodOrderError::InvalidTransition);
        }
        let ghost pre = self@;
        let ghost target = DataView {
            order_data: pre.order_data.update(
                order_id - 1,
                Order { status: OrderStatus::Accepted, ..pre.order_at(order_id) },
            ),
            ..pre
        };
        self.data.order_data[oidx].status = OrderStatus::Accepted;
        proof {
            assert(self@ =~= target);
            assert(status_update_ok(
                pre.order_at(order_id).status,
                target.order_at(order_id).status,
            ));
            lemma_deliveries_wf_update_status(
                pre.order_data,
                pre.delivery_data,
                order_id - 1,
                target.order_at(order_id),
            );
        }
        Ok(())
    }
}

} // verus!
