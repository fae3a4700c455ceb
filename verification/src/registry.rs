//! Identity registry: self-registration of customers, manager-gated
//! registration of restaurants and deliverers, and manager reassignment.
//!
//! Each role keeps a whitelist with an account-to-id index; an account may
//! hold several roles at once, but registers at most once per role.

use vstd::prelude::*;

use crate::types::{
    AccountId, Customer, CustomerId, DataView, Deliver, DeliverId, FoodOrderError, Restaurant,
    RestaurantId,
};
use crate::FoodOrder;

verus! {

/// First failing precondition of `add_customer`, if any.
pub open spec fn add_customer_check(s: DataView, caller: AccountId) -> Option<FoodOrderError> {
    if s.is_customer(caller) {
        Some(FoodOrderError::AlreadyRegistered)
    } else {
        None
    }
}

/// The store after `caller` was registered as the customer with id `id`.
pub open spec fn customer_added(
    pre: DataView,
    post: DataView,
    caller: AccountId,
    customer_name: String,
    customer_address: String,
    phone_number: String,
    id: CustomerId,
) -> bool {
    &&& id == pre.customers.len() + 1
    &&& post == DataView {
        customers: pre.customers.push(
            Customer { customer_account: caller, customer_name, customer_address, phone_number },
        ),
        customer_order_data: pre.customer_order_data.push(Seq::empty()),
        customer_account_id: pre.customer_account_id.insert(caller, id),
        ..pre
    }
}

/// First failing precondition of `add_restaurant`, if any.
pub open spec fn add_restaurant_check(
    s: DataView,
    caller: AccountId,
    restaurant_account: AccountId,
) -> Option<FoodOrderError> {
    if caller != s.manager {
        Some(FoodOrderError::Unauthorized)
    } else if s.is_restaurant(restaurant_account) {
        Some(FoodOrderError::AlreadyRegistered)
    } else {
        None
    }
}

/// The store after `restaurant_account` was registered as the restaurant
/// with id `id`.
pub open spec fn restaurant_added(
    pre: DataView,
    post: DataView,
    restaurant_account: AccountId,
    restaurant_name: String,
    restaurant_address: String,
    phone_number: String,
    id: RestaurantId,
) -> bool {
    &&& id == pre.restaurants.len() + 1
    &&& post == DataView {
        restaurants: pre.restaurants.push(
            Restaurant {
                restaurant_account,
                restaurant_name,
                restaurant_address,
                phone_number,
            },
        ),
        restaurant_food_data: pre.restaurant_food_data.push(Seq::empty()),
        restaurant_order_data: pre.restaurant_order_data.push(Seq::empty()),
        restaurant_account_id: pre.restaurant_account_id.insert(restaurant_account, id),
        ..pre
    }
}

/// First failing precondition of `add_deliver`, if any.
pub open spec fn add_deliver_check(
    s: DataView,
    caller: AccountId,
    deliver_account: AccountId,
) -> Option<FoodOrderError> {
    if caller != s.manager {
        Some(FoodOrderError::Unauthorized)
    } else if s.is_deliver(deliver_account) {
        Some(FoodOrderError::AlreadyRegistered)
    } else {
        None
    }
}

/// The store after `deliver_account` was registered as the deliverer with
/// id `id`.
pub open spec fn deliver_added(
    pre: DataView,
    post: DataView,
    deliver_account: AccountId,
    deliver_name: String,
    deliver_address: String,
    phone_number: String,
    id: DeliverId,
) -> bool {
    &&& id == pre.delivers.len() + 1
    &&& post == DataView {
        delivers: pre.delivers.push(
            Deliver { deliver_account, deliver_name, deliver_address, phone_number },
        ),
        deliver_delivery_data: pre.deliver_delivery_data.push(Seq::empty()),
        deliver_account_id: pre.deliver_account_id.insert(deliver_account, id),
        ..pre
    }
}

impl FoodOrder {
    /// Registers the caller as a customer and returns the assigned id.
    ///
    /// Rejected with `AlreadyRegistered` when the caller is already on the
    /// customer whitelist; other roles of the same account do not matter.
    pub fn add_customer(
        &mut self,
        caller: AccountId,
        customer_name: String,
        customer_address: String,
        phone_number: String,
    ) -> (r: Result<CustomerId, FoodOrderError>)
        requires
            old(self)@.wf(),
            old(self)@.customers.len() < u64::MAX,
        ensures
            final(self)@.wf(),
            match add_customer_check(old(self)@, caller) {
                Some(e) => r == Err::<CustomerId, FoodOrderError>(e)
                    && final(self)@ == old(self)@,
                None => r is Ok && customer_added(
                    old(self)@,
                    final(self)@,
                    caller,
                    customer_name,
                    customer_address,
                    phone_number,
                    r->Ok_0,
                ),
            },
    {
        if self.data.customer_account_id.contains_key(&caller) {
            return Err(FoodOrderError::AlreadyRegistered);
        }
        let ghost pre = self@;
        let id = self.data.customers.len() as u64 + 1;
        let ghost target = DataView {
            customers: pre.customers.push(
                Customer {
                    customer_account: caller,
                    customer_name,
                    customer_address,
                    phone_number,
                },
            ),
            customer_order_data: pre.customer_order_data.push(Seq::empty()),
            customer_account_id: pre.customer_account_id.insert(caller, id),
            ..pre
        };
        self.data.customers.push(
            Customer { customer_account: caller, customer_name, customer_address, phone_number },
        );
        self.data.customer_order_data.push(Vec::new());
        self.data.customer_account_id.insert(caller, id);
        proof {
            assert(self@ =~= target);
        }
        Ok(id)
    }

    /// Registers `restaurant_account` as a restaurant; only the manager may
    /// do so. Returns the assigned id.
    pub fn add_restaurant(
        &mut self,
        caller: AccountId,
        restaurant_account: AccountId,
        restaurant_name: String,
        restaurant_address: String,
        phone_number: String,
    ) -> (r: Result<RestaurantId, FoodOrderError>)
        requires
            old(self)@.wf(),
            old(self)@.restaurants.len() < u64::MAX,
        ensures
            final(self)@.wf(),
            match add_restaurant_check(old(self)@, caller, restaurant_account) {
                Some(e) => r == Err::<RestaurantId, FoodOrderError>(e)
                    && final(self)@ == old(self)@,
                None => r is Ok && restaurant_added(
                    old(self)@,
                    final(self)@,
                    restaurant_account,
                    restaurant_name,
                    restaurant_address,
                    phone_number,
                    r->Ok_0,
                ),
            },
    {
        if caller != self.data.manager {
            return Err(FoodOrderError::Unauthorized);
        }
        if self.data.restaurant_account_id.contains_key(&restaurant_account) {
            return Err(FoodOrderError::AlreadyRegistered);
        }
        let ghost pre = self@;
        let id = self.data.restaurants.len() as u64 + 1;
        let ghost target = DataView {
            restaurants: pre.restaurants.push(
                Restaurant {
                    restaurant_account,
                    restaurant_name,
                    restaurant_address,
                    phone_number,
                },
            ),
            restaurant_food_data: pre.restaurant_food_data.push(Seq::empty()),
            restaurant_order_data: pre.restaurant_order_data.push(Seq::empty()),
            restaurant_account_id: pre.restaurant_account_id.insert(restaurant_account, id),
            ..pre
        };
        self.data.restaurants.push(
            Restaurant { restaurant_account, restaurant_name, restaurant_address, phone_number },
        );
        self.data.restaurant_food_data.push(Vec::new());
        self.data.restaurant_order_data.push(Vec::new());
        self.data.restaurant_account_id.insert(restaurant_account, id);
        proof {
            assert(self@ =~= target);
        }
        Ok(id)
    }

    /// Registers `deliver_account` as a deliverer; only the manager may do
    /// so. Returns the assigned id.
    pub fn add_deliver(
        &mut self,
        caller: AccountId,
        deliver_account: AccountId,
        deliver_name: String,
        deliver_address: String,
        phone_number: String,
    ) -> (r: Result<DeliverId, FoodOrderError>)
        requires
            old(self)@.wf(),
            old(self)@.delivers.len() < u64::MAX,
        ensures
            final(self)@.wf(),
            match add_deliver_check(old(self)@, caller, deliver_account) {
                Some(e) => r == Err::<DeliverId, FoodOrderError>(e)
                    && final(self)@ == old(self)@,
                None => r is Ok && deliver_added(
                    old(self)@,
                    final(self)@,
                    deliver_account,
                    deliver_name,
                    deliver_address,
                    phone_number,
                    r->Ok_0,
                ),
            },
    {
        if caller != self.data.manager {
            return Err(FoodOrderError::Unauthorized);
        }
        if self.data.deliver_account_id.contains_key(&deliver_account) {
            return Err(FoodOrderError::AlreadyRegistered);
        }
        let ghost pre = self@;
        let id = self.data.delivers.len() as u64 + 1;
        let ghost target = DataView {
            delivers: pre.delivers.push(
                Deliver { deliver_account, deliver_name, deliver_address, phone_number },
            ),
            deliver_delivery_data: pre.deliver_delivery_data.push(Seq::empty()),
            deliver_account_id: pre.deliver_account_id.insert(deliver_account, id),
            ..pre
        };
        self.data.delivers.push(
            Deliver { deliver_account, deliver_name, deliver_address, phone_number },
        );
        self.data.deliver_delivery_data.push(Vec::new());
        self.data.deliver_account_id.insert(deliver_account, id);
        proof {
            assert(self@ =~= target);
        }
        Ok(id)
    }

    /// Hands the manager role to `new_account`; only the current manager may
    /// do so.
    pub fn change_manager(
        &mut self,
        caller: AccountId,
        new_account: AccountId,
    ) -> (r: Result<(), FoodOrderError>)
        requires
            old(self)@.wf(),
        ensures
            final(self)@.wf(),
            caller != old(self)@.manager ==> r
                == Err::<(), FoodOrderError>(FoodOrderError::Unauthorized)
                && final(self)@ == old(self)@,
            caller == old(self)@.manager ==> r is Ok
                && final(self)@ == (DataView { manager: new_account, ..old(self)@ }),
    {
        if caller != self.data.manager {
            return Err(FoodOrderError::Unauthorized);
        }
        self.data.manager = new_account;
        Ok(())
    }
}

} // verus!
