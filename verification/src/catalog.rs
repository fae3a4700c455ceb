//! Food catalog: restaurants publish food items and may later rewrite them.
//! Both operations are gated on the restaurant role, and updates on
//! ownership of the item.

use vstd::prelude::*;

use crate::types::{
    AccountId, Balance, DataView, Food, FoodId, FoodOrderError, Timestamp,
};
use crate::FoodOrder;

verus! {

/// First failing precondition of `add_food`, if any.
pub open spec fn add_food_check(s: DataView, caller: AccountId) -> Option<FoodOrderError> {
    if !s.is_restaurant(caller) {
        Some(FoodOrderError::Unauthorized)
    } else {
        None
    }
}

/// The store after the caller's restaurant published the food item `id`.
pub open spec fn food_added(
    pre: DataView,
    post: DataView,
    caller: AccountId,
    food_name: String,
    description: String,
    price: Balance,
    eta: u64,
    now: Timestamp,
    id: FoodId,
) -> bool {
    let rid = pre.restaurant_id_of(caller);
    &&& id == pre.food_data.len() + 1
    &&& post == DataView {
        food_data: pre.food_data.push(
            Food { food_name, restaurant_id: rid, description, price, eta, timestamp: now },
        ),
        restaurant_food_data: pre.restaurant_food_data.update(
            rid - 1,
            pre.restaurant_food_data[rid - 1].push(id),
        ),
        ..pre
    }
}

/// First failing precondition of `update_food`, if any.
pub open spec fn update_food_check(
    s: DataView,
    caller: AccountId,
    food_id: FoodId,
) -> Option<FoodOrderError> {
    if !s.is_restaurant(caller) {
        Some(FoodOrderError::Unauthorized)
    } else if !s.valid_food_id(food_id) {
        Some(FoodOrderError::NotFound)
    } else if s.food_at(food_id).restaurant_id != s.restaurant_id_of(caller) {
        Some(FoodOrderError::NotOwner)
    } else {
        None
    }
}

/// The store after the food item was rewritten: every mutable field is
/// replaced, the timestamp refreshed, and the owning restaurant kept.
pub open spec fn food_updated(
    pre: DataView,
    post: DataView,
    food_id: FoodId,
    food_name: String,
    description: String,
    price: Balance,
    eta: u64,
    now: Timestamp,
) -> bool {
    post == DataView {
        food_data: pre.food_data.update(
            food_id - 1,
            Food {
                food_name,
                restaurant_id: pre.food_at(food_id).restaurant_id,
                description,
                price,
                eta,
                timestamp: now,
            },
        ),
        ..pre
    }
}

impl FoodOrder {
    /// Publishes a food item for the caller's restaurant and returns the
    /// assigned food id; rejected with `Unauthorized` when the caller is not
    /// a whitelisted restaurant.
    pub fn add_food(
        &mut self,
        caller: AccountId,
        food_name: String,
        description: String,
        price: Balance,
        eta: u64,
        now: Timestamp,
    ) -> (r: Result<FoodId, FoodOrderError>)
        requires
            old(self)@.wf(),
            old(self)@.food_data.len() < u64::MAX,
        ensures
            final(self)@.wf(),
            match add_food_check(old(self)@, caller) {
                Some(e) => r == Err::<FoodId, FoodOrderError>(e) && final(self)@ == old(self)@,
                None => r is Ok && food_added(
                    old(self)@,
                    final(self)@,
                    caller,
                    food_name,
                    description,
                    price,
                    eta,
                    now,
                    r->Ok_0,
                ),
            },
    {
        let rid = match self.data.restaurant_account_id.get(&caller) {
            Some(rid) => *rid,
            None => {
                return Err(FoodOrderError::Unauthorized);
            },
        };
        let ghost pre = self@;
        let n_restaurants = self.data.restaurants.len();
        proof {
            assert(pre.restaurant_account_id.contains_key(caller));
            assert(1 <= rid <= n_restaurants);
        }
        let id = self.data.food_data.len() as u64 + 1;
        let ghost target = DataView {
            food_data: pre.food_data.push(
                Food {
                    food_name,
                    restaurant_id: rid,
                    description,
                    price,
                    eta,
                    timestamp: now,
                },
            ),
            restaurant_food_data: pre.restaurant_food_data.update(
                rid - 1,
                pre.restaurant_food_data[rid - 1].push(id),
            ),
            ..pre
        };
        self.data.food_data.push(
            Food { food_name, restaurant_id: rid, description, price, eta, timestamp: now },
        );
        let idx = (rid - 1) as usize;
        self.data.restaurant_food_data[idx].push(id);
        proof {
            assert(self@ =~= target);
        }
        Ok(id)
    }

    /// Rewrites a food item of the caller's restaurant; rejected when the
    /// caller is not a restaurant, the id is unknown, or the item belongs to
    /// another restaurant.
    pub fn update_food(
        &mut self,
        caller: AccountId,
        food_id: FoodId,
        food_name: String,
        description: String,
        price: Balance,
        eta: u64,
        now: Timestamp,
    ) -> (r: Result<(), FoodOrderError>)
        requires
            old(self)@.wf(),
        ensures
            final(self)@.wf(),
            match update_food_check(old(self)@, caller, food_id) {
                Some(e) => r == Err::<(), FoodOrderError>(e) && final(self)@ == old(self)@,
                None => r is Ok && food_updated(
                    old(self)@,
                    final(self)@,
                    food_id,
                    food_name,
                    description,
                    price,
                    eta,
                    now,
                ),
            },
    {
        let rid = match self.data.restaurant_account_id.get(&caller) {
            Some(rid) => *rid,
            None => {
                return Err(FoodOrderError::Unauthorized);
            },
        };
        if food_id < 1 || food_id > self.data.food_data.len() as u64 {
            return Err(FoodOrderError::NotFound);
        }
        let idx = (food_id - 1) as usize;
        if self.data.food_data[idx].restaurant_id != rid {
            return Err(FoodOrderError::NotOwner);
        }
        let ghost pre = self@;
        let ghost target = DataView {
            food_data: pre.food_data.update(
                food_id - 1,
                Food {
                    food_name,
                    restaurant_id: pre.food_at(food_id).restaurant_id,
                    description,
                    price,
                    eta,
                    timestamp: now,
                },
            ),
            ..pre
        };
        self.data.food_data[idx] = Food {
            food_name,
            restaurant_id: rid,
            description,
            price,
            eta,
            timestamp: now,
        };
        proof {
            assert(self@ =~= target);
        }
        Ok(())
    }
}

} // verus!
