//! Read-only accessors: point lookups by id, per-parent index lookups, the
//! remaining-eta computation, and ranged bulk reads.
//!
//! The bulk reads clamp the requested range to the ids that were actually
//! allocated and skip the reserved id 0, so an oversized range returns
//! exactly the allocated records instead of failing.

use vstd::prelude::*;

use crate::types::{
    AccountId, CustomerId, DataView, DeliverId, Delivery, DeliveryId, Food, FoodId,
    FoodOrderError, Order, OrderId, RestaurantId, Timestamp,
};
use crate::FoodOrder;

verus! {

/// The eta still outstanding on an order: the promised duration minus the
/// time already elapsed, floored at zero in both subtractions so that it
/// never underflows, however late the order is.
pub open spec fn eta_remaining(eta: u64, start: Timestamp, now: Timestamp) -> int {
    if now <= start {
        eta as int
    } else if now - start >= eta {
        0
    } else {
        eta - (now - start)
    }
}

/// The first id of the clamped range `[lo, hi)`: ids start at 1.
pub open spec fn range_lo(from: u64) -> int {
    if from < 1 {
        1
    } else {
        from as int
    }
}

/// One past the last id of the clamped range `[lo, hi)`: at most one past
/// the highest allocated id `n`.
pub open spec fn range_hi(to: u64, n: int) -> int {
    if to <= n {
        to as int
    } else {
        n + 1
    }
}

/// An owned copy of a stored id list.
fn copy_ids(v: &Vec<u64>) -> (r: Vec<u64>)
    ensures
        r@ == v@,
{
    let mut r: Vec<u64> = Vec::new();
    let mut i: usize = 0;
    while i < v.len()
        invariant
            0 <= i <= v.len(),
            r@ == v@.subrange(0, i as int),
        decreases v.len() - i,
    {
        r.push(v[i]);
        i = i + 1;
        proof {
            assert(r@ =~= v@.subrange(0, i as int));
        }
    }
    proof {
        assert(r@ =~= v@);
    }
    r
}

impl FoodOrder {
    /// The time still to wait on the order, by the clock reading `now`:
    /// never negative, even when the elapsed time exceeds the promise.
    pub fn get_eta(&self, order_id: OrderId, now: Timestamp) -> (r: Result<
        u64,
        FoodOrderError,
    >)
        ensures
            match r {
                Ok(eta) => self@.valid_order_id(order_id) && eta == eta_remaining(
                    self@.order_at(order_id).eta,
                    self@.order_at(order_id).timestamp,
                    now,
                ),
                Err(e) => e == FoodOrderError::NotFound && !self@.valid_order_id(order_id),
            },
    {
        let n_orders = self.data.order_data.len();
        if order_id < 1 || order_id > n_orders as u64 {
            return Err(FoodOrderError::NotFound);
        }
        let order = &self.data.order_data[(order_id - 1) as usize];
        let elapsed = if now > order.timestamp {
            now - order.timestamp
        } else {
            0
        };
        if order.eta > elapsed {
            Ok(order.eta - elapsed)
        } else {
            Ok(0)
        }
    }

    /// The stored order record, by id.
    pub fn get_order_from_id(&self, order_id: OrderId) -> (r: Result<Order, FoodOrderError>)
        ensures
            match r {
                Ok(order) => self@.valid_order_id(order_id) && order == self@.order_at(order_id),
                Err(e) => e == FoodOrderError::NotFound && !self@.valid_order_id(order_id),
            },
    {
        let n_orders = self.data.order_data.len();
        if order_id < 1 || order_id > n_orders as u64 {
            return Err(FoodOrderError::NotFound);
        }
        Ok(self.data.order_data[(order_id - 1) as usize].clone())
    }

    /// The ids of the orders placed with a restaurant, oldest first.
    pub fn get_order_from_restaurant(&self, restaurant_id: RestaurantId) -> (r: Result<
        Vec<u64>,
        FoodOrderError,
    >)
        requires
            self@.wf(),
        ensures
            match r {
                Ok(ids) => self@.valid_restaurant_id(restaurant_id) && ids@
                    == self@.restaurant_order_data[restaurant_id - 1],
                Err(e) => e == FoodOrderError::NotFound
                    && !self@.valid_restaurant_id(restaurant_id),
            },
    {
        let n_restaurants = self.data.restaurants.len();
        if restaurant_id < 1 || restaurant_id > n_restaurants as u64 {
            return Err(FoodOrderError::NotFound);
        }
        Ok(copy_ids(&self.data.restaurant_order_data[(restaurant_id - 1) as usize]))
    }

    /// The ids of the orders a customer has placed, oldest first.
    pub fn get_order_from_customer(&self, customer_id: CustomerId) -> (r: Result<
        Vec<u64>,
        FoodOrderError,
    >)
        requires
            self@.wf(),
        ensures
            match r {
                Ok(ids) => self@.valid_customer_id(customer_id) && ids@
                    == self@.customer_order_data[customer_id - 1],
                Err(e) => e == FoodOrderError::NotFound
                    && !self@.valid_customer_id(customer_id),
            },
    {
        let n_customers = self.data.customers.len();
        if customer_id < 1 || customer_id > n_customers as u64 {
            return Err(FoodOrderError::NotFound);
        }
        Ok(copy_ids(&self.data.customer_order_data[(customer_id - 1) as usize]))
    }

    /// All stored orders with ids in `[from, to)`, clamped to the allocated
    /// ids; the reserved id 0 and ids at or past the allocator are skipped
    /// rather than failed on.
    pub fn get_order_all(&self, from: u64, to: u64) -> (r: Vec<Order>)
        requires
            self@.order_data.len() < u64::MAX,
        ensures
            ({
                let lo = range_lo(from);
                let hi = range_hi(to, self@.order_data.len() as int);
                if lo <= hi {
                    r@ == self@.order_data.subrange(lo - 1, hi - 1)
                } else {
                    r@ == Seq::<Order>::empty()
                }
            }),
    {
        let n = self.data.order_data.len();
        let lo: u64 = if from < 1 {
            1
        } else {
            from
        };
        let hi: u64 = if to <= n as u64 {
            to
        } else {
            n as u64 + 1
        };
        let mut r: Vec<Order> = Vec::new();
        let mut i: u64 = lo;
        if lo > hi {
            return r;
        }
        while i < hi
            invariant
                n == self@.order_data.len(),
                range_lo(from) == lo,
                range_hi(to, self@.order_data.len() as int) == hi,
                lo <= i <= hi,
                hi <= self@.order_data.len() + 1,
                r@ == self@.order_data.subrange(lo - 1, i - 1),
            decreases hi - i,
        {
            r.push(self.data.order_data[(i - 1) as usize].clone());
            i = i + 1;
            proof {
                assert(r@ =~= self@.order_data.subrange(lo - 1, i - 1));
            }
        }
        r
    }

    /// The stored food record, by id.
    pub fn get_food_from_id(&self, food_id: FoodId) -> (r: Result<Food, FoodOrderError>)
        ensures
            match r {
                Ok(food) => self@.valid_food_id(food_id) && food == self@.food_at(food_id),
                Err(e) => e == FoodOrderError::NotFound && !self@.valid_food_id(food_id),
            },
    {
        let n_foods = self.data.food_data.len();
        if food_id < 1 || food_id > n_foods as u64 {
            return Err(FoodOrderError::NotFound);
        }
        Ok(self.data.food_data[(food_id - 1) as usize].clone())
    }

    /// The ids of the food items a restaurant has published, oldest first.
    pub fn get_food_from_restaurant(&self, restaurant_id: RestaurantId) -> (r: Result<
        Vec<u64>,
        FoodOrderError,
    >)
        requires
            self@.wf(),
        ensures
            match r {
                Ok(ids) => self@.valid_restaurant_id(restaurant_id) && ids@
                    == self@.restaurant_food_data[restaurant_id - 1],
                Err(e) => e == FoodOrderError::NotFound
                    && !self@.valid_restaurant_id(restaurant_id),
            },
    {
        let n_restaurants = self.data.restaurants.len();
        if restaurant_id < 1 || restaurant_id > n_restaurants as u64 {
            return Err(FoodOrderError::NotFound);
        }
        Ok(copy_ids(&self.data.restaurant_food_data[(restaurant_id - 1) as usize]))
    }

    /// All stored food items with ids in `[from, to)`, clamped as for
    /// `get_order_all`.
    pub fn get_food_all(&self, from: u64, to: u64) -> (r: Vec<Food>)
        requires
            self@.food_data.len() < u64::MAX,
        ensures
            ({
                let lo = range_lo(from);
                let hi = range_hi(to, self@.food_data.len() as int);
                if lo <= hi {
                    r@ == self@.food_data.subrange(lo - 1, hi - 1)
                } else {
                    r@ == Seq::<Food>::empty()
                }
            }),
    {
        let n = self.data.food_data.len();
        let lo: u64 = if from < 1 {
            1
        } else {
            from
        };
        let hi: u64 = if to <= n as u64 {
            to
        } else {
            n as u64 + 1
        };
        let mut r: Vec<Food> = Vec::new();
        let mut i: u64 = lo;
        if lo > hi {
            return r;
        }
        while i < hi
            invariant
                n == self@.food_data.len(),
                range_lo(from) == lo,
                range_hi(to, self@.food_data.len() as int) == hi,
                lo <= i <= hi,
                hi <= self@.food_data.len() + 1,
                r@ == self@.food_data.subrange(lo - 1, i - 1),
            decreases hi - i,
        {
            r.push(self.data.food_data[(i - 1) as usize].clone());
            i = i + 1;
            proof {
                assert(r@ =~= self@.food_data.subrange(lo - 1, i - 1));
            }
        }
        r
    }

    /// The stored delivery record, by id.
    pub fn get_delivery_from_id(&self, delivery_id: DeliveryId) -> (r: Result<
        Delivery,
        FoodOrderError,
    >)
        ensures
            match r {
                Ok(delivery) => self@.valid_delivery_id(delivery_id) && delivery
                    == self@.delivery_at(delivery_id),
                Err(e) => e == FoodOrderError::NotFound && !self@.valid_delivery_id(delivery_id),
            },
    {
        let n_deliveries = self.data.delivery_data.len();
        if delivery_id < 1 || delivery_id > n_deliveries as u64 {
            return Err(FoodOrderError::NotFound);
        }
        Ok(self.data.delivery_data[(delivery_id - 1) as usize].clone())
    }

    /// The ids of the deliveries recorded under a deliverer. No operation
    /// assigns a delivery to a deliverer, so the list stays empty under the
    /// open-claim model; the accessor still validates the deliverer id.
    pub fn get_delivery_from_deliver(&self, deliver_id: DeliverId) -> (r: Result<
        Vec<u64>,
        FoodOrderError,
    >)
        requires
            self@.wf(),
        ensures
            match r {
                Ok(ids) => self@.valid_deliver_id(deliver_id) && ids@
                    == self@.deliver_delivery_data[deliver_id - 1],
                Err(e) => e == FoodOrderError::NotFound && !self@.valid_deliver_id(deliver_id),
            },
    {
        let n_delivers = self.data.delivers.len();
        if deliver_id < 1 || deliver_id > n_delivers as u64 {
            return Err(FoodOrderError::NotFound);
        }
        Ok(copy_ids(&self.data.deliver_delivery_data[(deliver_id - 1) as usize]))
    }

    /// All stored deliveries with ids in `[from, to)`, clamped as for
    /// `get_order_all`.
    pub fn get_delivery_all(&self, from: u64, to: u64) -> (r: Vec<Delivery>)
        requires
            self@.delivery_data.len() < u64::MAX,
        ensures
            ({
                let lo = range_lo(from);
                let hi = range_hi(to, self@.delivery_data.len() as int);
                if lo <= hi {
                    r@ == self@.delivery_data.subrange(lo - 1, hi - 1)
                } else {
                    r@ == Seq::<Delivery>::empty()
                }
            }),
    {
        let n = self.data.delivery_data.len();
        let lo: u64 = if from < 1 {
            1
        } else {
            from
        };
        let hi: u64 = if to <= n as u64 {
            to
        } else {
            n as u64 + 1
        };
        let mut r: Vec<Delivery> = Vec::new();
        let mut i: u64 = lo;
        if lo > hi {
            return r;
        }
        while i < hi
            invariant
                n == self@.delivery_data.len(),
                range_lo(from) == lo,
                range_hi(to, self@.delivery_data.len() as int) == hi,
                lo <= i <= hi,
                hi <= self@.delivery_data.len() + 1,
                r@ == self@.delivery_data.subrange(lo - 1, i - 1),
            decreases hi - i,
        {
            r.push(self.data.delivery_data[(i - 1) as usize].clone());
            i = i + 1;
            proof {
                assert(r@ =~= self@.delivery_data.subrange(lo - 1, i - 1));
            }
        }
        r
    }
}

} // verus!
