//! Delivery lifecycle: any whitelisted deliverer may claim a waiting
//! delivery, first come first served; no deliverer is ever bound to a
//! specific delivery beforehand, and the `deliver_id` fields stay
//! unassigned. Picking a delivery up marks its order as delivered.

use vstd::prelude::*;

use crate::types::{
    delivery_mirrors, lemma_deliveries_wf_pickup, AccountId, DataView, Delivery, DeliveryId,
    DeliveryStatus, FoodOrderError, Order, OrderStatus,
};
use crate::FoodOrder;

verus! {

/// First failing precondition of `confirm_pickup`, if any: the caller must
/// be a whitelisted deliverer, the delivery must exist and must not have
/// been picked up already.
pub open spec fn confirm_pickup_check(
    s: DataView,
    caller: AccountId,
    delivery_id: DeliveryId,
) -> Option<FoodOrderError> {
    if !s.is_deliver(caller) {
        Some(FoodOrderError::Unauthorized)
    } else if !s.valid_delivery_id(delivery_id) {
        Some(FoodOrderError::NotFound)
    } else if s.delivery_at(delivery_id).status != DeliveryStatus::Waiting {
        Some(FoodOrderError::InvalidTransition)
    } else {
        None
    }
}

/// The store after the delivery was picked up: the delivery moves to
/// `PickedUp` and the order it references to `Delivered`; everything else
/// untouched.
pub open spec fn delivery_picked_up(
    pre: DataView,
    post: DataView,
    delivery_id: DeliveryId,
) -> bool {
    let d = pre.delivery_at(delivery_id);
    post == DataView {
        delivery_data: pre.delivery_data.update(
            delivery_id - 1,
            Delivery { status: DeliveryStatus::PickedUp, ..d },
        ),
        order_data: pre.order_data.update(
            d.order_id - 1,
            Order { status: OrderStatus::Delivered, ..pre.order_at(d.order_id) },
        ),
        ..pre
    }
}

impl FoodOrder {
    /// A deliverer claims the waiting delivery `delivery_id`: the delivery
    /// is marked picked up and the referenced order delivered.
    pub fn confirm_pickup(
        &mut self,
        caller: AccountId,
        delivery_id: DeliveryId,
    ) -> (r: Result<(), FoodOrderError>)
        requires
            old(self)@.wf(),
        ensures
            final(self)@.wf(),
            match confirm_pickup_check(old(self)@, caller, delivery_id) {
                Some(e) => r == Err::<(), FoodOrderError>(e) && final(self)@ == old(self)@,
                None => r is Ok && delivery_picked_up(old(self)@, final(self)@, delivery_id),
            },
    {
        if !self.data.deliver_account_id.contains_key(&caller) {
            return Err(FoodOrderError::Unauthorized);
        }
        let n_deliveries = self.data.delivery_data.len();
        if delivery_id < 1 || delivery_id > n_deliveries as u64 {
            return Err(FoodOrderError::NotFound);
        }
        let didx = (delivery_id - 1) as usize;
        if self.data.delivery_data[didx].status != DeliveryStatus::Waiting {
            return Err(FoodOrderError::InvalidTransition);
        }
        let ghost pre = self@;
        let order_id = self.data.delivery_data[didx].order_id;
        let n_orders = self.data.order_data.len();
        proof {
            assert(delivery_mirrors(pre.order_data, pre.delivery_data[delivery_id - 1]));
            assert(1 <= order_id <= n_orders);
        }
        let oidx = (order_id - 1) as usize;
        let ghost target = DataView {
            delivery_data: pre.delivery_data.update(
                delivery_id - 1,
                Delivery { status: DeliveryStatus::PickedUp, ..pre.delivery_at(delivery_id) },
            ),
            order_data: pre.order_data.update(
                order_id - 1,
                Order { status: OrderStatus::Delivered, ..pre.order_at(order_id) },
            ),
            ..pre
        };
        self.data.delivery_data[didx].status = DeliveryStatus::PickedUp;
        self.data.order_data[oidx].status = OrderStatus::Delivered;
        proof {
            assert(self@ =~= target);
            lemma_deliveries_wf_pickup(
                pre.order_data,
                pre.delivery_data,
                delivery_id - 1,
                target.delivery_at(delivery_id),
                target.order_at(order_id),
            );
        }
        Ok(())
    }
}

} // verus!
