use food_order::types::{DeliveryStatus, FoodOrderError, OrderStatus};
use food_order::FoodOrder;

const MANAGER: u64 = 100;
const RESTAURANT: u64 = 10;
const CUSTOMER: u64 = 20;
const DELIVERER: u64 = 30;

/// A ledger with one restaurant (id 1), one customer (id 1), one deliverer
/// (id 1) and one food item (id 1, price 500, eta 600, published at t=0).
fn setup() -> FoodOrder {
    let mut fo = FoodOrder::new(MANAGER);
    assert_eq!(
        fo.add_restaurant(
            MANAGER,
            RESTAURANT,
            "Trattoria".to_string(),
            "1 Main St".to_string(),
            "555-0100".to_string(),
        ),
        Ok(1)
    );
    assert_eq!(
        fo.add_customer(
            CUSTOMER,
            "Alice".to_string(),
            "2 Oak Ave".to_string(),
            "555-0200".to_string(),
        ),
        Ok(1)
    );
    assert_eq!(
        fo.add_deliver(
            MANAGER,
            DELIVERER,
            "Bob".to_string(),
            "3 Elm Rd".to_string(),
            "555-0300".to_string(),
        ),
        Ok(1)
    );
    assert_eq!(
        fo.add_food(
            RESTAURANT,
            "Pasta".to_string(),
            "Fresh pasta".to_string(),
            500,
            600,
            0,
        ),
        Ok(1)
    );
    fo
}

/// Drives the order with id 1 to the given point in its lifecycle and
/// returns the delivery id created at dispatch, if it got that far.
fn submit_order_one(fo: &mut FoodOrder) -> u64 {
    fo.submit_order(
        CUSTOMER,
        1,
        1,
        "2 Oak Ave".to_string(),
        500,
        1_000,
    )
    .unwrap()
}

#[test]
fn customer_ids_are_sequential() {
    let mut fo = FoodOrder::new(MANAGER);
    for (n, account) in [(1, 21), (2, 22), (3, 23)] {
        let id = fo
            .add_customer(
                account,
                format!("Customer {n}"),
                "Somewhere".to_string(),
                "555".to_string(),
            )
            .unwrap();
        assert_eq!(id, n);
    }
}

#[test]
fn restaurant_and_deliverer_ids_are_sequential() {
    let mut fo = FoodOrder::new(MANAGER);
    for (n, account) in [(1, 11), (2, 12), (3, 13)] {
        let id = fo
            .add_restaurant(
                MANAGER,
                account,
                format!("Restaurant {n}"),
                "Somewhere".to_string(),
                "555".to_string(),
            )
            .unwrap();
        assert_eq!(id, n);
    }
    for (n, account) in [(1, 31), (2, 32)] {
        let id = fo
            .add_deliver(
                MANAGER,
                account,
                format!("Deliverer {n}"),
                "Somewhere".to_string(),
                "555".to_string(),
            )
            .unwrap();
        assert_eq!(id, n);
    }
}

#[test]
fn food_and_order_ids_are_sequential() {
    let mut fo = setup();
    assert_eq!(
        fo.add_food(
            RESTAURANT,
            "Soup".to_string(),
            "Hot".to_string(),
            200,
            300,
            5,
        ),
        Ok(2)
    );
    assert_eq!(
        fo.submit_order(CUSTOMER, 1, 1, "2 Oak Ave".to_string(), 500, 10),
        Ok(1)
    );
    assert_eq!(
        fo.submit_order(CUSTOMER, 2, 1, "2 Oak Ave".to_string(), 200, 11),
        Ok(2)
    );
}

#[test]
fn same_role_twice_is_rejected() {
    let mut fo = setup();
    assert_eq!(
        fo.add_customer(
            CUSTOMER,
            "Alice again".to_string(),
            "2 Oak Ave".to_string(),
            "555".to_string(),
        ),
        Err(FoodOrderError::AlreadyRegistered)
    );
    assert_eq!(
        fo.add_restaurant(
            MANAGER,
            RESTAURANT,
            "Trattoria again".to_string(),
            "1 Main St".to_string(),
            "555".to_string(),
        ),
        Err(FoodOrderError::AlreadyRegistered)
    );
    assert_eq!(
        fo.add_deliver(
            MANAGER,
            DELIVERER,
            "Bob again".to_string(),
            "3 Elm Rd".to_string(),
            "555".to_string(),
        ),
        Err(FoodOrderError::AlreadyRegistered)
    );
}

#[test]
fn two_roles_for_one_account_both_succeed() {
    let mut fo = FoodOrder::new(MANAGER);
    let account = 42;
    assert_eq!(
        fo.add_customer(
            account,
            "Carol".to_string(),
            "4 Pine St".to_string(),
            "555".to_string(),
        ),
        Ok(1)
    );
    assert_eq!(
        fo.add_restaurant(
            MANAGER,
            account,
            "Carol's".to_string(),
            "4 Pine St".to_string(),
            "555".to_string(),
        ),
        Ok(1)
    );
}

#[test]
fn only_manager_registers_restaurants_and_deliverers() {
    let mut fo = FoodOrder::new(MANAGER);
    assert_eq!(
        fo.add_restaurant(
            77,
            RESTAURANT,
            "Trattoria".to_string(),
            "1 Main St".to_string(),
            "555".to_string(),
        ),
        Err(FoodOrderError::Unauthorized)
    );
    assert_eq!(
        fo.add_deliver(
            77,
            DELIVERER,
            "Bob".to_string(),
            "3 Elm Rd".to_string(),
            "555".to_string(),
        ),
        Err(FoodOrderError::Unauthorized)
    );
}

#[test]
fn manager_reassignment_is_self_gated() {
    let mut fo = FoodOrder::new(MANAGER);
    assert_eq!(fo.change_manager(77, 77), Err(FoodOrderError::Unauthorized));
    assert_eq!(fo.change_manager(MANAGER, 200), Ok(()));
    assert_eq!(
        fo.change_manager(MANAGER, 300),
        Err(FoodOrderError::Unauthorized)
    );
    assert_eq!(fo.change_manager(200, 300), Ok(()));
}

#[test]
fn payment_mismatch_is_rejected_exact_payment_submits() {
    let mut fo = setup();
    assert_eq!(
        fo.submit_order(CUSTOMER, 1, 1, "2 Oak Ave".to_string(), 499, 7),
        Err(FoodOrderError::PaymentMismatch)
    );
    assert_eq!(
        fo.submit_order(CUSTOMER, 1, 1, "2 Oak Ave".to_string(), 501, 7),
        Err(FoodOrderError::PaymentMismatch)
    );
    let id = fo
        .submit_order(CUSTOMER, 1, 1, "2 Oak Ave".to_string(), 500, 7)
        .unwrap();
    let order = fo.get_order_from_id(id).unwrap();
    assert_eq!(order.status, OrderStatus::Submitted);
    assert_eq!(order.price, 500);
    assert_eq!(order.eta, 0);
    assert_eq!(order.deliver_id, 0);
}

#[test]
fn submit_order_validates_references_and_role() {
    let mut fo = setup();
    assert_eq!(
        fo.submit_order(77, 1, 1, "X".to_string(), 500, 7),
        Err(FoodOrderError::Unauthorized)
    );
    assert_eq!(
        fo.submit_order(CUSTOMER, 9, 1, "X".to_string(), 500, 7),
        Err(FoodOrderError::NotFound)
    );
    assert_eq!(
        fo.submit_order(CUSTOMER, 1, 9, "X".to_string(), 500, 7),
        Err(FoodOrderError::NotFound)
    );
}

#[test]
fn from_submitted_only_confirmation_succeeds() {
    let mut fo = setup();
    let id = submit_order_one(&mut fo);
    assert_eq!(
        fo.dispatch_order(RESTAURANT, id, 1_001),
        Err(FoodOrderError::InvalidTransition)
    );
    assert_eq!(
        fo.accept_delivery(CUSTOMER, id),
        Err(FoodOrderError::InvalidTransition)
    );
    assert_eq!(fo.confirm_order(RESTAURANT, id), Ok(()));
    assert_eq!(
        fo.get_order_from_id(id).unwrap().status,
        OrderStatus::Confirmed
    );
}

#[test]
fn no_transition_runs_twice() {
    let mut fo = setup();
    let id = submit_order_one(&mut fo);
    assert_eq!(fo.confirm_order(RESTAURANT, id), Ok(()));
    assert_eq!(
        fo.confirm_order(RESTAURANT, id),
        Err(FoodOrderError::InvalidTransition)
    );
    let did = fo.dispatch_order(RESTAURANT, id, 1_100).unwrap();
    assert_eq!(
        fo.dispatch_order(RESTAURANT, id, 1_100),
        Err(FoodOrderError::InvalidTransition)
    );
    assert_eq!(fo.confirm_pickup(DELIVERER, did), Ok(()));
    assert_eq!(
        fo.confirm_pickup(DELIVERER, did),
        Err(FoodOrderError::InvalidTransition)
    );
    assert_eq!(fo.accept_delivery(CUSTOMER, id), Ok(()));
    assert_eq!(
        fo.accept_delivery(CUSTOMER, id),
        Err(FoodOrderError::InvalidTransition)
    );
}

#[test]
fn acceptance_waits_for_delivery() {
    let mut fo = setup();
    let id = submit_order_one(&mut fo);
    fo.confirm_order(RESTAURANT, id).unwrap();
    assert_eq!(
        fo.accept_delivery(CUSTOMER, id),
        Err(FoodOrderError::InvalidTransition)
    );
    fo.dispatch_order(RESTAURANT, id, 1_100).unwrap();
    assert_eq!(
        fo.accept_delivery(CUSTOMER, id),
        Err(FoodOrderError::InvalidTransition)
    );
}

#[test]
fn eta_saturates_at_zero() {
    let mut fo = setup();
    let id = submit_order_one(&mut fo);
    fo.confirm_order(RESTAURANT, id).unwrap();
    // Submitted at t=1000 with a promised eta of 600.
    assert_eq!(fo.get_eta(id, 1_000), Ok(600));
    assert_eq!(fo.get_eta(id, 1_200), Ok(400));
    assert_eq!(fo.get_eta(id, 1_600), Ok(0));
    assert_eq!(fo.get_eta(id, 1_000_000), Ok(0));
    assert_eq!(fo.get_eta(9, 1_000), Err(FoodOrderError::NotFound));
}

#[test]
fn full_lifecycle_scenario() {
    let mut fo = FoodOrder::new(MANAGER);
    assert_eq!(
        fo.add_restaurant(
            MANAGER,
            RESTAURANT,
            "R".to_string(),
            "1 Main St".to_string(),
            "555".to_string(),
        ),
        Ok(1)
    );
    assert_eq!(
        fo.add_food(
            RESTAURANT,
            "F".to_string(),
            "Food".to_string(),
            500,
            600,
            0,
        ),
        Ok(1)
    );
    assert_eq!(
        fo.add_customer(
            CUSTOMER,
            "C".to_string(),
            "2 Oak Ave".to_string(),
            "555".to_string(),
        ),
        Ok(1)
    );
    assert_eq!(
        fo.add_deliver(
            MANAGER,
            DELIVERER,
            "D".to_string(),
            "3 Elm Rd".to_string(),
            "555".to_string(),
        ),
        Ok(1)
    );
    let order_id = fo
        .submit_order(CUSTOMER, 1, 1, "2 Oak Ave".to_string(), 500, 50)
        .unwrap();
    assert_eq!(order_id, 1);
    assert_eq!(
        fo.get_order_from_id(1).unwrap().status,
        OrderStatus::Submitted
    );

    fo.confirm_order(RESTAURANT, 1).unwrap();
    let order = fo.get_order_from_id(1).unwrap();
    assert_eq!(order.status, OrderStatus::Confirmed);
    assert_eq!(order.eta, 600);

    let delivery_id = fo.dispatch_order(RESTAURANT, 1, 60).unwrap();
    assert_eq!(delivery_id, 1);
    assert_eq!(
        fo.get_order_from_id(1).unwrap().status,
        OrderStatus::Dispatched
    );
    let delivery = fo.get_delivery_from_id(1).unwrap();
    assert_eq!(delivery.status, DeliveryStatus::Waiting);
    assert_eq!(delivery.order_id, 1);
    assert_eq!(delivery.restaurant_id, 1);
    assert_eq!(delivery.customer_id, 1);
    assert_eq!(delivery.deliver_id, 0);
    assert_eq!(delivery.delivery_address, "2 Oak Ave");

    fo.confirm_pickup(DELIVERER, 1).unwrap();
    assert_eq!(
        fo.get_delivery_from_id(1).unwrap().status,
        DeliveryStatus::PickedUp
    );
    assert_eq!(
        fo.get_order_from_id(1).unwrap().status,
        OrderStatus::Delivered
    );

    fo.accept_delivery(CUSTOMER, 1).unwrap();
    assert_eq!(
        fo.get_order_from_id(1).unwrap().status,
        OrderStatus::Accepted
    );
}

#[test]
fn add_food_needs_the_restaurant_role() {
    let mut fo = setup();
    assert_eq!(
        fo.add_food(
            77,
            "Sneaky".to_string(),
            "Nope".to_string(),
            1,
            1,
            0,
        ),
        Err(FoodOrderError::Unauthorized)
    );
    // A customer account is not a restaurant either.
    assert_eq!(
        fo.add_food(
            CUSTOMER,
            "Sneaky".to_string(),
            "Nope".to_string(),
            1,
            1,
            0,
        ),
        Err(FoodOrderError::Unauthorized)
    );
}

#[test]
fn update_food_checks_role_existence_and_ownership() {
    let mut fo = setup();
    assert_eq!(
        fo.update_food(
            77,
            1,
            "X".to_string(),
            "X".to_string(),
            1,
            1,
            9,
        ),
        Err(FoodOrderError::Unauthorized)
    );
    assert_eq!(
        fo.update_food(
            RESTAURANT,
            9,
            "X".to_string(),
            "X".to_string(),
            1,
            1,
            9,
        ),
        Err(FoodOrderError::NotFound)
    );
    let other = 11;
    fo.add_restaurant(
        MANAGER,
        other,
        "Rival".to_string(),
        "9 Side St".to_string(),
        "555".to_string(),
    )
    .unwrap();
    assert_eq!(
        fo.update_food(
            other,
            1,
            "Stolen".to_string(),
            "Nope".to_string(),
            1,
            1,
            9,
        ),
        Err(FoodOrderError::NotOwner)
    );
    assert_eq!(
        fo.update_food(
            RESTAURANT,
            1,
            "Pasta Deluxe".to_string(),
            "Even fresher".to_string(),
            700,
            500,
            9,
        ),
        Ok(())
    );
    let food = fo.get_food_from_id(1).unwrap();
    assert_eq!(food.food_name, "Pasta Deluxe");
    assert_eq!(food.price, 700);
    assert_eq!(food.eta, 500);
    assert_eq!(food.restaurant_id, 1);
    assert_eq!(food.timestamp, 9);
}

#[test]
fn confirm_order_checks_ownership() {
    let mut fo = setup();
    let id = submit_order_one(&mut fo);
    let other = 11;
    fo.add_restaurant(
        MANAGER,
        other,
        "Rival".to_string(),
        "9 Side St".to_string(),
        "555".to_string(),
    )
    .unwrap();
    assert_eq!(fo.confirm_order(other, id), Err(FoodOrderError::NotOwner));
    assert_eq!(fo.confirm_order(77, id), Err(FoodOrderError::Unauthorized));
    assert_eq!(fo.confirm_order(RESTAURANT, 9), Err(FoodOrderError::NotFound));
}

#[test]
fn pickup_checks_role_and_existence() {
    let mut fo = setup();
    let id = submit_order_one(&mut fo);
    fo.confirm_order(RESTAURANT, id).unwrap();
    let did = fo.dispatch_order(RESTAURANT, id, 1_100).unwrap();
    assert_eq!(fo.confirm_pickup(77, did), Err(FoodOrderError::Unauthorized));
    assert_eq!(
        fo.confirm_pickup(DELIVERER, 9),
        Err(FoodOrderError::NotFound)
    );
    assert_eq!(fo.confirm_pickup(DELIVERER, did), Ok(()));
}

#[test]
fn accept_delivery_checks_ownership() {
    let mut fo = setup();
    let id = submit_order_one(&mut fo);
    fo.confirm_order(RESTAURANT, id).unwrap();
    let did = fo.dispatch_order(RESTAURANT, id, 1_100).unwrap();
    fo.confirm_pickup(DELIVERER, did).unwrap();
    let other = 21;
    fo.add_customer(
        other,
        "Eve".to_string(),
        "5 Birch Ln".to_string(),
        "555".to_string(),
    )
    .unwrap();
    assert_eq!(fo.accept_delivery(77, id), Err(FoodOrderError::Unauthorized));
    assert_eq!(fo.accept_delivery(other, id), Err(FoodOrderError::NotOwner));
    assert_eq!(fo.accept_delivery(CUSTOMER, 9), Err(FoodOrderError::NotFound));
    assert_eq!(fo.accept_delivery(CUSTOMER, id), Ok(()));
}
