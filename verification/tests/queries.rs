use food_order::types::{Customer, Delivery, Food, Order, OrderStatus};
use food_order::FoodOrder;

const MANAGER: u64 = 100;
const RESTAURANT: u64 = 10;
const CUSTOMER: u64 = 20;
const DELIVERER: u64 = 30;

/// A ledger with one of each party, three food items and three orders.
fn populated() -> FoodOrder {
    let mut fo = FoodOrder::new(MANAGER);
    fo.add_restaurant(
        MANAGER,
        RESTAURANT,
        "Trattoria".to_string(),
        "1 Main St".to_string(),
        "555-0100".to_string(),
    )
    .unwrap();
    fo.add_customer(
        CUSTOMER,
        "Alice".to_string(),
        "2 Oak Ave".to_string(),
        "555-0200".to_string(),
    )
    .unwrap();
    fo.add_deliver(
        MANAGER,
        DELIVERER,
        "Bob".to_string(),
        "3 Elm Rd".to_string(),
        "555-0300".to_string(),
    )
    .unwrap();
    for (name, price, eta) in [("Pasta", 500, 600), ("Soup", 200, 300), ("Cake", 800, 900)] {
        fo.add_food(
            RESTAURANT,
            name.to_string(),
            format!("{name} of the house"),
            price,
            eta,
            0,
        )
        .unwrap();
    }
    for food_id in 1..=3 {
        let price = fo.get_food_from_id(food_id).unwrap().price;
        fo.submit_order(
            CUSTOMER,
            food_id,
            1,
            "2 Oak Ave".to_string(),
            price,
            10 * food_id,
        )
        .unwrap();
    }
    fo
}

#[test]
fn point_lookups_return_the_stored_rows() {
    let fo = populated();
    let food = fo.get_food_from_id(2).unwrap();
    assert_eq!(food.food_name, "Soup");
    assert_eq!(food.price, 200);
    let order = fo.get_order_from_id(3).unwrap();
    assert_eq!(order.food_id, 3);
    assert_eq!(order.price, 800);
    assert_eq!(order.timestamp, 30);
    assert_eq!(order.status, OrderStatus::Submitted);
}

#[test]
fn point_lookups_reject_unknown_ids() {
    let fo = populated();
    assert!(fo.get_order_from_id(0).is_err());
    assert!(fo.get_order_from_id(4).is_err());
    assert!(fo.get_food_from_id(4).is_err());
    assert!(fo.get_delivery_from_id(1).is_err());
}

#[test]
fn index_lookups_list_children_in_creation_order() {
    let fo = populated();
    assert_eq!(fo.get_food_from_restaurant(1).unwrap(), vec![1, 2, 3]);
    assert_eq!(fo.get_order_from_restaurant(1).unwrap(), vec![1, 2, 3]);
    assert_eq!(fo.get_order_from_customer(1).unwrap(), vec![1, 2, 3]);
    assert!(fo.get_food_from_restaurant(2).is_err());
    assert!(fo.get_order_from_restaurant(2).is_err());
    assert!(fo.get_order_from_customer(2).is_err());
}

#[test]
fn deliverer_index_stays_empty_under_open_claim() {
    let mut fo = populated();
    fo.confirm_order(RESTAURANT, 1).unwrap();
    let did = fo.dispatch_order(RESTAURANT, 1, 40).unwrap();
    fo.confirm_pickup(DELIVERER, did).unwrap();
    // Pickup is first come, first served: no delivery is ever bound to a
    // deliverer, so the per-deliverer index stays empty.
    assert_eq!(fo.get_delivery_from_deliver(1).unwrap(), Vec::<u64>::new());
    assert!(fo.get_delivery_from_deliver(2).is_err());
    assert_eq!(fo.get_delivery_from_id(did).unwrap().deliver_id, 0);
}

#[test]
fn oversized_ranges_clamp_to_the_allocated_ids() {
    let fo = populated();
    let orders: Vec<Order> = fo.get_order_all(0, 1000);
    assert_eq!(orders.len(), 3);
    assert_eq!(orders[0].food_id, 1);
    assert_eq!(orders[2].food_id, 3);
    let foods: Vec<Food> = fo.get_food_all(0, 1000);
    assert_eq!(foods.len(), 3);
    assert_eq!(foods[0].food_name, "Pasta");
    assert_eq!(foods[2].food_name, "Cake");
    let deliveries: Vec<Delivery> = fo.get_delivery_all(0, 1000);
    assert_eq!(deliveries.len(), 0);
}

#[test]
fn partial_ranges_select_by_id() {
    let fo = populated();
    let orders = fo.get_order_all(2, 3);
    assert_eq!(orders.len(), 1);
    assert_eq!(orders[0].food_id, 2);
    let foods = fo.get_food_all(2, 100);
    assert_eq!(foods.len(), 2);
    assert_eq!(foods[0].food_name, "Soup");
    assert!(fo.get_order_all(3, 2).is_empty());
    assert!(fo.get_order_all(50, 60).is_empty());
}

#[test]
fn dispatch_creates_deliveries_that_ranges_see() {
    let mut fo = populated();
    for order_id in [1, 2] {
        fo.confirm_order(RESTAURANT, order_id).unwrap();
        fo.dispatch_order(RESTAURANT, order_id, 40 + order_id).unwrap();
    }
    let deliveries = fo.get_delivery_all(0, 1000);
    assert_eq!(deliveries.len(), 2);
    assert_eq!(deliveries[0].order_id, 1);
    assert_eq!(deliveries[1].order_id, 2);
}

#[test]
fn cloned_rows_equal_the_stored_rows() {
    let fo = populated();
    let a = fo.get_order_from_id(1).unwrap();
    let b = fo.get_order_from_id(1).unwrap();
    assert_eq!(a, b);
    assert_eq!(a.clone(), b);
    let f = fo.get_food_from_id(1).unwrap();
    assert_eq!(f.clone(), f);
}

#[test]
fn default_rows_are_blank() {
    let c = Customer::default();
    assert_eq!(c.customer_account, 0);
    assert_eq!(c.customer_name, "");
    let o = Order::default();
    assert_eq!(o.status, OrderStatus::Submitted);
    assert_eq!(o.deliver_id, 0);
    let d = Delivery::default();
    assert_eq!(d.order_id, 0);
}
