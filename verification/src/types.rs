//! Core data model of the food-ordering ledger: entity records, status
//! machines, the error kinds, and the single owned store `Data` together with
//! its mathematical model `DataView` and the well-formedness invariant.

use vstd::prelude::*;
use vstd::hash_map::HashMapWithView;

verus! {

broadcast use vstd::std_specs::hash::group_hash_axioms;

/// External account that calls into the ledger (supplied by the host).
pub type AccountId = u64;

/// Milliseconds-style timestamp supplied by the host clock.
pub type Timestamp = u64;

/// Exact payment amount transferred with a call.
pub type Balance = u128;

pub type FoodId = u64;
pub type OrderId = u64;
pub type DeliveryId = u64;
pub type CustomerId = u64;
pub type RestaurantId = u64;
pub type DeliverId = u64;

/// Lifecycle of an order: no transition skips a state, none goes back.
#[derive(Clone, Copy, Debug, PartialEq, Eq, Structural)]
pub enum OrderStatus {
    Submitted,
    Confirmed,
    Dispatched,
    Delivered,
    Accepted,
}

/// Lifecycle of a delivery record; `PickedUp` is terminal here, the rest of
/// the journey is tracked on the order itself.
#[derive(Clone, Copy, Debug, PartialEq, Eq, Structural)]
pub enum DeliveryStatus {
    Waiting,
    PickedUp,
}

/// Every way a call can be rejected; a rejected call leaves the store
/// unchanged.
#[derive(Clone, Copy, Debug, PartialEq, Eq, Structural)]
pub enum FoodOrderError {
    /// A referenced id is unknown.
    NotFound,
    /// The account is already whitelisted under the same role.
    AlreadyRegistered,
    /// The caller lacks the required role.
    Unauthorized,
    /// The caller's role entity does not own the resource.
    NotOwner,
    /// The transferred value differs from the listed price.
    PaymentMismatch,
    /// The operation is not valid for the entity's current status.
    InvalidTransition,
}

/// An order is in its dispatch state or past it; exactly these orders have a
/// companion delivery record.
pub open spec fn dispatched_or_later(s: OrderStatus) -> bool {
    s == OrderStatus::Dispatched || s == OrderStatus::Delivered || s == OrderStatus::Accepted
}

#[derive(Debug, PartialEq, Eq)]
pub struct Customer {
    pub customer_account: AccountId,
    pub customer_name: String,
    pub customer_address: String,
    pub phone_number: String,
}

#[derive(Debug, PartialEq, Eq)]
pub struct Restaurant {
    pub restaurant_account: AccountId,
    pub restaurant_name: String,
    pub restaurant_address: String,
    pub phone_number: String,
}

#[derive(Debug, PartialEq, Eq)]
pub struct Deliver {
    pub deliver_account: AccountId,
    pub deliver_name: String,
    pub deliver_address: String,
    pub phone_number: String,
}

#[derive(Debug, PartialEq, Eq)]
pub struct Food {
    pub food_name: String,
    pub restaurant_id: RestaurantId,
    pub description: String,
    pub price: Balance,
    pub eta: u64,
    pub timestamp: Timestamp,
}

#[derive(Debug, PartialEq, Eq)]
pub struct Order {
    pub food_id: FoodId,
    pub restaurant_id: RestaurantId,
    pub customer_id: CustomerId,
    pub deliver_id: DeliverId,
    pub delivery_address: String,
    pub status: OrderStatus,
    pub timestamp: Timestamp,
    pub price: Balance,
    pub eta: u64,
}

#[derive(Debug, PartialEq, Eq)]
pub struct Delivery {
    pub order_id: OrderId,
    pub restaurant_id: RestaurantId,
    pub customer_id: CustomerId,
    pub deliver_id: DeliverId,
    pub delivery_address: String,
    pub status: DeliveryStatus,
    pub timestamp: Timestamp,
}

impl Clone for Customer {
    fn clone(&self) -> (r: Self)
        ensures
            r == *self,
    {
        Customer {
            customer_account: self.customer_account,
            customer_name: self.customer_name.clone(),
            customer_address: self.customer_address.clone(),
            phone_number: self.phone_number.clone(),
        }
    }
}

impl Clone for Restaurant {
    fn clone(&self) -> (r: Self)
        ensures
            r == *self,
    {
        Restaurant {
            restaurant_account: self.restaurant_account,
            restaurant_name: self.restaurant_name.clone(),
            restaurant_address: self.restaurant_address.clone(),
            phone_number: self.phone_number.clone(),
        }
    }
}

impl Clone for Deliver {
    fn clone(&self) -> (r: Self)
        ensures
            r == *self,
    {
        Deliver {
            deliver_account: self.deliver_account,
            deliver_name: self.deliver_name.clone(),
            deliver_address: self.deliver_address.clone(),
            phone_number: self.phone_number.clone(),
        }
    }
}

impl Clone for Food {
    fn clone(&self) -> (r: Self)
        ensures
            r == *self,
    {
        Food {
            food_name: self.food_name.clone(),
            restaurant_id: self.restaurant_id,
            description: self.description.clone(),
            price: self.price,
            eta: self.eta,
            timestamp: self.timestamp,
        }
    }
}

impl Clone for Order {
    fn clone(&self) -> (r: Self)
        ensures
            r == *self,
    {
        Order {
            food_id: self.food_id,
            restaurant_id: self.restaurant_id,
            customer_id: self.customer_id,
            deliver_id: self.deliver_id,
            delivery_address: self.delivery_address.clone(),
            status: self.status,
            timestamp: self.timestamp,
            price: self.price,
            eta: self.eta,
        }
    }
}

impl Clone for Delivery {
    fn clone(&self) -> (r: Self)
        ensures
            r == *self,
    {
        Delivery {
            order_id: self.order_id,
            restaurant_id: self.restaurant_id,
            customer_id: self.customer_id,
            deliver_id: self.deliver_id,
            delivery_address: self.delivery_address.clone(),
            status: self.status,
            timestamp: self.timestamp,
        }
    }
}

impl Default for Customer {
    /// The empty customer row: the reserved zero account and blank details.
    fn default() -> (d: Customer)
        ensures
            d.customer_account == 0,
            d.customer_name@ == Seq::<char>::empty(),
            d.customer_address@ == Seq::<char>::empty(),
            d.phone_number@ == Seq::<char>::empty(),
    {
        Customer {
            customer_account: 0,
            customer_name: String::new(),
            customer_address: String::new(),
            phone_number: String::new(),
        }
    }
}

impl Default for Restaurant {
    /// The empty restaurant row: the reserved zero account and blank details.
    fn default() -> (d: Restaurant)
        ensures
            d.restaurant_account == 0,
            d.restaurant_name@ == Seq::<char>::empty(),
            d.restaurant_address@ == Seq::<char>::empty(),
            d.phone_number@ == Seq::<char>::empty(),
    {
        Restaurant {
            restaurant_account: 0,
            restaurant_name: String::new(),
            restaurant_address: String::new(),
            phone_number: String::new(),
        }
    }
}

impl Default for Deliver {
    /// The empty deliverer row: the reserved zero account and blank details.
    fn default() -> (d: Deliver)
        ensures
            d.deliver_account == 0,
            d.deliver_name@ == Seq::<char>::empty(),
            d.deliver_address@ == Seq::<char>::empty(),
            d.phone_number@ == Seq::<char>::empty(),
    {
        Deliver {
            deliver_account: 0,
            deliver_name: String::new(),
            deliver_address: String::new(),
            phone_number: String::new(),
        }
    }
}

impl Default for Food {
    /// The empty food row: unowned, free, immediate.
    fn default() -> (d: Food)
        ensures
            d.food_name@ == Seq::<char>::empty(),
            d.restaurant_id == 0,
            d.description@ == Seq::<char>::empty(),
            d.price == 0,
            d.eta == 0,
            d.timestamp == 0,
    {
        Food {
            food_name: String::new(),
            restaurant_id: 0,
            description: String::new(),
            price: 0,
            eta: 0,
            timestamp: 0,
        }
    }
}

impl Default for Order {
    /// The empty order row: nothing referenced yet and status `Submitted`,
    /// the state every order starts in.
    fn default() -> (d: Order)
        ensures
            d.food_id == 0,
            d.restaurant_id == 0,
            d.customer_id == 0,
            d.deliver_id == 0,
            d.delivery_address@ == Seq::<char>::empty(),
            d.status == OrderStatus::Submitted,
            d.timestamp == 0,
            d.price == 0,
            d.eta == 0,
    {
        Order {
            food_id: 0,
            restaurant_id: 0,
            customer_id: 0,
            deliver_id: 0,
            delivery_address: String::new(),
            status: OrderStatus::Submitted,
            timestamp: 0,
            price: 0,
            eta: 0,
        }
    }
}

impl Default for Delivery {
    /// The empty delivery row: nothing referenced yet and status `Waiting`,
    /// the state every delivery starts in.
    fn default() -> (d: Delivery)
        ensures
            d.order_id == 0,
            d.restaurant_id == 0,
            d.customer_id == 0,
            d.deliver_id == 0,
            d.delivery_address@ == Seq::<char>::empty(),
            d.status == DeliveryStatus::Waiting,
            d.timestamp == 0,
    {
        Delivery {
            order_id: 0,
            restaurant_id: 0,
            customer_id: 0,
            deliver_id: 0,
            delivery_address: String::new(),
            status: DeliveryStatus::Waiting,
            timestamp: 0,
        }
    }
}

/// The one owner of all entity storage. Records live in dense vectors, so
/// the entity with id `i` sits at index `i - 1` and the next id to allocate
/// is always `len + 1`: ids start at 1, grow by one, and are never reused.
/// The key set of each account map is the role's whitelist.
pub struct Data {
    pub manager: AccountId,
    pub customers: Vec<Customer>,
    pub restaurants: Vec<Restaurant>,
    pub delivers: Vec<Deliver>,
    pub food_data: Vec<Food>,
    pub order_data: Vec<Order>,
    pub delivery_data: Vec<Delivery>,
    pub restaurant_food_data: Vec<Vec<FoodId>>,
    pub restaurant_order_data: Vec<Vec<OrderId>>,
    pub customer_order_data: Vec<Vec<OrderId>>,
    pub deliver_delivery_data: Vec<Vec<DeliveryId>>,
    pub customer_account_id: HashMapWithView<AccountId, CustomerId>,
    pub restaurant_account_id: HashMapWithView<AccountId, RestaurantId>,
    pub deliver_account_id: HashMapWithView<AccountId, DeliverId>,
}

/// Mathematical model of `Data`: sequences for the dense stores and
/// append-only indices, maps for the per-role account registries.
#[verifier::ext_equal]
pub ghost struct DataView {
    pub manager: AccountId,
    pub customers: Seq<Customer>,
    pub restaurants: Seq<Restaurant>,
    pub delivers: Seq<Deliver>,
    pub food_data: Seq<Food>,
    pub order_data: Seq<Order>,
    pub delivery_data: Seq<Delivery>,
    pub restaurant_food_data: Seq<Seq<FoodId>>,
    pub restaurant_order_data: Seq<Seq<OrderId>>,
    pub customer_order_data: Seq<Seq<OrderId>>,
    pub deliver_delivery_data: Seq<Seq<DeliveryId>>,
    pub customer_account_id: Map<AccountId, CustomerId>,
    pub restaurant_account_id: Map<AccountId, RestaurantId>,
    pub deliver_account_id: Map<AccountId, DeliverId>,
}

/// The model of a vector of id vectors.
pub open spec fn ids_view(s: Seq<Vec<u64>>) -> Seq<Seq<u64>> {
    s.map_values(|v: Vec<u64>| v@)
}

impl View for Data {
    type V = DataView;

    open spec fn view(&self) -> DataView {
        DataView {
            manager: self.manager,
            customers: self.customers@,
            restaurants: self.restaurants@,
            delivers: self.delivers@,
            food_data: self.food_data@,
            order_data: self.order_data@,
            delivery_data: self.delivery_data@,
            restaurant_food_data: ids_view(self.restaurant_food_data@),
            restaurant_order_data: ids_view(self.restaurant_order_data@),
            customer_order_data: ids_view(self.customer_order_data@),
            deliver_delivery_data: ids_view(self.deliver_delivery_data@),
            customer_account_id: self.customer_account_id@,
            restaurant_account_id: self.restaurant_account_id@,
            deliver_account_id: self.deliver_account_id@,
        }
    }
}

impl DataView {
    /// The store with no entities, as a freshly constructed ledger holds it.
    pub open spec fn initial(manager: AccountId) -> DataView {
        DataView {
            manager,
            customers: Seq::empty(),
            restaurants: Seq::empty(),
            delivers: Seq::empty(),
            food_data: Seq::empty(),
            order_data: Seq::empty(),
            delivery_data: Seq::empty(),
            restaurant_food_data: Seq::empty(),
            restaurant_order_data: Seq::empty(),
            customer_order_data: Seq::empty(),
            deliver_delivery_data: Seq::empty(),
            customer_account_id: Map::empty(),
            restaurant_account_id: Map::empty(),
            deliver_account_id: Map::empty(),
        }
    }

    pub open spec fn valid_customer_id(self, id: CustomerId) -> bool {
        1 <= id <= self.customers.len()
    }

    pub open spec fn valid_restaurant_id(self, id: RestaurantId) -> bool {
        1 <= id <= self.restaurants.len()
    }

    pub open spec fn valid_deliver_id(self, id: DeliverId) -> bool {
        1 <= id <= self.delivers.len()
    }

    pub open spec fn valid_food_id(self, id: FoodId) -> bool {
        1 <= id <= self.food_data.len()
    }

    pub open spec fn valid_order_id(self, id: OrderId) -> bool {
        1 <= id <= self.order_data.len()
    }

    pub open spec fn valid_delivery_id(self, id: DeliveryId) -> bool {
        1 <= id <= self.delivery_data.len()
    }

    /// The account is whitelisted as a customer.
    pub open spec fn is_customer(self, a: AccountId) -> bool {
        self.customer_account_id.contains_key(a)
    }

    /// The account is whitelisted as a restaurant.
    pub open spec fn is_restaurant(self, a: AccountId) -> bool {
        self.restaurant_account_id.contains_key(a)
    }

    /// The account is whitelisted as a deliverer.
    pub open spec fn is_deliver(self, a: AccountId) -> bool {
        self.deliver_account_id.contains_key(a)
    }

    pub open spec fn customer_id_of(self, a: AccountId) -> CustomerId {
        self.customer_account_id[a]
    }

    pub open spec fn restaurant_id_of(self, a: AccountId) -> RestaurantId {
        self.restaurant_account_id[a]
    }

    pub open spec fn deliver_id_of(self, a: AccountId) -> DeliverId {
        self.deliver_account_id[a]
    }

    pub open spec fn customer_at(self, id: CustomerId) -> Customer {
        self.customers[id - 1]
    }

    pub open spec fn restaurant_at(self, id: RestaurantId) -> Restaurant {
        self.restaurants[id - 1]
    }

    pub open spec fn deliver_at(self, id: DeliverId) -> Deliver {
        self.delivers[id - 1]
    }

    pub open spec fn food_at(self, id: FoodId) -> Food {
        self.food_data[id - 1]
    }

    pub open spec fn order_at(self, id: OrderId) -> Order {
        self.order_data[id - 1]
    }

    pub open spec fn delivery_at(self, id: DeliveryId) -> Delivery {
        self.delivery_data[id - 1]
    }

    /// Well-formedness of the whole store: established by the constructor and
    /// preserved by every operation.
    pub open spec fn wf(self) -> bool {
        &&& customer_registry_wf(self.customers, self.customer_account_id)
        &&& restaurant_registry_wf(self.restaurants, self.restaurant_account_id)
        &&& deliver_registry_wf(self.delivers, self.deliver_account_id)
        &&& foods_refs_wf(self.food_data, self.restaurants.len() as int)
        &&& orders_refs_wf(
            self.order_data,
            self.food_data.len() as int,
            self.restaurants.len() as int,
            self.customers.len() as int,
        )
        &&& self.restaurant_food_data.len() == self.restaurants.len()
        &&& self.restaurant_order_data.len() == self.restaurants.len()
        &&& self.customer_order_data.len() == self.customers.len()
        &&& self.deliver_delivery_data.len() == self.delivers.len()
        &&& food_index_wf(self.restaurant_food_data, self.food_data)
        &&& restaurant_order_index_wf(self.restaurant_order_data, self.order_data)
        &&& customer_order_index_wf(self.customer_order_data, self.order_data)
        &&& delivery_index_wf(self.deliver_delivery_data, self.delivery_data.len() as int)
        &&& deliveries_wf(self.order_data, self.delivery_data)
    }
}

/// The registry and the store mirror each other: a whitelisted account is
/// assigned the id of an existing row carrying that account, and every
/// stored row's account is whitelisted and assigned that row — one row per
/// registered account, no row without a registration.
pub open spec fn customer_registry_wf(
    customers: Seq<Customer>,
    m: Map<AccountId, CustomerId>,
) -> bool {
    &&& forall|a: AccountId| #[trigger] m.contains_key(a)
        ==> 1 <= m[a] <= customers.len() && customers[m[a] - 1].customer_account == a
    &&& forall|i: int| #![trigger customers[i]] 0 <= i < customers.len()
        ==> m.contains_key(customers[i].customer_account)
            && m[customers[i].customer_account] == i + 1
}

/// As `customer_registry_wf`, for the restaurant role.
pub open spec fn restaurant_registry_wf(
    restaurants: Seq<Restaurant>,
    m: Map<AccountId, RestaurantId>,
) -> bool {
    &&& forall|a: AccountId| #[trigger] m.contains_key(a)
        ==> 1 <= m[a] <= restaurants.len() && restaurants[m[a] - 1].restaurant_account == a
    &&& forall|i: int| #![trigger restaurants[i]] 0 <= i < restaurants.len()
        ==> m.contains_key(restaurants[i].restaurant_account)
            && m[restaurants[i].restaurant_account] == i + 1
}

/// As `customer_registry_wf`, for the deliverer role.
pub open spec fn deliver_registry_wf(
    delivers: Seq<Deliver>,
    m: Map<AccountId, DeliverId>,
) -> bool {
    &&& forall|a: AccountId| #[trigger] m.contains_key(a)
        ==> 1 <= m[a] <= delivers.len() && delivers[m[a] - 1].deliver_account == a
    &&& forall|i: int| #![trigger delivers[i]] 0 <= i < delivers.len()
        ==> m.contains_key(delivers[i].deliver_account)
            && m[delivers[i].deliver_account] == i + 1
}

/// Every food row references an existing restaurant.
pub open spec fn foods_refs_wf(foods: Seq<Food>, n_restaurants: int) -> bool {
    forall|i: int| #![trigger foods[i]] 0 <= i < foods.len()
        ==> 1 <= foods[i].restaurant_id <= n_restaurants
}

/// Every order references existing food, restaurant and customer rows.
pub open spec fn orders_refs_wf(
    orders: Seq<Order>,
    n_foods: int,
    n_restaurants: int,
    n_customers: int,
) -> bool {
    forall|i: int| #![trigger orders[i]] 0 <= i < orders.len()
        ==> 1 <= orders[i].food_id <= n_foods
            && 1 <= orders[i].restaurant_id <= n_restaurants
            && 1 <= orders[i].customer_id <= n_customers
}

/// Every listed food id exists and belongs to the restaurant whose row the
/// list sits under.
pub open spec fn food_index_wf(index: Seq<Seq<FoodId>>, foods: Seq<Food>) -> bool {
    &&& forall|r: int, k: int| #![trigger index[r][k]]
        0 <= r < index.len() && 0 <= k < index[r].len()
        ==> 1 <= index[r][k] <= foods.len() && foods[index[r][k] - 1].restaurant_id == r + 1
    &&& forall|r: int, k1: int, k2: int| #![trigger index[r][k1], index[r][k2]]
        0 <= r < index.len() && 0 <= k1 < k2 < index[r].len()
        ==> index[r][k1] < index[r][k2]
}

/// Every listed order id exists and names the restaurant whose row the list
/// sits under.
pub open spec fn restaurant_order_index_wf(
    index: Seq<Seq<OrderId>>,
    orders: Seq<Order>,
) -> bool {
    &&& forall|r: int, k: int| #![trigger index[r][k]]
        0 <= r < index.len() && 0 <= k < index[r].len()
        ==> 1 <= index[r][k] <= orders.len() && orders[index[r][k] - 1].restaurant_id == r + 1
    &&& forall|r: int, k1: int, k2: int| #![trigger index[r][k1], index[r][k2]]
        0 <= r < index.len() && 0 <= k1 < k2 < index[r].len()
        ==> index[r][k1] < index[r][k2]
}

/// Every listed order id exists and names the customer whose row the list
/// sits under.
pub open spec fn customer_order_index_wf(
    index: Seq<Seq<OrderId>>,
    orders: Seq<Order>,
) -> bool {
    &&& forall|c: int, k: int| #![trigger index[c][k]]
        0 <= c < index.len() && 0 <= k < index[c].len()
        ==> 1 <= index[c][k] <= orders.len() && orders[index[c][k] - 1].customer_id == c + 1
    &&& forall|c: int, k1: int, k2: int| #![trigger index[c][k1], index[c][k2]]
        0 <= c < index.len() && 0 <= k1 < k2 < index[c].len()
        ==> index[c][k1] < index[c][k2]
}

/// Every listed delivery id exists.
pub open spec fn delivery_index_wf(index: Seq<Seq<DeliveryId>>, n_deliveries: int) -> bool {
    forall|d: int, k: int| #![trigger index[d][k]]
        0 <= d < index.len() && 0 <= k < index[d].len()
        ==> 1 <= index[d][k] <= n_deliveries
}

/// A status change an order may undergo while its delivery record (if any)
/// stays as it is: either the order has not been dispatched before or after,
/// or its picked-up delivery is being acknowledged by the customer.
pub open spec fn status_update_ok(before: OrderStatus, after: OrderStatus) -> bool {
    ||| !dispatched_or_later(before) && !dispatched_or_later(after)
    ||| before == OrderStatus::Delivered && after == OrderStatus::Accepted
}

/// Some delivery record references the order with this id (ids count from 1).
/// Kept opaque so that the well-formedness conditions below stay cheap to
/// reason about; the lemmas that follow transfer it across the mutations the
/// operations perform.
#[verifier::opaque]
pub open spec fn has_delivery_for(deliveries: Seq<Delivery>, oid: int) -> bool {
    exists|j: int| 0 <= j < deliveries.len() && #[trigger] deliveries[j].order_id == oid
}

/// A delivery record mirrors its order: it references an existing order and
/// copies its parties and address, its status is in step with the order's
/// status, no two deliveries share an order, and an order has a delivery
/// exactly when it has entered its dispatch state.
pub open spec fn deliveries_wf(orders: Seq<Order>, deliveries: Seq<Delivery>) -> bool {
    &&& forall|j: int| #![trigger deliveries[j]] 0 <= j < deliveries.len()
        ==> delivery_mirrors(orders, deliveries[j])
    &&& forall|j: int, k: int|
        #![trigger deliveries[j], deliveries[k]]
        0 <= j < deliveries.len() && 0 <= k < deliveries.len() && j != k
        ==> deliveries[j].order_id != deliveries[k].order_id
    &&& forall|i: int| #![trigger orders[i]] 0 <= i < orders.len()
        ==> (dispatched_or_later(orders[i].status) <==> has_delivery_for(deliveries, i + 1))
}

/// One delivery record is consistent with the order it references.
pub open spec fn delivery_mirrors(orders: Seq<Order>, d: Delivery) -> bool {
    &&& 1 <= d.order_id <= orders.len()
    &&& d.restaurant_id == orders[d.order_id - 1].restaurant_id
    &&& d.customer_id == orders[d.order_id - 1].customer_id
    &&& d.delivery_address == orders[d.order_id - 1].delivery_address
    &&& (d.status == DeliveryStatus::Waiting
        ==> orders[d.order_id - 1].status == OrderStatus::Dispatched)
    &&& (d.status == DeliveryStatus::PickedUp
        ==> orders[d.order_id - 1].status == OrderStatus::Delivered
            || orders[d.order_id - 1].status == OrderStatus::Accepted)
}

/// Appending a delivery makes `has_delivery_for` hold for exactly one more
/// order id, the one the new record references.
pub proof fn lemma_has_delivery_for_push(deliveries: Seq<Delivery>, d: Delivery, oid: int)
    ensures
        has_delivery_for(deliveries.push(d), oid)
            == (has_delivery_for(deliveries, oid) || d.order_id == oid),
{
    reveal(has_delivery_for);
    let s2 = deliveries.push(d);
    if has_delivery_for(deliveries, oid) {
        let j = choose|j: int| 0 <= j < deliveries.len()
            && #[trigger] deliveries[j].order_id == oid;
        assert(s2[j].order_id == oid);
    }
    if d.order_id == oid {
        assert(s2[deliveries.len() as int].order_id == oid);
    }
    if has_delivery_for(s2, oid) && d.order_id != oid {
        let j = choose|j: int| 0 <= j < s2.len() && #[trigger] s2[j].order_id == oid;
        assert(deliveries[j].order_id == oid);
    }
}

/// Replacing a delivery by one that references the same order leaves
/// `has_delivery_for` as it was, for every order id.
pub proof fn lemma_has_delivery_for_update(
    deliveries: Seq<Delivery>,
    j: int,
    d: Delivery,
    oid: int,
)
    requires
        0 <= j < deliveries.len(),
        d.order_id == deliveries[j].order_id,
    ensures
        has_delivery_for(deliveries.update(j, d), oid) == has_delivery_for(deliveries, oid),
{
    reveal(has_delivery_for);
    let s2 = deliveries.update(j, d);
    if has_delivery_for(deliveries, oid) {
        let k = choose|k: int| 0 <= k < deliveries.len()
            && #[trigger] deliveries[k].order_id == oid;
        assert(s2[k].order_id == oid);
    }
    if has_delivery_for(s2, oid) {
        let k = choose|k: int| 0 <= k < s2.len() && #[trigger] s2[k].order_id == oid;
        assert(deliveries[k].order_id == oid);
    }
}

/// In a well-formed store, no delivery references an order that has not been
/// dispatched.
pub proof fn lemma_no_delivery_when_not_dispatched(
    orders: Seq<Order>,
    deliveries: Seq<Delivery>,
    i: int,
)
    requires
        deliveries_wf(orders, deliveries),
        0 <= i < orders.len(),
        !dispatched_or_later(orders[i].status),
    ensures
        forall|j: int| 0 <= j < deliveries.len()
            ==> #[trigger] deliveries[j].order_id != i + 1,
{
    reveal(has_delivery_for);
    assert(!has_delivery_for(deliveries, i + 1));
}

/// Appending a not-yet-dispatched order leaves the delivery invariant intact.
pub proof fn lemma_deliveries_wf_push_order(orders: Seq<Order>, deliveries: Seq<Delivery>, o: Order)
    requires
        deliveries_wf(orders, deliveries),
        !dispatched_or_later(o.status),
    ensures
        deliveries_wf(orders.push(o), deliveries),
{
    let orders2 = orders.push(o);
    assert forall|j: int| #![trigger deliveries[j]] 0 <= j < deliveries.len()
        implies delivery_mirrors(orders2, deliveries[j]) by {
        assert(delivery_mirrors(orders, deliveries[j]));
        assert(orders2[deliveries[j].order_id - 1] == orders[deliveries[j].order_id - 1]);
    }
    assert forall|i: int| #![trigger orders2[i]] 0 <= i < orders2.len()
        implies (dispatched_or_later(orders2[i].status)
            <==> has_delivery_for(deliveries, i + 1)) by {
        if i < orders.len() {
            assert(orders2[i] == orders[i]);
        } else {
            assert(orders2[i] == o);
            reveal(has_delivery_for);
            if has_delivery_for(deliveries, i + 1) {
                let j = choose|j: int| 0 <= j < deliveries.len()
                    && #[trigger] deliveries[j].order_id == i + 1;
                assert(delivery_mirrors(orders, deliveries[j]));
            }
        }
    }
}

/// Changing one order's status in a way that `status_update_ok` allows,
/// while keeping its parties and address, leaves the delivery invariant
/// intact.
pub proof fn lemma_deliveries_wf_update_status(
    orders: Seq<Order>,
    deliveries: Seq<Delivery>,
    i: int,
    o: Order,
)
    requires
        deliveries_wf(orders, deliveries),
        0 <= i < orders.len(),
        o.restaurant_id == orders[i].restaurant_id,
        o.customer_id == orders[i].customer_id,
        o.delivery_address == orders[i].delivery_address,
        status_update_ok(orders[i].status, o.status),
    ensures
        deliveries_wf(orders.update(i, o), deliveries),
{
    let orders2 = orders.update(i, o);
    if !dispatched_or_later(orders[i].status) {
        lemma_no_delivery_when_not_dispatched(orders, deliveries, i);
    }
    assert forall|j: int| #![trigger deliveries[j]] 0 <= j < deliveries.len()
        implies delivery_mirrors(orders2, deliveries[j]) by {
        let d = deliveries[j];
        assert(delivery_mirrors(orders, d));
        if d.order_id - 1 == i {
            assert(dispatched_or_later(orders[i].status)) by {
                reveal(has_delivery_for);
                assert(deliveries[j].order_id == i + 1);
            }
            assert(orders[i].status == OrderStatus::Delivered
                && o.status == OrderStatus::Accepted);
            assert(d.status != DeliveryStatus::Waiting);
            assert(orders2[i] == o);
        } else {
            assert(orders2[d.order_id - 1] == orders[d.order_id - 1]);
        }
    }
    assert forall|i2: int| #![trigger orders2[i2]] 0 <= i2 < orders2.len()
        implies (dispatched_or_later(orders2[i2].status)
            <==> has_delivery_for(deliveries, i2 + 1)) by {
        if i2 == i {
            assert(dispatched_or_later(o.status) == dispatched_or_later(orders[i].status));
        } else {
            assert(orders2[i2] == orders[i2]);
        }
    }
}

/// Dispatching order `i`: its status moves to `Dispatched` and a fresh
/// waiting delivery that mirrors it is appended; the invariant is intact.
pub proof fn lemma_deliveries_wf_dispatch(
    orders: Seq<Order>,
    deliveries: Seq<Delivery>,
    i: int,
    o: Order,
    d: Delivery,
)
    requires
        deliveries_wf(orders, deliveries),
        0 <= i < orders.len(),
        orders[i].status == OrderStatus::Confirmed,
        o.status == OrderStatus::Dispatched,
        o.restaurant_id == orders[i].restaurant_id,
        o.customer_id == orders[i].customer_id,
        o.delivery_address == orders[i].delivery_address,
        d.order_id == i + 1,
        d.status == DeliveryStatus::Waiting,
        d.restaurant_id == orders[i].restaurant_id,
        d.customer_id == orders[i].customer_id,
        d.delivery_address == orders[i].delivery_address,
    ensures
        deliveries_wf(orders.update(i, o), deliveries.push(d)),
{
    let orders2 = orders.update(i, o);
    let deliveries2 = deliveries.push(d);
    lemma_no_delivery_when_not_dispatched(orders, deliveries, i);
    assert forall|j: int| #![trigger deliveries2[j]] 0 <= j < deliveries2.len()
        implies delivery_mirrors(orders2, deliveries2[j]) by {
        if j < deliveries.len() {
            assert(deliveries2[j] == deliveries[j]);
            assert(delivery_mirrors(orders, deliveries[j]));
            assert(deliveries[j].order_id != i + 1);
            assert(orders2[deliveries[j].order_id - 1] == orders[deliveries[j].order_id - 1]);
        } else {
            assert(deliveries2[j] == d);
            assert(orders2[i] == o);
        }
    }
    assert forall|j: int, k: int|
        #![trigger deliveries2[j], deliveries2[k]]
        0 <= j < deliveries2.len() && 0 <= k < deliveries2.len() && j != k
        implies deliveries2[j].order_id != deliveries2[k].order_id by {
        if j < deliveries.len() && k < deliveries.len() {
            assert(deliveries2[j] == deliveries[j] && deliveries2[k] == deliveries[k]);
        } else if j < deliveries.len() {
            assert(deliveries2[k] == d && deliveries2[j] == deliveries[j]);
        } else {
            assert(deliveries2[j] == d && deliveries2[k] == deliveries[k]);
        }
    }
    assert forall|i2: int| #![trigger orders2[i2]] 0 <= i2 < orders2.len()
        implies (dispatched_or_later(orders2[i2].status)
            <==> has_delivery_for(deliveries2, i2 + 1)) by {
        lemma_has_delivery_for_push(deliveries, d, i2 + 1);
        if i2 == i {
            assert(orders2[i2] == o);
        } else {
            assert(orders2[i2] == orders[i2]);
        }
    }
}

/// A deliverer picks a waiting delivery up: the delivery moves to `PickedUp`
/// and its order to `Delivered`; the invariant is intact.
pub proof fn lemma_deliveries_wf_pickup(
    orders: Seq<Order>,
    deliveries: Seq<Delivery>,
    j: int,
    d: Delivery,
    o: Order,
)
    requires
        deliveries_wf(orders, deliveries),
        0 <= j < deliveries.len(),
        deliveries[j].status == DeliveryStatus::Waiting,
        d == (Delivery { status: DeliveryStatus::PickedUp, ..deliveries[j] }),
        o == (Order { status: OrderStatus::Delivered, ..orders[deliveries[j].order_id - 1] }),
    ensures
        deliveries_wf(orders.update(deliveries[j].order_id - 1, o), deliveries.update(j, d)),
{
    let i = deliveries[j].order_id - 1;
    let orders2 = orders.update(i, o);
    let deliveries2 = deliveries.update(j, d);
    assert(delivery_mirrors(orders, deliveries[j]));
    assert forall|k: int| #![trigger deliveries2[k]] 0 <= k < deliveries2.len()
        implies delivery_mirrors(orders2, deliveries2[k]) by {
        if k == j {
            assert(deliveries2[k] == d);
            assert(orders2[i] == o);
        } else {
            assert(deliveries2[k] == deliveries[k]);
            assert(delivery_mirrors(orders, deliveries[k]));
            assert(deliveries[k].order_id != deliveries[j].order_id);
            assert(orders2[deliveries[k].order_id - 1] == orders[deliveries[k].order_id - 1]);
        }
    }
    assert forall|i2: int| #![trigger orders2[i2]] 0 <= i2 < orders2.len()
        implies (dispatched_or_later(orders2[i2].status)
            <==> has_delivery_for(deliveries2, i2 + 1)) by {
        lemma_has_delivery_for_update(deliveries, j, d, i2 + 1);
        if i2 == i {
            assert(orders2[i2] == o);
            assert(dispatched_or_later(orders[i].status));
        } else {
            assert(orders2[i2] == orders[i2]);
        }
    }
}

} // verus!
