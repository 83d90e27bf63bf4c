//! The shared store: one order behind a reader/writer lock.
use crate::json::parsed_tree;
use crate::loader::{document_order, lemma_document_round_trip, order_tree, parse_order, LoadError};
use crate::model::{Order, OrderView};
use crate::render::{page, render};
use vstd::prelude::*;
use vstd::rwlock::{RwLock, RwLockPredicate};
use vstd::string::StringExecFns;

verus! {

/// The orders that a store may ever hold, fixed when it is made.
pub struct AllowedOrders {
    pub orders: Set<OrderView>,
}

impl RwLockPredicate<Order> for AllowedOrders {
    open spec fn inv(self, v: Order) -> bool {
        self.orders.contains(v@)
    }
}

/// One order, shared by any number of readers and replaced whole by writers.
/// Readers do not wait for one another; a writer excludes readers and other
/// writers while it installs a new order.
pub struct SharedStore {
    lock: RwLock<Order, AllowedOrders>,
}

impl SharedStore {
    /// The orders that this store may hold: every read returns one of them.
    pub closed spec fn allowed(&self) -> Set<OrderView> {
        self.lock.pred().orders
    }

    /// A store holding `initial`, that any order may later replace.
    pub fn new(initial: Order) -> (s: SharedStore)
        ensures
            s.allowed() == Set::<OrderView>::full(),
    {
        SharedStore { lock: RwLock::new(initial, Ghost(AllowedOrders { orders: Set::full() })) }
    }

    /// A store holding `initial`, that only orders of `allowed` may replace.
    pub fn with_allowed(initial: Order, Ghost(allowed): Ghost<Set<OrderView>>) -> (s: SharedStore)
        requires
            allowed.contains(initial@),
        ensures
            s.allowed() == allowed,
    {
        SharedStore { lock: RwLock::new(initial, Ghost(AllowedOrders { orders: allowed })) }
    }

    /// Loads the order that a JSON document describes into a new store that
    /// holds that order alone. A text that is no JSON document, or does not
    /// match the order schema, is a `Parse` error and no store is made.
    pub fn load(text: &str) -> (r: Result<SharedStore, LoadError>)
        ensures
            match document_order(text@) {
                Some(o) => r matches Ok(s) && s.allowed() == set![o],
                None => r matches Err(LoadError::Parse),
            },
    {
        let order = parse_order(text)?;
        let ghost allowed = set![order@];
        Ok(SharedStore::with_allowed(order, Ghost(allowed)))
    }

    /// A snapshot of the order held now: a copy of one whole order that the
    /// store was given, never a mix of two.
    pub fn read(&self) -> (r: Order)
        ensures
            self.allowed().contains(r@),
    {
        let handle = self.lock.acquire_read();
        let snapshot = handle.borrow().snapshot();
        handle.release_read();
        snapshot
    }

    /// Installs `new` as the whole order, excluding every reader and writer
    /// until it is in place.
    pub fn replace(&self, new: Order)
        requires
            self.allowed().contains(new@),
    {
        let (_previous, handle) = self.lock.acquire_write();
        handle.release_write(new);
    }
}

/// The body served when a page cannot be rendered.
pub const FALLBACK_PAGE: &'static str = "Error rendering template";

/// Serves one request: reads a snapshot of the order and renders its page.
/// Where rendering fails the fixed fallback body is served instead.
pub fn handle(store: &SharedStore) -> (body: String)
    ensures
        exists|o: OrderView| store.allowed().contains(o) && body@ == page(o),
{
    let snapshot = store.read();
    match render(&snapshot) {
        Ok(p) => p,
        Err(_) => String::from_str(FALLBACK_PAGE),
    }
}

/// A store loaded from a document that describes an order, read at any time,
/// returns exactly that order.
pub proof fn lemma_load_then_read(text: Seq<char>, o: OrderView, store: &SharedStore, seen: OrderView)
    requires
        parsed_tree(text) == Some(order_tree(o)),
        store.allowed() == set![document_order(text)->0],
        store.allowed().contains(seen),
    ensures
        seen == o,
{
    lemma_document_round_trip(o);
}

/// Reads of a store that only ever holds one order all return that order, so
/// any two snapshots, however their reads interleave, are equal.
pub proof fn lemma_reads_agree(store: &SharedStore, o: OrderView, first: OrderView, second: OrderView)
    requires
        store.allowed() == set![o],
        store.allowed().contains(first),
        store.allowed().contains(second),
    ensures
        first == o,
        second == o,
        first == second,
{
}

/// A read that overlaps a replacement of `before` by `after` sees one of the
/// two orders whole, never a mix of their fields.
pub proof fn lemma_read_sees_whole_order(
    store: &SharedStore,
    before: OrderView,
    after: OrderView,
    seen: OrderView,
)
    requires
        store.allowed() == set![before, after],
        store.allowed().contains(seen),
    ensures
        seen == before || seen == after,
{
}

} // verus!
