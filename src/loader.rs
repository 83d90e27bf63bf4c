//! Decoding an order from a JSON document, field by field.
use crate::json::{as_elements, as_integer, parse_document, as_text, member, member_of, parsed_tree, tree_of, JsonTree};
use crate::model::{Delivery, DeliveryView, Item, ItemView, Order, OrderView, Payment, PaymentView};
use vstd::prelude::*;

verus! {

broadcast use vstd::string::to_string_from_display_ensures_for_str;

/// Why an order could not be loaded.
#[derive(Debug, Clone, Copy, PartialEq, Eq, Structural)]
pub enum LoadError {
    /// The document could not be read.
    IO,
    /// The document is no JSON, or does not match the order schema.
    Parse,
    /// The database could not be reached, or refused the credentials.
    Connection,
    /// The database lacks the expected rows or columns.
    Query,
}

/// The string under `key`, if the member exists and is a string.
pub open spec fn text_member(t: JsonTree, key: Seq<char>) -> Option<Seq<char>> {
    match member_of(t, key) {
        Some(JsonTree::Str(s)) => Some(s),
        _ => None,
    }
}

/// The integer under `key`, if the member exists and is an integer in `i32` range.
pub open spec fn i32_member(t: JsonTree, key: Seq<char>) -> Option<i32> {
    match member_of(t, key) {
        Some(JsonTree::Int(i)) => if i32::MIN <= i <= i32::MAX {
            Some(i as i32)
        } else {
            None
        },
        _ => None,
    }
}

/// The integer under `key`, if the member exists and is an integer in `i64` range.
pub open spec fn i64_member(t: JsonTree, key: Seq<char>) -> Option<i64> {
    match member_of(t, key) {
        Some(JsonTree::Int(i)) => if i64::MIN <= i <= i64::MAX {
            Some(i as i64)
        } else {
            None
        },
        _ => None,
    }
}

/// The delivery that an object describes, if every field is there with its type.
pub open spec fn delivery_of(t: JsonTree) -> Option<DeliveryView> {
    if {
        &&& text_member(t, "name"@) is Some
        &&& text_member(t, "phone"@) is Some
        &&& text_member(t, "zip"@) is Some
        &&& text_member(t, "city"@) is Some
        &&& text_member(t, "address"@) is Some
        &&& text_member(t, "region"@) is Some
        &&& text_member(t, "email"@) is Some
    } {
        Some(
            DeliveryView {
                name: text_member(t, "name"@)->0,
                phone: text_member(t, "phone"@)->0,
                zip: text_member(t, "zip"@)->0,
                city: text_member(t, "city"@)->0,
                address: text_member(t, "address"@)->0,
                region: text_member(t, "region"@)->0,
                email: text_member(t, "email"@)->0,
            },
        )
    } else {
        None
    }
}

/// The payment that an object describes, if every field is there with its type.
pub open spec fn payment_of(t: JsonTree) -> Option<PaymentView> {
    if {
        &&& text_member(t, "transaction"@) is Some
        &&& text_member(t, "request_id"@) is Some
        &&& text_member(t, "currency"@) is Some
        &&& text_member(t, "provider"@) is Some
        &&& i32_member(t, "amount"@) is Some
        &&& i64_member(t, "payment_dt"@) is Some
        &&& text_member(t, "bank"@) is Some
        &&& i32_member(t, "delivery_cost"@) is Some
        &&& i32_member(t, "goods_total"@) is Some
        &&& i32_member(t, "custom_fee"@) is Some
    } {
        Some(
            PaymentView {
                transaction: text_member(t, "transaction"@)->0,
                request_id: text_member(t, "request_id"@)->0,
                currency: text_member(t, "currency"@)->0,
                provider: text_member(t, "provider"@)->0,
                amount: i32_member(t, "amount"@)->0,
                payment_dt: i64_member(t, "payment_dt"@)->0,
                bank: text_member(t, "bank"@)->0,
                delivery_cost: i32_member(t, "delivery_cost"@)->0,
                goods_total: i32_member(t, "goods_total"@)->0,
                custom_fee: i32_member(t, "custom_fee"@)->0,
            },
        )
    } else {
        None
    }
}

/// The item that an object describes, if every field is there with its type.
pub open spec fn item_of(t: JsonTree) -> Option<ItemView> {
    if {
        &&& i32_member(t, "chrt_id"@) is Some
        &&& text_member(t, "track_number"@) is Some
        &&& i32_member(t, "price"@) is Some
        &&& text_member(t, "rid"@) is Some
        &&& text_member(t, "name"@) is Some
        &&& i32_member(t, "sale"@) is Some
        &&& text_member(t, "size"@) is Some
        &&& i32_member(t, "total_price"@) is Some
        &&& i32_member(t, "nm_id"@) is Some
        &&& text_member(t, "brand"@) is Some
        &&& i32_member(t, "status"@) is Some
    } {
        Some(
            ItemView {
                chrt_id: i32_member(t, "chrt_id"@)->0,
                track_number: text_member(t, "track_number"@)->0,
                price: i32_member(t, "price"@)->0,
                rid: text_member(t, "rid"@)->0,
                name: text_member(t, "name"@)->0,
                sale: i32_member(t, "sale"@)->0,
                size: text_member(t, "size"@)->0,
                total_price: i32_member(t, "total_price"@)->0,
                nm_id: i32_member(t, "nm_id"@)->0,
                brand: text_member(t, "brand"@)->0,
                status: i32_member(t, "status"@)->0,
            },
        )
    } else {
        None
    }
}

/// The items of an array whose every element is an item.
pub open spec fn items_of(t: JsonTree) -> Option<Seq<ItemView>> {
    match t {
        JsonTree::Array(s) => if forall|i: int| 0 <= i < s.len() ==> #[trigger] item_of(s[i]) is Some {
            Some(s.map_values(|e: JsonTree| item_of(e)->0))
        } else {
            None
        },
        _ => None,
    }
}

/// Decodes the member under `key` with `f`, `None` where it is missing.
pub open spec fn nested<A>(t: JsonTree, key: Seq<char>, f: spec_fn(JsonTree) -> Option<A>) -> Option<A> {
    match member_of(t, key) {
        Some(m) => f(m),
        None => None,
    }
}

/// The order that a JSON tree describes: an object with every field of the
/// schema present and of the right type. Members outside the schema are ignored.
pub open spec fn order_of(t: JsonTree) -> Option<OrderView> {
    let delivery = nested(t, "delivery"@, |m: JsonTree| delivery_of(m));
    let payment = nested(t, "payment"@, |m: JsonTree| payment_of(m));
    let items = nested(t, "items"@, |m: JsonTree| items_of(m));
    if {
        &&& text_member(t, "order_uid"@) is Some
        &&& text_member(t, "track_number"@) is Some
        &&& text_member(t, "entry"@) is Some
        &&& delivery is Some
        &&& payment is Some
        &&& items is Some
        &&& text_member(t, "locale"@) is Some
        &&& text_member(t, "internal_signature"@) is Some
        &&& text_member(t, "customer_id"@) is Some
        &&& text_member(t, "delivery_service"@) is Some
        &&& text_member(t, "shardkey"@) is Some
        &&& i32_member(t, "sm_id"@) is Some
        &&& text_member(t, "date_created"@) is Some
        &&& text_member(t, "oof_shard"@) is Some
    } {
        Some(
            OrderView {
                order_uid: text_member(t, "order_uid"@)->0,
                track_number: text_member(t, "track_number"@)->0,
                entry: text_member(t, "entry"@)->0,
                delivery: delivery->0,
                payment: payment->0,
                items: items->0,
                locale: text_member(t, "locale"@)->0,
                internal_signature: text_member(t, "internal_signature"@)->0,
                customer_id: text_member(t, "customer_id"@)->0,
                delivery_service: text_member(t, "delivery_service"@)->0,
                shardkey: text_member(t, "shardkey"@)->0,
                sm_id: i32_member(t, "sm_id"@)->0,
                date_created: text_member(t, "date_created"@)->0,
                oof_shard: text_member(t, "oof_shard"@)->0,
            },
        )
    } else {
        None
    }
}

/// The order that a JSON text describes, `None` where the text is no JSON
/// document or does not match the schema.
pub open spec fn document_order(text: Seq<char>) -> Option<OrderView> {
    match parsed_tree(text) {
        Some(t) => order_of(t),
        None => None,
    }
}

fn read_text(v: &serde_json::Value, key: &str) -> (r: Result<String, LoadError>)
    ensures
        match text_member(tree_of(*v), key@) {
            Some(s) => r matches Ok(x) && x@ == s,
            None => r == Err::<String, LoadError>(LoadError::Parse),
        },
{
    match member(v, key) {
        Some(m) => match as_text(m) {
            Some(s) => Ok(s.to_string()),
            None => Err(LoadError::Parse),
        },
        None => Err(LoadError::Parse),
    }
}

fn read_i64(v: &serde_json::Value, key: &str) -> (r: Result<i64, LoadError>)
    ensures
        match i64_member(tree_of(*v), key@) {
            Some(n) => r == Ok::<i64, LoadError>(n),
            None => r == Err::<i64, LoadError>(LoadError::Parse),
        },
{
    match member(v, key) {
        Some(m) => match as_integer(m) {
            Some(n) => Ok(n),
            None => Err(LoadError::Parse),
        },
        None => Err(LoadError::Parse),
    }
}

fn read_i32(v: &serde_json::Value, key: &str) -> (r: Result<i32, LoadError>)
    ensures
        match i32_member(tree_of(*v), key@) {
            Some(n) => r == Ok::<i32, LoadError>(n),
            None => r == Err::<i32, LoadError>(LoadError::Parse),
        },
{
    match member(v, key) {
        Some(m) => match as_integer(m) {
            Some(n) => if i32::MIN as i64 <= n && n <= i32::MAX as i64 {
                Ok(n as i32)
            } else {
                Err(LoadError::Parse)
            },
            None => Err(LoadError::Parse),
        },
        None => Err(LoadError::Parse),
    }
}

/// Decodes the delivery details held by a JSON value.
pub fn decode_delivery(v: &serde_json::Value) -> (r: Result<Delivery, LoadError>)
    ensures
        match delivery_of(tree_of(*v)) {
            Some(d) => r matches Ok(x) && x@ == d,
            None => r == Err::<Delivery, LoadError>(LoadError::Parse),
        },
{
    let name = read_text(v, "name")?;
    let phone = read_text(v, "phone")?;
    let zip = read_text(v, "zip")?;
    let city = read_text(v, "city")?;
    let address = read_text(v, "address")?;
    let region = read_text(v, "region")?;
    let email = read_text(v, "email")?;
    Ok(Delivery { name, phone, zip, city, address, region, email })
}

/// Decodes the payment details held by a JSON value.
pub fn decode_payment(v: &serde_json::Value) -> (r: Result<Payment, LoadError>)
    ensures
        match payment_of(tree_of(*v)) {
            Some(p) => r matches Ok(x) && x@ == p,
            None => r == Err::<Payment, LoadError>(LoadError::Parse),
        },
{
    let transaction = read_text(v, "transaction")?;
    let request_id = read_text(v, "request_id")?;
    let currency = read_text(v, "currency")?;
    let provider = read_text(v, "provider")?;
    let amount = read_i32(v, "amount")?;
    let payment_dt = read_i64(v, "payment_dt")?;
    let bank = read_text(v, "bank")?;
    let delivery_cost = read_i32(v, "delivery_cost")?;
    let goods_total = read_i32(v, "goods_total")?;
    let custom_fee = read_i32(v, "custom_fee")?;
    Ok(
        Payment {
            transaction,
            request_id,
            currency,
            provider,
            amount,
            payment_dt,
            bank,
            delivery_cost,
            goods_total,
            custom_fee,
        },
    )
}

/// Decodes one item held by a JSON value.
pub fn decode_item(v: &serde_json::Value) -> (r: Result<Item, LoadError>)
    ensures
        match item_of(tree_of(*v)) {
            Some(i) => r matches Ok(x) && x@ == i,
            None => r == Err::<Item, LoadError>(LoadError::Parse),
        },
{
    let chrt_id = read_i32(v, "chrt_id")?;
    let track_number = read_text(v, "track_number")?;
    let price = read_i32(v, "price")?;
    let rid = read_text(v, "rid")?;
    let name = read_text(v, "name")?;
    let sale = read_i32(v, "sale")?;
    let size = read_text(v, "size")?;
    let total_price = read_i32(v, "total_price")?;
    let nm_id = read_i32(v, "nm_id")?;
    let brand = read_text(v, "brand")?;
    let status = read_i32(v, "status")?;
    Ok(
        Item {
            chrt_id,
            track_number,
            price,
            rid,
            name,
            sale,
            size,
            total_price,
            nm_id,
            brand,
            status,
        },
    )
}

/// Decodes an array of items, keeping their order.
pub fn decode_items(v: &serde_json::Value) -> (r: Result<Vec<Item>, LoadError>)
    ensures
        match items_of(tree_of(*v)) {
            Some(s) => r matches Ok(x) && x@.map_values(|i: Item| i@) == s,
            None => r == Err::<Vec<Item>, LoadError>(LoadError::Parse),
        },
{
    let elements = match as_elements(v) {
        Some(e) => e,
        None => return Err(LoadError::Parse),
    };
    let ghost s = match tree_of(*v) {
        JsonTree::Array(s) => s,
        _ => Seq::empty(),
    };
    let mut out: Vec<Item> = Vec::new();
    let mut k: usize = 0;
    while k < elements.len()
        invariant
            tree_of(*v) == JsonTree::Array(s),
            elements@.len() == s.len(),
            forall|i: int| 0 <= i < s.len() ==> tree_of(#[trigger] elements@[i]) == s[i],
            k <= s.len(),
            out@.len() == k,
            forall|j: int| 0 <= j < k ==> #[trigger] item_of(s[j]) == Some(out@[j]@),
        decreases s.len() - k,
    {
        match decode_item(&elements[k]) {
            Ok(item) => out.push(item),
            Err(e) => {
                assert(item_of(s[k as int]) is None);
                return Err(e);
            },
        }
        k = k + 1;
    }
    assert(out@.map_values(|i: Item| i@) =~= s.map_values(|e: JsonTree| item_of(e)->0));
    Ok(out)
}

/// Decodes the order held by a JSON value.
pub fn decode_order(v: &serde_json::Value) -> (r: Result<Order, LoadError>)
    ensures
        match order_of(tree_of(*v)) {
            Some(o) => r matches Ok(x) && x@ == o,
            None => r == Err::<Order, LoadError>(LoadError::Parse),
        },
{
    let order_uid = read_text(v, "order_uid")?;
    let track_number = read_text(v, "track_number")?;
    let entry = read_text(v, "entry")?;
    let delivery = match member(v, "delivery") {
        Some(m) => decode_delivery(m)?,
        None => return Err(LoadError::Parse),
    };
    let payment = match member(v, "payment") {
        Some(m) => decode_payment(m)?,
        None => return Err(LoadError::Parse),
    };
    let items = match member(v, "items") {
        Some(m) => decode_items(m)?,
        None => return Err(LoadError::Parse),
    };
    let locale = read_text(v, "locale")?;
    let internal_signature = read_text(v, "internal_signature")?;
    let customer_id = read_text(v, "customer_id")?;
    let delivery_service = read_text(v, "delivery_service")?;
    let shardkey = read_text(v, "shardkey")?;
    let sm_id = read_i32(v, "sm_id")?;
    let date_created = read_text(v, "date_created")?;
    let oof_shard = read_text(v, "oof_shard")?;
    Ok(
        Order {
            order_uid,
            track_number,
            entry,
            delivery,
            payment,
            items,
            locale,
            internal_signature,
            customer_id,
            delivery_service,
            shardkey,
            sm_id,
            date_created,
            oof_shard,
        },
    )
}

/// Parses a JSON text and decodes the order it describes. Any text that is no
/// JSON document, or that misses a field or holds one of the wrong type, is a
/// `Parse` error.
pub fn parse_order(text: &str) -> (r: Result<Order, LoadError>)
    ensures
        match document_order(text@) {
            Some(o) => r matches Ok(x) && x@ == o,
            None => r == Err::<Order, LoadError>(LoadError::Parse),
        },
{
    match parse_document(text) {
        Ok(v) => decode_order(&v),
        Err(_) => Err(LoadError::Parse),
    }
}

/// The JSON tree that the schema gives to a delivery.
pub open spec fn delivery_tree(d: DeliveryView) -> JsonTree {
    JsonTree::Object(
        map![
            "name"@ => JsonTree::Str(d.name),
            "phone"@ => JsonTree::Str(d.phone),
            "zip"@ => JsonTree::Str(d.zip),
            "city"@ => JsonTree::Str(d.city),
            "address"@ => JsonTree::Str(d.address),
            "region"@ => JsonTree::Str(d.region),
            "email"@ => JsonTree::Str(d.email),
        ],
    )
}

/// The JSON tree that the schema gives to a payment.
pub open spec fn payment_tree(p: PaymentView) -> JsonTree {
    JsonTree::Object(
        map![
            "transaction"@ => JsonTree::Str(p.transaction),
            "request_id"@ => JsonTree::Str(p.request_id),
            "currency"@ => JsonTree::Str(p.currency),
            "provider"@ => JsonTree::Str(p.provider),
            "amount"@ => JsonTree::Int(p.amount as int),
            "payment_dt"@ => JsonTree::Int(p.payment_dt as int),
            "bank"@ => JsonTree::Str(p.bank),
            "delivery_cost"@ => JsonTree::Int(p.delivery_cost as int),
            "goods_total"@ => JsonTree::Int(p.goods_total as int),
            "custom_fee"@ => JsonTree::Int(p.custom_fee as int),
        ],
    )
}

/// The JSON tree that the schema gives to an item.
pub open spec fn item_tree(i: ItemView) -> JsonTree {
    JsonTree::Object(
        map![
            "chrt_id"@ => JsonTree::Int(i.chrt_id as int),
            "track_number"@ => JsonTree::Str(i.track_number),
            "price"@ => JsonTree::Int(i.price as int),
            "rid"@ => JsonTree::Str(i.rid),
            "name"@ => JsonTree::Str(i.name),
            "sale"@ => JsonTree::Int(i.sale as int),
            "size"@ => JsonTree::Str(i.size),
            "total_price"@ => JsonTree::Int(i.total_price as int),
            "nm_id"@ => JsonTree::Int(i.nm_id as int),
            "brand"@ => JsonTree::Str(i.brand),
            "status"@ => JsonTree::Int(i.status as int),
        ],
    )
}

/// The JSON tree that the schema gives to an order.
pub open spec fn order_tree(o: OrderView) -> JsonTree {
    JsonTree::Object(
        map![
            "order_uid"@ => JsonTree::Str(o.order_uid),
            "track_number"@ => JsonTree::Str(o.track_number),
            "entry"@ => JsonTree::Str(o.entry),
            "delivery"@ => delivery_tree(o.delivery),
            "payment"@ => payment_tree(o.payment),
            "items"@ => JsonTree::Array(o.items.map_values(|i: ItemView| item_tree(i))),
            "locale"@ => JsonTree::Str(o.locale),
            "internal_signature"@ => JsonTree::Str(o.internal_signature),
            "customer_id"@ => JsonTree::Str(o.customer_id),
            "delivery_service"@ => JsonTree::Str(o.delivery_service),
            "shardkey"@ => JsonTree::Str(o.shardkey),
            "sm_id"@ => JsonTree::Int(o.sm_id as int),
            "date_created"@ => JsonTree::Str(o.date_created),
            "oof_shard"@ => JsonTree::Str(o.oof_shard),
        ],
    )
}

proof fn lemma_delivery_round_trip(d: DeliveryView)
    ensures
        delivery_of(delivery_tree(d)) == Some(d),
{
    reveal_strlit("name");
    reveal_strlit("phone");
    reveal_strlit("zip");
    reveal_strlit("city");
    reveal_strlit("address");
    reveal_strlit("region");
    reveal_strlit("email");
    assert("name"@.len() == 4 && "name"@[0] == 'n' && "name"@[1] == 'a');
    assert("phone"@.len() == 5 && "phone"@[0] == 'p' && "phone"@[1] == 'h');
    assert("zip"@.len() == 3 && "zip"@[0] == 'z' && "zip"@[1] == 'i');
    assert("city"@.len() == 4 && "city"@[0] == 'c' && "city"@[1] == 'i');
    assert("address"@.len() == 7 && "address"@[0] == 'a' && "address"@[1] == 'd');
    assert("region"@.len() == 6 && "region"@[0] == 'r' && "region"@[1] == 'e');
    assert("email"@.len() == 5 && "email"@[0] == 'e' && "email"@[1] == 'm');
}

proof fn lemma_payment_round_trip(p: PaymentView)
    ensures
        payment_of(payment_tree(p)) == Some(p),
{
    reveal_strlit("transaction");
    reveal_strlit("request_id");
    reveal_strlit("currency");
    reveal_strlit("provider");
    reveal_strlit("amount");
    reveal_strlit("payment_dt");
    reveal_strlit("bank");
    reveal_strlit("delivery_cost");
    reveal_strlit("goods_total");
    reveal_strlit("custom_fee");
    assert("transaction"@.len() == 11 && "transaction"@[0] == 't' && "transaction"@[1] == 'r');
    assert("request_id"@.len() == 10 && "request_id"@[0] == 'r' && "request_id"@[1] == 'e');
    assert("currency"@.len() == 8 && "currency"@[0] == 'c' && "currency"@[1] == 'u');
    assert("provider"@.len() == 8 && "provider"@[0] == 'p' && "provider"@[1] == 'r');
    assert("amount"@.len() == 6 && "amount"@[0] == 'a' && "amount"@[1] == 'm');
    assert("payment_dt"@.len() == 10 && "payment_dt"@[0] == 'p' && "payment_dt"@[1] == 'a');
    assert("bank"@.len() == 4 && "bank"@[0] == 'b' && "bank"@[1] == 'a');
    assert("delivery_cost"@.len() == 13 && "delivery_cost"@[0] == 'd' && "delivery_cost"@[1] == 'e');
    assert("goods_total"@.len() == 11 && "goods_total"@[0] == 'g' && "goods_total"@[1] == 'o');
    assert("custom_fee"@.len() == 10 && "custom_fee"@[0] == 'c' && "custom_fee"@[1] == 'u');
}

proof fn lemma_item_round_trip(i: ItemView)
    ensures
        item_of(item_tree(i)) == Some(i),
{
    reveal_strlit("chrt_id");
    reveal_strlit("track_number");
    reveal_strlit("price");
    reveal_strlit("rid");
    reveal_strlit("name");
    reveal_strlit("sale");
    reveal_strlit("size");
    reveal_strlit("total_price");
    reveal_strlit("nm_id");
    reveal_strlit("brand");
    reveal_strlit("status");
    assert("chrt_id"@.len() == 7 && "chrt_id"@[0] == 'c' && "chrt_id"@[1] == 'h');
    assert("track_number"@.len() == 12 && "track_number"@[0] == 't' && "track_number"@[1] == 'r');
    assert("price"@.len() == 5 && "price"@[0] == 'p' && "price"@[1] == 'r');
    assert("rid"@.len() == 3 && "rid"@[0] == 'r' && "rid"@[1] == 'i');
    assert("name"@.len() == 4 && "name"@[0] == 'n' && "name"@[1] == 'a');
    assert("sale"@.len() == 4 && "sale"@[0] == 's' && "sale"@[1] == 'a');
    assert("size"@.len() == 4 && "size"@[0] == 's' && "size"@[1] == 'i');
    assert("total_price"@.len() == 11 && "total_price"@[0] == 't' && "total_price"@[1] == 'o');
    assert("nm_id"@.len() == 5 && "nm_id"@[0] == 'n' && "nm_id"@[1] == 'm');
    assert("brand"@.len() == 5 && "brand"@[0] == 'b' && "brand"@[1] == 'r');
    assert("status"@.len() == 6 && "status"@[0] == 's' && "status"@[1] == 't');
}

/// Writing an order as the JSON tree of the schema and decoding that tree
/// gives the same order back.
pub proof fn lemma_document_round_trip(o: OrderView)
    ensures
        order_of(order_tree(o)) == Some(o),
{
    lemma_delivery_round_trip(o.delivery);
    lemma_payment_round_trip(o.payment);
    let s = o.items.map_values(|i: ItemView| item_tree(i));
    assert forall|k: int| 0 <= k < s.len() implies #[trigger] item_of(s[k]) == Some(o.items[k]) by {
        lemma_item_round_trip(o.items[k]);
    }
    assert(s.map_values(|e: JsonTree| item_of(e)->0) =~= o.items);
    reveal_strlit("order_uid");
    reveal_strlit("track_number");
    reveal_strlit("entry");
    reveal_strlit("delivery");
    reveal_strlit("payment");
    reveal_strlit("items");
    reveal_strlit("locale");
    reveal_strlit("internal_signature");
    reveal_strlit("customer_id");
    reveal_strlit("delivery_service");
    reveal_strlit("shardkey");
    reveal_strlit("sm_id");
    reveal_strlit("date_created");
    reveal_strlit("oof_shard");
    assert("order_uid"@.len() == 9 && "order_uid"@[0] == 'o' && "order_uid"@[1] == 'r');
    assert("track_number"@.len() == 12 && "track_number"@[0] == 't' && "track_number"@[1] == 'r');
    assert("entry"@.len() == 5 && "entry"@[0] == 'e' && "entry"@[1] == 'n');
    assert("delivery"@.len() == 8 && "delivery"@[0] == 'd' && "delivery"@[1] == 'e');
    assert("payment"@.len() == 7 && "payment"@[0] == 'p' && "payment"@[1] == 'a');
    assert("items"@.len() == 5 && "items"@[0] == 'i' && "items"@[1] == 't');
    assert("locale"@.len() == 6 && "locale"@[0] == 'l' && "locale"@[1] == 'o');
    assert("internal_signature"@.len() == 18 && "internal_signature"@[0] == 'i' && "internal_signature"@[1] == 'n');
    assert("customer_id"@.len() == 11 && "customer_id"@[0] == 'c' && "customer_id"@[1] == 'u');
    assert("delivery_service"@.len() == 16 && "delivery_service"@[0] == 'd' && "delivery_service"@[1] == 'e');
    assert("shardkey"@.len() == 8 && "shardkey"@[0] == 's' && "shardkey"@[1] == 'h');
    assert("sm_id"@.len() == 5 && "sm_id"@[0] == 's' && "sm_id"@[1] == 'm');
    assert("date_created"@.len() == 12 && "date_created"@[0] == 'd' && "date_created"@[1] == 'a');
    assert("oof_shard"@.len() == 9 && "oof_shard"@[0] == 'o' && "oof_shard"@[1] == 'o');
}

/// The top-level members of an order that hold text.
pub open spec fn order_text_keys() -> Set<Seq<char>> {
    set![
        "order_uid"@,
        "track_number"@,
        "entry"@,
        "locale"@,
        "internal_signature"@,
        "customer_id"@,
        "delivery_service"@,
        "shardkey"@,
        "date_created"@,
        "oof_shard"@,
    ]
}

/// A tree in which a top-level text member of the schema is missing, or holds
/// something other than a string, describes no order.
pub proof fn lemma_text_member_required(t: JsonTree, key: Seq<char>)
    requires
        order_text_keys().contains(key),
        text_member(t, key) is None,
    ensures
        order_of(t) is None,
{
}

/// A tree whose `sm_id` is missing, no integer, or out of `i32` range
/// describes no order.
pub proof fn lemma_integer_member_required(t: JsonTree)
    requires
        i32_member(t, "sm_id"@) is None,
    ensures
        order_of(t) is None,
{
}

/// A tree whose `delivery`, `payment` or `items` member is missing, or does
/// not match its part of the schema, describes no order.
pub proof fn lemma_nested_member_required(t: JsonTree)
    requires
        member_of(t, "delivery"@) is None || delivery_of(member_of(t, "delivery"@)->0) is None
            || member_of(t, "payment"@) is None || payment_of(member_of(t, "payment"@)->0) is None
            || member_of(t, "items"@) is None || items_of(member_of(t, "items"@)->0) is None,
    ensures
        order_of(t) is None,
{
}

/// An item array with one element that is no item, say with a field missing,
/// describes no item sequence.
pub proof fn lemma_item_required(s: Seq<JsonTree>, k: int)
    requires
        0 <= k < s.len(),
        item_of(s[k]) is None,
    ensures
        items_of(JsonTree::Array(s)) is None,
{
}

} // verus!
