//! The HTML page of an order. Every text field is escaped; numbers are written
//! in decimal.
use crate::model::{Delivery, DeliveryView, Item, ItemView, Order, OrderView, Payment, PaymentView};
use vstd::prelude::*;
use vstd::string::{StrSliceExecFns, StringExecFns};

verus! {

/// What stands in the page for one character of a text field: the five
/// characters that HTML gives a meaning to become entities.
pub open spec fn escaped_char(c: char) -> Seq<char> {
    if c == '<' {
        "&lt;"@
    } else if c == '>' {
        "&gt;"@
    } else if c == '&' {
        "&amp;"@
    } else if c == '"' {
        "&quot;"@
    } else if c == '\'' {
        "&#x27;"@
    } else {
        seq![c]
    }
}

/// A text with every character escaped.
pub open spec fn escaped(s: Seq<char>) -> Seq<char>
    decreases s.len(),
{
    if s.len() == 0 {
        Seq::empty()
    } else {
        escaped(s.drop_last()) + escaped_char(s.last())
    }
}

/// Whether a character would open or close markup or an attribute value.
pub open spec fn is_markup_char(c: char) -> bool {
    c == '<' || c == '>' || c == '"' || c == '\''
}

/// Escapes a text for use in HTML.
pub fn escape_html(s: &str) -> (r: String)
    ensures
        r@ == escaped(s@),
{
    let n = s.unicode_len();
    let mut out = String::new();
    let mut i: usize = 0;
    while i < n
        invariant
            n == s@.len(),
            i <= n,
            out@ == escaped(s@.subrange(0, i as int)),
        decreases n - i,
    {
        let c = s.get_char(i);
        if c == '<' {
            out.append("&lt;");
        } else if c == '>' {
            out.append("&gt;");
        } else if c == '&' {
            out.append("&amp;");
        } else if c == '"' {
            out.append("&quot;");
        } else if c == '\'' {
            out.append("&#x27;");
        } else {
            let one = s.substring_char(i, i + 1);
            assert(one@ =~= seq![c]);
            out.append(one);
        }
        assert(s@.subrange(0, i + 1).drop_last() =~= s@.subrange(0, i as int));
        i = i + 1;
    }
    assert(s@.subrange(0, n as int) =~= s@);
    out
}

/// An escaped text holds no character that opens or closes markup or an
/// attribute value, whatever the text was.
pub proof fn lemma_escaped_has_no_markup(s: Seq<char>)
    ensures
        forall|i: int| 0 <= i < escaped(s).len() ==> !is_markup_char(#[trigger] escaped(s)[i]),
    decreases s.len(),
{
    if s.len() > 0 {
        lemma_escaped_has_no_markup(s.drop_last());
        reveal_strlit("&lt;");
        reveal_strlit("&gt;");
        reveal_strlit("&amp;");
        reveal_strlit("&quot;");
        reveal_strlit("&#x27;");
        let head = escaped(s.drop_last());
        let tail = escaped_char(s.last());
        assert(tail.len() == 1 ==> tail[0] == s.last());
        assert forall|i: int| 0 <= i < escaped(s).len() implies !is_markup_char(
            #[trigger] escaped(s)[i],
        ) by {
            if i < head.len() {
                assert(escaped(s)[i] == head[i]);
            } else {
                assert(escaped(s)[i] == tail[i - head.len()]);
            }
        }
    }
}

/// The decimal digit `d`.
pub open spec fn digit_char(d: nat) -> char {
    if d == 0 {
        '0'
    } else if d == 1 {
        '1'
    } else if d == 2 {
        '2'
    } else if d == 3 {
        '3'
    } else if d == 4 {
        '4'
    } else if d == 5 {
        '5'
    } else if d == 6 {
        '6'
    } else if d == 7 {
        '7'
    } else if d == 8 {
        '8'
    } else {
        '9'
    }
}

/// The decimal digits of `n`, without leading zeros.
pub open spec fn digits(n: nat) -> Seq<char>
    decreases n,
{
    if n < 10 {
        seq![digit_char(n)]
    } else {
        digits(n / 10) + seq![digit_char(n % 10)]
    }
}

/// `n` in decimal, with a minus sign when it is negative.
pub open spec fn decimal(n: int) -> Seq<char> {
    if n < 0 {
        seq!['-'] + digits((-n) as nat)
    } else {
        digits(n as nat)
    }
}

/// Relies on `ToString` for `i64` (its `Display`): the decimal form, with a
/// minus sign for a negative number and no leading zeros.
#[verifier::external_body]
fn decimal_text(n: i64) -> (r: String)
    ensures
        r@ == decimal(n as int),
{
    n.to_string()
}

/// One row of a two-column table.
pub open spec fn row(label: Seq<char>, value: Seq<char>) -> Seq<char> {
    "<tr><th>"@ + label + "</th><td>"@ + value + "</td></tr>\n"@
}

/// A row whose value is a text field, escaped.
pub open spec fn text_row(label: Seq<char>, value: Seq<char>) -> Seq<char> {
    row(label, escaped(value))
}

/// A row whose value is a number, in decimal.
pub open spec fn number_row(label: Seq<char>, value: int) -> Seq<char> {
    row(label, decimal(value))
}

/// One cell of an item row.
pub open spec fn cell(value: Seq<char>) -> Seq<char> {
    "<td>"@ + value + "</td>"@
}

/// The rows of the order's own fields.
pub open spec fn order_rows(o: OrderView) -> Seq<char> {
    text_row("order_uid"@, o.order_uid)
        + text_row("track_number"@, o.track_number)
        + text_row("entry"@, o.entry)
        + text_row("locale"@, o.locale)
        + text_row("internal_signature"@, o.internal_signature)
        + text_row("customer_id"@, o.customer_id)
        + text_row("delivery_service"@, o.delivery_service)
        + text_row("shardkey"@, o.shardkey)
        + number_row("sm_id"@, o.sm_id as int)
        + text_row("date_created"@, o.date_created)
        + text_row("oof_shard"@, o.oof_shard)
}

/// The rows of the delivery fields.
pub open spec fn delivery_rows(d: DeliveryView) -> Seq<char> {
    text_row("name"@, d.name)
        + text_row("phone"@, d.phone)
        + text_row("zip"@, d.zip)
        + text_row("city"@, d.city)
        + text_row("address"@, d.address)
        + text_row("region"@, d.region)
        + text_row("email"@, d.email)
}

/// The rows of the payment fields.
pub open spec fn payment_rows(p: PaymentView) -> Seq<char> {
    text_row("transaction"@, p.transaction)
        + text_row("request_id"@, p.request_id)
        + text_row("currency"@, p.currency)
        + text_row("provider"@, p.provider)
        + number_row("amount"@, p.amount as int)
        + number_row("payment_dt"@, p.payment_dt as int)
        + text_row("bank"@, p.bank)
        + number_row("delivery_cost"@, p.delivery_cost as int)
        + number_row("goods_total"@, p.goods_total as int)
        + number_row("custom_fee"@, p.custom_fee as int)
}

/// The table row of one item.
pub open spec fn item_row(i: ItemView) -> Seq<char> {
    "<tr>"@ + cell(decimal(i.chrt_id as int))
        + cell(escaped(i.track_number))
        + cell(decimal(i.price as int))
        + cell(escaped(i.rid))
        + cell(escaped(i.name))
        + cell(decimal(i.sale as int))
        + cell(escaped(i.size))
        + cell(decimal(i.total_price as int))
        + cell(decimal(i.nm_id as int))
        + cell(escaped(i.brand))
        + cell(decimal(i.status as int)) + "</tr>\n"@
}

/// The table rows of the items, in order.
pub open spec fn item_rows(s: Seq<ItemView>) -> Seq<char>
    decreases s.len(),
{
    if s.len() == 0 {
        Seq::empty()
    } else {
        item_rows(s.drop_last()) + item_row(s.last())
    }
}

/// The HTML page of an order.
pub open spec fn page(o: OrderView) -> Seq<char> {
    PAGE_START@ + escaped(o.order_uid) + ORDER_START@ + order_rows(o) + DELIVERY_START@
        + delivery_rows(o.delivery) + PAYMENT_START@ + payment_rows(o.payment) + ITEMS_START@
        + item_rows(o.items) + PAGE_END@
}

/// The fixed markup of the page, in the order in which it appears.
pub const PAGE_START: &'static str = "<!DOCTYPE html>\n<html>\n<head>\n<meta charset=\"utf-8\">\n<title>Order ";

pub const ORDER_START: &'static str = "</title>\n</head>\n<body>\n<h1>Order</h1>\n<table>\n";

pub const DELIVERY_START: &'static str = "</table>\n<h2>Delivery</h2>\n<table>\n";

pub const PAYMENT_START: &'static str = "</table>\n<h2>Payment</h2>\n<table>\n";

pub const ITEMS_START: &'static str = "</table>\n<h2>Items</h2>\n<table>\n<tr><th>chrt_id</th><th>track_number</th><th>price</th><th>rid</th><th>name</th><th>sale</th><th>size</th><th>total_price</th><th>nm_id</th><th>brand</th><th>status</th></tr>\n";

pub const PAGE_END: &'static str = "</table>\n</body>\n</html>\n";

fn push_row(out: &mut String, label: &str, value: &str)
    ensures
        final(out)@ == old(out)@ + row(label@, value@),
{
    out.append("<tr><th>");
    out.append(label);
    out.append("</th><td>");
    out.append(value);
    out.append("</td></tr>\n");
    assert(final(out)@ =~= old(out)@ + row(label@, value@));
}

fn push_text_row(out: &mut String, label: &str, value: &str)
    ensures
        final(out)@ == old(out)@ + text_row(label@, value@),
{
    let e = escape_html(value);
    push_row(out, label, e.as_str());
}

fn push_number_row(out: &mut String, label: &str, value: i64)
    ensures
        final(out)@ == old(out)@ + number_row(label@, value as int),
{
    let d = decimal_text(value);
    push_row(out, label, d.as_str());
}

fn push_cell(out: &mut String, value: &str)
    ensures
        final(out)@ == old(out)@ + cell(value@),
{
    out.append("<td>");
    out.append(value);
    out.append("</td>");
    assert(final(out)@ =~= old(out)@ + cell(value@));
}

fn push_order_rows(out: &mut String, o: &Order)
    ensures
        final(out)@ == old(out)@ + order_rows(o@),
{
    push_text_row(out, "order_uid", &o.order_uid);
    push_text_row(out, "track_number", &o.track_number);
    push_text_row(out, "entry", &o.entry);
    push_text_row(out, "locale", &o.locale);
    push_text_row(out, "internal_signature", &o.internal_signature);
    push_text_row(out, "customer_id", &o.customer_id);
    push_text_row(out, "delivery_service", &o.delivery_service);
    push_text_row(out, "shardkey", &o.shardkey);
    push_number_row(out, "sm_id", o.sm_id as i64);
    push_text_row(out, "date_created", &o.date_created);
    push_text_row(out, "oof_shard", &o.oof_shard);
    assert(final(out)@ =~= old(out)@ + order_rows(o@));
}

fn push_delivery_rows(out: &mut String, d: &Delivery)
    ensures
        final(out)@ == old(out)@ + delivery_rows(d@),
{
    push_text_row(out, "name", &d.name);
    push_text_row(out, "phone", &d.phone);
    push_text_row(out, "zip", &d.zip);
    push_text_row(out, "city", &d.city);
    push_text_row(out, "address", &d.address);
    push_text_row(out, "region", &d.region);
    push_text_row(out, "email", &d.email);
    assert(final(out)@ =~= old(out)@ + delivery_rows(d@));
}

fn push_payment_rows(out: &mut String, p: &Payment)
    ensures
        final(out)@ == old(out)@ + payment_rows(p@),
{
    push_text_row(out, "transaction", &p.transaction);
    push_text_row(out, "request_id", &p.request_id);
    push_text_row(out, "currency", &p.currency);
    push_text_row(out, "provider", &p.provider);
    push_number_row(out, "amount", p.amount as i64);
    push_number_row(out, "payment_dt", p.payment_dt as i64);
    push_text_row(out, "bank", &p.bank);
    push_number_row(out, "delivery_cost", p.delivery_cost as i64);
    push_number_row(out, "goods_total", p.goods_total as i64);
    push_number_row(out, "custom_fee", p.custom_fee as i64);
    assert(final(out)@ =~= old(out)@ + payment_rows(p@));
}

fn push_item_row(out: &mut String, i: &Item)
    ensures
        final(out)@ == old(out)@ + item_row(i@),
{
    out.append("<tr>");
    let d = decimal_text(i.chrt_id as i64);
    push_cell(out, d.as_str());
    let e = escape_html(&i.track_number);
    push_cell(out, e.as_str());
    let d = decimal_text(i.price as i64);
    push_cell(out, d.as_str());
    let e = escape_html(&i.rid);
    push_cell(out, e.as_str());
    let e = escape_html(&i.name);
    push_cell(out, e.as_str());
    let d = decimal_text(i.sale as i64);
    push_cell(out, d.as_str());
    let e = escape_html(&i.size);
    push_cell(out, e.as_str());
    let d = decimal_text(i.total_price as i64);
    push_cell(out, d.as_str());
    let d = decimal_text(i.nm_id as i64);
    push_cell(out, d.as_str());
    let e = escape_html(&i.brand);
    push_cell(out, e.as_str());
    let d = decimal_text(i.status as i64);
    push_cell(out, d.as_str());
    out.append("</tr>\n");
    assert(final(out)@ =~= old(out)@ + item_row(i@));
}

fn push_item_rows(out: &mut String, items: &Vec<Item>)
    ensures
        final(out)@ == old(out)@ + item_rows(items@.map_values(|i: Item| i@)),
{
    let ghost views = items@.map_values(|i: Item| i@);
    let mut k: usize = 0;
    while k < items.len()
        invariant
            views == items@.map_values(|i: Item| i@),
            k <= items@.len(),
            out@ == old(out)@ + item_rows(views.subrange(0, k as int)),
        decreases items@.len() - k,
    {
        push_item_row(out, &items[k]);
        assert(views.subrange(0, k + 1).drop_last() =~= views.subrange(0, k as int));
        k = k + 1;
    }
    assert(views.subrange(0, k as int) =~= views);
}

/// Why a page could not be rendered.
#[derive(Debug, Clone, Copy, PartialEq, Eq, Structural)]
pub enum RenderError {
    /// The page template could not be used.
    Template,
}

/// The HTML page of an order, with every text field escaped. The page is
/// built from the order alone and always renders.
pub fn render(order: &Order) -> (r: Result<String, RenderError>)
    ensures
        r matches Ok(p) && p@ == page(order@),
{
    let mut out = String::new();
    out.append(PAGE_START);
    let uid = escape_html(&order.order_uid);
    out.append(uid.as_str());
    out.append(ORDER_START);
    push_order_rows(&mut out, order);
    out.append(DELIVERY_START);
    push_delivery_rows(&mut out, &order.delivery);
    out.append(PAYMENT_START);
    push_payment_rows(&mut out, &order.payment);
    out.append(ITEMS_START);
    push_item_rows(&mut out, &order.items);
    out.append(PAGE_END);
    assert(out@ =~= page(order@));
    Ok(out)
}

} // verus!
