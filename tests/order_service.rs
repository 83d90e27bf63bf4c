use order_service::loader::{decode_order, parse_order, LoadError};
use order_service::model::Order;
use order_service::render::{escape_html, render};
use order_service::store::{handle, SharedStore, FALLBACK_PAGE};

const SAMPLE: &str = r#"{
  "order_uid": "b563feb7b2b84b6test",
  "track_number": "WBILMTESTTRACK",
  "entry": "WBIL",
  "delivery": {
    "name": "Test Testov",
    "phone": "+9720000000",
    "zip": "2639809",
    "city": "Kiryat Mozkin",
    "address": "Ploshad Mira 15",
    "region": "Kraiot",
    "email": "test@gmail.com"
  },
  "payment": {
    "transaction": "b563feb7b2b84b6test",
    "request_id": "",
    "currency": "USD",
    "provider": "wbpay",
    "amount": 1817,
    "payment_dt": 1637907727,
    "bank": "alpha",
    "delivery_cost": 1500,
    "goods_total": 317,
    "custom_fee": 0
  },
  "items": [
    {
      "chrt_id": 9934930,
      "track_number": "WBILMTESTTRACK",
      "price": 453,
      "rid": "ab4219087a764ae0btest",
      "name": "Mascaras",
      "sale": 30,
      "size": "0",
      "total_price": 317,
      "nm_id": 2389212,
      "brand": "Vivienne Sabo",
      "status": 202
    }
  ],
  "locale": "en",
  "internal_signature": "",
  "customer_id": "test",
  "delivery_service": "meest",
  "shardkey": "9",
  "sm_id": 99,
  "date_created": "2021-11-26T06:22:19Z",
  "oof_shard": "1"
}"#;

fn sample_order() -> Order {
    match parse_order(SAMPLE) {
        Ok(o) => o,
        Err(e) => panic!("sample did not load: {:?}", e),
    }
}

fn is_parse_error(text: &str) -> bool {
    matches!(parse_order(text), Err(LoadError::Parse))
}

#[test]
fn sample_document_decodes_every_field() {
    let o = sample_order();
    assert_eq!(o.order_uid, "b563feb7b2b84b6test");
    assert_eq!(o.track_number, "WBILMTESTTRACK");
    assert_eq!(o.entry, "WBIL");
    assert_eq!(o.delivery.name, "Test Testov");
    assert_eq!(o.delivery.email, "test@gmail.com");
    assert_eq!(o.payment.amount, 1817);
    assert_eq!(o.payment.payment_dt, 1637907727);
    assert_eq!(o.payment.request_id, "");
    assert_eq!(o.payment.delivery_cost, 1500);
    assert_eq!(o.items.len(), 1);
    assert_eq!(o.items[0].price, 453);
    assert_eq!(o.items[0].total_price, 317);
    assert_eq!(o.items[0].size, "0");
    assert_eq!(o.items[0].status, 202);
    assert_eq!(o.sm_id, 99);
    assert_eq!(o.oof_shard, "1");
}

#[test]
fn decode_order_reads_a_parsed_value() {
    let v: serde_json::Value = serde_json::from_str(SAMPLE).unwrap();
    let o = decode_order(&v).unwrap();
    assert_eq!(o.customer_id, "test");
    assert_eq!(o.items[0].brand, "Vivienne Sabo");
}

#[test]
fn empty_item_list_is_accepted() {
    let text = SAMPLE.replace(
        &SAMPLE[SAMPLE.find("\"items\"").unwrap()..SAMPLE.find("\"locale\"").unwrap()],
        "\"items\": [],\n  ",
    );
    let o = parse_order(&text).unwrap();
    assert_eq!(o.items.len(), 0);
}

#[test]
fn members_outside_the_schema_are_ignored() {
    let text = SAMPLE.replace("\"entry\": \"WBIL\",", "\"entry\": \"WBIL\", \"extra\": [1, 2],");
    assert_eq!(parse_order(&text).unwrap().entry, "WBIL");
}

#[test]
fn missing_top_level_field_is_a_parse_error() {
    assert!(is_parse_error(&SAMPLE.replace("\"sm_id\": 99,", "")));
    assert!(is_parse_error(&SAMPLE.replace("\"locale\": \"en\",", "")));
}

#[test]
fn missing_nested_field_is_a_parse_error() {
    assert!(is_parse_error(&SAMPLE.replace("\"zip\": \"2639809\",", "")));
    assert!(is_parse_error(&SAMPLE.replace("\"bank\": \"alpha\",", "")));
    assert!(is_parse_error(&SAMPLE.replace("\"sale\": 30,", "")));
}

#[test]
fn wrong_field_type_is_a_parse_error() {
    assert!(is_parse_error(&SAMPLE.replace("\"sm_id\": 99", "\"sm_id\": \"99\"")));
    assert!(is_parse_error(&SAMPLE.replace("\"shardkey\": \"9\"", "\"shardkey\": 9")));
    assert!(is_parse_error(&SAMPLE.replace("\"price\": 453", "\"price\": 453.5")));
    assert!(is_parse_error(&SAMPLE.replace("\"entry\": \"WBIL\"", "\"entry\": null")));
}

#[test]
fn integer_out_of_range_is_a_parse_error() {
    assert!(is_parse_error(&SAMPLE.replace("\"amount\": 1817", "\"amount\": 2147483648")));
    assert!(!is_parse_error(&SAMPLE.replace("\"amount\": 1817", "\"amount\": 2147483647")));
    assert!(!is_parse_error(&SAMPLE.replace("\"payment_dt\": 1637907727", "\"payment_dt\": 2147483648")));
}

#[test]
fn truncated_or_foreign_text_is_a_parse_error() {
    assert!(is_parse_error(&SAMPLE[..SAMPLE.len() / 2]));
    assert!(is_parse_error(""));
    assert!(is_parse_error("[1, 2, 3]"));
    assert!(is_parse_error("\"order\""));
}

#[test]
fn malformed_document_makes_no_store() {
    assert!(matches!(SharedStore::load("{"), Err(LoadError::Parse)));
    assert!(matches!(SharedStore::load(&SAMPLE.replace("\"sm_id\": 99,", "")), Err(LoadError::Parse)));
}

#[test]
fn load_then_read_returns_the_document() {
    let store = SharedStore::load(SAMPLE).unwrap();
    let o = store.read();
    assert_eq!(o.order_uid, "b563feb7b2b84b6test");
    assert_eq!(o.items[0].rid, "ab4219087a764ae0btest");
    assert_eq!(o.payment.goods_total, 317);
}

#[test]
fn repeated_reads_return_the_same_snapshot() {
    let store = SharedStore::new(sample_order());
    let first = store.read();
    for _ in 0..100 {
        let again = store.read();
        assert_eq!(format!("{:?}", again), format!("{:?}", first));
    }
}

#[test]
fn replace_installs_the_whole_new_order() {
    let store = SharedStore::new(sample_order());
    let mut next = sample_order();
    next.order_uid = "second".to_string();
    next.items.clear();
    next.payment.amount = 5;
    store.replace(next);
    let seen = store.read();
    assert_eq!(seen.order_uid, "second");
    assert_eq!(seen.items.len(), 0);
    assert_eq!(seen.payment.amount, 5);
}

#[test]
fn escape_html_replaces_markup_characters() {
    assert_eq!(escape_html("<script>"), "&lt;script&gt;");
    assert_eq!(escape_html("a & b"), "a &amp; b");
    assert_eq!(escape_html("\"x\" 'y'"), "&quot;x&quot; &#x27;y&#x27;");
    assert_eq!(escape_html("plain"), "plain");
    assert_eq!(escape_html(""), "");
    assert_eq!(escape_html("<&>"), "&lt;&amp;&gt;");
}

#[test]
fn rendered_page_escapes_text_fields() {
    let mut o = sample_order();
    o.delivery.name = "<script>alert(1)</script>".to_string();
    o.items[0].brand = "A&B".to_string();
    let page = render(&o).unwrap();
    assert!(!page.contains("<script>"));
    assert!(page.contains("&lt;script&gt;alert(1)&lt;/script&gt;"));
    assert!(page.contains("<td>A&amp;B</td>"));
}

#[test]
fn rendered_page_writes_numbers_in_decimal() {
    let mut o = sample_order();
    o.payment.payment_dt = -42;
    let page = render(&o).unwrap();
    assert!(page.contains("<tr><th>payment_dt</th><td>-42</td></tr>"));
    assert!(page.contains("<td>453</td>"));
    assert!(page.contains("<td>317</td>"));
    assert!(page.contains("<tr><th>sm_id</th><td>99</td></tr>"));
}

#[test]
fn rendered_page_has_title_and_sections() {
    let page = render(&sample_order()).unwrap();
    assert!(page.starts_with("<!DOCTYPE html>"));
    assert!(page.contains("<title>Order b563feb7b2b84b6test</title>"));
    assert!(page.contains("<h2>Delivery</h2>"));
    assert!(page.contains("<h2>Payment</h2>"));
    assert!(page.contains("<h2>Items</h2>"));
    assert!(page.ends_with("</html>\n"));
}

#[test]
fn end_to_end_sample_page_holds_uid_and_track_number() {
    let store = SharedStore::load(SAMPLE).unwrap();
    let body = handle(&store);
    assert!(body.contains("b563feb7b2b84b6test"));
    assert!(body.contains("WBILMTESTTRACK"));
    assert_ne!(body, FALLBACK_PAGE);
}

#[test]
fn fallback_page_text() {
    assert_eq!(FALLBACK_PAGE, "Error rendering template");
}
