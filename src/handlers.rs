use vstd::prelude::*;

verus! {

/// The status that the health check reports.
pub open spec fn healthy_status() -> Seq<char> {
    "healthy"@
}

/// The greeting that the simple endpoint returns.
pub open spec fn greeting() -> Seq<char> {
    "Hello, World!"@
}

/// The status of every processed item.
pub open spec fn processed_status() -> Seq<char> {
    "processed"@
}

/// An item posted for processing. The price type is left to the caller.
#[derive(Clone, Debug)]
pub struct Item<P> {
    pub name: String,
    pub price: P,
    pub quantity: i32,
}

/// The reply to a processed item.
#[derive(Clone, Debug)]
pub struct Response<P> {
    pub item_name: String,
    pub total_price: P,
    pub status: String,
}

/// The reply of the health check.
#[derive(Clone, Debug, PartialEq, Eq)]
pub struct Health {
    pub status: String,
}

/// The reply of the simple endpoint.
#[derive(Clone, Debug, PartialEq, Eq)]
pub struct SimpleResponse {
    pub message: String,
}

/// Reports that the service is up. Takes no input, so every call gives the same reply.
pub fn health_check() -> (r: Health)
    ensures
        r.status@ == healthy_status(),
{
    Health { status: "healthy".to_string() }
}

/// Returns the fixed greeting. Takes no input, so every call gives the same reply.
pub fn simple_endpoint() -> (r: SimpleResponse)
    ensures
        r.message@ == greeting(),
{
    SimpleResponse { message: "Hello, World!".to_string() }
}

/// Replies to GET requests do not vary: any two replies of the health check
/// hold the same status, and any two replies of the simple endpoint hold the
/// same message, whatever came before each call.
pub proof fn lemma_get_replies_repeat(h1: Health, h2: Health, s1: SimpleResponse, s2: SimpleResponse)
    requires
        h1.status@ == healthy_status(),
        h2.status@ == healthy_status(),
        s1.message@ == greeting(),
        s2.message@ == greeting(),
    ensures
        h1.status@ == h2.status@,
        s1.message@ == s2.message@,
{
}

/// Processes a posted item: the reply carries the item's name, the total that
/// `line_total` gives for its price and quantity, and the status "processed".
/// Nothing about the price or the quantity is checked: zero and negative
/// values are handed to `line_total` as they come.
pub fn complex_endpoint<P, F: Fn(P, i32) -> P>(item: Item<P>, line_total: F) -> (r: Response<P>)
    requires
        line_total.requires((item.price, item.quantity)),
    ensures
        r.item_name@ == item.name@,
        line_total.ensures((item.price, item.quantity), r.total_price),
        r.status@ == processed_status(),
{
    let Item { name, price, quantity } = item;
    let total_price = line_total(price, quantity);
    Response { item_name: name, total_price, status: "processed".to_string() }
}

}
