//! The HTTP requests that the tool sends: the filtered listing of orders in
//! the content API, and the deletion of one order in either service.

use vstd::prelude::*;
use crate::config::{ShopifyConfig, StrapiConfig};
use crate::decimal::{push_signed, signed_digits};

verus! {

/// The number of orders asked for in each listing request.
pub const PAGE_SIZE: i32 = 10;

#[derive(Debug, Clone, Copy, PartialEq, Eq, Structural)]
pub enum Method {
    Get,
    Delete,
}

#[derive(Debug, Clone)]
pub struct Header {
    pub name: String,
    pub value: String,
}

/// A request to send: its method, its full URL and its headers, in order.
#[derive(Debug, Clone)]
pub struct HttpRequest {
    pub method: Method,
    pub url: String,
    pub headers: Vec<Header>,
}

pub ghost struct RequestView {
    pub method: Method,
    pub url: Seq<char>,
    pub headers: Seq<(Seq<char>, Seq<char>)>,
}

pub open spec fn header_view(h: Header) -> (Seq<char>, Seq<char>) {
    (h.name@, h.value@)
}

impl View for HttpRequest {
    type V = RequestView;

    open spec fn view(&self) -> RequestView {
        RequestView {
            method: self.method,
            url: self.url@,
            headers: self.headers@.map_values(|h: Header| header_view(h)),
        }
    }
}

/// The query string of a listing request: the identifier and the cart
/// reference of each order, the page size and page, drafts included, in the
/// English locale.
pub open spec fn order_filter(page: int, page_size: int) -> Seq<char> {
    "fields[0]=id&fields[1]=cartReference&pagination[pageSize]="@ + signed_digits(page_size)
        + "&pagination[page]="@ + signed_digits(page) + "&publicationState=preview&locale[0]=en"@
}

/// The listing request for one page of orders.
pub open spec fn page_request_view(config: StrapiConfig, page: int, page_size: int) -> RequestView {
    RequestView {
        method: Method::Get,
        url: config.base_url@ + "/orders?"@ + order_filter(page, page_size),
        headers: seq![
            ("Accept"@, "application/json"@),
            ("Authorization"@, "Bearer "@ + config.auth_token@),
        ],
    }
}

/// The deletion of an order in the content API, by its numeric identifier.
pub open spec fn strapi_delete_view(config: StrapiConfig, resource: Seq<char>, res_id: int) -> RequestView {
    RequestView {
        method: Method::Delete,
        url: config.base_url@ + "/"@ + resource + "/"@ + signed_digits(res_id),
        headers: seq![("Authorization"@, "Bearer "@ + config.auth_token@)],
    }
}

/// The deletion of an order in the commerce platform, by its reference.
pub open spec fn shopify_delete_view(config: ShopifyConfig, resource: Seq<char>, res_id: Seq<char>) -> RequestView {
    RequestView {
        method: Method::Delete,
        url: config.shop_url@ + "/"@ + resource + "/"@ + res_id + ".json"@,
        headers: seq![
            ("Content-Type"@, "application/json"@),
            ("X-Shopify-Access-Token"@, config.access_token@),
        ],
    }
}

fn header(name: &str, value: String) -> (r: Header)
    ensures
        r.name@ == name@,
        r.value == value,
{
    Header { name: String::from_str(name), value }
}

/// The query string that selects one page of orders.
pub fn create_order_filter(page: i32, page_size: i32) -> (r: String)
    ensures
        r@ == order_filter(page as int, page_size as int),
{
    let mut s = String::from_str("fields[0]=id&fields[1]=cartReference&pagination[pageSize]=");
    push_signed(&mut s, page_size as i64);
    s.append("&pagination[page]=");
    push_signed(&mut s, page as i64);
    s.append("&publicationState=preview&locale[0]=en");
    s
}

/// The listing request for page `page` of the orders, `page_size` at a time.
pub fn page_request(config: &StrapiConfig, page: i32, page_size: i32) -> (r: HttpRequest)
    ensures
        r@ == page_request_view(*config, page as int, page_size as int),
{
    let mut url = config.base_url.clone();
    url.append("/orders?");
    let filter = create_order_filter(page, page_size);
    url.append(filter.as_str());
    let mut bearer = String::from_str("Bearer ");
    bearer.append(config.auth_token.as_str());
    let headers = vec![
        header("Accept", String::from_str("application/json")),
        header("Authorization", bearer),
    ];
    let r = HttpRequest { method: Method::Get, url, headers };
    assert(r@.headers =~= page_request_view(*config, page as int, page_size as int).headers);
    r
}

/// The deletion of `resource` number `res_id` in the content API.
pub fn strapi_delete_request(config: &StrapiConfig, resource: &str, res_id: i32) -> (r: HttpRequest)
    ensures
        r@ == strapi_delete_view(*config, resource@, res_id as int),
{
    let mut url = config.base_url.clone();
    url.append("/");
    url.append(resource);
    url.append("/");
    push_signed(&mut url, res_id as i64);
    let mut bearer = String::from_str("Bearer ");
    bearer.append(config.auth_token.as_str());
    let headers = vec![header("Authorization", bearer)];
    let r = HttpRequest { method: Method::Delete, url, headers };
    assert(r@.headers =~= strapi_delete_view(*config, resource@, res_id as int).headers);
    r
}

/// The deletion of `resource` `res_id` in the commerce platform.
pub fn shopify_delete_request(config: &ShopifyConfig, resource: &str, res_id: &str) -> (r: HttpRequest)
    ensures
        r@ == shopify_delete_view(*config, resource@, res_id@),
{
    let mut url = config.shop_url.clone();
    url.append("/");
    url.append(resource);
    url.append("/");
    url.append(res_id);
    url.append(".json");
    let headers = vec![
        header("Content-Type", String::from_str("application/json")),
        header("X-Shopify-Access-Token", config.access_token.clone()),
    ];
    let r = HttpRequest { method: Method::Delete, url, headers };
    assert(r@.headers =~= shopify_delete_view(*config, resource@, res_id@).headers);
    r
}

} // verus!
