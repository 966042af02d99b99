use order_cleanup::config::{ShopifyConfig, StrapiConfig};
use order_cleanup::decimal::{push_signed, push_unsigned};
use order_cleanup::request::{
    create_order_filter, page_request, shopify_delete_request, strapi_delete_request, Method,
    PAGE_SIZE,
};

fn strapi() -> StrapiConfig {
    StrapiConfig {
        base_url: "https://cms.example.com/api".to_string(),
        auth_token: "tok123".to_string(),
    }
}

fn shopify() -> ShopifyConfig {
    ShopifyConfig {
        access_token: "shpat_abc".to_string(),
        shop_url: "https://shop.example.com/admin/api/2024-01".to_string(),
    }
}

fn headers(h: &[order_cleanup::request::Header]) -> Vec<(String, String)> {
    h.iter().map(|x| (x.name.clone(), x.value.clone())).collect()
}

#[test]
fn decimal_text_of_integers() {
    let mut s = String::new();
    push_unsigned(&mut s, 0);
    assert_eq!(s, "0");
    let mut s = String::from("n=");
    push_unsigned(&mut s, 1234567890);
    assert_eq!(s, "n=1234567890");
    let mut s = String::new();
    push_unsigned(&mut s, u64::MAX);
    assert_eq!(s, "18446744073709551615");
    let mut s = String::new();
    push_signed(&mut s, -42);
    assert_eq!(s, "-42");
    let mut s = String::new();
    push_signed(&mut s, i64::MIN);
    assert_eq!(s, "-9223372036854775808");
    let mut s = String::new();
    push_signed(&mut s, 7);
    assert_eq!(s, "7");
}

#[test]
fn order_filter_selects_page_and_size() {
    assert_eq!(
        create_order_filter(3, 10),
        "fields[0]=id&fields[1]=cartReference&pagination[pageSize]=10&pagination[page]=3&publicationState=preview&locale[0]=en"
    );
    assert_eq!(
        create_order_filter(1, 250),
        "fields[0]=id&fields[1]=cartReference&pagination[pageSize]=250&pagination[page]=1&publicationState=preview&locale[0]=en"
    );
}

#[test]
fn listing_request_for_a_page() {
    let r = page_request(&strapi(), 2, PAGE_SIZE);
    assert_eq!(r.method, Method::Get);
    assert_eq!(
        r.url,
        "https://cms.example.com/api/orders?fields[0]=id&fields[1]=cartReference&pagination[pageSize]=10&pagination[page]=2&publicationState=preview&locale[0]=en"
    );
    assert_eq!(
        headers(&r.headers),
        vec![
            ("Accept".to_string(), "application/json".to_string()),
            ("Authorization".to_string(), "Bearer tok123".to_string()),
        ]
    );
}

#[test]
fn content_api_delete_request() {
    let r = strapi_delete_request(&strapi(), "order", 42);
    assert_eq!(r.method, Method::Delete);
    assert_eq!(r.url, "https://cms.example.com/api/order/42");
    assert_eq!(
        headers(&r.headers),
        vec![("Authorization".to_string(), "Bearer tok123".to_string())]
    );
}

#[test]
fn commerce_platform_delete_request() {
    let r = shopify_delete_request(&shopify(), "orders", "cart_9");
    assert_eq!(r.method, Method::Delete);
    assert_eq!(r.url, "https://shop.example.com/admin/api/2024-01/orders/cart_9.json");
    assert_eq!(
        headers(&r.headers),
        vec![
            ("Content-Type".to_string(), "application/json".to_string()),
            ("X-Shopify-Access-Token".to_string(), "shpat_abc".to_string()),
        ]
    );
}
