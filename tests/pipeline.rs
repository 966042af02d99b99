use order_cleanup::config::{ShopifyConfig, StrapiConfig};
use order_cleanup::model::{DataAtribute, DataElement, Meta, PageResult, Pagination, Root};
use order_cleanup::page::{
    call_request, deletion_plan, page_result, record_outcomes, DeleteTarget, RecordOutcome,
};
use order_cleanup::request::Method;
use order_cleanup::run::{page_numbers, start_line, total_processed, Progress};

fn element(id: i32, cart: Option<&str>) -> DataElement {
    DataElement {
        id,
        attributes: DataAtribute {
            cart_reference: cart.map(|c| c.to_string()),
        },
    }
}

fn pagination(page: i32, page_count: i32, total: i32) -> Pagination {
    Pagination {
        page,
        page_size: 10,
        page_count,
        total,
    }
}

fn root(data: Vec<DataElement>, page: i32) -> Root {
    Root {
        data,
        meta: Meta {
            pagination: pagination(page, 3, 25),
        },
    }
}

fn page_of(n: i32, page: i32) -> Root {
    root((0..n).map(|i| element(page * 100 + i, None)).collect(), page)
}

fn configs() -> (ShopifyConfig, StrapiConfig) {
    (
        ShopifyConfig {
            access_token: "shpat".to_string(),
            shop_url: "https://shop".to_string(),
        },
        StrapiConfig {
            base_url: "https://cms".to_string(),
            auth_token: "tok".to_string(),
        },
    )
}

#[test]
fn one_page_task_per_reported_page() {
    assert_eq!(page_numbers(&pagination(1, 3, 25)), vec![1, 2, 3]);
    assert_eq!(page_numbers(&pagination(1, 1, 1)), vec![1]);
    assert_eq!(page_numbers(&pagination(1, 0, 0)), Vec::<i32>::new());
    assert_eq!(page_numbers(&pagination(1, -2, 0)), Vec::<i32>::new());
}

#[test]
fn failed_page_counts_for_nothing() {
    let pages = page_numbers(&pagination(1, 3, 25));
    assert_eq!(pages.len(), 3);
    let first = page_of(10, 1);
    let third = page_of(5, 3);
    let results = vec![
        page_result(Some(&first), pages[0]),
        page_result(None, pages[1]),
        page_result(Some(&third), pages[2]),
    ];
    assert_eq!(results[1], PageResult { processed_count: 0, page_number: 2 });
    assert_eq!(total_processed(&results), Some(15));

    let mut progress = Progress::new(&pagination(1, 3, 25));
    let mut lines = Vec::new();
    for r in &results {
        lines.push(progress.record(r));
    }
    assert_eq!(progress.processed, 15);
    assert_eq!(lines[0], "Processed 10 of 25 \u{1F9FE} Orders (Page -> 1 of 3)");
    assert_eq!(lines[1], "Processed 10 of 25 \u{1F9FE} Orders (Page -> 2 of 3)");
    assert_eq!(lines[2], "Processed 15 of 25 \u{1F9FE} Orders (Page -> 3 of 3)");
}

#[test]
fn results_fold_in_any_order() {
    let a = PageResult { processed_count: 5, page_number: 3 };
    let b = PageResult { processed_count: 10, page_number: 1 };
    assert_eq!(total_processed(&vec![a, b]), total_processed(&vec![b, a]));
    assert_eq!(total_processed(&vec![]), Some(0));
}

#[test]
fn total_that_does_not_fit_is_none() {
    let big = PageResult { processed_count: usize::MAX, page_number: 1 };
    let one = PageResult { processed_count: 1, page_number: 2 };
    if usize::MAX as u64 == u64::MAX {
        assert_eq!(total_processed(&vec![big, one]), None);
    }
    assert_eq!(total_processed(&vec![big]), Some(usize::MAX as u64));
}

#[test]
fn start_line_names_the_total() {
    assert_eq!(start_line(25), "About to start deleting: 25");
}

#[test]
fn referenced_order_gives_two_deletions() {
    let (shop, strapi) = configs();
    let page = root(vec![element(42, Some("cart_9"))], 1);
    let plan = deletion_plan(&page);
    assert_eq!(plan.len(), 2);
    assert_eq!(plan[0].record, 0);
    assert!(matches!(&plan[0].target, DeleteTarget::Secondary(c) if c == "cart_9"));
    assert!(matches!(plan[1].target, DeleteTarget::Primary(42)));
    let first = call_request(&plan[0], &shop, &strapi);
    let second = call_request(&plan[1], &shop, &strapi);
    assert_eq!(first.method, Method::Delete);
    assert_eq!(first.url, "https://shop/orders/cart_9.json");
    assert_eq!(second.method, Method::Delete);
    assert_eq!(second.url, "https://cms/order/42");
}

#[test]
fn unreferenced_order_is_deleted_in_content_api_only() {
    let page = root(vec![element(7, None), element(8, Some("c8")), element(9, None)], 1);
    let plan = deletion_plan(&page);
    let summary: Vec<(usize, String)> = plan
        .iter()
        .map(|c| {
            let t = match &c.target {
                DeleteTarget::Secondary(r) => format!("secondary {}", r),
                DeleteTarget::Primary(id) => format!("primary {}", id),
            };
            (c.record, t)
        })
        .collect();
    assert_eq!(
        summary,
        vec![
            (0, "primary 7".to_string()),
            (1, "secondary c8".to_string()),
            (1, "primary 8".to_string()),
            (2, "primary 9".to_string()),
        ]
    );
}

#[test]
fn empty_page_plans_nothing() {
    let page = root(vec![], 1);
    assert!(deletion_plan(&page).is_empty());
    assert_eq!(page_result(Some(&page), 1).processed_count, 0);
    assert!(record_outcomes(&page, &vec![]).is_empty());
}

#[test]
fn outcomes_follow_the_plan() {
    let page = root(vec![element(7, None), element(8, Some("c8")), element(9, None)], 2);
    let results = vec![true, false, true, false];
    let outcomes = record_outcomes(&page, &results);
    assert_eq!(
        outcomes,
        vec![
            RecordOutcome { id: 7, secondary_ok: None, primary_ok: true },
            RecordOutcome { id: 8, secondary_ok: Some(false), primary_ok: true },
            RecordOutcome { id: 9, secondary_ok: None, primary_ok: false },
        ]
    );
    assert!(outcomes[0].fully_deleted());
    assert!(!outcomes[1].fully_deleted());
    assert!(!outcomes[2].fully_deleted());
    // the count is of attempts, whatever the deletions returned
    assert_eq!(page_result(Some(&page), 2).processed_count, 3);
}
