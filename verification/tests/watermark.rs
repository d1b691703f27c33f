use upstream_sync::error::SyncError;
use upstream_sync::model::Item;
use upstream_sync::model::ItemFeed;
use upstream_sync::model::ItemReadOption;
use upstream_sync::model::ItemStatus;
use upstream_sync::model::ItemToCreate;
use upstream_sync::time::Timestamp;
use upstream_sync::watermark::latest_publication;
use upstream_sync::watermark::select_new;
use upstream_sync::watermark::sync_tick;

fn at(seconds: i64) -> Timestamp {
    Timestamp { seconds, nanos: 0, offset: 0 }
}

fn item(id: i32, published_at: Timestamp) -> Item {
    Item {
        id,
        fingerprint: format!("fp-{}", id),
        author: if id % 2 == 0 { Some(format!("author {}", id)) } else { None },
        title: format!("title {}", id),
        description: format!("<p>description {}</p>", id),
        link: format!("https://example.com/{}", id),
        status: ItemStatus::Unread,
        is_saved: id % 3 == 0,
        published_at,
        feed: ItemFeed {
            id: 100 + id,
            title: format!("feed {}", id),
            link: format!("https://feeds.example.com/{}", id),
        },
    }
}

fn times(records: &[ItemToCreate]) -> Vec<i64> {
    records.iter().map(|r| r.published_at.seconds).collect()
}

#[test]
fn to_create_keeps_the_fields() {
    let source = item(4, Timestamp { seconds: 77, nanos: 8, offset: 3600 });
    let record = source.to_create();
    assert_eq!(
        record,
        ItemToCreate {
            author: Some("author 4".to_string()),
            title: "title 4".to_string(),
            description: "<p>description 4</p>".to_string(),
            link: "https://example.com/4".to_string(),
            status: ItemStatus::Unread,
            published_at: Timestamp { seconds: 77, nanos: 8, offset: 3600 },
            feed: 104,
        }
    );
    let read = Item { status: ItemStatus::Read, author: None, ..item(5, at(1)) };
    assert_eq!(read.to_create().status, ItemStatus::Read);
    assert_eq!(read.to_create().author, None);
    assert_eq!(read.to_create().feed, 105);
}

#[test]
fn unread_only_restricts_status_alone() {
    assert_eq!(
        ItemReadOption::unread_only(),
        ItemReadOption {
            ids: None,
            feed: None,
            status: Some(ItemStatus::Unread),
            is_saved: None,
            order_by: None,
            limit: None,
            offset: None,
        }
    );
}

#[test]
fn filter_keeps_items_strictly_after_watermark() {
    let t = 1_700_000_000;
    let batch = vec![item(1, at(t - 1)), item(2, at(t)), item(3, at(t + 1)), item(4, at(t + 5))];
    let records = select_new(Some(at(t)), &batch);
    assert_eq!(times(&records), vec![t + 1, t + 5]);
    assert_eq!(records[0], batch[2].to_create());
    assert_eq!(records[1], batch[3].to_create());
}

#[test]
fn filter_looks_at_nanoseconds() {
    let mark = Timestamp { seconds: 50, nanos: 500, offset: 0 };
    let batch = vec![
        item(1, Timestamp { seconds: 50, nanos: 499, offset: 0 }),
        item(2, Timestamp { seconds: 50, nanos: 500, offset: 0 }),
        item(3, Timestamp { seconds: 50, nanos: 501, offset: 0 }),
        item(4, Timestamp { seconds: 49, nanos: 999_999_999, offset: 0 }),
    ];
    let records = select_new(Some(mark), &batch);
    assert_eq!(records.len(), 1);
    assert_eq!(records[0].title, "title 3");
}

#[test]
fn filter_ignores_offsets() {
    let mark = Timestamp { seconds: 50, nanos: 0, offset: 0 };
    let batch = vec![
        item(1, Timestamp { seconds: 50, nanos: 0, offset: 7200 }),
        item(2, Timestamp { seconds: 51, nanos: 0, offset: -7200 }),
    ];
    let records = select_new(Some(mark), &batch);
    assert_eq!(records.len(), 1);
    assert_eq!(records[0].title, "title 2");
}

#[test]
fn filter_keeps_order_of_batch() {
    let batch = vec![item(1, at(30)), item(2, at(10)), item(3, at(20)), item(4, at(5))];
    let records = select_new(Some(at(7)), &batch);
    assert_eq!(times(&records), vec![30, 10, 20]);
}

#[test]
fn without_watermark_everything_is_new() {
    let batch = vec![item(1, at(-5)), item(2, at(0)), item(3, at(5))];
    let records = select_new(None, &batch);
    assert_eq!(times(&records), vec![-5, 0, 5]);
    assert_eq!(select_new(None, &Vec::new()), Vec::new());
}

#[test]
fn latest_publication_is_the_maximum() {
    assert_eq!(latest_publication(&Vec::new()), None);
    assert_eq!(latest_publication(&vec![item(1, at(3))]), Some(at(3)));
    let batch = vec![item(1, at(30)), item(2, at(10)), item(3, at(45)), item(4, at(5))];
    assert_eq!(latest_publication(&batch), Some(at(45)));
}

#[test]
fn latest_publication_takes_last_of_equal_instants() {
    let batch = vec![
        item(1, Timestamp { seconds: 9, nanos: 1, offset: 0 }),
        item(2, Timestamp { seconds: 9, nanos: 1, offset: 3600 }),
        item(3, Timestamp { seconds: 8, nanos: 0, offset: 0 }),
        item(4, Timestamp { seconds: 9, nanos: 1, offset: -3600 }),
        item(5, Timestamp { seconds: 9, nanos: 0, offset: 60 }),
    ];
    assert_eq!(latest_publication(&batch), Some(Timestamp { seconds: 9, nanos: 1, offset: -3600 }));
}

#[test]
fn tick_reports_new_items_and_advances_to_latest_of_whole_batch() {
    let t = 1000;
    let batch = vec![item(1, at(t - 1)), item(2, at(t)), item(3, at(t + 1)), item(4, at(t + 5))];
    let outcome = sync_tick(Some(at(t)), &Ok(batch));
    assert_eq!(times(&outcome.new_items), vec![t + 1, t + 5]);
    assert_eq!(outcome.advance, Some(at(t + 5)));
}

#[test]
fn tick_without_watermark_takes_all_and_sets_maximum() {
    let batch = vec![item(1, at(40)), item(2, at(90)), item(3, at(10))];
    let outcome = sync_tick(None, &Ok(batch));
    assert_eq!(times(&outcome.new_items), vec![40, 90, 10]);
    assert_eq!(outcome.advance, Some(at(90)));
}

#[test]
fn tick_without_new_items_does_not_advance() {
    let batch = vec![item(1, at(40)), item(2, at(90)), item(3, at(10))];
    let outcome = sync_tick(Some(at(90)), &Ok(batch));
    assert!(outcome.new_items.is_empty());
    assert_eq!(outcome.advance, None);
    let older = sync_tick(Some(at(500)), &Ok(vec![item(1, at(40))]));
    assert!(older.new_items.is_empty());
    assert_eq!(older.advance, None);
}

#[test]
fn tick_on_empty_batch_changes_nothing() {
    let outcome = sync_tick(Some(at(90)), &Ok(Vec::new()));
    assert!(outcome.new_items.is_empty());
    assert_eq!(outcome.advance, None);
    let bootstrap = sync_tick(None, &Ok(Vec::new()));
    assert!(bootstrap.new_items.is_empty());
    assert_eq!(bootstrap.advance, None);
}

#[test]
fn failed_tick_reports_nothing_and_keeps_watermark() {
    for error in [
        SyncError::TransportFailed("connection refused".to_string()),
        SyncError::AuthenticationFailed(403),
        SyncError::MalformedResponse,
    ] {
        let outcome = sync_tick(Some(at(90)), &Err(error));
        assert!(outcome.new_items.is_empty());
        assert_eq!(outcome.advance, None);
    }
}

#[test]
fn failure_on_one_tick_then_success_on_the_next() {
    let mut watermark = Some(at(100));
    let first = sync_tick(watermark, &Err(SyncError::TransportFailed("timed out".to_string())));
    assert!(first.new_items.is_empty());
    watermark = first.advance.or(watermark);
    assert_eq!(watermark, Some(at(100)));
    let second = sync_tick(watermark, &Ok(vec![item(1, at(99)), item(2, at(101))]));
    assert_eq!(times(&second.new_items), vec![101]);
    watermark = second.advance.or(watermark);
    assert_eq!(watermark, Some(at(101)));
}

#[test]
fn watermark_follows_the_maximum_and_never_decreases() {
    let batches: Vec<Result<Vec<Item>, SyncError>> = vec![
        Ok(vec![]),
        Ok(vec![item(1, at(50)), item(2, at(20))]),
        Ok(vec![item(3, at(30))]),
        Err(SyncError::TransportFailed("down".to_string())),
        Ok(vec![item(4, at(50)), item(5, at(49))]),
        Ok(vec![item(6, at(10)), item(7, at(70)), item(8, at(60))]),
        Ok(vec![item(9, at(70))]),
    ];
    let mut watermark: Option<Timestamp> = None;
    let mut maximum: Option<i64> = None;
    let mut reported = Vec::new();
    for fetched in &batches {
        let before = watermark;
        let outcome = sync_tick(watermark, fetched);
        watermark = outcome.advance.or(watermark);
        if let Ok(batch) = fetched {
            for i in batch {
                maximum = maximum.max(Some(i.published_at.seconds));
            }
        }
        assert_eq!(watermark.map(|w| w.seconds), maximum);
        assert!(watermark.map(|w| w.seconds) >= before.map(|w| w.seconds));
        reported.push(times(&outcome.new_items));
    }
    assert_eq!(watermark, Some(at(70)));
    assert_eq!(
        reported,
        vec![vec![], vec![50, 20], vec![], vec![], vec![], vec![70, 60], vec![]]
    );
}
