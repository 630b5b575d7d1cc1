//! Tests of the route query shapes.

use labrinth::routes::moderation;
use labrinth::routes::reports;

#[test]
fn listing_counts_default_to_one_hundred() {
    assert_eq!(moderation::ResultCount::default().count, 100);
    assert_eq!(reports::ResultCount::default().count(), 100);
}
