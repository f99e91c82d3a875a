use pactrack::notifier::notification_body;

#[test]
fn notification_body_formats_counts() {
    let body = notification_body(2, 5);
    assert_eq!(body, "Pending updates changed from 2 to 5");
}

#[test]
fn notification_body_handles_zero_counts() {
    let body = notification_body(0, 0);
    assert_eq!(body, "Pending updates changed from 0 to 0");
}

#[test]
fn notification_body_writes_large_counts_in_full() {
    let body = notification_body(10, 1234567890);
    assert_eq!(body, "Pending updates changed from 10 to 1234567890");
    let body = notification_body(usize::MAX, 99);
    assert_eq!(body, format!("Pending updates changed from {} to 99", usize::MAX));
}
