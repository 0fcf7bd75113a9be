use limitation::status::build_status;

#[test]
fn status_reports_what_is_left_of_the_limit() {
    let status = build_status(1, 5, 1_700_000_000);
    assert_eq!(status.limit(), 5);
    assert_eq!(status.remaining(), 4);
    assert_eq!(status.reset_epoch_utc(), 1_700_000_000);
}

#[test]
fn status_runs_down_to_zero_at_the_limit() {
    assert_eq!(build_status(4, 5, 0).remaining(), 1);
    assert_eq!(build_status(5, 5, 0).remaining(), 0);
}

#[test]
fn status_stays_at_zero_beyond_the_limit() {
    assert_eq!(build_status(6, 5, 0).remaining(), 0);
    assert_eq!(build_status(usize::MAX, 5, 0).remaining(), 0);
}

#[test]
fn status_of_an_unseen_key_has_the_whole_limit() {
    assert_eq!(build_status(0, 5000, 0).remaining(), 5000);
}

#[test]
fn status_with_a_limit_of_zero_has_nothing_left() {
    let status = build_status(0, 0, 7);
    assert_eq!(status.limit(), 0);
    assert_eq!(status.remaining(), 0);
    assert_eq!(status.reset_epoch_utc(), 7);
}

#[test]
fn statuses_compare_by_their_fields() {
    assert_eq!(build_status(2, 5, 9), build_status(2, 5, 9));
    assert_ne!(build_status(2, 5, 9), build_status(3, 5, 9));
}
