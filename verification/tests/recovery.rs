use walllit::recovery::{candidates, delay_100ns, Retry};

#[test]
fn retry_is_bounded_and_playlist_visits_every_item_once() {
    assert_eq!(delay_100ns(0), 10_000_000);
    assert_eq!(delay_100ns(100), 320_000_000);
    assert_eq!(candidates(2, 3), vec![2, 0, 1]);
    assert_eq!(candidates(0, 0).len(), 0);
}

#[test]
fn backoff_doubles_up_to_thirty_two_seconds() {
    let delays: Vec<i64> = (0..8).map(delay_100ns).collect();
    assert_eq!(
        delays,
        vec![10_000_000, 20_000_000, 40_000_000, 80_000_000, 160_000_000, 320_000_000, 320_000_000, 320_000_000]
    );
    assert_eq!(candidates(0, 4), vec![0, 1, 2, 3]);
    assert_eq!(candidates(3, 4), vec![3, 0, 1, 2]);
}

#[test]
fn retry_schedules_after_backoff_and_clears() {
    let frequency = 10_000_000;
    let mut retry = Retry::new();
    assert!(!retry.pending());
    assert!(!retry.ready(0, frequency));
    assert_eq!(retry.deadline(0, frequency), None);

    retry.request(500);
    assert!(retry.pending());
    assert!(retry.ready(500, frequency));
    retry.request(900);
    assert_eq!(retry.deadline(500, frequency), Some(0));

    retry.failed(1_000, frequency);
    assert_eq!(retry.deadline(1_000, frequency), Some(10_000_000));
    assert!(!retry.ready(1_000, frequency));
    assert!(retry.ready(10_001_000, frequency));

    retry.failed(1_000, frequency);
    assert_eq!(retry.deadline(1_000, frequency), Some(20_000_000));

    retry.clear();
    assert!(!retry.pending());
    retry.failed(0, frequency);
    assert_eq!(retry.deadline(0, frequency), Some(10_000_000));
}
