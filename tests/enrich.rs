use jokes_client::{stamp_joke, update_joke, Joke, Timestamp};

fn sample_joke() -> Joke {
    Joke {
        joke_type: "programming".to_string(),
        setup: "s".to_string(),
        punchline: "p".to_string(),
        id: 4,
        fetched_at: None,
    }
}

#[test]
fn stamping_twice_keeps_the_later_time() {
    let earlier = Timestamp::new(100, 0).unwrap();
    let later = Timestamp::new(100, 500).unwrap();
    let once = stamp_joke(Some(sample_joke()), earlier);
    let twice = stamp_joke(once, later).unwrap();
    assert_eq!(twice.fetched_at, Some(later));
    assert_eq!(twice.id, 4);
    assert_eq!(twice.setup, "s");
}

#[test]
fn stamping_overwrites_an_existing_time() {
    let mut joke = sample_joke();
    joke.fetched_at = Some(Timestamp::new(5, 5).unwrap());
    let t = Timestamp::new(6, 0).unwrap();
    assert_eq!(stamp_joke(Some(joke), t).unwrap().fetched_at, Some(t));
}

#[test]
fn stamping_nothing_gives_nothing() {
    assert!(stamp_joke(None, Timestamp::new(1, 1).unwrap()).is_none());
    assert!(update_joke(None).is_none());
}

#[test]
fn update_joke_reads_the_clock() {
    let before = chrono::Utc::now();
    let joke = update_joke(Some(sample_joke())).unwrap();
    let after = chrono::Utc::now();
    let t = joke.fetched_at.unwrap();
    assert!(t.secs >= before.timestamp() && t.secs <= after.timestamp());
    assert!(t.secs > 1_600_000_000);
    assert_eq!(joke.punchline, "p");
}

#[test]
fn timestamp_bounds_and_order() {
    assert!(Timestamp::new(0, 1_999_999_999).is_some());
    assert!(Timestamp::new(0, 2_000_000_000).is_none());
    let a = Timestamp::new(1, 999).unwrap();
    let b = Timestamp::new(2, 0).unwrap();
    assert!(a.is_no_later_than(&b));
    assert!(!b.is_no_later_than(&a));
    assert!(a.is_no_later_than(&a));
}
