use booking::clock::Timestamp;
use booking::model::{LogEvent, Sentiment};
use booking::timeline::sort_by_time;

fn event(secs: i64, nanos: u32, headline: &str) -> LogEvent {
    LogEvent {
        time: Timestamp::new(secs, nanos).unwrap(),
        sentiment: Sentiment::Neutral,
        headline: headline.to_string(),
        detail: String::new(),
    }
}

fn headlines(events: &[LogEvent]) -> Vec<&str> {
    events.iter().map(|e| e.headline.as_str()).collect()
}

#[test]
fn sorts_three_one_two_into_one_two_three() {
    let sorted = sort_by_time(vec![event(3, 0, "c"), event(1, 0, "a"), event(2, 0, "b")]);
    let times: Vec<i64> = sorted.iter().map(|e| e.time.secs()).collect();
    assert_eq!(times, vec![1, 2, 3]);
    assert_eq!(headlines(&sorted), vec!["a", "b", "c"]);
}

#[test]
fn sorting_nothing_gives_nothing() {
    assert!(sort_by_time(Vec::new()).is_empty());
}

#[test]
fn sorting_one_event_gives_it_back() {
    let sorted = sort_by_time(vec![event(7, 1, "only")]);
    assert_eq!(sorted, vec![event(7, 1, "only")]);
}

#[test]
fn events_of_one_instant_keep_their_order() {
    let sorted = sort_by_time(vec![
        event(5, 0, "first at five"),
        event(2, 0, "first at two"),
        event(5, 0, "second at five"),
        event(2, 0, "second at two"),
        event(5, 0, "third at five"),
    ]);
    assert_eq!(
        headlines(&sorted),
        vec!["first at two", "second at two", "first at five", "second at five", "third at five"]
    );
}

#[test]
fn nanoseconds_decide_within_a_second() {
    let sorted = sort_by_time(vec![event(9, 500, "late"), event(9, 499, "early")]);
    assert_eq!(headlines(&sorted), vec!["early", "late"]);
}

#[test]
fn a_leap_second_comes_before_the_next_second() {
    let sorted = sort_by_time(vec![
        event(60, 0, "next minute"),
        event(59, 1_200_000_000, "leap"),
        event(59, 999_999_999, "last"),
    ]);
    assert_eq!(headlines(&sorted), vec!["last", "leap", "next minute"]);
}

#[test]
fn an_ordered_history_is_left_as_it_is() {
    let sorted = sort_by_time(vec![event(-3, 0, "a"), event(0, 0, "b"), event(0, 1, "c"), event(8, 0, "d")]);
    assert_eq!(headlines(&sorted), vec!["a", "b", "c", "d"]);
}

#[test]
fn a_reversed_history_is_turned_round() {
    let sorted = sort_by_time(vec![event(4, 0, "d"), event(3, 0, "c"), event(2, 0, "b"), event(1, 0, "a")]);
    assert_eq!(headlines(&sorted), vec!["a", "b", "c", "d"]);
}

#[test]
fn sorting_loses_no_event() {
    let mut input = Vec::new();
    let mut expected = Vec::new();
    for i in 0..50_i64 {
        let secs = (i * 37) % 11;
        input.push(event(secs, 0, &format!("n{}", i)));
        expected.push((secs, i));
    }
    expected.sort();
    let sorted = sort_by_time(input);
    let got: Vec<(i64, String)> = sorted.iter().map(|e| (e.time.secs(), e.headline.clone())).collect();
    let want: Vec<(i64, String)> = expected.iter().map(|(s, i)| (*s, format!("n{}", i))).collect();
    assert_eq!(got, want);
}
