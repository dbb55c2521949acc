use rxstreams::compose::Compose;
use rxstreams::observers::{anonymous, collector, stopper};
use rxstreams::sources::{range, value};
use rxstreams::Observable;

#[test]
fn range_collects_all_items_then_completes() {
    let r = range(0, 5).subscribe(collector());
    assert_eq!(r.got, vec![0, 1, 2, 3, 4]);
    assert!(r.done);
}

#[test]
fn empty_range_emits_nothing() {
    let r = range(3, 3).subscribe(collector());
    assert_eq!(r.got, Vec::<u64>::new());
    assert!(r.done);
}

#[test]
fn inverted_range_emits_nothing() {
    let r = range(7, 2).subscribe(collector());
    assert_eq!(r.got, Vec::<u64>::new());
    assert!(r.done);
}

#[test]
fn value_emits_exactly_one_item() {
    let r = value(42u64).subscribe(collector());
    assert_eq!(r.got, vec![42]);
    assert!(r.done);
}

#[test]
fn take_limits_the_item_count() {
    let r = range(0, 10).take(3).subscribe(collector());
    assert_eq!(r.got, vec![0, 1, 2]);
    assert!(r.done);
}

#[test]
fn take_zero_emits_nothing() {
    let r = range(0, 10).take(0).subscribe(collector());
    assert_eq!(r.got, Vec::<u64>::new());
    assert!(r.done);
}

#[test]
fn take_more_than_available_emits_all() {
    let r = range(0, 3).take(10).subscribe(collector());
    assert_eq!(r.got, vec![0, 1, 2]);
    assert!(r.done);
}

#[test]
fn map_transforms_each_item_in_order() {
    let r = range(0, 4).map(|a: u64| a + 5).subscribe(collector());
    let plain = range(0, 4).subscribe(collector());
    let mut by_hand: Vec<u64> = Vec::new();
    for a in &plain.got {
        by_hand.push(a + 5);
    }
    assert_eq!(r.got, vec![5, 6, 7, 8]);
    assert_eq!(r.got, by_hand);
    assert!(r.done);
}

#[test]
fn resubscription_yields_independent_identical_runs() {
    let p = range(0, 3);
    let first = p.subscribe(collector());
    let second = p.subscribe(collector());
    assert_eq!(first.got, vec![0, 1, 2]);
    assert_eq!(second.got, vec![0, 1, 2]);
    assert!(first.done);
    assert!(second.done);
}

#[test]
fn merge_delivers_every_inner_item_whole() {
    // four inner streams of three items each: all twelve arrive, whole,
    // with exactly one completion.
    let r = range(0, 4)
        .flat_map(|a: u64| range(a * 3, a * 3 + 3))
        .subscribe(collector());
    assert_eq!(r.got, (0..12).collect::<Vec<u64>>());
    assert_eq!(r.got.len(), 4 * 3);
    assert!(r.done);
}

#[test]
fn end_to_end_pipeline() {
    let r = range(0, 10)
        .flat_map(|a: u64| value(a * 10))
        .take(3)
        .map(|a: u64| a + 5)
        .subscribe(collector());
    assert_eq!(r.got, vec![5, 15, 25]);
    assert!(r.done);
}

#[test]
fn stop_on_first_item_ends_the_chain() {
    let r = range(0, 10).subscribe(stopper());
    assert_eq!(r.got, vec![0]);
    assert!(r.done);
}

#[test]
fn stop_propagates_through_a_decorated_chain() {
    let r = range(0, 10).map(|a: u64| a * 2).subscribe(stopper());
    assert_eq!(r.got, vec![0]);
    assert!(r.done);
}

#[test]
fn anonymous_observer_continues_and_marks_completion() {
    let r = range(0, 3).subscribe(anonymous(|_a: u64| {}));
    assert!(r.done);
}

#[test]
fn take_after_stop_budget_interplay() {
    // the downstream stop (after one item) wins over the larger budget
    let r = range(0, 10).take(5).subscribe(stopper());
    assert_eq!(r.got, vec![0]);
    assert!(r.done);
}
