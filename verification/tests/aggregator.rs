use rate_window::aggregator::{cheapest_hour, reverse_slots, windows, AggregateError, Slot, Window};

fn slot(start: i64, end: i64, price: i32) -> Slot {
    Slot { start, end, price }
}

/// A day of 48 half-hour slots (timestamps are seconds from midnight) where
/// only the two slots from 03:00 to 04:00 are cheap.
fn day_with_cheap_three_to_four() -> Vec<Slot> {
    let mut slots = Vec::new();
    for i in 0..48i64 {
        let price = match i {
            6 => 2000,  // 03:00-03:30, 2.0 in thousandths
            7 => 2500,  // 03:30-04:00, 2.5 in thousandths
            _ => 3000,
        };
        slots.push(slot(i * 1800, (i + 1) * 1800, price));
    }
    slots
}

#[test]
fn cheapest_hour_selects_three_to_four() {
    let slots = day_with_cheap_three_to_four();
    let window = cheapest_hour(&slots).unwrap();
    assert_eq!(
        window,
        Window { start: 3 * 3600, end: 4 * 3600, combined_price: 4500 }
    );
}

#[test]
fn two_slots_are_insufficient() {
    let slots = vec![slot(0, 1800, 100), slot(1800, 3600, 100)];
    assert_eq!(cheapest_hour(&slots), Err(AggregateError::InsufficientData));
}

#[test]
fn short_inputs_report_insufficient_data() {
    let none: Vec<Slot> = vec![];
    let one = vec![slot(0, 1800, 100)];
    let two = vec![slot(0, 1800, 100), slot(1800, 3600, 100)];
    assert_eq!(cheapest_hour(&none), Err(AggregateError::InsufficientData));
    assert_eq!(cheapest_hour(&one), Err(AggregateError::InsufficientData));
    assert_eq!(cheapest_hour(&two), Err(AggregateError::InsufficientData));
}

#[test]
fn three_slots_yield_the_single_window() {
    let slots = vec![slot(0, 1800, 10), slot(1800, 3600, 20), slot(3600, 5400, 30)];
    let window = cheapest_hour(&slots).unwrap();
    assert_eq!(window, Window { start: 1800, end: 5400, combined_price: 50 });
}

#[test]
fn tie_break_earlier_window_wins() {
    // Window starts 1 and 4 both cost 4; the earlier one must be kept.
    let prices = [5, 2, 2, 5, 2, 2];
    let slots: Vec<Slot> = (0..6i64)
        .map(|i| slot(i * 1800, (i + 1) * 1800, prices[i as usize]))
        .collect();
    let window = cheapest_hour(&slots).unwrap();
    assert_eq!(window, Window { start: 1800, end: 3 * 1800, combined_price: 4 });
}

#[test]
fn cheapest_hour_is_deterministic() {
    let slots = day_with_cheap_three_to_four();
    let first = cheapest_hour(&slots);
    let second = cheapest_hour(&slots);
    assert_eq!(first, second);
}

#[test]
fn negative_prices_are_exact() {
    let slots = vec![
        slot(0, 1800, 100),
        slot(1800, 3600, -250),
        slot(3600, 5400, -300),
        slot(5400, 7200, 400),
    ];
    let window = cheapest_hour(&slots).unwrap();
    assert_eq!(window, Window { start: 1800, end: 5400, combined_price: -550 });
}

#[test]
fn reverse_slots_reverses() {
    let slots = vec![slot(3600, 5400, 3), slot(1800, 3600, 2), slot(0, 1800, 1)];
    let ascending = reverse_slots(&slots);
    assert_eq!(ascending, vec![slot(0, 1800, 1), slot(1800, 3600, 2), slot(3600, 5400, 3)]);
}

#[test]
fn reverse_round_trip_preserves_result() {
    let slots = day_with_cheap_three_to_four();
    let twice_reversed = reverse_slots(&reverse_slots(&slots));
    assert_eq!(twice_reversed, slots);
    assert_eq!(cheapest_hour(&twice_reversed), cheapest_hour(&slots));
}

#[test]
fn windows_skip_first_and_last_start() {
    let slots = vec![
        slot(0, 1800, 1),
        slot(1800, 3600, 2),
        slot(3600, 5400, 4),
        slot(5400, 7200, 8),
        slot(7200, 9000, 16),
    ];
    let ws = windows(&slots);
    assert_eq!(
        ws,
        vec![
            Window { start: 1800, end: 5400, combined_price: 6 },
            Window { start: 3600, end: 7200, combined_price: 12 },
            Window { start: 5400, end: 9000, combined_price: 24 },
        ]
    );
}

#[test]
fn windows_of_short_inputs_are_empty() {
    let two = vec![slot(0, 1800, 1), slot(1800, 3600, 2)];
    assert_eq!(windows(&two), vec![]);
    assert_eq!(windows(&vec![]), vec![]);
}
