use rate_window::message::format_message;

#[test]
fn message_contains_both_times() {
    let from = String::from("3:00 AM");
    let to = String::from("4:00 AM");
    assert_eq!(
        format_message(&from, &to),
        "The cheapest hour for the Agile Octopus tariff tomorrow is between 3:00 AM and 4:00 AM."
    );
}

#[test]
fn message_keeps_the_given_times_verbatim() {
    let from = String::from("11:30 PM");
    let to = String::from("12:30 AM");
    assert_eq!(
        format_message(&from, &to),
        "The cheapest hour for the Agile Octopus tariff tomorrow is between 11:30 PM and 12:30 AM."
    );
}
