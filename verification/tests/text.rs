use calgary_central_library::driver::Selector;
use calgary_central_library::text::{
    begins_with, chars_of, ends_with, parse_byte, parse_numeral, push_decimal, reads_as,
    same_chars, same_str, slice_of, split_first,
};

fn chars(text: &str) -> Vec<char> {
    text.chars().collect()
}

#[test]
fn characters_of_a_string() {
    assert_eq!(chars_of("a:b"), vec!['a', ':', 'b']);
    assert_eq!(chars_of(""), Vec::<char>::new());
    assert_eq!(chars_of("né"), vec!['n', 'é']);
}

#[test]
fn texts_are_compared_by_their_characters() {
    assert!(same_chars(&chars("AM"), &chars("AM")));
    assert!(!same_chars(&chars("AM"), &chars("AMs")));
    assert!(!same_chars(&chars("AM"), &chars("PM")));
    assert!(same_chars(&chars(""), &chars("")));
    assert!(reads_as(&chars("ten"), "ten"));
    assert!(!reads_as(&chars("ten"), "Ten"));
    assert!(same_str("3-16B", "3-16B"));
    assert!(!same_str("3-16B", "3-16"));
}

#[test]
fn beginnings_and_ends() {
    assert!(begins_with(&chars("Booked 3:00 PM"), "Booked"));
    assert!(begins_with(&chars("Booked"), "Booked"));
    assert!(!begins_with(&chars("Booke"), "Booked"));
    assert!(!begins_with(&chars("booked"), "Booked"));
    assert!(begins_with(&chars("anything"), ""));
    assert!(ends_with(&chars("ten people"), " people"));
    assert!(!ends_with(&chars("people"), " people"));
    assert!(ends_with(&chars("anything"), ""));
    assert!(!ends_with(&chars("ten people."), " people"));
}

#[test]
fn parts_of_a_text() {
    assert_eq!(slice_of(&chars("10:30 AM"), 3, 5), chars("30"));
    assert_eq!(slice_of(&chars("10:30 AM"), 0, 8), chars("10:30 AM"));
    assert_eq!(slice_of(&chars("10:30 AM"), 4, 4), chars(""));
}

#[test]
fn a_text_is_cut_at_its_first_separator() {
    assert_eq!(split_first(&chars("10:30 AM"), ':'), (chars("10"), Some(chars("30 AM"))));
    assert_eq!(split_first(&chars("1:2:3"), ':'), (chars("1"), Some(chars("2:3"))));
    assert_eq!(split_first(&chars("10"), ':'), (chars("10"), None));
    assert_eq!(split_first(&chars(""), ':'), (chars(""), None));
    assert_eq!(split_first(&chars(":"), ':'), (chars(""), Some(chars(""))));
    assert_eq!(split_first(&chars("10:"), ':'), (chars("10"), Some(chars(""))));
}

#[test]
fn numerals_hold_digits_only() {
    assert_eq!(parse_numeral(&chars("0")), Some(0));
    assert_eq!(parse_numeral(&chars("30")), Some(30));
    assert_eq!(parse_numeral(&chars("255")), Some(255));
    assert_eq!(parse_numeral(&chars("256")), None);
    assert_eq!(parse_numeral(&chars("000255")), Some(255));
    assert_eq!(parse_numeral(&chars("")), None);
    assert_eq!(parse_numeral(&chars("+1")), None);
    assert_eq!(parse_numeral(&chars("1a")), None);
    assert_eq!(parse_numeral(&chars("1000000000000000000000000000000")), None);
}

#[test]
fn bytes_may_begin_with_a_plus() {
    assert_eq!(parse_byte(&chars("+1")), Some(1));
    assert_eq!(parse_byte(&chars("12")), Some(12));
    assert_eq!(parse_byte(&chars("+")), None);
    assert_eq!(parse_byte(&chars("++1")), None);
    assert_eq!(parse_byte(&chars("-1")), None);
    assert_eq!(parse_byte(&chars("+256")), None);
    assert_eq!(parse_byte(&chars("1+")), None);
    assert_eq!(parse_byte(&chars("")), None);
}

#[test]
fn bytes_are_read_as_rust_reads_them() {
    for text in ["", "+", "-", "0", "+0", "-0", "7", "007", "+007", "255", "256", "999", " 1", "1 ", "1_0", "0x1", "٣", "+-1", "12", "100"] {
        assert_eq!(parse_byte(&chars(text)), text.parse::<u8>().ok(), "{:?}", text);
    }
    for n in 0..=300u32 {
        let text = n.to_string();
        assert_eq!(parse_byte(&chars(&text)), text.parse::<u8>().ok());
    }
}

#[test]
fn numbers_are_written_in_figures() {
    for n in 0..=255u8 {
        let mut out = String::from("n=");
        push_decimal(&mut out, n);
        assert_eq!(out, format!("n={}", n));
    }
}

#[test]
fn selectors_of_the_booking_page() {
    assert_eq!(Selector::SearchButton.css(), "button.btn-submission.red[value='Search']");
    assert_eq!(Selector::RoomCard.css(), ".room-booking-card");
    assert_eq!(Selector::CardTitle.css(), ".uk-card-title");
    assert_eq!(Selector::CardDescription.css(), "p");
    assert_eq!(Selector::AvailabilityToggle.css(), "a.availability");
    assert_eq!(Selector::TimeSlot.css(), "li.time-slot");
}
