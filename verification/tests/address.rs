use calgary_central_library::booking::booking_url;
use calgary_central_library::Date;

#[test]
fn a_day_is_written_year_first() {
    let date = Date::from_ymd(2024, 3, 5).unwrap();
    assert_eq!(date.iso(), "2024-03-05");
    assert_eq!(date.year(), 2024);
    assert_eq!(date.month(), 3);
    assert_eq!(date.day(), 5);
}

#[test]
fn days_that_the_calendar_lacks() {
    assert!(Date::from_ymd(2023, 2, 29).is_none());
    assert!(Date::from_ymd(2024, 2, 29).is_some());
    assert!(Date::from_ymd(2024, 13, 1).is_none());
    assert!(Date::from_ymd(2024, 0, 1).is_none());
    assert!(Date::from_ymd(2024, 4, 31).is_none());
    assert!(Date::from_ymd(2024, 4, 0).is_none());
}

#[test]
fn address_of_the_booking_page() {
    assert_eq!(
        booking_url("2024-03-05", 10),
        "https://calgarylibrary.ca/events-and-programs/book-a-space/book-a-room/?date=2024-03-05&location=1&groupsize=10"
    );
}

#[test]
fn address_for_the_least_and_the_greatest_party() {
    assert_eq!(
        booking_url("2024-12-31", 0),
        "https://calgarylibrary.ca/events-and-programs/book-a-space/book-a-room/?date=2024-12-31&location=1&groupsize=0"
    );
    assert_eq!(
        booking_url("2024-12-31", 255),
        "https://calgarylibrary.ca/events-and-programs/book-a-space/book-a-room/?date=2024-12-31&location=1&groupsize=255"
    );
    assert_eq!(
        booking_url("2024-12-31", 7),
        "https://calgarylibrary.ca/events-and-programs/book-a-space/book-a-room/?date=2024-12-31&location=1&groupsize=7"
    );
    assert_eq!(
        booking_url("2024-12-31", 100),
        "https://calgarylibrary.ca/events-and-programs/book-a-space/book-a-room/?date=2024-12-31&location=1&groupsize=100"
    );
}
