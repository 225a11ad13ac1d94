//! The address of the booking page for a day and a party.

use crate::text::{decimal_text, push_decimal};
use chrono::NaiveDate;
use vstd::prelude::*;
use vstd::string::*;

verus! {

/// The address of the booking page, without its query.
pub const BOOKING_PAGE: &'static str =
    "https://calgarylibrary.ca/events-and-programs/book-a-space/book-a-room/";

/// The day `year`-`month`-`day` as the `chrono` crate writes it, year first
/// and in figures. There is none where the calendar has no such day.
pub uninterp spec fn iso_date_text(year: i32, month: u32, day: u32) -> Option<Seq<char>>;

/// `NaiveDate::from_ymd_opt`, then the date's `to_string`, which writes as
/// `NaiveDate::format` does with `%Y-%m-%d`. Trusted: what comes back is
/// `iso_date_text` of the three numbers, which says only that the same
/// numbers give the same text.
#[verifier::external_body]
fn iso_date(year: i32, month: u32, day: u32) -> (text: Option<String>)
    ensures
        match text {
            Some(text) => iso_date_text(year, month, day) == Some(text@),
            None => iso_date_text(year, month, day) is None,
        },
{
    NaiveDate::from_ymd_opt(year, month, day).map(|date| date.to_string())
}

/// What a day of the calendar is.
pub struct DateView {
    /// The year.
    pub year: i32,
    /// The month, counted from 1.
    pub month: u32,
    /// The day of the month, counted from 1.
    pub day: u32,
    /// The day as the booking page reads it.
    pub iso: Seq<char>,
}

/// A day of the calendar.
#[derive(Debug)]
pub struct Date {
    year: i32,
    month: u32,
    day: u32,
    iso: String,
}

impl View for Date {
    type V = DateView;

    closed spec fn view(&self) -> DateView {
        DateView { year: self.year, month: self.month, day: self.day, iso: self.iso@ }
    }
}

impl Date {
    #[verifier::type_invariant]
    spec fn is_of_calendar(self) -> bool {
        iso_date_text(self.year, self.month, self.day) == Some(self.iso@)
    }

    /// The day `year`-`month`-`day`, where the calendar has it.
    pub fn from_ymd(year: i32, month: u32, day: u32) -> (date: Option<Date>)
        ensures
            match date {
                Some(date) => {
                    &&& iso_date_text(year, month, day) == Some(date@.iso)
                    &&& date@.year == year
                    &&& date@.month == month
                    &&& date@.day == day
                },
                None => iso_date_text(year, month, day) is None,
            },
    {
        match iso_date(year, month, day) {
            Some(iso) => Some(Date { year, month, day, iso }),
            None => None,
        }
    }

    /// The year of the day.
    pub fn year(&self) -> (year: i32)
        ensures
            year == self@.year,
    {
        self.year
    }

    /// The month of the day, counted from 1.
    pub fn month(&self) -> (month: u32)
        ensures
            month == self@.month,
    {
        self.month
    }

    /// The day of the month, counted from 1.
    pub fn day(&self) -> (day: u32)
        ensures
            day == self@.day,
    {
        self.day
    }

    /// The day as the booking page reads it.
    pub fn iso(&self) -> (iso: &str)
        ensures
            iso@ == self@.iso,
            iso_date_text(self@.year, self@.month, self@.day) == Some(iso@),
    {
        proof {
            use_type_invariant(self);
        }
        self.iso.as_str()
    }
}

/// The address of the booking page for the day that `date` writes and a
/// party of `group_size`, at the one location that the library books.
pub open spec fn booking_url_text(date: Seq<char>, group_size: u8) -> Seq<char> {
    BOOKING_PAGE@ + "?date="@ + date + "&location=1&groupsize="@ + decimal_text(group_size as nat)
}

/// The address of the booking page for the day that `date` writes and a
/// party of `group_size`.
pub fn booking_url(date: &str, group_size: u8) -> (url: String)
    ensures
        url@ == booking_url_text(date@, group_size),
{
    let mut url = String::from_str(BOOKING_PAGE);
    url.append("?date=");
    url.append(date);
    url.append("&location=1&groupsize=");
    push_decimal(&mut url, group_size);
    url
}

} // verus!
