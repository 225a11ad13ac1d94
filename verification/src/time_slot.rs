//! The half hours of a day as slots of a grid that starts at 5:00 AM, and
//! the labels that name them.
//!
//! A label reads `H:MM AM` or `H:MM PM`. Slot 0 is 5:00 AM, slot 1 is
//! 5:30 AM, and so on round the clock to slot 47, 4:30 AM of the next day.

use crate::text::{
    after_first_field, begins_with, byte_value, chars_of, decimal_text, decimal_value, digit_value,
    first_field, lemma_decimal_text_reads_back, lemma_joined_fields, lemma_single_field, parse_byte,
    push_decimal, reads_as, split_first,
};
use vstd::prelude::*;
use vstd::string::*;

verus! {

/// The number of slots of the grid: the half hours of a day.
pub const SLOTS: u8 = 48;

/// The hour of the day at which the grid starts.
pub const ORIGIN_HOUR: u8 = 5;

/// The hour of the day that lies `delta` hours from `hour`, round the clock.
pub open spec fn wrap_hours(hour: int, delta: int) -> int {
    (hour + delta) % 24
}

/// Whether a label marks a half hour that is taken.
pub open spec fn is_booked(label: Seq<char>) -> bool {
    "Booked"@.is_prefix_of(label)
}

/// The hour and the minute that a label names, as far as it names both: the
/// hour is what stands before the first `:`, the minute what follows it up
/// to the next space.
pub open spec fn label_time(label: Seq<char>) -> Option<(u8, u8)> {
    if is_booked(label) {
        None
    } else {
        match (byte_value(first_field(label, ':')), after_first_field(label, ':')) {
            (Some(hour), Some(rest)) => match byte_value(
                first_field(first_field(rest, ':'), ' '),
            ) {
                Some(minute) => Some((hour, minute)),
                None => None,
            },
            _ => None,
        }
    }
}

/// The word that follows the minute of a label, where a space ends the
/// minute.
pub open spec fn label_meridiem(label: Seq<char>) -> Option<Seq<char>> {
    match after_first_field(label, ':') {
        Some(rest) => match after_first_field(first_field(rest, ':'), ' ') {
            Some(word) => Some(first_field(word, ' ')),
            None => None,
        },
        None => None,
    }
}

/// Whether a label keeps to the half hours: where it names a minute at all,
/// that minute is 0 or 30.
pub open spec fn half_hour_aligned(label: Seq<char>) -> bool {
    match label_time(label) {
        Some((_, minute)) => minute == 0 || minute == 30,
        None => true,
    }
}

/// The hour of the day, counted from midnight, that an hour of the
/// twelve-hour clock stands for before (`AM`, `am`) or after (`PM`, `pm`)
/// noon. The hour 12 is the first of its half of the day; past noon every
/// other hour stands twelve hours later.
pub open spec fn hour_of_day(hour: u8, meridiem: Seq<char>) -> Option<nat> {
    if meridiem == "AM"@ || meridiem == "am"@ {
        Some(
            if hour == 12 {
                0
            } else {
                hour as nat
            },
        )
    } else if meridiem == "PM"@ || meridiem == "pm"@ {
        Some(
            if hour == 12 {
                12
            } else {
                hour as nat + 12
            },
        )
    } else {
        None
    }
}

/// The slot of the half hour that starts `minute` minutes into the hour
/// `hour` of the day.
pub open spec fn slot_at(hour: nat, minute: nat) -> nat {
    (wrap_hours(hour as int, -(ORIGIN_HOUR as int)) * 2 + if minute == 30 {
        1int
    } else {
        0int
    }) as nat
}

/// The slot that a label names, where it names one.
pub open spec fn label_slot(label: Seq<char>) -> Option<nat> {
    match (label_time(label), label_meridiem(label)) {
        (Some((hour, minute)), Some(meridiem)) => match hour_of_day(hour, meridiem) {
            Some(hour) => Some(slot_at(hour, minute as nat)),
            None => None,
        },
        _ => None,
    }
}

/// The minutes between the start of the grid and the time that a label
/// names, counted round the clock.
pub open spec fn minutes_past_origin(label: Seq<char>) -> Option<nat> {
    match (label_time(label), label_meridiem(label)) {
        (Some((hour, minute)), Some(meridiem)) => match hour_of_day(hour, meridiem) {
            Some(hour) => Some(((hour * 60 + minute - ORIGIN_HOUR * 60) % 1440) as nat),
            None => None,
        },
        _ => None,
    }
}

/// The hour of the day in which the slot `slot` lies.
pub open spec fn slot_hour(slot: nat) -> nat {
    wrap_hours(slot as int / 2, ORIGIN_HOUR as int) as nat
}

/// The hour that a twelve-hour clock shows in the hour `hour` of the day.
pub open spec fn clock_hour(hour: nat) -> nat {
    if hour == 0 {
        12
    } else if hour > 12 {
        (hour - 12) as nat
    } else {
        hour
    }
}

/// The label that the twelve-hour clock writes for its hour `hour`, at the
/// full hour or at the half, before noon or after.
pub open spec fn clock_label(hour: nat, half: bool, after_noon: bool) -> Seq<char> {
    decimal_text(hour) + ":"@ + (if half {
        "30"@
    } else {
        "00"@
    }) + " "@ + (if after_noon {
        "PM"@
    } else {
        "AM"@
    })
}

/// The label of the slot `slot`.
pub open spec fn slot_label(slot: nat) -> Seq<char> {
    clock_label(clock_hour(slot_hour(slot)), slot % 2 == 1, slot_hour(slot) >= 12)
}

/// Whether `label` is a label of the grid: an hour from 1 to 12, a colon,
/// `00` or `30`, a space, and `AM` or `PM`.
pub open spec fn is_grid_label(label: Seq<char>) -> bool {
    exists|hour: nat, half: bool, after_noon: bool|
        1 <= hour <= 12 && label == #[trigger] clock_label(hour, half, after_noon)
}

/// Going `first` hours round the clock and then `second` hours is going
/// `first + second` hours.
pub proof fn lemma_wrap_hours_adds(hour: int, first: int, second: int)
    ensures
        wrap_hours(wrap_hours(hour, first), second) == wrap_hours(hour, first + second),
{
}

/// What a label of the clock holds: its hour, its minute, and `AM` or
/// `PM`.
proof fn lemma_clock_label_fields(hour: nat, half: bool, after_noon: bool)
    requires
        1 <= hour <= 12,
    ensures
        label_time(clock_label(hour, half, after_noon)) == Some(
            (
                hour as u8,
                if half {
                    30u8
                } else {
                    0u8
                },
            ),
        ),
        label_meridiem(clock_label(hour, half, after_noon)) == Some(
            if after_noon {
                "PM"@
            } else {
                "AM"@
            },
        ),
{
    reveal_strlit("Booked");
    reveal_strlit(":");
    reveal_strlit(" ");
    reveal_strlit("00");
    reveal_strlit("30");
    reveal_strlit("AM");
    reveal_strlit("PM");
    let hour_text = decimal_text(hour);
    let minute_text = if half {
        "30"@
    } else {
        "00"@
    };
    let word = if after_noon {
        "PM"@
    } else {
        "AM"@
    };
    let clock = minute_text + seq![' '] + word;
    let label = clock_label(hour, half, after_noon);
    lemma_decimal_text_reads_back(hour);
    assert(label =~= hour_text + seq![':'] + clock);
    assert(!is_booked(label)) by {
        if is_booked(label) {
            assert(label.subrange(0, 6)[0] == 'B');
        }
    }
    lemma_joined_fields(hour_text, ':', clock);
    lemma_single_field(clock, ':');
    lemma_joined_fields(minute_text, ' ', word);
    lemma_single_field(word, ' ');
    assert(byte_value(minute_text) == Some(
        if half {
            30u8
        } else {
            0u8
        },
    )) by {
        assert(decimal_value(minute_text.drop_last().drop_last()) == 0);
        assert(decimal_value(minute_text.drop_last()) == digit_value(minute_text[0]));
    }
}

/// The slot of a half hour counts the half hours between the start of the
/// grid and that half hour, round the clock.
pub proof fn lemma_slot_at_counts(hour: nat, minute: nat)
    requires
        minute == 0 || minute == 30,
    ensures
        slot_at(hour, minute) < SLOTS,
        (hour * 60 + minute - ORIGIN_HOUR * 60) % 1440 == 30 * slot_at(hour, minute),
{
    let shifted = hour as int - 5;
    let turns = shifted / 24;
    let rest = shifted % 24;
    vstd::arithmetic::div_mod::lemma_fundamental_div_mod_converse(
        hour * 60 + minute - 300,
        1440,
        turns,
        60 * rest + minute,
    );
}

/// The slot that a label of the clock names.
pub open spec fn clock_slot(hour: nat, half: bool, after_noon: bool) -> nat {
    slot_at(
        if hour == 12 {
            if after_noon {
                12
            } else {
                0
            }
        } else if after_noon {
            hour + 12
        } else {
            hour
        },
        if half {
            30
        } else {
            0
        },
    )
}

/// The slot of a label of the clock lies in the hour, the half of the hour
/// and the half of the day that the label names.
proof fn lemma_clock_slot_place(hour: nat, half: bool, after_noon: bool)
    requires
        1 <= hour <= 12,
    ensures
        clock_slot(hour, half, after_noon) < SLOTS,
        clock_hour(slot_hour(clock_slot(hour, half, after_noon))) == hour,
        (clock_slot(hour, half, after_noon) % 2 == 1) == half,
        (slot_hour(clock_slot(hour, half, after_noon)) >= 12) == after_noon,
{
}

/// A slot is the slot of the label of the clock for the hour, the half of
/// the hour and the half of the day in which it lies.
proof fn lemma_slot_on_clock(slot: nat)
    requires
        slot < SLOTS,
    ensures
        1 <= clock_hour(slot_hour(slot)) <= 12,
        clock_slot(clock_hour(slot_hour(slot)), slot % 2 == 1, slot_hour(slot) >= 12) == slot,
{
}

/// The hour of a label of the clock stands, before noon or after, for its
/// hour of the day.
proof fn lemma_clock_hour_of_day(hour: nat, after_noon: bool)
    requires
        1 <= hour <= 12,
    ensures
        hour_of_day(
            hour as u8,
            if after_noon {
                "PM"@
            } else {
                "AM"@
            },
        ) == Some(
            if hour == 12 {
                if after_noon {
                    12nat
                } else {
                    0nat
                }
            } else if after_noon {
                hour + 12
            } else {
                hour
            },
        ),
{
    reveal_strlit("AM");
    reveal_strlit("PM");
    reveal_strlit("am");
    reveal_strlit("pm");
    assert("PM"@[0] != "AM"@[0] && "PM"@[0] != "am"@[0]);
}

/// A label of the clock keeps to the half hours and names its slot.
proof fn lemma_clock_label_slot(hour: nat, half: bool, after_noon: bool)
    requires
        1 <= hour <= 12,
    ensures
        half_hour_aligned(clock_label(hour, half, after_noon)),
        label_slot(clock_label(hour, half, after_noon)) == Some(
            clock_slot(hour, half, after_noon),
        ),
{
    lemma_clock_label_fields(hour, half, after_noon);
    lemma_clock_hour_of_day(hour, after_noon);
}

/// A label of the clock keeps to the half hours and names a slot of the
/// grid, whose label it is: reading the label and writing the label of
/// the slot read gives the same label again.
pub proof fn lemma_clock_label_round_trip(hour: nat, half: bool, after_noon: bool)
    requires
        1 <= hour <= 12,
    ensures
        half_hour_aligned(clock_label(hour, half, after_noon)),
        label_slot(clock_label(hour, half, after_noon)) == Some(
            clock_slot(hour, half, after_noon),
        ),
        clock_slot(hour, half, after_noon) < SLOTS,
        slot_label(clock_slot(hour, half, after_noon)) == clock_label(hour, half, after_noon),
{
    lemma_clock_label_slot(hour, half, after_noon);
    lemma_clock_slot_place(hour, half, after_noon);
}

/// The label of a slot is a label of the grid that keeps to the half hours
/// and names that slot, at the time that lies as many half hours past the
/// start of the grid.
pub proof fn lemma_slot_label_reads_back(slot: nat)
    requires
        slot < SLOTS,
    ensures
        is_grid_label(slot_label(slot)),
        half_hour_aligned(slot_label(slot)),
        label_slot(slot_label(slot)) == Some(slot),
        minutes_past_origin(slot_label(slot)) == Some(30 * slot),
{
    let hour = clock_hour(slot_hour(slot));
    let half = slot % 2 == 1;
    let after_noon = slot_hour(slot) >= 12;
    lemma_slot_on_clock(slot);
    lemma_clock_label_slot(hour, half, after_noon);
    lemma_slot_counts_half_hours(slot_label(slot));
}

/// Reading a label of the grid and writing the label of the slot read gives
/// the same label again.
pub proof fn lemma_grid_label_round_trip(label: Seq<char>)
    requires
        is_grid_label(label),
    ensures
        half_hour_aligned(label),
        label_slot(label) matches Some(slot) && slot < SLOTS && slot_label(slot) == label,
{
    let (hour, half, after_noon) = choose|hour: nat, half: bool, after_noon: bool|
        1 <= hour <= 12 && label == #[trigger] clock_label(hour, half, after_noon);
    lemma_clock_label_round_trip(hour, half, after_noon);
}

/// The slot of a label is the time that it names, in half hours past the
/// start of the grid.
pub proof fn lemma_slot_counts_half_hours(label: Seq<char>)
    requires
        half_hour_aligned(label),
        label_slot(label) is Some,
    ensures
        minutes_past_origin(label) == Some(30 * label_slot(label).unwrap()),
        label_slot(label).unwrap() < SLOTS,
{
    match (label_time(label), label_meridiem(label)) {
        (Some((hour, minute)), Some(meridiem)) => {
            lemma_slot_at_counts(hour_of_day(hour, meridiem).unwrap(), minute as nat);
        },
        _ => {},
    }
}

/// Of two labels, the one that names the earlier time of the grid's day
/// names the lesser slot.
pub proof fn lemma_earlier_label_lesser_slot(earlier: Seq<char>, later: Seq<char>)
    requires
        half_hour_aligned(earlier),
        half_hour_aligned(later),
        minutes_past_origin(earlier) is Some,
        minutes_past_origin(later) is Some,
        minutes_past_origin(earlier).unwrap() < minutes_past_origin(later).unwrap(),
    ensures
        label_slot(earlier) is Some,
        label_slot(later) is Some,
        label_slot(earlier).unwrap() < label_slot(later).unwrap(),
{
    lemma_slot_counts_half_hours(earlier);
    lemma_slot_counts_half_hours(later);
}

/// Of two slots, the label of the earlier names the lesser slot.
pub proof fn lemma_labels_keep_order(earlier: nat, later: nat)
    requires
        earlier < later < SLOTS,
    ensures
        label_slot(slot_label(earlier)).unwrap() < label_slot(slot_label(later)).unwrap(),
{
    lemma_slot_label_reads_back(earlier);
    lemma_slot_label_reads_back(later);
}

/// One half hour of the grid.
#[derive(Debug, Clone, Copy, PartialEq, Eq, PartialOrd, Ord, Hash)]
pub struct TimeSlot(u8);

impl View for TimeSlot {
    type V = nat;

    /// The place of the slot in the grid, counted from 0.
    closed spec fn view(&self) -> nat {
        self.0 as nat
    }
}

impl TimeSlot {
    #[verifier::type_invariant]
    spec fn on_grid(self) -> bool {
        self.0 < SLOTS
    }

    /// The hour that lies `delta` hours from `orig`, round the clock.
    pub fn add_signed_hours(orig: u8, delta: i8) -> (hour: u8)
        ensures
            hour == wrap_hours(orig as int, delta as int),
            hour < 24,
    {
        let sum: i16 = orig as i16 + delta as i16;
        let rest: i16 = sum % 24;
        if rest < 0 {
            (rest + 24) as u8
        } else {
            rest as u8
        }
    }

    /// The hour and the minute that `text` names, as far as it names both,
    /// with what follows the minute.
    fn read_time(text: &Vec<char>) -> (time: Option<(u8, u8, Option<Vec<char>>)>)
        ensures
            match time {
                Some((hour, minute, word)) => {
                    &&& label_time(text@) == Some((hour, minute))
                    &&& match word {
                        Some(word) => label_meridiem(text@) == Some(first_field(word@, ' ')),
                        None => label_meridiem(text@) is None,
                    }
                },
                None => label_time(text@) is None,
            },
    {
        if begins_with(text, "Booked") {
            return None;
        }
        let (hour_text, after_hour) = split_first(text, ':');
        let hour = match parse_byte(&hour_text) {
            Some(hour) => hour,
            None => return None,
        };
        let after_hour = match after_hour {
            Some(rest) => rest,
            None => return None,
        };
        let (clock, _) = split_first(&after_hour, ':');
        let (minute_text, word) = split_first(&clock, ' ');
        match parse_byte(&minute_text) {
            Some(minute) => Some((hour, minute, word)),
            None => None,
        }
    }

    /// The hour of the day that `hour` stands for before or after noon, as
    /// the clock shows it: under 24.
    fn hour_on_clock(hour: u8, meridiem: &Vec<char>) -> (on_clock: Option<u8>)
        ensures
            match on_clock {
                Some(on_clock) => {
                    &&& hour_of_day(hour, meridiem@) matches Some(of_day)
                    &&& on_clock == wrap_hours(of_day as int, 0)
                },
                None => hour_of_day(hour, meridiem@) is None,
            },
    {
        let before_noon = reads_as(meridiem, "AM") || reads_as(meridiem, "am");
        let after_noon = reads_as(meridiem, "PM") || reads_as(meridiem, "pm");
        if before_noon {
            Some(
                if hour == 12 {
                    0
                } else {
                    hour % 24
                },
            )
        } else if after_noon {
            Some(
                if hour == 12 {
                    12
                } else {
                    Self::add_signed_hours(hour, 12)
                },
            )
        } else {
            None
        }
    }

    /// Whether `label` keeps to the half hours, as `from_label` asks of it.
    pub fn is_half_hour_aligned(label: &str) -> (aligned: bool)
        ensures
            aligned == half_hour_aligned(label@),
    {
        let text = chars_of(label);
        match Self::read_time(&text) {
            Some((_, minute, _)) => minute == 0 || minute == 30,
            None => true,
        }
    }

    /// The slot that `label` names. There is none where the label begins
    /// with `Booked`, where its hour or its minute is no number, or where no
    /// `AM`, `am`, `PM` or `pm` follows the minute. A minute off the half
    /// hours is not for this function: `is_half_hour_aligned` tells.
    pub fn from_label(label: &str) -> (slot: Option<TimeSlot>)
        requires
            half_hour_aligned(label@),
        ensures
            match slot {
                Some(slot) => label_slot(label@) == Some(slot@) && slot@ < SLOTS,
                None => label_slot(label@) is None,
            },
            is_booked(label@) ==> slot is None,
    {
        let text = chars_of(label);
        let time = match Self::read_time(&text) {
            Some(time) => time,
            None => return None,
        };
        let (hour, minute, word) = time;
        let word = match word {
            Some(word) => word,
            None => return None,
        };
        let (meridiem, _) = split_first(&word, ' ');
        let hour = match Self::hour_on_clock(hour, &meridiem) {
            Some(hour) => hour,
            None => return None,
        };
        let shifted = Self::add_signed_hours(hour, -5);
        proof {
            lemma_wrap_hours_adds(hour_of_day(time.0, meridiem@).unwrap() as int, 0, -5);
        }
        Some(TimeSlot(shifted * 2 + minute / 30))
    }

    /// The label of the slot.
    pub fn to_label(&self) -> (label: String)
        ensures
            label@ == slot_label(self@),
    {
        proof {
            use_type_invariant(self);
        }
        let hour = Self::add_signed_hours(self.0 / 2, 5);
        let min = if self.0 % 2 == 0 {
            "00"
        } else {
            "30"
        };
        let am_pm = if hour < 12 {
            "AM"
        } else {
            "PM"
        };
        let hour = if hour == 0 {
            12
        } else if hour > 12 {
            hour - 12
        } else {
            hour
        };
        let mut label = String::new();
        push_decimal(&mut label, hour);
        label.append(":");
        label.append(min);
        label.append(" ");
        label.append(am_pm);
        label
    }

    /// The place of the slot in the grid, counted from 0.
    pub fn to_discriminant(&self) -> (discriminant: u8)
        ensures
            discriminant == self@,
            discriminant < SLOTS,
    {
        proof {
            use_type_invariant(self);
        }
        self.0
    }
}

} // verus!
