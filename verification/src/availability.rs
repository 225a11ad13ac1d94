//! The open half hours of one room: the slots that the labels of its booking
//! card name, in the order of the card.

use crate::text::texts;
use crate::time_slot::{half_hour_aligned, label_slot, slot_label, TimeSlot, SLOTS};
use vstd::prelude::*;
use vstd::string::*;

verus! {

/// Whether every label of a run keeps to the half hours.
pub open spec fn labels_aligned(labels: Seq<Seq<char>>) -> bool {
    forall|i: int| 0 <= i < labels.len() ==> half_hour_aligned(#[trigger] labels[i])
}

/// The slots that a run of labels names, in the order of the labels. A label
/// that names no slot, as one of a taken half hour, is passed over.
pub open spec fn open_slots(labels: Seq<Seq<char>>) -> Seq<nat>
    decreases labels.len(),
{
    if labels.len() == 0 {
        Seq::empty()
    } else {
        match label_slot(labels.last()) {
            Some(slot) => open_slots(labels.drop_last()).push(slot),
            None => open_slots(labels.drop_last()),
        }
    }
}

/// The labels of a run of slots, a comma and a space between each two.
pub open spec fn joined_labels(slots: Seq<nat>) -> Seq<char>
    decreases slots.len(),
{
    if slots.len() == 0 {
        Seq::empty()
    } else if slots.len() == 1 {
        slot_label(slots[0])
    } else {
        joined_labels(slots.drop_last()) + ", "@ + slot_label(slots.last())
    }
}

/// How a run of open slots is shown: its labels in square brackets, and in
/// words where there is none.
pub open spec fn rendering(slots: Seq<nat>) -> Seq<char> {
    if slots.len() == 0 {
        "Fully booked"@
    } else {
        "["@ + joined_labels(slots) + "]"@
    }
}

/// The open half hours of one room, in the order in which its card lists
/// them.
#[derive(Debug)]
pub struct Availability(Vec<TimeSlot>);

impl View for Availability {
    type V = Seq<nat>;

    /// The open slots, by their places in the grid.
    closed spec fn view(&self) -> Seq<nat> {
        self.0@.map_values(|slot: TimeSlot| slot@)
    }
}

impl Availability {
    /// The open half hours that the labels of a card name. Labels that
    /// name no slot are passed over; each label is to keep to the half
    /// hours.
    pub fn from(labels: Vec<String>) -> (availability: Availability)
        requires
            labels_aligned(texts(labels@)),
        ensures
            availability@ == open_slots(texts(labels@)),
    {
        let mut slots: Vec<TimeSlot> = Vec::new();
        let mut i: usize = 0;
        while i < labels.len()
            invariant
                i <= labels.len(),
                labels_aligned(texts(labels@)),
                slots@.map_values(|slot: TimeSlot| slot@) == open_slots(
                    texts(labels@).take(i as int),
                ),
            decreases labels.len() - i,
        {
            proof {
                assert(texts(labels@).take(i + 1).drop_last() == texts(labels@).take(i as int));
                assert(half_hour_aligned(texts(labels@)[i as int]));
            }
            if let Some(slot) = TimeSlot::from_label(labels[i].as_str()) {
                slots.push(slot);
            }
            i += 1;
        }
        assert(texts(labels@).take(i as int) == texts(labels@));
        Availability(slots)
    }

    /// How many half hours are open.
    pub fn len(&self) -> (len: usize)
        ensures
            len == self@.len(),
    {
        self.0.len()
    }

    /// Whether no half hour is open.
    pub fn is_empty(&self) -> (empty: bool)
        ensures
            empty == (self@.len() == 0),
    {
        self.0.len() == 0
    }

    /// The open half hour at place `index` of the card's order, where there
    /// are as many.
    pub fn slot(&self, index: usize) -> (slot: Option<TimeSlot>)
        ensures
            match slot {
                Some(slot) => index < self@.len() && slot@ == self@[index as int] && slot@ < SLOTS,
                None => index >= self@.len(),
            },
    {
        if index < self.0.len() {
            let slot = self.0[index];
            let _ = slot.to_discriminant();
            Some(slot)
        } else {
            None
        }
    }

    /// The labels of the open half hours, in order.
    pub fn labels(&self) -> (labels: Vec<String>)
        ensures
            texts(labels@) == self@.map_values(|slot: nat| slot_label(slot)),
    {
        let mut labels: Vec<String> = Vec::new();
        let mut i: usize = 0;
        while i < self.0.len()
            invariant
                i <= self.0.len(),
                texts(labels@) == self@.take(i as int).map_values(|slot: nat| slot_label(slot)),
            decreases self.0.len() - i,
        {
            let ghost before = labels@;
            labels.push(self.0[i].to_label());
            assert(texts(labels@) == texts(before).push(slot_label(self@[i as int])));
            i += 1;
        }
        labels
    }

    /// The open half hours as a line of text: `Fully booked` where there is
    /// none, else their labels in square brackets, a comma and a space
    /// between each two.
    pub fn render(&self) -> (text: String)
        ensures
            text@ == rendering(self@),
    {
        if self.0.len() == 0 {
            return String::from_str("Fully booked");
        }
        let mut text = String::from_str("[");
        let first = self.0[0].to_label();
        text.append(first.as_str());
        let mut i: usize = 1;
        while i < self.0.len()
            invariant
                1 <= i <= self.0.len(),
                text@ == "["@ + joined_labels(self@.take(i as int)),
            decreases self.0.len() - i,
        {
            let label = self.0[i].to_label();
            text.append(", ");
            text.append(label.as_str());
            assert(self@.take(i + 1).drop_last() == self@.take(i as int));
            i += 1;
        }
        assert(self@.take(i as int) == self@);
        text.append("]");
        text
    }
}

} // verus!
