//! Reading the rooms and their open half hours off the booking page, one
//! command of the driver at a time.
//!
//! An extraction loads the page for a day and a party, makes sure of the
//! search button, and then goes through the cards of the rooms in the order
//! of the page: title, description, a click to unfold the half hours, and
//! the label of each. The first command that fails ends it.

use crate::availability::{labels_aligned, open_slots, Availability};
use crate::booking::{booking_url, booking_url_text, Date};
use crate::driver::{answers, Command, CommandView, ElementId, Reply, ReplyView, Selector};
use crate::room::{choice_titled, room_of, Room, RoomChoice, RoomView};
use crate::search_button::{
    ButtonSearch, ButtonSearchView, FindSearchButtonError, SearchStep, SearchStepView,
};
use crate::text::texts;
use crate::time_slot::{half_hour_aligned, TimeSlot};
use vstd::pervasive::unreached;
use vstd::prelude::*;

verus! {

/// Why an extraction ended without its rooms. `E` is the driver's own
/// error.
#[derive(Debug)]
pub enum AvailableRoomsError<E> {
    /// The page could not be loaded.
    NavigateToUrlError(E),
    /// The search button was not found.
    FindSearchButtonError(FindSearchButtonError<E>),
    /// Elements could not be looked for.
    QuerySelectorError(E),
    /// The text of an element could not be read.
    FailedGetText(E),
    /// The link that unfolds the half hours could not be clicked.
    ClickError(E),
}

/// The rooms with their open half hours, as an extraction gathers them.
pub type Rooms = Seq<(RoomView, Seq<nat>)>;

/// What a run of rooms with their open half hours holds.
pub open spec fn rooms_view(rooms: Seq<(Room, Availability)>) -> Rooms {
    rooms.map_values(|pair: (Room, Availability)| (pair.0@, pair.1@))
}

/// What an extraction waits for, with what it holds of the card in hand.
pub enum PhaseView {
    /// The page at `url` to be loaded.
    Navigating { url: Seq<char> },
    /// A step of the search for the button.
    FindingButton { search: ButtonSearchView },
    /// The cards of the rooms.
    FindingCards,
    /// The title element of the card.
    FindingTitle,
    /// The text of the title element.
    ReadingTitle { element: ElementId },
    /// The description element of the card.
    FindingDescription { title: Seq<char> },
    /// The text of the description element.
    ReadingDescription { title: Seq<char>, element: ElementId },
    /// The link of the card that unfolds its half hours.
    FindingToggle { room: RoomView },
    /// The click on that link.
    ClickingToggle { room: RoomView, element: ElementId },
    /// The half hours of the card.
    FindingSlots { room: RoomView },
    /// The label of the half hour after those whose labels were read.
    ReadingSlot { room: RoomView, slots: Seq<ElementId>, labels: Seq<Seq<char>> },
}

/// What an extraction is, between two commands: the cards of the page, the
/// rooms of the cards done with, and what it waits for. The card in hand is
/// the one after those done with.
pub struct ExtractionView {
    pub cards: Seq<ElementId>,
    pub rooms: Rooms,
    pub phase: PhaseView,
}

/// What a step of an extraction is.
pub enum StepView<E> {
    Perform(ExtractionView),
    Finish(Result<Rooms, AvailableRoomsError<E>>),
}

impl ExtractionView {
    /// An extraction at its start, about to load the page at `url`.
    pub open spec fn initial(url: Seq<char>) -> ExtractionView {
        ExtractionView {
            cards: Seq::empty(),
            rooms: Seq::empty(),
            phase: PhaseView::Navigating { url },
        }
    }

    /// The card in hand.
    pub open spec fn card(self) -> ElementId {
        self.cards[self.rooms.len() as int]
    }

    /// The command whose reply the extraction waits for.
    pub open spec fn pending(self) -> CommandView {
        match self.phase {
            PhaseView::Navigating { url } => CommandView::Navigate { url },
            PhaseView::FindingButton { search } => search.pending(),
            PhaseView::FindingCards => CommandView::QueryAll {
                scope: None,
                selector: Selector::RoomCard,
            },
            PhaseView::FindingTitle => CommandView::QueryOne {
                scope: Some(self.card()),
                selector: Selector::CardTitle,
            },
            PhaseView::ReadingTitle { element } => CommandView::Text { element },
            PhaseView::FindingDescription { .. } => CommandView::QueryOne {
                scope: Some(self.card()),
                selector: Selector::CardDescription,
            },
            PhaseView::ReadingDescription { element, .. } => CommandView::Text { element },
            PhaseView::FindingToggle { .. } => CommandView::QueryOne {
                scope: Some(self.card()),
                selector: Selector::AvailabilityToggle,
            },
            PhaseView::ClickingToggle { element, .. } => CommandView::Click { element },
            PhaseView::FindingSlots { .. } => CommandView::QueryAll {
                scope: Some(self.card()),
                selector: Selector::TimeSlot,
            },
            PhaseView::ReadingSlot { slots, labels, .. } => CommandView::Text {
                element: slots[labels.len() as int],
            },
        }
    }

    /// Whether the extraction can take `reply`: it answers the pending
    /// command, and where it is the label of a half hour, the label keeps
    /// to the half hours.
    pub open spec fn accepts<E>(self, reply: ReplyView<E>) -> bool {
        &&& answers(self.pending(), reply)
        &&& self.phase is ReadingSlot ==> match reply {
            ReplyView::Text(label) => half_hour_aligned(label),
            _ => true,
        }
    }

    /// The error with which the failure `error` of the pending command ends
    /// the extraction: that of loading the page, of the search for the
    /// button, of looking for elements, of reading a text, or of the click.
    pub open spec fn failure<E>(self, error: E) -> AvailableRoomsError<E> {
        match self.phase {
            PhaseView::Navigating { .. } => AvailableRoomsError::NavigateToUrlError(error),
            PhaseView::FindingButton { .. } => AvailableRoomsError::FindSearchButtonError(
                FindSearchButtonError::CommandError(error),
            ),
            PhaseView::FindingCards
            | PhaseView::FindingTitle
            | PhaseView::FindingDescription { .. }
            | PhaseView::FindingToggle { .. }
            | PhaseView::FindingSlots { .. } => AvailableRoomsError::QuerySelectorError(error),
            PhaseView::ReadingTitle { .. }
            | PhaseView::ReadingDescription { .. }
            | PhaseView::ReadingSlot { .. } => AvailableRoomsError::FailedGetText(error),
            PhaseView::ClickingToggle { .. } => AvailableRoomsError::ClickError(error),
        }
    }

    /// How an extraction goes on between two cards: with the title of the
    /// next card, or to its end, with the rooms gathered.
    pub open spec fn next_card<E>(cards: Seq<ElementId>, rooms: Rooms) -> StepView<E> {
        if rooms.len() < cards.len() {
            StepView::Perform(ExtractionView { cards, rooms, phase: PhaseView::FindingTitle })
        } else {
            StepView::Finish(Ok(rooms))
        }
    }

    /// How the extraction goes on between two half hours of the card of
    /// `room`: with the label of the next, and after the last with the next
    /// card, the room and the slots that the labels name being added to the
    /// rooms.
    pub open spec fn next_slot<E>(
        self,
        room: RoomView,
        slots: Seq<ElementId>,
        labels: Seq<Seq<char>>,
    ) -> StepView<E> {
        if labels.len() < slots.len() {
            StepView::Perform(
                ExtractionView { phase: PhaseView::ReadingSlot { room, slots, labels }, ..self },
            )
        } else {
            Self::next_card(self.cards, self.rooms.push((room, open_slots(labels))))
        }
    }

    /// How the extraction goes on after `reply`, the reply to its pending
    /// command.
    pub open spec fn next<E>(self, reply: ReplyView<E>) -> StepView<E> {
        match (self.phase, reply) {
            (_, ReplyView::Failed(error)) => StepView::Finish(Err(self.failure(error))),
            (PhaseView::Navigating { .. }, _) => StepView::Perform(
                ExtractionView {
                    phase: PhaseView::FindingButton { search: ButtonSearchView::initial() },
                    ..self
                },
            ),
            (PhaseView::FindingButton { search }, _) => match search.next(reply) {
                SearchStepView::Perform(search) => StepView::Perform(
                    ExtractionView { phase: PhaseView::FindingButton { search }, ..self },
                ),
                SearchStepView::Finish(Ok(_)) => StepView::Perform(
                    ExtractionView { phase: PhaseView::FindingCards, ..self },
                ),
                SearchStepView::Finish(Err(error)) => StepView::Finish(
                    Err(AvailableRoomsError::FindSearchButtonError(error)),
                ),
            },
            (PhaseView::FindingCards, _) => Self::next_card(reply->Elements_0, self.rooms),
            (PhaseView::FindingTitle, _) => StepView::Perform(
                ExtractionView {
                    phase: PhaseView::ReadingTitle { element: reply->Element_0 },
                    ..self
                },
            ),
            (PhaseView::ReadingTitle { .. }, _) => StepView::Perform(
                ExtractionView {
                    phase: PhaseView::FindingDescription { title: reply->Text_0 },
                    ..self
                },
            ),
            (PhaseView::FindingDescription { title }, _) => StepView::Perform(
                ExtractionView {
                    phase: PhaseView::ReadingDescription { title, element: reply->Element_0 },
                    ..self
                },
            ),
            (PhaseView::ReadingDescription { title, .. }, _) => StepView::Perform(
                ExtractionView {
                    phase: PhaseView::FindingToggle {
                        room: room_of(choice_titled(title), title, reply->Text_0),
                    },
                    ..self
                },
            ),
            (PhaseView::FindingToggle { room }, _) => StepView::Perform(
                ExtractionView {
                    phase: PhaseView::ClickingToggle { room, element: reply->Element_0 },
                    ..self
                },
            ),
            (PhaseView::ClickingToggle { room, .. }, _) => StepView::Perform(
                ExtractionView { phase: PhaseView::FindingSlots { room }, ..self },
            ),
            (PhaseView::FindingSlots { room }, _) => self.next_slot(
                room,
                reply->Elements_0,
                Seq::empty(),
            ),
            (PhaseView::ReadingSlot { room, slots, labels }, _) => self.next_slot(
                room,
                slots,
                labels.push(reply->Text_0),
            ),
        }
    }
}

/// What an extraction waits for, with what it holds of the card in hand.
#[derive(Debug)]
enum Phase {
    Navigating { url: String },
    FindingButton { search: ButtonSearch },
    FindingCards,
    FindingTitle,
    ReadingTitle { element: ElementId },
    FindingDescription { title: String },
    ReadingDescription { title: String, element: ElementId },
    FindingToggle { room: Room },
    ClickingToggle { room: Room, element: ElementId },
    FindingSlots { room: Room },
    ReadingSlot { room: Room, slots: Vec<ElementId>, labels: Vec<String> },
}

impl View for Phase {
    type V = PhaseView;

    closed spec fn view(&self) -> PhaseView {
        match *self {
            Phase::Navigating { url } => PhaseView::Navigating { url: url@ },
            Phase::FindingButton { search } => PhaseView::FindingButton { search: search@ },
            Phase::FindingCards => PhaseView::FindingCards,
            Phase::FindingTitle => PhaseView::FindingTitle,
            Phase::ReadingTitle { element } => PhaseView::ReadingTitle { element },
            Phase::FindingDescription { title } => PhaseView::FindingDescription { title: title@ },
            Phase::ReadingDescription { title, element } => PhaseView::ReadingDescription {
                title: title@,
                element,
            },
            Phase::FindingToggle { room } => PhaseView::FindingToggle { room: room@ },
            Phase::ClickingToggle { room, element } => PhaseView::ClickingToggle {
                room: room@,
                element,
            },
            Phase::FindingSlots { room } => PhaseView::FindingSlots { room: room@ },
            Phase::ReadingSlot { room, slots, labels } => PhaseView::ReadingSlot {
                room: room@,
                slots: slots@,
                labels: texts(labels@),
            },
        }
    }
}

/// An extraction, between two commands.
#[derive(Debug)]
pub struct Extraction {
    cards: Vec<ElementId>,
    rooms: Vec<(Room, Availability)>,
    phase: Phase,
}

/// A step of an extraction.
#[derive(Debug)]
pub enum Step<E> {
    /// The driver is to perform the command and to resume the extraction
    /// with the reply.
    Perform(Extraction, Command),
    /// The extraction is over: it gives the rooms of the page in the order
    /// of their cards, each with its open half hours, or the error that
    /// ended it.
    Finish(Result<Vec<(Room, Availability)>, AvailableRoomsError<E>>),
}

impl View for Extraction {
    type V = ExtractionView;

    closed spec fn view(&self) -> ExtractionView {
        ExtractionView { cards: self.cards@, rooms: rooms_view(self.rooms@), phase: self.phase@ }
    }
}

impl<E> View for Step<E> {
    type V = StepView<E>;

    open spec fn view(&self) -> StepView<E> {
        match *self {
            Step::Perform(extraction, _) => StepView::Perform(extraction@),
            Step::Finish(Ok(rooms)) => StepView::Finish(Ok(rooms_view(rooms@))),
            Step::Finish(Err(error)) => StepView::Finish(Err(error)),
        }
    }
}

impl Extraction {
    #[verifier::type_invariant]
    spec fn has_card_in_hand(self) -> bool {
        match self.phase {
            Phase::Navigating { .. }
            | Phase::FindingButton { .. }
            | Phase::FindingCards => self.rooms.len() == 0,
            Phase::ReadingSlot { slots, labels, .. } => {
                &&& self.rooms.len() < self.cards.len()
                &&& labels.len() < slots.len()
                &&& labels_aligned(texts(labels@))
            },
            _ => self.rooms.len() < self.cards.len(),
        }
    }

    /// The extraction for the day `date` and a party of `group_size`, and
    /// its first command: to load the booking page for them.
    pub fn start(date: &Date, group_size: u8) -> (started: (Extraction, Command))
        ensures
            started.0@ == ExtractionView::initial(booking_url_text(date@.iso, group_size)),
            started.1@ == started.0@.pending(),
    {
        let url = booking_url(date.iso(), group_size);
        let extraction = Extraction {
            cards: Vec::new(),
            rooms: Vec::new(),
            phase: Phase::Navigating { url: url.clone() },
        };
        assert(rooms_view(extraction.rooms@) == Seq::<(RoomView, Seq<nat>)>::empty());
        (extraction, Command::Navigate { url })
    }

    /// Whether the extraction can take `reply`: whether it answers the
    /// command that was given last and, where it is the label of a half
    /// hour, keeps to the half hours.
    pub fn accepts<E>(&self, reply: &Reply<E>) -> (accepted: bool)
        ensures
            accepted == self@.accepts(reply@),
    {
        match reply {
            Reply::Failed(_) => true,
            Reply::Done => match &self.phase {
                Phase::Navigating { .. } | Phase::ClickingToggle { .. } => true,
                _ => false,
            },
            Reply::Elements(_) => match &self.phase {
                Phase::FindingButton { search } => search.accepts(reply),
                Phase::FindingCards | Phase::FindingSlots { .. } => true,
                _ => false,
            },
            Reply::Element(_) => match &self.phase {
                Phase::FindingTitle
                | Phase::FindingDescription { .. }
                | Phase::FindingToggle { .. } => true,
                _ => false,
            },
            Reply::Displayed(_) => match &self.phase {
                Phase::FindingButton { search } => search.accepts(reply),
                _ => false,
            },
            Reply::Text(label) => match &self.phase {
                Phase::ReadingTitle { .. } | Phase::ReadingDescription { .. } => true,
                Phase::ReadingSlot { .. } => TimeSlot::is_half_hour_aligned(label.as_str()),
                _ => false,
            },
        }
    }

    /// Goes on between two cards.
    fn next_card<E>(cards: Vec<ElementId>, rooms: Vec<(Room, Availability)>) -> (step: Step<E>)
        requires
            rooms.len() <= cards.len(),
        ensures
            step@ == ExtractionView::next_card::<E>(cards@, rooms_view(rooms@)),
            step matches Step::Perform(next, command) ==> command@ == next@.pending(),
    {
        if rooms.len() < cards.len() {
            let scope = cards[rooms.len()];
            Step::Perform(
                Extraction { cards, rooms, phase: Phase::FindingTitle },
                Command::QueryOne { scope: Some(scope), selector: Selector::CardTitle },
            )
        } else {
            Step::Finish(Ok(rooms))
        }
    }

    /// Goes on between two half hours of the card in hand.
    fn next_slot<E>(
        cards: Vec<ElementId>,
        rooms: Vec<(Room, Availability)>,
        room: Room,
        slots: Vec<ElementId>,
        labels: Vec<String>,
    ) -> (step: Step<E>)
        requires
            rooms.len() < cards.len(),
            labels.len() <= slots.len(),
            labels_aligned(texts(labels@)),
        ensures
            step@ == (ExtractionView {
                cards: cards@,
                rooms: rooms_view(rooms@),
                phase: PhaseView::FindingSlots { room: room@ },
            }).next_slot::<E>(room@, slots@, texts(labels@)),
            step matches Step::Perform(next, command) ==> command@ == next@.pending(),
    {
        if labels.len() < slots.len() {
            let element = slots[labels.len()];
            Step::Perform(
                Extraction { cards, rooms, phase: Phase::ReadingSlot { room, slots, labels } },
                Command::Text { element },
            )
        } else {
            let ghost before = rooms@;
            let ghost pair = (room@, open_slots(texts(labels@)));
            let mut rooms = rooms;
            let availability = Availability::from(labels);
            rooms.push((room, availability));
            assert(rooms_view(rooms@) == rooms_view(before).push(pair));
            Self::next_card(cards, rooms)
        }
    }

    /// Goes on with the extraction after `reply`, the reply to the command
    /// that was given last: one that `accepts` passes.
    pub fn resume<E>(self, reply: Reply<E>) -> (step: Step<E>)
        requires
            self@.accepts(reply@),
        ensures
            step@ == self@.next(reply@),
            step matches Step::Perform(next, command) ==> command@ == next@.pending(),
    {
        proof {
            use_type_invariant(&self);
        }
        let Extraction { cards, rooms, phase } = self;
        match (phase, reply) {
            (Phase::Navigating { .. }, Reply::Failed(error)) => Step::Finish(
                Err(AvailableRoomsError::NavigateToUrlError(error)),
            ),
            (Phase::FindingButton { .. }, Reply::Failed(error)) => Step::Finish(
                Err(
                    AvailableRoomsError::FindSearchButtonError(
                        FindSearchButtonError::CommandError(error),
                    ),
                ),
            ),
            (
                Phase::FindingCards
                | Phase::FindingTitle
                | Phase::FindingDescription { .. }
                | Phase::FindingToggle { .. }
                | Phase::FindingSlots { .. },
                Reply::Failed(error),
            ) => Step::Finish(Err(AvailableRoomsError::QuerySelectorError(error))),
            (
                Phase::ReadingTitle { .. }
                | Phase::ReadingDescription { .. }
                | Phase::ReadingSlot { .. },
                Reply::Failed(error),
            ) => Step::Finish(Err(AvailableRoomsError::FailedGetText(error))),
            (Phase::ClickingToggle { .. }, Reply::Failed(error)) => Step::Finish(
                Err(AvailableRoomsError::ClickError(error)),
            ),
            (Phase::Navigating { .. }, Reply::Done) => {
                let (search, command) = ButtonSearch::start();
                Step::Perform(
                    Extraction { cards, rooms, phase: Phase::FindingButton { search } },
                    command,
                )
            },
            (Phase::FindingButton { search }, reply) => match search.resume(reply) {
                SearchStep::Perform(search, command) => Step::Perform(
                    Extraction { cards, rooms, phase: Phase::FindingButton { search } },
                    command,
                ),
                SearchStep::Finish(Ok(_)) => Step::Perform(
                    Extraction { cards, rooms, phase: Phase::FindingCards },
                    Command::QueryAll { scope: None, selector: Selector::RoomCard },
                ),
                SearchStep::Finish(Err(error)) => Step::Finish(
                    Err(AvailableRoomsError::FindSearchButtonError(error)),
                ),
            },
            (Phase::FindingCards, Reply::Elements(cards)) => Self::next_card(cards, rooms),
            (Phase::FindingTitle, Reply::Element(element)) => Step::Perform(
                Extraction { cards, rooms, phase: Phase::ReadingTitle { element } },
                Command::Text { element },
            ),
            (Phase::ReadingTitle { .. }, Reply::Text(title)) => {
                let scope = cards[rooms.len()];
                Step::Perform(
                    Extraction { cards, rooms, phase: Phase::FindingDescription { title } },
                    Command::QueryOne { scope: Some(scope), selector: Selector::CardDescription },
                )
            },
            (Phase::FindingDescription { title }, Reply::Element(element)) => Step::Perform(
                Extraction { cards, rooms, phase: Phase::ReadingDescription { title, element } },
                Command::Text { element },
            ),
            (Phase::ReadingDescription { title, .. }, Reply::Text(description)) => {
                let scope = cards[rooms.len()];
                let choice = RoomChoice::from_title(title.as_str());
                let room = Room::new(choice, title, description);
                Step::Perform(
                    Extraction { cards, rooms, phase: Phase::FindingToggle { room } },
                    Command::QueryOne {
                        scope: Some(scope),
                        selector: Selector::AvailabilityToggle,
                    },
                )
            },
            (Phase::FindingToggle { room }, Reply::Element(element)) => Step::Perform(
                Extraction { cards, rooms, phase: Phase::ClickingToggle { room, element } },
                Command::Click { element },
            ),
            (Phase::ClickingToggle { room, .. }, Reply::Done) => {
                let scope = cards[rooms.len()];
                Step::Perform(
                    Extraction { cards, rooms, phase: Phase::FindingSlots { room } },
                    Command::QueryAll { scope: Some(scope), selector: Selector::TimeSlot },
                )
            },
            (Phase::FindingSlots { room }, Reply::Elements(slots)) => {
                assert(texts(Seq::<String>::empty()) == Seq::<Seq<char>>::empty());
                Self::next_slot(cards, rooms, room, slots, Vec::new())
            },
            (Phase::ReadingSlot { room, slots, labels }, Reply::Text(label)) => {
                let ghost read = labels@;
                let mut labels = labels;
                labels.push(label);
                assert(texts(labels@) == texts(read).push(label@));
                Self::next_slot(cards, rooms, room, slots, labels)
            },
            _ => unreached(),
        }
    }
}

} // verus!
