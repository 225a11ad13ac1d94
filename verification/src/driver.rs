//! What passes between the library and the driver of a browser: the
//! commands that the library gives, and what the driver says came of them.
//!
//! The library never touches a page. It names the next command; the driver
//! performs it on the live page and reports back, one command at a time.

use vstd::prelude::*;

verus! {

/// The name that the driver gives to an element of the page, by which both
/// sides speak of it.
#[derive(Debug, Clone, Copy, PartialEq, Eq, Structural, Hash)]
pub struct ElementId(pub u64);

/// The kinds of element that the library looks for on the booking page.
#[derive(Debug, Clone, Copy, PartialEq, Eq, Structural, Hash)]
pub enum Selector {
    /// The button that submits the search.
    SearchButton,
    /// The card of one room.
    RoomCard,
    /// The title on a card.
    CardTitle,
    /// The description on a card.
    CardDescription,
    /// The link on a card that unfolds its half hours.
    AvailabilityToggle,
    /// One half hour on a card.
    TimeSlot,
}

impl Selector {
    /// The CSS selector that finds elements of this kind.
    pub open spec fn css_text(self) -> Seq<char> {
        match self {
            Selector::SearchButton => "button.btn-submission.red[value='Search']"@,
            Selector::RoomCard => ".room-booking-card"@,
            Selector::CardTitle => ".uk-card-title"@,
            Selector::CardDescription => "p"@,
            Selector::AvailabilityToggle => "a.availability"@,
            Selector::TimeSlot => "li.time-slot"@,
        }
    }

    /// The CSS selector that finds elements of this kind.
    pub fn css(&self) -> (css: &'static str)
        ensures
            css@ == self.css_text(),
    {
        match self {
            Selector::SearchButton => "button.btn-submission.red[value='Search']",
            Selector::RoomCard => ".room-booking-card",
            Selector::CardTitle => ".uk-card-title",
            Selector::CardDescription => "p",
            Selector::AvailabilityToggle => "a.availability",
            Selector::TimeSlot => "li.time-slot",
        }
    }
}

/// What a command is.
pub enum CommandView {
    Navigate { url: Seq<char> },
    QueryAll { scope: Option<ElementId>, selector: Selector },
    QueryOne { scope: Option<ElementId>, selector: Selector },
    IsDisplayed { element: ElementId },
    Text { element: ElementId },
    Click { element: ElementId },
}

/// A command for the driver.
#[derive(Debug)]
pub enum Command {
    /// Load the page at `url`.
    Navigate { url: String },
    /// Find every element of the kind `selector`: within `scope`, or on the
    /// whole page where there is none.
    QueryAll { scope: Option<ElementId>, selector: Selector },
    /// Find the one element of the kind `selector`: within `scope`, or on
    /// the whole page where there is none.
    QueryOne { scope: Option<ElementId>, selector: Selector },
    /// Tell whether `element` is shown.
    IsDisplayed { element: ElementId },
    /// Read the text of `element` as the page shows it.
    Text { element: ElementId },
    /// Click on `element`.
    Click { element: ElementId },
}

impl View for Command {
    type V = CommandView;

    open spec fn view(&self) -> CommandView {
        match *self {
            Command::Navigate { url } => CommandView::Navigate { url: url@ },
            Command::QueryAll { scope, selector } => CommandView::QueryAll { scope, selector },
            Command::QueryOne { scope, selector } => CommandView::QueryOne { scope, selector },
            Command::IsDisplayed { element } => CommandView::IsDisplayed { element },
            Command::Text { element } => CommandView::Text { element },
            Command::Click { element } => CommandView::Click { element },
        }
    }
}

/// What a reply is.
pub enum ReplyView<E> {
    Done,
    Elements(Seq<ElementId>),
    Element(ElementId),
    Displayed(bool),
    Text(Seq<char>),
    Failed(E),
}

/// What the driver says came of a command. `E` is the driver's own error.
#[derive(Debug)]
pub enum Reply<E> {
    /// The page was loaded, or the element clicked.
    Done,
    /// The elements found, in the order of the page.
    Elements(Vec<ElementId>),
    /// The one element found.
    Element(ElementId),
    /// Whether the element is shown.
    Displayed(bool),
    /// The text read.
    Text(String),
    /// The command failed.
    Failed(E),
}

impl<E> View for Reply<E> {
    type V = ReplyView<E>;

    open spec fn view(&self) -> ReplyView<E> {
        match *self {
            Reply::Done => ReplyView::Done,
            Reply::Elements(elements) => ReplyView::Elements(elements@),
            Reply::Element(element) => ReplyView::Element(element),
            Reply::Displayed(shown) => ReplyView::Displayed(shown),
            Reply::Text(text) => ReplyView::Text(text@),
            Reply::Failed(error) => ReplyView::Failed(error),
        }
    }
}

/// Whether `reply` is one that the command `command` can have: the outcome
/// that belongs to its kind, or its failure.
pub open spec fn answers<E>(command: CommandView, reply: ReplyView<E>) -> bool {
    reply is Failed || match command {
        CommandView::Navigate { .. } => reply is Done,
        CommandView::QueryAll { .. } => reply is Elements,
        CommandView::QueryOne { .. } => reply is Element,
        CommandView::IsDisplayed { .. } => reply is Displayed,
        CommandView::Text { .. } => reply is Text,
        CommandView::Click { .. } => reply is Done,
    }
}

} // verus!
