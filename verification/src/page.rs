//! What an extraction comes to on a page for which the driver answers
//! truly: the rooms of its cards, in the order of the cards, where just one
//! of the candidates for the search button is shown.

use crate::availability::{labels_aligned, open_slots};
use crate::driver::{ElementId, ReplyView};
use crate::extraction::{AvailableRoomsError, ExtractionView, PhaseView, Rooms, StepView};
use crate::room::{choice_titled, room_of, RoomView};
use crate::search_button::{search_button, ButtonSearchView};
use vstd::prelude::*;

verus! {

/// A card of the page: its elements as the driver names them, and their
/// texts.
pub struct CardModel {
    pub card: ElementId,
    pub title_element: ElementId,
    pub title: Seq<char>,
    pub description_element: ElementId,
    pub description: Seq<char>,
    pub toggle: ElementId,
    /// The half hours that the card lists once unfolded.
    pub slots: Seq<ElementId>,
    /// Their labels, one for each.
    pub labels: Seq<Seq<char>>,
}

/// The booking page: the candidates for the search button, of each whether
/// it is shown, and the cards of the rooms.
pub struct PageModel {
    pub buttons: Seq<ElementId>,
    pub shown: Seq<bool>,
    pub cards: Seq<CardModel>,
}

impl CardModel {
    /// Whether the card has a label for each half hour, and labels that
    /// keep to the half hours.
    pub open spec fn well_formed(self) -> bool {
        self.labels.len() == self.slots.len() && labels_aligned(self.labels)
    }

    /// The room of the card with its open half hours.
    pub open spec fn room(self) -> (RoomView, Seq<nat>) {
        (
            room_of(choice_titled(self.title), self.title, self.description),
            open_slots(self.labels),
        )
    }

    /// What the driver answers while the extraction has the card in hand.
    pub open spec fn replies<E>(self) -> Seq<ReplyView<E>> {
        seq![
            ReplyView::Element(self.title_element),
            ReplyView::Text(self.title),
            ReplyView::Element(self.description_element),
            ReplyView::Text(self.description),
            ReplyView::Element(self.toggle),
            ReplyView::Done,
            ReplyView::Elements(self.slots),
        ] + self.labels.map_values(|label: Seq<char>| ReplyView::Text(label))
    }
}

/// What the driver answers while the extraction goes through `cards`.
pub open spec fn cards_replies<E>(cards: Seq<CardModel>) -> Seq<ReplyView<E>>
    decreases cards.len(),
{
    if cards.len() == 0 {
        Seq::empty()
    } else {
        cards[0].replies() + cards_replies(cards.drop_first())
    }
}

impl PageModel {
    /// Whether the page tells of each candidate whether it is shown, and
    /// each of its cards is well formed.
    pub open spec fn well_formed(self) -> bool {
        &&& self.shown.len() == self.buttons.len()
        &&& forall|i: int| 0 <= i < self.cards.len() ==> (#[trigger] self.cards[i]).well_formed()
    }

    /// The rooms of the page with their open half hours, in the order of
    /// the cards.
    pub open spec fn rooms(self) -> Rooms {
        self.cards.map_values(|card: CardModel| card.room())
    }

    /// What an extraction on the page is to end with: the rooms of the
    /// page where just one candidate for the search button is shown, and
    /// the error of the search where not.
    pub open spec fn outcome<E>(self) -> Result<Rooms, AvailableRoomsError<E>> {
        match search_button::<E>(self.buttons, self.shown) {
            Ok(_) => Ok(self.rooms()),
            Err(error) => Err(AvailableRoomsError::FindSearchButtonError(error)),
        }
    }

    /// What the driver answers in the course of an extraction on the page,
    /// none of its commands failing: the page is loaded, the candidates for
    /// the button are found and each is told shown or not; then, where the
    /// button is found, come the cards and the answers for each.
    pub open spec fn replies<E>(self) -> Seq<ReplyView<E>> {
        seq![ReplyView::Done, ReplyView::Elements(self.buttons)] + self.shown.map_values(
            |shown: bool| ReplyView::Displayed(shown),
        ) + if search_button::<E>(self.buttons, self.shown) is Ok {
            seq![ReplyView::Elements(self.cards.map_values(|card: CardModel| card.card))]
                + cards_replies(self.cards)
        } else {
            Seq::empty()
        }
    }
}

/// Where an extraction stands after the replies `replies`, taken one after
/// the other from `state` on: the step that the last of them leads to, or
/// the end that one of them brought.
pub open spec fn run<E>(state: ExtractionView, replies: Seq<ReplyView<E>>) -> StepView<E>
    decreases replies.len(),
{
    if replies.len() == 0 {
        StepView::Perform(state)
    } else {
        match state.next(replies[0]) {
            StepView::Perform(next) => run(next, replies.drop_first()),
            StepView::Finish(outcome) => StepView::Finish(outcome),
        }
    }
}

/// Whether the extraction can take each of `replies` in its turn, from
/// `state` on, and none is left over when the extraction ends.
pub open spec fn takes<E>(state: ExtractionView, replies: Seq<ReplyView<E>>) -> bool
    decreases replies.len(),
{
    replies.len() == 0 || (state.accepts(replies[0]) && match state.next(replies[0]) {
        StepView::Perform(next) => takes(next, replies.drop_first()),
        StepView::Finish(_) => replies.len() == 1,
    })
}

/// Taking one reply and then others is taking them all in a row.
proof fn lemma_run_one<E>(state: ExtractionView, reply: ReplyView<E>, rest: Seq<ReplyView<E>>)
    ensures
        run(state, seq![reply] + rest) == match state.next(reply) {
            StepView::Perform(next) => run(next, rest),
            StepView::Finish(outcome) => StepView::Finish(outcome),
        },
        takes(state, seq![reply] + rest) == (state.accepts(reply) && match state.next(reply) {
            StepView::Perform(next) => takes(next, rest),
            StepView::Finish(_) => rest.len() == 0,
        }),
{
    assert((seq![reply] + rest).drop_first() == rest);
}

/// Taking some replies and then others is taking them all in a row.
proof fn lemma_run_on<E>(
    state: ExtractionView,
    first: Seq<ReplyView<E>>,
    second: Seq<ReplyView<E>>,
)
    requires
        run(state, first) is Perform,
    ensures
        run(state, first + second) == run(run(state, first)->Perform_0, second),
        takes(state, first + second) == (takes(state, first) && takes(
            run(state, first)->Perform_0,
            second,
        )),
    decreases first.len(),
{
    if first.len() > 0 {
        assert((first + second).drop_first() == first.drop_first() + second);
        if let StepView::Perform(next) = state.next(first[0]) {
            lemma_run_on(next, first.drop_first(), second);
        }
    }
}

/// The search for the button, once the candidates are found, comes with
/// the answers for the candidates left to the cards of the page, or to the
/// error of the search.
proof fn lemma_run_search<E>(
    state: ExtractionView,
    buttons: Seq<ElementId>,
    told: Seq<bool>,
    left: Seq<bool>,
)
    requires
        state.phase == (PhaseView::FindingButton {
            search: ButtonSearchView { buttons: Some(buttons), shown: told },
        }),
        left.len() > 0,
        told.len() + left.len() == buttons.len(),
    ensures
        takes(state, left.map_values(|shown: bool| ReplyView::<E>::Displayed(shown))),
        run(state, left.map_values(|shown: bool| ReplyView::<E>::Displayed(shown))) == match search_button::<
            E,
        >(buttons, told + left) {
            Ok(_) => StepView::Perform(ExtractionView { phase: PhaseView::FindingCards, ..state }),
            Err(error) => StepView::Finish(
                Err(AvailableRoomsError::FindSearchButtonError(error)),
            ),
        },
    decreases left.len(),
{
    let replies = left.map_values(|shown: bool| ReplyView::<E>::Displayed(shown));
    let rest = left.drop_first().map_values(|shown: bool| ReplyView::<E>::Displayed(shown));
    assert(replies == seq![ReplyView::<E>::Displayed(left[0])] + rest);
    lemma_run_one(state, ReplyView::<E>::Displayed(left[0]), rest);
    let now = told.push(left[0]);
    assert(now + left.drop_first() == told + left);
    if left.len() > 1 {
        let next = ExtractionView {
            phase: PhaseView::FindingButton {
                search: ButtonSearchView { buttons: Some(buttons), shown: now },
            },
            ..state
        };
        lemma_run_search::<E>(next, buttons, now, left.drop_first());
    }
}

/// The labels left of the card in hand bring the extraction to the next
/// card, the room of this one being added to the rooms.
proof fn lemma_run_labels<E>(
    state: ExtractionView,
    room: RoomView,
    slots: Seq<ElementId>,
    read: Seq<Seq<char>>,
    left: Seq<Seq<char>>,
)
    requires
        state.phase == (PhaseView::ReadingSlot { room, slots, labels: read }),
        left.len() > 0,
        read.len() + left.len() == slots.len(),
        labels_aligned(left),
    ensures
        takes(state, left.map_values(|label: Seq<char>| ReplyView::<E>::Text(label))),
        run(state, left.map_values(|label: Seq<char>| ReplyView::<E>::Text(label)))
            == ExtractionView::next_card::<E>(
            state.cards,
            state.rooms.push((room, open_slots(read + left))),
        ),
    decreases left.len(),
{
    let replies = left.map_values(|label: Seq<char>| ReplyView::<E>::Text(label));
    let rest = left.drop_first().map_values(|label: Seq<char>| ReplyView::<E>::Text(label));
    assert(replies == seq![ReplyView::<E>::Text(left[0])] + rest);
    lemma_run_one(state, ReplyView::<E>::Text(left[0]), rest);
    let now = read.push(left[0]);
    assert(now + left.drop_first() == read + left);
    if left.len() > 1 {
        let next = ExtractionView {
            phase: PhaseView::ReadingSlot { room, slots, labels: now },
            ..state
        };
        lemma_run_labels::<E>(next, room, slots, now, left.drop_first());
    }
}

/// The answers for a card bring the extraction from the title of the card
/// to the next card, the room of this one being added to the rooms.
proof fn lemma_run_card<E>(state: ExtractionView, card: CardModel)
    requires
        state.phase == PhaseView::FindingTitle,
        card.well_formed(),
    ensures
        takes(state, card.replies::<E>()),
        run(state, card.replies::<E>()) == ExtractionView::next_card::<E>(
            state.cards,
            state.rooms.push(card.room()),
        ),
{
    let room = room_of(choice_titled(card.title), card.title, card.description);
    let texts = card.labels.map_values(|label: Seq<char>| ReplyView::<E>::Text(label));
    let r6 = seq![ReplyView::<E>::Elements(card.slots)] + texts;
    let r5 = seq![ReplyView::<E>::Done] + r6;
    let r4 = seq![ReplyView::<E>::Element(card.toggle)] + r5;
    let r3 = seq![ReplyView::<E>::Text(card.description)] + r4;
    let r2 = seq![ReplyView::<E>::Element(card.description_element)] + r3;
    let r1 = seq![ReplyView::<E>::Text(card.title)] + r2;
    let r0 = seq![ReplyView::<E>::Element(card.title_element)] + r1;
    assert(card.replies::<E>() == r0);
    let s1 = ExtractionView {
        phase: PhaseView::ReadingTitle { element: card.title_element },
        ..state
    };
    let s2 = ExtractionView { phase: PhaseView::FindingDescription { title: card.title }, ..state };
    let s3 = ExtractionView {
        phase: PhaseView::ReadingDescription {
            title: card.title,
            element: card.description_element,
        },
        ..state
    };
    let s4 = ExtractionView { phase: PhaseView::FindingToggle { room }, ..state };
    let s5 = ExtractionView {
        phase: PhaseView::ClickingToggle { room, element: card.toggle },
        ..state
    };
    let s6 = ExtractionView { phase: PhaseView::FindingSlots { room }, ..state };
    lemma_run_one(state, ReplyView::<E>::Element(card.title_element), r1);
    lemma_run_one(s1, ReplyView::<E>::Text(card.title), r2);
    lemma_run_one(s2, ReplyView::<E>::Element(card.description_element), r3);
    lemma_run_one(s3, ReplyView::<E>::Text(card.description), r4);
    lemma_run_one(s4, ReplyView::<E>::Element(card.toggle), r5);
    lemma_run_one(s5, ReplyView::<E>::Done, r6);
    lemma_run_one(s6, ReplyView::<E>::Elements(card.slots), texts);
    if card.slots.len() > 0 {
        let read = Seq::<Seq<char>>::empty();
        let s7 = ExtractionView {
            phase: PhaseView::ReadingSlot { room, slots: card.slots, labels: read },
            ..state
        };
        lemma_run_labels::<E>(s7, room, card.slots, read, card.labels);
    }
}

/// The answers for the cards left bring the extraction to its end, with
/// the rooms of all the cards.
proof fn lemma_run_cards<E>(state: ExtractionView, cards: Seq<CardModel>, done: int)
    requires
        0 <= done < cards.len(),
        forall|i: int| 0 <= i < cards.len() ==> (#[trigger] cards[i]).well_formed(),
        state.phase == PhaseView::FindingTitle,
        state.cards.len() == cards.len(),
        state.rooms == cards.take(done).map_values(|card: CardModel| card.room()),
    ensures
        takes(state, cards_replies::<E>(cards.skip(done))),
        run(state, cards_replies::<E>(cards.skip(done))) == StepView::<E>::Finish(
            Ok(cards.map_values(|card: CardModel| card.room())),
        ),
    decreases cards.len() - done,
{
    let first = cards[done].replies::<E>();
    let second = cards_replies::<E>(cards.skip(done + 1));
    assert(cards.skip(done).drop_first() == cards.skip(done + 1));
    let rooms = state.rooms.push(cards[done].room());
    assert(rooms == cards.take(done + 1).map_values(|card: CardModel| card.room()));
    lemma_run_card::<E>(state, cards[done]);
    if done + 1 < cards.len() {
        let next = ExtractionView { cards: state.cards, rooms, phase: PhaseView::FindingTitle };
        lemma_run_on(state, first, second);
        lemma_run_cards::<E>(next, cards, done + 1);
    } else {
        assert(cards.take(done + 1) == cards);
    }
}

/// An extraction on a well-formed page, for which the driver answers
/// truly and no command fails, takes every answer in its turn and ends
/// with the outcome of the page: its rooms in the order of the cards where
/// just one candidate for the search button is shown, and else the error
/// of the search.
pub proof fn lemma_extraction_on_page<E>(page: PageModel, url: Seq<char>)
    requires
        page.well_formed(),
    ensures
        takes(ExtractionView::initial(url), page.replies::<E>()),
        run(ExtractionView::initial(url), page.replies::<E>()) == StepView::<E>::Finish(
            page.outcome(),
        ),
{
    let start = ExtractionView::initial(url);
    let displayed = page.shown.map_values(|shown: bool| ReplyView::<E>::Displayed(shown));
    let ids = page.cards.map_values(|card: CardModel| card.card);
    let on_cards = if search_button::<E>(page.buttons, page.shown) is Ok {
        seq![ReplyView::<E>::Elements(ids)] + cards_replies::<E>(page.cards)
    } else {
        Seq::<ReplyView<E>>::empty()
    };
    let on_buttons = displayed + on_cards;
    let after_load = seq![ReplyView::<E>::Elements(page.buttons)] + on_buttons;
    assert(page.replies::<E>() == seq![ReplyView::<E>::Done] + after_load);
    let searching = ExtractionView {
        phase: PhaseView::FindingButton { search: ButtonSearchView::initial() },
        ..start
    };
    lemma_run_one(start, ReplyView::<E>::Done, after_load);
    lemma_run_one(searching, ReplyView::<E>::Elements(page.buttons), on_buttons);
    if page.buttons.len() > 0 {
        let told = Seq::<bool>::empty();
        let probing = ExtractionView {
            phase: PhaseView::FindingButton {
                search: ButtonSearchView { buttons: Some(page.buttons), shown: told },
            },
            ..start
        };
        lemma_run_search::<E>(probing, page.buttons, told, page.shown);
        if search_button::<E>(page.buttons, page.shown) is Ok {
            let listing = ExtractionView { phase: PhaseView::FindingCards, ..start };
            lemma_run_on(probing, displayed, on_cards);
            lemma_run_one(listing, ReplyView::<E>::Elements(ids), cards_replies::<E>(page.cards));
            if page.cards.len() > 0 {
                let first = ExtractionView {
                    cards: ids,
                    rooms: start.rooms,
                    phase: PhaseView::FindingTitle,
                };
                assert(page.cards.take(0).map_values(|card: CardModel| card.room())
                    == start.rooms);
                assert(page.cards.skip(0) == page.cards);
                lemma_run_cards::<E>(first, page.cards, 0);
            } else {
                assert(page.rooms() == start.rooms);
            }
        }
    }
}

} // verus!
