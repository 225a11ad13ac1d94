//! The rooms of the booking page: which room a card's title names, and how
//! many people its description says it holds.

use crate::capacity::{capacity_of_token, inferred_capacity, stringly_capacity};
use crate::text::same_str;
use vstd::prelude::*;

verus! {

/// A room that the library is known to let.
#[derive(Debug, Clone, Copy, PartialEq, Eq, Structural, Hash)]
pub enum KnownRoom {
    R205AMeetingRoom,
    R205BMeetingRoom,
    R205CMeetingRoom,
    R206ATerentiukSpaceForAdultLearning,
    R206BMillarFamilyLearningAndDiscoveryRoom,
    R320CMeetingRoom,
    R320GMeetingRoom,
    R320HMeetingRoom,
    R310AMeetingRoom,
    R310BMeetingRoom,
    R317AMeetingRoom,
    R317BFieldLawMeetingRoom,
    R319CMeetingRoom,
    R320AIdeaLab,
    R316B,
}

/// Either a room that is known, or one that the page shows and this library
/// has no name for.
#[derive(Debug, Clone, Copy, PartialEq, Eq, Structural, Hash)]
pub enum RoomChoice {
    KnownRoom(KnownRoom),
    UnknownRoom,
}

impl KnownRoom {
    /// The title under which the booking page shows the room.
    pub open spec fn title_text(self) -> Seq<char> {
        match self {
            KnownRoom::R205AMeetingRoom => "2-05A Meeting Room"@,
            KnownRoom::R205BMeetingRoom => "2-05B Meeting Room"@,
            KnownRoom::R205CMeetingRoom => "2-05C Meeting Room"@,
            KnownRoom::R206ATerentiukSpaceForAdultLearning => "2-06A Terentiuk Space for Adult Learning"@,
            KnownRoom::R206BMillarFamilyLearningAndDiscoveryRoom => "2-06B Millar Family Learning and Discovery Room"@,
            KnownRoom::R320CMeetingRoom => "3-20C Meeting Room"@,
            KnownRoom::R320GMeetingRoom => "3-20G Meeting Room"@,
            KnownRoom::R320HMeetingRoom => "3-20H Meeting Room"@,
            KnownRoom::R310AMeetingRoom => "3-10A Meeting Room"@,
            KnownRoom::R310BMeetingRoom => "3-10B Meeting Room"@,
            KnownRoom::R317AMeetingRoom => "3-17A Meeting Room"@,
            KnownRoom::R317BFieldLawMeetingRoom => "3-17B Field Law Meeting Room"@,
            KnownRoom::R319CMeetingRoom => "3-19C Meeting Room"@,
            KnownRoom::R320AIdeaLab => "3-20A Idea Lab"@,
            KnownRoom::R316B => "3-16B"@,
        }
    }

    /// The title under which the booking page shows the room.
    pub fn title(&self) -> (title: &'static str)
        ensures
            title@ == self.title_text(),
    {
        match self {
            KnownRoom::R205AMeetingRoom => "2-05A Meeting Room",
            KnownRoom::R205BMeetingRoom => "2-05B Meeting Room",
            KnownRoom::R205CMeetingRoom => "2-05C Meeting Room",
            KnownRoom::R206ATerentiukSpaceForAdultLearning => "2-06A Terentiuk Space for Adult Learning",
            KnownRoom::R206BMillarFamilyLearningAndDiscoveryRoom => "2-06B Millar Family Learning and Discovery Room",
            KnownRoom::R320CMeetingRoom => "3-20C Meeting Room",
            KnownRoom::R320GMeetingRoom => "3-20G Meeting Room",
            KnownRoom::R320HMeetingRoom => "3-20H Meeting Room",
            KnownRoom::R310AMeetingRoom => "3-10A Meeting Room",
            KnownRoom::R310BMeetingRoom => "3-10B Meeting Room",
            KnownRoom::R317AMeetingRoom => "3-17A Meeting Room",
            KnownRoom::R317BFieldLawMeetingRoom => "3-17B Field Law Meeting Room",
            KnownRoom::R319CMeetingRoom => "3-19C Meeting Room",
            KnownRoom::R320AIdeaLab => "3-20A Idea Lab",
            KnownRoom::R316B => "3-16B",
        }
    }

    /// Every known room, each once.
    pub fn all() -> (rooms: Vec<KnownRoom>)
        ensures
            forall|room: KnownRoom| rooms@.contains(room),
            rooms@.no_duplicates(),
    {
        let rooms = vec![
            KnownRoom::R205AMeetingRoom,
            KnownRoom::R205BMeetingRoom,
            KnownRoom::R205CMeetingRoom,
            KnownRoom::R206ATerentiukSpaceForAdultLearning,
            KnownRoom::R206BMillarFamilyLearningAndDiscoveryRoom,
            KnownRoom::R320CMeetingRoom,
            KnownRoom::R320GMeetingRoom,
            KnownRoom::R320HMeetingRoom,
            KnownRoom::R310AMeetingRoom,
            KnownRoom::R310BMeetingRoom,
            KnownRoom::R317AMeetingRoom,
            KnownRoom::R317BFieldLawMeetingRoom,
            KnownRoom::R319CMeetingRoom,
            KnownRoom::R320AIdeaLab,
            KnownRoom::R316B,
        ];
        proof {
            assert forall|room: KnownRoom| rooms@.contains(room) by {
                let i: int = match room {
                    KnownRoom::R205AMeetingRoom => 0,
                    KnownRoom::R205BMeetingRoom => 1,
                    KnownRoom::R205CMeetingRoom => 2,
                    KnownRoom::R206ATerentiukSpaceForAdultLearning => 3,
                    KnownRoom::R206BMillarFamilyLearningAndDiscoveryRoom => 4,
                    KnownRoom::R320CMeetingRoom => 5,
                    KnownRoom::R320GMeetingRoom => 6,
                    KnownRoom::R320HMeetingRoom => 7,
                    KnownRoom::R310AMeetingRoom => 8,
                    KnownRoom::R310BMeetingRoom => 9,
                    KnownRoom::R317AMeetingRoom => 10,
                    KnownRoom::R317BFieldLawMeetingRoom => 11,
                    KnownRoom::R319CMeetingRoom => 12,
                    KnownRoom::R320AIdeaLab => 13,
                    KnownRoom::R316B => 14,
                };
            }
        }
        rooms
    }
}

/// The known room that the page shows under `title`, where there is one.
pub open spec fn room_titled(title: Seq<char>) -> Option<KnownRoom> {
    if exists|room: KnownRoom| room.title_text() == title {
        Some(choose|room: KnownRoom| room.title_text() == title)
    } else {
        None
    }
}

/// The room that the page shows under `title`: the known room of just that
/// title, and an unknown room where no known room has it.
pub open spec fn choice_titled(title: Seq<char>) -> RoomChoice {
    match room_titled(title) {
        Some(room) => RoomChoice::KnownRoom(room),
        None => RoomChoice::UnknownRoom,
    }
}

/// What tells the titles of the known rooms apart: the first five
/// characters, the number of the room.
proof fn lemma_title_number(room: KnownRoom)
    ensures
        room.title_text().len() >= 5,
        room.title_text().take(5) == match room {
            KnownRoom::R205AMeetingRoom => seq!['2', '-', '0', '5', 'A'],
            KnownRoom::R205BMeetingRoom => seq!['2', '-', '0', '5', 'B'],
            KnownRoom::R205CMeetingRoom => seq!['2', '-', '0', '5', 'C'],
            KnownRoom::R206ATerentiukSpaceForAdultLearning => seq!['2', '-', '0', '6', 'A'],
            KnownRoom::R206BMillarFamilyLearningAndDiscoveryRoom => seq!['2', '-', '0', '6', 'B'],
            KnownRoom::R320CMeetingRoom => seq!['3', '-', '2', '0', 'C'],
            KnownRoom::R320GMeetingRoom => seq!['3', '-', '2', '0', 'G'],
            KnownRoom::R320HMeetingRoom => seq!['3', '-', '2', '0', 'H'],
            KnownRoom::R310AMeetingRoom => seq!['3', '-', '1', '0', 'A'],
            KnownRoom::R310BMeetingRoom => seq!['3', '-', '1', '0', 'B'],
            KnownRoom::R317AMeetingRoom => seq!['3', '-', '1', '7', 'A'],
            KnownRoom::R317BFieldLawMeetingRoom => seq!['3', '-', '1', '7', 'B'],
            KnownRoom::R319CMeetingRoom => seq!['3', '-', '1', '9', 'C'],
            KnownRoom::R320AIdeaLab => seq!['3', '-', '2', '0', 'A'],
            KnownRoom::R316B => seq!['3', '-', '1', '6', 'B'],
        },
{
    reveal_strlit("2-05A Meeting Room");
    reveal_strlit("2-05B Meeting Room");
    reveal_strlit("2-05C Meeting Room");
    reveal_strlit("2-06A Terentiuk Space for Adult Learning");
    reveal_strlit("2-06B Millar Family Learning and Discovery Room");
    reveal_strlit("3-20C Meeting Room");
    reveal_strlit("3-20G Meeting Room");
    reveal_strlit("3-20H Meeting Room");
    reveal_strlit("3-10A Meeting Room");
    reveal_strlit("3-10B Meeting Room");
    reveal_strlit("3-17A Meeting Room");
    reveal_strlit("3-17B Field Law Meeting Room");
    reveal_strlit("3-19C Meeting Room");
    reveal_strlit("3-20A Idea Lab");
    reveal_strlit("3-16B");
}

/// No two known rooms have the same title.
pub proof fn lemma_titles_differ(one: KnownRoom, other: KnownRoom)
    requires
        one != other,
    ensures
        one.title_text() != other.title_text(),
{
    lemma_title_number(one);
    lemma_title_number(other);
}

/// The title of a known room names that room, and a title names no room but
/// the one whose title it is.
pub proof fn lemma_room_titled(room: KnownRoom)
    ensures
        room_titled(room.title_text()) == Some(room),
        choice_titled(room.title_text()) == RoomChoice::KnownRoom(room),
{
    let found = choose|found: KnownRoom| found.title_text() == room.title_text();
    if found != room {
        lemma_titles_differ(found, room);
    }
}

/// A title that is no known room's names an unknown room.
pub proof fn lemma_unknown_title(title: Seq<char>)
    requires
        forall|room: KnownRoom| room.title_text() != title,
    ensures
        choice_titled(title) == RoomChoice::UnknownRoom,
{
}

impl RoomChoice {
    /// The known room that the page shows under `title`, where there is
    /// one.
    pub fn try_from_title(title: &str) -> (choice: Option<RoomChoice>)
        ensures
            choice == match room_titled(title@) {
                Some(room) => Some(RoomChoice::KnownRoom(room)),
                None => None,
            },
    {
        let rooms = KnownRoom::all();
        let mut i: usize = 0;
        while i < rooms.len()
            invariant
                i <= rooms.len(),
                forall|room: KnownRoom| rooms@.contains(room),
                forall|j: int| 0 <= j < i ==> rooms@[j].title_text() != title@,
            decreases rooms.len() - i,
        {
            let room = rooms[i];
            if same_str(title, room.title()) {
                proof {
                    lemma_room_titled(room);
                }
                return Some(RoomChoice::KnownRoom(room));
            }
            i += 1;
        }
        proof {
            assert forall|room: KnownRoom| room.title_text() != title@ by {
                assert(rooms@.contains(room));
            }
        }
        None
    }

    /// The room that the page shows under `title`.
    pub fn from_title(title: &str) -> (choice: RoomChoice)
        ensures
            choice == choice_titled(title@),
    {
        match Self::try_from_title(title) {
            Some(choice) => choice,
            None => RoomChoice::UnknownRoom,
        }
    }
}

/// What a room is, as the booking page shows it.
pub struct RoomView {
    /// Which room it is.
    pub choice: RoomChoice,
    /// The title of its card.
    pub title: Seq<char>,
    /// The description on its card.
    pub description: Seq<char>,
    /// How many people it holds, as far as the description says.
    pub inferred_capacity: Option<u8>,
}

/// The room of a card with the given title and description, taken for the
/// room `choice`: its capacity is the one that the description states.
pub open spec fn room_of(choice: RoomChoice, title: Seq<char>, description: Seq<char>) -> RoomView {
    RoomView { choice, title, description, inferred_capacity: inferred_capacity(description) }
}

/// A room as the booking page shows it.
#[derive(Debug)]
pub struct Room {
    choice: RoomChoice,
    title: String,
    description: String,
    inferred_capacity: Option<u8>,
}

impl View for Room {
    type V = RoomView;

    closed spec fn view(&self) -> RoomView {
        RoomView {
            choice: self.choice,
            title: self.title@,
            description: self.description@,
            inferred_capacity: self.inferred_capacity,
        }
    }
}

impl Room {
    #[verifier::type_invariant]
    spec fn capacity_is_inferred(self) -> bool {
        self.inferred_capacity == inferred_capacity(self.description@)
    }

    /// The capacity that a description states, where it states one.
    pub fn infer_capacity_from_description(description: &str) -> (capacity: Option<u8>)
        ensures
            capacity == inferred_capacity(description@),
    {
        match stringly_capacity(description) {
            Some(token) => capacity_of_token(&token),
            None => None,
        }
    }

    /// The room of a card with the given title and description, taken for
    /// the room `choice`.
    pub fn new(choice: RoomChoice, title: String, description: String) -> (room: Room)
        ensures
            room@ == room_of(choice, title@, description@),
    {
        let inferred_capacity = Self::infer_capacity_from_description(description.as_str());
        Room { choice, title, description, inferred_capacity }
    }

    /// Which room it is.
    pub fn choice(&self) -> (choice: RoomChoice)
        ensures
            choice == self@.choice,
    {
        self.choice
    }

    /// The title of its card.
    pub fn title(&self) -> (title: &str)
        ensures
            title@ == self@.title,
    {
        self.title.as_str()
    }

    /// The description on its card.
    pub fn description(&self) -> (description: &str)
        ensures
            description@ == self@.description,
    {
        self.description.as_str()
    }

    /// How many people it holds, as far as its description says.
    pub fn inferred_capacity(&self) -> (capacity: Option<u8>)
        ensures
            capacity == self@.inferred_capacity,
            capacity == inferred_capacity(self@.description),
    {
        proof {
            use_type_invariant(self);
        }
        self.inferred_capacity
    }
}

} // verus!
