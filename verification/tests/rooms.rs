use calgary_central_library::capacity::{capacity_of_token, stringly_capacity, token_of_phrases};
use calgary_central_library::{KnownRoom, Room, RoomChoice};

fn infer_capacity_from_description(description: &str) -> Option<u8> {
    Room::infer_capacity_from_description(description)
}

fn chars(text: &str) -> Vec<char> {
    text.chars().collect()
}

#[test]
fn known_title_names_its_room() {
    assert_eq!(
        RoomChoice::from_title("2-05A Meeting Room"),
        RoomChoice::KnownRoom(KnownRoom::R205AMeetingRoom)
    );
}

#[test]
fn new_title_names_an_unknown_room() {
    assert_eq!(RoomChoice::from_title("Some New Room"), RoomChoice::UnknownRoom);
    assert_eq!(RoomChoice::try_from_title("Some New Room"), None);
}

#[test]
fn every_known_room_is_named_by_its_title() {
    let titles = [
        ("2-05A Meeting Room", KnownRoom::R205AMeetingRoom),
        ("2-05B Meeting Room", KnownRoom::R205BMeetingRoom),
        ("2-05C Meeting Room", KnownRoom::R205CMeetingRoom),
        (
            "2-06A Terentiuk Space for Adult Learning",
            KnownRoom::R206ATerentiukSpaceForAdultLearning,
        ),
        (
            "2-06B Millar Family Learning and Discovery Room",
            KnownRoom::R206BMillarFamilyLearningAndDiscoveryRoom,
        ),
        ("3-20C Meeting Room", KnownRoom::R320CMeetingRoom),
        ("3-20G Meeting Room", KnownRoom::R320GMeetingRoom),
        ("3-20H Meeting Room", KnownRoom::R320HMeetingRoom),
        ("3-10A Meeting Room", KnownRoom::R310AMeetingRoom),
        ("3-10B Meeting Room", KnownRoom::R310BMeetingRoom),
        ("3-17A Meeting Room", KnownRoom::R317AMeetingRoom),
        ("3-17B Field Law Meeting Room", KnownRoom::R317BFieldLawMeetingRoom),
        ("3-19C Meeting Room", KnownRoom::R319CMeetingRoom),
        ("3-20A Idea Lab", KnownRoom::R320AIdeaLab),
        ("3-16B", KnownRoom::R316B),
    ];
    assert_eq!(KnownRoom::all().len(), titles.len());
    for (title, room) in titles {
        assert_eq!(room.title(), title);
        assert_eq!(RoomChoice::from_title(title), RoomChoice::KnownRoom(room));
        assert_eq!(RoomChoice::try_from_title(title), Some(RoomChoice::KnownRoom(room)));
    }
}

#[test]
fn titles_are_matched_to_the_letter() {
    assert_eq!(RoomChoice::from_title("2-05a Meeting Room"), RoomChoice::UnknownRoom);
    assert_eq!(RoomChoice::from_title("2-05A Meeting Room "), RoomChoice::UnknownRoom);
    assert_eq!(RoomChoice::from_title(" 2-05A Meeting Room"), RoomChoice::UnknownRoom);
    assert_eq!(RoomChoice::from_title("2-05A"), RoomChoice::UnknownRoom);
    assert_eq!(RoomChoice::from_title("3-16B Meeting Room"), RoomChoice::UnknownRoom);
    assert_eq!(RoomChoice::from_title(""), RoomChoice::UnknownRoom);
}

#[test]
fn capacity_in_a_number_word() {
    assert_eq!(
        infer_capacity_from_description("This room can accommodate up to ten people at a table."),
        Some(10)
    );
    assert_eq!(
        infer_capacity_from_description("It can accommodate up to six people."),
        Some(6)
    );
    assert_eq!(
        infer_capacity_from_description("It can accommodate up to four people."),
        Some(4)
    );
}

#[test]
fn capacity_in_figures() {
    assert_eq!(
        infer_capacity_from_description("A bright room. It has a capacity of 8 and a screen."),
        Some(8)
    );
    assert_eq!(infer_capacity_from_description("It has a capacity of 8"), Some(8));
    assert_eq!(
        infer_capacity_from_description("We can accommodate up to 12 people here."),
        Some(12)
    );
    assert_eq!(infer_capacity_from_description("It has a capacity of 255"), Some(255));
    assert_eq!(infer_capacity_from_description("It has a capacity of 007"), Some(7));
    assert_eq!(infer_capacity_from_description("It has a capacity of 0"), Some(0));
}

#[test]
fn no_mention_gives_no_capacity() {
    assert_eq!(infer_capacity_from_description("no mention"), None);
    assert_eq!(infer_capacity_from_description(""), None);
}

#[test]
fn unknown_words_give_no_capacity() {
    assert_eq!(infer_capacity_from_description("accommodate up to twenty people"), None);
    assert_eq!(infer_capacity_from_description("accommodate up to Ten people"), None);
    assert_eq!(infer_capacity_from_description("It has a capacity of 8."), None);
    assert_eq!(infer_capacity_from_description("It has a capacity of +8"), None);
    assert_eq!(infer_capacity_from_description("It has a capacity of 256"), None);
    assert_eq!(infer_capacity_from_description("It has a capacity of 1000"), None);
    assert_eq!(infer_capacity_from_description("it has a capacity of 8"), None);
    assert_eq!(infer_capacity_from_description("accommodate up to  people"), None);
}

#[test]
fn the_first_phrase_goes_before_the_second() {
    let description = "It has a capacity of 8 but can accommodate up to ten people.";
    assert_eq!(infer_capacity_from_description(description), Some(10));
    let description = "It has a capacity of 8 but can accommodate up to many people.";
    assert_eq!(infer_capacity_from_description(description), None);
}

#[test]
fn the_word_is_cut_out_of_the_phrase() {
    assert_eq!(
        stringly_capacity("The room can accommodate up to ten people."),
        Some(chars("ten"))
    );
    assert_eq!(stringly_capacity("It has a capacity of 8, they say"), Some(chars("8,")));
    assert_eq!(
        stringly_capacity("accommodate up to 3 people, accommodate up to 4 people"),
        Some(chars("3"))
    );
    assert_eq!(stringly_capacity("accommodate up to ten  people"), None);
    assert_eq!(stringly_capacity("nothing"), None);
}

#[test]
fn words_of_given_phrases() {
    assert_eq!(
        token_of_phrases(Some("accommodate up to ten people"), None),
        Some(chars("ten"))
    );
    assert_eq!(
        token_of_phrases(Some("accommodate up to ten people"), Some("It has a capacity of 8")),
        Some(chars("ten"))
    );
    assert_eq!(token_of_phrases(None, Some("It has a capacity of 8")), Some(chars("8")));
    assert_eq!(token_of_phrases(None, None), None);
    assert_eq!(token_of_phrases(Some("accommodate up to people"), None), None);
    assert_eq!(
        token_of_phrases(Some("something else"), Some("It has a capacity of 8")),
        Some(chars("8"))
    );
    assert_eq!(token_of_phrases(None, Some("It has a capacity of ")), Some(chars("")));
    assert_eq!(token_of_phrases(None, Some("It has a capacity of")), None);
}

#[test]
fn numbers_of_given_words() {
    assert_eq!(capacity_of_token(&chars("ten")), Some(10));
    assert_eq!(capacity_of_token(&chars("six")), Some(6));
    assert_eq!(capacity_of_token(&chars("four")), Some(4));
    assert_eq!(capacity_of_token(&chars("42")), Some(42));
    assert_eq!(capacity_of_token(&chars("255")), Some(255));
    assert_eq!(capacity_of_token(&chars("256")), None);
    assert_eq!(capacity_of_token(&chars("99999999999999999999999")), None);
    assert_eq!(capacity_of_token(&chars("")), None);
    assert_eq!(capacity_of_token(&chars("five")), None);
    assert_eq!(capacity_of_token(&chars("4x")), None);
    assert_eq!(capacity_of_token(&chars("٤")), None);
}

#[test]
fn a_room_keeps_what_it_was_made_of() {
    let room = Room::new(
        RoomChoice::from_title("3-20A Idea Lab"),
        "3-20A Idea Lab".to_string(),
        "A lab. It has a capacity of 20".to_string(),
    );
    assert_eq!(room.choice(), RoomChoice::KnownRoom(KnownRoom::R320AIdeaLab));
    assert_eq!(room.title(), "3-20A Idea Lab");
    assert_eq!(room.description(), "A lab. It has a capacity of 20");
    assert_eq!(room.inferred_capacity(), Some(20));
}

#[test]
fn a_room_without_stated_capacity() {
    let room = Room::new(RoomChoice::UnknownRoom, "Loft".to_string(), "Cosy.".to_string());
    assert_eq!(room.choice(), RoomChoice::UnknownRoom);
    assert_eq!(room.inferred_capacity(), None);
}
