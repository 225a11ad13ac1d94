use calgary_central_library::driver::{Command, ElementId, Reply, Selector};
use calgary_central_library::extraction::{AvailableRoomsError, Extraction, Step};
use calgary_central_library::search_button::FindSearchButtonError;
use calgary_central_library::{Availability, Date, KnownRoom, Room, RoomChoice};

struct Card {
    title: &'static str,
    description: &'static str,
    slots: Vec<&'static str>,
}

#[derive(Clone, Copy, PartialEq, Debug)]
enum Node {
    Button(usize),
    Card(usize),
    Title(usize),
    Description(usize),
    Toggle(usize),
    Slot(usize, usize),
}

/// A page held in memory, with a driver that answers for it.
struct Page {
    buttons: Vec<bool>,
    cards: Vec<Card>,
    unfolded: Vec<bool>,
    nodes: Vec<Node>,
    log: Vec<String>,
    fail_at: Option<usize>,
}

impl Page {
    fn new(buttons: Vec<bool>, cards: Vec<Card>) -> Page {
        let unfolded = vec![false; cards.len()];
        Page { buttons, cards, unfolded, nodes: Vec::new(), log: Vec::new(), fail_at: None }
    }

    fn failing_at(mut self, command: usize) -> Page {
        self.fail_at = Some(command);
        self
    }

    fn id(&mut self, node: Node) -> ElementId {
        self.nodes.push(node);
        ElementId(100 + self.nodes.len() as u64 - 1)
    }

    fn node(&self, element: ElementId) -> Node {
        self.nodes[(element.0 - 100) as usize]
    }

    fn perform(&mut self, command: &Command) -> Reply<String> {
        let count = self.log.len();
        self.log.push(match command {
            Command::Navigate { url } => format!("navigate {}", url),
            Command::QueryAll { scope, selector } => {
                format!("all {} in {:?}", selector.css(), scope.map(|e| self.node(e)))
            }
            Command::QueryOne { scope, selector } => {
                format!("one {} in {:?}", selector.css(), scope.map(|e| self.node(e)))
            }
            Command::IsDisplayed { element } => format!("displayed {:?}", self.node(*element)),
            Command::Text { element } => format!("text {:?}", self.node(*element)),
            Command::Click { element } => format!("click {:?}", self.node(*element)),
        });
        if self.fail_at == Some(count) {
            return Reply::Failed(format!("command {} failed", count));
        }
        match command {
            Command::Navigate { .. } => Reply::Done,
            Command::QueryAll { scope: None, selector: Selector::SearchButton } => {
                let ids = (0..self.buttons.len()).map(|i| self.id(Node::Button(i))).collect();
                Reply::Elements(ids)
            }
            Command::QueryAll { scope: None, selector: Selector::RoomCard } => {
                let ids = (0..self.cards.len()).map(|i| self.id(Node::Card(i))).collect();
                Reply::Elements(ids)
            }
            Command::QueryAll { scope: Some(card), selector: Selector::TimeSlot } => {
                let Node::Card(i) = self.node(*card) else { panic!("no card") };
                let shown = if self.unfolded[i] { self.cards[i].slots.len() } else { 0 };
                let ids = (0..shown).map(|j| self.id(Node::Slot(i, j))).collect();
                Reply::Elements(ids)
            }
            Command::QueryOne { scope: Some(card), selector } => {
                let Node::Card(i) = self.node(*card) else { panic!("no card") };
                let node = match selector {
                    Selector::CardTitle => Node::Title(i),
                    Selector::CardDescription => Node::Description(i),
                    Selector::AvailabilityToggle => Node::Toggle(i),
                    other => panic!("unexpected selector {:?}", other),
                };
                Reply::Element(self.id(node))
            }
            Command::IsDisplayed { element } => {
                let Node::Button(i) = self.node(*element) else { panic!("no button") };
                Reply::Displayed(self.buttons[i])
            }
            Command::Text { element } => Reply::Text(match self.node(*element) {
                Node::Title(i) => self.cards[i].title.to_string(),
                Node::Description(i) => self.cards[i].description.to_string(),
                Node::Slot(i, j) => self.cards[i].slots[j].to_string(),
                other => panic!("no text in {:?}", other),
            }),
            Command::Click { element } => {
                let Node::Toggle(i) = self.node(*element) else { panic!("no toggle") };
                self.unfolded[i] = true;
                Reply::Done
            }
            other => panic!("unexpected command {:?}", other),
        }
    }

    fn extract(&mut self) -> Result<Vec<(Room, Availability)>, AvailableRoomsError<String>> {
        let date = Date::from_ymd(2024, 3, 5).unwrap();
        let (mut extraction, mut command) = Extraction::start(&date, 10);
        loop {
            let reply = self.perform(&command);
            assert!(extraction.accepts(&reply));
            match extraction.resume(reply) {
                Step::Perform(next, then) => {
                    extraction = next;
                    command = then;
                }
                Step::Finish(outcome) => return outcome,
            }
        }
    }
}

fn two_rooms() -> Vec<Card> {
    vec![
        Card {
            title: "2-05A Meeting Room",
            description: "This room can accommodate up to ten people around one table.",
            slots: vec!["10:00 AM", "Booked until noon", "10:30 AM"],
        },
        Card { title: "Unknown Room X", description: "A room.", slots: vec![] },
    ]
}

#[test]
fn rooms_of_a_page_with_two_cards() {
    let mut page = Page::new(vec![false, true, false], two_rooms());
    let rooms = page.extract().unwrap();
    assert_eq!(rooms.len(), 2);
    let (room, availability) = &rooms[0];
    assert_eq!(room.choice(), RoomChoice::KnownRoom(KnownRoom::R205AMeetingRoom));
    assert_eq!(room.title(), "2-05A Meeting Room");
    assert_eq!(
        room.description(),
        "This room can accommodate up to ten people around one table."
    );
    assert_eq!(room.inferred_capacity(), Some(10));
    assert_eq!(availability.render(), "[10:00 AM, 10:30 AM]");
    let (room, availability) = &rooms[1];
    assert_eq!(room.choice(), RoomChoice::UnknownRoom);
    assert_eq!(room.title(), "Unknown Room X");
    assert_eq!(room.inferred_capacity(), None);
    assert_eq!(availability.render(), "Fully booked");
}

#[test]
fn commands_of_an_extraction_in_order() {
    let mut page = Page::new(vec![true], two_rooms());
    page.extract().unwrap();
    let expected = [
        "navigate https://calgarylibrary.ca/events-and-programs/book-a-space/book-a-room/?date=2024-03-05&location=1&groupsize=10",
        "all button.btn-submission.red[value='Search'] in None",
        "displayed Button(0)",
        "all .room-booking-card in None",
        "one .uk-card-title in Some(Card(0))",
        "text Title(0)",
        "one p in Some(Card(0))",
        "text Description(0)",
        "one a.availability in Some(Card(0))",
        "click Toggle(0)",
        "all li.time-slot in Some(Card(0))",
        "text Slot(0, 0)",
        "text Slot(0, 1)",
        "text Slot(0, 2)",
        "one .uk-card-title in Some(Card(1))",
        "text Title(1)",
        "one p in Some(Card(1))",
        "text Description(1)",
        "one a.availability in Some(Card(1))",
        "click Toggle(1)",
        "all li.time-slot in Some(Card(1))",
    ];
    assert_eq!(page.log, expected);
}

#[test]
fn a_page_without_cards_has_no_rooms() {
    let mut page = Page::new(vec![true], Vec::new());
    assert!(page.extract().unwrap().is_empty());
    assert_eq!(page.log.len(), 4);
}

#[test]
fn no_button_shown() {
    let mut page = Page::new(vec![false, false], two_rooms());
    assert!(matches!(
        page.extract(),
        Err(AvailableRoomsError::FindSearchButtonError(FindSearchButtonError::NoButtonFound))
    ));
    assert_eq!(page.log.len(), 4);
}

#[test]
fn no_button_at_all() {
    let mut page = Page::new(Vec::new(), two_rooms());
    assert!(matches!(
        page.extract(),
        Err(AvailableRoomsError::FindSearchButtonError(FindSearchButtonError::NoButtonFound))
    ));
    assert_eq!(page.log.len(), 2);
}

#[test]
fn more_than_one_button_shown() {
    let mut page = Page::new(vec![true, false, true], two_rooms());
    assert!(matches!(
        page.extract(),
        Err(AvailableRoomsError::FindSearchButtonError(
            FindSearchButtonError::MoreThanOneButtonFound
        ))
    ));
    assert_eq!(page.log.len(), 5);
}

#[test]
fn each_failure_ends_the_extraction_with_its_error() {
    for command in 0..21 {
        let mut page = Page::new(vec![true], two_rooms()).failing_at(command);
        let error = page.extract().unwrap_err();
        assert_eq!(page.log.len(), command + 1);
        let text = format!("command {} failed", command);
        match command {
            0 => assert!(matches!(error, AvailableRoomsError::NavigateToUrlError(e) if e == text)),
            1 | 2 => assert!(matches!(
                error,
                AvailableRoomsError::FindSearchButtonError(FindSearchButtonError::CommandError(e))
                    if e == text
            )),
            3 | 4 | 6 | 8 | 10 | 14 | 16 | 18 | 20 => {
                assert!(matches!(error, AvailableRoomsError::QuerySelectorError(e) if e == text))
            }
            9 | 19 => assert!(matches!(error, AvailableRoomsError::ClickError(e) if e == text)),
            _ => assert!(matches!(error, AvailableRoomsError::FailedGetText(e) if e == text)),
        }
    }
}

#[test]
fn replies_that_do_not_answer_are_not_accepted() {
    let date = Date::from_ymd(2024, 3, 5).unwrap();
    let (extraction, command) = Extraction::start(&date, 2);
    assert!(matches!(command, Command::Navigate { .. }));
    assert!(extraction.accepts(&Reply::<String>::Done));
    assert!(extraction.accepts(&Reply::Failed("no".to_string())));
    assert!(!extraction.accepts(&Reply::<String>::Elements(Vec::new())));
    assert!(!extraction.accepts(&Reply::<String>::Element(ElementId(1))));
    assert!(!extraction.accepts(&Reply::<String>::Displayed(true)));
    assert!(!extraction.accepts(&Reply::<String>::Text("10:00 AM".to_string())));
    let Step::Perform(extraction, command) = extraction.resume(Reply::<String>::Done) else {
        panic!("the extraction ended")
    };
    assert!(matches!(
        command,
        Command::QueryAll { scope: None, selector: Selector::SearchButton }
    ));
    assert!(extraction.accepts(&Reply::<String>::Elements(Vec::new())));
    assert!(!extraction.accepts(&Reply::<String>::Done));
    assert!(!extraction.accepts(&Reply::<String>::Displayed(true)));
}

#[test]
fn labels_off_the_half_hours_are_not_accepted() {
    let cards = vec![Card { title: "Loft", description: "", slots: vec!["10:15 AM"] }];
    let mut page = Page::new(vec![true], cards);
    let date = Date::from_ymd(2024, 3, 5).unwrap();
    let (mut extraction, mut command) = Extraction::start(&date, 10);
    loop {
        let reply = page.perform(&command);
        if matches!(&reply, Reply::Text(label) if label == "10:15 AM") {
            assert!(!extraction.accepts(&reply));
            break;
        }
        assert!(extraction.accepts(&reply));
        match extraction.resume(reply) {
            Step::Perform(next, then) => {
                extraction = next;
                command = then;
            }
            Step::Finish(_) => panic!("the extraction ended"),
        }
    }
}
