use calgary_central_library::driver::{Command, ElementId, Reply, Selector};
use calgary_central_library::search_button::{
    pick_search_button, ButtonSearch, FindSearchButtonError, SearchStep,
};

fn ids(numbers: &[u64]) -> Vec<ElementId> {
    numbers.iter().map(|n| ElementId(*n)).collect()
}

fn pick(numbers: &[u64], shown: &[bool]) -> Result<ElementId, FindSearchButtonError<()>> {
    pick_search_button(&ids(numbers), &shown.to_vec())
}

#[test]
fn the_one_button_shown_is_picked() {
    assert!(matches!(pick(&[7, 8, 9], &[false, true, false]), Ok(ElementId(8))));
    assert!(matches!(pick(&[7, 8, 9], &[true, false, false]), Ok(ElementId(7))));
    assert!(matches!(pick(&[7, 8, 9], &[false, false, true]), Ok(ElementId(9))));
    assert!(matches!(pick(&[7], &[true]), Ok(ElementId(7))));
}

#[test]
fn no_button_is_picked_where_none_is_shown() {
    assert!(matches!(pick(&[], &[]), Err(FindSearchButtonError::NoButtonFound)));
    assert!(matches!(pick(&[7, 8], &[false, false]), Err(FindSearchButtonError::NoButtonFound)));
}

#[test]
fn no_button_is_picked_where_several_are_shown() {
    assert!(matches!(
        pick(&[7, 8], &[true, true]),
        Err(FindSearchButtonError::MoreThanOneButtonFound)
    ));
    assert!(matches!(
        pick(&[7, 8, 9], &[true, false, true]),
        Err(FindSearchButtonError::MoreThanOneButtonFound)
    ));
}

#[test]
fn a_search_asks_of_every_candidate() {
    let (search, command) = ButtonSearch::start();
    assert!(matches!(
        command,
        Command::QueryAll { scope: None, selector: Selector::SearchButton }
    ));
    assert!(search.accepts(&Reply::<()>::Elements(ids(&[4, 5]))));
    assert!(!search.accepts(&Reply::<()>::Displayed(true)));
    let SearchStep::Perform(search, command) = search.resume(Reply::<()>::Elements(ids(&[4, 5])))
    else {
        panic!("the search ended")
    };
    assert!(matches!(command, Command::IsDisplayed { element: ElementId(4) }));
    assert!(!search.accepts(&Reply::<()>::Elements(Vec::new())));
    let SearchStep::Perform(search, command) = search.resume(Reply::<()>::Displayed(true)) else {
        panic!("the search ended")
    };
    assert!(matches!(command, Command::IsDisplayed { element: ElementId(5) }));
    let step = search.resume(Reply::<()>::Displayed(false));
    assert!(matches!(step, SearchStep::Finish(Ok(ElementId(4)))));
}

#[test]
fn a_search_ends_with_the_failure_of_a_command() {
    let (search, _) = ButtonSearch::start();
    let step = search.resume(Reply::Failed(3));
    assert!(matches!(step, SearchStep::Finish(Err(FindSearchButtonError::CommandError(3)))));
    let (search, _) = ButtonSearch::start();
    let SearchStep::Perform(search, _) = search.resume(Reply::<u8>::Elements(ids(&[4]))) else {
        panic!("the search ended")
    };
    let step = search.resume(Reply::Failed(9));
    assert!(matches!(step, SearchStep::Finish(Err(FindSearchButtonError::CommandError(9)))));
}
