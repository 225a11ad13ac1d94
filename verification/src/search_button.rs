//! Finding the button that submits the search. The page holds several
//! elements that look like it; the one that is shown is the button.

use crate::driver::{answers, Command, CommandView, ElementId, Reply, ReplyView, Selector};
use vstd::pervasive::unreached;
use vstd::prelude::*;

verus! {

/// Why the search button was not found.
#[derive(Debug)]
pub enum FindSearchButtonError<E> {
    /// None of the candidates is shown.
    NoButtonFound,
    /// More than one of the candidates is shown.
    MoreThanOneButtonFound,
    /// A command of the driver failed.
    CommandError(E),
}

/// How many of the flags are set.
pub open spec fn count_shown(shown: Seq<bool>) -> nat
    decreases shown.len(),
{
    if shown.len() == 0 {
        0
    } else {
        count_shown(shown.drop_last()) + if shown.last() {
            1nat
        } else {
            0nat
        }
    }
}

/// The place of the first flag that is set; the number of flags where none
/// is.
pub open spec fn first_shown(shown: Seq<bool>) -> nat
    decreases shown.len(),
{
    if shown.len() == 0 || shown[0] {
        0
    } else {
        1 + first_shown(shown.drop_first())
    }
}

/// The search button among the candidates `buttons`, of which `shown` tells
/// one by one whether it is shown: the one candidate that is. It is an
/// error if none is shown, and an error if more than one is.
pub open spec fn search_button<E>(buttons: Seq<ElementId>, shown: Seq<bool>) -> Result<
    ElementId,
    FindSearchButtonError<E>,
> {
    if count_shown(shown) == 0 {
        Err(FindSearchButtonError::NoButtonFound)
    } else if count_shown(shown) > 1 {
        Err(FindSearchButtonError::MoreThanOneButtonFound)
    } else {
        Ok(buttons[first_shown(shown) as int])
    }
}

/// Where no flag is set before place `n`, the first set flag is there if
/// the flag at `n` is set, and none is set if `n` is the end.
proof fn lemma_first_shown_is(shown: Seq<bool>, n: int)
    requires
        0 <= n <= shown.len(),
        forall|i: int| 0 <= i < n ==> !shown[i],
        n < shown.len() ==> shown[n],
    ensures
        first_shown(shown) == n,
    decreases shown.len(),
{
    if shown.len() > 0 && !shown[0] {
        lemma_first_shown_is(shown.drop_first(), n - 1);
    }
}

/// The search button among the candidates `buttons`, of which `shown` tells
/// one by one whether it is shown.
pub fn pick_search_button<E>(buttons: &Vec<ElementId>, shown: &Vec<bool>) -> (button: Result<
    ElementId,
    FindSearchButtonError<E>,
>)
    requires
        shown.len() == buttons.len(),
    ensures
        button == search_button::<E>(buttons@, shown@),
{
    let mut count: usize = 0;
    let mut first: usize = shown.len();
    let mut i: usize = 0;
    while i < shown.len()
        invariant
            i <= shown.len(),
            count == count_shown(shown@.take(i as int)),
            count <= i,
            count == 0 ==> first == shown.len(),
            count > 0 ==> first < i && shown@[first as int],
            forall|j: int| 0 <= j < first && j < i ==> !shown@[j],
        decreases shown.len() - i,
    {
        assert(shown@.take(i + 1).drop_last() == shown@.take(i as int));
        if shown[i] {
            if count == 0 {
                first = i;
            }
            count += 1;
        }
        i += 1;
    }
    assert(shown@.take(i as int) == shown@);
    if count == 0 {
        Err(FindSearchButtonError::NoButtonFound)
    } else if count > 1 {
        Err(FindSearchButtonError::MoreThanOneButtonFound)
    } else {
        proof {
            lemma_first_shown_is(shown@, first as int);
        }
        Ok(buttons[first])
    }
}

/// What a search for the button is: the candidates, once they were found,
/// and of the first of them whether each is shown.
pub struct ButtonSearchView {
    pub buttons: Option<Seq<ElementId>>,
    pub shown: Seq<bool>,
}

impl ButtonSearchView {
    /// The search at its start: the candidates are yet to be found.
    pub open spec fn initial() -> ButtonSearchView {
        ButtonSearchView { buttons: None, shown: Seq::empty() }
    }

    /// The command whose reply the search waits for.
    pub open spec fn pending(self) -> CommandView {
        match self.buttons {
            None => CommandView::QueryAll { scope: None, selector: Selector::SearchButton },
            Some(buttons) => CommandView::IsDisplayed { element: buttons[self.shown.len() as int] },
        }
    }

    /// Whether the search can take `reply`: it answers the pending command.
    pub open spec fn accepts<E>(self, reply: ReplyView<E>) -> bool {
        answers(self.pending(), reply)
    }

    /// How the search goes on once it is known of the first candidates
    /// whether they are shown: with the next candidate, or to its end.
    pub open spec fn probe<E>(buttons: Seq<ElementId>, shown: Seq<bool>) -> SearchStepView<E> {
        if shown.len() < buttons.len() {
            SearchStepView::Perform(ButtonSearchView { buttons: Some(buttons), shown })
        } else {
            SearchStepView::Finish(search_button(buttons, shown))
        }
    }

    /// How the search goes on after `reply`. A failed command ends it; the
    /// candidates found are asked one by one, in the order of the page,
    /// whether they are shown; after the last the button is picked.
    pub open spec fn next<E>(self, reply: ReplyView<E>) -> SearchStepView<E> {
        match reply {
            ReplyView::Failed(error) => SearchStepView::Finish(
                Err(FindSearchButtonError::CommandError(error)),
            ),
            ReplyView::Elements(buttons) => Self::probe(buttons, Seq::empty()),
            ReplyView::Displayed(shown) => Self::probe(self.buttons->0, self.shown.push(shown)),
            _ => SearchStepView::Perform(self),
        }
    }
}

/// What a step of the search is.
pub enum SearchStepView<E> {
    Perform(ButtonSearchView),
    Finish(Result<ElementId, FindSearchButtonError<E>>),
}

/// A search for the button, between two commands.
#[derive(Debug)]
pub struct ButtonSearch {
    buttons: Option<Vec<ElementId>>,
    shown: Vec<bool>,
}

/// A step of the search.
#[derive(Debug)]
pub enum SearchStep<E> {
    /// The driver is to perform the command and to resume the search with
    /// the reply.
    Perform(ButtonSearch, Command),
    /// The search is over.
    Finish(Result<ElementId, FindSearchButtonError<E>>),
}

impl View for ButtonSearch {
    type V = ButtonSearchView;

    closed spec fn view(&self) -> ButtonSearchView {
        ButtonSearchView {
            buttons: match self.buttons {
                Some(buttons) => Some(buttons@),
                None => None,
            },
            shown: self.shown@,
        }
    }
}

impl<E> View for SearchStep<E> {
    type V = SearchStepView<E>;

    open spec fn view(&self) -> SearchStepView<E> {
        match *self {
            SearchStep::Perform(search, _) => SearchStepView::Perform(search@),
            SearchStep::Finish(found) => SearchStepView::Finish(found),
        }
    }
}

impl ButtonSearch {
    #[verifier::type_invariant]
    spec fn has_next_candidate(self) -> bool {
        match self.buttons {
            Some(buttons) => self.shown.len() < buttons.len(),
            None => self.shown.len() == 0,
        }
    }

    /// A search at its start, and its first command.
    pub fn start() -> (started: (ButtonSearch, Command))
        ensures
            started.0@ == ButtonSearchView::initial(),
            started.1@ == started.0@.pending(),
    {
        (
            ButtonSearch { buttons: None, shown: Vec::new() },
            Command::QueryAll { scope: None, selector: Selector::SearchButton },
        )
    }

    /// Whether the search can take `reply`: whether it answers the command
    /// that was given last.
    pub fn accepts<E>(&self, reply: &Reply<E>) -> (accepted: bool)
        ensures
            accepted == self@.accepts(reply@),
    {
        match reply {
            Reply::Failed(_) => true,
            Reply::Elements(_) => self.buttons.is_none(),
            Reply::Displayed(_) => self.buttons.is_some(),
            _ => false,
        }
    }

    /// Goes on with the candidates `buttons`, of the first of which `shown`
    /// tells whether they are shown.
    fn probe<E>(buttons: Vec<ElementId>, shown: Vec<bool>) -> (step: SearchStep<E>)
        requires
            shown.len() <= buttons.len(),
        ensures
            step@ == ButtonSearchView::probe::<E>(buttons@, shown@),
            step matches SearchStep::Perform(next, command) ==> command@ == next@.pending(),
    {
        if shown.len() < buttons.len() {
            let element = buttons[shown.len()];
            SearchStep::Perform(
                ButtonSearch { buttons: Some(buttons), shown },
                Command::IsDisplayed { element },
            )
        } else {
            SearchStep::Finish(pick_search_button(&buttons, &shown))
        }
    }

    /// Goes on with the search after `reply`, the reply to the command that
    /// was given last: one that `accepts` passes.
    pub fn resume<E>(self, reply: Reply<E>) -> (step: SearchStep<E>)
        requires
            self@.accepts(reply@),
        ensures
            step@ == self@.next(reply@),
            step matches SearchStep::Perform(next, command) ==> command@ == next@.pending(),
    {
        proof {
            use_type_invariant(&self);
        }
        match reply {
            Reply::Failed(error) => SearchStep::Finish(
                Err(FindSearchButtonError::CommandError(error)),
            ),
            Reply::Elements(buttons) => Self::probe(buttons, Vec::new()),
            Reply::Displayed(flag) => {
                let ButtonSearch { buttons, shown } = self;
                let mut shown = shown;
                shown.push(flag);
                match buttons {
                    Some(buttons) => Self::probe(buttons, shown),
                    None => unreached(),
                }
            },
            _ => unreached(),
        }
    }
}

} // verus!
