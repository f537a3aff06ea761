//! The navigation cursor: a position in an ordered list of demos that moves
//! forward and backward on the lecturer's commands and never leaves the list.

use vstd::prelude::*;
use crate::catalog::{all_demos, all_entries, is_section, section_demos, section_entries};
use crate::catalog::{lemma_catalogue_size, lemma_section_size, views_of, DemoEntry, DemoView};
use crate::text::{str_eq, trim, trimmed};

verus! {

/// A command given to the cursor.
#[derive(Clone, Copy, Debug, PartialEq, Eq, Structural)]
pub enum NavigationAction {
    Next,
    Previous,
    Quit,
}

/// What the cursor walks through: one section, or all of them in turn.
#[derive(Clone, Copy, Debug, PartialEq, Eq, Structural)]
pub enum NavigationScope {
    Section(u8),
    AllSections,
}

/// Where a navigation stands between two commands.
#[derive(Clone, Copy, Debug, PartialEq, Eq, Structural)]
pub enum NavigationPhase {
    /// The demo at the cursor has been shown.
    Showing,
    /// "Next" was given at the last demo: the lecturer chooses between going
    /// back and leaving.
    EndReached,
    /// "Previous" was given at the first demo: the lecturer chooses between
    /// going on and leaving.
    StartReached,
    /// The navigation is over.
    Finished,
}

/// What is to be done after a command.
#[derive(Clone, Copy, Debug, PartialEq, Eq)]
pub enum NavigationOutcome {
    /// Clear the screen and show this demo.
    Show(DemoEntry),
    /// Tell the lecturer that the end is reached and ask again.
    EndReached,
    /// Tell the lecturer that this is the beginning and ask again.
    StartReached,
    /// Leave the navigation.
    Exit,
}

/// The command that a typed token stands for: the words for "quit" and
/// "previous" are taken literally, everything else means "next".
pub open spec fn navigation_action_of(token: Seq<char>) -> NavigationAction {
    if token == "q"@ || token == "Q"@ || token == "quit"@ {
        NavigationAction::Quit
    } else if token == "p"@ || token == "P"@ || token == "prev"@ || token == "previous"@ {
        NavigationAction::Previous
    } else {
        NavigationAction::Next
    }
}

/// Reads the command that was typed on `line`.
pub fn parse_navigation_action(line: &str) -> (action: NavigationAction)
    ensures
        action == navigation_action_of(trimmed(line@)),
{
    let token = trim(line);
    if str_eq(token, "q") || str_eq(token, "Q") || str_eq(token, "quit") {
        NavigationAction::Quit
    } else if str_eq(token, "p") || str_eq(token, "P") || str_eq(token, "prev") || str_eq(
        token,
        "previous",
    ) {
        NavigationAction::Previous
    } else {
        NavigationAction::Next
    }
}

/// The state of a navigation: the list that is walked, the cursor's position
/// in it, and the phase.
pub struct NavigationState {
    pub scope: NavigationScope,
    pub demos: Seq<DemoView>,
    pub index: int,
    pub phase: NavigationPhase,
}

impl NavigationState {
    /// The state in which a navigation over `demos` begins.
    pub open spec fn start(scope: NavigationScope, demos: Seq<DemoView>) -> NavigationState {
        NavigationState { scope, demos, index: 0, phase: NavigationPhase::Showing }
    }

    /// The position of the last demo.
    pub open spec fn last(self) -> int {
        self.demos.len() - 1
    }

    /// The list is not empty, the cursor stands in it, and the two boundary
    /// phases occur only at their boundary.
    pub open spec fn wf(self) -> bool {
        &&& 0 <= self.index <= self.last()
        &&& self.phase is EndReached ==> self.index == self.last()
        &&& self.phase is StartReached ==> self.index == 0
    }

    /// The demo at the cursor.
    pub open spec fn current(self) -> DemoView
        recommends
            self.wf(),
    {
        self.demos[self.index]
    }

    /// This state with the cursor at `index`, the demo there shown.
    pub open spec fn showing(self, index: int) -> NavigationState {
        NavigationState { index, phase: NavigationPhase::Showing, ..self }
    }

    /// This state in another phase.
    pub open spec fn in_phase(self, phase: NavigationPhase) -> NavigationState {
        NavigationState { phase, ..self }
    }

    /// The state after one command.
    pub open spec fn step(self, action: NavigationAction) -> NavigationState {
        match self.phase {
            NavigationPhase::Showing => match action {
                NavigationAction::Next => if self.index < self.last() {
                    self.showing(self.index + 1)
                } else {
                    self.in_phase(NavigationPhase::EndReached)
                },
                NavigationAction::Previous => if self.index > 0 {
                    self.showing(self.index - 1)
                } else {
                    self.in_phase(NavigationPhase::StartReached)
                },
                NavigationAction::Quit => self.in_phase(NavigationPhase::Finished),
            },
            NavigationPhase::EndReached => match action {
                NavigationAction::Previous => self.showing(
                    if self.last() >= 1 {
                        self.last() - 1
                    } else {
                        0
                    },
                ),
                _ => self.in_phase(NavigationPhase::Finished),
            },
            NavigationPhase::StartReached => match action {
                NavigationAction::Quit => self.in_phase(NavigationPhase::Finished),
                _ => self.showing(self.index),
            },
            NavigationPhase::Finished => self,
        }
    }

    /// The state after a sequence of commands.
    pub open spec fn run(self, actions: Seq<NavigationAction>) -> NavigationState
        decreases actions.len(),
    {
        if actions.len() == 0 {
            self
        } else {
            self.step(actions.first()).run(actions.drop_first())
        }
    }
}

/// `count` times the same command.
pub open spec fn repeated(action: NavigationAction, count: nat) -> Seq<NavigationAction> {
    Seq::new(count, |i: int| action)
}

/// A navigation in progress.
pub struct Navigator {
    scope: NavigationScope,
    demos: Vec<DemoEntry>,
    index: usize,
    phase: NavigationPhase,
}

impl View for Navigator {
    type V = NavigationState;

    closed spec fn view(&self) -> NavigationState {
        NavigationState {
            scope: self.scope,
            demos: views_of(self.demos@),
            index: self.index as int,
            phase: self.phase,
        }
    }
}

impl Navigator {
    #[verifier::type_invariant]
    spec fn well_formed(&self) -> bool {
        self@.wf()
    }

    /// Begins a navigation over `demos` at the first of them; there is none
    /// over an empty list.
    pub fn new(scope: NavigationScope, demos: Vec<DemoEntry>) -> (navigator: Option<Navigator>)
        ensures
            navigator is Some <==> demos@.len() > 0,
            navigator matches Some(n) ==> n@ == NavigationState::start(scope, views_of(demos@)),
    {
        if demos.len() == 0 {
            None
        } else {
            Some(Navigator { scope, demos, index: 0, phase: NavigationPhase::Showing })
        }
    }

    /// Begins a navigation over the demos of `section`; there is none where
    /// `section` is not a section.
    pub fn for_section(section: u8) -> (navigator: Option<Navigator>)
        ensures
            navigator is Some <==> is_section(section as int),
            navigator matches Some(n) ==> n@ == NavigationState::start(
                NavigationScope::Section(section),
                section_entries(section as int),
            ),
    {
        proof {
            lemma_section_size(section as int);
        }
        Navigator::new(NavigationScope::Section(section), section_demos(section))
    }

    /// Begins a navigation over every demo of the catalogue.
    pub fn for_all_sections() -> (navigator: Navigator)
        ensures
            navigator@ == NavigationState::start(NavigationScope::AllSections, all_entries()),
    {
        let demos = all_demos();
        proof {
            lemma_catalogue_size();
        }
        Navigator { scope: NavigationScope::AllSections, demos, index: 0, phase: NavigationPhase::Showing }
    }

    /// Takes one command: moves the cursor as [`NavigationState::step`] says
    /// and tells what is to be done next. Going back from the reported end
    /// shows the demo before the last, or the only demo of a list of one.
    pub fn step(&mut self, action: NavigationAction) -> (outcome: NavigationOutcome)
        ensures
            final(self)@ == old(self)@.step(action),
            final(self)@.wf(),
            match outcome {
                NavigationOutcome::Show(entry) => {
                    &&& final(self)@.phase is Showing
                    &&& entry@ == final(self)@.current()
                },
                NavigationOutcome::EndReached => final(self)@.phase is EndReached,
                NavigationOutcome::StartReached => final(self)@.phase is StartReached,
                NavigationOutcome::Exit => final(self)@.phase is Finished,
            },
    {
        proof {
            use_type_invariant(&*self);
        }
        let last: usize = self.demos.len() - 1;
        match self.phase {
            NavigationPhase::Showing => match action {
                NavigationAction::Next => if self.index < last {
                    self.index = self.index + 1;
                } else {
                    self.phase = NavigationPhase::EndReached;
                },
                NavigationAction::Previous => if self.index > 0 {
                    self.index = self.index - 1;
                } else {
                    self.phase = NavigationPhase::StartReached;
                },
                NavigationAction::Quit => {
                    self.phase = NavigationPhase::Finished;
                },
            },
            NavigationPhase::EndReached => match action {
                NavigationAction::Previous => {
                    self.phase = NavigationPhase::Showing;
                    self.index = if last >= 1 {
                        last - 1
                    } else {
                        0
                    };
                },
                _ => {
                    self.phase = NavigationPhase::Finished;
                },
            },
            NavigationPhase::StartReached => match action {
                NavigationAction::Quit => {
                    self.phase = NavigationPhase::Finished;
                },
                _ => {
                    self.phase = NavigationPhase::Showing;
                },
            },
            NavigationPhase::Finished => {},
        }
        match self.phase {
            NavigationPhase::Showing => NavigationOutcome::Show(self.demos[self.index]),
            NavigationPhase::EndReached => NavigationOutcome::EndReached,
            NavigationPhase::StartReached => NavigationOutcome::StartReached,
            NavigationPhase::Finished => NavigationOutcome::Exit,
        }
    }

    /// What this navigation walks through.
    pub fn scope(&self) -> (scope: NavigationScope)
        ensures
            scope == self@.scope,
    {
        self.scope
    }

    /// The phase in which this navigation stands.
    pub fn phase(&self) -> (phase: NavigationPhase)
        ensures
            phase == self@.phase,
    {
        self.phase
    }

    /// The number of demos in the list, which is never empty.
    pub fn len(&self) -> (len: usize)
        ensures
            len == self@.demos.len(),
            len > 0,
    {
        proof {
            use_type_invariant(self);
        }
        self.demos.len()
    }

    /// The cursor's position, counted from 0; it always stands in the list.
    pub fn position(&self) -> (index: usize)
        ensures
            index == self@.index,
            self@.wf(),
    {
        proof {
            use_type_invariant(self);
        }
        self.index
    }

    /// The demo at the cursor.
    pub fn current(&self) -> (entry: DemoEntry)
        ensures
            entry@ == self@.current(),
            self@.wf(),
    {
        proof {
            use_type_invariant(self);
        }
        self.demos[self.index]
    }
}

/// Every command leaves the list and its scope as they are and keeps the
/// cursor inside the list.
pub proof fn lemma_step_keeps_cursor_in_list(state: NavigationState, action: NavigationAction)
    requires
        state.wf(),
    ensures
        state.step(action).wf(),
        state.step(action).demos == state.demos,
        state.step(action).scope == state.scope,
{
}

/// Every sequence of commands leaves the list and its scope as they are and
/// keeps the cursor inside the list.
pub proof fn lemma_run_keeps_cursor_in_list(state: NavigationState, actions: Seq<NavigationAction>)
    requires
        state.wf(),
    ensures
        state.run(actions).wf(),
        state.run(actions).demos == state.demos,
        state.run(actions).scope == state.scope,
    decreases actions.len(),
{
    if actions.len() > 0 {
        lemma_step_keeps_cursor_in_list(state, actions.first());
        lemma_run_keeps_cursor_in_list(state.step(actions.first()), actions.drop_first());
    }
}

/// Running two sequences of commands one after the other is running their
/// concatenation.
pub proof fn lemma_run_concat(
    state: NavigationState,
    first: Seq<NavigationAction>,
    second: Seq<NavigationAction>,
)
    ensures
        state.run(first + second) == state.run(first).run(second),
    decreases first.len(),
{
    if first.len() == 0 {
        assert(first + second =~= second);
    } else {
        assert((first + second).first() == first.first());
        assert((first + second).drop_first() =~= first.drop_first() + second);
        lemma_run_concat(state.step(first.first()), first.drop_first(), second);
    }
}

/// While a demo is shown, `count` times "next" move the cursor `count`
/// positions forward, as long as that many demos follow.
pub proof fn lemma_next_walks_forward(state: NavigationState, count: nat)
    requires
        state.wf(),
        state.phase is Showing,
        state.index + count <= state.last(),
    ensures
        state.run(repeated(NavigationAction::Next, count)) == state.showing(state.index + count),
    decreases count,
{
    let actions = repeated(NavigationAction::Next, count);
    if count > 0 {
        assert(actions.first() == NavigationAction::Next);
        assert(actions.drop_first() =~= repeated(NavigationAction::Next, (count - 1) as nat));
        lemma_next_walks_forward(state.step(NavigationAction::Next), (count - 1) as nat);
    }
}

/// In a list of `n` demos, `n - 1` times "next" from the first demo reach the
/// last one, and one more "next" does not move the cursor past it: the end is
/// reported instead.
pub proof fn lemma_next_from_first_reaches_last(state: NavigationState)
    requires
        state.wf(),
        state.phase is Showing,
        state.index == 0,
    ensures
        state.run(repeated(NavigationAction::Next, state.last() as nat)) == state.showing(
            state.last(),
        ),
        state.run(repeated(NavigationAction::Next, state.last() as nat)).step(
            NavigationAction::Next,
        ) == state.showing(state.last()).in_phase(NavigationPhase::EndReached),
        state.run(repeated(NavigationAction::Next, state.demos.len())) == state.showing(
            state.last(),
        ).in_phase(NavigationPhase::EndReached),
{
    let walk = repeated(NavigationAction::Next, state.last() as nat);
    let once = repeated(NavigationAction::Next, 1);
    lemma_next_walks_forward(state, state.last() as nat);
    lemma_run_concat(state, walk, once);
    assert(walk + once =~= repeated(NavigationAction::Next, state.demos.len()));
    let at_last = state.run(walk);
    assert(once.first() == NavigationAction::Next);
    assert(once.drop_first() =~= Seq::<NavigationAction>::empty());
    assert(at_last.run(once) == at_last.step(NavigationAction::Next).run(once.drop_first()));
}

/// While the last of at least two demos is shown, "previous" shows the one
/// before it.
pub proof fn lemma_previous_from_last(state: NavigationState)
    requires
        state.wf(),
        state.phase is Showing,
        state.index == state.last(),
        state.demos.len() >= 2,
    ensures
        state.step(NavigationAction::Previous) == state.showing(state.last() - 1),
{
}

/// While the first demo is shown, "previous" does not move the cursor before
/// it: the beginning is reported instead.
pub proof fn lemma_previous_from_first(state: NavigationState)
    requires
        state.wf(),
        state.phase is Showing,
        state.index == 0,
    ensures
        state.step(NavigationAction::Previous) == state.in_phase(NavigationPhase::StartReached),
        state.step(NavigationAction::Previous).index == 0,
{
}

/// The tokens that end a navigation.
pub open spec fn is_quit_token(token: Seq<char>) -> bool {
    token == "q"@ || token == "Q"@ || token == "quit"@
}

/// A quit token ends the navigation in whatever state it is, and no later
/// command brings it back.
pub proof fn lemma_quit_ends_navigation(
    state: NavigationState,
    token: Seq<char>,
    later: Seq<NavigationAction>,
)
    requires
        is_quit_token(token),
    ensures
        navigation_action_of(token) == NavigationAction::Quit,
        state.step(NavigationAction::Quit).phase is Finished,
        state.step(NavigationAction::Quit).run(later) == state.step(NavigationAction::Quit),
    decreases later.len(),
{
    let ended = state.step(NavigationAction::Quit);
    if later.len() > 0 {
        assert(ended.step(later.first()) == ended);
        assert(ended.step(NavigationAction::Quit) == ended);
        lemma_quit_ends_navigation(ended, token, later.drop_first());
    }
}

} // verus!
