//! The menus: what a typed line asks for at the main menu and at the menu of
//! the navigation mode, and how the main menu's loop goes on after it.

use vstd::prelude::*;
use vstd::string::*;
use crate::catalog::{all_entries, demo_count, is_section, lemma_section_size, section_entries};
use crate::catalog::DemoView;
use crate::text::{str_eq, trim, trimmed};

verus! {

/// Whether the main menu still takes input.
#[derive(Clone, Copy, Debug, PartialEq, Eq, Structural)]
pub enum MenuState {
    Active,
    Stopped,
}

/// What the main menu does on a line of input.
#[derive(Clone, Copy, Debug, PartialEq, Eq, Structural)]
pub enum MenuAction {
    /// Run every demo of this section, in lecture order.
    RunSection(u8),
    /// Run every section, one after the other.
    RunAllSections,
    /// Open the menu of the navigation mode.
    EnterEnhancedMode,
    /// Say goodbye and leave the loop.
    Quit,
    /// Report that the input was not understood and ask again.
    Invalid,
    /// The menu was left before: there is nothing to do.
    Nothing,
}

/// What the lecturer chose at the menu of the navigation mode.
#[derive(Clone, Copy, Debug, PartialEq, Eq, Structural)]
pub enum EnhancedChoice {
    /// Walk through the demos of this section.
    Section(u8),
    /// Walk through every demo of the catalogue.
    AllSections,
    /// Go back to the main menu.
    Back,
    /// The input was not understood.
    Invalid,
}

/// The token that selects `section`: its number as one decimal digit.
pub open spec fn section_token(section: int) -> Seq<char> {
    seq![('0' as int + section) as char]
}

/// The section that `token` selects, if it selects one: the digits from 1 to 8
/// select the section of that number.
pub open spec fn section_choice(token: Seq<char>) -> Option<u8> {
    if token.len() == 1 && '1' <= token[0] <= '8' {
        Some((token[0] as int - '0' as int) as u8)
    } else {
        None
    }
}

/// The tokens that ask for all sections.
pub open spec fn is_all_token(token: Seq<char>) -> bool {
    token == "all"@ || token == "ALL"@
}

/// The tokens that ask for the navigation mode.
pub open spec fn is_enhanced_token(token: Seq<char>) -> bool {
    token == "e"@ || token == "E"@ || token == "enhanced"@
}

/// The tokens that leave the main menu.
pub open spec fn is_quit_token(token: Seq<char>) -> bool {
    token == "q"@ || token == "Q"@ || token == "quit"@ || token == "exit"@
}

/// The tokens that go back from the menu of the navigation mode.
pub open spec fn is_back_token(token: Seq<char>) -> bool {
    token == "q"@ || token == "Q"@
}

/// Whether `token` is one of the main menu's commands.
pub open spec fn is_recognized(token: Seq<char>) -> bool {
    ||| section_choice(token) is Some
    ||| is_all_token(token)
    ||| is_enhanced_token(token)
    ||| is_quit_token(token)
}

/// What the main menu does on `token`.
pub open spec fn menu_action_of(token: Seq<char>) -> MenuAction {
    if let Some(section) = section_choice(token) {
        MenuAction::RunSection(section)
    } else if is_all_token(token) {
        MenuAction::RunAllSections
    } else if is_enhanced_token(token) {
        MenuAction::EnterEnhancedMode
    } else if is_quit_token(token) {
        MenuAction::Quit
    } else {
        MenuAction::Invalid
    }
}

/// The main menu's transition: the state after `token` and what is done on it.
/// Only a quit command stops the menu; a stopped menu stays stopped and does
/// nothing.
pub open spec fn menu_transition(state: MenuState, token: Seq<char>) -> (MenuState, MenuAction) {
    match state {
        MenuState::Stopped => (MenuState::Stopped, MenuAction::Nothing),
        MenuState::Active => {
            let action = menu_action_of(token);
            if action is Quit {
                (MenuState::Stopped, action)
            } else {
                (MenuState::Active, action)
            }
        },
    }
}

/// The demos that `action` runs, in the order in which it runs them.
pub open spec fn demos_invoked(action: MenuAction) -> Seq<DemoView> {
    match action {
        MenuAction::RunSection(section) => section_entries(section as int),
        MenuAction::RunAllSections => all_entries(),
        _ => Seq::empty(),
    }
}

/// What the lecturer chose with `token` at the menu of the navigation mode.
pub open spec fn enhanced_choice_of(token: Seq<char>) -> EnhancedChoice {
    if let Some(section) = section_choice(token) {
        EnhancedChoice::Section(section)
    } else if is_all_token(token) {
        EnhancedChoice::AllSections
    } else if is_back_token(token) {
        EnhancedChoice::Back
    } else {
        EnhancedChoice::Invalid
    }
}

/// Reads the section that `token` selects.
pub fn parse_section_choice(token: &str) -> (section: Option<u8>)
    ensures
        section == section_choice(token@),
{
    if token.unicode_len() == 1 {
        let c = token.get_char(0);
        if '1' <= c && c <= '8' {
            return Some(c as u8 - '0' as u8);
        }
    }
    None
}

/// Takes one line of input at the main menu: gives the state in which the
/// menu goes on and what is to be done.
pub fn menu_step(state: MenuState, line: &str) -> (step: (MenuState, MenuAction))
    ensures
        step == menu_transition(state, trimmed(line@)),
{
    match state {
        MenuState::Stopped => (MenuState::Stopped, MenuAction::Nothing),
        MenuState::Active => {
            let token = trim(line);
            if let Some(section) = parse_section_choice(token) {
                (MenuState::Active, MenuAction::RunSection(section))
            } else if str_eq(token, "all") || str_eq(token, "ALL") {
                (MenuState::Active, MenuAction::RunAllSections)
            } else if str_eq(token, "e") || str_eq(token, "E") || str_eq(token, "enhanced") {
                (MenuState::Active, MenuAction::EnterEnhancedMode)
            } else if str_eq(token, "q") || str_eq(token, "Q") || str_eq(token, "quit") || str_eq(
                token,
                "exit",
            ) {
                (MenuState::Stopped, MenuAction::Quit)
            } else {
                (MenuState::Active, MenuAction::Invalid)
            }
        },
    }
}

/// Reads the choice that was typed on `line` at the menu of the navigation
/// mode.
pub fn parse_enhanced_choice(line: &str) -> (choice: EnhancedChoice)
    ensures
        choice == enhanced_choice_of(trimmed(line@)),
{
    let token = trim(line);
    if let Some(section) = parse_section_choice(token) {
        EnhancedChoice::Section(section)
    } else if str_eq(token, "all") || str_eq(token, "ALL") {
        EnhancedChoice::AllSections
    } else if str_eq(token, "q") || str_eq(token, "Q") {
        EnhancedChoice::Back
    } else {
        EnhancedChoice::Invalid
    }
}

/// The tokens that select a section are the digits "1" to "8".
pub proof fn lemma_section_tokens()
    ensures
        section_token(1) == "1"@,
        section_token(2) == "2"@,
        section_token(3) == "3"@,
        section_token(4) == "4"@,
        section_token(5) == "5"@,
        section_token(6) == "6"@,
        section_token(7) == "7"@,
        section_token(8) == "8"@,
        forall|section: int|
            is_section(section) ==> section_choice(#[trigger] section_token(section)) == Some(
                section as u8,
            ),
        forall|token: Seq<char>|
            #[trigger] section_choice(token) matches Some(section) ==> {
                &&& is_section(section as int)
                &&& token == section_token(section as int)
            },
{
    reveal_strlit("1");
    reveal_strlit("2");
    reveal_strlit("3");
    reveal_strlit("4");
    reveal_strlit("5");
    reveal_strlit("6");
    reveal_strlit("7");
    reveal_strlit("8");
    assert(section_token(1) =~= "1"@);
    assert(section_token(2) =~= "2"@);
    assert(section_token(3) =~= "3"@);
    assert(section_token(4) =~= "4"@);
    assert(section_token(5) =~= "5"@);
    assert(section_token(6) =~= "6"@);
    assert(section_token(7) =~= "7"@);
    assert(section_token(8) =~= "8"@);
    assert forall|token: Seq<char>| #[trigger] section_choice(token) is Some implies token
        == section_token(section_choice(token)->0 as int) by {
        assert(token =~= section_token(section_choice(token)->0 as int));
    }
}

/// Selecting a section's number at the main menu runs that section: the
/// action names the section, the menu stays active, and the demos run are the
/// section's whole list in lecture order, each of them a demo of that section.
pub proof fn lemma_section_choice_runs_that_section(section: int)
    requires
        is_section(section),
    ensures
        menu_transition(MenuState::Active, section_token(section)) == (
            MenuState::Active,
            MenuAction::RunSection(section as u8),
        ),
        demos_invoked(MenuAction::RunSection(section as u8)) == section_entries(section),
        section_entries(section).len() == demo_count(section),
        forall|i: int|
            0 <= i < section_entries(section).len() ==> (#[trigger] section_entries(
                section,
            )[i]).section == section,
{
    lemma_section_size(section);
}

/// Input that is none of the main menu's commands changes nothing: the menu
/// stays in the state it was in, and an active menu reports the input as
/// invalid and asks again.
pub proof fn lemma_unrecognized_input_changes_nothing(state: MenuState, token: Seq<char>)
    requires
        !is_recognized(token),
    ensures
        menu_transition(state, token).0 == state,
        state is Active ==> menu_transition(state, token).1 is Invalid,
{
}

/// The main menu reports input as invalid exactly when it is none of its
/// commands.
pub proof fn lemma_invalid_means_unrecognized(token: Seq<char>)
    ensures
        menu_action_of(token) is Invalid <==> !is_recognized(token),
{
}

/// A quit command stops the main menu in whatever state it is, and a stopped
/// menu does nothing on any further input.
pub proof fn lemma_quit_stops_menu(state: MenuState, token: Seq<char>, later: Seq<char>)
    requires
        is_quit_token(token),
    ensures
        menu_transition(state, token).0 is Stopped,
        state is Active ==> menu_transition(state, token).1 is Quit,
        menu_transition(menu_transition(state, token).0, later) == (
            MenuState::Stopped,
            MenuAction::Nothing,
        ),
{
    reveal_strlit("q");
    reveal_strlit("Q");
    reveal_strlit("quit");
    reveal_strlit("exit");
    reveal_strlit("all");
    reveal_strlit("ALL");
    reveal_strlit("e");
    reveal_strlit("E");
    reveal_strlit("enhanced");
}

} // verus!
