use lecture::catalog::{all_demos, section_demos, DemoEntry};
use lecture::navigation::{parse_navigation_action, NavigationAction, NavigationOutcome};
use lecture::navigation::{NavigationPhase, NavigationScope, Navigator};

fn entries(names: &[&'static str]) -> Vec<DemoEntry> {
    names.iter().map(|name| DemoEntry { section: 1, name: *name }).collect()
}

fn abc() -> Navigator {
    Navigator::new(NavigationScope::Section(1), entries(&["a", "b", "c"])).unwrap()
}

fn show(name: &'static str) -> NavigationOutcome {
    NavigationOutcome::Show(DemoEntry { section: 1, name })
}

fn list_of(n: usize) -> Navigator {
    let demos = (0..n).map(|_| DemoEntry { section: 2, name: "demo" }).collect();
    Navigator::new(NavigationScope::Section(2), demos).unwrap()
}

#[test]
fn empty_line_means_next() {
    assert_eq!(parse_navigation_action(""), NavigationAction::Next);
    assert_eq!(parse_navigation_action("\n"), NavigationAction::Next);
    assert_eq!(parse_navigation_action("  \r\n"), NavigationAction::Next);
}

#[test]
fn quit_tokens_of_the_navigation() {
    for line in ["q", "Q", "quit", "q\n", "  quit  "] {
        assert_eq!(parse_navigation_action(line), NavigationAction::Quit);
    }
}

#[test]
fn previous_tokens_of_the_navigation() {
    for line in ["p", "P", "prev", "previous", "p\n", "\tprevious\r\n"] {
        assert_eq!(parse_navigation_action(line), NavigationAction::Previous);
    }
}

#[test]
fn any_other_input_means_next() {
    for line in ["n", "next", "x", "exit", "Quit", "QUIT", "Prev", "PREVIOUS", "pp", "q q", "1"] {
        assert_eq!(parse_navigation_action(line), NavigationAction::Next, "{:?}", line);
    }
}

#[test]
fn three_demos_three_times_next() {
    let mut navigator = abc();
    let mut shown = vec![navigator.current().name];
    let mut outcomes = Vec::new();
    for _ in 0..3 {
        let outcome = navigator.step(NavigationAction::Next);
        if let NavigationOutcome::Show(entry) = outcome {
            shown.push(entry.name);
        }
        outcomes.push(outcome);
    }
    assert_eq!(shown, vec!["a", "b", "c"]);
    assert_eq!(outcomes, vec![show("b"), show("c"), NavigationOutcome::EndReached]);
    assert_eq!(navigator.position(), 2);
    assert_eq!(navigator.phase(), NavigationPhase::EndReached);
}

#[test]
fn next_reaches_the_last_demo_and_stops_there() {
    for n in 1..=6usize {
        let mut navigator = list_of(n);
        assert_eq!(navigator.len(), n);
        assert_eq!(navigator.position(), 0);
        for k in 1..n {
            assert!(matches!(navigator.step(NavigationAction::Next), NavigationOutcome::Show(_)));
            assert_eq!(navigator.position(), k);
            assert_eq!(navigator.phase(), NavigationPhase::Showing);
        }
        assert_eq!(navigator.position(), n - 1);
        assert_eq!(navigator.step(NavigationAction::Next), NavigationOutcome::EndReached);
        assert_eq!(navigator.position(), n - 1);
        assert_eq!(navigator.phase(), NavigationPhase::EndReached);
    }
}

#[test]
fn previous_from_the_last_demo() {
    let mut navigator = abc();
    navigator.step(NavigationAction::Next);
    navigator.step(NavigationAction::Next);
    assert_eq!(navigator.position(), 2);
    assert_eq!(navigator.step(NavigationAction::Previous), show("b"));
    assert_eq!(navigator.position(), 1);
    assert_eq!(navigator.step(NavigationAction::Previous), show("a"));
    assert_eq!(navigator.position(), 0);
}

#[test]
fn previous_from_the_first_demo_reports_the_beginning() {
    let mut navigator = abc();
    assert_eq!(navigator.step(NavigationAction::Previous), NavigationOutcome::StartReached);
    assert_eq!(navigator.position(), 0);
    assert_eq!(navigator.phase(), NavigationPhase::StartReached);
}

#[test]
fn going_on_from_the_beginning_shows_the_first_demo_again() {
    for action in [NavigationAction::Next, NavigationAction::Previous] {
        let mut navigator = abc();
        navigator.step(NavigationAction::Previous);
        assert_eq!(navigator.step(action), show("a"));
        assert_eq!(navigator.position(), 0);
        assert_eq!(navigator.phase(), NavigationPhase::Showing);
    }
}

#[test]
fn quitting_at_the_beginning() {
    let mut navigator = abc();
    navigator.step(NavigationAction::Previous);
    assert_eq!(navigator.step(NavigationAction::Quit), NavigationOutcome::Exit);
    assert_eq!(navigator.phase(), NavigationPhase::Finished);
}

#[test]
fn going_back_from_the_end() {
    let mut navigator = abc();
    for _ in 0..3 {
        navigator.step(NavigationAction::Next);
    }
    assert_eq!(navigator.phase(), NavigationPhase::EndReached);
    assert_eq!(navigator.step(NavigationAction::Previous), show("b"));
    assert_eq!(navigator.position(), 1);
    assert_eq!(navigator.phase(), NavigationPhase::Showing);
}

#[test]
fn going_back_from_the_end_of_a_single_demo() {
    let mut navigator = Navigator::new(NavigationScope::Section(1), entries(&["only"])).unwrap();
    assert_eq!(navigator.step(NavigationAction::Next), NavigationOutcome::EndReached);
    assert_eq!(navigator.step(NavigationAction::Previous), show("only"));
    assert_eq!(navigator.position(), 0);
    assert_eq!(navigator.step(NavigationAction::Previous), NavigationOutcome::StartReached);
    assert_eq!(navigator.step(NavigationAction::Next), show("only"));
}

#[test]
fn leaving_at_the_end() {
    for action in [NavigationAction::Next, NavigationAction::Quit] {
        let mut navigator = abc();
        for _ in 0..3 {
            navigator.step(NavigationAction::Next);
        }
        assert_eq!(navigator.step(action), NavigationOutcome::Exit);
        assert_eq!(navigator.phase(), NavigationPhase::Finished);
    }
}

#[test]
fn quit_ends_the_navigation_from_every_phase() {
    let mut showing = abc();
    showing.step(NavigationAction::Next);
    let mut at_end = abc();
    for _ in 0..3 {
        at_end.step(NavigationAction::Next);
    }
    let mut at_start = abc();
    at_start.step(NavigationAction::Previous);
    let mut finished = abc();
    finished.step(NavigationAction::Quit);
    for mut navigator in [abc(), showing, at_end, at_start, finished] {
        let position = navigator.position();
        assert_eq!(navigator.step(NavigationAction::Quit), NavigationOutcome::Exit);
        assert_eq!(navigator.phase(), NavigationPhase::Finished);
        assert_eq!(navigator.position(), position);
    }
}

#[test]
fn a_finished_navigation_stays_finished() {
    let mut navigator = abc();
    navigator.step(NavigationAction::Next);
    navigator.step(NavigationAction::Quit);
    for action in [NavigationAction::Next, NavigationAction::Previous, NavigationAction::Quit] {
        assert_eq!(navigator.step(action), NavigationOutcome::Exit);
        assert_eq!(navigator.phase(), NavigationPhase::Finished);
        assert_eq!(navigator.position(), 1);
    }
}

#[test]
fn the_cursor_never_leaves_the_list() {
    let actions = [
        NavigationAction::Previous,
        NavigationAction::Previous,
        NavigationAction::Next,
        NavigationAction::Next,
        NavigationAction::Next,
        NavigationAction::Next,
        NavigationAction::Previous,
        NavigationAction::Next,
        NavigationAction::Next,
        NavigationAction::Next,
        NavigationAction::Previous,
        NavigationAction::Previous,
        NavigationAction::Previous,
        NavigationAction::Previous,
        NavigationAction::Quit,
        NavigationAction::Next,
    ];
    for n in 1..=4usize {
        let mut navigator = list_of(n);
        for action in actions {
            navigator.step(action);
            assert!(navigator.position() < navigator.len());
            assert_eq!(navigator.len(), n);
            assert_eq!(navigator.scope(), NavigationScope::Section(2));
        }
    }
}

#[test]
fn typed_lines_drive_the_cursor() {
    let mut navigator = abc();
    let lines = ["\n", "p\n", "\n", "anything\n", "\n", "previous\n", "q\n"];
    let outcomes: Vec<NavigationOutcome> =
        lines.iter().map(|line| navigator.step(parse_navigation_action(line))).collect();
    assert_eq!(
        outcomes,
        vec![
            show("b"),
            show("a"),
            show("b"),
            show("c"),
            NavigationOutcome::EndReached,
            show("b"),
            NavigationOutcome::Exit,
        ]
    );
}

#[test]
fn no_navigation_over_an_empty_list() {
    assert!(Navigator::new(NavigationScope::Section(1), Vec::new()).is_none());
    assert!(Navigator::new(NavigationScope::AllSections, Vec::new()).is_none());
}

#[test]
fn navigation_over_a_section() {
    for section in 1..=8u8 {
        let navigator = Navigator::for_section(section).unwrap();
        let demos = section_demos(section);
        assert_eq!(navigator.scope(), NavigationScope::Section(section));
        assert_eq!(navigator.len(), demos.len());
        assert_eq!(navigator.position(), 0);
        assert_eq!(navigator.phase(), NavigationPhase::Showing);
        assert_eq!(navigator.current(), demos[0]);
    }
    assert!(Navigator::for_section(0).is_none());
    assert!(Navigator::for_section(9).is_none());
}

#[test]
fn navigation_over_all_sections_walks_the_whole_catalogue() {
    let all = all_demos();
    let mut navigator = Navigator::for_all_sections();
    assert_eq!(navigator.scope(), NavigationScope::AllSections);
    assert_eq!(navigator.len(), 67);
    let mut shown = vec![navigator.current()];
    loop {
        match navigator.step(NavigationAction::Next) {
            NavigationOutcome::Show(entry) => shown.push(entry),
            outcome => {
                assert_eq!(outcome, NavigationOutcome::EndReached);
                break;
            }
        }
    }
    assert_eq!(shown, all);
    assert_eq!(navigator.position(), 66);
}
