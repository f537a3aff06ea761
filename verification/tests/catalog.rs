use lecture::catalog::{all_demos, find_demo, find_name, get_section_demo_list, section_demos};
use lecture::catalog::{DemoEntry, SECTION_COUNT};
use lecture::{section1_basics, section2_ownership, section3_borrowing, section4_traits};
use lecture::{section5_enums, section6_idioms, section7_concurrency, section8_crates};

#[test]
fn section4_demo_list() {
    assert_eq!(
        section4_traits::get_demo_list(),
        vec!["basic", "generics", "objects", "structs", "associated", "operators", "standard"]
    );
}

#[test]
fn section6_demo_list() {
    assert_eq!(
        section6_idioms::get_demo_list(),
        vec!["iterators", "advanced_iterators", "errors", "shadowing", "memory", "utilities"]
    );
}

#[test]
fn other_sections_demo_lists() {
    assert_eq!(
        section1_basics::get_demo_list(),
        vec!["hello", "variables", "functions", "if", "match", "for", "while", "blocks"]
    );
    assert_eq!(
        section2_ownership::get_demo_list(),
        vec!["scope", "move", "copy", "functions", "collections", "patterns"]
    );
    assert_eq!(
        section3_borrowing::get_demo_list(),
        vec!["immutable", "mutable", "rules", "lifetimes", "elision", "patterns", "dangling"]
    );
    assert_eq!(
        section5_enums::get_demo_list(),
        vec!["basic", "data", "option", "result", "patterns", "recursive", "propagation"]
    );
    assert_eq!(
        section7_concurrency::get_demo_list(),
        vec!["threading", "channels", "shared", "advanced", "async", "safety"]
    );
    assert_eq!(
        section8_crates::get_demo_list(),
        vec![
            "serde", "rand", "clap", "tokio", "reqwest", "regex", "chrono", "anyhow",
            "thiserror", "crossbeam", "rayon", "tracing", "log", "itertools", "once_cell",
            "uuid", "tempfile", "bitflags", "parking_lot", "collections"
        ]
    );
}

#[test]
fn section_list_by_number() {
    assert_eq!(SECTION_COUNT, 8);
    assert_eq!(get_section_demo_list(1), section1_basics::get_demo_list());
    assert_eq!(get_section_demo_list(2), section2_ownership::get_demo_list());
    assert_eq!(get_section_demo_list(3), section3_borrowing::get_demo_list());
    assert_eq!(get_section_demo_list(4), section4_traits::get_demo_list());
    assert_eq!(get_section_demo_list(5), section5_enums::get_demo_list());
    assert_eq!(get_section_demo_list(6), section6_idioms::get_demo_list());
    assert_eq!(get_section_demo_list(7), section7_concurrency::get_demo_list());
    assert_eq!(get_section_demo_list(8), section8_crates::get_demo_list());
}

#[test]
fn section_sizes() {
    let sizes: Vec<usize> = (1..=8).map(|s| get_section_demo_list(s).len()).collect();
    assert_eq!(sizes, vec![8, 6, 7, 7, 7, 6, 6, 20]);
}

#[test]
fn no_list_for_what_is_no_section() {
    assert!(get_section_demo_list(0).is_empty());
    assert!(get_section_demo_list(9).is_empty());
    assert!(get_section_demo_list(255).is_empty());
    assert!(section_demos(0).is_empty());
    assert!(section_demos(9).is_empty());
}

#[test]
fn section_demos_carry_their_section() {
    for section in 1..=8u8 {
        let names = get_section_demo_list(section);
        let demos = section_demos(section);
        assert_eq!(demos.len(), names.len());
        for (entry, name) in demos.iter().zip(names.iter()) {
            assert_eq!(*entry, DemoEntry { section, name: *name });
        }
    }
}

#[test]
fn all_demos_go_section_after_section() {
    let all = all_demos();
    assert_eq!(all.len(), 67);
    assert_eq!(all[0], DemoEntry { section: 1, name: "hello" });
    assert_eq!(all[7], DemoEntry { section: 1, name: "blocks" });
    assert_eq!(all[8], DemoEntry { section: 2, name: "scope" });
    assert_eq!(all[66], DemoEntry { section: 8, name: "collections" });
    let mut expected = Vec::new();
    for section in 1..=8u8 {
        expected.extend(section_demos(section));
    }
    assert_eq!(all, expected);
}

#[test]
fn every_listed_demo_is_found_at_its_position() {
    for section in 1..=8u8 {
        let names = get_section_demo_list(section);
        for (i, name) in names.iter().enumerate() {
            assert_eq!(find_demo(section, name), Some(i), "section {} demo {}", section, name);
        }
    }
}

#[test]
fn find_demo_examples() {
    assert_eq!(find_demo(1, "hello"), Some(0));
    assert_eq!(find_demo(1, "blocks"), Some(7));
    assert_eq!(find_demo(2, "move"), Some(1));
    assert_eq!(find_demo(4, "structs"), Some(3));
    assert_eq!(find_demo(5, "patterns"), Some(4));
    assert_eq!(find_demo(3, "patterns"), Some(5));
    assert_eq!(find_demo(8, "serde"), Some(0));
    assert_eq!(find_demo(8, "collections"), Some(19));
}

#[test]
fn unknown_names_are_not_found() {
    assert_eq!(find_demo(1, "goodbye"), None);
    assert_eq!(find_demo(1, ""), None);
    assert_eq!(find_demo(1, "Hello"), None);
    assert_eq!(find_demo(1, "hello "), None);
    assert_eq!(find_demo(2, "hello"), None);
    assert_eq!(find_demo(4, "generic"), None);
    assert_eq!(find_demo(0, "hello"), None);
    assert_eq!(find_demo(9, "serde"), None);
}

#[test]
fn section8_answers_to_ordinals() {
    let names = section8_crates::get_demo_list();
    for k in 1..=20usize {
        let ordinal = format!("{}", k);
        assert_eq!(find_demo(8, &ordinal), Some(k - 1));
        assert_eq!(find_demo(8, &ordinal), find_demo(8, names[k - 1]));
        assert_eq!(section8_crates::find_by_ordinal(&ordinal), Some(k - 1));
    }
}

#[test]
fn ordinals_out_of_range_or_misspelt() {
    for text in ["0", "21", "99", "100", "01", "020", " 1", "1 ", "+1", "-1", "1a", "a1", "", "١"] {
        assert_eq!(section8_crates::find_by_ordinal(text), None, "{:?}", text);
        assert_eq!(find_demo(8, text), None, "{:?}", text);
    }
    assert_eq!(section8_crates::find_by_ordinal("serde"), None);
}

#[test]
fn only_section8_answers_to_ordinals() {
    for section in 1..=7u8 {
        assert_eq!(find_demo(section, "1"), None);
        assert_eq!(find_demo(section, "6"), None);
    }
}

#[test]
fn find_name_gives_the_first_position() {
    let list = vec!["a", "b", "a", "c"];
    assert_eq!(find_name(&list, "a"), Some(0));
    assert_eq!(find_name(&list, "b"), Some(1));
    assert_eq!(find_name(&list, "c"), Some(3));
    assert_eq!(find_name(&list, "d"), None);
    assert_eq!(find_name(&Vec::new(), "a"), None);
}
