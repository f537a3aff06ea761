//! Section 8: popular crates.

use vstd::prelude::*;
use crate::catalog::{name_key, names_of};
use vstd::string::*;

verus! {

/// The names of this section's demos, in lecture order.
pub open spec fn demo_names() -> Seq<Seq<char>> {
    seq![
        "serde"@,
        "rand"@,
        "clap"@,
        "tokio"@,
        "reqwest"@,
        "regex"@,
        "chrono"@,
        "anyhow"@,
        "thiserror"@,
        "crossbeam"@,
        "rayon"@,
        "tracing"@,
        "log"@,
        "itertools"@,
        "once_cell"@,
        "uuid"@,
        "tempfile"@,
        "bitflags"@,
        "parking_lot"@,
        "collections"@,
    ]
}

/// Whether `c` is a decimal digit.
pub open spec fn is_digit(c: char) -> bool {
    '0' <= c <= '9'
}

/// The number that the decimal digit `c` stands for.
pub open spec fn digit_value(c: char) -> int {
    c as int - '0' as int
}

/// The number that `text` is the decimal numeral of, for numerals of one or
/// two digits without a leading zero.
pub open spec fn numeral_value(text: Seq<char>) -> Option<int> {
    if text.len() == 1 && is_digit(text[0]) {
        Some(digit_value(text[0]))
    } else if text.len() == 2 && is_digit(text[0]) && text[0] != '0' && is_digit(text[1]) {
        Some(10 * digit_value(text[0]) + digit_value(text[1]))
    } else {
        None
    }
}

/// The position of the demo that the ordinal number `text` asks for: the
/// numeral of `k` asks for the `k`-th demo of this section, counted from 1.
pub open spec fn ordinal_position(text: Seq<char>) -> Option<int> {
    match numeral_value(text) {
        Some(k) => if 1 <= k <= demo_names().len() {
            Some(k - 1)
        } else {
            None
        },
        None => None,
    }
}

/// The decimal digit that stands for `d`.
pub open spec fn digit(d: int) -> char {
    ('0' as int + d) as char
}

/// The decimal numeral of `k`, for numbers below 100.
pub open spec fn numeral(k: int) -> Seq<char> {
    if k < 10 {
        seq![digit(k)]
    } else {
        seq![digit(k / 10), digit(k % 10)]
    }
}

/// A number's numeral is read back as that number.
pub proof fn lemma_numeral_value(k: int)
    requires
        0 <= k < 100,
    ensures
        numeral_value(numeral(k)) == Some(k),
{
}

/// The number of demos in this section.
pub const DEMO_COUNT: usize = 20;

/// Reads a decimal digit.
fn digit_of(c: char) -> (d: Option<usize>)
    ensures
        match d {
            Some(v) => is_digit(c) && v == digit_value(c),
            None => !is_digit(c),
        },
{
    if '0' <= c && c <= '9' {
        Some((c as u8 - '0' as u8) as usize)
    } else {
        None
    }
}

/// Finds the demo that the ordinal number `text` asks for.
pub fn find_by_ordinal(text: &str) -> (found: Option<usize>)
    ensures
        match found {
            Some(i) => ordinal_position(text@) == Some(i as int),
            None => ordinal_position(text@) is None,
        },
{
    let len: usize = text.unicode_len();
    let number: usize = if len == 1 {
        match digit_of(text.get_char(0)) {
            Some(d) => d,
            None => { return None; },
        }
    } else if len == 2 {
        let tens = digit_of(text.get_char(0));
        let units = digit_of(text.get_char(1));
        match (tens, units) {
            (Some(t), Some(u)) => {
                if t == 0 {
                    return None;
                }
                10 * t + u
            },
            _ => { return None; },
        }
    } else {
        return None;
    };
    if 1 <= number && number <= DEMO_COUNT {
        Some(number - 1)
    } else {
        None
    }
}

/// No name stands twice in this section's list, and none of the names is an ordinal number.
pub proof fn lemma_names_distinct()
    ensures
        forall|i: int, j: int|
            0 <= i < j < demo_names().len() ==> demo_names()[i] != demo_names()[j],
        forall|i: int| 0 <= i < demo_names().len() ==> ordinal_position(#[trigger] demo_names()[i]) is None,
{
    let names = demo_names();
    reveal_strlit("serde");
    assert(name_key(names[0]) == (5nat, 's', 'e'));
    reveal_strlit("rand");
    assert(name_key(names[1]) == (4nat, 'r', 'a'));
    reveal_strlit("clap");
    assert(name_key(names[2]) == (4nat, 'c', 'l'));
    reveal_strlit("tokio");
    assert(name_key(names[3]) == (5nat, 't', 'o'));
    reveal_strlit("reqwest");
    assert(name_key(names[4]) == (7nat, 'r', 'e'));
    reveal_strlit("regex");
    assert(name_key(names[5]) == (5nat, 'r', 'e'));
    reveal_strlit("chrono");
    assert(name_key(names[6]) == (6nat, 'c', 'h'));
    reveal_strlit("anyhow");
    assert(name_key(names[7]) == (6nat, 'a', 'n'));
    reveal_strlit("thiserror");
    assert(name_key(names[8]) == (9nat, 't', 'h'));
    reveal_strlit("crossbeam");
    assert(name_key(names[9]) == (9nat, 'c', 'r'));
    reveal_strlit("rayon");
    assert(name_key(names[10]) == (5nat, 'r', 'a'));
    reveal_strlit("tracing");
    assert(name_key(names[11]) == (7nat, 't', 'r'));
    reveal_strlit("log");
    assert(name_key(names[12]) == (3nat, 'l', 'o'));
    reveal_strlit("itertools");
    assert(name_key(names[13]) == (9nat, 'i', 't'));
    reveal_strlit("once_cell");
    assert(name_key(names[14]) == (9nat, 'o', 'n'));
    reveal_strlit("uuid");
    assert(name_key(names[15]) == (4nat, 'u', 'u'));
    reveal_strlit("tempfile");
    assert(name_key(names[16]) == (8nat, 't', 'e'));
    reveal_strlit("bitflags");
    assert(name_key(names[17]) == (8nat, 'b', 'i'));
    reveal_strlit("parking_lot");
    assert(name_key(names[18]) == (11nat, 'p', 'a'));
    reveal_strlit("collections");
    assert(name_key(names[19]) == (11nat, 'c', 'o'));
}

/// Lists this section's demos, in lecture order.
pub fn get_demo_list() -> (list: Vec<&'static str>)
    ensures
        names_of(list@) == demo_names(),
{
    let list = vec![
        "serde",
        "rand",
        "clap",
        "tokio",
        "reqwest",
        "regex",
        "chrono",
        "anyhow",
        "thiserror",
        "crossbeam",
        "rayon",
        "tracing",
        "log",
        "itertools",
        "once_cell",
        "uuid",
        "tempfile",
        "bitflags",
        "parking_lot",
        "collections",
    ];
    assert(names_of(list@) =~= demo_names());
    list
}

} // verus!
