//! Section 1: basic syntax and constructs.

use vstd::prelude::*;
use crate::catalog::{name_key, names_of};

verus! {

/// The names of this section's demos, in lecture order.
pub open spec fn demo_names() -> Seq<Seq<char>> {
    seq![
        "hello"@,
        "variables"@,
        "functions"@,
        "if"@,
        "match"@,
        "for"@,
        "while"@,
        "blocks"@,
    ]
}

/// No name stands twice in this section's list.
pub proof fn lemma_names_distinct()
    ensures
        forall|i: int, j: int|
            0 <= i < j < demo_names().len() ==> demo_names()[i] != demo_names()[j],
{
    let names = demo_names();
    reveal_strlit("hello");
    assert(name_key(names[0]) == (5nat, 'h', 'e'));
    reveal_strlit("variables");
    assert(name_key(names[1]) == (9nat, 'v', 'a'));
    reveal_strlit("functions");
    assert(name_key(names[2]) == (9nat, 'f', 'u'));
    reveal_strlit("if");
    assert(name_key(names[3]) == (2nat, 'i', 'f'));
    reveal_strlit("match");
    assert(name_key(names[4]) == (5nat, 'm', 'a'));
    reveal_strlit("for");
    assert(name_key(names[5]) == (3nat, 'f', 'o'));
    reveal_strlit("while");
    assert(name_key(names[6]) == (5nat, 'w', 'h'));
    reveal_strlit("blocks");
    assert(name_key(names[7]) == (6nat, 'b', 'l'));
}

/// Lists this section's demos, in lecture order.
pub fn get_demo_list() -> (list: Vec<&'static str>)
    ensures
        names_of(list@) == demo_names(),
{
    let list = vec![
        "hello",
        "variables",
        "functions",
        "if",
        "match",
        "for",
        "while",
        "blocks",
    ];
    assert(names_of(list@) =~= demo_names());
    list
}

} // verus!
