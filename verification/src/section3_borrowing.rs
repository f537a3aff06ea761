//! Section 3: borrowing, references and lifetimes.

use vstd::prelude::*;
use crate::catalog::{name_key, names_of};

verus! {

/// The names of this section's demos, in lecture order.
pub open spec fn demo_names() -> Seq<Seq<char>> {
    seq![
        "immutable"@,
        "mutable"@,
        "rules"@,
        "lifetimes"@,
        "elision"@,
        "patterns"@,
        "dangling"@,
    ]
}

/// No name stands twice in this section's list.
pub proof fn lemma_names_distinct()
    ensures
        forall|i: int, j: int|
            0 <= i < j < demo_names().len() ==> demo_names()[i] != demo_names()[j],
{
    let names = demo_names();
    reveal_strlit("immutable");
    assert(name_key(names[0]) == (9nat, 'i', 'm'));
    reveal_strlit("mutable");
    assert(name_key(names[1]) == (7nat, 'm', 'u'));
    reveal_strlit("rules");
    assert(name_key(names[2]) == (5nat, 'r', 'u'));
    reveal_strlit("lifetimes");
    assert(name_key(names[3]) == (9nat, 'l', 'i'));
    reveal_strlit("elision");
    assert(name_key(names[4]) == (7nat, 'e', 'l'));
    reveal_strlit("patterns");
    assert(name_key(names[5]) == (8nat, 'p', 'a'));
    reveal_strlit("dangling");
    assert(name_key(names[6]) == (8nat, 'd', 'a'));
}

/// Lists this section's demos, in lecture order.
pub fn get_demo_list() -> (list: Vec<&'static str>)
    ensures
        names_of(list@) == demo_names(),
{
    let list = vec![
        "immutable",
        "mutable",
        "rules",
        "lifetimes",
        "elision",
        "patterns",
        "dangling",
    ];
    assert(names_of(list@) =~= demo_names());
    list
}

} // verus!
