//! Section 6: idiomatic patterns and utilities.

use vstd::prelude::*;
use crate::catalog::{name_key, names_of};

verus! {

/// The names of this section's demos, in lecture order.
pub open spec fn demo_names() -> Seq<Seq<char>> {
    seq![
        "iterators"@,
        "advanced_iterators"@,
        "errors"@,
        "shadowing"@,
        "memory"@,
        "utilities"@,
    ]
}

/// No name stands twice in this section's list.
pub proof fn lemma_names_distinct()
    ensures
        forall|i: int, j: int|
            0 <= i < j < demo_names().len() ==> demo_names()[i] != demo_names()[j],
{
    let names = demo_names();
    reveal_strlit("iterators");
    assert(name_key(names[0]) == (9nat, 'i', 't'));
    reveal_strlit("advanced_iterators");
    assert(name_key(names[1]) == (18nat, 'a', 'd'));
    reveal_strlit("errors");
    assert(name_key(names[2]) == (6nat, 'e', 'r'));
    reveal_strlit("shadowing");
    assert(name_key(names[3]) == (9nat, 's', 'h'));
    reveal_strlit("memory");
    assert(name_key(names[4]) == (6nat, 'm', 'e'));
    reveal_strlit("utilities");
    assert(name_key(names[5]) == (9nat, 'u', 't'));
}

/// Lists this section's demos, in lecture order.
pub fn get_demo_list() -> (list: Vec<&'static str>)
    ensures
        names_of(list@) == demo_names(),
{
    let list = vec![
        "iterators",
        "advanced_iterators",
        "errors",
        "shadowing",
        "memory",
        "utilities",
    ];
    assert(names_of(list@) =~= demo_names());
    list
}

} // verus!
