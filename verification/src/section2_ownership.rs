//! Section 2: ownership and move semantics.

use vstd::prelude::*;
use crate::catalog::{name_key, names_of};

verus! {

/// The names of this section's demos, in lecture order.
pub open spec fn demo_names() -> Seq<Seq<char>> {
    seq![
        "scope"@,
        "move"@,
        "copy"@,
        "functions"@,
        "collections"@,
        "patterns"@,
    ]
}

/// No name stands twice in this section's list.
pub proof fn lemma_names_distinct()
    ensures
        forall|i: int, j: int|
            0 <= i < j < demo_names().len() ==> demo_names()[i] != demo_names()[j],
{
    let names = demo_names();
    reveal_strlit("scope");
    assert(name_key(names[0]) == (5nat, 's', 'c'));
    reveal_strlit("move");
    assert(name_key(names[1]) == (4nat, 'm', 'o'));
    reveal_strlit("copy");
    assert(name_key(names[2]) == (4nat, 'c', 'o'));
    reveal_strlit("functions");
    assert(name_key(names[3]) == (9nat, 'f', 'u'));
    reveal_strlit("collections");
    assert(name_key(names[4]) == (11nat, 'c', 'o'));
    reveal_strlit("patterns");
    assert(name_key(names[5]) == (8nat, 'p', 'a'));
}

/// Lists this section's demos, in lecture order.
pub fn get_demo_list() -> (list: Vec<&'static str>)
    ensures
        names_of(list@) == demo_names(),
{
    let list = vec![
        "scope",
        "move",
        "copy",
        "functions",
        "collections",
        "patterns",
    ];
    assert(names_of(list@) =~= demo_names());
    list
}

} // verus!
