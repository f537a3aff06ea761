//! Section 5: enums, pattern matching, `Option` and `Result`.

use vstd::prelude::*;
use crate::catalog::{name_key, names_of};

verus! {

/// The names of this section's demos, in lecture order.
pub open spec fn demo_names() -> Seq<Seq<char>> {
    seq![
        "basic"@,
        "data"@,
        "option"@,
        "result"@,
        "patterns"@,
        "recursive"@,
        "propagation"@,
    ]
}

/// No name stands twice in this section's list.
pub proof fn lemma_names_distinct()
    ensures
        forall|i: int, j: int|
            0 <= i < j < demo_names().len() ==> demo_names()[i] != demo_names()[j],
{
    let names = demo_names();
    reveal_strlit("basic");
    assert(name_key(names[0]) == (5nat, 'b', 'a'));
    reveal_strlit("data");
    assert(name_key(names[1]) == (4nat, 'd', 'a'));
    reveal_strlit("option");
    assert(name_key(names[2]) == (6nat, 'o', 'p'));
    reveal_strlit("result");
    assert(name_key(names[3]) == (6nat, 'r', 'e'));
    reveal_strlit("patterns");
    assert(name_key(names[4]) == (8nat, 'p', 'a'));
    reveal_strlit("recursive");
    assert(name_key(names[5]) == (9nat, 'r', 'e'));
    reveal_strlit("propagation");
    assert(name_key(names[6]) == (11nat, 'p', 'r'));
}

/// Lists this section's demos, in lecture order.
pub fn get_demo_list() -> (list: Vec<&'static str>)
    ensures
        names_of(list@) == demo_names(),
{
    let list = vec![
        "basic",
        "data",
        "option",
        "result",
        "patterns",
        "recursive",
        "propagation",
    ];
    assert(names_of(list@) =~= demo_names());
    list
}

} // verus!
