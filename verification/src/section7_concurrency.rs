//! Section 7: fearless concurrency.

use vstd::prelude::*;
use crate::catalog::{name_key, names_of};

verus! {

/// The names of this section's demos, in lecture order.
pub open spec fn demo_names() -> Seq<Seq<char>> {
    seq![
        "threading"@,
        "channels"@,
        "shared"@,
        "advanced"@,
        "async"@,
        "safety"@,
    ]
}

/// No name stands twice in this section's list.
pub proof fn lemma_names_distinct()
    ensures
        forall|i: int, j: int|
            0 <= i < j < demo_names().len() ==> demo_names()[i] != demo_names()[j],
{
    let names = demo_names();
    reveal_strlit("threading");
    assert(name_key(names[0]) == (9nat, 't', 'h'));
    reveal_strlit("channels");
    assert(name_key(names[1]) == (8nat, 'c', 'h'));
    reveal_strlit("shared");
    assert(name_key(names[2]) == (6nat, 's', 'h'));
    reveal_strlit("advanced");
    assert(name_key(names[3]) == (8nat, 'a', 'd'));
    reveal_strlit("async");
    assert(name_key(names[4]) == (5nat, 'a', 's'));
    reveal_strlit("safety");
    assert(name_key(names[5]) == (6nat, 's', 'a'));
}

/// Lists this section's demos, in lecture order.
pub fn get_demo_list() -> (list: Vec<&'static str>)
    ensures
        names_of(list@) == demo_names(),
{
    let list = vec![
        "threading",
        "channels",
        "shared",
        "advanced",
        "async",
        "safety",
    ];
    assert(names_of(list@) =~= demo_names());
    list
}

} // verus!
