//! Section 4: the trait system and generics.

use vstd::prelude::*;
use crate::catalog::{name_key, names_of};

verus! {

/// The names of this section's demos, in lecture order.
pub open spec fn demo_names() -> Seq<Seq<char>> {
    seq![
        "basic"@,
        "generics"@,
        "objects"@,
        "structs"@,
        "associated"@,
        "operators"@,
        "standard"@,
    ]
}

/// No name stands twice in this section's list.
pub proof fn lemma_names_distinct()
    ensures
        forall|i: int, j: int|
            0 <= i < j < demo_names().len() ==> demo_names()[i] != demo_names()[j],
{
    let names = demo_names();
    reveal_strlit("basic");
    assert(name_key(names[0]) == (5nat, 'b', 'a'));
    reveal_strlit("generics");
    assert(name_key(names[1]) == (8nat, 'g', 'e'));
    reveal_strlit("objects");
    assert(name_key(names[2]) == (7nat, 'o', 'b'));
    reveal_strlit("structs");
    assert(name_key(names[3]) == (7nat, 's', 't'));
    reveal_strlit("associated");
    assert(name_key(names[4]) == (10nat, 'a', 's'));
    reveal_strlit("operators");
    assert(name_key(names[5]) == (9nat, 'o', 'p'));
    reveal_strlit("standard");
    assert(name_key(names[6]) == (8nat, 's', 't'));
}

/// Lists this section's demos, in lecture order.
pub fn get_demo_list() -> (list: Vec<&'static str>)
    ensures
        names_of(list@) == demo_names(),
{
    let list = vec![
        "basic",
        "generics",
        "objects",
        "structs",
        "associated",
        "operators",
        "standard",
    ];
    assert(names_of(list@) =~= demo_names());
    list
}

} // verus!
