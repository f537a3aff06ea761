//! The catalogue of demos: which sections exist, which demos each holds, and
//! under which names a demo is found.

use vstd::prelude::*;
use crate::section1_basics;
use crate::section2_ownership;
use crate::section3_borrowing;
use crate::section4_traits;
use crate::section5_enums;
use crate::section6_idioms;
use crate::section7_concurrency;
use crate::section8_crates;
use crate::text::str_eq;

verus! {

/// The number of the last section; sections are numbered from 1.
pub const SECTION_COUNT: u8 = 8;

/// One demo of the catalogue: the section it belongs to and its name there.
#[derive(Clone, Copy, Debug, PartialEq, Eq)]
pub struct DemoEntry {
    pub section: u8,
    pub name: &'static str,
}

/// What a [`DemoEntry`] stands for: a section number and a name.
pub struct DemoView {
    pub section: int,
    pub name: Seq<char>,
}

impl View for DemoEntry {
    type V = DemoView;

    open spec fn view(&self) -> DemoView {
        DemoView { section: self.section as int, name: self.name@ }
    }
}

/// The character sequences of a list of names.
pub open spec fn names_of(list: Seq<&'static str>) -> Seq<Seq<char>> {
    Seq::new(list.len(), |i: int| list[i]@)
}

/// A name's length and its first two characters; within each section this
/// tells the names apart.
pub open spec fn name_key(name: Seq<char>) -> (nat, char, char) {
    (name.len(), name[0], name[1])
}

/// What a list of entries stands for.
pub open spec fn views_of(list: Seq<DemoEntry>) -> Seq<DemoView> {
    Seq::new(list.len(), |i: int| list[i]@)
}

/// Whether `section` is the number of a section.
pub open spec fn is_section(section: int) -> bool {
    1 <= section <= SECTION_COUNT
}

/// The names of the demos of `section`, in lecture order; no names for a
/// number that is not a section.
pub open spec fn section_demo_names(section: int) -> Seq<Seq<char>> {
    if section == 1 {
        section1_basics::demo_names()
    } else if section == 2 {
        section2_ownership::demo_names()
    } else if section == 3 {
        section3_borrowing::demo_names()
    } else if section == 4 {
        section4_traits::demo_names()
    } else if section == 5 {
        section5_enums::demo_names()
    } else if section == 6 {
        section6_idioms::demo_names()
    } else if section == 7 {
        section7_concurrency::demo_names()
    } else if section == 8 {
        section8_crates::demo_names()
    } else {
        Seq::empty()
    }
}

/// The demos of `section` as entries, in lecture order.
pub open spec fn section_entries(section: int) -> Seq<DemoView> {
    Seq::new(
        section_demo_names(section).len(),
        |i: int| DemoView { section, name: section_demo_names(section)[i] },
    )
}

/// The demos of the sections 1 to `last`, section after section.
pub open spec fn entries_through(last: int) -> Seq<DemoView>
    decreases last,
{
    if last <= 0 {
        Seq::empty()
    } else {
        entries_through(last - 1) + section_entries(last)
    }
}

/// Every demo of the catalogue, section after section.
pub open spec fn all_entries() -> Seq<DemoView> {
    entries_through(SECTION_COUNT as int)
}

/// The number of demos that `section` holds.
pub open spec fn demo_count(section: int) -> nat {
    if section == 1 {
        8
    } else if section == 2 {
        6
    } else if section == 3 {
        7
    } else if section == 4 {
        7
    } else if section == 5 {
        7
    } else if section == 6 {
        6
    } else if section == 7 {
        6
    } else if section == 8 {
        20
    } else {
        0
    }
}

/// A section lists as many demos as [`demo_count`] says, each of them under
/// the section's own number, and exactly the sections 1 to 8 hold any.
pub proof fn lemma_section_size(section: int)
    ensures
        section_demo_names(section).len() == demo_count(section),
        section_entries(section).len() == demo_count(section),
        demo_count(section) > 0 <==> is_section(section),
        forall|i: int|
            0 <= i < demo_count(section) ==> (#[trigger] section_entries(section)[i]).section
                == section,
{
}

/// The catalogue holds 67 demos in all.
pub proof fn lemma_catalogue_size()
    ensures
        all_entries().len() == 67,
{
    reveal_with_fuel(entries_through, 9);
    lemma_section_size(1);
    lemma_section_size(2);
    lemma_section_size(3);
    lemma_section_size(4);
    lemma_section_size(5);
    lemma_section_size(6);
    lemma_section_size(7);
    lemma_section_size(8);
}

/// The first position at which `name` stands in `names`, if it stands there.
pub open spec fn position_of(names: Seq<Seq<char>>, name: Seq<char>) -> Option<int>
    decreases names.len(),
{
    if names.len() == 0 {
        None
    } else if names.first() == name {
        Some(0)
    } else {
        match position_of(names.drop_first(), name) {
            Some(i) => Some(i + 1),
            None => None,
        }
    }
}

/// The position in its section of the demo that `name` asks for: section 8
/// also answers to a demo's ordinal number, every section to the listed names.
pub open spec fn demo_position(section: int, name: Seq<char>) -> Option<int> {
    if section == 8 && section8_crates::ordinal_position(name) is Some {
        section8_crates::ordinal_position(name)
    } else {
        position_of(section_demo_names(section), name)
    }
}

/// In a list in which no name stands twice, each name is found at its own
/// position.
pub proof fn lemma_position_of_listed(names: Seq<Seq<char>>, i: int)
    requires
        0 <= i < names.len(),
        forall|a: int, b: int| 0 <= a < b < names.len() ==> names[a] != names[b],
    ensures
        position_of(names, names[i]) == Some(i),
    decreases names.len(),
{
    if i > 0 {
        let rest = names.drop_first();
        assert(forall|a: int| 0 <= a < rest.len() ==> rest[a] == names[a + 1]);
        lemma_position_of_listed(rest, i - 1);
    }
}

/// No name stands twice in a section's list.
pub proof fn lemma_section_names_distinct(section: int)
    ensures
        forall|i: int, j: int|
            0 <= i < j < section_demo_names(section).len() ==> section_demo_names(section)[i]
                != section_demo_names(section)[j],
{
    section1_basics::lemma_names_distinct();
    section2_ownership::lemma_names_distinct();
    section3_borrowing::lemma_names_distinct();
    section4_traits::lemma_names_distinct();
    section5_enums::lemma_names_distinct();
    section6_idioms::lemma_names_distinct();
    section7_concurrency::lemma_names_distinct();
    section8_crates::lemma_names_distinct();
}

/// Every demo that a section lists is found under its listed name, at the
/// position at which it is listed.
pub proof fn lemma_listed_demo_is_found(section: int, i: int)
    requires
        0 <= i < section_demo_names(section).len(),
    ensures
        demo_position(section, section_demo_names(section)[i]) == Some(i),
{
    lemma_section_names_distinct(section);
    lemma_position_of_listed(section_demo_names(section), i);
    if section == 8 {
        section8_crates::lemma_names_distinct();
    }
}

/// In section 8 the `k`-th demo, counted from 1, is also found under the
/// numeral of `k`.
pub proof fn lemma_ordinal_finds_demo(k: int)
    requires
        1 <= k <= demo_count(8),
    ensures
        demo_position(8, section8_crates::numeral(k)) == Some(k - 1),
{
    section8_crates::lemma_numeral_value(k);
}

/// A name is found in a section only at a position of that section's list.
pub proof fn lemma_found_demo_is_listed(section: int, name: Seq<char>)
    ensures
        demo_position(section, name) matches Some(i) ==> 0 <= i < demo_count(section),
{
    lemma_section_size(section);
    lemma_position_in_range(section_demo_names(section), name);
}

/// Where `name` is found in `names`, it stands there, and nowhere before.
pub proof fn lemma_position_in_range(names: Seq<Seq<char>>, name: Seq<char>)
    ensures
        position_of(names, name) matches Some(i) ==> {
            &&& 0 <= i < names.len()
            &&& names[i] == name
            &&& forall|j: int| 0 <= j < i ==> names[j] != name
        },
        position_of(names, name) is None ==> forall|j: int|
            0 <= j < names.len() ==> names[j] != name,
    decreases names.len(),
{
    if names.len() > 0 {
        let rest = names.drop_first();
        lemma_position_in_range(rest, name);
        assert(forall|a: int| 0 <= a < rest.len() ==> rest[a] == names[a + 1]);
        if names.first() != name {
            match position_of(rest, name) {
                Some(k) => {
                    assert forall|j: int| 0 <= j < k + 1 implies names[j] != name by {
                        if j > 0 {
                            assert(rest[j - 1] == names[j]);
                        }
                    }
                },
                None => {
                    assert forall|j: int| 0 <= j < names.len() implies names[j] != name by {
                        if j > 0 {
                            assert(rest[j - 1] == names[j]);
                        }
                    }
                },
            }
        }
    }
}

/// Lists the demos of `section`, in lecture order; the list is empty for a
/// number that is not a section.
pub fn get_section_demo_list(section: u8) -> (list: Vec<&'static str>)
    ensures
        names_of(list@) == section_demo_names(section as int),
{
    match section {
        1 => section1_basics::get_demo_list(),
        2 => section2_ownership::get_demo_list(),
        3 => section3_borrowing::get_demo_list(),
        4 => section4_traits::get_demo_list(),
        5 => section5_enums::get_demo_list(),
        6 => section6_idioms::get_demo_list(),
        7 => section7_concurrency::get_demo_list(),
        8 => section8_crates::get_demo_list(),
        _ => {
            let list: Vec<&'static str> = Vec::new();
            assert(names_of(list@) =~= section_demo_names(section as int));
            list
        },
    }
}

/// Finds the first position of `name` in `list`.
pub fn find_name(list: &Vec<&'static str>, name: &str) -> (found: Option<usize>)
    ensures
        match found {
            Some(i) => position_of(names_of(list@), name@) == Some(i as int),
            None => position_of(names_of(list@), name@) is None,
        },
{
    let ghost names = names_of(list@);
    let mut i: usize = 0;
    assert(names.subrange(0, names.len() as int) =~= names);
    while i < list.len()
        invariant
            i <= list.len(),
            names == names_of(list@),
            position_of(names, name@) == match position_of(
                names.subrange(i as int, names.len() as int),
                name@,
            ) {
                Some(k) => Some(k + i),
                None => None,
            },
        decreases list.len() - i,
    {
        proof {
            let rest = names.subrange(i as int, names.len() as int);
            assert(rest.first() == list@[i as int]@);
            assert(rest.drop_first() =~= names.subrange(i + 1, names.len() as int));
        }
        if str_eq(list[i], name) {
            return Some(i);
        }
        i = i + 1;
    }
    None
}

/// Finds the demo of `section` that `demo_name` asks for and returns its
/// position in the section's list; `None` for a name that the section does
/// not know, and for every name where `section` is not a section.
pub fn find_demo(section: u8, demo_name: &str) -> (found: Option<usize>)
    ensures
        match found {
            Some(i) => demo_position(section as int, demo_name@) == Some(i as int),
            None => demo_position(section as int, demo_name@) is None,
        },
{
    if section == 8 {
        let by_ordinal = section8_crates::find_by_ordinal(demo_name);
        if by_ordinal.is_some() {
            return by_ordinal;
        }
    }
    let list = get_section_demo_list(section);
    find_name(&list, demo_name)
}

/// Gives the demos of `section` as entries, in lecture order.
pub fn section_demos(section: u8) -> (demos: Vec<DemoEntry>)
    ensures
        views_of(demos@) == section_entries(section as int),
{
    let names = get_section_demo_list(section);
    let mut demos: Vec<DemoEntry> = Vec::new();
    let mut i: usize = 0;
    while i < names.len()
        invariant
            i <= names.len(),
            names_of(names@) == section_demo_names(section as int),
            demos@.len() == i,
            forall|j: int| 0 <= j < i ==> (#[trigger] demos@[j])@ == section_entries(section as int)[j],
        decreases names.len() - i,
    {
        proof {
            assert(names_of(names@)[i as int] == names@[i as int]@);
        }
        demos.push(DemoEntry { section, name: names[i] });
        i = i + 1;
    }
    proof {
        assert(names_of(names@).len() == names@.len());
        assert(views_of(demos@) =~= section_entries(section as int));
    }
    demos
}

/// Gives every demo of the catalogue: the demos of section 1, then those of
/// section 2, and so on to the last section.
pub fn all_demos() -> (demos: Vec<DemoEntry>)
    ensures
        views_of(demos@) == all_entries(),
{
    let mut demos: Vec<DemoEntry> = Vec::new();
    let mut section: u8 = 1;
    proof {
        assert(views_of(demos@) =~= entries_through(0));
    }
    while section <= SECTION_COUNT
        invariant
            1 <= section <= SECTION_COUNT + 1,
            views_of(demos@) == entries_through(section - 1),
        decreases SECTION_COUNT + 1 - section,
    {
        let of_section = section_demos(section);
        let ghost before = demos@;
        let mut i: usize = 0;
        while i < of_section.len()
            invariant
                i <= of_section.len(),
                demos@ == before + of_section@.subrange(0, i as int),
            decreases of_section.len() - i,
        {
            demos.push(of_section[i]);
            proof {
                assert(of_section@.subrange(0, i + 1) =~= of_section@.subrange(0, i as int).push(
                    of_section@[i as int],
                ));
                assert(demos@ =~= before + of_section@.subrange(0, i + 1));
            }
            i = i + 1;
        }
        proof {
            assert(of_section@.subrange(0, of_section@.len() as int) =~= of_section@);
            assert(views_of(before + of_section@) =~= views_of(before) + views_of(of_section@));
        }
        section = section + 1;
    }
    demos
}

} // verus!
