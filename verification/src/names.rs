//! The static word lists: candidates for first and middle names, and
//! candidates for surnames. Immutable sample data, never empty, with every
//! entry non-empty.

use vstd::prelude::*;

verus! {

/// The first/middle-name candidates, as the specification sees them.
pub open spec fn name_list_spec() -> Seq<Seq<char>> {
    seq![
        "James"@,
        "Mary"@,
        "Robert"@,
        "Patricia"@,
        "John"@,
        "Jennifer"@,
        "Michael"@,
        "Linda"@,
        "David"@,
        "Elizabeth"@,
        "William"@,
        "Susan"@,
        "Richard"@,
        "Jessica"@,
        "Joseph"@,
        "Sarah"@,
    ]
}

/// The surname candidates, as the specification sees them.
pub open spec fn surname_list_spec() -> Seq<Seq<char>> {
    seq![
        "Smith"@,
        "Johnson"@,
        "Williams"@,
        "Brown"@,
        "Jones"@,
        "Garcia"@,
        "Miller"@,
        "Davis"@,
        "Rodriguez"@,
        "Martinez"@,
        "Hernandez"@,
        "Lopez"@,
        "Gonzalez"@,
        "Wilson"@,
        "Anderson"@,
        "Taylor"@,
    ]
}

/// The list of first/middle-name candidates: non-empty, and every entry a
/// non-empty string.
pub fn first_names() -> (v: Vec<&'static str>)
    ensures
        v@.len() == name_list_spec().len(),
        v@.len() > 0,
        forall|i: int| 0 <= i < v@.len() ==> #[trigger] v@[i]@ == name_list_spec()[i],
        forall|i: int| 0 <= i < v@.len() ==> #[trigger] v@[i]@.len() > 0,
{
    let v: Vec<&'static str> = vec![
        "James",
        "Mary",
        "Robert",
        "Patricia",
        "John",
        "Jennifer",
        "Michael",
        "Linda",
        "David",
        "Elizabeth",
        "William",
        "Susan",
        "Richard",
        "Jessica",
        "Joseph",
        "Sarah",
    ];
    proof {
        reveal_strlit("James");
        reveal_strlit("Mary");
        reveal_strlit("Robert");
        reveal_strlit("Patricia");
        reveal_strlit("John");
        reveal_strlit("Jennifer");
        reveal_strlit("Michael");
        reveal_strlit("Linda");
        reveal_strlit("David");
        reveal_strlit("Elizabeth");
        reveal_strlit("William");
        reveal_strlit("Susan");
        reveal_strlit("Richard");
        reveal_strlit("Jessica");
        reveal_strlit("Joseph");
        reveal_strlit("Sarah");
    }
    v
}

/// The list of surname candidates: non-empty, and every entry a non-empty
/// string.
pub fn surnames() -> (v: Vec<&'static str>)
    ensures
        v@.len() == surname_list_spec().len(),
        v@.len() > 0,
        forall|i: int| 0 <= i < v@.len() ==> #[trigger] v@[i]@ == surname_list_spec()[i],
        forall|i: int| 0 <= i < v@.len() ==> #[trigger] v@[i]@.len() > 0,
{
    let v: Vec<&'static str> = vec![
        "Smith",
        "Johnson",
        "Williams",
        "Brown",
        "Jones",
        "Garcia",
        "Miller",
        "Davis",
        "Rodriguez",
        "Martinez",
        "Hernandez",
        "Lopez",
        "Gonzalez",
        "Wilson",
        "Anderson",
        "Taylor",
    ];
    proof {
        reveal_strlit("Smith");
        reveal_strlit("Johnson");
        reveal_strlit("Williams");
        reveal_strlit("Brown");
        reveal_strlit("Jones");
        reveal_strlit("Garcia");
        reveal_strlit("Miller");
        reveal_strlit("Davis");
        reveal_strlit("Rodriguez");
        reveal_strlit("Martinez");
        reveal_strlit("Hernandez");
        reveal_strlit("Lopez");
        reveal_strlit("Gonzalez");
        reveal_strlit("Wilson");
        reveal_strlit("Anderson");
        reveal_strlit("Taylor");
    }
    v
}

} // verus!
