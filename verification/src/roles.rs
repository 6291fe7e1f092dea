//! Role names as a set.
//!
//! The roles of a user are kept in a vector in which no name occurs twice.
//! The order is that in which the names were first added; nothing depends on
//! it.

use crate::text::texts;
use vstd::prelude::*;

verus! {

/// `names` with `name` added, unless it is among them already.
pub open spec fn with_role(names: Seq<Seq<char>>, name: Seq<char>) -> Seq<Seq<char>> {
    if names.contains(name) {
        names
    } else {
        names.push(name)
    }
}

/// The names of `given`, each once, in the order in which they first occur.
pub open spec fn distinct(given: Seq<Seq<char>>) -> Seq<Seq<char>>
    decreases given.len(),
{
    if given.len() == 0 {
        Seq::empty()
    } else {
        with_role(distinct(given.drop_last()), given.last())
    }
}

/// How often `name` occurs in `names`.
pub open spec fn occurrences(names: Seq<Seq<char>>, name: Seq<char>) -> nat
    decreases names.len(),
{
    if names.len() == 0 {
        0
    } else if names.last() == name {
        occurrences(names.drop_last(), name) + 1
    } else {
        occurrences(names.drop_last(), name)
    }
}

/// A name occurs as often as it is found: not at all where it is absent,
/// and once where it is present and nothing occurs twice.
pub proof fn lemma_occurrences(names: Seq<Seq<char>>, name: Seq<char>)
    ensures
        !names.contains(name) ==> occurrences(names, name) == 0,
        names.contains(name) ==> occurrences(names, name) >= 1,
        names.contains(name) && names.no_duplicates() ==> occurrences(names, name) == 1,
    decreases names.len(),
{
    if names.len() > 0 {
        let front = names.drop_last();
        lemma_occurrences(front, name);
        if names.contains(name) {
            let i = choose|i: int| 0 <= i < names.len() && names[i] == name;
            if i < names.len() - 1 {
                assert(front[i] == name);
            }
        }
        if front.contains(name) {
            let i = choose|i: int| 0 <= i < front.len() && front[i] == name;
            assert(names[i] == name);
        }
        if names.no_duplicates() {
            assert forall|i: int, j: int|
                0 <= i < front.len() && 0 <= j < front.len() && i != j implies front[i]
                != front[j] by {
                assert(front[i] == names[i] && front[j] == names[j]);
            }
            if names.last() == name && front.contains(name) {
                let i = choose|i: int| 0 <= i < front.len() && front[i] == name;
                assert(names[i] == names[names.len() - 1]);
            }
        }
    }
}

/// Adding a name keeps a set a set, adds that name and no other.
pub proof fn lemma_with_role(names: Seq<Seq<char>>, name: Seq<char>)
    ensures
        with_role(names, name).contains(name),
        forall|n: Seq<char>| names.contains(n) ==> with_role(names, name).contains(n),
        forall|n: Seq<char>| with_role(names, name).contains(n) ==> names.contains(n) || n == name,
        with_role(names, name).to_set() == names.to_set().insert(name),
        names.no_duplicates() ==> with_role(names, name).no_duplicates(),
{
    let after = with_role(names, name);
    if !names.contains(name) {
        assert(after[names.len() as int] == name);
        assert forall|n: Seq<char>| names.contains(n) implies after.contains(n) by {
            let i = choose|i: int| 0 <= i < names.len() && names[i] == n;
            assert(after[i] == n);
        }
        assert forall|n: Seq<char>| after.contains(n) implies names.contains(n) || n == name by {
            let i = choose|i: int| 0 <= i < after.len() && after[i] == n;
            if i < names.len() {
                assert(names[i] == n);
            }
        }
    }
}

/// Inserting the same role name twice leaves it in the set exactly once:
/// the second insertion changes nothing, and the name occurs once.
pub proof fn lemma_role_added_twice(names: Seq<Seq<char>>, name: Seq<char>)
    requires
        names.no_duplicates(),
    ensures
        with_role(with_role(names, name), name) == with_role(names, name),
        with_role(with_role(names, name), name).no_duplicates(),
        occurrences(with_role(with_role(names, name), name), name) == 1,
{
    lemma_with_role(names, name);
    lemma_occurrences(with_role(names, name), name);
}

/// `distinct` holds the names of what it was given, and each of them once.
pub proof fn lemma_distinct(given: Seq<Seq<char>>)
    ensures
        distinct(given).no_duplicates(),
        forall|n: Seq<char>| given.contains(n) <==> distinct(given).contains(n),
        distinct(given).to_set() == given.to_set(),
    decreases given.len(),
{
    if given.len() > 0 {
        let front = given.drop_last();
        lemma_distinct(front);
        lemma_with_role(distinct(front), given.last());
        assert forall|n: Seq<char>| given.contains(n) implies distinct(given).contains(n) by {
            let i = choose|i: int| 0 <= i < given.len() && given[i] == n;
            if i < given.len() - 1 {
                assert(front[i] == n);
                assert(front.contains(n));
            }
        }
        assert forall|n: Seq<char>| distinct(given).contains(n) implies given.contains(n) by {
            if n != given.last() {
                assert(front.contains(n));
                let i = choose|i: int| 0 <= i < front.len() && front[i] == n;
                assert(given[i] == n);
            }
        }
    }
}

/// Whether `name` is among `roles`.
pub fn has_role(roles: &Vec<String>, name: &String) -> (found: bool)
    ensures
        found == texts(roles@).contains(name@),
{
    let mut i: usize = 0;
    while i < roles.len()
        invariant
            0 <= i <= roles@.len(),
            forall|j: int| 0 <= j < i ==> texts(roles@)[j] != name@,
        decreases roles@.len() - i,
    {
        if roles[i] == *name {
            assert(texts(roles@)[i as int] == name@);
            return true;
        }
        i += 1;
    }
    false
}

/// Adds `name` to `roles` unless it is there already, and says whether it
/// was added.
pub fn insert_role(roles: &mut Vec<String>, name: String) -> (added: bool)
    ensures
        texts(final(roles)@) == with_role(texts(old(roles)@), name@),
        added == !texts(old(roles)@).contains(name@),
{
    if has_role(roles, &name) {
        false
    } else {
        roles.push(name);
        true
    }
}

/// The names of `given`, each once, in the order in which they first occur.
pub fn distinct_roles(given: &Vec<String>) -> (roles: Vec<String>)
    ensures
        texts(roles@) == distinct(texts(given@)),
{
    let mut roles: Vec<String> = Vec::new();
    let mut i: usize = 0;
    while i < given.len()
        invariant
            0 <= i <= given@.len(),
            texts(roles@) == distinct(texts(given@).take(i as int)),
        decreases given@.len() - i,
    {
        let name = given[i].clone();
        proof {
            let upto = texts(given@).take(i + 1);
            assert(upto.drop_last() =~= texts(given@).take(i as int));
        }
        insert_role(&mut roles, name);
        i += 1;
    }
    assert(texts(given@).take(given@.len() as int) =~= texts(given@));
    roles
}

} // verus!
