//! Extracting the attributes of a record.
//!
//! A record declares its attributes as optional fields. What it shows of
//! them is the list of those that are set, each under the name of its field,
//! in the order in which the fields are declared.

use vstd::prelude::*;

use crate::seq_facts::lemma_contains_after_push;

verus! {

/// Pairs each attribute with the characters of its name.
pub open spec fn named<A>(attrs: Seq<(String, A)>) -> Seq<(Seq<char>, A)> {
    attrs.map_values(|pair: (String, A)| (pair.0@, pair.1))
}

/// The attributes that are set among the declared ones, in declaration order.
///
/// `declared` lists every attribute field of a record by name, with the value
/// the field holds. An unset field contributes nothing: it is left out, never
/// filled with a default.
pub open spec fn present<A>(declared: Seq<(Seq<char>, Option<A>)>) -> Seq<(Seq<char>, A)> {
    declared.filter(|field: (Seq<char>, Option<A>)| field.1 is Some).map_values(
        |field: (Seq<char>, Option<A>)| (field.0, field.1->0),
    )
}

/// Extracts one declared attribute: appends it under `name` if it is set and
/// leaves `attrs` alone if it is not.
///
/// A record extracts its attributes by calling this once for each declared
/// field, in declaration order.
pub fn push_attr<A>(attrs: &mut Vec<(String, A)>, name: &str, attr: Option<A>)
    ensures
        named(final(attrs)@) == named(old(attrs)@) + present(seq![(name@, attr)]),
{
    proof {
        lemma_present_one(name@, attr);
    }
    if let Some(value) = attr {
        let key = name.to_owned();
        proof {
            lemma_named_push(attrs@, key, value);
        }
        attrs.push((key, value));
    }
}

/// Naming distributes over appending one pair.
pub proof fn lemma_named_push<A>(attrs: Seq<(String, A)>, name: String, value: A)
    ensures
        named(attrs.push((name, value))) == named(attrs).push((name@, value)),
{
    assert(named(attrs.push((name, value))) =~= named(attrs).push((name@, value)));
}

/// A single declared attribute is present exactly when it is set.
pub proof fn lemma_present_one<A>(name: Seq<char>, attr: Option<A>)
    ensures
        present(seq![(name, attr)]) == match attr {
            Some(value) => seq![(name, value)],
            None => Seq::empty(),
        },
{
    lemma_present_push(Seq::empty(), name, attr);
    lemma_present_empty::<A>();
    assert(Seq::<(Seq<char>, Option<A>)>::empty().push((name, attr)) =~= seq![(name, attr)]);
    if let Some(value) = attr {
        assert(Seq::<(Seq<char>, A)>::empty().push((name, value)) =~= seq![(name, value)]);
    }
}

/// A record that declares no attribute has none.
pub proof fn lemma_present_empty<A>()
    ensures
        present(Seq::<(Seq<char>, Option<A>)>::empty()) == Seq::<(Seq<char>, A)>::empty(),
{
    let is_set = |field: (Seq<char>, Option<A>)| field.1 is Some;
    let empty = Seq::<(Seq<char>, Option<A>)>::empty();
    reveal(Seq::filter);
    assert(empty.filter(is_set) =~= empty);
    assert(present(empty) =~= Seq::<(Seq<char>, A)>::empty());
}

/// Declaring one more attribute after the others adds it at the end if it is
/// set, and adds nothing if it is not.
pub proof fn lemma_present_push<A>(
    declared: Seq<(Seq<char>, Option<A>)>,
    name: Seq<char>,
    attr: Option<A>,
)
    ensures
        present(declared.push((name, attr))) == match attr {
            Some(value) => present(declared).push((name, value)),
            None => present(declared),
        },
{
    let is_set = |field: (Seq<char>, Option<A>)| field.1 is Some;
    let extended = declared.push((name, attr));
    reveal(Seq::filter);
    assert(extended.drop_last() =~= declared);
    assert(extended.last() == (name, attr));
    match attr {
        Some(value) => {
            assert(extended.filter(is_set) == declared.filter(is_set).push((name, attr)));
            assert(present(extended) =~= present(declared).push((name, value)));
        },
        None => {
            assert(extended.filter(is_set) == declared.filter(is_set));
        },
    }
}

/// An attribute is present exactly if a declared field of its name is set to
/// its value: nothing is made up and nothing that is set is dropped.
pub proof fn lemma_present_holds_the_set_fields<A>(
    declared: Seq<(Seq<char>, Option<A>)>,
    name: Seq<char>,
    value: A,
)
    ensures
        present(declared).contains((name, value)) <==> declared.contains((name, Some(value))),
    decreases declared.len(),
{
    if declared.len() == 0 {
        lemma_present_empty::<A>();
        assert(declared =~= Seq::empty());
    } else {
        let last = declared.last();
        let init = declared.drop_last();
        assert(init.push(last) =~= declared);
        lemma_present_holds_the_set_fields(init, name, value);
        lemma_present_push(init, last.0, last.1);
        lemma_contains_after_push(init, last, (name, Some(value)));
        match last.1 {
            Some(set) => {
                lemma_contains_after_push(present(init), (last.0, set), (name, value));
            },
            None => {},
        }
    }
}

/// The attributes present in a list of declarations are those present in its
/// first part followed by those present in the rest.
pub proof fn lemma_present_concat<A>(
    first: Seq<(Seq<char>, Option<A>)>,
    rest: Seq<(Seq<char>, Option<A>)>,
)
    ensures
        present(first + rest) == present(first) + present(rest),
    decreases rest.len(),
{
    if rest.len() == 0 {
        lemma_present_empty::<A>();
        assert(first + rest =~= first);
        assert(rest =~= Seq::empty());
        assert(present(first) + Seq::<(Seq<char>, A)>::empty() =~= present(first));
    } else {
        let last = rest.last();
        let init = rest.drop_last();
        lemma_present_concat(first, init);
        lemma_present_push(first + init, last.0, last.1);
        lemma_present_push(init, last.0, last.1);
        assert((first + init).push(last) =~= first + rest);
        assert(init.push(last) =~= rest);
        match last.1 {
            Some(value) => {
                assert((present(first) + present(init)).push((last.0, value)) =~= present(first)
                    + present(init).push((last.0, value)));
            },
            None => {},
        }
    }
}

} // verus!
