//! Selection of the deep link among a launch's arguments.
//!
//! The arguments are modelled as a sequence of character sequences. Order is
//! authoritative: of all arguments that carry a recognized scheme, the one at
//! the lowest position is the deep link of the launch.

use crate::scheme::{has_deep_link_scheme, is_deep_link};
use vstd::prelude::*;

verus! {

/// `index` is the position of a deep link in `args`, and no argument before
/// it is one.
pub open spec fn is_first_deep_link(args: Seq<Seq<char>>, index: int) -> bool {
    &&& 0 <= index < args.len()
    &&& is_deep_link(args[index])
    &&& forall|j: int| 0 <= j < index ==> !is_deep_link(#[trigger] args[j])
}

/// The position of the first deep link in `args`, if there is any.
pub open spec fn first_deep_link(args: Seq<Seq<char>>) -> Option<int> {
    if exists|i: int| is_first_deep_link(args, i) {
        Some(choose|i: int| is_first_deep_link(args, i))
    } else {
        None
    }
}

/// The deep link of a launch: the first qualifying argument, unmodified.
pub open spec fn detect(args: Seq<Seq<char>>) -> Option<Seq<char>> {
    match first_deep_link(args) {
        Some(i) => Some(args[i]),
        None => None,
    }
}

/// A sequence has at most one first deep link, and `first_deep_link` names it.
pub proof fn lemma_first_deep_link_is(args: Seq<Seq<char>>, index: int)
    requires
        is_first_deep_link(args, index),
    ensures
        first_deep_link(args) == Some(index),
        detect(args) == Some(args[index]),
{
    let chosen = choose|i: int| is_first_deep_link(args, i);
    assert(is_first_deep_link(args, chosen));
    if chosen < index {
        assert(!is_deep_link(args[chosen]));
    } else if index < chosen {
        assert(!is_deep_link(args[index]));
    }
}

/// Below or at any deep link there is a first one.
pub proof fn lemma_first_deep_link_exists(args: Seq<Seq<char>>, index: int)
    requires
        0 <= index < args.len(),
        is_deep_link(args[index]),
    ensures
        exists|k: int| k <= index && is_first_deep_link(args, k),
    decreases index,
{
    if forall|j: int| 0 <= j < index ==> !is_deep_link(#[trigger] args[j]) {
        assert(is_first_deep_link(args, index));
    } else {
        let earlier = choose|j: int| 0 <= j < index && is_deep_link(#[trigger] args[j]);
        lemma_first_deep_link_exists(args, earlier);
        let k = choose|k: int| k <= earlier && is_first_deep_link(args, k);
        assert(k <= index && is_first_deep_link(args, k));
    }
}

/// When no argument carries a recognized scheme, nothing is detected.
pub proof fn law_no_deep_link(args: Seq<Seq<char>>)
    requires
        forall|i: int| 0 <= i < args.len() ==> !is_deep_link(#[trigger] args[i]),
    ensures
        first_deep_link(args) is None,
        detect(args) is None,
{
    assert forall|i: int| !is_first_deep_link(args, i) by {
        if 0 <= i < args.len() {
            assert(!is_deep_link(args[i]));
        }
    }
}

/// When exactly one argument carries a recognized scheme, that argument is
/// detected, unchanged.
pub proof fn law_single_deep_link(args: Seq<Seq<char>>, index: int)
    requires
        0 <= index < args.len(),
        is_deep_link(args[index]),
        forall|j: int| 0 <= j < args.len() && j != index ==> !is_deep_link(#[trigger] args[j]),
    ensures
        first_deep_link(args) == Some(index),
        detect(args) == Some(args[index]),
{
    assert(is_first_deep_link(args, index));
    lemma_first_deep_link_is(args, index);
}

/// When one or several arguments carry a recognized scheme, the one at the
/// lowest position is detected: the result is a deep link, and no deep link
/// stands before it.
pub proof fn law_lowest_index_wins(args: Seq<Seq<char>>)
    requires
        exists|i: int| 0 <= i < args.len() && is_deep_link(#[trigger] args[i]),
    ensures
        first_deep_link(args) matches Some(k) && {
            &&& 0 <= k < args.len()
            &&& is_deep_link(args[k])
            &&& detect(args) == Some(args[k])
            &&& forall|j: int|
                0 <= j < args.len() && is_deep_link(#[trigger] args[j]) ==> k <= j
        },
{
    let some = choose|i: int| 0 <= i < args.len() && is_deep_link(#[trigger] args[i]);
    lemma_first_deep_link_exists(args, some);
    let k = choose|k: int| k <= some && is_first_deep_link(args, k);
    lemma_first_deep_link_is(args, k);
}

/// The position of the first argument that carries a recognized scheme.
pub fn deep_link_position(args: &Vec<String>) -> (position: Option<usize>)
    ensures
        match position {
            Some(i) => first_deep_link(args.deep_view()) == Some(i as int),
            None => first_deep_link(args.deep_view()) is None,
        },
{
    let mut i: usize = 0;
    while i < args.len()
        invariant
            i <= args.len(),
            forall|j: int| 0 <= j < i ==> !is_deep_link(#[trigger] args.deep_view()[j]),
        decreases args.len() - i,
    {
        if has_deep_link_scheme(args[i].as_str()) {
            proof {
                lemma_first_deep_link_is(args.deep_view(), i as int);
            }
            return Some(i);
        }
        i += 1;
    }
    proof {
        law_no_deep_link(args.deep_view());
    }
    None
}

/// The first argument that carries a recognized scheme, borrowed from `args`
/// as it stands there; `None` when no argument qualifies.
pub fn find_deep_link(args: &Vec<String>) -> (found: Option<&String>)
    ensures
        match first_deep_link(args.deep_view()) {
            Some(i) => found == Some(&args@[i]),
            None => found is None,
        },
        found.deep_view() == detect(args.deep_view()),
{
    match deep_link_position(args) {
        Some(i) => Some(&args[i]),
        None => None,
    }
}

} // verus!
