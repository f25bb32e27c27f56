//! The one place where chance enters the library.

use rand::seq::SliceRandom;
use vstd::prelude::*;

verus! {

/// Picks one element of `items` at random.
///
/// This is `rand::seq::SliceRandom::choose` on the slice, with the generator
/// of the calling thread, `rand::thread_rng()`. It is not verified. The
/// contract states what that method documents and its source shows: an empty
/// slice gives `None`, any other gives a reference to one of its elements.
/// Which element is left open, so two calls on the same slice may differ.
#[verifier::external_body]
pub(crate) fn choose_one<'a, T>(items: &'a [T]) -> (picked: Option<&'a T>)
    ensures
        picked is None <==> items@.len() == 0,
        picked matches Some(x) ==> items@.contains(*x),
{
    items.choose(&mut rand::thread_rng())
}

} // verus!
