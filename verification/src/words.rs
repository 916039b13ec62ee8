use vstd::prelude::*;

use vstd::string::StringSliceAdditionalSpecFns;

verus! {

// The seed words a page shows are kept in heapless' fixed-capacity
// collections, as the device has no heap: up to 24 words of up to 50 bytes
// each. The collections are opaque to the verifier; the trusted items below
// give their contents a name and state, per method, what the crate's source
// shows.
#[verifier::external_type_specification]
#[verifier::external_body]
#[verifier::reject_recursive_types(T)]
pub struct ExHeaplessVec<T, const N: usize>(heapless::Vec<T, N>);

#[verifier::external_type_specification]
#[verifier::external_body]
pub struct ExHeaplessString<const N: usize>(heapless::String<N>);

/// The words a word list holds, each as its character sequence, in order.
pub uninterp spec fn word_list_contents(v: heapless::Vec<heapless::String<50>, 24>) -> Seq<
    Seq<char>,
>;

/// Relies on heapless::Vec::new: a freshly constructed vector is empty.
#[verifier::external_body]
pub fn new_words() -> (v: heapless::Vec<heapless::String<50>, 24>)
    ensures
        word_list_contents(v) == Seq::<Seq<char>>::empty(),
{
    heapless::Vec::new()
}

/// Relies on heapless::Vec's deref to a slice of its elements: its length
/// is the number of elements held, never more than the capacity 24.
#[verifier::external_body]
pub fn words_len(v: &heapless::Vec<heapless::String<50>, 24>) -> (n: usize)
    ensures
        n == word_list_contents(*v).len(),
        n <= 24,
{
    v.len()
}

/// Relies on heapless::String::push_str, which appends all of the word or,
/// when it would not fit in the 50-byte capacity, nothing, and on
/// heapless::Vec::push, which appends exactly when fewer than 24 elements
/// are held and otherwise returns the element back unchanged.
#[verifier::external_body]
pub fn push_word(v: &mut heapless::Vec<heapless::String<50>, 24>, w: &str) -> (ok: bool)
    ensures
        ok == (word_list_contents(*old(v)).len() < 24 && w.spec_bytes().len() <= 50),
        ok ==> word_list_contents(*final(v)) == word_list_contents(*old(v)).push(w@),
        !ok ==> word_list_contents(*final(v)) == word_list_contents(*old(v)),
{
    let mut s: heapless::String<50> = heapless::String::new();
    if s.push_str(w).is_err() {
        return false;
    }
    v.push(s).is_ok()
}

/// Relies on heapless::Vec's deref to a slice of its elements and on
/// heapless::String::as_str: the element at the index, as a string slice.
#[verifier::external_body]
pub fn word_at<'a>(v: &'a heapless::Vec<heapless::String<50>, 24>, i: usize) -> (w: &'a str)
    requires
        i < word_list_contents(*v).len(),
    ensures
        w@ == word_list_contents(*v)[i as int],
{
    v[i].as_str()
}

} // verus!
