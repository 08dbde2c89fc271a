//! A JSON value tree holding the parts of a document that the resolver reads.

use vstd::prelude::*;

verus! {

/// A parsed JSON value.
#[derive(Debug, PartialEq, Eq)]
pub enum Json {
    Null,
    Bool(bool),
    /// A number, holding its value when it is a non-negative integer that
    /// fits in 64 bits, and `None` for any other number.
    Number(Option<u64>),
    Str(String),
    Array(Vec<Json>),
    /// The members of an object in document order; where a key occurs more
    /// than once, the last member with that key is the one that counts.
    Object(Vec<(String, Json)>),
}

/// The value that `entries` gives to `key`: that of the last member with that key.
pub open spec fn member(entries: Seq<(String, Json)>, key: Seq<char>) -> Option<Json>
    decreases entries.len(),
{
    if entries.len() == 0 {
        None
    } else if entries.last().0@ == key {
        Some(entries.last().1)
    } else {
        member(entries.drop_last(), key)
    }
}

/// Looks `key` up among the members of an object.
pub fn get_member<'a>(entries: &'a Vec<(String, Json)>, key: &String) -> (r: Option<&'a Json>)
    ensures
        r is None <==> member(entries@, key@) is None,
        r matches Some(v) ==> member(entries@, key@) == Some(*v),
{
    let mut i: usize = entries.len();
    assert(entries@.subrange(0, i as int) =~= entries@);
    while i > 0
        invariant
            i <= entries@.len(),
            member(entries@, key@) == member(entries@.subrange(0, i as int), key@),
        decreases i,
    {
        let ghost prefix = entries@.subrange(0, i as int);
        assert(prefix.drop_last() =~= entries@.subrange(0, i - 1));
        if entries[i - 1].0 == *key {
            return Some(&entries[i - 1].1);
        }
        i = i - 1;
    }
    None
}

} // verus!
