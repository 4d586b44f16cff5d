//! Comparisons of texts and byte strings, and the views of the containers of
//! `String` that the library's types are made of.

use vstd::prelude::*;
use vstd::string::*;
use vstd::utf8::*;

verus! {

/// The text of an optional string.
pub open spec fn option_text(value: Option<String>) -> Option<Seq<char>> {
    match value {
        Some(text) => Some(text@),
        None => None,
    }
}

/// The texts of a list of strings, in order.
pub open spec fn texts(values: Seq<String>) -> Seq<Seq<char>> {
    values.map_values(|text: String| text@)
}

/// The texts of an optional list of strings.
pub open spec fn option_texts(values: Option<Vec<String>>) -> Option<Seq<Seq<char>>> {
    match values {
        Some(list) => Some(texts(list@)),
        None => None,
    }
}

/// Whether `needle` occurs in `haystack` as a run of neighbouring bytes.
pub open spec fn occurs_in(needle: Seq<u8>, haystack: Seq<u8>) -> bool {
    exists|start: int| occurs_at(needle, haystack, start)
}

/// Whether `needle` stands in `haystack` from position `start` on.
pub open spec fn occurs_at(needle: Seq<u8>, haystack: Seq<u8>, start: int) -> bool {
    &&& 0 <= start
    &&& start + needle.len() <= haystack.len()
    &&& haystack.subrange(start, start + needle.len()) == needle
}

/// Whether two byte strings are equal.
pub fn bytes_eq(a: &[u8], b: &[u8]) -> (same: bool)
    ensures
        same == (a@ == b@),
{
    if a.len() != b.len() {
        return false;
    }
    let mut i: usize = 0;
    while i < a.len()
        invariant
            i <= a.len(),
            a.len() == b.len(),
            forall|j: int| 0 <= j < i ==> a@[j] == b@[j],
        decreases a.len() - i,
    {
        if a[i] != b[i] {
            return false;
        }
        i += 1;
    }
    proof {
        assert(a@ =~= b@);
    }
    true
}

/// Two texts are equal exactly when their UTF-8 encodings are.
pub proof fn lemma_same_bytes_same_text(a: Seq<char>, b: Seq<char>)
    ensures
        (encode_utf8(a) == encode_utf8(b)) == (a == b),
{
    encode_utf8_decode_utf8(a);
    encode_utf8_decode_utf8(b);
}

/// Whether two string slices hold the same text.
pub fn str_eq(a: &str, b: &str) -> (same: bool)
    ensures
        same == (a@ == b@),
{
    proof {
        lemma_same_bytes_same_text(a@, b@);
    }
    bytes_eq(a.as_bytes(), b.as_bytes())
}

/// Whether two optional strings hold the same text, or are both absent.
pub fn option_string_eq(a: &Option<String>, b: &Option<String>) -> (same: bool)
    ensures
        same == (option_text(*a) == option_text(*b)),
{
    match (a, b) {
        (Some(x), Some(y)) => str_eq(x.as_str(), y.as_str()),
        (None, None) => true,
        _ => false,
    }
}

/// Whether two lists of strings hold the same texts in the same order.
pub fn strings_eq(a: &Vec<String>, b: &Vec<String>) -> (same: bool)
    ensures
        same == (texts(a@) == texts(b@)),
{
    if a.len() != b.len() {
        proof {
            assert(texts(a@).len() != texts(b@).len());
        }
        return false;
    }
    let mut i: usize = 0;
    while i < a.len()
        invariant
            i <= a.len(),
            a.len() == b.len(),
            forall|j: int| 0 <= j < i ==> a@[j]@ == b@[j]@,
        decreases a.len() - i,
    {
        if !str_eq(a[i].as_str(), b[i].as_str()) {
            proof {
                assert(texts(a@)[i as int] != texts(b@)[i as int]);
            }
            return false;
        }
        i += 1;
    }
    proof {
        assert(texts(a@) =~= texts(b@));
    }
    true
}

/// Whether the bytes of `needle` occur in `haystack` as a run of neighbouring
/// bytes.
pub fn contains_bytes(haystack: &[u8], needle: &[u8]) -> (found: bool)
    ensures
        found == occurs_in(needle@, haystack@),
{
    if needle.len() > haystack.len() {
        return false;
    }
    let last: usize = haystack.len() - needle.len();
    let mut start: usize = 0;
    while start <= last
        invariant
            start <= last + 1,
            last == haystack.len() - needle.len(),
            needle.len() <= haystack.len(),
            forall|s: int| 0 <= s < start ==> !occurs_at(needle@, haystack@, s),
        decreases last + 1 - start,
    {
        let mut k: usize = 0;
        while k < needle.len() && haystack[start + k] == needle[k]
            invariant
                k <= needle.len(),
                start <= last,
                last == haystack.len() - needle.len(),
                needle.len() <= haystack.len(),
                forall|j: int| 0 <= j < k ==> haystack@[start + j] == needle@[j],
            decreases needle.len() - k,
        {
            k += 1;
        }
        if k == needle.len() {
            proof {
                assert(haystack@.subrange(start as int, start + needle.len()) =~= needle@);
                assert(occurs_at(needle@, haystack@, start as int));
            }
            return true;
        }
        proof {
            let window = haystack@.subrange(start as int, start + needle.len());
            assert(window[k as int] != needle@[k as int]);
        }
        start += 1;
    }
    false
}

} // verus!
