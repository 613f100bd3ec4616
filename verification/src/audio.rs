//! Choosing the audio input: the device whose name marks it as a Focusrite
//! Scarlett interface.

use vstd::prelude::*;

verus! {

/// Whether `needle` occurs in `hay` as a run of consecutive characters.
pub open spec fn occurs_in(hay: Seq<char>, needle: Seq<char>) -> bool {
    exists|i: int| 0 <= i && i + needle.len() <= hay.len() && #[trigger] hay.subrange(i, i + needle.len()) == needle
}

/// Whether the text `needle` occurs in `hay`.
pub fn contains_text(hay: &str, needle: &str) -> (b: bool)
    ensures
        b == occurs_in(hay@, needle@),
{
    let h = hay.unicode_len();
    let n = needle.unicode_len();
    if n > h {
        assert forall|i: int| 0 <= i && i + needle@.len() <= hay@.len() implies
            #[trigger] hay@.subrange(i, i + needle@.len()) != needle@ by {}
        return false;
    }
    let mut i: usize = 0;
    while i <= h - n
        invariant
            h == hay@.len(),
            n == needle@.len(),
            n <= h,
            i <= h - n + 1,
            forall|k: int| 0 <= k < i ==> #[trigger] hay@.subrange(k, k + n) != needle@,
        decreases h - i,
    {
        let mut j: usize = 0;
        let mut same = true;
        while j < n
            invariant
                h == hay@.len(),
                n == needle@.len(),
                i + n <= h,
                j <= n,
                same == (forall|t: int| 0 <= t < j ==> hay@[i + t] == needle@[t]),
            decreases n - j,
        {
            if hay.get_char(i + j) != needle.get_char(j) {
                same = false;
            }
            j = j + 1;
        }
        if same {
            assert(hay@.subrange(i as int, i + n) =~= needle@);
            return true;
        }
        assert(hay@.subrange(i as int, i + n) != needle@) by {
            let t = choose|t: int| 0 <= t < n && hay@[i + t] != needle@[t];
            assert(hay@.subrange(i as int, i + n)[t] == hay@[i + t]);
        }
        i = i + 1;
    }
    assert forall|k: int| 0 <= k && k + needle@.len() <= hay@.len() implies
        #[trigger] hay@.subrange(k, k + needle@.len()) != needle@ by {
        assert(k < i);
    }
    false
}

/// The part of a device name that marks a Focusrite Scarlett interface.
pub open spec fn scarlett_mark() -> Seq<char> {
    "Scarlett"@
}

/// The mark looked for is the text "Scarlett", and a device name holds it
/// wherever it stands in the name.
pub proof fn law_scarlett_mark(before: Seq<char>, after: Seq<char>)
    ensures
        scarlett_mark() == seq!['S', 'c', 'a', 'r', 'l', 'e', 't', 't'],
        occurs_in(before + seq!['S', 'c', 'a', 'r', 'l', 'e', 't', 't'] + after, scarlett_mark()),
{
    reveal_strlit("Scarlett");
    let mark = seq!['S', 'c', 'a', 'r', 'l', 'e', 't', 't'];
    assert(scarlett_mark() =~= mark);
    let name = before + mark + after;
    let i = before.len() as int;
    assert(name.subrange(i, i + 8) =~= mark);
}

/// The index of the first device name that contains "Scarlett", if any.
pub fn find_scarlett(names: &[String]) -> (r: Option<usize>)
    ensures
        r is None <==> forall|j: int| 0 <= j < names@.len() ==> !occurs_in(#[trigger] names@[j]@, scarlett_mark()),
        r matches Some(i) ==> {
            &&& i < names@.len()
            &&& occurs_in(names@[i as int]@, scarlett_mark())
            &&& forall|j: int| 0 <= j < i ==> !occurs_in(#[trigger] names@[j]@, scarlett_mark())
        },
{
    let mut i: usize = 0;
    while i < names.len()
        invariant
            i <= names@.len(),
            forall|j: int| 0 <= j < i ==> !occurs_in(#[trigger] names@[j]@, scarlett_mark()),
        decreases names@.len() - i,
    {
        if contains_text(names[i].as_str(), "Scarlett") {
            return Some(i);
        }
        i = i + 1;
    }
    None
}

} // verus!
