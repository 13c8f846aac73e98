use vstd::prelude::*;
use vstd::string::*;

verus! {

/// Whether the C string at the start of `buffer` spells exactly `text`.
///
/// The C string of a buffer runs from its first byte up to, and without, its
/// first NUL byte; a buffer without a NUL byte is one C string as a whole.
pub open spec fn c_str_equals(buffer: Seq<u8>, text: Seq<u8>) -> bool {
    &&& text.len() <= buffer.len()
    &&& forall|i: int| 0 <= i < text.len() ==> buffer[i] == text[i] && text[i] != 0
    &&& (text.len() == buffer.len() || buffer[text.len() as int] == 0)
}

/// The least position at which `flags` holds `true`, if it does anywhere.
pub open spec fn first_match(flags: Seq<bool>) -> Option<int> {
    flags.index_of_first(true)
}

/// `first_match` is `Some(i)` exactly for the position `i` that holds `true`
/// with only `false` before it, and `None` exactly where nothing holds `true`.
pub proof fn lemma_first_match(flags: Seq<bool>)
    ensures
        match first_match(flags) {
            Some(i) => 0 <= i < flags.len() && flags[i] && forall|j: int| 0 <= j < i ==> !flags[j],
            None => forall|j: int| 0 <= j < flags.len() ==> !flags[j],
        },
{
    flags.index_of_first_ensures(true);
    if first_match(flags) is None {
        assert forall|j: int| 0 <= j < flags.len() implies !flags[j] by {
            if flags[j] {
                assert(flags.contains(true));
            }
        }
    }
}

/// The position that holds `true` after only `false` is the first match.
pub proof fn lemma_first_match_is(flags: Seq<bool>, i: int)
    requires
        0 <= i < flags.len(),
        flags[i],
        forall|j: int| 0 <= j < i ==> !flags[j],
    ensures
        first_match(flags) == Some(i),
{
    lemma_first_match(flags);
    match first_match(flags) {
        Some(k) => {
            if k < i {
                assert(!flags[k]);
            } else if i < k {
                assert(!flags[i]);
            }
        },
        None => {
            assert(!flags[i]);
        },
    }
}

/// Where nothing holds `true` there is no first match.
pub proof fn lemma_first_match_none(flags: Seq<bool>)
    requires
        forall|j: int| 0 <= j < flags.len() ==> !flags[j],
    ensures
        first_match(flags) is None,
{
    lemma_first_match(flags);
}

/// Compares the C string at the start of `cstr` with `text`, byte by byte.
///
/// Both are walked once, side by side: the length of the C string is never
/// computed ahead of the comparison.
pub fn eq_cstr_str(cstr: &[u8], text: &str) -> (equal: bool)
    ensures
        equal == c_str_equals(cstr@, text.spec_bytes()),
{
    let bytes = text.as_bytes();
    let mut i: usize = 0;
    loop
        invariant
            bytes@ == text.spec_bytes(),
            i <= bytes@.len(),
            i <= cstr@.len(),
            forall|j: int| 0 <= j < i ==> cstr@[j] == bytes@[j] && bytes@[j] != 0,
        decreases bytes@.len() - i,
    {
        let ended = i >= cstr.len() || cstr[i] == 0;
        if i >= bytes.len() {
            return ended;
        }
        if ended || cstr[i] != bytes[i] {
            proof {
                if c_str_equals(cstr@, bytes@) {
                    assert(cstr@[i as int] == bytes@[i as int] && bytes@[i as int] != 0);
                }
            }
            return false;
        }
        i += 1;
    }
}

} // verus!
