//! Text carried in fixed byte fields: NUL-terminated runs, byte filters, and
//! the conversion of ASCII bytes to a `String`.

use vstd::prelude::*;
use vstd::string::StringSliceAdditionalSpecFns;
use vstd::utf8::encode_utf8;

verus! {

/// Where the run of non-NUL bytes that starts at `from` ends: the index of the
/// first NUL byte at or after `from`, or `limit`, or the end of `s`, whichever
/// comes first.
pub open spec fn run_end(s: Seq<u8>, from: int, limit: int) -> int
    decreases s.len() - from,
{
    if from < 0 || from >= s.len() || from >= limit || s[from] == 0 {
        from
    } else {
        run_end(s, from + 1, limit)
    }
}

/// The end of a run lies between its start and the nearer of `limit` and the
/// end of the input, no byte inside the run is NUL, and the run stops only at a
/// NUL byte or at that bound.
pub proof fn lemma_run_end(s: Seq<u8>, from: int, limit: int)
    requires
        0 <= from <= s.len(),
        from <= limit,
    ensures
        from <= run_end(s, from, limit) <= s.len(),
        run_end(s, from, limit) <= limit,
        forall|i: int| from <= i < run_end(s, from, limit) ==> s[i] != 0,
        run_end(s, from, limit) == s.len() || run_end(s, from, limit) == limit || s[run_end(
            s,
            from,
            limit,
        )] == 0,
    decreases s.len() - from,
{
    if from >= s.len() || from >= limit || s[from] == 0 {
    } else {
        lemma_run_end(s, from + 1, limit);
    }
}

/// Finds the end of the run of non-NUL bytes that starts at `from`, looking no
/// further than `limit`.
pub fn find_run_end(input: &[u8], from: usize, limit: usize) -> (end: usize)
    requires
        from <= input@.len(),
        from <= limit,
    ensures
        end == run_end(input@, from as int, limit as int),
        from <= end <= input@.len(),
        end <= limit,
        forall|i: int| from <= i < end ==> input@[i] != 0,
        end == input@.len() || end == limit || input@[end as int] == 0,
{
    proof {
        lemma_run_end(input@, from as int, limit as int);
    }
    let mut i: usize = from;
    while i < input.len() && i < limit && input[i] != 0
        invariant
            from <= i <= input@.len(),
            i <= limit,
            run_end(input@, from as int, limit as int) == run_end(input@, i as int, limit as int),
        decreases input@.len() - i,
    {
        i = i + 1;
    }
    i
}

/// `0-9`, `A-Z`, `a-z`.
pub open spec fn is_alphanumeric(b: u8) -> bool {
    (0x30 <= b <= 0x39) || (0x41 <= b <= 0x5A) || (0x61 <= b <= 0x7A)
}

/// The printable ASCII range, from the space to the tilde.
pub open spec fn is_printable(b: u8) -> bool {
    0x20 <= b <= 0x7E
}

/// Which bytes a text field keeps.
#[derive(Clone, Copy, Debug, PartialEq, Eq, Structural)]
pub enum Keep {
    /// Letters and digits only.
    Alphanumeric,
    /// Every printable ASCII character.
    Printable,
}

impl Keep {
    /// Whether this rule keeps the byte `b`.
    pub open spec fn keeps(self, b: u8) -> bool {
        match self {
            Keep::Alphanumeric => is_alphanumeric(b),
            Keep::Printable => is_printable(b),
        }
    }

    /// Tells whether this rule keeps the byte `b`.
    pub fn accepts(self, b: u8) -> (r: bool)
        ensures
            r == self.keeps(b),
    {
        match self {
            Keep::Alphanumeric => (0x30 <= b && b <= 0x39) || (0x41 <= b && b <= 0x5A) || (0x61
                <= b && b <= 0x7A),
            Keep::Printable => 0x20 <= b && b <= 0x7E,
        }
    }
}

/// The bytes of `s` that `keep` accepts, in their order.
pub open spec fn kept(s: Seq<u8>, keep: Keep) -> Seq<u8> {
    s.filter(|b: u8| keep.keeps(b))
}

/// Every byte that passes a filter is ASCII.
pub proof fn lemma_kept_is_ascii(s: Seq<u8>, keep: Keep)
    ensures
        forall|i: int| 0 <= i < kept(s, keep).len() ==> kept(s, keep)[i] < 128,
        kept(s, keep).len() <= s.len(),
{
    let pred = |b: u8| keep.keeps(b);
    s.lemma_filter_len(pred);
    assert forall|i: int| 0 <= i < kept(s, keep).len() implies kept(s, keep)[i] < 128 by {
        s.lemma_filter_pred(pred, i);
    }
}

/// Copies the bytes of `input` that `keep` accepts.
pub fn filter_bytes(input: &[u8], keep: Keep) -> (out: Vec<u8>)
    ensures
        out@ == kept(input@, keep),
{
    let ghost pred = |b: u8| keep.keeps(b);
    let mut out: Vec<u8> = Vec::new();
    let mut i: usize = 0;
    proof {
        reveal(Seq::filter);
        assert(input@.subrange(0, 0) =~= Seq::<u8>::empty());
    }
    while i < input.len()
        invariant
            i <= input@.len(),
            pred == (|b: u8| keep.keeps(b)),
            out@ == input@.subrange(0, i as int).filter(pred),
        decreases input@.len() - i,
    {
        let b = input[i];
        proof {
            let before = input@.subrange(0, i as int);
            let after = input@.subrange(0, i + 1);
            assert(after.drop_last() =~= before);
            assert(after.last() == b);
            reveal(Seq::filter);
        }
        if keep.accepts(b) {
            out.push(b);
        }
        i = i + 1;
    }
    proof {
        assert(input@.subrange(0, i as int) =~= input@);
    }
    out
}

/// ASCII bytes read as text: one character per byte, with the byte's code.
pub open spec fn ascii_text(bytes: Seq<u8>) -> Seq<char> {
    Seq::new(bytes.len(), |i: int| bytes[i] as char)
}

/// Builds a `String` from ASCII bytes with `String::from_utf8_lossy`, which
/// decodes valid UTF-8 unchanged. Every byte below 128 is one character of
/// valid UTF-8 with the byte's own code, so for such input the result is the
/// input read as ASCII text.
#[verifier::external_body]
fn string_from_ascii(bytes: &[u8]) -> (s: String)
    requires
        forall|i: int| 0 <= i < bytes@.len() ==> bytes@[i] < 128,
    ensures
        s@ == ascii_text(bytes@),
{
    String::from_utf8_lossy(bytes).into_owned()
}

/// The text that a byte field holds: the bytes that `keep` accepts, as ASCII.
pub open spec fn field_text(field: Seq<u8>, keep: Keep) -> Seq<char> {
    ascii_text(kept(field, keep))
}

/// Reads a byte field as text, dropping every byte that `keep` refuses.
pub fn text_of_field(field: &[u8], keep: Keep) -> (s: String)
    ensures
        s@ == field_text(field@, keep),
{
    let bytes = filter_bytes(field, keep);
    proof {
        lemma_kept_is_ascii(field@, keep);
    }
    string_from_ascii(bytes.as_slice())
}

/// Whether the bytes of `haystack` from position `at` on start with `needle`.
pub open spec fn occurs_at(haystack: Seq<u8>, needle: Seq<u8>, at: int) -> bool {
    0 <= at && at + needle.len() <= haystack.len() && haystack.subrange(at, at + needle.len())
        == needle
}

/// Whether `needle` occurs in `haystack` as a block of consecutive bytes.
pub open spec fn occurs_in(haystack: Seq<u8>, needle: Seq<u8>) -> bool {
    exists|at: int| occurs_at(haystack, needle, at)
}

/// Tells whether `needle` occurs at position `at` of `haystack`.
fn matches_at(haystack: &[u8], needle: &[u8], at: usize) -> (r: bool)
    requires
        at + needle@.len() <= haystack@.len(),
    ensures
        r == occurs_at(haystack@, needle@, at as int),
{
    let hay_len = haystack.len();
    let mut j: usize = 0;
    while j < needle.len()
        invariant
            j <= needle@.len(),
            at + needle@.len() <= haystack@.len(),
            hay_len == haystack@.len(),
            forall|k: int| 0 <= k < j ==> haystack@[at + k] == needle@[k],
        decreases needle@.len() - j,
    {
        if haystack[at + j] != needle[j] {
            proof {
                let window = haystack@.subrange(at as int, at + needle@.len());
                assert(window[j as int] != needle@[j as int]);
            }
            return false;
        }
        j = j + 1;
    }
    proof {
        assert(haystack@.subrange(at as int, at + needle@.len()) =~= needle@);
    }
    true
}

/// Whether the text `needle` occurs inside the text `haystack`. Two texts
/// match where their UTF-8 encodings match byte for byte.
pub open spec fn text_contains(haystack: Seq<char>, needle: Seq<char>) -> bool {
    occurs_in(encode_utf8(haystack), encode_utf8(needle))
}

/// Tells whether the text `needle` occurs inside the text `haystack`, as
/// `str::contains` does.
pub fn contains(haystack: &str, needle: &str) -> (r: bool)
    ensures
        r == text_contains(haystack@, needle@),
{
    let h = haystack.as_bytes();
    let n = needle.as_bytes();
    if n.len() > h.len() {
        return false;
    }
    let last: usize = h.len() - n.len();
    let mut i: usize = 0;
    while i < last
        invariant
            i <= last,
            last + n@.len() == h@.len(),
            h@ == encode_utf8(haystack@),
            n@ == encode_utf8(needle@),
            forall|k: int| 0 <= k < i ==> !occurs_at(h@, n@, k),
        decreases last - i,
    {
        if matches_at(h, n, i) {
            return true;
        }
        i = i + 1;
    }
    matches_at(h, n, last)
}

} // verus!
