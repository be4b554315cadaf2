use vstd::prelude::*;
use vstd::string::StringSliceAdditionalSpecFns;

verus! {

/// Whether the description may be cut at byte `offset`, for a row whose room
/// ends at byte `hit` of the description: a character starts at `offset`, and
/// `hit - offset`, taken as an unsigned difference that wraps around, is
/// below 4 (so `offset` lies at most three bytes before `hit`).
pub open spec fn cut_candidate(bytes: Seq<u8>, hit: usize, offset: int) -> bool {
    &&& 0 <= offset < bytes.len()
    &&& vstd::utf8::is_char_boundary(bytes, offset)
    &&& hit.wrapping_sub(offset as usize) < 4
}

/// Whether `cut` is where a description is cut: at the first candidate, or at
/// the end where there is none.
pub open spec fn is_ellipsis_cut(bytes: Seq<u8>, hit: usize, cut: int) -> bool {
    &&& 0 <= cut <= bytes.len()
    &&& forall|j: int| 0 <= j < cut ==> !cut_candidate(bytes, hit, j)
    &&& cut < bytes.len() ==> cut_candidate(bytes, hit, cut)
}

/// The byte offset at which a description with UTF-8 encoding `bytes` is cut,
/// for a row whose room ends at byte `hit`.
pub open spec fn ellipsis_cut_of(bytes: Seq<u8>, hit: usize) -> int {
    choose|cut: int| is_ellipsis_cut(bytes, hit, cut)
}

/// The text shown for a description too long for its row: the part before
/// the cut, then three dots.
pub open spec fn shortened(text: Seq<char>, hit: usize) -> Seq<char> {
    vstd::utf8::decode_utf8(vstd::utf8::encode_utf8(text).subrange(0, ellipsis_cut_of(vstd::utf8::encode_utf8(text), hit)))
        + "..."@
}

/// At most one offset is the cut of a description.
pub proof fn lemma_cut_unique(bytes: Seq<u8>, hit: usize, a: int, b: int)
    requires
        is_ellipsis_cut(bytes, hit, a),
        is_ellipsis_cut(bytes, hit, b),
    ensures
        a == b,
{
    if a < b {
        assert(!cut_candidate(bytes, hit, a));
    } else if b < a {
        assert(!cut_candidate(bytes, hit, b));
    }
}

/// The byte offset at which `text` is cut for a row whose room ends at byte
/// `hit` of it.
pub fn ellipsis_cut(text: &str, hit: usize) -> (cut: usize)
    ensures
        is_ellipsis_cut(text.spec_bytes(), hit, cut as int),
        cut as int == ellipsis_cut_of(text.spec_bytes(), hit),
{
    let n = text.as_bytes().len();
    let ghost bytes = text.spec_bytes();
    let mut i: usize = 0;
    while i < n
        invariant
            n == bytes.len(),
            bytes == text.spec_bytes(),
            i <= n,
            forall|j: int| 0 <= j < i ==> !cut_candidate(bytes, hit, j),
        decreases n - i,
    {
        if text.is_char_boundary(i) && hit.wrapping_sub(i) < 4 {
            proof {
                lemma_cut_exists(bytes, hit);
                lemma_cut_unique(bytes, hit, i as int, ellipsis_cut_of(bytes, hit));
            }
            return i;
        }
        i = i + 1;
    }
    proof {
        lemma_cut_exists(bytes, hit);
        lemma_cut_unique(bytes, hit, n as int, ellipsis_cut_of(bytes, hit));
    }
    n
}

/// The text shown for a description too long for its row: `text` cut before
/// the character that holds byte `hit` or close before it, followed by three
/// dots.
pub fn shorten_description(text: &str, hit: usize) -> (shown: String)
    ensures
        shown@ == shortened(text@, hit),
{
    let cut = ellipsis_cut(text, hit);
    let ghost bytes = text.spec_bytes();
    proof {
        vstd::utf8::encode_utf8_valid_utf8(text@);
        vstd::utf8::is_char_boundary_start_end_of_seq(bytes);
    }
    let (head, _rest) = text.split_at(cut);
    proof {
        vstd::utf8::encode_utf8_decode_utf8(head@);
        assert(head.spec_bytes() == vstd::utf8::encode_utf8(head@));
    }
    let shown = String::from_str(head).concat("...");
    shown
}

/// Every description has a cut.
pub proof fn lemma_cut_exists(bytes: Seq<u8>, hit: usize)
    ensures
        is_ellipsis_cut(bytes, hit, ellipsis_cut_of(bytes, hit)),
    decreases bytes.len(),
{
    let first = choose|j: int| cut_candidate(bytes, hit, j) && forall|k: int|
        0 <= k < j ==> !cut_candidate(bytes, hit, k);
    if exists|j: int| cut_candidate(bytes, hit, j) {
        lemma_least_candidate(bytes, hit, bytes.len() as int);
        assert(is_ellipsis_cut(bytes, hit, first));
    } else {
        assert(is_ellipsis_cut(bytes, hit, bytes.len() as int));
    }
}

proof fn lemma_least_candidate(bytes: Seq<u8>, hit: usize, bound: int)
    requires
        exists|j: int| 0 <= j < bound && cut_candidate(bytes, hit, j),
    ensures
        exists|j: int|
            cut_candidate(bytes, hit, j) && forall|k: int| 0 <= k < j ==> !cut_candidate(bytes, hit, k),
    decreases bound,
{
    if exists|j: int| 0 <= j < bound - 1 && cut_candidate(bytes, hit, j) {
        lemma_least_candidate(bytes, hit, bound - 1);
    } else {
        let j = bound - 1;
        assert(cut_candidate(bytes, hit, j));
        assert(forall|k: int| 0 <= k < j ==> !cut_candidate(bytes, hit, k));
    }
}

} // verus!
