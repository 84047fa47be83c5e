use vstd::prelude::*;
use vstd::string::StringSliceAdditionalSpecFns;
use vstd::utf8::*;

verus! {

/// Index `i` of `bytes` starts a character or ends the text: the byte there
/// is no UTF-8 continuation byte.
pub open spec fn starts_char(bytes: Seq<u8>, i: int) -> bool {
    i == bytes.len() || (0 <= i < bytes.len() && !is_continuation_byte(bytes[i]))
}

/// `offsets` cuts `bytes` into chunks the way the sender does: each chunk
/// ends at the first character boundary at least `target` bytes past its
/// start, and the last chunk takes what is left.
pub open spec fn is_chunking(bytes: Seq<u8>, target: int, offsets: Seq<usize>) -> bool {
    &&& offsets.len() >= 1
    &&& offsets[0] == 0
    &&& offsets.last() == bytes.len()
    &&& forall|k: int| 0 <= k < offsets.len() ==> is_char_boundary(bytes, #[trigger] offsets[k] as int)
    &&& forall|k: int| #![trigger offsets[k]] 0 <= k < offsets.len() - 1 ==> offsets[k] < offsets[k + 1]
    &&& forall|k: int| #![trigger offsets[k]] 0 <= k < offsets.len() - 2 ==> offsets[k + 1] - offsets[k] >= target
    &&& forall|k: int, b: int| #![trigger offsets[k], is_char_boundary(bytes, b)]
        0 <= k < offsets.len() - 1 && offsets[k] < b < offsets[k + 1] && is_char_boundary(bytes, b)
            ==> b - offsets[k] < target
}

/// The bytes of chunk `k`.
pub open spec fn chunk_bytes(bytes: Seq<u8>, offsets: Seq<usize>, k: int) -> Seq<u8> {
    bytes.subrange(offsets[k] as int, offsets[k + 1] as int)
}

proof fn lemma_starts_char_is_boundary(bytes: Seq<u8>, i: int)
    requires
        valid_utf8(bytes),
        0 <= i <= bytes.len(),
    ensures
        starts_char(bytes, i) <==> is_char_boundary(bytes, i),
{
    is_char_boundary_start_end_of_seq(bytes);
    if i < bytes.len() {
        is_char_boundary_iff_not_is_continuation_byte(bytes, i);
    }
}

pub proof fn lemma_offsets_bounded(bytes: Seq<u8>, target: int, offsets: Seq<usize>, i: int)
    requires
        is_chunking(bytes, target, offsets),
        0 <= i < offsets.len(),
    ensures
        offsets[i] <= bytes.len(),
        i < offsets.len() - 1 ==> offsets[i] < bytes.len(),
    decreases offsets.len() - i,
{
    if i < offsets.len() - 1 {
        lemma_offsets_bounded(bytes, target, offsets, i + 1);
        assert(offsets[i] < offsets[i + 1]);
    }
}

proof fn lemma_unique_prefix(bytes: Seq<u8>, target: int, o1: Seq<usize>, o2: Seq<usize>, k: int)
    requires
        is_chunking(bytes, target, o1),
        is_chunking(bytes, target, o2),
        0 <= k < o1.len(),
        k < o2.len(),
    ensures
        forall|i: int| 0 <= i <= k ==> o1[i] == o2[i],
    decreases k,
{
    if k > 0 {
        lemma_unique_prefix(bytes, target, o1, o2, k - 1);
        let j = k - 1;
        let s = o1[j] as int;
        let a = o1[k] as int;
        let b = o2[k] as int;
        lemma_offsets_bounded(bytes, target, o1, k);
        lemma_offsets_bounded(bytes, target, o2, k);
        assert(is_char_boundary(bytes, o1[k] as int));
        assert(is_char_boundary(bytes, o2[k] as int));
        assert(o1[j] < o1[j + 1]);
        assert(o2[j] < o2[j + 1]);
        if a < b {
            assert(a - s < target);
            if j < o1.len() - 2 {
                assert(o1[j + 1] - o1[j] >= target);
            }
        } else if b < a {
            assert(b - s < target);
            if j < o2.len() - 2 {
                assert(o2[j + 1] - o2[j] >= target);
            }
        }
    }
}

/// The cut is determined by the text and the target: two offset lists that
/// both cut `bytes` as `is_chunking` says are the same list.
pub proof fn lemma_chunking_unique(bytes: Seq<u8>, target: int, o1: Seq<usize>, o2: Seq<usize>)
    requires
        is_chunking(bytes, target, o1),
        is_chunking(bytes, target, o2),
    ensures
        o1 == o2,
{
    let m = if o1.len() < o2.len() { o1.len() as int } else { o2.len() as int };
    lemma_unique_prefix(bytes, target, o1, o2, m - 1);
    if o1.len() < o2.len() {
        lemma_offsets_bounded(bytes, target, o2, m - 1);
    } else if o2.len() < o1.len() {
        lemma_offsets_bounded(bytes, target, o1, m - 1);
    }
    assert(o1 =~= o2);
}

/// The first `m` chunks laid end to end.
pub open spec fn joined_chunks(bytes: Seq<u8>, offsets: Seq<usize>, m: int) -> Seq<u8>
    decreases m,
{
    if m <= 0 {
        Seq::empty()
    } else {
        joined_chunks(bytes, offsets, m - 1) + chunk_bytes(bytes, offsets, m - 1)
    }
}

proof fn lemma_joined_prefix(bytes: Seq<u8>, target: int, offsets: Seq<usize>, m: int)
    requires
        is_chunking(bytes, target, offsets),
        0 <= m < offsets.len(),
    ensures
        joined_chunks(bytes, offsets, m) == bytes.subrange(0, offsets[m] as int),
    decreases m,
{
    lemma_offsets_bounded(bytes, target, offsets, m);
    if m > 0 {
        lemma_joined_prefix(bytes, target, offsets, m - 1);
        assert(offsets[m - 1] < offsets[m]);
        assert(bytes.subrange(0, offsets[m - 1] as int) + chunk_bytes(bytes, offsets, m - 1)
            =~= bytes.subrange(0, offsets[m] as int));
    } else {
        assert(bytes.subrange(0, 0) =~= Seq::<u8>::empty());
    }
}

proof fn lemma_chunk_valid(bytes: Seq<u8>, target: int, offsets: Seq<usize>, k: int)
    requires
        valid_utf8(bytes),
        is_chunking(bytes, target, offsets),
        0 <= k < offsets.len() - 1,
    ensures
        valid_utf8(chunk_bytes(bytes, offsets, k)),
{
    let s = offsets[k] as int;
    let e = offsets[k + 1] as int;
    lemma_offsets_bounded(bytes, target, offsets, k + 1);
    assert(s < e);
    assert(is_char_boundary(bytes, offsets[k] as int));
    assert(is_char_boundary(bytes, offsets[k + 1] as int));
    valid_utf8_split(bytes, e);
    let prefix = bytes.subrange(0, e);
    lemma_starts_char_is_boundary(bytes, s);
    lemma_starts_char_is_boundary(prefix, s);
    valid_utf8_split(prefix, s);
    assert(prefix.subrange(s, prefix.len() as int) =~= chunk_bytes(bytes, offsets, k));
}

/// Every chunk is valid UTF-8 on its own, and the chunks laid end to end
/// give back the whole text.
pub proof fn lemma_chunks_rebuild_text(bytes: Seq<u8>, target: int, offsets: Seq<usize>)
    requires
        valid_utf8(bytes),
        is_chunking(bytes, target, offsets),
    ensures
        forall|k: int| 0 <= k < offsets.len() - 1 ==> valid_utf8(#[trigger] chunk_bytes(bytes, offsets, k)),
        joined_chunks(bytes, offsets, offsets.len() - 1) == bytes,
{
    assert forall|k: int| 0 <= k < offsets.len() - 1 implies valid_utf8(#[trigger] chunk_bytes(bytes, offsets, k)) by {
        lemma_chunk_valid(bytes, target, offsets, k);
    }
    lemma_joined_prefix(bytes, target, offsets, offsets.len() - 1);
    assert(bytes.subrange(0, bytes.len() as int) =~= bytes);
}

/// A text has no chunk to send exactly when it is empty: its offset list
/// is then `[0]` alone.
pub proof fn lemma_single_offset_iff_empty(bytes: Seq<u8>, target: int, offsets: Seq<usize>)
    requires
        is_chunking(bytes, target, offsets),
    ensures
        offsets.len() < 2 <==> bytes.len() == 0,
{
    if offsets.len() >= 2 {
        lemma_offsets_bounded(bytes, target, offsets, 0);
    }
}

/// In valid UTF-8 a character takes at most four bytes: some boundary
/// lies within four bytes after any position.
proof fn lemma_next_boundary(bytes: Seq<u8>, i: int) -> (j: int)
    requires
        valid_utf8(bytes),
        0 <= i < bytes.len(),
    ensures
        i < j <= i + 4,
        j <= bytes.len(),
        is_char_boundary(bytes, j),
    decreases bytes.len(),
{
    let len1 = length_of_first_scalar(bytes);
    let rest = pop_first_scalar(bytes);
    assert(valid_first_scalar(bytes) && valid_utf8(rest));
    assert(1 <= len1 <= 4 && len1 <= bytes.len());
    assert(rest.len() == bytes.len() - len1);
    if i < len1 {
        assert(is_char_boundary(rest, 0));
        assert(is_char_boundary(bytes, len1));
        len1
    } else {
        let k = lemma_next_boundary(rest, i - len1);
        assert(is_char_boundary(bytes, k + len1));
        k + len1
    }
}

/// Every chunk but the last holds at least `target` bytes, and no chunk
/// holds more than `target + 3`: a cut falls at the first character
/// boundary that reaches the target, and a character takes at most four
/// bytes.
pub proof fn lemma_chunk_sizes(bytes: Seq<u8>, target: int, offsets: Seq<usize>, k: int)
    requires
        valid_utf8(bytes),
        is_chunking(bytes, target, offsets),
        target >= 1,
        0 <= k < offsets.len() - 1,
    ensures
        k < offsets.len() - 2 ==> offsets[k + 1] - offsets[k] >= target,
        0 < offsets[k + 1] - offsets[k] <= target + 3,
{
    let s = offsets[k] as int;
    let e = offsets[k + 1] as int;
    lemma_offsets_bounded(bytes, target, offsets, k + 1);
    assert(s < e);
    if e - s > target + 3 {
        let b = lemma_next_boundary(bytes, s + target - 1);
        assert(s < b < e);
        assert(b - s < target);
    }
}

/// A character boundary `a` of valid `bytes` before `b` is also one of the
/// first `b` bytes.
pub proof fn lemma_boundary_in_prefix(bytes: Seq<u8>, b: int, a: int)
    requires
        valid_utf8(bytes),
        0 <= a <= b <= bytes.len(),
        is_char_boundary(bytes, b),
        is_char_boundary(bytes, a),
    ensures
        valid_utf8(bytes.subrange(0, b)),
        is_char_boundary(bytes.subrange(0, b), a),
{
    valid_utf8_split(bytes, b);
    lemma_starts_char_is_boundary(bytes, a);
    lemma_starts_char_is_boundary(bytes.subrange(0, b), a);
}

/// The part of `text` from byte `start` to byte `end`, both of them
/// character boundaries.
pub fn text_between<'a>(text: &'a str, start: usize, end: usize) -> (r: &'a str)
    requires
        start <= end <= text.spec_bytes().len(),
        is_char_boundary(text.spec_bytes(), start as int),
        is_char_boundary(text.spec_bytes(), end as int),
    ensures
        r.spec_bytes() == text.spec_bytes().subrange(start as int, end as int),
{
    let ghost bytes = text.spec_bytes();
    proof {
        encode_utf8_valid_utf8(text@);
    }
    let (_, rest) = text.split_at(start);
    let ghost tail = rest.spec_bytes();
    proof {
        valid_utf8_split(bytes, start as int);
        assert(tail =~= bytes.subrange(start as int, bytes.len() as int));
        lemma_starts_char_is_boundary(bytes, end as int);
        lemma_starts_char_is_boundary(tail, end - start);
    }
    let (piece, _) = rest.split_at(end - start);
    proof {
        assert(piece.spec_bytes() =~= bytes.subrange(start as int, end as int));
    }
    piece
}

/// Cuts `text` into chunks of about `target_bytes` bytes each, never inside
/// a character, and returns the byte offsets of the cuts: the first is 0
/// and the last is the length of the text.
pub fn compute_chunk_offsets(text: &str, target_bytes: usize) -> (offsets: Vec<usize>)
    ensures
        is_chunking(text.spec_bytes(), target_bytes as int, offsets@),
{
    let bytes = text.as_bytes();
    let n = bytes.len();
    let ghost bs = bytes@;
    proof {
        encode_utf8_valid_utf8(text@);
    }
    let mut offsets: Vec<usize> = Vec::new();
    offsets.push(0);
    let mut last: usize = 0;
    let mut j: usize = 0;
    while j < n
        invariant
            bs == bytes@,
            bs == text.spec_bytes(),
            valid_utf8(bs),
            n == bs.len(),
            j <= n,
            offsets@.len() >= 1,
            offsets@[0] == 0,
            last == offsets@.last(),
            last <= j,
            forall|k: int| 0 <= k < offsets@.len() ==> #[trigger] is_char_boundary(bs, offsets@[k] as int),
            forall|k: int| #![trigger offsets@[k]] 0 <= k < offsets@.len() - 1 ==> offsets@[k] < offsets@[k + 1],
            forall|k: int| #![trigger offsets@[k]] 0 <= k < offsets@.len() - 1 ==> offsets@[k + 1] - offsets@[k] >= target_bytes,
            forall|k: int, b: int| #![trigger offsets@[k], is_char_boundary(bs, b)]
                0 <= k < offsets@.len() - 1 && offsets@[k] < b < offsets@[k + 1] && is_char_boundary(bs, b)
                    ==> b - offsets@[k] < target_bytes,
            forall|b: int| last < b <= j && #[trigger] is_char_boundary(bs, b) ==> b - last < target_bytes,
        decreases n - j,
    {
        let p = j + 1;
        let at_start = p == n || {
            let c = bytes[p];
            !(0x80 <= c && c <= 0xbf)
        };
        proof {
            lemma_starts_char_is_boundary(bs, p as int);
        }
        if at_start && p - last >= target_bytes {
            let ghost old_offsets = offsets@;
            offsets.push(p);
            last = p;
            assert(forall|k: int| 0 <= k < old_offsets.len() ==> offsets@[k] == old_offsets[k]);
        }
        j = p;
    }
    if last != n {
        let ghost old_offsets = offsets@;
        proof {
            is_char_boundary_start_end_of_seq(bs);
        }
        offsets.push(n);
        assert(forall|k: int| 0 <= k < old_offsets.len() ==> offsets@[k] == old_offsets[k]);
    }
    offsets
}

} // verus!
