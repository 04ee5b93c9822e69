//! Splitting a bulk-insert body into its newline-separated document lines.
//!
//! A bulk body arrives in chunks of arbitrary size. Each chunk is appended to
//! what is left of the previous ones; every complete line (one followed by a
//! newline) is handed on for parsing, and the unfinished tail is kept for the
//! next chunk. When the body ends, a non-empty tail is handed on as a last line.

use vstd::prelude::*;
use vstd::utf8::{decode_utf8, valid_utf8};

verus! {

/// The byte that ends a line.
pub open spec fn newline() -> u8 {
    10u8
}

/// `s` holds no newline byte.
pub open spec fn no_newline(s: Seq<u8>) -> bool {
    forall|i: int| 0 <= i < s.len() ==> s[i] != newline()
}

/// The lines written one after another, each followed by a newline.
pub open spec fn newline_terminated(lines: Seq<Seq<u8>>) -> Seq<u8>
    decreases lines.len(),
{
    if lines.len() == 0 {
        Seq::empty()
    } else {
        newline_terminated(lines.drop_last()) + lines.last() + seq![newline()]
    }
}

/// `lines` and `rest` split `data` at its newlines: `data` is the lines, each
/// followed by a newline, then `rest`, and none of them holds a newline.
pub open spec fn splits(data: Seq<u8>, lines: Seq<Seq<u8>>, rest: Seq<u8>) -> bool {
    &&& newline_terminated(lines) + rest == data
    &&& forall|i: int| 0 <= i < lines.len() ==> no_newline(#[trigger] lines[i])
    &&& no_newline(rest)
}

/// The byte contents of each line.
pub open spec fn lines_view(lines: Seq<Vec<u8>>) -> Seq<Seq<u8>> {
    lines.map_values(|l: Vec<u8>| l@)
}

/// Appends `chunk` to `buf` and splits the result at its newlines: returns the
/// complete lines, in order and without their newlines, and the unfinished
/// tail after the last newline (empty when the data ends with a newline).
pub fn process_body(buf: Vec<u8>, chunk: &[u8]) -> (r: (Vec<Vec<u8>>, Vec<u8>))
    ensures
        splits(buf@ + chunk@, lines_view(r.0@), r.1@),
{
    let mut data = buf;
    let ghost start = data@;
    let n = chunk.len();
    let mut k: usize = 0;
    while k < n
        invariant
            n == chunk@.len(),
            k <= n,
            data@ == start + chunk@.take(k as int),
        decreases n - k,
    {
        data.push(chunk[k]);
        k = k + 1;
        assert(chunk@.take(k as int) == chunk@.take((k - 1) as int).push(chunk@[k - 1]));
    }
    assert(chunk@.take(n as int) == chunk@);
    let mut lines: Vec<Vec<u8>> = Vec::new();
    let mut cur: Vec<u8> = Vec::new();
    let len = data.len();
    let mut i: usize = 0;
    assert(lines_view(lines@) =~= Seq::<Seq<u8>>::empty());
    assert(data@.take(0) =~= newline_terminated(lines_view(lines@)) + cur@);
    while i < len
        invariant
            len == data@.len(),
            i <= len,
            splits(data@.take(i as int), lines_view(lines@), cur@),
        decreases len - i,
    {
        let b = data[i];
        let ghost before = lines_view(lines@);
        if b == 10u8 {
            let line = cur;
            cur = Vec::new();
            lines.push(line);
            assert(lines_view(lines@) == before.push(line@));
            assert(lines_view(lines@).drop_last() == before);
            assert forall|j: int| 0 <= j < lines_view(lines@).len() implies no_newline(
                #[trigger] lines_view(lines@)[j],
            ) by {
                if j < before.len() {
                    assert(lines_view(lines@)[j] == before[j]);
                }
            }
            assert(newline_terminated(lines_view(lines@)) + cur@ =~= data@.take(i + 1));
        } else {
            let ghost old_cur = cur@;
            cur.push(b);
            assert(newline_terminated(lines_view(lines@)) + cur@ =~= (newline_terminated(
                lines_view(lines@),
            ) + old_cur).push(b));
            assert(newline_terminated(lines_view(lines@)) + cur@ =~= data@.take(i + 1));
        }
        i = i + 1;
    }
    assert(data@.take(len as int) == data@);
    (lines, cur)
}

/// What is left of the body when it ends: handed on as a last line unless it
/// is empty.
pub fn leftover_line(left: Vec<u8>) -> (r: Option<Vec<u8>>)
    ensures
        left@.len() == 0 ==> r is None,
        left@.len() != 0 ==> r == Some(left),
{
    if left.len() == 0 {
        None
    } else {
        Some(left)
    }
}

/// Decodes `bytes` as UTF-8 text with `std::str::from_utf8`, whose
/// documentation promises success exactly on valid UTF-8 and the decoded text
/// then; validity and decoding are vstd's definitions of UTF-8.
#[verifier::external_body]
fn utf8_text(bytes: &[u8]) -> (r: Option<&str>)
    ensures
        r is Some <==> valid_utf8(bytes@),
        r matches Some(s) ==> s@ == decode_utf8(bytes@),
{
    std::str::from_utf8(bytes).ok()
}

/// The text of a document line that is worth parsing: none for an empty line
/// or one that is not valid UTF-8, else the decoded text.
pub fn document_line(line: &[u8]) -> (r: Option<&str>)
    ensures
        (line@.len() == 0 || !valid_utf8(line@)) ==> r is None,
        (line@.len() != 0 && valid_utf8(line@)) ==> (r matches Some(s) && s@ == decode_utf8(line@)),
{
    if line.len() == 0 {
        None
    } else {
        utf8_text(line)
    }
}

/// Writing lines one after another distributes over putting them together.
pub proof fn lemma_newline_terminated_append(a: Seq<Seq<u8>>, b: Seq<Seq<u8>>)
    ensures
        newline_terminated(a + b) == newline_terminated(a) + newline_terminated(b),
    decreases b.len(),
{
    if b.len() == 0 {
        assert(a + b =~= a);
        assert(newline_terminated(a) + newline_terminated(b) =~= newline_terminated(a));
    } else {
        lemma_newline_terminated_append(a, b.drop_last());
        assert((a + b).drop_last() =~= a + b.drop_last());
        assert((a + b).last() == b.last());
        assert(newline_terminated(a + b) =~= newline_terminated(a) + newline_terminated(b));
    }
}

/// Lines written with their newlines end in a newline, unless there are none.
proof fn lemma_newline_terminated_shape(lines: Seq<Seq<u8>>)
    ensures
        lines.len() == 0 <==> newline_terminated(lines).len() == 0,
        lines.len() > 0 ==> newline_terminated(lines)[newline_terminated(lines).len() - 1]
            == newline(),
{
    if lines.len() > 0 {
        let t = newline_terminated(lines);
        assert(t == newline_terminated(lines.drop_last()) + lines.last() + seq![newline()]);
    }
}

/// A byte sequence has one split at its newlines and no other.
pub proof fn lemma_splits_unique(
    data: Seq<u8>,
    l1: Seq<Seq<u8>>,
    r1: Seq<u8>,
    l2: Seq<Seq<u8>>,
    r2: Seq<u8>,
)
    requires
        splits(data, l1, r1),
        splits(data, l2, r2),
    ensures
        l1 == l2,
        r1 == r2,
    decreases data.len(),
{
    let t1 = newline_terminated(l1);
    let t2 = newline_terminated(l2);
    lemma_newline_terminated_shape(l1);
    lemma_newline_terminated_shape(l2);
    if t1.len() < t2.len() {
        assert(data[t2.len() - 1] == t2[t2.len() - 1]);
        assert(data[t2.len() - 1] == r1[t2.len() - 1 - t1.len()]);
        assert(false);
    }
    if t2.len() < t1.len() {
        assert(data[t1.len() - 1] == t1[t1.len() - 1]);
        assert(data[t1.len() - 1] == r2[t1.len() - 1 - t2.len()]);
        assert(false);
    }
    assert(t1 =~= data.take(t1.len() as int));
    assert(t2 =~= data.take(t2.len() as int));
    assert(r1 =~= data.skip(t1.len() as int));
    assert(r2 =~= data.skip(t2.len() as int));
    if l1.len() == 0 {
        assert(l1 =~= l2);
    } else {
        let d = newline_terminated(l1.drop_last()) + l1.last();
        assert(d =~= t1.drop_last());
        assert(newline_terminated(l2.drop_last()) + l2.last() =~= t2.drop_last());
        assert forall|i: int| 0 <= i < l1.drop_last().len() implies no_newline(
            #[trigger] l1.drop_last()[i],
        ) by {
            assert(l1.drop_last()[i] == l1[i]);
        }
        assert forall|i: int| 0 <= i < l2.drop_last().len() implies no_newline(
            #[trigger] l2.drop_last()[i],
        ) by {
            assert(l2.drop_last()[i] == l2[i]);
        }
        assert(no_newline(l1[l1.len() - 1]));
        assert(no_newline(l2[l2.len() - 1]));
        lemma_splits_unique(d, l1.drop_last(), l1.last(), l2.drop_last(), l2.last());
        assert(l1 =~= l2.drop_last().push(l2.last()));
        assert(l2 =~= l2.drop_last().push(l2.last()));
    }
}

/// Feeding a body in two chunks hands on the same lines, and keeps the same
/// tail, as feeding both chunks at once: the lines of the first feed followed
/// by those of the second, the second feed starting from the first one's tail.
pub proof fn law_chunked_feeding(
    buf: Seq<u8>,
    c1: Seq<u8>,
    c2: Seq<u8>,
    l1: Seq<Seq<u8>>,
    r1: Seq<u8>,
    l2: Seq<Seq<u8>>,
    r2: Seq<u8>,
    l: Seq<Seq<u8>>,
    r: Seq<u8>,
)
    requires
        splits(buf + c1, l1, r1),
        splits(r1 + c2, l2, r2),
        splits(buf + (c1 + c2), l, r),
    ensures
        l == l1 + l2,
        r == r2,
{
    lemma_newline_terminated_append(l1, l2);
    let t1 = newline_terminated(l1);
    let t2 = newline_terminated(l2);
    assert(t2 + r2 == r1 + c2);
    assert(t1 + r1 == buf + c1);
    assert(t1 + t2 + r2 =~= t1 + (t2 + r2));
    assert(t1 + (r1 + c2) =~= (t1 + r1) + c2);
    assert((buf + c1) + c2 =~= buf + (c1 + c2));
    assert(newline_terminated(l1 + l2) + r2 =~= buf + (c1 + c2));
    assert forall|i: int| 0 <= i < (l1 + l2).len() implies no_newline(#[trigger] (l1 + l2)[i]) by {
        if i < l1.len() {
            assert((l1 + l2)[i] == l1[i]);
        } else {
            assert((l1 + l2)[i] == l2[i - l1.len()]);
        }
    }
    lemma_splits_unique(buf + (c1 + c2), l, r, l1 + l2, r2);
}

} // verus!
