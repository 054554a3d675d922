//! Splits text into what can be typed key by key and what must go through
//! the clipboard.
//!
//! Printable ASCII characters (32..=126) are typed one at a time; every run
//! of other characters (control characters, DEL and non-ASCII) is batched
//! into one chunk, so that it costs one clipboard write and one paste.
use vstd::prelude::*;

use crate::text::chars_of;

verus! {

/// One unit of output for the typing path.
#[derive(Debug, Clone, PartialEq, Eq)]
pub enum Chunk {
    /// A printable ASCII character, typed directly.
    Ascii(u8),
    /// A maximal run of characters that are not printable ASCII.
    NonAscii(String),
}

/// The mathematical value of a [`Chunk`].
pub enum ChunkView {
    Ascii(u8),
    NonAscii(Seq<char>),
}

impl View for Chunk {
    type V = ChunkView;

    open spec fn view(&self) -> ChunkView {
        match self {
            Chunk::Ascii(b) => ChunkView::Ascii(*b),
            Chunk::NonAscii(s) => ChunkView::NonAscii(s@),
        }
    }
}

/// Whether `c` is typed key by key: printable ASCII, 32 to 126.
pub open spec fn is_typed_directly(c: char) -> bool {
    32 <= (c as u32) <= 126
}

/// Length of the longest prefix of `s` made of characters that are not
/// typed directly.
pub open spec fn leading_run(s: Seq<char>) -> nat
    decreases s.len(),
{
    if s.len() > 0 && !is_typed_directly(s[0]) {
        1 + leading_run(s.drop_first())
    } else {
        0
    }
}

/// The chunks of `s`, from left to right.
pub open spec fn chunks_of(s: Seq<char>) -> Seq<ChunkView>
    decreases s.len(),
{
    if s.len() == 0 {
        seq![]
    } else if is_typed_directly(s[0]) {
        seq![ChunkView::Ascii(s[0] as u32 as u8)] + chunks_of(s.drop_first())
    } else {
        let n = leading_run(s);
        proof {
            lemma_leading_run_bound(s);
        }
        seq![ChunkView::NonAscii(s.take(n as int))] + chunks_of(s.skip(n as int))
    }
}

/// The views of a sequence of chunks.
pub open spec fn chunk_views(v: Seq<Chunk>) -> Seq<ChunkView> {
    v.map_values(|c: Chunk| c@)
}

/// The text a chunk stands for.
pub open spec fn chunk_text(c: ChunkView) -> Seq<char> {
    match c {
        ChunkView::Ascii(b) => seq![(b as u32) as char],
        ChunkView::NonAscii(s) => s,
    }
}

/// The text a sequence of chunks stands for, concatenated.
pub open spec fn chunks_text(cs: Seq<ChunkView>) -> Seq<char>
    decreases cs.len(),
{
    if cs.len() == 0 {
        seq![]
    } else {
        chunk_text(cs[0]) + chunks_text(cs.drop_first())
    }
}

/// A chunk that the typing path can carry out as such: a printable ASCII
/// byte, or a non-empty run of characters none of which is printable ASCII.
pub open spec fn well_formed_chunk(c: ChunkView) -> bool {
    match c {
        ChunkView::Ascii(b) => 32 <= b <= 126,
        ChunkView::NonAscii(s) => s.len() > 0 && forall|i: int|
            0 <= i < s.len() ==> !is_typed_directly(#[trigger] s[i]),
    }
}

pub proof fn lemma_leading_run_bound(s: Seq<char>)
    ensures
        leading_run(s) <= s.len(),
        forall|i: int| 0 <= i < leading_run(s) ==> !is_typed_directly(#[trigger] s[i]),
        leading_run(s) < s.len() ==> is_typed_directly(s[leading_run(s) as int]),
    decreases s.len(),
{
    if s.len() > 0 && !is_typed_directly(s[0]) {
        lemma_leading_run_bound(s.drop_first());
        assert forall|i: int| 0 <= i < leading_run(s) implies !is_typed_directly(#[trigger] s[i]) by {
            if i > 0 {
                assert(s[i] == s.drop_first()[i - 1]);
            }
        }
    }
}

/// A run of characters that are not typed directly, followed by `t`, which
/// is empty or starts with a directly typed character: the run is the
/// leading run.
proof fn lemma_leading_run_of_run(run: Seq<char>, t: Seq<char>)
    requires
        forall|i: int| 0 <= i < run.len() ==> !is_typed_directly(#[trigger] run[i]),
        t.len() == 0 || is_typed_directly(t[0]),
    ensures
        leading_run(run + t) == run.len(),
    decreases run.len(),
{
    if run.len() == 0 {
        assert(run + t =~= t);
    } else {
        assert((run + t).drop_first() =~= run.drop_first() + t);
        lemma_leading_run_of_run(run.drop_first(), t);
    }
}

/// The chunks of a non-empty run followed by `t` (empty or starting with a
/// directly typed character): the run, then the chunks of `t`.
proof fn lemma_chunks_of_run(run: Seq<char>, t: Seq<char>)
    requires
        run.len() > 0,
        forall|i: int| 0 <= i < run.len() ==> !is_typed_directly(#[trigger] run[i]),
        t.len() == 0 || is_typed_directly(t[0]),
    ensures
        chunks_of(run + t) == seq![ChunkView::NonAscii(run)] + chunks_of(t),
{
    lemma_leading_run_of_run(run, t);
    let s = run + t;
    assert(s[0] == run[0]);
    assert(s.take(run.len() as int) =~= run);
    assert(s.skip(run.len() as int) =~= t);
}

/// Concatenating the text of the chunks of `s` gives back `s`: nothing is
/// lost, duplicated or reordered by chunking.
pub proof fn lemma_chunks_reassemble(s: Seq<char>)
    ensures
        chunks_text(chunks_of(s)) == s,
    decreases s.len(),
{
    if s.len() == 0 {
    } else if is_typed_directly(s[0]) {
        let c = s[0];
        let b = c as u32 as u8;
        assert(b as u32 == c as u32);
        vstd::utf8::char_u32_cast(c, c as u32);
        lemma_chunks_reassemble(s.drop_first());
        let cs = chunks_of(s);
        assert(cs[0] == ChunkView::Ascii(b));
        assert(cs.drop_first() =~= chunks_of(s.drop_first()));
        assert(s =~= seq![c] + s.drop_first());
    } else {
        let n = leading_run(s);
        lemma_leading_run_bound(s);
        lemma_chunks_reassemble(s.skip(n as int));
        let cs = chunks_of(s);
        assert(cs.drop_first() =~= chunks_of(s.skip(n as int)));
        assert(s =~= s.take(n as int) + s.skip(n as int));
    }
}

/// Every chunk of `s` is well formed, and no two runs are adjacent: a run
/// is always followed by a directly typed character or by the end.
pub proof fn lemma_chunks_well_formed(s: Seq<char>)
    ensures
        forall|i: int| 0 <= i < chunks_of(s).len() ==> well_formed_chunk(#[trigger] chunks_of(s)[i]),
        forall|i: int| 0 <= i < chunks_of(s).len() - 1 && (#[trigger] chunks_of(s)[i]) is NonAscii
            ==> chunks_of(s)[i + 1] is Ascii,
    decreases s.len(),
{
    if s.len() == 0 {
    } else if is_typed_directly(s[0]) {
        lemma_chunks_well_formed(s.drop_first());
        let cs = chunks_of(s);
        let rest = chunks_of(s.drop_first());
        assert forall|i: int| 0 <= i < cs.len() implies well_formed_chunk(#[trigger] cs[i]) by {
            if i > 0 {
                assert(cs[i] == rest[i - 1]);
            }
        }
        assert forall|i: int| 0 <= i < cs.len() - 1 && (#[trigger] cs[i]) is NonAscii
            implies cs[i + 1] is Ascii by {
            assert(cs[i] == rest[i - 1]);
            assert(cs[i + 1] == rest[i]);
        }
    } else {
        let n = leading_run(s);
        lemma_leading_run_bound(s);
        let t = s.skip(n as int);
        lemma_chunks_well_formed(t);
        let cs = chunks_of(s);
        let rest = chunks_of(t);
        assert forall|i: int| 0 <= i < cs.len() implies well_formed_chunk(#[trigger] cs[i]) by {
            if i > 0 {
                assert(cs[i] == rest[i - 1]);
            } else {
                let run = s.take(n as int);
                assert forall|j: int| 0 <= j < run.len() implies !is_typed_directly(#[trigger] run[j]) by {
                    assert(run[j] == s[j]);
                }
            }
        }
        assert forall|i: int| 0 <= i < cs.len() - 1 && (#[trigger] cs[i]) is NonAscii
            implies cs[i + 1] is Ascii by {
            if i == 0 {
                assert(t.len() > 0);
                assert(t[0] == s[n as int]);
                assert(rest[0] is Ascii);
            } else {
                assert(cs[i] == rest[i - 1]);
                assert(cs[i + 1] == rest[i]);
            }
        }
    }
}

/// Splits `text` into chunks for typing.
pub fn chunk_for_typing(text: &str) -> (chunks: Vec<Chunk>)
    ensures
        chunk_views(chunks@) == chunks_of(text@),
{
    let v = chars_of(text);
    let mut chunks: Vec<Chunk> = Vec::new();
    let mut buf = String::new();
    let mut i: usize = 0;
    assert(chunk_views(chunks@) =~= seq![]);
    assert(buf@ + v@.skip(0) =~= v@);
    while i < v.len()
        invariant
            0 <= i <= v.len(),
            v@ == text@,
            forall|j: int| 0 <= j < buf@.len() ==> !is_typed_directly(#[trigger] buf@[j]),
            chunk_views(chunks@) + chunks_of(buf@ + v@.skip(i as int)) == chunks_of(text@),
        decreases v.len() - i,
    {
        let ch = v[i];
        let code = ch as u32;
        let ghost rest = v@.skip(i as int + 1);
        assert(v@.skip(i as int) =~= seq![ch] + rest);
        if 32 <= code && code <= 126 {
            if !buf.as_str().is_empty() {
                proof {
                    lemma_chunks_of_run(buf@, seq![ch] + rest);
                }
                let ghost before = chunk_views(chunks@);
                let done = buf;
                buf = String::new();
                chunks.push(Chunk::NonAscii(done));
                assert(chunk_views(chunks@) =~= before + seq![ChunkView::NonAscii(done@)]);
            }
            assert(buf@ + v@.skip(i as int) =~= seq![ch] + rest);
            let ghost before = chunk_views(chunks@);
            chunks.push(Chunk::Ascii(code as u8));
            assert((seq![ch] + rest).drop_first() =~= rest);
            assert(chunk_views(chunks@) =~= before + seq![ChunkView::Ascii(code as u8)]);
            assert(buf@ + v@.skip(i + 1) =~= rest);
        } else {
            let ghost old_buf = buf@;
            buf.push(ch);
            assert(buf@ + v@.skip(i + 1) =~= old_buf + (seq![ch] + rest));
        }
        i = i + 1;
    }
    assert(buf@ + v@.skip(i as int) =~= buf@);
    if !buf.as_str().is_empty() {
        proof {
            lemma_chunks_of_run(buf@, seq![]);
            assert(buf@ + seq![] =~= buf@);
        }
        let ghost before = chunk_views(chunks@);
        chunks.push(Chunk::NonAscii(buf));
        assert(chunk_views(chunks@) =~= before + seq![ChunkView::NonAscii(buf@)]);
    }
    chunks
}

} // verus!
