use vstd::prelude::*;
use vstd::string::*;
use crate::error::{ChatError, ErrorView};

verus! {

/// One line delivered by the transport: text, or the read error that ended it.
pub type LineView = Result<Seq<char>, ErrorView>;

pub open spec fn line_view(l: Result<String, ChatError>) -> LineView {
    match l {
        Ok(s) => Ok(s@),
        Err(e) => Err(e@),
    }
}

/// A copy of a line.
pub fn duplicate_line(l: &Result<String, ChatError>) -> (r: Result<String, ChatError>)
    ensures
        line_view(r) == line_view(*l),
{
    match l {
        Ok(s) => Ok(s.clone()),
        Err(e) => Err(e.duplicate()),
    }
}

/// The text of some bytes decoded as UTF-8, with each invalid sequence replaced
/// by U+FFFD.
pub uninterp spec fn lossy_of(b: Seq<u8>) -> Seq<char>;

/// Relies on `String::from_utf8_lossy`: its result depends on the bytes alone.
#[verifier::external_body]
fn decode_lossy(b: &[u8]) -> (r: String)
    ensures
        r@ == lossy_of(b@),
{
    String::from_utf8_lossy(b).into_owned()
}

/// The pieces of `b` between newline bytes; a chunk without one is a single piece.
pub open spec fn split_newlines(b: Seq<u8>) -> Seq<Seq<u8>>
    decreases b.len(),
{
    if b.len() == 0 {
        seq![Seq::<u8>::empty()]
    } else {
        let p = split_newlines(b.drop_last());
        if b.last() == 10u8 {
            p.push(Seq::empty())
        } else {
            p.update(p.len() - 1, p.last().push(b.last()))
        }
    }
}

/// The lines of a chunk: split on newline bytes, each piece decoded on its own.
/// A newline byte never belongs to an invalid UTF-8 sequence, so this is the
/// same as decoding the whole chunk and then splitting it.
pub open spec fn chunk_lines_of(b: Seq<u8>) -> Seq<Seq<char>> {
    split_newlines(b).map_values(|p: Seq<u8>| lossy_of(p))
}

pub open spec fn strings_view(v: Seq<String>) -> Seq<Seq<char>> {
    v.map_values(|s: String| s@)
}

/// Splits a received chunk into the lines handed to a stream handler.
pub fn chunk_lines(chunk: &[u8]) -> (r: Vec<String>)
    ensures
        strings_view(r@) == chunk_lines_of(chunk@),
{
    let mut out: Vec<String> = Vec::new();
    let mut cur: Vec<u8> = Vec::new();
    let ghost done: Seq<Seq<u8>> = Seq::empty();
    let mut i: usize = 0;
    assert(chunk@.subrange(0, 0) =~= Seq::<u8>::empty());
    assert(split_newlines(Seq::<u8>::empty()) =~= done.push(cur@));
    while i < chunk.len()
        invariant
            i <= chunk@.len(),
            split_newlines(chunk@.subrange(0, i as int)) == done.push(cur@),
            strings_view(out@) == done.map_values(|p: Seq<u8>| lossy_of(p)),
        decreases chunk@.len() - i,
    {
        let ghost pre = chunk@.subrange(0, i as int);
        assert(chunk@.subrange(0, i + 1).drop_last() =~= pre);
        assert(chunk@.subrange(0, i + 1).last() == chunk@[i as int]);
        let c = chunk[i];
        if c == 10u8 {
            let ghost old_out = out@;
            let ghost old_done = done;
            let line = decode_lossy(cur.as_slice());
            out.push(line);
            proof {
                done = done.push(cur@);
            }
            assert(strings_view(out@) =~= strings_view(old_out).push(line@));
            assert(done.map_values(|p: Seq<u8>| lossy_of(p)) =~= old_done.map_values(|p: Seq<u8>| lossy_of(p)).push(lossy_of(cur@)));
            cur = Vec::new();
            assert(split_newlines(chunk@.subrange(0, i + 1)) =~= done.push(cur@));
        } else {
            cur.push(c);
            assert(split_newlines(chunk@.subrange(0, i + 1)) =~= done.push(cur@));
        }
        i = i + 1;
    }
    let ghost old_out = out@;
    let line = decode_lossy(cur.as_slice());
    out.push(line);
    assert(chunk@.subrange(0, chunk@.len() as int) =~= chunk@);
    assert(strings_view(out@) =~= strings_view(old_out).push(line@));
    assert(done.push(cur@).map_values(|p: Seq<u8>| lossy_of(p)) =~= done.map_values(|p: Seq<u8>| lossy_of(p)).push(lossy_of(cur@)));
    out
}

/// What one read of the response body gave.
pub enum ReadOutcome {
    /// Some bytes arrived.
    Chunk(Vec<u8>),
    /// The body ended.
    End,
    /// The read failed.
    Failed(ChatError),
}

/// The lines handed to the stream handler for a read, and whether to read again.
pub open spec fn read_lines_of(outcome: ReadOutcome) -> (Seq<LineView>, bool) {
    match outcome {
        ReadOutcome::Chunk(b) => (
            chunk_lines_of(b@).map_values(|l: Seq<char>| Ok::<Seq<char>, ErrorView>(l)),
            true,
        ),
        ReadOutcome::End => (seq![Ok(Seq::empty())], false),
        ReadOutcome::Failed(e) => (seq![Err(e@)], false),
    }
}

pub open spec fn lines_view(v: Seq<Result<String, ChatError>>) -> Seq<LineView> {
    v.map_values(|l: Result<String, ChatError>| line_view(l))
}

/// The lines to hand to the stream handler after a read: the lines of a chunk,
/// one empty line at the end of the body, or the read error once. Reading goes
/// on only after a chunk (and only while the handler asks for more).
pub fn read_lines(outcome: ReadOutcome) -> (r: (Vec<Result<String, ChatError>>, bool))
    ensures
        lines_view(r.0@) == read_lines_of(outcome).0,
        r.1 == read_lines_of(outcome).1,
{
    let mut out: Vec<Result<String, ChatError>> = Vec::new();
    match outcome {
        ReadOutcome::Chunk(b) => {
            let lines = chunk_lines(b.as_slice());
            let ghost target = chunk_lines_of(b@).map_values(|l: Seq<char>| Ok::<Seq<char>, ErrorView>(l));
            let mut i: usize = 0;
            while i < lines.len()
                invariant
                    i <= lines@.len(),
                    strings_view(lines@) == chunk_lines_of(b@),
                    target == chunk_lines_of(b@).map_values(|l: Seq<char>| Ok::<Seq<char>, ErrorView>(l)),
                    lines_view(out@) =~= target.subrange(0, i as int),
                decreases lines@.len() - i,
            {
                let ghost prev = out@;
                out.push(Ok(lines[i].clone()));
                assert(lines_view(out@) =~= lines_view(prev).push(target[i as int]));
                i = i + 1;
            }
            assert(target.subrange(0, lines@.len() as int) =~= target);
            (out, true)
        },
        ReadOutcome::End => {
            out.push(Ok(String::new()));
            assert(lines_view(out@) =~= seq![Ok::<Seq<char>, ErrorView>(Seq::empty())]);
            (out, false)
        },
        ReadOutcome::Failed(e) => {
            let ghost ev = e@;
            out.push(Err(e));
            assert(lines_view(out@) =~= seq![Err::<Seq<char>, ErrorView>(ev)]);
            (out, false)
        },
    }
}

} // verus!
