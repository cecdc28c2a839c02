//! The lines of a server-sent event stream. Chunks of text come in as the network cuts
//! them; whole lines come out.

use crate::text;
use vstd::prelude::*;
use vstd::string::*;

verus! {

/// A text cut into whole lines and what follows the last of them.
pub struct Framed {
    pub lines: Seq<Seq<char>>,
    pub rest: Seq<char>,
}

/// Cuts a text at its line feeds.
pub open spec fn framed(s: Seq<char>) -> Framed
    decreases s.len(),
{
    if s.len() == 0 {
        Framed { lines: Seq::empty(), rest: Seq::empty() }
    } else {
        let f = framed(s.drop_last());
        if s.last() == '\n' {
            Framed { lines: f.lines.push(f.rest), rest: Seq::empty() }
        } else {
            Framed { lines: f.lines, rest: f.rest.push(s.last()) }
        }
    }
}

/// What a line carries: the text behind `data: `. Lines that carry nothing, and the one
/// that ends the stream, count as none.
pub open spec fn payload_of(line: Seq<char>) -> Option<Seq<char>> {
    let t = text::trim_back(text::trim_front(line));
    if "data: "@.is_prefix_of(t) {
        let data = t.skip("data: "@.len() as int);
        if data.len() == 0 || data == "[DONE]"@ {
            None
        } else {
            Some(data)
        }
    } else {
        None
    }
}

/// What a list of lines carries.
pub open spec fn payloads(lines: Seq<Seq<char>>) -> Seq<Seq<char>>
    decreases lines.len(),
{
    if lines.len() == 0 {
        Seq::empty()
    } else {
        match payload_of(lines.last()) {
            Some(d) => payloads(lines.drop_last()).push(d),
            None => payloads(lines.drop_last()),
        }
    }
}

/// Cutting in two steps is cutting in one: what was left over goes before what comes.
pub proof fn lemma_framed_concat(a: Seq<char>, b: Seq<char>)
    ensures
        framed(a + b).lines == framed(a).lines + framed(framed(a).rest + b).lines,
        framed(a + b).rest == framed(framed(a).rest + b).rest,
    decreases b.len(),
{
    if b.len() == 0 {
        assert(a + b =~= a);
        assert(framed(a).rest + b =~= framed(a).rest);
        lemma_rest_has_no_line(a);
        lemma_no_line(framed(a).rest);
        assert(framed(a).lines + Seq::<Seq<char>>::empty() =~= framed(a).lines);
    } else {
        let c = b.drop_last();
        lemma_framed_concat(a, c);
        assert((a + b).drop_last() =~= a + c);
        assert((framed(a).rest + b).drop_last() =~= framed(a).rest + c);
        let inner = framed(framed(a).rest + c);
        if b.last() == '\n' {
            assert((framed(a).lines + inner.lines).push(inner.rest) =~= framed(a).lines
                + inner.lines.push(inner.rest));
        }
    }
}

proof fn lemma_rest_has_no_line(s: Seq<char>)
    ensures
        !framed(s).rest.contains('\n'),
    decreases s.len(),
{
    if s.len() > 0 {
        lemma_rest_has_no_line(s.drop_last());
        let r = framed(s.drop_last()).rest;
        if s.last() != '\n' && framed(s).rest.contains('\n') {
            let i = framed(s).rest.index_of('\n');
            assert(framed(s).rest[i] == '\n');
            if i < r.len() {
                assert(r[i] == '\n');
            }
        }
    }
}

proof fn lemma_no_line(s: Seq<char>)
    requires
        !s.contains('\n'),
    ensures
        framed(s).lines == Seq::<Seq<char>>::empty(),
        framed(s).rest == s,
    decreases s.len(),
{
    if s.len() > 0 {
        let t = s.drop_last();
        assert(!t.contains('\n')) by {
            if t.contains('\n') {
                let i = t.index_of('\n');
                assert(s[i] == '\n');
            }
        }
        lemma_no_line(t);
        assert(s[s.len() - 1] != '\n');
        assert(t.push(s.last()) =~= s);
    }
}

proof fn lemma_first_line(line: Seq<char>, rest: Seq<char>)
    requires
        !line.contains('\n'),
    ensures
        framed(line.push('\n') + rest).lines == seq![line] + framed(rest).lines,
        framed(line.push('\n') + rest).rest == framed(rest).rest,
{
    lemma_no_line(line);
    assert(line.push('\n').drop_last() =~= line);
    lemma_framed_concat(line.push('\n'), rest);
    assert(framed(line.push('\n')).lines =~= seq![line]);
    assert(framed(line.push('\n')).rest + rest =~= rest);
}

proof fn lemma_payloads_concat(a: Seq<Seq<char>>, b: Seq<Seq<char>>)
    ensures
        payloads(a + b) == payloads(a) + payloads(b),
    decreases b.len(),
{
    if b.len() == 0 {
        assert(a + b =~= a);
        assert(payloads(a) + Seq::<Seq<char>>::empty() =~= payloads(a));
    } else {
        lemma_payloads_concat(a, b.drop_last());
        assert((a + b).drop_last() =~= a + b.drop_last());
        match payload_of(b.last()) {
            Some(d) => {
                assert((payloads(a) + payloads(b.drop_last())).push(d) =~= payloads(a) + payloads(
                    b.drop_last(),
                ).push(d));
            },
            None => {},
        }
    }
}

fn payload(line: &str) -> (r: Option<&str>)
    ensures
        (match r {
            Some(d) => Some(d@),
            None => None,
        }) == payload_of(line@),
{
    proof {
        reveal_strlit("");
    }
    match text::strip_prefix(text::trim(line), "data: ") {
        Some(data) => {
            if text::str_eq(data, "") || text::str_eq(data, "[DONE]") {
                None
            } else {
                assert(data@.len() > 0) by {
                    if data@.len() == 0 {
                        assert(data@ =~= ""@);
                    }
                }
                Some(data)
            }
        },
        None => None,
    }
}

/// What has come of a line that is not whole yet.
#[derive(Debug)]
pub struct SseBuffer {
    buf: String,
}

impl View for SseBuffer {
    type V = Seq<char>;

    closed spec fn view(&self) -> Seq<char> {
        self.buf@
    }
}

impl SseBuffer {
    pub fn new() -> (r: Self)
        ensures
            r@ == Seq::<char>::empty(),
    {
        SseBuffer { buf: String::new() }
    }

    /// Takes in a chunk of text, and gives out what the lines that are whole now carry.
    pub fn push(&mut self, chunk: &str) -> (r: Vec<String>)
        ensures
            text::texts(r@) == payloads(framed(old(self)@ + chunk@).lines),
            final(self)@ == framed(old(self)@ + chunk@).rest,
    {
        let whole = text::cat(self.buf.as_str(), chunk);
        let ghost all = framed(whole@);
        let mut left: &str = whole.as_str();
        let mut out: Vec<String> = Vec::new();
        let ghost mut done: Seq<Seq<char>> = Seq::empty();
        assert(text::texts(out@) =~= Seq::<Seq<char>>::empty());
        assert(done + framed(left@).lines =~= all.lines);
        let mut next = text::split_line(left);
        while next.is_some()
            invariant
                next matches Some((line, rest)) ==> left@ == line@.push('\n') + rest@
                    && !line@.contains('\n'),
                next is None ==> !left@.contains('\n'),
                done + framed(left@).lines == all.lines,
                framed(left@).rest == all.rest,
                text::texts(out@) == payloads(done),
            decreases left@.len(),
        {
            let (line, rest) = next.unwrap();
            proof {
                lemma_first_line(line@, rest@);
                assert(done + (seq![line@] + framed(rest@).lines) =~= done.push(line@) + framed(
                    rest@,
                ).lines);
                assert(done.push(line@).drop_last() =~= done);
            }
            if let Some(data) = payload(line) {
                let ghost prior = out@;
                out.push(text::owned(data));
                assert(text::texts(out@) =~= text::texts(prior).push(data@));
            }
            proof {
                done = done.push(line@);
            }
            left = rest;
            next = text::split_line(left);
        }
        proof {
            lemma_no_line(left@);
            assert(done + Seq::<Seq<char>>::empty() =~= done);
        }
        self.buf = text::owned(left);
        out
    }

    /// Takes in a chunk of bytes as the network gives it. Bytes that are no UTF-8 are
    /// replaced, chunk by chunk.
    pub fn push_bytes(&mut self, chunk: &[u8]) -> (r: Vec<String>)
        ensures
            text::texts(r@) == payloads(framed(old(self)@ + text::utf8_lossy(chunk@)).lines),
            final(self)@ == framed(old(self)@ + text::utf8_lossy(chunk@)).rest,
            vstd::utf8::valid_utf8(chunk@) ==> text::utf8_lossy(chunk@) == vstd::utf8::decode_utf8(
                chunk@,
            ),
    {
        let decoded = text::from_utf8_lossy(chunk);
        self.push(decoded.as_str())
    }
}

impl Default for SseBuffer {
    fn default() -> (r: Self)
        ensures
            r@ == Seq::<char>::empty(),
    {
        SseBuffer::new()
    }
}

/// How the network cuts a stream makes no difference: two chunks carry what one chunk
/// with the text of both carries, and leave the same over.
pub proof fn law_chunks_do_not_matter(held: Seq<char>, a: Seq<char>, b: Seq<char>)
    ensures
        ({
            let first = framed(held + a);
            let second = framed(first.rest + b);
            let both = framed(held + (a + b));
            payloads(first.lines) + payloads(second.lines) == payloads(both.lines) && second.rest
                == both.rest
        }),
{
    lemma_framed_concat(held + a, b);
    assert(held + (a + b) =~= (held + a) + b);
    lemma_payloads_concat(framed(held + a).lines, framed(framed(held + a).rest + b).lines);
}

/// Lines put together again, each with its line feed.
pub open spec fn rejoined(lines: Seq<Seq<char>>) -> Seq<char>
    decreases lines.len(),
{
    if lines.len() == 0 {
        Seq::empty()
    } else {
        rejoined(lines.drop_last()) + lines.last() + seq!['\n']
    }
}

/// Nothing of a stream is lost or made up: the whole lines, put together again, and what is
/// left over are the text that came, and neither a line nor the rest has a line feed in it.
pub proof fn law_lines_are_the_text(s: Seq<char>)
    ensures
        rejoined(framed(s).lines) + framed(s).rest == s,
        forall|i: int|
            0 <= i < framed(s).lines.len() ==> !(#[trigger] framed(s).lines[i]).contains('\n'),
        !framed(s).rest.contains('\n'),
    decreases s.len(),
{
    lemma_rest_has_no_line(s);
    if s.len() > 0 {
        let t = s.drop_last();
        law_lines_are_the_text(t);
        let f = framed(t);
        assert(s =~= t.push(s.last()));
        if s.last() == '\n' {
            assert(framed(s).lines.drop_last() =~= f.lines);
            assert(rejoined(framed(s).lines) + framed(s).rest =~= s);
        } else {
            assert(rejoined(framed(s).lines) + framed(s).rest =~= s);
        }
    } else {
        assert(rejoined(framed(s).lines) + framed(s).rest =~= s);
    }
}

/// A line carries the text behind `data: `, without white space around it, and only that;
/// the line that ends the stream and one without any text carry nothing.
pub proof fn law_data_lines_carry_their_text(line: Seq<char>, data: Seq<char>)
    ensures
        payload_of(line) == Some(data) <==> text::trim_back(text::trim_front(line)) == "data: "@
            + data && data.len() > 0 && data != "[DONE]"@,
{
    let t = text::trim_back(text::trim_front(line));
    let head = "data: "@;
    if t == head + data {
        assert(head.is_prefix_of(t)) by {
            assert(t.take(head.len() as int) =~= head);
        }
        assert(t.skip(head.len() as int) =~= data);
    }
    if payload_of(line) == Some(data) {
        assert(t =~= head + t.skip(head.len() as int));
    }
}

/// Lines are read one after the other: one more line adds what it carries at the end.
pub proof fn law_lines_are_read_in_order(lines: Seq<Seq<char>>, line: Seq<char>)
    ensures
        payloads(Seq::<Seq<char>>::empty()).len() == 0,
        payload_of(line) matches Some(d) ==> payloads(lines.push(line)) == payloads(lines).push(d),
        payload_of(line) is None ==> payloads(lines.push(line)) == payloads(lines),
{
    assert(lines.push(line).drop_last() =~= lines);
}

} // verus!
