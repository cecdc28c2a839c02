//! Short previews of tool outputs.

use crate::json;
use crate::protocol::tool::{OutputView, ToolOutput};
use crate::text;
use vstd::prelude::*;
use vstd::utf8::*;

verus! {

/// How many bytes of an output a preview shows at most.
pub const PREVIEW_BYTES: usize = 200;

/// Whether a text can be cut for a preview: it is short enough as it is, or a
/// character begins where the cut is.
pub open spec fn can_cut(s: Seq<char>) -> bool {
    text::byte_len(s) > PREVIEW_BYTES ==> is_char_boundary(encode_utf8(s), PREVIEW_BYTES as int)
}

/// The preview of a text: the text itself, or what its first bytes say and three dots.
pub open spec fn preview(s: Seq<char>) -> Seq<char> {
    if text::byte_len(s) > PREVIEW_BYTES {
        decode_utf8(encode_utf8(s).take(PREVIEW_BYTES as int)) + "..."@
    } else {
        s
    }
}

/// The text of an output that its preview is made of, if it has one.
pub open spec fn output_text(o: OutputView) -> Option<Seq<char>> {
    match o {
        OutputView::Function { body, .. } => body,
        OutputView::Mcp { result } => Some(result),
    }
}

/// The preview of an output; an output without a body is shown as `ok`.
pub open spec fn output_preview(o: OutputView) -> Seq<char> {
    match output_text(o) {
        Some(t) => preview(t),
        None => "ok"@,
    }
}

/// Whether the preview of an output can be made.
pub open spec fn has_preview(o: OutputView) -> bool {
    output_text(o) matches Some(t) ==> can_cut(t)
}

/// Cuts a text for a preview.
pub fn preview_text(s: &str) -> (r: String)
    requires
        can_cut(s@),
    ensures
        r@ == preview(s@),
{
    let n: usize = text::byte_count(s);
    if n > PREVIEW_BYTES {
        let (head, tail) = s.split_at(PREVIEW_BYTES);
        proof {
            encode_utf8_decode_utf8(head@);
            assert(encode_utf8(s@).take(PREVIEW_BYTES as int) =~= encode_utf8(s@).subrange(
                0,
                PREVIEW_BYTES as int,
            ));
        }
        text::cat(head, "...")
    } else {
        text::owned(s)
    }
}

/// Cuts a text for a preview where that can be done.
pub fn try_preview_text(s: &str) -> (r: Option<String>)
    ensures
        match r {
            Some(p) => can_cut(s@) && p@ == preview(s@),
            None => !can_cut(s@),
        },
{
    let n: usize = text::byte_count(s);
    if n <= PREVIEW_BYTES || s.is_char_boundary(PREVIEW_BYTES) {
        Some(preview_text(s))
    } else {
        None
    }
}

/// The preview of a tool output.
pub fn tool_output_preview(output: &ToolOutput) -> (r: String)
    requires
        has_preview(output@),
    ensures
        r@ == output_preview(output@),
{
    match output {
        ToolOutput::Function { body, .. } => match body {
            Some(v) => {
                let s = json::render(v);
                preview_text(s.as_str())
            },
            None => text::owned("ok"),
        },
        ToolOutput::Mcp { result } => {
            let s = json::render(result);
            preview_text(s.as_str())
        },
    }
}

/// The preview of a tool output where it can be made.
pub fn try_tool_output_preview(output: &ToolOutput) -> (r: Option<String>)
    ensures
        match r {
            Some(p) => has_preview(output@) && p@ == output_preview(output@),
            None => !has_preview(output@),
        },
{
    let ok: bool = match output {
        ToolOutput::Function { body, .. } => match body {
            Some(v) => {
                let s = json::render(v);
                try_preview_text(s.as_str()).is_some()
            },
            None => true,
        },
        ToolOutput::Mcp { result } => {
            let s = json::render(result);
            try_preview_text(s.as_str()).is_some()
        },
    };
    if ok {
        Some(tool_output_preview(output))
    } else {
        None
    }
}

proof fn lemma_encode_add(a: Seq<char>, b: Seq<char>)
    ensures
        encode_utf8(a + b) == encode_utf8(a) + encode_utf8(b),
    decreases a.len(),
{
    if a.len() == 0 {
        assert(a + b =~= b);
        assert(encode_utf8(a) + encode_utf8(b) =~= encode_utf8(b));
    } else {
        lemma_encode_add(a.drop_first(), b);
        assert((a + b).drop_first() =~= a.drop_first() + b);
        assert((a + b)[0] == a[0]);
        assert(encode_utf8(a + b) =~= encode_utf8(a) + encode_utf8(b));
    }
}

proof fn lemma_encode_some(a: Seq<char>)
    requires
        a.len() > 0,
    ensures
        encode_utf8(a).len() > 0,
{
    encode_utf8_first_scalar(a);
}

/// A text of up to 200 bytes is shown as it is. Of a longer one its beginning is shown, which
/// takes up 200 bytes, and three dots.
pub proof fn law_short_texts_are_shown_whole(s: Seq<char>, head: Seq<char>, tail: Seq<char>)
    ensures
        encode_utf8(s).len() <= 200 ==> preview(s) == s,
        s == head + tail && encode_utf8(head).len() == 200 && tail.len() > 0 ==> preview(s) == head
            + "..."@,
{
    if s == head + tail && encode_utf8(head).len() == 200 && tail.len() > 0 {
        lemma_encode_add(head, tail);
        lemma_encode_some(tail);
        assert(encode_utf8(s).take(200) =~= encode_utf8(head));
        encode_utf8_decode_utf8(head);
    }
}

/// What is shown of an output is what the tool returned: the body of a function, or the
/// result that a server gave. A function without a body is shown as `ok`. Whether it
/// succeeded makes no difference.
pub proof fn law_output_is_shown(body: Seq<char>, success: bool)
    ensures
        output_preview(OutputView::Function { body: Some(body), success }) == preview(body),
        output_preview(OutputView::Function { body: None, success }) == "ok"@,
        output_preview(OutputView::Mcp { result: body }) == preview(body),
        encode_utf8(body).len() <= 200 ==> output_preview(
            OutputView::Function { body: Some(body), success },
        ) == body && output_preview(OutputView::Mcp { result: body }) == body,
        has_preview(OutputView::Function { body: None, success }),
        encode_utf8(body).len() <= 200 ==> has_preview(
            OutputView::Function { body: Some(body), success },
        ) && has_preview(OutputView::Mcp { result: body }),
{
}

} // verus!
