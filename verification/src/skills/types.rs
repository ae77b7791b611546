//! The result of a skill tool call.

use vstd::prelude::*;
use crate::text::{owned, push_str};

verus! {

/// `serde_json::Value`, carried through tool results as it is.
#[verifier::external_type_specification]
#[verifier::external_body]
pub struct ExJsonValue(serde_json::Value);

/// One piece of a tool's output.
#[derive(Debug)]
pub enum ToolContent {
    Text { text: String },
    Json { data: serde_json::Value },
}

/// The output of a tool call.
#[derive(Debug)]
pub struct ToolResult {
    pub content: Vec<ToolContent>,
    pub is_error: bool,
}

/// The pretty-printed JSON text of a value, as `serde_json` renders it.
pub uninterp spec fn json_pretty(v: serde_json::Value) -> Seq<char>;

/// `serde_json::to_string_pretty`, with an empty string when it fails (as
/// `unwrap_or_default` gives). The contract names the text that the call
/// returns for the value; what serde_json renders is not restated.
#[verifier::external_body]
fn pretty_json(v: &serde_json::Value) -> (s: String)
    ensures
        s@ == json_pretty(*v),
{
    serde_json::to_string_pretty(v).unwrap_or_default()
}

/// `parts` joined with `\n` between them.
pub open spec fn join_lines(parts: Seq<Seq<char>>) -> Seq<char>
    decreases parts.len(),
{
    if parts.len() == 0 {
        Seq::empty()
    } else if parts.len() == 1 {
        parts[0]
    } else {
        join_lines(parts.drop_last()) + "\n"@ + parts.last()
    }
}

/// The text pieces of `content`, in order.
pub open spec fn text_parts(content: Seq<ToolContent>) -> Seq<Seq<char>>
    decreases content.len(),
{
    if content.len() == 0 {
        Seq::empty()
    } else {
        let rest = text_parts(content.drop_last());
        match content.last() {
            ToolContent::Text { text } => rest.push(text@),
            ToolContent::Json { .. } => rest,
        }
    }
}

/// Every piece of `content` as text: text as it is, JSON pretty-printed.
pub open spec fn output_parts(content: Seq<ToolContent>) -> Seq<Seq<char>> {
    content.map_values(
        |c: ToolContent|
            match c {
                ToolContent::Text { text } => text@,
                ToolContent::Json { data } => json_pretty(data),
            },
    )
}

/// Append `part` to the join of the parts so far.
fn append_part(acc: &mut String, first: bool, part: &str)
    ensures
        final(acc)@ == if first {
            old(acc)@ + part@
        } else {
            old(acc)@ + "\n"@ + part@
        },
{
    if !first {
        push_str(acc, "\n");
    }
    push_str(acc, part);
}

impl ToolResult {
    /// A successful result with one text piece.
    pub fn success(text: String) -> (r: Self)
        ensures
            !r.is_error,
            r.content@.len() == 1,
            r.content@[0] matches ToolContent::Text { text: t } && t@ == text@,
    {
        Self { content: vec![ToolContent::Text { text }], is_error: false }
    }

    /// A failed result with one text piece.
    pub fn error(message: String) -> (r: Self)
        ensures
            r.is_error,
            r.content@.len() == 1,
            r.content@[0] matches ToolContent::Text { text: t } && t@ == message@,
    {
        Self { content: vec![ToolContent::Text { text: message }], is_error: true }
    }

    /// A successful result with one JSON piece.
    pub fn json(data: serde_json::Value) -> (r: Self)
        ensures
            !r.is_error,
            r.content@.len() == 1,
            r.content@[0] matches ToolContent::Json { data: d } && d == data,
    {
        Self { content: vec![ToolContent::Json { data }], is_error: false }
    }

    /// The text pieces, joined with newlines; JSON pieces are left out.
    pub fn text(&self) -> (s: String)
        ensures
            s@ == join_lines(text_parts(self.content@)),
    {
        let mut out = String::new();
        let mut n: usize = 0;
        let mut i: usize = 0;
        while i < self.content.len()
            invariant
                i <= self.content@.len(),
                n == text_parts(self.content@.subrange(0, i as int)).len(),
                out@ == join_lines(text_parts(self.content@.subrange(0, i as int))),
            decreases self.content@.len() - i,
        {
            assert(self.content@.subrange(0, i as int) =~= self.content@.subrange(0, i + 1).drop_last());
            match &self.content[i] {
                ToolContent::Text { text } => {
                    let ghost parts = text_parts(self.content@.subrange(0, i as int));
                    append_part(&mut out, n == 0, text.as_str());
                    assert(text_parts(self.content@.subrange(0, i + 1)) == parts.push(text@));
                    assert(parts.push(text@).drop_last() =~= parts);
                    proof {
                        lemma_text_parts_len(self.content@.subrange(0, i as int));
                    }
                    n = n + 1;
                },
                ToolContent::Json { .. } => {},
            }
            i = i + 1;
        }
        assert(self.content@.subrange(0, self.content@.len() as int) =~= self.content@);
        out
    }

    /// Every piece as text (JSON pretty-printed), joined with newlines.
    pub fn output(&self) -> (s: String)
        ensures
            s@ == join_lines(output_parts(self.content@)),
    {
        let mut out = String::new();
        let mut i: usize = 0;
        while i < self.content.len()
            invariant
                i <= self.content@.len(),
                out@ == join_lines(output_parts(self.content@.subrange(0, i as int))),
            decreases self.content@.len() - i,
        {
            let ghost parts = output_parts(self.content@.subrange(0, i as int));
            let piece = match &self.content[i] {
                ToolContent::Text { text } => text.clone(),
                ToolContent::Json { data } => pretty_json(data),
            };
            append_part(&mut out, i == 0, piece.as_str());
            assert(output_parts(self.content@.subrange(0, i + 1)) =~= parts.push(piece@));
            assert(parts.push(piece@).drop_last() =~= parts);
            i = i + 1;
        }
        assert(self.content@.subrange(0, self.content@.len() as int) =~= self.content@);
        out
    }
}

/// `text_parts` never has more pieces than the content.
proof fn lemma_text_parts_len(content: Seq<ToolContent>)
    ensures
        text_parts(content).len() <= content.len(),
    decreases content.len(),
{
    if content.len() > 0 {
        lemma_text_parts_len(content.drop_last());
    }
}

} // verus!
