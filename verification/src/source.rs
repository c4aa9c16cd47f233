//! Positions in the module's source text.
//!
//! The pass receives, for the one module it rewrites, the raw source text
//! and the table of line-start offsets. From these it resolves a span's
//! 1-based line number (0 when no line mapping covers the position) and the
//! raw text of a span (the empty string when the span does not lie inside
//! the source).

use vstd::prelude::*;

use crate::ast::Span;

verus! {

/// The source text of one module and its line-offset table.
///
/// `line_starts[i]` is the character offset at which line `i + 1` begins;
/// the offsets are expected in increasing order, as a line table has them.
#[derive(Debug)]
pub struct ModuleSource {
    pub line_starts: Vec<u32>,
    pub text: String,
}

/// The 1-based number of the last line whose start lies at or before `pos`,
/// or 0 when no line start does (the position has no line mapping).
pub open spec fn line_number(starts: Seq<u32>, pos: u32) -> nat
    decreases starts,
{
    if starts.len() == 0 {
        0
    } else if starts.last() <= pos {
        starts.len()
    } else {
        line_number(starts.drop_last(), pos)
    }
}

/// The line a span is reported at: the line of its start, or 0 for the
/// dummy span of a synthesized node, which has no source position.
pub open spec fn span_line(starts: Seq<u32>, sp: Span) -> nat {
    if sp.is_dummy() {
        0
    } else {
        line_number(starts, sp.lo)
    }
}

/// The raw text a span covers, or the empty sequence when the span does not
/// lie inside the source text.
pub open spec fn snippet_text(src: Seq<char>, sp: Span) -> Seq<char> {
    if sp.lo <= sp.hi && sp.hi <= src.len() {
        src.subrange(sp.lo as int, sp.hi as int)
    } else {
        Seq::empty()
    }
}

impl ModuleSource {
    /// Resolves the 1-based line number of a position, 0 when the table
    /// holds no line start at or before it.
    pub fn line_of_pos(&self, pos: u32) -> (n: u64)
        ensures
            n == line_number(self.line_starts@, pos),
    {
        let ghost starts = self.line_starts@;
        let mut i: usize = self.line_starts.len();
        proof {
            assert(starts.take(i as int) =~= starts);
        }
        while i > 0
            invariant
                i <= self.line_starts@.len(),
                self.line_starts@ == starts,
                line_number(starts, pos) == line_number(starts.take(i as int), pos),
            decreases i,
        {
            if self.line_starts[i - 1] <= pos {
                proof {
                    assert(starts.take(i as int).last() == starts[i as int - 1]);
                }
                return i as u64;
            }
            proof {
                assert(starts.take(i as int).drop_last() =~= starts.take(i as int - 1));
            }
            i = i - 1;
        }
        proof {
            assert(starts.take(0) =~= Seq::<u32>::empty());
        }
        0
    }

    /// Resolves the line a span is reported at: 0 for a dummy span or an
    /// unmapped position, per the recovery rule for failed lookups.
    pub fn line_of_span(&self, sp: &Span) -> (n: u64)
        ensures
            n == span_line(self.line_starts@, *sp),
    {
        if sp.lo == 0 && sp.hi == 0 {
            0
        } else {
            self.line_of_pos(sp.lo)
        }
    }

    /// The raw source text a span covers; the empty string when the span
    /// cannot be resolved, per the recovery rule for failed snippets.
    pub fn snippet(&self, sp: &Span) -> (r: String)
        ensures
            r@ == snippet_text(self.text@, *sp),
    {
        let n = self.text.as_str().unicode_len();
        if sp.lo <= sp.hi && (sp.hi as usize) <= n {
            self.text.as_str().substring_char(sp.lo as usize, sp.hi as usize).to_owned()
        } else {
            String::new()
        }
    }
}

} // verus!
