//! The argument padding and injection engine.
//!
//! Run once per matched call. When the caller already supplied an argument
//! at the rule's position, the list is left exactly as written — the
//! override escape hatch, a purely positional check that reads no values.
//! Otherwise inert placeholders fill the missing positions and the metadata
//! object is appended, so it lands exactly at the configured position.

use vstd::prelude::*;

use crate::ast::{arg_view, args_view, lemma_args_view_index, Arg, ArgV, Expr, ExprV, Ident,
    IdentV, Span};
use crate::config::{TransformSpec, TransformSpecV};
use crate::meta::{create_meta_props, meta_props_v, opt_ident_view, placeholder_arg,
    placeholder_arg_v};
use crate::source::{span_line, ModuleSource};

verus! {

/// The argument list extended with placeholders up to the rule's position
/// (unchanged when it already reaches it).
pub open spec fn padded_args_v(args: Seq<ArgV>, param_index: usize) -> Seq<ArgV> {
    if args.len() >= param_index {
        args
    } else {
        args + Seq::new((param_index - args.len()) as nat, |i: int| placeholder_arg_v())
    }
}

/// The metadata argument for one call: a fresh object literal, at a
/// synthesized position; `args` are the originally supplied arguments.
pub open spec fn meta_arg_v(
    rule: TransformSpecV,
    filename_id: Option<IdentV>,
    line: u64,
    src: Seq<char>,
    args: Seq<ArgV>,
) -> ArgV {
    ArgV {
        spread: false,
        expr: ExprV::Object(meta_props_v(rule, filename_id, line, src, args)),
        span: Span::spec_dummy(),
    }
}

/// What one matched call's argument list becomes: untouched when a caller-
/// supplied argument already sits at the rule's position, else padded and
/// with the metadata appended at exactly that position.
pub open spec fn inject_args_v(
    rule: TransformSpecV,
    filename_id: Option<IdentV>,
    starts: Seq<u32>,
    src: Seq<char>,
    span: Span,
    args: Seq<ArgV>,
) -> Seq<ArgV> {
    if rule.param_index < args.len() {
        args
    } else {
        padded_args_v(args, rule.param_index).push(
            meta_arg_v(rule, filename_id, span_line(starts, span) as u64, src, args),
        )
    }
}

/// Appending an argument extends the views by that argument's view.
pub proof fn lemma_args_view_push(s: Seq<Arg>, a: Arg)
    ensures
        args_view(s.push(a)) == args_view(s).push(arg_view(a)),
{
    assert(s.push(a).drop_last() =~= s);
    assert(args_view(s.push(a)) == args_view(s).push(arg_view(a)));
}

/// Pads a matched call's argument list and appends the metadata argument,
/// or leaves the list untouched when the caller already supplied one at the
/// rule's position.
pub fn add_meta_to_params(
    filename_id: &Option<Ident>,
    source: &ModuleSource,
    transform_spec: &TransformSpec,
    args: &mut Vec<Arg>,
    span: &Span,
)
    ensures
        args_view(final(args)@) == inject_args_v(
            transform_spec@,
            opt_ident_view(*filename_id),
            source.line_starts@,
            source.text@,
            *span,
            args_view(old(args)@),
        ),
{
    if transform_spec.param_index < args.len() {
        // The argument was provided manually: the override suppresses
        // injection, whatever the value there is.
        proof {
            lemma_args_view_index(args@);
        }
        return ;
    }
    let ghost orig = args_view(old(args)@);
    proof {
        lemma_args_view_index(args@);
    }
    let line = source.line_of_span(span);
    let props = create_meta_props(transform_spec, filename_id, line, source, args);
    let meta = Arg { spread: false, expr: Expr::Object(props), span: Span::dummy() };
    proof {
        assert(arg_view(meta) == meta_arg_v(
            transform_spec@,
            opt_ident_view(*filename_id),
            line,
            source.text@,
            orig,
        ));
        assert(line == span_line(source.line_starts@, *span) as u64);
    }
    while args.len() < transform_spec.param_index
        invariant
            orig.len() <= args@.len() <= transform_spec.param_index,
            args_view(args@).len() == args@.len(),
            orig.len() <= args@.len(),
            forall|j: int| 0 <= j < orig.len() ==> args_view(args@)[j] == orig[j],
            forall|j: int|
                orig.len() <= j < args@.len() ==> args_view(args@)[j] == placeholder_arg_v(),
        decreases transform_spec.param_index - args@.len(),
    {
        let ghost before = args@;
        let p = placeholder_arg();
        args.push(p);
        proof {
            lemma_args_view_push(before, p);
            lemma_args_view_index(args@);
        }
    }
    let ghost padded = args@;
    args.push(meta);
    proof {
        lemma_args_view_push(padded, meta);
        assert(args_view(padded) =~= padded_args_v(orig, transform_spec.param_index));
    }
}

} // verus!
