//! Building the injected metadata literal.
//!
//! The metadata is a fresh object literal with short, stable keys: `F` a
//! reference to the module's filename binding (when one exists), `L` the
//! 1-based line of the call (0 when unresolvable), `S` the enclosing
//! receiver, `C` a two-parameter forwarding closure that only packages a
//! deferred call, and `A` the raw text of each originally supplied argument.
//! A key is absent exactly when its feature is not configured for the rule.

use vstd::prelude::*;

use crate::ast::{arg_view, args_view, expr_view, lemma_args_view_index, lemma_props_view_index,
    props_view, Arg, ArgV, Callee, CalleeV, Expr, ExprV, Ident, IdentV, Prop, PropV, Span};
use crate::config::{TransformSpec, TransformSpecV};
use crate::source::{snippet_text, ModuleSource};

verus! {

/// The view of an optional identifier.
pub open spec fn opt_ident_view(o: Option<Ident>) -> Option<IdentV> {
    match o {
        Some(i) => Some(i@),
        None => None,
    }
}

/// The inert placeholder written at padded argument positions: `void 0`.
pub open spec fn placeholder_arg_v() -> ArgV {
    ArgV { spread: false, expr: ExprV::VoidZero, span: Span::spec_dummy() }
}

/// An inert placeholder argument.
pub fn placeholder_arg() -> (a: Arg)
    ensures
        arg_view(a) == placeholder_arg_v(),
{
    Arg { spread: false, expr: Expr::VoidZero, span: Span::dummy() }
}

/// The forwarder's first parameter, the function to re-invoke.
pub open spec fn forwarder_fn_param() -> IdentV {
    IdentV { sym: "f"@, ctxt: 0 }
}

/// The forwarder's second parameter, the argument list to re-invoke with.
pub open spec fn forwarder_args_param() -> IdentV {
    IdentV { sym: "a"@, ctxt: 0 }
}

/// The call-site forwarder, `(f, a) => f(...a)`: it invokes nothing itself,
/// it only packages one deferred call.
pub open spec fn forwarder_v() -> ExprV {
    ExprV::Arrow {
        params: seq![forwarder_fn_param(), forwarder_args_param()],
        body: Box::new(
            ExprV::Call {
                callee: CalleeV::Expr(Box::new(ExprV::Ident(forwarder_fn_param()))),
                args: seq![
                    ArgV {
                        spread: true,
                        expr: ExprV::Ident(forwarder_args_param()),
                        span: Span::spec_dummy(),
                    },
                ],
                span: Span::spec_dummy(),
            },
        ),
    }
}

/// Builds the call-site forwarder `(f, a) => f(...a)`.
pub fn create_call_site_arrow() -> (e: Expr)
    ensures
        expr_view(e) == forwarder_v(),
{
    let id_fn = Ident { sym: "f".to_owned(), ctxt: 0 };
    let id_args = Ident { sym: "a".to_owned(), ctxt: 0 };
    proof {
        assert(id_fn@ == forwarder_fn_param());
        assert(id_args@ == forwarder_args_param());
    }
    let spread = Arg { spread: true, expr: Expr::Ident(id_args.duplicate()), span: Span::dummy() };
    proof {
        assert(arg_view(spread) == forwarder_v()->Arrow_body->Call_args[0]);
    }
    let mut call_args: Vec<Arg> = Vec::new();
    call_args.push(spread);
    proof {
        lemma_args_view_index(call_args@);
        assert(args_view(call_args@) =~= forwarder_v()->Arrow_body->Call_args);
    }
    let body = Expr::Call {
        callee: Callee::Expr(Box::new(Expr::Ident(id_fn.duplicate()))),
        args: call_args,
        span: Span::dummy(),
    };
    proof {
        reveal_with_fuel(expr_view, 4);
        assert(expr_view(body) == *forwarder_v()->Arrow_body);
    }
    let mut params: Vec<Ident> = Vec::new();
    params.push(id_fn);
    params.push(id_args);
    let arrow = Expr::Arrow { params, body: Box::new(body) };
    proof {
        assert(Seq::new(arrow->Arrow_params@.len(), |i: int| arrow->Arrow_params@[i]@)
            =~= forwarder_v()->Arrow_params);
    }
    arrow
}

/// The argument-text members of the `A` array: one string literal per
/// originally supplied argument, holding the raw source text its span
/// covers, the empty string where that text cannot be recovered.
pub open spec fn snippet_args_v(src: Seq<char>, args: Seq<ArgV>) -> Seq<ArgV> {
    Seq::new(
        args.len(),
        |i: int| ArgV {
            spread: false,
            expr: ExprV::StrLit(snippet_text(src, args[i].span)),
            span: Span::spec_dummy(),
        },
    )
}

/// Builds the elements of the `A` array from the given argument list.
pub fn snippet_args(source: &ModuleSource, args: &Vec<Arg>) -> (r: Vec<Arg>)
    ensures
        args_view(r@) == snippet_args_v(source.text@, args_view(args@)),
{
    let ghost goal = snippet_args_v(source.text@, args_view(args@));
    proof {
        lemma_args_view_index(args@);
    }
    let mut r: Vec<Arg> = Vec::new();
    let mut i: usize = 0;
    while i < args.len()
        invariant
            i <= args@.len(),
            goal == snippet_args_v(source.text@, args_view(args@)),
            goal.len() == args@.len(),
            forall|j: int| 0 <= j < args@.len() ==> goal[j] == (ArgV {
                spread: false,
                expr: ExprV::StrLit(snippet_text(source.text@, args@[j].span)),
                span: Span::spec_dummy(),
            }),
            r@.len() == i,
            forall|j: int| 0 <= j < i ==> arg_view(r@[j]) == goal[j],
        decreases args@.len() - i,
    {
        let text = source.snippet(&args[i].span);
        r.push(Arg { spread: false, expr: Expr::StrLit(text), span: Span::dummy() });
        i = i + 1;
    }
    proof {
        lemma_args_view_index(r@);
        assert(args_view(r@) =~= goal);
    }
    r
}

/// The members of the metadata object, in their fixed order: `F` when the
/// preamble binding exists, `L` always, then `S`, `C` and `A` as the rule
/// asks for them.
pub open spec fn meta_props_v(
    rule: TransformSpecV,
    filename_id: Option<IdentV>,
    line: u64,
    src: Seq<char>,
    args: Seq<ArgV>,
) -> Seq<PropV> {
    (match filename_id {
        Some(f) => seq![PropV { key: "F"@, value: ExprV::Ident(f) }],
        None => Seq::empty(),
    }) + seq![PropV { key: "L"@, value: ExprV::NumLit(line) }] + (if rule.include_scope {
        seq![PropV { key: "S"@, value: ExprV::This }]
    } else {
        Seq::empty()
    }) + (if rule.include_call_site {
        seq![PropV { key: "C"@, value: forwarder_v() }]
    } else {
        Seq::empty()
    }) + (if rule.include_args {
        seq![PropV { key: "A"@, value: ExprV::Array(snippet_args_v(src, args)) }]
    } else {
        Seq::empty()
    })
}

/// Builds the members of the metadata object for one call: `line` is the
/// call's resolved line and `args` the originally supplied arguments, whose
/// raw text the `A` member captures.
pub fn create_meta_props(
    rule: &TransformSpec,
    filename_id: &Option<Ident>,
    line: u64,
    source: &ModuleSource,
    args: &Vec<Arg>,
) -> (props: Vec<Prop>)
    ensures
        props_view(props@) == meta_props_v(
            rule@,
            opt_ident_view(*filename_id),
            line,
            source.text@,
            args_view(args@),
        ),
{
    let ghost goal = meta_props_v(
        rule@,
        opt_ident_view(*filename_id),
        line,
        source.text@,
        args_view(args@),
    );
    let mut props: Vec<Prop> = Vec::new();
    match filename_id {
        Some(f) => {
            props.push(Prop { key: "F".to_owned(), value: Expr::Ident(f.duplicate()) });
        },
        None => {},
    }
    props.push(Prop { key: "L".to_owned(), value: Expr::NumLit(line) });
    if rule.include_scope {
        props.push(Prop { key: "S".to_owned(), value: Expr::This });
    }
    if rule.include_call_site {
        let arrow = create_call_site_arrow();
        props.push(Prop { key: "C".to_owned(), value: arrow });
    }
    if rule.include_args {
        let elems = snippet_args(source, args);
        props.push(Prop { key: "A".to_owned(), value: Expr::Array(elems) });
    }
    proof {
        lemma_props_view_index(props@);
        assert(props_view(props@) =~= goal);
    }
    props
}

} // verus!
