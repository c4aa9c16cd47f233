//! The guarantees the pass gives, stated and proved once and for all.
//!
//! Each proof function here states one law of the rewrite over the
//! specification functions the executable code is verified against, so the
//! laws hold of every module the pass processes.

use vstd::prelude::*;

use crate::ast::{ArgV, ExprV, IdentV, ImportSpecifierV, MemberPropV, ModuleExportNameV, PropV,
    Span, StmtV, JsModuleV};
use crate::binding::{import_bindings, specifier_binding, BindingV};
use crate::config::{find_rule, ConfigV, TransformSpecV};
use crate::inject::{inject_args_v, meta_arg_v};
use crate::matcher::{callee_rule, expr_rule};
use crate::meta::{meta_props_v, placeholder_arg_v};
use crate::source::span_line;
use crate::visitor::{chosen_filename, preamble_ident_v, preamble_stmt_v, rewrite_args_v,
    rewrite_callee_v, rewrite_expr_v, rewrite_stmt_v, table_after_stmts, transform_module_v,
    with_table, RewriteEnv, lemma_rewrite_stmts_v_index};

verus! {

/// Override precedence: when the caller already supplies an argument at the
/// rule's position, injection leaves the argument list exactly as it was,
/// however many arguments were supplied and whatever sits at that slot.
pub proof fn lemma_override_precedence(
    rule: TransformSpecV,
    filename_id: Option<IdentV>,
    starts: Seq<u32>,
    src: Seq<char>,
    span: Span,
    args: Seq<ArgV>,
)
    requires
        rule.param_index < args.len(),
    ensures
        inject_args_v(rule, filename_id, starts, src, span, args) == args,
{
}

/// Padding correctness: a tracked call with fewer arguments than the rule's
/// position comes out with exactly one more argument than that position,
/// the original arguments unchanged at their original places, placeholders
/// filling the gap, and the metadata at the configured position.
pub proof fn lemma_padding_correctness(
    rule: TransformSpecV,
    filename_id: Option<IdentV>,
    starts: Seq<u32>,
    src: Seq<char>,
    span: Span,
    args: Seq<ArgV>,
)
    requires
        args.len() < rule.param_index,
    ensures
        inject_args_v(rule, filename_id, starts, src, span, args).len() == rule.param_index + 1,
        forall|i: int| 0 <= i < args.len() ==> inject_args_v(
            rule,
            filename_id,
            starts,
            src,
            span,
            args,
        )[i] == args[i],
        forall|i: int| args.len() <= i < rule.param_index ==> inject_args_v(
            rule,
            filename_id,
            starts,
            src,
            span,
            args,
        )[i] == placeholder_arg_v(),
        inject_args_v(rule, filename_id, starts, src, span, args)[rule.param_index as int]
            == meta_arg_v(
            rule,
            filename_id,
            span_line(starts, span) as u64,
            src,
            args,
        ),
{
}

/// Aliasing correctness, registration half: a renaming clause
/// `import { X as Y }` registers the very rule the plain clause
/// `import { X }` registers, only under the local identity `Y`.
pub proof fn lemma_aliasing_correctness(
    rules: Seq<TransformSpecV>,
    src: Seq<char>,
    x: IdentV,
    y: IdentV,
)
    ensures
        ({
            let aliased = specifier_binding(
                rules,
                src,
                ImportSpecifierV::Named {
                    local: y,
                    imported: Some(ModuleExportNameV::Named(x.sym)),
                },
            );
            let plain = specifier_binding(
                rules,
                src,
                ImportSpecifierV::Named { local: x, imported: None },
            );
            match (aliased, plain) {
                (Some(a), Some(p)) => a.rule == p.rule && a.local == y && p.local == x,
                (None, None) => true,
                _ => false,
            }
        }),
{
}

/// Aliasing correctness, call half: after the import, a call through the
/// local name is matched to exactly the rule of the imported name —
/// renamed and plain imports are instrumented identically.
pub proof fn lemma_alias_call_matches(
    rules: Seq<TransformSpecV>,
    src: Seq<char>,
    x: IdentV,
    y: IdentV,
)
    ensures
        expr_rule(
            import_bindings(
                rules,
                src,
                seq![
                    ImportSpecifierV::Named {
                        local: y,
                        imported: Some(ModuleExportNameV::Named(x.sym)),
                    },
                ],
            ),
            ExprV::Ident(y),
        ) == expr_rule(
            import_bindings(
                rules,
                src,
                seq![ImportSpecifierV::Named { local: x, imported: None }],
            ),
            ExprV::Ident(x),
        ),
{
    let aliased_specs = seq![
        ImportSpecifierV::Named { local: y, imported: Some(ModuleExportNameV::Named(x.sym)) },
    ];
    let plain_specs = seq![ImportSpecifierV::Named { local: x, imported: None }];
    assert(aliased_specs.drop_last() =~= Seq::<ImportSpecifierV>::empty());
    assert(plain_specs.drop_last() =~= Seq::<ImportSpecifierV>::empty());
    reveal_with_fuel(import_bindings, 2);
    assert(Seq::<BindingV>::empty() + seq![] =~= Seq::<BindingV>::empty());
    match find_rule(rules, src, x.sym) {
        Some(r) => {
            assert(import_bindings(rules, src, aliased_specs) =~= seq![
                BindingV { local: y, rule: r },
            ]);
            assert(import_bindings(rules, src, plain_specs) =~= seq![
                BindingV { local: x, rule: r },
            ]);
        },
        None => {
            assert(import_bindings(rules, src, aliased_specs) =~= Seq::<BindingV>::empty());
            assert(import_bindings(rules, src, plain_specs) =~= Seq::<BindingV>::empty());
        },
    }
}

/// Aliasing correctness, isolation half: an identifier whose binding
/// identity no matching import registered is never matched, even when its
/// text equals a tracked symbol's.
pub proof fn lemma_unrelated_binding_not_matched(entries: Seq<BindingV>, z: IdentV)
    requires
        forall|i: int| 0 <= i < entries.len() ==> entries[i].local != z,
    ensures
        expr_rule(entries, ExprV::Ident(z)) is None,
    decreases entries,
{
    if entries.len() > 0 {
        lemma_unrelated_binding_not_matched(entries.drop_last(), z);
    }
}

/// No rule matches a package that no rule names.
pub proof fn lemma_find_rule_package(rules: Seq<TransformSpecV>, src: Seq<char>, name: Seq<char>)
    requires
        forall|i: int| 0 <= i < rules.len() ==> rules[i].package != src,
    ensures
        find_rule(rules, src, name) is None,
    decreases rules,
{
    if rules.len() > 0 {
        lemma_find_rule_package(rules.drop_last(), src, name);
    }
}

/// Package isolation: an import from a package that no rule names registers
/// nothing, whatever symbols it imports — so a matching name from a
/// non-matching package is never instrumented.
pub proof fn lemma_package_isolation(
    rules: Seq<TransformSpecV>,
    src: Seq<char>,
    specifiers: Seq<ImportSpecifierV>,
)
    requires
        forall|i: int| 0 <= i < rules.len() ==> rules[i].package != src,
    ensures
        import_bindings(rules, src, specifiers) == Seq::<BindingV>::empty(),
    decreases specifiers,
{
    if specifiers.len() > 0 {
        lemma_package_isolation(rules, src, specifiers.drop_last());
        match specifiers.last() {
            ImportSpecifierV::Named { local, imported } => {
                match imported {
                    None => {
                        lemma_find_rule_package(rules, src, local.sym);
                    },
                    Some(ModuleExportNameV::Named(n)) => {
                        lemma_find_rule_package(rules, src, n);
                    },
                    Some(ModuleExportNameV::Other) => {},
                }
            },
            ImportSpecifierV::Other => {},
        }
        assert(import_bindings(rules, src, specifiers) =~= Seq::<BindingV>::empty());
    }
}

/// Property-call coverage: a named property access on a tracked binding is
/// matched to exactly the rule of the binding itself, whatever the property
/// name — `L(...)`, `L.debug(...)` and `L.anything(...)` are instrumented
/// alike.
pub proof fn lemma_property_call_coverage(entries: Seq<BindingV>, l: IdentV, prop: Seq<char>)
    ensures
        expr_rule(
            entries,
            ExprV::Member { obj: Box::new(ExprV::Ident(l)), prop: MemberPropV::Named(prop) },
        ) == expr_rule(entries, ExprV::Ident(l)),
{
}

/// Single preamble, module half: the pass prepends exactly one synthesized
/// statement — the filename binding — and every other output statement is
/// the rewrite of the input statement at its position, under the bindings
/// registered by the imports before it.
pub proof fn lemma_single_preamble(
    c: ConfigV,
    module_filename: Seq<char>,
    line_starts: Seq<u32>,
    src_text: Seq<char>,
    m: JsModuleV,
)
    ensures
        ({
            let out = transform_module_v(c, module_filename, line_starts, src_text, m);
            let env0 = RewriteEnv {
                table: Seq::empty(),
                filename_id: Some(preamble_ident_v()),
                line_starts,
                src_text,
            };
            &&& out.body.len() == m.body.len() + 1
            &&& out.body[0] == preamble_stmt_v(chosen_filename(c, module_filename))
            &&& forall|i: int| 0 <= i < m.body.len() ==> out.body[i + 1] == rewrite_stmt_v(
                with_table(
                    env0,
                    table_after_stmts(c.to_transform, Seq::empty(), m.body.take(i)),
                ),
                m.body[i],
            )
            &&& forall|t: Seq<BindingV>| with_table(env0, t).filename_id == Some(
                preamble_ident_v(),
            )
        }),
{
    let env0 = RewriteEnv {
        table: Seq::empty(),
        filename_id: Some(preamble_ident_v()),
        line_starts,
        src_text,
    };
    lemma_rewrite_stmts_v_index(c.to_transform, env0, m.body);
}

/// The rewrite never changes what kind of expression a node is, and never
/// moves a node: spans, identifiers, literals and member names all stay as
/// written. Only argument lists of matched calls and constructions change.
pub proof fn lemma_rewrite_preserves_expr_shape(env: RewriteEnv, e: ExprV)
    ensures
        rewrite_expr_v(env, e) is Call <==> e is Call,
        e is Call ==> rewrite_expr_v(env, e)->Call_span == e->Call_span,
        rewrite_expr_v(env, e) is New <==> e is New,
        e is New ==> rewrite_expr_v(env, e)->New_span == e->New_span,
        rewrite_expr_v(env, e) is Ident <==> e is Ident,
        e is Ident ==> rewrite_expr_v(env, e) == e,
        rewrite_expr_v(env, e) is StrLit <==> e is StrLit,
        e is StrLit ==> rewrite_expr_v(env, e) == e,
        rewrite_expr_v(env, e) is NumLit <==> e is NumLit,
        e is NumLit ==> rewrite_expr_v(env, e) == e,
        rewrite_expr_v(env, e) is This <==> e is This,
        rewrite_expr_v(env, e) is VoidZero <==> e is VoidZero,
        rewrite_expr_v(env, e) is Member <==> e is Member,
        rewrite_expr_v(env, e) is Object <==> e is Object,
        rewrite_expr_v(env, e) is Array <==> e is Array,
        rewrite_expr_v(env, e) is Arrow <==> e is Arrow,
        rewrite_expr_v(env, e) is Other <==> e is Other,
        e is Other ==> rewrite_expr_v(env, e)->Other_tag == e->Other_tag
            && rewrite_expr_v(env, e)->Other_span == e->Other_span,
{
}

/// The rewrite of a statement never changes what kind of statement it is,
/// never touches an import, and never renames a declared binding — so the
/// preamble prepended by the pass is the only statement it synthesizes.
pub proof fn lemma_rewrite_preserves_stmt_shape(env: RewriteEnv, s: StmtV)
    ensures
        rewrite_stmt_v(env, s) is Import <==> s is Import,
        s is Import ==> rewrite_stmt_v(env, s) == s,
        rewrite_stmt_v(env, s) is VarDecl <==> s is VarDecl,
        s is VarDecl ==> rewrite_stmt_v(env, s)->VarDecl_name == s->VarDecl_name,
        rewrite_stmt_v(env, s) is Expr <==> s is Expr,
        rewrite_stmt_v(env, s) is Other <==> s is Other,
{
}

/// Single preamble, metadata half: every metadata object built while the
/// preamble binding exists carries, as its first member, `F` referring to
/// that one binding — never a re-embedded filename.
pub proof fn lemma_metadata_references_preamble(
    rule: TransformSpecV,
    fid: IdentV,
    line: u64,
    src: Seq<char>,
    args: Seq<ArgV>,
)
    ensures
        meta_props_v(rule, Some(fid), line, src, args).len() >= 2,
        meta_props_v(rule, Some(fid), line, src, args)[0] == (PropV {
            key: "F"@,
            value: ExprV::Ident(fid),
        }),
        meta_props_v(rule, Some(fid), line, src, args)[1] == (PropV {
            key: "L"@,
            value: ExprV::NumLit(line),
        }),
{
}

/// Idempotence within the pass, call half: rewriting a call applies the
/// injection engine at most once — the output argument list is exactly the
/// children's rewrite, with one injection when the callee is tracked and
/// none otherwise.
pub proof fn lemma_call_injects_at_most_once(env: RewriteEnv, e: ExprV)
    requires
        e is Call,
    ensures
        ({
            let out = rewrite_expr_v(env, e);
            let c2 = rewrite_callee_v(env, e->Call_callee);
            let a2 = rewrite_args_v(env, e->Call_args);
            &&& out is Call
            &&& out->Call_span == e->Call_span
            &&& out->Call_callee == c2
            &&& out->Call_args == match callee_rule(env.table, c2) {
                Some(rule) => inject_args_v(
                    rule,
                    env.filename_id,
                    env.line_starts,
                    env.src_text,
                    e->Call_span,
                    a2,
                ),
                None => a2,
            }
        }),
{
}

/// Idempotence within the pass, count half: one injection appends exactly
/// one argument beyond the rule's position, or touches nothing — it can
/// never add two metadata arguments to one call.
pub proof fn lemma_injection_count(
    rule: TransformSpecV,
    filename_id: Option<IdentV>,
    starts: Seq<u32>,
    src: Seq<char>,
    span: Span,
    args: Seq<ArgV>,
)
    ensures
        inject_args_v(rule, filename_id, starts, src, span, args).len() == if rule.param_index
            < args.len() {
            args.len() as int
        } else {
            rule.param_index + 1
        },
{
}

} // verus!
