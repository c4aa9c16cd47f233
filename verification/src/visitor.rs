//! The traversal that drives one module's rewrite.
//!
//! A single bottom-up pass: the preamble binding is synthesized first, then
//! the statements are walked in source order. An import statement populates
//! the binding table as it is encountered — a call that textually precedes
//! its enabling import is deliberately not instrumented — and every other
//! statement has its calls and constructions rewritten, children before
//! parents, so a tracked call nested in another tracked call is injected at
//! both levels. No other node kind is mutated.

use vstd::prelude::*;

use crate::ast::{arg_view, args_view, callee_view, expr_view, exprs_view, lemma_args_view_index,
    lemma_exprs_view_index, lemma_props_view_index, member_prop_view, prop_view, props_view,
    stmt_view, Arg, ArgV, Callee, CalleeV, Expr, ExprV, Ident, IdentV, ImportDecl,
    JsModule, JsModuleV, MemberProp, MemberPropV, Prop, PropV, Stmt, StmtV};
use crate::binding::{import_bindings, BindingTable, BindingV};
use crate::config::{Config, ConfigV, TransformSpecV};
use crate::inject::{add_meta_to_params, inject_args_v};
use crate::matcher::{callee_rule, expr_rule, get_config_for_call, get_config_for_expression};
use crate::meta::opt_ident_view;
use crate::source::ModuleSource;

verus! {

/// Everything one call site's rewrite depends on: the tracked bindings
/// registered so far, the preamble binding (when created), and the module's
/// line table and source text.
pub struct RewriteEnv {
    pub table: Seq<BindingV>,
    pub filename_id: Option<IdentV>,
    pub line_starts: Seq<u32>,
    pub src_text: Seq<char>,
}

/// The same environment with the binding table replaced.
pub open spec fn with_table(env: RewriteEnv, table: Seq<BindingV>) -> RewriteEnv {
    RewriteEnv {
        table,
        filename_id: env.filename_id,
        line_starts: env.line_starts,
        src_text: env.src_text,
    }
}

/// The rewrite environment a table, preamble binding and module source
/// denote.
pub open spec fn env_view(
    table: BindingTable,
    filename_id: Option<Ident>,
    source: ModuleSource,
) -> RewriteEnv {
    RewriteEnv {
        table: table@,
        filename_id: opt_ident_view(filename_id),
        line_starts: source.line_starts@,
        src_text: source.text@,
    }
}

/// What one expression becomes: children first, then — for a call or
/// construction whose (already rewritten) callee invokes a tracked binding —
/// the argument list goes through the injection engine. A construction
/// written without any argument list first gets an empty one. Everything
/// else keeps its shape.
pub open spec fn rewrite_expr_v(env: RewriteEnv, e: ExprV) -> ExprV
    decreases e,
{
    match e {
        ExprV::Ident(i) => ExprV::Ident(i),
        ExprV::Member { obj, prop } => ExprV::Member {
            obj: Box::new(rewrite_expr_v(env, *obj)),
            prop: rewrite_member_prop_v(env, prop),
        },
        ExprV::Call { callee, args, span } => {
            let c2 = rewrite_callee_v(env, callee);
            let a2 = rewrite_args_v(env, args);
            match callee_rule(env.table, c2) {
                Some(rule) => ExprV::Call {
                    callee: c2,
                    args: inject_args_v(
                        rule,
                        env.filename_id,
                        env.line_starts,
                        env.src_text,
                        span,
                        a2,
                    ),
                    span,
                },
                None => ExprV::Call { callee: c2, args: a2, span },
            }
        },
        ExprV::New { callee, args, span } => {
            let c2 = rewrite_expr_v(env, *callee);
            match expr_rule(env.table, c2) {
                Some(rule) => {
                    let base = match args {
                        Some(a) => rewrite_args_v(env, a),
                        None => Seq::empty(),
                    };
                    ExprV::New {
                        callee: Box::new(c2),
                        args: Some(
                            inject_args_v(
                                rule,
                                env.filename_id,
                                env.line_starts,
                                env.src_text,
                                span,
                                base,
                            ),
                        ),
                        span,
                    }
                },
                None => ExprV::New {
                    callee: Box::new(c2),
                    args: match args {
                        Some(a) => Some(rewrite_args_v(env, a)),
                        None => None,
                    },
                    span,
                },
            }
        },
        ExprV::This => ExprV::This,
        ExprV::StrLit(s) => ExprV::StrLit(s),
        ExprV::NumLit(n) => ExprV::NumLit(n),
        ExprV::VoidZero => ExprV::VoidZero,
        ExprV::Object(props) => ExprV::Object(rewrite_props_v(env, props)),
        ExprV::Array(elems) => ExprV::Array(rewrite_args_v(env, elems)),
        ExprV::Arrow { params, body } => ExprV::Arrow {
            params,
            body: Box::new(rewrite_expr_v(env, *body)),
        },
        ExprV::Other { tag, children, span } => ExprV::Other {
            tag,
            children: rewrite_exprs_v(env, children),
            span,
        },
    }
}

pub open spec fn rewrite_member_prop_v(env: RewriteEnv, p: MemberPropV) -> MemberPropV
    decreases p,
{
    match p {
        MemberPropV::Named(s) => MemberPropV::Named(s),
        MemberPropV::Computed(e) => MemberPropV::Computed(Box::new(rewrite_expr_v(env, *e))),
    }
}

pub open spec fn rewrite_callee_v(env: RewriteEnv, c: CalleeV) -> CalleeV
    decreases c,
{
    match c {
        CalleeV::Expr(e) => CalleeV::Expr(Box::new(rewrite_expr_v(env, *e))),
        CalleeV::Other => CalleeV::Other,
    }
}

pub open spec fn rewrite_arg_v(env: RewriteEnv, a: ArgV) -> ArgV
    decreases a,
{
    ArgV { spread: a.spread, expr: rewrite_expr_v(env, a.expr), span: a.span }
}

pub open spec fn rewrite_args_v(env: RewriteEnv, s: Seq<ArgV>) -> Seq<ArgV>
    decreases s,
{
    if s.len() == 0 {
        Seq::empty()
    } else {
        rewrite_args_v(env, s.drop_last()).push(rewrite_arg_v(env, s.last()))
    }
}

pub open spec fn rewrite_prop_v(env: RewriteEnv, p: PropV) -> PropV
    decreases p,
{
    PropV { key: p.key, value: rewrite_expr_v(env, p.value) }
}

pub open spec fn rewrite_props_v(env: RewriteEnv, s: Seq<PropV>) -> Seq<PropV>
    decreases s,
{
    if s.len() == 0 {
        Seq::empty()
    } else {
        rewrite_props_v(env, s.drop_last()).push(rewrite_prop_v(env, s.last()))
    }
}

pub open spec fn rewrite_exprs_v(env: RewriteEnv, s: Seq<ExprV>) -> Seq<ExprV>
    decreases s,
{
    if s.len() == 0 {
        Seq::empty()
    } else {
        rewrite_exprs_v(env, s.drop_last()).push(rewrite_expr_v(env, s.last()))
    }
}

/// Rewritten argument lists keep their length; each element is the rewrite
/// of the one at its position.
pub proof fn lemma_rewrite_args_v_index(env: RewriteEnv, s: Seq<ArgV>)
    ensures
        rewrite_args_v(env, s).len() == s.len(),
        forall|i: int| 0 <= i < s.len() ==> rewrite_args_v(env, s)[i] == rewrite_arg_v(env, s[i]),
    decreases s,
{
    if s.len() > 0 {
        lemma_rewrite_args_v_index(env, s.drop_last());
    }
}

/// Rewritten object literals keep their length; each member is the rewrite
/// of the one at its position.
pub proof fn lemma_rewrite_props_v_index(env: RewriteEnv, s: Seq<PropV>)
    ensures
        rewrite_props_v(env, s).len() == s.len(),
        forall|i: int| 0 <= i < s.len() ==> rewrite_props_v(env, s)[i] == rewrite_prop_v(env, s[i]),
    decreases s,
{
    if s.len() > 0 {
        lemma_rewrite_props_v_index(env, s.drop_last());
    }
}

/// Rewritten expression lists keep their length; each element is the
/// rewrite of the one at its position.
pub proof fn lemma_rewrite_exprs_v_index(env: RewriteEnv, s: Seq<ExprV>)
    ensures
        rewrite_exprs_v(env, s).len() == s.len(),
        forall|i: int| 0 <= i < s.len() ==> rewrite_exprs_v(env, s)[i] == rewrite_expr_v(
            env,
            s[i],
        ),
    decreases s,
{
    if s.len() > 0 {
        lemma_rewrite_exprs_v_index(env, s.drop_last());
    }
}

/// Rewrites one expression bottom-up, injecting metadata into every call or
/// construction of a tracked binding.
pub fn rewrite_expr(
    table: &BindingTable,
    filename_id: &Option<Ident>,
    source: &ModuleSource,
    e: &Expr,
) -> (r: Expr)
    ensures
        expr_view(r) == rewrite_expr_v(env_view(*table, *filename_id, *source), expr_view(*e)),
    decreases e,
{
    let ghost env = env_view(*table, *filename_id, *source);
    match e {
        Expr::Ident(i) => Expr::Ident(i.duplicate()),
        Expr::Member { obj, prop } => Expr::Member {
            obj: Box::new(rewrite_expr(table, filename_id, source, obj)),
            prop: rewrite_member_prop(table, filename_id, source, prop),
        },
        Expr::Call { callee, args, span } => {
            let c2 = rewrite_callee(table, filename_id, source, callee);
            let mut a2 = rewrite_args(table, filename_id, source, args);
            match get_config_for_call(table, &c2) {
                Some(rule) => {
                    add_meta_to_params(filename_id, source, rule, &mut a2, span);
                    Expr::Call { callee: c2, args: a2, span: *span }
                },
                None => Expr::Call { callee: c2, args: a2, span: *span },
            }
        },
        Expr::New { callee, args, span } => {
            let c2 = rewrite_expr(table, filename_id, source, callee);
            match get_config_for_expression(table, &c2) {
                Some(rule) => {
                    let mut base = match args {
                        Some(a) => rewrite_args(table, filename_id, source, a),
                        None => Vec::new(),
                    };
                    proof {
                        if e->New_args is None {
                            assert(args_view(base@) =~= Seq::<ArgV>::empty());
                        }
                    }
                    add_meta_to_params(filename_id, source, rule, &mut base, span);
                    Expr::New { callee: Box::new(c2), args: Some(base), span: *span }
                },
                None => Expr::New {
                    callee: Box::new(c2),
                    args: match args {
                        Some(a) => Some(rewrite_args(table, filename_id, source, a)),
                        None => None,
                    },
                    span: *span,
                },
            }
        },
        Expr::This => Expr::This,
        Expr::StrLit(s) => Expr::StrLit(s.clone()),
        Expr::NumLit(n) => Expr::NumLit(*n),
        Expr::VoidZero => Expr::VoidZero,
        Expr::Object(props) => Expr::Object(rewrite_props(table, filename_id, source, props)),
        Expr::Array(elems) => Expr::Array(rewrite_args(table, filename_id, source, elems)),
        Expr::Arrow { params, body } => {
            let params2 = crate::ast::duplicate_idents(params);
            proof {
                assert(Seq::new(params2@.len(), |i: int| params2@[i]@) =~= Seq::new(
                    params@.len(),
                    |i: int| params@[i]@,
                ));
            }
            Expr::Arrow {
                params: params2,
                body: Box::new(rewrite_expr(table, filename_id, source, body)),
            }
        },
        Expr::Other { tag, children, span } => Expr::Other {
            tag: *tag,
            children: rewrite_exprs(table, filename_id, source, children),
            span: *span,
        },
    }
}

/// Rewrites the property part of a member access (only a computed property
/// holds an expression to recurse into).
pub fn rewrite_member_prop(
    table: &BindingTable,
    filename_id: &Option<Ident>,
    source: &ModuleSource,
    p: &MemberProp,
) -> (r: MemberProp)
    ensures
        member_prop_view(r) == rewrite_member_prop_v(
            env_view(*table, *filename_id, *source),
            member_prop_view(*p),
        ),
    decreases p,
{
    match p {
        MemberProp::Named(s) => MemberProp::Named(s.clone()),
        MemberProp::Computed(e) => MemberProp::Computed(
            Box::new(rewrite_expr(table, filename_id, source, e)),
        ),
    }
}

/// Rewrites a callee expression (its own children included).
pub fn rewrite_callee(
    table: &BindingTable,
    filename_id: &Option<Ident>,
    source: &ModuleSource,
    c: &Callee,
) -> (r: Callee)
    ensures
        callee_view(r) == rewrite_callee_v(
            env_view(*table, *filename_id, *source),
            callee_view(*c),
        ),
    decreases c,
{
    match c {
        Callee::Expr(e) => Callee::Expr(Box::new(rewrite_expr(table, filename_id, source, e))),
        Callee::Other => Callee::Other,
    }
}

/// Rewrites every element of an argument list.
pub fn rewrite_args(
    table: &BindingTable,
    filename_id: &Option<Ident>,
    source: &ModuleSource,
    s: &Vec<Arg>,
) -> (r: Vec<Arg>)
    ensures
        args_view(r@) == rewrite_args_v(env_view(*table, *filename_id, *source), args_view(s@)),
    decreases s,
{
    let ghost env = env_view(*table, *filename_id, *source);
    proof {
        lemma_args_view_index(s@);
        lemma_rewrite_args_v_index(env, args_view(s@));
    }
    let mut r: Vec<Arg> = Vec::new();
    let mut i: usize = 0;
    while i < s.len()
        invariant
            i <= s@.len(),
            env == env_view(*table, *filename_id, *source),
            args_view(s@).len() == s@.len(),
            forall|j: int| 0 <= j < s@.len() ==> args_view(s@)[j] == arg_view(s@[j]),
            r@.len() == i,
            forall|j: int| 0 <= j < i ==> arg_view(r@[j]) == rewrite_arg_v(env, arg_view(s@[j])),
        decreases s@.len() - i,
    {
        proof {
            assert(decreases_to!(s@ => s@[i as int]));
        }
        let a = &s[i];
        let e2 = rewrite_expr(table, filename_id, source, &a.expr);
        r.push(Arg { spread: a.spread, expr: e2, span: a.span });
        i = i + 1;
    }
    proof {
        lemma_args_view_index(r@);
        lemma_rewrite_args_v_index(env, args_view(s@));
        assert(args_view(r@) =~= rewrite_args_v(env, args_view(s@)));
    }
    r
}

/// Rewrites every member value of an object literal.
pub fn rewrite_props(
    table: &BindingTable,
    filename_id: &Option<Ident>,
    source: &ModuleSource,
    s: &Vec<Prop>,
) -> (r: Vec<Prop>)
    ensures
        props_view(r@) == rewrite_props_v(env_view(*table, *filename_id, *source), props_view(s@)),
    decreases s,
{
    let ghost env = env_view(*table, *filename_id, *source);
    proof {
        lemma_props_view_index(s@);
        lemma_rewrite_props_v_index(env, props_view(s@));
    }
    let mut r: Vec<Prop> = Vec::new();
    let mut i: usize = 0;
    while i < s.len()
        invariant
            i <= s@.len(),
            env == env_view(*table, *filename_id, *source),
            props_view(s@).len() == s@.len(),
            forall|j: int| 0 <= j < s@.len() ==> props_view(s@)[j] == prop_view(s@[j]),
            r@.len() == i,
            forall|j: int| 0 <= j < i ==> prop_view(r@[j]) == rewrite_prop_v(env, prop_view(s@[j])),
        decreases s@.len() - i,
    {
        proof {
            assert(decreases_to!(s@ => s@[i as int]));
        }
        let p = &s[i];
        let v2 = rewrite_expr(table, filename_id, source, &p.value);
        r.push(Prop { key: p.key.clone(), value: v2 });
        i = i + 1;
    }
    proof {
        lemma_props_view_index(r@);
        lemma_rewrite_props_v_index(env, props_view(s@));
        assert(props_view(r@) =~= rewrite_props_v(env, props_view(s@)));
    }
    r
}

/// What one statement becomes: imports and everything without an expression
/// stay as written; expressions in the statement are rewritten.
pub open spec fn rewrite_stmt_v(env: RewriteEnv, s: StmtV) -> StmtV {
    match s {
        StmtV::Import(d) => StmtV::Import(d),
        StmtV::Expr(e) => StmtV::Expr(rewrite_expr_v(env, e)),
        StmtV::VarDecl { name, init } => StmtV::VarDecl {
            name,
            init: match init {
                Some(e) => Some(rewrite_expr_v(env, e)),
                None => None,
            },
        },
        StmtV::Other { tag, children } => StmtV::Other {
            tag,
            children: rewrite_exprs_v(env, children),
        },
    }
}

/// The binding table after one statement is encountered: an import
/// registers its matching clauses, every other statement leaves the table
/// alone.
pub open spec fn table_after_stmt(
    rules: Seq<TransformSpecV>,
    table: Seq<BindingV>,
    s: StmtV,
) -> Seq<BindingV> {
    match s {
        StmtV::Import(d) => table + import_bindings(rules, d.src, d.specifiers),
        _ => table,
    }
}

/// The binding table after a prefix of the module body, statements
/// encountered in source order.
pub open spec fn table_after_stmts(
    rules: Seq<TransformSpecV>,
    table: Seq<BindingV>,
    stmts: Seq<StmtV>,
) -> Seq<BindingV>
    decreases stmts,
{
    if stmts.len() == 0 {
        table
    } else {
        table_after_stmt(rules, table_after_stmts(rules, table, stmts.drop_last()), stmts.last())
    }
}

/// What the module body becomes: each statement rewritten under the binding
/// table as of its own position, so imports take effect only from their
/// place in the source onward.
pub open spec fn rewrite_stmts_v(
    rules: Seq<TransformSpecV>,
    env0: RewriteEnv,
    stmts: Seq<StmtV>,
) -> Seq<StmtV>
    decreases stmts,
{
    if stmts.len() == 0 {
        Seq::empty()
    } else {
        rewrite_stmts_v(rules, env0, stmts.drop_last()).push(
            rewrite_stmt_v(
                with_table(env0, table_after_stmts(rules, env0.table, stmts.drop_last())),
                stmts.last(),
            ),
        )
    }
}

/// The identity of the synthesized preamble binding.
pub open spec fn preamble_ident_v() -> IdentV {
    IdentV { sym: "__dxlog_file"@, ctxt: 0 }
}

/// The synthesized first statement of the module: one variable holding the
/// module's filename, shared by all metadata built for the module.
pub open spec fn preamble_stmt_v(filename: Seq<char>) -> StmtV {
    StmtV::VarDecl { name: preamble_ident_v(), init: Some(ExprV::StrLit(filename)) }
}

/// The filename the preamble holds: the configured override when one is
/// set, else the module's resolved filename.
pub open spec fn chosen_filename(c: ConfigV, module_filename: Seq<char>) -> Seq<char> {
    match c.filename {
        Some(f) => f,
        None => module_filename,
    }
}

/// What one whole module becomes: the preamble binding prepended, and every
/// statement rewritten under an initially empty binding table that grows at
/// each import, all metadata referring to the preamble binding.
pub open spec fn transform_module_v(
    c: ConfigV,
    module_filename: Seq<char>,
    line_starts: Seq<u32>,
    src_text: Seq<char>,
    m: JsModuleV,
) -> JsModuleV {
    JsModuleV {
        body: seq![preamble_stmt_v(chosen_filename(c, module_filename))] + rewrite_stmts_v(
            c.to_transform,
            RewriteEnv {
                table: Seq::empty(),
                filename_id: Some(preamble_ident_v()),
                line_starts,
                src_text,
            },
            m.body,
        ),
    }
}

/// Rewrites every expression of a list.
pub fn rewrite_exprs(
    table: &BindingTable,
    filename_id: &Option<Ident>,
    source: &ModuleSource,
    s: &Vec<Expr>,
) -> (r: Vec<Expr>)
    ensures
        exprs_view(r@) == rewrite_exprs_v(env_view(*table, *filename_id, *source), exprs_view(s@)),
    decreases s,
{
    let ghost env = env_view(*table, *filename_id, *source);
    proof {
        lemma_exprs_view_index(s@);
        lemma_rewrite_exprs_v_index(env, exprs_view(s@));
    }
    let mut r: Vec<Expr> = Vec::new();
    let mut i: usize = 0;
    while i < s.len()
        invariant
            i <= s@.len(),
            env == env_view(*table, *filename_id, *source),
            exprs_view(s@).len() == s@.len(),
            forall|j: int| 0 <= j < s@.len() ==> exprs_view(s@)[j] == expr_view(s@[j]),
            r@.len() == i,
            forall|j: int| 0 <= j < i ==> expr_view(r@[j]) == rewrite_expr_v(
                env,
                expr_view(s@[j]),
            ),
        decreases s@.len() - i,
    {
        proof {
            assert(decreases_to!(s@ => s@[i as int]));
        }
        let e2 = rewrite_expr(table, filename_id, source, &s[i]);
        r.push(e2);
        i = i + 1;
    }
    proof {
        lemma_exprs_view_index(r@);
        lemma_rewrite_exprs_v_index(env, exprs_view(s@));
        assert(exprs_view(r@) =~= rewrite_exprs_v(env, exprs_view(s@)));
    }
    r
}

/// Rewrites one non-import statement under the current table.
pub fn rewrite_stmt(
    table: &BindingTable,
    filename_id: &Option<Ident>,
    source: &ModuleSource,
    s: &Stmt,
) -> (r: Stmt)
    ensures
        stmt_view(r) == rewrite_stmt_v(env_view(*table, *filename_id, *source), stmt_view(*s)),
{
    match s {
        Stmt::Import(d) => Stmt::Import(d.duplicate()),
        Stmt::Expr(e) => Stmt::Expr(rewrite_expr(table, filename_id, source, e)),
        Stmt::VarDecl { name, init } => Stmt::VarDecl {
            name: name.duplicate(),
            init: match init {
                Some(e) => Some(rewrite_expr(table, filename_id, source, e)),
                None => None,
            },
        },
        Stmt::Other { tag, children } => Stmt::Other {
            tag: *tag,
            children: rewrite_exprs(table, filename_id, source, children),
        },
    }
}

/// The state of one module's pass: the configuration, the module's source
/// positions, the bindings registered so far, and the preamble binding once
/// it is created. Created per module, discarded afterwards.
pub struct TransformVisitor {
    pub config: Config,
    pub source: ModuleSource,
    pub transform_spec_map: BindingTable,
    pub filename_id: Option<Ident>,
}

impl TransformVisitor {
    /// A fresh pass over one module: nothing tracked, no preamble yet.
    pub fn new(config: Config, source: ModuleSource) -> (v: TransformVisitor)
        ensures
            v.config == config,
            v.source == source,
            v.transform_spec_map@ == Seq::<BindingV>::empty(),
            v.filename_id is None,
    {
        TransformVisitor {
            config,
            source,
            transform_spec_map: BindingTable::new(),
            filename_id: None,
        }
    }

    /// Registers the tracked bindings one import statement introduces.
    pub fn visit_mut_import_decl(&mut self, d: &ImportDecl)
        ensures
            final(self).transform_spec_map@ == old(self).transform_spec_map@ + import_bindings(
                old(self).config@.to_transform,
                d@.src,
                d@.specifiers,
            ),
            final(self).config == old(self).config,
            final(self).source == old(self).source,
            final(self).filename_id == old(self).filename_id,
    {
        self.transform_spec_map.register_import(&self.config, d);
    }

    /// Runs the whole pass over one module: synthesizes the preamble
    /// binding, then walks the body in source order, registering each
    /// import's bindings as it is reached and rewriting every other
    /// statement under the bindings registered so far.
    ///
    /// `module_filename` is the module's resolved filename; the configured
    /// override, when set, takes its place in the preamble.
    pub fn visit_mut_program(&mut self, program: &JsModule, module_filename: &String) -> (r:
        JsModule)
        requires
            old(self).transform_spec_map@ == Seq::<BindingV>::empty(),
        ensures
            r@ == transform_module_v(
                old(self).config@,
                module_filename@,
                old(self).source.line_starts@,
                old(self).source.text@,
                program@,
            ),
    {
        let filename: String = match &self.config.filename {
            Some(f) => f.clone(),
            None => module_filename.clone(),
        };
        let fid = Ident { sym: "__dxlog_file".to_owned(), ctxt: 0 };
        proof {
            assert(fid@ == preamble_ident_v());
        }
        self.filename_id = Some(fid.duplicate());
        let ghost rules = self.config@.to_transform;
        let ghost env0 = RewriteEnv {
            table: Seq::empty(),
            filename_id: Some(preamble_ident_v()),
            line_starts: self.source.line_starts@,
            src_text: self.source.text@,
        };
        let ghost body_v = program@.body;

        let mut out: Vec<Stmt> = Vec::new();
        out.push(Stmt::VarDecl { name: fid, init: Some(Expr::StrLit(filename)) });
        proof {
            assert(stmt_view(out@[0]) == preamble_stmt_v(
                chosen_filename(self.config@, module_filename@),
            ));
            assert(rewrite_stmts_v(rules, env0, body_v.take(0)) =~= Seq::<StmtV>::empty());
            assert(table_after_stmts(rules, Seq::empty(), body_v.take(0))
                =~= Seq::<BindingV>::empty());
        }
        let mut i: usize = 0;
        while i < program.body.len()
            invariant
                i <= program.body@.len(),
                body_v == program@.body,
                body_v.len() == program.body@.len(),
                forall|j: int| 0 <= j < body_v.len() ==> body_v[j] == stmt_view(program.body@[j]),
                rules == self.config@.to_transform,
                self.config == old(self).config,
                self.source == old(self).source,
                self.filename_id matches Some(f) && f@ == preamble_ident_v(),
                env0 == (RewriteEnv {
                    table: Seq::<BindingV>::empty(),
                    filename_id: Some(preamble_ident_v()),
                    line_starts: self.source.line_starts@,
                    src_text: self.source.text@,
                }),
                self.transform_spec_map@ == table_after_stmts(
                    rules,
                    Seq::empty(),
                    body_v.take(i as int),
                ),
                out@.len() == i + 1,
                stmt_view(out@[0]) == preamble_stmt_v(
                    chosen_filename(self.config@, module_filename@),
                ),
                forall|j: int| 0 <= j < i ==> stmt_view(out@[j + 1]) == rewrite_stmt_v(
                    with_table(env0, table_after_stmts(rules, Seq::empty(), body_v.take(j))),
                    body_v[j],
                ),
            decreases program.body@.len() - i,
        {
            let ghost table_i = table_after_stmts(rules, Seq::empty(), body_v.take(i as int));
            proof {
                assert(body_v.take(i as int + 1).drop_last() =~= body_v.take(i as int));
                assert(body_v.take(i as int + 1).last() == body_v[i as int]);
            }
            let s = &program.body[i];
            match s {
                Stmt::Import(d) => {
                    let copy = d.duplicate();
                    self.transform_spec_map.register_import(&self.config, d);
                    out.push(Stmt::Import(copy));
                    proof {
                        assert(body_v[i as int] == StmtV::Import(d@));
                        assert(stmt_view(out@[i as int + 1]) == rewrite_stmt_v(
                            with_table(env0, table_i),
                            body_v[i as int],
                        ));
                    }
                },
                _ => {
                    let r = rewrite_stmt(
                        &self.transform_spec_map,
                        &self.filename_id,
                        &self.source,
                        s,
                    );
                    proof {
                        assert(env_view(self.transform_spec_map, self.filename_id, self.source)
                            == with_table(env0, table_i));
                        assert(!(body_v[i as int] is Import));
                        assert(table_after_stmt(rules, self.transform_spec_map@, body_v[i as int])
                            == self.transform_spec_map@);
                    }
                    out.push(r);
                },
            }
            i = i + 1;
        }
        proof {
            assert(body_v.take(body_v.len() as int) =~= body_v);
            lemma_rewrite_stmts_v_index(rules, env0, body_v);
            assert forall|j: int| 0 <= j < body_v.len() implies stmt_view(out@[j + 1])
                == rewrite_stmts_v(rules, env0, body_v)[j] by {
                assert(stmt_view(out@[j + 1]) == rewrite_stmt_v(
                    with_table(env0, table_after_stmts(rules, Seq::empty(), body_v.take(j))),
                    body_v[j],
                ));
            }
        }
        let r = JsModule { body: out };
        proof {
            assert(r@.body =~= seq![
                preamble_stmt_v(chosen_filename(old(self).config@, module_filename@)),
            ] + rewrite_stmts_v(rules, env0, body_v));
        }
        r
    }
}

/// Rewritten statement lists keep their length; each element is the
/// statement at its position, rewritten under the table as of there.
pub proof fn lemma_rewrite_stmts_v_index(
    rules: Seq<TransformSpecV>,
    env0: RewriteEnv,
    stmts: Seq<StmtV>,
)
    ensures
        rewrite_stmts_v(rules, env0, stmts).len() == stmts.len(),
        forall|i: int| 0 <= i < stmts.len() ==> rewrite_stmts_v(rules, env0, stmts)[i]
            == rewrite_stmt_v(
            with_table(env0, table_after_stmts(rules, env0.table, stmts.take(i))),
            stmts[i],
        ),
    decreases stmts,
{
    if stmts.len() > 0 {
        lemma_rewrite_stmts_v_index(rules, env0, stmts.drop_last());
        assert forall|i: int| 0 <= i < stmts.len() implies rewrite_stmts_v(rules, env0, stmts)[i]
            == rewrite_stmt_v(
            with_table(env0, table_after_stmts(rules, env0.table, stmts.take(i))),
            stmts[i],
        ) by {
            if i < stmts.len() - 1 {
                assert(stmts.drop_last().take(i) =~= stmts.take(i));
                assert(stmts.drop_last()[i] == stmts[i]);
            } else {
                assert(stmts.take(i) =~= stmts.drop_last());
            }
        }
    }
}

/// Runs the pass over one module under the given configuration: the library
/// entry the host calls once per module.
pub fn transform_program(
    config: &Config,
    source: &ModuleSource,
    module_filename: &String,
    program: &JsModule,
) -> (r: JsModule)
    ensures
        r@ == transform_module_v(
            config@,
            module_filename@,
            source.line_starts@,
            source.text@,
            program@,
        ),
{
    let mut visitor = TransformVisitor::new(
        config.duplicate(),
        ModuleSource {
            line_starts: clone_u32s(&source.line_starts),
            text: source.text.clone(),
        },
    );
    visitor.visit_mut_program(program, module_filename)
}

/// A copy of a vector of offsets, equal to it.
fn clone_u32s(s: &Vec<u32>) -> (r: Vec<u32>)
    ensures
        r@ == s@,
{
    let mut r: Vec<u32> = Vec::new();
    let mut i: usize = 0;
    while i < s.len()
        invariant
            i <= s@.len(),
            r@ == s@.take(i as int),
        decreases s@.len() - i,
    {
        r.push(s[i]);
        proof {
            assert(r@ =~= s@.take(i as int + 1));
        }
        i = i + 1;
    }
    proof {
        assert(s@.take(s@.len() as int) =~= s@);
    }
    r
}

} // verus!
