//! Syntax model for one JavaScript module.
//!
//! The pass works on this tree; only the shapes the rewrite inspects are
//! modelled precisely (identifiers, member accesses, calls, constructions,
//! imports, the literal forms the injected metadata is built from). Every
//! other expression form is carried as an `Other` node that keeps its child
//! expressions, so the traversal still reaches calls nested anywhere.
//!
//! Each executable type has a mathematical counterpart (the `...V` types,
//! with `Seq` in place of `Vec` and `String`) and a view function onto it;
//! all contracts are stated over the counterparts.

use vstd::prelude::*;

verus! {

/// A source span: character offsets into the module's source text.
/// The span `lo == hi == 0` is the dummy span of synthesized nodes.
#[derive(Clone, Copy, Debug, PartialEq, Eq, Structural)]
pub struct Span {
    pub lo: u32,
    pub hi: u32,
}

impl Span {
    /// The span given to every node this pass synthesizes.
    pub open spec fn spec_dummy() -> Span {
        Span { lo: 0, hi: 0 }
    }

    /// Whether this is the span of a synthesized node, which no source
    /// position can be derived from.
    pub open spec fn is_dummy(self) -> bool {
        self.lo == 0 && self.hi == 0
    }

    #[verifier::when_used_as_spec(spec_dummy)]
    pub fn dummy() -> (s: Span)
        ensures
            s == Span::spec_dummy(),
    {
        Span { lo: 0, hi: 0 }
    }
}

/// A local identifier: its text together with the syntactic context that
/// identifies its declaration, so that two same-named bindings from
/// different declarations stay distinct.
#[derive(Clone, Debug, PartialEq, Eq)]
pub struct Ident {
    pub sym: String,
    pub ctxt: u32,
}

/// Mathematical counterpart of [`Ident`].
pub struct IdentV {
    pub sym: Seq<char>,
    pub ctxt: u32,
}

impl View for Ident {
    type V = IdentV;

    open spec fn view(&self) -> IdentV {
        IdentV { sym: self.sym@, ctxt: self.ctxt }
    }
}

impl Ident {
    /// Structural equality of identifiers: same text, same declaration
    /// context.
    pub fn same_binding(&self, other: &Ident) -> (r: bool)
        ensures
            r == (self@ == other@),
    {
        let r = self.sym == other.sym && self.ctxt == other.ctxt;
        proof {
            if r {
                assert(self@.sym == other@.sym);
            }
        }
        r
    }
}

/// What a call is applied to.
#[derive(Debug, PartialEq, Eq)]
pub enum Callee {
    /// An ordinary expression callee.
    Expr(Box<Expr>),
    /// `super` or `import` callees, which the pass never matches.
    Other,
}

/// Mathematical counterpart of [`Callee`].
pub enum CalleeV {
    Expr(Box<ExprV>),
    Other,
}

/// One element of an argument list (or of an array literal): an expression,
/// optionally spread, together with the span of its source text.
#[derive(Debug, PartialEq, Eq)]
pub struct Arg {
    pub spread: bool,
    pub expr: Expr,
    pub span: Span,
}

/// Mathematical counterpart of [`Arg`].
pub struct ArgV {
    pub spread: bool,
    pub expr: ExprV,
    pub span: Span,
}

/// One `key: value` member of an object literal.
#[derive(Debug, PartialEq, Eq)]
pub struct Prop {
    pub key: String,
    pub value: Expr,
}

/// Mathematical counterpart of [`Prop`].
pub struct PropV {
    pub key: Seq<char>,
    pub value: ExprV,
}

/// The property part of a member access.
#[derive(Debug, PartialEq, Eq)]
pub enum MemberProp {
    /// `obj.name`
    Named(String),
    /// `obj[expr]`
    Computed(Box<Expr>),
}

/// Mathematical counterpart of [`MemberProp`].
pub enum MemberPropV {
    Named(Seq<char>),
    Computed(Box<ExprV>),
}

/// An expression of the module.
#[derive(Debug, PartialEq, Eq)]
pub enum Expr {
    /// A reference to a binding.
    Ident(Ident),
    /// `obj.prop` or `obj[prop]`.
    Member { obj: Box<Expr>, prop: MemberProp },
    /// A call, `f(...)`; `span` covers the whole call in the source.
    Call { callee: Callee, args: Vec<Arg>, span: Span },
    /// A construction, `new C(...)`; `args` is `None` when the source wrote
    /// no argument list at all.
    New { callee: Box<Expr>, args: Option<Vec<Arg>>, span: Span },
    /// The enclosing dynamic receiver, `this`.
    This,
    /// A string literal.
    StrLit(String),
    /// An unsigned integer literal (the only number form the pass creates).
    NumLit(u64),
    /// The inert placeholder expression `void 0`.
    VoidZero,
    /// An object literal.
    Object(Vec<Prop>),
    /// An array literal.
    Array(Vec<Arg>),
    /// An arrow function with an expression body.
    Arrow { params: Vec<Ident>, body: Box<Expr> },
    /// Any other expression form: `tag` is host bookkeeping, `children` are
    /// its sub-expressions in source order, so the traversal reaches them.
    Other { tag: u64, children: Vec<Expr>, span: Span },
}

/// Mathematical counterpart of [`Expr`].
pub enum ExprV {
    Ident(IdentV),
    Member { obj: Box<ExprV>, prop: MemberPropV },
    Call { callee: CalleeV, args: Seq<ArgV>, span: Span },
    New { callee: Box<ExprV>, args: Option<Seq<ArgV>>, span: Span },
    This,
    StrLit(Seq<char>),
    NumLit(u64),
    VoidZero,
    Object(Seq<PropV>),
    Array(Seq<ArgV>),
    Arrow { params: Seq<IdentV>, body: Box<ExprV> },
    Other { tag: u64, children: Seq<ExprV>, span: Span },
}

/// The exported name an import clause refers to, as the package spells it.
#[derive(Debug, PartialEq, Eq, Clone)]
pub enum ModuleExportName {
    /// An identifier export name, `import { X ... }`.
    Named(String),
    /// A string export name, which the pass does not track.
    Other,
}

/// Mathematical counterpart of [`ModuleExportName`].
pub enum ModuleExportNameV {
    Named(Seq<char>),
    Other,
}

pub open spec fn export_name_view(n: ModuleExportName) -> ModuleExportNameV {
    match n {
        ModuleExportName::Named(s) => ModuleExportNameV::Named(s@),
        ModuleExportName::Other => ModuleExportNameV::Other,
    }
}

/// One clause of an import statement.
#[derive(Debug, PartialEq, Eq, Clone)]
pub enum ImportSpecifier {
    /// `import { X } from ...` or `import { X as Y } from ...`: `local` is
    /// the binding introduced here, `imported` the package's own name for it
    /// when the clause renames.
    Named { local: Ident, imported: Option<ModuleExportName> },
    /// Default, namespace and side-effect clauses, which introduce no
    /// tracked binding.
    Other,
}

/// Mathematical counterpart of [`ImportSpecifier`].
pub enum ImportSpecifierV {
    Named { local: IdentV, imported: Option<ModuleExportNameV> },
    Other,
}

pub open spec fn specifier_view(s: ImportSpecifier) -> ImportSpecifierV {
    match s {
        ImportSpecifier::Named { local, imported } => ImportSpecifierV::Named {
            local: local@,
            imported: match imported {
                Some(n) => Some(export_name_view(n)),
                None => None,
            },
        },
        ImportSpecifier::Other => ImportSpecifierV::Other,
    }
}

/// An import statement: its clauses and the module specifier it imports
/// from.
#[derive(Debug, PartialEq, Eq, Clone)]
pub struct ImportDecl {
    pub src: String,
    pub specifiers: Vec<ImportSpecifier>,
}

/// Mathematical counterpart of [`ImportDecl`].
pub struct ImportDeclV {
    pub src: Seq<char>,
    pub specifiers: Seq<ImportSpecifierV>,
}

pub open spec fn import_view(d: ImportDecl) -> ImportDeclV {
    ImportDeclV {
        src: d.src@,
        specifiers: Seq::new(d.specifiers@.len(), |i: int| specifier_view(d.specifiers@[i])),
    }
}

impl View for ImportDecl {
    type V = ImportDeclV;

    open spec fn view(&self) -> ImportDeclV {
        import_view(*self)
    }
}

/// One statement (module item) of the module body.
#[derive(Debug, PartialEq, Eq)]
pub enum Stmt {
    /// An import statement.
    Import(ImportDecl),
    /// An expression statement.
    Expr(Expr),
    /// A variable declaration with one declarator (the form the preamble
    /// takes; `init` is `None` for a bare declaration).
    VarDecl { name: Ident, init: Option<Expr> },
    /// Any other statement form, with its child expressions in source order.
    Other { tag: u64, children: Vec<Expr> },
}

/// Mathematical counterpart of [`Stmt`].
pub enum StmtV {
    Import(ImportDeclV),
    Expr(ExprV),
    VarDecl { name: IdentV, init: Option<ExprV> },
    Other { tag: u64, children: Seq<ExprV> },
}

pub open spec fn stmt_view(s: Stmt) -> StmtV
    decreases s,
{
    match s {
        Stmt::Import(d) => StmtV::Import(d@),
        Stmt::Expr(e) => StmtV::Expr(expr_view(e)),
        Stmt::VarDecl { name, init } => StmtV::VarDecl {
            name: name@,
            init: match init {
                Some(e) => Some(expr_view(e)),
                None => None,
            },
        },
        Stmt::Other { tag, children } => StmtV::Other { tag, children: exprs_view(children@) },
    }
}

impl View for Stmt {
    type V = StmtV;

    open spec fn view(&self) -> StmtV {
        stmt_view(*self)
    }
}

/// A whole module (or script): its statements in source order.
#[derive(Debug, PartialEq, Eq)]
pub struct JsModule {
    pub body: Vec<Stmt>,
}

/// Mathematical counterpart of [`JsModule`].
pub struct JsModuleV {
    pub body: Seq<StmtV>,
}

pub open spec fn stmts_view(s: Seq<Stmt>) -> Seq<StmtV> {
    Seq::new(s.len(), |i: int| stmt_view(s[i]))
}

impl View for JsModule {
    type V = JsModuleV;

    open spec fn view(&self) -> JsModuleV {
        JsModuleV { body: stmts_view(self.body@) }
    }
}

pub open spec fn expr_view(e: Expr) -> ExprV
    decreases e,
{
    match e {
        Expr::Ident(i) => ExprV::Ident(i@),
        Expr::Member { obj, prop } => ExprV::Member {
            obj: Box::new(expr_view(*obj)),
            prop: member_prop_view(prop),
        },
        Expr::Call { callee, args, span } => ExprV::Call {
            callee: callee_view(callee),
            args: args_view(args@),
            span,
        },
        Expr::New { callee, args, span } => ExprV::New {
            callee: Box::new(expr_view(*callee)),
            args: match args {
                Some(v) => Some(args_view(v@)),
                None => None,
            },
            span,
        },
        Expr::This => ExprV::This,
        Expr::StrLit(s) => ExprV::StrLit(s@),
        Expr::NumLit(n) => ExprV::NumLit(n),
        Expr::VoidZero => ExprV::VoidZero,
        Expr::Object(props) => ExprV::Object(props_view(props@)),
        Expr::Array(elems) => ExprV::Array(args_view(elems@)),
        Expr::Arrow { params, body } => ExprV::Arrow {
            params: Seq::new(params@.len(), |i: int| params@[i]@),
            body: Box::new(expr_view(*body)),
        },
        Expr::Other { tag, children, span } => ExprV::Other {
            tag,
            children: exprs_view(children@),
            span,
        },
    }
}

pub open spec fn member_prop_view(p: MemberProp) -> MemberPropV
    decreases p,
{
    match p {
        MemberProp::Named(s) => MemberPropV::Named(s@),
        MemberProp::Computed(e) => MemberPropV::Computed(Box::new(expr_view(*e))),
    }
}

pub open spec fn callee_view(c: Callee) -> CalleeV
    decreases c,
{
    match c {
        Callee::Expr(e) => CalleeV::Expr(Box::new(expr_view(*e))),
        Callee::Other => CalleeV::Other,
    }
}

pub open spec fn arg_view(a: Arg) -> ArgV
    decreases a,
{
    ArgV { spread: a.spread, expr: expr_view(a.expr), span: a.span }
}

pub open spec fn args_view(s: Seq<Arg>) -> Seq<ArgV>
    decreases s,
{
    if s.len() == 0 {
        Seq::empty()
    } else {
        args_view(s.drop_last()).push(arg_view(s.last()))
    }
}

pub open spec fn prop_view(p: Prop) -> PropV
    decreases p,
{
    PropV { key: p.key@, value: expr_view(p.value) }
}

pub open spec fn props_view(s: Seq<Prop>) -> Seq<PropV>
    decreases s,
{
    if s.len() == 0 {
        Seq::empty()
    } else {
        props_view(s.drop_last()).push(prop_view(s.last()))
    }
}

pub open spec fn exprs_view(s: Seq<Expr>) -> Seq<ExprV>
    decreases s,
{
    if s.len() == 0 {
        Seq::empty()
    } else {
        exprs_view(s.drop_last()).push(expr_view(s.last()))
    }
}

impl View for Expr {
    type V = ExprV;

    open spec fn view(&self) -> ExprV {
        expr_view(*self)
    }
}

impl View for Arg {
    type V = ArgV;

    open spec fn view(&self) -> ArgV {
        arg_view(*self)
    }
}

/// The views of a sequence of arguments are the arguments' views, index by
/// index.
pub proof fn lemma_args_view_index(s: Seq<Arg>)
    ensures
        args_view(s).len() == s.len(),
        forall|i: int| 0 <= i < s.len() ==> args_view(s)[i] == arg_view(s[i]),
    decreases s,
{
    if s.len() > 0 {
        lemma_args_view_index(s.drop_last());
    }
}

/// The views of a sequence of expressions are the expressions' views, index
/// by index.
pub proof fn lemma_exprs_view_index(s: Seq<Expr>)
    ensures
        exprs_view(s).len() == s.len(),
        forall|i: int| 0 <= i < s.len() ==> exprs_view(s)[i] == expr_view(s[i]),
    decreases s,
{
    if s.len() > 0 {
        lemma_exprs_view_index(s.drop_last());
    }
}

/// The views of a sequence of object members are the members' views, index
/// by index.
pub proof fn lemma_props_view_index(s: Seq<Prop>)
    ensures
        props_view(s).len() == s.len(),
        forall|i: int| 0 <= i < s.len() ==> props_view(s)[i] == prop_view(s[i]),
    decreases s,
{
    if s.len() > 0 {
        lemma_props_view_index(s.drop_last());
    }
}

impl Ident {
    /// A copy of this identifier, equal to it.
    pub fn duplicate(&self) -> (r: Ident)
        ensures
            r == *self,
    {
        Ident { sym: self.sym.clone(), ctxt: self.ctxt }
    }
}

impl Expr {
    /// A copy of this expression with the same view.
    pub fn duplicate(&self) -> (r: Expr)
        ensures
            expr_view(r) == expr_view(*self),
        decreases self,
    {
        match self {
            Expr::Ident(i) => Expr::Ident(i.duplicate()),
            Expr::Member { obj, prop } => Expr::Member {
                obj: Box::new(obj.duplicate()),
                prop: prop.duplicate(),
            },
            Expr::Call { callee, args, span } => Expr::Call {
                callee: callee.duplicate(),
                args: duplicate_args(args),
                span: *span,
            },
            Expr::New { callee, args, span } => Expr::New {
                callee: Box::new(callee.duplicate()),
                args: match args {
                    Some(v) => Some(duplicate_args(v)),
                    None => None,
                },
                span: *span,
            },
            Expr::This => Expr::This,
            Expr::StrLit(s) => Expr::StrLit(s.clone()),
            Expr::NumLit(n) => Expr::NumLit(*n),
            Expr::VoidZero => Expr::VoidZero,
            Expr::Object(props) => Expr::Object(duplicate_props(props)),
            Expr::Array(elems) => Expr::Array(duplicate_args(elems)),
            Expr::Arrow { params, body } => {
                let params2 = duplicate_idents(params);
                proof {
                    assert(Seq::new(params2@.len(), |i: int| params2@[i]@) =~= Seq::new(
                        params@.len(),
                        |i: int| params@[i]@,
                    ));
                }
                Expr::Arrow { params: params2, body: Box::new(body.duplicate()) }
            },
            Expr::Other { tag, children, span } => Expr::Other {
                tag: *tag,
                children: duplicate_exprs(children),
                span: *span,
            },
        }
    }
}

impl MemberProp {
    /// A copy of this member-access property with the same view.
    pub fn duplicate(&self) -> (r: MemberProp)
        ensures
            member_prop_view(r) == member_prop_view(*self),
        decreases self,
    {
        match self {
            MemberProp::Named(s) => MemberProp::Named(s.clone()),
            MemberProp::Computed(e) => MemberProp::Computed(Box::new(e.duplicate())),
        }
    }
}

impl Callee {
    /// A copy of this callee with the same view.
    pub fn duplicate(&self) -> (r: Callee)
        ensures
            callee_view(r) == callee_view(*self),
        decreases self,
    {
        match self {
            Callee::Expr(e) => Callee::Expr(Box::new(e.duplicate())),
            Callee::Other => Callee::Other,
        }
    }
}

impl Arg {
    /// A copy of this argument with the same view.
    pub fn duplicate(&self) -> (r: Arg)
        ensures
            arg_view(r) == arg_view(*self),
        decreases self,
    {
        Arg { spread: self.spread, expr: self.expr.duplicate(), span: self.span }
    }
}

impl Prop {
    /// A copy of this object member with the same view.
    pub fn duplicate(&self) -> (r: Prop)
        ensures
            prop_view(r) == prop_view(*self),
        decreases self,
    {
        Prop { key: self.key.clone(), value: self.value.duplicate() }
    }
}

/// Copies of a slice of arguments, with the same views.
pub fn duplicate_args(s: &Vec<Arg>) -> (r: Vec<Arg>)
    ensures
        args_view(r@) == args_view(s@),
    decreases s,
{
    let mut r: Vec<Arg> = Vec::new();
    let mut i: usize = 0;
    proof {
        lemma_args_view_index(s@);
        lemma_args_view_index(r@);
    }
    while i < s.len()
        invariant
            i <= s.len(),
            r@.len() == i,
            forall|j: int| 0 <= j < i ==> arg_view(r@[j]) == arg_view(s@[j]),
        decreases s@.len() - i,
    {
        proof {
            assert(decreases_to!(s@ => s@[i as int]));
        }
        let a = s[i].duplicate();
        r.push(a);
        i = i + 1;
    }
    proof {
        lemma_args_view_index(s@);
        lemma_args_view_index(r@);
        assert(args_view(r@) =~= args_view(s@));
    }
    r
}

/// Copies of a slice of object members, with the same views.
pub fn duplicate_props(s: &Vec<Prop>) -> (r: Vec<Prop>)
    ensures
        props_view(r@) == props_view(s@),
    decreases s,
{
    let mut r: Vec<Prop> = Vec::new();
    let mut i: usize = 0;
    while i < s.len()
        invariant
            i <= s.len(),
            r@.len() == i,
            forall|j: int| 0 <= j < i ==> prop_view(r@[j]) == prop_view(s@[j]),
        decreases s@.len() - i,
    {
        proof {
            assert(decreases_to!(s@ => s@[i as int]));
        }
        let p = s[i].duplicate();
        r.push(p);
        i = i + 1;
    }
    proof {
        lemma_props_view_index(s@);
        lemma_props_view_index(r@);
        assert(props_view(r@) =~= props_view(s@));
    }
    r
}

/// Copies of a slice of expressions, with the same views.
pub fn duplicate_exprs(s: &Vec<Expr>) -> (r: Vec<Expr>)
    ensures
        exprs_view(r@) == exprs_view(s@),
    decreases s,
{
    let mut r: Vec<Expr> = Vec::new();
    let mut i: usize = 0;
    while i < s.len()
        invariant
            i <= s.len(),
            r@.len() == i,
            forall|j: int| 0 <= j < i ==> expr_view(r@[j]) == expr_view(s@[j]),
        decreases s@.len() - i,
    {
        proof {
            assert(decreases_to!(s@ => s@[i as int]));
        }
        let e = s[i].duplicate();
        r.push(e);
        i = i + 1;
    }
    proof {
        lemma_exprs_view_index(s@);
        lemma_exprs_view_index(r@);
        assert(exprs_view(r@) =~= exprs_view(s@));
    }
    r
}

impl ModuleExportName {
    /// A copy of this export name with the same view.
    pub fn duplicate(&self) -> (r: ModuleExportName)
        ensures
            export_name_view(r) == export_name_view(*self),
    {
        match self {
            ModuleExportName::Named(s) => ModuleExportName::Named(s.clone()),
            ModuleExportName::Other => ModuleExportName::Other,
        }
    }
}

impl ImportSpecifier {
    /// A copy of this import clause with the same view.
    pub fn duplicate(&self) -> (r: ImportSpecifier)
        ensures
            specifier_view(r) == specifier_view(*self),
    {
        match self {
            ImportSpecifier::Named { local, imported } => ImportSpecifier::Named {
                local: local.duplicate(),
                imported: match imported {
                    Some(n) => Some(n.duplicate()),
                    None => None,
                },
            },
            ImportSpecifier::Other => ImportSpecifier::Other,
        }
    }
}

impl ImportDecl {
    /// A copy of this import statement with the same view.
    pub fn duplicate(&self) -> (r: ImportDecl)
        ensures
            r@ == self@,
    {
        let mut specifiers: Vec<ImportSpecifier> = Vec::new();
        let mut i: usize = 0;
        while i < self.specifiers.len()
            invariant
                i <= self.specifiers@.len(),
                specifiers@.len() == i,
                forall|j: int| 0 <= j < i ==> specifier_view(specifiers@[j]) == specifier_view(
                    self.specifiers@[j],
                ),
            decreases self.specifiers@.len() - i,
        {
            let s = self.specifiers[i].duplicate();
            specifiers.push(s);
            i = i + 1;
        }
        let r = ImportDecl { src: self.src.clone(), specifiers };
        proof {
            assert(r@.specifiers =~= self@.specifiers);
        }
        r
    }
}

/// Copies of a slice of identifiers, equal to it element by element.
pub fn duplicate_idents(s: &Vec<Ident>) -> (r: Vec<Ident>)
    ensures
        r@.len() == s@.len(),
        forall|j: int| 0 <= j < s@.len() ==> r@[j] == s@[j],
{
    let mut r: Vec<Ident> = Vec::new();
    let mut i: usize = 0;
    while i < s.len()
        invariant
            i <= s.len(),
            r@.len() == i,
            forall|j: int| 0 <= j < i ==> r@[j] == s@[j],
        decreases s@.len() - i,
    {
        let id = s[i].duplicate();
        r.push(id);
        i = i + 1;
    }
    r
}

} // verus!
