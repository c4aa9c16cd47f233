//! The per-module table of tracked bindings.
//!
//! While imports are scanned, every named clause whose package and exported
//! name match a configured rule registers its local binding here, under the
//! binding's identity (text plus declaration context), so renamed imports
//! are tracked under their local name and unrelated same-named bindings stay
//! apart. The table lives only for one module's rewrite.

use vstd::prelude::*;

use crate::ast::{Ident, IdentV, ImportDecl, ImportSpecifier, ImportSpecifierV, ModuleExportName,
    ModuleExportNameV};
use crate::config::{find_rule, Config, TransformSpec, TransformSpecV};

verus! {

/// One registered binding: a local identifier and the rule it satisfies.
#[derive(Debug, PartialEq, Eq, Clone)]
pub struct Binding {
    pub local: Ident,
    pub rule: TransformSpec,
}

/// Mathematical counterpart of [`Binding`].
pub struct BindingV {
    pub local: IdentV,
    pub rule: TransformSpecV,
}

impl View for Binding {
    type V = BindingV;

    open spec fn view(&self) -> BindingV {
        BindingV { local: self.local@, rule: self.rule@ }
    }
}

/// The bindings registered so far, in registration order.
#[derive(Debug, PartialEq, Eq, Clone)]
pub struct BindingTable {
    pub entries: Vec<Binding>,
}

impl View for BindingTable {
    type V = Seq<BindingV>;

    open spec fn view(&self) -> Seq<BindingV> {
        Seq::new(self.entries@.len(), |i: int| self.entries@[i]@)
    }
}

/// The rule registered for a binding identity, the latest registration
/// winning; `None` for an identity that no matching import introduced.
pub open spec fn table_lookup(entries: Seq<BindingV>, key: IdentV) -> Option<TransformSpecV>
    decreases entries,
{
    if entries.len() == 0 {
        None
    } else if entries.last().local == key {
        Some(entries.last().rule)
    } else {
        table_lookup(entries.drop_last(), key)
    }
}

/// The binding one import clause registers under the given rules: the local
/// identifier mapped to the rule for (package, imported name). The imported
/// name is the package's own name for the symbol — the local name only when
/// the clause does not rename. Non-named clauses and string export names
/// register nothing.
pub open spec fn specifier_binding(
    rules: Seq<TransformSpecV>,
    src: Seq<char>,
    s: ImportSpecifierV,
) -> Option<BindingV> {
    match s {
        ImportSpecifierV::Named { local, imported } => {
            let name = match imported {
                None => Some(local.sym),
                Some(ModuleExportNameV::Named(n)) => Some(n),
                Some(ModuleExportNameV::Other) => None,
            };
            match name {
                Some(n) => match find_rule(rules, src, n) {
                    Some(r) => Some(BindingV { local, rule: r }),
                    None => None,
                },
                None => None,
            }
        },
        ImportSpecifierV::Other => None,
    }
}

/// All bindings one import statement registers, in clause order.
pub open spec fn import_bindings(
    rules: Seq<TransformSpecV>,
    src: Seq<char>,
    specifiers: Seq<ImportSpecifierV>,
) -> Seq<BindingV>
    decreases specifiers,
{
    if specifiers.len() == 0 {
        Seq::empty()
    } else {
        import_bindings(rules, src, specifiers.drop_last()) + (
        match specifier_binding(rules, src, specifiers.last()) {
            Some(b) => seq![b],
            None => Seq::empty(),
        })
    }
}

impl BindingTable {
    /// An empty table: nothing is tracked yet.
    pub fn new() -> (t: BindingTable)
        ensures
            t@ == Seq::<BindingV>::empty(),
    {
        let t = BindingTable { entries: Vec::new() };
        proof {
            assert(t@ =~= Seq::<BindingV>::empty());
        }
        t
    }

    /// The rule registered for this identifier's binding identity, if any.
    pub fn get_transform_spec_for_id(&self, ident: &Ident) -> (r: Option<&TransformSpec>)
        ensures
            match r {
                Some(t) => table_lookup(self@, ident@) == Some(t@),
                None => table_lookup(self@, ident@) is None,
            },
    {
        let ghost entries = self@;
        let mut i: usize = self.entries.len();
        proof {
            assert(entries.take(i as int) =~= entries);
        }
        while i > 0
            invariant
                i <= self.entries@.len(),
                entries == self@,
                entries.len() == self.entries@.len(),
                forall|j: int| 0 <= j < entries.len() ==> entries[j] == self.entries@[j]@,
                table_lookup(entries, ident@) == table_lookup(entries.take(i as int), ident@),
            decreases i,
        {
            proof {
                assert(entries.take(i as int).last() == entries[i as int - 1]);
                assert(entries.take(i as int).drop_last() =~= entries.take(i as int - 1));
            }
            if self.entries[i - 1].local.same_binding(ident) {
                return Some(&self.entries[i - 1].rule);
            }
            i = i - 1;
        }
        proof {
            assert(entries.take(0) =~= Seq::<BindingV>::empty());
        }
        None
    }

    /// Scans one import statement and registers every named clause whose
    /// package and imported name a rule matches; everything already
    /// registered stays.
    pub fn register_import(&mut self, config: &Config, d: &ImportDecl)
        ensures
            final(self)@ == old(self)@ + import_bindings(
                config@.to_transform,
                d@.src,
                d@.specifiers,
            ),
    {
        let ghost rules = config@.to_transform;
        let ghost src = d@.src;
        let ghost specs = d@.specifiers;
        let ghost entries0 = old(self)@;
        let mut i: usize = 0;
        proof {
            assert(import_bindings(rules, src, specs.take(0)) =~= Seq::<BindingV>::empty());
            assert(self@ =~= entries0 + import_bindings(rules, src, specs.take(0)));
        }
        while i < d.specifiers.len()
            invariant
                i <= d.specifiers@.len(),
                rules == config@.to_transform,
                src == d@.src,
                specs == d@.specifiers,
                specs.len() == d.specifiers@.len(),
                forall|j: int| 0 <= j < specs.len() ==> specs[j] == crate::ast::specifier_view(
                    d.specifiers@[j],
                ),
                self@ == entries0 + import_bindings(rules, src, specs.take(i as int)),
            decreases d.specifiers@.len() - i,
        {
            let ghost prev = self@;
            proof {
                assert(specs.take(i as int + 1).drop_last() =~= specs.take(i as int));
                assert(specs.take(i as int + 1).last() == specs[i as int]);
            }
            match &d.specifiers[i] {
                ImportSpecifier::Named { local, imported } => {
                    let name: Option<&String> = match imported {
                        None => Some(&local.sym),
                        Some(ModuleExportName::Named(n)) => Some(n),
                        Some(ModuleExportName::Other) => None,
                    };
                    match name {
                        Some(n) => {
                            match config.rule_for(&d.src, n) {
                                Some(t) => {
                                    let b = Binding {
                                        local: local.duplicate(),
                                        rule: t.duplicate(),
                                    };
                                    self.entries.push(b);
                                    proof {
                                        assert(self@ =~= prev + seq![b@]);
                                    }
                                },
                                None => {},
                            }
                        },
                        None => {},
                    }
                },
                ImportSpecifier::Other => {},
            }
            proof {
                assert(self@ =~= entries0 + import_bindings(rules, src, specs.take(i as int + 1)));
            }
            i = i + 1;
        }
        proof {
            assert(specs.take(specs.len() as int) =~= specs);
        }
    }
}

} // verus!
