//! The declarative configuration that drives the pass.
//!
//! Each rule names one exported symbol of one package and says where the
//! metadata argument belongs and which of its optional members to build.
//! Lookup is always package-qualified first and name-qualified second, so
//! same-named symbols of different packages never collide.

use vstd::prelude::*;

verus! {

/// One configured rule: which symbol, from which package, gets which
/// treatment.
#[derive(Debug, PartialEq, Eq, Clone)]
pub struct TransformSpec {
    /// The exported symbol name to match.
    pub name: String,
    /// The module specifier an import must use for the rule to apply.
    pub package: String,
    /// Zero-based position at which the metadata argument belongs.
    pub param_index: usize,
    /// Whether to capture the raw source text of each supplied argument.
    pub include_args: bool,
    /// Whether to include the lazily-evaluated forwarding closure.
    pub include_call_site: bool,
    /// Whether to include a reference to the enclosing dynamic receiver.
    pub include_scope: bool,
}

/// Mathematical counterpart of [`TransformSpec`].
pub struct TransformSpecV {
    pub name: Seq<char>,
    pub package: Seq<char>,
    pub param_index: usize,
    pub include_args: bool,
    pub include_call_site: bool,
    pub include_scope: bool,
}

impl View for TransformSpec {
    type V = TransformSpecV;

    open spec fn view(&self) -> TransformSpecV {
        TransformSpecV {
            name: self.name@,
            package: self.package@,
            param_index: self.param_index,
            include_args: self.include_args,
            include_call_site: self.include_call_site,
            include_scope: self.include_scope,
        }
    }
}

impl TransformSpec {
    /// A copy of this rule, equal to it.
    pub fn duplicate(&self) -> (r: TransformSpec)
        ensures
            r == *self,
    {
        TransformSpec {
            name: self.name.clone(),
            package: self.package.clone(),
            param_index: self.param_index,
            include_args: self.include_args,
            include_call_site: self.include_call_site,
            include_scope: self.include_scope,
        }
    }
}

/// Copies of a slice of rules, equal to it element by element.
pub fn duplicate_specs(s: &Vec<TransformSpec>) -> (r: Vec<TransformSpec>)
    ensures
        r@.len() == s@.len(),
        forall|j: int| 0 <= j < s@.len() ==> r@[j] == s@[j],
{
    let mut r: Vec<TransformSpec> = Vec::new();
    let mut i: usize = 0;
    while i < s.len()
        invariant
            i <= s@.len(),
            r@.len() == i,
            forall|j: int| 0 <= j < i ==> r@[j] == s@[j],
        decreases s@.len() - i,
    {
        let t = s[i].duplicate();
        r.push(t);
        i = i + 1;
    }
    r
}

/// The whole configuration: the rules in order, and an optional filename
/// that overrides the module's resolved one (used for deterministic
/// fixtures).
#[derive(Debug, PartialEq, Eq, Clone)]
pub struct Config {
    pub filename: Option<String>,
    pub to_transform: Vec<TransformSpec>,
}

/// Mathematical counterpart of [`Config`].
pub struct ConfigV {
    pub filename: Option<Seq<char>>,
    pub to_transform: Seq<TransformSpecV>,
}

impl View for Config {
    type V = ConfigV;

    open spec fn view(&self) -> ConfigV {
        ConfigV {
            filename: match self.filename {
                Some(f) => Some(f@),
                None => None,
            },
            to_transform: Seq::new(
                self.to_transform@.len(),
                |i: int| self.to_transform@[i]@,
            ),
        }
    }
}

impl Config {
    /// A copy of this configuration with the same view.
    pub fn duplicate(&self) -> (r: Config)
        ensures
            r@ == self@,
    {
        let filename = match &self.filename {
            Some(f) => Some(f.clone()),
            None => None,
        };
        let to_transform = duplicate_specs(&self.to_transform);
        let r = Config { filename, to_transform };
        proof {
            assert(r@.to_transform =~= self@.to_transform);
        }
        r
    }
}

/// The rule for the symbol `name` exported by `package`: of the rules that
/// match both, the one listed last.
pub open spec fn find_rule(
    rules: Seq<TransformSpecV>,
    package: Seq<char>,
    name: Seq<char>,
) -> Option<TransformSpecV>
    decreases rules,
{
    if rules.len() == 0 {
        None
    } else if rules.last().package == package && rules.last().name == name {
        Some(rules.last())
    } else {
        find_rule(rules.drop_last(), package, name)
    }
}

impl Config {
    /// Looks the rule up for a symbol imported from a package; of several
    /// rules for the same pair, the one listed last applies.
    pub fn rule_for(&self, package: &String, name: &String) -> (r: Option<&TransformSpec>)
        ensures
            match r {
                Some(t) => find_rule(self@.to_transform, package@, name@) == Some(t@),
                None => find_rule(self@.to_transform, package@, name@) is None,
            },
    {
        let ghost rules = self@.to_transform;
        let mut i: usize = self.to_transform.len();
        proof {
            assert(rules.take(i as int) =~= rules);
        }
        while i > 0
            invariant
                i <= self.to_transform@.len(),
                rules == self@.to_transform,
                rules.len() == self.to_transform@.len(),
                forall|j: int| 0 <= j < rules.len() ==> rules[j] == self.to_transform@[j]@,
                find_rule(rules, package@, name@) == find_rule(rules.take(i as int), package@, name@),
            decreases i,
        {
            let t = &self.to_transform[i - 1];
            proof {
                assert(rules.take(i as int).last() == rules[i as int - 1]);
                assert(rules.take(i as int).drop_last() =~= rules.take(i as int - 1));
            }
            if t.package == *package && t.name == *name {
                return Some(t);
            }
            i = i - 1;
        }
        proof {
            assert(rules.take(0) =~= Seq::<TransformSpecV>::empty());
        }
        None
    }
}

/// The configuration the fixture tests run under: a logging call with
/// scope and forwarder, an assertion call that captures argument text, and a
/// tracked constructor.
pub fn create_test_config() -> (c: Config)
    ensures
        c@.filename == Some("input.js"@),
        c@.to_transform.len() == 3,
        c@.to_transform[0] == (TransformSpecV {
            name: "log"@,
            package: "@dxos/log"@,
            param_index: 2,
            include_args: false,
            include_call_site: true,
            include_scope: true,
        }),
        c@.to_transform[1] == (TransformSpecV {
            name: "invariant"@,
            package: "@dxos/log"@,
            param_index: 2,
            include_args: true,
            include_call_site: false,
            include_scope: true,
        }),
        c@.to_transform[2] == (TransformSpecV {
            name: "Context"@,
            package: "@dxos/context"@,
            param_index: 0,
            include_args: false,
            include_call_site: false,
            include_scope: false,
        }),
{
    let mut to_transform: Vec<TransformSpec> = Vec::new();
    to_transform.push(TransformSpec {
        name: "log".to_owned(),
        package: "@dxos/log".to_owned(),
        param_index: 2,
        include_args: false,
        include_call_site: true,
        include_scope: true,
    });
    to_transform.push(TransformSpec {
        name: "invariant".to_owned(),
        package: "@dxos/log".to_owned(),
        param_index: 2,
        include_args: true,
        include_call_site: false,
        include_scope: true,
    });
    to_transform.push(TransformSpec {
        name: "Context".to_owned(),
        package: "@dxos/context".to_owned(),
        param_index: 0,
        include_args: false,
        include_call_site: false,
        include_scope: false,
    });
    Config { filename: Some("input.js".to_owned()), to_transform }
}

} // verus!
