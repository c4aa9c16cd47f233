//! Tests of the source-position resolvers, the configuration lookup, the
//! binding table, and the window bookkeeping.

use composer_core::ast::{Expr, Ident, ImportDecl, ImportSpecifier, ModuleExportName, Span};
use composer_core::binding::BindingTable;
use composer_core::config::{create_test_config, Config, TransformSpec};
use composer_core::matcher::get_config_for_expression;
use composer_core::source::ModuleSource;
use composer_core::spotlight::{centered_position, default_auto_hide, default_label,
    default_shortcut, default_title, toggle_action, MacOSPlatform, SpotlightState, ToggleAction};
use composer_core::window_state::WindowState;

fn source(starts: Vec<u32>, text: &str) -> ModuleSource {
    ModuleSource { line_starts: starts, text: text.to_string() }
}

#[test]
fn line_of_pos_is_one_based() {
    let s = source(vec![0, 10, 25], "");
    assert_eq!(s.line_of_pos(0), 1);
    assert_eq!(s.line_of_pos(9), 1);
    assert_eq!(s.line_of_pos(10), 2);
    assert_eq!(s.line_of_pos(24), 2);
    assert_eq!(s.line_of_pos(25), 3);
    assert_eq!(s.line_of_pos(1000), 3);
}

#[test]
fn position_without_mapping_resolves_to_zero() {
    let empty = source(vec![], "");
    assert_eq!(empty.line_of_pos(5), 0);
    let late = source(vec![10, 20], "");
    assert_eq!(late.line_of_pos(3), 0);
}

#[test]
fn dummy_span_resolves_to_line_zero() {
    let s = source(vec![0, 10], "");
    assert_eq!(s.line_of_span(&Span { lo: 0, hi: 0 }), 0);
    assert_eq!(s.line_of_span(&Span { lo: 0, hi: 1 }), 1);
}

#[test]
fn snippet_reads_span_text() {
    let s = source(vec![0], "log('test');");
    assert_eq!(s.snippet(&Span { lo: 4, hi: 10 }), "'test'");
    assert_eq!(s.snippet(&Span { lo: 0, hi: 12 }), "log('test');");
}

#[test]
fn unresolvable_snippet_is_empty() {
    let s = source(vec![0], "log();");
    assert_eq!(s.snippet(&Span { lo: 4, hi: 100 }), "");
    assert_eq!(s.snippet(&Span { lo: 5, hi: 4 }), "");
}

#[test]
fn test_config_rules() {
    let c = create_test_config();
    assert_eq!(c.filename, Some("input.js".to_string()));
    assert_eq!(c.to_transform.len(), 3);
    assert_eq!(c.to_transform[0].name, "log");
    assert_eq!(c.to_transform[0].package, "@dxos/log");
    assert_eq!(c.to_transform[0].param_index, 2);
    assert!(c.to_transform[0].include_call_site);
    assert!(c.to_transform[0].include_scope);
    assert!(!c.to_transform[0].include_args);
    assert_eq!(c.to_transform[1].name, "invariant");
    assert!(c.to_transform[1].include_args);
    assert_eq!(c.to_transform[2].name, "Context");
    assert_eq!(c.to_transform[2].param_index, 0);
}

#[test]
fn rule_lookup_is_package_qualified() {
    let c = create_test_config();
    assert!(c.rule_for(&"@dxos/log".to_string(), &"log".to_string()).is_some());
    assert!(c.rule_for(&"debug".to_string(), &"log".to_string()).is_none());
    assert!(c.rule_for(&"@dxos/log".to_string(), &"Context".to_string()).is_none());
}

#[test]
fn later_rule_for_same_pair_wins() {
    let c = Config {
        filename: None,
        to_transform: vec![
            TransformSpec {
                name: "log".to_string(),
                package: "pkg".to_string(),
                param_index: 1,
                include_args: false,
                include_call_site: false,
                include_scope: false,
            },
            TransformSpec {
                name: "log".to_string(),
                package: "pkg".to_string(),
                param_index: 4,
                include_args: true,
                include_call_site: false,
                include_scope: false,
            },
        ],
    };
    let rule = c.rule_for(&"pkg".to_string(), &"log".to_string()).expect("rule");
    assert_eq!(rule.param_index, 4);
}

#[test]
fn binding_identity_distinguishes_contexts() {
    let mut table = BindingTable::new();
    let config = create_test_config();
    table.register_import(
        &config,
        &ImportDecl {
            src: "@dxos/log".to_string(),
            specifiers: vec![ImportSpecifier::Named {
                local: Ident { sym: "log".to_string(), ctxt: 1 },
                imported: None,
            }],
        },
    );
    let imported = Expr::Ident(Ident { sym: "log".to_string(), ctxt: 1 });
    let shadowing = Expr::Ident(Ident { sym: "log".to_string(), ctxt: 2 });
    assert!(get_config_for_expression(&table, &imported).is_some());
    assert!(get_config_for_expression(&table, &shadowing).is_none());
}

#[test]
fn non_named_clauses_register_nothing() {
    let mut table = BindingTable::new();
    let config = create_test_config();
    table.register_import(
        &config,
        &ImportDecl {
            src: "@dxos/log".to_string(),
            specifiers: vec![
                ImportSpecifier::Other,
                ImportSpecifier::Named {
                    local: Ident { sym: "log".to_string(), ctxt: 1 },
                    imported: Some(ModuleExportName::Other),
                },
            ],
        },
    );
    let local = Expr::Ident(Ident { sym: "log".to_string(), ctxt: 1 });
    assert!(get_config_for_expression(&table, &local).is_none());
}

#[test]
fn duplicate_copies_expressions() {
    let e = Expr::Call {
        callee: composer_core::ast::Callee::Expr(Box::new(Expr::Ident(Ident {
            sym: "f".to_string(),
            ctxt: 3,
        }))),
        args: vec![composer_core::ast::Arg {
            spread: false,
            expr: Expr::StrLit("x".to_string()),
            span: Span { lo: 1, hi: 4 },
        }],
        span: Span { lo: 0, hi: 5 },
    };
    assert_eq!(e.duplicate(), e);
}

#[test]
fn spotlight_defaults() {
    assert_eq!(default_label(), "popover");
    assert_eq!(default_title(), "Composer Quick Access");
    assert_eq!(default_shortcut(), "Alt+Space");
    assert!(default_auto_hide());
}

#[test]
fn spotlight_visibility_state() {
    let mut s = SpotlightState::new();
    assert!(!s.is_visible());
    s.set_visible(true);
    assert!(s.is_visible());
    s.set_visible(false);
    assert!(!s.is_visible());
    assert_eq!(SpotlightState::default(), SpotlightState::new());
}

#[test]
fn toggle_decisions() {
    assert_eq!(toggle_action(false, false), ToggleAction::CreateAndShow);
    assert_eq!(toggle_action(false, true), ToggleAction::CreateAndShow);
    assert_eq!(toggle_action(true, false), ToggleAction::Show);
    assert_eq!(toggle_action(true, true), ToggleAction::Hide);
}

#[test]
fn centering_splits_leftover_space() {
    assert_eq!(centered_position(1920, 1080, 600, 400), (660, 340));
    assert_eq!(centered_position(100, 100, 100, 100), (0, 0));
}

#[test]
fn centering_saturates_on_oversized_window() {
    assert_eq!(centered_position(500, 400, 800, 900), (0, 0));
}

#[test]
fn platform_markers() {
    assert_eq!(MacOSPlatform::new(), MacOSPlatform);
    let w = WindowState { width: 1280, height: 720, x: 10, y: -5 };
    assert_eq!(w, w);
}
