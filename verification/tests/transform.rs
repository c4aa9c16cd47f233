//! End-to-end tests of the pass: each builds a module tree, runs the pass
//! under the fixture configuration, and compares against the expected tree.

#![allow(dead_code)]

use composer_core::ast::{Arg, Callee, Expr, Ident, ImportDecl, ImportSpecifier, JsModule,
    MemberProp, ModuleExportName, Prop, Span, Stmt};
use composer_core::config::create_test_config;
use composer_core::source::ModuleSource;
use composer_core::visitor::transform_program;

fn sp(lo: u32, hi: u32) -> Span {
    Span { lo, hi }
}

fn dummy() -> Span {
    Span { lo: 0, hi: 0 }
}

fn id(sym: &str, ctxt: u32) -> Ident {
    Ident { sym: sym.to_string(), ctxt }
}

fn ident(sym: &str, ctxt: u32) -> Expr {
    Expr::Ident(id(sym, ctxt))
}

fn arg(e: Expr, span: Span) -> Arg {
    Arg { spread: false, expr: e, span }
}

fn str_arg(text: &str, span: Span) -> Arg {
    arg(Expr::StrLit(text.to_string()), span)
}

fn call(callee: Expr, args: Vec<Arg>, span: Span) -> Expr {
    Expr::Call { callee: Callee::Expr(Box::new(callee)), args, span }
}

fn method_call(obj: Expr, name: &str, args: Vec<Arg>, span: Span) -> Expr {
    call(
        Expr::Member { obj: Box::new(obj), prop: MemberProp::Named(name.to_string()) },
        args,
        span,
    )
}

fn import(src: &str, clauses: Vec<(Ident, Option<&str>)>) -> Stmt {
    Stmt::Import(ImportDecl {
        src: src.to_string(),
        specifiers: clauses
            .into_iter()
            .map(|(local, imported)| ImportSpecifier::Named {
                local,
                imported: imported.map(|n| ModuleExportName::Named(n.to_string())),
            })
            .collect(),
    })
}

/// The synthesized preamble statement under the fixture configuration,
/// whose filename override is `input.js`.
fn preamble() -> Stmt {
    Stmt::VarDecl {
        name: id("__dxlog_file", 0),
        init: Some(Expr::StrLit("input.js".to_string())),
    }
}

fn file_ref() -> Expr {
    ident("__dxlog_file", 0)
}

fn placeholder() -> Arg {
    arg(Expr::VoidZero, dummy())
}

/// The call-site forwarder the pass synthesizes: `(f, a) => f(...a)`.
fn forwarder() -> Expr {
    Expr::Arrow {
        params: vec![id("f", 0), id("a", 0)],
        body: Box::new(Expr::Call {
            callee: Callee::Expr(Box::new(ident("f", 0))),
            args: vec![Arg { spread: true, expr: ident("a", 0), span: dummy() }],
            span: dummy(),
        }),
    }
}

/// The metadata argument for the fixture `log` rule: `F`, `L`, `S`, `C`.
fn log_meta(line: u64) -> Arg {
    arg(
        Expr::Object(vec![
            Prop { key: "F".to_string(), value: file_ref() },
            Prop { key: "L".to_string(), value: Expr::NumLit(line) },
            Prop { key: "S".to_string(), value: Expr::This },
            Prop { key: "C".to_string(), value: forwarder() },
        ]),
        dummy(),
    )
}

/// The metadata argument for the fixture `invariant` rule: `F`, `L`, `S`,
/// `A` with one string per originally supplied argument.
fn invariant_meta(line: u64, snippets: Vec<&str>) -> Arg {
    arg(
        Expr::Object(vec![
            Prop { key: "F".to_string(), value: file_ref() },
            Prop { key: "L".to_string(), value: Expr::NumLit(line) },
            Prop { key: "S".to_string(), value: Expr::This },
            Prop {
                key: "A".to_string(),
                value: Expr::Array(
                    snippets
                        .into_iter()
                        .map(|s| arg(Expr::StrLit(s.to_string()), dummy()))
                        .collect(),
                ),
            },
        ]),
        dummy(),
    )
}

/// The metadata argument for the fixture `Context` rule: `F` and `L` only.
fn context_meta(line: u64) -> Arg {
    arg(
        Expr::Object(vec![
            Prop { key: "F".to_string(), value: file_ref() },
            Prop { key: "L".to_string(), value: Expr::NumLit(line) },
        ]),
        dummy(),
    )
}

/// Line starts of a text: offset 0, then one past every newline. The test
/// texts are ASCII, so byte and character offsets agree.
fn starts_of(text: &str) -> Vec<u32> {
    let mut starts = vec![0u32];
    for (i, c) in text.chars().enumerate() {
        if c == '\n' {
            starts.push((i + 1) as u32);
        }
    }
    starts
}

/// The span of the `n`-th (0-based) occurrence of `pat` in the text.
fn span_of_nth(text: &str, pat: &str, n: usize) -> Span {
    let mut from = 0usize;
    let mut found = 0usize;
    loop {
        let lo = from + text[from..].find(pat).expect("pattern not in fixture text");
        if found == n {
            return sp(lo as u32, (lo + pat.len()) as u32);
        }
        found += 1;
        from = lo + 1;
    }
}

fn span_of(text: &str, pat: &str) -> Span {
    span_of_nth(text, pat, 0)
}

/// Runs the pass under the fixture configuration.
fn run_fixture(text: &str, body: Vec<Stmt>) -> JsModule {
    let config = create_test_config();
    let source = ModuleSource { line_starts: starts_of(text), text: text.to_string() };
    transform_program(&config, &source, &"module.js".to_string(), &JsModule { body })
}

#[test]
fn single_log() {
    let text = "import { log } from '@dxos/log';\nlog('test');";
    let out = run_fixture(
        text,
        vec![
            import("@dxos/log", vec![(id("log", 1), None)]),
            Stmt::Expr(call(
                ident("log", 1),
                vec![str_arg("test", span_of(text, "'test'"))],
                span_of(text, "log('test')"),
            )),
        ],
    );
    let expected = JsModule {
        body: vec![
            preamble(),
            import("@dxos/log", vec![(id("log", 1), None)]),
            Stmt::Expr(call(
                ident("log", 1),
                vec![str_arg("test", span_of(text, "'test'")), placeholder(), log_meta(2)],
                span_of(text, "log('test')"),
            )),
        ],
    };
    assert_eq!(out, expected);
}

#[test]
fn single_constructor() {
    let text = "import { Context } from '@dxos/context';\nconst ctx = new Context();";
    let out = run_fixture(
        text,
        vec![
            import("@dxos/context", vec![(id("Context", 1), None)]),
            Stmt::VarDecl {
                name: id("ctx", 1),
                init: Some(Expr::New {
                    callee: Box::new(ident("Context", 1)),
                    args: Some(vec![]),
                    span: span_of(text, "new Context()"),
                }),
            },
        ],
    );
    let expected = JsModule {
        body: vec![
            preamble(),
            import("@dxos/context", vec![(id("Context", 1), None)]),
            Stmt::VarDecl {
                name: id("ctx", 1),
                init: Some(Expr::New {
                    callee: Box::new(ident("Context", 1)),
                    args: Some(vec![context_meta(2)]),
                    span: span_of(text, "new Context()"),
                }),
            },
        ],
    };
    assert_eq!(out, expected);
}

#[test]
fn construction_without_argument_list() {
    // A construction written without parentheses first gets an empty
    // argument list synthesized, then the metadata injected.
    let text = "import { Context } from '@dxos/context';\nconst ctx = new Context;";
    let out = run_fixture(
        text,
        vec![
            import("@dxos/context", vec![(id("Context", 1), None)]),
            Stmt::VarDecl {
                name: id("ctx", 1),
                init: Some(Expr::New {
                    callee: Box::new(ident("Context", 1)),
                    args: None,
                    span: span_of(text, "new Context"),
                }),
            },
        ],
    );
    match &out.body[2] {
        Stmt::VarDecl { init: Some(Expr::New { args, .. }), .. } => {
            assert_eq!(args, &Some(vec![context_meta(2)]));
        },
        other => panic!("unexpected statement shape: {:?}", other),
    }
}

#[test]
fn multiple_log_statements() {
    let text =
        "import { log } from '@dxos/log';\nlog('test1');\n\nsome.other.code();\n\nlog('test2');";
    let unrelated = || {
        Stmt::Expr(call(
            Expr::Member {
                obj: Box::new(Expr::Member {
                    obj: Box::new(ident("some", 2)),
                    prop: MemberProp::Named("other".to_string()),
                }),
                prop: MemberProp::Named("code".to_string()),
            },
            vec![],
            span_of(text, "some.other.code()"),
        ))
    };
    let out = run_fixture(
        text,
        vec![
            import("@dxos/log", vec![(id("log", 1), None)]),
            Stmt::Expr(call(
                ident("log", 1),
                vec![str_arg("test1", span_of(text, "'test1'"))],
                span_of(text, "log('test1')"),
            )),
            unrelated(),
            Stmt::Expr(call(
                ident("log", 1),
                vec![str_arg("test2", span_of(text, "'test2'"))],
                span_of(text, "log('test2')"),
            )),
        ],
    );
    let expected = JsModule {
        body: vec![
            preamble(),
            import("@dxos/log", vec![(id("log", 1), None)]),
            Stmt::Expr(call(
                ident("log", 1),
                vec![str_arg("test1", span_of(text, "'test1'")), placeholder(), log_meta(2)],
                span_of(text, "log('test1')"),
            )),
            unrelated(),
            Stmt::Expr(call(
                ident("log", 1),
                vec![str_arg("test2", span_of(text, "'test2'")), placeholder(), log_meta(6)],
                span_of(text, "log('test2')"),
            )),
        ],
    };
    assert_eq!(out, expected);
}

#[test]
fn multiple_constructor_calls() {
    let text =
        "import { Context } from '@dxos/context';\nconst ctx1 = new Context();\n\nsome.other.code();\n\nconst ctx2 = new Context();";
    let make_new = |n: usize| Expr::New {
        callee: Box::new(ident("Context", 1)),
        args: Some(vec![]),
        span: span_of_nth(text, "new Context()", n),
    };
    let unrelated = || {
        Stmt::Expr(call(
            Expr::Member {
                obj: Box::new(Expr::Member {
                    obj: Box::new(ident("some", 2)),
                    prop: MemberProp::Named("other".to_string()),
                }),
                prop: MemberProp::Named("code".to_string()),
            },
            vec![],
            span_of(text, "some.other.code()"),
        ))
    };
    let out = run_fixture(
        text,
        vec![
            import("@dxos/context", vec![(id("Context", 1), None)]),
            Stmt::VarDecl { name: id("ctx1", 1), init: Some(make_new(0)) },
            unrelated(),
            Stmt::VarDecl { name: id("ctx2", 1), init: Some(make_new(1)) },
        ],
    );
    let instrumented = |n: usize, line: u64| Expr::New {
        callee: Box::new(ident("Context", 1)),
        args: Some(vec![context_meta(line)]),
        span: span_of_nth(text, "new Context()", n),
    };
    let expected = JsModule {
        body: vec![
            preamble(),
            import("@dxos/context", vec![(id("Context", 1), None)]),
            Stmt::VarDecl { name: id("ctx1", 1), init: Some(instrumented(0, 2)) },
            unrelated(),
            Stmt::VarDecl { name: id("ctx2", 1), init: Some(instrumented(1, 6)) },
        ],
    };
    assert_eq!(out, expected);
}

#[test]
fn log_with_no_args() {
    let text = "import { log } from '@dxos/log';\nlog();";
    let out = run_fixture(
        text,
        vec![
            import("@dxos/log", vec![(id("log", 1), None)]),
            Stmt::Expr(call(ident("log", 1), vec![], span_of(text, "log()"))),
        ],
    );
    let expected = JsModule {
        body: vec![
            preamble(),
            import("@dxos/log", vec![(id("log", 1), None)]),
            Stmt::Expr(call(
                ident("log", 1),
                vec![placeholder(), placeholder(), log_meta(2)],
                span_of(text, "log()"),
            )),
        ],
    };
    assert_eq!(out, expected);
}

#[test]
fn log_with_context() {
    // No padding is needed: both positions before the metadata are filled,
    // and the object literal passes through unchanged.
    let text = "import { log } from '@dxos/log';\nlog('foo', { key: 'value' });";
    let user_object = || {
        arg(
            Expr::Object(vec![Prop {
                key: "key".to_string(),
                value: Expr::StrLit("value".to_string()),
            }]),
            span_of(text, "{ key: 'value' }"),
        )
    };
    let out = run_fixture(
        text,
        vec![
            import("@dxos/log", vec![(id("log", 1), None)]),
            Stmt::Expr(call(
                ident("log", 1),
                vec![str_arg("foo", span_of(text, "'foo'")), user_object()],
                span_of(text, "log('foo', { key: 'value' })"),
            )),
        ],
    );
    let expected = JsModule {
        body: vec![
            preamble(),
            import("@dxos/log", vec![(id("log", 1), None)]),
            Stmt::Expr(call(
                ident("log", 1),
                vec![str_arg("foo", span_of(text, "'foo'")), user_object(), log_meta(2)],
                span_of(text, "log('foo', { key: 'value' })"),
            )),
        ],
    };
    assert_eq!(out, expected);
}

#[test]
fn log_levels() {
    // Property-style calls on the tracked binding are instrumented exactly
    // like the plain call, whatever the property name.
    let text = "import { log } from '@dxos/log';\nlog('default');\nlog.debug('debug');\nlog.info('info');\nlog.warn('warn');\nlog.error('error');\nlog.catch(err);";
    let out = run_fixture(
        text,
        vec![
            import("@dxos/log", vec![(id("log", 1), None)]),
            Stmt::Expr(call(
                ident("log", 1),
                vec![str_arg("default", span_of(text, "'default'"))],
                span_of(text, "log('default')"),
            )),
            Stmt::Expr(method_call(
                ident("log", 1),
                "debug",
                vec![str_arg("debug", span_of(text, "'debug'"))],
                span_of(text, "log.debug('debug')"),
            )),
            Stmt::Expr(method_call(
                ident("log", 1),
                "info",
                vec![str_arg("info", span_of(text, "'info'"))],
                span_of(text, "log.info('info')"),
            )),
            Stmt::Expr(method_call(
                ident("log", 1),
                "warn",
                vec![str_arg("warn", span_of(text, "'warn'"))],
                span_of(text, "log.warn('warn')"),
            )),
            Stmt::Expr(method_call(
                ident("log", 1),
                "error",
                vec![str_arg("error", span_of(text, "'error'"))],
                span_of(text, "log.error('error')"),
            )),
            Stmt::Expr(method_call(
                ident("log", 1),
                "catch",
                vec![arg(ident("err", 2), span_of(text, "err)"))],
                span_of(text, "log.catch(err)"),
            )),
        ],
    );
    assert_eq!(out.body.len(), 8);
    // Every call got the same metadata shape: two placeholders never appear,
    // the original argument stays first, the metadata lands at position 2.
    for (i, line) in [(2usize, 2u64), (3, 3), (4, 4), (5, 5), (6, 6), (7, 7)] {
        let stmt = &out.body[i];
        let args = match stmt {
            Stmt::Expr(Expr::Call { args, .. }) => args,
            other => panic!("unexpected statement shape: {:?}", other),
        };
        assert_eq!(args.len(), 3);
        assert_eq!(args[1], placeholder());
        assert_eq!(args[2], log_meta(line));
    }
}

#[test]
fn ignores_imports_from_other_modules() {
    let text =
        "import { log } from 'debug';\nimport { Context } from 'bontext';\nlog('test');\nnew Context();";
    let body = || vec![
        import("debug", vec![(id("log", 1), None)]),
        import("bontext", vec![(id("Context", 1), None)]),
        Stmt::Expr(call(
            ident("log", 1),
            vec![str_arg("test", span_of(text, "'test'"))],
            span_of(text, "log('test')"),
        )),
        Stmt::Expr(Expr::New {
            callee: Box::new(ident("Context", 1)),
            args: Some(vec![]),
            span: span_of(text, "new Context()"),
        }),
    ];
    let out = run_fixture(text, body());
    let mut expected_body = vec![preamble()];
    expected_body.extend(body());
    assert_eq!(out, JsModule { body: expected_body });
}

#[test]
fn ignores_other_log_functions() {
    // A same-named binding not introduced by a matching import is never
    // instrumented.
    let text = "const log = () => {};\nlog('test');";
    let body = || vec![
        Stmt::VarDecl {
            name: id("log", 2),
            init: Some(Expr::Arrow {
                params: vec![],
                body: Box::new(Expr::Other { tag: 0, children: vec![], span: dummy() }),
            }),
        },
        Stmt::Expr(call(
            ident("log", 2),
            vec![str_arg("test", span_of(text, "'test'"))],
            span_of(text, "log('test')"),
        )),
    ];
    let out = run_fixture(text, body());
    let mut expected_body = vec![preamble()];
    expected_body.extend(body());
    assert_eq!(out, JsModule { body: expected_body });
}

#[test]
fn import_renames() {
    let text = "import { log as dxosLog } from '@dxos/log';\nimport { Context as Ctx } from '@dxos/context';\ndxosLog('test');\ndxosLog.debug('debug');\nnew Ctx();";
    let out = run_fixture(
        text,
        vec![
            import("@dxos/log", vec![(id("dxosLog", 1), Some("log"))]),
            import("@dxos/context", vec![(id("Ctx", 1), Some("Context"))]),
            Stmt::Expr(call(
                ident("dxosLog", 1),
                vec![str_arg("test", span_of(text, "'test'"))],
                span_of(text, "dxosLog('test')"),
            )),
            Stmt::Expr(method_call(
                ident("dxosLog", 1),
                "debug",
                vec![str_arg("debug", span_of(text, "'debug'"))],
                span_of(text, "dxosLog.debug('debug')"),
            )),
            Stmt::Expr(Expr::New {
                callee: Box::new(ident("Ctx", 1)),
                args: Some(vec![]),
                span: span_of(text, "new Ctx()"),
            }),
        ],
    );
    let expected = JsModule {
        body: vec![
            preamble(),
            import("@dxos/log", vec![(id("dxosLog", 1), Some("log"))]),
            import("@dxos/context", vec![(id("Ctx", 1), Some("Context"))]),
            Stmt::Expr(call(
                ident("dxosLog", 1),
                vec![str_arg("test", span_of(text, "'test'")), placeholder(), log_meta(3)],
                span_of(text, "dxosLog('test')"),
            )),
            Stmt::Expr(method_call(
                ident("dxosLog", 1),
                "debug",
                vec![str_arg("debug", span_of(text, "'debug'")), placeholder(), log_meta(4)],
                span_of(text, "dxosLog.debug('debug')"),
            )),
            Stmt::Expr(Expr::New {
                callee: Box::new(ident("Ctx", 1)),
                args: Some(vec![context_meta(5)]),
                span: span_of(text, "new Ctx()"),
            }),
        ],
    };
    assert_eq!(out, expected);
}

#[test]
fn two_log_imports() {
    // The renamed tracked import is instrumented; the same-named import
    // from an unrelated package is not.
    let text = "import { log as dxosLog } from '@dxos/log';\nimport { log } from 'debug';\ndxosLog('test 1');\nlog('test 2');";
    let out = run_fixture(
        text,
        vec![
            import("@dxos/log", vec![(id("dxosLog", 1), Some("log"))]),
            import("debug", vec![(id("log", 2), None)]),
            Stmt::Expr(call(
                ident("dxosLog", 1),
                vec![str_arg("test 1", span_of(text, "'test 1'"))],
                span_of(text, "dxosLog('test 1')"),
            )),
            Stmt::Expr(call(
                ident("log", 2),
                vec![str_arg("test 2", span_of(text, "'test 2'"))],
                span_of(text, "log('test 2')"),
            )),
        ],
    );
    let expected = JsModule {
        body: vec![
            preamble(),
            import("@dxos/log", vec![(id("dxosLog", 1), Some("log"))]),
            import("debug", vec![(id("log", 2), None)]),
            Stmt::Expr(call(
                ident("dxosLog", 1),
                vec![str_arg("test 1", span_of(text, "'test 1'")), placeholder(), log_meta(3)],
                span_of(text, "dxosLog('test 1')"),
            )),
            Stmt::Expr(call(
                ident("log", 2),
                vec![str_arg("test 2", span_of(text, "'test 2'"))],
                span_of(text, "log('test 2')"),
            )),
        ],
    };
    assert_eq!(out, expected);
}

#[test]
fn two_log_imports_2() {
    let text = "import { log } from '@dxos/log';\nimport { log as debugLog } from 'debug';\nlog('test 1');\ndebugLog('test 2');";
    let out = run_fixture(
        text,
        vec![
            import("@dxos/log", vec![(id("log", 1), None)]),
            import("debug", vec![(id("debugLog", 1), Some("log"))]),
            Stmt::Expr(call(
                ident("log", 1),
                vec![str_arg("test 1", span_of(text, "'test 1'"))],
                span_of(text, "log('test 1')"),
            )),
            Stmt::Expr(call(
                ident("debugLog", 1),
                vec![str_arg("test 2", span_of(text, "'test 2'"))],
                span_of(text, "debugLog('test 2')"),
            )),
        ],
    );
    let expected = JsModule {
        body: vec![
            preamble(),
            import("@dxos/log", vec![(id("log", 1), None)]),
            import("debug", vec![(id("debugLog", 1), Some("log"))]),
            Stmt::Expr(call(
                ident("log", 1),
                vec![str_arg("test 1", span_of(text, "'test 1'")), placeholder(), log_meta(3)],
                span_of(text, "log('test 1')"),
            )),
            Stmt::Expr(call(
                ident("debugLog", 1),
                vec![str_arg("test 2", span_of(text, "'test 2'"))],
                span_of(text, "debugLog('test 2')"),
            )),
        ],
    };
    assert_eq!(out, expected);
}

#[test]
fn include_args_true() {
    // The `invariant` rule captures the raw text of each originally
    // supplied argument; placeholders contribute no snippet.
    let text = "import { invariant } from '@dxos/log';\ninvariant(true);";
    let out = run_fixture(
        text,
        vec![
            import("@dxos/log", vec![(id("invariant", 1), None)]),
            Stmt::Expr(call(
                ident("invariant", 1),
                vec![arg(
                    Expr::Other { tag: 1, children: vec![], span: span_of(text, "true") },
                    span_of(text, "true"),
                )],
                span_of(text, "invariant(true)"),
            )),
        ],
    );
    let expected = JsModule {
        body: vec![
            preamble(),
            import("@dxos/log", vec![(id("invariant", 1), None)]),
            Stmt::Expr(call(
                ident("invariant", 1),
                vec![
                    arg(
                        Expr::Other { tag: 1, children: vec![], span: span_of(text, "true") },
                        span_of(text, "true"),
                    ),
                    placeholder(),
                    invariant_meta(2, vec!["true"]),
                ],
                span_of(text, "invariant(true)"),
            )),
        ],
    };
    assert_eq!(out, expected);
}

#[test]
fn argument_snippets_keep_order() {
    let text = "import { invariant } from '@dxos/log';\ninvariant(x, 'broken');";
    let out = run_fixture(
        text,
        vec![
            import("@dxos/log", vec![(id("invariant", 1), None)]),
            Stmt::Expr(call(
                ident("invariant", 1),
                vec![
                    arg(ident("x", 2), span_of(text, "x,")),
                    str_arg("broken", span_of(text, "'broken'")),
                ],
                span_of(text, "invariant(x, 'broken')"),
            )),
        ],
    );
    // The span of `x,` covers two characters; its raw text is captured as
    // written, one snippet per original argument, in order.
    let expected_meta = invariant_meta(2, vec!["x,", "'broken'"]);
    match &out.body[2] {
        Stmt::Expr(Expr::Call { args, .. }) => {
            assert_eq!(args.len(), 3);
            assert_eq!(args[2], expected_meta);
        },
        other => panic!("unexpected statement shape: {:?}", other),
    }
}

#[test]
fn unresolvable_call_position_reports_line_zero() {
    // A call whose span cannot be mapped to a line degrades to line 0 for
    // that call only.
    let text = "import { log } from '@dxos/log';\nlog();";
    let out = run_fixture(
        text,
        vec![
            import("@dxos/log", vec![(id("log", 1), None)]),
            Stmt::Expr(call(ident("log", 1), vec![], sp(0, 0))),
        ],
    );
    let expected = JsModule {
        body: vec![
            preamble(),
            import("@dxos/log", vec![(id("log", 1), None)]),
            Stmt::Expr(call(
                ident("log", 1),
                vec![placeholder(), placeholder(), log_meta(0)],
                sp(0, 0),
            )),
        ],
    };
    assert_eq!(out, expected);
}

#[test]
fn ignores_call_sites_where_argument_was_provided() {
    // Override precedence: an argument already at the configured position
    // suppresses injection entirely, whatever its value.
    let text = "import { log } from '@dxos/log';\nimport { Context } from '@dxos/context';\nlog(\"Hello\", {}, { customMeta: 42 });\nconst ctx1 = new Context({ customArg: 'foo' });";
    let body = || vec![
        import("@dxos/log", vec![(id("log", 1), None)]),
        import("@dxos/context", vec![(id("Context", 1), None)]),
        Stmt::Expr(call(
            ident("log", 1),
            vec![
                str_arg("Hello", span_of(text, "\"Hello\"")),
                arg(Expr::Object(vec![]), span_of(text, "{},")),
                arg(
                    Expr::Object(vec![Prop {
                        key: "customMeta".to_string(),
                        value: Expr::NumLit(42),
                    }]),
                    span_of(text, "{ customMeta: 42 }"),
                ),
            ],
            span_of(text, "log(\"Hello\", {}, { customMeta: 42 })"),
        )),
        Stmt::VarDecl {
            name: id("ctx1", 1),
            init: Some(Expr::New {
                callee: Box::new(ident("Context", 1)),
                args: Some(vec![arg(
                    Expr::Object(vec![Prop {
                        key: "customArg".to_string(),
                        value: Expr::StrLit("foo".to_string()),
                    }]),
                    span_of(text, "{ customArg: 'foo' }"),
                )]),
                span: span_of(text, "new Context({ customArg: 'foo' })"),
            }),
        },
    ];
    let out = run_fixture(text, body());
    let mut expected_body = vec![preamble()];
    expected_body.extend(body());
    assert_eq!(out, JsModule { body: expected_body });
}

#[test]
fn nested_tracked_calls() {
    // Bottom-up rewriting: a tracked call in another tracked call's
    // argument list is injected at both levels, each exactly once.
    let text = "import { log } from '@dxos/log';\nlog(log('inner'));";
    let out = run_fixture(
        text,
        vec![
            import("@dxos/log", vec![(id("log", 1), None)]),
            Stmt::Expr(call(
                ident("log", 1),
                vec![arg(
                    call(
                        ident("log", 1),
                        vec![str_arg("inner", span_of(text, "'inner'"))],
                        span_of(text, "log('inner')"),
                    ),
                    span_of(text, "log('inner')"),
                )],
                span_of(text, "log(log('inner'))"),
            )),
        ],
    );
    let inner_instrumented = call(
        ident("log", 1),
        vec![str_arg("inner", span_of(text, "'inner'")), placeholder(), log_meta(2)],
        span_of(text, "log('inner')"),
    );
    let expected = JsModule {
        body: vec![
            preamble(),
            import("@dxos/log", vec![(id("log", 1), None)]),
            Stmt::Expr(call(
                ident("log", 1),
                vec![
                    arg(inner_instrumented, span_of(text, "log('inner')")),
                    placeholder(),
                    log_meta(2),
                ],
                span_of(text, "log(log('inner'))"),
            )),
        ],
    };
    assert_eq!(out, expected);
}

#[test]
fn call_before_import_not_instrumented() {
    // Bindings are registered in source order: a call that textually
    // precedes its enabling import is not instrumented.
    let text = "log('early');\nimport { log } from '@dxos/log';\nlog('late');";
    let out = run_fixture(
        text,
        vec![
            Stmt::Expr(call(
                ident("log", 1),
                vec![str_arg("early", span_of(text, "'early'"))],
                span_of(text, "log('early')"),
            )),
            import("@dxos/log", vec![(id("log", 1), None)]),
            Stmt::Expr(call(
                ident("log", 1),
                vec![str_arg("late", span_of(text, "'late'"))],
                span_of(text, "log('late')"),
            )),
        ],
    );
    let expected = JsModule {
        body: vec![
            preamble(),
            Stmt::Expr(call(
                ident("log", 1),
                vec![str_arg("early", span_of(text, "'early'"))],
                span_of(text, "log('early')"),
            )),
            import("@dxos/log", vec![(id("log", 1), None)]),
            Stmt::Expr(call(
                ident("log", 1),
                vec![str_arg("late", span_of(text, "'late'")), placeholder(), log_meta(3)],
                span_of(text, "log('late')"),
            )),
        ],
    };
    assert_eq!(out, expected);
}

#[test]
fn single_preamble_shared_by_all_metadata() {
    // One synthesized filename binding per module, whatever the number of
    // instrumented calls; every metadata object refers to it by name.
    let text = "import { log } from '@dxos/log';\nlog('a');\nlog('b');\nlog('c');";
    let mk = |s: &str| {
        Stmt::Expr(call(
            ident("log", 1),
            vec![str_arg(s, span_of(text, &format!("'{}'", s)))],
            span_of(text, &format!("log('{}')", s)),
        ))
    };
    let out = run_fixture(
        text,
        vec![import("@dxos/log", vec![(id("log", 1), None)]), mk("a"), mk("b"), mk("c")],
    );
    let preamble_count = out
        .body
        .iter()
        .filter(|s| matches!(s, Stmt::VarDecl { name, .. } if name.sym == "__dxlog_file"))
        .count();
    assert_eq!(preamble_count, 1);
    assert_eq!(out.body[0], preamble());
    for i in [2usize, 3, 4] {
        match &out.body[i] {
            Stmt::Expr(Expr::Call { args, .. }) => match &args[2].expr {
                Expr::Object(props) => {
                    assert_eq!(props[0].key, "F");
                    assert_eq!(props[0].value, file_ref());
                },
                other => panic!("unexpected metadata shape: {:?}", other),
            },
            other => panic!("unexpected statement shape: {:?}", other),
        }
    }
}

#[test]
fn filename_without_override_uses_module_filename() {
    // Without the configured override, the preamble holds the module's own
    // resolved filename.
    let mut config = create_test_config();
    config.filename = None;
    let source = ModuleSource { line_starts: vec![0], text: String::new() };
    let out = transform_program(
        &config,
        &source,
        &"src/widgets.js".to_string(),
        &JsModule { body: vec![] },
    );
    assert_eq!(
        out.body,
        vec![Stmt::VarDecl {
            name: id("__dxlog_file", 0),
            init: Some(Expr::StrLit("src/widgets.js".to_string())),
        }],
    );
}
