use prql_fold::ast::{
    BinOp, ColumnSort, Expr, ExprKind, FoldError, FuncCall, FuncCurry, FuncDef, FuncParam,
    Interval, InterpolateItem, JoinFilter, JoinSide, Literal, Pipeline, Query, QueryDef, Range,
    SortDirection, Span, Stmt, StmtKind, Table, TableDef, TableRef, Transform, TransformKind, Ty,
    TyLit, UnOp, WindowKind, Windowed,
};
use prql_fold::fold::{
    fold_column_sort, fold_column_sorts, fold_expr, fold_expr_kind, fold_exprs, fold_func_call,
    fold_func_curry, fold_func_def, fold_func_param, fold_ident, fold_interpolate_item,
    fold_interpolate_items, fold_join_filter, fold_optional_box, fold_pipeline, fold_query,
    fold_range, fold_stmt, fold_stmt_kind, fold_stmts, fold_table, fold_table_ref, fold_transform,
    fold_transforms, fold_type, fold_windowed, AstFold,
};
use prql_fold::identity::IdentityFold;
use prql_fold::record::RecordIdents;
use prql_fold::failfast::HaltOnName;

fn ident(name: &str) -> Expr {
    Expr {
        kind: ExprKind::Ident(name.to_string()),
        span: None,
    }
}

fn int_lit(n: i64) -> Expr {
    Expr {
        kind: ExprKind::Literal(Literal::Integer(n)),
        span: None,
    }
}

fn binary(left: Expr, op: BinOp, right: Expr) -> Expr {
    Expr {
        kind: ExprKind::Binary {
            op,
            left: Box::new(left),
            right: Box::new(right),
        },
        span: None,
    }
}

fn table_ref(name: &str) -> TableRef {
    TableRef {
        name: name.to_string(),
        alias: None,
        id: None,
    }
}

/// A query holding at least one instance of every transform kind, with
/// identifiers nested in grouped and windowed sub-pipelines.
fn full_coverage_query() -> Query {
    let transforms = vec![
        Transform {
            kind: TransformKind::From(TableRef {
                name: "base".to_string(),
                alias: Some("b".to_string()),
                id: Some(7),
            }),
            span: Some(Span { start: 0, end: 4 }),
        },
        Transform {
            kind: TransformKind::Derive(vec![ident("d1"), ident("d2")]),
            span: None,
        },
        Transform {
            kind: TransformKind::Select(vec![ident("s1")]),
            span: None,
        },
        Transform {
            kind: TransformKind::Aggregate {
                assigns: vec![ident("a1")],
                by: vec![ident("g1")],
            },
            span: None,
        },
        Transform {
            kind: TransformKind::Filter(Box::new(binary(ident("age"), BinOp::Gt, int_lit(30)))),
            span: None,
        },
        Transform {
            kind: TransformKind::Sort(vec![ColumnSort {
                direction: SortDirection::Desc,
                column: ident("c1"),
            }]),
            span: None,
        },
        Transform {
            kind: TransformKind::Join {
                side: JoinSide::Left,
                with: table_ref("other"),
                filter: JoinFilter::On(vec![binary(ident("x"), BinOp::Eq, ident("y"))]),
            },
            span: None,
        },
        Transform {
            kind: TransformKind::Group {
                by: vec![ident("k")],
                pipeline: vec![Transform {
                    kind: TransformKind::Derive(vec![ident("inner_group")]),
                    span: None,
                }],
            },
            span: None,
        },
        Transform {
            kind: TransformKind::Window {
                kind: WindowKind::Rows,
                range: Range {
                    start: Some(Box::new(ident("lo"))),
                    end: None,
                },
                pipeline: vec![Transform {
                    kind: TransformKind::Select(vec![ident("inner_window")]),
                    span: None,
                }],
            },
            span: None,
        },
        Transform {
            kind: TransformKind::Take {
                range: Range {
                    start: None,
                    end: Some(Box::new(int_lit(10))),
                },
                by: vec![ident("part")],
                sort: vec![ColumnSort {
                    direction: SortDirection::Asc,
                    column: ident("ord"),
                }],
            },
            span: None,
        },
        Transform {
            kind: TransformKind::Unique,
            span: None,
        },
    ];
    Query {
        def: QueryDef {
            version: Some(1),
            dialect: "generic".to_string(),
        },
        main_pipeline: transforms,
        tables: vec![
            Table {
                id: Some(1),
                name: "t1".to_string(),
                pipeline: vec![Transform {
                    kind: TransformKind::From(table_ref("u1")),
                    span: None,
                }],
            },
            Table {
                id: Some(2),
                name: "t2".to_string(),
                pipeline: vec![Transform {
                    kind: TransformKind::Unique,
                    span: None,
                }],
            },
        ],
    }
}

/// An expression exercising every expression kind, with identifiers in
/// every corner a fold must reach.
fn full_coverage_expr() -> Expr {
    let curry = FuncCurry {
        def_id: 42,
        args: vec![ident("curried")],
        named_args: vec![Some(ident("filled")), None],
    };
    let call = FuncCall {
        name: "callee".to_string(),
        args: vec![ident("arg1")],
        named_args: vec![("named".to_string(), ident("arg2"))],
    };
    let windowed = Windowed {
        expr: Box::new(ident("w")),
        group: vec![ident("wg")],
        sort: vec![ColumnSort {
            direction: SortDirection::Asc,
            column: ident("ws"),
        }],
        window: (
            WindowKind::Range,
            Range {
                start: Some(Box::new(ident("wlo"))),
                end: Some(Box::new(ident("whi"))),
            },
        ),
    };
    let items = vec![
        Expr {
            kind: ExprKind::Empty,
            span: None,
        },
        int_lit(5),
        Expr {
            kind: ExprKind::Interval(Interval {
                n: 3,
                unit: "days".to_string(),
            }),
            span: None,
        },
        Expr {
            kind: ExprKind::Unary {
                op: UnOp::Neg,
                expr: Box::new(ident("u")),
            },
            span: None,
        },
        Expr {
            kind: ExprKind::Range(Range {
                start: Some(Box::new(ident("rlo"))),
                end: Some(Box::new(ident("rhi"))),
            }),
            span: None,
        },
        Expr {
            kind: ExprKind::Pipeline(Pipeline {
                exprs: vec![ident("p1"), ident("p2")],
            }),
            span: None,
        },
        Expr {
            kind: ExprKind::SString(vec![
                InterpolateItem::Text("raw".to_string()),
                InterpolateItem::Expr(Box::new(ident("s_interp"))),
            ]),
            span: None,
        },
        Expr {
            kind: ExprKind::FString(vec![InterpolateItem::Expr(Box::new(ident("f_interp")))]),
            span: None,
        },
        Expr {
            kind: ExprKind::FuncCall(call),
            span: None,
        },
        Expr {
            kind: ExprKind::FuncCurry(curry),
            span: None,
        },
        Expr {
            kind: ExprKind::Windowed(windowed),
            span: None,
        },
        Expr {
            kind: ExprKind::Type(Ty::Parameterized(
                Box::new(Ty::AnyOf(vec![Ty::Literal(TyLit::Integer), Ty::Infer])),
                Box::new(ident("ty_param")),
            )),
            span: None,
        },
        Expr {
            kind: ExprKind::ResolvedPipeline(vec![Transform {
                kind: TransformKind::Derive(vec![ident("resolved")]),
                span: None,
            }]),
            span: None,
        },
        binary(ident("bl"), BinOp::And, ident("br")),
    ];
    Expr {
        kind: ExprKind::List(items),
        span: Some(Span { start: 3, end: 99 }),
    }
}

fn full_coverage_stmts() -> Vec<Stmt> {
    vec![
        Stmt {
            kind: StmtKind::QueryDef(QueryDef {
                version: None,
                dialect: "generic".to_string(),
            }),
            span: None,
        },
        Stmt {
            kind: StmtKind::FuncDef(FuncDef {
                name: "add".to_string(),
                positional_params: vec![
                    FuncParam {
                        name: "x".to_string(),
                        ty: Some(Ty::Literal(TyLit::Integer)),
                        default_value: None,
                    },
                    FuncParam {
                        name: "y".to_string(),
                        ty: None,
                        default_value: Some(int_lit(1)),
                    },
                ],
                named_params: vec![],
                body: Box::new(binary(ident("x"), BinOp::Add, ident("y"))),
                return_ty: Some(Ty::Literal(TyLit::Scalar)),
            }),
            span: None,
        },
        Stmt {
            kind: StmtKind::TableDef(TableDef {
                id: Some(9),
                name: "td".to_string(),
                pipeline: Box::new(ident("td_body")),
            }),
            span: Some(Span { start: 1, end: 2 }),
        },
        Stmt {
            kind: StmtKind::Pipeline(vec![full_coverage_expr()]),
            span: None,
        },
    ]
}

#[test]
fn identity_fold_query_is_noop() {
    let mut id = IdentityFold {};
    let folded = id.fold_query(full_coverage_query()).unwrap();
    assert_eq!(folded, full_coverage_query());
}

#[test]
fn identity_fold_stmts_is_noop() {
    let mut id = IdentityFold {};
    let folded = id.fold_stmts(full_coverage_stmts()).unwrap();
    assert_eq!(folded, full_coverage_stmts());
}

#[test]
fn identity_fold_expr_is_noop() {
    let mut id = IdentityFold {};
    let folded = id.fold_expr(full_coverage_expr()).unwrap();
    assert_eq!(folded, full_coverage_expr());
}

#[test]
fn leaf_expr_kinds_pass_through() {
    let mut id = IdentityFold {};
    assert_eq!(
        id.fold_expr_kind(ExprKind::Empty).unwrap(),
        ExprKind::Empty
    );
    assert_eq!(
        id.fold_expr_kind(ExprKind::Literal(Literal::Text("v".to_string())))
            .unwrap(),
        ExprKind::Literal(Literal::Text("v".to_string()))
    );
    assert_eq!(
        id.fold_expr_kind(ExprKind::Interval(Interval {
            n: 2,
            unit: "hours".to_string()
        }))
        .unwrap(),
        ExprKind::Interval(Interval {
            n: 2,
            unit: "hours".to_string()
        })
    );
}

#[test]
fn leaf_unique_querydef_and_ty_literal_pass_through() {
    let mut id = IdentityFold {};
    let unique = Transform {
        kind: TransformKind::Unique,
        span: Some(Span { start: 5, end: 6 }),
    };
    assert_eq!(
        fold_transform(&mut id, unique).unwrap(),
        Transform {
            kind: TransformKind::Unique,
            span: Some(Span { start: 5, end: 6 }),
        }
    );
    let qd = StmtKind::QueryDef(QueryDef {
        version: Some(3),
        dialect: "ansi".to_string(),
    });
    assert_eq!(
        fold_stmt_kind(&mut id, qd).unwrap(),
        StmtKind::QueryDef(QueryDef {
            version: Some(3),
            dialect: "ansi".to_string(),
        })
    );
    assert_eq!(
        fold_type(&mut id, Ty::Literal(TyLit::Boolean)).unwrap(),
        Ty::Literal(TyLit::Boolean)
    );
    assert_eq!(
        fold_interpolate_item(&mut id, InterpolateItem::Text("t".to_string())).unwrap(),
        InterpolateItem::Text("t".to_string())
    );
    assert_eq!(fold_optional_box(&mut id, None).unwrap(), None);
}

#[test]
fn table_identity_preserved() {
    let mut id = IdentityFold {};
    let folded = id.fold_query(full_coverage_query()).unwrap();
    assert_eq!(folded.tables.len(), 2);
    assert_eq!(folded.tables[0].id, Some(1));
    assert_eq!(folded.tables[0].name, "t1");
    assert_eq!(folded.tables[1].id, Some(2));
    assert_eq!(folded.tables[1].name, "t2");
    assert_eq!(folded.def, full_coverage_query().def);
}

#[test]
fn two_stage_pipeline_resolved_form() {
    // The resolved form of: from employees | filter age > 30
    let resolved = Query {
        def: QueryDef {
            version: None,
            dialect: "generic".to_string(),
        },
        main_pipeline: vec![
            Transform {
                kind: TransformKind::From(table_ref("employees")),
                span: None,
            },
            Transform {
                kind: TransformKind::Filter(Box::new(binary(ident("age"), BinOp::Gt, int_lit(30)))),
                span: None,
            },
        ],
        tables: vec![],
    };
    let mut id = IdentityFold {};
    let folded = id.fold_query(resolved).unwrap();
    assert_eq!(folded.tables.len(), 0);
    assert_eq!(folded.main_pipeline.len(), 2);
    match &folded.main_pipeline[0].kind {
        TransformKind::From(t) => assert_eq!(t.name, "employees"),
        _ => panic!("first stage must stay a base relation"),
    }
    match &folded.main_pipeline[1].kind {
        TransformKind::Filter(predicate) => match &predicate.kind {
            ExprKind::Binary { op, left, right } => {
                assert_eq!(*op, BinOp::Gt);
                assert_eq!(left.kind, ExprKind::Ident("age".to_string()));
                assert_eq!(right.kind, ExprKind::Literal(Literal::Integer(30)));
            }
            _ => panic!("filter predicate must stay a comparison"),
        },
        _ => panic!("second stage must stay a filter"),
    }
}

#[test]
fn partial_application_slots_preserved() {
    // add(x, y) invoked as add(1): one filled positional argument, the
    // second positional slot awaiting saturation, no named slots.
    let curry = FuncCurry {
        def_id: 0,
        args: vec![int_lit(1)],
        named_args: vec![],
    };
    let mut id = IdentityFold {};
    let folded = id.fold_func_curry(curry).unwrap();
    assert_eq!(folded.def_id, 0);
    assert_eq!(folded.args, vec![int_lit(1)]);
    assert_eq!(folded.named_args.len(), 0);

    let with_unfilled = FuncCurry {
        def_id: 3,
        args: vec![],
        named_args: vec![None, Some(int_lit(2)), None],
    };
    let folded = id.fold_func_curry(with_unfilled).unwrap();
    assert_eq!(folded.named_args, vec![None, Some(int_lit(2)), None]);
}

#[test]
fn fold_error_carries_message() {
    let e = FoldError::new("unresolved name".to_string());
    assert_eq!(e.msg, "unresolved name");
    assert_eq!(e, FoldError::new("unresolved name".to_string()));
}

#[test]
fn identity_free_functions_match_trait_methods() {
    let mut id = IdentityFold {};
    assert_eq!(
        fold_ident(&mut id, "n".to_string()).unwrap(),
        "n".to_string()
    );
    assert_eq!(
        fold_expr(&mut id, full_coverage_expr()).unwrap(),
        full_coverage_expr()
    );
    assert_eq!(
        fold_stmts(&mut id, full_coverage_stmts()).unwrap(),
        full_coverage_stmts()
    );
    assert_eq!(
        fold_query(&mut id, full_coverage_query()).unwrap(),
        full_coverage_query()
    );
    let ghost_range = Range {
        start: Some(Box::new(ident("a"))),
        end: None,
    };
    assert_eq!(
        fold_range(&mut id, ghost_range).unwrap(),
        Range {
            start: Some(Box::new(ident("a"))),
            end: None,
        }
    );
    assert_eq!(
        fold_pipeline(
            &mut id,
            Pipeline {
                exprs: vec![ident("z")]
            }
        )
        .unwrap(),
        Pipeline {
            exprs: vec![ident("z")]
        }
    );
    assert_eq!(
        fold_windowed(
            &mut id,
            Windowed {
                expr: Box::new(ident("w")),
                group: vec![],
                sort: vec![],
                window: (
                    WindowKind::Rows,
                    Range {
                        start: None,
                        end: None
                    }
                ),
            }
        )
        .unwrap()
        .window
        .0,
        WindowKind::Rows
    );
    assert_eq!(
        fold_table(
            &mut id,
            TableDef {
                id: Some(4),
                name: "t".to_string(),
                pipeline: Box::new(ident("p")),
            }
        )
        .unwrap()
        .id,
        Some(4)
    );
    assert_eq!(
        fold_table_ref(&mut id, table_ref("r")).unwrap(),
        table_ref("r")
    );
    assert_eq!(
        fold_join_filter(&mut id, JoinFilter::Using(vec![ident("k")])).unwrap(),
        JoinFilter::Using(vec![ident("k")])
    );
    assert_eq!(
        fold_column_sort(
            &mut id,
            ColumnSort {
                direction: SortDirection::Asc,
                column: ident("c"),
            }
        )
        .unwrap()
        .direction,
        SortDirection::Asc
    );
    assert_eq!(
        fold_column_sorts(&mut id, vec![]).unwrap(),
        Vec::<ColumnSort>::new()
    );
    assert_eq!(fold_exprs(&mut id, vec![ident("e")]).unwrap(), vec![ident(
        "e"
    )]);
    assert_eq!(
        fold_transforms(&mut id, vec![]).unwrap(),
        Vec::<Transform>::new()
    );
    assert_eq!(
        fold_stmt(
            &mut id,
            Stmt {
                kind: StmtKind::Pipeline(vec![]),
                span: None
            }
        )
        .unwrap(),
        Stmt {
            kind: StmtKind::Pipeline(vec![]),
            span: None
        }
    );
    assert_eq!(
        fold_func_def(
            &mut id,
            FuncDef {
                name: "f".to_string(),
                positional_params: vec![],
                named_params: vec![],
                body: Box::new(ident("b")),
                return_ty: None,
            }
        )
        .unwrap()
        .name,
        "f".to_string()
    );
    assert_eq!(
        fold_func_call(
            &mut id,
            FuncCall {
                name: "g".to_string(),
                args: vec![],
                named_args: vec![],
            }
        )
        .unwrap()
        .name,
        "g".to_string()
    );
    assert_eq!(
        fold_func_curry(
            &mut id,
            FuncCurry {
                def_id: 1,
                args: vec![],
                named_args: vec![None],
            }
        )
        .unwrap()
        .named_args,
        vec![None]
    );
    assert_eq!(
        fold_func_param(
            &mut id,
            vec![FuncParam {
                name: "p".to_string(),
                ty: None,
                default_value: None,
            }]
        )
        .unwrap()[0]
            .name,
        "p".to_string()
    );
    assert_eq!(
        fold_interpolate_items(&mut id, vec![InterpolateItem::Text("x".to_string())]).unwrap(),
        vec![InterpolateItem::Text("x".to_string())]
    );
    assert_eq!(
        fold_expr_kind(&mut id, ExprKind::Empty).unwrap(),
        ExprKind::Empty
    );
}

#[test]
fn record_pass_reports_pipeline_order() {
    let mut pass = RecordIdents { seen: vec![] };
    let pipeline = Pipeline {
        exprs: vec![ident("a"), ident("b"), ident("c")],
    };
    let folded = pass.fold_pipeline(pipeline).unwrap();
    assert_eq!(pass.seen, vec!["a", "b", "c"]);
    assert_eq!(
        folded,
        Pipeline {
            exprs: vec![ident("a"), ident("b"), ident("c")],
        }
    );
}

#[test]
fn record_pass_reports_left_before_right() {
    let mut pass = RecordIdents { seen: vec![] };
    let folded = pass
        .fold_expr_kind(ExprKind::Binary {
            op: BinOp::Lt,
            left: Box::new(ident("l")),
            right: Box::new(ident("r")),
        })
        .unwrap();
    assert_eq!(pass.seen, vec!["l", "r"]);
    assert_eq!(
        folded,
        ExprKind::Binary {
            op: BinOp::Lt,
            left: Box::new(ident("l")),
            right: Box::new(ident("r")),
        }
    );
}

#[test]
fn halting_pass_stops_at_second_derive_assign() {
    let mut pass = HaltOnName {
        bad: "boom".to_string(),
        seen: vec![],
    };
    let derive = Transform {
        kind: TransformKind::Derive(vec![ident("first"), ident("boom"), ident("third")]),
        span: None,
    };
    let r = pass.fold_transform(derive);
    assert_eq!(r, Err(FoldError::new("boom".to_string())));
    assert_eq!(pass.seen, vec!["first"]);
}

#[test]
fn halting_pass_succeeds_when_no_stage_hits() {
    let mut pass = HaltOnName {
        bad: "boom".to_string(),
        seen: vec![],
    };
    let pipeline = Pipeline {
        exprs: vec![ident("a"), ident("b")],
    };
    let folded = pass.fold_pipeline(pipeline).unwrap();
    assert_eq!(
        folded,
        Pipeline {
            exprs: vec![ident("a"), ident("b")],
        }
    );
    assert_eq!(pass.seen, vec!["a", "b"]);
}
