use prql_fold::ast::{
    BinOp, ColumnSort, Expr, ExprKind, FoldError, FuncCall, FuncCurry, FuncDef, InterpolateItem,
    JoinFilter, Literal, Pipeline, Query, Range, Stmt, StmtKind, Table, TableDef, TableRef,
    Transform, TransformKind, Ty, TyLit, Windowed, WindowKind,
};
use prql_fold::fold::{
    fold_column_sort, fold_column_sorts, fold_expr, fold_expr_kind, fold_exprs, fold_func_call,
    fold_func_curry, fold_func_def, fold_ident, fold_interpolate_item, fold_join_filter,
    fold_pipeline, fold_query, fold_stmt, fold_stmts, fold_table, fold_table_ref, fold_transform,
    fold_transforms, fold_type, fold_windowed, AstFold,
};

fn ident(name: &str) -> Expr {
    Expr {
        kind: ExprKind::Ident(name.to_string()),
        span: None,
    }
}

/// A pass that only overrides the identifier category: it appends a
/// marker and records the visitation order. Every other category
/// delegates to the default recursion, so every identifier anywhere in
/// a tree must be reached.
struct MarkIdents {
    seen: Vec<String>,
}

impl AstFold for MarkIdents {
    fn fold_stmt(&mut self, stmt: Stmt) -> Result<Stmt, FoldError> {
        fold_stmt(self, stmt)
    }
    fn fold_stmts(&mut self, stmts: Vec<Stmt>) -> Result<Vec<Stmt>, FoldError> {
        fold_stmts(self, stmts)
    }
    fn fold_expr(&mut self, expr: Expr) -> Result<Expr, FoldError> {
        fold_expr(self, expr)
    }
    fn fold_expr_kind(&mut self, expr_kind: ExprKind) -> Result<ExprKind, FoldError> {
        fold_expr_kind(self, expr_kind)
    }
    fn fold_exprs(&mut self, exprs: Vec<Expr>) -> Result<Vec<Expr>, FoldError> {
        fold_exprs(self, exprs)
    }
    fn fold_ident(&mut self, ident: String) -> Result<String, FoldError> {
        self.seen.push(ident.clone());
        Ok(format!("{}!", ident))
    }
    fn fold_table(&mut self, table: TableDef) -> Result<TableDef, FoldError> {
        fold_table(self, table)
    }
    fn fold_transform(&mut self, transform: Transform) -> Result<Transform, FoldError> {
        fold_transform(self, transform)
    }
    fn fold_transforms(&mut self, transforms: Vec<Transform>) -> Result<Vec<Transform>, FoldError> {
        fold_transforms(self, transforms)
    }
    fn fold_pipeline(&mut self, pipeline: Pipeline) -> Result<Pipeline, FoldError> {
        fold_pipeline(self, pipeline)
    }
    fn fold_func_def(&mut self, function: FuncDef) -> Result<FuncDef, FoldError> {
        fold_func_def(self, function)
    }
    fn fold_func_call(&mut self, func_call: FuncCall) -> Result<FuncCall, FoldError> {
        fold_func_call(self, func_call)
    }
    fn fold_func_curry(&mut self, func_curry: FuncCurry) -> Result<FuncCurry, FoldError> {
        fold_func_curry(self, func_curry)
    }
    fn fold_table_ref(&mut self, table_ref: TableRef) -> Result<TableRef, FoldError> {
        fold_table_ref(self, table_ref)
    }
    fn fold_interpolate_item(
        &mut self,
        sstring_item: InterpolateItem,
    ) -> Result<InterpolateItem, FoldError> {
        fold_interpolate_item(self, sstring_item)
    }
    fn fold_column_sort(&mut self, column_sort: ColumnSort) -> Result<ColumnSort, FoldError> {
        fold_column_sort(self, column_sort)
    }
    fn fold_column_sorts(&mut self, columns: Vec<ColumnSort>) -> Result<Vec<ColumnSort>, FoldError> {
        fold_column_sorts(self, columns)
    }
    fn fold_join_filter(&mut self, filter: JoinFilter) -> Result<JoinFilter, FoldError> {
        fold_join_filter(self, filter)
    }
    fn fold_type(&mut self, ty: Ty) -> Result<Ty, FoldError> {
        fold_type(self, ty)
    }
    fn fold_windowed(&mut self, windowed: Windowed) -> Result<Windowed, FoldError> {
        fold_windowed(self, windowed)
    }
    fn fold_query(&mut self, query: Query) -> Result<Query, FoldError> {
        fold_query(self, query)
    }
}

/// A pass that fails on one designated identifier and records every
/// identifier it reaches, to observe fail-fast propagation.
struct FailOn {
    bad: String,
    seen: Vec<String>,
}

impl AstFold for FailOn {
    fn fold_stmt(&mut self, stmt: Stmt) -> Result<Stmt, FoldError> {
        fold_stmt(self, stmt)
    }
    fn fold_stmts(&mut self, stmts: Vec<Stmt>) -> Result<Vec<Stmt>, FoldError> {
        fold_stmts(self, stmts)
    }
    fn fold_expr(&mut self, expr: Expr) -> Result<Expr, FoldError> {
        fold_expr(self, expr)
    }
    fn fold_expr_kind(&mut self, expr_kind: ExprKind) -> Result<ExprKind, FoldError> {
        fold_expr_kind(self, expr_kind)
    }
    fn fold_exprs(&mut self, exprs: Vec<Expr>) -> Result<Vec<Expr>, FoldError> {
        fold_exprs(self, exprs)
    }
    fn fold_ident(&mut self, ident: String) -> Result<String, FoldError> {
        if ident == self.bad {
            return Err(FoldError::new(format!("unresolvable: {}", ident)));
        }
        self.seen.push(ident.clone());
        Ok(ident)
    }
    fn fold_table(&mut self, table: TableDef) -> Result<TableDef, FoldError> {
        fold_table(self, table)
    }
    fn fold_transform(&mut self, transform: Transform) -> Result<Transform, FoldError> {
        fold_transform(self, transform)
    }
    fn fold_transforms(&mut self, transforms: Vec<Transform>) -> Result<Vec<Transform>, FoldError> {
        fold_transforms(self, transforms)
    }
    fn fold_pipeline(&mut self, pipeline: Pipeline) -> Result<Pipeline, FoldError> {
        fold_pipeline(self, pipeline)
    }
    fn fold_func_def(&mut self, function: FuncDef) -> Result<FuncDef, FoldError> {
        fold_func_def(self, function)
    }
    fn fold_func_call(&mut self, func_call: FuncCall) -> Result<FuncCall, FoldError> {
        fold_func_call(self, func_call)
    }
    fn fold_func_curry(&mut self, func_curry: FuncCurry) -> Result<FuncCurry, FoldError> {
        fold_func_curry(self, func_curry)
    }
    fn fold_table_ref(&mut self, table_ref: TableRef) -> Result<TableRef, FoldError> {
        fold_table_ref(self, table_ref)
    }
    fn fold_interpolate_item(
        &mut self,
        sstring_item: InterpolateItem,
    ) -> Result<InterpolateItem, FoldError> {
        fold_interpolate_item(self, sstring_item)
    }
    fn fold_column_sort(&mut self, column_sort: ColumnSort) -> Result<ColumnSort, FoldError> {
        fold_column_sort(self, column_sort)
    }
    fn fold_column_sorts(&mut self, columns: Vec<ColumnSort>) -> Result<Vec<ColumnSort>, FoldError> {
        fold_column_sorts(self, columns)
    }
    fn fold_join_filter(&mut self, filter: JoinFilter) -> Result<JoinFilter, FoldError> {
        fold_join_filter(self, filter)
    }
    fn fold_type(&mut self, ty: Ty) -> Result<Ty, FoldError> {
        fold_type(self, ty)
    }
    fn fold_windowed(&mut self, windowed: Windowed) -> Result<Windowed, FoldError> {
        fold_windowed(self, windowed)
    }
    fn fold_query(&mut self, query: Query) -> Result<Query, FoldError> {
        fold_query(self, query)
    }
}

#[test]
fn marker_reaches_every_ident() {
    let expr = Expr {
        kind: ExprKind::List(vec![
            Expr {
                kind: ExprKind::SString(vec![
                    InterpolateItem::Text("keep".to_string()),
                    InterpolateItem::Expr(Box::new(ident("in_sstring"))),
                ]),
                span: None,
            },
            Expr {
                kind: ExprKind::FString(vec![InterpolateItem::Expr(Box::new(ident(
                    "in_fstring",
                )))]),
                span: None,
            },
            Expr {
                kind: ExprKind::Range(Range {
                    start: Some(Box::new(ident("in_range_start"))),
                    end: Some(Box::new(ident("in_range_end"))),
                }),
                span: None,
            },
            Expr {
                kind: ExprKind::FuncCurry(FuncCurry {
                    def_id: 1,
                    args: vec![ident("in_curry_arg")],
                    named_args: vec![None, Some(ident("in_curry_slot"))],
                }),
                span: None,
            },
            Expr {
                kind: ExprKind::ResolvedPipeline(vec![
                    Transform {
                        kind: TransformKind::Group {
                            by: vec![ident("in_group_by")],
                            pipeline: vec![Transform {
                                kind: TransformKind::Derive(vec![ident("in_group_pipeline")]),
                                span: None,
                            }],
                        },
                        span: None,
                    },
                    Transform {
                        kind: TransformKind::Window {
                            kind: WindowKind::Rows,
                            range: Range {
                                start: None,
                                end: None,
                            },
                            pipeline: vec![Transform {
                                kind: TransformKind::Select(vec![ident("in_window_pipeline")]),
                                span: None,
                            }],
                        },
                        span: None,
                    },
                ]),
                span: None,
            },
        ]),
        span: None,
    };
    let mut pass = MarkIdents { seen: vec![] };
    let folded = pass.fold_expr(expr).unwrap();
    assert_eq!(
        pass.seen,
        vec![
            "in_sstring",
            "in_fstring",
            "in_range_start",
            "in_range_end",
            "in_curry_arg",
            "in_curry_slot",
            "in_group_by",
            "in_group_pipeline",
            "in_window_pipeline",
        ]
    );
    // The unfilled curry slot stays unfilled, and the opaque text is
    // untouched.
    match &folded.kind {
        ExprKind::List(items) => {
            match &items[0].kind {
                ExprKind::SString(pieces) => {
                    assert_eq!(pieces[0], InterpolateItem::Text("keep".to_string()));
                    match &pieces[1] {
                        InterpolateItem::Expr(e) => {
                            assert_eq!(e.kind, ExprKind::Ident("in_sstring!".to_string()));
                        }
                        _ => panic!("interpolated expression lost"),
                    }
                }
                _ => panic!("sstring lost"),
            }
            match &items[3].kind {
                ExprKind::FuncCurry(c) => {
                    assert_eq!(c.named_args[0], None);
                    match &c.named_args[1] {
                        Some(e) => assert_eq!(e.kind, ExprKind::Ident("in_curry_slot!".to_string())),
                        None => panic!("filled slot lost"),
                    }
                }
                _ => panic!("curry lost"),
            }
        }
        _ => panic!("list lost"),
    }
}

#[test]
fn func_call_name_is_not_rewritten() {
    let call = FuncCall {
        name: "count".to_string(),
        args: vec![ident("rows")],
        named_args: vec![("by".to_string(), ident("col"))],
    };
    let mut pass = MarkIdents { seen: vec![] };
    let folded = pass.fold_func_call(call).unwrap();
    assert_eq!(folded.name, "count");
    assert_eq!(folded.named_args[0].0, "by");
    assert_eq!(folded.args[0].kind, ExprKind::Ident("rows!".to_string()));
    assert_eq!(
        folded.named_args[0].1.kind,
        ExprKind::Ident("col!".to_string())
    );
}

#[test]
fn pipeline_visitation_order_is_left_to_right() {
    let pipeline = Pipeline {
        exprs: vec![ident("a"), ident("b"), ident("c")],
    };
    let mut pass = MarkIdents { seen: vec![] };
    pass.fold_pipeline(pipeline).unwrap();
    assert_eq!(pass.seen, vec!["a", "b", "c"]);
}

#[test]
fn binary_visits_left_before_right() {
    let expr = Expr {
        kind: ExprKind::Binary {
            op: BinOp::Add,
            left: Box::new(ident("lhs")),
            right: Box::new(ident("rhs")),
        },
        span: None,
    };
    let mut pass = MarkIdents { seen: vec![] };
    pass.fold_expr(expr).unwrap();
    assert_eq!(pass.seen, vec!["lhs", "rhs"]);
}

#[test]
fn fail_fast_stops_at_second_derive_assign() {
    let derive = Transform {
        kind: TransformKind::Derive(vec![ident("first"), ident("boom"), ident("third")]),
        span: None,
    };
    let mut pass = FailOn {
        bad: "boom".to_string(),
        seen: vec![],
    };
    let r = pass.fold_transform(derive);
    assert_eq!(r, Err(FoldError::new("unresolvable: boom".to_string())));
    // The element after the failing one was never visited.
    assert_eq!(pass.seen, vec!["first"]);
}

#[test]
fn fail_fast_propagates_first_error_in_order() {
    let exprs = vec![ident("boom"), ident("later")];
    let mut pass = FailOn {
        bad: "boom".to_string(),
        seen: vec![],
    };
    let r = pass.fold_exprs(exprs);
    assert_eq!(r, Err(FoldError::new("unresolvable: boom".to_string())));
    assert_eq!(pass.seen, Vec::<String>::new());
}

#[test]
fn type_fold_reaches_parameter_expression() {
    let ty = Ty::Parameterized(
        Box::new(Ty::AnyOf(vec![
            Ty::Literal(TyLit::Integer),
            Ty::Named("custom".to_string()),
        ])),
        Box::new(ident("width")),
    );
    let mut pass = MarkIdents { seen: vec![] };
    let folded = pass.fold_type(ty).unwrap();
    assert_eq!(pass.seen, vec!["width"]);
    match folded {
        Ty::Parameterized(inner, param) => {
            assert_eq!(
                *inner,
                Ty::AnyOf(vec![
                    Ty::Literal(TyLit::Integer),
                    Ty::Named("custom".to_string()),
                ])
            );
            assert_eq!(param.kind, ExprKind::Ident("width!".to_string()));
        }
        _ => panic!("parameterized type lost"),
    }
}

#[test]
fn query_fold_reaches_table_pipelines_in_order() {
    let query = Query {
        def: prql_fold::ast::QueryDef {
            version: None,
            dialect: "generic".to_string(),
        },
        main_pipeline: vec![Transform {
            kind: TransformKind::Derive(vec![ident("m")]),
            span: None,
        }],
        tables: vec![
            Table {
                id: Some(1),
                name: "t1".to_string(),
                pipeline: vec![Transform {
                    kind: TransformKind::Derive(vec![ident("t1col")]),
                    span: None,
                }],
            },
            Table {
                id: Some(2),
                name: "t2".to_string(),
                pipeline: vec![Transform {
                    kind: TransformKind::Derive(vec![ident("t2col")]),
                    span: None,
                }],
            },
        ],
    };
    let mut pass = MarkIdents { seen: vec![] };
    let folded = pass.fold_query(query).unwrap();
    assert_eq!(pass.seen, vec!["m", "t1col", "t2col"]);
    // Table names are stable identity: not rewritten even by a pass
    // that rewrites identifiers.
    assert_eq!(folded.tables[0].name, "t1");
    assert_eq!(folded.tables[1].name, "t2");
    assert_eq!(folded.tables[0].id, Some(1));
    assert_eq!(folded.tables[1].id, Some(2));
}

#[test]
fn join_visits_table_ref_before_filter() {
    let join = Transform {
        kind: TransformKind::Join {
            side: prql_fold::ast::JoinSide::Inner,
            with: TableRef {
                name: "other".to_string(),
                alias: Some("o".to_string()),
                id: Some(5),
            },
            filter: JoinFilter::Using(vec![ident("key")]),
        },
        span: None,
    };
    let mut pass = MarkIdents { seen: vec![] };
    let folded = pass.fold_transform(join).unwrap();
    assert_eq!(pass.seen, vec!["other", "o", "key"]);
    match folded.kind {
        TransformKind::Join { with, .. } => {
            assert_eq!(with.name, "other!");
            assert_eq!(with.alias, Some("o!".to_string()));
            assert_eq!(with.id, Some(5));
        }
        _ => panic!("join lost"),
    }
}

#[test]
fn stmt_kinds_reached_from_stmts() {
    let stmts = vec![
        Stmt {
            kind: StmtKind::FuncDef(FuncDef {
                name: "f".to_string(),
                positional_params: vec![prql_fold::ast::FuncParam {
                    name: "p".to_string(),
                    ty: None,
                    default_value: Some(ident("dflt")),
                }],
                named_params: vec![],
                body: Box::new(ident("body")),
                return_ty: None,
            }),
            span: None,
        },
        Stmt {
            kind: StmtKind::TableDef(TableDef {
                id: None,
                name: "td".to_string(),
                pipeline: Box::new(ident("tdp")),
            }),
            span: None,
        },
        Stmt {
            kind: StmtKind::Pipeline(vec![ident("pp")]),
            span: None,
        },
        Stmt {
            kind: StmtKind::QueryDef(prql_fold::ast::QueryDef {
                version: None,
                dialect: "generic".to_string(),
            }),
            span: None,
        },
    ];
    let mut pass = MarkIdents { seen: vec![] };
    pass.fold_stmts(stmts).unwrap();
    assert_eq!(pass.seen, vec!["f", "dflt", "body", "td", "tdp", "pp"]);
}

#[test]
fn fold_ident_default_returns_it_unchanged() {
    let mut pass = MarkIdents { seen: vec![] };
    // The free default for identifiers is pass-through; the override in
    // this pass is what appends the marker.
    assert_eq!(fold_ident(&mut pass, "x".to_string()).unwrap(), "x");
    assert_eq!(pass.seen, Vec::<String>::new());
}
