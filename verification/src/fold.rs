//! The fold engine: one overridable rewrite method per syntactic
//! category, and one free function per composite category performing
//! exactly the default structural recursion — rewriting each child
//! through the corresponding category method of the pass, in declared
//! field order, and reassembling the parent unchanged except for the
//! rewritten children.
//!
//! A pass implements [`AstFold`] and delegates every category it does
//! not care about to the matching free function, which recurses through
//! the pass again, so that an overridden category is reached from
//! anywhere in the tree. Because the default recursion lives in free
//! functions rather than in provided method bodies, an override can
//! still invoke the default behaviour explicitly.
//!
//! Failure is strictly fail-fast: the first error raised by the pass in
//! visitation order aborts the enclosing reconstruction and is
//! propagated unmodified; no node after it is visited.

use vstd::prelude::*;
use crate::ast::{Expr, ExprKind, Range, Pipeline, InterpolateItem, Windowed, ColumnSort, FuncDef,
    FuncParam, FuncCall, FuncCurry, Stmt, StmtKind, TableDef, Transform, TransformKind, JoinFilter,
    TableRef, Query, Table, Ty, Ident, FoldError};
use crate::size::{expr_size, expr_kind_size, exprs_size, opt_box_expr_size, range_size,
    pipeline_size, interpolate_item_size, interpolate_items_size, column_sort_size,
    column_sorts_size, windowed_size, func_params_size, func_def_size, func_call_size,
    func_curry_size, ty_size, tys_size, table_def_size, stmt_kind_size, stmt_size, stmts_size,
    table_ref_size, join_filter_size, transform_size, transforms_size, query_size,
    lemma_exprs_size_element, lemma_interpolate_items_size_element, lemma_column_sorts_size_element,
    lemma_func_params_size_element, lemma_named_args_size_element, lemma_opt_exprs_size_element,
    lemma_tys_size_element, lemma_stmts_size_element, lemma_transforms_size_element,
    lemma_tables_size_element};

verus! {

/// The capability interface of a rewriting pass: one method per
/// syntactic category. A pass overrides the categories it needs to
/// change and delegates the rest to the free default-recursion
/// functions of this module, which visit every child through the pass
/// again. Each method carries the structural size of its node as a
/// termination measure, so that a delegating implementation is accepted
/// by the verifier; a method may return its node rewritten in any way,
/// or an error, which the default recursion propagates fail-fast.
pub trait AstFold: Sized {
    fn fold_stmt(&mut self, stmt: Stmt) -> (r: Result<Stmt, FoldError>)
        decreases stmt_size(stmt),
    ;

    fn fold_stmts(&mut self, stmts: Vec<Stmt>) -> (r: Result<Vec<Stmt>, FoldError>)
        decreases stmts_size(stmts@),
    ;

    fn fold_expr(&mut self, expr: Expr) -> (r: Result<Expr, FoldError>)
        decreases expr_size(expr),
    ;

    fn fold_expr_kind(&mut self, expr_kind: ExprKind) -> (r: Result<ExprKind, FoldError>)
        decreases expr_kind_size(expr_kind),
    ;

    fn fold_exprs(&mut self, exprs: Vec<Expr>) -> (r: Result<Vec<Expr>, FoldError>)
        decreases exprs_size(exprs@),
    ;

    fn fold_ident(&mut self, ident: Ident) -> (r: Result<Ident, FoldError>)
        decreases 0nat,
    ;

    fn fold_table(&mut self, table: TableDef) -> (r: Result<TableDef, FoldError>)
        decreases table_def_size(table),
    ;

    fn fold_transform(&mut self, transform: Transform) -> (r: Result<Transform, FoldError>)
        decreases transform_size(transform),
    ;

    fn fold_transforms(&mut self, transforms: Vec<Transform>) -> (r: Result<
        Vec<Transform>,
        FoldError,
    >)
        decreases transforms_size(transforms@),
    ;

    fn fold_pipeline(&mut self, pipeline: Pipeline) -> (r: Result<Pipeline, FoldError>)
        decreases pipeline_size(pipeline),
    ;

    fn fold_func_def(&mut self, function: FuncDef) -> (r: Result<FuncDef, FoldError>)
        decreases func_def_size(function),
    ;

    fn fold_func_call(&mut self, func_call: FuncCall) -> (r: Result<FuncCall, FoldError>)
        decreases func_call_size(func_call),
    ;

    fn fold_func_curry(&mut self, func_curry: FuncCurry) -> (r: Result<FuncCurry, FoldError>)
        decreases func_curry_size(func_curry),
    ;

    fn fold_table_ref(&mut self, table_ref: TableRef) -> (r: Result<TableRef, FoldError>)
        decreases table_ref_size(table_ref),
    ;

    fn fold_interpolate_item(&mut self, sstring_item: InterpolateItem) -> (r: Result<
        InterpolateItem,
        FoldError,
    >)
        decreases interpolate_item_size(sstring_item),
    ;

    fn fold_column_sort(&mut self, column_sort: ColumnSort) -> (r: Result<ColumnSort, FoldError>)
        decreases column_sort_size(column_sort),
    ;

    fn fold_column_sorts(&mut self, columns: Vec<ColumnSort>) -> (r: Result<
        Vec<ColumnSort>,
        FoldError,
    >)
        decreases column_sorts_size(columns@),
    ;

    fn fold_join_filter(&mut self, filter: JoinFilter) -> (r: Result<JoinFilter, FoldError>)
        decreases join_filter_size(filter),
    ;

    fn fold_type(&mut self, ty: Ty) -> (r: Result<Ty, FoldError>)
        decreases ty_size(ty),
    ;

    fn fold_windowed(&mut self, windowed: Windowed) -> (r: Result<Windowed, FoldError>)
        decreases windowed_size(windowed),
    ;

    fn fold_query(&mut self, query: Query) -> (r: Result<Query, FoldError>)
        decreases query_size(query),
    ;
}

/// Default recursion for a statement: folds its kind and keeps its
/// metadata.
pub fn fold_stmt<F: AstFold>(f: &mut F, stmt: Stmt) -> (r: Result<Stmt, FoldError>)
    ensures
        stmt.kind is QueryDef ==> r == Ok::<Stmt, FoldError>(stmt),
        r matches Ok(o) ==> o.span == stmt.span && default_stmt_kind_to::<F>(stmt.kind, Ok(o.kind)),
        r matches Err(e) ==> default_stmt_kind_to::<F>(stmt.kind, Err(e)),
    decreases stmt_size(stmt),
{
    let Stmt { kind, span } = stmt;
    match fold_stmt_kind(f, kind) {
        Ok(kind) => Ok(Stmt { kind, span }),
        Err(e) => Err(e),
    }
}

/// Default recursion for a statement list: each element in order.
pub fn fold_stmts<F: AstFold>(f: &mut F, stmts: Vec<Stmt>) -> (r: Result<Vec<Stmt>, FoldError>)
    ensures
        stmts@.len() == 0 ==> (r matches Ok(o) && o@.len() == 0),
        r matches Ok(o) ==> o@.len() == stmts@.len() && (forall|i: int|
            0 <= i < stmts@.len() ==> #[trigger] folds_stmt_to::<F>(stmts@[i], Ok(o@[i]))),
        r matches Err(e) ==> some_stmt_errs::<F>(stmts@, e),
    decreases stmts_size(stmts@),
{
    let ghost all: Seq<Stmt> = stmts@;
    let mut rest = stmts;
    let mut out: Vec<Stmt> = Vec::new();
    proof {
        assert(rest@ =~= all.skip(0));
    }
    while rest.len() > 0
        invariant
            all == stmts@,
            out@.len() + rest@.len() == all.len(),
            rest@ =~= all.skip(out@.len() as int),
            forall|j: int|
                0 <= j < out@.len() ==> #[trigger] folds_stmt_to::<F>(all[j], Ok(out@[j])),
        decreases rest@.len(),
    {
        let first = rest.remove(0);
        proof {
            let n = out@.len() as int;
            assert(all.skip(n).first() == all[n]);
            lemma_stmts_size_element(all, n);
            assert(rest@ =~= all.skip(n + 1));
        }
        match f.fold_stmt(first) {
            Ok(w) => out.push(w),
            Err(e) => {
                proof {
                    let n = out@.len() as int;
                    assert(0 <= n < all.len());
                    assert(folds_stmt_to::<F>(all[n], Err(e)));
                    assert(all[n] == stmts@[n]);
                    assert(some_stmt_errs::<F>(stmts@, e));
                }
                return Err(e);
            },
        }
    }
    Ok(out)
}

/// Default recursion for an expression: folds its kind and keeps its
/// metadata.
pub fn fold_expr<F: AstFold>(f: &mut F, expr: Expr) -> (r: Result<Expr, FoldError>)
    ensures
        r matches Ok(o) ==> o.span == expr.span && folds_expr_kind_to::<F>(expr.kind, Ok(o.kind)),
        r matches Err(e) ==> folds_expr_kind_to::<F>(expr.kind, Err(e)),
    decreases expr_size(expr),
{
    let Expr { kind, span } = expr;
    match f.fold_expr_kind(kind) {
        Ok(kind) => Ok(Expr { kind, span }),
        Err(e) => Err(e),
    }
}

/// Default recursion for an expression list: each element in order.
pub fn fold_exprs<F: AstFold>(f: &mut F, exprs: Vec<Expr>) -> (r: Result<Vec<Expr>, FoldError>)
    ensures
        exprs@.len() == 0 ==> (r matches Ok(o) && o@.len() == 0),
        r matches Ok(o) ==> o@.len() == exprs@.len() && (forall|i: int|
            0 <= i < exprs@.len() ==> #[trigger] folds_expr_to::<F>(exprs@[i], Ok(o@[i]))),
        r matches Err(e) ==> some_expr_errs::<F>(exprs@, e),
    decreases exprs_size(exprs@),
{
    let ghost all: Seq<Expr> = exprs@;
    let mut rest = exprs;
    let mut out: Vec<Expr> = Vec::new();
    proof {
        assert(rest@ =~= all.skip(0));
    }
    while rest.len() > 0
        invariant
            all == exprs@,
            out@.len() + rest@.len() == all.len(),
            rest@ =~= all.skip(out@.len() as int),
            forall|j: int|
                0 <= j < out@.len() ==> #[trigger] folds_expr_to::<F>(all[j], Ok(out@[j])),
        decreases rest@.len(),
    {
        let first = rest.remove(0);
        proof {
            let n = out@.len() as int;
            assert(all.skip(n).first() == all[n]);
            lemma_exprs_size_element(all, n);
            assert(rest@ =~= all.skip(n + 1));
        }
        match f.fold_expr(first) {
            Ok(w) => out.push(w),
            Err(e) => {
                proof {
                    let n = out@.len() as int;
                    assert(0 <= n < all.len());
                    assert(folds_expr_to::<F>(all[n], Err(e)));
                    assert(all[n] == exprs@[n]);
                    assert(some_expr_errs::<F>(exprs@, e));
                }
                return Err(e);
            },
        }
    }
    Ok(out)
}

/// Default behaviour for a name: returned unchanged.
pub fn fold_ident<F: AstFold>(f: &mut F, ident: Ident) -> (r: Result<Ident, FoldError>)
    ensures
        r == Ok::<Ident, FoldError>(ident),
    decreases 0nat,
{
    Ok(ident)
}

/// Default recursion for a table definition: folds its name and its
/// pipeline expression; `id` is stable identity and is kept.
pub fn fold_table<F: AstFold>(f: &mut F, table: TableDef) -> (r: Result<TableDef, FoldError>)
    ensures
        r matches Ok(o) ==> o.id == table.id && folds_ident_to::<F>(table.name, Ok(o.name))
            && folds_expr_to::<F>(*table.pipeline, Ok(*o.pipeline)),
        r matches Err(e) ==> folds_ident_to::<F>(table.name, Err(e)) || folds_expr_to::<F>(
            *table.pipeline,
            Err(e),
        ),
    decreases table_def_size(table),
{
    let TableDef { id, name, pipeline } = table;
    let name = match f.fold_ident(name) {
        Ok(n) => n,
        Err(e) => {
            return Err(e);
        },
    };
    match f.fold_expr(*pipeline) {
        Ok(p) => Ok(TableDef { id, name, pipeline: Box::new(p) }),
        Err(e) => Err(e),
    }
}

/// True when two expression forms are the same variant, with the same
/// operator where the variant carries one. The default recursion
/// preserves the form of every node it rebuilds, whatever the pass
/// returns for the children.
pub open spec fn same_expr_form(a: ExprKind, b: ExprKind) -> bool {
    match (a, b) {
        (ExprKind::Ident(_), ExprKind::Ident(_)) => true,
        (ExprKind::Binary { op: oa, left: _, right: _ }, ExprKind::Binary {
            op: ob,
            left: _,
            right: _,
        }) => oa == ob,
        (ExprKind::Unary { op: oa, expr: _ }, ExprKind::Unary { op: ob, expr: _ }) => oa == ob,
        (ExprKind::List(_), ExprKind::List(_)) => true,
        (ExprKind::Range(_), ExprKind::Range(_)) => true,
        (ExprKind::Pipeline(_), ExprKind::Pipeline(_)) => true,
        (ExprKind::SString(_), ExprKind::SString(_)) => true,
        (ExprKind::FString(_), ExprKind::FString(_)) => true,
        (ExprKind::FuncCall(_), ExprKind::FuncCall(_)) => true,
        (ExprKind::FuncCurry(_), ExprKind::FuncCurry(_)) => true,
        (ExprKind::Windowed(_), ExprKind::Windowed(_)) => true,
        (ExprKind::Type(_), ExprKind::Type(_)) => true,
        (ExprKind::ResolvedPipeline(_), ExprKind::ResolvedPipeline(_)) => true,
        (ExprKind::Empty, ExprKind::Empty) => true,
        (ExprKind::Literal(la), ExprKind::Literal(lb)) => la == lb,
        (ExprKind::Interval(ia), ExprKind::Interval(ib)) => ia == ib,
        _ => false,
    }
}

/// True when two relational operators are the same variant, with the
/// same join side and window frame kind where they carry one.
pub open spec fn same_transform_form(a: TransformKind, b: TransformKind) -> bool {
    match (a, b) {
        (TransformKind::From(_), TransformKind::From(_)) => true,
        (TransformKind::Derive(_), TransformKind::Derive(_)) => true,
        (TransformKind::Select(_), TransformKind::Select(_)) => true,
        (TransformKind::Aggregate { assigns: _, by: _ }, TransformKind::Aggregate {
            assigns: _,
            by: _,
        }) => true,
        (TransformKind::Filter(_), TransformKind::Filter(_)) => true,
        (TransformKind::Sort(_), TransformKind::Sort(_)) => true,
        (TransformKind::Join { side: sa, with: _, filter: _ }, TransformKind::Join {
            side: sb,
            with: _,
            filter: _,
        }) => sa == sb,
        (TransformKind::Group { by: _, pipeline: _ }, TransformKind::Group {
            by: _,
            pipeline: _,
        }) => true,
        (TransformKind::Window { kind: ka, range: _, pipeline: _ }, TransformKind::Window {
            kind: kb,
            range: _,
            pipeline: _,
        }) => ka == kb,
        (TransformKind::Take { range: _, by: _, sort: _ }, TransformKind::Take {
            range: _,
            by: _,
            sort: _,
        }) => true,
        (TransformKind::Unique, TransformKind::Unique) => true,
        _ => false,
    }
}

/// True when two statement forms are the same variant, with equal
/// opaque configuration where they carry it.
pub open spec fn same_stmt_form(a: StmtKind, b: StmtKind) -> bool {
    match (a, b) {
        (StmtKind::FuncDef(_), StmtKind::FuncDef(_)) => true,
        (StmtKind::TableDef(_), StmtKind::TableDef(_)) => true,
        (StmtKind::Pipeline(_), StmtKind::Pipeline(_)) => true,
        (StmtKind::QueryDef(qa), StmtKind::QueryDef(qb)) => qa == qb,
        _ => false,
    }
}

/// True when `r` is a result the pass itself can return for this name:
/// the rewritten child of a default recursion is always tied to the
/// pass's own category method, so a body that skips the pass cannot
/// meet the contract. One such predicate follows for every category,
/// and for each library-owned recursion function.
pub open spec fn folds_ident_to<F: AstFold>(i: Ident, r: Result<Ident, FoldError>) -> bool {
    exists|f1: &mut F| call_ensures(F::fold_ident, (f1, i), r)
}

pub open spec fn folds_expr_to<F: AstFold>(e: Expr, r: Result<Expr, FoldError>) -> bool {
    exists|f1: &mut F| call_ensures(F::fold_expr, (f1, e), r)
}

pub open spec fn folds_expr_kind_to<F: AstFold>(k: ExprKind, r: Result<ExprKind, FoldError>) -> bool {
    exists|f1: &mut F| call_ensures(F::fold_expr_kind, (f1, k), r)
}

pub open spec fn folds_exprs_to<F: AstFold>(v: Vec<Expr>, r: Result<Vec<Expr>, FoldError>) -> bool {
    exists|f1: &mut F| call_ensures(F::fold_exprs, (f1, v), r)
}

pub open spec fn folds_stmt_to<F: AstFold>(s: Stmt, r: Result<Stmt, FoldError>) -> bool {
    exists|f1: &mut F| call_ensures(F::fold_stmt, (f1, s), r)
}

pub open spec fn folds_table_to<F: AstFold>(t: TableDef, r: Result<TableDef, FoldError>) -> bool {
    exists|f1: &mut F| call_ensures(F::fold_table, (f1, t), r)
}

pub open spec fn folds_transform_to<F: AstFold>(t: Transform, r: Result<Transform, FoldError>) -> bool {
    exists|f1: &mut F| call_ensures(F::fold_transform, (f1, t), r)
}

pub open spec fn folds_transforms_to<F: AstFold>(v: Vec<Transform>, r: Result<Vec<Transform>, FoldError>) -> bool {
    exists|f1: &mut F| call_ensures(F::fold_transforms, (f1, v), r)
}

pub open spec fn folds_pipeline_to<F: AstFold>(p: Pipeline, r: Result<Pipeline, FoldError>) -> bool {
    exists|f1: &mut F| call_ensures(F::fold_pipeline, (f1, p), r)
}

pub open spec fn folds_func_def_to<F: AstFold>(f: FuncDef, r: Result<FuncDef, FoldError>) -> bool {
    exists|f1: &mut F| call_ensures(F::fold_func_def, (f1, f), r)
}

pub open spec fn folds_func_call_to<F: AstFold>(c: FuncCall, r: Result<FuncCall, FoldError>) -> bool {
    exists|f1: &mut F| call_ensures(F::fold_func_call, (f1, c), r)
}

pub open spec fn folds_func_curry_to<F: AstFold>(c: FuncCurry, r: Result<FuncCurry, FoldError>) -> bool {
    exists|f1: &mut F| call_ensures(F::fold_func_curry, (f1, c), r)
}

pub open spec fn folds_table_ref_to<F: AstFold>(t: TableRef, r: Result<TableRef, FoldError>) -> bool {
    exists|f1: &mut F| call_ensures(F::fold_table_ref, (f1, t), r)
}

pub open spec fn folds_interpolate_item_to<F: AstFold>(
    it: InterpolateItem,
    r: Result<InterpolateItem, FoldError>,
) -> bool {
    exists|f1: &mut F| call_ensures(F::fold_interpolate_item, (f1, it), r)
}

pub open spec fn folds_column_sort_to<F: AstFold>(
    c: ColumnSort,
    r: Result<ColumnSort, FoldError>,
) -> bool {
    exists|f1: &mut F| call_ensures(F::fold_column_sort, (f1, c), r)
}

pub open spec fn folds_column_sorts_to<F: AstFold>(
    v: Vec<ColumnSort>,
    r: Result<Vec<ColumnSort>, FoldError>,
) -> bool {
    exists|f1: &mut F| call_ensures(F::fold_column_sorts, (f1, v), r)
}

pub open spec fn folds_join_filter_to<F: AstFold>(
    jf: JoinFilter,
    r: Result<JoinFilter, FoldError>,
) -> bool {
    exists|f1: &mut F| call_ensures(F::fold_join_filter, (f1, jf), r)
}

pub open spec fn folds_type_to<F: AstFold>(t: Ty, r: Result<Ty, FoldError>) -> bool {
    exists|f1: &mut F| call_ensures(F::fold_type, (f1, t), r)
}

pub open spec fn folds_windowed_to<F: AstFold>(w: Windowed, r: Result<Windowed, FoldError>) -> bool {
    exists|f1: &mut F| call_ensures(F::fold_windowed, (f1, w), r)
}

/// The library-owned recursion functions, tied the same way where a
/// composite hands a child to one of them rather than to a hook.
pub open spec fn default_stmt_kind_to<F: AstFold>(k: StmtKind, r: Result<StmtKind, FoldError>) -> bool {
    exists|f1: &mut F| call_ensures(fold_stmt_kind::<F>, (f1, k), r)
}

pub open spec fn default_range_to<F: AstFold>(rg: Range, r: Result<Range, FoldError>) -> bool {
    exists|f1: &mut F| call_ensures(fold_range::<F>, (f1, rg), r)
}

pub open spec fn default_opt_box_to<F: AstFold>(
    o: Option<Box<Expr>>,
    r: Result<Option<Box<Expr>>, FoldError>,
) -> bool {
    exists|f1: &mut F| call_ensures(fold_optional_box::<F>, (f1, o), r)
}

pub open spec fn default_interpolate_items_to<F: AstFold>(
    v: Vec<InterpolateItem>,
    r: Result<Vec<InterpolateItem>, FoldError>,
) -> bool {
    exists|f1: &mut F| call_ensures(fold_interpolate_items::<F>, (f1, v), r)
}

pub open spec fn default_func_params_to<F: AstFold>(
    v: Vec<FuncParam>,
    r: Result<Vec<FuncParam>, FoldError>,
) -> bool {
    exists|f1: &mut F| call_ensures(fold_func_param::<F>, (f1, v), r)
}

/// Some element of the list can make the pass return exactly this
/// error: the shape a propagated failure always has.
pub open spec fn some_expr_errs<F: AstFold>(s: Seq<Expr>, e: FoldError) -> bool {
    exists|i: int| 0 <= i < s.len() && #[trigger] folds_expr_to::<F>(s[i], Err(e))
}

pub open spec fn some_stmt_errs<F: AstFold>(s: Seq<Stmt>, e: FoldError) -> bool {
    exists|i: int| 0 <= i < s.len() && #[trigger] folds_stmt_to::<F>(s[i], Err(e))
}

pub open spec fn some_transform_errs<F: AstFold>(s: Seq<Transform>, e: FoldError) -> bool {
    exists|i: int| 0 <= i < s.len() && #[trigger] folds_transform_to::<F>(s[i], Err(e))
}

pub open spec fn some_column_sort_errs<F: AstFold>(s: Seq<ColumnSort>, e: FoldError) -> bool {
    exists|i: int| 0 <= i < s.len() && #[trigger] folds_column_sort_to::<F>(s[i], Err(e))
}

pub open spec fn some_interpolate_item_errs<F: AstFold>(s: Seq<InterpolateItem>, e: FoldError) -> bool {
    exists|i: int| 0 <= i < s.len() && #[trigger] folds_interpolate_item_to::<F>(s[i], Err(e))
}

pub open spec fn some_named_arg_errs<F: AstFold>(s: Seq<(Ident, Expr)>, e: FoldError) -> bool {
    exists|i: int| 0 <= i < s.len() && #[trigger] folds_expr_to::<F>(s[i].1, Err(e))
}

pub open spec fn some_slot_errs<F: AstFold>(s: Seq<Option<Expr>>, e: FoldError) -> bool {
    exists|i: int|
        {
            &&& 0 <= i < s.len()
            &&& (#[trigger] s[i]) matches Option::Some(x)
            &&& folds_expr_to::<F>(x, Err(e))
        }
}

/// The rewritten parameter keeps its name and type, and its default
/// value, when present, is a result the pass itself can return for the
/// old default.
pub open spec fn param_tied<F: AstFold>(a: FuncParam, b: FuncParam) -> bool {
    &&& b.name == a.name
    &&& b.ty == a.ty
    &&& (b.default_value is Some <==> a.default_value is Some)
    &&& (a.default_value matches Option::Some(x) ==> (b.default_value matches Option::Some(x2)
        && folds_expr_to::<F>(x, Ok(x2))))
}

pub open spec fn some_param_errs<F: AstFold>(s: Seq<FuncParam>, e: FoldError) -> bool {
    exists|i: int|
        {
            &&& 0 <= i < s.len()
            &&& (#[trigger] s[i]).default_value matches Option::Some(x)
            &&& folds_expr_to::<F>(x, Err(e))
        }
}

pub open spec fn some_table_errs<F: AstFold>(s: Seq<Table>, e: FoldError) -> bool {
    exists|i: int|
        0 <= i < s.len() && folds_transforms_to::<F>((#[trigger] s[i]).pipeline, Err(e))
}

/// Default recursion over every expression form. `Empty`, `Literal` and
/// `Interval` carry no children and are returned unchanged, whatever the
/// pass overrides.
pub fn fold_expr_kind<F: AstFold>(f: &mut F, expr_kind: ExprKind) -> (r: Result<
    ExprKind,
    FoldError,
>)
    ensures
        expr_kind is Empty ==> r == Ok::<ExprKind, FoldError>(expr_kind),
        expr_kind is Literal ==> r == Ok::<ExprKind, FoldError>(expr_kind),
        expr_kind is Interval ==> r == Ok::<ExprKind, FoldError>(expr_kind),
        r matches Ok(o) ==> same_expr_form(expr_kind, o),
        expr_kind matches ExprKind::Ident(i0) ==> (r matches Ok(o) ==> (o matches ExprKind::Ident(
            i2,
        ) && folds_ident_to::<F>(i0, Ok(i2)))),
        expr_kind matches ExprKind::Ident(i0) ==> (r matches Err(e) ==> folds_ident_to::<F>(
            i0,
            Err(e),
        )),
        expr_kind matches ExprKind::Binary { op: op0, left, right } ==> (r matches Ok(o) ==> (o
            matches ExprKind::Binary { op: op2, left: l2, right: r2 } && op2 == op0
            && folds_expr_to::<F>(*left, Ok(*l2)) && folds_expr_to::<F>(*right, Ok(*r2)))),
        expr_kind matches ExprKind::Binary { op: _, left, right } ==> (r matches Err(e)
            ==> folds_expr_to::<F>(*left, Err(e)) || folds_expr_to::<F>(*right, Err(e))),
        expr_kind matches ExprKind::Unary { op: op0, expr } ==> (r matches Ok(o) ==> (o matches
            ExprKind::Unary { op: op2, expr: x2 } && op2 == op0 && folds_expr_to::<F>(
            *expr,
            Ok(*x2),
        ))),
        expr_kind matches ExprKind::Unary { op: _, expr } ==> (r matches Err(e)
            ==> folds_expr_to::<F>(*expr, Err(e))),
        expr_kind matches ExprKind::List(items) ==> (r matches Ok(o) ==> (o matches ExprKind::List(
            v2,
        ) && folds_exprs_to::<F>(items, Ok(v2)))),
        expr_kind matches ExprKind::List(items) ==> (r matches Err(e) ==> folds_exprs_to::<F>(
            items,
            Err(e),
        )),
        expr_kind matches ExprKind::Range(rg) ==> (r matches Ok(o) ==> (o matches ExprKind::Range(
            rg2,
        ) && default_range_to::<F>(rg, Ok(rg2)))),
        expr_kind matches ExprKind::Range(rg) ==> (r matches Err(e) ==> default_range_to::<F>(
            rg,
            Err(e),
        )),
        expr_kind matches ExprKind::Pipeline(p) ==> (r matches Ok(o) ==> (o matches
            ExprKind::Pipeline(p2) && folds_pipeline_to::<F>(p, Ok(p2)))),
        expr_kind matches ExprKind::Pipeline(p) ==> (r matches Err(e) ==> folds_pipeline_to::<F>(
            p,
            Err(e),
        )),
        expr_kind matches ExprKind::SString(items) ==> (r matches Ok(o) ==> (o matches
            ExprKind::SString(os) && os@.len() == items@.len()
            && default_interpolate_items_to::<F>(items, Ok(os)))),
        expr_kind matches ExprKind::SString(items) ==> (r matches Err(e)
            ==> default_interpolate_items_to::<F>(items, Err(e))),
        expr_kind matches ExprKind::FString(items) ==> (r matches Ok(o) ==> (o matches
            ExprKind::FString(os) && os@.len() == items@.len()
            && default_interpolate_items_to::<F>(items, Ok(os)))),
        expr_kind matches ExprKind::FString(items) ==> (r matches Err(e)
            ==> default_interpolate_items_to::<F>(items, Err(e))),
        expr_kind matches ExprKind::FuncCall(c) ==> (r matches Ok(o) ==> (o matches
            ExprKind::FuncCall(c2) && folds_func_call_to::<F>(c, Ok(c2)))),
        expr_kind matches ExprKind::FuncCall(c) ==> (r matches Err(e) ==> folds_func_call_to::<F>(
            c,
            Err(e),
        )),
        expr_kind matches ExprKind::FuncCurry(c) ==> (r matches Ok(o) ==> (o matches
            ExprKind::FuncCurry(c2) && folds_func_curry_to::<F>(c, Ok(c2)))),
        expr_kind matches ExprKind::FuncCurry(c) ==> (r matches Err(e)
            ==> folds_func_curry_to::<F>(c, Err(e))),
        expr_kind matches ExprKind::Windowed(w) ==> (r matches Ok(o) ==> (o matches
            ExprKind::Windowed(w2) && folds_windowed_to::<F>(w, Ok(w2)))),
        expr_kind matches ExprKind::Windowed(w) ==> (r matches Err(e) ==> folds_windowed_to::<F>(
            w,
            Err(e),
        )),
        expr_kind matches ExprKind::Type(t) ==> (r matches Ok(o) ==> (o matches ExprKind::Type(t2)
            && folds_type_to::<F>(t, Ok(t2)))),
        expr_kind matches ExprKind::Type(t) ==> (r matches Err(e) ==> folds_type_to::<F>(
            t,
            Err(e),
        )),
        expr_kind matches ExprKind::ResolvedPipeline(ts) ==> (r matches Ok(o) ==> (o matches
            ExprKind::ResolvedPipeline(ts2) && folds_transforms_to::<F>(ts, Ok(ts2)))),
        expr_kind matches ExprKind::ResolvedPipeline(ts) ==> (r matches Err(e)
            ==> folds_transforms_to::<F>(ts, Err(e))),
    decreases expr_kind_size(expr_kind),
{
    match expr_kind {
        ExprKind::Ident(ident) => {
            match f.fold_ident(ident) {
                Ok(i) => Ok(ExprKind::Ident(i)),
                Err(e) => Err(e),
            }
        },
        ExprKind::Binary { op, left, right } => {
            let left = match f.fold_expr(*left) {
                Ok(l) => l,
                Err(e) => {
                    return Err(e);
                },
            };
            match f.fold_expr(*right) {
                Ok(r2) => Ok(
                    ExprKind::Binary { op, left: Box::new(left), right: Box::new(r2) },
                ),
                Err(e) => Err(e),
            }
        },
        ExprKind::Unary { op, expr } => {
            match f.fold_expr(*expr) {
                Ok(x) => Ok(ExprKind::Unary { op, expr: Box::new(x) }),
                Err(e) => Err(e),
            }
        },
        ExprKind::List(items) => {
            match f.fold_exprs(items) {
                Ok(v) => Ok(ExprKind::List(v)),
                Err(e) => Err(e),
            }
        },
        ExprKind::Range(range) => {
            match fold_range(f, range) {
                Ok(rg) => Ok(ExprKind::Range(rg)),
                Err(e) => Err(e),
            }
        },
        ExprKind::Pipeline(p) => {
            match f.fold_pipeline(p) {
                Ok(p) => Ok(ExprKind::Pipeline(p)),
                Err(e) => Err(e),
            }
        },
        ExprKind::SString(items) => {
            match fold_interpolate_items(f, items) {
                Ok(v) => Ok(ExprKind::SString(v)),
                Err(e) => Err(e),
            }
        },
        ExprKind::FString(items) => {
            match fold_interpolate_items(f, items) {
                Ok(v) => Ok(ExprKind::FString(v)),
                Err(e) => Err(e),
            }
        },
        ExprKind::FuncCall(func_call) => {
            match f.fold_func_call(func_call) {
                Ok(c) => Ok(ExprKind::FuncCall(c)),
                Err(e) => Err(e),
            }
        },
        ExprKind::FuncCurry(func_curry) => {
            match f.fold_func_curry(func_curry) {
                Ok(c) => Ok(ExprKind::FuncCurry(c)),
                Err(e) => Err(e),
            }
        },
        ExprKind::Windowed(window) => {
            match f.fold_windowed(window) {
                Ok(w) => Ok(ExprKind::Windowed(w)),
                Err(e) => Err(e),
            }
        },
        ExprKind::Type(t) => {
            match f.fold_type(t) {
                Ok(t) => Ok(ExprKind::Type(t)),
                Err(e) => Err(e),
            }
        },
        ExprKind::ResolvedPipeline(transforms) => {
            match f.fold_transforms(transforms) {
                Ok(ts) => Ok(ExprKind::ResolvedPipeline(ts)),
                Err(e) => Err(e),
            }
        },
        ExprKind::Empty => Ok(ExprKind::Empty),
        ExprKind::Literal(l) => Ok(ExprKind::Literal(l)),
        ExprKind::Interval(iv) => Ok(ExprKind::Interval(iv)),
    }
}

/// Default recursion over every statement form. `QueryDef` is opaque
/// configuration and is returned unchanged.
pub fn fold_stmt_kind<F: AstFold>(f: &mut F, stmt_kind: StmtKind) -> (r: Result<
    StmtKind,
    FoldError,
>)
    ensures
        stmt_kind is QueryDef ==> r == Ok::<StmtKind, FoldError>(stmt_kind),
        r matches Ok(o) ==> same_stmt_form(stmt_kind, o),
        stmt_kind matches StmtKind::FuncDef(fd) ==> (r matches Ok(o) ==> (o matches
            StmtKind::FuncDef(fd2) && folds_func_def_to::<F>(fd, Ok(fd2)))),
        stmt_kind matches StmtKind::FuncDef(fd) ==> (r matches Err(e) ==> folds_func_def_to::<F>(
            fd,
            Err(e),
        )),
        stmt_kind matches StmtKind::TableDef(t) ==> (r matches Ok(o) ==> (o matches
            StmtKind::TableDef(t2) && folds_table_to::<F>(t, Ok(t2)))),
        stmt_kind matches StmtKind::TableDef(t) ==> (r matches Err(e) ==> folds_table_to::<F>(
            t,
            Err(e),
        )),
        stmt_kind matches StmtKind::Pipeline(v) ==> (r matches Ok(o) ==> (o matches
            StmtKind::Pipeline(v2) && folds_exprs_to::<F>(v, Ok(v2)))),
        stmt_kind matches StmtKind::Pipeline(v) ==> (r matches Err(e) ==> folds_exprs_to::<F>(
            v,
            Err(e),
        )),
    decreases stmt_kind_size(stmt_kind),
{
    match stmt_kind {
        StmtKind::FuncDef(func) => {
            match f.fold_func_def(func) {
                Ok(fd) => Ok(StmtKind::FuncDef(fd)),
                Err(e) => Err(e),
            }
        },
        StmtKind::TableDef(table) => {
            match f.fold_table(table) {
                Ok(t) => Ok(StmtKind::TableDef(t)),
                Err(e) => Err(e),
            }
        },
        StmtKind::Pipeline(exprs) => {
            match f.fold_exprs(exprs) {
                Ok(v) => Ok(StmtKind::Pipeline(v)),
                Err(e) => Err(e),
            }
        },
        StmtKind::QueryDef(d) => Ok(StmtKind::QueryDef(d)),
    }
}

/// Default recursion for a windowed expression: the expression, then the
/// grouping, then the sort columns, then the frame range; the frame kind
/// is kept.
pub fn fold_windowed<F: AstFold>(f: &mut F, window: Windowed) -> (r: Result<Windowed, FoldError>)
    ensures
        r matches Ok(o) ==> o.window.0 == window.window.0 && folds_expr_to::<F>(
            *window.expr,
            Ok(*o.expr),
        ) && folds_exprs_to::<F>(window.group, Ok(o.group)) && folds_column_sorts_to::<F>(
            window.sort,
            Ok(o.sort),
        ) && default_range_to::<F>(window.window.1, Ok(o.window.1)),
        r matches Err(e) ==> folds_expr_to::<F>(*window.expr, Err(e)) || folds_exprs_to::<F>(
            window.group,
            Err(e),
        ) || folds_column_sorts_to::<F>(window.sort, Err(e)) || default_range_to::<F>(
            window.window.1,
            Err(e),
        ),
    decreases windowed_size(window),
{
    let Windowed { expr, group, sort, window: frame } = window;
    let expr = match f.fold_expr(*expr) {
        Ok(x) => x,
        Err(e) => {
            return Err(e);
        },
    };
    let group = match f.fold_exprs(group) {
        Ok(g) => g,
        Err(e) => {
            return Err(e);
        },
    };
    let sort = match f.fold_column_sorts(sort) {
        Ok(s) => s,
        Err(e) => {
            return Err(e);
        },
    };
    let (kind, range) = frame;
    match fold_range(f, range) {
        Ok(rg) => Ok(Windowed { expr: Box::new(expr), group, sort, window: (kind, rg) }),
        Err(e) => Err(e),
    }
}

/// Default recursion for a range: the start bound, then the end bound;
/// an absent bound stays absent.
pub fn fold_range<F: AstFold>(f: &mut F, range: Range) -> (r: Result<Range, FoldError>)
    ensures
        range.start is None && range.end is None ==> r == Ok::<Range, FoldError>(range),
        r matches Ok(o) ==> (o.start is Some <==> range.start is Some) && (o.end is Some
            <==> range.end is Some) && default_opt_box_to::<F>(range.start, Ok(o.start))
            && default_opt_box_to::<F>(range.end, Ok(o.end)),
        r matches Err(e) ==> default_opt_box_to::<F>(range.start, Err(e))
            || default_opt_box_to::<F>(range.end, Err(e)),
    decreases range_size(range),
{
    let Range { start, end } = range;
    let start = match fold_optional_box(f, start) {
        Ok(s) => s,
        Err(e) => {
            return Err(e);
        },
    };
    match fold_optional_box(f, end) {
        Ok(en) => Ok(Range { start, end: en }),
        Err(e) => Err(e),
    }
}

/// Default recursion for a whole query: the main pipeline, then each
/// table's pipeline in order. The configuration and each table's `id`
/// and `name` are stable identity: they are kept unchanged, whatever
/// the pass overrides, and tables are not reordered.
pub fn fold_query<F: AstFold>(f: &mut F, query: Query) -> (r: Result<Query, FoldError>)
    ensures
        r matches Ok(o) ==> o.def == query.def && o.tables@.len() == query.tables@.len() && (
        forall|i: int|
            0 <= i < query.tables@.len() ==> #[trigger] o.tables@[i].id == query.tables@[i].id
                && o.tables@[i].name == query.tables@[i].name),
        r matches Ok(o) ==> folds_transforms_to::<F>(query.main_pipeline, Ok(o.main_pipeline)) && (
        forall|i: int|
            0 <= i < query.tables@.len() ==> #[trigger] folds_transforms_to::<F>(
                query.tables@[i].pipeline,
                Ok(o.tables@[i].pipeline),
            )),
        r matches Err(e) ==> folds_transforms_to::<F>(query.main_pipeline, Err(e))
            || some_table_errs::<F>(query.tables@, e),
    decreases query_size(query),
{
    let Query { def, main_pipeline, tables } = query;
    let main_pipeline = match f.fold_transforms(main_pipeline) {
        Ok(ts) => ts,
        Err(e) => {
            return Err(e);
        },
    };
    let ghost all: Seq<Table> = tables@;
    let mut rest = tables;
    let mut out: Vec<Table> = Vec::new();
    proof {
        assert(rest@ =~= all.skip(0));
    }
    while rest.len() > 0
        invariant
            all == query.tables@,
            out@.len() + rest@.len() == all.len(),
            rest@ =~= all.skip(out@.len() as int),
            forall|i: int|
                0 <= i < out@.len() ==> #[trigger] out@[i].id == all[i].id && out@[i].name
                    == all[i].name,
            forall|i: int|
                0 <= i < out@.len() ==> #[trigger] folds_transforms_to::<F>(
                    all[i].pipeline,
                    Ok(out@[i].pipeline),
                ),
        decreases rest@.len(),
    {
        let first = rest.remove(0);
        proof {
            let n = out@.len() as int;
            assert(all.skip(n).first() == all[n]);
            lemma_tables_size_element(all, n);
            assert(rest@ =~= all.skip(n + 1));
        }
        let Table { id, name, pipeline } = first;
        match f.fold_transforms(pipeline) {
            Ok(ts) => out.push(Table { id, name, pipeline: ts }),
            Err(e) => {
                proof {
                    let n = out@.len() as int;
                    assert(0 <= n < all.len());
                    assert(folds_transforms_to::<F>(all[n].pipeline, Err(e)));
                    assert(all[n] == query.tables@[n]);
                    assert(some_table_errs::<F>(query.tables@, e));
                }
                return Err(e);
            },
        }
    }
    Ok(Query { def, main_pipeline, tables: out })
}

/// Default recursion for a transform list: each element in order.
pub fn fold_transforms<F: AstFold>(f: &mut F, transforms: Vec<Transform>) -> (r: Result<
    Vec<Transform>,
    FoldError,
>)
    ensures
        transforms@.len() == 0 ==> (r matches Ok(o) && o@.len() == 0),
        r matches Ok(o) ==> o@.len() == transforms@.len() && (forall|i: int|
            0 <= i < transforms@.len() ==> #[trigger] folds_transform_to::<F>(transforms@[i], Ok(o@[i]))),
        r matches Err(e) ==> some_transform_errs::<F>(transforms@, e),
    decreases transforms_size(transforms@),
{
    let ghost all: Seq<Transform> = transforms@;
    let mut rest = transforms;
    let mut out: Vec<Transform> = Vec::new();
    proof {
        assert(rest@ =~= all.skip(0));
    }
    while rest.len() > 0
        invariant
            all == transforms@,
            out@.len() + rest@.len() == all.len(),
            rest@ =~= all.skip(out@.len() as int),
            forall|j: int|
                0 <= j < out@.len() ==> #[trigger] folds_transform_to::<F>(all[j], Ok(out@[j])),
        decreases rest@.len(),
    {
        let first = rest.remove(0);
        proof {
            let n = out@.len() as int;
            assert(all.skip(n).first() == all[n]);
            lemma_transforms_size_element(all, n);
            assert(rest@ =~= all.skip(n + 1));
        }
        match f.fold_transform(first) {
            Ok(w) => out.push(w),
            Err(e) => {
                proof {
                    let n = out@.len() as int;
                    assert(0 <= n < all.len());
                    assert(folds_transform_to::<F>(all[n], Err(e)));
                    assert(all[n] == transforms@[n]);
                    assert(some_transform_errs::<F>(transforms@, e));
                }
                return Err(e);
            },
        }
    }
    Ok(out)
}

/// Default recursion for an unresolved pipeline: its stages in order.
pub fn fold_pipeline<F: AstFold>(f: &mut F, pipeline: Pipeline) -> (r: Result<Pipeline, FoldError>)
    ensures
        r matches Ok(o) ==> folds_exprs_to::<F>(pipeline.exprs, Ok(o.exprs)),
        r matches Err(e) ==> folds_exprs_to::<F>(pipeline.exprs, Err(e)),
    decreases pipeline_size(pipeline),
{
    let Pipeline { exprs } = pipeline;
    match f.fold_exprs(exprs) {
        Ok(v) => Ok(Pipeline { exprs: v }),
        Err(e) => Err(e),
    }
}

/// Default recursion for an optional boxed expression; an absent
/// expression stays absent.
pub fn fold_optional_box<F: AstFold>(f: &mut F, opt: Option<Box<Expr>>) -> (r: Result<
    Option<Box<Expr>>,
    FoldError,
>)
    ensures
        opt is None ==> r == Ok::<Option<Box<Expr>>, FoldError>(Option::None),
        r matches Ok(o) ==> (o is Some <==> opt is Some),
        opt matches Option::Some(n) ==> (r matches Ok(o) ==> (o matches Option::Some(n2)
            && folds_expr_to::<F>(*n, Ok(*n2)))),
        opt matches Option::Some(n) ==> (r matches Err(e) ==> folds_expr_to::<F>(*n, Err(e))),
    decreases opt_box_expr_size(opt),
{
    match opt {
        Option::None => Ok(Option::None),
        Option::Some(n) => {
            match f.fold_expr(*n) {
                Ok(x) => Ok(Option::Some(Box::new(x))),
                Err(e) => Err(e),
            }
        },
    }
}

/// Default recursion for one interpolation piece: opaque text is
/// returned unchanged; an embedded expression is folded.
pub fn fold_interpolate_item<F: AstFold>(f: &mut F, interpolate_item: InterpolateItem) -> (r:
    Result<InterpolateItem, FoldError>)
    ensures
        interpolate_item is Text ==> r == Ok::<InterpolateItem, FoldError>(interpolate_item),
        r matches Ok(o) ==> (o is Text <==> interpolate_item is Text),
        interpolate_item matches InterpolateItem::Expr(x) ==> (r matches Ok(o) ==> (o matches
            InterpolateItem::Expr(x2) && folds_expr_to::<F>(*x, Ok(*x2)))),
        interpolate_item matches InterpolateItem::Expr(x) ==> (r matches Err(e)
            ==> folds_expr_to::<F>(*x, Err(e))),
    decreases interpolate_item_size(interpolate_item),
{
    match interpolate_item {
        InterpolateItem::Text(s) => Ok(InterpolateItem::Text(s)),
        InterpolateItem::Expr(expr) => {
            match f.fold_expr(*expr) {
                Ok(x) => Ok(InterpolateItem::Expr(Box::new(x))),
                Err(e) => Err(e),
            }
        },
    }
}

/// Default recursion for an interpolation list: each piece in order.
pub fn fold_interpolate_items<F: AstFold>(f: &mut F, items: Vec<InterpolateItem>) -> (r: Result<
    Vec<InterpolateItem>,
    FoldError,
>)
    ensures
        items@.len() == 0 ==> (r matches Ok(o) && o@.len() == 0),
        r matches Ok(o) ==> o@.len() == items@.len() && (forall|i: int|
            0 <= i < items@.len() ==> #[trigger] folds_interpolate_item_to::<F>(items@[i], Ok(o@[i]))),
        r matches Err(e) ==> some_interpolate_item_errs::<F>(items@, e),
    decreases interpolate_items_size(items@),
{
    let ghost all: Seq<InterpolateItem> = items@;
    let mut rest = items;
    let mut out: Vec<InterpolateItem> = Vec::new();
    proof {
        assert(rest@ =~= all.skip(0));
    }
    while rest.len() > 0
        invariant
            all == items@,
            out@.len() + rest@.len() == all.len(),
            rest@ =~= all.skip(out@.len() as int),
            forall|j: int|
                0 <= j < out@.len() ==> #[trigger] folds_interpolate_item_to::<F>(all[j], Ok(out@[j])),
        decreases rest@.len(),
    {
        let first = rest.remove(0);
        proof {
            let n = out@.len() as int;
            assert(all.skip(n).first() == all[n]);
            lemma_interpolate_items_size_element(all, n);
            assert(rest@ =~= all.skip(n + 1));
        }
        match f.fold_interpolate_item(first) {
            Ok(w) => out.push(w),
            Err(e) => {
                proof {
                    let n = out@.len() as int;
                    assert(0 <= n < all.len());
                    assert(folds_interpolate_item_to::<F>(all[n], Err(e)));
                    assert(all[n] == items@[n]);
                    assert(some_interpolate_item_errs::<F>(items@, e));
                }
                return Err(e);
            },
        }
    }
    Ok(out)
}

/// Default recursion for one sort column: the column expression is
/// folded; the direction is kept.
pub fn fold_column_sort<F: AstFold>(f: &mut F, sort_column: ColumnSort) -> (r: Result<
    ColumnSort,
    FoldError,
>)
    ensures
        r matches Ok(o) ==> o.direction == sort_column.direction && folds_expr_to::<F>(
            sort_column.column,
            Ok(o.column),
        ),
        r matches Err(e) ==> folds_expr_to::<F>(sort_column.column, Err(e)),
    decreases column_sort_size(sort_column),
{
    let ColumnSort { direction, column } = sort_column;
    match f.fold_expr(column) {
        Ok(c) => Ok(ColumnSort { direction, column: c }),
        Err(e) => Err(e),
    }
}

/// Default recursion for a sort column list: each column in order.
pub fn fold_column_sorts<F: AstFold>(f: &mut F, columns: Vec<ColumnSort>) -> (r: Result<
    Vec<ColumnSort>,
    FoldError,
>)
    ensures
        columns@.len() == 0 ==> (r matches Ok(o) && o@.len() == 0),
        r matches Ok(o) ==> o@.len() == columns@.len() && (forall|i: int|
            0 <= i < columns@.len() ==> #[trigger] folds_column_sort_to::<F>(columns@[i], Ok(o@[i]))),
        r matches Err(e) ==> some_column_sort_errs::<F>(columns@, e),
    decreases column_sorts_size(columns@),
{
    let ghost all: Seq<ColumnSort> = columns@;
    let mut rest = columns;
    let mut out: Vec<ColumnSort> = Vec::new();
    proof {
        assert(rest@ =~= all.skip(0));
    }
    while rest.len() > 0
        invariant
            all == columns@,
            out@.len() + rest@.len() == all.len(),
            rest@ =~= all.skip(out@.len() as int),
            forall|j: int|
                0 <= j < out@.len() ==> #[trigger] folds_column_sort_to::<F>(all[j], Ok(out@[j])),
        decreases rest@.len(),
    {
        let first = rest.remove(0);
        proof {
            let n = out@.len() as int;
            assert(all.skip(n).first() == all[n]);
            lemma_column_sorts_size_element(all, n);
            assert(rest@ =~= all.skip(n + 1));
        }
        match f.fold_column_sort(first) {
            Ok(w) => out.push(w),
            Err(e) => {
                proof {
                    let n = out@.len() as int;
                    assert(0 <= n < all.len());
                    assert(folds_column_sort_to::<F>(all[n], Err(e)));
                    assert(all[n] == columns@[n]);
                    assert(some_column_sort_errs::<F>(columns@, e));
                }
                return Err(e);
            },
        }
    }
    Ok(out)
}

/// Default recursion over every relational operator. `Unique` carries no
/// children and is returned unchanged; node metadata is always kept. For
/// a `Join`, the table reference is visited before the filter; `Group`
/// and `Window` recurse into their nested pipelines.
pub fn fold_transform<F: AstFold>(f: &mut F, transform: Transform) -> (r: Result<
    Transform,
    FoldError,
>)
    ensures
        transform.kind is Unique ==> r == Ok::<Transform, FoldError>(transform),
        r matches Ok(o) ==> o.span == transform.span && same_transform_form(transform.kind, o.kind),
        transform.kind matches TransformKind::From(t0) ==> (r matches Ok(o) ==> (o.kind matches
            TransformKind::From(t2) && folds_table_ref_to::<F>(t0, Ok(t2)))),
        transform.kind matches TransformKind::From(t0) ==> (r matches Err(e)
            ==> folds_table_ref_to::<F>(t0, Err(e))),
        transform.kind matches TransformKind::Derive(v0) ==> (r matches Ok(o) ==> (o.kind matches
            TransformKind::Derive(v2) && folds_exprs_to::<F>(v0, Ok(v2)))),
        transform.kind matches TransformKind::Derive(v0) ==> (r matches Err(e)
            ==> folds_exprs_to::<F>(v0, Err(e))),
        transform.kind matches TransformKind::Select(v0) ==> (r matches Ok(o) ==> (o.kind matches
            TransformKind::Select(v2) && folds_exprs_to::<F>(v0, Ok(v2)))),
        transform.kind matches TransformKind::Select(v0) ==> (r matches Err(e)
            ==> folds_exprs_to::<F>(v0, Err(e))),
        transform.kind matches TransformKind::Aggregate { assigns, by } ==> (r matches Ok(o) ==> (
        o.kind matches TransformKind::Aggregate { assigns: a2, by: b2 } && folds_exprs_to::<F>(
            assigns,
            Ok(a2),
        ) && folds_exprs_to::<F>(by, Ok(b2)))),
        transform.kind matches TransformKind::Aggregate { assigns, by } ==> (r matches Err(e)
            ==> folds_exprs_to::<F>(assigns, Err(e)) || folds_exprs_to::<F>(by, Err(e))),
        transform.kind matches TransformKind::Filter(x0) ==> (r matches Ok(o) ==> (o.kind matches
            TransformKind::Filter(x2) && folds_expr_to::<F>(*x0, Ok(*x2)))),
        transform.kind matches TransformKind::Filter(x0) ==> (r matches Err(e)
            ==> folds_expr_to::<F>(*x0, Err(e))),
        transform.kind matches TransformKind::Sort(v0) ==> (r matches Ok(o) ==> (o.kind matches
            TransformKind::Sort(v2) && folds_column_sorts_to::<F>(v0, Ok(v2)))),
        transform.kind matches TransformKind::Sort(v0) ==> (r matches Err(e)
            ==> folds_column_sorts_to::<F>(v0, Err(e))),
        transform.kind matches TransformKind::Join { side: _, with, filter } ==> (r matches Ok(o)
            ==> (o.kind matches TransformKind::Join { side: _, with: w2, filter: jf2 }
            && folds_table_ref_to::<F>(with, Ok(w2)) && folds_join_filter_to::<F>(
            filter,
            Ok(jf2),
        ))),
        transform.kind matches TransformKind::Join { side: _, with, filter } ==> (r matches Err(e)
            ==> folds_table_ref_to::<F>(with, Err(e)) || folds_join_filter_to::<F>(
            filter,
            Err(e),
        )),
        transform.kind matches TransformKind::Group { by, pipeline } ==> (r matches Ok(o) ==> (
        o.kind matches TransformKind::Group { by: b2, pipeline: p2 } && folds_exprs_to::<F>(
            by,
            Ok(b2),
        ) && folds_transforms_to::<F>(pipeline, Ok(p2)))),
        transform.kind matches TransformKind::Group { by, pipeline } ==> (r matches Err(e)
            ==> folds_exprs_to::<F>(by, Err(e)) || folds_transforms_to::<F>(pipeline, Err(e))),
        transform.kind matches TransformKind::Window { kind: _, range, pipeline } ==> (r matches
            Ok(o) ==> (o.kind matches TransformKind::Window { kind: _, range: rg2, pipeline: p2 }
            && default_range_to::<F>(range, Ok(rg2)) && (rg2.start is Some
            <==> range.start is Some) && (rg2.end is Some <==> range.end is Some)
            && folds_transforms_to::<F>(pipeline, Ok(p2)))),
        transform.kind matches TransformKind::Window { kind: _, range, pipeline } ==> (r matches
            Err(e) ==> default_range_to::<F>(range, Err(e)) || folds_transforms_to::<F>(
            pipeline,
            Err(e),
        )),
        transform.kind matches TransformKind::Take { range, by, sort } ==> (r matches Ok(o) ==> (
        o.kind matches TransformKind::Take { range: rg2, by: b2, sort: s2 }
            && default_range_to::<F>(range, Ok(rg2)) && (rg2.start is Some
            <==> range.start is Some) && (rg2.end is Some <==> range.end is Some)
            && folds_exprs_to::<F>(by, Ok(b2)) && folds_column_sorts_to::<F>(sort, Ok(s2)))),
        transform.kind matches TransformKind::Take { range, by, sort } ==> (r matches Err(e)
            ==> default_range_to::<F>(range, Err(e)) || folds_exprs_to::<F>(by, Err(e))
            || folds_column_sorts_to::<F>(sort, Err(e))),
    decreases transform_size(transform),
{
    let Transform { kind, span } = transform;
    let kind = match kind {
        TransformKind::From(table) => {
            match f.fold_table_ref(table) {
                Ok(t) => TransformKind::From(t),
                Err(e) => {
                    return Err(e);
                },
            }
        },
        TransformKind::Derive(assigns) => {
            match f.fold_exprs(assigns) {
                Ok(v) => TransformKind::Derive(v),
                Err(e) => {
                    return Err(e);
                },
            }
        },
        TransformKind::Select(assigns) => {
            match f.fold_exprs(assigns) {
                Ok(v) => TransformKind::Select(v),
                Err(e) => {
                    return Err(e);
                },
            }
        },
        TransformKind::Aggregate { assigns, by } => {
            let assigns = match f.fold_exprs(assigns) {
                Ok(v) => v,
                Err(e) => {
                    return Err(e);
                },
            };
            match f.fold_exprs(by) {
                Ok(b) => TransformKind::Aggregate { assigns, by: b },
                Err(e) => {
                    return Err(e);
                },
            }
        },
        TransformKind::Filter(filter) => {
            match f.fold_expr(*filter) {
                Ok(x) => TransformKind::Filter(Box::new(x)),
                Err(e) => {
                    return Err(e);
                },
            }
        },
        TransformKind::Sort(items) => {
            match f.fold_column_sorts(items) {
                Ok(v) => TransformKind::Sort(v),
                Err(e) => {
                    return Err(e);
                },
            }
        },
        TransformKind::Join { side, with, filter } => {
            let with = match f.fold_table_ref(with) {
                Ok(t) => t,
                Err(e) => {
                    return Err(e);
                },
            };
            match f.fold_join_filter(filter) {
                Ok(jf) => TransformKind::Join { side, with, filter: jf },
                Err(e) => {
                    return Err(e);
                },
            }
        },
        TransformKind::Group { by, pipeline } => {
            let by = match f.fold_exprs(by) {
                Ok(v) => v,
                Err(e) => {
                    return Err(e);
                },
            };
            match f.fold_transforms(pipeline) {
                Ok(p) => TransformKind::Group { by, pipeline: p },
                Err(e) => {
                    return Err(e);
                },
            }
        },
        TransformKind::Window { kind, range, pipeline } => {
            let range = match fold_range(f, range) {
                Ok(rg) => rg,
                Err(e) => {
                    return Err(e);
                },
            };
            match f.fold_transforms(pipeline) {
                Ok(p) => TransformKind::Window { kind, range, pipeline: p },
                Err(e) => {
                    return Err(e);
                },
            }
        },
        TransformKind::Take { range, by, sort } => {
            let range = match fold_range(f, range) {
                Ok(rg) => rg,
                Err(e) => {
                    return Err(e);
                },
            };
            let by = match f.fold_exprs(by) {
                Ok(v) => v,
                Err(e) => {
                    return Err(e);
                },
            };
            match f.fold_column_sorts(sort) {
                Ok(s) => TransformKind::Take { range, by, sort: s },
                Err(e) => {
                    return Err(e);
                },
            }
        },
        TransformKind::Unique => TransformKind::Unique,
    };
    Ok(Transform { kind, span })
}

/// Default recursion for a join filter: the variant is kept; the
/// predicate or column expressions are folded in order.
pub fn fold_join_filter<F: AstFold>(f: &mut F, filter: JoinFilter) -> (r: Result<
    JoinFilter,
    FoldError,
>)
    ensures
        r matches Ok(o) ==> (o is On <==> filter is On),
        filter matches JoinFilter::On(nodes) ==> (r matches Ok(o) ==> (o matches JoinFilter::On(
            n2,
        ) && folds_exprs_to::<F>(nodes, Ok(n2)))),
        filter matches JoinFilter::On(nodes) ==> (r matches Err(e) ==> folds_exprs_to::<F>(
            nodes,
            Err(e),
        )),
        filter matches JoinFilter::Using(nodes) ==> (r matches Ok(o) ==> (o matches
            JoinFilter::Using(n2) && folds_exprs_to::<F>(nodes, Ok(n2)))),
        filter matches JoinFilter::Using(nodes) ==> (r matches Err(e) ==> folds_exprs_to::<F>(
            nodes,
            Err(e),
        )),
    decreases join_filter_size(filter),
{
    match filter {
        JoinFilter::On(nodes) => {
            match f.fold_exprs(nodes) {
                Ok(v) => Ok(JoinFilter::On(v)),
                Err(e) => Err(e),
            }
        },
        JoinFilter::Using(nodes) => {
            match f.fold_exprs(nodes) {
                Ok(v) => Ok(JoinFilter::Using(v)),
                Err(e) => Err(e),
            }
        },
    }
}

/// Default recursion for a saturated invocation: the name identifies
/// which declared function is invoked and is never rewritten; the
/// positional arguments are folded in order, then each named argument's
/// value, keeping its name association and order.
pub fn fold_func_call<F: AstFold>(f: &mut F, func_call: FuncCall) -> (r: Result<
    FuncCall,
    FoldError,
>)
    ensures
        func_call.args@.len() == 0 && func_call.named_args@.len() == 0 ==> (r matches Ok(o)
            && o.name == func_call.name && o.args@.len() == 0 && o.named_args@.len() == 0),
        r matches Ok(o) ==> o.name == func_call.name && o.args@.len() == func_call.args@.len()
            && o.named_args@.len() == func_call.named_args@.len() && (forall|i: int|
            0 <= i < func_call.args@.len() ==> #[trigger] folds_expr_to::<F>(
                func_call.args@[i],
                Ok(o.args@[i]),
            )) && (forall|i: int|
            0 <= i < func_call.named_args@.len() ==> (#[trigger] o.named_args@[i]).0
                == func_call.named_args@[i].0 && folds_expr_to::<F>(
                func_call.named_args@[i].1,
                Ok(o.named_args@[i].1),
            )),
        r matches Err(e) ==> some_expr_errs::<F>(func_call.args@, e) || some_named_arg_errs::<F>(
            func_call.named_args@,
            e,
        ),
    decreases func_call_size(func_call),
{
    let FuncCall { name, args, named_args } = func_call;
    let ghost all_args: Seq<Expr> = args@;
    let mut rest = args;
    let mut out_args: Vec<Expr> = Vec::new();
    proof {
        assert(rest@ =~= all_args.skip(0));
    }
    while rest.len() > 0
        invariant
            all_args == func_call.args@,
            out_args@.len() + rest@.len() == all_args.len(),
            rest@ =~= all_args.skip(out_args@.len() as int),
            forall|j: int|
                0 <= j < out_args@.len() ==> #[trigger] folds_expr_to::<F>(
                    all_args[j],
                    Ok(out_args@[j]),
                ),
        decreases rest@.len(),
    {
        let first = rest.remove(0);
        proof {
            let n = out_args@.len() as int;
            assert(all_args.skip(n).first() == all_args[n]);
            lemma_exprs_size_element(all_args, n);
            assert(rest@ =~= all_args.skip(n + 1));
        }
        match f.fold_expr(first) {
            Ok(w) => out_args.push(w),
            Err(e) => {
                proof {
                    let n = out_args@.len() as int;
                    assert(0 <= n < all_args.len());
                    assert(folds_expr_to::<F>(all_args[n], Err(e)));
                    assert(all_args[n] == func_call.args@[n]);
                    assert(some_expr_errs::<F>(func_call.args@, e));
                }
                return Err(e);
            },
        }
    }
    let ghost all_named: Seq<(Ident, Expr)> = named_args@;
    let mut rest_named = named_args;
    let mut out_named: Vec<(Ident, Expr)> = Vec::new();
    proof {
        assert(rest_named@ =~= all_named.skip(0));
    }
    while rest_named.len() > 0
        invariant
            all_named == func_call.named_args@,
            out_named@.len() + rest_named@.len() == all_named.len(),
            rest_named@ =~= all_named.skip(out_named@.len() as int),
            forall|i: int|
                0 <= i < out_named@.len() ==> (#[trigger] out_named@[i]).0 == all_named[i].0
                    && folds_expr_to::<F>(all_named[i].1, Ok(out_named@[i].1)),
        decreases rest_named@.len(),
    {
        let first = rest_named.remove(0);
        proof {
            let n = out_named@.len() as int;
            assert(all_named.skip(n).first() == all_named[n]);
            lemma_named_args_size_element(all_named, n);
            assert(rest_named@ =~= all_named.skip(n + 1));
        }
        let (arg_name, expr) = first;
        match f.fold_expr(expr) {
            Ok(w) => out_named.push((arg_name, w)),
            Err(e) => {
                proof {
                    let n = out_named@.len() as int;
                    assert(0 <= n < all_named.len());
                    assert(folds_expr_to::<F>(all_named[n].1, Err(e)));
                    assert(all_named[n] == func_call.named_args@[n]);
                    assert(some_named_arg_errs::<F>(func_call.named_args@, e));
                }
                return Err(e);
            },
        }
    }
    Ok(FuncCall { name, args: out_args, named_args: out_named })
}

/// Default recursion for a partial application: `def_id` is a stable
/// binding and is never rewritten; the filled arguments are folded in
/// order; an unfilled named slot stays unfilled, and a filled one stays
/// filled, so the slot positions are preserved exactly.
pub fn fold_func_curry<F: AstFold>(f: &mut F, func_curry: FuncCurry) -> (r: Result<
    FuncCurry,
    FoldError,
>)
    ensures
        func_curry.args@.len() == 0 && (forall|i: int|
            0 <= i < func_curry.named_args@.len() ==> !((#[trigger] func_curry.named_args@[i])
                is Some)) ==> (r matches Ok(o) && o.def_id == func_curry.def_id && o.args@.len()
            == 0 && o.named_args@.len() == func_curry.named_args@.len()),
        r matches Ok(o) ==> o.def_id == func_curry.def_id && o.args@.len()
            == func_curry.args@.len() && o.named_args@.len() == func_curry.named_args@.len() && (
        forall|i: int|
            0 <= i < func_curry.named_args@.len() ==> (#[trigger] o.named_args@[i] is Some
                <==> func_curry.named_args@[i] is Some)) && (forall|i: int|
            0 <= i < func_curry.args@.len() ==> #[trigger] folds_expr_to::<F>(
                func_curry.args@[i],
                Ok(o.args@[i]),
            )) && (forall|i: int|
            0 <= i < func_curry.named_args@.len() ==> ((#[trigger] func_curry.named_args@[i])
                matches Option::Some(x) ==> (o.named_args@[i] matches Option::Some(x2)
                && folds_expr_to::<F>(x, Ok(x2))))),
        r matches Err(e) ==> some_expr_errs::<F>(func_curry.args@, e) || some_slot_errs::<F>(
            func_curry.named_args@,
            e,
        ),
    decreases func_curry_size(func_curry),
{
    let FuncCurry { def_id, args, named_args } = func_curry;
    let ghost all_args: Seq<Expr> = args@;
    let mut rest = args;
    let mut out_args: Vec<Expr> = Vec::new();
    proof {
        assert(rest@ =~= all_args.skip(0));
    }
    while rest.len() > 0
        invariant
            all_args == func_curry.args@,
            out_args@.len() + rest@.len() == all_args.len(),
            rest@ =~= all_args.skip(out_args@.len() as int),
            forall|j: int|
                0 <= j < out_args@.len() ==> #[trigger] folds_expr_to::<F>(
                    all_args[j],
                    Ok(out_args@[j]),
                ),
        decreases rest@.len(),
    {
        let first = rest.remove(0);
        proof {
            let n = out_args@.len() as int;
            assert(all_args.skip(n).first() == all_args[n]);
            lemma_exprs_size_element(all_args, n);
            assert(rest@ =~= all_args.skip(n + 1));
        }
        match f.fold_expr(first) {
            Ok(w) => out_args.push(w),
            Err(e) => {
                proof {
                    let n = out_args@.len() as int;
                    assert(0 <= n < all_args.len());
                    assert(folds_expr_to::<F>(all_args[n], Err(e)));
                    assert(all_args[n] == func_curry.args@[n]);
                    assert(some_expr_errs::<F>(func_curry.args@, e));
                }
                return Err(e);
            },
        }
    }
    let ghost all_named: Seq<Option<Expr>> = named_args@;
    let mut rest_named = named_args;
    let mut out_named: Vec<Option<Expr>> = Vec::new();
    proof {
        assert(rest_named@ =~= all_named.skip(0));
    }
    while rest_named.len() > 0
        invariant
            all_named == func_curry.named_args@,
            out_named@.len() + rest_named@.len() == all_named.len(),
            rest_named@ =~= all_named.skip(out_named@.len() as int),
            forall|i: int|
                0 <= i < out_named@.len() ==> (#[trigger] out_named@[i] is Some <==> all_named[i]
                    is Some),
            forall|i: int|
                0 <= i < out_named@.len() ==> ((#[trigger] all_named[i]) matches Option::Some(x)
                    ==> (out_named@[i] matches Option::Some(x2) && folds_expr_to::<F>(
                    x,
                    Ok(x2),
                ))),
        decreases rest_named@.len(),
    {
        let first = rest_named.remove(0);
        proof {
            let n = out_named@.len() as int;
            assert(all_named.skip(n).first() == all_named[n]);
            lemma_opt_exprs_size_element(all_named, n);
            assert(rest_named@ =~= all_named.skip(n + 1));
        }
        match first {
            Option::None => out_named.push(Option::None),
            Option::Some(expr) => {
                match f.fold_expr(expr) {
                    Ok(w) => out_named.push(Option::Some(w)),
                    Err(e) => {
                        proof {
                            let n = out_named@.len() as int;
                            assert(0 <= n < all_named.len());
                            assert(all_named[n] matches Option::Some(x) && folds_expr_to::<F>(
                                x,
                                Err(e),
                            ));
                            assert(all_named[n] == func_curry.named_args@[n]);
                            assert(some_slot_errs::<F>(func_curry.named_args@, e));
                        }
                        return Err(e);
                    },
                }
            },
        }
    }
    Ok(FuncCurry { def_id, args: out_args, named_args: out_named })
}

/// Default recursion for a table reference: its name, then its alias;
/// the remaining fields are stable identity and are copied unchanged.
pub fn fold_table_ref<F: AstFold>(f: &mut F, table_ref: TableRef) -> (r: Result<
    TableRef,
    FoldError,
>)
    ensures
        r matches Ok(o) ==> o.id == table_ref.id && (o.alias is Some <==> table_ref.alias is Some)
            && folds_ident_to::<F>(table_ref.name, Ok(o.name)),
        table_ref.alias matches Option::Some(a) ==> (r matches Ok(o) ==> (o.alias matches
            Option::Some(a2) && folds_ident_to::<F>(a, Ok(a2)))),
        r matches Err(e) ==> folds_ident_to::<F>(table_ref.name, Err(e)) || (table_ref.alias
            matches Option::Some(a) && folds_ident_to::<F>(a, Err(e))),
    decreases table_ref_size(table_ref),
{
    let TableRef { name, alias, id } = table_ref;
    let name = match f.fold_ident(name) {
        Ok(n) => n,
        Err(e) => {
            return Err(e);
        },
    };
    let alias = match alias {
        Option::None => Option::None,
        Option::Some(a) => {
            match f.fold_ident(a) {
                Ok(a2) => Option::Some(a2),
                Err(e) => {
                    return Err(e);
                },
            }
        },
    };
    Ok(TableRef { name, alias, id })
}

/// Default recursion for a function declaration: its name, positional
/// parameters, named parameters, then its body; the declared return
/// type is kept unchanged.
pub fn fold_func_def<F: AstFold>(f: &mut F, func_def: FuncDef) -> (r: Result<FuncDef, FoldError>)
    ensures
        r matches Ok(o) ==> o.return_ty == func_def.return_ty && o.positional_params@.len()
            == func_def.positional_params@.len() && o.named_params@.len()
            == func_def.named_params@.len() && folds_ident_to::<F>(func_def.name, Ok(o.name))
            && default_func_params_to::<F>(func_def.positional_params, Ok(o.positional_params))
            && default_func_params_to::<F>(func_def.named_params, Ok(o.named_params))
            && folds_expr_to::<F>(*func_def.body, Ok(*o.body)),
        r matches Err(e) ==> folds_ident_to::<F>(func_def.name, Err(e))
            || default_func_params_to::<F>(func_def.positional_params, Err(e))
            || default_func_params_to::<F>(func_def.named_params, Err(e)) || folds_expr_to::<F>(
            *func_def.body,
            Err(e),
        ),
    decreases func_def_size(func_def),
{
    let FuncDef { name, positional_params, named_params, body, return_ty } = func_def;
    let name = match f.fold_ident(name) {
        Ok(n) => n,
        Err(e) => {
            return Err(e);
        },
    };
    let positional_params = match fold_func_param(f, positional_params) {
        Ok(p) => p,
        Err(e) => {
            return Err(e);
        },
    };
    let named_params = match fold_func_param(f, named_params) {
        Ok(p) => p,
        Err(e) => {
            return Err(e);
        },
    };
    match f.fold_expr(*body) {
        Ok(b) => Ok(
            FuncDef { name, positional_params, named_params, body: Box::new(b), return_ty },
        ),
        Err(e) => Err(e),
    }
}

/// Default recursion for a parameter list: only each parameter's default
/// value is folded; its name and declared type are kept, an absent
/// default stays absent, and order is preserved.
#[verifier::rlimit(50)]
pub fn fold_func_param<F: AstFold>(f: &mut F, nodes: Vec<FuncParam>) -> (r: Result<
    Vec<FuncParam>,
    FoldError,
>)
    ensures
        nodes@.len() == 0 ==> (r matches Ok(o) && o@.len() == 0),
        r matches Ok(o) ==> o@.len() == nodes@.len() && (forall|i: int|
            0 <= i < nodes@.len() ==> #[trigger] param_tied::<F>(nodes@[i], o@[i])),
        r matches Err(e) ==> some_param_errs::<F>(nodes@, e),
    decreases func_params_size(nodes@),
{
    let ghost all: Seq<FuncParam> = nodes@;
    let mut rest = nodes;
    let mut out: Vec<FuncParam> = Vec::new();
    proof {
        assert(rest@ =~= all.skip(0));
    }
    while rest.len() > 0
        invariant
            all == nodes@,
            out@.len() + rest@.len() == all.len(),
            rest@ =~= all.skip(out@.len() as int),
            forall|i: int|
                0 <= i < out@.len() ==> #[trigger] param_tied::<F>(all[i], out@[i]),
        decreases rest@.len(),
    {
        let first = rest.remove(0);
        proof {
            let n = out@.len() as int;
            assert(all.skip(n).first() == all[n]);
            lemma_func_params_size_element(all, n);
            assert(rest@ =~= all.skip(n + 1));
        }
        let ghost n0 = out@.len() as int;
        let FuncParam { name, ty, default_value } = first;
        match default_value {
            Option::None => {
                out.push(FuncParam { name, ty, default_value: Option::None });
                proof {
                    assert(param_tied::<F>(all[n0], out@[n0]));
                }
            },
            Option::Some(expr) => {
                match f.fold_expr(expr) {
                    Ok(w) => {
                        out.push(FuncParam { name, ty, default_value: Option::Some(w) });
                        proof {
                            assert(param_tied::<F>(all[n0], out@[n0]));
                        }
                    },
                    Err(e) => {
                        proof {
                            assert(0 <= n0 < all.len());
                            assert(all[n0].default_value matches Option::Some(x)
                                && folds_expr_to::<F>(x, Err(e)));
                            assert(all[n0] == nodes@[n0]);
                            assert(some_param_errs::<F>(nodes@, e));
                        }
                        return Err(e);
                    },
                }
            },
        }
    }
    Ok(out)
}

/// Default recursion for a type annotation: recurses only into
/// `Parameterized` (its type argument, then its value expression) and
/// `AnyOf` (each member in order); every other form is a leaf returned
/// unchanged. Nested member types are visited through this default
/// recursion itself, not through the pass's `fold_type` hook: a pass
/// that overrides `fold_type` sees only the outermost type of each
/// `Type` expression. Value expressions inside a type do go through the
/// pass's expression hook.
pub fn fold_type<F: AstFold>(f: &mut F, t: Ty) -> (r: Result<Ty, FoldError>)
    ensures
        t is Literal ==> r == Ok::<Ty, FoldError>(t),
        t is Named ==> r == Ok::<Ty, FoldError>(t),
        t is Infer ==> r == Ok::<Ty, FoldError>(t),
        r matches Ok(o) ==> (o is Parameterized <==> t is Parameterized) && (o is AnyOf <==> t
            is AnyOf),
        t matches Ty::Parameterized(t0, p0) ==> (r matches Ok(o) ==> (o matches Ty::Parameterized(
            ot,
            op0,
        ) && folds_expr_to::<F>(*p0, Ok(*op0)))),
        t matches Ty::AnyOf(ts) ==> (ts@.len() == 0 ==> (r matches Ok(o) && o matches Ty::AnyOf(
            os,
        ) && os@.len() == 0)),
        t matches Ty::AnyOf(ts) ==> (r matches Ok(o) ==> (o matches Ty::AnyOf(os) && os@.len()
            == ts@.len())),
    decreases ty_size(t),
{
    match t {
        Ty::Literal(l) => Ok(Ty::Literal(l)),
        Ty::Named(n) => Ok(Ty::Named(n)),
        Ty::Parameterized(ty, p) => {
            let ty = match fold_type(f, *ty) {
                Ok(t2) => t2,
                Err(e) => {
                    return Err(e);
                },
            };
            match f.fold_expr(*p) {
                Ok(x) => Ok(Ty::Parameterized(Box::new(ty), Box::new(x))),
                Err(e) => Err(e),
            }
        },
        Ty::AnyOf(ts) => {
            let ghost all: Seq<Ty> = ts@;
            let mut rest = ts;
            let mut out: Vec<Ty> = Vec::new();
            proof {
                assert(rest@ =~= all.skip(0));
            }
            while rest.len() > 0
                invariant
                    t matches Ty::AnyOf(members) && all == members@,
                    tys_size(all) < ty_size(t),
                    out@.len() + rest@.len() == all.len(),
                    rest@ =~= all.skip(out@.len() as int),
                decreases rest@.len(),
            {
                let first = rest.remove(0);
                proof {
                    let n = out@.len() as int;
                    assert(all.skip(n).first() == all[n]);
                    lemma_tys_size_element(all, n);
                    assert(rest@ =~= all.skip(n + 1));
                }
                match fold_type(f, first) {
                    Ok(w) => out.push(w),
                    Err(e) => {
                        return Err(e);
                    },
                }
            }
            Ok(Ty::AnyOf(out))
        },
        Ty::Infer => Ok(Ty::Infer),
    }
}

} // verus!
