//! Structural size of each tree node, used as the termination measure of
//! the fold engine: every child of a node is strictly smaller than the
//! node, and every element of a child list is strictly smaller than the
//! list.

use vstd::prelude::*;
use crate::ast::{Expr, ExprKind, Range, Pipeline, InterpolateItem, Windowed, ColumnSort, FuncDef,
    FuncParam, FuncCall, FuncCurry, Stmt, StmtKind, TableDef, Transform, TransformKind, JoinFilter,
    TableRef, Query, Table, Ty, Ident};

verus! {

pub open spec fn expr_size(e: Expr) -> nat
    decreases e,
{
    1 + expr_kind_size(e.kind)
}

pub open spec fn expr_kind_size(k: ExprKind) -> nat
    decreases k,
{
    1 + match k {
        ExprKind::Ident(_) => 0,
        ExprKind::Binary { op: _, left, right } => expr_size(*left) + expr_size(*right),
        ExprKind::Unary { op: _, expr } => expr_size(*expr),
        ExprKind::List(items) => exprs_size(items@),
        ExprKind::Range(r) => range_size(r),
        ExprKind::Pipeline(p) => pipeline_size(p),
        ExprKind::SString(items) => interpolate_items_size(items@),
        ExprKind::FString(items) => interpolate_items_size(items@),
        ExprKind::FuncCall(c) => func_call_size(c),
        ExprKind::FuncCurry(c) => func_curry_size(c),
        ExprKind::Windowed(w) => windowed_size(w),
        ExprKind::Type(t) => ty_size(t),
        ExprKind::ResolvedPipeline(ts) => transforms_size(ts@),
        ExprKind::Empty => 0,
        ExprKind::Literal(_) => 0,
        ExprKind::Interval(_) => 0,
    }
}

pub open spec fn exprs_size(s: Seq<Expr>) -> nat
    decreases s,
{
    if s.len() == 0 {
        0
    } else {
        1 + expr_size(s.first()) + exprs_size(s.drop_first())
    }
}

pub open spec fn opt_box_expr_size(o: Option<Box<Expr>>) -> nat
    decreases o,
{
    match o {
        Option::None => 0,
        Option::Some(e) => 1 + expr_size(*e),
    }
}

pub open spec fn opt_expr_size(o: Option<Expr>) -> nat
    decreases o,
{
    match o {
        Option::None => 0,
        Option::Some(e) => 1 + expr_size(e),
    }
}

pub open spec fn range_size(r: Range) -> nat
    decreases r,
{
    1 + opt_box_expr_size(r.start) + opt_box_expr_size(r.end)
}

pub open spec fn pipeline_size(p: Pipeline) -> nat
    decreases p,
{
    1 + exprs_size(p.exprs@)
}

pub open spec fn interpolate_item_size(it: InterpolateItem) -> nat
    decreases it,
{
    1 + match it {
        InterpolateItem::Text(_) => 0,
        InterpolateItem::Expr(e) => expr_size(*e),
    }
}

pub open spec fn interpolate_items_size(s: Seq<InterpolateItem>) -> nat
    decreases s,
{
    if s.len() == 0 {
        0
    } else {
        1 + interpolate_item_size(s.first()) + interpolate_items_size(s.drop_first())
    }
}

pub open spec fn column_sort_size(c: ColumnSort) -> nat
    decreases c,
{
    1 + expr_size(c.column)
}

pub open spec fn column_sorts_size(s: Seq<ColumnSort>) -> nat
    decreases s,
{
    if s.len() == 0 {
        0
    } else {
        1 + column_sort_size(s.first()) + column_sorts_size(s.drop_first())
    }
}

pub open spec fn windowed_size(w: Windowed) -> nat
    decreases w,
{
    1 + expr_size(*w.expr) + exprs_size(w.group@) + column_sorts_size(w.sort@) + range_size(
        w.window.1,
    )
}

pub open spec fn func_param_size(p: FuncParam) -> nat
    decreases p,
{
    1 + opt_expr_size(p.default_value)
}

pub open spec fn func_params_size(s: Seq<FuncParam>) -> nat
    decreases s,
{
    if s.len() == 0 {
        0
    } else {
        1 + func_param_size(s.first()) + func_params_size(s.drop_first())
    }
}

pub open spec fn func_def_size(f: FuncDef) -> nat
    decreases f,
{
    1 + func_params_size(f.positional_params@) + func_params_size(f.named_params@) + expr_size(
        *f.body,
    )
}

pub open spec fn named_args_size(s: Seq<(Ident, Expr)>) -> nat
    decreases s,
{
    if s.len() == 0 {
        0
    } else {
        1 + expr_size(s.first().1) + named_args_size(s.drop_first())
    }
}

pub open spec fn func_call_size(c: FuncCall) -> nat
    decreases c,
{
    1 + exprs_size(c.args@) + named_args_size(c.named_args@)
}

pub open spec fn opt_exprs_size(s: Seq<Option<Expr>>) -> nat
    decreases s,
{
    if s.len() == 0 {
        0
    } else {
        1 + opt_expr_size(s.first()) + opt_exprs_size(s.drop_first())
    }
}

pub open spec fn func_curry_size(c: FuncCurry) -> nat
    decreases c,
{
    1 + exprs_size(c.args@) + opt_exprs_size(c.named_args@)
}

pub open spec fn ty_size(t: Ty) -> nat
    decreases t,
{
    1 + match t {
        Ty::Literal(_) => 0,
        Ty::Named(_) => 0,
        Ty::Parameterized(ty, e) => ty_size(*ty) + expr_size(*e),
        Ty::AnyOf(ts) => tys_size(ts@),
        Ty::Infer => 0,
    }
}

pub open spec fn tys_size(s: Seq<Ty>) -> nat
    decreases s,
{
    if s.len() == 0 {
        0
    } else {
        1 + ty_size(s.first()) + tys_size(s.drop_first())
    }
}

pub open spec fn table_def_size(t: TableDef) -> nat
    decreases t,
{
    1 + expr_size(*t.pipeline)
}

pub open spec fn stmt_kind_size(k: StmtKind) -> nat
    decreases k,
{
    1 + match k {
        StmtKind::FuncDef(f) => func_def_size(f),
        StmtKind::TableDef(t) => table_def_size(t),
        StmtKind::Pipeline(exprs) => exprs_size(exprs@),
        StmtKind::QueryDef(_) => 0,
    }
}

pub open spec fn stmt_size(s: Stmt) -> nat
    decreases s,
{
    1 + stmt_kind_size(s.kind)
}

pub open spec fn stmts_size(s: Seq<Stmt>) -> nat
    decreases s,
{
    if s.len() == 0 {
        0
    } else {
        1 + stmt_size(s.first()) + stmts_size(s.drop_first())
    }
}

pub open spec fn table_ref_size(t: TableRef) -> nat {
    1
}

pub open spec fn join_filter_size(f: JoinFilter) -> nat
    decreases f,
{
    1 + match f {
        JoinFilter::On(nodes) => exprs_size(nodes@),
        JoinFilter::Using(nodes) => exprs_size(nodes@),
    }
}

pub open spec fn transform_kind_size(k: TransformKind) -> nat
    decreases k,
{
    1 + match k {
        TransformKind::From(t) => table_ref_size(t),
        TransformKind::Derive(assigns) => exprs_size(assigns@),
        TransformKind::Select(assigns) => exprs_size(assigns@),
        TransformKind::Aggregate { assigns, by } => exprs_size(assigns@) + exprs_size(by@),
        TransformKind::Filter(e) => expr_size(*e),
        TransformKind::Sort(items) => column_sorts_size(items@),
        TransformKind::Join { side: _, with, filter } => table_ref_size(with) + join_filter_size(
            filter,
        ),
        TransformKind::Group { by, pipeline } => exprs_size(by@) + transforms_size(pipeline@),
        TransformKind::Window { kind: _, range, pipeline } => range_size(range) + transforms_size(
            pipeline@,
        ),
        TransformKind::Take { range, by, sort } => range_size(range) + exprs_size(by@)
            + column_sorts_size(sort@),
        TransformKind::Unique => 0,
    }
}

pub open spec fn transform_size(t: Transform) -> nat
    decreases t,
{
    1 + transform_kind_size(t.kind)
}

pub open spec fn transforms_size(s: Seq<Transform>) -> nat
    decreases s,
{
    if s.len() == 0 {
        0
    } else {
        1 + transform_size(s.first()) + transforms_size(s.drop_first())
    }
}

pub open spec fn tables_size(s: Seq<Table>) -> nat
    decreases s,
{
    if s.len() == 0 {
        0
    } else {
        1 + transforms_size(s.first().pipeline@) + tables_size(s.drop_first())
    }
}

pub open spec fn query_size(q: Query) -> nat
    decreases q,
{
    1 + transforms_size(q.main_pipeline@) + tables_size(q.tables@)
}

pub proof fn lemma_exprs_size_element(s: Seq<Expr>, i: int)
    requires
        0 <= i < s.len(),
    ensures
        expr_size(s[i]) < exprs_size(s),
    decreases i,
{
    if i == 0 {
        assert(s.first() == s[0]);
    } else {
        lemma_exprs_size_element(s.drop_first(), i - 1);
        assert(s.drop_first()[i - 1] == s[i]);
    }
}

pub proof fn lemma_interpolate_items_size_element(s: Seq<InterpolateItem>, i: int)
    requires
        0 <= i < s.len(),
    ensures
        interpolate_item_size(s[i]) < interpolate_items_size(s),
    decreases i,
{
    if i == 0 {
        assert(s.first() == s[0]);
    } else {
        lemma_interpolate_items_size_element(s.drop_first(), i - 1);
        assert(s.drop_first()[i - 1] == s[i]);
    }
}

pub proof fn lemma_column_sorts_size_element(s: Seq<ColumnSort>, i: int)
    requires
        0 <= i < s.len(),
    ensures
        column_sort_size(s[i]) < column_sorts_size(s),
    decreases i,
{
    if i == 0 {
        assert(s.first() == s[0]);
    } else {
        lemma_column_sorts_size_element(s.drop_first(), i - 1);
        assert(s.drop_first()[i - 1] == s[i]);
    }
}

pub proof fn lemma_func_params_size_element(s: Seq<FuncParam>, i: int)
    requires
        0 <= i < s.len(),
    ensures
        func_param_size(s[i]) < func_params_size(s),
    decreases i,
{
    if i == 0 {
        assert(s.first() == s[0]);
    } else {
        lemma_func_params_size_element(s.drop_first(), i - 1);
        assert(s.drop_first()[i - 1] == s[i]);
    }
}

pub proof fn lemma_named_args_size_element(s: Seq<(Ident, Expr)>, i: int)
    requires
        0 <= i < s.len(),
    ensures
        expr_size(s[i].1) < named_args_size(s),
    decreases i,
{
    if i == 0 {
        assert(s.first() == s[0]);
    } else {
        lemma_named_args_size_element(s.drop_first(), i - 1);
        assert(s.drop_first()[i - 1] == s[i]);
    }
}

pub proof fn lemma_opt_exprs_size_element(s: Seq<Option<Expr>>, i: int)
    requires
        0 <= i < s.len(),
    ensures
        opt_expr_size(s[i]) < opt_exprs_size(s),
    decreases i,
{
    if i == 0 {
        assert(s.first() == s[0]);
    } else {
        lemma_opt_exprs_size_element(s.drop_first(), i - 1);
        assert(s.drop_first()[i - 1] == s[i]);
    }
}

pub proof fn lemma_tys_size_element(s: Seq<Ty>, i: int)
    requires
        0 <= i < s.len(),
    ensures
        ty_size(s[i]) < tys_size(s),
    decreases i,
{
    if i == 0 {
        assert(s.first() == s[0]);
    } else {
        lemma_tys_size_element(s.drop_first(), i - 1);
        assert(s.drop_first()[i - 1] == s[i]);
    }
}

pub proof fn lemma_stmts_size_element(s: Seq<Stmt>, i: int)
    requires
        0 <= i < s.len(),
    ensures
        stmt_size(s[i]) < stmts_size(s),
    decreases i,
{
    if i == 0 {
        assert(s.first() == s[0]);
    } else {
        lemma_stmts_size_element(s.drop_first(), i - 1);
        assert(s.drop_first()[i - 1] == s[i]);
    }
}

pub proof fn lemma_transforms_size_element(s: Seq<Transform>, i: int)
    requires
        0 <= i < s.len(),
    ensures
        transform_size(s[i]) < transforms_size(s),
    decreases i,
{
    if i == 0 {
        assert(s.first() == s[0]);
    } else {
        lemma_transforms_size_element(s.drop_first(), i - 1);
        assert(s.drop_first()[i - 1] == s[i]);
    }
}

pub proof fn lemma_tables_size_element(s: Seq<Table>, i: int)
    requires
        0 <= i < s.len(),
    ensures
        transforms_size(s[i].pipeline@) < tables_size(s),
    decreases i,
{
    if i == 0 {
        assert(s.first() == s[0]);
    } else {
        lemma_tables_size_element(s.drop_first(), i - 1);
        assert(s.drop_first()[i - 1] == s[i]);
    }
}

} // verus!
