//! The mathematical model of the tree: one spec-level shape per node
//! type, with `Seq` in place of `Vec` and `Seq<char>` in place of
//! `String`, and a view function from each node type into its shape.
//! Contracts of the fold engine are stated over these views.

use vstd::prelude::*;
use crate::ast::{Expr, ExprKind, Literal, Interval, Range, Pipeline, InterpolateItem, Windowed,
    WindowKind, ColumnSort, SortDirection, FuncDef, FuncParam, FuncCall, FuncCurry, Stmt, StmtKind,
    QueryDef, TableDef, Transform, TransformKind, BinOp, UnOp, JoinSide, JoinFilter, TableRef,
    Query, Table, Ty, TyLit, Ident, Span};
use crate::size::{expr_size, expr_kind_size, exprs_size, opt_box_expr_size, opt_expr_size,
    range_size, pipeline_size, interpolate_item_size, interpolate_items_size, column_sort_size,
    column_sorts_size, windowed_size, func_param_size, func_params_size, func_def_size,
    named_args_size, func_call_size, opt_exprs_size, func_curry_size, ty_size, tys_size,
    table_def_size, stmt_kind_size, stmt_size, stmts_size, join_filter_size, transform_kind_size,
    transform_size, transforms_size, tables_size, query_size};

verus! {

pub struct ExprV {
    pub kind: ExprKindV,
    pub span: Option<Span>,
}

pub enum ExprKindV {
    Ident(Seq<char>),
    Binary { op: BinOp, left: Box<ExprV>, right: Box<ExprV> },
    Unary { op: UnOp, expr: Box<ExprV> },
    List(Seq<ExprV>),
    Range(RangeV),
    Pipeline(PipelineV),
    SString(Seq<InterpolateItemV>),
    FString(Seq<InterpolateItemV>),
    FuncCall(FuncCallV),
    FuncCurry(FuncCurryV),
    Windowed(WindowedV),
    Type(TyV),
    ResolvedPipeline(Seq<TransformV>),
    Empty,
    Literal(LiteralV),
    Interval(IntervalV),
}

pub enum LiteralV {
    Null,
    Integer(i64),
    Boolean(bool),
    Text(Seq<char>),
}

pub struct IntervalV {
    pub n: i64,
    pub unit: Seq<char>,
}

pub struct RangeV {
    pub start: Option<Box<ExprV>>,
    pub end: Option<Box<ExprV>>,
}

pub struct PipelineV {
    pub exprs: Seq<ExprV>,
}

pub enum InterpolateItemV {
    Text(Seq<char>),
    Expr(Box<ExprV>),
}

pub struct WindowedV {
    pub expr: Box<ExprV>,
    pub group: Seq<ExprV>,
    pub sort: Seq<ColumnSortV>,
    pub window: (WindowKind, RangeV),
}

pub struct ColumnSortV {
    pub direction: SortDirection,
    pub column: ExprV,
}

pub struct FuncDefV {
    pub name: Seq<char>,
    pub positional_params: Seq<FuncParamV>,
    pub named_params: Seq<FuncParamV>,
    pub body: Box<ExprV>,
    pub return_ty: Option<TyV>,
}

pub struct FuncParamV {
    pub name: Seq<char>,
    pub ty: Option<TyV>,
    pub default_value: Option<ExprV>,
}

pub struct FuncCallV {
    pub name: Seq<char>,
    pub args: Seq<ExprV>,
    pub named_args: Seq<(Seq<char>, ExprV)>,
}

pub struct FuncCurryV {
    pub def_id: usize,
    pub args: Seq<ExprV>,
    pub named_args: Seq<Option<ExprV>>,
}

pub struct StmtV {
    pub kind: StmtKindV,
    pub span: Option<Span>,
}

pub enum StmtKindV {
    FuncDef(FuncDefV),
    TableDef(TableDefV),
    Pipeline(Seq<ExprV>),
    QueryDef(QueryDefV),
}

pub struct QueryDefV {
    pub version: Option<i64>,
    pub dialect: Seq<char>,
}

pub struct TableDefV {
    pub id: Option<usize>,
    pub name: Seq<char>,
    pub pipeline: Box<ExprV>,
}

pub struct TransformV {
    pub kind: TransformKindV,
    pub span: Option<Span>,
}

pub enum TransformKindV {
    From(TableRefV),
    Derive(Seq<ExprV>),
    Select(Seq<ExprV>),
    Aggregate { assigns: Seq<ExprV>, by: Seq<ExprV> },
    Filter(Box<ExprV>),
    Sort(Seq<ColumnSortV>),
    Join { side: JoinSide, with: TableRefV, filter: JoinFilterV },
    Group { by: Seq<ExprV>, pipeline: Seq<TransformV> },
    Window { kind: WindowKind, range: RangeV, pipeline: Seq<TransformV> },
    Take { range: RangeV, by: Seq<ExprV>, sort: Seq<ColumnSortV> },
    Unique,
}

pub enum JoinFilterV {
    On(Seq<ExprV>),
    Using(Seq<ExprV>),
}

pub struct TableRefV {
    pub name: Seq<char>,
    pub alias: Option<Seq<char>>,
    pub id: Option<usize>,
}

pub struct QueryV {
    pub def: QueryDefV,
    pub main_pipeline: Seq<TransformV>,
    pub tables: Seq<TableV>,
}

pub struct TableV {
    pub id: Option<usize>,
    pub name: Seq<char>,
    pub pipeline: Seq<TransformV>,
}

pub enum TyV {
    Literal(TyLit),
    Named(Seq<char>),
    Parameterized(Box<TyV>, Box<ExprV>),
    AnyOf(Seq<TyV>),
    Infer,
}

pub open spec fn ident_view(i: Ident) -> Seq<char> {
    i@
}

pub open spec fn opt_ident_view(o: Option<Ident>) -> Option<Seq<char>> {
    match o {
        Option::None => Option::None,
        Option::Some(i) => Option::Some(i@),
    }
}

pub open spec fn literal_view(l: Literal) -> LiteralV {
    match l {
        Literal::Null => LiteralV::Null,
        Literal::Integer(n) => LiteralV::Integer(n),
        Literal::Boolean(b) => LiteralV::Boolean(b),
        Literal::Text(s) => LiteralV::Text(s@),
    }
}

pub open spec fn interval_view(iv: Interval) -> IntervalV {
    IntervalV { n: iv.n, unit: iv.unit@ }
}

pub open spec fn expr_view(e: Expr) -> ExprV
    decreases expr_size(e),
{
    ExprV { kind: expr_kind_view(e.kind), span: e.span }
}

pub open spec fn expr_kind_view(k: ExprKind) -> ExprKindV
    decreases expr_kind_size(k),
{
    match k {
        ExprKind::Ident(i) => ExprKindV::Ident(i@),
        ExprKind::Binary { op, left, right } => ExprKindV::Binary {
            op,
            left: Box::new(expr_view(*left)),
            right: Box::new(expr_view(*right)),
        },
        ExprKind::Unary { op, expr } => ExprKindV::Unary { op, expr: Box::new(expr_view(*expr)) },
        ExprKind::List(items) => ExprKindV::List(exprs_view(items@)),
        ExprKind::Range(r) => ExprKindV::Range(range_view(r)),
        ExprKind::Pipeline(p) => ExprKindV::Pipeline(pipeline_view(p)),
        ExprKind::SString(items) => ExprKindV::SString(interpolate_items_view(items@)),
        ExprKind::FString(items) => ExprKindV::FString(interpolate_items_view(items@)),
        ExprKind::FuncCall(c) => ExprKindV::FuncCall(func_call_view(c)),
        ExprKind::FuncCurry(c) => ExprKindV::FuncCurry(func_curry_view(c)),
        ExprKind::Windowed(w) => ExprKindV::Windowed(windowed_view(w)),
        ExprKind::Type(t) => ExprKindV::Type(ty_view(t)),
        ExprKind::ResolvedPipeline(ts) => ExprKindV::ResolvedPipeline(transforms_view(ts@)),
        ExprKind::Empty => ExprKindV::Empty,
        ExprKind::Literal(l) => ExprKindV::Literal(literal_view(l)),
        ExprKind::Interval(iv) => ExprKindV::Interval(interval_view(iv)),
    }
}

pub open spec fn exprs_view(s: Seq<Expr>) -> Seq<ExprV>
    decreases exprs_size(s),
{
    if s.len() == 0 {
        Seq::empty()
    } else {
        seq![expr_view(s.first())] + exprs_view(s.drop_first())
    }
}

pub open spec fn opt_box_expr_view(o: Option<Box<Expr>>) -> Option<Box<ExprV>>
    decreases opt_box_expr_size(o),
{
    match o {
        Option::None => Option::None,
        Option::Some(e) => Option::Some(Box::new(expr_view(*e))),
    }
}

pub open spec fn opt_expr_view(o: Option<Expr>) -> Option<ExprV>
    decreases opt_expr_size(o),
{
    match o {
        Option::None => Option::None,
        Option::Some(e) => Option::Some(expr_view(e)),
    }
}

pub open spec fn range_view(r: Range) -> RangeV
    decreases range_size(r),
{
    RangeV { start: opt_box_expr_view(r.start), end: opt_box_expr_view(r.end) }
}

pub open spec fn pipeline_view(p: Pipeline) -> PipelineV
    decreases pipeline_size(p),
{
    PipelineV { exprs: exprs_view(p.exprs@) }
}

pub open spec fn interpolate_item_view(it: InterpolateItem) -> InterpolateItemV
    decreases interpolate_item_size(it),
{
    match it {
        InterpolateItem::Text(s) => InterpolateItemV::Text(s@),
        InterpolateItem::Expr(e) => InterpolateItemV::Expr(Box::new(expr_view(*e))),
    }
}

pub open spec fn interpolate_items_view(s: Seq<InterpolateItem>) -> Seq<InterpolateItemV>
    decreases interpolate_items_size(s),
{
    if s.len() == 0 {
        Seq::empty()
    } else {
        seq![interpolate_item_view(s.first())] + interpolate_items_view(s.drop_first())
    }
}

pub open spec fn column_sort_view(c: ColumnSort) -> ColumnSortV
    decreases column_sort_size(c),
{
    ColumnSortV { direction: c.direction, column: expr_view(c.column) }
}

pub open spec fn column_sorts_view(s: Seq<ColumnSort>) -> Seq<ColumnSortV>
    decreases column_sorts_size(s),
{
    if s.len() == 0 {
        Seq::empty()
    } else {
        seq![column_sort_view(s.first())] + column_sorts_view(s.drop_first())
    }
}

pub open spec fn windowed_view(w: Windowed) -> WindowedV
    decreases windowed_size(w),
{
    WindowedV {
        expr: Box::new(expr_view(*w.expr)),
        group: exprs_view(w.group@),
        sort: column_sorts_view(w.sort@),
        window: (w.window.0, range_view(w.window.1)),
    }
}

pub open spec fn func_param_view(p: FuncParam) -> FuncParamV
    decreases func_param_size(p),
{
    FuncParamV { name: p.name@, ty: opt_ty_view(p.ty), default_value: opt_expr_view(
        p.default_value,
    ) }
}

pub open spec fn func_params_view(s: Seq<FuncParam>) -> Seq<FuncParamV>
    decreases func_params_size(s),
{
    if s.len() == 0 {
        Seq::empty()
    } else {
        seq![func_param_view(s.first())] + func_params_view(s.drop_first())
    }
}

pub open spec fn func_def_view(f: FuncDef) -> FuncDefV
    decreases func_def_size(f),
{
    FuncDefV {
        name: f.name@,
        positional_params: func_params_view(f.positional_params@),
        named_params: func_params_view(f.named_params@),
        body: Box::new(expr_view(*f.body)),
        return_ty: opt_ty_view(f.return_ty),
    }
}

pub open spec fn named_args_view(s: Seq<(Ident, Expr)>) -> Seq<(Seq<char>, ExprV)>
    decreases named_args_size(s),
{
    if s.len() == 0 {
        Seq::empty()
    } else {
        seq![(s.first().0@, expr_view(s.first().1))] + named_args_view(s.drop_first())
    }
}

pub open spec fn func_call_view(c: FuncCall) -> FuncCallV
    decreases func_call_size(c),
{
    FuncCallV { name: c.name@, args: exprs_view(c.args@), named_args: named_args_view(
        c.named_args@,
    ) }
}

pub open spec fn opt_exprs_view(s: Seq<Option<Expr>>) -> Seq<Option<ExprV>>
    decreases opt_exprs_size(s),
{
    if s.len() == 0 {
        Seq::empty()
    } else {
        seq![opt_expr_view(s.first())] + opt_exprs_view(s.drop_first())
    }
}

pub open spec fn func_curry_view(c: FuncCurry) -> FuncCurryV
    decreases func_curry_size(c),
{
    FuncCurryV { def_id: c.def_id, args: exprs_view(c.args@), named_args: opt_exprs_view(
        c.named_args@,
    ) }
}

pub open spec fn ty_view(t: Ty) -> TyV
    decreases ty_size(t),
{
    match t {
        Ty::Literal(l) => TyV::Literal(l),
        Ty::Named(n) => TyV::Named(n@),
        Ty::Parameterized(ty, e) => TyV::Parameterized(
            Box::new(ty_view(*ty)),
            Box::new(expr_view(*e)),
        ),
        Ty::AnyOf(ts) => TyV::AnyOf(tys_view(ts@)),
        Ty::Infer => TyV::Infer,
    }
}

pub open spec fn opt_ty_view(o: Option<Ty>) -> Option<TyV>
    decreases o,
{
    match o {
        Option::None => Option::None,
        Option::Some(t) => Option::Some(ty_view(t)),
    }
}

pub open spec fn tys_view(s: Seq<Ty>) -> Seq<TyV>
    decreases tys_size(s),
{
    if s.len() == 0 {
        Seq::empty()
    } else {
        seq![ty_view(s.first())] + tys_view(s.drop_first())
    }
}

pub open spec fn query_def_view(d: QueryDef) -> QueryDefV {
    QueryDefV { version: d.version, dialect: d.dialect@ }
}

pub open spec fn table_def_view(t: TableDef) -> TableDefV
    decreases table_def_size(t),
{
    TableDefV { id: t.id, name: t.name@, pipeline: Box::new(expr_view(*t.pipeline)) }
}

pub open spec fn stmt_kind_view(k: StmtKind) -> StmtKindV
    decreases stmt_kind_size(k),
{
    match k {
        StmtKind::FuncDef(f) => StmtKindV::FuncDef(func_def_view(f)),
        StmtKind::TableDef(t) => StmtKindV::TableDef(table_def_view(t)),
        StmtKind::Pipeline(exprs) => StmtKindV::Pipeline(exprs_view(exprs@)),
        StmtKind::QueryDef(d) => StmtKindV::QueryDef(query_def_view(d)),
    }
}

pub open spec fn stmt_view(s: Stmt) -> StmtV
    decreases stmt_size(s),
{
    StmtV { kind: stmt_kind_view(s.kind), span: s.span }
}

pub open spec fn stmts_view(s: Seq<Stmt>) -> Seq<StmtV>
    decreases stmts_size(s),
{
    if s.len() == 0 {
        Seq::empty()
    } else {
        seq![stmt_view(s.first())] + stmts_view(s.drop_first())
    }
}

pub open spec fn table_ref_view(t: TableRef) -> TableRefV {
    TableRefV { name: t.name@, alias: opt_ident_view(t.alias), id: t.id }
}

pub open spec fn join_filter_view(f: JoinFilter) -> JoinFilterV
    decreases join_filter_size(f),
{
    match f {
        JoinFilter::On(nodes) => JoinFilterV::On(exprs_view(nodes@)),
        JoinFilter::Using(nodes) => JoinFilterV::Using(exprs_view(nodes@)),
    }
}

pub open spec fn transform_kind_view(k: TransformKind) -> TransformKindV
    decreases transform_kind_size(k),
{
    match k {
        TransformKind::From(t) => TransformKindV::From(table_ref_view(t)),
        TransformKind::Derive(assigns) => TransformKindV::Derive(exprs_view(assigns@)),
        TransformKind::Select(assigns) => TransformKindV::Select(exprs_view(assigns@)),
        TransformKind::Aggregate { assigns, by } => TransformKindV::Aggregate {
            assigns: exprs_view(assigns@),
            by: exprs_view(by@),
        },
        TransformKind::Filter(e) => TransformKindV::Filter(Box::new(expr_view(*e))),
        TransformKind::Sort(items) => TransformKindV::Sort(column_sorts_view(items@)),
        TransformKind::Join { side, with, filter } => TransformKindV::Join {
            side,
            with: table_ref_view(with),
            filter: join_filter_view(filter),
        },
        TransformKind::Group { by, pipeline } => TransformKindV::Group {
            by: exprs_view(by@),
            pipeline: transforms_view(pipeline@),
        },
        TransformKind::Window { kind, range, pipeline } => TransformKindV::Window {
            kind,
            range: range_view(range),
            pipeline: transforms_view(pipeline@),
        },
        TransformKind::Take { range, by, sort } => TransformKindV::Take {
            range: range_view(range),
            by: exprs_view(by@),
            sort: column_sorts_view(sort@),
        },
        TransformKind::Unique => TransformKindV::Unique,
    }
}

pub open spec fn transform_view(t: Transform) -> TransformV
    decreases transform_size(t),
{
    TransformV { kind: transform_kind_view(t.kind), span: t.span }
}

pub open spec fn transforms_view(s: Seq<Transform>) -> Seq<TransformV>
    decreases transforms_size(s),
{
    if s.len() == 0 {
        Seq::empty()
    } else {
        seq![transform_view(s.first())] + transforms_view(s.drop_first())
    }
}

pub open spec fn table_view(t: Table) -> TableV
    decreases t,
{
    TableV { id: t.id, name: t.name@, pipeline: transforms_view(t.pipeline@) }
}

pub open spec fn tables_view(s: Seq<Table>) -> Seq<TableV>
    decreases tables_size(s),
{
    if s.len() == 0 {
        Seq::empty()
    } else {
        seq![table_view(s.first())] + tables_view(s.drop_first())
    }
}

pub open spec fn query_view(q: Query) -> QueryV
    decreases query_size(q),
{
    QueryV {
        def: query_def_view(q.def),
        main_pipeline: transforms_view(q.main_pipeline@),
        tables: tables_view(q.tables@),
    }
}

pub proof fn lemma_exprs_view(s: Seq<Expr>)
    ensures
        exprs_view(s).len() == s.len(),
        forall|i: int| 0 <= i < s.len() ==> exprs_view(s)[i] == expr_view(s[i]),
    decreases s.len(),
{
    if s.len() > 0 {
        lemma_exprs_view(s.drop_first());
        assert forall|i: int| 0 <= i < s.len() implies exprs_view(s)[i] == expr_view(s[i]) by {
            if i > 0 {
                assert(s.drop_first()[i - 1] == s[i]);
            }
        }
    }
}

pub proof fn lemma_interpolate_items_view(s: Seq<InterpolateItem>)
    ensures
        interpolate_items_view(s).len() == s.len(),
        forall|i: int|
            0 <= i < s.len() ==> interpolate_items_view(s)[i] == interpolate_item_view(s[i]),
    decreases s.len(),
{
    if s.len() > 0 {
        lemma_interpolate_items_view(s.drop_first());
        assert forall|i: int|
            0 <= i < s.len() implies interpolate_items_view(s)[i] == interpolate_item_view(
            s[i],
        ) by {
            if i > 0 {
                assert(s.drop_first()[i - 1] == s[i]);
            }
        }
    }
}

pub proof fn lemma_column_sorts_view(s: Seq<ColumnSort>)
    ensures
        column_sorts_view(s).len() == s.len(),
        forall|i: int| 0 <= i < s.len() ==> column_sorts_view(s)[i] == column_sort_view(s[i]),
    decreases s.len(),
{
    if s.len() > 0 {
        lemma_column_sorts_view(s.drop_first());
        assert forall|i: int|
            0 <= i < s.len() implies column_sorts_view(s)[i] == column_sort_view(s[i]) by {
            if i > 0 {
                assert(s.drop_first()[i - 1] == s[i]);
            }
        }
    }
}

pub proof fn lemma_func_params_view(s: Seq<FuncParam>)
    ensures
        func_params_view(s).len() == s.len(),
        forall|i: int| 0 <= i < s.len() ==> func_params_view(s)[i] == func_param_view(s[i]),
    decreases s.len(),
{
    if s.len() > 0 {
        lemma_func_params_view(s.drop_first());
        assert forall|i: int|
            0 <= i < s.len() implies func_params_view(s)[i] == func_param_view(s[i]) by {
            if i > 0 {
                assert(s.drop_first()[i - 1] == s[i]);
            }
        }
    }
}

pub proof fn lemma_named_args_view(s: Seq<(Ident, Expr)>)
    ensures
        named_args_view(s).len() == s.len(),
        forall|i: int|
            0 <= i < s.len() ==> named_args_view(s)[i] == (s[i].0@, expr_view(s[i].1)),
    decreases s.len(),
{
    if s.len() > 0 {
        lemma_named_args_view(s.drop_first());
        assert forall|i: int|
            0 <= i < s.len() implies named_args_view(s)[i] == (s[i].0@, expr_view(s[i].1)) by {
            if i > 0 {
                assert(s.drop_first()[i - 1] == s[i]);
            }
        }
    }
}

pub proof fn lemma_opt_exprs_view(s: Seq<Option<Expr>>)
    ensures
        opt_exprs_view(s).len() == s.len(),
        forall|i: int| 0 <= i < s.len() ==> opt_exprs_view(s)[i] == opt_expr_view(s[i]),
    decreases s.len(),
{
    if s.len() > 0 {
        lemma_opt_exprs_view(s.drop_first());
        assert forall|i: int|
            0 <= i < s.len() implies opt_exprs_view(s)[i] == opt_expr_view(s[i]) by {
            if i > 0 {
                assert(s.drop_first()[i - 1] == s[i]);
            }
        }
    }
}

pub proof fn lemma_tys_view(s: Seq<Ty>)
    ensures
        tys_view(s).len() == s.len(),
        forall|i: int| 0 <= i < s.len() ==> tys_view(s)[i] == ty_view(s[i]),
    decreases s.len(),
{
    if s.len() > 0 {
        lemma_tys_view(s.drop_first());
        assert forall|i: int| 0 <= i < s.len() implies tys_view(s)[i] == ty_view(s[i]) by {
            if i > 0 {
                assert(s.drop_first()[i - 1] == s[i]);
            }
        }
    }
}

pub proof fn lemma_stmts_view(s: Seq<Stmt>)
    ensures
        stmts_view(s).len() == s.len(),
        forall|i: int| 0 <= i < s.len() ==> stmts_view(s)[i] == stmt_view(s[i]),
    decreases s.len(),
{
    if s.len() > 0 {
        lemma_stmts_view(s.drop_first());
        assert forall|i: int| 0 <= i < s.len() implies stmts_view(s)[i] == stmt_view(s[i]) by {
            if i > 0 {
                assert(s.drop_first()[i - 1] == s[i]);
            }
        }
    }
}

pub proof fn lemma_transforms_view(s: Seq<Transform>)
    ensures
        transforms_view(s).len() == s.len(),
        forall|i: int| 0 <= i < s.len() ==> transforms_view(s)[i] == transform_view(s[i]),
    decreases s.len(),
{
    if s.len() > 0 {
        lemma_transforms_view(s.drop_first());
        assert forall|i: int|
            0 <= i < s.len() implies transforms_view(s)[i] == transform_view(s[i]) by {
            if i > 0 {
                assert(s.drop_first()[i - 1] == s[i]);
            }
        }
    }
}

pub proof fn lemma_tables_view(s: Seq<Table>)
    ensures
        tables_view(s).len() == s.len(),
        forall|i: int| 0 <= i < s.len() ==> tables_view(s)[i] == table_view(s[i]),
    decreases s.len(),
{
    if s.len() > 0 {
        lemma_tables_view(s.drop_first());
        assert forall|i: int| 0 <= i < s.len() implies tables_view(s)[i] == table_view(s[i]) by {
            if i > 0 {
                assert(s.drop_first()[i - 1] == s[i]);
            }
        }
    }
}

} // verus!
