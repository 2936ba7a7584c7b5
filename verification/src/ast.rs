//! The two-tier abstract syntax tree of the pipeline query language:
//! the surface expression/statement tree produced by parsing, and the
//! resolved relational transform pipeline produced by later passes.
//!
//! Every tree node is immutable-by-replacement: a rewrite consumes a node
//! by value and produces a new node by value; no node is aliased by two
//! parents.

use vstd::prelude::*;

verus! {

/// A name appearing in the tree; rewritten as a unit by a fold.
pub type Ident = String;

/// Source-position metadata carried by a node; never rewritten by a fold.
#[derive(Debug, Clone, Copy, PartialEq, Eq)]
pub struct Span {
    pub start: usize,
    pub end: usize,
}

/// A literal value; a leaf of the expression tree.
#[derive(Debug, PartialEq)]
pub enum Literal {
    Null,
    Integer(i64),
    Boolean(bool),
    Text(String),
}

/// A time interval; a leaf of the expression tree.
#[derive(Debug, PartialEq)]
pub struct Interval {
    pub n: i64,
    pub unit: String,
}

/// A binary operator; fixed at construction time, never rewritten.
#[derive(Debug, Clone, Copy, PartialEq, Eq)]
pub enum BinOp {
    Mul,
    Div,
    Mod,
    Add,
    Sub,
    Eq,
    Ne,
    Gt,
    Lt,
    Gte,
    Lte,
    And,
    Or,
    Coalesce,
}

/// A unary operator; fixed at construction time, never rewritten.
#[derive(Debug, Clone, Copy, PartialEq, Eq)]
pub enum UnOp {
    Neg,
    Not,
}

/// An expression node: a kind plus metadata that no fold touches.
#[derive(Debug, PartialEq)]
pub struct Expr {
    pub kind: ExprKind,
    pub span: Option<Span>,
}

/// The closed set of expression forms. `Empty`, `Literal` and `Interval`
/// carry no child expressions and pass through every fold unchanged.
#[derive(Debug, PartialEq)]
pub enum ExprKind {
    Ident(Ident),
    Binary { op: BinOp, left: Box<Expr>, right: Box<Expr> },
    Unary { op: UnOp, expr: Box<Expr> },
    List(Vec<Expr>),
    Range(Range),
    Pipeline(Pipeline),
    SString(Vec<InterpolateItem>),
    FString(Vec<InterpolateItem>),
    FuncCall(FuncCall),
    FuncCurry(FuncCurry),
    Windowed(Windowed),
    Type(Ty),
    ResolvedPipeline(Vec<Transform>),
    Empty,
    Literal(Literal),
    Interval(Interval),
}

/// A range with optional bounds; each bound is an expression.
#[derive(Debug, PartialEq)]
pub struct Range {
    pub start: Option<Box<Expr>>,
    pub end: Option<Box<Expr>>,
}

/// An ordered, unresolved chain of pipe stages; order is significant.
#[derive(Debug, PartialEq)]
pub struct Pipeline {
    pub exprs: Vec<Expr>,
}

/// One piece of an interpolated string: opaque text, or an embedded
/// expression that folds rewrite.
#[derive(Debug, PartialEq)]
pub enum InterpolateItem {
    Text(String),
    Expr(Box<Expr>),
}

/// The frame kind of a window clause.
#[derive(Debug, Clone, Copy, PartialEq, Eq)]
pub enum WindowKind {
    Rows,
    Range,
}

/// An expression evaluated over a window frame.
#[derive(Debug, PartialEq)]
pub struct Windowed {
    pub expr: Box<Expr>,
    pub group: Vec<Expr>,
    pub sort: Vec<ColumnSort>,
    pub window: (WindowKind, Range),
}

/// Direction of one sort column.
#[derive(Debug, Clone, Copy, PartialEq, Eq)]
pub enum SortDirection {
    Asc,
    Desc,
}

/// One column of a sort clause; the direction is never rewritten.
#[derive(Debug, PartialEq)]
pub struct ColumnSort {
    pub direction: SortDirection,
    pub column: Expr,
}

/// A user function declaration.
#[derive(Debug, PartialEq)]
pub struct FuncDef {
    pub name: Ident,
    pub positional_params: Vec<FuncParam>,
    pub named_params: Vec<FuncParam>,
    pub body: Box<Expr>,
    pub return_ty: Option<Ty>,
}

/// One declared parameter, possibly with a default value.
#[derive(Debug, PartialEq)]
pub struct FuncParam {
    pub name: Ident,
    pub ty: Option<Ty>,
    pub default_value: Option<Expr>,
}

/// A saturated invocation. The `name` identifies which declared function
/// is invoked; it is fixed at call construction and no fold rewrites it.
#[derive(Debug, PartialEq)]
pub struct FuncCall {
    pub name: Ident,
    pub args: Vec<Expr>,
    pub named_args: Vec<(Ident, Expr)>,
}

/// A partial application. `def_id` is a stable binding to a declaration
/// and is never rewritten. A `None` slot in `named_args` is a parameter
/// deliberately left unfilled, awaiting later saturation; a fold must
/// keep it `None`.
#[derive(Debug, PartialEq)]
pub struct FuncCurry {
    pub def_id: usize,
    pub args: Vec<Expr>,
    pub named_args: Vec<Option<Expr>>,
}

/// A statement node: a kind plus metadata that no fold touches.
#[derive(Debug, PartialEq)]
pub struct Stmt {
    pub kind: StmtKind,
    pub span: Option<Span>,
}

/// The closed set of top-level declarations. `QueryDef` is opaque
/// configuration and passes through every fold unchanged.
#[derive(Debug, PartialEq)]
pub enum StmtKind {
    FuncDef(FuncDef),
    TableDef(TableDef),
    Pipeline(Vec<Expr>),
    QueryDef(QueryDef),
}

/// Query-level configuration; never rewritten.
#[derive(Debug, PartialEq)]
pub struct QueryDef {
    pub version: Option<i64>,
    pub dialect: String,
}

/// A named table definition whose pipeline is still an unresolved
/// expression.
#[derive(Debug, PartialEq)]
pub struct TableDef {
    pub id: Option<usize>,
    pub name: Ident,
    pub pipeline: Box<Expr>,
}

/// A resolved relational operator: a kind plus metadata that no fold
/// touches.
#[derive(Debug, PartialEq)]
pub struct Transform {
    pub kind: TransformKind,
    pub span: Option<Span>,
}

/// The closed set of relational operators, each applied in sequence to
/// the current relation. `Unique` carries no children and passes through
/// every fold unchanged.
#[derive(Debug, PartialEq)]
pub enum TransformKind {
    From(TableRef),
    Derive(Vec<Expr>),
    Select(Vec<Expr>),
    Aggregate { assigns: Vec<Expr>, by: Vec<Expr> },
    Filter(Box<Expr>),
    Sort(Vec<ColumnSort>),
    Join { side: JoinSide, with: TableRef, filter: JoinFilter },
    Group { by: Vec<Expr>, pipeline: Vec<Transform> },
    Window { kind: WindowKind, range: Range, pipeline: Vec<Transform> },
    Take { range: Range, by: Vec<Expr>, sort: Vec<ColumnSort> },
    Unique,
}

/// Which side of a join keeps unmatched rows.
#[derive(Debug, Clone, Copy, PartialEq, Eq)]
pub enum JoinSide {
    Inner,
    Left,
    Right,
    Full,
}

/// The join condition: a conjunction of predicates, or a list of shared
/// columns.
#[derive(Debug, PartialEq)]
pub enum JoinFilter {
    On(Vec<Expr>),
    Using(Vec<Expr>),
}

/// A reference to a base relation. Only `name` and `alias` are folded;
/// `id` is stable identity and is copied unchanged.
#[derive(Debug, PartialEq)]
pub struct TableRef {
    pub name: Ident,
    pub alias: Option<Ident>,
    pub id: Option<usize>,
}

/// A complete resolved program: one main pipeline plus named tables.
#[derive(Debug, PartialEq)]
pub struct Query {
    pub def: QueryDef,
    pub main_pipeline: Vec<Transform>,
    pub tables: Vec<Table>,
}

/// A resolved named table. Its `id` and `name` are stable identity and
/// are never rewritten by a fold.
#[derive(Debug, PartialEq)]
pub struct Table {
    pub id: Option<usize>,
    pub name: String,
    pub pipeline: Vec<Transform>,
}

/// A literal base type.
#[derive(Debug, Clone, Copy, PartialEq, Eq)]
pub enum TyLit {
    Table,
    Column,
    Scalar,
    Integer,
    Boolean,
    Text,
    Date,
}

/// A type annotation. `Literal`, `Named` and `Infer` are leaves; a fold
/// recurses only into `Parameterized` and `AnyOf`.
#[derive(Debug, PartialEq)]
pub enum Ty {
    Literal(TyLit),
    Named(String),
    Parameterized(Box<Ty>, Box<Expr>),
    AnyOf(Vec<Ty>),
    Infer,
}

/// The recoverable error a fold propagates. The engine never creates
/// one; it only passes along, unmodified, the first error an overriding
/// pass raises in visitation order.
#[derive(Debug, PartialEq)]
pub struct FoldError {
    pub msg: String,
}

impl FoldError {
    /// Wraps a message raised by a pass.
    pub fn new(msg: String) -> (r: FoldError)
        ensures
            r.msg == msg,
    {
        FoldError { msg }
    }
}

} // verus!
