//! A pass that rewrites nothing and records every name it visits, in
//! visitation order. Its contracts state the order-preservation law of
//! the default recursion on the forms whose visitation order the
//! records make observable: the stages of a pipeline of identifiers are
//! visited left to right, and the left operand of a binary expression
//! strictly before the right one.

use vstd::prelude::*;
use crate::ast::{Expr, ExprKind, Range, Pipeline, InterpolateItem, Windowed, ColumnSort, FuncDef,
    FuncParam, FuncCall, FuncCurry, Stmt, StmtKind, TableDef, Transform, TransformKind, JoinFilter,
    TableRef, Query, Table, Ty, Ident, FoldError};
use crate::size::{expr_size, expr_kind_size, exprs_size, opt_box_expr_size, range_size,
    pipeline_size, interpolate_item_size, interpolate_items_size, column_sort_size,
    column_sorts_size, windowed_size, func_params_size, func_def_size, func_call_size,
    named_args_size, func_curry_size, opt_exprs_size, ty_size, tys_size, table_def_size,
    stmt_kind_size, stmt_size, stmts_size, table_ref_size, join_filter_size, transform_size,
    transforms_size, tables_size, query_size, lemma_exprs_size_element,
    lemma_interpolate_items_size_element, lemma_column_sorts_size_element,
    lemma_func_params_size_element, lemma_named_args_size_element, lemma_opt_exprs_size_element,
    lemma_tys_size_element, lemma_stmts_size_element, lemma_transforms_size_element,
    lemma_tables_size_element};
use crate::fold::AstFold;

verus! {

/// True of an expression list whose every stage is a bare identifier.
pub open spec fn all_idents(s: Seq<Expr>) -> bool {
    forall|i: int| 0 <= i < s.len() ==> (#[trigger] s[i].kind) is Ident
}

/// The names of a list of bare identifiers, in list order.
pub open spec fn ident_names(s: Seq<Expr>) -> Seq<Ident> {
    Seq::new(s.len(), |i: int| s[i].kind->Ident_0)
}

/// True of a binary form whose both operands are bare identifiers.
pub open spec fn is_ident_binary(k: ExprKind) -> bool {
    match k {
        ExprKind::Binary { op: _, left, right } => left.kind is Ident && right.kind is Ident,
        _ => false,
    }
}

/// The operand names of a binary form of identifiers: left, then right.
pub open spec fn binary_names(k: ExprKind) -> (Ident, Ident)
    recommends
        is_ident_binary(k),
{
    match k {
        ExprKind::Binary { op: _, left, right } => (left.kind->Ident_0, right.kind->Ident_0),
        _ => (arbitrary(), arbitrary()),
    }
}

/// The pass that records names. `fold_ident` appends the visited name
/// to `seen` and returns it unchanged; every other category performs
/// the default structural recursion.
pub struct RecordIdents {
    pub seen: Vec<Ident>,
}

impl RecordIdents {
    fn rec_opt_box(&mut self, opt: Option<Box<Expr>>) -> (r: Result<Option<Box<Expr>>, FoldError>)
        decreases opt_box_expr_size(opt),
    {
        match opt {
            Option::None => Ok(Option::None),
            Option::Some(n) => {
                match self.fold_expr(*n) {
                    Ok(x) => Ok(Option::Some(Box::new(x))),
                    Err(e) => Err(e),
                }
            },
        }
    }

    fn rec_range(&mut self, range: Range) -> (r: Result<Range, FoldError>)
        decreases range_size(range),
    {
        let Range { start, end } = range;
        let start = match self.rec_opt_box(start) {
            Ok(s) => s,
            Err(e) => {
                return Err(e);
            },
        };
        match self.rec_opt_box(end) {
            Ok(en) => Ok(Range { start, end: en }),
            Err(e) => Err(e),
        }
    }

    fn rec_interpolate_items(&mut self, items: Vec<InterpolateItem>) -> (r: Result<
        Vec<InterpolateItem>,
        FoldError,
    >)
        decreases interpolate_items_size(items@),
    {
        let ghost all: Seq<InterpolateItem> = items@;
        let mut rest = items;
        let mut out: Vec<InterpolateItem> = Vec::new();
        proof {
            assert(rest@ =~= all.skip(0));
        }
        while rest.len() > 0
            invariant
                all == items@,
                out@.len() + rest@.len() == all.len(),
                rest@ =~= all.skip(out@.len() as int),
            decreases rest@.len(),
        {
            let first = rest.remove(0);
            proof {
                let n = out@.len() as int;
                assert(all.skip(n).first() == all[n]);
                lemma_interpolate_items_size_element(all, n);
                assert(rest@ =~= all.skip(n + 1));
            }
            match self.fold_interpolate_item(first) {
                Ok(w) => out.push(w),
                Err(e) => {
                    return Err(e);
                },
            }
        }
        Ok(out)
    }

    fn rec_named_args(&mut self, named_args: Vec<(Ident, Expr)>) -> (r: Result<
        Vec<(Ident, Expr)>,
        FoldError,
    >)
        decreases named_args_size(named_args@),
    {
        let ghost all: Seq<(Ident, Expr)> = named_args@;
        let mut rest = named_args;
        let mut out: Vec<(Ident, Expr)> = Vec::new();
        proof {
            assert(rest@ =~= all.skip(0));
        }
        while rest.len() > 0
            invariant
                all == named_args@,
                out@.len() + rest@.len() == all.len(),
                rest@ =~= all.skip(out@.len() as int),
            decreases rest@.len(),
        {
            let first = rest.remove(0);
            proof {
                let n = out@.len() as int;
                assert(all.skip(n).first() == all[n]);
                lemma_named_args_size_element(all, n);
                assert(rest@ =~= all.skip(n + 1));
            }
            let (arg_name, expr) = first;
            match self.fold_expr(expr) {
                Ok(w) => out.push((arg_name, w)),
                Err(e) => {
                    return Err(e);
                },
            }
        }
        Ok(out)
    }

    fn rec_opt_exprs(&mut self, slots: Vec<Option<Expr>>) -> (r: Result<
        Vec<Option<Expr>>,
        FoldError,
    >)
        decreases opt_exprs_size(slots@),
    {
        let ghost all: Seq<Option<Expr>> = slots@;
        let mut rest = slots;
        let mut out: Vec<Option<Expr>> = Vec::new();
        proof {
            assert(rest@ =~= all.skip(0));
        }
        while rest.len() > 0
            invariant
                all == slots@,
                out@.len() + rest@.len() == all.len(),
                rest@ =~= all.skip(out@.len() as int),
            decreases rest@.len(),
        {
            let first = rest.remove(0);
            proof {
                let n = out@.len() as int;
                assert(all.skip(n).first() == all[n]);
                lemma_opt_exprs_size_element(all, n);
                assert(rest@ =~= all.skip(n + 1));
            }
            match first {
                Option::None => out.push(Option::None),
                Option::Some(expr) => {
                    match self.fold_expr(expr) {
                        Ok(w) => out.push(Option::Some(w)),
                        Err(e) => {
                            return Err(e);
                        },
                    }
                },
            }
        }
        Ok(out)
    }

    fn rec_func_params(&mut self, nodes: Vec<FuncParam>) -> (r: Result<Vec<FuncParam>, FoldError>)
        decreases func_params_size(nodes@),
    {
        let ghost all: Seq<FuncParam> = nodes@;
        let mut rest = nodes;
        let mut out: Vec<FuncParam> = Vec::new();
        proof {
            assert(rest@ =~= all.skip(0));
        }
        while rest.len() > 0
            invariant
                all == nodes@,
                out@.len() + rest@.len() == all.len(),
                rest@ =~= all.skip(out@.len() as int),
            decreases rest@.len(),
        {
            let first = rest.remove(0);
            proof {
                let n = out@.len() as int;
                assert(all.skip(n).first() == all[n]);
                lemma_func_params_size_element(all, n);
                assert(rest@ =~= all.skip(n + 1));
            }
            let FuncParam { name, ty, default_value } = first;
            match default_value {
                Option::None => out.push(FuncParam { name, ty, default_value: Option::None }),
                Option::Some(expr) => {
                    match self.fold_expr(expr) {
                        Ok(w) => out.push(
                            FuncParam { name, ty, default_value: Option::Some(w) },
                        ),
                        Err(e) => {
                            return Err(e);
                        },
                    }
                },
            }
        }
        Ok(out)
    }

    fn rec_tys(&mut self, members: Vec<Ty>) -> (r: Result<Vec<Ty>, FoldError>)
        decreases tys_size(members@),
    {
        let ghost all: Seq<Ty> = members@;
        let mut rest = members;
        let mut out: Vec<Ty> = Vec::new();
        proof {
            assert(rest@ =~= all.skip(0));
        }
        while rest.len() > 0
            invariant
                all == members@,
                out@.len() + rest@.len() == all.len(),
                rest@ =~= all.skip(out@.len() as int),
            decreases rest@.len(),
        {
            let first = rest.remove(0);
            proof {
                let n = out@.len() as int;
                assert(all.skip(n).first() == all[n]);
                lemma_tys_size_element(all, n);
                assert(rest@ =~= all.skip(n + 1));
            }
            match self.fold_type(first) {
                Ok(w) => out.push(w),
                Err(e) => {
                    return Err(e);
                },
            }
        }
        Ok(out)
    }

    fn rec_tables(&mut self, tables: Vec<Table>) -> (r: Result<Vec<Table>, FoldError>)
        decreases tables_size(tables@),
    {
        let ghost all: Seq<Table> = tables@;
        let mut rest = tables;
        let mut out: Vec<Table> = Vec::new();
        proof {
            assert(rest@ =~= all.skip(0));
        }
        while rest.len() > 0
            invariant
                all == tables@,
                out@.len() + rest@.len() == all.len(),
                rest@ =~= all.skip(out@.len() as int),
            decreases rest@.len(),
        {
            let first = rest.remove(0);
            proof {
                let n = out@.len() as int;
                assert(all.skip(n).first() == all[n]);
                lemma_tables_size_element(all, n);
                assert(rest@ =~= all.skip(n + 1));
            }
            let Table { id, name, pipeline } = first;
            match self.fold_transforms(pipeline) {
                Ok(ts) => out.push(Table { id, name, pipeline: ts }),
                Err(e) => {
                    return Err(e);
                },
            }
        }
        Ok(out)
    }

    fn rec_stmt_kind(&mut self, stmt_kind: StmtKind) -> (r: Result<StmtKind, FoldError>)
        decreases stmt_kind_size(stmt_kind),
    {
        match stmt_kind {
            StmtKind::FuncDef(func) => {
                match self.fold_func_def(func) {
                    Ok(fd) => Ok(StmtKind::FuncDef(fd)),
                    Err(e) => Err(e),
                }
            },
            StmtKind::TableDef(table) => {
                match self.fold_table(table) {
                    Ok(t) => Ok(StmtKind::TableDef(t)),
                    Err(e) => Err(e),
                }
            },
            StmtKind::Pipeline(exprs) => {
                match self.fold_exprs(exprs) {
                    Ok(v) => Ok(StmtKind::Pipeline(v)),
                    Err(e) => Err(e),
                }
            },
            StmtKind::QueryDef(d) => Ok(StmtKind::QueryDef(d)),
        }
    }
}

impl AstFold for RecordIdents {
    fn fold_stmt(&mut self, stmt: Stmt) -> (r: Result<Stmt, FoldError>)
        decreases stmt_size(stmt),
    {
        let Stmt { kind, span } = stmt;
        match self.rec_stmt_kind(kind) {
            Ok(kind) => Ok(Stmt { kind, span }),
            Err(e) => Err(e),
        }
    }

    fn fold_stmts(&mut self, stmts: Vec<Stmt>) -> (r: Result<Vec<Stmt>, FoldError>)
        decreases stmts_size(stmts@),
    {
        let ghost all: Seq<Stmt> = stmts@;
        let mut rest = stmts;
        let mut out: Vec<Stmt> = Vec::new();
        proof {
            assert(rest@ =~= all.skip(0));
        }
        while rest.len() > 0
            invariant
                all == stmts@,
                out@.len() + rest@.len() == all.len(),
                rest@ =~= all.skip(out@.len() as int),
            decreases rest@.len(),
        {
            let first = rest.remove(0);
            proof {
                let n = out@.len() as int;
                assert(all.skip(n).first() == all[n]);
                lemma_stmts_size_element(all, n);
                assert(rest@ =~= all.skip(n + 1));
            }
            match self.fold_stmt(first) {
                Ok(w) => out.push(w),
                Err(e) => {
                    return Err(e);
                },
            }
        }
        Ok(out)
    }

    /// On a bare identifier the record grows by exactly that name, and
    /// the expression comes back unchanged.
    fn fold_expr(&mut self, expr: Expr) -> (r: Result<Expr, FoldError>)
        ensures
            expr.kind matches ExprKind::Ident(name) ==> (r == Ok::<Expr, FoldError>(expr)
                && final(self).seen@ == old(self).seen@.push(name)),
        decreases expr_size(expr),
    {
        let Expr { kind, span } = expr;
        match self.fold_expr_kind(kind) {
            Ok(kind) => Ok(Expr { kind, span }),
            Err(e) => Err(e),
        }
    }

    /// The left operand of a binary form is visited strictly before the
    /// right one: with identifier operands, the record shows the left
    /// name first.
    fn fold_expr_kind(&mut self, expr_kind: ExprKind) -> (r: Result<ExprKind, FoldError>)
        ensures
            expr_kind matches ExprKind::Ident(name) ==> (r == Ok::<ExprKind, FoldError>(
                expr_kind,
            ) && final(self).seen@ == old(self).seen@.push(name)),
            is_ident_binary(expr_kind) ==> (r matches Ok(o) && o == expr_kind),
            is_ident_binary(expr_kind) ==> final(self).seen@ == old(self).seen@.push(
                binary_names(expr_kind).0,
            ).push(binary_names(expr_kind).1),
        decreases expr_kind_size(expr_kind),
    {
        match expr_kind {
            ExprKind::Ident(ident) => {
                match self.fold_ident(ident) {
                    Ok(i) => Ok(ExprKind::Ident(i)),
                    Err(e) => Err(e),
                }
            },
            ExprKind::Binary { op, left, right } => {
                let left = match self.fold_expr(*left) {
                    Ok(l) => l,
                    Err(e) => {
                        return Err(e);
                    },
                };
                match self.fold_expr(*right) {
                    Ok(r2) => Ok(
                        ExprKind::Binary { op, left: Box::new(left), right: Box::new(r2) },
                    ),
                    Err(e) => Err(e),
                }
            },
            ExprKind::Unary { op, expr } => {
                match self.fold_expr(*expr) {
                    Ok(x) => Ok(ExprKind::Unary { op, expr: Box::new(x) }),
                    Err(e) => Err(e),
                }
            },
            ExprKind::List(items) => {
                match self.fold_exprs(items) {
                    Ok(v) => Ok(ExprKind::List(v)),
                    Err(e) => Err(e),
                }
            },
            ExprKind::Range(range) => {
                match self.rec_range(range) {
                    Ok(rg) => Ok(ExprKind::Range(rg)),
                    Err(e) => Err(e),
                }
            },
            ExprKind::Pipeline(p) => {
                match self.fold_pipeline(p) {
                    Ok(p) => Ok(ExprKind::Pipeline(p)),
                    Err(e) => Err(e),
                }
            },
            ExprKind::SString(items) => {
                match self.rec_interpolate_items(items) {
                    Ok(v) => Ok(ExprKind::SString(v)),
                    Err(e) => Err(e),
                }
            },
            ExprKind::FString(items) => {
                match self.rec_interpolate_items(items) {
                    Ok(v) => Ok(ExprKind::FString(v)),
                    Err(e) => Err(e),
                }
            },
            ExprKind::FuncCall(func_call) => {
                match self.fold_func_call(func_call) {
                    Ok(c) => Ok(ExprKind::FuncCall(c)),
                    Err(e) => Err(e),
                }
            },
            ExprKind::FuncCurry(func_curry) => {
                match self.fold_func_curry(func_curry) {
                    Ok(c) => Ok(ExprKind::FuncCurry(c)),
                    Err(e) => Err(e),
                }
            },
            ExprKind::Windowed(window) => {
                match self.fold_windowed(window) {
                    Ok(w) => Ok(ExprKind::Windowed(w)),
                    Err(e) => Err(e),
                }
            },
            ExprKind::Type(t) => {
                match self.fold_type(t) {
                    Ok(t) => Ok(ExprKind::Type(t)),
                    Err(e) => Err(e),
                }
            },
            ExprKind::ResolvedPipeline(transforms) => {
                match self.fold_transforms(transforms) {
                    Ok(ts) => Ok(ExprKind::ResolvedPipeline(ts)),
                    Err(e) => Err(e),
                }
            },
            ExprKind::Empty => Ok(ExprKind::Empty),
            ExprKind::Literal(l) => Ok(ExprKind::Literal(l)),
            ExprKind::Interval(iv) => Ok(ExprKind::Interval(iv)),
        }
    }

    /// A list of bare identifiers is visited left to right: the record
    /// grows by exactly their names, in list order, and the list comes
    /// back unchanged.
    fn fold_exprs(&mut self, exprs: Vec<Expr>) -> (r: Result<Vec<Expr>, FoldError>)
        ensures
            all_idents(exprs@) ==> (r matches Ok(o) && o@ == exprs@ && final(self).seen@ == old(
                self,
            ).seen@ + ident_names(exprs@)),
        decreases exprs_size(exprs@),
    {
        let ghost all: Seq<Expr> = exprs@;
        let ghost seen0: Seq<Ident> = self.seen@;
        let mut rest = exprs;
        let mut out: Vec<Expr> = Vec::new();
        proof {
            assert(rest@ =~= all.skip(0));
        }
        while rest.len() > 0
            invariant
                all == exprs@,
                out@.len() + rest@.len() == all.len(),
                rest@ =~= all.skip(out@.len() as int),
                all_idents(all) ==> out@ =~= all.take(out@.len() as int) && self.seen@ =~= seen0
                    + ident_names(all).take(out@.len() as int),
            decreases rest@.len(),
        {
            let first = rest.remove(0);
            proof {
                let n = out@.len() as int;
                assert(all.skip(n).first() == all[n]);
                lemma_exprs_size_element(all, n);
                assert(rest@ =~= all.skip(n + 1));
            }
            match self.fold_expr(first) {
                Ok(w) => {
                    out.push(w);
                },
                Err(e) => {
                    return Err(e);
                },
            }
        }
        proof {
            if all_idents(all) {
                assert(out@ =~= all);
                assert(self.seen@ =~= seen0 + ident_names(all));
            }
        }
        Ok(out)
    }

    /// Recording a name appends it to the record and hands it back
    /// unchanged.
    fn fold_ident(&mut self, ident: Ident) -> (r: Result<Ident, FoldError>)
        ensures
            r == Ok::<Ident, FoldError>(ident),
            final(self).seen@ == old(self).seen@.push(ident),
        decreases 0nat,
    {
        self.seen.push(ident.clone());
        Ok(ident)
    }

    fn fold_table(&mut self, table: TableDef) -> (r: Result<TableDef, FoldError>)
        decreases table_def_size(table),
    {
        let TableDef { id, name, pipeline } = table;
        let name = match self.fold_ident(name) {
            Ok(n) => n,
            Err(e) => {
                return Err(e);
            },
        };
        match self.fold_expr(*pipeline) {
            Ok(p) => Ok(TableDef { id, name, pipeline: Box::new(p) }),
            Err(e) => Err(e),
        }
    }

    fn fold_transform(&mut self, transform: Transform) -> (r: Result<Transform, FoldError>)
        decreases transform_size(transform),
    {
        let Transform { kind, span } = transform;
        let kind = match kind {
            TransformKind::From(table) => {
                match self.fold_table_ref(table) {
                    Ok(t) => TransformKind::From(t),
                    Err(e) => {
                        return Err(e);
                    },
                }
            },
            TransformKind::Derive(assigns) => {
                match self.fold_exprs(assigns) {
                    Ok(v) => TransformKind::Derive(v),
                    Err(e) => {
                        return Err(e);
                    },
                }
            },
            TransformKind::Select(assigns) => {
                match self.fold_exprs(assigns) {
                    Ok(v) => TransformKind::Select(v),
                    Err(e) => {
                        return Err(e);
                    },
                }
            },
            TransformKind::Aggregate { assigns, by } => {
                let assigns = match self.fold_exprs(assigns) {
                    Ok(v) => v,
                    Err(e) => {
                        return Err(e);
                    },
                };
                match self.fold_exprs(by) {
                    Ok(b) => TransformKind::Aggregate { assigns, by: b },
                    Err(e) => {
                        return Err(e);
                    },
                }
            },
            TransformKind::Filter(filter) => {
                match self.fold_expr(*filter) {
                    Ok(x) => TransformKind::Filter(Box::new(x)),
                    Err(e) => {
                        return Err(e);
                    },
                }
            },
            TransformKind::Sort(items) => {
                match self.fold_column_sorts(items) {
                    Ok(v) => TransformKind::Sort(v),
                    Err(e) => {
                        return Err(e);
                    },
                }
            },
            TransformKind::Join { side, with, filter } => {
                let with = match self.fold_table_ref(with) {
                    Ok(t) => t,
                    Err(e) => {
                        return Err(e);
                    },
                };
                match self.fold_join_filter(filter) {
                    Ok(jf) => TransformKind::Join { side, with, filter: jf },
                    Err(e) => {
                        return Err(e);
                    },
                }
            },
            TransformKind::Group { by, pipeline } => {
                let by = match self.fold_exprs(by) {
                    Ok(v) => v,
                    Err(e) => {
                        return Err(e);
                    },
                };
                match self.fold_transforms(pipeline) {
                    Ok(p) => TransformKind::Group { by, pipeline: p },
                    Err(e) => {
                        return Err(e);
                    },
                }
            },
            TransformKind::Window { kind, range, pipeline } => {
                let range = match self.rec_range(range) {
                    Ok(rg) => rg,
                    Err(e) => {
                        return Err(e);
                    },
                };
                match self.fold_transforms(pipeline) {
                    Ok(p) => TransformKind::Window { kind, range, pipeline: p },
                    Err(e) => {
                        return Err(e);
                    },
                }
            },
            TransformKind::Take { range, by, sort } => {
                let range = match self.rec_range(range) {
                    Ok(rg) => rg,
                    Err(e) => {
                        return Err(e);
                    },
                };
                let by = match self.fold_exprs(by) {
                    Ok(v) => v,
                    Err(e) => {
                        return Err(e);
                    },
                };
                match self.fold_column_sorts(sort) {
                    Ok(s) => TransformKind::Take { range, by, sort: s },
                    Err(e) => {
                        return Err(e);
                    },
                }
            },
            TransformKind::Unique => TransformKind::Unique,
        };
        Ok(Transform { kind, span })
    }

    fn fold_transforms(&mut self, transforms: Vec<Transform>) -> (r: Result<
        Vec<Transform>,
        FoldError,
    >)
        decreases transforms_size(transforms@),
    {
        let ghost all: Seq<Transform> = transforms@;
        let mut rest = transforms;
        let mut out: Vec<Transform> = Vec::new();
        proof {
            assert(rest@ =~= all.skip(0));
        }
        while rest.len() > 0
            invariant
                all == transforms@,
                out@.len() + rest@.len() == all.len(),
                rest@ =~= all.skip(out@.len() as int),
            decreases rest@.len(),
        {
            let first = rest.remove(0);
            proof {
                let n = out@.len() as int;
                assert(all.skip(n).first() == all[n]);
                lemma_transforms_size_element(all, n);
                assert(rest@ =~= all.skip(n + 1));
            }
            match self.fold_transform(first) {
                Ok(w) => out.push(w),
                Err(e) => {
                    return Err(e);
                },
            }
        }
        Ok(out)
    }

    /// The stages of a pipeline of identifiers are visited in pipeline
    /// order: the record grows by their names, left to right.
    fn fold_pipeline(&mut self, pipeline: Pipeline) -> (r: Result<Pipeline, FoldError>)
        ensures
            all_idents(pipeline.exprs@) ==> (r matches Ok(o) && o.exprs@ == pipeline.exprs@
                && final(self).seen@ == old(self).seen@ + ident_names(pipeline.exprs@)),
        decreases pipeline_size(pipeline),
    {
        let Pipeline { exprs } = pipeline;
        match self.fold_exprs(exprs) {
            Ok(v) => Ok(Pipeline { exprs: v }),
            Err(e) => Err(e),
        }
    }

    fn fold_func_def(&mut self, function: FuncDef) -> (r: Result<FuncDef, FoldError>)
        decreases func_def_size(function),
    {
        let FuncDef { name, positional_params, named_params, body, return_ty } = function;
        let name = match self.fold_ident(name) {
            Ok(n) => n,
            Err(e) => {
                return Err(e);
            },
        };
        let positional_params = match self.rec_func_params(positional_params) {
            Ok(p) => p,
            Err(e) => {
                return Err(e);
            },
        };
        let named_params = match self.rec_func_params(named_params) {
            Ok(p) => p,
            Err(e) => {
                return Err(e);
            },
        };
        match self.fold_expr(*body) {
            Ok(b) => Ok(
                FuncDef { name, positional_params, named_params, body: Box::new(b), return_ty },
            ),
            Err(e) => Err(e),
        }
    }

    fn fold_func_call(&mut self, func_call: FuncCall) -> (r: Result<FuncCall, FoldError>)
        decreases func_call_size(func_call),
    {
        let FuncCall { name, args, named_args } = func_call;
        let args = match self.fold_exprs(args) {
            Ok(v) => v,
            Err(e) => {
                return Err(e);
            },
        };
        match self.rec_named_args(named_args) {
            Ok(na) => Ok(FuncCall { name, args, named_args: na }),
            Err(e) => Err(e),
        }
    }

    fn fold_func_curry(&mut self, func_curry: FuncCurry) -> (r: Result<FuncCurry, FoldError>)
        decreases func_curry_size(func_curry),
    {
        let FuncCurry { def_id, args, named_args } = func_curry;
        let args = match self.fold_exprs(args) {
            Ok(v) => v,
            Err(e) => {
                return Err(e);
            },
        };
        match self.rec_opt_exprs(named_args) {
            Ok(na) => Ok(FuncCurry { def_id, args, named_args: na }),
            Err(e) => Err(e),
        }
    }

    fn fold_table_ref(&mut self, table_ref: TableRef) -> (r: Result<TableRef, FoldError>)
        decreases table_ref_size(table_ref),
    {
        let TableRef { name, alias, id } = table_ref;
        let name = match self.fold_ident(name) {
            Ok(n) => n,
            Err(e) => {
                return Err(e);
            },
        };
        let alias = match alias {
            Option::None => Option::None,
            Option::Some(a) => {
                match self.fold_ident(a) {
                    Ok(a2) => Option::Some(a2),
                    Err(e) => {
                        return Err(e);
                    },
                }
            },
        };
        Ok(TableRef { name, alias, id })
    }

    fn fold_interpolate_item(&mut self, sstring_item: InterpolateItem) -> (r: Result<
        InterpolateItem,
        FoldError,
    >)
        decreases interpolate_item_size(sstring_item),
    {
        match sstring_item {
            InterpolateItem::Text(s) => Ok(InterpolateItem::Text(s)),
            InterpolateItem::Expr(expr) => {
                match self.fold_expr(*expr) {
                    Ok(x) => Ok(InterpolateItem::Expr(Box::new(x))),
                    Err(e) => Err(e),
                }
            },
        }
    }

    fn fold_column_sort(&mut self, column_sort: ColumnSort) -> (r: Result<ColumnSort, FoldError>)
        decreases column_sort_size(column_sort),
    {
        let ColumnSort { direction, column } = column_sort;
        match self.fold_expr(column) {
            Ok(c) => Ok(ColumnSort { direction, column: c }),
            Err(e) => Err(e),
        }
    }

    fn fold_column_sorts(&mut self, columns: Vec<ColumnSort>) -> (r: Result<
        Vec<ColumnSort>,
        FoldError,
    >)
        decreases column_sorts_size(columns@),
    {
        let ghost all: Seq<ColumnSort> = columns@;
        let mut rest = columns;
        let mut out: Vec<ColumnSort> = Vec::new();
        proof {
            assert(rest@ =~= all.skip(0));
        }
        while rest.len() > 0
            invariant
                all == columns@,
                out@.len() + rest@.len() == all.len(),
                rest@ =~= all.skip(out@.len() as int),
            decreases rest@.len(),
        {
            let first = rest.remove(0);
            proof {
                let n = out@.len() as int;
                assert(all.skip(n).first() == all[n]);
                lemma_column_sorts_size_element(all, n);
                assert(rest@ =~= all.skip(n + 1));
            }
            match self.fold_column_sort(first) {
                Ok(w) => out.push(w),
                Err(e) => {
                    return Err(e);
                },
            }
        }
        Ok(out)
    }

    fn fold_join_filter(&mut self, filter: JoinFilter) -> (r: Result<JoinFilter, FoldError>)
        decreases join_filter_size(filter),
    {
        match filter {
            JoinFilter::On(nodes) => {
                match self.fold_exprs(nodes) {
                    Ok(v) => Ok(JoinFilter::On(v)),
                    Err(e) => Err(e),
                }
            },
            JoinFilter::Using(nodes) => {
                match self.fold_exprs(nodes) {
                    Ok(v) => Ok(JoinFilter::Using(v)),
                    Err(e) => Err(e),
                }
            },
        }
    }

    fn fold_type(&mut self, ty: Ty) -> (r: Result<Ty, FoldError>)
        decreases ty_size(ty),
    {
        match ty {
            Ty::Literal(l) => Ok(Ty::Literal(l)),
            Ty::Named(n) => Ok(Ty::Named(n)),
            Ty::Parameterized(t, p) => {
                let t = match self.fold_type(*t) {
                    Ok(t2) => t2,
                    Err(e) => {
                        return Err(e);
                    },
                };
                match self.fold_expr(*p) {
                    Ok(x) => Ok(Ty::Parameterized(Box::new(t), Box::new(x))),
                    Err(e) => Err(e),
                }
            },
            Ty::AnyOf(ts) => {
                match self.rec_tys(ts) {
                    Ok(v) => Ok(Ty::AnyOf(v)),
                    Err(e) => Err(e),
                }
            },
            Ty::Infer => Ok(Ty::Infer),
        }
    }

    fn fold_windowed(&mut self, windowed: Windowed) -> (r: Result<Windowed, FoldError>)
        decreases windowed_size(windowed),
    {
        let Windowed { expr, group, sort, window: frame } = windowed;
        let expr = match self.fold_expr(*expr) {
            Ok(x) => x,
            Err(e) => {
                return Err(e);
            },
        };
        let group = match self.fold_exprs(group) {
            Ok(g) => g,
            Err(e) => {
                return Err(e);
            },
        };
        let sort = match self.fold_column_sorts(sort) {
            Ok(s) => s,
            Err(e) => {
                return Err(e);
            },
        };
        let (kind, range) = frame;
        match self.rec_range(range) {
            Ok(rg) => Ok(Windowed { expr: Box::new(expr), group, sort, window: (kind, rg) }),
            Err(e) => Err(e),
        }
    }

    fn fold_query(&mut self, query: Query) -> (r: Result<Query, FoldError>)
        decreases query_size(query),
    {
        let Query { def, main_pipeline, tables } = query;
        let main_pipeline = match self.fold_transforms(main_pipeline) {
            Ok(ts) => ts,
            Err(e) => {
                return Err(e);
            },
        };
        match self.rec_tables(tables) {
            Ok(t) => Ok(Query { def, main_pipeline, tables: t }),
            Err(e) => Err(e),
        }
    }
}

} // verus!
