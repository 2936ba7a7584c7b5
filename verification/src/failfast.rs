//! A pass that fails on one designated name and records every name it
//! visits. Its contracts state the fail-fast law of the default
//! recursion on lists of identifiers: the first failure in visitation
//! order is the error of the whole fold, and no element after the
//! failing one is ever visited — the record stops exactly before the
//! first hit.

use vstd::prelude::*;
use crate::ast::{Expr, ExprKind, Range, Pipeline, InterpolateItem, Windowed, ColumnSort, FuncDef,
    FuncParam, FuncCall, FuncCurry, Stmt, StmtKind, TableDef, Transform, TransformKind, JoinFilter,
    TableRef, Query, Table, Ty, Ident, FoldError};
use crate::size::{expr_size, expr_kind_size, exprs_size, opt_box_expr_size, range_size,
    pipeline_size, interpolate_item_size, interpolate_items_size, column_sort_size,
    column_sorts_size, windowed_size, func_params_size, func_def_size, func_call_size,
    named_args_size, func_curry_size, opt_exprs_size, ty_size, tys_size, table_def_size,
    stmt_kind_size, stmt_size, stmts_size, table_ref_size, join_filter_size, transform_size,
    transforms_size, tables_size, query_size, lemma_exprs_size_element,
    lemma_interpolate_items_size_element, lemma_column_sorts_size_element,
    lemma_func_params_size_element, lemma_named_args_size_element, lemma_opt_exprs_size_element,
    lemma_tys_size_element, lemma_stmts_size_element, lemma_transforms_size_element,
    lemma_tables_size_element};
use crate::fold::AstFold;
use crate::record::{all_idents, ident_names};

verus! {

/// The position of the first name that reads the same as `bad`, or the
/// length of the list when no name does.
pub open spec fn first_hit(names: Seq<Ident>, bad: Ident) -> int
    decreases names.len(),
{
    if names.len() == 0 {
        0
    } else if names.first()@ == bad@ {
        0
    } else {
        1 + first_hit(names.drop_first(), bad)
    }
}

/// What `first_hit` returns: an index within the list bounds, clean
/// before it, and a hit at it unless there is none at all.
pub proof fn lemma_first_hit(names: Seq<Ident>, bad: Ident)
    ensures
        0 <= first_hit(names, bad) <= names.len(),
        first_hit(names, bad) < names.len() ==> names[first_hit(names, bad)]@ == bad@,
        forall|j: int| 0 <= j < first_hit(names, bad) ==> names[j]@ != bad@,
    decreases names.len(),
{
    if names.len() > 0 && names.first()@ != bad@ {
        lemma_first_hit(names.drop_first(), bad);
        let k = first_hit(names, bad);
        assert(names[0] == names.first());
        assert forall|j: int| 0 <= j < k implies names[j]@ != bad@ by {
            if j > 0 {
                assert(names.drop_first()[j - 1] == names[j]);
            }
        }
        if k < names.len() {
            assert(names.drop_first()[k - 1] == names[k]);
        }
    }
}

/// The pass that fails on one name. `fold_ident` raises an error
/// carrying the designated name when it meets it, and otherwise records
/// the name and returns it unchanged; every other category performs the
/// default structural recursion, so the error of the first hit in
/// visitation order aborts the whole fold.
pub struct HaltOnName {
    pub bad: Ident,
    pub seen: Vec<Ident>,
}

impl HaltOnName {
    fn rec_opt_box(&mut self, opt: Option<Box<Expr>>) -> (r: Result<Option<Box<Expr>>, FoldError>)
        ensures
            final(self).bad == old(self).bad,
        decreases opt_box_expr_size(opt),
    {
        match opt {
            Option::None => Ok(Option::None),
            Option::Some(n) => {
                match self.fold_expr(*n) {
                    Ok(x) => Ok(Option::Some(Box::new(x))),
                    Err(e) => Err(e),
                }
            },
        }
    }

    fn rec_range(&mut self, range: Range) -> (r: Result<Range, FoldError>)
        ensures
            final(self).bad == old(self).bad,
        decreases range_size(range),
    {
        let Range { start, end } = range;
        let start = match self.rec_opt_box(start) {
            Ok(s) => s,
            Err(e) => {
                return Err(e);
            },
        };
        match self.rec_opt_box(end) {
            Ok(en) => Ok(Range { start, end: en }),
            Err(e) => Err(e),
        }
    }

    fn rec_interpolate_items(&mut self, items: Vec<InterpolateItem>) -> (r: Result<
        Vec<InterpolateItem>,
        FoldError,
    >)
        ensures
            final(self).bad == old(self).bad,
        decreases interpolate_items_size(items@),
    {
        let ghost all: Seq<InterpolateItem> = items@;
        let mut rest = items;
        let mut out: Vec<InterpolateItem> = Vec::new();
        proof {
            assert(rest@ =~= all.skip(0));
        }
        while rest.len() > 0
            invariant
                self.bad == old(self).bad,
                all == items@,
                out@.len() + rest@.len() == all.len(),
                rest@ =~= all.skip(out@.len() as int),
            decreases rest@.len(),
        {
            let first = rest.remove(0);
            proof {
                let n = out@.len() as int;
                assert(all.skip(n).first() == all[n]);
                lemma_interpolate_items_size_element(all, n);
                assert(rest@ =~= all.skip(n + 1));
            }
            match self.fold_interpolate_item(first) {
                Ok(w) => out.push(w),
                Err(e) => {
                    return Err(e);
                },
            }
        }
        Ok(out)
    }

    fn rec_named_args(&mut self, named_args: Vec<(Ident, Expr)>) -> (r: Result<
        Vec<(Ident, Expr)>,
        FoldError,
    >)
        ensures
            final(self).bad == old(self).bad,
        decreases named_args_size(named_args@),
    {
        let ghost all: Seq<(Ident, Expr)> = named_args@;
        let mut rest = named_args;
        let mut out: Vec<(Ident, Expr)> = Vec::new();
        proof {
            assert(rest@ =~= all.skip(0));
        }
        while rest.len() > 0
            invariant
                self.bad == old(self).bad,
                all == named_args@,
                out@.len() + rest@.len() == all.len(),
                rest@ =~= all.skip(out@.len() as int),
            decreases rest@.len(),
        {
            let first = rest.remove(0);
            proof {
                let n = out@.len() as int;
                assert(all.skip(n).first() == all[n]);
                lemma_named_args_size_element(all, n);
                assert(rest@ =~= all.skip(n + 1));
            }
            let (arg_name, expr) = first;
            match self.fold_expr(expr) {
                Ok(w) => out.push((arg_name, w)),
                Err(e) => {
                    return Err(e);
                },
            }
        }
        Ok(out)
    }

    fn rec_opt_exprs(&mut self, slots: Vec<Option<Expr>>) -> (r: Result<
        Vec<Option<Expr>>,
        FoldError,
    >)
        ensures
            final(self).bad == old(self).bad,
        decreases opt_exprs_size(slots@),
    {
        let ghost all: Seq<Option<Expr>> = slots@;
        let mut rest = slots;
        let mut out: Vec<Option<Expr>> = Vec::new();
        proof {
            assert(rest@ =~= all.skip(0));
        }
        while rest.len() > 0
            invariant
                self.bad == old(self).bad,
                all == slots@,
                out@.len() + rest@.len() == all.len(),
                rest@ =~= all.skip(out@.len() as int),
            decreases rest@.len(),
        {
            let first = rest.remove(0);
            proof {
                let n = out@.len() as int;
                assert(all.skip(n).first() == all[n]);
                lemma_opt_exprs_size_element(all, n);
                assert(rest@ =~= all.skip(n + 1));
            }
            match first {
                Option::None => out.push(Option::None),
                Option::Some(expr) => {
                    match self.fold_expr(expr) {
                        Ok(w) => out.push(Option::Some(w)),
                        Err(e) => {
                            return Err(e);
                        },
                    }
                },
            }
        }
        Ok(out)
    }

    fn rec_func_params(&mut self, nodes: Vec<FuncParam>) -> (r: Result<Vec<FuncParam>, FoldError>)
        ensures
            final(self).bad == old(self).bad,
        decreases func_params_size(nodes@),
    {
        let ghost all: Seq<FuncParam> = nodes@;
        let mut rest = nodes;
        let mut out: Vec<FuncParam> = Vec::new();
        proof {
            assert(rest@ =~= all.skip(0));
        }
        while rest.len() > 0
            invariant
                self.bad == old(self).bad,
                all == nodes@,
                out@.len() + rest@.len() == all.len(),
                rest@ =~= all.skip(out@.len() as int),
            decreases rest@.len(),
        {
            let first = rest.remove(0);
            proof {
                let n = out@.len() as int;
                assert(all.skip(n).first() == all[n]);
                lemma_func_params_size_element(all, n);
                assert(rest@ =~= all.skip(n + 1));
            }
            let FuncParam { name, ty, default_value } = first;
            match default_value {
                Option::None => out.push(FuncParam { name, ty, default_value: Option::None }),
                Option::Some(expr) => {
                    match self.fold_expr(expr) {
                        Ok(w) => out.push(
                            FuncParam { name, ty, default_value: Option::Some(w) },
                        ),
                        Err(e) => {
                            return Err(e);
                        },
                    }
                },
            }
        }
        Ok(out)
    }

    fn rec_tys(&mut self, members: Vec<Ty>) -> (r: Result<Vec<Ty>, FoldError>)
        ensures
            final(self).bad == old(self).bad,
        decreases tys_size(members@),
    {
        let ghost all: Seq<Ty> = members@;
        let mut rest = members;
        let mut out: Vec<Ty> = Vec::new();
        proof {
            assert(rest@ =~= all.skip(0));
        }
        while rest.len() > 0
            invariant
                self.bad == old(self).bad,
                all == members@,
                out@.len() + rest@.len() == all.len(),
                rest@ =~= all.skip(out@.len() as int),
            decreases rest@.len(),
        {
            let first = rest.remove(0);
            proof {
                let n = out@.len() as int;
                assert(all.skip(n).first() == all[n]);
                lemma_tys_size_element(all, n);
                assert(rest@ =~= all.skip(n + 1));
            }
            match self.fold_type(first) {
                Ok(w) => out.push(w),
                Err(e) => {
                    return Err(e);
                },
            }
        }
        Ok(out)
    }

    fn rec_tables(&mut self, tables: Vec<Table>) -> (r: Result<Vec<Table>, FoldError>)
        ensures
            final(self).bad == old(self).bad,
        decreases tables_size(tables@),
    {
        let ghost all: Seq<Table> = tables@;
        let mut rest = tables;
        let mut out: Vec<Table> = Vec::new();
        proof {
            assert(rest@ =~= all.skip(0));
        }
        while rest.len() > 0
            invariant
                self.bad == old(self).bad,
                all == tables@,
                out@.len() + rest@.len() == all.len(),
                rest@ =~= all.skip(out@.len() as int),
            decreases rest@.len(),
        {
            let first = rest.remove(0);
            proof {
                let n = out@.len() as int;
                assert(all.skip(n).first() == all[n]);
                lemma_tables_size_element(all, n);
                assert(rest@ =~= all.skip(n + 1));
            }
            let Table { id, name, pipeline } = first;
            match self.fold_transforms(pipeline) {
                Ok(ts) => out.push(Table { id, name, pipeline: ts }),
                Err(e) => {
                    return Err(e);
                },
            }
        }
        Ok(out)
    }

    fn rec_stmt_kind(&mut self, stmt_kind: StmtKind) -> (r: Result<StmtKind, FoldError>)
        ensures
            final(self).bad == old(self).bad,
        decreases stmt_kind_size(stmt_kind),
    {
        match stmt_kind {
            StmtKind::FuncDef(func) => {
                match self.fold_func_def(func) {
                    Ok(fd) => Ok(StmtKind::FuncDef(fd)),
                    Err(e) => Err(e),
                }
            },
            StmtKind::TableDef(table) => {
                match self.fold_table(table) {
                    Ok(t) => Ok(StmtKind::TableDef(t)),
                    Err(e) => Err(e),
                }
            },
            StmtKind::Pipeline(exprs) => {
                match self.fold_exprs(exprs) {
                    Ok(v) => Ok(StmtKind::Pipeline(v)),
                    Err(e) => Err(e),
                }
            },
            StmtKind::QueryDef(d) => Ok(StmtKind::QueryDef(d)),
        }
    }
}

impl AstFold for HaltOnName {
    fn fold_stmt(&mut self, stmt: Stmt) -> (r: Result<Stmt, FoldError>)
        ensures
            final(self).bad == old(self).bad,
        decreases stmt_size(stmt),
    {
        let Stmt { kind, span } = stmt;
        match self.rec_stmt_kind(kind) {
            Ok(kind) => Ok(Stmt { kind, span }),
            Err(e) => Err(e),
        }
    }

    fn fold_stmts(&mut self, stmts: Vec<Stmt>) -> (r: Result<Vec<Stmt>, FoldError>)
        ensures
            final(self).bad == old(self).bad,
        decreases stmts_size(stmts@),
    {
        let ghost all: Seq<Stmt> = stmts@;
        let mut rest = stmts;
        let mut out: Vec<Stmt> = Vec::new();
        proof {
            assert(rest@ =~= all.skip(0));
        }
        while rest.len() > 0
            invariant
                self.bad == old(self).bad,
                all == stmts@,
                out@.len() + rest@.len() == all.len(),
                rest@ =~= all.skip(out@.len() as int),
            decreases rest@.len(),
        {
            let first = rest.remove(0);
            proof {
                let n = out@.len() as int;
                assert(all.skip(n).first() == all[n]);
                lemma_stmts_size_element(all, n);
                assert(rest@ =~= all.skip(n + 1));
            }
            match self.fold_stmt(first) {
                Ok(w) => out.push(w),
                Err(e) => {
                    return Err(e);
                },
            }
        }
        Ok(out)
    }

    /// On a bare identifier other than the designated name, the record
    /// grows by that name and the expression comes back unchanged; on
    /// the designated name the fold fails with an error carrying it,
    /// and records nothing.
    fn fold_expr(&mut self, expr: Expr) -> (r: Result<Expr, FoldError>)
        ensures
            final(self).bad == old(self).bad,
            expr.kind matches ExprKind::Ident(name) ==> (name@ != old(self).bad@ ==> (r == Ok::<
                Expr,
                FoldError,
            >(expr) && final(self).seen@ == old(self).seen@.push(name))),
            expr.kind matches ExprKind::Ident(name) ==> (name@ == old(self).bad@ ==> (r matches
                Err(e) && e.msg == old(self).bad && final(self).seen@ == old(self).seen@)),
        decreases expr_size(expr),
    {
        let Expr { kind, span } = expr;
        match self.fold_expr_kind(kind) {
            Ok(kind) => Ok(Expr { kind, span }),
            Err(e) => Err(e),
        }
    }

    /// A bare identifier either passes through, recorded, or raises the
    /// designated error; composite forms propagate the first failure of
    /// their children unchanged.
    fn fold_expr_kind(&mut self, expr_kind: ExprKind) -> (r: Result<ExprKind, FoldError>)
        ensures
            final(self).bad == old(self).bad,
            expr_kind matches ExprKind::Ident(name) ==> (name@ != old(self).bad@ ==> (r == Ok::<
                ExprKind,
                FoldError,
            >(expr_kind) && final(self).seen@ == old(self).seen@.push(name))),
            expr_kind matches ExprKind::Ident(name) ==> (name@ == old(self).bad@ ==> (r matches
                Err(e) && e.msg == old(self).bad && final(self).seen@ == old(self).seen@)),
        decreases expr_kind_size(expr_kind),
    {
        match expr_kind {
            ExprKind::Ident(ident) => {
                match self.fold_ident(ident) {
                    Ok(i) => Ok(ExprKind::Ident(i)),
                    Err(e) => Err(e),
                }
            },
            ExprKind::Binary { op, left, right } => {
                let left = match self.fold_expr(*left) {
                    Ok(l) => l,
                    Err(e) => {
                        return Err(e);
                    },
                };
                match self.fold_expr(*right) {
                    Ok(r2) => Ok(
                        ExprKind::Binary { op, left: Box::new(left), right: Box::new(r2) },
                    ),
                    Err(e) => Err(e),
                }
            },
            ExprKind::Unary { op, expr } => {
                match self.fold_expr(*expr) {
                    Ok(x) => Ok(ExprKind::Unary { op, expr: Box::new(x) }),
                    Err(e) => Err(e),
                }
            },
            ExprKind::List(items) => {
                match self.fold_exprs(items) {
                    Ok(v) => Ok(ExprKind::List(v)),
                    Err(e) => Err(e),
                }
            },
            ExprKind::Range(range) => {
                match self.rec_range(range) {
                    Ok(rg) => Ok(ExprKind::Range(rg)),
                    Err(e) => Err(e),
                }
            },
            ExprKind::Pipeline(p) => {
                match self.fold_pipeline(p) {
                    Ok(p) => Ok(ExprKind::Pipeline(p)),
                    Err(e) => Err(e),
                }
            },
            ExprKind::SString(items) => {
                match self.rec_interpolate_items(items) {
                    Ok(v) => Ok(ExprKind::SString(v)),
                    Err(e) => Err(e),
                }
            },
            ExprKind::FString(items) => {
                match self.rec_interpolate_items(items) {
                    Ok(v) => Ok(ExprKind::FString(v)),
                    Err(e) => Err(e),
                }
            },
            ExprKind::FuncCall(func_call) => {
                match self.fold_func_call(func_call) {
                    Ok(c) => Ok(ExprKind::FuncCall(c)),
                    Err(e) => Err(e),
                }
            },
            ExprKind::FuncCurry(func_curry) => {
                match self.fold_func_curry(func_curry) {
                    Ok(c) => Ok(ExprKind::FuncCurry(c)),
                    Err(e) => Err(e),
                }
            },
            ExprKind::Windowed(window) => {
                match self.fold_windowed(window) {
                    Ok(w) => Ok(ExprKind::Windowed(w)),
                    Err(e) => Err(e),
                }
            },
            ExprKind::Type(t) => {
                match self.fold_type(t) {
                    Ok(t) => Ok(ExprKind::Type(t)),
                    Err(e) => Err(e),
                }
            },
            ExprKind::ResolvedPipeline(transforms) => {
                match self.fold_transforms(transforms) {
                    Ok(ts) => Ok(ExprKind::ResolvedPipeline(ts)),
                    Err(e) => Err(e),
                }
            },
            ExprKind::Empty => Ok(ExprKind::Empty),
            ExprKind::Literal(l) => Ok(ExprKind::Literal(l)),
            ExprKind::Interval(iv) => Ok(ExprKind::Interval(iv)),
        }
    }

    /// Over a list of bare identifiers the fold is fail-fast: if no
    /// stage carries the designated name the whole list comes back
    /// unchanged with every name recorded; otherwise the error of the
    /// first hit in visitation order is the error of the whole fold,
    /// exactly the names before it are recorded, and no element after
    /// it is ever visited.
    fn fold_exprs(&mut self, exprs: Vec<Expr>) -> (r: Result<Vec<Expr>, FoldError>)
        ensures
            final(self).bad == old(self).bad,
            all_idents(exprs@) && first_hit(ident_names(exprs@), old(self).bad)
                == exprs@.len() ==> (r matches Ok(o) && o@ == exprs@ && final(self).seen@ == old(self).seen@ + ident_names(exprs@)),
            all_idents(exprs@) && first_hit(ident_names(exprs@), old(self).bad)
                < exprs@.len() ==> (r matches Err(e) && e.msg == old(self).bad && final(self).seen@ == old(self).seen@ + ident_names(exprs@).take(
                first_hit(ident_names(exprs@), old(self).bad),
            )),
        decreases exprs_size(exprs@),
    {
        let ghost all: Seq<Expr> = exprs@;
        let ghost seen0: Seq<Ident> = self.seen@;
        let ghost names: Seq<Ident> = ident_names(all);
        let mut rest = exprs;
        let mut out: Vec<Expr> = Vec::new();
        proof {
            assert(rest@ =~= all.skip(0));
        }
        while rest.len() > 0
            invariant
                self.bad == old(self).bad,
                all == exprs@,
                seen0 == old(self).seen@,
                names == ident_names(all),
                out@.len() + rest@.len() == all.len(),
                rest@ =~= all.skip(out@.len() as int),
                all_idents(all) ==> out@ =~= all.take(out@.len() as int) && self.seen@ =~= seen0
                    + names.take(out@.len() as int) && (forall|j: int|
                    0 <= j < out@.len() ==> (#[trigger] names[j])@ != old(self).bad@),
            decreases rest@.len(),
        {
            let first = rest.remove(0);
            proof {
                let n = out@.len() as int;
                assert(all.skip(n).first() == all[n]);
                lemma_exprs_size_element(all, n);
                assert(rest@ =~= all.skip(n + 1));
            }
            match self.fold_expr(first) {
                Ok(w) => {
                    out.push(w);
                },
                Err(e) => {
                    proof {
                        if all_idents(all) {
                            let n = out@.len() as int;
                            assert(all[n].kind is Ident);
                            assert(names[n] == all[n].kind->Ident_0);
                            assert(names[n]@ == old(self).bad@);
                            lemma_first_hit(names, old(self).bad);
                            assert(first_hit(names, old(self).bad) == n);
                            assert(self.seen@ =~= seen0 + names.take(n));
                        }
                    }
                    return Err(e);
                },
            }
        }
        proof {
            if all_idents(all) {
                lemma_first_hit(names, old(self).bad);
                assert(out@ =~= all);
                assert(names.take(all.len() as int) =~= names);
                assert(self.seen@ =~= seen0 + names);
                assert(first_hit(names, old(self).bad) == all.len());
            }
        }
        Ok(out)
    }

    /// Recording a name appends it to the record and hands it back
    /// unchanged.
    fn fold_ident(&mut self, ident: Ident) -> (r: Result<Ident, FoldError>)
        ensures
            final(self).bad == old(self).bad,
            ident@ != old(self).bad@ ==> (r == Ok::<Ident, FoldError>(ident) && final(self).seen@ == old(self).seen@.push(ident)),
            ident@ == old(self).bad@ ==> (r matches Err(e) && e.msg == old(self).bad
                && final(self).seen@ == old(self).seen@),
        decreases 0nat,
    {
        if ident == self.bad {
            return Err(FoldError { msg: self.bad.clone() });
        }
        self.seen.push(ident.clone());
        Ok(ident)
    }

    fn fold_table(&mut self, table: TableDef) -> (r: Result<TableDef, FoldError>)
        ensures
            final(self).bad == old(self).bad,
        decreases table_def_size(table),
    {
        let TableDef { id, name, pipeline } = table;
        let name = match self.fold_ident(name) {
            Ok(n) => n,
            Err(e) => {
                return Err(e);
            },
        };
        match self.fold_expr(*pipeline) {
            Ok(p) => Ok(TableDef { id, name, pipeline: Box::new(p) }),
            Err(e) => Err(e),
        }
    }

    fn fold_transform(&mut self, transform: Transform) -> (r: Result<Transform, FoldError>)
        ensures
            final(self).bad == old(self).bad,
        decreases transform_size(transform),
    {
        let Transform { kind, span } = transform;
        let kind = match kind {
            TransformKind::From(table) => {
                match self.fold_table_ref(table) {
                    Ok(t) => TransformKind::From(t),
                    Err(e) => {
                        return Err(e);
                    },
                }
            },
            TransformKind::Derive(assigns) => {
                match self.fold_exprs(assigns) {
                    Ok(v) => TransformKind::Derive(v),
                    Err(e) => {
                        return Err(e);
                    },
                }
            },
            TransformKind::Select(assigns) => {
                match self.fold_exprs(assigns) {
                    Ok(v) => TransformKind::Select(v),
                    Err(e) => {
                        return Err(e);
                    },
                }
            },
            TransformKind::Aggregate { assigns, by } => {
                let assigns = match self.fold_exprs(assigns) {
                    Ok(v) => v,
                    Err(e) => {
                        return Err(e);
                    },
                };
                match self.fold_exprs(by) {
                    Ok(b) => TransformKind::Aggregate { assigns, by: b },
                    Err(e) => {
                        return Err(e);
                    },
                }
            },
            TransformKind::Filter(filter) => {
                match self.fold_expr(*filter) {
                    Ok(x) => TransformKind::Filter(Box::new(x)),
                    Err(e) => {
                        return Err(e);
                    },
                }
            },
            TransformKind::Sort(items) => {
                match self.fold_column_sorts(items) {
                    Ok(v) => TransformKind::Sort(v),
                    Err(e) => {
                        return Err(e);
                    },
                }
            },
            TransformKind::Join { side, with, filter } => {
                let with = match self.fold_table_ref(with) {
                    Ok(t) => t,
                    Err(e) => {
                        return Err(e);
                    },
                };
                match self.fold_join_filter(filter) {
                    Ok(jf) => TransformKind::Join { side, with, filter: jf },
                    Err(e) => {
                        return Err(e);
                    },
                }
            },
            TransformKind::Group { by, pipeline } => {
                let by = match self.fold_exprs(by) {
                    Ok(v) => v,
                    Err(e) => {
                        return Err(e);
                    },
                };
                match self.fold_transforms(pipeline) {
                    Ok(p) => TransformKind::Group { by, pipeline: p },
                    Err(e) => {
                        return Err(e);
                    },
                }
            },
            TransformKind::Window { kind, range, pipeline } => {
                let range = match self.rec_range(range) {
                    Ok(rg) => rg,
                    Err(e) => {
                        return Err(e);
                    },
                };
                match self.fold_transforms(pipeline) {
                    Ok(p) => TransformKind::Window { kind, range, pipeline: p },
                    Err(e) => {
                        return Err(e);
                    },
                }
            },
            TransformKind::Take { range, by, sort } => {
                let range = match self.rec_range(range) {
                    Ok(rg) => rg,
                    Err(e) => {
                        return Err(e);
                    },
                };
                let by = match self.fold_exprs(by) {
                    Ok(v) => v,
                    Err(e) => {
                        return Err(e);
                    },
                };
                match self.fold_column_sorts(sort) {
                    Ok(s) => TransformKind::Take { range, by, sort: s },
                    Err(e) => {
                        return Err(e);
                    },
                }
            },
            TransformKind::Unique => TransformKind::Unique,
        };
        Ok(Transform { kind, span })
    }

    fn fold_transforms(&mut self, transforms: Vec<Transform>) -> (r: Result<
        Vec<Transform>,
        FoldError,
    >)
        ensures
            final(self).bad == old(self).bad,
        decreases transforms_size(transforms@),
    {
        let ghost all: Seq<Transform> = transforms@;
        let mut rest = transforms;
        let mut out: Vec<Transform> = Vec::new();
        proof {
            assert(rest@ =~= all.skip(0));
        }
        while rest.len() > 0
            invariant
                self.bad == old(self).bad,
                all == transforms@,
                out@.len() + rest@.len() == all.len(),
                rest@ =~= all.skip(out@.len() as int),
            decreases rest@.len(),
        {
            let first = rest.remove(0);
            proof {
                let n = out@.len() as int;
                assert(all.skip(n).first() == all[n]);
                lemma_transforms_size_element(all, n);
                assert(rest@ =~= all.skip(n + 1));
            }
            match self.fold_transform(first) {
                Ok(w) => out.push(w),
                Err(e) => {
                    return Err(e);
                },
            }
        }
        Ok(out)
    }

    /// The fail-fast law on a pipeline of identifiers: the first hit in
    /// stage order aborts the fold with its error, and no later stage is
    /// visited.
    fn fold_pipeline(&mut self, pipeline: Pipeline) -> (r: Result<Pipeline, FoldError>)
        ensures
            final(self).bad == old(self).bad,
            all_idents(pipeline.exprs@) && first_hit(
                ident_names(pipeline.exprs@),
                old(self).bad,
            ) == pipeline.exprs@.len() ==> (r matches Ok(o) && o.exprs@ == pipeline.exprs@
                && final(self).seen@ == old(self).seen@ + ident_names(
                pipeline.exprs@,
            )),
            all_idents(pipeline.exprs@) && first_hit(
                ident_names(pipeline.exprs@),
                old(self).bad,
            ) < pipeline.exprs@.len() ==> (r matches Err(e) && e.msg == old(self).bad && final(self).seen@ == old(self).seen@ + ident_names(pipeline.exprs@).take(
                first_hit(ident_names(pipeline.exprs@), old(self).bad),
            )),
        decreases pipeline_size(pipeline),
    {
        let Pipeline { exprs } = pipeline;
        match self.fold_exprs(exprs) {
            Ok(v) => Ok(Pipeline { exprs: v }),
            Err(e) => Err(e),
        }
    }

    fn fold_func_def(&mut self, function: FuncDef) -> (r: Result<FuncDef, FoldError>)
        ensures
            final(self).bad == old(self).bad,
        decreases func_def_size(function),
    {
        let FuncDef { name, positional_params, named_params, body, return_ty } = function;
        let name = match self.fold_ident(name) {
            Ok(n) => n,
            Err(e) => {
                return Err(e);
            },
        };
        let positional_params = match self.rec_func_params(positional_params) {
            Ok(p) => p,
            Err(e) => {
                return Err(e);
            },
        };
        let named_params = match self.rec_func_params(named_params) {
            Ok(p) => p,
            Err(e) => {
                return Err(e);
            },
        };
        match self.fold_expr(*body) {
            Ok(b) => Ok(
                FuncDef { name, positional_params, named_params, body: Box::new(b), return_ty },
            ),
            Err(e) => Err(e),
        }
    }

    fn fold_func_call(&mut self, func_call: FuncCall) -> (r: Result<FuncCall, FoldError>)
        ensures
            final(self).bad == old(self).bad,
        decreases func_call_size(func_call),
    {
        let FuncCall { name, args, named_args } = func_call;
        let args = match self.fold_exprs(args) {
            Ok(v) => v,
            Err(e) => {
                return Err(e);
            },
        };
        match self.rec_named_args(named_args) {
            Ok(na) => Ok(FuncCall { name, args, named_args: na }),
            Err(e) => Err(e),
        }
    }

    fn fold_func_curry(&mut self, func_curry: FuncCurry) -> (r: Result<FuncCurry, FoldError>)
        ensures
            final(self).bad == old(self).bad,
        decreases func_curry_size(func_curry),
    {
        let FuncCurry { def_id, args, named_args } = func_curry;
        let args = match self.fold_exprs(args) {
            Ok(v) => v,
            Err(e) => {
                return Err(e);
            },
        };
        match self.rec_opt_exprs(named_args) {
            Ok(na) => Ok(FuncCurry { def_id, args, named_args: na }),
            Err(e) => Err(e),
        }
    }

    fn fold_table_ref(&mut self, table_ref: TableRef) -> (r: Result<TableRef, FoldError>)
        ensures
            final(self).bad == old(self).bad,
        decreases table_ref_size(table_ref),
    {
        let TableRef { name, alias, id } = table_ref;
        let name = match self.fold_ident(name) {
            Ok(n) => n,
            Err(e) => {
                return Err(e);
            },
        };
        let alias = match alias {
            Option::None => Option::None,
            Option::Some(a) => {
                match self.fold_ident(a) {
                    Ok(a2) => Option::Some(a2),
                    Err(e) => {
                        return Err(e);
                    },
                }
            },
        };
        Ok(TableRef { name, alias, id })
    }

    fn fold_interpolate_item(&mut self, sstring_item: InterpolateItem) -> (r: Result<
        InterpolateItem,
        FoldError,
    >)
        ensures
            final(self).bad == old(self).bad,
        decreases interpolate_item_size(sstring_item),
    {
        match sstring_item {
            InterpolateItem::Text(s) => Ok(InterpolateItem::Text(s)),
            InterpolateItem::Expr(expr) => {
                match self.fold_expr(*expr) {
                    Ok(x) => Ok(InterpolateItem::Expr(Box::new(x))),
                    Err(e) => Err(e),
                }
            },
        }
    }

    fn fold_column_sort(&mut self, column_sort: ColumnSort) -> (r: Result<ColumnSort, FoldError>)
        ensures
            final(self).bad == old(self).bad,
        decreases column_sort_size(column_sort),
    {
        let ColumnSort { direction, column } = column_sort;
        match self.fold_expr(column) {
            Ok(c) => Ok(ColumnSort { direction, column: c }),
            Err(e) => Err(e),
        }
    }

    fn fold_column_sorts(&mut self, columns: Vec<ColumnSort>) -> (r: Result<
        Vec<ColumnSort>,
        FoldError,
    >)
        ensures
            final(self).bad == old(self).bad,
        decreases column_sorts_size(columns@),
    {
        let ghost all: Seq<ColumnSort> = columns@;
        let mut rest = columns;
        let mut out: Vec<ColumnSort> = Vec::new();
        proof {
            assert(rest@ =~= all.skip(0));
        }
        while rest.len() > 0
            invariant
                self.bad == old(self).bad,
                all == columns@,
                out@.len() + rest@.len() == all.len(),
                rest@ =~= all.skip(out@.len() as int),
            decreases rest@.len(),
        {
            let first = rest.remove(0);
            proof {
                let n = out@.len() as int;
                assert(all.skip(n).first() == all[n]);
                lemma_column_sorts_size_element(all, n);
                assert(rest@ =~= all.skip(n + 1));
            }
            match self.fold_column_sort(first) {
                Ok(w) => out.push(w),
                Err(e) => {
                    return Err(e);
                },
            }
        }
        Ok(out)
    }

    fn fold_join_filter(&mut self, filter: JoinFilter) -> (r: Result<JoinFilter, FoldError>)
        ensures
            final(self).bad == old(self).bad,
        decreases join_filter_size(filter),
    {
        match filter {
            JoinFilter::On(nodes) => {
                match self.fold_exprs(nodes) {
                    Ok(v) => Ok(JoinFilter::On(v)),
                    Err(e) => Err(e),
                }
            },
            JoinFilter::Using(nodes) => {
                match self.fold_exprs(nodes) {
                    Ok(v) => Ok(JoinFilter::Using(v)),
                    Err(e) => Err(e),
                }
            },
        }
    }

    fn fold_type(&mut self, ty: Ty) -> (r: Result<Ty, FoldError>)
        ensures
            final(self).bad == old(self).bad,
        decreases ty_size(ty),
    {
        match ty {
            Ty::Literal(l) => Ok(Ty::Literal(l)),
            Ty::Named(n) => Ok(Ty::Named(n)),
            Ty::Parameterized(t, p) => {
                let t = match self.fold_type(*t) {
                    Ok(t2) => t2,
                    Err(e) => {
                        return Err(e);
                    },
                };
                match self.fold_expr(*p) {
                    Ok(x) => Ok(Ty::Parameterized(Box::new(t), Box::new(x))),
                    Err(e) => Err(e),
                }
            },
            Ty::AnyOf(ts) => {
                match self.rec_tys(ts) {
                    Ok(v) => Ok(Ty::AnyOf(v)),
                    Err(e) => Err(e),
                }
            },
            Ty::Infer => Ok(Ty::Infer),
        }
    }

    fn fold_windowed(&mut self, windowed: Windowed) -> (r: Result<Windowed, FoldError>)
        ensures
            final(self).bad == old(self).bad,
        decreases windowed_size(windowed),
    {
        let Windowed { expr, group, sort, window: frame } = windowed;
        let expr = match self.fold_expr(*expr) {
            Ok(x) => x,
            Err(e) => {
                return Err(e);
            },
        };
        let group = match self.fold_exprs(group) {
            Ok(g) => g,
            Err(e) => {
                return Err(e);
            },
        };
        let sort = match self.fold_column_sorts(sort) {
            Ok(s) => s,
            Err(e) => {
                return Err(e);
            },
        };
        let (kind, range) = frame;
        match self.rec_range(range) {
            Ok(rg) => Ok(Windowed { expr: Box::new(expr), group, sort, window: (kind, rg) }),
            Err(e) => Err(e),
        }
    }

    fn fold_query(&mut self, query: Query) -> (r: Result<Query, FoldError>)
        ensures
            final(self).bad == old(self).bad,
        decreases query_size(query),
    {
        let Query { def, main_pipeline, tables } = query;
        let main_pipeline = match self.fold_transforms(main_pipeline) {
            Ok(ts) => ts,
            Err(e) => {
                return Err(e);
            },
        };
        match self.rec_tables(tables) {
            Ok(t) => Ok(Query { def, main_pipeline, tables: t }),
            Err(e) => Err(e),
        }
    }
}

} // verus!
