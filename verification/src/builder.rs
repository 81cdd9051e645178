//! The dynamic, parameterized statement builder.
//!
//! A builder collects an ordered sequence of (column, value) contributions —
//! some added unconditionally, some only when an optional value is present or
//! an external predicate holds — plus equality conditions, and renders one of
//! four statement shapes: `INSERT`, `SELECT`, `UPDATE` or `DELETE`. Values
//! never enter the SQL text: each included contribution is rendered as a
//! positional placeholder (`$1`, `$2`, ...) numbered strictly in add order,
//! and the returned argument list carries the values in exactly that order.
//! Placeholder count equals argument count for every shape — the builder's
//! core invariant.

use vstd::prelude::*;
use vstd::string::StrSliceExecFns;
use vstd::string::StringExecFns;

use crate::errors::ErrorCode;
use crate::errors::ServerError;
use crate::text::dec_rep;

verus! {

/// A value bound to one positional placeholder.
#[derive(Debug, PartialEq, Eq)]
pub enum SqlValue {
    Text(String),
    Int(i32),
    BigInt(i64),
    Bool(bool),
}

/// The mathematical model of a bound value.
pub enum SqlValueV {
    Text(Seq<char>),
    Int(i32),
    BigInt(i64),
    Bool(bool),
}

/// The model of one bound value.
pub open spec fn val_view(v: SqlValue) -> SqlValueV {
    match v {
        SqlValue::Text(s) => SqlValueV::Text(s@),
        SqlValue::Int(i) => SqlValueV::Int(i),
        SqlValue::BigInt(i) => SqlValueV::BigInt(i),
        SqlValue::Bool(b) => SqlValueV::Bool(b),
    }
}

impl Clone for SqlValue {
    fn clone(&self) -> (r: Self)
        ensures
            val_view(r) == val_view(*self),
    {
        match self {
            SqlValue::Text(s) => SqlValue::Text(s.clone()),
            SqlValue::Int(i) => SqlValue::Int(*i),
            SqlValue::BigInt(i) => SqlValue::BigInt(*i),
            SqlValue::Bool(b) => SqlValue::Bool(*b),
        }
    }
}

/// The column names of a contribution list, in add order.
pub open spec fn names_of(ps: Seq<(String, SqlValue)>) -> Seq<Seq<char>> {
    ps.map_values(|p: (String, SqlValue)| p.0@)
}

/// The bound values of a contribution list, in add order.
pub open spec fn values_of(ps: Seq<(String, SqlValue)>) -> Seq<SqlValueV> {
    ps.map_values(|p: (String, SqlValue)| val_view(p.1))
}

/// The views of a list of strings.
pub open spec fn str_views(v: Seq<String>) -> Seq<Seq<char>> {
    v.map_values(|s: String| s@)
}

/// The models of an argument list.
pub open spec fn arg_views(args: Seq<SqlValue>) -> Seq<SqlValueV> {
    args.map_values(|a: SqlValue| val_view(a))
}

/// A comma-separated column list.
pub open spec fn col_list(cols: Seq<Seq<char>>) -> Seq<char>
    decreases cols.len(),
{
    if cols.len() == 0 {
        Seq::empty()
    } else if cols.len() == 1 {
        cols[0]
    } else {
        col_list(cols.drop_last()) + ", "@ + cols.last()
    }
}

/// The `k`-th positional placeholder.
pub open spec fn placeholder(k: nat) -> Seq<char> {
    "$"@ + dec_rep(k)
}

/// `$1, $2, ..., $n`.
pub open spec fn ph_list(n: nat) -> Seq<char>
    decreases n,
{
    if n == 0 {
        Seq::empty()
    } else if n == 1 {
        placeholder(1)
    } else {
        ph_list((n - 1) as nat) + ", "@ + placeholder(n)
    }
}

/// One rendered equality, `col = $k`.
pub open spec fn eq_item(col: Seq<char>, k: nat) -> Seq<char> {
    col + " = $"@ + dec_rep(k)
}

/// Equalities separated by `sep`, with placeholders numbered consecutively
/// from `start`: the item at position `i` is rendered with placeholder
/// `start + i`, whatever was skipped before the list was assembled.
pub open spec fn eq_list(cols: Seq<Seq<char>>, start: nat, sep: Seq<char>) -> Seq<char>
    decreases cols.len(),
{
    if cols.len() == 0 {
        Seq::empty()
    } else if cols.len() == 1 {
        eq_item(cols[0], start)
    } else {
        eq_list(cols.drop_last(), start, sep) + sep + eq_item(
            cols.last(),
            (start + cols.len() - 1) as nat,
        )
    }
}

/// The text of an `INSERT` over the given columns.
pub open spec fn insert_sql(table: Seq<char>, cols: Seq<Seq<char>>) -> Seq<char> {
    "INSERT INTO "@ + table + " ("@ + col_list(cols) + ") VALUES ("@ + ph_list(cols.len()) + ")"@
}

/// The text of a `SELECT` with equality conditions.
pub open spec fn select_sql(table: Seq<char>, fields: Seq<Seq<char>>, conds: Seq<Seq<char>>) -> Seq<
    char,
> {
    let base = "SELECT "@ + col_list(fields) + " FROM "@ + table;
    if conds.len() == 0 {
        base
    } else {
        base + " WHERE "@ + eq_list(conds, 1, " AND "@)
    }
}

/// The text of an `UPDATE`: the `WHERE` placeholders continue the numbering
/// right after the `SET` placeholders.
pub open spec fn update_sql(table: Seq<char>, sets: Seq<Seq<char>>, conds: Seq<Seq<char>>) -> Seq<
    char,
> {
    let base = "UPDATE "@ + table + " SET "@ + eq_list(sets, 1, ", "@);
    if conds.len() == 0 {
        base
    } else {
        base + " WHERE "@ + eq_list(conds, (sets.len() + 1) as nat, " AND "@)
    }
}

/// The text of a `DELETE` with equality conditions.
pub open spec fn delete_sql(table: Seq<char>, conds: Seq<Seq<char>>) -> Seq<char> {
    let base = "DELETE FROM "@ + table;
    if conds.len() == 0 {
        base
    } else {
        base + " WHERE "@ + eq_list(conds, 1, " AND "@)
    }
}

proof fn lemma_col_list_step(cols: Seq<Seq<char>>, i: int)
    requires
        0 <= i < cols.len(),
    ensures
        col_list(cols.take(i + 1)) == if i == 0 {
            cols[0]
        } else {
            col_list(cols.take(i)) + ", "@ + cols[i]
        },
{
    let t = cols.take(i + 1);
    if i == 0 {
        assert(t.len() == 1);
        assert(t[0] == cols[0]);
    } else {
        assert(t.drop_last() =~= cols.take(i));
        assert(t.last() == cols[i]);
    }
}

proof fn lemma_eq_list_step(cols: Seq<Seq<char>>, start: nat, sep: Seq<char>, i: int)
    requires
        0 <= i < cols.len(),
    ensures
        eq_list(cols.take(i + 1), start, sep) == if i == 0 {
            eq_item(cols[0], start)
        } else {
            eq_list(cols.take(i), start, sep) + sep + eq_item(cols[i], (start + i) as nat)
        },
{
    let t = cols.take(i + 1);
    if i == 0 {
        assert(t.len() == 1);
        assert(t[0] == cols[0]);
    } else {
        assert(t.drop_last() =~= cols.take(i));
        assert(t.last() == cols[i]);
        assert((start + t.len() - 1) as nat == (start + i) as nat);
    }
}

fn names_vec(ps: &Vec<(String, SqlValue)>) -> (r: Vec<String>)
    ensures
        str_views(r@) == names_of(ps@),
{
    let mut r: Vec<String> = Vec::new();
    let mut i: usize = 0;
    while i < ps.len()
        invariant
            i <= ps@.len(),
            r@.len() == i,
            forall|j: int| 0 <= j < i ==> r@[j]@ == ps@[j].0@,
        decreases ps@.len() - i,
    {
        let p = &ps[i];
        r.push(p.0.clone());
        i = i + 1;
    }
    proof {
        assert(str_views(r@) =~= names_of(ps@));
    }
    r
}

fn values_vec(ps: &Vec<(String, SqlValue)>) -> (r: Vec<SqlValue>)
    ensures
        arg_views(r@) == values_of(ps@),
{
    let mut r: Vec<SqlValue> = Vec::new();
    let mut i: usize = 0;
    while i < ps.len()
        invariant
            i <= ps@.len(),
            r@.len() == i,
            forall|j: int| 0 <= j < i ==> val_view(r@[j]) == val_view(ps@[j].1),
        decreases ps@.len() - i,
    {
        let p = &ps[i];
        r.push(p.1.clone());
        i = i + 1;
    }
    proof {
        assert(arg_views(r@) =~= values_of(ps@));
    }
    r
}

fn push_str_list(out: &mut String, cols: &Vec<String>)
    ensures
        final(out)@ == old(out)@ + col_list(str_views(cols@)),
{
    let ghost base = out@;
    let ghost cs = str_views(cols@);
    let mut i: usize = 0;
    proof {
        assert(cs.take(0) =~= Seq::<Seq<char>>::empty());
        assert(base + col_list(cs.take(0)) =~= base);
    }
    while i < cols.len()
        invariant
            i <= cols@.len(),
            cs == str_views(cols@),
            cs.len() == cols@.len(),
            out@ == base + col_list(cs.take(i as int)),
        decreases cols@.len() - i,
    {
        if i > 0 {
            out.append(", ");
        }
        let c = &cols[i];
        out.append(c.as_str());
        proof {
            lemma_col_list_step(cs, i as int);
            assert(cs[i as int] == cols@[i as int]@);
            if i == 0 {
                assert(base + col_list(cs.take(0)) + cs[0] =~= base + col_list(cs.take(1)));
            } else {
                assert(base + col_list(cs.take(i as int)) + ", "@ + cs[i as int] =~= base
                    + col_list(cs.take(i + 1)));
            }
        }
        i = i + 1;
    }
    proof {
        assert(cs.take(cols@.len() as int) =~= cs);
    }
}

fn push_ph_list(out: &mut String, n: usize)
    requires
        n < usize::MAX,
    ensures
        final(out)@ == old(out)@ + ph_list(n as nat),
{
    let ghost base = out@;
    let mut k: usize = 1;
    proof {
        assert(base + ph_list(0) =~= base);
    }
    while k <= n
        invariant
            1 <= k <= n + 1,
            n < usize::MAX,
            out@ == base + ph_list((k - 1) as nat),
        decreases n + 1 - k,
    {
        if k > 1 {
            out.append(", ");
        }
        out.append("$");
        crate::text::push_dec(out, k);
        proof {
            if k == 1 {
                assert(base + ph_list(0) + placeholder(1) =~= base + ph_list(1));
            } else {
                assert(base + ph_list((k - 1) as nat) + ", "@ + placeholder(k as nat) =~= base
                    + ph_list(k as nat));
            }
        }
        k = k + 1;
    }
}

fn push_eq_list(out: &mut String, cols: &Vec<String>, start: usize, sep: &str)
    requires
        start >= 1,
        start + cols@.len() <= usize::MAX,
    ensures
        final(out)@ == old(out)@ + eq_list(str_views(cols@), start as nat, sep@),
{
    let ghost base = out@;
    let ghost cs = str_views(cols@);
    let mut i: usize = 0;
    proof {
        assert(cs.take(0) =~= Seq::<Seq<char>>::empty());
        assert(base + eq_list(cs.take(0), start as nat, sep@) =~= base);
    }
    while i < cols.len()
        invariant
            i <= cols@.len(),
            start >= 1,
            start + cols@.len() <= usize::MAX,
            cs == str_views(cols@),
            cs.len() == cols@.len(),
            out@ == base + eq_list(cs.take(i as int), start as nat, sep@),
        decreases cols@.len() - i,
    {
        if i > 0 {
            out.append(sep);
        }
        let c = &cols[i];
        out.append(c.as_str());
        out.append(" = $");
        crate::text::push_dec(out, start + i);
        proof {
            lemma_eq_list_step(cs, start as nat, sep@, i as int);
            assert(cs[i as int] == cols@[i as int]@);
            assert(eq_item(cs[i as int], (start + i) as nat) == cs[i as int] + " = $"@ + dec_rep(
                (start + i) as nat,
            ));
            if i == 0 {
                assert(base + eq_list(cs.take(0), start as nat, sep@) + cs[0] + " = $"@ + dec_rep(
                    start as nat,
                ) =~= base + eq_list(cs.take(1), start as nat, sep@));
            } else {
                assert(base + eq_list(cs.take(i as int), start as nat, sep@) + sep@ + cs[i as int]
                    + " = $"@ + dec_rep((start + i) as nat) =~= base + eq_list(
                    cs.take(i + 1),
                    start as nat,
                    sep@,
                ));
            }
        }
        i = i + 1;
    }
    proof {
        assert(cs.take(cols@.len() as int) =~= cs);
    }
}

/// The four statement shapes the builder can render.
pub enum StatementKind {
    Insert,
    Select,
    Update,
    Delete,
}

/// A statement under construction: a shape, a table, the selected fields
/// (for `SELECT`), the included contributions in add order, and the equality
/// conditions in add order.
pub struct SqlBuilder {
    pub kind: StatementKind,
    pub table: String,
    pub fields: Vec<String>,
    pub sets: Vec<(String, SqlValue)>,
    pub conds: Vec<(String, SqlValue)>,
}

impl SqlBuilder {
    fn empty(kind: StatementKind, table: &str) -> (r: SqlBuilder)
        ensures
            r.kind == kind,
            r.table@ == table@,
            r.fields@ == Seq::<String>::empty(),
            r.sets@ == Seq::<(String, SqlValue)>::empty(),
            r.conds@ == Seq::<(String, SqlValue)>::empty(),
    {
        SqlBuilder {
            kind,
            table: table.to_owned(),
            fields: Vec::new(),
            sets: Vec::new(),
            conds: Vec::new(),
        }
    }

    /// Starts an `INSERT` into `table`.
    pub fn create(table: &str) -> (r: SqlBuilder)
        ensures
            r.kind == StatementKind::Insert,
            r.table@ == table@,
            r.fields@ == Seq::<String>::empty(),
            r.sets@ == Seq::<(String, SqlValue)>::empty(),
            r.conds@ == Seq::<(String, SqlValue)>::empty(),
    {
        Self::empty(StatementKind::Insert, table)
    }

    /// Starts a `SELECT` from `table`.
    pub fn select(table: &str) -> (r: SqlBuilder)
        ensures
            r.kind == StatementKind::Select,
            r.table@ == table@,
            r.fields@ == Seq::<String>::empty(),
            r.sets@ == Seq::<(String, SqlValue)>::empty(),
            r.conds@ == Seq::<(String, SqlValue)>::empty(),
    {
        Self::empty(StatementKind::Select, table)
    }

    /// Starts an `UPDATE` of `table`.
    pub fn update(table: &str) -> (r: SqlBuilder)
        ensures
            r.kind == StatementKind::Update,
            r.table@ == table@,
            r.fields@ == Seq::<String>::empty(),
            r.sets@ == Seq::<(String, SqlValue)>::empty(),
            r.conds@ == Seq::<(String, SqlValue)>::empty(),
    {
        Self::empty(StatementKind::Update, table)
    }

    /// Starts a `DELETE` from `table`.
    pub fn delete(table: &str) -> (r: SqlBuilder)
        ensures
            r.kind == StatementKind::Delete,
            r.table@ == table@,
            r.fields@ == Seq::<String>::empty(),
            r.sets@ == Seq::<(String, SqlValue)>::empty(),
            r.conds@ == Seq::<(String, SqlValue)>::empty(),
    {
        Self::empty(StatementKind::Delete, table)
    }

    /// Adds a field to the `SELECT` field list.
    pub fn add_field(self, field: &str) -> (r: SqlBuilder)
        ensures
            r.kind == self.kind,
            r.table == self.table,
            r.sets == self.sets,
            r.conds == self.conds,
            str_views(r.fields@) == str_views(self.fields@).push(field@),
    {
        let mut b = self;
        b.fields.push(field.to_owned());
        proof {
            assert(str_views(b.fields@) =~= str_views(self.fields@).push(field@));
        }
        b
    }

    /// Always includes a (column, value) contribution.
    pub fn add_arg(self, column: &str, value: SqlValue) -> (r: SqlBuilder)
        ensures
            r.kind == self.kind,
            r.table == self.table,
            r.fields == self.fields,
            r.conds == self.conds,
            names_of(r.sets@) == names_of(self.sets@).push(column@),
            values_of(r.sets@) == values_of(self.sets@).push(val_view(value)),
    {
        let mut b = self;
        let ghost v = val_view(value);
        b.sets.push((column.to_owned(), value));
        proof {
            assert(names_of(b.sets@) =~= names_of(self.sets@).push(column@));
            assert(values_of(b.sets@) =~= values_of(self.sets@).push(v));
        }
        b
    }

    /// Includes a contribution only when the optional value is present;
    /// an absent value contributes neither column text nor an argument slot.
    pub fn add_some_arg(self, column: &str, value: Option<SqlValue>) -> (r: SqlBuilder)
        ensures
            r.kind == self.kind,
            r.table == self.table,
            r.fields == self.fields,
            r.conds == self.conds,
            value is Some ==> names_of(r.sets@) == names_of(self.sets@).push(column@)
                && values_of(r.sets@) == values_of(self.sets@).push(val_view(value.unwrap())),
            value is None ==> r.sets == self.sets,
    {
        match value {
            Some(v) => self.add_arg(column, v),
            None => self,
        }
    }

    /// Includes a contribution only when the caller's predicate holds —
    /// presence is decided by the caller, not inferred from the value.
    pub fn add_arg_if(self, keep: bool, column: &str, value: SqlValue) -> (r: SqlBuilder)
        ensures
            r.kind == self.kind,
            r.table == self.table,
            r.fields == self.fields,
            r.conds == self.conds,
            keep ==> names_of(r.sets@) == names_of(self.sets@).push(column@) && values_of(
                r.sets@,
            ) == values_of(self.sets@).push(val_view(value)),
            !keep ==> r.sets == self.sets,
    {
        if keep {
            self.add_arg(column, value)
        } else {
            self
        }
    }

    /// Adds an equality condition to the `WHERE` clause.
    pub fn and_where_eq(self, column: &str, value: SqlValue) -> (r: SqlBuilder)
        ensures
            r.kind == self.kind,
            r.table == self.table,
            r.fields == self.fields,
            r.sets == self.sets,
            names_of(r.conds@) == names_of(self.conds@).push(column@),
            values_of(r.conds@) == values_of(self.conds@).push(val_view(value)),
    {
        let mut b = self;
        let ghost v = val_view(value);
        b.conds.push((column.to_owned(), value));
        proof {
            assert(names_of(b.conds@) =~= names_of(self.conds@).push(column@));
            assert(values_of(b.conds@) =~= values_of(self.conds@).push(v));
        }
        b
    }

    /// Renders the statement: SQL text with positional placeholders plus the
    /// ordered argument list, in the same order. An `INSERT` with no columns
    /// or an `UPDATE` with an empty `SET` clause is a build error; the other
    /// shapes always render.
    pub fn build(self) -> (r: Result<(String, Vec<SqlValue>), ServerError>)
        requires
            self.sets@.len() + self.conds@.len() < usize::MAX,
        ensures
            match self.kind {
                StatementKind::Insert => {
                    &&& (r is Ok <==> self.sets@.len() > 0)
                    &&& (r is Err ==> r->Err_0.code == ErrorCode::BuildError)
                    &&& (r is Ok ==> r->Ok_0.0@ == insert_sql(
                        self.table@,
                        names_of(self.sets@),
                    ) && arg_views(r->Ok_0.1@) == values_of(self.sets@))
                },
                StatementKind::Select => {
                    &&& r is Ok
                    &&& r->Ok_0.0@ == select_sql(
                        self.table@,
                        str_views(self.fields@),
                        names_of(self.conds@),
                    )
                    &&& arg_views(r->Ok_0.1@) == values_of(self.conds@)
                },
                StatementKind::Update => {
                    &&& (r is Ok <==> self.sets@.len() > 0)
                    &&& (r is Err ==> r->Err_0.code == ErrorCode::BuildError)
                    &&& (r is Ok ==> r->Ok_0.0@ == update_sql(
                        self.table@,
                        names_of(self.sets@),
                        names_of(self.conds@),
                    ) && arg_views(r->Ok_0.1@) == values_of(self.sets@) + values_of(
                        self.conds@,
                    ))
                },
                StatementKind::Delete => {
                    &&& r is Ok
                    &&& r->Ok_0.0@ == delete_sql(self.table@, names_of(self.conds@))
                    &&& arg_views(r->Ok_0.1@) == values_of(self.conds@)
                },
            },
    {
        match self.kind {
            StatementKind::Insert => {
                if self.sets.len() == 0 {
                    return Err(ServerError::build_error());
                }
                let mut sql = String::new();
                sql.append("INSERT INTO ");
                sql.append(self.table.as_str());
                sql.append(" (");
                let names = names_vec(&self.sets);
                push_str_list(&mut sql, &names);
                sql.append(") VALUES (");
                push_ph_list(&mut sql, self.sets.len());
                sql.append(")");
                let args = values_vec(&self.sets);
                proof {
                    assert(names_of(self.sets@).len() == self.sets@.len());
                    assert(sql@ =~= insert_sql(self.table@, names_of(self.sets@)));
                }
                Ok((sql, args))
            },
            StatementKind::Select => {
                let mut sql = String::new();
                sql.append("SELECT ");
                push_str_list(&mut sql, &self.fields);
                sql.append(" FROM ");
                sql.append(self.table.as_str());
                if self.conds.len() > 0 {
                    sql.append(" WHERE ");
                    let cond_names = names_vec(&self.conds);
                    proof {
                        assert(cond_names@.len() == str_views(cond_names@).len());
                        assert(names_of(self.conds@).len() == self.conds@.len());
                    }
                    push_eq_list(&mut sql, &cond_names, 1, " AND ");
                }
                let args = values_vec(&self.conds);
                proof {
                    assert(sql@ =~= select_sql(
                        self.table@,
                        str_views(self.fields@),
                        names_of(self.conds@),
                    ));
                }
                Ok((sql, args))
            },
            StatementKind::Update => {
                if self.sets.len() == 0 {
                    return Err(ServerError::build_error());
                }
                let mut sql = String::new();
                sql.append("UPDATE ");
                sql.append(self.table.as_str());
                sql.append(" SET ");
                let set_names = names_vec(&self.sets);
                proof {
                    assert(set_names@.len() == str_views(set_names@).len());
                    assert(names_of(self.sets@).len() == self.sets@.len());
                }
                push_eq_list(&mut sql, &set_names, 1, ", ");
                if self.conds.len() > 0 {
                    sql.append(" WHERE ");
                    let cond_names = names_vec(&self.conds);
                    proof {
                        assert(cond_names@.len() == str_views(cond_names@).len());
                        assert(names_of(self.conds@).len() == self.conds@.len());
                    }
                    push_eq_list(&mut sql, &cond_names, self.sets.len() + 1, " AND ");
                }
                let mut args = values_vec(&self.sets);
                let mut more = values_vec(&self.conds);
                args.append(&mut more);
                proof {
                    assert(names_of(self.sets@).len() == self.sets@.len());
                    assert(sql@ =~= update_sql(
                        self.table@,
                        names_of(self.sets@),
                        names_of(self.conds@),
                    ));
                    assert(arg_views(args@) =~= values_of(self.sets@) + values_of(self.conds@));
                }
                Ok((sql, args))
            },
            StatementKind::Delete => {
                let mut sql = String::new();
                sql.append("DELETE FROM ");
                sql.append(self.table.as_str());
                if self.conds.len() > 0 {
                    sql.append(" WHERE ");
                    let cond_names = names_vec(&self.conds);
                    proof {
                        assert(cond_names@.len() == str_views(cond_names@).len());
                        assert(names_of(self.conds@).len() == self.conds@.len());
                    }
                    push_eq_list(&mut sql, &cond_names, 1, " AND ");
                }
                let args = values_vec(&self.conds);
                proof {
                    assert(sql@ =~= delete_sql(self.table@, names_of(self.conds@)));
                }
                Ok((sql, args))
            },
        }
    }
}

} // verus!
