//! The embedded-SQL adapter: it synthesizes parameterized SQL text with
//! positional placeholders, binds values, executes, and maps result rows
//! back to the shared value model.
//!
//! Every externally-controlled datum is routed through a bind step, never
//! through string interpolation; only identifiers from trusted
//! configuration are interpolated, since the engine cannot parameterize
//! identifiers. The synthesized text and the order of the bound values
//! are stated exactly in the contracts below.

use vstd::prelude::*;
use vstd::string::StringExecFns;

use crate::datasource::def::DataSource;
use crate::datasource::def::FieldCondition;
use crate::datasource::def::Row;
use crate::datasource::def::Value;
use crate::datasource::def::ValueView;
use crate::datasource::sqlite::native;
use crate::datasource::sqlite::native::StepState;
use crate::errors::Error;

verus! {

/// The views of a sequence of values, in order.
pub open spec fn views_of(vs: Seq<Value>) -> Seq<ValueView> {
    vs.map_values(|v: Value| v@)
}

/// The column names of a sequence of column/value pairs, in order.
pub open spec fn names_of(items: Seq<(String, Value)>) -> Seq<Seq<char>> {
    items.map_values(|p: (String, Value)| p.0@)
}

/// The key sequence of a row's content: its column names, in order.
pub open spec fn row_names(r: Seq<(Seq<char>, ValueView)>) -> Seq<Seq<char>> {
    r.map_values(|p: (Seq<char>, ValueView)| p.0)
}

/// The values of a sequence of column/value pairs, in order.
pub open spec fn values_of(items: Seq<(String, Value)>) -> Seq<ValueView> {
    items.map_values(|p: (String, Value)| p.1@)
}

/// The parts joined with a comma between consecutive parts.
pub open spec fn comma_join(parts: Seq<Seq<char>>) -> Seq<char>
    decreases parts.len(),
{
    if parts.len() == 0 {
        Seq::empty()
    } else if parts.len() == 1 {
        parts[0]
    } else {
        comma_join(parts.drop_last()) + ","@ + parts.last()
    }
}

/// The parts joined with ` AND ` between consecutive parts.
pub open spec fn and_join(parts: Seq<Seq<char>>) -> Seq<char>
    decreases parts.len(),
{
    if parts.len() == 0 {
        Seq::empty()
    } else if parts.len() == 1 {
        parts[0]
    } else {
        and_join(parts.drop_last()) + " AND "@ + parts.last()
    }
}

/// `n` positional placeholders joined with commas: one `?` for each value
/// to bind.
pub open spec fn placeholders(n: nat) -> Seq<char>
    decreases n,
{
    if n == 0 {
        Seq::empty()
    } else if n == 1 {
        "?"@
    } else {
        placeholders((n - 1) as nat) + ",?"@
    }
}

/// The WHERE fragment of one condition: the field name, the comparison,
/// and a placeholder for each embedded value.
pub open spec fn cond_fragment(c: FieldCondition) -> Seq<char> {
    match c {
        FieldCondition::Equal(f, _) => f@ + " = ?"@,
        FieldCondition::NotEqual(f, _) => f@ + " != ?"@,
        FieldCondition::GreaterThan(f, _) => f@ + " > ?"@,
        FieldCondition::LessThan(f, _) => f@ + " < ?"@,
        FieldCondition::IsNotNull(f) => f@ + " IS NOT NULL"@,
        FieldCondition::IsNull(f) => f@ + " IS NULL"@,
        FieldCondition::Between(f, _, _) => f@ + " BETWEEN ? AND ?"@,
    }
}

/// The values one condition contributes to the bind list: one for a
/// comparison, two for a between (low then high), none for a null test.
pub open spec fn cond_params(c: FieldCondition) -> Seq<ValueView> {
    match c {
        FieldCondition::Equal(_, v) => seq![v@],
        FieldCondition::NotEqual(_, v) => seq![v@],
        FieldCondition::GreaterThan(_, v) => seq![v@],
        FieldCondition::LessThan(_, v) => seq![v@],
        FieldCondition::IsNotNull(_) => Seq::empty(),
        FieldCondition::IsNull(_) => Seq::empty(),
        FieldCondition::Between(_, lo, hi) => seq![lo@, hi@],
    }
}

/// The WHERE fragments of the conditions, in order.
pub open spec fn cond_fragments(conds: Seq<FieldCondition>) -> Seq<Seq<char>> {
    conds.map_values(|c: FieldCondition| cond_fragment(c))
}

/// The values all conditions contribute to the bind list, in condition
/// order.
pub open spec fn conds_params(conds: Seq<FieldCondition>) -> Seq<ValueView>
    decreases conds.len(),
{
    if conds.len() == 0 {
        Seq::empty()
    } else {
        conds_params(conds.drop_last()) + cond_params(conds.last())
    }
}

/// The SET fragments of an update: each column name followed by `=?`.
pub open spec fn set_fragments(items: Seq<(String, Value)>) -> Seq<Seq<char>> {
    items.map_values(|p: (String, Value)| p.0@ + "=?"@)
}

/// The full text of a synthesized insert statement.
pub open spec fn insert_stmt(table: Seq<char>, items: Seq<(String, Value)>) -> Seq<char> {
    "INSERT INTO "@ + table + " ("@ + comma_join(names_of(items)) + ") VALUES ("@ + placeholders(
        items.len(),
    ) + ")"@
}

/// The full text of a synthesized update statement.
pub open spec fn update_stmt(
    table: Seq<char>,
    sets: Seq<(String, Value)>,
    conds: Seq<FieldCondition>,
) -> Seq<char> {
    "UPDATE "@ + table + " SET "@ + comma_join(set_fragments(sets)) + " WHERE "@ + and_join(
        cond_fragments(conds),
    )
}

proof fn lemma_comma_join_push(s: Seq<Seq<char>>, x: Seq<char>)
    ensures
        comma_join(s.push(x)) == if s.len() == 0 {
            x
        } else {
            comma_join(s) + ","@ + x
        },
{
    let sp = s.push(x);
    assert(sp.drop_last() =~= s);
    if s.len() == 0 {
        assert(comma_join(sp) == sp[0]);
    }
}

proof fn lemma_and_join_push(s: Seq<Seq<char>>, x: Seq<char>)
    ensures
        and_join(s.push(x)) == if s.len() == 0 {
            x
        } else {
            and_join(s) + " AND "@ + x
        },
{
    let sp = s.push(x);
    assert(sp.drop_last() =~= s);
    if s.len() == 0 {
        assert(and_join(sp) == sp[0]);
    }
}

proof fn lemma_views_of_push(s: Seq<Value>, v: Value)
    ensures
        views_of(s.push(v)) == views_of(s).push(v@),
{
    assert(views_of(s.push(v)) =~= views_of(s).push(v@));
}

proof fn lemma_views_of_add(a: Seq<Value>, b: Seq<Value>)
    ensures
        views_of(a + b) == views_of(a) + views_of(b),
{
    assert(views_of(a + b) =~= views_of(a) + views_of(b));
}

proof fn lemma_values_of_push(s: Seq<(String, Value)>, p: (String, Value))
    ensures
        values_of(s.push(p)) == values_of(s).push(p.1@),
{
    assert(values_of(s.push(p)) =~= values_of(s).push(p.1@));
}

/// Turns one condition into its WHERE fragment and the values it binds,
/// exactly as [`cond_fragment`] and [`cond_params`] state.
pub fn convert_condition(condition: &FieldCondition) -> (r: (String, Vec<Value>))
    ensures
        r.0@ == cond_fragment(*condition),
        views_of(r.1@) == cond_params(*condition),
{
    let mut vals: Vec<Value> = Vec::new();
    let text: String = match condition {
        FieldCondition::Equal(f, v) => {
            vals.push(v.clone());
            f.clone().concat(" = ?")
        },
        FieldCondition::NotEqual(f, v) => {
            vals.push(v.clone());
            f.clone().concat(" != ?")
        },
        FieldCondition::GreaterThan(f, v) => {
            vals.push(v.clone());
            f.clone().concat(" > ?")
        },
        FieldCondition::LessThan(f, v) => {
            vals.push(v.clone());
            f.clone().concat(" < ?")
        },
        FieldCondition::IsNotNull(f) => f.clone().concat(" IS NOT NULL"),
        FieldCondition::IsNull(f) => f.clone().concat(" IS NULL"),
        FieldCondition::Between(f, lo, hi) => {
            vals.push(lo.clone());
            vals.push(hi.clone());
            f.clone().concat(" BETWEEN ? AND ?")
        },
    };
    proof {
        assert(views_of(vals@) =~= cond_params(*condition));
    }
    (text, vals)
}

/// Synthesizes the text and the bind list of an insert: one positional
/// placeholder per supplied pair, values in the order the pairs were
/// supplied.
pub fn insert_sql(table: &str, item: &[(String, Value)]) -> (r: (String, Vec<Value>))
    ensures
        r.0@ == insert_stmt(table@, item@),
        views_of(r.1@) == values_of(item@),
{
    let mut names_part = String::new();
    let mut values_part = String::new();
    let mut values_list: Vec<Value> = Vec::new();
    let n = item.len();
    proof {
        assert(names_of(item@.take(0)) =~= Seq::<Seq<char>>::empty());
        assert(views_of(values_list@) =~= values_of(item@.take(0)));
    }
    let mut i: usize = 0;
    while i < n
        invariant
            i <= n,
            n == item@.len(),
            names_part@ == comma_join(names_of(item@.take(i as int))),
            values_part@ == placeholders(i as nat),
            views_of(values_list@) == values_of(item@.take(i as int)),
        decreases n - i,
    {
        let field = &item[i].0;
        let value = &item[i].1;
        let cloned = value.clone();
        let ghost pre = values_list@;
        values_list.push(cloned);
        if i > 0 {
            names_part.append(",");
            values_part.append(",?");
        } else {
            values_part.append("?");
        }
        names_part.append(field.as_str());
        proof {
            let prev = item@.take(i as int);
            let cur = item@.take(i + 1);
            assert(cur =~= prev.push(item@[i as int]));
            assert(names_of(cur) =~= names_of(prev).push(field@));
            lemma_comma_join_push(names_of(prev), field@);
            lemma_views_of_push(pre, cloned);
            lemma_values_of_push(prev, item@[i as int]);
            assert(views_of(values_list@) == values_of(cur));
        }
        i = i + 1;
    }
    proof {
        assert(item@.take(n as int) =~= item@);
    }
    let sql = String::from_str("INSERT INTO ").concat(table).concat(" (").concat(
        names_part.as_str(),
    ).concat(") VALUES (").concat(values_part.as_str()).concat(")");
    (sql, values_list)
}

/// Synthesizes the text and the bind list of an update: first every SET
/// value, then every value embedded in the conditions, in order. An empty
/// condition list would leave the WHERE clause empty, so it is rejected
/// here, before anything reaches the backend, rather than being taken as
/// an update of every row.
pub fn update_sql(table: &str, sets: &[(String, Value)], conditions: &[FieldCondition]) -> (r:
    Result<(String, Vec<Value>), Error>)
    ensures
        r is Ok <==> conditions@.len() > 0,
        r matches Err(e) ==> e is DB,
        r matches Ok(p) ==> p.0@ == update_stmt(table@, sets@, conditions@) && views_of(p.1@)
            == values_of(sets@) + conds_params(conditions@),
{
    if conditions.len() == 0 {
        return Err(
            Error::DB { cause: String::from_str("update requires at least one condition") },
        );
    }
    let mut set_part = String::new();
    let mut value_list: Vec<Value> = Vec::new();
    let ns = sets.len();
    proof {
        assert(set_fragments(sets@.take(0)) =~= Seq::<Seq<char>>::empty());
        assert(views_of(value_list@) =~= values_of(sets@.take(0)));
    }
    let mut i: usize = 0;
    while i < ns
        invariant
            i <= ns,
            ns == sets@.len(),
            set_part@ == comma_join(set_fragments(sets@.take(i as int))),
            views_of(value_list@) == values_of(sets@.take(i as int)),
        decreases ns - i,
    {
        let field = &sets[i].0;
        let value = &sets[i].1;
        let cloned = value.clone();
        let ghost pre = value_list@;
        value_list.push(cloned);
        if i > 0 {
            set_part.append(",");
        }
        set_part.append(field.as_str());
        set_part.append("=?");
        proof {
            let prev = sets@.take(i as int);
            let cur = sets@.take(i + 1);
            assert(cur =~= prev.push(sets@[i as int]));
            assert(set_fragments(cur) =~= set_fragments(prev).push(field@ + "=?"@));
            lemma_comma_join_push(set_fragments(prev), field@ + "=?"@);
            lemma_views_of_push(pre, cloned);
            lemma_values_of_push(prev, sets@[i as int]);
            assert(views_of(value_list@) == values_of(cur));
        }
        i = i + 1;
    }
    let mut condition_part = String::new();
    let nc = conditions.len();
    proof {
        assert(cond_fragments(conditions@.take(0)) =~= Seq::<Seq<char>>::empty());
        assert(conds_params(conditions@.take(0)) =~= Seq::<ValueView>::empty());
        assert(sets@.take(ns as int) =~= sets@);
        assert(views_of(value_list@) =~= values_of(sets@) + conds_params(conditions@.take(0)));
    }
    let mut j: usize = 0;
    while j < nc
        invariant
            j <= nc,
            nc == conditions@.len(),
            condition_part@ == and_join(cond_fragments(conditions@.take(j as int))),
            views_of(value_list@) == values_of(sets@) + conds_params(conditions@.take(j as int)),
        decreases nc - j,
    {
        let (fragment, mut vals) = convert_condition(&conditions[j]);
        let ghost vals_snap = vals@;
        let ghost pre = value_list@;
        value_list.append(&mut vals);
        if j > 0 {
            condition_part.append(" AND ");
        }
        condition_part.append(fragment.as_str());
        proof {
            let prev = conditions@.take(j as int);
            let cur = conditions@.take(j + 1);
            assert(cur =~= prev.push(conditions@[j as int]));
            assert(cond_fragments(cur) =~= cond_fragments(prev).push(
                cond_fragment(conditions@[j as int]),
            ));
            lemma_and_join_push(cond_fragments(prev), cond_fragment(conditions@[j as int]));
            assert(cur.drop_last() =~= prev);
            lemma_views_of_add(pre, vals_snap);
            assert(views_of(value_list@) == views_of(pre) + cond_params(conditions@[j as int]));
            assert(conds_params(cur) == conds_params(prev) + cond_params(conditions@[j as int]));
            assert(views_of(value_list@) =~= values_of(sets@) + conds_params(cur));
        }
        j = j + 1;
    }
    proof {
        assert(conditions@.take(nc as int) =~= conditions@);
    }
    let sql = String::from_str("UPDATE ").concat(table).concat(" SET ").concat(
        set_part.as_str(),
    ).concat(" WHERE ").concat(condition_part.as_str());
    Ok((sql, value_list))
}

/// Converts a value to the backend-native representation and back. The
/// contract states that the pair of boundary conversions loses nothing:
/// the result carries the same variant and payload as the argument, for
/// every one of the five variants.
pub fn native_round_trip(v: &Value) -> (r: Value)
    ensures
        r@ == v@,
{
    native::from_native(native::to_native(v))
}

/// The concrete data source for the embedded SQL engine. It owns exactly
/// one open connection, which is closed when the handle is dropped; all
/// operations on the handle are synchronous and run to completion.
pub struct SqliteDataSource {
    connection: sqlite::Connection,
}

/// Opens an embedded-SQL data source at the given path.
pub fn connect(path: &str) -> (r: Result<SqliteDataSource, Error>)
    ensures
        r matches Err(e) ==> e is DB,
{
    SqliteDataSource::connect(path)
}

impl SqliteDataSource {
    /// Opens exactly one connection to the database at `path`; the path
    /// `:memory:` denotes a fresh transient in-process store. Whether a
    /// path can be opened is the backend's decision; a refusal surfaces
    /// as a backend error.
    pub fn connect(path: &str) -> (r: Result<SqliteDataSource, Error>)
        ensures
            r matches Err(e) ==> e is DB,
    {
        match native::open_connection(path) {
            Ok(connection) => Ok(SqliteDataSource { connection }),
            Err(e) => Err(e),
        }
    }

    /// Runs a non-parameterized statement to completion, for schema setup
    /// and seed data; any backend failure surfaces as a backend error.
    pub fn command(&self, statement: &str) -> (r: Result<(), Error>)
        ensures
            r matches Err(e) ==> e is DB,
    {
        native::execute_sql(&self.connection, statement)
    }

    /// Binds the values one-based and in order to the placeholders of the
    /// prepared statement.
    fn bind_all(st: &mut sqlite::Statement<'_>, vals: &[Value]) -> (r: Result<(), Error>)
        ensures
            r matches Err(e) ==> e is DB,
    {
        let n = vals.len();
        let mut i: usize = 0;
        while i < n
            invariant
                i <= n,
                n == vals@.len(),
            decreases n - i,
        {
            match native::bind_native(st, i + 1, native::to_native(&vals[i])) {
                Ok(u) => u,
                Err(e) => {
                    return Err(e);
                },
            }
            i = i + 1;
        }
        Ok(())
    }

    /// Binds `params` positionally to the placeholders of `statement`,
    /// executes, and materializes every result row eagerly, each row
    /// carrying one converted value per result column, in column order.
    /// No row is partially populated: the contract states that every
    /// returned row carries exactly the same column-name sequence, the
    /// result's columns in column order. Whether rows come back, and
    /// which, is the backend's decision; any malformed statement, bind
    /// mismatch, or execution fault surfaces as a backend error.
    pub fn query(&self, statement: &str, params: &[Value]) -> (r: Result<Vec<Row>, Error>)
        ensures
            r matches Err(e) ==> e is DB,
            r matches Ok(rows) ==> forall|i: int, j: int|
                0 <= i < rows@.len() && 0 <= j < rows@.len() ==> #[trigger] row_names(rows@[i]@)
                    == #[trigger] row_names(rows@[j]@),
    {
        let mut st = match native::prepare_stmt(&self.connection, statement) {
            Ok(st) => st,
            Err(e) => {
                return Err(e);
            },
        };
        match Self::bind_all(&mut st, params) {
            Ok(u) => u,
            Err(e) => {
                return Err(e);
            },
        }
        let names = native::column_names_of(&st);
        let ghost name_seq = names@.map_values(|s: String| s@);
        let mut rows: Vec<Row> = Vec::new();
        // One step per result row; a result longer than the address space
        // could not be materialized, so running out of steps here is a
        // backend error in all but theory.
        let mut steps_left: usize = usize::MAX;
        while steps_left > 0
            invariant
                name_seq == names@.map_values(|s: String| s@),
                forall|i: int| 0 <= i < rows@.len() ==> #[trigger] row_names(rows@[i]@)
                    == name_seq,
            decreases steps_left,
        {
            match native::step_stmt(&mut st) {
                Ok(StepState::Done) => {
                    return Ok(rows);
                },
                Ok(StepState::Row) => {
                    let nc = names.len();
                    let mut cols: Vec<(String, Value)> = Vec::new();
                    let mut c: usize = 0;
                    while c < nc
                        invariant
                            c <= nc,
                            nc == names@.len(),
                            name_seq == names@.map_values(|s: String| s@),
                            cols@.len() == c,
                            forall|k: int| 0 <= k < c ==> (#[trigger] cols@[k].0)@
                                == name_seq[k],
                        decreases nc - c,
                    {
                        let nv = match native::read_native(&st, c) {
                            Ok(nv) => nv,
                            Err(e) => {
                                return Err(e);
                            },
                        };
                        cols.push((names[c].clone(), native::from_native(nv)));
                        c = c + 1;
                    }
                    let row = Row::new(cols);
                    proof {
                        assert(row_names(row@) =~= name_seq);
                    }
                    rows.push(row);
                },
                Err(e) => {
                    return Err(e);
                },
            }
            steps_left = steps_left - 1;
        }
        Err(Error::DB { cause: String::from_str("query produced more rows than fit in memory") })
    }

    /// Synthesizes `INSERT INTO <table> (<names>) VALUES (<placeholders>)`
    /// as [`insert_stmt`] states, binds the supplied values in order,
    /// executes the single statement, and returns the backend-reported
    /// changed-row count. If the backend does not report the statement as
    /// successfully finished after exactly one step, the call fails with a
    /// backend error; nothing is retried or partially applied.
    pub fn insert(&self, table: &str, item: &[(String, Value)]) -> (r: Result<usize, Error>)
        ensures
            r matches Err(e) ==> e is DB,
    {
        let (sql, vals) = insert_sql(table, item);
        let mut st = match native::prepare_stmt(&self.connection, sql.as_str()) {
            Ok(st) => st,
            Err(e) => {
                return Err(e);
            },
        };
        match Self::bind_all(&mut st, vals.as_slice()) {
            Ok(u) => u,
            Err(e) => {
                return Err(e);
            },
        }
        match native::step_stmt(&mut st) {
            Ok(StepState::Done) => Ok(native::change_count_of(&self.connection)),
            Ok(StepState::Row) => Err(Error::DB { cause: String::from_str("insert failed") }),
            Err(e) => Err(e),
        }
    }

    /// Synthesizes `UPDATE <table> SET <sets> WHERE <conditions>` as
    /// [`update_stmt`] states, binds first every SET value and then every
    /// condition value in order, executes the single statement, and
    /// returns the backend-reported changed-row count. An empty condition
    /// list is rejected before anything reaches the backend; see
    /// [`update_sql`].
    pub fn update(
        &self,
        table: &str,
        sets: &[(String, Value)],
        conditions: &[FieldCondition],
    ) -> (r: Result<usize, Error>)
        ensures
            conditions@.len() == 0 ==> r is Err,
            r matches Err(e) ==> e is DB,
    {
        let (sql, vals) = match update_sql(table, sets, conditions) {
            Ok(p) => p,
            Err(e) => {
                return Err(e);
            },
        };
        let mut st = match native::prepare_stmt(&self.connection, sql.as_str()) {
            Ok(st) => st,
            Err(e) => {
                return Err(e);
            },
        };
        match Self::bind_all(&mut st, vals.as_slice()) {
            Ok(u) => u,
            Err(e) => {
                return Err(e);
            },
        }
        match native::step_stmt(&mut st) {
            Ok(StepState::Done) => Ok(native::change_count_of(&self.connection)),
            Ok(StepState::Row) => Err(Error::DB { cause: String::from_str("update failed") }),
            Err(e) => Err(e),
        }
    }
}

impl DataSource for SqliteDataSource {
    fn connect(path: &str) -> Result<Self, Error> {
        SqliteDataSource::connect(path)
    }

    fn command(&self, statement: &str) -> Result<(), Error> {
        SqliteDataSource::command(self, statement)
    }

    fn query(&self, statement: &str, params: &[Value]) -> Result<Vec<Row>, Error> {
        SqliteDataSource::query(self, statement, params)
    }

    fn insert(&self, table: &str, item: &[(String, Value)]) -> Result<usize, Error> {
        SqliteDataSource::insert(self, table, item)
    }

    fn update(
        &self,
        table: &str,
        sets: &[(String, Value)],
        conditions: &[FieldCondition],
    ) -> Result<usize, Error> {
        SqliteDataSource::update(self, table, sets, conditions)
    }
}

} // verus!
