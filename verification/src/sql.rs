//! The statements of a table: their text and the values they bind.

use crate::backend::{placeholder, quoted, Backend, Bindings, Dialect, Fetch};
use crate::table::{field_ref_views, quote_identifier, FieldView, Table, TableField, TableView};
use crate::text::{join, joined, texts};
use vstd::prelude::*;
use vstd::string::*;

verus! {

/// A statement with the expressions whose values it binds, in the order of
/// its placeholders, and the way it is run.
#[derive(Debug, PartialEq, Eq)]
pub struct Statement {
    pub sql: String,
    pub arguments: Vec<String>,
    pub fetch: Fetch,
}

/// What a [`Statement`] holds.
pub struct StatementView {
    pub sql: Seq<char>,
    pub arguments: Seq<Seq<char>>,
    pub fetch: Fetch,
}

impl View for Statement {
    type V = StatementView;

    open spec fn view(&self) -> StatementView {
        StatementView { sql: self.sql@, arguments: texts(self.arguments@), fetch: self.fetch }
    }
}

/// The column names of `fields`, in order.
pub open spec fn column_names(fields: Seq<FieldView>) -> Seq<Seq<char>> {
    fields.map_values(|field: FieldView| field.column_name)
}

/// The quoted columns of `fields`, in order.
pub open spec fn columns(fields: Seq<FieldView>, dialect: Dialect) -> Seq<Seq<char>> {
    fields.map_values(|field: FieldView| field.column(dialect))
}

/// The entries of `fields` in a list of selected columns, in order.
pub open spec fn select_items(fields: Seq<FieldView>, dialect: Dialect) -> Seq<Seq<char>> {
    fields.map_values(|field: FieldView| field.select_item(dialect))
}

/// The expressions that bind the values of `fields`, in order.
pub open spec fn arguments(fields: Seq<FieldView>) -> Seq<Seq<char>> {
    fields.map_values(|field: FieldView| field.argument())
}

/// The first `count` placeholders of a statement, in order.
pub open spec fn placeholders(dialect: Dialect, count: nat) -> Seq<Seq<char>> {
    Seq::new(count, |i: int| placeholder(dialect, (i + 1) as nat))
}

/// The assignment of the placeholder at `position` to `column`.
pub open spec fn assignment(column: Seq<char>, dialect: Dialect, position: nat) -> Seq<char> {
    quoted(dialect, column) + " = "@ + placeholder(dialect, position)
}

/// One assignment for each of `columns`, in order, to the placeholders from
/// the first on.
pub open spec fn assignments(columns: Seq<Seq<char>>, dialect: Dialect) -> Seq<Seq<char>> {
    Seq::new(columns.len(), |i: int| assignment(columns[i], dialect, (i + 1) as nat))
}

/// A statement that selects `column_list` from the rows of `table` whose
/// `column` equals the one bound value.
pub open spec fn select_where(
    table: TableView,
    column_list: Seq<char>,
    column: Seq<char>,
    dialect: Dialect,
) -> Seq<char> {
    "SELECT "@ + column_list + " FROM "@ + table.name(dialect) + " WHERE "@ + quoted(
        dialect,
        column,
    ) + " = "@ + placeholder(dialect, 1)
}

/// The ordering of listings: the clause that the table gives, unchanged,
/// else the id column, descending.
pub open spec fn order_clause(table: TableView, dialect: Dialect) -> Seq<char> {
    match table.order_by {
        Some(clause) => clause,
        None => table.id.column(dialect) + " DESC"@,
    }
}

/// The statement that lists every row.
pub open spec fn select_all(table: TableView, column_list: Seq<char>, dialect: Dialect) -> Seq<
    char,
> {
    "SELECT "@ + column_list + " FROM "@ + table.name(dialect) + " ORDER BY "@ + order_clause(
        table,
        dialect,
    )
}

/// The statement that lists a page of rows. The limit is bound first, the
/// offset second.
pub open spec fn select_page(table: TableView, column_list: Seq<char>, dialect: Dialect) -> Seq<
    char,
> {
    select_all(table, column_list, dialect) + " LIMIT "@ + placeholder(dialect, 1) + " OFFSET "@
        + placeholder(dialect, 2) + " "@
}

/// The statement that writes `columns` of the row whose `id_column` equals
/// the value that is bound last.
pub open spec fn update_where(
    table_name: Seq<char>,
    columns: Seq<Seq<char>>,
    id_column: Seq<char>,
    dialect: Dialect,
) -> Seq<char> {
    "UPDATE "@ + quoted(dialect, table_name) + " SET "@ + joined(
        assignments(columns, dialect),
        ", "@,
    ) + " WHERE "@ + quoted(dialect, id_column) + " = "@ + placeholder(
        dialect,
        columns.len() + 1,
    )
}

/// The statement that deletes the row of a given id.
pub open spec fn delete_where(table: TableView, dialect: Dialect) -> Seq<char> {
    "DELETE FROM "@ + table.name(dialect) + " WHERE "@ + table.id.column(dialect) + " = "@
        + placeholder(dialect, 1)
}

/// The statement that inserts a row from the values of `insert_fields`.
/// Where the database supplies values, it ends in a clause that returns
/// them, one entry for each such field.
pub open spec fn insert_into(table: TableView, insert_fields: Seq<FieldView>, dialect: Dialect) -> Seq<
    char,
> {
    let plain = "INSERT INTO "@ + table.name(dialect) + " ("@ + joined(
        columns(insert_fields, dialect),
        ", "@,
    ) + ") VALUES ("@ + joined(placeholders(dialect, insert_fields.len()), ", "@) + ")"@;
    if table.default_fields().len() == 0 {
        plain
    } else {
        plain + " RETURNING "@ + joined(select_items(table.default_fields(), dialect), ", "@)
    }
}

/// The expression for the id of the row that a statement writes.
pub open spec fn own_id(table: TableView) -> Seq<char> {
    "self."@ + table.id.field
}

impl TableView {
    /// Looks a row up by its id; no row is a failure.
    pub open spec fn get(self, column_list: Seq<char>, dialect: Dialect) -> StatementView {
        StatementView {
            sql: select_where(self, column_list, self.id.column_name, dialect),
            arguments: seq!["id"@],
            fetch: Fetch::One,
        }
    }

    /// Lists every row.
    pub open spec fn stream_all(self, column_list: Seq<char>, dialect: Dialect) -> StatementView {
        StatementView {
            sql: select_all(self, column_list, dialect),
            arguments: Seq::empty(),
            fetch: Fetch::Many,
        }
    }

    /// Lists a page of rows.
    pub open spec fn stream_all_paginated(
        self,
        column_list: Seq<char>,
        dialect: Dialect,
    ) -> StatementView {
        StatementView {
            sql: select_page(self, column_list, dialect),
            arguments: seq!["limit"@, "offset"@],
            fetch: Fetch::Many,
        }
    }

    /// Writes every field but the id of the row itself.
    pub open spec fn update(self, dialect: Dialect) -> StatementView {
        StatementView {
            sql: update_where(
                self.table,
                column_names(self.fields_except_id()),
                self.id.column_name,
                dialect,
            ),
            arguments: arguments(self.fields_except_id()).push(own_id(self)),
            fetch: Fetch::Execute,
        }
    }

    /// Deletes the row of a given id.
    pub open spec fn delete(self, dialect: Dialect) -> StatementView {
        StatementView {
            sql: delete_where(self, dialect),
            arguments: seq!["id"@],
            fetch: Fetch::Execute,
        }
    }
}

/// The text of the statement that selects `column_list` from the rows of
/// `table` in which `field` has the bound value.
pub fn select_by<B: Backend>(table: &Table<B>, column_list: &str, field: &TableField<B>) -> (out:
    String)
    ensures
        out@ == select_where(table@, column_list@, field@.column_name, B::dialect()),
{
    let mut bindings = B::bindings();
    let mut sql = String::from_str("SELECT ");
    sql.append(column_list);
    sql.append(" FROM ");
    sql.append(table.name().as_str());
    sql.append(" WHERE ");
    sql.append(field.column().as_str());
    sql.append(" = ");
    sql.append(bindings.next().as_str());
    sql
}

/// The statement behind `get`.
pub fn get<B: Backend>(table: &Table<B>, column_list: &str) -> (out: Statement)
    ensures
        out@ == table@.get(column_list@, B::dialect()),
{
    let sql = select_by(table, column_list, table.id());
    let mut arguments: Vec<String> = Vec::new();
    arguments.push(String::from_str("id"));
    assert(texts(arguments@) =~= seq!["id"@]);
    Statement { sql, arguments, fetch: Fetch::One }
}

/// The ordering clause of the listings of `table`.
pub fn order_by_clause<B: Backend>(table: &Table<B>) -> (out: String)
    ensures
        out@ == order_clause(table@, B::dialect()),
{
    match table.order_by() {
        Some(clause) => clause.clone(),
        None => {
            let mut out = table.id().column();
            out.append(" DESC");
            out
        },
    }
}

/// The statement behind `stream_all`.
pub fn stream_all<B: Backend>(table: &Table<B>, column_list: &str) -> (out: Statement)
    ensures
        out@ == table@.stream_all(column_list@, B::dialect()),
{
    let mut sql = String::from_str("SELECT ");
    sql.append(column_list);
    sql.append(" FROM ");
    sql.append(table.name().as_str());
    sql.append(" ORDER BY ");
    sql.append(order_by_clause(table).as_str());
    let arguments: Vec<String> = Vec::new();
    assert(texts(arguments@) =~= Seq::<Seq<char>>::empty());
    Statement { sql, arguments, fetch: Fetch::Many }
}

/// The statement behind `stream_all_paginated`.
pub fn stream_all_paginated<B: Backend>(table: &Table<B>, column_list: &str) -> (out: Statement)
    ensures
        out@ == table@.stream_all_paginated(column_list@, B::dialect()),
{
    let mut bindings = B::bindings();
    let mut sql = String::from_str("SELECT ");
    sql.append(column_list);
    sql.append(" FROM ");
    sql.append(table.name().as_str());
    sql.append(" ORDER BY ");
    sql.append(order_by_clause(table).as_str());
    sql.append(" LIMIT ");
    sql.append(bindings.next().as_str());
    sql.append(" OFFSET ");
    sql.append(bindings.next().as_str());
    sql.append(" ");
    let mut arguments: Vec<String> = Vec::new();
    arguments.push(String::from_str("limit"));
    arguments.push(String::from_str("offset"));
    assert(texts(arguments@) =~= seq!["limit"@, "offset"@]);
    Statement { sql, arguments, fetch: Fetch::Many }
}

/// The statement behind `delete_row`.
pub fn delete<B: Backend>(table: &Table<B>) -> (out: Statement)
    ensures
        out@ == table@.delete(B::dialect()),
{
    let mut bindings = B::bindings();
    let mut sql = String::from_str("DELETE FROM ");
    sql.append(table.name().as_str());
    sql.append(" WHERE ");
    sql.append(table.id().column().as_str());
    sql.append(" = ");
    sql.append(bindings.next().as_str());
    let mut arguments: Vec<String> = Vec::new();
    arguments.push(String::from_str("id"));
    assert(texts(arguments@) =~= seq!["id"@]);
    Statement { sql, arguments, fetch: Fetch::Execute }
}

/// The text of the statement that writes `columns` of the row of
/// `table_name` whose `id_column` has the value that is bound last.
pub fn update_sql<B: Backend>(table_name: &str, columns: &Vec<String>, id_column: &str) -> (out:
    String)
    requires
        columns@.len() < usize::MAX,
    ensures
        out@ == update_where(table_name@, texts(columns@), id_column@, B::dialect()),
{
    let mut bindings = B::bindings();
    let mut parts: Vec<String> = Vec::new();
    let mut i: usize = 0;
    while i < columns.len()
        invariant
            i <= columns@.len() < usize::MAX,
            bindings.issued() == i,
            bindings.dialect() == B::dialect(),
            texts(parts@) == assignments(texts(columns@), B::dialect()).take(i as int),
        decreases columns.len() - i,
    {
        let mut part = quote_identifier::<B>(columns[i].as_str());
        part.append(" = ");
        part.append(bindings.next().as_str());
        let ghost before = parts@;
        parts.push(part);
        assert(texts(parts@) =~= texts(before).push(part@));
        assert(texts(parts@) =~= assignments(texts(columns@), B::dialect()).take(i as int + 1));
        i += 1;
    }
    assert(texts(parts@) =~= assignments(texts(columns@), B::dialect()));
    proof {
        reveal_strlit(", ");
    }
    let mut sql = String::from_str("UPDATE ");
    sql.append(quote_identifier::<B>(table_name).as_str());
    sql.append(" SET ");
    sql.append(join(&parts, ", ").as_str());
    sql.append(" WHERE ");
    sql.append(quote_identifier::<B>(id_column).as_str());
    sql.append(" = ");
    sql.append(bindings.next().as_str());
    sql
}

/// The statement behind `update`.
pub fn update<B: Backend>(table: &Table<B>) -> (out: Statement)
    ensures
        out@ == table@.update(B::dialect()),
{
    let fields = table.fields_except_id();
    let mut columns: Vec<String> = Vec::new();
    let mut arguments: Vec<String> = Vec::new();
    let mut i: usize = 0;
    while i < fields.len()
        invariant
            i <= fields@.len(),
            texts(columns@) == column_names(field_ref_views(fields@)).take(i as int),
            texts(arguments@) == self::arguments(field_ref_views(fields@)).take(i as int),
        decreases fields.len() - i,
    {
        let ghost columns_before = columns@;
        let ghost arguments_before = arguments@;
        columns.push(fields[i].column_name.clone());
        arguments.push(fields[i].fmt_as_argument());
        assert(texts(columns@) =~= texts(columns_before).push(fields@[i as int]@.column_name));
        assert(texts(arguments@) =~= texts(arguments_before).push(fields@[i as int]@.argument()));
        assert(texts(columns@) =~= column_names(field_ref_views(fields@)).take(i as int + 1));
        assert(texts(arguments@) =~= self::arguments(field_ref_views(fields@)).take(
            i as int + 1,
        ));
        i += 1;
    }
    assert(texts(columns@) =~= column_names(table@.fields_except_id()));
    assert(texts(arguments@) =~= self::arguments(table@.fields_except_id()));
    let sql = update_sql::<B>(
        table.table_name().as_str(),
        &columns,
        table.id().column_name.as_str(),
    );
    let mut id_argument = String::from_str("self.");
    id_argument.append(table.id().field.as_str());
    let ghost arguments_before = arguments@;
    arguments.push(id_argument);
    assert(texts(arguments@) =~= texts(arguments_before).push(own_id(table@)));
    Statement { sql, arguments, fetch: Fetch::Execute }
}

/// The text of the statement that inserts a row of `table` from the values
/// of `insert_fields`.
pub fn insert_sql<B: Backend>(table: &Table<B>, insert_fields: &Vec<&TableField<B>>) -> (out:
    String)
    ensures
        out@ == insert_into(table@, field_ref_views(insert_fields@), B::dialect()),
{
    let ghost supplied = field_ref_views(insert_fields@);
    let mut bindings = B::bindings();
    let mut column_parts: Vec<String> = Vec::new();
    let mut binding_parts: Vec<String> = Vec::new();
    let mut i: usize = 0;
    while i < insert_fields.len()
        invariant
            i <= insert_fields@.len(),
            supplied == field_ref_views(insert_fields@),
            bindings.issued() == i,
            bindings.dialect() == B::dialect(),
            texts(column_parts@) == columns(supplied, B::dialect()).take(i as int),
            texts(binding_parts@) == placeholders(B::dialect(), supplied.len()).take(i as int),
        decreases insert_fields.len() - i,
    {
        let ghost columns_before = column_parts@;
        let ghost bindings_before = binding_parts@;
        let column = insert_fields[i].column();
        let binding = bindings.next();
        column_parts.push(column);
        binding_parts.push(binding);
        assert(texts(column_parts@) =~= texts(columns_before).push(column@));
        assert(texts(binding_parts@) =~= texts(bindings_before).push(binding@));
        assert(texts(column_parts@) =~= columns(supplied, B::dialect()).take(i as int + 1));
        assert(texts(binding_parts@) =~= placeholders(B::dialect(), supplied.len()).take(
            i as int + 1,
        ));
        i += 1;
    }
    assert(texts(column_parts@) =~= columns(supplied, B::dialect()));
    assert(texts(binding_parts@) =~= placeholders(B::dialect(), supplied.len()));
    let default_fields = table.default_fields();
    let mut returning_parts: Vec<String> = Vec::new();
    let mut j: usize = 0;
    while j < default_fields.len()
        invariant
            j <= default_fields@.len(),
            texts(returning_parts@) == select_items(
                field_ref_views(default_fields@),
                B::dialect(),
            ).take(j as int),
        decreases default_fields.len() - j,
    {
        let ghost before = returning_parts@;
        let item = default_fields[j].fmt_for_select();
        returning_parts.push(item);
        assert(texts(returning_parts@) =~= texts(before).push(item@));
        assert(texts(returning_parts@) =~= select_items(
            field_ref_views(default_fields@),
            B::dialect(),
        ).take(j as int + 1));
        j += 1;
    }
    assert(texts(returning_parts@) =~= select_items(table@.default_fields(), B::dialect()));
    proof {
        reveal_strlit(", ");
    }
    let mut sql = String::from_str("INSERT INTO ");
    sql.append(table.name().as_str());
    sql.append(" (");
    sql.append(join(&column_parts, ", ").as_str());
    sql.append(") VALUES (");
    sql.append(join(&binding_parts, ", ").as_str());
    sql.append(")");
    if default_fields.len() > 0 {
        sql.append(" RETURNING ");
        sql.append(join(&returning_parts, ", ").as_str());
    }
    sql
}

} // verus!
