//! Statements as templates: what a statement says before a dialect gives it
//! its quotes and its placeholders.

use crate::backend::{placeholder, quoted, Dialect};
use crate::sql::{
    assignments, columns, delete_where, insert_into, order_clause, placeholders,
    select_all, select_items, select_page, select_where, update_where,
};
use crate::table::{FieldView, TableView};
use crate::text::joined;
use vstd::prelude::*;

verus! {

/// A piece of a statement.
pub enum Piece {
    /// Text that every dialect writes alike.
    Text(Seq<char>),
    /// An identifier, which a dialect quotes.
    Name(Seq<char>),
    /// The bound value at a position, which a dialect marks by its
    /// placeholder.
    Value(nat),
}

/// What `piece` reads as in `dialect`.
pub open spec fn render_piece(piece: Piece, dialect: Dialect) -> Seq<char> {
    match piece {
        Piece::Text(text) => text,
        Piece::Name(identifier) => quoted(dialect, identifier),
        Piece::Value(position) => placeholder(dialect, position),
    }
}

/// What `template` reads as in `dialect`: its pieces, one after the other.
pub open spec fn render(template: Seq<Piece>, dialect: Dialect) -> Seq<char>
    decreases template.len(),
{
    if template.len() == 0 {
        Seq::empty()
    } else {
        render(template.drop_last(), dialect) + render_piece(template.last(), dialect)
    }
}

/// The template of one piece of text.
pub open spec fn text(text: Seq<char>) -> Seq<Piece> {
    seq![Piece::Text(text)]
}

/// The template of one identifier.
pub open spec fn name(identifier: Seq<char>) -> Seq<Piece> {
    seq![Piece::Name(identifier)]
}

/// The template of one bound value.
pub open spec fn value(position: nat) -> Seq<Piece> {
    seq![Piece::Value(position)]
}

/// A template of one piece reads as the piece does.
pub proof fn lemma_render_one(piece: Piece, dialect: Dialect)
    ensures
        render(seq![piece], dialect) == render_piece(piece, dialect),
{
    assert(seq![piece].drop_last() =~= Seq::<Piece>::empty());
    assert(render(seq![piece].drop_last(), dialect) =~= Seq::<char>::empty());
}

/// Two templates in a row read as the one and then the other.
pub proof fn lemma_render_add(first: Seq<Piece>, second: Seq<Piece>, dialect: Dialect)
    ensures
        render(first + second, dialect) == render(first, dialect) + render(second, dialect),
    decreases second.len(),
{
    if second.len() == 0 {
        assert(first + second =~= first);
    } else {
        lemma_render_add(first, second.drop_last(), dialect);
        assert((first + second).drop_last() =~= first + second.drop_last());
        assert((first + second).last() == second.last());
    }
}

/// The templates of `parts` in order, with a comma and a space between
/// every two neighbours.
pub open spec fn listed(parts: Seq<Seq<Piece>>) -> Seq<Piece>
    decreases parts.len(),
{
    if parts.len() == 0 {
        Seq::empty()
    } else if parts.len() == 1 {
        parts[0]
    } else {
        listed(parts.drop_last()) + text(", "@) + parts.last()
    }
}

/// What each of `parts` reads as in `dialect`, in order.
pub open spec fn rendered_parts(parts: Seq<Seq<Piece>>, dialect: Dialect) -> Seq<Seq<char>> {
    parts.map_values(|part: Seq<Piece>| render(part, dialect))
}

/// A list of templates reads as the list of what they read as.
pub proof fn lemma_render_listed(parts: Seq<Seq<Piece>>, dialect: Dialect)
    ensures
        render(listed(parts), dialect) == joined(rendered_parts(parts, dialect), ", "@),
    decreases parts.len(),
{
    let rendered = rendered_parts(parts, dialect);
    if parts.len() == 0 {
    } else if parts.len() == 1 {
    } else {
        lemma_render_listed(parts.drop_last(), dialect);
        assert(rendered.drop_last() =~= rendered_parts(parts.drop_last(), dialect));
        lemma_render_add(listed(parts.drop_last()) + text(", "@), parts.last(), dialect);
        lemma_render_add(listed(parts.drop_last()), text(", "@), dialect);
        lemma_render_one(Piece::Text(", "@), dialect);
    }
}

impl FieldView {
    /// The template of the field's column.
    pub open spec fn column_template(self) -> Seq<Piece> {
        name(self.column_name)
    }

    /// The template of the field's entry in a list of selected columns.
    pub open spec fn select_item_template(self) -> Seq<Piece> {
        if self.custom_type {
            name(self.column_name) + text(" AS "@) + name(self.field + "!: "@ + self.ty)
        } else if self.field == self.column_name {
            name(self.column_name)
        } else {
            name(self.column_name) + text(" AS "@) + name(self.field)
        }
    }
}

/// The entry of a field in a list of selected columns is its template, read
/// in the dialect.
pub proof fn lemma_select_item_renders(field: FieldView, dialect: Dialect)
    ensures
        field.select_item(dialect) == render(field.select_item_template(), dialect),
{
    lemma_render_one(Piece::Name(field.column_name), dialect);
    lemma_render_one(Piece::Text(" AS "@), dialect);
    lemma_render_one(Piece::Name(field.field), dialect);
    lemma_render_one(Piece::Name(field.field + "!: "@ + field.ty), dialect);
    lemma_render_add(name(field.column_name), text(" AS "@), dialect);
    lemma_render_add(name(field.column_name) + text(" AS "@), name(field.field), dialect);
    lemma_render_add(
        name(field.column_name) + text(" AS "@),
        name(field.field + "!: "@ + field.ty),
        dialect,
    );
}

/// The templates of the entries of `fields` in a list of selected columns.
pub open spec fn select_item_templates(fields: Seq<FieldView>) -> Seq<Seq<Piece>> {
    fields.map_values(|field: FieldView| field.select_item_template())
}

/// The templates of the columns of `fields`.
pub open spec fn column_templates(fields: Seq<FieldView>) -> Seq<Seq<Piece>> {
    fields.map_values(|field: FieldView| field.column_template())
}

/// The templates of the first `count` bound values.
pub open spec fn value_templates(count: nat) -> Seq<Seq<Piece>> {
    Seq::new(count, |i: int| value((i + 1) as nat))
}

/// The templates of the assignments to `columns`, in order.
pub open spec fn assignment_templates(columns: Seq<Seq<char>>) -> Seq<Seq<Piece>> {
    Seq::new(columns.len(), |i: int| name(columns[i]) + text(" = "@) + value((i + 1) as nat))
}

/// A list of selected columns reads as the list of its entries' templates.
pub proof fn lemma_select_items_render(fields: Seq<FieldView>, dialect: Dialect)
    ensures
        joined(select_items(fields, dialect), ", "@) == render(
            listed(select_item_templates(fields)),
            dialect,
        ),
{
    lemma_render_listed(select_item_templates(fields), dialect);
    assert forall|i: int| 0 <= i < fields.len() implies select_items(fields, dialect)[i]
        == rendered_parts(select_item_templates(fields), dialect)[i] by {
        lemma_select_item_renders(fields[i], dialect);
    }
    assert(select_items(fields, dialect) =~= rendered_parts(
        select_item_templates(fields),
        dialect,
    ));
}

/// A list of columns reads as the list of the columns' templates.
pub proof fn lemma_columns_render(fields: Seq<FieldView>, dialect: Dialect)
    ensures
        joined(columns(fields, dialect), ", "@) == render(
            listed(column_templates(fields)),
            dialect,
        ),
{
    lemma_render_listed(column_templates(fields), dialect);
    assert forall|i: int| 0 <= i < fields.len() implies columns(fields, dialect)[i]
        == rendered_parts(column_templates(fields), dialect)[i] by {
        lemma_render_one(Piece::Name(fields[i].column_name), dialect);
    }
    assert(columns(fields, dialect) =~= rendered_parts(column_templates(fields), dialect));
}

/// A list of placeholders reads as the list of the values' templates.
pub proof fn lemma_placeholders_render(count: nat, dialect: Dialect)
    ensures
        joined(placeholders(dialect, count), ", "@) == render(
            listed(value_templates(count)),
            dialect,
        ),
{
    lemma_render_listed(value_templates(count), dialect);
    assert forall|i: int| 0 <= i < count implies placeholders(dialect, count)[i]
        == rendered_parts(value_templates(count), dialect)[i] by {
        lemma_render_one(Piece::Value((i + 1) as nat), dialect);
    }
    assert(placeholders(dialect, count) =~= rendered_parts(value_templates(count), dialect));
}

/// A list of assignments reads as the list of the assignments' templates.
pub proof fn lemma_assignments_render(columns: Seq<Seq<char>>, dialect: Dialect)
    ensures
        joined(assignments(columns, dialect), ", "@) == render(
            listed(assignment_templates(columns)),
            dialect,
        ),
{
    lemma_render_listed(assignment_templates(columns), dialect);
    assert forall|i: int| 0 <= i < columns.len() implies assignments(columns, dialect)[i]
        == rendered_parts(assignment_templates(columns), dialect)[i] by {
        lemma_render_one(Piece::Name(columns[i]), dialect);
        lemma_render_one(Piece::Text(" = "@), dialect);
        lemma_render_one(Piece::Value((i + 1) as nat), dialect);
        lemma_render_add(name(columns[i]), text(" = "@), dialect);
        lemma_render_add(name(columns[i]) + text(" = "@), value((i + 1) as nat), dialect);
    }
    assert(assignments(columns, dialect) =~= rendered_parts(
        assignment_templates(columns),
        dialect,
    ));
}

impl TableView {
    /// The template of the list of selected columns.
    pub open spec fn column_list_template(self) -> Seq<Piece> {
        listed(select_item_templates(self.fields))
    }

    /// The template of the ordering of listings.
    pub open spec fn order_template(self) -> Seq<Piece> {
        match self.order_by {
            Some(clause) => text(clause),
            None => name(self.id.column_name) + text(" DESC"@),
        }
    }

    /// The template of a lookup by `column`.
    pub open spec fn select_where_template(self, column: Seq<char>) -> Seq<Piece> {
        text("SELECT "@) + self.column_list_template() + text(" FROM "@) + name(self.table)
            + text(" WHERE "@) + name(column) + text(" = "@) + value(1)
    }

    /// The template of the listing of every row.
    pub open spec fn select_all_template(self) -> Seq<Piece> {
        text("SELECT "@) + self.column_list_template() + text(" FROM "@) + name(self.table)
            + text(" ORDER BY "@) + self.order_template()
    }

    /// The template of the listing of a page of rows.
    pub open spec fn select_page_template(self) -> Seq<Piece> {
        self.select_all_template() + text(" LIMIT "@) + value(1) + text(" OFFSET "@) + value(2)
            + text(" "@)
    }

    /// The template of the deletion of a row.
    pub open spec fn delete_template(self) -> Seq<Piece> {
        text("DELETE FROM "@) + name(self.table) + text(" WHERE "@) + name(self.id.column_name)
            + text(" = "@) + value(1)
    }

    /// The template of the insertion of a row from the values of
    /// `insert_fields`.
    pub open spec fn insert_template(self, insert_fields: Seq<FieldView>) -> Seq<Piece> {
        let plain = text("INSERT INTO "@) + name(self.table) + text(" ("@) + listed(
            column_templates(insert_fields),
        ) + text(") VALUES ("@) + listed(value_templates(insert_fields.len())) + text(")"@);
        if self.default_fields().len() == 0 {
            plain
        } else {
            plain + text(" RETURNING "@) + listed(select_item_templates(self.default_fields()))
        }
    }
}

/// The template of a statement that writes `columns` of the row of
/// `table_name` whose `id_column` has the value that is bound last.
pub open spec fn update_template(
    table_name: Seq<char>,
    columns: Seq<Seq<char>>,
    id_column: Seq<char>,
) -> Seq<Piece> {
    text("UPDATE "@) + name(table_name) + text(" SET "@) + listed(assignment_templates(columns))
        + text(" WHERE "@) + name(id_column) + text(" = "@) + value(columns.len() + 1)
}

/// A template of two parts reads as the first part and then the text of the
/// second.
proof fn lemma_then_text(before: Seq<Piece>, words: Seq<char>, dialect: Dialect)
    ensures
        render(before + text(words), dialect) == render(before, dialect) + words,
{
    lemma_render_add(before, text(words), dialect);
    lemma_render_one(Piece::Text(words), dialect);
}

/// A template of two parts reads as the first part and then the quoted
/// identifier of the second.
proof fn lemma_then_name(before: Seq<Piece>, identifier: Seq<char>, dialect: Dialect)
    ensures
        render(before + name(identifier), dialect) == render(before, dialect) + quoted(
            dialect,
            identifier,
        ),
{
    lemma_render_add(before, name(identifier), dialect);
    lemma_render_one(Piece::Name(identifier), dialect);
}

/// A template of two parts reads as the first part and then the placeholder
/// of the second.
proof fn lemma_then_value(before: Seq<Piece>, position: nat, dialect: Dialect)
    ensures
        render(before + value(position), dialect) == render(before, dialect) + placeholder(
            dialect,
            position,
        ),
{
    lemma_render_add(before, value(position), dialect);
    lemma_render_one(Piece::Value(position), dialect);
}

/// A lookup by a column is its template, read in the dialect.
pub proof fn lemma_select_where_renders(table: TableView, column: Seq<char>, dialect: Dialect)
    ensures
        select_where(table, table.select_column_list(dialect), column, dialect) == render(
            table.select_where_template(column),
            dialect,
        ),
{
    let list = table.column_list_template();
    lemma_select_items_render(table.fields, dialect);
    let t1 = text("SELECT "@);
    lemma_render_one(Piece::Text("SELECT "@), dialect);
    let t2 = t1 + list;
    lemma_render_add(t1, list, dialect);
    let t3 = t2 + text(" FROM "@);
    lemma_then_text(t2, " FROM "@, dialect);
    let t4 = t3 + name(table.table);
    lemma_then_name(t3, table.table, dialect);
    let t5 = t4 + text(" WHERE "@);
    lemma_then_text(t4, " WHERE "@, dialect);
    let t6 = t5 + name(column);
    lemma_then_name(t5, column, dialect);
    let t7 = t6 + text(" = "@);
    lemma_then_text(t6, " = "@, dialect);
    lemma_then_value(t7, 1, dialect);
}

/// The ordering of listings is its template, read in the dialect.
pub proof fn lemma_order_renders(table: TableView, dialect: Dialect)
    ensures
        order_clause(table, dialect) == render(table.order_template(), dialect),
{
    match table.order_by {
        Some(clause) => {
            lemma_render_one(Piece::Text(clause), dialect);
        },
        None => {
            lemma_render_one(Piece::Name(table.id.column_name), dialect);
            lemma_then_text(name(table.id.column_name), " DESC"@, dialect);
        },
    }
}

/// The listing of every row is its template, read in the dialect.
pub proof fn lemma_select_all_renders(table: TableView, dialect: Dialect)
    ensures
        select_all(table, table.select_column_list(dialect), dialect) == render(
            table.select_all_template(),
            dialect,
        ),
{
    let list = table.column_list_template();
    lemma_select_items_render(table.fields, dialect);
    lemma_order_renders(table, dialect);
    let t1 = text("SELECT "@);
    lemma_render_one(Piece::Text("SELECT "@), dialect);
    let t2 = t1 + list;
    lemma_render_add(t1, list, dialect);
    let t3 = t2 + text(" FROM "@);
    lemma_then_text(t2, " FROM "@, dialect);
    let t4 = t3 + name(table.table);
    lemma_then_name(t3, table.table, dialect);
    let t5 = t4 + text(" ORDER BY "@);
    lemma_then_text(t4, " ORDER BY "@, dialect);
    lemma_render_add(t5, table.order_template(), dialect);
}

/// The listing of a page of rows is its template, read in the dialect.
pub proof fn lemma_select_page_renders(table: TableView, dialect: Dialect)
    ensures
        select_page(table, table.select_column_list(dialect), dialect) == render(
            table.select_page_template(),
            dialect,
        ),
{
    lemma_select_all_renders(table, dialect);
    let t1 = table.select_all_template();
    let t2 = t1 + text(" LIMIT "@);
    lemma_then_text(t1, " LIMIT "@, dialect);
    let t3 = t2 + value(1);
    lemma_then_value(t2, 1, dialect);
    let t4 = t3 + text(" OFFSET "@);
    lemma_then_text(t3, " OFFSET "@, dialect);
    let t5 = t4 + value(2);
    lemma_then_value(t4, 2, dialect);
    lemma_then_text(t5, " "@, dialect);
}

/// The deletion of a row is its template, read in the dialect.
pub proof fn lemma_delete_renders(table: TableView, dialect: Dialect)
    ensures
        delete_where(table, dialect) == render(table.delete_template(), dialect),
{
    let t1 = text("DELETE FROM "@);
    lemma_render_one(Piece::Text("DELETE FROM "@), dialect);
    let t2 = t1 + name(table.table);
    lemma_then_name(t1, table.table, dialect);
    let t3 = t2 + text(" WHERE "@);
    lemma_then_text(t2, " WHERE "@, dialect);
    let t4 = t3 + name(table.id.column_name);
    lemma_then_name(t3, table.id.column_name, dialect);
    let t5 = t4 + text(" = "@);
    lemma_then_text(t4, " = "@, dialect);
    lemma_then_value(t5, 1, dialect);
}

/// A statement that writes columns is its template, read in the dialect.
pub proof fn lemma_update_renders(
    table_name: Seq<char>,
    columns: Seq<Seq<char>>,
    id_column: Seq<char>,
    dialect: Dialect,
)
    ensures
        update_where(table_name, columns, id_column, dialect) == render(
            update_template(table_name, columns, id_column),
            dialect,
        ),
{
    lemma_assignments_render(columns, dialect);
    let list = listed(assignment_templates(columns));
    let t1 = text("UPDATE "@);
    lemma_render_one(Piece::Text("UPDATE "@), dialect);
    let t2 = t1 + name(table_name);
    lemma_then_name(t1, table_name, dialect);
    let t3 = t2 + text(" SET "@);
    lemma_then_text(t2, " SET "@, dialect);
    let t4 = t3 + list;
    lemma_render_add(t3, list, dialect);
    let t5 = t4 + text(" WHERE "@);
    lemma_then_text(t4, " WHERE "@, dialect);
    let t6 = t5 + name(id_column);
    lemma_then_name(t5, id_column, dialect);
    let t7 = t6 + text(" = "@);
    lemma_then_text(t6, " = "@, dialect);
    lemma_then_value(t7, columns.len() + 1, dialect);
}

/// The insertion of a row is its template, read in the dialect.
pub proof fn lemma_insert_renders(
    table: TableView,
    insert_fields: Seq<FieldView>,
    dialect: Dialect,
)
    ensures
        insert_into(table, insert_fields, dialect) == render(
            table.insert_template(insert_fields),
            dialect,
        ),
{
    lemma_columns_render(insert_fields, dialect);
    lemma_placeholders_render(insert_fields.len(), dialect);
    lemma_select_items_render(table.default_fields(), dialect);
    let column_list = listed(column_templates(insert_fields));
    let value_list = listed(value_templates(insert_fields.len()));
    let returned = listed(select_item_templates(table.default_fields()));
    let t1 = text("INSERT INTO "@);
    lemma_render_one(Piece::Text("INSERT INTO "@), dialect);
    let t2 = t1 + name(table.table);
    lemma_then_name(t1, table.table, dialect);
    let t3 = t2 + text(" ("@);
    lemma_then_text(t2, " ("@, dialect);
    let t4 = t3 + column_list;
    lemma_render_add(t3, column_list, dialect);
    let t5 = t4 + text(") VALUES ("@);
    lemma_then_text(t4, ") VALUES ("@, dialect);
    let t6 = t5 + value_list;
    lemma_render_add(t5, value_list, dialect);
    let t7 = t6 + text(")"@);
    lemma_then_text(t6, ")"@, dialect);
    let t8 = t7 + text(" RETURNING "@);
    lemma_then_text(t7, " RETURNING "@, dialect);
    lemma_render_add(t8, returned, dialect);
}

/// The positions of the bound values of `template`, in the order in which
/// the template names them.
pub open spec fn positions(template: Seq<Piece>) -> Seq<nat>
    decreases template.len(),
{
    if template.len() == 0 {
        Seq::empty()
    } else {
        match template.last() {
            Piece::Value(position) => positions(template.drop_last()).push(position),
            _ => positions(template.drop_last()),
        }
    }
}

/// The positions from 1 to `count`, in order.
pub open spec fn counted(count: nat) -> Seq<nat> {
    Seq::new(count, |i: int| (i + 1) as nat)
}

/// A template of one piece names the position of the piece, if the piece is
/// a bound value.
pub proof fn lemma_positions_one(piece: Piece)
    ensures
        positions(seq![piece]) == match piece {
            Piece::Value(position) => seq![position],
            _ => Seq::<nat>::empty(),
        },
{
    assert(seq![piece].drop_last() =~= Seq::<Piece>::empty());
    assert(positions(seq![piece].drop_last()) =~= Seq::<nat>::empty());
    assert(seq![piece].last() == piece);
    match piece {
        Piece::Value(position) => {
            assert(Seq::<nat>::empty().push(position) =~= seq![position]);
        },
        _ => {},
    }
}

/// Two templates in a row name the positions of the one and then those of
/// the other.
pub proof fn lemma_positions_add(first: Seq<Piece>, second: Seq<Piece>)
    ensures
        positions(first + second) == positions(first) + positions(second),
    decreases second.len(),
{
    if second.len() == 0 {
        assert(first + second =~= first);
        assert(positions(first) + Seq::<nat>::empty() =~= positions(first));
    } else {
        lemma_positions_add(first, second.drop_last());
        assert((first + second).drop_last() =~= first + second.drop_last());
        assert((first + second).last() == second.last());
        match second.last() {
            Piece::Value(position) => {
                assert((positions(first) + positions(second.drop_last())).push(position)
                    =~= positions(first) + positions(second.drop_last()).push(position));
            },
            _ => {},
        }
    }
}

/// A list of templates without bound values has none.
pub proof fn lemma_listed_without_values(parts: Seq<Seq<Piece>>)
    requires
        forall|i: int| 0 <= i < parts.len() ==> positions(#[trigger] parts[i]).len() == 0,
    ensures
        positions(listed(parts)).len() == 0,
    decreases parts.len(),
{
    if parts.len() > 1 {
        lemma_listed_without_values(parts.drop_last());
        lemma_positions_add(listed(parts.drop_last()) + text(", "@), parts.last());
        lemma_positions_add(listed(parts.drop_last()), text(", "@));
        lemma_positions_one(Piece::Text(", "@));
    } else if parts.len() == 1 {
        assert(positions(parts[0]).len() == 0);
    }
}

/// A list of templates of which each names the one position after those of
/// the templates before it counts from 1 to the number of the templates.
pub proof fn lemma_listed_counts(parts: Seq<Seq<Piece>>)
    requires
        forall|i: int|
            0 <= i < parts.len() ==> positions(#[trigger] parts[i]) == seq![(i + 1) as nat],
    ensures
        positions(listed(parts)) == counted(parts.len()),
    decreases parts.len(),
{
    if parts.len() == 0 {
        assert(positions(listed(parts)) =~= counted(0));
    } else if parts.len() == 1 {
        assert(positions(parts[0]) == seq![1nat]);
        assert(seq![1nat] =~= counted(1));
    } else {
        let before = parts.drop_last();
        assert forall|i: int| 0 <= i < before.len() implies positions(#[trigger] before[i])
            == seq![(i + 1) as nat] by {
            assert(before[i] == parts[i]);
        }
        lemma_listed_counts(before);
        lemma_positions_add(listed(before) + text(", "@), parts.last());
        lemma_positions_add(listed(before), text(", "@));
        lemma_positions_one(Piece::Text(", "@));
        assert(positions(parts.last()) == seq![parts.len()]) by {
            assert(parts.last() == parts[parts.len() - 1]);
        }
        assert(counted(before.len()) + Seq::<nat>::empty() + seq![parts.len()] =~= counted(
            parts.len(),
        ));
    }
}

/// The entry of a field in a list of selected columns binds no value.
pub proof fn lemma_select_item_binds_nothing(field: FieldView)
    ensures
        positions(field.select_item_template()).len() == 0,
{
    lemma_positions_one(Piece::Name(field.column_name));
    lemma_positions_one(Piece::Text(" AS "@));
    lemma_positions_one(Piece::Name(field.field));
    lemma_positions_one(Piece::Name(field.field + "!: "@ + field.ty));
    lemma_positions_add(name(field.column_name), text(" AS "@));
    lemma_positions_add(name(field.column_name) + text(" AS "@), name(field.field));
    lemma_positions_add(
        name(field.column_name) + text(" AS "@),
        name(field.field + "!: "@ + field.ty),
    );
}

/// A list of selected columns binds no value.
pub proof fn lemma_select_items_bind_nothing(fields: Seq<FieldView>)
    ensures
        positions(listed(select_item_templates(fields))).len() == 0,
{
    assert forall|i: int| 0 <= i < select_item_templates(fields).len() implies positions(
        #[trigger] select_item_templates(fields)[i],
    ).len() == 0 by {
        lemma_select_item_binds_nothing(fields[i]);
    }
    lemma_listed_without_values(select_item_templates(fields));
}

/// A template followed by text names the positions of the template.
proof fn lemma_text_binds_nothing(before: Seq<Piece>, words: Seq<char>)
    ensures
        positions(before + text(words)) == positions(before),
{
    lemma_positions_add(before, text(words));
    lemma_positions_one(Piece::Text(words));
    assert(positions(before) + Seq::<nat>::empty() =~= positions(before));
}

/// A template followed by an identifier names the positions of the
/// template.
proof fn lemma_name_binds_nothing(before: Seq<Piece>, identifier: Seq<char>)
    ensures
        positions(before + name(identifier)) == positions(before),
{
    lemma_positions_add(before, name(identifier));
    lemma_positions_one(Piece::Name(identifier));
    assert(positions(before) + Seq::<nat>::empty() =~= positions(before));
}

/// A template followed by a bound value names the positions of the
/// template and then that of the value.
proof fn lemma_value_binds(before: Seq<Piece>, position: nat)
    ensures
        positions(before + value(position)) == positions(before).push(position),
{
    lemma_positions_add(before, value(position));
    lemma_positions_one(Piece::Value(position));
    assert(positions(before) + seq![position] =~= positions(before).push(position));
}

/// A lookup by a column binds one value.
pub proof fn lemma_select_where_binds_one(table: TableView, column: Seq<char>)
    ensures
        positions(table.select_where_template(column)) == counted(1),
{
    let list = table.column_list_template();
    lemma_select_items_bind_nothing(table.fields);
    let t1 = text("SELECT "@);
    lemma_positions_one(Piece::Text("SELECT "@));
    let t2 = t1 + list;
    lemma_positions_add(t1, list);
    let t3 = t2 + text(" FROM "@);
    lemma_text_binds_nothing(t2, " FROM "@);
    let t4 = t3 + name(table.table);
    lemma_name_binds_nothing(t3, table.table);
    let t5 = t4 + text(" WHERE "@);
    lemma_text_binds_nothing(t4, " WHERE "@);
    let t6 = t5 + name(column);
    lemma_name_binds_nothing(t5, column);
    let t7 = t6 + text(" = "@);
    lemma_text_binds_nothing(t6, " = "@);
    lemma_value_binds(t7, 1);
    assert(positions(t7).len() == 0);
    assert(positions(t7).push(1nat) =~= counted(1));
}

/// The listing of every row binds no value.
pub proof fn lemma_select_all_binds_nothing(table: TableView)
    ensures
        positions(table.select_all_template()).len() == 0,
{
    let list = table.column_list_template();
    lemma_select_items_bind_nothing(table.fields);
    let t1 = text("SELECT "@);
    lemma_positions_one(Piece::Text("SELECT "@));
    let t2 = t1 + list;
    lemma_positions_add(t1, list);
    let t3 = t2 + text(" FROM "@);
    lemma_text_binds_nothing(t2, " FROM "@);
    let t4 = t3 + name(table.table);
    lemma_name_binds_nothing(t3, table.table);
    let t5 = t4 + text(" ORDER BY "@);
    lemma_text_binds_nothing(t4, " ORDER BY "@);
    lemma_positions_add(t5, table.order_template());
    match table.order_by {
        Some(clause) => {
            lemma_positions_one(Piece::Text(clause));
        },
        None => {
            lemma_positions_one(Piece::Name(table.id.column_name));
            lemma_text_binds_nothing(name(table.id.column_name), " DESC"@);
        },
    }
}

/// The listing of a page of rows binds two values.
pub proof fn lemma_select_page_binds_two(table: TableView)
    ensures
        positions(table.select_page_template()) == counted(2),
{
    lemma_select_all_binds_nothing(table);
    let t1 = table.select_all_template();
    let t2 = t1 + text(" LIMIT "@);
    lemma_text_binds_nothing(t1, " LIMIT "@);
    let t3 = t2 + value(1);
    lemma_value_binds(t2, 1);
    let t4 = t3 + text(" OFFSET "@);
    lemma_text_binds_nothing(t3, " OFFSET "@);
    let t5 = t4 + value(2);
    lemma_value_binds(t4, 2);
    lemma_text_binds_nothing(t5, " "@);
    assert(positions(t1).push(1nat).push(2nat) =~= counted(2));
}

/// The deletion of a row binds one value.
pub proof fn lemma_delete_binds_one(table: TableView)
    ensures
        positions(table.delete_template()) == counted(1),
{
    let t1 = text("DELETE FROM "@);
    lemma_positions_one(Piece::Text("DELETE FROM "@));
    let t2 = t1 + name(table.table);
    lemma_name_binds_nothing(t1, table.table);
    let t3 = t2 + text(" WHERE "@);
    lemma_text_binds_nothing(t2, " WHERE "@);
    let t4 = t3 + name(table.id.column_name);
    lemma_name_binds_nothing(t3, table.id.column_name);
    let t5 = t4 + text(" = "@);
    lemma_text_binds_nothing(t4, " = "@);
    lemma_value_binds(t5, 1);
    assert(positions(t5).len() == 0);
    assert(positions(t5).push(1nat) =~= counted(1));
}

/// A statement that writes columns binds one value for each column and one
/// more for the id, counted in this order.
pub proof fn lemma_update_binds_columns_and_id(
    table_name: Seq<char>,
    columns: Seq<Seq<char>>,
    id_column: Seq<char>,
)
    ensures
        positions(update_template(table_name, columns, id_column)) == counted(columns.len() + 1),
{
    let parts = assignment_templates(columns);
    assert forall|i: int| 0 <= i < parts.len() implies positions(#[trigger] parts[i])
        == seq![(i + 1) as nat] by {
        lemma_positions_one(Piece::Name(columns[i]));
        lemma_text_binds_nothing(name(columns[i]), " = "@);
        lemma_value_binds(name(columns[i]) + text(" = "@), (i + 1) as nat);
        assert(Seq::<nat>::empty().push((i + 1) as nat) =~= seq![(i + 1) as nat]);
    }
    lemma_listed_counts(parts);
    let list = listed(parts);
    let t1 = text("UPDATE "@);
    lemma_positions_one(Piece::Text("UPDATE "@));
    let t2 = t1 + name(table_name);
    lemma_name_binds_nothing(t1, table_name);
    let t3 = t2 + text(" SET "@);
    lemma_text_binds_nothing(t2, " SET "@);
    let t4 = t3 + list;
    lemma_positions_add(t3, list);
    let t5 = t4 + text(" WHERE "@);
    lemma_text_binds_nothing(t4, " WHERE "@);
    let t6 = t5 + name(id_column);
    lemma_name_binds_nothing(t5, id_column);
    let t7 = t6 + text(" = "@);
    lemma_text_binds_nothing(t6, " = "@);
    lemma_value_binds(t7, columns.len() + 1);
    assert(positions(t7) =~= counted(columns.len()));
    assert(counted(columns.len()).push(columns.len() + 1) =~= counted(columns.len() + 1));
}

/// The insertion of a row binds one value for each of `insert_fields`,
/// counted in their order.
pub proof fn lemma_insert_binds_the_supplied(table: TableView, insert_fields: Seq<FieldView>)
    ensures
        positions(table.insert_template(insert_fields)) == counted(insert_fields.len()),
{
    let column_parts = column_templates(insert_fields);
    assert forall|i: int| 0 <= i < column_parts.len() implies positions(
        #[trigger] column_parts[i],
    ).len() == 0 by {
        lemma_positions_one(Piece::Name(insert_fields[i].column_name));
    }
    lemma_listed_without_values(column_parts);
    let value_parts = value_templates(insert_fields.len());
    assert forall|i: int| 0 <= i < value_parts.len() implies positions(#[trigger] value_parts[i])
        == seq![(i + 1) as nat] by {
        lemma_positions_one(Piece::Value((i + 1) as nat));
    }
    lemma_listed_counts(value_parts);
    lemma_select_items_bind_nothing(table.default_fields());
    let column_list = listed(column_parts);
    let value_list = listed(value_parts);
    let returned = listed(select_item_templates(table.default_fields()));
    let t1 = text("INSERT INTO "@);
    lemma_positions_one(Piece::Text("INSERT INTO "@));
    let t2 = t1 + name(table.table);
    lemma_name_binds_nothing(t1, table.table);
    let t3 = t2 + text(" ("@);
    lemma_text_binds_nothing(t2, " ("@);
    let t4 = t3 + column_list;
    lemma_positions_add(t3, column_list);
    let t5 = t4 + text(") VALUES ("@);
    lemma_text_binds_nothing(t4, ") VALUES ("@);
    let t6 = t5 + value_list;
    lemma_positions_add(t5, value_list);
    let t7 = t6 + text(")"@);
    lemma_text_binds_nothing(t6, ")"@);
    let t8 = t7 + text(" RETURNING "@);
    lemma_text_binds_nothing(t7, " RETURNING "@);
    lemma_positions_add(t8, returned);
    assert(positions(t5).len() == 0);
    assert(positions(t5) + counted(insert_fields.len()) =~= counted(insert_fields.len()));
    assert(positions(t7) + positions(returned) =~= positions(t7));
}

} // verus!
