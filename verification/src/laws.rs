//! What holds of the statements of every table.

use crate::backend::{
    placeholder, query_result_path, quoted, result_accessor, spec_insert_strategy, Dialect, Fetch,
};
use crate::emit::{
    row_value, DeleteImplView, GetterImplView, InsertImplView, InsertStructView, RowValueView,
    SetterImplView, TableImplView,
};
use crate::generate::DerivedView;
use crate::patch::PatchView;
use crate::sql::{
    arguments, column_names, columns, own_id, placeholders, select_items, update_where,
    StatementView,
};
use crate::table::{bound_value, lemma_filter_take_succ, FieldView, GetterView, TableView};
use crate::template::{
    counted, lemma_delete_binds_one, lemma_delete_renders, lemma_insert_binds_the_supplied,
    lemma_insert_renders, lemma_select_all_binds_nothing, lemma_select_all_renders,
    lemma_select_page_binds_two, lemma_select_page_renders, lemma_select_where_binds_one,
    lemma_select_where_renders, lemma_update_binds_columns_and_id, lemma_update_renders,
    positions, render, update_template, Piece,
};
use crate::text::joined;
use vstd::prelude::*;

verus! {

/// A statement before a dialect reads it: its template, the expressions it
/// binds and the way it is run.
pub struct StatementTemplate {
    pub pieces: Seq<Piece>,
    pub arguments: Seq<Seq<char>>,
    pub fetch: Fetch,
}

impl StatementTemplate {
    /// The statement in `dialect`.
    pub open spec fn read(self, dialect: Dialect) -> StatementView {
        StatementView {
            sql: render(self.pieces, dialect),
            arguments: self.arguments,
            fetch: self.fetch,
        }
    }
}

impl TableView {
    /// The lookup by id, before a dialect reads it.
    pub open spec fn get_template(self) -> StatementTemplate {
        StatementTemplate {
            pieces: self.select_where_template(self.id.column_name),
            arguments: seq!["id"@],
            fetch: Fetch::One,
        }
    }

    /// The listing of every row, before a dialect reads it.
    pub open spec fn stream_all_template(self) -> StatementTemplate {
        StatementTemplate {
            pieces: self.select_all_template(),
            arguments: Seq::empty(),
            fetch: Fetch::Many,
        }
    }

    /// The listing of a page of rows, before a dialect reads it.
    pub open spec fn stream_all_paginated_template(self) -> StatementTemplate {
        StatementTemplate {
            pieces: self.select_page_template(),
            arguments: seq!["limit"@, "offset"@],
            fetch: Fetch::Many,
        }
    }

    /// The update of a row, before a dialect reads it.
    pub open spec fn update_statement_template(self) -> StatementTemplate {
        StatementTemplate {
            pieces: update_template(
                self.table,
                column_names(self.fields_except_id()),
                self.id.column_name,
            ),
            arguments: arguments(self.fields_except_id()).push(own_id(self)),
            fetch: Fetch::Execute,
        }
    }

    /// The deletion of a row, before a dialect reads it.
    pub open spec fn delete_statement_template(self) -> StatementTemplate {
        StatementTemplate {
            pieces: self.delete_template(),
            arguments: seq!["id"@],
            fetch: Fetch::Execute,
        }
    }

    /// The insertion of a row, before a dialect reads it.
    pub open spec fn insert_statement_template(self) -> StatementTemplate {
        StatementTemplate {
            pieces: self.insert_template(self.insertable_fields()),
            arguments: arguments(self.insertable_fields()),
            fetch: spec_insert_strategy(self.default_fields().len() > 0),
        }
    }
}

/// Two dialects give a table the same statements but for the quote
/// character and the placeholders: each statement of the table is one
/// template, with one list of bound expressions and one way of being run,
/// and a dialect only reads the template. So the dialects agree on the
/// order of the columns, on the order of the clauses and on the fields that
/// a statement names.
pub proof fn law_dialects_read_one_template(table: TableView, first: Dialect, second: Dialect)
    ensures
        table.get(table.select_column_list(first), first) == table.get_template().read(first),
        table.get(table.select_column_list(second), second) == table.get_template().read(second),
        table.stream_all(table.select_column_list(first), first)
            == table.stream_all_template().read(first),
        table.stream_all(table.select_column_list(second), second)
            == table.stream_all_template().read(second),
        table.stream_all_paginated(table.select_column_list(first), first)
            == table.stream_all_paginated_template().read(first),
        table.stream_all_paginated(table.select_column_list(second), second)
            == table.stream_all_paginated_template().read(second),
        table.update(first) == table.update_statement_template().read(first),
        table.update(second) == table.update_statement_template().read(second),
        table.delete(first) == table.delete_statement_template().read(first),
        table.delete(second) == table.delete_statement_template().read(second),
        table.insert(first) == table.insert_statement_template().read(first),
        table.insert(second) == table.insert_statement_template().read(second),
{
    lemma_select_where_renders(table, table.id.column_name, first);
    lemma_select_where_renders(table, table.id.column_name, second);
    lemma_select_all_renders(table, first);
    lemma_select_all_renders(table, second);
    lemma_select_page_renders(table, first);
    lemma_select_page_renders(table, second);
    lemma_update_renders(
        table.table,
        column_names(table.fields_except_id()),
        table.id.column_name,
        first,
    );
    lemma_update_renders(
        table.table,
        column_names(table.fields_except_id()),
        table.id.column_name,
        second,
    );
    lemma_delete_renders(table, first);
    lemma_delete_renders(table, second);
    lemma_insert_renders(table, table.insertable_fields(), first);
    lemma_insert_renders(table, table.insertable_fields(), second);
}

/// Two dialects give a field the same lookups and the same setter but for
/// the quote character and the placeholders; so they do for a patch.
pub proof fn law_dialects_read_one_accessor(
    table: TableView,
    patch: PatchView,
    field: FieldView,
    getter: GetterView,
    fetch: Fetch,
    func: Seq<char>,
    first: Dialect,
    second: Dialect,
)
    ensures
        table.getter(field, getter, fetch, first) == (GetterImplView {
            statement: StatementView {
                sql: render(table.select_where_template(field.column_name), first),
                ..table.getter(field, getter, fetch, second).statement
            },
            ..table.getter(field, getter, fetch, second)
        }),
        table.getter(field, getter, fetch, second).statement.sql == render(
            table.select_where_template(field.column_name),
            second,
        ),
        table.setter(field, func, first) == (SetterImplView {
            statement: StatementView {
                sql: render(
                    update_template(table.table, seq![field.column_name], table.id.column_name),
                    first,
                ),
                ..table.setter(field, func, second).statement
            },
            ..table.setter(field, func, second)
        }),
        table.setter(field, func, second).statement.sql == render(
            update_template(table.table, seq![field.column_name], table.id.column_name),
            second,
        ),
        patch.patch_row(first) == (StatementView {
            sql: render(update_template(patch.table_name, patch.columns(), patch.id), first),
            ..patch.patch_row(second)
        }),
        patch.patch_row(second).sql == render(
            update_template(patch.table_name, patch.columns(), patch.id),
            second,
        ),
{
    lemma_select_where_renders(table, field.column_name, first);
    lemma_select_where_renders(table, field.column_name, second);
    lemma_update_renders(table.table, seq![field.column_name], table.id.column_name, first);
    lemma_update_renders(table.table, seq![field.column_name], table.id.column_name, second);
    lemma_update_renders(patch.table_name, patch.columns(), patch.id, first);
    lemma_update_renders(patch.table_name, patch.columns(), patch.id, second);
}

/// The list of selected columns has one entry for every field of the table,
/// in the order of declaration, whether or not the database supplies the
/// field's value. The entry of a field of a custom type names the field's
/// type in its alias.
pub proof fn law_select_list_has_every_field(table: TableView, dialect: Dialect)
    ensures
        table.select_column_list(dialect) == joined(select_items(table.fields, dialect), ", "@),
        select_items(table.fields, dialect).len() == table.fields.len(),
        forall|i: int|
            0 <= i < table.fields.len() ==> #[trigger] select_items(table.fields, dialect)[i]
                == table.fields[i].select_item(dialect),
        forall|i: int|
            0 <= i < table.fields.len() && table.fields[i].custom_type ==> #[trigger] select_items(
                table.fields,
                dialect,
            )[i] == quoted(dialect, table.fields[i].column_name) + " AS "@ + quoted(
                dialect,
                table.fields[i].field + "!: "@ + table.fields[i].ty,
            ),
{
}

/// The columns of an insert are those of the fields whose values the caller
/// supplies, in the order of declaration: every field that the database
/// does not supply is among them, and no other.
pub proof fn law_insert_names_the_supplied_fields(table: TableView, dialect: Dialect)
    ensures
        forall|i: int|
            0 <= i < table.insertable_fields().len() ==> !(
            #[trigger] table.insertable_fields()[i]).default && table.fields.contains(
                table.insertable_fields()[i],
            ),
        forall|i: int|
            0 <= i < table.fields.len() && !table.fields[i].default
                ==> table.insertable_fields().contains(#[trigger] table.fields[i]),
        columns(table.insertable_fields(), dialect).len() == table.insertable_fields().len(),
        forall|i: int|
            0 <= i < table.insertable_fields().len() ==> #[trigger] columns(
                table.insertable_fields(),
                dialect,
            )[i] == table.insertable_fields()[i].column(dialect),
{
    let supplied = |field: FieldView| !field.default;
    assert forall|i: int| 0 <= i < table.insertable_fields().len() implies !(
    #[trigger] table.insertable_fields()[i]).default && table.fields.contains(
        table.insertable_fields()[i],
    ) by {
        table.fields.lemma_filter_pred(supplied, i);
        assert(table.insertable_fields().contains(table.insertable_fields()[i]));
        table.fields.lemma_filter_contains_rev(supplied, table.insertable_fields()[i]);
    }
    assert forall|i: int|
        0 <= i < table.fields.len() && !table.fields[i].default
            implies table.insertable_fields().contains(#[trigger] table.fields[i]) by {
        table.fields.lemma_filter_contains(supplied, i);
    }
}

/// The text of an insert without the clause that returns generated values.
pub open spec fn plain_insert(table: TableView, dialect: Dialect) -> Seq<char> {
    "INSERT INTO "@ + table.name(dialect) + " ("@ + joined(
        columns(table.insertable_fields(), dialect),
        ", "@,
    ) + ") VALUES ("@ + joined(placeholders(dialect, table.insertable_fields().len()), ", "@)
        + ")"@
}

/// Where the database supplies the value of a field, the insert ends in
/// the clause that returns those values, one entry for each such field, and
/// one row is read back.
pub proof fn law_insert_returns_generated_values(table: TableView, dialect: Dialect)
    requires
        exists|i: int| 0 <= i < table.fields.len() && table.fields[i].default,
    ensures
        table.default_fields().len() > 0,
        table.insert(dialect).sql == plain_insert(table, dialect) + " RETURNING "@ + joined(
            select_items(table.default_fields(), dialect),
            ", "@,
        ),
        table.insert(dialect).fetch == Fetch::One,
{
    let i = choose|i: int| 0 <= i < table.fields.len() && table.fields[i].default;
    let generated = |field: FieldView| field.default;
    table.fields.lemma_filter_contains(generated, i);
}

/// Where the database supplies no value, the insert has no clause that
/// returns values, and it is only run: no row is read back.
pub proof fn law_insert_without_generated_values(table: TableView, dialect: Dialect)
    requires
        forall|i: int| 0 <= i < table.fields.len() ==> !table.fields[i].default,
    ensures
        table.default_fields().len() == 0,
        table.insert(dialect).sql == plain_insert(table, dialect),
        table.insert(dialect).fetch == Fetch::Execute,
{
    let generated = |field: FieldView| field.default;
    if table.default_fields().len() > 0 {
        table.fields.lemma_filter_pred(generated, 0);
        assert(table.default_fields().contains(table.default_fields()[0]));
        table.fields.lemma_filter_contains_rev(generated, table.default_fields()[0]);
    }
}

/// A listing is ordered by the id column, descending, where the table gives
/// no ordering; where it gives one, the clause is used as it stands and
/// nothing is added to it.
pub proof fn law_listing_order(table: TableView, column_list: Seq<char>, dialect: Dialect)
    ensures
        table.order_by is None ==> table.stream_all(column_list, dialect).sql == "SELECT "@
            + column_list + " FROM "@ + table.name(dialect) + " ORDER BY "@ + quoted(
            dialect,
            table.id.column_name,
        ) + " DESC"@,
        table.order_by is Some ==> table.stream_all(column_list, dialect).sql == "SELECT "@
            + column_list + " FROM "@ + table.name(dialect) + " ORDER BY "@
            + table.order_by->Some_0,
        table.stream_all_paginated(column_list, dialect).sql == table.stream_all(
            column_list,
            dialect,
        ).sql + " LIMIT "@ + placeholder(dialect, 1) + " OFFSET "@ + placeholder(dialect, 2)
            + " "@,
{
}

/// An update writes every field but the id, and no field of the id's name:
/// the id is bound last, for the condition, after one value for each
/// written field. Deleting binds the id alone, and a patch binds it last.
pub proof fn law_id_is_bound_last(table: TableView, patch: PatchView, dialect: Dialect)
    ensures
        forall|i: int|
            0 <= i < table.fields_except_id().len() ==> (
            #[trigger] table.fields_except_id()[i]).field != table.id.field,
        forall|i: int|
            0 <= i < table.fields.len() && table.fields[i].field != table.id.field
                ==> table.fields_except_id().contains(#[trigger] table.fields[i]),
        table.update(dialect).arguments.len() == table.fields_except_id().len() + 1,
        table.update(dialect).arguments.last() == own_id(table),
        table.update(dialect).sql == update_where(
            table.table,
            column_names(table.fields_except_id()),
            table.id.column_name,
            dialect,
        ),
        table.delete(dialect).arguments == seq!["id"@],
        patch.patch_row(dialect).arguments.len() == patch.fields.len() + 1,
        patch.patch_row(dialect).arguments.last() == "id"@,
{
    let others = |field: FieldView| field.field != table.id.field;
    assert forall|i: int| 0 <= i < table.fields_except_id().len() implies (
    #[trigger] table.fields_except_id()[i]).field != table.id.field by {
        table.fields.lemma_filter_pred(others, i);
    }
    assert forall|i: int|
        0 <= i < table.fields.len() && table.fields[i].field != table.id.field
            implies table.fields_except_id().contains(#[trigger] table.fields[i]) by {
        table.fields.lemma_filter_contains(others, i);
    }
}

/// Where no other field is held by the id's column, an update does not
/// write the id column.
pub proof fn law_update_spares_the_id_column(table: TableView)
    requires
        forall|i: int|
            0 <= i < table.fields.len() && (#[trigger] table.fields[i]).field != table.id.field
                ==> table.fields[i].column_name != table.id.column_name,
    ensures
        forall|i: int|
            0 <= i < table.fields_except_id().len() ==> #[trigger] column_names(
                table.fields_except_id(),
            )[i] != table.id.column_name,
{
    let others = |field: FieldView| field.field != table.id.field;
    assert forall|i: int| 0 <= i < table.fields_except_id().len() implies #[trigger] column_names(
        table.fields_except_id(),
    )[i] != table.id.column_name by {
        let field = table.fields_except_id()[i];
        table.fields.lemma_filter_pred(others, i);
        assert(table.fields_except_id().contains(field));
        table.fields.lemma_filter_contains_rev(others, field);
        let j = choose|j: int| 0 <= j < table.fields.len() && table.fields[j] == field;
        assert(table.fields[j].field != table.id.field);
    }
}

/// The new row of an insert has a value for every field of the table: the
/// caller's value where the caller supplies it, else the value that the
/// database generated. The generated values are counted in the order of
/// the clause that returns them: the value of a field stands at the place
/// in the returned row at which the field stands among the fields that the
/// database supplies.
pub proof fn law_inserted_row_has_every_field(table: TableView)
    ensures
        table.inserted_row().len() == table.fields.len(),
        forall|i: int|
            0 <= i < table.fields.len() && !table.fields[i].default
                ==> #[trigger] table.inserted_row()[i] == (RowValueView::Supplied {
                field: table.fields[i].field,
            }),
        forall|i: int|
            0 <= i < table.fields.len() && table.fields[i].default ==> {
                &&& #[trigger] table.inserted_row()[i] is Generated
                &&& table.inserted_row()[i]->Generated_field == table.fields[i].field
                &&& table.inserted_row()[i]->ordinal < table.default_fields().len()
                &&& table.default_fields()[table.inserted_row()[i]->ordinal as int]
                    == table.fields[i]
            },
{
    let generated = |field: FieldView| field.default;
    assert forall|i: int| 0 <= i < table.fields.len() && table.fields[i].default implies {
        &&& #[trigger] table.inserted_row()[i] is Generated
        &&& table.inserted_row()[i]->Generated_field == table.fields[i].field
        &&& table.inserted_row()[i]->ordinal < table.default_fields().len()
        &&& table.default_fields()[table.inserted_row()[i]->ordinal as int] == table.fields[i]
    } by {
        let before = table.fields.take(i);
        let upto = table.fields.take(i + 1);
        let after = table.fields.skip(i + 1);
        lemma_filter_take_succ(table.fields, generated, i);
        assert(upto + after =~= table.fields);
        Seq::filter_distributes_over_add(upto, after, generated);
        assert(table.inserted_row()[i] == row_value(table.fields, i));
    }
}

/// Every statement of a table numbers its bound values from 1 on, in the
/// order in which it names them, and binds as many expressions as it names
/// values: each placeholder has its expression, and no expression is left
/// over.
pub proof fn law_values_are_counted(table: TableView)
    ensures
        positions(table.get_template().pieces) == counted(
            table.get_template().arguments.len(),
        ),
        positions(table.stream_all_template().pieces) == counted(
            table.stream_all_template().arguments.len(),
        ),
        positions(table.stream_all_paginated_template().pieces) == counted(
            table.stream_all_paginated_template().arguments.len(),
        ),
        positions(table.update_statement_template().pieces) == counted(
            table.update_statement_template().arguments.len(),
        ),
        positions(table.delete_statement_template().pieces) == counted(
            table.delete_statement_template().arguments.len(),
        ),
        positions(table.insert_statement_template().pieces) == counted(
            table.insert_statement_template().arguments.len(),
        ),
{
    lemma_select_where_binds_one(table, table.id.column_name);
    lemma_select_all_binds_nothing(table);
    lemma_select_page_binds_two(table);
    lemma_update_binds_columns_and_id(
        table.table,
        column_names(table.fields_except_id()),
        table.id.column_name,
    );
    lemma_delete_binds_one(table);
    lemma_insert_binds_the_supplied(table, table.insertable_fields());
    assert(positions(table.stream_all_template().pieces) =~= counted(0));
}

/// A lookup by a field binds the one value it names, a setter the new
/// value and then the id, and a patch its fields in order and then the id.
pub proof fn law_accessor_values_are_counted(
    table: TableView,
    patch: PatchView,
    field: FieldView,
    getter: GetterView,
    fetch: Fetch,
    func: Seq<char>,
    dialect: Dialect,
)
    ensures
        positions(table.select_where_template(field.column_name)) == counted(
            table.getter(field, getter, fetch, dialect).statement.arguments.len(),
        ),
        positions(
            update_template(table.table, seq![field.column_name], table.id.column_name),
        ) == counted(table.setter(field, func, dialect).statement.arguments.len()),
        positions(update_template(patch.table_name, patch.columns(), patch.id)) == counted(
            patch.patch_row(dialect).arguments.len(),
        ),
{
    lemma_select_where_binds_one(table, field.column_name);
    lemma_update_binds_columns_and_id(
        table.table,
        seq![field.column_name],
        table.id.column_name,
    );
    lemma_update_binds_columns_and_id(patch.table_name, patch.columns(), patch.id);
}

/// A lookup function before a dialect reads its statement.
pub struct GetterTemplate {
    pub vis: Seq<char>,
    pub func: Seq<char>,
    pub arg_ty: Seq<char>,
    pub statement: StatementTemplate,
}

impl GetterTemplate {
    /// The lookup function in `dialect`.
    pub open spec fn read(self, dialect: Dialect) -> GetterImplView {
        GetterImplView {
            vis: self.vis,
            func: self.func,
            arg_ty: self.arg_ty,
            statement: self.statement.read(dialect),
        }
    }
}

/// A setter before a dialect reads its statement.
pub struct SetterTemplate {
    pub vis: Seq<char>,
    pub func: Seq<char>,
    pub field: Seq<char>,
    pub ty: Seq<char>,
    pub statement: StatementTemplate,
}

impl SetterTemplate {
    /// The setter in `dialect`.
    pub open spec fn read(self, dialect: Dialect) -> SetterImplView {
        SetterImplView {
            vis: self.vis,
            func: self.func,
            field: self.field,
            ty: self.ty,
            statement: self.statement.read(dialect),
        }
    }
}

/// Everything that is generated for a table, before a dialect reads it.
pub struct DerivedTemplate {
    pub table_ident: Seq<char>,
    pub id_ident: Seq<char>,
    pub id_ty: Seq<char>,
    pub get: StatementTemplate,
    pub stream_all: StatementTemplate,
    pub stream_all_paginated: StatementTemplate,
    pub update: StatementTemplate,
    pub delete_row: Option<StatementTemplate>,
    pub insert_struct: Option<InsertStructView>,
    pub insert_ident: Option<Seq<char>>,
    pub insert: StatementTemplate,
    pub row: Seq<RowValueView>,
    pub getters: Seq<GetterTemplate>,
    pub setters: Seq<SetterTemplate>,
}

impl DerivedTemplate {
    /// Everything that is generated for the table in `dialect`. Besides
    /// the text of the statements, a dialect decides the type in which the
    /// driver reports a result and how generated values are read.
    pub open spec fn read(self, dialect: Dialect) -> DerivedView {
        DerivedView {
            impl_table: TableImplView {
                table_ident: self.table_ident,
                id_ident: self.id_ident,
                id_ty: self.id_ty,
                get: self.get.read(dialect),
                stream_all: self.stream_all.read(dialect),
                stream_all_paginated: self.stream_all_paginated.read(dialect),
                update: self.update.read(dialect),
            },
            delete: match self.delete_row {
                Some(delete_row) => Some(
                    DeleteImplView {
                        table_ident: self.table_ident,
                        id_ty: self.id_ty,
                        delete_row: delete_row.read(dialect),
                        query_result: query_result_path(dialect),
                    },
                ),
                None => None,
            },
            insert_struct: self.insert_struct,
            impl_insert: match self.insert_ident {
                Some(insert_ident) => Some(
                    InsertImplView {
                        insert_ident,
                        table_ident: self.table_ident,
                        statement: self.insert.read(dialect),
                        accessor: result_accessor(dialect),
                        row: self.row,
                    },
                ),
                None => None,
            },
            getters: self.getters.map_values(|getter: GetterTemplate| getter.read(dialect)),
            setters: self.setters.map_values(|setter: SetterTemplate| setter.read(dialect)),
        }
    }
}

impl TableView {
    /// The lookup by `field` that `getter` asks for, before a dialect reads
    /// it.
    pub open spec fn getter_template(
        self,
        field: FieldView,
        getter: GetterView,
        fetch: Fetch,
    ) -> GetterTemplate {
        GetterTemplate {
            vis: self.vis,
            func: field.getter_name(getter),
            arg_ty: field.getter_arg_ty(getter),
            statement: StatementTemplate {
                pieces: self.select_where_template(field.column_name),
                arguments: seq!["by"@],
                fetch,
            },
        }
    }

    /// The lookups by `field`, before a dialect reads them.
    pub open spec fn field_getter_templates(self, field: FieldView) -> Seq<GetterTemplate> {
        let one = match field.get_one {
            Some(g) => seq![self.getter_template(field, g, Fetch::One)],
            None => Seq::empty(),
        };
        let optional = match field.get_optional {
            Some(g) => seq![self.getter_template(field, g, Fetch::Optional)],
            None => Seq::empty(),
        };
        let many = match field.get_many {
            Some(g) => seq![self.getter_template(field, g, Fetch::Many)],
            None => Seq::empty(),
        };
        one + optional + many
    }

    /// The setter of `field`, if it has one, before a dialect reads it.
    pub open spec fn field_setter_templates(self, field: FieldView) -> Seq<SetterTemplate> {
        match field.set {
            Some(func) => seq![
                SetterTemplate {
                    vis: self.vis,
                    func,
                    field: field.field,
                    ty: field.ty,
                    statement: StatementTemplate {
                        pieces: update_template(
                            self.table,
                            seq![field.column_name],
                            self.id.column_name,
                        ),
                        arguments: seq![
                            bound_value("value"@, field.ty, field.by_ref, field.custom_type),
                            own_id(self),
                        ],
                        fetch: Fetch::Execute,
                    },
                },
            ],
            None => Seq::empty(),
        }
    }

    /// Everything that is generated for the table, before a dialect reads
    /// it.
    pub open spec fn derived_template(self) -> DerivedTemplate {
        DerivedTemplate {
            table_ident: self.ident,
            id_ident: self.id.field,
            id_ty: self.id.ty,
            get: self.get_template(),
            stream_all: self.stream_all_template(),
            stream_all_paginated: self.stream_all_paginated_template(),
            update: self.update_statement_template(),
            delete_row: if self.deletable {
                Some(self.delete_statement_template())
            } else {
                None
            },
            insert_struct: self.insert_struct(),
            insert_ident: self.insertable,
            insert: self.insert_statement_template(),
            row: self.inserted_row(),
            getters: self.fields.flat_map(
                |field: FieldView| self.field_getter_templates(field),
            ),
            setters: self.fields_except_id().flat_map(
                |field: FieldView| self.field_setter_templates(field),
            ),
        }
    }
}

/// Mapping each element to a sequence, joining the sequences and then
/// changing every element is the same as changing the elements of each
/// sequence before joining them.
pub proof fn lemma_flat_map_then_map<A, B, C>(
    s: Seq<A>,
    each: spec_fn(A) -> Seq<B>,
    change: spec_fn(B) -> C,
    both: spec_fn(A) -> Seq<C>,
)
    requires
        forall|i: int| 0 <= i < s.len() ==> both(#[trigger] s[i]) == each(s[i]).map_values(change),
    ensures
        s.flat_map(both) == s.flat_map(each).map_values(change),
    decreases s.len(),
{
    if s.len() == 0 {
        assert(s.flat_map(both) =~= Seq::<C>::empty());
        assert(s.flat_map(each) =~= Seq::<B>::empty());
        assert(s.flat_map(each).map_values(change) =~= Seq::<C>::empty());
    } else {
        let before = s.drop_last();
        assert forall|i: int| 0 <= i < before.len() implies both(#[trigger] before[i]) == each(
            before[i],
        ).map_values(change) by {
            assert(before[i] == s[i]);
        }
        lemma_flat_map_then_map(before, each, change, both);
        assert(before.push(s.last()) =~= s);
        before.lemma_flat_map_push(both, s.last());
        before.lemma_flat_map_push(each, s.last());
        assert((before.flat_map(each) + each(s.last())).map_values(change)
            =~= before.flat_map(each).map_values(change) + each(s.last()).map_values(change));
    }
}

/// Two dialects generate the same for a table but for the quote character
/// and the placeholders of the statements, the type in which the driver
/// reports a result and the way generated values are read: everything that
/// is generated is one description, which a dialect only reads. So the
/// dialects agree on what is generated, on every name and type in it, on
/// the order of the accessors, and on every statement but for how it is
/// written.
pub proof fn law_dialects_read_one_description(table: TableView, dialect: Dialect)
    ensures
        table.derived(dialect) == table.derived_template().read(dialect),
{
    law_dialects_read_one_template(table, dialect, dialect);
    let getters = |field: FieldView| table.field_getters(field, dialect);
    let getter_templates = |field: FieldView| table.field_getter_templates(field);
    let read_getter = |getter: GetterTemplate| getter.read(dialect);
    assert forall|i: int| 0 <= i < table.fields.len() implies getters(#[trigger] table.fields[i])
        == getter_templates(table.fields[i]).map_values(read_getter) by {
        let field = table.fields[i];
        lemma_select_where_renders(table, field.column_name, dialect);
        assert(getters(field) =~= getter_templates(field).map_values(read_getter));
    }
    lemma_flat_map_then_map(table.fields, getter_templates, read_getter, getters);
    let others = table.fields_except_id();
    let setters = |field: FieldView| table.field_setters(field, dialect);
    let setter_templates = |field: FieldView| table.field_setter_templates(field);
    let read_setter = |setter: SetterTemplate| setter.read(dialect);
    assert forall|i: int| 0 <= i < others.len() implies setters(#[trigger] others[i])
        == setter_templates(others[i]).map_values(read_setter) by {
        let field = others[i];
        lemma_update_renders(
            table.table,
            seq![field.column_name],
            table.id.column_name,
            dialect,
        );
        assert(setters(field) =~= setter_templates(field).map_values(read_setter));
    }
    lemma_flat_map_then_map(others, setter_templates, read_setter, setters);
}

/// A template reads alike in MySQL and in MariaDB.
pub proof fn lemma_mysql_reads_as_mariadb(template: Seq<Piece>)
    ensures
        render(template, Dialect::MySql) == render(template, Dialect::MariaDb),
    decreases template.len(),
{
    if template.len() > 0 {
        lemma_mysql_reads_as_mariadb(template.drop_last());
    }
}

/// MySQL and MariaDB write their statements alike, so the same is
/// generated for a table in both.
pub proof fn law_mysql_and_mariadb_agree(table: TableView)
    ensures
        table.derived(Dialect::MySql) == table.derived(Dialect::MariaDb),
{
    law_dialects_read_one_description(table, Dialect::MySql);
    law_dialects_read_one_description(table, Dialect::MariaDb);
    let template = table.derived_template();
    lemma_mysql_reads_as_mariadb(template.get.pieces);
    lemma_mysql_reads_as_mariadb(template.stream_all.pieces);
    lemma_mysql_reads_as_mariadb(template.stream_all_paginated.pieces);
    lemma_mysql_reads_as_mariadb(template.update.pieces);
    lemma_mysql_reads_as_mariadb(template.insert.pieces);
    if template.delete_row is Some {
        lemma_mysql_reads_as_mariadb(template.delete_row->Some_0.pieces);
    }
    assert forall|i: int| 0 <= i < template.getters.len() implies (
    #[trigger] template.getters[i]).read(Dialect::MySql) == template.getters[i].read(
        Dialect::MariaDb,
    ) by {
        lemma_mysql_reads_as_mariadb(template.getters[i].statement.pieces);
    }
    assert forall|i: int| 0 <= i < template.setters.len() implies (
    #[trigger] template.setters[i]).read(Dialect::MySql) == template.setters[i].read(
        Dialect::MariaDb,
    ) by {
        lemma_mysql_reads_as_mariadb(template.setters[i].statement.pieces);
    }
    assert(template.read(Dialect::MySql).getters =~= template.read(Dialect::MariaDb).getters);
    assert(template.read(Dialect::MySql).setters =~= template.read(Dialect::MariaDb).setters);
}

} // verus!
