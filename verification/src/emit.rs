//! What is generated for a table: each operation with its statement, and the
//! names and types that its declaration needs.

use crate::backend::{
    insert_strategy, query_result_path, result_accessor, spec_insert_strategy, Backend, Fetch,
    Dialect, ResultAccessor,
};
use crate::sql::{
    arguments, delete, get, insert_into, insert_sql, own_id, select_by, select_where, stream_all,
    stream_all_paginated, update, update_sql, update_where, Statement, StatementView,
};
use crate::table::{
    bound_value, field_ref_views, field_views, fmt_bound, lemma_filter_take_succ, FieldView,
    Getter, GetterView, Table, TableField, TableView,
};
use crate::text::texts;
use vstd::prelude::*;
use vstd::string::*;

verus! {

/// What an optional value holds.
pub open spec fn option_view<T: View>(value: Option<T>) -> Option<T::V> {
    match value {
        Some(v) => Some(v@),
        None => None,
    }
}

/// The operations that every table has.
#[derive(Debug, PartialEq, Eq)]
pub struct TableImpl {
    /// The row type.
    pub table_ident: String,
    /// The field that holds a row's id.
    pub id_ident: String,
    /// The type of the id.
    pub id_ty: String,
    pub get: Statement,
    pub stream_all: Statement,
    pub stream_all_paginated: Statement,
    pub update: Statement,
}

/// What a [`TableImpl`] holds.
pub struct TableImplView {
    pub table_ident: Seq<char>,
    pub id_ident: Seq<char>,
    pub id_ty: Seq<char>,
    pub get: StatementView,
    pub stream_all: StatementView,
    pub stream_all_paginated: StatementView,
    pub update: StatementView,
}

impl View for TableImpl {
    type V = TableImplView;

    open spec fn view(&self) -> TableImplView {
        TableImplView {
            table_ident: self.table_ident@,
            id_ident: self.id_ident@,
            id_ty: self.id_ty@,
            get: self.get@,
            stream_all: self.stream_all@,
            stream_all_paginated: self.stream_all_paginated@,
            update: self.update@,
        }
    }
}

/// The deletion of rows.
#[derive(Debug, PartialEq, Eq)]
pub struct DeleteImpl {
    pub table_ident: String,
    pub id_ty: String,
    /// Deletes the row of a given id. The caller reads from the result how
    /// many rows went, see [`crate::outcome::delete_outcome`].
    pub delete_row: Statement,
    /// The path of the type that the driver reports the result in.
    pub query_result: String,
}

/// What a [`DeleteImpl`] holds.
pub struct DeleteImplView {
    pub table_ident: Seq<char>,
    pub id_ty: Seq<char>,
    pub delete_row: StatementView,
    pub query_result: Seq<char>,
}

impl View for DeleteImpl {
    type V = DeleteImplView;

    open spec fn view(&self) -> DeleteImplView {
        DeleteImplView {
            table_ident: self.table_ident@,
            id_ty: self.id_ty@,
            delete_row: self.delete_row@,
            query_result: self.query_result@,
        }
    }
}

/// Where a field of a newly inserted row has its value from.
#[derive(Debug, PartialEq, Eq)]
pub enum RowValue {
    /// From the value that the caller supplied for the field.
    Supplied { field: String },
    /// From the row that the insert returned: the value that the database
    /// generated for the field, which is the `ordinal`-th of the returned
    /// values, counted from 0.
    Generated { field: String, ordinal: usize },
}

/// What a [`RowValue`] holds.
pub enum RowValueView {
    Supplied { field: Seq<char> },
    Generated { field: Seq<char>, ordinal: nat },
}

impl View for RowValue {
    type V = RowValueView;

    open spec fn view(&self) -> RowValueView {
        match self {
            RowValue::Supplied { field } => RowValueView::Supplied { field: field@ },
            RowValue::Generated { field, ordinal } => RowValueView::Generated {
                field: field@,
                ordinal: *ordinal as nat,
            },
        }
    }
}

/// What the values of `values` hold, in order.
pub open spec fn row_value_views(values: Seq<RowValue>) -> Seq<RowValueView> {
    values.map_values(|value: RowValue| value@)
}

/// The insertion of a row through the insert helper type.
#[derive(Debug, PartialEq, Eq)]
pub struct InsertImpl {
    /// The insert helper type.
    pub insert_ident: String,
    /// The row type.
    pub table_ident: String,
    /// The insert, binding the supplied values in the order of declaration.
    pub statement: Statement,
    /// How a generated value is found in the returned row.
    pub accessor: ResultAccessor,
    /// The new row, field by field in the order of declaration.
    pub row: Vec<RowValue>,
}

/// What an [`InsertImpl`] holds.
pub struct InsertImplView {
    pub insert_ident: Seq<char>,
    pub table_ident: Seq<char>,
    pub statement: StatementView,
    pub accessor: ResultAccessor,
    pub row: Seq<RowValueView>,
}

impl View for InsertImpl {
    type V = InsertImplView;

    open spec fn view(&self) -> InsertImplView {
        InsertImplView {
            insert_ident: self.insert_ident@,
            table_ident: self.table_ident@,
            statement: self.statement@,
            accessor: self.accessor,
            row: row_value_views(self.row@),
        }
    }
}

/// A field of the insert helper type.
#[derive(Debug, PartialEq, Eq)]
pub struct StructField {
    pub ident: String,
    pub ty: String,
}

/// What a [`StructField`] holds.
pub struct StructFieldView {
    pub ident: Seq<char>,
    pub ty: Seq<char>,
}

impl View for StructField {
    type V = StructFieldView;

    open spec fn view(&self) -> StructFieldView {
        StructFieldView { ident: self.ident@, ty: self.ty@ }
    }
}

/// The insert helper type: one field for each value that the caller
/// supplies.
#[derive(Debug, PartialEq, Eq)]
pub struct InsertStruct {
    pub ident: String,
    pub vis: String,
    pub fields: Vec<StructField>,
}

/// What an [`InsertStruct`] holds.
pub struct InsertStructView {
    pub ident: Seq<char>,
    pub vis: Seq<char>,
    pub fields: Seq<StructFieldView>,
}

impl View for InsertStruct {
    type V = InsertStructView;

    open spec fn view(&self) -> InsertStructView {
        InsertStructView {
            ident: self.ident@,
            vis: self.vis@,
            fields: self.fields@.map_values(|field: StructField| field@),
        }
    }
}

/// The field of the insert helper type that carries `field`.
pub open spec fn struct_field(field: FieldView) -> StructFieldView {
    StructFieldView { ident: field.field, ty: field.ty }
}

/// A lookup by one field.
#[derive(Debug, PartialEq, Eq)]
pub struct GetterImpl {
    pub vis: String,
    pub func: String,
    pub arg_ty: String,
    /// The lookup; `by` is the value looked for.
    pub statement: Statement,
}

/// What a [`GetterImpl`] holds.
pub struct GetterImplView {
    pub vis: Seq<char>,
    pub func: Seq<char>,
    pub arg_ty: Seq<char>,
    pub statement: StatementView,
}

impl View for GetterImpl {
    type V = GetterImplView;

    open spec fn view(&self) -> GetterImplView {
        GetterImplView {
            vis: self.vis@,
            func: self.func@,
            arg_ty: self.arg_ty@,
            statement: self.statement@,
        }
    }
}

/// What the getters of `getters` hold, in order.
pub open spec fn getter_views(getters: Seq<GetterImpl>) -> Seq<GetterImplView> {
    getters.map_values(|getter: GetterImpl| getter@)
}

/// A function that writes one field of a row.
#[derive(Debug, PartialEq, Eq)]
pub struct SetterImpl {
    pub vis: String,
    pub func: String,
    pub field: String,
    pub ty: String,
    /// The update; `value` is the new value of the field.
    pub statement: Statement,
}

/// What a [`SetterImpl`] holds.
pub struct SetterImplView {
    pub vis: Seq<char>,
    pub func: Seq<char>,
    pub field: Seq<char>,
    pub ty: Seq<char>,
    pub statement: StatementView,
}

impl View for SetterImpl {
    type V = SetterImplView;

    open spec fn view(&self) -> SetterImplView {
        SetterImplView {
            vis: self.vis@,
            func: self.func@,
            field: self.field@,
            ty: self.ty@,
            statement: self.statement@,
        }
    }
}

/// What the setters of `setters` hold, in order.
pub open spec fn setter_views(setters: Seq<SetterImpl>) -> Seq<SetterImplView> {
    setters.map_values(|setter: SetterImpl| setter@)
}

/// The value of the field at `position` in a newly inserted row: generated
/// where the database supplies it, and then found after the generated
/// values of the fields before it; else supplied.
pub open spec fn row_value(fields: Seq<FieldView>, position: int) -> RowValueView {
    if fields[position].default {
        RowValueView::Generated {
            field: fields[position].field,
            ordinal: fields.take(position).filter(|field: FieldView| field.default).len(),
        }
    } else {
        RowValueView::Supplied { field: fields[position].field }
    }
}

impl TableView {
    /// The operations that every table has.
    pub open spec fn impl_table(self, dialect: Dialect) -> TableImplView {
        let column_list = self.select_column_list(dialect);
        TableImplView {
            table_ident: self.ident,
            id_ident: self.id.field,
            id_ty: self.id.ty,
            get: self.get(column_list, dialect),
            stream_all: self.stream_all(column_list, dialect),
            stream_all_paginated: self.stream_all_paginated(column_list, dialect),
            update: self.update(dialect),
        }
    }

    /// The deletion of rows, for a table that allows it.
    pub open spec fn impl_delete(self, dialect: Dialect) -> Option<DeleteImplView> {
        if self.deletable {
            Some(
                DeleteImplView {
                    table_ident: self.ident,
                    id_ty: self.id.ty,
                    delete_row: self.delete(dialect),
                    query_result: query_result_path(dialect),
                },
            )
        } else {
            None
        }
    }

    /// The insert statement with its bound values. It reads the returned
    /// row exactly when the database supplies a value.
    pub open spec fn insert(self, dialect: Dialect) -> StatementView {
        StatementView {
            sql: insert_into(self, self.insertable_fields(), dialect),
            arguments: arguments(self.insertable_fields()),
            fetch: spec_insert_strategy(self.default_fields().len() > 0),
        }
    }

    /// The new row of an insert, field by field.
    pub open spec fn inserted_row(self) -> Seq<RowValueView> {
        Seq::new(self.fields.len(), |position: int| row_value(self.fields, position))
    }

    /// The insertion of rows, for a table that has an insert helper type.
    pub open spec fn impl_insert(self, dialect: Dialect) -> Option<InsertImplView> {
        match self.insertable {
            Some(insert_ident) => Some(
                InsertImplView {
                    insert_ident,
                    table_ident: self.ident,
                    statement: self.insert(dialect),
                    accessor: result_accessor(dialect),
                    row: self.inserted_row(),
                },
            ),
            None => None,
        }
    }

    /// The insert helper type, for a table that has one.
    pub open spec fn insert_struct(self) -> Option<InsertStructView> {
        match self.insertable {
            Some(ident) => Some(
                InsertStructView {
                    ident,
                    vis: self.vis,
                    fields: self.insertable_fields().map_values(
                        |field: FieldView| struct_field(field),
                    ),
                },
            ),
            None => None,
        }
    }

    /// The lookup by `field` that `getter` asks for, run as `fetch` says.
    pub open spec fn getter(
        self,
        field: FieldView,
        getter: GetterView,
        fetch: Fetch,
        dialect: Dialect,
    ) -> GetterImplView {
        GetterImplView {
            vis: self.vis,
            func: field.getter_name(getter),
            arg_ty: field.getter_arg_ty(getter),
            statement: StatementView {
                sql: select_where(
                    self,
                    self.select_column_list(dialect),
                    field.column_name,
                    dialect,
                ),
                arguments: seq!["by"@],
                fetch,
            },
        }
    }

    /// The lookups by `field`: the one that fails without a row, the one
    /// that may find none, and the one that finds any number, as far as
    /// each is asked for.
    pub open spec fn field_getters(self, field: FieldView, dialect: Dialect) -> Seq<
        GetterImplView,
    > {
        let one = match field.get_one {
            Some(g) => seq![self.getter(field, g, Fetch::One, dialect)],
            None => Seq::empty(),
        };
        let optional = match field.get_optional {
            Some(g) => seq![self.getter(field, g, Fetch::Optional, dialect)],
            None => Seq::empty(),
        };
        let many = match field.get_many {
            Some(g) => seq![self.getter(field, g, Fetch::Many, dialect)],
            None => Seq::empty(),
        };
        one + optional + many
    }

    /// The lookups of every field, in the order of declaration.
    pub open spec fn impl_getters(self, dialect: Dialect) -> Seq<GetterImplView> {
        self.fields.flat_map(|field: FieldView| self.field_getters(field, dialect))
    }

    /// The function named `func` that writes `field` alone: it binds the
    /// new value first and the row's own id last.
    pub open spec fn setter(self, field: FieldView, func: Seq<char>, dialect: Dialect) -> SetterImplView {
        SetterImplView {
            vis: self.vis,
            func,
            field: field.field,
            ty: field.ty,
            statement: StatementView {
                sql: update_where(
                    self.table,
                    seq![field.column_name],
                    self.id.column_name,
                    dialect,
                ),
                arguments: seq![
                    bound_value("value"@, field.ty, field.by_ref, field.custom_type),
                    own_id(self),
                ],
                fetch: Fetch::Execute,
            },
        }
    }

    /// The setter of `field`, if it has one.
    pub open spec fn field_setters(self, field: FieldView, dialect: Dialect) -> Seq<
        SetterImplView,
    > {
        match field.set {
            Some(func) => seq![self.setter(field, func, dialect)],
            None => Seq::empty(),
        }
    }

    /// The setters of every field but the id, in the order of declaration.
    pub open spec fn impl_setters(self, dialect: Dialect) -> Seq<SetterImplView> {
        self.fields_except_id().flat_map(|field: FieldView| self.field_setters(field, dialect))
    }
}

/// Describes the operations that every table has.
pub fn impl_table<B: Backend>(table: &Table<B>) -> (out: TableImpl)
    ensures
        out@ == table@.impl_table(B::dialect()),
{
    let column_list = table.select_column_list();
    TableImpl {
        table_ident: table.ident().clone(),
        id_ident: table.id().field.clone(),
        id_ty: table.id().ty.clone(),
        get: get(table, column_list.as_str()),
        stream_all: stream_all(table, column_list.as_str()),
        stream_all_paginated: stream_all_paginated(table, column_list.as_str()),
        update: update(table),
    }
}

/// Describes the deletion of rows; `None` for a table that does not allow
/// it.
pub fn impl_delete<B: Backend>(table: &Table<B>) -> (out: Option<DeleteImpl>)
    ensures
        option_view(out) == table@.impl_delete(B::dialect()),
{
    if !table.deletable() {
        return None;
    }
    Some(
        DeleteImpl {
            table_ident: table.ident().clone(),
            id_ty: table.id().ty.clone(),
            delete_row: delete(table),
            query_result: String::from_str(B::query_result()),
        },
    )
}

/// Describes the insertion of rows; `None` for a table without an insert
/// helper type.
pub fn impl_insert<B: Backend>(table: &Table<B>) -> (out: Option<InsertImpl>)
    ensures
        option_view(out) == table@.impl_insert(B::dialect()),
{
    let insert_ident = match table.insertable() {
        Some(ident) => ident.clone(),
        None => {
            return None;
        },
    };
    let insert_fields = table.insertable_fields();
    let default_fields = table.default_fields();
    let sql = insert_sql(table, &insert_fields);
    let mut bound: Vec<String> = Vec::new();
    let mut i: usize = 0;
    while i < insert_fields.len()
        invariant
            i <= insert_fields@.len(),
            texts(bound@) == arguments(field_ref_views(insert_fields@)).take(i as int),
        decreases insert_fields.len() - i,
    {
        let ghost before = bound@;
        let argument = insert_fields[i].fmt_as_argument();
        bound.push(argument);
        assert(texts(bound@) =~= texts(before).push(argument@));
        assert(texts(bound@) =~= arguments(field_ref_views(insert_fields@)).take(i as int + 1));
        i += 1;
    }
    assert(texts(bound@) =~= arguments(table@.insertable_fields()));
    let fetch = insert_strategy(default_fields.len() > 0);
    let fields = table.fields();
    let ghost generated = |field: FieldView| field.default;
    let mut row: Vec<RowValue> = Vec::new();
    let mut ordinal: usize = 0;
    let mut j: usize = 0;
    while j < fields.len()
        invariant
            j <= fields@.len(),
            field_views(fields@) == table@.fields,
            generated == |field: FieldView| field.default,
            ordinal == table@.fields.take(j as int).filter(generated).len(),
            ordinal <= j,
            row_value_views(row@) == table@.inserted_row().take(j as int),
        decreases fields.len() - j,
    {
        let ghost before = row@;
        proof {
            lemma_filter_take_succ(table@.fields, generated, j as int);
        }
        let field = &fields[j];
        assert(field@ == table@.fields[j as int]);
        let value = if field.default {
            let value = RowValue::Generated { field: field.field.clone(), ordinal };
            ordinal += 1;
            value
        } else {
            RowValue::Supplied { field: field.field.clone() }
        };
        assert(value@ == row_value(table@.fields, j as int));
        row.push(value);
        assert(row_value_views(row@) =~= row_value_views(before).push(value@));
        assert(row_value_views(row@) =~= table@.inserted_row().take(j as int + 1));
        j += 1;
    }
    assert(row_value_views(row@) =~= table@.inserted_row());
    Some(
        InsertImpl {
            insert_ident,
            table_ident: table.ident().clone(),
            statement: Statement { sql, arguments: bound, fetch },
            accessor: B::result_accessor(),
            row,
        },
    )
}

/// Describes the insert helper type; `None` for a table without one.
pub fn insert_struct<B: Backend>(table: &Table<B>) -> (out: Option<InsertStruct>)
    ensures
        option_view(out) == table@.insert_struct(),
{
    let ident = match table.insertable() {
        Some(ident) => ident.clone(),
        None => {
            return None;
        },
    };
    let insert_fields = table.insertable_fields();
    let ghost carried = |field: FieldView| struct_field(field);
    let mut fields: Vec<StructField> = Vec::new();
    let mut i: usize = 0;
    while i < insert_fields.len()
        invariant
            i <= insert_fields@.len(),
            carried == |field: FieldView| struct_field(field),
            fields@.map_values(|field: StructField| field@) == field_ref_views(
                insert_fields@,
            ).map_values(carried).take(i as int),
        decreases insert_fields.len() - i,
    {
        let ghost before = fields@;
        let field = StructField {
            ident: insert_fields[i].field.clone(),
            ty: insert_fields[i].ty.clone(),
        };
        fields.push(field);
        assert(fields@.map_values(|field: StructField| field@) =~= before.map_values(
            |field: StructField| field@,
        ).push(field@));
        assert(fields@.map_values(|field: StructField| field@) =~= field_ref_views(
            insert_fields@,
        ).map_values(carried).take(i as int + 1));
        i += 1;
    }
    assert(fields@.map_values(|field: StructField| field@) =~= table@.insertable_fields().map_values(
        carried,
    ));
    Some(InsertStruct { ident, vis: table.vis().clone(), fields })
}

/// Describes the lookup by `field` that `getter` asks for.
fn getter_impl<B: Backend>(
    table: &Table<B>,
    column_list: &str,
    field: &TableField<B>,
    getter: &Getter,
    fetch: Fetch,
) -> (out: GetterImpl)
    requires
        column_list@ == table@.select_column_list(B::dialect()),
    ensures
        out@ == table@.getter(field@, getter@, fetch, B::dialect()),
{
    let (func, arg_ty) = getter.or_fallback(field);
    let mut bound: Vec<String> = Vec::new();
    bound.push(String::from_str("by"));
    assert(texts(bound@) =~= seq!["by"@]);
    GetterImpl {
        vis: table.vis().clone(),
        func,
        arg_ty,
        statement: Statement { sql: select_by(table, column_list, field), arguments: bound, fetch },
    }
}

/// Describes the lookups of every field, in the order of declaration; for
/// one field, the failing lookup comes before the optional one and that
/// before the one for many rows.
pub fn impl_getters<B: Backend>(table: &Table<B>) -> (out: Vec<GetterImpl>)
    ensures
        getter_views(out@) == table@.impl_getters(B::dialect()),
{
    let column_list = table.select_column_list();
    let fields = table.fields();
    let ghost per_field = |field: FieldView| table@.field_getters(field, B::dialect());
    let mut out: Vec<GetterImpl> = Vec::new();
    let mut i: usize = 0;
    assert(table@.fields.take(0).flat_map(per_field) =~= Seq::<GetterImplView>::empty());
    while i < fields.len()
        invariant
            i <= fields@.len(),
            field_views(fields@) == table@.fields,
            column_list@ == table@.select_column_list(B::dialect()),
            per_field == |field: FieldView| table@.field_getters(field, B::dialect()),
            getter_views(out@) == table@.fields.take(i as int).flat_map(per_field),
        decreases fields.len() - i,
    {
        let field = &fields[i];
        assert(field@ == table@.fields[i as int]);
        proof {
            table@.fields.lemma_flat_map_take_append(per_field, i as int);
        }
        let ghost start = out@;
        if let Some(getter) = &field.get_one {
            let ghost before = out@;
            let one = getter_impl(table, column_list.as_str(), field, getter, Fetch::One);
            out.push(one);
            assert(getter_views(out@) =~= getter_views(before).push(one@));
        }
        if let Some(getter) = &field.get_optional {
            let ghost before = out@;
            let optional = getter_impl(table, column_list.as_str(), field, getter, Fetch::Optional);
            out.push(optional);
            assert(getter_views(out@) =~= getter_views(before).push(optional@));
        }
        if let Some(getter) = &field.get_many {
            let ghost before = out@;
            let many = getter_impl(table, column_list.as_str(), field, getter, Fetch::Many);
            out.push(many);
            assert(getter_views(out@) =~= getter_views(before).push(many@));
        }
        assert(getter_views(out@) =~= getter_views(start) + per_field(field@));
        i += 1;
    }
    assert(table@.fields.take(i as int) =~= table@.fields);
    out
}

/// Describes the setters of every field but the id that asks for one, in
/// the order of declaration.
pub fn impl_setters<B: Backend>(table: &Table<B>) -> (out: Vec<SetterImpl>)
    ensures
        setter_views(out@) == table@.impl_setters(B::dialect()),
{
    let fields = table.fields_except_id();
    let ghost others = field_ref_views(fields@);
    let ghost per_field = |field: FieldView| table@.field_setters(field, B::dialect());
    let mut out: Vec<SetterImpl> = Vec::new();
    let mut i: usize = 0;
    assert(others.take(0).flat_map(per_field) =~= Seq::<SetterImplView>::empty());
    while i < fields.len()
        invariant
            i <= fields@.len(),
            others == field_ref_views(fields@),
            per_field == |field: FieldView| table@.field_setters(field, B::dialect()),
            setter_views(out@) == others.take(i as int).flat_map(per_field),
        decreases fields.len() - i,
    {
        let field = fields[i];
        assert(field@ == others[i as int]);
        proof {
            others.lemma_flat_map_take_append(per_field, i as int);
        }
        let ghost before = out@;
        if let Some(func) = &field.set {
            let mut columns: Vec<String> = Vec::new();
            columns.push(field.column_name.clone());
            assert(texts(columns@) =~= seq![field@.column_name]);
            let sql = update_sql::<B>(
                table.table_name().as_str(),
                &columns,
                table.id().column_name.as_str(),
            );
            let mut id_argument = String::from_str("self.");
            id_argument.append(table.id().field.as_str());
            let mut bound: Vec<String> = Vec::new();
            bound.push(fmt_bound("value", field.ty.as_str(), field.by_ref, field.custom_type));
            bound.push(id_argument);
            assert(texts(bound@) =~= seq![
                bound_value("value"@, field@.ty, field@.by_ref, field@.custom_type),
                own_id(table@),
            ]);
            let setter = SetterImpl {
                vis: table.vis().clone(),
                func: func.clone(),
                field: field.field.clone(),
                ty: field.ty.clone(),
                statement: Statement { sql, arguments: bound, fetch: Fetch::Execute },
            };
            out.push(setter);
            assert(setter_views(out@) =~= setter_views(before).push(setter@));
        }
        assert(setter_views(out@) =~= setter_views(before) + per_field(field@));
        i += 1;
    }
    assert(others.take(i as int) =~= others);
    out
}

} // verus!
