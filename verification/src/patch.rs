//! Patches: some fields of a table, written together.

use crate::backend::{Backend, Dialect, Fetch};
use crate::sql::{update_sql, update_where, Statement, StatementView};
use crate::table::{bound_value, fmt_bound, TableView};
use crate::text::texts;
use vstd::prelude::*;
use vstd::string::*;

verus! {

/// One field of a patch.
#[derive(Debug, PartialEq, Eq)]
pub struct PatchField {
    /// The field's name, in the patch and in the row type alike.
    pub ident: String,
    /// The column that holds the field.
    pub column: String,
    /// The field's type, as written.
    pub ty: String,
    /// Whether the value is cast to the field's type when it is bound.
    pub custom_type: bool,
    /// Whether the value is bound by reference.
    pub by_ref: bool,
}

/// What a [`PatchField`] holds.
pub struct PatchFieldView {
    pub ident: Seq<char>,
    pub column: Seq<char>,
    pub ty: Seq<char>,
    pub custom_type: bool,
    pub by_ref: bool,
}

impl View for PatchField {
    type V = PatchFieldView;

    open spec fn view(&self) -> PatchFieldView {
        PatchFieldView {
            ident: self.ident@,
            column: self.column@,
            ty: self.ty@,
            custom_type: self.custom_type,
            by_ref: self.by_ref,
        }
    }
}

impl PatchFieldView {
    /// The expression that binds the field's value, read from the patch.
    pub open spec fn argument(self) -> Seq<char> {
        bound_value("self."@ + self.ident, self.ty, self.by_ref, self.custom_type)
    }
}

/// Some fields of a table's rows that are written together, leaving the
/// others as they are.
#[derive(Debug, PartialEq, Eq)]
pub struct Patch {
    /// The patch type.
    pub ident: String,
    /// The name of the table in the database.
    pub table_name: String,
    /// The path of the row type.
    pub table: String,
    /// The column that holds the id of a row.
    pub id: String,
    /// The fields that the patch writes, in the order of declaration.
    pub fields: Vec<PatchField>,
}

/// What a [`Patch`] holds.
pub struct PatchView {
    pub ident: Seq<char>,
    pub table_name: Seq<char>,
    pub table: Seq<char>,
    pub id: Seq<char>,
    pub fields: Seq<PatchFieldView>,
}

impl View for Patch {
    type V = PatchView;

    open spec fn view(&self) -> PatchView {
        PatchView {
            ident: self.ident@,
            table_name: self.table_name@,
            table: self.table@,
            id: self.id@,
            fields: self.fields@.map_values(|field: PatchField| field@),
        }
    }
}

/// How a patch is applied to a row, in the database and in memory.
#[derive(Debug, PartialEq, Eq)]
pub struct PatchImpl {
    /// The patch type.
    pub patch_ident: String,
    /// The path of the row type.
    pub table_path: String,
    /// The fields that are copied from the patch onto a row in memory; no
    /// other field of the row changes.
    pub assigned: Vec<String>,
    /// Writes the fields of the patch to the row of a given id: it binds
    /// the values of the patch in order and `id` last.
    pub patch_row: Statement,
}

/// What a [`PatchImpl`] holds.
pub struct PatchImplView {
    pub patch_ident: Seq<char>,
    pub table_path: Seq<char>,
    pub assigned: Seq<Seq<char>>,
    pub patch_row: StatementView,
}

impl View for PatchImpl {
    type V = PatchImplView;

    open spec fn view(&self) -> PatchImplView {
        PatchImplView {
            patch_ident: self.patch_ident@,
            table_path: self.table_path@,
            assigned: texts(self.assigned@),
            patch_row: self.patch_row@,
        }
    }
}

impl PatchView {
    /// Whether the patch is a patch of `table`: every field of it is a field
    /// of the table, and none is the table's id.
    pub open spec fn fits(self, table: TableView) -> bool {
        forall|i: int|
            0 <= i < self.fields.len() ==> {
                &&& (#[trigger] self.fields[i]).ident != table.id.field
                &&& exists|j: int|
                    0 <= j < table.fields.len() && (#[trigger] table.fields[j]).field
                        == self.fields[i].ident
            }
    }

    /// The names of the patch's fields, in order.
    pub open spec fn idents(self) -> Seq<Seq<char>> {
        self.fields.map_values(|field: PatchFieldView| field.ident)
    }

    /// The columns of the patch's fields, in order.
    pub open spec fn columns(self) -> Seq<Seq<char>> {
        self.fields.map_values(|field: PatchFieldView| field.column)
    }

    /// The expressions that bind the values of the patch, in order.
    pub open spec fn arguments(self) -> Seq<Seq<char>> {
        self.fields.map_values(|field: PatchFieldView| field.argument())
    }

    /// The statement that writes the patch to the row of a given id.
    pub open spec fn patch_row(self, dialect: Dialect) -> StatementView {
        StatementView {
            sql: update_where(self.table_name, self.columns(), self.id, dialect),
            arguments: self.arguments().push("id"@),
            fetch: Fetch::Execute,
        }
    }

    /// How the patch is applied.
    pub open spec fn impl_patch(self, dialect: Dialect) -> PatchImplView {
        PatchImplView {
            patch_ident: self.ident,
            table_path: self.table,
            assigned: self.idents(),
            patch_row: self.patch_row(dialect),
        }
    }
}

/// Describes how `patch` is applied. The placeholders are numbered up to
/// one more than the patch has fields, which has to be a `usize`.
pub fn impl_patch<B: Backend>(patch: &Patch) -> (out: PatchImpl)
    requires
        patch@.fields.len() < usize::MAX,
    ensures
        out@ == patch@.impl_patch(B::dialect()),
{
    let mut assigned: Vec<String> = Vec::new();
    let mut columns: Vec<String> = Vec::new();
    let mut bound: Vec<String> = Vec::new();
    let mut i: usize = 0;
    while i < patch.fields.len()
        invariant
            i <= patch.fields@.len(),
            texts(assigned@) == patch@.idents().take(i as int),
            texts(columns@) == patch@.columns().take(i as int),
            texts(bound@) == patch@.arguments().take(i as int),
        decreases patch.fields.len() - i,
    {
        let field = &patch.fields[i];
        let ghost assigned_before = assigned@;
        let ghost columns_before = columns@;
        let ghost bound_before = bound@;
        let mut place = String::from_str("self.");
        place.append(field.ident.as_str());
        let argument = fmt_bound(place.as_str(), field.ty.as_str(), field.by_ref, field.custom_type);
        assigned.push(field.ident.clone());
        columns.push(field.column.clone());
        bound.push(argument);
        assert(texts(assigned@) =~= texts(assigned_before).push(field@.ident));
        assert(texts(columns@) =~= texts(columns_before).push(field@.column));
        assert(texts(bound@) =~= texts(bound_before).push(field@.argument()));
        assert(texts(assigned@) =~= patch@.idents().take(i as int + 1));
        assert(texts(columns@) =~= patch@.columns().take(i as int + 1));
        assert(texts(bound@) =~= patch@.arguments().take(i as int + 1));
        i += 1;
    }
    assert(texts(assigned@) =~= patch@.idents());
    assert(texts(columns@) =~= patch@.columns());
    assert(texts(bound@) =~= patch@.arguments());
    let sql = update_sql::<B>(patch.table_name.as_str(), &columns, patch.id.as_str());
    let ghost bound_before = bound@;
    bound.push(String::from_str("id"));
    assert(texts(bound@) =~= texts(bound_before).push("id"@));
    PatchImpl {
        patch_ident: patch.ident.clone(),
        table_path: patch.table.clone(),
        assigned,
        patch_row: Statement { sql, arguments: bound, fetch: Fetch::Execute },
    }
}

} // verus!
