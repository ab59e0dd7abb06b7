//! From the description of a table to everything that is generated for it.

use crate::backend::{Backend, Dialect};
use crate::emit::{
    getter_views, impl_delete, impl_getters, impl_insert, impl_setters, impl_table,
    insert_struct, option_view, setter_views, DeleteImpl, DeleteImplView, GetterImpl,
    GetterImplView, InsertImpl, InsertImplView, InsertStruct, InsertStructView, SetterImpl,
    SetterImplView, TableImpl, TableImplView,
};
use crate::error::{holds, Error, ErrorView};
use crate::input::{StructInput, StructInputView};
use crate::parse::parse_table;
use crate::table::{Table, TableView};
use vstd::prelude::*;

verus! {

/// Everything that is generated for one table.
#[derive(Debug, PartialEq, Eq)]
pub struct Derived {
    pub impl_table: TableImpl,
    pub delete: Option<DeleteImpl>,
    pub insert_struct: Option<InsertStruct>,
    pub impl_insert: Option<InsertImpl>,
    pub getters: Vec<GetterImpl>,
    pub setters: Vec<SetterImpl>,
}

/// What a [`Derived`] holds.
pub struct DerivedView {
    pub impl_table: TableImplView,
    pub delete: Option<DeleteImplView>,
    pub insert_struct: Option<InsertStructView>,
    pub impl_insert: Option<InsertImplView>,
    pub getters: Seq<GetterImplView>,
    pub setters: Seq<SetterImplView>,
}

impl View for Derived {
    type V = DerivedView;

    open spec fn view(&self) -> DerivedView {
        DerivedView {
            impl_table: self.impl_table@,
            delete: option_view(self.delete),
            insert_struct: option_view(self.insert_struct),
            impl_insert: option_view(self.impl_insert),
            getters: getter_views(self.getters@),
            setters: setter_views(self.setters@),
        }
    }
}

impl TableView {
    /// Everything that is generated for the table in `dialect`.
    pub open spec fn derived(self, dialect: Dialect) -> DerivedView {
        DerivedView {
            impl_table: self.impl_table(dialect),
            delete: self.impl_delete(dialect),
            insert_struct: self.insert_struct(),
            impl_insert: self.impl_insert(dialect),
            getters: self.impl_getters(dialect),
            setters: self.impl_setters(dialect),
        }
    }
}

/// What is generated for the type definition `input` in `dialect`: all of it
/// where the definition describes a table, else the definition's first
/// error and nothing else.
pub open spec fn derive_spec(input: StructInputView, dialect: Dialect) -> Result<
    DerivedView,
    ErrorView,
> {
    match parse_table(input) {
        Ok(table) => Ok(table.derived(dialect)),
        Err(error) => Err(error),
    }
}

/// Describes everything that is generated for a table that was validated.
pub fn generate<B: Backend>(table: &Table<B>) -> (out: Derived)
    ensures
        out@ == table@.derived(B::dialect()),
{
    Derived {
        impl_table: impl_table(table),
        delete: impl_delete(table),
        insert_struct: insert_struct(table),
        impl_insert: impl_insert(table),
        getters: impl_getters(table),
        setters: impl_setters(table),
    }
}

/// Validates the type definition `input` and describes everything that is
/// generated for it in the dialect `B`.
pub fn derive<B: Backend>(input: &StructInput) -> (out: Result<Derived, Error>)
    ensures
        holds(out, derive_spec(input@, B::dialect())),
{
    match Table::<B>::parse(input) {
        Ok(table) => Ok(generate(&table)),
        Err(error) => Err(error),
    }
}

} // verus!
