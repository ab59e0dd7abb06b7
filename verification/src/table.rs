//! The validated description of a table and of its fields.

use crate::backend::{quoted, Backend, Dialect};
use crate::text::{join, joined, option_text, texts};
use std::marker::PhantomData;
use vstd::prelude::*;
use vstd::string::*;

verus! {

/// A lookup function that is generated for a field: its name and the type of
/// its argument, each left open where the attribute did not give it.
#[derive(Debug, PartialEq, Eq)]
pub struct Getter {
    pub func: Option<String>,
    pub arg_ty: Option<String>,
}

/// What a [`Getter`] holds.
pub struct GetterView {
    pub func: Option<Seq<char>>,
    pub arg_ty: Option<Seq<char>>,
}

impl View for Getter {
    type V = GetterView;

    open spec fn view(&self) -> GetterView {
        GetterView { func: option_text(self.func), arg_ty: option_text(self.arg_ty) }
    }
}

impl Clone for Getter {
    fn clone(&self) -> (copy: Self)
        ensures
            copy@ == self@,
    {
        Getter {
            func: match &self.func {
                Some(name) => Some(name.clone()),
                None => None,
            },
            arg_ty: match &self.arg_ty {
                Some(ty) => Some(ty.clone()),
                None => None,
            },
        }
    }
}

/// A copy of an optional getter.
fn clone_getter(getter: &Option<Getter>) -> (copy: Option<Getter>)
    ensures
        option_getter(copy) == option_getter(*getter),
{
    match getter {
        Some(g) => Some(g.clone()),
        None => None,
    }
}

/// What an optional [`Getter`] holds.
pub open spec fn option_getter(getter: Option<Getter>) -> Option<GetterView> {
    match getter {
        Some(g) => Some(g@),
        None => None,
    }
}

/// The helper type through which rows are inserted.
pub struct Insertable {
    pub ident: String,
}

/// One field of a table, as the statements for dialect `B` see it.
pub struct TableField<B: Backend> {
    /// The field's name in the row type.
    pub field: String,
    /// The field's type, as written.
    pub ty: String,
    /// The column that holds the field.
    pub column_name: String,
    /// Whether reading the column needs a hint that names the field's type.
    pub custom_type: bool,
    /// Whether the database supplies the value.
    pub default: bool,
    pub get_one: Option<Getter>,
    pub get_optional: Option<Getter>,
    pub get_many: Option<Getter>,
    /// The name of the function that sets this field alone.
    pub set: Option<String>,
    /// Whether the value is bound by reference.
    pub by_ref: bool,
    pub _phantom: PhantomData<B>,
}

/// What a [`TableField`] holds, whatever the dialect.
pub struct FieldView {
    pub field: Seq<char>,
    pub ty: Seq<char>,
    pub column_name: Seq<char>,
    pub custom_type: bool,
    pub default: bool,
    pub get_one: Option<GetterView>,
    pub get_optional: Option<GetterView>,
    pub get_many: Option<GetterView>,
    pub set: Option<Seq<char>>,
    pub by_ref: bool,
}

impl<B: Backend> View for TableField<B> {
    type V = FieldView;

    open spec fn view(&self) -> FieldView {
        FieldView {
            field: self.field@,
            ty: self.ty@,
            column_name: self.column_name@,
            custom_type: self.custom_type,
            default: self.default,
            get_one: option_getter(self.get_one),
            get_optional: option_getter(self.get_optional),
            get_many: option_getter(self.get_many),
            set: option_text(self.set),
            by_ref: self.by_ref,
        }
    }
}

/// The expression that binds the value at `place` for a field: taken by
/// reference where `by_ref` says so, and cast to the field's type, by
/// reference in the same way, where `custom_type` says so.
pub open spec fn bound_value(
    place: Seq<char>,
    ty: Seq<char>,
    by_ref: bool,
    custom_type: bool,
) -> Seq<char> {
    let reference = if by_ref {
        "&"@
    } else {
        Seq::<char>::empty()
    };
    if custom_type {
        reference + place + " as "@ + reference + ty
    } else {
        reference + place
    }
}

impl FieldView {
    /// The expression that binds the field's value in a statement that
    /// writes the row itself.
    pub open spec fn argument(self) -> Seq<char> {
        bound_value("self."@ + self.field, self.ty, self.by_ref, self.custom_type)
    }

    /// The name of a lookup function for this field: the one that `getter`
    /// gives, else `by_` and the field's name.
    pub open spec fn getter_name(self, getter: GetterView) -> Seq<char> {
        match getter.func {
            Some(name) => name,
            None => "by_"@ + self.field,
        }
    }

    /// The argument type of a lookup function for this field: the one that
    /// `getter` gives, else a reference to the field's type.
    pub open spec fn getter_arg_ty(self, getter: GetterView) -> Seq<char> {
        match getter.arg_ty {
            Some(ty) => ty,
            None => "&"@ + self.ty,
        }
    }

    /// The field's column, quoted for `dialect`.
    pub open spec fn column(self, dialect: Dialect) -> Seq<char> {
        quoted(dialect, self.column_name)
    }

    /// The field's entry in a list of selected columns: the column alone
    /// where it is named like the field, else the column under the field's
    /// name; for a custom type the alias also carries the field's type and
    /// marks the value as never null, so that the row decoder does not
    /// infer either.
    pub open spec fn select_item(self, dialect: Dialect) -> Seq<char> {
        if self.custom_type {
            self.column(dialect) + " AS "@ + quoted(dialect, self.field + "!: "@ + self.ty)
        } else if self.field == self.column_name {
            self.column(dialect)
        } else {
            self.column(dialect) + " AS "@ + quoted(dialect, self.field)
        }
    }
}

/// `identifier` between quotes of dialect `B`.
pub fn quote_identifier<B: Backend>(identifier: &str) -> (out: String)
    ensures
        out@ == quoted(B::dialect(), identifier@),
{
    let q = B::quote();
    let mut out = String::from_str(q);
    out.append(identifier);
    out.append(q);
    out
}

/// The expression that binds the value at `place`; see [`bound_value`].
pub fn fmt_bound(place: &str, ty: &str, by_ref: bool, custom_type: bool) -> (out: String)
    ensures
        out@ == bound_value(place@, ty@, by_ref, custom_type),
{
    let mut out = String::new();
    if by_ref {
        out.append("&");
    }
    out.append(place);
    if custom_type {
        out.append(" as ");
        if by_ref {
            out.append("&");
        }
        out.append(ty);
    }
    assert(out@ =~= bound_value(place@, ty@, by_ref, custom_type));
    out
}

impl Getter {
    /// The name and the argument type of the lookup function that this
    /// getter asks for on `field`, with the defaults filled in.
    pub fn or_fallback<B: Backend>(&self, field: &TableField<B>) -> (out: (String, String))
        ensures
            out.0@ == field@.getter_name(self@),
            out.1@ == field@.getter_arg_ty(self@),
    {
        let name = match &self.func {
            Some(name) => name.clone(),
            None => {
                let mut name = String::from_str("by_");
                name.append(field.field.as_str());
                name
            },
        };
        let arg_ty = match &self.arg_ty {
            Some(ty) => ty.clone(),
            None => {
                let mut ty = String::from_str("&");
                ty.append(field.ty.as_str());
                ty
            },
        };
        (name, arg_ty)
    }
}

impl<B: Backend> Clone for TableField<B> {
    fn clone(&self) -> (copy: Self)
        ensures
            copy@ == self@,
    {
        TableField {
            field: self.field.clone(),
            ty: self.ty.clone(),
            column_name: self.column_name.clone(),
            custom_type: self.custom_type,
            default: self.default,
            get_one: clone_getter(&self.get_one),
            get_optional: clone_getter(&self.get_optional),
            get_many: clone_getter(&self.get_many),
            set: match &self.set {
                Some(name) => Some(name.clone()),
                None => None,
            },
            by_ref: self.by_ref,
            _phantom: PhantomData,
        }
    }
}

impl<B: Backend> TableField<B> {
    /// The expression that binds the field's value in a statement that
    /// writes the row itself.
    pub fn fmt_as_argument(&self) -> (out: String)
        ensures
            out@ == self@.argument(),
    {
        let mut place = String::from_str("self.");
        place.append(self.field.as_str());
        fmt_bound(place.as_str(), self.ty.as_str(), self.by_ref, self.custom_type)
    }

    /// The field's column, quoted.
    pub fn column(&self) -> (out: String)
        ensures
            out@ == self@.column(B::dialect()),
    {
        quote_identifier::<B>(self.column_name.as_str())
    }

    /// The field's entry in a list of selected columns.
    pub fn fmt_for_select(&self) -> (out: String)
        ensures
            out@ == self@.select_item(B::dialect()),
    {
        if self.custom_type {
            let mut alias = self.field.clone();
            alias.append("!: ");
            alias.append(self.ty.as_str());
            let mut out = self.column();
            out.append(" AS ");
            out.append(quote_identifier::<B>(alias.as_str()).as_str());
            out
        } else if self.field == self.column_name {
            self.column()
        } else {
            let mut out = self.column();
            out.append(" AS ");
            out.append(quote_identifier::<B>(self.field.as_str()).as_str());
            out
        }
    }
}

/// What the fields of `fields` hold, in order.
pub open spec fn field_views<B: Backend>(fields: Seq<TableField<B>>) -> Seq<FieldView> {
    fields.map_values(|field: TableField<B>| field@)
}

/// What the fields that `fields` refers to hold, in order.
pub open spec fn field_ref_views<B: Backend>(fields: Seq<&TableField<B>>) -> Seq<FieldView> {
    fields.map_values(|field: &TableField<B>| field@)
}

/// A table whose rows are told apart by one of its fields, with what is to
/// be generated for it. `B` is the dialect of the statements.
pub struct Table<B: Backend> {
    ident: String,
    vis: String,
    table: String,
    id: TableField<B>,
    fields: Vec<TableField<B>>,
    insertable: Option<Insertable>,
    deletable: bool,
    order_by: Option<String>,
}

/// What a [`Table`] holds, whatever the dialect.
pub struct TableView {
    /// The name of the row type.
    pub ident: Seq<char>,
    /// The visibility of the generated functions, as written.
    pub vis: Seq<char>,
    /// The name of the table in the database.
    pub table: Seq<char>,
    /// The field that tells the rows apart.
    pub id: FieldView,
    /// Every field, the id too, in the order of declaration.
    pub fields: Seq<FieldView>,
    /// The name of the insert helper type, if one is wanted.
    pub insertable: Option<Seq<char>>,
    /// Whether rows can be deleted.
    pub deletable: bool,
    /// The ordering clause of listings, where one was given.
    pub order_by: Option<Seq<char>>,
}

impl<B: Backend> View for Table<B> {
    type V = TableView;

    closed spec fn view(&self) -> TableView {
        TableView {
            ident: self.ident@,
            vis: self.vis@,
            table: self.table@,
            id: self.id@,
            fields: field_views(self.fields@),
            insertable: match self.insertable {
                Some(i) => Some(i.ident@),
                None => None,
            },
            deletable: self.deletable,
            order_by: option_text(self.order_by),
        }
    }
}

impl TableView {
    /// Whether the field at `position` is the id and no other field bears
    /// the id's name.
    pub open spec fn id_at(self, position: int) -> bool {
        &&& 0 <= position < self.fields.len()
        &&& self.fields[position] == self.id
        &&& forall|other: int|
            0 <= other < self.fields.len() && (#[trigger] self.fields[other]).field
                == self.id.field ==> other == position
    }

    /// Exactly one field is the id.
    pub open spec fn wf(self) -> bool {
        exists|position: int| self.id_at(position)
    }

    /// The fields but the id, in order.
    pub open spec fn fields_except_id(self) -> Seq<FieldView> {
        self.fields.filter(|field: FieldView| field.field != self.id.field)
    }

    /// The fields whose values the caller supplies on insert, in order.
    pub open spec fn insertable_fields(self) -> Seq<FieldView> {
        self.fields.filter(|field: FieldView| !field.default)
    }

    /// The fields whose values the database supplies, in order.
    pub open spec fn default_fields(self) -> Seq<FieldView> {
        self.fields.filter(|field: FieldView| field.default)
    }

    /// The list of selected columns: the entry of every field, in the order
    /// of declaration, separated by a comma and a space.
    pub open spec fn select_column_list(self, dialect: Dialect) -> Seq<char> {
        joined(self.fields.map_values(|field: FieldView| field.select_item(dialect)), ", "@)
    }

    /// The table's name, quoted for `dialect`.
    pub open spec fn name(self, dialect: Dialect) -> Seq<char> {
        quoted(dialect, self.table)
    }
}

/// One more element of a sequence is kept by a filter if and only if it
/// meets the predicate.
pub proof fn lemma_filter_take_succ<A>(s: Seq<A>, pred: spec_fn(A) -> bool, i: int)
    requires
        0 <= i < s.len(),
    ensures
        s.take(i + 1).filter(pred) == if pred(s[i]) {
            s.take(i).filter(pred).push(s[i])
        } else {
            s.take(i).filter(pred)
        },
{
    reveal(Seq::filter);
    assert(s.take(i + 1).drop_last() =~= s.take(i));
}

/// An element that fails the predicate makes the filtered sequence shorter.
pub proof fn lemma_filter_drops<A>(s: Seq<A>, pred: spec_fn(A) -> bool, k: int)
    requires
        0 <= k < s.len(),
        !pred(s[k]),
    ensures
        s.filter(pred).len() < s.len(),
    decreases s.len(),
{
    reveal(Seq::filter);
    s.drop_last().lemma_filter_len(pred);
    if k < s.len() - 1 {
        lemma_filter_drops(s.drop_last(), pred, k);
    }
}

/// A well-formed table has fewer fields without the id than with it.
pub proof fn lemma_except_id_is_shorter(table: TableView)
    requires
        table.wf(),
    ensures
        table.fields_except_id().len() < table.fields.len(),
{
    let position = choose|position: int| table.id_at(position);
    lemma_filter_drops(
        table.fields,
        |field: FieldView| field.field != table.id.field,
        position,
    );
}

impl<B: Backend> Table<B> {
    #[verifier::type_invariant]
    spec fn inv(self) -> bool {
        self@.wf()
    }

    /// Puts a table together from its parts. The id is the field at
    /// `id_position`, which has to be the only one of its name.
    pub(crate) fn assemble(
        ident: String,
        vis: String,
        table: String,
        id_position: usize,
        fields: Vec<TableField<B>>,
        insertable: Option<String>,
        deletable: bool,
        order_by: Option<String>,
    ) -> (out: Self)
        requires
            id_position < fields@.len(),
            forall|other: int|
                0 <= other < fields@.len() && (#[trigger] fields@[other])@.field
                    == fields@[id_position as int]@.field ==> other == id_position,
        ensures
            out@ == (TableView {
                ident: ident@,
                vis: vis@,
                table: table@,
                id: fields@[id_position as int]@,
                fields: field_views(fields@),
                insertable: option_text(insertable),
                deletable,
                order_by: option_text(order_by),
            }),
    {
        let id = fields[id_position].clone();
        let ghost helper = option_text(insertable);
        let insertable = match insertable {
            Some(ident) => Some(Insertable { ident }),
            None => None,
        };
        proof {
            let view = TableView {
                ident: ident@,
                vis: vis@,
                table: table@,
                id: id@,
                fields: field_views(fields@),
                insertable: helper,
                deletable,
                order_by: option_text(order_by),
            };
            assert forall|other: int|
                0 <= other < view.fields.len() && (#[trigger] view.fields[other]).field
                    == view.id.field implies other == id_position by {
                assert(view.fields[other] == fields@[other]@);
            }
            assert(view.id_at(id_position as int));
        }
        Table { ident, vis, table, id, fields, insertable, deletable, order_by }
    }

    /// The name of the row type.
    pub fn ident(&self) -> (ident: &String)
        ensures
            ident@ == self@.ident,
    {
        &self.ident
    }

    /// The visibility of the generated functions, as written.
    pub fn vis(&self) -> (vis: &String)
        ensures
            vis@ == self@.vis,
    {
        &self.vis
    }

    /// The name of the table in the database.
    pub fn table_name(&self) -> (name: &String)
        ensures
            name@ == self@.table,
    {
        &self.table
    }

    /// The field that tells the rows apart.
    pub fn id(&self) -> (id: &TableField<B>)
        ensures
            id@ == self@.id,
    {
        &self.id
    }

    /// Every field, in the order of declaration.
    pub fn fields(&self) -> (fields: &Vec<TableField<B>>)
        ensures
            field_views(fields@) == self@.fields,
            self@.wf(),
    {
        proof {
            use_type_invariant(self);
        }
        &self.fields
    }

    /// The name of the insert helper type, if one is wanted.
    pub fn insertable(&self) -> (insertable: Option<&String>)
        ensures
            match insertable {
                Some(ident) => self@.insertable == Some(ident@),
                None => self@.insertable is None,
            },
    {
        match &self.insertable {
            Some(i) => Some(&i.ident),
            None => None,
        }
    }

    /// Whether rows can be deleted.
    pub fn deletable(&self) -> (deletable: bool)
        ensures
            deletable == self@.deletable,
    {
        self.deletable
    }

    /// The ordering clause of listings, where one was given.
    pub fn order_by(&self) -> (order_by: Option<&String>)
        ensures
            match order_by {
                Some(clause) => self@.order_by == Some(clause@),
                None => self@.order_by is None,
            },
    {
        match &self.order_by {
            Some(clause) => Some(clause),
            None => None,
        }
    }

    /// The fields but the id, in order. There is at least one field fewer
    /// of them than the table has.
    pub fn fields_except_id(&self) -> (out: Vec<&TableField<B>>)
        ensures
            field_ref_views(out@) == self@.fields_except_id(),
            out@.len() < self@.fields.len() <= usize::MAX,
    {
        proof {
            use_type_invariant(self);
            lemma_except_id_is_shorter(self@);
        }
        let ghost pred = |field: FieldView| field.field != self@.id.field;
        let mut out: Vec<&TableField<B>> = Vec::new();
        let mut i: usize = 0;
        while i < self.fields.len()
            invariant
                i <= self.fields.len(),
                pred == |field: FieldView| field.field != self@.id.field,
                field_ref_views(out@) == self@.fields.take(i as int).filter(pred),
            decreases self.fields.len() - i,
        {
            let field = &self.fields[i];
            proof {
                lemma_filter_take_succ(self@.fields, pred, i as int);
            }
            if field.field != self.id.field {
                out.push(field);
                assert(field_ref_views(out@) =~= self@.fields.take(i as int).filter(pred).push(
                    field@,
                ));
            }
            i += 1;
        }
        assert(self@.fields.take(i as int) =~= self@.fields);
        out
    }

    /// The fields whose values the caller supplies on insert, in order.
    pub fn insertable_fields(&self) -> (out: Vec<&TableField<B>>)
        ensures
            field_ref_views(out@) == self@.insertable_fields(),
            out@.len() <= self@.fields.len() <= usize::MAX,
    {
        let ghost pred = |field: FieldView| !field.default;
        let mut out: Vec<&TableField<B>> = Vec::new();
        let mut i: usize = 0;
        while i < self.fields.len()
            invariant
                i <= self.fields.len(),
                pred == |field: FieldView| !field.default,
                field_ref_views(out@) == self@.fields.take(i as int).filter(pred),
                out@.len() <= i,
            decreases self.fields.len() - i,
        {
            let field = &self.fields[i];
            proof {
                lemma_filter_take_succ(self@.fields, pred, i as int);
            }
            if !field.default {
                out.push(field);
                assert(field_ref_views(out@) =~= self@.fields.take(i as int).filter(pred).push(
                    field@,
                ));
            }
            i += 1;
        }
        assert(self@.fields.take(i as int) =~= self@.fields);
        out
    }

    /// The fields whose values the database supplies, in order.
    pub fn default_fields(&self) -> (out: Vec<&TableField<B>>)
        ensures
            field_ref_views(out@) == self@.default_fields(),
    {
        let ghost pred = |field: FieldView| field.default;
        let mut out: Vec<&TableField<B>> = Vec::new();
        let mut i: usize = 0;
        while i < self.fields.len()
            invariant
                i <= self.fields.len(),
                pred == |field: FieldView| field.default,
                field_ref_views(out@) == self@.fields.take(i as int).filter(pred),
            decreases self.fields.len() - i,
        {
            let field = &self.fields[i];
            proof {
                lemma_filter_take_succ(self@.fields, pred, i as int);
            }
            if field.default {
                out.push(field);
                assert(field_ref_views(out@) =~= self@.fields.take(i as int).filter(pred).push(
                    field@,
                ));
            }
            i += 1;
        }
        assert(self@.fields.take(i as int) =~= self@.fields);
        out
    }

    /// The list of selected columns.
    pub fn select_column_list(&self) -> (out: String)
        ensures
            out@ == self@.select_column_list(B::dialect()),
    {
        let ghost item = |field: FieldView| field.select_item(B::dialect());
        let mut items: Vec<String> = Vec::new();
        let mut i: usize = 0;
        while i < self.fields.len()
            invariant
                i <= self.fields.len(),
                item == |field: FieldView| field.select_item(B::dialect()),
                texts(items@) == self@.fields.take(i as int).map_values(item),
            decreases self.fields.len() - i,
        {
            let rendered = self.fields[i].fmt_for_select();
            let ghost before = items@;
            items.push(rendered);
            proof {
                self@.fields.lemma_map_take_succ(item, i as int);
                assert(texts(items@) =~= texts(before).push(rendered@));
            }
            i += 1;
        }
        assert(self@.fields.take(i as int) =~= self@.fields);
        proof {
            reveal_strlit(", ");
        }
        join(&items, ", ")
    }

    /// The table's name, quoted.
    pub fn name(&self) -> (out: String)
        ensures
            out@ == self@.name(B::dialect()),
    {
        quote_identifier::<B>(self.table.as_str())
    }
}

} // verus!
