//! From a type definition with attributes to a validated table.
//!
//! The attributes are read in order, each into its slot. The first attribute
//! that is unknown, that has a value of the wrong shape or that fills a slot
//! a second time ends the reading with its error.

use crate::backend::Backend;
use crate::error::{holds, missing_attr, set_once, Error, ErrorView};
use crate::input::{
    attr_views, field_input_views, Attr, AttrValue, AttrValueView, AttrView, FieldInput,
    FieldInputView, StructInput, StructInputView,
};
use crate::table::{
    field_views, option_getter, FieldView, Getter, GetterView, Table, TableField,
    TableView,
};
use crate::text::option_text;
use std::marker::PhantomData;
use vstd::prelude::*;
use vstd::string::*;

verus! {

/// Whether `key` is the word `word`.
pub fn key_is(key: &String, word: &str) -> (same: bool)
    ensures
        same == (key@ == word@),
{
    *key == String::from_str(word)
}

/// The error for an attribute that fills its slot a second time.
pub open spec fn duplicate(field: Option<Seq<char>>, attr: AttrView) -> ErrorView {
    ErrorView::DuplicateAttribute { field, attribute: attr.key }
}

/// The error for an attribute whose value has the wrong shape.
pub open spec fn malformed(field: Option<Seq<char>>, attr: AttrView) -> ErrorView {
    ErrorView::MalformedAttribute { field, attribute: attr.key }
}

/// The error for an attribute outside the vocabulary.
pub open spec fn unknown(field: Option<Seq<char>>, attr: AttrView) -> ErrorView {
    ErrorView::UnknownAttribute { field, attribute: attr.key }
}

/// A copy of an optional field name.
fn clone_owner(field: Option<&String>) -> (copy: Option<String>)
    ensures
        option_text(copy) == match field {
            Some(name) => Some(name@),
            None => None,
        },
{
    match field {
        Some(name) => Some(name.clone()),
        None => None,
    }
}

/// The text of an optional reference to a string.
pub open spec fn owner_text(field: Option<&String>) -> Option<Seq<char>> {
    match field {
        Some(name) => Some(name@),
        None => None,
    }
}

/// The error for `attr` where it fills its slot a second time.
pub(crate) fn duplicate_error(field: Option<&String>, attr: &Attr) -> (out: Error)
    ensures
        out@ == duplicate(owner_text(field), attr@),
{
    Error::DuplicateAttribute { field: clone_owner(field), attribute: attr.key.clone() }
}

/// The error for `attr` where its value has the wrong shape.
pub(crate) fn malformed_error(field: Option<&String>, attr: &Attr) -> (out: Error)
    ensures
        out@ == malformed(owner_text(field), attr@),
{
    Error::MalformedAttribute { field: clone_owner(field), attribute: attr.key.clone() }
}

/// The error for `attr` where its key is outside the vocabulary.
pub(crate) fn unknown_error(field: Option<&String>, attr: &Attr) -> (out: Error)
    ensures
        out@ == unknown(owner_text(field), attr@),
{
    Error::UnknownAttribute { field: clone_owner(field), attribute: attr.key.clone() }
}

/// The getter that an attribute value asks for: the key alone leaves name
/// and argument type open, an identifier names the function, a type in
/// parentheses gives the argument type, and an identifier with a type in
/// parentheses gives both. Other values ask for none.
pub open spec fn getter_of(value: AttrValueView) -> Option<GetterView> {
    match value {
        AttrValueView::Flag => Some(GetterView { func: None, arg_ty: None }),
        AttrValueView::Ident(func) => Some(GetterView { func: Some(func), arg_ty: None }),
        AttrValueView::Args(arg) => Some(GetterView { func: None, arg_ty: Some(arg) }),
        AttrValueView::Call { func, arg } => Some(
            GetterView { func: Some(func), arg_ty: Some(arg) },
        ),
        _ => None,
    }
}

/// The getter that an attribute value asks for.
pub fn read_getter(value: &AttrValue) -> (out: Option<Getter>)
    ensures
        option_getter(out) == getter_of(value@),
{
    match value {
        AttrValue::Flag => Some(Getter { func: None, arg_ty: None }),
        AttrValue::Ident(func) => Some(
            Getter { func: Some(String::from_str(func.as_str())), arg_ty: None },
        ),
        AttrValue::Args(arg) => Some(Getter { func: None, arg_ty: Some(arg.clone()) }),
        AttrValue::Call { func, arg } => Some(
            Getter { func: Some(String::from_str(func.as_str())), arg_ty: Some(arg.clone()) },
        ),
        _ => None,
    }
}

/// The slots that the attributes of a field fill.
pub struct FieldDraft {
    pub column: Option<String>,
    pub custom_type: Option<bool>,
    pub default: Option<bool>,
    pub get_one: Option<Getter>,
    pub get_optional: Option<Getter>,
    pub get_many: Option<Getter>,
    pub set: Option<String>,
    pub by_ref: Option<bool>,
}

/// What a [`FieldDraft`] holds.
pub struct FieldDraftView {
    pub column: Option<Seq<char>>,
    pub custom_type: Option<bool>,
    pub default: Option<bool>,
    pub get_one: Option<GetterView>,
    pub get_optional: Option<GetterView>,
    pub get_many: Option<GetterView>,
    pub set: Option<Seq<char>>,
    pub by_ref: Option<bool>,
}

impl View for FieldDraft {
    type V = FieldDraftView;

    open spec fn view(&self) -> FieldDraftView {
        FieldDraftView {
            column: option_text(self.column),
            custom_type: self.custom_type,
            default: self.default,
            get_one: option_getter(self.get_one),
            get_optional: option_getter(self.get_optional),
            get_many: option_getter(self.get_many),
            set: option_text(self.set),
            by_ref: self.by_ref,
        }
    }
}

impl FieldDraftView {
    /// The draft with every slot empty.
    pub open spec fn empty() -> FieldDraftView {
        FieldDraftView {
            column: None,
            custom_type: None,
            default: None,
            get_one: None,
            get_optional: None,
            get_many: None,
            set: None,
            by_ref: None,
        }
    }

    /// The draft after one more attribute of the field named `field`, or
    /// the error that the attribute is refused with.
    pub open spec fn step(self, field: Seq<char>, attr: AttrView) -> Result<
        FieldDraftView,
        ErrorView,
    > {
        let owner = Some(field);
        if attr.key == "column"@ {
            match attr.value {
                AttrValueView::Text(column) => if self.column is Some {
                    Err(duplicate(owner, attr))
                } else {
                    Ok(FieldDraftView { column: Some(column), ..self })
                },
                _ => Err(malformed(owner, attr)),
            }
        } else if attr.key == "custom_type"@ {
            match attr.value {
                AttrValueView::Flag => if self.custom_type is Some {
                    Err(duplicate(owner, attr))
                } else {
                    Ok(FieldDraftView { custom_type: Some(true), ..self })
                },
                _ => Err(malformed(owner, attr)),
            }
        } else if attr.key == "default"@ {
            match attr.value {
                AttrValueView::Flag => if self.default is Some {
                    Err(duplicate(owner, attr))
                } else {
                    Ok(FieldDraftView { default: Some(true), ..self })
                },
                _ => Err(malformed(owner, attr)),
            }
        } else if attr.key == "get_one"@ {
            match getter_of(attr.value) {
                Some(getter) => if self.get_one is Some {
                    Err(duplicate(owner, attr))
                } else {
                    Ok(FieldDraftView { get_one: Some(getter), ..self })
                },
                None => Err(malformed(owner, attr)),
            }
        } else if attr.key == "get_optional"@ {
            match getter_of(attr.value) {
                Some(getter) => if self.get_optional is Some {
                    Err(duplicate(owner, attr))
                } else {
                    Ok(FieldDraftView { get_optional: Some(getter), ..self })
                },
                None => Err(malformed(owner, attr)),
            }
        } else if attr.key == "get_many"@ {
            match getter_of(attr.value) {
                Some(getter) => if self.get_many is Some {
                    Err(duplicate(owner, attr))
                } else {
                    Ok(FieldDraftView { get_many: Some(getter), ..self })
                },
                None => Err(malformed(owner, attr)),
            }
        } else if attr.key == "set"@ {
            match attr.value {
                AttrValueView::Flag => if self.set is Some {
                    Err(duplicate(owner, attr))
                } else {
                    Ok(FieldDraftView { set: Some("set_"@ + field), ..self })
                },
                AttrValueView::Ident(name) => if self.set is Some {
                    Err(duplicate(owner, attr))
                } else {
                    Ok(FieldDraftView { set: Some(name), ..self })
                },
                _ => Err(malformed(owner, attr)),
            }
        } else if attr.key == "by_ref"@ {
            match attr.value {
                AttrValueView::Flag => if self.by_ref is Some {
                    Err(duplicate(owner, attr))
                } else {
                    Ok(FieldDraftView { by_ref: Some(true), ..self })
                },
                _ => Err(malformed(owner, attr)),
            }
        } else {
            Err(unknown(owner, attr))
        }
    }

    /// The draft after the attributes `attrs`, read in order, or the first
    /// error among them.
    pub open spec fn read(self, field: Seq<char>, attrs: Seq<AttrView>) -> Result<
        FieldDraftView,
        ErrorView,
    >
        decreases attrs.len(),
    {
        if attrs.len() == 0 {
            Ok(self)
        } else {
            match self.step(field, attrs[0]) {
                Ok(next) => next.read(field, attrs.drop_first()),
                Err(error) => Err(error),
            }
        }
    }

    /// The field that the draft describes: the column is the field's name
    /// where none was given, and a flag that was not given is off.
    pub open spec fn finish(self, input: FieldInputView) -> FieldView {
        FieldView {
            field: input.ident,
            ty: input.ty,
            column_name: match self.column {
                Some(column) => column,
                None => input.ident,
            },
            custom_type: self.custom_type is Some,
            default: self.default is Some,
            get_one: self.get_one,
            get_optional: self.get_optional,
            get_many: self.get_many,
            set: self.set,
            by_ref: self.by_ref is Some,
        }
    }
}

/// The field that `input` describes, or the first error among its
/// attributes.
pub open spec fn parse_field(input: FieldInputView) -> Result<FieldView, ErrorView> {
    match FieldDraftView::empty().read(input.ident, input.attrs) {
        Ok(draft) => Ok(draft.finish(input)),
        Err(error) => Err(error),
    }
}

/// The fields that `inputs` describe, in order, or the error of the first
/// field that has one.
pub open spec fn parse_fields(inputs: Seq<FieldInputView>) -> Result<Seq<FieldView>, ErrorView>
    decreases inputs.len(),
{
    if inputs.len() == 0 {
        Ok(Seq::empty())
    } else {
        match parse_field(inputs[0]) {
            Ok(first) => match parse_fields(inputs.drop_first()) {
                Ok(rest) => Ok(seq![first] + rest),
                Err(error) => Err(error),
            },
            Err(error) => Err(error),
        }
    }
}

impl FieldDraft {
    /// The draft with every slot empty.
    pub fn empty() -> (out: FieldDraft)
        ensures
            out@ == FieldDraftView::empty(),
    {
        FieldDraft {
            column: None,
            custom_type: None,
            default: None,
            get_one: None,
            get_optional: None,
            get_many: None,
            set: None,
            by_ref: None,
        }
    }

    /// Reads one more attribute of the field named `field`.
    pub fn step(self, field: &String, attr: &Attr) -> (out: Result<FieldDraft, Error>)
        ensures
            holds(out, self@.step(field@, attr@)),
    {
        let owner = Some(field);
        let mut draft = self;
        if key_is(&attr.key, "column") {
            match &attr.value {
                AttrValue::Text(column) => match set_once(&mut draft.column, column.clone()) {
                    Ok(()) => Ok(draft),
                    Err(_) => Err(duplicate_error(owner, attr)),
                },
                _ => Err(malformed_error(owner, attr)),
            }
        } else if key_is(&attr.key, "custom_type") {
            match &attr.value {
                AttrValue::Flag => match set_once(&mut draft.custom_type, true) {
                    Ok(()) => Ok(draft),
                    Err(_) => Err(duplicate_error(owner, attr)),
                },
                _ => Err(malformed_error(owner, attr)),
            }
        } else if key_is(&attr.key, "default") {
            match &attr.value {
                AttrValue::Flag => match set_once(&mut draft.default, true) {
                    Ok(()) => Ok(draft),
                    Err(_) => Err(duplicate_error(owner, attr)),
                },
                _ => Err(malformed_error(owner, attr)),
            }
        } else if key_is(&attr.key, "get_one") {
            match read_getter(&attr.value) {
                Some(getter) => match set_once(&mut draft.get_one, getter) {
                    Ok(()) => Ok(draft),
                    Err(_) => Err(duplicate_error(owner, attr)),
                },
                None => Err(malformed_error(owner, attr)),
            }
        } else if key_is(&attr.key, "get_optional") {
            match read_getter(&attr.value) {
                Some(getter) => match set_once(&mut draft.get_optional, getter) {
                    Ok(()) => Ok(draft),
                    Err(_) => Err(duplicate_error(owner, attr)),
                },
                None => Err(malformed_error(owner, attr)),
            }
        } else if key_is(&attr.key, "get_many") {
            match read_getter(&attr.value) {
                Some(getter) => match set_once(&mut draft.get_many, getter) {
                    Ok(()) => Ok(draft),
                    Err(_) => Err(duplicate_error(owner, attr)),
                },
                None => Err(malformed_error(owner, attr)),
            }
        } else if key_is(&attr.key, "set") {
            match &attr.value {
                AttrValue::Flag => {
                    let mut name = String::from_str("set_");
                    name.append(field.as_str());
                    match set_once(&mut draft.set, name) {
                        Ok(()) => Ok(draft),
                        Err(_) => Err(duplicate_error(owner, attr)),
                    }
                },
                AttrValue::Ident(name) => match set_once(
                    &mut draft.set,
                    String::from_str(name.as_str()),
                ) {
                    Ok(()) => Ok(draft),
                    Err(_) => Err(duplicate_error(owner, attr)),
                },
                _ => Err(malformed_error(owner, attr)),
            }
        } else if key_is(&attr.key, "by_ref") {
            match &attr.value {
                AttrValue::Flag => match set_once(&mut draft.by_ref, true) {
                    Ok(()) => Ok(draft),
                    Err(_) => Err(duplicate_error(owner, attr)),
                },
                _ => Err(malformed_error(owner, attr)),
            }
        } else {
            Err(unknown_error(owner, attr))
        }
    }
}

impl<B: Backend> TableField<B> {
    /// Reads a field with its attributes.
    pub fn parse(input: &FieldInput) -> (out: Result<TableField<B>, Error>)
        ensures
            holds(out, parse_field(input@)),
    {
        let ghost attrs = input@.attrs;
        let mut draft = FieldDraft::empty();
        let mut i: usize = 0;
        assert(attrs.skip(0) =~= attrs);
        while i < input.attrs.len()
            invariant
                i <= input.attrs@.len(),
                attrs == input@.attrs,
                FieldDraftView::empty().read(input@.ident, attrs) == draft@.read(
                    input@.ident,
                    attrs.skip(i as int),
                ),
            decreases input.attrs.len() - i,
        {
            proof {
                assert(attrs.skip(i as int)[0] == input.attrs@[i as int]@);
                assert(attrs.skip(i as int).drop_first() =~= attrs.skip(i as int + 1));
            }
            match draft.step(&input.ident, &input.attrs[i]) {
                Ok(next) => {
                    draft = next;
                },
                Err(error) => {
                    return Err(error);
                },
            }
            i += 1;
        }
        let column_name = match &draft.column {
            Some(column) => column.clone(),
            None => input.ident.clone(),
        };
        Ok(
            TableField {
                field: input.ident.clone(),
                ty: input.ty.clone(),
                column_name,
                custom_type: draft.custom_type.is_some(),
                default: draft.default.is_some(),
                get_one: draft.get_one,
                get_optional: draft.get_optional,
                get_many: draft.get_many,
                set: draft.set,
                by_ref: draft.by_ref.is_some(),
                _phantom: PhantomData,
            },
        )
    }
}

/// Reads the fields of a type definition, in order.
pub fn read_fields<B: Backend>(inputs: &Vec<FieldInput>) -> (out: Result<
    Vec<TableField<B>>,
    Error,
>)
    ensures
        match out {
            Ok(fields) => parse_fields(field_input_views(inputs@)) == Ok::<
                Seq<FieldView>,
                ErrorView,
            >(field_views(fields@)),
            Err(error) => parse_fields(field_input_views(inputs@)) == Err::<
                Seq<FieldView>,
                ErrorView,
            >(error@),
        },
{
    let ghost all = field_input_views(inputs@);
    let mut fields: Vec<TableField<B>> = Vec::new();
    let mut i: usize = 0;
    assert(all.skip(0) =~= all);
    assert(field_views(fields@) =~= Seq::<FieldView>::empty());
    while i < inputs.len()
        invariant
            i <= inputs@.len(),
            all == field_input_views(inputs@),
            parse_fields(all) == match parse_fields(all.skip(i as int)) {
                Ok(rest) => Ok(field_views(fields@) + rest),
                Err(error) => Err(error),
            },
        decreases inputs.len() - i,
    {
        proof {
            assert(all.skip(i as int)[0] == inputs@[i as int]@);
            assert(all.skip(i as int).drop_first() =~= all.skip(i as int + 1));
        }
        let ghost before = fields@;
        match TableField::<B>::parse(&inputs[i]) {
            Ok(field) => {
                fields.push(field);
                proof {
                    assert(field_views(fields@) =~= field_views(before).push(field@));
                    match parse_fields(all.skip(i as int + 1)) {
                        Ok(rest) => {
                            assert(field_views(before) + (seq![field@] + rest) =~= field_views(
                                fields@,
                            ) + rest);
                        },
                        Err(_) => {},
                    }
                }
            },
            Err(error) => {
                return Err(error);
            },
        }
        i += 1;
    }
    proof {
        assert(all.skip(i as int) =~= Seq::<FieldInputView>::empty());
        assert(field_views(fields@) + Seq::<FieldView>::empty() =~= field_views(fields@));
    }
    Ok(fields)
}

/// The slots that the attributes of a table fill.
pub struct TableDraft {
    pub table: Option<String>,
    pub id: Option<String>,
    pub insertable: Option<String>,
    pub deletable: Option<bool>,
    pub order_by: Option<String>,
}

/// What a [`TableDraft`] holds.
pub struct TableDraftView {
    pub table: Option<Seq<char>>,
    pub id: Option<Seq<char>>,
    pub insertable: Option<Seq<char>>,
    pub deletable: Option<bool>,
    pub order_by: Option<Seq<char>>,
}

impl View for TableDraft {
    type V = TableDraftView;

    open spec fn view(&self) -> TableDraftView {
        TableDraftView {
            table: option_text(self.table),
            id: option_text(self.id),
            insertable: option_text(self.insertable),
            deletable: self.deletable,
            order_by: option_text(self.order_by),
        }
    }
}

impl TableDraftView {
    /// The draft with every slot empty.
    pub open spec fn empty() -> TableDraftView {
        TableDraftView { table: None, id: None, insertable: None, deletable: None, order_by: None }
    }

    /// The draft after one more attribute of the type named `ident`, or the
    /// error that the attribute is refused with. The insert helper type is
    /// named `Insert` and the type's name where no name is given.
    pub open spec fn step(self, ident: Seq<char>, attr: AttrView) -> Result<
        TableDraftView,
        ErrorView,
    > {
        if attr.key == "table"@ {
            match attr.value {
                AttrValueView::Text(table) => if self.table is Some {
                    Err(duplicate(None, attr))
                } else {
                    Ok(TableDraftView { table: Some(table), ..self })
                },
                _ => Err(malformed(None, attr)),
            }
        } else if attr.key == "id"@ {
            match attr.value {
                AttrValueView::Ident(id) => if self.id is Some {
                    Err(duplicate(None, attr))
                } else {
                    Ok(TableDraftView { id: Some(id), ..self })
                },
                _ => Err(malformed(None, attr)),
            }
        } else if attr.key == "insertable"@ {
            match attr.value {
                AttrValueView::Flag => if self.insertable is Some {
                    Err(duplicate(None, attr))
                } else {
                    Ok(TableDraftView { insertable: Some("Insert"@ + ident), ..self })
                },
                AttrValueView::Ident(name) => if self.insertable is Some {
                    Err(duplicate(None, attr))
                } else {
                    Ok(TableDraftView { insertable: Some(name), ..self })
                },
                _ => Err(malformed(None, attr)),
            }
        } else if attr.key == "deletable"@ {
            match attr.value {
                AttrValueView::Flag => if self.deletable is Some {
                    Err(duplicate(None, attr))
                } else {
                    Ok(TableDraftView { deletable: Some(true), ..self })
                },
                _ => Err(malformed(None, attr)),
            }
        } else if attr.key == "order_by"@ {
            match attr.value {
                AttrValueView::Text(clause) => if self.order_by is Some {
                    Err(duplicate(None, attr))
                } else {
                    Ok(TableDraftView { order_by: Some(clause), ..self })
                },
                _ => Err(malformed(None, attr)),
            }
        } else {
            Err(unknown(None, attr))
        }
    }

    /// The draft after the attributes `attrs`, read in order, or the first
    /// error among them.
    pub open spec fn read(self, ident: Seq<char>, attrs: Seq<AttrView>) -> Result<
        TableDraftView,
        ErrorView,
    >
        decreases attrs.len(),
    {
        if attrs.len() == 0 {
            Ok(self)
        } else {
            match self.step(ident, attrs[0]) {
                Ok(next) => next.read(ident, attrs.drop_first()),
                Err(error) => Err(error),
            }
        }
    }
}

/// Whether the field at `position` is named `name`.
pub open spec fn named(fields: Seq<FieldView>, name: Seq<char>, position: int) -> bool {
    0 <= position < fields.len() && fields[position].field == name
}

/// The position of the one field named `id`; an error where no field or
/// more than one bears the name.
pub open spec fn locate_id(fields: Seq<FieldView>, id: Seq<char>) -> Result<int, ErrorView> {
    if !exists|position: int| named(fields, id, position) {
        Err(ErrorView::UnknownId { id })
    } else if exists|first: int, second: int|
        first != second && named(fields, id, first) && named(fields, id, second) {
        Err(ErrorView::AmbiguousId { id })
    } else {
        Ok(choose|position: int| named(fields, id, position))
    }
}

/// The table that `input` describes. Its fields are read first, then its
/// own attributes; then the id has to be given and to name exactly one
/// field, and the table's name has to be given.
pub open spec fn parse_table(input: StructInputView) -> Result<TableView, ErrorView> {
    match parse_fields(input.fields) {
        Err(error) => Err(error),
        Ok(fields) => match TableDraftView::empty().read(input.ident, input.attrs) {
            Err(error) => Err(error),
            Ok(draft) => match draft.id {
                None => Err(ErrorView::MissingAttribute { attribute: "id"@ }),
                Some(id) => match locate_id(fields, id) {
                    Err(error) => Err(error),
                    Ok(position) => match draft.table {
                        None => Err(ErrorView::MissingAttribute { attribute: "table"@ }),
                        Some(table) => Ok(
                            TableView {
                                ident: input.ident,
                                vis: input.vis,
                                table,
                                id: fields[position],
                                fields,
                                insertable: draft.insertable,
                                deletable: draft.deletable is Some,
                                order_by: draft.order_by,
                            },
                        ),
                    },
                },
            },
        },
    }
}

/// A table that was read from a description is well formed.
pub proof fn lemma_parsed_table_is_well_formed(input: StructInputView)
    requires
        parse_table(input) is Ok,
    ensures
        parse_table(input)->Ok_0.wf(),
{
    let fields = parse_fields(input.fields)->Ok_0;
    let draft = TableDraftView::empty().read(input.ident, input.attrs)->Ok_0;
    let id = draft.id->Some_0;
    let position = locate_id(fields, id)->Ok_0;
    let table = parse_table(input)->Ok_0;
    assert(named(fields, id, position));
    assert forall|other: int|
        0 <= other < table.fields.len() && (#[trigger] table.fields[other]).field
            == table.id.field implies other == position by {
        assert(named(fields, id, other));
    }
    assert(table.id_at(position));
}

impl TableDraft {
    /// The draft with every slot empty.
    pub fn empty() -> (out: TableDraft)
        ensures
            out@ == TableDraftView::empty(),
    {
        TableDraft { table: None, id: None, insertable: None, deletable: None, order_by: None }
    }

    /// Reads one more attribute of the type named `ident`.
    pub fn step(self, ident: &String, attr: &Attr) -> (out: Result<TableDraft, Error>)
        ensures
            holds(out, self@.step(ident@, attr@)),
    {
        let mut draft = self;
        if key_is(&attr.key, "table") {
            match &attr.value {
                AttrValue::Text(table) => match set_once(&mut draft.table, table.clone()) {
                    Ok(()) => Ok(draft),
                    Err(_) => Err(duplicate_error(None, attr)),
                },
                _ => Err(malformed_error(None, attr)),
            }
        } else if key_is(&attr.key, "id") {
            match &attr.value {
                AttrValue::Ident(id) => match set_once(
                    &mut draft.id,
                    String::from_str(id.as_str()),
                ) {
                    Ok(()) => Ok(draft),
                    Err(_) => Err(duplicate_error(None, attr)),
                },
                _ => Err(malformed_error(None, attr)),
            }
        } else if key_is(&attr.key, "insertable") {
            match &attr.value {
                AttrValue::Flag => {
                    let mut name = String::from_str("Insert");
                    name.append(ident.as_str());
                    match set_once(&mut draft.insertable, name) {
                        Ok(()) => Ok(draft),
                        Err(_) => Err(duplicate_error(None, attr)),
                    }
                },
                AttrValue::Ident(name) => match set_once(
                    &mut draft.insertable,
                    String::from_str(name.as_str()),
                ) {
                    Ok(()) => Ok(draft),
                    Err(_) => Err(duplicate_error(None, attr)),
                },
                _ => Err(malformed_error(None, attr)),
            }
        } else if key_is(&attr.key, "deletable") {
            match &attr.value {
                AttrValue::Flag => match set_once(&mut draft.deletable, true) {
                    Ok(()) => Ok(draft),
                    Err(_) => Err(duplicate_error(None, attr)),
                },
                _ => Err(malformed_error(None, attr)),
            }
        } else if key_is(&attr.key, "order_by") {
            match &attr.value {
                AttrValue::Text(clause) => match set_once(&mut draft.order_by, clause.clone()) {
                    Ok(()) => Ok(draft),
                    Err(_) => Err(duplicate_error(None, attr)),
                },
                _ => Err(malformed_error(None, attr)),
            }
        } else {
            Err(unknown_error(None, attr))
        }
    }

    /// Reads the attributes of the type named `ident`, in order.
    pub fn read(ident: &String, attrs: &Vec<Attr>) -> (out: Result<TableDraft, Error>)
        ensures
            holds(out, TableDraftView::empty().read(ident@, attr_views(attrs@))),
    {
        let ghost all = attr_views(attrs@);
        let mut draft = TableDraft::empty();
        let mut i: usize = 0;
        assert(all.skip(0) =~= all);
        while i < attrs.len()
            invariant
                i <= attrs@.len(),
                all == attr_views(attrs@),
                TableDraftView::empty().read(ident@, all) == draft@.read(
                    ident@,
                    all.skip(i as int),
                ),
            decreases attrs.len() - i,
        {
            proof {
                assert(all.skip(i as int)[0] == attrs@[i as int]@);
                assert(all.skip(i as int).drop_first() =~= all.skip(i as int + 1));
            }
            match draft.step(ident, &attrs[i]) {
                Ok(next) => {
                    draft = next;
                },
                Err(error) => {
                    return Err(error);
                },
            }
            i += 1;
        }
        Ok(draft)
    }
}

/// Finds the one field named `id`.
pub fn find_id<B: Backend>(fields: &Vec<TableField<B>>, id: &String) -> (out: Result<usize, Error>)
    ensures
        match out {
            Ok(position) => locate_id(field_views(fields@), id@) == Ok::<int, ErrorView>(
                position as int,
            ),
            Err(error) => locate_id(field_views(fields@), id@) == Err::<int, ErrorView>(error@),
        },
{
    let ghost all = field_views(fields@);
    let mut found: Option<usize> = None;
    let mut i: usize = 0;
    while i < fields.len()
        invariant
            i <= fields@.len(),
            all == field_views(fields@),
            match found {
                Some(position) => position < i && named(all, id@, position as int),
                None => true,
            },
            forall|other: int|
                0 <= other < i && named(all, id@, other) ==> found == Some(other as usize),
        decreases fields.len() - i,
    {
        assert(all[i as int] == fields@[i as int]@);
        if fields[i].field == *id {
            match found {
                Some(first) => {
                    assert(named(all, id@, first as int) && named(all, id@, i as int));
                    return Err(Error::AmbiguousId { id: id.clone() });
                },
                None => {
                    found = Some(i);
                },
            }
        }
        i += 1;
    }
    match found {
        Some(position) => {
            assert(named(all, id@, position as int));
            assert forall|first: int, second: int|
                named(all, id@, first) && named(all, id@, second) implies first == second by {}
            Ok(position)
        },
        None => Err(Error::UnknownId { id: id.clone() }),
    }
}

impl<B: Backend> Table<B> {
    /// Reads and validates the description of a table. The result is the
    /// table, with exactly one of its fields as the id, or the first error
    /// in the description.
    pub fn parse(input: &StructInput) -> (out: Result<Table<B>, Error>)
        ensures
            holds(out, parse_table(input@)),
            out is Ok ==> out->Ok_0@.wf(),
    {
        let fields = match read_fields::<B>(&input.fields) {
            Ok(fields) => fields,
            Err(error) => {
                return Err(error);
            },
        };
        let draft = match TableDraft::read(&input.ident, &input.attrs) {
            Ok(draft) => draft,
            Err(error) => {
                return Err(error);
            },
        };
        let id = match draft.id {
            Some(id) => id,
            None => {
                return Err(missing_attr("id"));
            },
        };
        let position = match find_id(&fields, &id) {
            Ok(position) => position,
            Err(error) => {
                return Err(error);
            },
        };
        let table = match draft.table {
            Some(table) => table,
            None => {
                return Err(missing_attr("table"));
            },
        };
        proof {
            assert(named(field_views(fields@), id@, position as int));
            assert forall|other: int|
                0 <= other < fields@.len() && (#[trigger] fields@[other])@.field
                    == fields@[position as int]@.field implies other == position by {
                assert(named(field_views(fields@), id@, other));
            }
            lemma_parsed_table_is_well_formed(input@);
        }
        Ok(
            Table::assemble(
                input.ident.clone(),
                input.vis.clone(),
                table,
                position,
                fields,
                draft.insertable,
                draft.deletable.is_some(),
                draft.order_by,
            ),
        )
    }
}

} // verus!
