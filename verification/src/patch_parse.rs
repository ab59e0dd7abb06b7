//! From a type definition with attributes to a validated patch.

use crate::backend::Backend;
use crate::error::{holds, missing_attr, set_once, Error, ErrorView};
use crate::input::{
    attr_views, field_input_views, Attr, AttrValue, AttrValueView, AttrView, FieldInput,
    FieldInputView, StructInput, StructInputView,
};
use crate::parse::{
    duplicate, duplicate_error, key_is, malformed, malformed_error, named, unknown, unknown_error,
};
use crate::patch::{Patch, PatchField, PatchFieldView, PatchView};
use crate::table::{field_views, Table, TableView};
use crate::text::option_text;
use vstd::prelude::*;
use vstd::string::*;

verus! {

/// The slots that the attributes of a patch field fill.
pub struct PatchFieldDraft {
    pub column: Option<String>,
    pub custom_type: Option<bool>,
    pub by_ref: Option<bool>,
}

/// What a [`PatchFieldDraft`] holds.
pub struct PatchFieldDraftView {
    pub column: Option<Seq<char>>,
    pub custom_type: Option<bool>,
    pub by_ref: Option<bool>,
}

impl View for PatchFieldDraft {
    type V = PatchFieldDraftView;

    open spec fn view(&self) -> PatchFieldDraftView {
        PatchFieldDraftView {
            column: option_text(self.column),
            custom_type: self.custom_type,
            by_ref: self.by_ref,
        }
    }
}

impl PatchFieldDraftView {
    /// The draft with every slot empty.
    pub open spec fn empty() -> PatchFieldDraftView {
        PatchFieldDraftView { column: None, custom_type: None, by_ref: None }
    }

    /// The draft after one more attribute of the field named `field`, or
    /// the error that the attribute is refused with.
    pub open spec fn step(self, field: Seq<char>, attr: AttrView) -> Result<
        PatchFieldDraftView,
        ErrorView,
    > {
        let owner = Some(field);
        if attr.key == "column"@ {
            match attr.value {
                AttrValueView::Text(column) => if self.column is Some {
                    Err(duplicate(owner, attr))
                } else {
                    Ok(PatchFieldDraftView { column: Some(column), ..self })
                },
                _ => Err(malformed(owner, attr)),
            }
        } else if attr.key == "custom_type"@ {
            match attr.value {
                AttrValueView::Flag => if self.custom_type is Some {
                    Err(duplicate(owner, attr))
                } else {
                    Ok(PatchFieldDraftView { custom_type: Some(true), ..self })
                },
                _ => Err(malformed(owner, attr)),
            }
        } else if attr.key == "by_ref"@ {
            match attr.value {
                AttrValueView::Flag => if self.by_ref is Some {
                    Err(duplicate(owner, attr))
                } else {
                    Ok(PatchFieldDraftView { by_ref: Some(true), ..self })
                },
                _ => Err(malformed(owner, attr)),
            }
        } else {
            Err(unknown(owner, attr))
        }
    }

    /// The draft after the attributes `attrs`, read in order, or the first
    /// error among them.
    pub open spec fn read(self, field: Seq<char>, attrs: Seq<AttrView>) -> Result<
        PatchFieldDraftView,
        ErrorView,
    >
        decreases attrs.len(),
    {
        if attrs.len() == 0 {
            Ok(self)
        } else {
            match self.step(field, attrs[0]) {
                Ok(next) => next.read(field, attrs.drop_first()),
                Err(error) => Err(error),
            }
        }
    }
}

/// Whether `table` has a field named `name`.
pub open spec fn has_field(table: TableView, name: Seq<char>) -> bool {
    exists|position: int| named(table.fields, name, position)
}

/// The patch field that `input` describes for a patch of `table`: its
/// attributes are read first; then the table has to have a field of its
/// name, which must not be the table's id.
pub open spec fn parse_patch_field(input: FieldInputView, table: TableView) -> Result<
    PatchFieldView,
    ErrorView,
> {
    match PatchFieldDraftView::empty().read(input.ident, input.attrs) {
        Err(error) => Err(error),
        Ok(draft) => if !has_field(table, input.ident) {
            Err(ErrorView::UnknownPatchField { name: input.ident })
        } else if input.ident == table.id.field {
            Err(ErrorView::PatchOfId { name: input.ident })
        } else {
            Ok(
                PatchFieldView {
                    ident: input.ident,
                    column: match draft.column {
                        Some(column) => column,
                        None => input.ident,
                    },
                    ty: input.ty,
                    custom_type: draft.custom_type is Some,
                    by_ref: draft.by_ref is Some,
                },
            )
        },
    }
}

/// The patch fields that `inputs` describe, in order, or the error of the
/// first field that has one.
pub open spec fn parse_patch_fields(inputs: Seq<FieldInputView>, table: TableView) -> Result<
    Seq<PatchFieldView>,
    ErrorView,
>
    decreases inputs.len(),
{
    if inputs.len() == 0 {
        Ok(Seq::empty())
    } else {
        match parse_patch_field(inputs[0], table) {
            Ok(first) => match parse_patch_fields(inputs.drop_first(), table) {
                Ok(rest) => Ok(seq![first] + rest),
                Err(error) => Err(error),
            },
            Err(error) => Err(error),
        }
    }
}

/// The slots that the attributes of a patch fill.
pub struct PatchDraft {
    pub table_name: Option<String>,
    pub table: Option<String>,
    pub id: Option<String>,
}

/// What a [`PatchDraft`] holds.
pub struct PatchDraftView {
    pub table_name: Option<Seq<char>>,
    pub table: Option<Seq<char>>,
    pub id: Option<Seq<char>>,
}

impl View for PatchDraft {
    type V = PatchDraftView;

    open spec fn view(&self) -> PatchDraftView {
        PatchDraftView {
            table_name: option_text(self.table_name),
            table: option_text(self.table),
            id: option_text(self.id),
        }
    }
}

impl PatchDraftView {
    /// The draft with every slot empty.
    pub open spec fn empty() -> PatchDraftView {
        PatchDraftView { table_name: None, table: None, id: None }
    }

    /// The draft after one more attribute, or the error that the attribute
    /// is refused with. The row type is given by its name or by a path.
    pub open spec fn step(self, attr: AttrView) -> Result<PatchDraftView, ErrorView> {
        if attr.key == "table_name"@ {
            match attr.value {
                AttrValueView::Text(name) => if self.table_name is Some {
                    Err(duplicate(None, attr))
                } else {
                    Ok(PatchDraftView { table_name: Some(name), ..self })
                },
                _ => Err(malformed(None, attr)),
            }
        } else if attr.key == "table"@ {
            match attr.value {
                AttrValueView::Ident(name) => if self.table is Some {
                    Err(duplicate(None, attr))
                } else {
                    Ok(PatchDraftView { table: Some(name), ..self })
                },
                AttrValueView::Path(path) => if self.table is Some {
                    Err(duplicate(None, attr))
                } else {
                    Ok(PatchDraftView { table: Some(path), ..self })
                },
                _ => Err(malformed(None, attr)),
            }
        } else if attr.key == "id"@ {
            match attr.value {
                AttrValueView::Text(column) => if self.id is Some {
                    Err(duplicate(None, attr))
                } else {
                    Ok(PatchDraftView { id: Some(column), ..self })
                },
                _ => Err(malformed(None, attr)),
            }
        } else {
            Err(unknown(None, attr))
        }
    }

    /// The draft after the attributes `attrs`, read in order, or the first
    /// error among them.
    pub open spec fn read(self, attrs: Seq<AttrView>) -> Result<PatchDraftView, ErrorView>
        decreases attrs.len(),
    {
        if attrs.len() == 0 {
            Ok(self)
        } else {
            match self.step(attrs[0]) {
                Ok(next) => next.read(attrs.drop_first()),
                Err(error) => Err(error),
            }
        }
    }
}

/// The patch of `table` that `input` describes. Its fields are read first,
/// then its own attributes; then the table's name, the row type and the id
/// column have to be given.
pub open spec fn parse_patch(input: StructInputView, table: TableView) -> Result<
    PatchView,
    ErrorView,
> {
    match parse_patch_fields(input.fields, table) {
        Err(error) => Err(error),
        Ok(fields) => match PatchDraftView::empty().read(input.attrs) {
            Err(error) => Err(error),
            Ok(draft) => match draft.table_name {
                None => Err(ErrorView::MissingAttribute { attribute: "table_name"@ }),
                Some(table_name) => match draft.table {
                    None => Err(ErrorView::MissingAttribute { attribute: "table"@ }),
                    Some(path) => match draft.id {
                        None => Err(ErrorView::MissingAttribute { attribute: "id"@ }),
                        Some(id) => Ok(
                            PatchView { ident: input.ident, table_name, table: path, id, fields },
                        ),
                    },
                },
            },
        },
    }
}

/// Whether `field` is a field of `table` other than its id.
pub open spec fn patches(field: PatchFieldView, table: TableView) -> bool {
    field.ident != table.id.field && has_field(table, field.ident)
}

/// Every patch field that was read for a table is a field of the table
/// other than its id.
pub proof fn lemma_patch_fields_fit(inputs: Seq<FieldInputView>, table: TableView)
    requires
        parse_patch_fields(inputs, table) is Ok,
    ensures
        forall|i: int|
            0 <= i < parse_patch_fields(inputs, table)->Ok_0.len() ==> patches(
                #[trigger] parse_patch_fields(inputs, table)->Ok_0[i],
                table,
            ),
    decreases inputs.len(),
{
    if inputs.len() > 0 {
        lemma_patch_fields_fit(inputs.drop_first(), table);
        let first = parse_patch_field(inputs[0], table)->Ok_0;
        let rest = parse_patch_fields(inputs.drop_first(), table)->Ok_0;
        let all = parse_patch_fields(inputs, table)->Ok_0;
        assert(all == seq![first] + rest);
        assert forall|i: int| 0 <= i < all.len() implies patches(#[trigger] all[i], table) by {
            if i > 0 {
                assert(all[i] == rest[i - 1]);
            }
        }
    }
}

/// A patch that was read for a table fits the table.
pub proof fn lemma_parsed_patch_fits(input: StructInputView, table: TableView)
    requires
        parse_patch(input, table) is Ok,
    ensures
        parse_patch(input, table)->Ok_0.fits(table),
{
    lemma_patch_fields_fit(input.fields, table);
    let patch = parse_patch(input, table)->Ok_0;
    assert forall|i: int| 0 <= i < patch.fields.len() implies {
        &&& (#[trigger] patch.fields[i]).ident != table.id.field
        &&& exists|j: int|
            0 <= j < table.fields.len() && (#[trigger] table.fields[j]).field
                == patch.fields[i].ident
    } by {
        assert(patches(patch.fields[i], table));
        let j = choose|j: int| named(table.fields, patch.fields[i].ident, j);
        assert(table.fields[j].field == patch.fields[i].ident);
    }
}

/// What the patch fields of `fields` hold, in order.
pub open spec fn patch_field_views(fields: Seq<PatchField>) -> Seq<PatchFieldView> {
    fields.map_values(|field: PatchField| field@)
}

impl PatchFieldDraft {
    /// Reads one more attribute of the field named `field`.
    pub fn step(self, field: &String, attr: &Attr) -> (out: Result<PatchFieldDraft, Error>)
        ensures
            holds(out, self@.step(field@, attr@)),
    {
        let owner = Some(field);
        let mut draft = self;
        if key_is(&attr.key, "column") {
            match &attr.value {
                AttrValue::Text(column) => match set_once(&mut draft.column, column.clone()) {
                    Ok(()) => Ok(draft),
                    Err(_) => Err(duplicate_error(owner, attr)),
                },
                _ => Err(malformed_error(owner, attr)),
            }
        } else if key_is(&attr.key, "custom_type") {
            match &attr.value {
                AttrValue::Flag => match set_once(&mut draft.custom_type, true) {
                    Ok(()) => Ok(draft),
                    Err(_) => Err(duplicate_error(owner, attr)),
                },
                _ => Err(malformed_error(owner, attr)),
            }
        } else if key_is(&attr.key, "by_ref") {
            match &attr.value {
                AttrValue::Flag => match set_once(&mut draft.by_ref, true) {
                    Ok(()) => Ok(draft),
                    Err(_) => Err(duplicate_error(owner, attr)),
                },
                _ => Err(malformed_error(owner, attr)),
            }
        } else {
            Err(unknown_error(owner, attr))
        }
    }
}

impl PatchDraft {
    /// Reads one more attribute of the patch.
    pub fn step(self, attr: &Attr) -> (out: Result<PatchDraft, Error>)
        ensures
            holds(out, self@.step(attr@)),
    {
        let mut draft = self;
        if key_is(&attr.key, "table_name") {
            match &attr.value {
                AttrValue::Text(name) => match set_once(&mut draft.table_name, name.clone()) {
                    Ok(()) => Ok(draft),
                    Err(_) => Err(duplicate_error(None, attr)),
                },
                _ => Err(malformed_error(None, attr)),
            }
        } else if key_is(&attr.key, "table") {
            match &attr.value {
                AttrValue::Ident(name) => match set_once(
                    &mut draft.table,
                    String::from_str(name.as_str()),
                ) {
                    Ok(()) => Ok(draft),
                    Err(_) => Err(duplicate_error(None, attr)),
                },
                AttrValue::Path(path) => match set_once(&mut draft.table, path.clone()) {
                    Ok(()) => Ok(draft),
                    Err(_) => Err(duplicate_error(None, attr)),
                },
                _ => Err(malformed_error(None, attr)),
            }
        } else if key_is(&attr.key, "id") {
            match &attr.value {
                AttrValue::Text(column) => match set_once(&mut draft.id, column.clone()) {
                    Ok(()) => Ok(draft),
                    Err(_) => Err(duplicate_error(None, attr)),
                },
                _ => Err(malformed_error(None, attr)),
            }
        } else {
            Err(unknown_error(None, attr))
        }
    }

    /// Reads the attributes of a patch, in order.
    pub fn read(attrs: &Vec<Attr>) -> (out: Result<PatchDraft, Error>)
        ensures
            holds(out, PatchDraftView::empty().read(attr_views(attrs@))),
    {
        let ghost all = attr_views(attrs@);
        let mut draft = PatchDraft { table_name: None, table: None, id: None };
        let mut i: usize = 0;
        assert(all.skip(0) =~= all);
        while i < attrs.len()
            invariant
                i <= attrs@.len(),
                all == attr_views(attrs@),
                PatchDraftView::empty().read(all) == draft@.read(all.skip(i as int)),
            decreases attrs.len() - i,
        {
            proof {
                assert(all.skip(i as int)[0] == attrs@[i as int]@);
                assert(all.skip(i as int).drop_first() =~= all.skip(i as int + 1));
            }
            match draft.step(&attrs[i]) {
                Ok(next) => {
                    draft = next;
                },
                Err(error) => {
                    return Err(error);
                },
            }
            i += 1;
        }
        Ok(draft)
    }
}

/// Whether `table` has a field named `name`.
pub fn table_has_field<B: Backend>(table: &Table<B>, name: &String) -> (found: bool)
    ensures
        found == has_field(table@, name@),
{
    let fields = table.fields();
    let mut i: usize = 0;
    while i < fields.len()
        invariant
            i <= fields@.len(),
            field_views(fields@) == table@.fields,
            forall|position: int| 0 <= position < i ==> !named(table@.fields, name@, position),
        decreases fields.len() - i,
    {
        assert(table@.fields[i as int] == fields@[i as int]@);
        if fields[i].field == *name {
            assert(named(table@.fields, name@, i as int));
            return true;
        }
        i += 1;
    }
    false
}

impl PatchField {
    /// Reads a field of a patch of `table`, with its attributes.
    pub fn parse<B: Backend>(input: &FieldInput, table: &Table<B>) -> (out: Result<
        PatchField,
        Error,
    >)
        ensures
            holds(out, parse_patch_field(input@, table@)),
    {
        let ghost attrs = input@.attrs;
        let mut draft = PatchFieldDraft { column: None, custom_type: None, by_ref: None };
        let mut i: usize = 0;
        assert(attrs.skip(0) =~= attrs);
        while i < input.attrs.len()
            invariant
                i <= input.attrs@.len(),
                attrs == input@.attrs,
                PatchFieldDraftView::empty().read(input@.ident, attrs) == draft@.read(
                    input@.ident,
                    attrs.skip(i as int),
                ),
            decreases input.attrs.len() - i,
        {
            proof {
                assert(attrs.skip(i as int)[0] == input.attrs@[i as int]@);
                assert(attrs.skip(i as int).drop_first() =~= attrs.skip(i as int + 1));
            }
            match draft.step(&input.ident, &input.attrs[i]) {
                Ok(next) => {
                    draft = next;
                },
                Err(error) => {
                    return Err(error);
                },
            }
            i += 1;
        }
        if !table_has_field(table, &input.ident) {
            return Err(Error::UnknownPatchField { name: input.ident.clone() });
        }
        if input.ident == table.id().field {
            return Err(Error::PatchOfId { name: input.ident.clone() });
        }
        let column = match &draft.column {
            Some(column) => column.clone(),
            None => input.ident.clone(),
        };
        Ok(
            PatchField {
                ident: input.ident.clone(),
                column,
                ty: input.ty.clone(),
                custom_type: draft.custom_type.is_some(),
                by_ref: draft.by_ref.is_some(),
            },
        )
    }
}

impl Patch {
    /// Reads and validates the description of a patch of `table`. The
    /// result is the patch, whose fields are fields of the table other than
    /// its id, or the first error in the description.
    pub fn parse<B: Backend>(input: &StructInput, table: &Table<B>) -> (out: Result<Patch, Error>)
        ensures
            holds(out, parse_patch(input@, table@)),
            out is Ok ==> out->Ok_0@.fits(table@),
    {
        let ghost all = field_input_views(input.fields@);
        let mut fields: Vec<PatchField> = Vec::new();
        let mut i: usize = 0;
        assert(all.skip(0) =~= all);
        assert(patch_field_views(fields@) =~= Seq::<PatchFieldView>::empty());
        while i < input.fields.len()
            invariant
                i <= input.fields@.len(),
                all == field_input_views(input.fields@),
                parse_patch_fields(all, table@) == match parse_patch_fields(
                    all.skip(i as int),
                    table@,
                ) {
                    Ok(rest) => Ok(patch_field_views(fields@) + rest),
                    Err(error) => Err(error),
                },
            decreases input.fields.len() - i,
        {
            proof {
                assert(all.skip(i as int)[0] == input.fields@[i as int]@);
                assert(all.skip(i as int).drop_first() =~= all.skip(i as int + 1));
            }
            let ghost before = fields@;
            match PatchField::parse(&input.fields[i], table) {
                Ok(field) => {
                    fields.push(field);
                    proof {
                        assert(patch_field_views(fields@) =~= patch_field_views(before).push(
                            field@,
                        ));
                        match parse_patch_fields(all.skip(i as int + 1), table@) {
                            Ok(rest) => {
                                assert(patch_field_views(before) + (seq![field@] + rest)
                                    =~= patch_field_views(fields@) + rest);
                            },
                            Err(_) => {},
                        }
                    }
                },
                Err(error) => {
                    return Err(error);
                },
            }
            i += 1;
        }
        proof {
            assert(all.skip(i as int) =~= Seq::<FieldInputView>::empty());
            assert(patch_field_views(fields@) + Seq::<PatchFieldView>::empty()
                =~= patch_field_views(fields@));
        }
        let draft = match PatchDraft::read(&input.attrs) {
            Ok(draft) => draft,
            Err(error) => {
                return Err(error);
            },
        };
        let table_name = match draft.table_name {
            Some(name) => name,
            None => {
                return Err(missing_attr("table_name"));
            },
        };
        let path = match draft.table {
            Some(path) => path,
            None => {
                return Err(missing_attr("table"));
            },
        };
        let id = match draft.id {
            Some(id) => id,
            None => {
                return Err(missing_attr("id"));
            },
        };
        proof {
            lemma_parsed_patch_fits(input@, table@);
        }
        Ok(Patch { ident: input.ident.clone(), table_name, table: path, id, fields })
    }
}

} // verus!
