use ormx::backend::{MySqlBackend, PgBackend};
use ormx::error::{missing_attr, set_once, Duplicate, Error};
use ormx::input::{Attr, AttrValue, FieldInput, StructInput};
use ormx::name::Name;
use ormx::parse::{find_id, key_is, read_fields, read_getter};
use ormx::patch::{impl_patch, Patch};
use ormx::table::{Getter, Table, TableField};

fn flag(key: &str) -> Attr {
    Attr { key: key.to_string(), value: AttrValue::Flag }
}

fn text(key: &str, value: &str) -> Attr {
    Attr { key: key.to_string(), value: AttrValue::Text(value.to_string()) }
}

fn ident(key: &str, value: &str) -> Attr {
    Attr { key: key.to_string(), value: AttrValue::Ident(Name::new(value).unwrap()) }
}

fn path(key: &str, value: &str) -> Attr {
    Attr { key: key.to_string(), value: AttrValue::Path(value.to_string()) }
}

fn field(name: &str, ty: &str, attrs: Vec<Attr>) -> FieldInput {
    FieldInput { ident: name.to_string(), ty: ty.to_string(), attrs }
}

fn table_of(attrs: Vec<Attr>, fields: Vec<FieldInput>) -> StructInput {
    StructInput { ident: "Row".to_string(), vis: "pub ( crate )".to_string(), attrs, fields }
}

fn error_of(input: &StructInput) -> Error {
    match Table::<PgBackend>::parse(input) {
        Ok(_) => panic!("the description was accepted"),
        Err(error) => error,
    }
}

fn table(input: &StructInput) -> Table<PgBackend> {
    match Table::<PgBackend>::parse(input) {
        Ok(table) => table,
        Err(error) => panic!("{}", error.message()),
    }
}

fn own(name: &str) -> Option<String> {
    Some(name.to_string())
}

#[test]
fn a_slot_is_filled_once() {
    let mut slot: Option<u8> = None;
    assert_eq!(set_once(&mut slot, 1), Ok(()));
    assert_eq!(slot, Some(1));
    assert_eq!(set_once(&mut slot, 2), Err(Duplicate));
    assert_eq!(slot, Some(2));
}

#[test]
fn missing_attribute_names_the_attribute() {
    let error = missing_attr("id");
    assert_eq!(error, Error::MissingAttribute { attribute: "id".to_string() });
    assert_eq!(error.message(), "missing #[ormx(id)] attribute");
    assert_eq!(missing_attr("table").message(), "missing #[ormx(table)] attribute");
}

#[test]
fn errors_are_reported_in_words() {
    let duplicate = Error::DuplicateAttribute { field: own("a"), attribute: "column".to_string() };
    assert_eq!(duplicate.message(), "duplicate attribute `column`");
    assert_eq!(duplicate.field(), Some(&"a".to_string()));
    let unknown = Error::UnknownAttribute { field: None, attribute: "tabel".to_string() };
    assert_eq!(unknown.message(), "unknown attribute `tabel`");
    assert_eq!(unknown.field(), None);
    let malformed = Error::MalformedAttribute { field: None, attribute: "id".to_string() };
    assert_eq!(malformed.message(), "malformed attribute `id`");
    let unknown_id = Error::UnknownId { id: "nope".to_string() };
    assert_eq!(unknown_id.message(), "id `nope` does not refer to a field of the struct");
    assert_eq!(unknown_id.field(), None);
    let ambiguous = Error::AmbiguousId { id: "id".to_string() };
    assert_eq!(ambiguous.message(), "id `id` refers to more than one field");
    let stranger = Error::UnknownPatchField { name: "x".to_string() };
    assert_eq!(stranger.message(), "field `x` does not exist on the table");
    assert_eq!(stranger.field(), Some(&"x".to_string()));
    let id = Error::PatchOfId { name: "id".to_string() };
    assert_eq!(id.message(), "field `id` is the id of the table and cannot be patched");
}

#[test]
fn keys_are_compared_by_their_text() {
    assert!(key_is(&"table".to_string(), "table"));
    assert!(!key_is(&"table".to_string(), "table_name"));
    assert!(!key_is(&"Table".to_string(), "table"));
    assert!(!key_is(&String::new(), "id"));
}

#[test]
fn getter_values() {
    assert_eq!(read_getter(&AttrValue::Flag), Some(Getter { func: None, arg_ty: None }));
    assert_eq!(
        read_getter(&AttrValue::Ident(Name::new("find").unwrap())),
        Some(Getter { func: Some("find".to_string()), arg_ty: None })
    );
    assert_eq!(
        read_getter(&AttrValue::Args("& str".to_string())),
        Some(Getter { func: None, arg_ty: Some("& str".to_string()) })
    );
    assert_eq!(
        read_getter(&AttrValue::Call { func: Name::new("find").unwrap(), arg: "u32".to_string() }),
        Some(Getter { func: Some("find".to_string()), arg_ty: Some("u32".to_string()) })
    );
    assert_eq!(read_getter(&AttrValue::Text("find".to_string())), None);
    assert_eq!(read_getter(&AttrValue::Path("a :: b".to_string())), None);
}

#[test]
fn field_defaults() {
    let parsed = TableField::<PgBackend>::parse(&field("name", "String", vec![]));
    let parsed = parsed.ok().unwrap();
    assert_eq!(parsed.field, "name");
    assert_eq!(parsed.ty, "String");
    assert_eq!(parsed.column_name, "name");
    assert!(!parsed.custom_type);
    assert!(!parsed.default);
    assert!(!parsed.by_ref);
    assert_eq!(parsed.get_one, None);
    assert_eq!(parsed.get_optional, None);
    assert_eq!(parsed.get_many, None);
    assert_eq!(parsed.set, None);
}

#[test]
fn field_attributes_fill_their_slots() {
    let input = field(
        "ty",
        "Kind",
        vec![
            text("column", "type"),
            flag("custom_type"),
            flag("default"),
            flag("by_ref"),
            flag("get_one"),
            ident("get_optional", "find"),
            flag("get_many"),
            flag("set"),
        ],
    );
    let parsed = TableField::<MySqlBackend>::parse(&input).ok().unwrap();
    assert_eq!(parsed.column_name, "type");
    assert!(parsed.custom_type);
    assert!(parsed.default);
    assert!(parsed.by_ref);
    assert_eq!(parsed.get_one, Some(Getter { func: None, arg_ty: None }));
    assert_eq!(parsed.get_optional, Some(Getter { func: Some("find".to_string()), arg_ty: None }));
    assert_eq!(parsed.get_many, Some(Getter { func: None, arg_ty: None }));
    assert_eq!(parsed.set, Some("set_ty".to_string()));
}

#[test]
fn setter_name_can_be_given() {
    let input = field("a", "u8", vec![ident("set", "change_a")]);
    let parsed = TableField::<PgBackend>::parse(&input).ok().unwrap();
    assert_eq!(parsed.set, Some("change_a".to_string()));
}

#[test]
fn duplicate_field_attribute_is_refused() {
    let input = table_of(
        vec![text("table", "rows"), ident("id", "id")],
        vec![field("id", "i32", vec![]), field("a", "u8", vec![flag("default"), flag("default")])],
    );
    assert_eq!(
        error_of(&input),
        Error::DuplicateAttribute { field: own("a"), attribute: "default".to_string() }
    );
    for key in ["custom_type", "by_ref", "get_one", "get_optional", "get_many", "set"] {
        let input = field("a", "u8", vec![flag(key), flag(key)]);
        assert_eq!(
            TableField::<PgBackend>::parse(&input).err().unwrap(),
            Error::DuplicateAttribute { field: own("a"), attribute: key.to_string() }
        );
    }
    let input = field("a", "u8", vec![text("column", "x"), text("column", "x")]);
    assert_eq!(
        TableField::<PgBackend>::parse(&input).err().unwrap(),
        Error::DuplicateAttribute { field: own("a"), attribute: "column".to_string() }
    );
}

#[test]
fn unknown_field_attribute_is_refused() {
    let input = field("a", "u8", vec![flag("defualt")]);
    assert_eq!(
        TableField::<PgBackend>::parse(&input).err().unwrap(),
        Error::UnknownAttribute { field: own("a"), attribute: "defualt".to_string() }
    );
    let input = field("a", "u8", vec![text("table", "x")]);
    assert_eq!(
        TableField::<PgBackend>::parse(&input).err().unwrap(),
        Error::UnknownAttribute { field: own("a"), attribute: "table".to_string() }
    );
}

#[test]
fn malformed_field_attribute_is_refused() {
    let cases = vec![
        flag("column"),
        ident("column", "x"),
        text("custom_type", "yes"),
        text("default", "0"),
        text("by_ref", "yes"),
        text("get_one", "find"),
        path("get_many", "a :: b"),
        text("set", "set_a"),
    ];
    for attr in cases {
        let key = attr.key.clone();
        let input = field("a", "u8", vec![attr]);
        assert_eq!(
            TableField::<PgBackend>::parse(&input).err().unwrap(),
            Error::MalformedAttribute { field: own("a"), attribute: key }
        );
    }
}

#[test]
fn first_offending_attribute_is_reported() {
    let input = field("a", "u8", vec![flag("default"), flag("nonsense"), flag("default")]);
    assert_eq!(
        TableField::<PgBackend>::parse(&input).err().unwrap(),
        Error::UnknownAttribute { field: own("a"), attribute: "nonsense".to_string() }
    );
    let input = field("a", "u8", vec![flag("default"), flag("default"), flag("nonsense")]);
    assert_eq!(
        TableField::<PgBackend>::parse(&input).err().unwrap(),
        Error::DuplicateAttribute { field: own("a"), attribute: "default".to_string() }
    );
}

#[test]
fn first_offending_field_is_reported() {
    let inputs = vec![
        field("a", "u8", vec![]),
        field("b", "u8", vec![flag("x")]),
        field("c", "u8", vec![flag("y")]),
    ];
    assert_eq!(
        read_fields::<PgBackend>(&inputs).err().unwrap(),
        Error::UnknownAttribute { field: own("b"), attribute: "x".to_string() }
    );
    let accepted = vec![field("a", "u8", vec![]), field("b", "u8", vec![])];
    let fields = read_fields::<PgBackend>(&accepted).ok().unwrap();
    assert_eq!(fields.len(), 2);
    assert_eq!(fields[1].field, "b");
}

#[test]
fn table_attributes_fill_their_slots() {
    let input = table_of(
        vec![
            flag("deletable"),
            text("order_by", "a ASC"),
            ident("insertable", "NewRow"),
            ident("id", "key"),
            text("table", "rows"),
        ],
        vec![field("a", "u8", vec![]), field("key", "i64", vec![text("column", "id")])],
    );
    let table = table(&input);
    assert_eq!(table.ident(), "Row");
    assert_eq!(table.vis(), "pub ( crate )");
    assert_eq!(table.table_name(), "rows");
    assert_eq!(table.id().field, "key");
    assert_eq!(table.id().column_name, "id");
    assert_eq!(table.id().ty, "i64");
    assert_eq!(table.fields().len(), 2);
    assert_eq!(table.insertable(), Some(&"NewRow".to_string()));
    assert!(table.deletable());
    assert_eq!(table.order_by(), Some(&"a ASC".to_string()));
}

#[test]
fn table_defaults() {
    let input = table_of(
        vec![text("table", "rows"), ident("id", "id")],
        vec![field("id", "i32", vec![])],
    );
    let table = table(&input);
    assert_eq!(table.insertable(), None);
    assert!(!table.deletable());
    assert_eq!(table.order_by(), None);
}

#[test]
fn insert_helper_is_named_after_the_type() {
    let input = table_of(
        vec![text("table", "rows"), ident("id", "id"), flag("insertable")],
        vec![field("id", "i32", vec![])],
    );
    assert_eq!(table(&input).insertable(), Some(&"InsertRow".to_string()));
}

#[test]
fn missing_id_is_refused() {
    let input = table_of(vec![text("table", "rows")], vec![field("id", "i32", vec![])]);
    assert_eq!(error_of(&input), Error::MissingAttribute { attribute: "id".to_string() });
}

#[test]
fn missing_table_name_is_refused() {
    let input = table_of(vec![ident("id", "id")], vec![field("id", "i32", vec![])]);
    assert_eq!(error_of(&input), Error::MissingAttribute { attribute: "table".to_string() });
}

#[test]
fn id_that_names_no_field_is_refused() {
    let input = table_of(
        vec![text("table", "rows"), ident("id", "key")],
        vec![field("id", "i32", vec![])],
    );
    assert_eq!(error_of(&input), Error::UnknownId { id: "key".to_string() });
}

#[test]
fn table_without_fields_is_refused() {
    let input = table_of(vec![text("table", "rows"), ident("id", "id")], vec![]);
    assert_eq!(error_of(&input), Error::UnknownId { id: "id".to_string() });
    let input = table_of(vec![text("table", "rows")], vec![]);
    assert_eq!(error_of(&input), Error::MissingAttribute { attribute: "id".to_string() });
}

#[test]
fn id_that_names_two_fields_is_refused() {
    let input = table_of(
        vec![text("table", "rows"), ident("id", "id")],
        vec![field("id", "i32", vec![]), field("a", "u8", vec![]), field("id", "i64", vec![])],
    );
    assert_eq!(error_of(&input), Error::AmbiguousId { id: "id".to_string() });
}

#[test]
fn id_is_found_at_its_position() {
    let fields = read_fields::<PgBackend>(&vec![
        field("a", "u8", vec![]),
        field("id", "i32", vec![]),
        field("b", "u8", vec![]),
    ])
    .ok()
    .unwrap();
    assert_eq!(find_id(&fields, &"id".to_string()), Ok(1));
    assert_eq!(find_id(&fields, &"a".to_string()), Ok(0));
    assert_eq!(find_id(&fields, &"b".to_string()), Ok(2));
    assert_eq!(
        find_id(&fields, &"c".to_string()),
        Err(Error::UnknownId { id: "c".to_string() })
    );
}

#[test]
fn duplicate_table_attribute_is_refused() {
    for attr in [text("table", "rows"), ident("id", "id"), flag("insertable"), flag("deletable"), text("order_by", "id")] {
        let key = attr.key.clone();
        let second = Attr { key: key.clone(), value: match &attr.value {
            AttrValue::Flag => AttrValue::Flag,
            AttrValue::Text(t) => AttrValue::Text(t.clone()),
            AttrValue::Ident(n) => AttrValue::Ident(n.clone()),
            _ => AttrValue::Flag,
        } };
        let input = table_of(
            vec![text("table", "rows"), ident("id", "id"), flag("insertable"), flag("deletable"), text("order_by", "id"), second],
            vec![field("id", "i32", vec![])],
        );
        let _ = attr;
        assert_eq!(error_of(&input), Error::DuplicateAttribute { field: None, attribute: key });
    }
}

#[test]
fn unknown_table_attribute_is_refused() {
    let input = table_of(
        vec![text("table", "rows"), ident("id", "id"), flag("updatable")],
        vec![field("id", "i32", vec![])],
    );
    assert_eq!(
        error_of(&input),
        Error::UnknownAttribute { field: None, attribute: "updatable".to_string() }
    );
}

#[test]
fn malformed_table_attribute_is_refused() {
    let cases = vec![
        ident("table", "rows"),
        flag("table"),
        text("id", "id"),
        flag("id"),
        text("insertable", "NewRow"),
        text("deletable", "yes"),
        flag("order_by"),
        ident("order_by", "id"),
    ];
    for attr in cases {
        let key = attr.key.clone();
        let input = table_of(vec![attr], vec![field("id", "i32", vec![])]);
        assert_eq!(error_of(&input), Error::MalformedAttribute { field: None, attribute: key });
    }
}

#[test]
fn field_errors_come_before_table_errors() {
    let input = table_of(vec![flag("nonsense")], vec![field("id", "i32", vec![flag("oops")])]);
    assert_eq!(
        error_of(&input),
        Error::UnknownAttribute { field: own("id"), attribute: "oops".to_string() }
    );
}

#[test]
fn missing_id_comes_before_missing_table_name() {
    let input = table_of(vec![], vec![field("id", "i32", vec![])]);
    assert_eq!(error_of(&input), Error::MissingAttribute { attribute: "id".to_string() });
    let input = table_of(vec![ident("id", "key")], vec![field("id", "i32", vec![])]);
    assert_eq!(error_of(&input), Error::UnknownId { id: "key".to_string() });
}

#[test]
fn derive_fails_as_a_whole() {
    let input = table_of(vec![text("table", "rows")], vec![field("id", "i32", vec![])]);
    assert_eq!(
        ormx::generate::derive::<PgBackend>(&input),
        Err(Error::MissingAttribute { attribute: "id".to_string() })
    );
}

fn users() -> Table<PgBackend> {
    table(&table_of(
        vec![text("table", "users"), ident("id", "user_id")],
        vec![
            field("user_id", "u32", vec![text("column", "id")]),
            field("first_name", "String", vec![]),
            field("last_name", "String", vec![]),
            field("disabled", "Option < String >", vec![]),
            field("role", "Role", vec![flag("custom_type")]),
        ],
    ))
}

fn update_user() -> StructInput {
    StructInput {
        ident: "UpdateUser".to_string(),
        vis: String::new(),
        attrs: vec![text("table_name", "users"), path("table", "crate :: User"), text("id", "id")],
        fields: vec![
            field("first_name", "String", vec![]),
            field("last_name", "String", vec![]),
            field("disabled", "Option < String >", vec![]),
            field("role", "Role", vec![flag("custom_type")]),
        ],
    }
}

#[test]
fn patch_is_read() {
    let patch = Patch::parse(&update_user(), &users()).unwrap();
    assert_eq!(patch.ident, "UpdateUser");
    assert_eq!(patch.table_name, "users");
    assert_eq!(patch.table, "crate :: User");
    assert_eq!(patch.id, "id");
    assert_eq!(patch.fields.len(), 4);
    assert_eq!(patch.fields[0].ident, "first_name");
    assert_eq!(patch.fields[0].column, "first_name");
    assert_eq!(patch.fields[0].ty, "String");
    assert!(!patch.fields[0].custom_type);
    assert!(!patch.fields[0].by_ref);
    assert!(patch.fields[3].custom_type);
}

#[test]
fn patch_writes_its_fields_and_binds_the_id_last() {
    let patch = Patch::parse(&update_user(), &users()).unwrap();
    let out = impl_patch::<PgBackend>(&patch);
    assert_eq!(out.patch_ident, "UpdateUser");
    assert_eq!(out.table_path, "crate :: User");
    assert_eq!(out.assigned, vec!["first_name", "last_name", "disabled", "role"]);
    assert_eq!(
        out.patch_row.sql,
        "UPDATE \"users\" SET \"first_name\" = $1, \"last_name\" = $2, \"disabled\" = $3, \"role\" = $4 WHERE \"id\" = $5"
    );
    assert_eq!(
        out.patch_row.arguments,
        vec!["self.first_name", "self.last_name", "self.disabled", "self.role as Role", "id"]
    );
    let out = impl_patch::<MySqlBackend>(&patch);
    assert_eq!(
        out.patch_row.sql,
        "UPDATE `users` SET `first_name` = ?, `last_name` = ?, `disabled` = ?, `role` = ? WHERE `id` = ?"
    );
}

#[test]
fn patch_field_can_name_its_column_and_be_bound_by_reference() {
    let mut input = update_user();
    input.fields = vec![field("role", "Role", vec![text("column", "user_role"), flag("by_ref"), flag("custom_type")])];
    input.attrs = vec![text("id", "id"), ident("table", "User"), text("table_name", "users")];
    let patch = Patch::parse(&input, &users()).unwrap();
    assert_eq!(patch.table, "User");
    let out = impl_patch::<PgBackend>(&patch);
    assert_eq!(out.patch_row.sql, "UPDATE \"users\" SET \"user_role\" = $1 WHERE \"id\" = $2");
    assert_eq!(out.patch_row.arguments, vec!["&self.role as &Role", "id"]);
}

#[test]
fn patch_of_an_unknown_field_is_refused() {
    let mut input = update_user();
    input.fields.push(field("nickname", "String", vec![]));
    assert_eq!(
        Patch::parse(&input, &users()),
        Err(Error::UnknownPatchField { name: "nickname".to_string() })
    );
}

#[test]
fn patch_of_the_id_is_refused() {
    let mut input = update_user();
    input.fields.insert(1, field("user_id", "u32", vec![]));
    assert_eq!(
        Patch::parse(&input, &users()),
        Err(Error::PatchOfId { name: "user_id".to_string() })
    );
}

#[test]
fn patch_attributes_are_required() {
    for (position, key) in ["table_name", "table", "id"].iter().enumerate() {
        let mut input = update_user();
        input.attrs.remove(position);
        assert_eq!(
            Patch::parse(&input, &users()),
            Err(Error::MissingAttribute { attribute: key.to_string() })
        );
    }
}

#[test]
fn patch_attributes_are_checked() {
    let mut input = update_user();
    input.attrs.push(text("id", "id"));
    assert_eq!(
        Patch::parse(&input, &users()),
        Err(Error::DuplicateAttribute { field: None, attribute: "id".to_string() })
    );
    let mut input = update_user();
    input.attrs.push(flag("deletable"));
    assert_eq!(
        Patch::parse(&input, &users()),
        Err(Error::UnknownAttribute { field: None, attribute: "deletable".to_string() })
    );
    let mut input = update_user();
    input.attrs[0] = ident("table_name", "users");
    assert_eq!(
        Patch::parse(&input, &users()),
        Err(Error::MalformedAttribute { field: None, attribute: "table_name".to_string() })
    );
    let mut input = update_user();
    input.fields[0].attrs.push(flag("default"));
    assert_eq!(
        Patch::parse(&input, &users()),
        Err(Error::UnknownAttribute { field: own("first_name"), attribute: "default".to_string() })
    );
    let mut input = update_user();
    input.fields[1].attrs = vec![flag("by_ref"), flag("by_ref")];
    assert_eq!(
        Patch::parse(&input, &users()),
        Err(Error::DuplicateAttribute { field: own("last_name"), attribute: "by_ref".to_string() })
    );
    let mut input = update_user();
    input.fields[1].attrs = vec![flag("column")];
    assert_eq!(
        Patch::parse(&input, &users()),
        Err(Error::MalformedAttribute { field: own("last_name"), attribute: "column".to_string() })
    );
}

#[test]
fn empty_patch_binds_the_id_alone() {
    let mut input = update_user();
    input.fields.clear();
    let patch = Patch::parse(&input, &users()).unwrap();
    let out = impl_patch::<PgBackend>(&patch);
    assert!(out.assigned.is_empty());
    assert_eq!(out.patch_row.sql, "UPDATE \"users\" SET  WHERE \"id\" = $1");
    assert_eq!(out.patch_row.arguments, vec!["id"]);
}
