use ormx::backend::{Fetch, MariaBackend, MySqlBackend, PgBackend};
use ormx::input::{Attr, AttrValue, FieldInput, StructInput};
use ormx::name::Name;
use ormx::sql::{
    delete, get, insert_sql, order_by_clause, select_by, stream_all, stream_all_paginated,
    update, update_sql,
};
use ormx::table::{fmt_bound, Getter, Table};

fn flag(key: &str) -> Attr {
    Attr { key: key.to_string(), value: AttrValue::Flag }
}

fn text(key: &str, value: &str) -> Attr {
    Attr { key: key.to_string(), value: AttrValue::Text(value.to_string()) }
}

fn ident(key: &str, value: &str) -> Attr {
    Attr { key: key.to_string(), value: AttrValue::Ident(Name::new(value).unwrap()) }
}

fn args(key: &str, value: &str) -> Attr {
    Attr { key: key.to_string(), value: AttrValue::Args(value.to_string()) }
}

fn field(name: &str, ty: &str, attrs: Vec<Attr>) -> FieldInput {
    FieldInput { ident: name.to_string(), ty: ty.to_string(), attrs }
}

fn users() -> StructInput {
    StructInput {
        ident: "User".to_string(),
        vis: "pub".to_string(),
        attrs: vec![
            text("table", "users"),
            ident("id", "user_id"),
            flag("insertable"),
            flag("deletable"),
            text("order_by", "email ASC"),
        ],
        fields: vec![
            field(
                "user_id",
                "i32",
                vec![text("column", "id"), flag("default"), ident("get_one", "get_by_user_id")],
            ),
            field("first_name", "String", vec![]),
            field("last_name", "String", vec![]),
            field("disabled", "Option < String >", vec![]),
            field("email", "String", vec![args("get_optional", "& str")]),
            field("role", "Role", vec![flag("custom_type")]),
            field(
                "ty",
                "Option < AccountType >",
                vec![text("column", "type"), flag("custom_type")],
            ),
            field("group", "UserGroup", vec![flag("custom_type"), flag("default"), flag("set")]),
            field(
                "favourite_color",
                "Option < Color >",
                vec![flag("custom_type"), flag("default")],
            ),
            field("last_login", "Option < NaiveDateTime >", vec![flag("default"), flag("set")]),
        ],
    }
}

/// Fields `id` (generated), `a`, `b` (custom type), `c` (generated).
fn mixed() -> StructInput {
    StructInput {
        ident: "Mixed".to_string(),
        vis: String::new(),
        attrs: vec![text("table", "mixed"), ident("id", "id"), flag("insertable")],
        fields: vec![
            field("id", "i64", vec![flag("default")]),
            field("a", "String", vec![]),
            field("b", "Kind", vec![flag("custom_type")]),
            field("c", "i32", vec![flag("default")]),
        ],
    }
}

/// No field is generated; `rows` is bound by reference.
fn plain() -> StructInput {
    StructInput {
        ident: "Test".to_string(),
        vis: String::new(),
        attrs: vec![text("table", "test"), ident("id", "id"), flag("insertable")],
        fields: vec![
            field("id", "i32", vec![]),
            field("rows", "Vec < String >", vec![flag("by_ref")]),
        ],
    }
}

fn pg(input: &StructInput) -> Table<PgBackend> {
    match Table::<PgBackend>::parse(input) {
        Ok(table) => table,
        Err(error) => panic!("{}", error.message()),
    }
}

fn my(input: &StructInput) -> Table<MySqlBackend> {
    match Table::<MySqlBackend>::parse(input) {
        Ok(table) => table,
        Err(error) => panic!("{}", error.message()),
    }
}

fn maria(input: &StructInput) -> Table<MariaBackend> {
    match Table::<MariaBackend>::parse(input) {
        Ok(table) => table,
        Err(error) => panic!("{}", error.message()),
    }
}

const PG_USER_COLUMNS: &str = "\"id\" AS \"user_id\", \"first_name\", \"last_name\", \"disabled\", \"email\", \"role\" AS \"role!: Role\", \"type\" AS \"ty!: Option < AccountType >\", \"group\" AS \"group!: UserGroup\", \"favourite_color\" AS \"favourite_color!: Option < Color >\", \"last_login\"";

#[test]
fn table_name_is_quoted() {
    assert_eq!(pg(&users()).name(), "\"users\"");
    assert_eq!(my(&users()).name(), "`users`");
    assert_eq!(maria(&users()).name(), "`users`");
}

#[test]
fn column_defaults_to_the_field_name() {
    let table = pg(&users());
    assert_eq!(table.fields()[1].column(), "\"first_name\"");
    assert_eq!(table.fields()[0].column(), "\"id\"");
    assert_eq!(table.id().column(), "\"id\"");
    assert_eq!(my(&users()).fields()[6].column(), "`type`");
}

#[test]
fn select_entry_of_a_plain_field_is_its_column() {
    assert_eq!(pg(&users()).fields()[1].fmt_for_select(), "\"first_name\"");
    assert_eq!(my(&users()).fields()[1].fmt_for_select(), "`first_name`");
}

#[test]
fn select_entry_of_a_renamed_field_has_an_alias() {
    assert_eq!(pg(&users()).fields()[0].fmt_for_select(), "\"id\" AS \"user_id\"");
    assert_eq!(my(&users()).fields()[0].fmt_for_select(), "`id` AS `user_id`");
}

#[test]
fn select_entry_of_a_custom_type_has_a_cast_hint() {
    let table = pg(&users());
    assert_eq!(table.fields()[5].fmt_for_select(), "\"role\" AS \"role!: Role\"");
    assert_eq!(
        table.fields()[6].fmt_for_select(),
        "\"type\" AS \"ty!: Option < AccountType >\""
    );
    assert_eq!(my(&users()).fields()[5].fmt_for_select(), "`role` AS `role!: Role`");
}

#[test]
fn select_list_follows_the_declaration() {
    assert_eq!(pg(&users()).select_column_list(), PG_USER_COLUMNS);
    assert_eq!(my(&users()).select_column_list(), PG_USER_COLUMNS.replace('"', "`"));
}

#[test]
fn select_list_of_one_field_has_no_separator() {
    let input = StructInput {
        ident: "One".to_string(),
        vis: String::new(),
        attrs: vec![text("table", "one"), ident("id", "id")],
        fields: vec![field("id", "i32", vec![])],
    };
    assert_eq!(pg(&input).select_column_list(), "\"id\"");
}

#[test]
fn fields_except_id_leave_out_the_id_only() {
    let table = pg(&users());
    let names: Vec<&str> = table.fields_except_id().iter().map(|f| f.field.as_str()).collect();
    assert_eq!(
        names,
        vec![
            "first_name",
            "last_name",
            "disabled",
            "email",
            "role",
            "ty",
            "group",
            "favourite_color",
            "last_login"
        ]
    );
}

#[test]
fn insertable_and_default_fields_part_the_fields() {
    let table = pg(&users());
    let supplied: Vec<&str> = table.insertable_fields().iter().map(|f| f.field.as_str()).collect();
    let generated: Vec<&str> = table.default_fields().iter().map(|f| f.field.as_str()).collect();
    assert_eq!(supplied, vec!["first_name", "last_name", "disabled", "email", "role", "ty"]);
    assert_eq!(generated, vec!["user_id", "group", "favourite_color", "last_login"]);
}

#[test]
fn arguments_are_taken_by_reference_and_cast_as_asked() {
    assert_eq!(fmt_bound("self.a", "T", false, false), "self.a");
    assert_eq!(fmt_bound("self.a", "T", true, false), "&self.a");
    assert_eq!(fmt_bound("self.a", "T", false, true), "self.a as T");
    assert_eq!(fmt_bound("self.a", "T", true, true), "&self.a as &T");
    let table = pg(&users());
    assert_eq!(table.fields()[1].fmt_as_argument(), "self.first_name");
    assert_eq!(table.fields()[5].fmt_as_argument(), "self.role as Role");
    assert_eq!(pg(&plain()).fields()[1].fmt_as_argument(), "&self.rows");
}

#[test]
fn getter_names_and_types_fall_back_on_the_field() {
    let table = pg(&users());
    let email = &table.fields()[4];
    let nothing = Getter { func: None, arg_ty: None };
    assert_eq!(nothing.or_fallback(email), ("by_email".to_string(), "&String".to_string()));
    let named = Getter { func: Some("find".to_string()), arg_ty: None };
    assert_eq!(named.or_fallback(email), ("find".to_string(), "&String".to_string()));
    let typed = Getter { func: None, arg_ty: Some("& str".to_string()) };
    assert_eq!(typed.or_fallback(email), ("by_email".to_string(), "& str".to_string()));
    let both = Getter { func: Some("find".to_string()), arg_ty: Some("u32".to_string()) };
    assert_eq!(both.or_fallback(email), ("find".to_string(), "u32".to_string()));
}

#[test]
fn get_selects_by_the_id_column() {
    let table = pg(&users());
    let statement = get(&table, &table.select_column_list());
    assert_eq!(
        statement.sql,
        format!("SELECT {} FROM \"users\" WHERE \"id\" = $1", PG_USER_COLUMNS)
    );
    assert_eq!(statement.arguments, vec!["id"]);
    assert_eq!(statement.fetch, Fetch::One);
    let table = my(&plain());
    let statement = get(&table, &table.select_column_list());
    assert_eq!(statement.sql, "SELECT `id`, `rows` FROM `test` WHERE `id` = ?");
}

#[test]
fn get_uses_the_column_list_it_is_given() {
    let table = pg(&plain());
    assert_eq!(get(&table, "x, y").sql, "SELECT x, y FROM \"test\" WHERE \"id\" = $1");
    assert_eq!(
        select_by(&table, "*", &table.fields()[1]),
        "SELECT * FROM \"test\" WHERE \"rows\" = $1"
    );
}

#[test]
fn listing_is_ordered_by_the_id_descending_by_default() {
    let table = pg(&plain());
    assert_eq!(order_by_clause(&table), "\"id\" DESC");
    let statement = stream_all(&table, &table.select_column_list());
    assert_eq!(statement.sql, "SELECT \"id\", \"rows\" FROM \"test\" ORDER BY \"id\" DESC");
    assert!(statement.arguments.is_empty());
    assert_eq!(statement.fetch, Fetch::Many);
    let table = my(&users());
    assert_eq!(order_by_clause(&my(&plain())), "`id` DESC");
    assert_eq!(order_by_clause(&table), "email ASC");
}

#[test]
fn listing_uses_the_given_order_as_it_stands() {
    let table = pg(&users());
    assert_eq!(order_by_clause(&table), "email ASC");
    let statement = stream_all(&table, &table.select_column_list());
    assert_eq!(
        statement.sql,
        format!("SELECT {} FROM \"users\" ORDER BY email ASC", PG_USER_COLUMNS)
    );
    assert!(!statement.sql.contains("DESC"));
}

#[test]
fn given_order_that_names_the_id_is_not_overridden() {
    let mut input = plain();
    input.attrs.push(text("order_by", "id ASC"));
    let table = pg(&input);
    let statement = stream_all(&table, &table.select_column_list());
    assert_eq!(statement.sql, "SELECT \"id\", \"rows\" FROM \"test\" ORDER BY id ASC");
}

#[test]
fn page_binds_the_limit_before_the_offset() {
    let table = pg(&plain());
    let statement = stream_all_paginated(&table, &table.select_column_list());
    assert_eq!(
        statement.sql,
        "SELECT \"id\", \"rows\" FROM \"test\" ORDER BY \"id\" DESC LIMIT $1 OFFSET $2 "
    );
    assert_eq!(statement.arguments, vec!["limit", "offset"]);
    assert_eq!(statement.fetch, Fetch::Many);
    let table = maria(&plain());
    let statement = stream_all_paginated(&table, &table.select_column_list());
    assert_eq!(
        statement.sql,
        "SELECT `id`, `rows` FROM `test` ORDER BY `id` DESC LIMIT ? OFFSET ? "
    );
}

#[test]
fn update_writes_every_field_but_the_id() {
    let statement = update(&pg(&users()));
    assert_eq!(
        statement.sql,
        "UPDATE \"users\" SET \"first_name\" = $1, \"last_name\" = $2, \"disabled\" = $3, \"email\" = $4, \"role\" = $5, \"type\" = $6, \"group\" = $7, \"favourite_color\" = $8, \"last_login\" = $9 WHERE \"id\" = $10"
    );
    assert_eq!(
        statement.arguments,
        vec![
            "self.first_name",
            "self.last_name",
            "self.disabled",
            "self.email",
            "self.role as Role",
            "self.ty as Option < AccountType >",
            "self.group as UserGroup",
            "self.favourite_color as Option < Color >",
            "self.last_login",
            "self.user_id",
        ]
    );
    assert_eq!(statement.fetch, Fetch::Execute);
}

#[test]
fn update_binds_the_id_last() {
    let statement = update(&my(&plain()));
    assert_eq!(statement.sql, "UPDATE `test` SET `rows` = ? WHERE `id` = ?");
    assert_eq!(statement.arguments, vec!["&self.rows", "self.id"]);
    assert_eq!(statement.arguments.last().unwrap(), "self.id");
    assert!(!statement.sql.contains("SET `id`"));
}

#[test]
fn update_of_a_table_with_the_id_alone_writes_nothing() {
    let input = StructInput {
        ident: "One".to_string(),
        vis: String::new(),
        attrs: vec![text("table", "one"), ident("id", "id")],
        fields: vec![field("id", "i32", vec![])],
    };
    let statement = update(&pg(&input));
    assert_eq!(statement.sql, "UPDATE \"one\" SET  WHERE \"id\" = $1");
    assert_eq!(statement.arguments, vec!["self.id"]);
}

#[test]
fn update_text_numbers_the_id_after_the_columns() {
    let columns = vec!["a".to_string(), "b".to_string()];
    assert_eq!(
        update_sql::<PgBackend>("t", &columns, "id"),
        "UPDATE \"t\" SET \"a\" = $1, \"b\" = $2 WHERE \"id\" = $3"
    );
    assert_eq!(
        update_sql::<MySqlBackend>("t", &columns, "id"),
        "UPDATE `t` SET `a` = ?, `b` = ? WHERE `id` = ?"
    );
}

#[test]
fn delete_binds_the_id_alone() {
    let statement = delete(&pg(&users()));
    assert_eq!(statement.sql, "DELETE FROM \"users\" WHERE \"id\" = $1");
    assert_eq!(statement.arguments, vec!["id"]);
    assert_eq!(statement.fetch, Fetch::Execute);
    assert_eq!(delete(&maria(&users())).sql, "DELETE FROM `users` WHERE `id` = ?");
}

#[test]
fn insert_returns_the_generated_values() {
    let table = pg(&users());
    let supplied = table.insertable_fields();
    assert_eq!(
        insert_sql(&table, &supplied),
        "INSERT INTO \"users\" (\"first_name\", \"last_name\", \"disabled\", \"email\", \"role\", \"type\") VALUES ($1, $2, $3, $4, $5, $6) RETURNING \"id\" AS \"user_id\", \"group\" AS \"group!: UserGroup\", \"favourite_color\" AS \"favourite_color!: Option < Color >\", \"last_login\""
    );
}

#[test]
fn insert_of_mixed_fields_names_the_supplied_ones_only() {
    let table = pg(&mixed());
    assert_eq!(
        table.select_column_list(),
        "\"id\", \"a\", \"b\" AS \"b!: Kind\", \"c\""
    );
    let supplied = table.insertable_fields();
    assert_eq!(
        insert_sql(&table, &supplied),
        "INSERT INTO \"mixed\" (\"a\", \"b\") VALUES ($1, $2) RETURNING \"id\", \"c\""
    );
    let table = maria(&mixed());
    let supplied = table.insertable_fields();
    assert_eq!(
        insert_sql(&table, &supplied),
        "INSERT INTO `mixed` (`a`, `b`) VALUES (?, ?) RETURNING `id`, `c`"
    );
}

#[test]
fn insert_without_generated_values_returns_nothing() {
    let table = pg(&plain());
    let supplied = table.insertable_fields();
    let sql = insert_sql(&table, &supplied);
    assert_eq!(sql, "INSERT INTO \"test\" (\"id\", \"rows\") VALUES ($1, $2)");
    assert!(!sql.contains("RETURNING"));
}

#[test]
fn insert_with_generated_values_alone_has_no_columns() {
    let input = StructInput {
        ident: "Auto".to_string(),
        vis: String::new(),
        attrs: vec![text("table", "auto"), ident("id", "id"), flag("insertable")],
        fields: vec![field("id", "i64", vec![flag("default")])],
    };
    let table = pg(&input);
    let supplied = table.insertable_fields();
    assert!(supplied.is_empty());
    assert_eq!(insert_sql(&table, &supplied), "INSERT INTO \"auto\" () VALUES () RETURNING \"id\"");
}

fn to_mysql(postgres: &str) -> String {
    let mut out = String::new();
    let mut chars = postgres.chars().peekable();
    while let Some(c) = chars.next() {
        if c == '"' {
            out.push('`');
        } else if c == '$' {
            out.push('?');
            while chars.peek().map_or(false, |d| d.is_ascii_digit()) {
                chars.next();
            }
        } else {
            out.push(c);
        }
    }
    out
}

#[test]
fn dialects_differ_in_quotes_and_placeholders_only() {
    let postgres = pg(&users());
    let mysql = my(&users());
    let mariadb = maria(&users());
    let list = postgres.select_column_list();
    let mysql_list = mysql.select_column_list();
    assert_eq!(to_mysql(&list), mysql_list);
    assert_eq!(mariadb.select_column_list(), mysql_list);

    let a = get(&postgres, &list);
    let b = get(&mysql, &mysql_list);
    assert_eq!(to_mysql(&a.sql), b.sql);
    assert_eq!(a.arguments, b.arguments);
    assert_eq!(get(&mariadb, &mysql_list), b);

    let a = stream_all_paginated(&postgres, &list);
    let b = stream_all_paginated(&mysql, &mysql_list);
    assert_eq!(to_mysql(&a.sql), b.sql);
    assert_eq!(a.arguments, b.arguments);

    let a = update(&postgres);
    let b = update(&mysql);
    assert_eq!(to_mysql(&a.sql), b.sql);
    assert_eq!(a.arguments, b.arguments);
    assert_eq!(update(&mariadb), b);

    let a = delete(&postgres);
    let b = delete(&mysql);
    assert_eq!(to_mysql(&a.sql), b.sql);

    let a = insert_sql(&postgres, &postgres.insertable_fields());
    let b = insert_sql(&mysql, &mysql.insertable_fields());
    assert_eq!(to_mysql(&a), b);
    assert_eq!(insert_sql(&mariadb, &mariadb.insertable_fields()), b);
}

fn placeholders_of(sql: &str) -> Vec<usize> {
    let mut out = Vec::new();
    let mut chars = sql.chars().peekable();
    while let Some(c) = chars.next() {
        if c == '$' {
            let mut digits = String::new();
            while let Some(d) = chars.peek().copied().filter(|d| d.is_ascii_digit()) {
                digits.push(d);
                chars.next();
            }
            out.push(digits.parse().unwrap());
        }
    }
    out
}

#[test]
fn placeholders_count_the_bound_expressions() {
    let table = pg(&users());
    let list = table.select_column_list();
    let statements = vec![
        get(&table, &list),
        stream_all(&table, &list),
        stream_all_paginated(&table, &list),
        update(&table),
        delete(&table),
    ];
    for statement in statements {
        let expected: Vec<usize> = (1..=statement.arguments.len()).collect();
        assert_eq!(placeholders_of(&statement.sql), expected);
    }
    let supplied = table.insertable_fields();
    assert_eq!(placeholders_of(&insert_sql(&table, &supplied)), vec![1, 2, 3, 4, 5, 6]);
}

#[test]
fn question_marks_count_the_bound_expressions() {
    let table = my(&users());
    let list = table.select_column_list();
    let marks = |sql: &str| sql.chars().filter(|c| *c == '?').count();
    let statement = update(&table);
    assert_eq!(marks(&statement.sql), statement.arguments.len());
    let statement = stream_all_paginated(&table, &list);
    assert_eq!(marks(&statement.sql), 2);
    let statement = get(&table, &list);
    assert_eq!(marks(&statement.sql), 1);
    let supplied = table.insertable_fields();
    assert_eq!(marks(&insert_sql(&table, &supplied)), supplied.len());
}

#[test]
fn update_does_not_write_the_id_column() {
    let statement = update(&pg(&users()));
    let set = statement.sql.split(" WHERE ").next().unwrap();
    assert!(!set.contains("\"id\""));
    assert!(statement.sql.ends_with("WHERE \"id\" = $10"));
}
