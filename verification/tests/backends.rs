use ormx::backend::{
    decimal_string, insert_strategy, Backend, Bindings, Fetch, MariaBackend, MySqlBackend,
    PgBackend, ResultAccessor,
};
use ormx::table::quote_identifier;

#[test]
fn postgres_placeholders_are_numbered_from_one() {
    let mut bindings = PgBackend::bindings();
    assert_eq!(bindings.next(), "$1");
    assert_eq!(bindings.next(), "$2");
    assert_eq!(bindings.next(), "$3");
}

#[test]
fn postgres_placeholders_go_past_nine() {
    let mut bindings = PgBackend::bindings();
    let mut last = String::new();
    for _ in 0..12 {
        last = bindings.next();
    }
    assert_eq!(last, "$12");
}

#[test]
fn postgres_placeholders_restart_for_each_statement() {
    let mut first = PgBackend::bindings();
    first.next();
    first.next();
    let mut second = PgBackend::bindings();
    assert_eq!(second.next(), "$1");
}

#[test]
fn mysql_placeholders_are_question_marks() {
    let mut bindings = MySqlBackend::bindings();
    assert_eq!(bindings.next(), "?");
    assert_eq!(bindings.next(), "?");
    assert_eq!(bindings.next(), "?");
}

#[test]
fn mariadb_placeholders_are_question_marks() {
    let mut bindings = MariaBackend::bindings();
    assert_eq!(bindings.next(), "?");
    assert_eq!(bindings.next(), "?");
}

#[test]
fn decimal_numerals() {
    assert_eq!(decimal_string(0), "0");
    assert_eq!(decimal_string(7), "7");
    assert_eq!(decimal_string(9), "9");
    assert_eq!(decimal_string(10), "10");
    assert_eq!(decimal_string(99), "99");
    assert_eq!(decimal_string(100), "100");
    assert_eq!(decimal_string(120), "120");
    assert_eq!(decimal_string(1234567890), "1234567890");
    assert_eq!(decimal_string(usize::MAX), usize::MAX.to_string());
}

#[test]
fn quote_characters() {
    assert_eq!(PgBackend::quote(), "\"");
    assert_eq!(MySqlBackend::quote(), "`");
    assert_eq!(MariaBackend::quote(), "`");
}

#[test]
fn identifiers_are_quoted_on_both_sides() {
    assert_eq!(quote_identifier::<PgBackend>("users"), "\"users\"");
    assert_eq!(quote_identifier::<MySqlBackend>("users"), "`users`");
    assert_eq!(quote_identifier::<MariaBackend>("group"), "`group`");
    assert_eq!(quote_identifier::<PgBackend>(""), "\"\"");
}

#[test]
fn insert_is_only_run_without_generated_values() {
    assert_eq!(insert_strategy(false), Fetch::Execute);
}

#[test]
fn insert_reads_one_row_with_generated_values() {
    assert_eq!(insert_strategy(true), Fetch::One);
}

#[test]
fn generated_values_are_read_by_name_or_by_ordinal() {
    assert_eq!(PgBackend::result_accessor(), ResultAccessor::Name);
    assert_eq!(MySqlBackend::result_accessor(), ResultAccessor::Ordinal);
    assert_eq!(MariaBackend::result_accessor(), ResultAccessor::Ordinal);
}

#[test]
fn result_types_of_the_drivers() {
    assert_eq!(PgBackend::query_result(), "sqlx::postgres::PgQueryResult");
    assert_eq!(MySqlBackend::query_result(), "sqlx::mysql::MySqlQueryResult");
    assert_eq!(MariaBackend::query_result(), "sqlx::mysql::MySqlQueryResult");
}
