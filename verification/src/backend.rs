//! SQL dialects: identifier quoting and placeholder syntax.

use vstd::prelude::*;
use vstd::string::*;

verus! {

/// The SQL dialects that statements can be generated for.
#[derive(Clone, Copy, Debug, PartialEq, Eq, Structural)]
pub enum Dialect {
    Postgres,
    MySql,
    MariaDb,
}

/// The character that encloses an identifier in `dialect`.
pub open spec fn quote_char(dialect: Dialect) -> char {
    match dialect {
        Dialect::Postgres => '"',
        Dialect::MySql => '`',
        Dialect::MariaDb => '`',
    }
}

/// `identifier` enclosed in the quote character of `dialect`.
pub open spec fn quoted(dialect: Dialect, identifier: Seq<char>) -> Seq<char> {
    seq![quote_char(dialect)] + identifier + seq![quote_char(dialect)]
}

/// How a statement is run against the database, and what comes back.
#[derive(Clone, Copy, Debug, PartialEq, Eq, Structural)]
pub enum Fetch {
    /// Run the statement; no row is read.
    Execute,
    /// Read exactly one row; none is a failure.
    One,
    /// Read one row if there is one.
    Optional,
    /// Read every row, one after the other, as the caller asks for them.
    Many,
}

/// How a generated value is found in the row that an insert returns.
#[derive(Clone, Copy, Debug, PartialEq, Eq, Structural)]
pub enum ResultAccessor {
    /// By the name of the field.
    Name,
    /// By the position of the value among the returned ones, from 0.
    Ordinal,
}

/// The accessor that `dialect` reads generated values with.
pub open spec fn result_accessor(dialect: Dialect) -> ResultAccessor {
    match dialect {
        Dialect::Postgres => ResultAccessor::Name,
        Dialect::MySql => ResultAccessor::Ordinal,
        Dialect::MariaDb => ResultAccessor::Ordinal,
    }
}

/// The path of the driver's result type for `dialect`.
pub open spec fn query_result_path(dialect: Dialect) -> Seq<char> {
    match dialect {
        Dialect::Postgres => "sqlx::postgres::PgQueryResult"@,
        Dialect::MySql => "sqlx::mysql::MySqlQueryResult"@,
        Dialect::MariaDb => "sqlx::mysql::MySqlQueryResult"@,
    }
}

/// How an insert is completed: when the database generates values for the
/// row, the statement returns them and one row is read; otherwise the
/// statement is only run.
pub open spec fn spec_insert_strategy(has_default_fields: bool) -> Fetch {
    if has_default_fields {
        Fetch::One
    } else {
        Fetch::Execute
    }
}

/// How an insert is completed, given whether the database generates any of
/// the row's values.
pub fn insert_strategy(has_default_fields: bool) -> (fetch: Fetch)
    ensures
        fetch == spec_insert_strategy(has_default_fields),
{
    if has_default_fields {
        Fetch::One
    } else {
        Fetch::Execute
    }
}

/// The character for the decimal digit `d`.
pub open spec fn digit_char(d: nat) -> char
    recommends
        d < 10,
{
    if d == 0 {
        '0'
    } else if d == 1 {
        '1'
    } else if d == 2 {
        '2'
    } else if d == 3 {
        '3'
    } else if d == 4 {
        '4'
    } else if d == 5 {
        '5'
    } else if d == 6 {
        '6'
    } else if d == 7 {
        '7'
    } else if d == 8 {
        '8'
    } else {
        '9'
    }
}

/// The decimal numeral of `n`, without leading zeros.
pub open spec fn decimal(n: nat) -> Seq<char>
    decreases n,
{
    if n < 10 {
        seq![digit_char(n)]
    } else {
        decimal(n / 10) + seq![digit_char(n % 10)]
    }
}

/// The placeholder that stands for the `position`-th bound value of a
/// statement in `dialect`; positions count from 1.
pub open spec fn placeholder(dialect: Dialect, position: nat) -> Seq<char> {
    match dialect {
        Dialect::Postgres => seq!['$'] + decimal(position),
        Dialect::MySql => seq!['?'],
        Dialect::MariaDb => seq!['?'],
    }
}

/// The decimal digit `d`, as a string.
fn digit_str(d: usize) -> (s: &'static str)
    requires
        d < 10,
    ensures
        s@ == seq![digit_char(d as nat)],
{
    proof {
        reveal_strlit("0");
        reveal_strlit("1");
        reveal_strlit("2");
        reveal_strlit("3");
        reveal_strlit("4");
        reveal_strlit("5");
        reveal_strlit("6");
        reveal_strlit("7");
        reveal_strlit("8");
        reveal_strlit("9");
    }
    let s = if d == 0 {
        "0"
    } else if d == 1 {
        "1"
    } else if d == 2 {
        "2"
    } else if d == 3 {
        "3"
    } else if d == 4 {
        "4"
    } else if d == 5 {
        "5"
    } else if d == 6 {
        "6"
    } else if d == 7 {
        "7"
    } else if d == 8 {
        "8"
    } else {
        "9"
    };
    assert(s@ =~= seq![digit_char(d as nat)]);
    s
}

/// Writes `n` as a decimal numeral.
pub fn decimal_string(n: usize) -> (s: String)
    ensures
        s@ == decimal(n as nat),
    decreases n,
{
    if n < 10 {
        String::from_str(digit_str(n))
    } else {
        let mut s = decimal_string(n / 10);
        s.append(digit_str(n % 10));
        s
    }
}

/// A SQL dialect as a strategy: how identifiers are quoted, how bound values
/// are marked, and how the values that the database generates are read back.
pub trait Backend: Sized {
    /// The sequence of placeholders of one statement.
    type Bindings: Bindings;

    /// The dialect that this backend generates.
    spec fn dialect() -> Dialect;

    /// The quote character, as a string.
    fn quote() -> (q: &'static str)
        ensures
            q@ == seq![quote_char(Self::dialect())],
    ;

    /// A placeholder sequence at its start.
    fn bindings() -> (b: Self::Bindings)
        ensures
            b.issued() == 0,
            b.dialect() == Self::dialect(),
    ;

    /// The path of the type in which the driver reports the result of a
    /// statement that returns no rows.
    fn query_result() -> (path: &'static str)
        ensures
            path@ == query_result_path(Self::dialect()),
    ;

    /// How the generated values are read out of the row that an insert
    /// returns.
    fn result_accessor() -> (accessor: ResultAccessor)
        ensures
            accessor == result_accessor(Self::dialect()),
    ;
}

/// The placeholders of one statement, in the order in which its values are
/// bound. The sequence never ends; each statement starts a new one.
pub trait Bindings: Sized {
    /// How many placeholders were handed out so far.
    spec fn issued(&self) -> nat;

    /// The dialect whose placeholders these are.
    spec fn dialect(&self) -> Dialect;

    /// Hands out the next placeholder. The number of placeholders handed out
    /// has to stay a `usize`.
    fn next(&mut self) -> (token: String)
        requires
            old(self).issued() < usize::MAX,
        ensures
            final(self).issued() == old(self).issued() + 1,
            final(self).dialect() == old(self).dialect(),
            token@ == placeholder(old(self).dialect(), old(self).issued() + 1),
    ;
}

/// PostgreSQL: identifiers in double quotes, numbered placeholders.
#[derive(Clone, Copy, Debug)]
pub struct PgBackend;

/// The numbered placeholders `$1`, `$2`, ... of PostgreSQL.
pub struct PgBindings(pub usize);

impl Bindings for PgBindings {
    open spec fn issued(&self) -> nat {
        self.0 as nat
    }

    open spec fn dialect(&self) -> Dialect {
        Dialect::Postgres
    }

    fn next(&mut self) -> (token: String) {
        self.0 += 1;
        let mut token = String::from_str("$");
        proof {
            reveal_strlit("$");
        }
        let digits = decimal_string(self.0);
        token.append(digits.as_str());
        assert(token@ =~= placeholder(Dialect::Postgres, self.0 as nat));
        token
    }
}

impl Backend for PgBackend {
    type Bindings = PgBindings;

    open spec fn dialect() -> Dialect {
        Dialect::Postgres
    }

    fn quote() -> (q: &'static str) {
        proof {
            reveal_strlit("\"");
        }
        let q = "\"";
        assert(q@ =~= seq![quote_char(Dialect::Postgres)]);
        q
    }

    fn bindings() -> (b: PgBindings) {
        PgBindings(0)
    }

    fn query_result() -> (path: &'static str) {
        "sqlx::postgres::PgQueryResult"
    }

    fn result_accessor() -> (accessor: ResultAccessor) {
        ResultAccessor::Name
    }
}

/// MySQL: identifiers in backticks, `?` placeholders.
#[derive(Clone, Copy, Debug)]
pub struct MySqlBackend;

/// The placeholders of MySQL: `?` for every bound value.
pub struct MySqlBindings {
    issued: Ghost<nat>,
}

impl Bindings for MySqlBindings {
    closed spec fn issued(&self) -> nat {
        self.issued@
    }

    open spec fn dialect(&self) -> Dialect {
        Dialect::MySql
    }

    fn next(&mut self) -> (token: String) {
        proof {
            reveal_strlit("?");
        }
        self.issued = Ghost((self.issued@ + 1) as nat);
        let token = String::from_str("?");
        assert(token@ =~= seq!['?']);
        token
    }
}

impl Backend for MySqlBackend {
    type Bindings = MySqlBindings;

    open spec fn dialect() -> Dialect {
        Dialect::MySql
    }

    fn quote() -> (q: &'static str) {
        proof {
            reveal_strlit("`");
        }
        let q = "`";
        assert(q@ =~= seq![quote_char(Dialect::MySql)]);
        q
    }

    fn bindings() -> (b: MySqlBindings) {
        MySqlBindings { issued: Ghost(0) }
    }

    fn query_result() -> (path: &'static str) {
        "sqlx::mysql::MySqlQueryResult"
    }

    fn result_accessor() -> (accessor: ResultAccessor) {
        ResultAccessor::Ordinal
    }
}

/// MariaDB: identifiers in backticks, `?` placeholders.
#[derive(Clone, Copy, Debug)]
pub struct MariaBackend;

/// The placeholders of MariaDB: `?` for every bound value.
pub struct MariaBindings {
    issued: Ghost<nat>,
}

impl Bindings for MariaBindings {
    closed spec fn issued(&self) -> nat {
        self.issued@
    }

    open spec fn dialect(&self) -> Dialect {
        Dialect::MariaDb
    }

    fn next(&mut self) -> (token: String) {
        proof {
            reveal_strlit("?");
        }
        self.issued = Ghost((self.issued@ + 1) as nat);
        let token = String::from_str("?");
        assert(token@ =~= seq!['?']);
        token
    }
}

impl Backend for MariaBackend {
    type Bindings = MariaBindings;

    open spec fn dialect() -> Dialect {
        Dialect::MariaDb
    }

    fn quote() -> (q: &'static str) {
        proof {
            reveal_strlit("`");
        }
        let q = "`";
        assert(q@ =~= seq![quote_char(Dialect::MariaDb)]);
        q
    }

    fn bindings() -> (b: MariaBindings) {
        MariaBindings { issued: Ghost(0) }
    }

    fn query_result() -> (path: &'static str) {
        "sqlx::mysql::MySqlQueryResult"
    }

    fn result_accessor() -> (accessor: ResultAccessor) {
        ResultAccessor::Ordinal
    }
}

} // verus!
