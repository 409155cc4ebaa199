//! Settings of the server's database connection pool.

use vstd::prelude::*;

verus! {

/// Errors of the server's database.
#[derive(Debug)]
pub enum DatabaseError {
    ConnectionFailed(String),
    MigrationFailed(String),
    PoolExhausted,
}

impl DatabaseError {
    /// The error's text.
    pub open spec fn describe(&self) -> Seq<char> {
        match self {
            DatabaseError::ConnectionFailed(m) => "connection failed: "@ + m@,
            DatabaseError::MigrationFailed(m) => "migration failed: "@ + m@,
            DatabaseError::PoolExhausted => "connection pool exhausted"@,
        }
    }

    /// The error's text.
    pub fn message(&self) -> (s: String)
        ensures
            s@ == self.describe(),
    {
        match self {
            DatabaseError::ConnectionFailed(m) => String::from_str("connection failed: ").concat(
                m.as_str(),
            ),
            DatabaseError::MigrationFailed(m) => String::from_str("migration failed: ").concat(
                m.as_str(),
            ),
            DatabaseError::PoolExhausted => String::from_str("connection pool exhausted"),
        }
    }
}

/// What is needed to connect to the database.
#[derive(Debug)]
pub struct DatabaseConfig {
    /// The PostgreSQL connection URL.
    pub database_url: String,
    /// Most connections in the pool.
    pub max_connections: u32,
}

impl Default for DatabaseConfig {
    fn default() -> (c: Self)
        ensures
            c.database_url@.len() == 0,
            c.max_connections == 5,
    {
        DatabaseConfig { database_url: String::new(), max_connections: 5 }
    }
}

/// An ASCII decimal digit.
pub open spec fn is_digit(c: char) -> bool {
    '0' <= c && c <= '9'
}

/// The value of a string of decimal digits.
pub open spec fn digits_value(s: Seq<char>) -> nat
    decreases s.len(),
{
    if s.len() == 0 {
        0
    } else {
        digits_value(s.drop_last()) * 10 + (s.last() as nat - '0' as nat) as nat
    }
}

/// The text after an optional leading `+`.
pub open spec fn unsigned_digits(s: Seq<char>) -> Seq<char> {
    if s.len() > 0 && s[0] == '+' {
        s.skip(1)
    } else {
        s
    }
}

/// Every character is a decimal digit.
pub open spec fn all_digits(d: Seq<char>) -> bool {
    forall|i: int| 0 <= i < d.len() ==> is_digit(#[trigger] d[i])
}

/// How a text reads as an unsigned 32-bit decimal number, as `str::parse`
/// reads it: an optional `+`, then at least one digit and nothing else, of
/// a value that fits.
pub open spec fn parsed_u32(s: Seq<char>) -> Option<u32> {
    let d = unsigned_digits(s);
    if d.len() == 0 || !all_digits(d) || digits_value(d) > u32::MAX {
        None
    } else {
        Some(digits_value(d) as u32)
    }
}

/// Reads a text as an unsigned 32-bit decimal number.
pub fn parse_u32(text: &str) -> (r: Option<u32>)
    ensures
        r == parsed_u32(text@),
{
    let n = text.unicode_len();
    let start: usize = if n > 0 && text.get_char(0) == '+' {
        1
    } else {
        0
    };
    let ghost d = text@.skip(start as int);
    assert(d == unsigned_digits(text@)) by {
        if start == 0 {
            assert(text@.skip(0) =~= text@);
        }
    }
    if start == n {
        return None;
    }
    let mut i: usize = start;
    let mut value: u64 = 0;
    let mut overflow = false;
    while i < n
        invariant
            n == text@.len(),
            start <= i <= n,
            d == text@.skip(start as int),
            d == unsigned_digits(text@),
            forall|k: int| 0 <= k < i - start ==> is_digit(#[trigger] d[k]),
            !overflow ==> value == digits_value(d.take(i - start)),
            !overflow ==> value <= u32::MAX,
            overflow ==> digits_value(d.take(i - start)) > u32::MAX,
        decreases n - i,
    {
        let c = text.get_char(i);
        assert(c == d[i - start]);
        if !('0' <= c && c <= '9') {
            assert(!is_digit(d[i - start]));
            assert(d.len() > 0);
            assert(!all_digits(d));
            return None;
        }
        assert(d.take(i - start + 1).drop_last() =~= d.take(i - start));
        let ghost before = d.take(i - start);
        let ghost after = d.take(i - start + 1);
        assert(after.last() == c);
        assert(digits_value(after) == digits_value(before) * 10 + (c as nat - '0' as nat));
        if !overflow {
            let digit = (c as u32 - '0' as u32) as u64;
            value = value * 10 + digit;
            if value > 0xFFFF_FFFF {
                overflow = true;
            }
        }
        i = i + 1;
    }
    assert(d.take(n - start) =~= d);
    assert(all_digits(d));
    if overflow {
        None
    } else {
        Some(value as u32)
    }
}

/// The connection settings for the values of `DATABASE_URL` and
/// `DATABASE_MAX_CONNECTIONS`, as the environment holds them: the URL is
/// required; the pool size is 5 where it is absent or not a number.
pub fn config_from_values(database_url: Option<String>, max_connections: Option<&str>) -> (r: Result<
    DatabaseConfig,
    DatabaseError,
>)
    ensures
        database_url is None ==> (r matches Err(DatabaseError::ConnectionFailed(m)) && m@
            == "DATABASE_URL is not set"@),
        database_url matches Some(u) ==> (r matches Ok(c) && c.database_url@ == u@
            && c.max_connections == (match max_connections {
            Some(v) => match parsed_u32(v@) {
                Some(k) => k,
                None => 5u32,
            },
            None => 5u32,
        })),
{
    let database_url = match database_url {
        Some(u) => u,
        None => {
            return Err(DatabaseError::ConnectionFailed(String::from_str("DATABASE_URL is not set")));
        },
    };
    let max_connections = match max_connections {
        Some(v) => match parse_u32(v) {
            Some(k) => k,
            None => 5,
        },
        None => 5,
    };
    Ok(DatabaseConfig { database_url, max_connections })
}

} // verus!
