//! The dialects and what differs between them at the leaves: how a name is
//! quoted and how a placeholder is written.

use vstd::prelude::*;
use vstd::string::*;

verus! {

broadcast use vstd::string::group_string_axioms;

/// The SQL grammars the generator can write.
#[derive(Debug, Clone, Copy, PartialEq, Eq)]
pub enum Dialect {
    Mysql,
    Postgres,
    Sqlite,
    Mssql,
}

/// The character of a decimal digit.
pub open spec fn spec_digit(d: nat) -> char {
    if d == 0 {
        '0'
    } else if d == 1 {
        '1'
    } else if d == 2 {
        '2'
    } else if d == 3 {
        '3'
    } else if d == 4 {
        '4'
    } else if d == 5 {
        '5'
    } else if d == 6 {
        '6'
    } else if d == 7 {
        '7'
    } else if d == 8 {
        '8'
    } else {
        '9'
    }
}

/// A number in decimal, most significant digit first, without leading zeros.
pub open spec fn spec_decimal(n: nat) -> Seq<char>
    decreases n,
{
    if n < 10 {
        seq![spec_digit(n)]
    } else {
        spec_decimal(n / 10).push(spec_digit(n % 10))
    }
}

/// A name with every occurrence of the closing quote doubled, so that the
/// name cannot end its own quotation.
pub open spec fn spec_escape(name: Seq<char>, close: char) -> Seq<char>
    decreases name.len(),
{
    if name.len() == 0 {
        Seq::empty()
    } else if name.last() == close {
        spec_escape(name.drop_last(), close).push(close).push(close)
    } else {
        spec_escape(name.drop_last(), close).push(name.last())
    }
}

/// `String::push` of the standard library: the character is appended and
/// nothing else changes.
#[verifier::external_body]
fn push_char(s: &mut String, c: char)
    ensures
        final(s)@ == old(s)@.push(c),
{
    s.push(c)
}

fn digit(d: usize) -> (c: char)
    requires
        d < 10,
    ensures
        c == spec_digit(d as nat),
{
    if d == 0 {
        '0'
    } else if d == 1 {
        '1'
    } else if d == 2 {
        '2'
    } else if d == 3 {
        '3'
    } else if d == 4 {
        '4'
    } else if d == 5 {
        '5'
    } else if d == 6 {
        '6'
    } else if d == 7 {
        '7'
    } else if d == 8 {
        '8'
    } else {
        '9'
    }
}

/// Appends the decimal form of `n`.
fn push_decimal(s: &mut String, n: usize)
    ensures
        final(s)@ == old(s)@ + spec_decimal(n as nat),
    decreases n,
{
    if n >= 10 {
        push_decimal(s, n / 10);
    }
    push_char(s, digit(n % 10));
}

impl Dialect {
    /// The character that opens a quoted name.
    pub open spec fn spec_quote_open(self) -> char {
        match self {
            Dialect::Mysql => '`',
            Dialect::Sqlite => '`',
            Dialect::Postgres => '"',
            Dialect::Mssql => '[',
        }
    }

    /// The character that closes a quoted name.
    pub open spec fn spec_quote_close(self) -> char {
        match self {
            Dialect::Mysql => '`',
            Dialect::Sqlite => '`',
            Dialect::Postgres => '"',
            Dialect::Mssql => ']',
        }
    }

    /// A name as an identifier: between the dialect's quotes, with the
    /// closing quote doubled wherever the name holds it.
    pub open spec fn spec_quote(self, name: Seq<char>) -> Seq<char> {
        seq![self.spec_quote_open()] + spec_escape(name, self.spec_quote_close()).push(
            self.spec_quote_close(),
        )
    }

    /// The placeholder of the bound value that is the `ordinal`-th of its
    /// statement, counting from one: `?` where placeholders are positional,
    /// `$n` or `@Pn` where they are numbered.
    pub open spec fn spec_placeholder(self, ordinal: nat) -> Seq<char> {
        match self {
            Dialect::Mysql => seq!['?'],
            Dialect::Sqlite => seq!['?'],
            Dialect::Postgres => seq!['$'] + spec_decimal(ordinal),
            Dialect::Mssql => seq!['@', 'P'] + spec_decimal(ordinal),
        }
    }

    pub fn quote_open(&self) -> (c: char)
        ensures
            c == self.spec_quote_open(),
    {
        match self {
            Dialect::Mysql => '`',
            Dialect::Sqlite => '`',
            Dialect::Postgres => '"',
            Dialect::Mssql => '[',
        }
    }

    pub fn quote_close(&self) -> (c: char)
        ensures
            c == self.spec_quote_close(),
    {
        match self {
            Dialect::Mysql => '`',
            Dialect::Sqlite => '`',
            Dialect::Postgres => '"',
            Dialect::Mssql => ']',
        }
    }

    /// Appends `name` as a quoted identifier.
    pub fn push_quoted(&self, out: &mut String, name: &str)
        ensures
            final(out)@ == old(out)@ + self.spec_quote(name@),
    {
        let close = self.quote_close();
        push_char(out, self.quote_open());
        let ghost start = out@;
        for c in it: name.chars()
            invariant
                it.seq() == name@,
                out@ == start + spec_escape(name@.take(it.index()), close),
        {
            proof {
                let i = it.index();
                assert(name@.take(i + 1).drop_last() == name@.take(i));
                assert(name@.take(i + 1).last() == c);
            }
            if c == close {
                push_char(out, close);
            }
            push_char(out, c);
        }
        proof {
            assert(name@.take(name@.len() as int) == name@);
        }
        push_char(out, close);
    }

    /// `name` as a quoted identifier.
    pub fn quote(&self, name: &str) -> (s: String)
        ensures
            s@ == self.spec_quote(name@),
    {
        let mut s = String::new();
        self.push_quoted(&mut s, name);
        s
    }

    /// Appends the placeholder of the `ordinal`-th bound value.
    pub fn push_placeholder(&self, out: &mut String, ordinal: usize)
        ensures
            final(out)@ == old(out)@ + self.spec_placeholder(ordinal as nat),
    {
        match self {
            Dialect::Mysql => {
                push_char(out, '?');
            },
            Dialect::Sqlite => {
                push_char(out, '?');
            },
            Dialect::Postgres => {
                push_char(out, '$');
                push_decimal(out, ordinal);
            },
            Dialect::Mssql => {
                push_char(out, '@');
                push_char(out, 'P');
                push_decimal(out, ordinal);
            },
        }
    }

    /// The placeholder of the `ordinal`-th bound value.
    pub fn placeholder(&self, ordinal: usize) -> (s: String)
        ensures
            s@ == self.spec_placeholder(ordinal as nat),
    {
        let mut s = String::new();
        self.push_placeholder(&mut s, ordinal);
        s
    }
}

} // verus!
