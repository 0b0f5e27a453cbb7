//! The tokens a statement is lowered to, and how a sequence of them is
//! written out for a dialect.

use vstd::prelude::*;
use crate::value::Value;
use crate::visitor::dialect::Dialect;

verus! {

/// The fixed words and marks of the grammar. Each stands for its text,
/// spacing included.
#[derive(Debug, Clone, Copy, PartialEq, Eq)]
pub enum Keyword {
    Select,
    Star,
    From,
    Where,
    GroupBy,
    Having,
    OrderBy,
    Ascending,
    Descending,
    Limit,
    Offset,
    /// The ordering that T-SQL wants before `OFFSET` when the statement has none.
    FirstColumn,
    /// The offset written where T-SQL wants one and the statement has none.
    Zero,
    Rows,
    FetchNext,
    RowsOnly,
    InnerJoin,
    LeftJoin,
    On,
    InsertInto,
    Values,
    Update,
    SetColumns,
    DeleteFrom,
    UnionAll,
    And,
    Or,
    Not,
    Open,
    Close,
    Comma,
    Dot,
    As,
    Space,
    Equals,
    NotEquals,
    LessThan,
    LessThanOrEquals,
    GreaterThan,
    GreaterThanOrEquals,
    Like,
    NotLike,
    In,
    NotIn,
    IsNull,
    IsNotNull,
    Between,
    NotBetween,
    /// A condition that always holds.
    True,
    /// A condition that never holds.
    False,
    /// What stands for `LIMIT` where an offset is given without one.
    NoLimit,
    /// The body of an `INSERT` that names no column.
    DefaultValues,
}

impl Keyword {
    /// The text of the keyword in a dialect.
    pub open spec fn spec_text(self, dialect: Dialect) -> Seq<char> {
        match self {
            Keyword::Select => "SELECT "@,
            Keyword::Star => "*"@,
            Keyword::From => " FROM "@,
            Keyword::Where => " WHERE "@,
            Keyword::GroupBy => " GROUP BY "@,
            Keyword::Having => " HAVING "@,
            Keyword::OrderBy => " ORDER BY "@,
            Keyword::Ascending => " ASC"@,
            Keyword::Descending => " DESC"@,
            Keyword::Limit => " LIMIT "@,
            Keyword::Offset => " OFFSET "@,
            Keyword::FirstColumn => " ORDER BY 1"@,
            Keyword::Zero => "0"@,
            Keyword::Rows => " ROWS"@,
            Keyword::FetchNext => " FETCH NEXT "@,
            Keyword::RowsOnly => " ROWS ONLY"@,
            Keyword::InnerJoin => " INNER JOIN "@,
            Keyword::LeftJoin => " LEFT JOIN "@,
            Keyword::On => " ON "@,
            Keyword::InsertInto => "INSERT INTO "@,
            Keyword::Values => " VALUES "@,
            Keyword::Update => "UPDATE "@,
            Keyword::SetColumns => " SET "@,
            Keyword::DeleteFrom => "DELETE FROM "@,
            Keyword::UnionAll => " UNION ALL "@,
            Keyword::And => " AND "@,
            Keyword::Or => " OR "@,
            Keyword::Not => "NOT "@,
            Keyword::Open => "("@,
            Keyword::Close => ")"@,
            Keyword::Comma => ", "@,
            Keyword::Dot => "."@,
            Keyword::As => " AS "@,
            Keyword::Space => " "@,
            Keyword::Equals => " = "@,
            Keyword::NotEquals => " <> "@,
            Keyword::LessThan => " < "@,
            Keyword::LessThanOrEquals => " <= "@,
            Keyword::GreaterThan => " > "@,
            Keyword::GreaterThanOrEquals => " >= "@,
            Keyword::Like => " LIKE "@,
            Keyword::NotLike => " NOT LIKE "@,
            Keyword::In => " IN "@,
            Keyword::NotIn => " NOT IN "@,
            Keyword::IsNull => " IS NULL"@,
            Keyword::IsNotNull => " IS NOT NULL"@,
            Keyword::Between => " BETWEEN "@,
            Keyword::NotBetween => " NOT BETWEEN "@,
            Keyword::True => match dialect {
                Dialect::Mysql => "TRUE"@,
                Dialect::Postgres => "TRUE"@,
                Dialect::Sqlite => "1"@,
                Dialect::Mssql => "1=1"@,
            },
            Keyword::False => match dialect {
                Dialect::Mysql => "FALSE"@,
                Dialect::Postgres => "FALSE"@,
                Dialect::Sqlite => "0"@,
                Dialect::Mssql => "1=0"@,
            },
            Keyword::NoLimit => match dialect {
                Dialect::Mysql => " LIMIT 18446744073709551615"@,
                Dialect::Postgres => ""@,
                Dialect::Sqlite => " LIMIT -1"@,
                Dialect::Mssql => ""@,
            },
            Keyword::DefaultValues => match dialect {
                Dialect::Mysql => " () VALUES ()"@,
                Dialect::Postgres => " DEFAULT VALUES"@,
                Dialect::Sqlite => " DEFAULT VALUES"@,
                Dialect::Mssql => " DEFAULT VALUES"@,
            },
        }
    }

    pub fn text(&self, dialect: Dialect) -> (s: &'static str)
        ensures
            s@ == self.spec_text(dialect),
    {
        match self {
            Keyword::Select => "SELECT ",
            Keyword::Star => "*",
            Keyword::From => " FROM ",
            Keyword::Where => " WHERE ",
            Keyword::GroupBy => " GROUP BY ",
            Keyword::Having => " HAVING ",
            Keyword::OrderBy => " ORDER BY ",
            Keyword::Ascending => " ASC",
            Keyword::Descending => " DESC",
            Keyword::Limit => " LIMIT ",
            Keyword::Offset => " OFFSET ",
            Keyword::FirstColumn => " ORDER BY 1",
            Keyword::Zero => "0",
            Keyword::Rows => " ROWS",
            Keyword::FetchNext => " FETCH NEXT ",
            Keyword::RowsOnly => " ROWS ONLY",
            Keyword::InnerJoin => " INNER JOIN ",
            Keyword::LeftJoin => " LEFT JOIN ",
            Keyword::On => " ON ",
            Keyword::InsertInto => "INSERT INTO ",
            Keyword::Values => " VALUES ",
            Keyword::Update => "UPDATE ",
            Keyword::SetColumns => " SET ",
            Keyword::DeleteFrom => "DELETE FROM ",
            Keyword::UnionAll => " UNION ALL ",
            Keyword::And => " AND ",
            Keyword::Or => " OR ",
            Keyword::Not => "NOT ",
            Keyword::Open => "(",
            Keyword::Close => ")",
            Keyword::Comma => ", ",
            Keyword::Dot => ".",
            Keyword::As => " AS ",
            Keyword::Space => " ",
            Keyword::Equals => " = ",
            Keyword::NotEquals => " <> ",
            Keyword::LessThan => " < ",
            Keyword::LessThanOrEquals => " <= ",
            Keyword::GreaterThan => " > ",
            Keyword::GreaterThanOrEquals => " >= ",
            Keyword::Like => " LIKE ",
            Keyword::NotLike => " NOT LIKE ",
            Keyword::In => " IN ",
            Keyword::NotIn => " NOT IN ",
            Keyword::IsNull => " IS NULL",
            Keyword::IsNotNull => " IS NOT NULL",
            Keyword::Between => " BETWEEN ",
            Keyword::NotBetween => " NOT BETWEEN ",
            Keyword::True => match dialect {
                Dialect::Mysql => "TRUE",
                Dialect::Postgres => "TRUE",
                Dialect::Sqlite => "1",
                Dialect::Mssql => "1=1",
            },
            Keyword::False => match dialect {
                Dialect::Mysql => "FALSE",
                Dialect::Postgres => "FALSE",
                Dialect::Sqlite => "0",
                Dialect::Mssql => "1=0",
            },
            Keyword::NoLimit => match dialect {
                Dialect::Mysql => " LIMIT 18446744073709551615",
                Dialect::Postgres => "",
                Dialect::Sqlite => " LIMIT -1",
                Dialect::Mssql => "",
            },
            Keyword::DefaultValues => match dialect {
                Dialect::Mysql => " () VALUES ()",
                Dialect::Postgres => " DEFAULT VALUES",
                Dialect::Sqlite => " DEFAULT VALUES",
                Dialect::Mssql => " DEFAULT VALUES",
            },
        }
    }
}

/// One piece of a lowered statement.
pub enum Token {
    /// A word or mark of the grammar.
    Word(Keyword),
    /// A name, to be quoted as the dialect quotes names.
    Ident(Seq<char>),
    /// SQL text that the caller supplied, written as it is.
    Raw(Seq<char>),
    /// A bound value: a placeholder in the text, the value in the parameters.
    Bind(Value),
}

/// The values bound by a sequence of tokens, in the order of their tokens.
pub open spec fn binds(tokens: Seq<Token>) -> Seq<Value>
    decreases tokens.len(),
{
    if tokens.len() == 0 {
        Seq::empty()
    } else {
        match tokens.last() {
            Token::Bind(v) => binds(tokens.drop_last()).push(v),
            _ => binds(tokens.drop_last()),
        }
    }
}

/// The text of one token, which for a bound value is the placeholder of its
/// ordinal.
pub open spec fn render_token(token: Token, dialect: Dialect, ordinal: nat) -> Seq<char> {
    match token {
        Token::Word(k) => k.spec_text(dialect),
        Token::Ident(name) => dialect.spec_quote(name),
        Token::Raw(sql) => sql,
        Token::Bind(_) => dialect.spec_placeholder(ordinal),
    }
}

/// The text of a sequence of tokens: the text of each in turn, where the
/// n-th bound value of the sequence gets the placeholder of ordinal n.
pub open spec fn render(tokens: Seq<Token>, dialect: Dialect) -> Seq<char>
    decreases tokens.len(),
{
    if tokens.len() == 0 {
        Seq::empty()
    } else {
        render(tokens.drop_last(), dialect) + render_token(
            tokens.last(),
            dialect,
            binds(tokens.drop_last()).len() + 1,
        )
    }
}

/// The text of a sequence of tokens that follows `before` bound values.
pub open spec fn render_after(tokens: Seq<Token>, dialect: Dialect, before: nat) -> Seq<char>
    decreases tokens.len(),
{
    if tokens.len() == 0 {
        Seq::empty()
    } else {
        render_after(tokens.drop_last(), dialect, before) + render_token(
            tokens.last(),
            dialect,
            before + binds(tokens.drop_last()).len() + 1,
        )
    }
}

/// The number of placeholders in a sequence of tokens.
pub open spec fn placeholders(tokens: Seq<Token>) -> nat
    decreases tokens.len(),
{
    if tokens.len() == 0 {
        0
    } else if tokens.last() is Bind {
        placeholders(tokens.drop_last()) + 1
    } else {
        placeholders(tokens.drop_last())
    }
}

/// Every placeholder stands for one bound value.
pub proof fn lemma_placeholders_are_binds(tokens: Seq<Token>)
    ensures
        placeholders(tokens) == binds(tokens).len(),
    decreases tokens.len(),
{
    if tokens.len() > 0 {
        lemma_placeholders_are_binds(tokens.drop_last());
    }
}

/// The values bound by two sequences in a row are those of the first, then
/// those of the second.
pub broadcast proof fn lemma_binds_concat(a: Seq<Token>, b: Seq<Token>)
    ensures
        #[trigger] binds(a + b) == binds(a) + binds(b),
    decreases b.len(),
{
    if b.len() == 0 {
        assert(a + b == a);
        assert(binds(a) + binds(b) == binds(a));
    } else {
        lemma_binds_concat(a, b.drop_last());
        assert((a + b).drop_last() == a + b.drop_last());
        assert((a + b).last() == b.last());
        match b.last() {
            Token::Bind(v) => {
                assert((binds(a) + binds(b.drop_last())).push(v) == binds(a) + binds(
                    b.drop_last(),
                ).push(v));
            },
            _ => {},
        }
    }
}

/// True when the keyword is nowhere among the tokens.
pub open spec fn free_of(tokens: Seq<Token>, keyword: Keyword) -> bool {
    forall|i: int| 0 <= i < tokens.len() ==> #[trigger] tokens[i] != Token::Word(keyword)
}

/// True when no token binds a value.
pub open spec fn binds_nothing(tokens: Seq<Token>) -> bool {
    forall|i: int| 0 <= i < tokens.len() ==> !(#[trigger] tokens[i] is Bind)
}

/// Tokens that bind nothing yield no parameters.
pub proof fn lemma_binds_nothing(tokens: Seq<Token>)
    requires
        binds_nothing(tokens),
    ensures
        binds(tokens) == Seq::<Value>::empty(),
    decreases tokens.len(),
{
    if tokens.len() > 0 {
        lemma_binds_nothing(tokens.drop_last());
    }
}

/// The text of two sequences in a row is the text of the first, then the
/// text of the second numbered on from the first.
pub proof fn lemma_render_concat(a: Seq<Token>, b: Seq<Token>, dialect: Dialect)
    ensures
        render(a + b, dialect) == render(a, dialect) + render_after(
            b,
            dialect,
            binds(a).len(),
        ),
    decreases b.len(),
{
    if b.len() == 0 {
        assert(a + b == a);
        assert(render(a, dialect) + Seq::<char>::empty() == render(a, dialect));
    } else {
        lemma_render_concat(a, b.drop_last(), dialect);
        lemma_binds_concat(a, b.drop_last());
        assert((a + b).drop_last() == a + b.drop_last());
        assert((a + b).last() == b.last());
        let piece = render_token(
            b.last(),
            dialect,
            binds(a).len() + binds(b.drop_last()).len() + 1,
        );
        assert((render(a, dialect) + render_after(b.drop_last(), dialect, binds(a).len()))
            + piece == render(a, dialect) + (render_after(
            b.drop_last(),
            dialect,
            binds(a).len(),
        ) + piece));
    }
}

} // verus!
