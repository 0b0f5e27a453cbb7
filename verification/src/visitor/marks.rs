//! The marks of placeholders in the text: that the text of a statement
//! holds the mark of its dialect once for each bound value, wherever the
//! names and raw fragments of the statement do not hold the mark themselves.

use vstd::prelude::*;
use crate::visitor::dialect::{spec_decimal, spec_escape, Dialect};
use crate::visitor::token::{binds, placeholders, render, Keyword, Token};

verus! {

impl Dialect {
    /// The character that every placeholder of the dialect begins with and
    /// that nothing else the generator writes holds.
    pub open spec fn spec_mark(self) -> char {
        match self {
            Dialect::Mysql => '?',
            Dialect::Sqlite => '?',
            Dialect::Postgres => '$',
            Dialect::Mssql => '@',
        }
    }
}

/// True when the character is the mark of some dialect.
pub open spec fn is_mark(c: char) -> bool {
    c == '?' || c == '$' || c == '@'
}

/// How often a character occurs in a text.
pub open spec fn occurrences(text: Seq<char>, c: char) -> nat
    decreases text.len(),
{
    if text.len() == 0 {
        0
    } else if text.last() == c {
        occurrences(text.drop_last(), c) + 1
    } else {
        occurrences(text.drop_last(), c)
    }
}

/// True when the character does not occur in the text.
pub open spec fn is_free_of(text: Seq<char>, c: char) -> bool {
    forall|i: int| 0 <= i < text.len() ==> #[trigger] text[i] != c
}

/// True when no name and no raw fragment among the tokens holds the
/// character.
pub open spec fn names_are_free_of(tokens: Seq<Token>, c: char) -> bool {
    forall|i: int|
        0 <= i < tokens.len() ==> match #[trigger] tokens[i] {
            Token::Ident(name) => is_free_of(name, c),
            Token::Raw(sql) => is_free_of(sql, c),
            _ => true,
        }
}

pub broadcast proof fn lemma_occurrences_concat(a: Seq<char>, b: Seq<char>, c: char)
    ensures
        #[trigger] occurrences(a + b, c) == occurrences(a, c) + occurrences(b, c),
    decreases b.len(),
{
    if b.len() == 0 {
        assert(a + b == a);
    } else {
        lemma_occurrences_concat(a, b.drop_last(), c);
        assert((a + b).drop_last() == a + b.drop_last());
        assert((a + b).last() == b.last());
    }
}

pub proof fn lemma_free_text_has_none(text: Seq<char>, c: char)
    requires
        is_free_of(text, c),
    ensures
        occurrences(text, c) == 0,
    decreases text.len(),
{
    if text.len() > 0 {
        lemma_free_text_has_none(text.drop_last(), c);
    }
}

pub proof fn lemma_decimal_is_free(n: nat, c: char)
    requires
        is_mark(c),
    ensures
        is_free_of(spec_decimal(n), c),
    decreases n,
{
    if n >= 10 {
        lemma_decimal_is_free(n / 10, c);
    }
}

pub proof fn lemma_escape_is_free(name: Seq<char>, close: char, c: char)
    requires
        is_free_of(name, c),
        c != close,
    ensures
        is_free_of(spec_escape(name, close), c),
    decreases name.len(),
{
    if name.len() > 0 {
        lemma_escape_is_free(name.drop_last(), close, c);
    }
}

proof fn lemma_words_are_free_1(keyword: Keyword, dialect: Dialect, c: char)
    requires
        is_mark(c),
        keyword is Select || keyword is Star || keyword is From || keyword is Where || keyword is GroupBy || keyword is Having || keyword is OrderBy || keyword is Ascending || keyword is Descending || keyword is Limit || keyword is Offset || keyword is FirstColumn || keyword is Zero,
    ensures
        is_free_of(keyword.spec_text(dialect), c),
{
    match keyword {
        Keyword::Select => {
            reveal_strlit("SELECT ");
        },
        Keyword::Star => {
            reveal_strlit("*");
        },
        Keyword::From => {
            reveal_strlit(" FROM ");
        },
        Keyword::Where => {
            reveal_strlit(" WHERE ");
        },
        Keyword::GroupBy => {
            reveal_strlit(" GROUP BY ");
        },
        Keyword::Having => {
            reveal_strlit(" HAVING ");
        },
        Keyword::OrderBy => {
            reveal_strlit(" ORDER BY ");
        },
        Keyword::Ascending => {
            reveal_strlit(" ASC");
        },
        Keyword::Descending => {
            reveal_strlit(" DESC");
        },
        Keyword::Limit => {
            reveal_strlit(" LIMIT ");
        },
        Keyword::Offset => {
            reveal_strlit(" OFFSET ");
        },
        Keyword::FirstColumn => {
            reveal_strlit(" ORDER BY 1");
        },
        Keyword::Zero => {
            reveal_strlit("0");
        },
        _ => {},
    }
}

proof fn lemma_words_are_free_2(keyword: Keyword, dialect: Dialect, c: char)
    requires
        is_mark(c),
        keyword is Rows || keyword is FetchNext || keyword is RowsOnly || keyword is InnerJoin || keyword is LeftJoin || keyword is On || keyword is InsertInto || keyword is Values || keyword is Update || keyword is SetColumns || keyword is DeleteFrom || keyword is UnionAll || keyword is And,
    ensures
        is_free_of(keyword.spec_text(dialect), c),
{
    match keyword {
        Keyword::Rows => {
            reveal_strlit(" ROWS");
        },
        Keyword::FetchNext => {
            reveal_strlit(" FETCH NEXT ");
        },
        Keyword::RowsOnly => {
            reveal_strlit(" ROWS ONLY");
        },
        Keyword::InnerJoin => {
            reveal_strlit(" INNER JOIN ");
        },
        Keyword::LeftJoin => {
            reveal_strlit(" LEFT JOIN ");
        },
        Keyword::On => {
            reveal_strlit(" ON ");
        },
        Keyword::InsertInto => {
            reveal_strlit("INSERT INTO ");
        },
        Keyword::Values => {
            reveal_strlit(" VALUES ");
        },
        Keyword::Update => {
            reveal_strlit("UPDATE ");
        },
        Keyword::SetColumns => {
            reveal_strlit(" SET ");
        },
        Keyword::DeleteFrom => {
            reveal_strlit("DELETE FROM ");
        },
        Keyword::UnionAll => {
            reveal_strlit(" UNION ALL ");
        },
        Keyword::And => {
            reveal_strlit(" AND ");
        },
        _ => {},
    }
}

proof fn lemma_words_are_free_3(keyword: Keyword, dialect: Dialect, c: char)
    requires
        is_mark(c),
        keyword is Or || keyword is Not || keyword is Open || keyword is Close || keyword is Comma || keyword is Dot || keyword is As || keyword is Space || keyword is Equals || keyword is NotEquals || keyword is LessThan || keyword is LessThanOrEquals || keyword is GreaterThan,
    ensures
        is_free_of(keyword.spec_text(dialect), c),
{
    match keyword {
        Keyword::Or => {
            reveal_strlit(" OR ");
        },
        Keyword::Not => {
            reveal_strlit("NOT ");
        },
        Keyword::Open => {
            reveal_strlit("(");
        },
        Keyword::Close => {
            reveal_strlit(")");
        },
        Keyword::Comma => {
            reveal_strlit(", ");
        },
        Keyword::Dot => {
            reveal_strlit(".");
        },
        Keyword::As => {
            reveal_strlit(" AS ");
        },
        Keyword::Space => {
            reveal_strlit(" ");
        },
        Keyword::Equals => {
            reveal_strlit(" = ");
        },
        Keyword::NotEquals => {
            reveal_strlit(" <> ");
        },
        Keyword::LessThan => {
            reveal_strlit(" < ");
        },
        Keyword::LessThanOrEquals => {
            reveal_strlit(" <= ");
        },
        Keyword::GreaterThan => {
            reveal_strlit(" > ");
        },
        _ => {},
    }
}

proof fn lemma_words_are_free_4(keyword: Keyword, dialect: Dialect, c: char)
    requires
        is_mark(c),
        keyword is GreaterThanOrEquals || keyword is Like || keyword is NotLike || keyword is In || keyword is NotIn || keyword is IsNull || keyword is IsNotNull || keyword is Between || keyword is NotBetween,
    ensures
        is_free_of(keyword.spec_text(dialect), c),
{
    match keyword {
        Keyword::GreaterThanOrEquals => {
            reveal_strlit(" >= ");
        },
        Keyword::Like => {
            reveal_strlit(" LIKE ");
        },
        Keyword::NotLike => {
            reveal_strlit(" NOT LIKE ");
        },
        Keyword::In => {
            reveal_strlit(" IN ");
        },
        Keyword::NotIn => {
            reveal_strlit(" NOT IN ");
        },
        Keyword::IsNull => {
            reveal_strlit(" IS NULL");
        },
        Keyword::IsNotNull => {
            reveal_strlit(" IS NOT NULL");
        },
        Keyword::Between => {
            reveal_strlit(" BETWEEN ");
        },
        Keyword::NotBetween => {
            reveal_strlit(" NOT BETWEEN ");
        },
        _ => {},
    }
}

proof fn lemma_words_are_free_of_dialect(keyword: Keyword, dialect: Dialect, c: char)
    requires
        is_mark(c),
        keyword is True || keyword is False || keyword is NoLimit || keyword is DefaultValues,
    ensures
        is_free_of(keyword.spec_text(dialect), c),
{
    match keyword {
        Keyword::True => {
            reveal_strlit("TRUE");
            reveal_strlit("TRUE");
            reveal_strlit("1");
            reveal_strlit("1=1");
        },
        Keyword::False => {
            reveal_strlit("FALSE");
            reveal_strlit("FALSE");
            reveal_strlit("0");
            reveal_strlit("1=0");
        },
        Keyword::NoLimit => {
            reveal_strlit(" LIMIT 18446744073709551615");
            reveal_strlit("");
            reveal_strlit(" LIMIT -1");
            reveal_strlit("");
        },
        Keyword::DefaultValues => {
            reveal_strlit(" () VALUES ()");
            reveal_strlit(" DEFAULT VALUES");
            reveal_strlit(" DEFAULT VALUES");
            reveal_strlit(" DEFAULT VALUES");
        },
        _ => {},
    }
}

/// No word of the grammar holds the mark of a dialect.
pub proof fn lemma_word_is_free(keyword: Keyword, dialect: Dialect, c: char)
    requires
        is_mark(c),
    ensures
        is_free_of(keyword.spec_text(dialect), c),
{
    if keyword is Select || keyword is Star || keyword is From || keyword is Where || keyword is GroupBy || keyword is Having || keyword is OrderBy || keyword is Ascending || keyword is Descending || keyword is Limit || keyword is Offset || keyword is FirstColumn || keyword is Zero {
        lemma_words_are_free_1(keyword, dialect, c);
    }     else if keyword is Rows || keyword is FetchNext || keyword is RowsOnly || keyword is InnerJoin || keyword is LeftJoin || keyword is On || keyword is InsertInto || keyword is Values || keyword is Update || keyword is SetColumns || keyword is DeleteFrom || keyword is UnionAll || keyword is And {
        lemma_words_are_free_2(keyword, dialect, c);
    }     else if keyword is Or || keyword is Not || keyword is Open || keyword is Close || keyword is Comma || keyword is Dot || keyword is As || keyword is Space || keyword is Equals || keyword is NotEquals || keyword is LessThan || keyword is LessThanOrEquals || keyword is GreaterThan {
        lemma_words_are_free_3(keyword, dialect, c);
    }     else if keyword is GreaterThanOrEquals || keyword is Like || keyword is NotLike || keyword is In || keyword is NotIn || keyword is IsNull || keyword is IsNotNull || keyword is Between || keyword is NotBetween {
        lemma_words_are_free_4(keyword, dialect, c);
    } else {
        lemma_words_are_free_of_dialect(keyword, dialect, c);
    }
}

/// A placeholder holds the mark of its dialect once.
pub proof fn lemma_placeholder_is_marked_once(dialect: Dialect, ordinal: nat)
    ensures
        occurrences(dialect.spec_placeholder(ordinal), dialect.spec_mark()) == 1,
{
    broadcast use lemma_occurrences_concat;

    let mark = dialect.spec_mark();
    lemma_decimal_is_free(ordinal, mark);
    lemma_free_text_has_none(spec_decimal(ordinal), mark);
    assert(occurrences(Seq::<char>::empty(), mark) == 0);
    assert(occurrences(seq![mark], mark) == 1) by {
        assert(seq![mark].drop_last() == Seq::<char>::empty());
    }
    assert(occurrences(seq!['@', 'P'], '@') == 1) by {
        assert(seq!['@', 'P'].drop_last() == seq!['@']);
        assert(seq!['@'].drop_last() == Seq::<char>::empty());
        assert(occurrences(Seq::<char>::empty(), '@') == 0);
        assert(occurrences(seq!['@'], '@') == 1);
    }
}

/// A quoted name holds no mark that the name does not hold.
pub proof fn lemma_quoted_is_free(dialect: Dialect, name: Seq<char>, c: char)
    requires
        is_mark(c),
        is_free_of(name, c),
    ensures
        is_free_of(dialect.spec_quote(name), c),
{
    lemma_escape_is_free(name, dialect.spec_quote_close(), c);
}

/// The text of the tokens holds the mark once for each placeholder.
pub proof fn lemma_marks_are_placeholders(tokens: Seq<Token>, dialect: Dialect)
    requires
        names_are_free_of(tokens, dialect.spec_mark()),
    ensures
        occurrences(render(tokens, dialect), dialect.spec_mark()) == placeholders(tokens),
    decreases tokens.len(),
{
    broadcast use lemma_occurrences_concat;

    if tokens.len() > 0 {
        let mark = dialect.spec_mark();
        let rest = tokens.drop_last();
        let last = tokens.last();
        assert forall|i: int| 0 <= i < rest.len() implies match #[trigger] rest[i] {
            Token::Ident(name) => is_free_of(name, mark),
            Token::Raw(sql) => is_free_of(sql, mark),
            _ => true,
        } by {
            assert(rest[i] == tokens[i]);
        }
        lemma_marks_are_placeholders(rest, dialect);
        assert(last == tokens[tokens.len() - 1]);
        let ordinal = binds(rest).len() + 1;
        match last {
            Token::Word(k) => {
                lemma_word_is_free(k, dialect, mark);
                lemma_free_text_has_none(k.spec_text(dialect), mark);
            },
            Token::Ident(name) => {
                lemma_quoted_is_free(dialect, name, mark);
                lemma_free_text_has_none(dialect.spec_quote(name), mark);
            },
            Token::Raw(sql) => {
                lemma_free_text_has_none(sql, mark);
            },
            Token::Bind(_) => {
                lemma_placeholder_is_marked_once(dialect, ordinal);
            },
        }
    }
}

} // verus!
