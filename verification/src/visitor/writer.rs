//! The output under construction: the text so far and the values bound so
//! far, kept in step with the tokens written.

use vstd::prelude::*;
use vstd::string::*;
use crate::value::Value;
use crate::visitor::dialect::Dialect;
use crate::visitor::token::{binds, render, Keyword, Token};

verus! {

/// The text and parameters of a statement as it is written, token by token.
pub struct SqlWriter {
    sql: String,
    params: Vec<Value>,
    dialect: Dialect,
    tokens: Ghost<Seq<Token>>,
}

impl SqlWriter {
    /// The tokens written so far.
    pub closed spec fn tokens(&self) -> Seq<Token> {
        self.tokens@
    }

    /// The dialect written for.
    pub closed spec fn dialect(&self) -> Dialect {
        self.dialect
    }

    /// The text is that of the tokens, and the parameters are the values the
    /// tokens bind, in their order.
    pub closed spec fn wf(&self) -> bool {
        &&& self.sql@ == render(self.tokens@, self.dialect)
        &&& self.params@ == binds(self.tokens@)
    }

    /// True when this writer is `before` with `tokens` written after what
    /// it held.
    pub open spec fn extends(&self, before: SqlWriter, tokens: Seq<Token>) -> bool {
        &&& self.wf()
        &&& self.dialect() == before.dialect()
        &&& self.tokens() =~= before.tokens() + tokens
    }

    pub fn new(dialect: Dialect) -> (w: SqlWriter)
        ensures
            w.wf(),
            w.dialect() == dialect,
            w.tokens() == Seq::<Token>::empty(),
    {
        SqlWriter { sql: String::new(), params: Vec::new(), dialect, tokens: Ghost(Seq::empty()) }
    }

    /// The dialect written for.
    pub fn speaks(&self) -> (d: Dialect)
        ensures
            d == self.dialect(),
    {
        self.dialect
    }

    /// Writes a keyword.
    pub fn word(&mut self, keyword: Keyword)
        requires
            old(self).wf(),
        ensures
            final(self).wf(),
            final(self).dialect() == old(self).dialect(),
            final(self).tokens() == old(self).tokens().push(Token::Word(keyword)),
    {
        self.sql.append(keyword.text(self.dialect));
        proof {
            let before = self.tokens@;
            self.tokens@ = before.push(Token::Word(keyword));
            assert(self.tokens@.drop_last() == before);
        }
    }

    /// Writes a name, quoted.
    pub fn ident(&mut self, name: &str)
        requires
            old(self).wf(),
        ensures
            final(self).wf(),
            final(self).dialect() == old(self).dialect(),
            final(self).tokens() == old(self).tokens().push(Token::Ident(name@)),
    {
        self.dialect.push_quoted(&mut self.sql, name);
        proof {
            let before = self.tokens@;
            self.tokens@ = before.push(Token::Ident(name@));
            assert(self.tokens@.drop_last() == before);
        }
    }

    /// Writes the caller's SQL text as it is.
    pub fn raw(&mut self, sql: &str)
        requires
            old(self).wf(),
        ensures
            final(self).wf(),
            final(self).dialect() == old(self).dialect(),
            final(self).tokens() == old(self).tokens().push(Token::Raw(sql@)),
    {
        self.sql.append(sql);
        proof {
            let before = self.tokens@;
            self.tokens@ = before.push(Token::Raw(sql@));
            assert(self.tokens@.drop_last() == before);
        }
    }

    /// Binds a value: appends it to the parameters and writes the
    /// placeholder of its position among them.
    pub fn bind(&mut self, value: Value)
        requires
            old(self).wf(),
        ensures
            final(self).wf(),
            final(self).dialect() == old(self).dialect(),
            final(self).tokens() == old(self).tokens().push(Token::Bind(value)),
    {
        let ghost bound = value;
        self.params.push(value);
        let ordinal = self.params.len();
        self.dialect.push_placeholder(&mut self.sql, ordinal);
        proof {
            let before = self.tokens@;
            self.tokens@ = before.push(Token::Bind(bound));
            assert(self.tokens@.drop_last() == before);
        }
    }

    /// The finished text and parameters.
    pub fn finish(self) -> (r: (String, Vec<Value>))
        requires
            self.wf(),
        ensures
            r.0@ == render(self.tokens(), self.dialect()),
            r.1@ == binds(self.tokens()),
    {
        (self.sql, self.params)
    }
}

} // verus!
