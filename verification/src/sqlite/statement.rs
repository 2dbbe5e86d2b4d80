//! Statements and the values that they are run with.
use vstd::prelude::*;

use crate::crypto::copy_bytes;

verus! {

/// A value that a statement is run with.
#[derive(Debug, PartialEq)]
pub enum SqlValue {
    Null,
    Integer(i64),
    /// A number that only fits into a column when it fits into 64 bits with a sign.
    Size(usize),
    Text(String),
    Blob(Vec<u8>),
}

pub ghost enum SqlValueView {
    Null,
    Integer(i64),
    Size(usize),
    Text(Seq<char>),
    Blob(Seq<u8>),
}

impl View for SqlValue {
    type V = SqlValueView;

    open spec fn view(&self) -> SqlValueView {
        match *self {
            SqlValue::Null => SqlValueView::Null,
            SqlValue::Integer(number) => SqlValueView::Integer(number),
            SqlValue::Size(size) => SqlValueView::Size(size),
            SqlValue::Text(text) => SqlValueView::Text(text@),
            SqlValue::Blob(bytes) => SqlValueView::Blob(bytes@),
        }
    }
}

/// A statement with the values of its parameters, in their order.
#[derive(Debug, PartialEq)]
pub struct Statement {
    pub sql: String,
    pub params: Vec<SqlValue>,
}

pub ghost struct StatementView {
    pub sql: Seq<char>,
    pub params: Seq<SqlValueView>,
}

impl View for Statement {
    type V = StatementView;

    open spec fn view(&self) -> StatementView {
        StatementView { sql: self.sql@, params: crate::domain_models::views(self.params@) }
    }
}

impl StatementView {
    /// The statement without parameters.
    pub open spec fn of(sql: Seq<char>) -> StatementView {
        StatementView { sql, params: Seq::empty() }
    }

    /// The statement with one more value behind the others.
    pub open spec fn with(self, value: SqlValueView) -> StatementView {
        StatementView { sql: self.sql, params: self.params.push(value) }
    }

    pub open spec fn text(self, text: Seq<char>) -> StatementView {
        self.with(SqlValueView::Text(text))
    }

    pub open spec fn integer(self, number: i64) -> StatementView {
        self.with(SqlValueView::Integer(number))
    }

    pub open spec fn size(self, size: usize) -> StatementView {
        self.with(SqlValueView::Size(size))
    }

    pub open spec fn blob(self, bytes: Seq<u8>) -> StatementView {
        self.with(SqlValueView::Blob(bytes))
    }

    /// The text, or NULL where there is none.
    pub open spec fn nullable_text(self, text: Option<Seq<char>>) -> StatementView {
        match text {
            Some(text) => self.text(text),
            None => self.with(SqlValueView::Null),
        }
    }
}

impl Statement {
    pub fn of(sql: &str) -> (r: Self)
        ensures
            r@ == StatementView::of(sql@),
    {
        let r = Statement { sql: sql.to_owned(), params: Vec::new() };
        assert(r@.params =~= Seq::empty());
        r
    }

    pub fn with(self, value: SqlValue) -> (r: Self)
        ensures
            r@ == self@.with(value@),
    {
        let Statement { sql, mut params } = self;
        let ghost before = params@;
        params.push(value);
        let r = Statement { sql, params };
        assert(r@.params =~= crate::domain_models::views(before).push(value@));
        r
    }

    pub fn text(self, text: &str) -> (r: Self)
        ensures
            r@ == self@.text(text@),
    {
        self.with(SqlValue::Text(text.to_owned()))
    }

    pub fn integer(self, number: i64) -> (r: Self)
        ensures
            r@ == self@.integer(number),
    {
        self.with(SqlValue::Integer(number))
    }

    pub fn size(self, size: usize) -> (r: Self)
        ensures
            r@ == self@.size(size),
    {
        self.with(SqlValue::Size(size))
    }

    pub fn blob(self, bytes: &Vec<u8>) -> (r: Self)
        ensures
            r@ == self@.blob(bytes@),
    {
        self.with(SqlValue::Blob(copy_bytes(bytes)))
    }

    pub fn nullable_text(self, text: Option<&String>) -> (r: Self)
        ensures
            r@ == self@.nullable_text(
                match text {
                    Some(text) => Some(text@),
                    None => None,
                },
            ),
    {
        match text {
            Some(text) => self.text(text.as_str()),
            None => self.with(SqlValue::Null),
        }
    }

    /// The statement alone.
    pub fn only(self) -> (r: Vec<Statement>)
        ensures
            crate::domain_models::views(r@) == seq![self@],
    {
        let r = vec![self];
        assert(crate::domain_models::views(r@) =~= seq![self@]);
        r
    }

    /// The statement and another one behind it.
    pub fn followed_by(self, second: Statement) -> (r: Vec<Statement>)
        ensures
            crate::domain_models::views(r@) == seq![self@, second@],
    {
        let r = vec![self, second];
        assert(r@ =~= seq![self, second]);
        assert(crate::domain_models::views(r@) =~= seq![self@, second@]);
        r
    }
}

} // verus!
