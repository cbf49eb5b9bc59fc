//! Statements for the store.
//!
//! Every statement is a fixed text with numbered placeholders and a list of
//! values bound to them. No input ever becomes part of a statement's text:
//! the field is a `&'static str`, and each contract names the constant it
//! holds.

use vstd::prelude::*;

verus! {

/// A date and a time of day, without a time zone. A leap second is the
/// second 59 with a nanosecond of a billion or more.
#[derive(Clone, Copy, Debug, PartialEq, Eq, Structural)]
pub struct Timestamp {
    pub year: i32,
    pub month: u32,
    pub day: u32,
    pub hour: u32,
    pub minute: u32,
    pub second: u32,
    pub nanosecond: u32,
}

/// A value bound to a placeholder.
#[derive(Clone, Debug, PartialEq, Eq)]
pub enum Param {
    Int(i64),
    Text(String),
    Flag(bool),
    Time(Timestamp),
}

/// A bound value, with a text as its characters.
pub enum ParamView {
    Int(i64),
    Text(Seq<char>),
    Flag(bool),
    Time(Timestamp),
}

impl View for Param {
    type V = ParamView;

    open spec fn view(&self) -> ParamView {
        match self {
            Param::Int(i) => ParamView::Int(*i),
            Param::Text(s) => ParamView::Text(s@),
            Param::Flag(b) => ParamView::Flag(*b),
            Param::Time(t) => ParamView::Time(*t),
        }
    }
}

/// A statement: its text, and the values for `$1`, `$2` and so on.
#[derive(Clone, Debug, PartialEq, Eq)]
pub struct Statement {
    pub text: &'static str,
    pub params: Vec<Param>,
}

/// A statement, with its text and its values as sequences.
pub struct StatementView {
    pub text: Seq<char>,
    pub params: Seq<ParamView>,
}

impl View for Statement {
    type V = StatementView;

    open spec fn view(&self) -> StatementView {
        StatementView { text: self.text@, params: self.params@.map_values(|p: Param| p@) }
    }
}

/// The statement with text `text` and the values `params`.
pub open spec fn statement(text: &'static str, params: Seq<ParamView>) -> StatementView {
    StatementView { text: text@, params }
}

impl Statement {
    /// A statement without values.
    pub fn new(text: &'static str) -> (r: Statement)
        ensures
            r@ == statement(text, seq![]),
    {
        let r = Statement { text, params: Vec::new() };
        assert(r@.params =~= seq![]);
        r
    }

    /// Binds an integer to the next placeholder.
    pub fn with_int(self, value: i64) -> (r: Statement)
        ensures
            r@ == (StatementView { text: self@.text, params: self@.params.push(ParamView::Int(value)) }),
    {
        self.bind(Param::Int(value))
    }

    /// Binds a text to the next placeholder.
    pub fn with_text(self, value: &str) -> (r: Statement)
        ensures
            r@ == (StatementView { text: self@.text, params: self@.params.push(ParamView::Text(value@)) }),
    {
        self.bind(Param::Text(value.to_owned()))
    }

    /// Binds a boolean to the next placeholder.
    pub fn with_flag(self, value: bool) -> (r: Statement)
        ensures
            r@ == (StatementView { text: self@.text, params: self@.params.push(ParamView::Flag(value)) }),
    {
        self.bind(Param::Flag(value))
    }

    /// Binds a timestamp to the next placeholder.
    pub fn with_time(self, value: Timestamp) -> (r: Statement)
        ensures
            r@ == (StatementView { text: self@.text, params: self@.params.push(ParamView::Time(value)) }),
    {
        self.bind(Param::Time(value))
    }

    /// Binds a value to the next placeholder.
    pub fn bind(self, value: Param) -> (r: Statement)
        ensures
            r@ == (StatementView { text: self@.text, params: self@.params.push(value@) }),
    {
        let mut params = self.params;
        params.push(value);
        let r = Statement { text: self.text, params };
        assert(r@.params =~= self@.params.push(value@));
        r
    }
}

} // verus!
