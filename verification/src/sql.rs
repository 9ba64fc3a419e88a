//! A SQL statement under construction: literal SQL text interleaved with bound
//! parameters, in the order a query builder receives them.

use vstd::prelude::*;

verus! {

/// A point in time as seconds since the Unix epoch and the nanoseconds within that second.
#[derive(Clone, Copy, PartialEq, Eq, Structural, Debug)]
pub struct Timestamp {
    pub secs: i64,
    pub nanos: u32,
}

/// A value bound to a statement parameter.
#[derive(Clone, Debug, PartialEq)]
pub enum BindValue {
    Bool(bool),
    Text(String),
    TextList(Vec<String>),
    Timestamp(Timestamp),
    Uuid(u128),
    Int(i64),
}

/// The mathematical value of a [`BindValue`].
pub enum BindView {
    Bool(bool),
    Text(Seq<char>),
    TextList(Seq<Seq<char>>),
    Timestamp(Timestamp),
    Uuid(u128),
    Int(i64),
}

/// The texts of a list of strings.
pub open spec fn texts_view(v: Seq<String>) -> Seq<Seq<char>> {
    v.map_values(|s: String| s@)
}

impl View for BindValue {
    type V = BindView;

    open spec fn view(&self) -> BindView {
        match self {
            BindValue::Bool(b) => BindView::Bool(*b),
            BindValue::Text(s) => BindView::Text(s@),
            BindValue::TextList(v) => BindView::TextList(texts_view(v@)),
            BindValue::Timestamp(t) => BindView::Timestamp(*t),
            BindValue::Uuid(u) => BindView::Uuid(*u),
            BindValue::Int(i) => BindView::Int(*i),
        }
    }
}

/// One step of statement construction: literal SQL, or a bound parameter.
#[derive(Clone, Debug, PartialEq)]
pub enum SqlPart {
    Sql(String),
    Bind(BindValue),
}

/// The mathematical value of a [`SqlPart`].
pub enum PartView {
    Sql(Seq<char>),
    Bind(BindView),
}

impl View for SqlPart {
    type V = PartView;

    open spec fn view(&self) -> PartView {
        match self {
            SqlPart::Sql(s) => PartView::Sql(s@),
            SqlPart::Bind(b) => PartView::Bind(b@),
        }
    }
}

/// Literal SQL text as a part.
pub open spec fn sql(s: Seq<char>) -> PartView {
    PartView::Sql(s)
}

/// A bound text parameter as a part.
pub open spec fn bind_text(s: Seq<char>) -> PartView {
    PartView::Bind(BindView::Text(s))
}

/// A statement under construction, as the ordered list of its parts.
pub struct SqlBuilder {
    pub parts: Vec<SqlPart>,
}

impl View for SqlBuilder {
    type V = Seq<PartView>;

    open spec fn view(&self) -> Seq<PartView> {
        self.parts@.map_values(|p: SqlPart| p@)
    }
}

impl SqlBuilder {
    /// A statement that starts with the given SQL text.
    pub fn new(initial: &str) -> (b: SqlBuilder)
        ensures
            b@ == seq![sql(initial@)],
    {
        let mut parts: Vec<SqlPart> = Vec::new();
        parts.push(SqlPart::Sql(initial.to_string()));
        let b = SqlBuilder { parts };
        assert(b@ =~= seq![sql(initial@)]);
        b
    }

    /// Appends literal SQL text.
    pub fn push(&mut self, s: &str)
        ensures
            final(self)@ == old(self)@.push(sql(s@)),
    {
        self.parts.push(SqlPart::Sql(s.to_string()));
        assert(final(self)@ =~= old(self)@.push(sql(s@)));
    }

    /// Appends a bound parameter.
    pub fn push_bind(&mut self, v: BindValue)
        ensures
            final(self)@ == old(self)@.push(PartView::Bind(v@)),
    {
        let ghost vv = v@;
        self.parts.push(SqlPart::Bind(v));
        assert(final(self)@ =~= old(self)@.push(PartView::Bind(vv)));
    }
}

} // verus!
