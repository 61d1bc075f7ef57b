use vstd::prelude::*;

verus! {

/// A value bound to a `?N` parameter of an SQL statement.
#[derive(Debug, Clone, PartialEq, Eq)]
pub enum SqlValue {
    Null,
    Integer(i64),
    Text(String),
}

/// What an `SqlValue` stands for.
pub enum SqlValueView {
    Null,
    Integer(i64),
    Text(Seq<char>),
}

impl View for SqlValue {
    type V = SqlValueView;

    open spec fn view(&self) -> SqlValueView {
        match self {
            SqlValue::Null => SqlValueView::Null,
            SqlValue::Integer(i) => SqlValueView::Integer(*i),
            SqlValue::Text(s) => SqlValueView::Text(s@),
        }
    }
}

/// An SQL statement with the values of its parameters, `params[k]` bound to
/// `?{k + 1}`.
#[derive(Debug, Clone, PartialEq, Eq)]
pub struct SqlStatement {
    pub sql: String,
    pub params: Vec<SqlValue>,
}

/// What an `SqlStatement` stands for.
pub struct StatementView {
    pub sql: Seq<char>,
    pub params: Seq<SqlValueView>,
}

pub open spec fn values_view(v: Seq<SqlValue>) -> Seq<SqlValueView> {
    v.map_values(|x: SqlValue| x@)
}

impl View for SqlStatement {
    type V = StatementView;

    open spec fn view(&self) -> StatementView {
        StatementView { sql: self.sql@, params: values_view(self.params@) }
    }
}

/// The view of a statement with the given text and parameters.
pub open spec fn stmt(sql: Seq<char>, params: Seq<SqlValueView>) -> StatementView {
    StatementView { sql, params }
}

pub open spec fn opt_int_view(o: Option<i64>) -> SqlValueView {
    match o {
        Some(i) => SqlValueView::Integer(i),
        None => SqlValueView::Null,
    }
}

pub open spec fn opt_text_view(o: Option<Seq<char>>) -> SqlValueView {
    match o {
        Some(s) => SqlValueView::Text(s),
        None => SqlValueView::Null,
    }
}

/// A text parameter holding a copy of `s`.
pub fn text_value(s: &String) -> (res: SqlValue)
    ensures
        res@ == SqlValueView::Text(s@),
{
    SqlValue::Text(s.clone())
}

/// An integer parameter, or NULL for `None`.
pub fn optional_integer(o: Option<i64>) -> (res: SqlValue)
    ensures
        res@ == opt_int_view(o),
{
    match o {
        Some(i) => SqlValue::Integer(i),
        None => SqlValue::Null,
    }
}

/// A text parameter, or NULL for `None`.
pub fn optional_text(o: &Option<String>) -> (res: SqlValue)
    ensures
        res@ == opt_text_view(o.deep_view()),
{
    match o {
        Some(s) => SqlValue::Text(s.clone()),
        None => SqlValue::Null,
    }
}

/// A statement with the text `sql` and no parameter.
pub fn statement0(sql: &str) -> (res: SqlStatement)
    ensures
        res@ == stmt(sql@, seq![]),
{
    let res = SqlStatement { sql: sql.to_owned(), params: Vec::new() };
    assert(values_view(res.params@) =~= seq![]);
    res
}

/// A statement with the text `sql` and one parameter.
pub fn statement1(sql: &str, a: SqlValue) -> (res: SqlStatement)
    ensures
        res@ == stmt(sql@, seq![a@]),
{
    let mut params: Vec<SqlValue> = Vec::new();
    params.push(a);
    let res = SqlStatement { sql: sql.to_owned(), params };
    assert(values_view(res.params@) =~= seq![a@]);
    res
}

/// A statement with the text `sql` and two parameters.
pub fn statement2(sql: &str, a: SqlValue, b: SqlValue) -> (res: SqlStatement)
    ensures
        res@ == stmt(sql@, seq![a@, b@]),
{
    let mut params: Vec<SqlValue> = Vec::new();
    params.push(a);
    params.push(b);
    let res = SqlStatement { sql: sql.to_owned(), params };
    assert(values_view(res.params@) =~= seq![a@, b@]);
    res
}

/// A statement with the text `sql` and the given parameters.
pub fn statement(sql: &str, params: Vec<SqlValue>) -> (res: SqlStatement)
    ensures
        res@ == stmt(sql@, values_view(params@)),
{
    SqlStatement { sql: sql.to_owned(), params }
}

} // verus!
