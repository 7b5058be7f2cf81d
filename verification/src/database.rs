//! What passes between the server and its database: statements one way, rows the other.
use vstd::prelude::*;

verus! {

/// A statement of fixed text with its parameters.
#[derive(Debug)]
pub struct Statement {
    pub sql: &'static str,
    pub params: Vec<String>,
}

/// A statement, by its text and those of its parameters.
#[verifier::ext_equal]
pub struct StatementView {
    pub sql: Seq<char>,
    pub params: Seq<Seq<char>>,
}

impl View for Statement {
    type V = StatementView;

    open spec fn view(&self) -> StatementView {
        StatementView { sql: self.sql@, params: self.params@.map_values(|p: String| p@) }
    }
}

/// A statement without parameters.
pub fn statement(sql: &'static str) -> (s: Statement)
    ensures
        s@ == (StatementView { sql: sql@, params: Seq::empty() }),
{
    let s = Statement { sql, params: Vec::new() };
    assert(s@.params =~= Seq::empty());
    s
}

/// A statement with one parameter.
pub fn statement_of_one(sql: &'static str, first: &String) -> (s: Statement)
    ensures
        s@ == (StatementView { sql: sql@, params: seq![first@] }),
{
    let mut params: Vec<String> = Vec::new();
    params.push(first.clone());
    let s = Statement { sql, params };
    assert(s@.params =~= seq![first@]);
    s
}

/// A statement with three parameters.
pub fn statement_of_three(
    sql: &'static str,
    first: &String,
    second: &String,
    third: &String,
) -> (s: Statement)
    ensures
        s@ == (StatementView { sql: sql@, params: seq![first@, second@, third@] }),
{
    let mut params: Vec<String> = Vec::new();
    params.push(first.clone());
    params.push(second.clone());
    params.push(third.clone());
    let s = Statement { sql, params };
    assert(s@.params =~= seq![first@, second@, third@]);
    s
}

/// One cell of a row: its column, and its text where it can be read as text.
#[derive(Debug)]
pub struct Cell {
    pub column: String,
    pub text: Option<String>,
}

/// A cell by its column and its text.
pub type CellView = (Seq<char>, Option<Seq<char>>);

impl View for Cell {
    type V = CellView;

    open spec fn view(&self) -> CellView {
        (
            self.column@,
            match self.text {
                Some(text) => Some(text@),
                None => None,
            },
        )
    }
}

/// A row that the database handed out.
#[derive(Debug)]
pub struct Row {
    pub cells: Vec<Cell>,
}

/// A row by its cells.
pub type RowView = Seq<CellView>;

impl View for Row {
    type V = RowView;

    open spec fn view(&self) -> RowView {
        self.cells@.map_values(|c: Cell| c@)
    }
}

/// The rows by their cells.
pub open spec fn rows_view(rows: Seq<Row>) -> Seq<RowView> {
    rows.map_values(|r: Row| r@)
}

/// The text in a column: that of the first cell of the column, where there is one and it can be
/// read as text.
pub open spec fn column_text(row: RowView, column: Seq<char>) -> Option<Seq<char>>
    decreases row.len(),
{
    if row.len() == 0 {
        None
    } else if row.first().0 == column {
        row.first().1
    } else {
        column_text(row.drop_first(), column)
    }
}

/// The text in a column, or `default` where there is none.
pub open spec fn text_or(row: RowView, column: Seq<char>, default: Seq<char>) -> Seq<char> {
    match column_text(row, column) {
        Some(text) => text,
        None => default,
    }
}

/// The text in a column, or the empty text where there is none.
pub open spec fn text_of(row: RowView, column: Seq<char>) -> Seq<char> {
    text_or(row, column, Seq::empty())
}

impl Row {
    /// Reads the text in a column, or `default` where there is none.
    pub fn text_or(&self, column: &str, default: &str) -> (text: String)
        ensures
            text@ == text_or(self@, column@, default@),
    {
        let wanted = column.to_string();
        let ghost all = self@;
        assert(all.skip(0) =~= all);
        for i in 0..self.cells.len()
            invariant
                all == self@,
                wanted@ == column@,
                column_text(all, column@) == column_text(all.skip(i as int), column@),
        {
            assert(all.skip(i as int).first() == self.cells@[i as int]@);
            assert(all.skip(i as int).drop_first() =~= all.skip(i + 1));
            if self.cells[i].column == wanted {
                return match &self.cells[i].text {
                    Some(text) => text.clone(),
                    None => default.to_string(),
                };
            }
        }
        default.to_string()
    }

    /// Reads the text in a column, or the empty text where there is none.
    pub fn text(&self, column: &str) -> (text: String)
        ensures
            text@ == text_of(self@, column@),
    {
        proof {
            reveal_strlit("");
            assert(""@ =~= Seq::<char>::empty());
        }
        self.text_or(column, "")
    }
}

/// What the server asks of the world around it while it works on a request.
#[derive(Debug)]
pub enum Request {
    /// A permit to use the database, of which there are few.
    Permit,
    /// The first row of a query, if it has one.
    FetchOptional(Statement),
    /// All rows of a query.
    FetchAll(Statement),
    /// A statement that changes rows.
    Execute(Statement),
}

/// What the server asks for, by its statement.
#[verifier::ext_equal]
pub enum RequestView {
    Permit,
    FetchOptional(StatementView),
    FetchAll(StatementView),
    Execute(StatementView),
}

impl View for Request {
    type V = RequestView;

    open spec fn view(&self) -> RequestView {
        match self {
            Request::Permit => RequestView::Permit,
            Request::FetchOptional(s) => RequestView::FetchOptional(s@),
            Request::FetchAll(s) => RequestView::FetchAll(s@),
            Request::Execute(s) => RequestView::Execute(s@),
        }
    }
}

/// What the world around the server answers.
#[derive(Debug)]
pub enum Answer {
    /// The permit was granted.
    Permit,
    /// The first row of a query, if it has one.
    Row(Option<Row>),
    /// All rows of a query.
    Rows(Vec<Row>),
    /// The number of rows that a statement changed.
    Changed(u64),
    /// What was asked for failed.
    Failed,
}

/// What is answered, by its rows.
#[verifier::ext_equal]
pub enum AnswerView {
    Permit,
    Row(Option<RowView>),
    Rows(Seq<RowView>),
    Changed(u64),
    Failed,
}

impl View for Answer {
    type V = AnswerView;

    open spec fn view(&self) -> AnswerView {
        match self {
            Answer::Permit => AnswerView::Permit,
            Answer::Row(Some(row)) => AnswerView::Row(Some(row@)),
            Answer::Row(None) => AnswerView::Row(None),
            Answer::Rows(rows) => AnswerView::Rows(rows_view(rows@)),
            Answer::Changed(n) => AnswerView::Changed(*n),
            Answer::Failed => AnswerView::Failed,
        }
    }
}

} // verus!
