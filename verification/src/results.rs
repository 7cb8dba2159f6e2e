//! Query results as the shell shows them: a table of cells, or an error.

use crate::text::{
    decimal, hex_joined, push_decimal, push_hex_joined, push_signed_decimal, signed_decimal,
};
use vstd::prelude::*;
use vstd::string::StringExecFns;

verus! {

/// The number of bytes of a blob that are shown.
pub const BLOB_PREVIEW: usize = 16;

/// One cell of a result. A real number is held as its decimal text.
#[derive(Debug, Clone)]
pub enum ValueWrapper {
    Null,
    Integer(i64),
    Real(String),
    Text(String),
    Blob(Vec<u8>),
}

/// The text a blob is shown as: the hexadecimal numerals of its first
/// sixteen bytes, and its size where it has more.
pub open spec fn blob_text(bytes: Seq<u8>) -> Seq<char> {
    if bytes.len() > BLOB_PREVIEW {
        hex_joined(bytes.take(BLOB_PREVIEW as int)) + " … ("@ + decimal(bytes.len()) + " bytes)"@
    } else {
        hex_joined(bytes)
    }
}

/// A `ValueWrapper` with its text as characters and its blob as a sequence of bytes.
pub enum ValueWrapperView {
    Null,
    Integer(i64),
    Real(Seq<char>),
    Text(Seq<char>),
    Blob(Seq<u8>),
}

impl View for ValueWrapper {
    type V = ValueWrapperView;

    open spec fn view(&self) -> ValueWrapperView {
        match self {
            ValueWrapper::Null => ValueWrapperView::Null,
            ValueWrapper::Integer(i) => ValueWrapperView::Integer(*i),
            ValueWrapper::Real(x) => ValueWrapperView::Real(x@),
            ValueWrapper::Text(s) => ValueWrapperView::Text(s@),
            ValueWrapper::Blob(bytes) => ValueWrapperView::Blob(bytes@),
        }
    }
}

impl ValueWrapperView {
    /// The text a cell is shown as: `NULL`, the decimal numeral of an
    /// integer, the text of a real number or of a text, or the preview of a
    /// blob.
    pub open spec fn text(self) -> Seq<char> {
        match self {
            ValueWrapperView::Null => "NULL"@,
            ValueWrapperView::Integer(i) => signed_decimal(i as int),
            ValueWrapperView::Real(x) => x,
            ValueWrapperView::Text(s) => s,
            ValueWrapperView::Blob(bytes) => blob_text(bytes),
        }
    }
}

impl ValueWrapper {
    /// Shows the cell.
    pub fn to_text(&self) -> (shown: String)
        ensures
            shown@ == self@.text(),
    {
        match self {
            ValueWrapper::Null => "NULL".to_owned(),
            ValueWrapper::Integer(i) => {
                let mut shown = String::new();
                push_signed_decimal(&mut shown, *i);
                shown
            },
            ValueWrapper::Real(x) => x.clone(),
            ValueWrapper::Text(s) => s.clone(),
            ValueWrapper::Blob(bytes) => {
                let mut shown = String::new();
                if bytes.len() > BLOB_PREVIEW {
                    push_hex_joined(&mut shown, bytes, BLOB_PREVIEW);
                    shown.append(" … (");
                    push_decimal(&mut shown, bytes.len() as u64);
                    shown.append(" bytes)");
                } else {
                    push_hex_joined(&mut shown, bytes, bytes.len());
                    assert(bytes@.take(bytes@.len() as int) == bytes@);
                }
                shown
            },
        }
    }
}

/// The rows that a query returned, under the names of their columns.
#[derive(Debug, Clone)]
pub struct Table {
    pub columns: Vec<String>,
    pub rows: Vec<Vec<ValueWrapper>>,
}

/// A `Table` with its columns and rows as sequences.
pub struct TableView {
    pub columns: Seq<Seq<char>>,
    pub rows: Seq<Seq<ValueWrapperView>>,
}

impl View for Table {
    type V = TableView;

    open spec fn view(&self) -> TableView {
        TableView {
            columns: self.columns@.map_values(|c: String| c@),
            rows: self.rows@.map_values(
                |row: Vec<ValueWrapper>| row@.map_values(|v: ValueWrapper| v@),
            ),
        }
    }
}

/// What a tab shows below its query.
#[derive(Debug, Clone)]
pub enum QueryResult {
    /// Nothing has been run, or the results were cleared.
    Empty,
    Table(Table),
    Error(String),
}

/// A `QueryResult` with its texts as characters.
pub enum QueryResultView {
    Empty,
    Table(TableView),
    Error(Seq<char>),
}

impl View for QueryResult {
    type V = QueryResultView;

    open spec fn view(&self) -> QueryResultView {
        match self {
            QueryResult::Empty => QueryResultView::Empty,
            QueryResult::Table(table) => QueryResultView::Table(table@),
            QueryResult::Error(message) => QueryResultView::Error(message@),
        }
    }
}

impl Default for QueryResult {
    fn default() -> (result: QueryResult)
        ensures
            result is Empty,
    {
        QueryResult::Empty
    }
}

} // verus!
