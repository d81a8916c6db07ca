//! What the adapter reports of a native call, as plain values.

use vstd::prelude::*;
use crate::text::{integer_text, signed_decimal_of};
use crate::types::CellModel;

verus! {

/// The step of a native call at which an engine reported a failure.
#[derive(Debug, Clone, Copy, PartialEq, Eq, Structural)]
pub enum Stage {
    /// Setting up the scheduler that drives an asynchronous client.
    Runtime,
    /// Interpreting the connection parameters.
    Config,
    /// Opening the file or completing the handshake.
    Connect,
    /// Checking a session out of the native pool.
    Checkout,
    /// Preparing a statement.
    Prepare,
    /// Running a statement.
    Run,
}

/// A failure of a native call: where it happened and the engine's own
/// message.
#[derive(Debug)]
pub struct NativeError {
    pub stage: Stage,
    pub message: String,
}

pub struct NativeErrorModel {
    pub stage: Stage,
    pub message: Seq<char>,
}

impl View for NativeError {
    type V = NativeErrorModel;

    open spec fn view(&self) -> NativeErrorModel {
        NativeErrorModel { stage: self.stage, message: self.message@ }
    }
}

/// A value of a native row, as far as the layer reads it.
#[derive(Debug)]
pub enum NativeValue {
    /// The engine's null.
    Null,
    /// A whole number.
    Integer(i64),
    /// A floating-point number, in the decimal rendering that the adapter
    /// made of it.
    Real(String),
    /// A text.
    Text(String),
    /// Bytes, or a value that the native client could not hand over.
    Opaque,
}

pub enum NativeValueModel {
    Null,
    Integer(i64),
    Real(Seq<char>),
    Text(Seq<char>),
    Opaque,
}

impl View for NativeValue {
    type V = NativeValueModel;

    open spec fn view(&self) -> NativeValueModel {
        match self {
            NativeValue::Null => NativeValueModel::Null,
            NativeValue::Integer(n) => NativeValueModel::Integer(*n),
            NativeValue::Real(rendering) => NativeValueModel::Real(rendering@),
            NativeValue::Text(text) => NativeValueModel::Text(text@),
            NativeValue::Opaque => NativeValueModel::Opaque,
        }
    }
}

impl DeepView for NativeValue {
    type V = NativeValueModel;

    open spec fn deep_view(&self) -> NativeValueModel {
        self@
    }
}

/// The cell that a native value becomes: every value is rendered as text,
/// a whole number in decimal; null stays null, and what cannot be read as
/// text is null too.
pub open spec fn cell_model(value: NativeValueModel) -> CellModel {
    match value {
        NativeValueModel::Null => None,
        NativeValueModel::Integer(n) => Some(signed_decimal_of(n as int)),
        NativeValueModel::Real(rendering) => Some(rendering),
        NativeValueModel::Text(text) => Some(text),
        NativeValueModel::Opaque => None,
    }
}

/// Renders a native value as a cell.
pub fn rendered_cell(value: &NativeValue) -> (cell: Option<String>)
    ensures
        cell.deep_view() == cell_model(value@),
{
    match value {
        NativeValue::Null => None,
        NativeValue::Integer(n) => Some(integer_text(*n)),
        NativeValue::Real(rendering) => Some(rendering.clone()),
        NativeValue::Text(text) => Some(text.clone()),
        NativeValue::Opaque => None,
    }
}

/// What an engine handed back for a read statement: the names of the
/// columns, and the values of each row.
#[derive(Debug)]
pub struct RowSet {
    pub columns: Vec<String>,
    pub rows: Vec<Vec<NativeValue>>,
}

pub struct RowSetModel {
    pub columns: Seq<Seq<char>>,
    pub rows: Seq<Seq<NativeValueModel>>,
}

impl View for RowSet {
    type V = RowSetModel;

    open spec fn view(&self) -> RowSetModel {
        RowSetModel { columns: self.columns.deep_view(), rows: self.rows.deep_view() }
    }
}

/// What an engine accounted for a write statement. `last_insert_id` is the
/// number that the native client reports, whatever it means to the engine.
#[derive(Debug, Clone, Copy, PartialEq, Eq, Structural)]
pub struct WriteOutcome {
    pub rows_affected: u64,
    pub last_insert_id: i64,
}

/// The outcome of a native read.
pub type ReadModel = Result<RowSetModel, NativeErrorModel>;

/// The outcome of a native write.
pub type WriteModel = Result<WriteOutcome, NativeErrorModel>;

/// The view of the outcome of a native read.
pub open spec fn read_model(outcome: Result<RowSet, NativeError>) -> ReadModel {
    match outcome {
        Ok(set) => Ok(set@),
        Err(error) => Err(error@),
    }
}

/// The view of the outcome of a native write.
pub open spec fn write_model(outcome: Result<WriteOutcome, NativeError>) -> WriteModel {
    match outcome {
        Ok(done) => Ok(done),
        Err(error) => Err(error@),
    }
}

} // verus!
