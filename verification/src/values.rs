use vstd::prelude::*;

verus! {

/// A single value of a column.
#[derive(Debug, Clone, PartialEq, Eq)]
pub enum Scalar {
    Null,
    Boolean(bool),
    Number(i64),
    String(Vec<u8>),
    Timestamp(i64),
    /// A date, as its number of days from 1970-01-01.
    Date(i32),
}

/// A column of values of one type.
#[derive(Debug, Clone, PartialEq, Eq)]
pub enum Column {
    Null { len: usize },
    Boolean(Vec<bool>),
    Number(Vec<i64>),
    String(Vec<Vec<u8>>),
    Timestamp(Vec<i64>),
    /// Dates, each as its number of days from 1970-01-01.
    Date(Vec<i32>),
}

/// The contents of a block entry: one value for every row, or a column.
#[derive(Debug, Clone, PartialEq, Eq)]
pub enum Value {
    Scalar(Scalar),
    Column(Column),
}

/// One column of a block.
#[derive(Debug, Clone, PartialEq, Eq)]
pub struct BlockEntry {
    pub value: Value,
}

/// A block of rows, held column by column.
#[derive(Debug, Clone, PartialEq, Eq)]
pub struct DataBlock {
    pub columns: Vec<BlockEntry>,
    pub num_rows: usize,
}

impl DataBlock {
    /// The entries of the block.
    pub fn columns(&self) -> (r: &Vec<BlockEntry>)
        ensures
            r@ == self.columns@,
    {
        &self.columns
    }
}

} // verus!
