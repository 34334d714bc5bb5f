use vstd::prelude::*;

use crate::values::{Column, DataBlock, Value};

verus! {

/// Keeps alive the memory arenas that the cells of a hash table point into.
#[derive(Debug)]
pub struct ArenaHolder<A> {
    values: Vec<A>,
}

impl<A> ArenaHolder<A> {
    /// The arenas held.
    pub closed spec fn spec_values(&self) -> Seq<A> {
        self.values@
    }

    /// A holder of `area`, if there is one.
    pub fn create(area: Option<A>) -> (r: Self)
        ensures
            r.spec_values() == (match area {
                Some(a) => seq![a],
                None => Seq::<A>::empty(),
            }),
    {
        let mut values: Vec<A> = Vec::new();
        match area {
            Some(a) => values.push(a),
            None => {},
        }
        ArenaHolder { values }
    }
}

/// The aggregation hash table of a bucket, with the arenas its cells use.
pub struct HashTablePayload<Cell, A> {
    pub bucket: isize,
    pub cell: Cell,
    pub arena_holder: ArenaHolder<A>,
}

/// A bucket of aggregation states, serialized into a block whose last entry
/// holds the group-by keys.
pub struct SerializedPayload {
    pub bucket: isize,
    pub data_block: DataBlock,
}

/// Whether a block's last entry is a column.
pub open spec fn has_group_by_column(block: DataBlock) -> bool {
    block.columns@.len() > 0 && block.columns@.last().value is Column
}

impl SerializedPayload {
    /// The column of group-by keys: the last entry of the block.
    pub fn get_group_by_column(&self) -> (r: &Column)
        requires
            has_group_by_column(self.data_block),
        ensures
            self.data_block.columns@.last().value == Value::Column(*r),
    {
        let columns = self.data_block.columns();
        let entry = &columns[columns.len() - 1];
        match &entry.value {
            Value::Column(c) => c,
            Value::Scalar(_) => vstd::pervasive::unreached(),
        }
    }
}

/// A bucket that has been written to storage: where, and the sizes of its
/// columns in the written data.
#[derive(Debug)]
pub struct SpilledPayload {
    pub bucket: isize,
    pub location: String,
    pub columns_layout: Vec<usize>,
}

/// The metadata an aggregation passes along with a block.
pub enum AggregateMeta<Cell, A> {
    Serialized(SerializedPayload),
    HashTable(HashTablePayload<Cell, A>),
    Spilling(HashTablePayload<Cell, A>),
    Spilled(SpilledPayload),
    Partitioned { bucket: isize, data: Vec<AggregateMeta<Cell, A>> },
}

impl<Cell, A> AggregateMeta<Cell, A> {
    /// The hash table of `bucket`, to be merged.
    pub fn create_hashtable(bucket: isize, cell: Cell) -> (r: Box<Self>)
        ensures
            match *r {
                AggregateMeta::HashTable(p) => p.bucket == bucket && p.cell == cell
                    && p.arena_holder.spec_values() == Seq::<A>::empty(),
                _ => false,
            },
    {
        Box::new(
            AggregateMeta::HashTable(
                HashTablePayload { cell, bucket, arena_holder: ArenaHolder::create(None) },
            ),
        )
    }

    /// The serialized states of `bucket`.
    pub fn create_serialized(bucket: isize, block: DataBlock) -> (r: Box<Self>)
        ensures
            match *r {
                AggregateMeta::Serialized(p) => p.bucket == bucket && p.data_block == block,
                _ => false,
            },
    {
        Box::new(AggregateMeta::Serialized(SerializedPayload { bucket, data_block: block }))
    }

    /// The hash table of `bucket`, to be written to storage.
    pub fn create_spilling(bucket: isize, cell: Cell) -> (r: Box<Self>)
        ensures
            match *r {
                AggregateMeta::Spilling(p) => p.bucket == bucket && p.cell == cell
                    && p.arena_holder.spec_values() == Seq::<A>::empty(),
                _ => false,
            },
    {
        Box::new(
            AggregateMeta::Spilling(
                HashTablePayload { cell, bucket, arena_holder: ArenaHolder::create(None) },
            ),
        )
    }

    /// The bucket `bucket`, written to storage at `location`.
    pub fn create_spilled(bucket: isize, location: String, columns_layout: Vec<usize>) -> (r: Box<
        Self,
    >)
        ensures
            match *r {
                AggregateMeta::Spilled(p) => p.bucket == bucket && p.location == location
                    && p.columns_layout == columns_layout,
                _ => false,
            },
    {
        Box::new(AggregateMeta::Spilled(SpilledPayload { bucket, location, columns_layout }))
    }

    /// The parts of `bucket`, gathered.
    pub fn create_partitioned(bucket: isize, data: Vec<Self>) -> (r: Box<Self>)
        ensures
            match *r {
                AggregateMeta::Partitioned { bucket: b, data: d } => b == bucket && d == data,
                _ => false,
            },
    {
        Box::new(AggregateMeta::Partitioned { data, bucket })
    }

    /// The name under which the metadata is shown when debugging.
    pub fn to_debug_string(&self) -> (r: String)
        ensures
            r@ == (match *self {
                AggregateMeta::HashTable(_) => "AggregateMeta::HashTable"@,
                AggregateMeta::Partitioned { .. } => "AggregateMeta::Partitioned"@,
                AggregateMeta::Serialized(_) => "AggregateMeta::Serialized"@,
                AggregateMeta::Spilling(_) => "Aggregate::Spilling"@,
                AggregateMeta::Spilled(_) => "Aggregate::Spilled"@,
            }),
    {
        match self {
            AggregateMeta::HashTable(_) => String::from_str("AggregateMeta::HashTable"),
            AggregateMeta::Partitioned { .. } => String::from_str("AggregateMeta::Partitioned"),
            AggregateMeta::Serialized(_) => String::from_str("AggregateMeta::Serialized"),
            AggregateMeta::Spilling(_) => String::from_str("Aggregate::Spilling"),
            AggregateMeta::Spilled(_) => String::from_str("Aggregate::Spilled"),
        }
    }
}

} // verus!
