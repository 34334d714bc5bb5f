use databend_query::aggregate_meta::{AggregateMeta, ArenaHolder, SerializedPayload};
use databend_query::values::{BlockEntry, Column, DataBlock, Scalar, Value};

#[test]
fn arena_holder_holds_what_it_is_given() {
    let _empty: ArenaHolder<u8> = ArenaHolder::create(None);
    let _one = ArenaHolder::create(Some(7u8));
}

#[test]
fn created_metas_carry_their_payloads() {
    let m = AggregateMeta::<u32, u8>::create_hashtable(3, 42);
    match *m {
        AggregateMeta::HashTable(ref p) => {
            assert_eq!(p.bucket, 3);
            assert_eq!(p.cell, 42);
        },
        _ => panic!("hash table"),
    }
    assert_eq!(m.to_debug_string(), "AggregateMeta::HashTable");

    let m = AggregateMeta::<u32, u8>::create_spilling(-1, 5);
    match *m {
        AggregateMeta::Spilling(ref p) => {
            assert_eq!(p.bucket, -1);
            assert_eq!(p.cell, 5);
        },
        _ => panic!("spilling"),
    }
    assert_eq!(m.to_debug_string(), "Aggregate::Spilling");

    let m = AggregateMeta::<u32, u8>::create_spilled(2, "spill/0".to_string(), vec![10, 20]);
    match *m {
        AggregateMeta::Spilled(ref p) => {
            assert_eq!(p.bucket, 2);
            assert_eq!(p.location, "spill/0");
            assert_eq!(p.columns_layout, vec![10, 20]);
        },
        _ => panic!("spilled"),
    }
    assert_eq!(m.to_debug_string(), "Aggregate::Spilled");

    let block = DataBlock { columns: vec![], num_rows: 0 };
    let m = AggregateMeta::<u32, u8>::create_serialized(1, block.clone());
    match *m {
        AggregateMeta::Serialized(ref p) => {
            assert_eq!(p.bucket, 1);
            assert_eq!(p.data_block, block);
        },
        _ => panic!("serialized"),
    }
    assert_eq!(m.to_debug_string(), "AggregateMeta::Serialized");

    let m = AggregateMeta::<u32, u8>::create_partitioned(4, vec![]);
    match *m {
        AggregateMeta::Partitioned { bucket, ref data } => {
            assert_eq!(bucket, 4);
            assert!(data.is_empty());
        },
        _ => panic!("partitioned"),
    }
    assert_eq!(m.to_debug_string(), "AggregateMeta::Partitioned");
}

#[test]
fn group_by_column_is_the_last_entry() {
    let block = DataBlock {
        columns: vec![
            BlockEntry { value: Value::Scalar(Scalar::Number(1)) },
            BlockEntry { value: Value::Column(Column::Number(vec![5, 6])) },
        ],
        num_rows: 2,
    };
    let payload = SerializedPayload { bucket: 0, data_block: block };
    assert_eq!(payload.get_group_by_column(), &Column::Number(vec![5, 6]));
}
