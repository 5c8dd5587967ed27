use aiondb::hlc::HLCTimestamp;
use aiondb::identity::{NodeId, RowId};
use aiondb::interval::ValidInterval;
use aiondb::record::{Payload, Record, SchemaId};
use aiondb::store::{MemStore, Store};

fn record(row: (u64, u16), from: (u64, u16), to: (u64, u16)) -> Record {
    Record {
        row_id: RowId::new(HLCTimestamp::new(row.0, row.1), NodeId(1)),
        schema_id: SchemaId(1),
        valid_interval: ValidInterval::new(
            HLCTimestamp::new(from.0, from.1),
            HLCTimestamp::new(to.0, to.1),
        )
        .unwrap(),
        payload: Payload(vec![1, 2, 3, 4]),
    }
}

#[test]
fn test_insert_adds_records() {
    let mut store = MemStore::new();
    let r1 = Record {
        row_id: RowId::new(HLCTimestamp::new(1, 1), NodeId(1)),
        schema_id: SchemaId(1),
        valid_interval: ValidInterval::new(HLCTimestamp::new(1, 1), HLCTimestamp::new(2, 3))
            .unwrap(),
        payload: Payload(vec![1, 2, 3, 4]),
    };
    let r1_1 = r1.clone();

    store.insert(r1).unwrap();

    let result = store.query_as_of(HLCTimestamp::new(2, 1));

    let res = result
        .unwrap()
        .first()
        .expect("One record is expected")
        .clone();

    assert_eq!(*res, r1_1);
}

#[test]
fn test_query_as_of_returns_empty_result_when_timestamp_is_outside_the_interval() {
    let mut store = MemStore::new();
    let r1 = Record {
        row_id: RowId::new(HLCTimestamp::new(1, 1), NodeId(1)),
        schema_id: SchemaId(1),
        valid_interval: ValidInterval::new(HLCTimestamp::new(3, 1), HLCTimestamp::new(5, 3))
            .unwrap(),
        payload: Payload(vec![1, 2, 3, 4]),
    };

    store.insert(r1).unwrap();

    let result = store.query_as_of(HLCTimestamp::new(2, 1));
    let res = result.unwrap();

    assert!(res.is_empty());
}

#[test]
fn test_empty_store_returns_empty_results() {
    let store = MemStore::new();

    let result = store.query_as_of(HLCTimestamp::new(2, 1));
    let res = result.unwrap();

    assert!(res.is_empty());

    let result = store.query_range(&ValidInterval::open(HLCTimestamp::min_value()));
    let res = result.unwrap();

    assert!(res.is_empty());
}

#[test]
fn test_query_range_returns_matching_records() {
    let mut store = MemStore::new();
    let r1 = Record {
        row_id: RowId::new(HLCTimestamp::new(1, 1), NodeId(1)),
        schema_id: SchemaId(1),
        valid_interval: ValidInterval::new(HLCTimestamp::new(3, 1), HLCTimestamp::new(3, 2))
            .unwrap(),
        payload: Payload(vec![1, 2, 3, 4]),
    };
    let r2 = Record {
        row_id: RowId::new(HLCTimestamp::new(1, 2), NodeId(1)),
        schema_id: SchemaId(1),
        valid_interval: ValidInterval::new(HLCTimestamp::new(4, 1), HLCTimestamp::new(5, 3))
            .unwrap(),
        payload: Payload(vec![1, 2, 3, 4]),
    };
    let r2_2 = r2.clone();

    store.insert(r1).expect("cannot insert record");
    store.insert(r2).expect("cannot insert record");

    let result = store
        .query_range(&ValidInterval::open(HLCTimestamp::new(4, 0)))
        .unwrap();

    assert_eq!(result.len(), 1);

    let res = result.first().expect("Expected one record").clone();

    assert_eq!(*res, r2_2);
}

#[test]
fn queries_keep_insertion_order() {
    let mut store = MemStore::default();
    let a = record((1, 0), (1, 0), (9, 0));
    let b = record((2, 0), (5, 0), (6, 0));
    let c = record((3, 0), (0, 0), (7, 0));
    store.insert(a.clone()).unwrap();
    store.insert(b.clone()).unwrap();
    store.insert(c.clone()).unwrap();

    let at = store.query_as_of(HLCTimestamp::new(5, 5)).unwrap();
    let got: Vec<Record> = at.iter().map(|r| (**r).clone()).collect();
    assert_eq!(got, vec![a.clone(), b.clone(), c.clone()]);

    let at = store.query_as_of(HLCTimestamp::new(8, 0)).unwrap();
    let got: Vec<Record> = at.iter().map(|r| (**r).clone()).collect();
    assert_eq!(got, vec![a.clone()]);

    let window = ValidInterval::new(HLCTimestamp::new(6, 0), HLCTimestamp::new(7, 0)).unwrap();
    let during = store.query_range(&window).unwrap();
    let got: Vec<Record> = during.iter().map(|r| (**r).clone()).collect();
    assert_eq!(got, vec![a, c]);
}

#[test]
fn point_in_time_answers_are_within_range_answers() {
    let mut store = MemStore::new();
    store.insert(record((1, 0), (1, 0), (3, 0))).unwrap();
    store.insert(record((2, 0), (2, 0), (4, 0))).unwrap();
    let window = ValidInterval::new(HLCTimestamp::new(2, 5), HLCTimestamp::new(2, 9)).unwrap();
    let at = store.query_as_of(HLCTimestamp::new(2, 6)).unwrap();
    let during = store.query_range(&window).unwrap();
    for r in at.iter() {
        assert!(during.iter().any(|d| **d == **r));
    }
    assert_eq!(at.len(), 2);
}
