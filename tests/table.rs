use arrow::array::Array;
use arrow::array::StringArray;
use arrow::record_batch::RecordBatch;

use rs_kvpairs2rbat::entry::fold_name;
use rs_kvpairs2rbat::entry::select_entry;
use rs_kvpairs2rbat::entry::EntryKind;
use rs_kvpairs2rbat::error::StoreError;
use rs_kvpairs2rbat::kvs::SimpleFsKvStoreString;
use rs_kvpairs2rbat::pairs::PairsBuilder;
use rs_kvpairs2rbat::value::value_from_bytes;

fn store(max: u64) -> SimpleFsKvStoreString {
    SimpleFsKvStoreString::new("root".to_string(), max)
}

fn strings(v: &[&str]) -> Vec<String> {
    v.iter().map(|s| s.to_string()).collect()
}

fn column(b: &RecordBatch, i: usize) -> Vec<String> {
    let a = b.column(i).as_any().downcast_ref::<StringArray>().unwrap();
    (0..a.len()).map(|j| a.value(j).to_string()).collect()
}

fn resolve_all(bkt: &str, keys: &[&str], vals: &[&str]) -> PairsBuilder {
    let mut p = PairsBuilder::new(bkt.to_string(), strings(keys));
    let mut i = 0;
    while let Some(k) = p.next_key() {
        assert_eq!(k, keys[i]);
        p = p.accept::<StoreError>(Ok(vals[i].to_string())).unwrap();
        i += 1;
    }
    p
}

#[test]
fn schema_is_the_same_triple_every_call() {
    let s = store(1024);
    let a = s.schema();
    let b = s.schema();
    assert_eq!(a, b);
    let names: Vec<&str> = a.fields().iter().map(|f| f.name().as_str()).collect();
    assert_eq!(names, vec!["bucket", "key", "value"]);
    assert!(a.fields().iter().all(|f| !f.is_nullable()));
}

#[test]
fn two_keys_make_two_rows() {
    let s = store(1024);
    let p = resolve_all("alpha", &["k1", "k2"], &["v1", "v2"]);
    let b = s.bucket2batch(p).unwrap().batch;
    assert_eq!(b.num_rows(), 2);
    assert_eq!(b.num_columns(), 3);
    assert_eq!(column(&b, 0), strings(&["alpha", "alpha"]));
    assert_eq!(column(&b, 1), strings(&["k1", "k2"]));
    assert_eq!(column(&b, 2), strings(&["v1", "v2"]));
}

#[test]
fn rows_keep_key_order_and_repeat_bucket() {
    let s = store(1024);
    let p = resolve_all("/data/b", &["z", "a", "m"], &["1", "2", "3"]);
    let b = s.bucket2batch(p).unwrap().batch;
    assert_eq!(column(&b, 0), strings(&["/data/b", "/data/b", "/data/b"]));
    assert_eq!(column(&b, 1), strings(&["z", "a", "m"]));
    assert_eq!(column(&b, 2), strings(&["1", "2", "3"]));
}

#[test]
fn empty_bucket_gives_empty_table() {
    let s = store(1024);
    let p = PairsBuilder::new("empty".to_string(), Vec::new());
    assert!(p.next_key().is_none());
    let b = s.bucket2batch(p).unwrap().batch;
    assert_eq!(b.num_rows(), 0);
    assert_eq!(b.num_columns(), 3);
    assert_eq!(*b.schema(), *s.schema());
}

#[test]
fn batch_carries_the_store_schema() {
    let s = store(1024);
    let p = resolve_all("alpha", &["k1"], &["v1"]);
    let b = s.bucket2batch(p).unwrap().batch;
    assert_eq!(*b.schema(), *s.schema());
}

#[test]
fn ceiling_truncates_value() {
    let s = store(2);
    assert_eq!(s.val_from_bytes(b"hello".to_vec()), Ok("he".to_string()));
}

#[test]
fn value_within_ceiling_is_whole() {
    assert_eq!(value_from_bytes(b"v1".to_vec(), 1024), Ok("v1".to_string()));
    assert_eq!(value_from_bytes(b"abc".to_vec(), 3), Ok("abc".to_string()));
    assert_eq!(value_from_bytes(Vec::new(), 0), Ok(String::new()));
    assert_eq!(value_from_bytes(b"abc".to_vec(), 0), Ok(String::new()));
}

#[test]
fn truncated_value_never_exceeds_ceiling() {
    let text = "h\u{e9}llo w\u{f6}rld, \u{263a}\u{263a}";
    for max in 0..40u64 {
        if let Ok(v) = value_from_bytes(text.as_bytes().to_vec(), max) {
            assert!(v.len() as u64 <= max);
            assert!(text.starts_with(&v));
        }
    }
}

#[test]
fn ceiling_inside_a_character_is_invalid_text() {
    let bytes = "\u{e9}".as_bytes().to_vec();
    assert_eq!(value_from_bytes(bytes.clone(), 1), Err(StoreError::InvalidText));
    assert_eq!(value_from_bytes(bytes, 2), Ok("\u{e9}".to_string()));
    assert_eq!(value_from_bytes(vec![0xff, 0x41], 10), Err(StoreError::InvalidText));
}

#[test]
fn failed_resolution_aborts_conversion() {
    let p = PairsBuilder::new("alpha".to_string(), strings(&["k1", "k2"]));
    let p = p.accept::<std::io::Error>(Ok("v1".to_string())).unwrap();
    assert_eq!(p.next_key().map(|k| k.as_str()), Some("k2"));
    match p.accept(Err(std::io::Error::other("unable to open the file k2"))) {
        Err(got) => assert_eq!(got.to_string(), "unable to open the file k2"),
        Ok(_) => panic!("a failed key must end the conversion"),
    }
}

#[test]
fn entries_of_other_kinds_are_skipped() {
    assert_eq!(select_entry(EntryKind::File, EntryKind::Dir, Some("f".to_string())), None);
    assert_eq!(select_entry(EntryKind::Other, EntryKind::File, Some("l".to_string())), None);
    assert_eq!(
        select_entry(EntryKind::Dir, EntryKind::Dir, Some("root/alpha".to_string())),
        Some(Ok("root/alpha".to_string()))
    );
}

#[test]
fn undecodable_name_fails_that_entry() {
    assert_eq!(
        select_entry(EntryKind::File, EntryKind::File, None),
        Some(Err(StoreError::InvalidName))
    );
    assert_eq!(select_entry(EntryKind::Dir, EntryKind::File, None), None);
}

#[test]
fn fold_keeps_order_and_stops_at_first_error() {
    let v = fold_name::<StoreError>(Vec::new(), Ok("b".to_string())).unwrap();
    let v = fold_name::<StoreError>(v, Ok("a".to_string())).unwrap();
    assert_eq!(v, strings(&["b", "a"]));
    assert_eq!(fold_name(v, Err(StoreError::InvalidName)), Err(StoreError::InvalidName));
}

#[test]
fn bucket_column_repeats_bucket() {
    assert_eq!(SimpleFsKvStoreString::bucket2arr(&"x".to_string(), 3), strings(&["x", "x", "x"]));
    assert!(SimpleFsKvStoreString::bucket2arr(&"x".to_string(), 0).is_empty());
}

#[test]
fn resolved_values_make_the_table() {
    let s = store(1024);
    let outcomes: Vec<Result<String, StoreError>> = vec![Ok("v1".to_string()), Ok("v2".to_string())];
    let b = s
        .resolved2batch("alpha".to_string(), strings(&["k1", "k2"]), outcomes)
        .unwrap()
        .unwrap()
        .batch;
    assert_eq!(column(&b, 0), strings(&["alpha", "alpha"]));
    assert_eq!(column(&b, 1), strings(&["k1", "k2"]));
    assert_eq!(column(&b, 2), strings(&["v1", "v2"]));
}

#[test]
fn first_failed_resolution_is_reported() {
    let s = store(1024);
    let outcomes: Vec<Result<String, String>> = vec![
        Ok("v1".to_string()),
        Err("unable to open the file k2".to_string()),
        Err("unable to open the file k3".to_string()),
    ];
    match s.resolved2batch("alpha".to_string(), strings(&["k1", "k2", "k3"]), outcomes) {
        Err(e) => assert_eq!(e, "unable to open the file k2"),
        Ok(_) => panic!("a failed key must end the conversion"),
    }
}

#[test]
fn accept_all_records_every_value() {
    let p = PairsBuilder::new("b".to_string(), strings(&["x", "y"]));
    let p = p.accept::<StoreError>(Ok("1".to_string())).unwrap();
    let p = p.accept_all::<StoreError>(vec![Ok("2".to_string())]).unwrap();
    assert!(p.next_key().is_none());
    let b = store(8).bucket2batch(p).unwrap().batch;
    assert_eq!(column(&b, 2), strings(&["1", "2"]));
}
