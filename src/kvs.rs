use std::sync::Arc;

use arrow::datatypes::Schema;
use arrow::error::ArrowError;

use vstd::prelude::*;

use crate::batch::batch_columns;
use crate::batch::batch_schema;
use crate::batch::column_bytes;
use crate::batch::fits_column;
use crate::batch::invalid_argument;
use crate::batch::schema_all_utf8;
use crate::batch::schema_field_names;
use crate::batch::texts;
use crate::batch::try_batch;
use crate::batch::KvBatch;
use crate::batch::MAX_COLUMN_BYTES;
use crate::error::StoreError;
use crate::pairs::PairsBuilder;
use crate::value::resolved_value;
use crate::value::value_from_bytes;

verus! {

/// A key-value store over a directory tree: the buckets are the directories
/// under `root_dir`, the keys of a bucket are the names of the regular files
/// in it, and a value is the text of such a file, of which no more than
/// `max_file_size` bytes are read.
pub struct SimpleFsKvStoreString {
    pub root_dir: String,
    pub max_file_size: u64,
}

/// The names of the three columns of every table: bucket, key and value.
pub open spec fn kv_field_names() -> Seq<Seq<char>> {
    seq!["bucket"@, "key"@, "value"@]
}

/// The columns of the table of one bucket: the bucket once per key, the keys
/// and the values.
pub open spec fn kv_columns(bucket: Seq<char>, keys: Seq<Seq<char>>, vals: Seq<Seq<char>>) -> Seq<
    Seq<Seq<char>>,
> {
    seq![Seq::new(keys.len(), |i: int| bucket), keys, vals]
}

/// Whether each column of the table of one bucket fits in a string array.
pub open spec fn kv_fits(bucket: Seq<char>, keys: Seq<Seq<char>>, vals: Seq<Seq<char>>) -> bool {
    &&& column_bytes(kv_columns(bucket, keys, vals)[0]) <= MAX_COLUMN_BYTES
    &&& column_bytes(keys) <= MAX_COLUMN_BYTES
    &&& column_bytes(vals) <= MAX_COLUMN_BYTES
}

impl SimpleFsKvStoreString {
    pub fn new(root_dir: String, max_file_size: u64) -> (r: SimpleFsKvStoreString)
        ensures
            r.root_dir == root_dir,
            r.max_file_size == max_file_size,
    {
        SimpleFsKvStoreString { root_dir, max_file_size }
    }

    /// The schema of every table this store makes: three non-null string
    /// columns named bucket, key and value.
    pub fn schema(&self) -> (r: Arc<Schema>)
        ensures
            schema_field_names(*r) == kv_field_names(),
            schema_all_utf8(*r),
    {
        let mut names: Vec<String> = Vec::new();
        names.push("bucket".to_owned());
        names.push("key".to_owned());
        names.push("value".to_owned());
        assert(texts(names@) =~= kv_field_names());
        crate::batch::utf8_schema(names)
    }

    /// A bucket column of `sz` rows, each holding `b`.
    pub fn bucket2arr(b: &String, sz: usize) -> (r: Vec<String>)
        ensures
            texts(r@) == Seq::new(sz as nat, |i: int| b@),
    {
        let mut col: Vec<String> = Vec::with_capacity(sz);
        let mut i: usize = 0;
        while i < sz
            invariant
                i <= sz,
                col@.len() == i,
                forall|j: int| 0 <= j < i ==> #[trigger] col@[j]@ == b@,
            decreases sz - i,
        {
            let c: String = b.clone();
            assert(c@ == b@);
            col.push(c);
            i = i + 1;
        }
        assert(texts(col@) =~= Seq::new(sz as nat, |j: int| b@));
        col
    }

    /// The value of a key from the bytes of its file, under this store's
    /// size ceiling.
    pub fn val_from_bytes(&self, raw: Vec<u8>) -> (r: Result<String, StoreError>)
        ensures
            r is Ok <==> resolved_value(raw@, self.max_file_size) is Some,
            r is Ok ==> Some(r->Ok_0@) == resolved_value(raw@, self.max_file_size),
            r is Err ==> r == Err::<String, StoreError>(StoreError::InvalidText),
    {
        value_from_bytes(raw, self.max_file_size)
    }

    /// The table of one bucket, once every key has its value: the bucket
    /// column, then the keys and the values in the order they were
    /// enumerated, under the schema of `schema`. It is made exactly when each
    /// column fits in a string array; an empty bucket gives an empty table.
    pub fn bucket2batch(&self, pairs: PairsBuilder) -> (r: Result<KvBatch, ArrowError>)
        requires
            pairs.wf(),
            pairs.is_complete(),
        ensures
            r is Ok <==> kv_fits(pairs.bucket(), pairs.keys(), pairs.vals()),
            r is Ok ==> batch_columns(r->Ok_0) == kv_columns(
                pairs.bucket(),
                pairs.keys(),
                pairs.vals(),
            ),
            r is Ok ==> schema_field_names(batch_schema(r->Ok_0)) == kv_field_names(),
            r is Ok ==> schema_all_utf8(batch_schema(r->Ok_0)),
    {
        let (bkt, keys, vals) = pairs.into_parts();
        let barr = Self::bucket2arr(&bkt, keys.len());
        let sch = self.schema();
        if !(fits_column(&barr) && fits_column(&keys) && fits_column(&vals)) {
            return Err(invalid_argument("a column is too large for a string array".to_owned()));
        }
        let r = try_batch(sch, barr, keys, vals);
        proof {
            if r is Ok {
                assert(batch_columns(r->Ok_0) =~= kv_columns(
                    pairs.bucket(),
                    pairs.keys(),
                    pairs.vals(),
                ));
            }
        }
        r
    }

    /// The table of the bucket `bkt` from its keys, in enumeration order, and
    /// the outcome of resolving each key's value, in the same order. If any
    /// resolution failed, the conversion fails with the first such failure
    /// and no table is made; otherwise the result is that of `bucket2batch`
    /// on the resolved values.
    pub fn resolved2batch<E>(&self, bkt: String, keys: Vec<String>, outcomes: Vec<Result<String, E>>) -> (r:
        Result<Result<KvBatch, ArrowError>, E>)
        requires
            outcomes@.len() == keys@.len(),
        ensures
            r is Err <==> exists|i: int| 0 <= i < outcomes@.len() && (#[trigger] outcomes@[i]) is Err,
            r matches Err(e) ==> exists|i: int|
                0 <= i < outcomes@.len() && #[trigger] outcomes@[i] == Err::<String, E>(e) && forall|
                    j: int,
                | 0 <= j < i ==> (#[trigger] outcomes@[j]) is Ok,
            r matches Ok(t) ==> (t is Ok <==> kv_fits(
                bkt@,
                texts(keys@),
                outcomes@.map_values(|o: Result<String, E>| o->Ok_0@),
            )),
            r matches Ok(t) ==> (t matches Ok(b) ==> batch_columns(b) == kv_columns(
                bkt@,
                texts(keys@),
                outcomes@.map_values(|o: Result<String, E>| o->Ok_0@),
            )),
            r matches Ok(t) ==> (t matches Ok(b) ==> schema_field_names(batch_schema(b))
                == kv_field_names() && schema_all_utf8(batch_schema(b))),
    {
        let pairs = PairsBuilder::new(bkt, keys);
        match pairs.accept_all(outcomes) {
            Ok(p) => {
                assert(p.vals() =~= outcomes@.map_values(|o: Result<String, E>| o->Ok_0@));
                Ok(self.bucket2batch(p))
            },
            Err(e) => Err(e),
        }
    }
}

/// Every call of `schema` gives the same three fields: bucket, key and value,
/// in that order, each a non-null UTF-8 string column.
pub proof fn lemma_schema_stable(a: Schema, b: Schema)
    requires
        schema_field_names(a) == kv_field_names(),
        schema_all_utf8(a),
        schema_field_names(b) == kv_field_names(),
        schema_all_utf8(b),
    ensures
        schema_field_names(a) == schema_field_names(b),
        schema_field_names(a).len() == 3,
        schema_all_utf8(a) && schema_all_utf8(b),
{
}

/// The table of an empty bucket is made, and has no rows.
pub proof fn lemma_empty_bucket_fits(bucket: Seq<char>)
    ensures
        kv_fits(bucket, Seq::empty(), Seq::empty()),
        kv_columns(bucket, Seq::empty(), Seq::empty())[0].len() == 0,
{
    assert(kv_columns(bucket, Seq::empty(), Seq::empty())[0] =~= Seq::<Seq<char>>::empty());
}

/// The table of a bucket has one row per key in each column; its key column
/// is the keys in enumeration order, with the value of each key in the same
/// row; and every row holds the bucket itself in the bucket column.
pub proof fn lemma_table_shape(bucket: Seq<char>, keys: Seq<Seq<char>>, vals: Seq<Seq<char>>)
    requires
        vals.len() == keys.len(),
    ensures
        kv_columns(bucket, keys, vals).len() == 3,
        kv_columns(bucket, keys, vals)[0].len() == keys.len(),
        kv_columns(bucket, keys, vals)[1].len() == keys.len(),
        kv_columns(bucket, keys, vals)[2].len() == keys.len(),
        kv_columns(bucket, keys, vals)[1] == keys,
        kv_columns(bucket, keys, vals)[2] == vals,
        forall|i: int| 0 <= i < keys.len() ==> #[trigger] kv_columns(bucket, keys, vals)[0][i] == bucket,
{
}

} // verus!
