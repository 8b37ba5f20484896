use std::sync::Arc;

use arrow::array::ArrayRef;
use arrow::array::StringArray;
use arrow::datatypes::DataType;
use arrow::datatypes::Field;
use arrow::datatypes::Schema;
use arrow::error::ArrowError;
use arrow::record_batch::RecordBatch;

use vstd::prelude::*;
use vstd::utf8::encode_utf8;

verus! {

/// A record batch of string columns. Verus cannot take arrow's `RecordBatch`
/// as a declared type (its `Index` impl names arrow's `Array` trait), so the
/// batch is held here, out of Verus's sight; contracts read it through `batch_columns`.
#[verifier::external_body]
pub struct KvBatch {
    /// The arrow batch itself, for callers outside the verified code.
    pub batch: RecordBatch,
}

#[verifier::external_type_specification]
#[verifier::external_body]
pub struct ExArrowError(ArrowError);

#[verifier::external_type_specification]
#[verifier::external_body]
pub struct ExSchema(Schema);

/// The largest number of bytes that one string column may hold in all.
pub const MAX_COLUMN_BYTES: u64 = 2147483647;

/// The texts of a column of strings.
pub open spec fn texts(v: Seq<String>) -> Seq<Seq<char>> {
    v.map_values(|s: String| s@)
}

/// The number of bytes that a column of texts takes as UTF-8.
pub open spec fn column_bytes(col: Seq<Seq<char>>) -> nat
    decreases col.len(),
{
    if col.len() == 0 {
        0
    } else {
        column_bytes(col.drop_last()) + encode_utf8(col.last()).len()
    }
}

/// The names of a schema's fields, in order.
pub uninterp spec fn schema_field_names(s: Schema) -> Seq<Seq<char>>;

/// Whether every field of a schema is a non-null UTF-8 string column.
pub uninterp spec fn schema_all_utf8(s: Schema) -> bool;

/// The columns of a record batch, in order, each as the texts of its rows.
pub uninterp spec fn batch_columns(b: KvBatch) -> Seq<Seq<Seq<char>>>;

/// The schema that a record batch carries.
pub uninterp spec fn batch_schema(b: KvBatch) -> Schema;

/// Relies on `Schema::new` and `Field::new`: one field per name, in order,
/// each a non-null UTF-8 string column.
#[verifier::external_body]
pub(crate) fn utf8_schema(names: Vec<String>) -> (r: Arc<Schema>)
    ensures
        schema_field_names(*r) == texts(names@),
        schema_all_utf8(*r),
{
    let fields: Vec<Field> = names.into_iter().map(|n| Field::new(n, DataType::Utf8, false)).collect();
    Arc::new(Schema::new(fields))
}

/// Relies on `StringArray::from` and `RecordBatch::try_new`: a batch made
/// from three string columns holds them as they are, carries the schema it
/// was given, and is refused unless they have one length. It is made whenever
/// the schema has three non-null UTF-8 fields and the columns one length: a
/// column made from strings has no nulls and the UTF-8 type.
/// `StringArray::from` panics on a column of more than `i32::MAX` bytes.
#[verifier::external_body]
pub(crate) fn try_batch(sch: Arc<Schema>, b: Vec<String>, k: Vec<String>, v: Vec<String>) -> (r:
    Result<KvBatch, ArrowError>)
    requires
        column_bytes(texts(b@)) <= MAX_COLUMN_BYTES,
        column_bytes(texts(k@)) <= MAX_COLUMN_BYTES,
        column_bytes(texts(v@)) <= MAX_COLUMN_BYTES,
    ensures
        r is Ok ==> b@.len() == k@.len() && k@.len() == v@.len(),
        r is Ok ==> batch_columns(r->Ok_0) == seq![texts(b@), texts(k@), texts(v@)],
        r is Ok ==> batch_schema(r->Ok_0) == *sch,
        (schema_field_names(*sch).len() == 3 && schema_all_utf8(*sch) && b@.len() == k@.len()
            && k@.len() == v@.len()) ==> r is Ok,
{
    let cols: Vec<ArrayRef> = vec![
        Arc::new(StringArray::from(b)),
        Arc::new(StringArray::from(k)),
        Arc::new(StringArray::from(v)),
    ];
    RecordBatch::try_new(sch, cols).map(|batch| KvBatch { batch })
}

/// Relies on `ArrowError::InvalidArgumentError`: an error that carries `msg`.
#[verifier::external_body]
pub(crate) fn invalid_argument(msg: String) -> ArrowError {
    ArrowError::InvalidArgumentError(msg)
}

/// Whether a column of strings fits in one string array.
pub fn fits_column(col: &Vec<String>) -> (r: bool)
    ensures
        r == (column_bytes(texts(col@)) <= MAX_COLUMN_BYTES),
{
    let mut total: u64 = 0;
    let mut i: usize = 0;
    while i < col.len()
        invariant
            i <= col@.len(),
            total as nat == column_bytes(texts(col@.take(i as int))),
            total <= MAX_COLUMN_BYTES,
        decreases col@.len() - i,
    {
        let s: &str = col[i].as_str();
        let n: usize = s.as_bytes().len();
        assert(texts(col@.take(i + 1)).drop_last() =~= texts(col@.take(i as int)));
        assert(texts(col@.take(i + 1)).last() == s@);
        assert(texts(col@.take(i + 1)).len() == i + 1);
        assert(n == encode_utf8(s@).len());
        assert(column_bytes(texts(col@.take(i + 1))) == total + n);
        if n as u64 > MAX_COLUMN_BYTES - total {
            proof {
                lemma_column_bytes_prefix(texts(col@), i + 1);
                assert(texts(col@).take(i + 1) == texts(col@.take(i + 1)));
            }
            return false;
        }
        total = total + n as u64;
        i = i + 1;
    }
    assert(col@.take(i as int) == col@);
    true
}

/// A column takes at least as many bytes as any of its prefixes.
proof fn lemma_column_bytes_prefix(col: Seq<Seq<char>>, n: int)
    requires
        0 <= n <= col.len(),
    ensures
        column_bytes(col.take(n)) <= column_bytes(col),
    decreases col.len(),
{
    if n < col.len() {
        assert(col.drop_last().take(n) == col.take(n));
        lemma_column_bytes_prefix(col.drop_last(), n);
    } else {
        assert(col.take(n) == col);
    }
}

} // verus!
