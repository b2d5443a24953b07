//! Database values, as far as this library looks into them.
use vstd::prelude::*;
use vstd::utf8::encode_utf8;
use surrealdb::sql::{Id, Value};

verus! {

#[verifier::external_type_specification]
#[verifier::external_body]
pub struct ExId(Id);

#[verifier::external_type_specification]
#[verifier::external_body]
pub struct ExValue(Value);

/// Copies a SurrealDB record id with its derived `Clone`, which copies every
/// field; the copy is the same value.
#[verifier::external_body]
fn copy_id(id: &Id) -> (r: Id)
    ensures
        r == *id,
{
    id.clone()
}

/// The id part of a record link.
#[derive(Debug)]
pub enum RecordId {
    /// A numeric id, as in `person:42`.
    Number(i64),
    /// A text id, as in `person:tobie`.
    String(String),
    /// An array or object id, carried as SurrealDB holds it.
    Other(Id),
}

/// A link to one record: its table and its id.
#[derive(Debug)]
pub struct Thing {
    pub tb: String,
    pub id: RecordId,
}

/// A database value: a link to a record, or any other value together with
/// the text that SurrealDB's `Debug` gives for it (as an error message
/// reports a value that is not a link).
#[derive(Debug)]
pub enum SurrealValue {
    Thing(Thing),
    Data { value: ValueData, debug_text: String },
}

/// What the library reads of a value that is not a link. The variants that
/// the library reads are spelled out; any other value (a float, a decimal, a
/// datetime, a duration, a geometry, ...) is carried as SurrealDB holds it.
#[derive(Debug)]
pub enum ValueData {
    /// SurrealQL `NONE`: no value.
    Absent,
    Null,
    Bool(bool),
    Int(i64),
    Strand(String),
    Array(Vec<SurrealValue>),
    /// An object: its entries in key order, each key once (see
    /// `keys_strictly_increasing`).
    Object(Vec<(String, SurrealValue)>),
    Other(Value),
}

/// Byte-wise lexicographic order, strict: the order of `String` keys in an
/// object's map.
pub open spec fn bytes_lt(a: Seq<u8>, b: Seq<u8>) -> bool
    decreases a.len(),
{
    if b.len() == 0 {
        false
    } else if a.len() == 0 {
        true
    } else if a[0] != b[0] {
        a[0] < b[0]
    } else {
        bytes_lt(a.drop_first(), b.drop_first())
    }
}

/// Whether key `a` comes strictly before key `b`, comparing their UTF-8 bytes.
pub open spec fn key_precedes(a: Seq<char>, b: Seq<char>) -> bool {
    bytes_lt(encode_utf8(a), encode_utf8(b))
}

/// Whether an object's keys are strictly increasing, as in SurrealDB's
/// object map.
pub open spec fn keys_strictly_increasing(entries: Seq<(String, SurrealValue)>) -> bool {
    forall|i: int| 0 < i < entries.len() ==> key_precedes(entries[i - 1].0@, (#[trigger] entries[i]).0@)
}

/// No sequence of bytes comes before itself.
proof fn lemma_bytes_lt_irreflexive(a: Seq<u8>)
    ensures
        !bytes_lt(a, a),
    decreases a.len(),
{
    if a.len() > 0 {
        lemma_bytes_lt_irreflexive(a.drop_first());
    }
}

/// The byte order is transitive.
proof fn lemma_bytes_lt_transitive(a: Seq<u8>, b: Seq<u8>, c: Seq<u8>)
    requires
        bytes_lt(a, b),
        bytes_lt(b, c),
    ensures
        bytes_lt(a, c),
    decreases a.len(),
{
    if a.len() > 0 && b.len() > 0 && c.len() > 0 && a[0] == b[0] && b[0] == c[0] {
        lemma_bytes_lt_transitive(a.drop_first(), b.drop_first(), c.drop_first());
    }
}

/// In an object whose keys are strictly increasing, each key occurs once.
pub proof fn lemma_ordered_keys_distinct(entries: Seq<(String, SurrealValue)>)
    requires
        keys_strictly_increasing(entries),
    ensures
        forall|i: int, j: int|
            0 <= i < j < entries.len() ==> key_precedes(entries[i].0@, entries[j].0@)
                && #[trigger] entries[i].0@ != #[trigger] entries[j].0@,
{
    assert forall|i: int, j: int| 0 <= i < j < entries.len() implies key_precedes(
        entries[i].0@,
        entries[j].0@,
    ) && #[trigger] entries[i].0@ != #[trigger] entries[j].0@ by {
        lemma_keys_ordered_pairwise(entries, i, j);
        if entries[i].0@ == entries[j].0@ {
            lemma_bytes_lt_irreflexive(encode_utf8(entries[i].0@));
        }
    }
}

proof fn lemma_keys_ordered_pairwise(entries: Seq<(String, SurrealValue)>, i: int, j: int)
    requires
        keys_strictly_increasing(entries),
        0 <= i < j < entries.len(),
    ensures
        key_precedes(entries[i].0@, entries[j].0@),
    decreases j - i,
{
    assert(key_precedes(entries[j - 1].0@, entries[j].0@));
    if i < j - 1 {
        lemma_keys_ordered_pairwise(entries, i, j - 1);
        lemma_bytes_lt_transitive(
            encode_utf8(entries[i].0@),
            encode_utf8(entries[j - 1].0@),
            encode_utf8(entries[j].0@),
        );
    }
}

/// Returns whether `a` comes strictly before `b` in byte-wise order.
fn bytes_precede(a: &[u8], b: &[u8]) -> (r: bool)
    ensures
        r == bytes_lt(a@, b@),
{
    let mut i: usize = 0;
    assert(a@.skip(0) =~= a@);
    assert(b@.skip(0) =~= b@);
    while i < a.len() && i < b.len()
        invariant
            i <= a@.len(),
            i <= b@.len(),
            bytes_lt(a@, b@) == bytes_lt(a@.skip(i as int), b@.skip(i as int)),
        decreases a.len() - i,
    {
        if a[i] != b[i] {
            return a[i] < b[i];
        }
        assert(a@.skip(i as int).drop_first() =~= a@.skip(i + 1));
        assert(b@.skip(i as int).drop_first() =~= b@.skip(i + 1));
        i = i + 1;
    }
    i < b.len()
}

/// Returns whether an object's keys are strictly increasing.
pub fn object_keys_ordered(entries: &Vec<(String, SurrealValue)>) -> (r: bool)
    ensures
        r == keys_strictly_increasing(entries@),
{
    let mut i: usize = 1;
    while i < entries.len()
        invariant
            1 <= i,
            forall|k: int| 0 < k < i && k < entries@.len() ==> key_precedes(
                entries@[k - 1].0@,
                (#[trigger] entries@[k]).0@,
            ),
        decreases entries.len() - i,
    {
        let previous = entries[i - 1].0.as_str();
        let current = entries[i].0.as_str();
        if !bytes_precede(previous.as_bytes(), current.as_bytes()) {
            assert(!key_precedes(entries@[i - 1].0@, entries@[i as int].0@));
            return false;
        }
        i = i + 1;
    }
    true
}

impl RecordId {
    /// Returns a copy of the id.
    pub fn duplicate(&self) -> (r: RecordId)
        ensures
            r == *self,
    {
        match self {
            RecordId::Number(n) => RecordId::Number(*n),
            RecordId::String(s) => RecordId::String(s.clone()),
            RecordId::Other(id) => RecordId::Other(copy_id(id)),
        }
    }
}

} // verus!
