//! Query serialization: from values to name/value pairs.
//!
//! A scalar gives one pair. An optional value gives one pair or none. A list
//! gives one pair per item under `Multi`, and under the other formats one pair
//! with the items joined, or none where the list is empty. A structured record
//! gives the pairs of its fields, in declaration order.

use vstd::prelude::*;
use crate::attrs::{parse_collection_format, CollectionFormat};
use crate::error::CompilationError;
use crate::headers::Pair;
use crate::rename::RenameRule;
use crate::text::{join_texts, joined, pair_texts, texts};

verus! {

/// Types that can be converted to query parameter pairs.
pub trait ToQueryPairs {
    /// Convert this value to a vector of key-value pairs for query parameters.
    fn to_query_pairs(&self) -> Vec<(String, String)>;
}

/// The value of a field, already rendered as text.
#[derive(Debug)]
pub enum FieldValue {
    /// A single value.
    Scalar(String),
    /// A value that may be absent.
    Optional(Option<String>),
    /// A list of values.
    List(Vec<String>),
}

/// A field of a structured record.
#[derive(Debug)]
pub struct QueryField {
    /// The field's declared name.
    pub name: String,
    /// The key to use in place of the declared name, if any.
    pub rename: Option<String>,
    /// The collection format for a list value.
    pub format: CollectionFormat,
    /// The field's value.
    pub value: FieldValue,
}

/// A structured record: fields in declaration order, with the rename rule of
/// the record, if it has one.
#[derive(Debug)]
pub struct QueryRecord {
    /// The rule applied to the declared name of every field without a rename.
    pub rename_all: Option<RenameRule>,
    /// The fields, in declaration order.
    pub fields: Vec<QueryField>,
}

/// One pair per item, each under the same key.
pub open spec fn repeated(key: Seq<char>, items: Seq<Seq<char>>) -> Seq<Pair> {
    Seq::new(items.len(), |i: int| (key, items[i]))
}

/// The pairs of a list under a collection format.
pub open spec fn list_pairs(key: Seq<char>, items: Seq<Seq<char>>, format: CollectionFormat)
    -> Seq<Pair> {
    match format.sep() {
        None => repeated(key, items),
        Some(sep) => if items.len() == 0 {
            Seq::empty()
        } else {
            seq![(key, joined(items, sep))]
        },
    }
}

/// The pairs of a value under a key.
pub open spec fn value_pairs(key: Seq<char>, value: FieldValue, format: CollectionFormat) -> Seq<
    Pair,
> {
    match value {
        FieldValue::Scalar(v) => seq![(key, v@)],
        FieldValue::Optional(None) => Seq::empty(),
        FieldValue::Optional(Some(v)) => seq![(key, v@)],
        FieldValue::List(items) => list_pairs(key, texts(items@), format),
    }
}

/// The key of a field: its rename where it has one; else its declared name
/// under the rename rule of the record; else its declared name.
pub open spec fn key_of(field: QueryField, rename_all: Option<RenameRule>) -> Seq<char> {
    match field.rename {
        Some(key) => key@,
        None => match rename_all {
            Some(rule) => rule.applied(field.name@),
            None => field.name@,
        },
    }
}

/// The pairs of a field.
pub open spec fn field_pairs(field: QueryField, rename_all: Option<RenameRule>) -> Seq<Pair> {
    value_pairs(key_of(field, rename_all), field.value, field.format)
}

/// The pairs of the first `n` fields, in declaration order.
pub open spec fn pairs_upto(fields: Seq<QueryField>, rename_all: Option<RenameRule>, n: int)
    -> Seq<Pair>
    decreases n,
{
    if n <= 0 {
        Seq::empty()
    } else {
        pairs_upto(fields, rename_all, n - 1) + field_pairs(fields[n - 1], rename_all)
    }
}

/// The pairs of a record.
pub open spec fn record_pairs(record: QueryRecord) -> Seq<Pair> {
    pairs_upto(record.fields@, record.rename_all, record.fields@.len() as int)
}

/// The pairs of a list under a collection format.
pub fn serialize_list(key: &str, items: &Vec<String>, format: CollectionFormat) -> (r: Vec<
    (String, String),
>)
    ensures
        pair_texts(r@) == list_pairs(key@, texts(items@), format),
{
    let mut out: Vec<(String, String)> = Vec::new();
    match format.separator() {
        None => {
            let mut i: usize = 0;
            while i < items.len()
                invariant
                    i <= items.len(),
                    pair_texts(out@) == repeated(key@, texts(items@)).take(i as int),
                decreases items.len() - i,
            {
                let pair = (key.to_owned(), items[i].clone());
                proof {
                    assert(pair_texts(out@.push(pair)) == pair_texts(out@).push(
                        (pair.0@, pair.1@),
                    ));
                }
                out.push(pair);
                i += 1;
            }
            proof {
                let all = repeated(key@, texts(items@));
                assert(all.take(items.len() as int) == all);
            }
        },
        Some(sep) => {
            if items.len() > 0 {
                let pair = (key.to_owned(), join_texts(items, sep));
                proof {
                    assert(pair_texts(out@.push(pair)) == seq![(pair.0@, pair.1@)]);
                }
                out.push(pair);
            } else {
                proof {
                    assert(pair_texts(out@) == Seq::<Pair>::empty());
                }
            }
        },
    }
    out
}

/// The pairs of a value under a key.
pub fn serialize_value(key: &str, value: &FieldValue, format: CollectionFormat) -> (r: Vec<
    (String, String),
>)
    ensures
        pair_texts(r@) == value_pairs(key@, *value, format),
{
    match value {
        FieldValue::Scalar(v) => {
            let mut out: Vec<(String, String)> = Vec::new();
            out.push((key.to_owned(), v.clone()));
            proof {
                assert(pair_texts(out@) == seq![(key@, v@)]);
            }
            out
        },
        FieldValue::Optional(None) => {
            let out: Vec<(String, String)> = Vec::new();
            proof {
                assert(pair_texts(out@) == Seq::<Pair>::empty());
            }
            out
        },
        FieldValue::Optional(Some(v)) => {
            let mut out: Vec<(String, String)> = Vec::new();
            out.push((key.to_owned(), v.clone()));
            proof {
                assert(pair_texts(out@) == seq![(key@, v@)]);
            }
            out
        },
        FieldValue::List(items) => serialize_list(key, items, format),
    }
}

/// Appends the pairs of `more` to `out`.
pub fn append_pairs(out: &mut Vec<(String, String)>, more: Vec<(String, String)>)
    ensures
        pair_texts(final(out)@) == pair_texts(old(out)@) + pair_texts(more@),
{
    let mut i: usize = 0;
    while i < more.len()
        invariant
            i <= more.len(),
            pair_texts(out@) == pair_texts(old(out)@) + pair_texts(more@).take(i as int),
        decreases more.len() - i,
    {
        let pair = (more[i].0.clone(), more[i].1.clone());
        proof {
            assert(pair_texts(out@.push(pair)) == pair_texts(out@).push((pair.0@, pair.1@)));
            assert(pair_texts(more@).take(i + 1) == pair_texts(more@).take(i as int).push(
                (pair.0@, pair.1@),
            ));
        }
        out.push(pair);
        i += 1;
    }
    proof {
        assert(pair_texts(more@).take(more.len() as int) == pair_texts(more@));
    }
}

impl QueryField {
    /// A field with its declared name and its value, without a rename, in the
    /// `Multi` format.
    pub fn new(name: &str, value: FieldValue) -> (r: Self)
        ensures
            r.name@ == name@,
            r.rename is None,
            r.format == CollectionFormat::Multi,
            r.value == value,
    {
        QueryField {
            name: name.to_owned(),
            rename: None,
            format: CollectionFormat::Multi,
            value,
        }
    }

    /// The field with a key that replaces its declared name.
    pub fn with_rename(self, key: &str) -> (r: Self)
        ensures
            r.name == self.name,
            r.rename is Some && r.rename.unwrap()@ == key@,
            r.format == self.format,
            r.value == self.value,
    {
        QueryField {
            name: self.name,
            rename: Some(key.to_owned()),
            format: self.format,
            value: self.value,
        }
    }

    /// The field with a collection format.
    pub fn with_format(self, format: CollectionFormat) -> (r: Self)
        ensures
            r.name == self.name,
            r.rename == self.rename,
            r.format == format,
            r.value == self.value,
    {
        QueryField { name: self.name, rename: self.rename, format, value: self.value }
    }

    /// The field with the collection format of the given name; an unknown name
    /// is refused.
    pub fn with_format_name(self, format: &str) -> (r: Result<Self, CompilationError>)
        ensures
            match CollectionFormat::named(crate::text::lowercase_of(format@)) {
                Some(f) => r matches Ok(field) && field.name == self.name && field.rename
                    == self.rename && field.format == f && field.value == self.value,
                None => r matches Err(CompilationError::UnknownCollectionFormat(name))
                    && name@ == format@,
            },
    {
        match parse_collection_format(format) {
            Ok(f) => Ok(self.with_format(f)),
            Err(e) => Err(e),
        }
    }

    /// The key under which the field is sent.
    pub fn key(&self, rename_all: Option<RenameRule>) -> (r: String)
        ensures
            r@ == key_of(*self, rename_all),
    {
        match &self.rename {
            Some(key) => key.clone(),
            None => match rename_all {
                Some(rule) => rule.apply(self.name.as_str()),
                None => self.name.clone(),
            },
        }
    }
}

impl QueryRecord {
    /// A record without fields and without a rename rule.
    pub fn new() -> (r: Self)
        ensures
            r.rename_all is None,
            r.fields@.len() == 0,
    {
        QueryRecord { rename_all: None, fields: Vec::new() }
    }

    /// The record with a rename rule for its fields.
    pub fn rename_all(self, rule: RenameRule) -> (r: Self)
        ensures
            r.rename_all == Some(rule),
            r.fields == self.fields,
    {
        QueryRecord { rename_all: Some(rule), fields: self.fields }
    }

    /// The record with the rename rule of the given name; an unknown name is
    /// refused.
    pub fn rename_all_named(self, rule: &str) -> (r: Result<Self, CompilationError>)
        ensures
            match RenameRule::named(rule@) {
                Some(x) => r matches Ok(record) && record.rename_all == Some(x)
                    && record.fields == self.fields,
                None => r matches Err(CompilationError::UnknownRenameRule(name)) && name@
                    == rule@,
            },
    {
        match RenameRule::parse(rule) {
            Some(x) => Ok(self.rename_all(x)),
            None => Err(CompilationError::UnknownRenameRule(rule.to_owned())),
        }
    }

    /// The record with one more field at its end.
    pub fn field(self, field: QueryField) -> (r: Self)
        ensures
            r.rename_all == self.rename_all,
            r.fields@ == self.fields@.push(field),
    {
        let mut fields = self.fields;
        fields.push(field);
        QueryRecord { rename_all: self.rename_all, fields }
    }
}

impl ToQueryPairs for QueryRecord {
    /// The pairs of the record's fields, in declaration order.
    fn to_query_pairs(&self) -> (r: Vec<(String, String)>)
        ensures
            pair_texts(r@) == record_pairs(*self),
    {
        let mut pairs: Vec<(String, String)> = Vec::new();
        proof {
            assert(pair_texts(pairs@) == Seq::<Pair>::empty());
        }
        let mut i: usize = 0;
        while i < self.fields.len()
            invariant
                i <= self.fields.len(),
                pair_texts(pairs@) == pairs_upto(self.fields@, self.rename_all, i as int),
            decreases self.fields.len() - i,
        {
            let field = &self.fields[i];
            let key = field.key(self.rename_all);
            let more = serialize_value(key.as_str(), &field.value, field.format);
            append_pairs(&mut pairs, more);
            i += 1;
        }
        pairs
    }
}

/// An explicit rename of a field wins over the rename rule of the record,
/// whichever rule that is.
pub proof fn lemma_explicit_rename_wins(
    field: QueryField,
    a: Option<RenameRule>,
    b: Option<RenameRule>,
)
    requires
        field.rename is Some,
    ensures
        key_of(field, a) == field.rename.unwrap()@,
        key_of(field, a) == key_of(field, b),
        field_pairs(field, a) == field_pairs(field, b),
{
}

/// What the collection formats give for a list: `Multi` one pair per item, in
/// order; every other format exactly one pair for a list with items, and none
/// for an empty list.
pub proof fn lemma_collection_formats(
    key: Seq<char>,
    items: Seq<Seq<char>>,
    format: CollectionFormat,
)
    ensures
        format is Multi ==> list_pairs(key, items, format).len() == items.len() && forall|
            i: int,
        |
            0 <= i < items.len() ==> #[trigger] list_pairs(key, items, format)[i] == (
                key,
                items[i],
            ),
        !(format is Multi) && items.len() == 0 ==> list_pairs(key, items, format).len() == 0,
        !(format is Multi) && items.len() > 0 ==> list_pairs(key, items, format).len() == 1
            && list_pairs(key, items, format)[0] == (
            key,
            joined(items, format.sep().unwrap()),
        ),
        list_pairs(key, items, format).len() > 1 ==> format is Multi,
{
}

} // verus!
