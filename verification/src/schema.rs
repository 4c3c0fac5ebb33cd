//! The layout of a search index, derived from the fields that the
//! registry lists for an entity type.

use crate::errors::SearchError;
use vstd::prelude::*;

verus! {

/// The type of a field, as the registry gives it.
#[derive(Debug, Clone, Copy, PartialEq, Eq, Structural)]
pub enum FieldType {
    Text,
    Url,
    Email,
    PhoneNumber,
    Int,
    Float,
    Boolean,
    Date,
    DateTime,
    Timestamp,
    IpAddress,
}

impl FieldType {
    /// Whether values of the type are text, which is also indexed by its
    /// tokens.
    pub open spec fn text_valued(&self) -> bool {
        self is Text || self is Url || self is Email || self is PhoneNumber
    }

    /// Tests whether values of the type are text.
    pub fn is_text(&self) -> (result: bool)
        ensures
            result == self.text_valued(),
    {
        match self {
            FieldType::Text | FieldType::Url | FieldType::Email | FieldType::PhoneNumber => true,
            _ => false,
        }
    }
}

/// One field of an entity type.
#[derive(Debug, PartialEq)]
pub struct FieldEntry {
    pub name: String,
    pub ty: FieldType,
}

/// The fields of an entity type, in the order of the registry.
#[derive(Debug, PartialEq)]
pub struct Schema {
    pub fields: Vec<FieldEntry>,
}

/// A logical field and the physical index fields that hold it: the one
/// for exact matches, and for text a second one that holds its tokens.
#[derive(Debug, PartialEq)]
pub struct IndexedField {
    pub name: String,
    pub doc_key: u32,
    pub tokenized_doc_key: Option<u32>,
    pub ty: FieldType,
}

/// The physical field that holds a record's identifier.
pub const ID_KEY: u32 = 0;

/// The number of text-valued fields among the first `n`.
pub open spec fn text_fields_before(fields: Seq<FieldEntry>, n: int) -> int
    decreases n,
{
    if n <= 0 {
        0
    } else if fields[n - 1].ty.text_valued() {
        text_fields_before(fields, n - 1) + 1
    } else {
        text_fields_before(fields, n - 1)
    }
}

/// The physical field for exact matches on the `i`-th logical field.
/// Physical fields are numbered in the order of the registry, after the
/// identifier; the token field of a text field follows it directly.
pub open spec fn key_of(fields: Seq<FieldEntry>, i: int) -> int {
    1 + i + text_fields_before(fields, i)
}

/// The number of physical fields of the index.
pub open spec fn physical_fields(fields: Seq<FieldEntry>) -> int {
    key_of(fields, fields.len() as int)
}

/// Whether `layout` is the layout of `fields`.
pub open spec fn lays_out(layout: Seq<IndexedField>, fields: Seq<FieldEntry>) -> bool {
    &&& layout.len() == fields.len()
    &&& forall|i: int|
        0 <= i < layout.len() ==> {
            &&& (#[trigger] layout[i]).name@ == fields[i].name@
            &&& layout[i].ty == fields[i].ty
            &&& layout[i].doc_key == key_of(fields, i)
            &&& layout[i].tokenized_doc_key == if fields[i].ty.text_valued() {
                Some((key_of(fields, i) + 1) as u32)
            } else {
                None
            }
        }
}

/// The count of text fields never exceeds the count of fields.
pub proof fn text_fields_bounded(fields: Seq<FieldEntry>, n: int)
    requires
        0 <= n,
    ensures
        0 <= text_fields_before(fields, n) <= n,
    decreases n,
{
    if n > 0 {
        text_fields_bounded(fields, n - 1);
    }
}

/// Later fields get higher keys, beyond the token field of any earlier
/// one.
pub proof fn keys_increase(fields: Seq<FieldEntry>, i: int, j: int)
    requires
        0 <= i < j,
    ensures
        key_of(fields, i) + (if fields[i].ty.text_valued() {
            1int
        } else {
            0int
        }) < key_of(fields, j),
    decreases j - i,
{
    if j > i + 1 {
        keys_increase(fields, i, j - 1);
    }
}

/// Derives the index layout of a schema. The layout is refused when the
/// index would need more physical fields than a key can number.
pub fn open_index(schema: &Schema) -> (result: Result<Vec<IndexedField>, SearchError>)
    ensures
        match result {
            Ok(layout) => lays_out(layout@, schema.fields@) && physical_fields(schema.fields@)
                <= u32::MAX,
            Err(error) => error == SearchError::UnsupportedSchema && physical_fields(schema.fields@)
                > u32::MAX,
        },
{
    let n = schema.fields.len();
    let mut layout: Vec<IndexedField> = Vec::new();
    let mut next: u32 = 1;
    let mut i: usize = 0;
    while i < n
        invariant
            n == schema.fields@.len(),
            i <= n,
            next == key_of(schema.fields@, i as int),
            lays_out(layout@, schema.fields@.subrange(0, i as int)),
        decreases n - i,
    {
        let field = &schema.fields[i];
        let text = field.ty.is_text();
        let width: u32 = if text {
            2
        } else {
            1
        };
        proof {
            text_fields_bounded(schema.fields@, i as int);
        }
        if next > u32::MAX - width {
            proof {
                assert(key_of(schema.fields@, i + 1) == next + width);
                if i + 1 < n {
                    keys_increase(schema.fields@, i + 1, n as int);
                }
            }
            return Err(SearchError::UnsupportedSchema);
        }
        let tokenized_doc_key = if text {
            Some(next + 1)
        } else {
            None
        };
        let ghost before = layout@;
        layout.push(IndexedField { name: field.name.clone(), doc_key: next, tokenized_doc_key, ty: field.ty });
        next = next + width;
        i = i + 1;
        proof {
            let shown = schema.fields@.subrange(0, i as int);
            assert forall|k: int| 0 <= k < layout@.len() implies {
                &&& (#[trigger] layout@[k]).name@ == shown[k].name@
                &&& layout@[k].ty == shown[k].ty
                &&& layout@[k].doc_key == key_of(shown, k)
                &&& layout@[k].tokenized_doc_key == if shown[k].ty.text_valued() {
                    Some((key_of(shown, k) + 1) as u32)
                } else {
                    None
                }
            } by {
                keys_agree(schema.fields@, shown, k);
                if k < i - 1 {
                    keys_agree(schema.fields@, schema.fields@.subrange(0, i - 1), k);
                    assert(before[k] == layout@[k]);
                }
            }
        }
    }
    proof {
        assert(schema.fields@.subrange(0, n as int) =~= schema.fields@);
    }
    Ok(layout)
}

/// A key depends only on the fields before it.
pub proof fn keys_agree(fields: Seq<FieldEntry>, shown: Seq<FieldEntry>, k: int)
    requires
        0 <= k <= shown.len() <= fields.len(),
        forall|m: int| 0 <= m < shown.len() ==> shown[m] == fields[m],
    ensures
        key_of(shown, k) == key_of(fields, k),
    decreases k,
{
    if k > 0 {
        keys_agree(fields, shown, k - 1);
    }
}

/// No two physical fields of a layout share a key, and none shares the
/// key of the identifier.
pub proof fn keys_are_distinct(layout: Seq<IndexedField>, fields: Seq<FieldEntry>, i: int, j: int)
    requires
        lays_out(layout, fields),
        physical_fields(fields) <= u32::MAX,
        0 <= i < j < layout.len(),
    ensures
        layout[i].doc_key != ID_KEY,
        layout[i].tokenized_doc_key != Some(ID_KEY),
        layout[i].doc_key != layout[j].doc_key,
        layout[i].tokenized_doc_key != Some(layout[j].doc_key),
        layout[j].tokenized_doc_key != Some(layout[i].doc_key),
        layout[i].tokenized_doc_key is Some ==> layout[i].tokenized_doc_key != layout[j].tokenized_doc_key,
        layout[i].tokenized_doc_key != Some(layout[i].doc_key),
{
    text_fields_bounded(fields, i);
    text_fields_bounded(fields, j);
    keys_increase(fields, i, j);
    if j + 1 < fields.len() {
        keys_increase(fields, j, fields.len() as int);
    }
    text_fields_bounded(fields, fields.len() as int);
    assert(key_of(fields, j) + 1 <= physical_fields(fields)) by {
        if j + 1 < fields.len() {
        } else {
            assert(j + 1 == fields.len());
        }
    }
}

} // verus!
