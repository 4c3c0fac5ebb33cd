//! Parameterized statements and the batches built from them.

use vstd::prelude::*;
use vstd::string::StringSliceAdditionalSpecFns;

verus! {

/// A dynamically typed value bound to a statement or held in a record.
/// A real number is held as the bit pattern of its 64-bit encoding.
#[derive(Debug, PartialEq)]
pub enum Scalar {
    Null,
    Boolean(bool),
    Integer(i64),
    Real(u64),
    Text(String),
    Bytes(Vec<u8>),
}

/// What a scalar holds, as a mathematical value.
pub enum ScalarValue {
    Null,
    Boolean(bool),
    Integer(i64),
    Real(u64),
    Text(Seq<char>),
    Bytes(Seq<u8>),
}

impl View for Scalar {
    type V = ScalarValue;

    open spec fn view(&self) -> ScalarValue {
        match self {
            Scalar::Null => ScalarValue::Null,
            Scalar::Boolean(b) => ScalarValue::Boolean(*b),
            Scalar::Integer(i) => ScalarValue::Integer(*i),
            Scalar::Real(bits) => ScalarValue::Real(*bits),
            Scalar::Text(text) => ScalarValue::Text(text@),
            Scalar::Bytes(bytes) => ScalarValue::Bytes(bytes@),
        }
    }
}

impl Scalar {
    /// A copy that holds the same value.
    pub fn duplicate(&self) -> (copy: Scalar)
        ensures
            copy@ == self@,
    {
        match self {
            Scalar::Null => Scalar::Null,
            Scalar::Boolean(b) => Scalar::Boolean(*b),
            Scalar::Integer(i) => Scalar::Integer(*i),
            Scalar::Real(bits) => Scalar::Real(*bits),
            Scalar::Text(text) => Scalar::Text(text.clone()),
            Scalar::Bytes(bytes) => {
                let mut copy: Vec<u8> = Vec::new();
                let mut i: usize = 0;
                while i < bytes.len()
                    invariant
                        i <= bytes@.len(),
                        copy@ == bytes@.subrange(0, i as int),
                    decreases bytes@.len() - i,
                {
                    copy.push(bytes[i]);
                    i = i + 1;
                    assert(copy@ =~= bytes@.subrange(0, i as int));
                }
                assert(copy@ =~= bytes@);
                Scalar::Bytes(copy)
            },
        }
    }
}

/// One named value of a record.
#[derive(Debug, PartialEq)]
pub struct Field {
    pub name: String,
    pub value: Scalar,
}

/// A row of the store: named values in column order. A row has no shape
/// of its own; the registry gives it one.
#[derive(Debug, PartialEq)]
pub struct Record {
    pub fields: Vec<Field>,
}

/// The position of the first field called `name`, or the number of fields
/// if there is none.
pub open spec fn position_of(fields: Seq<Field>, name: Seq<char>) -> int
    decreases fields.len(),
{
    if fields.len() == 0 {
        0
    } else if fields[0].name@ == name {
        0
    } else {
        1 + position_of(fields.drop_first(), name)
    }
}

impl Record {
    /// The value of the first field called `name`.
    pub open spec fn value_of(&self, name: Seq<char>) -> Option<ScalarValue> {
        if position_of(self.fields@, name) < self.fields@.len() {
            Some(self.fields@[position_of(self.fields@, name)].value@)
        } else {
            None
        }
    }

    /// Looks a field up by name.
    pub fn get(&self, name: &str) -> (value: Option<&Scalar>)
        ensures
            match value {
                Some(scalar) => self.value_of(name@) == Some(scalar@),
                None => self.value_of(name@) is None,
            },
    {
        let mut i: usize = 0;
        assert(self.fields@.subrange(0, self.fields@.len() as int) =~= self.fields@);
        while i < self.fields.len()
            invariant
                i <= self.fields@.len(),
                position_of(self.fields@, name@) == i + position_of(
                    self.fields@.subrange(i as int, self.fields@.len() as int),
                    name@,
                ),
            decreases self.fields@.len() - i,
        {
            let ghost rest = self.fields@.subrange(i as int, self.fields@.len() as int);
            assert(rest[0] == self.fields@[i as int]);
            assert(rest.drop_first() =~= self.fields@.subrange(i + 1, self.fields@.len() as int));
            if crate::paths::str_equal(self.fields[i].name.as_str(), name) {
                return Some(&self.fields[i].value);
            }
            i = i + 1;
        }
        None
    }
}

/// The uniqueness rule that a statement may be tagged with.
#[derive(Debug, Clone, Copy, PartialEq, Eq, Structural)]
pub enum ConstraintKind {
    Unique,
}

/// A constraint descriptor attached to a statement.
#[derive(Debug, Clone, Copy, PartialEq, Eq, Structural)]
pub struct Constraint {
    pub kind: ConstraintKind,
}

/// What a statement is tagged as.
#[derive(Debug, Clone, Copy, PartialEq, Eq, Structural)]
pub enum OperationKind {
    Constraint(Constraint),
}

/// A statement template with the values bound to its placeholders, in
/// order.
#[derive(Debug, PartialEq)]
pub struct Operation {
    pub sql: String,
    pub values: Vec<Scalar>,
    pub kind: Option<OperationKind>,
}

/// An ordered batch of statements that takes effect as a whole or not at
/// all.
#[derive(Debug, PartialEq)]
pub struct Mutation {
    pub mutations: Vec<Operation>,
}

/// The byte of the positional placeholder, `?`.
pub const PLACEHOLDER: u8 = 63;

/// The byte that opens and closes a string literal, `'`.
pub const SINGLE_QUOTE: u8 = 39;

/// The byte that opens and closes a quoted identifier, `"`.
pub const DOUBLE_QUOTE: u8 = 34;

/// Whether `byte` opens a quoted span.
pub open spec fn is_quote(byte: u8) -> bool {
    byte == SINGLE_QUOTE || byte == DOUBLE_QUOTE
}

/// The number of placeholders in `template[from..]`, where `quote` is the
/// quote that spans position `from`, or 0 outside any quoted span. A
/// placeholder inside a quoted span is text, not a placeholder.
pub open spec fn placeholders_from(template: Seq<u8>, from: int, quote: u8) -> nat
    decreases template.len() - from,
{
    if from < 0 || from >= template.len() {
        0
    } else if quote != 0 {
        if template[from] == quote {
            placeholders_from(template, from + 1, 0)
        } else {
            placeholders_from(template, from + 1, quote)
        }
    } else if is_quote(template[from]) {
        placeholders_from(template, from + 1, template[from])
    } else if template[from] == PLACEHOLDER {
        1 + placeholders_from(template, from + 1, 0)
    } else {
        placeholders_from(template, from + 1, 0)
    }
}

/// The number of placeholders in a template.
pub open spec fn placeholder_count(template: Seq<u8>) -> nat {
    placeholders_from(template, 0, 0)
}

/// Counts the placeholders of a template.
pub fn count_placeholders(template: &str) -> (count: usize)
    ensures
        count == placeholder_count(vstd::utf8::encode_utf8(template@)),
{
    let bytes = template.as_bytes();
    let n = bytes.len();
    let mut count: usize = 0;
    let mut quote: u8 = 0;
    let mut i: usize = 0;
    while i < n
        invariant
            n == bytes@.len(),
            bytes@ == template.spec_bytes(),
            i <= n,
            count <= i,
            count + placeholders_from(bytes@, i as int, quote) == placeholder_count(bytes@),
        decreases n - i,
    {
        let byte = bytes[i];
        if quote != 0 {
            if byte == quote {
                quote = 0;
            }
        } else if byte == SINGLE_QUOTE || byte == DOUBLE_QUOTE {
            quote = byte;
        } else if byte == PLACEHOLDER {
            count = count + 1;
        }
        i = i + 1;
    }
    count
}

impl Operation {
    /// The number of placeholders in the statement's template.
    pub open spec fn placeholders(&self) -> nat {
        placeholder_count(vstd::utf8::encode_utf8(self.sql@))
    }

    /// Whether every placeholder has a value and every value a placeholder.
    pub open spec fn well_formed(&self) -> bool {
        self.placeholders() == self.values@.len()
    }

    /// Whether the statement is tagged with the uniqueness constraint.
    pub open spec fn tagged_unique(&self) -> bool {
        match self.kind {
            Some(OperationKind::Constraint(constraint)) => constraint.kind is Unique,
            None => false,
        }
    }

    /// Checks that the bound values match the template's placeholders.
    pub fn is_well_formed(&self) -> (result: bool)
        ensures
            result == self.well_formed(),
    {
        count_placeholders(self.sql.as_str()) == self.values.len()
    }

    /// The constraint that the statement is tagged with, if any.
    pub fn constraint(&self) -> (result: Option<Constraint>)
        ensures
            result == match self.kind {
                Some(OperationKind::Constraint(constraint)) => Some(constraint),
                None => None,
            },
            result.is_some() == self.tagged_unique(),
    {
        match self.kind {
            Some(OperationKind::Constraint(constraint)) => Some(constraint),
            None => None,
        }
    }

    /// The values to bind, in placeholder order.
    pub fn iter_variables(&self) -> (values: &Vec<Scalar>)
        ensures
            values == &self.values,
    {
        &self.values
    }
}

impl Mutation {
    /// The number of statements in the batch.
    pub open spec fn size(&self) -> nat {
        self.mutations@.len()
    }

    /// Whether every statement of the batch is well formed.
    pub open spec fn well_formed(&self) -> bool {
        forall|i: int| 0 <= i < self.mutations@.len() ==> (#[trigger] self.mutations@[i]).well_formed()
    }

    /// Checks every statement of the batch.
    pub fn is_well_formed(&self) -> (result: bool)
        ensures
            result == self.well_formed(),
    {
        let mut i: usize = 0;
        while i < self.mutations.len()
            invariant
                i <= self.mutations@.len(),
                forall|k: int| 0 <= k < i ==> (#[trigger] self.mutations@[k]).well_formed(),
            decreases self.mutations@.len() - i,
        {
            if !self.mutations[i].is_well_formed() {
                return false;
            }
            i = i + 1;
        }
        true
    }
}

} // verus!
