//! Type, field and schema descriptors, and the table aggregate that
//! accumulates encoded rows for a schema.
//!
//! A type descriptor's in-row footprint is a pure function of the variant
//! (and, for `Varchar`, its declared maximum length), never of a runtime
//! value. A schema is an ordered sequence of field descriptors, fixed once
//! built and shared read-only across tables; the sum of its footprints in
//! declaration order is the fixed row width for every row of that schema.

use crate::heap::DbHeap;
use std::rc::Rc;
use vstd::prelude::*;

verus! {

/// The width of a heap offset stored in a row slot. It is part of the
/// on-disk contract, so it is pinned to an eight-byte word rather than left
/// to vary with the platform's pointer width.
pub const POINTER_SIZE: usize = 8;

/// The supported on-disk types.
#[derive(Debug, PartialEq, Eq, Structural, Clone, Copy)]
pub enum DbType {
    /// One byte: `1` is true, anything else decodes to false.
    Boolean,
    /// Four bytes, little-endian, signed.
    Int32,
    /// Four bytes, little-endian, unsigned.
    UInt32,
    /// Eight bytes, little-endian, signed.
    Int64,
    /// Eight bytes, little-endian, unsigned.
    UInt64,
    /// Text with a declared maximum byte length: stored inline
    /// (length-prefixed) when that maximum is below 256, indirected through
    /// the heap otherwise.
    Varchar(usize),
    /// Binary data of unbounded length, always indirected through the heap.
    Blob,
}

impl DbType {
    /// The in-row footprint of this type in bytes: what one field of this
    /// type consumes inside the fixed row region, independent of any
    /// runtime value's length.
    pub open spec fn spec_size(self) -> int {
        match self {
            DbType::Boolean => 1,
            DbType::Int32 => 4,
            DbType::UInt32 => 4,
            DbType::Int64 => 8,
            DbType::UInt64 => 8,
            DbType::Varchar(max_len) => if max_len < 256 {
                1 + (max_len as int)
            } else {
                2 + (POINTER_SIZE as int)
            },
            DbType::Blob => 2 + (POINTER_SIZE as int),
        }
    }

    /// The in-row footprint of this type in bytes.
    pub fn size(&self) -> (n: usize)
        ensures
            n == self.spec_size(),
    {
        match *self {
            DbType::Boolean => 1,
            DbType::Int32 => 4,
            DbType::UInt32 => 4,
            DbType::Int64 => 8,
            DbType::UInt64 => 8,
            DbType::Varchar(max_len) => if max_len < 256 {
                1 + max_len
            } else {
                2 + POINTER_SIZE
            },
            DbType::Blob => 2 + POINTER_SIZE,
        }
    }
}

/// A field's type together with its nullability and optional default,
/// pre-encoded as bytes.
#[derive(Debug)]
pub struct TypeSpec {
    /// The on-disk type.
    pub db_type: DbType,
    /// Whether the field may be null.
    pub is_nullable: bool,
    /// The field's default value, already encoded, if it has one.
    pub default: Option<Vec<u8>>,
}

impl TypeSpec {
    /// Bundles a type with its nullability and default.
    pub fn new(db_type: DbType, is_nullable: bool, default: Option<Vec<u8>>) -> (t: Self)
        ensures
            t.db_type == db_type,
            t.is_nullable == is_nullable,
            t.default == default,
    {
        TypeSpec { db_type, is_nullable, default }
    }

    /// The in-row footprint of the underlying type.
    pub fn size(&self) -> (n: usize)
        ensures
            n == self.db_type.spec_size(),
    {
        self.db_type.size()
    }
}

/// A named field in a schema.
#[derive(Debug)]
pub struct FieldSpec {
    /// The field's name.
    pub name: String,
    /// The field's type descriptor.
    pub type_spec: TypeSpec,
}

impl FieldSpec {
    /// The in-row footprint of this field's type.
    pub open spec fn spec_size(self) -> int {
        self.type_spec.db_type.spec_size()
    }

    /// Names a type descriptor.
    pub fn new(name: String, type_spec: TypeSpec) -> (f: Self)
        ensures
            f.name@ == name@,
            f.type_spec == type_spec,
    {
        FieldSpec { name, type_spec }
    }

    /// The in-row footprint of this field's type.
    pub fn size(&self) -> (n: usize)
        ensures
            n == self.spec_size(),
    {
        self.type_spec.size()
    }
}

/// An ordered, named list of field descriptors; field order is significant
/// and fixed once the schema is built.
pub type Schema = Vec<FieldSpec>;

/// The fixed row width of a schema: the sum of its fields' footprints in
/// declaration order.
pub open spec fn spec_row_length(fields: Seq<FieldSpec>) -> int
    decreases fields.len(),
{
    if fields.len() == 0 {
        0
    } else {
        spec_row_length(fields.drop_last()) + fields.last().spec_size()
    }
}

/// Every footprint is at least one byte.
pub proof fn lemma_spec_size_at_least_one(t: DbType)
    ensures
        t.spec_size() >= 1,
{
}

/// A schema's fixed row width is never negative.
pub proof fn lemma_row_length_nonneg(fields: Seq<FieldSpec>)
    ensures
        spec_row_length(fields) >= 0,
    decreases fields.len(),
{
    if fields.len() > 0 {
        lemma_row_length_nonneg(fields.drop_last());
        lemma_spec_size_at_least_one(fields.last().type_spec.db_type);
    }
}

/// A prefix of a schema never sums to more than the whole schema.
pub proof fn lemma_row_length_prefix_bound(fields: Seq<FieldSpec>, j: int)
    requires
        0 <= j <= fields.len(),
    ensures
        spec_row_length(fields.take(j)) <= spec_row_length(fields),
        spec_row_length(fields.take(j)) >= 0,
    decreases fields.len() - j,
{
    lemma_row_length_nonneg(fields.take(j));
    if j == fields.len() {
        assert(fields.take(j) =~= fields);
    } else {
        lemma_row_length_prefix_bound(fields, j + 1);
        assert(fields.take(j + 1).drop_last() =~= fields.take(j));
        assert(fields.take(j + 1).last() == fields[j]);
        lemma_spec_size_at_least_one(fields[j].type_spec.db_type);
    }
}

/// A table: a name, a shared immutable schema, and the two byte regions
/// rows are accumulated in. The fixed region holds each row's fixed-width
/// slots; the variable region is the table's byte heap, backing externally
/// indirected values.
#[derive(Debug)]
pub struct Table {
    /// The table's name.
    pub name: String,
    /// The schema every row of this table follows, shared read-only.
    pub schema: Rc<Schema>,
    /// Concatenated fixed-region bytes of the rows accumulated so far.
    pub fixed_data: Vec<u8>,
    /// The byte heap backing this table's externally indirected values.
    pub variable_data: DbHeap,
}

impl Table {
    /// An empty table over `schema`: no fixed bytes, an empty heap.
    pub fn new(name: String, schema: Rc<Schema>) -> (t: Self)
        ensures
            t.name@ == name@,
            t.schema@ == schema@,
            t.fixed_data@ =~= Seq::<u8>::empty(),
            t.variable_data@ =~= Seq::<u8>::empty(),
    {
        Table { name, schema, fixed_data: Vec::new(), variable_data: DbHeap::new() }
    }

    /// The fixed row width for this table: the sum of its schema's
    /// footprints in declaration order, invariant across all rows.
    pub fn row_length(&self) -> (n: usize)
        requires
            spec_row_length(self.schema@) <= usize::MAX,
        ensures
            n == spec_row_length(self.schema@),
    {
        let schema: &Vec<FieldSpec> = &self.schema;
        let mut acc: usize = 0;
        let mut i: usize = 0;
        while i < schema.len()
            invariant
                0 <= i <= schema@.len(),
                schema@ == self.schema@,
                spec_row_length(self.schema@) <= usize::MAX,
                acc == spec_row_length(self.schema@.take(i as int)),
            decreases schema@.len() - i,
        {
            let s = schema[i].size();
            proof {
                lemma_row_length_prefix_bound(self.schema@, i + 1);
                assert(self.schema@.take(i + 1).drop_last() =~= self.schema@.take(i as int));
                assert(self.schema@.take(i + 1).last() == self.schema@[i as int]);
            }
            acc = acc + s;
            i = i + 1;
        }
        proof {
            assert(self.schema@.take(i as int) =~= self.schema@);
        }
        acc
    }

    /// The byte offset of field `i`'s slot inside a row of this table: the
    /// sum of the footprints of the fields before it.
    pub fn field_offset(&self, i: usize) -> (n: usize)
        requires
            i <= self.schema@.len(),
            spec_row_length(self.schema@) <= usize::MAX,
        ensures
            n == spec_row_length(self.schema@.take(i as int)),
    {
        let schema: &Vec<FieldSpec> = &self.schema;
        let mut acc: usize = 0;
        let mut j: usize = 0;
        while j < i
            invariant
                0 <= j <= i <= schema@.len(),
                schema@ == self.schema@,
                spec_row_length(self.schema@) <= usize::MAX,
                acc == spec_row_length(self.schema@.take(j as int)),
            decreases i - j,
        {
            let s = schema[j].size();
            proof {
                lemma_row_length_prefix_bound(self.schema@, j + 1);
                lemma_row_length_prefix_bound(self.schema@.take(j + 1), j as int);
                assert(self.schema@.take(j + 1).drop_last() =~= self.schema@.take(j as int));
                assert(self.schema@.take(j + 1).last() == self.schema@[j as int]);
            }
            acc = acc + s;
            j = j + 1;
        }
        acc
    }
}

} // verus!
