//! The documentation record of a module, built from its type and metadata.
use vstd::prelude::*;

use crate::model::{comment_for, lemma_lookup_finds_entry, lookup, Decl, Metadata, ModuleType};

verus! {

/// A documented declaration: its name, the text of its type, and its doc
/// comment (`""` where it has none).
#[derive(Clone, Debug, PartialEq, Eq)]
pub struct Field {
    pub name: String,
    pub typ: String,
    pub comment: String,
}

pub ghost struct FieldView {
    pub name: Seq<char>,
    pub typ: Seq<char>,
    pub comment: Seq<char>,
}

impl View for Field {
    type V = FieldView;

    open spec fn view(&self) -> FieldView {
        FieldView { name: self.name@, typ: self.typ@, comment: self.comment@ }
    }
}

/// The documented declarations of a module: the type-level ones, then the
/// value-level ones.
#[derive(Clone, Debug, PartialEq, Eq)]
pub struct Record {
    pub types: Vec<Field>,
    pub values: Vec<Field>,
}

pub ghost struct RecordView {
    pub types: Seq<FieldView>,
    pub values: Seq<FieldView>,
}

pub open spec fn fields_view(fields: Seq<Field>) -> Seq<FieldView> {
    fields.map_values(|f: Field| f@)
}

impl View for Record {
    type V = RecordView;

    open spec fn view(&self) -> RecordView {
        RecordView { types: fields_view(self.types@), values: fields_view(self.values@) }
    }
}

/// The documentation unit of one source file: its module name and record.
#[derive(Clone, Debug, PartialEq, Eq)]
pub struct Module {
    pub name: String,
    pub record: Record,
}

pub ghost struct ModuleView {
    pub name: Seq<char>,
    pub record: RecordView,
}

impl View for Module {
    type V = ModuleView;

    open spec fn view(&self) -> ModuleView {
        ModuleView { name: self.name@, record: self.record@ }
    }
}

/// The field that documents `decl`, with the comment that `meta` gives it.
pub open spec fn field_of(decl: (Seq<char>, Seq<char>), meta: &Metadata) -> FieldView {
    FieldView { name: decl.0, typ: decl.1, comment: comment_for(meta, decl.0) }
}

/// The fields that document `decls`, one for each, in the same order.
pub open spec fn fields_of(decls: Seq<Decl>, meta: &Metadata) -> Seq<FieldView> {
    decls.map_values(|d: Decl| field_of(d@, meta))
}

/// The record of a module of type `typ` with metadata `meta`.
pub open spec fn record_of(typ: &ModuleType, meta: &Metadata) -> RecordView {
    RecordView { types: fields_of(typ.type_fields@, meta), values: fields_of(typ.row@, meta) }
}

/// The fields that document `decls`, in their order, each commented from `meta`.
fn document(decls: &Vec<Decl>, meta: &Metadata) -> (r: Vec<Field>)
    ensures
        fields_view(r@) == fields_of(decls@, meta),
{
    let mut out: Vec<Field> = Vec::new();
    let n = decls.len();
    let mut i: usize = 0;
    while i < n
        invariant
            n == decls@.len(),
            i <= n,
            out@.len() == i,
            forall|j: int| 0 <= j < i ==> #[trigger] out@[j]@ == field_of(decls@[j]@, meta),
        decreases n - i,
    {
        let d = &decls[i];
        let f = Field { name: d.name.clone(), typ: d.typ.clone(), comment: meta.comment_of(d.name.as_str()) };
        out.push(f);
        i = i + 1;
    }
    proof {
        assert(fields_view(out@) =~= fields_of(decls@, meta));
    }
    out
}

/// Builds the record of a module of type `typ`: one field for each type-level
/// declaration in declaration order, with its type as written, then one for
/// each value-level declaration in row order, with its resolved type. Each
/// field's comment is the one `meta` holds under its name, or `""`. Duplicate
/// names are kept as they are.
pub fn record(typ: &ModuleType, meta: &Metadata) -> (r: Record)
    ensures
        r@ == record_of(typ, meta),
        r.types@.len() == typ.type_fields@.len(),
        r.values@.len() == typ.row@.len(),
        forall|i: int|
            0 <= i < r.types@.len() ==> #[trigger] r.types@[i]@ == field_of(typ.type_fields@[i]@, meta),
        forall|i: int| 0 <= i < r.values@.len() ==> #[trigger] r.values@[i]@ == field_of(typ.row@[i]@, meta),
{
    let types = document(&typ.type_fields, meta);
    let values = document(&typ.row, meta);
    let r = Record { types, values };
    proof {
        assert(fields_view(r.types@).len() == r.types@.len());
        assert(fields_view(r.values@).len() == r.values@.len());
        assert forall|i: int| 0 <= i < r.types@.len() implies #[trigger] r.types@[i]@ == field_of(typ.type_fields@[i]@, meta) by {
            assert(fields_view(r.types@)[i] == r.types@[i]@);
        }
        assert forall|i: int| 0 <= i < r.values@.len() implies #[trigger] r.values@[i]@ == field_of(typ.row@[i]@, meta) by {
            assert(fields_view(r.values@)[i] == r.values@[i]@);
        }
    }
    r
}

/// The declarations of `decls` as (name, type text) pairs.
pub open spec fn decls_view(decls: Seq<Decl>) -> Seq<(Seq<char>, Seq<char>)> {
    decls.map_values(|d: Decl| d@)
}

/// Building a record is deterministic: types with the same declarations and
/// equal metadata give equal records, field for field.
pub proof fn lemma_record_deterministic(t1: &ModuleType, m1: &Metadata, t2: &ModuleType, m2: &Metadata)
    requires
        decls_view(t1.type_fields@) == decls_view(t2.type_fields@),
        decls_view(t1.row@) == decls_view(t2.row@),
        *m1 == *m2,
    ensures
        record_of(t1, m1) == record_of(t2, m2),
{
    assert(decls_view(t1.type_fields@).len() == t1.type_fields@.len());
    assert(decls_view(t2.type_fields@).len() == t2.type_fields@.len());
    assert(decls_view(t1.row@).len() == t1.row@.len());
    assert(decls_view(t2.row@).len() == t2.row@.len());
    assert forall|i: int| 0 <= i < t1.type_fields@.len() implies t1.type_fields@[i]@ == t2.type_fields@[i]@ by {
        assert(decls_view(t1.type_fields@)[i] == decls_view(t2.type_fields@)[i]);
    }
    assert forall|i: int| 0 <= i < t1.row@.len() implies t1.row@[i]@ == t2.row@[i]@ by {
        assert(decls_view(t1.row@)[i] == decls_view(t2.row@)[i]);
    }
    assert(fields_of(t1.type_fields@, m1) =~= fields_of(t2.type_fields@, m2));
    assert(fields_of(t1.row@, m1) =~= fields_of(t2.row@, m2));
}

/// A field's comment is empty exactly when the metadata has no entry for its
/// name, or the entry has no comment; this needs every comment that the
/// metadata does hold to be non-empty.
pub proof fn lemma_comment_empty_iff_absent(meta: &Metadata, name: Seq<char>)
    requires
        forall|i: int|
            0 <= i < meta.module@.len() ==> ((#[trigger] meta.module@[i]).1.comment matches Some(c) ==> c@.len() > 0),
    ensures
        comment_for(meta, name).len() == 0 <==> (lookup(meta.module@, name) matches Some(m) ==> m.comment is None),
{
    lemma_lookup_finds_entry(meta.module@, name);
}

/// A type with no declarations gives a record with no fields.
pub proof fn lemma_empty_type_empty_record(typ: &ModuleType, meta: &Metadata)
    requires
        typ.type_fields@.len() == 0,
        typ.row@.len() == 0,
    ensures
        record_of(typ, meta) == (RecordView { types: Seq::empty(), values: Seq::empty() }),
{
    assert(fields_of(typ.type_fields@, meta) =~= Seq::empty());
    assert(fields_of(typ.row@, meta) =~= Seq::empty());
}

} // verus!
