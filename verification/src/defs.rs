//! Declarations of the FFI contract and the catalog that indexes them.

use vstd::prelude::*;
use vstd::string::*;

use crate::ids::{CallbackId, CustomTypeId, EnumId, FieldName, FunctionId, MethodId, ParamName, RecordId};
use crate::types::{PrimitiveType, TypeExpr};

verus! {

/// Index of the first entry of `keys` equal to `key`, or -1 when there is none.
pub open spec fn first_index(keys: Seq<Seq<char>>, key: Seq<char>) -> int {
    if exists|i: int| 0 <= i < keys.len() && keys[i] == key {
        choose|i: int|
            0 <= i < keys.len() && keys[i] == key && forall|j: int| 0 <= j < i ==> keys[j] != key
    } else {
        -1
    }
}

/// The first index is pinned down once a position is known to hold the key
/// and every earlier position is known not to.
pub proof fn lemma_first_index_at(keys: Seq<Seq<char>>, key: Seq<char>, i: int)
    requires
        0 <= i < keys.len(),
        keys[i] == key,
        forall|j: int| 0 <= j < i ==> keys[j] != key,
    ensures
        first_index(keys, key) == i,
{
    let k = choose|k: int|
        0 <= k < keys.len() && keys[k] == key && forall|j: int| 0 <= j < k ==> keys[j] != key;
    assert(0 <= k < keys.len() && keys[k] == key && forall|j: int| 0 <= j < k ==> keys[j] != key);
    if k < i {
        assert(keys[k] != key);
    }
    if i < k {
        assert(keys[i] != key);
    }
}

/// A key that occurs nowhere has no first index.
pub proof fn lemma_first_index_absent(keys: Seq<Seq<char>>, key: Seq<char>)
    requires
        forall|j: int| 0 <= j < keys.len() ==> keys[j] != key,
    ensures
        first_index(keys, key) == -1,
{
}

/// One named field of a record or of a struct-shaped variant.
pub struct FieldDef {
    pub name: FieldName,
    pub type_expr: TypeExpr,
    pub doc: Option<String>,
}

/// A record declaration.
pub struct RecordDef {
    pub id: RecordId,
    pub is_repr_c: bool,
    pub is_error: bool,
    pub fields: Vec<FieldDef>,
    pub doc: Option<String>,
}

/// One variant of a fieldless enum.
pub struct CStyleVariant {
    pub name: String,
    pub discriminant: i128,
    pub doc: Option<String>,
}

/// What a variant of a payload-carrying enum carries.
pub enum VariantPayload {
    Unit,
    Tuple(Vec<TypeExpr>),
    Struct(Vec<FieldDef>),
}

/// One variant of a payload-carrying enum.
pub struct DataVariant {
    pub name: String,
    pub discriminant: i128,
    pub payload: VariantPayload,
    pub doc: Option<String>,
}

/// How an enum crosses the boundary.
#[allow(inconsistent_fields)]
pub enum EnumRepr {
    CStyle { tag_type: PrimitiveType, variants: Vec<CStyleVariant> },
    Data { tag_type: PrimitiveType, variants: Vec<DataVariant> },
}

/// An enum declaration.
pub struct EnumDef {
    pub id: EnumId,
    pub repr: EnumRepr,
    pub is_error: bool,
    pub doc: Option<String>,
}

/// A custom type: a Rust wrapper whose wire form is `repr`.
pub struct CustomTypeDef {
    pub id: CustomTypeId,
    pub rust_type: String,
    pub repr: TypeExpr,
    pub doc: Option<String>,
}

/// How a parameter is handed over.
#[derive(Clone, Copy, Debug, PartialEq, Eq, Structural)]
pub enum ParamPassing {
    Value,
    Ref,
    RefMut,
}

/// One parameter of a function or callback method.
pub struct ParamDef {
    pub name: ParamName,
    pub type_expr: TypeExpr,
    pub passing: ParamPassing,
    pub doc: Option<String>,
}

/// What a function or method returns.
pub enum ReturnDef {
    Void,
    Value(TypeExpr),
    Result { ok: TypeExpr, err: TypeExpr },
}

/// Whether a callable completes synchronously.
#[derive(Clone, Copy, Debug, PartialEq, Eq, Structural)]
pub enum ExecutionKind {
    Sync,
    Async,
}

/// An exported free function.
pub struct FunctionDef {
    pub id: FunctionId,
    pub params: Vec<ParamDef>,
    pub returns: ReturnDef,
    pub execution_kind: ExecutionKind,
    pub doc: Option<String>,
}

impl FunctionDef {
    /// Whether the function is `async`.
    pub fn is_async(&self) -> (res: bool)
        ensures
            res == (self.execution_kind == ExecutionKind::Async),
    {
        self.execution_kind == ExecutionKind::Async
    }
}

/// Whether a callback is a trait object or an inline closure signature.
#[derive(Clone, Copy, Debug, PartialEq, Eq, Structural)]
pub enum CallbackKind {
    Trait,
    Closure,
}

/// One method of a callback trait.
pub struct CallbackMethodDef {
    pub id: MethodId,
    pub params: Vec<ParamDef>,
    pub returns: ReturnDef,
    pub execution_kind: ExecutionKind,
}

impl CallbackMethodDef {
    /// Whether the method is `async`.
    pub fn is_async(&self) -> (res: bool)
        ensures
            res == (self.execution_kind == ExecutionKind::Async),
    {
        self.execution_kind == ExecutionKind::Async
    }
}

/// A callback trait (or closure signature) the foreign side implements.
pub struct CallbackTraitDef {
    pub id: CallbackId,
    pub kind: CallbackKind,
    pub methods: Vec<CallbackMethodDef>,
}

/// Every declaration of a contract, in declaration order.
pub struct TypeCatalog {
    pub records: Vec<RecordDef>,
    pub enums: Vec<EnumDef>,
    pub customs: Vec<CustomTypeDef>,
    pub callbacks: Vec<CallbackTraitDef>,
}

/// The ids of the records, in order.
pub open spec fn record_keys(records: Seq<RecordDef>) -> Seq<Seq<char>> {
    records.map_values(|r: RecordDef| r.id@)
}

/// The ids of the enums, in order.
pub open spec fn enum_keys(enums: Seq<EnumDef>) -> Seq<Seq<char>> {
    enums.map_values(|e: EnumDef| e.id@)
}

/// The ids of the custom types, in order.
pub open spec fn custom_keys(customs: Seq<CustomTypeDef>) -> Seq<Seq<char>> {
    customs.map_values(|c: CustomTypeDef| c.id@)
}

/// The ids of the callbacks, in order.
pub open spec fn callback_keys(callbacks: Seq<CallbackTraitDef>) -> Seq<Seq<char>> {
    callbacks.map_values(|c: CallbackTraitDef| c.id@)
}

impl TypeCatalog {
    /// A catalog with no declarations.
    pub fn new() -> (res: Self)
        ensures
            res.records@.len() == 0,
            res.enums@.len() == 0,
            res.customs@.len() == 0,
            res.callbacks@.len() == 0,
    {
        TypeCatalog { records: Vec::new(), enums: Vec::new(), customs: Vec::new(), callbacks: Vec::new() }
    }

    /// Index of the custom type that `id` resolves to, or -1.
    pub open spec fn custom_index(&self, id: Seq<char>) -> int {
        first_index(custom_keys(self.customs@), id)
    }

    /// Index of the record that `id` resolves to, or -1.
    pub open spec fn record_index(&self, id: Seq<char>) -> int {
        first_index(record_keys(self.records@), id)
    }

    /// Index of the enum that `id` resolves to, or -1.
    pub open spec fn enum_index(&self, id: Seq<char>) -> int {
        first_index(enum_keys(self.enums@), id)
    }

    /// Index of the callback that `id` resolves to, or -1.
    pub open spec fn callback_index(&self, id: Seq<char>) -> int {
        first_index(callback_keys(self.callbacks@), id)
    }

    /// The custom type declared under `id`, if any.
    pub fn resolve_custom(&self, id: &CustomTypeId) -> (res: Option<&CustomTypeDef>)
        ensures
            -1 <= self.custom_index(id@) < self.customs@.len(),
            res is Some <==> self.custom_index(id@) >= 0,
            res matches Some(c) ==> *c == self.customs@[self.custom_index(id@)],
    {
        let ghost keys = custom_keys(self.customs@);
        let mut i: usize = 0;
        while i < self.customs.len()
            invariant
                i <= self.customs@.len(),
                keys == custom_keys(self.customs@),
                forall|j: int| 0 <= j < i ==> keys[j] != id@,
            decreases self.customs.len() - i,
        {
            if self.customs[i].id.same_as(id) {
                proof { lemma_first_index_at(keys, id@, i as int); }
                return Some(&self.customs[i]);
            }
            i = i + 1;
        }
        proof { lemma_first_index_absent(keys, id@); }
        None
    }

    /// The record declared under `id`, if any.
    pub fn resolve_record(&self, id: &RecordId) -> (res: Option<&RecordDef>)
        ensures
            -1 <= self.record_index(id@) < self.records@.len(),
            res is Some <==> self.record_index(id@) >= 0,
            res matches Some(r) ==> *r == self.records@[self.record_index(id@)],
    {
        let ghost keys = record_keys(self.records@);
        let mut i: usize = 0;
        while i < self.records.len()
            invariant
                i <= self.records@.len(),
                keys == record_keys(self.records@),
                forall|j: int| 0 <= j < i ==> keys[j] != id@,
            decreases self.records.len() - i,
        {
            if self.records[i].id.same_as(id) {
                proof { lemma_first_index_at(keys, id@, i as int); }
                return Some(&self.records[i]);
            }
            i = i + 1;
        }
        proof { lemma_first_index_absent(keys, id@); }
        None
    }

    /// The enum declared under `id`, if any.
    pub fn resolve_enum(&self, id: &EnumId) -> (res: Option<&EnumDef>)
        ensures
            -1 <= self.enum_index(id@) < self.enums@.len(),
            res is Some <==> self.enum_index(id@) >= 0,
            res matches Some(e) ==> *e == self.enums@[self.enum_index(id@)],
    {
        let ghost keys = enum_keys(self.enums@);
        let mut i: usize = 0;
        while i < self.enums.len()
            invariant
                i <= self.enums@.len(),
                keys == enum_keys(self.enums@),
                forall|j: int| 0 <= j < i ==> keys[j] != id@,
            decreases self.enums.len() - i,
        {
            if self.enums[i].id.same_as(id) {
                proof { lemma_first_index_at(keys, id@, i as int); }
                return Some(&self.enums[i]);
            }
            i = i + 1;
        }
        proof { lemma_first_index_absent(keys, id@); }
        None
    }

    /// The callback declared under `id`, if any.
    pub fn resolve_callback(&self, id: &CallbackId) -> (res: Option<&CallbackTraitDef>)
        ensures
            -1 <= self.callback_index(id@) < self.callbacks@.len(),
            res is Some <==> self.callback_index(id@) >= 0,
            res matches Some(c) ==> *c == self.callbacks@[self.callback_index(id@)],
    {
        let ghost keys = callback_keys(self.callbacks@);
        let mut i: usize = 0;
        while i < self.callbacks.len()
            invariant
                i <= self.callbacks@.len(),
                keys == callback_keys(self.callbacks@),
                forall|j: int| 0 <= j < i ==> keys[j] != id@,
            decreases self.callbacks.len() - i,
        {
            if self.callbacks[i].id.same_as(id) {
                proof { lemma_first_index_at(keys, id@, i as int); }
                return Some(&self.callbacks[i]);
            }
            i = i + 1;
        }
        proof { lemma_first_index_absent(keys, id@); }
        None
    }

    /// Adds a record declaration after the existing ones.
    pub fn insert_record(&mut self, record: RecordDef)
        ensures
            final(self).records@ == old(self).records@.push(record),
            final(self).enums@ == old(self).enums@,
            final(self).customs@ == old(self).customs@,
            final(self).callbacks@ == old(self).callbacks@,
    {
        self.records.push(record);
    }

    /// Adds an enum declaration after the existing ones.
    pub fn insert_enum(&mut self, enumeration: EnumDef)
        ensures
            final(self).enums@ == old(self).enums@.push(enumeration),
            final(self).records@ == old(self).records@,
            final(self).customs@ == old(self).customs@,
            final(self).callbacks@ == old(self).callbacks@,
    {
        self.enums.push(enumeration);
    }

    /// Adds a custom type declaration after the existing ones.
    pub fn insert_custom(&mut self, custom: CustomTypeDef)
        ensures
            final(self).customs@ == old(self).customs@.push(custom),
            final(self).records@ == old(self).records@,
            final(self).enums@ == old(self).enums@,
            final(self).callbacks@ == old(self).callbacks@,
    {
        self.customs.push(custom);
    }

    /// Adds a callback declaration after the existing ones.
    pub fn insert_callback(&mut self, callback: CallbackTraitDef)
        ensures
            final(self).callbacks@ == old(self).callbacks@.push(callback),
            final(self).records@ == old(self).records@,
            final(self).enums@ == old(self).enums@,
            final(self).customs@ == old(self).customs@,
    {
        self.callbacks.push(callback);
    }
}

/// Name and version of the package a contract describes.
pub struct PackageInfo {
    pub name: String,
    pub version: Option<String>,
}

/// Everything a backend renders: the package, its functions and its types.
pub struct FfiContract {
    pub package: PackageInfo,
    pub functions: Vec<FunctionDef>,
    pub catalog: TypeCatalog,
}

} // verus!
