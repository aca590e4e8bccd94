//! The C# lowerer: the state every C# lowering step shares, and how source
//! types are spelled in C#.

use vstd::prelude::*;
use vstd::string::*;

use crate::abi::AbiContract;
use crate::csharp_admission::{
    admission_walks_end, admitted_enums, admitted_records, closed_under_admission, compute_supported_sets, seed_enums,
};
use crate::csharp_ast::{CSharpParameter, CSharpParameterList, CSharpType, CSharpTypeReference};
use crate::csharp_names::{escaped_identifier, CSharpClassName, CSharpMethodName, CSharpParamName};
use crate::custom_chains::{custom_depth, customs_resolve};
use crate::defs::{EnumRepr, FfiContract, FunctionDef, ParamDef, ReturnDef, TypeCatalog};
use crate::id_sets::{EnumIdSet, RecordIdSet};
use crate::naming::{camel_case, pascal_case};
use crate::types::{PrimitiveType, TypeExpr};

verus! {

/// Options of the C# backend.
pub struct CSharpOptions {
    pub namespace: Option<String>,
}

impl CSharpOptions {
    /// The default options: the namespace follows the package name.
    pub fn default() -> (res: Self)
        ensures
            res.namespace is None,
    {
        CSharpOptions { namespace: None }
    }
}

/// The C# type a primitive is spelled as.
pub open spec fn csharp_primitive(p: PrimitiveType) -> CSharpType {
    match p {
        PrimitiveType::Bool => CSharpType::Bool,
        PrimitiveType::I8 => CSharpType::SByte,
        PrimitiveType::U8 => CSharpType::Byte,
        PrimitiveType::I16 => CSharpType::Short,
        PrimitiveType::U16 => CSharpType::UShort,
        PrimitiveType::I32 => CSharpType::Int,
        PrimitiveType::U32 => CSharpType::UInt,
        PrimitiveType::I64 => CSharpType::Long,
        PrimitiveType::U64 => CSharpType::ULong,
        PrimitiveType::ISize => CSharpType::NInt,
        PrimitiveType::USize => CSharpType::NUInt,
        PrimitiveType::F32 => CSharpType::Float,
        PrimitiveType::F64 => CSharpType::Double,
    }
}

/// The C# type of a primitive.
pub fn csharp_type_for_primitive(p: PrimitiveType) -> (res: CSharpType)
    ensures
        res == csharp_primitive(p),
{
    match p {
        PrimitiveType::Bool => CSharpType::Bool,
        PrimitiveType::I8 => CSharpType::SByte,
        PrimitiveType::U8 => CSharpType::Byte,
        PrimitiveType::I16 => CSharpType::Short,
        PrimitiveType::U16 => CSharpType::UShort,
        PrimitiveType::I32 => CSharpType::Int,
        PrimitiveType::U32 => CSharpType::UInt,
        PrimitiveType::I64 => CSharpType::Long,
        PrimitiveType::U64 => CSharpType::ULong,
        PrimitiveType::ISize => CSharpType::NInt,
        PrimitiveType::USize => CSharpType::NUInt,
        PrimitiveType::F32 => CSharpType::Float,
        PrimitiveType::F64 => CSharpType::Double,
    }
}

/// `t` is the plain named type whose name is `name`.
pub open spec fn plain_named(r: CSharpTypeReference, name: Seq<char>) -> bool {
    r matches CSharpTypeReference::Plain(n) && n@ == name
}

/// Whether `ty` has a C# spelling: every custom type in it resolves within
/// `fuel` steps, every enum is declared, and it holds no builtin and no
/// result.
pub open spec fn lowerable(cat: TypeCatalog, ty: TypeExpr, fuel: nat) -> bool
    decreases fuel, ty,
{
    match ty {
        TypeExpr::Void | TypeExpr::Primitive(_) | TypeExpr::String | TypeExpr::Bytes => true,
        TypeExpr::Record(_) | TypeExpr::Callback(_) | TypeExpr::Handle(_) => true,
        TypeExpr::Enum(id) => cat.enum_index(id@) >= 0,
        TypeExpr::Custom(id) => {
            let k = cat.custom_index(id@);
            fuel > 0 && 0 <= k < cat.customs@.len() && lowerable(cat, cat.customs@[k].repr, (fuel - 1) as nat)
        },
        TypeExpr::Vec(inner) => lowerable(cat, *inner, fuel),
        TypeExpr::Option(inner) => lowerable(cat, *inner, fuel),
        TypeExpr::Builtin(_) | TypeExpr::Result { .. } => false,
    }
}

/// `t` is the C# spelling of `ty`: primitives by their C# keyword, bytes as
/// `byte[]`, records, callbacks and classes by their `PascalCase` name,
/// enums by their name as a C-style or data enum, a custom type as its
/// representation, a vector as an array and an option as a nullable.
pub open spec fn lowers_to(cat: TypeCatalog, ty: TypeExpr, t: CSharpType, fuel: nat) -> bool
    decreases fuel, ty,
{
    match ty {
        TypeExpr::Void => t is Void,
        TypeExpr::Primitive(p) => t == csharp_primitive(p),
        TypeExpr::String => t is String,
        TypeExpr::Bytes => t matches CSharpType::Array(e) && *e is Byte,
        TypeExpr::Record(id) => t matches CSharpType::Record(r) && plain_named(r, pascal_case(id@)),
        TypeExpr::Callback(id) => t matches CSharpType::Named(r) && plain_named(r, pascal_case(id@)),
        TypeExpr::Handle(id) => t matches CSharpType::Named(r) && plain_named(r, pascal_case(id@)),
        TypeExpr::Enum(id) => {
            let k = cat.enum_index(id@);
            0 <= k < cat.enums@.len() && if cat.enums@[k].repr is CStyle {
                t matches CSharpType::CStyleEnum(r) && plain_named(r, pascal_case(id@))
            } else {
                t matches CSharpType::DataEnum(r) && plain_named(r, pascal_case(id@))
            }
        },
        TypeExpr::Custom(id) => {
            let k = cat.custom_index(id@);
            fuel > 0 && 0 <= k < cat.customs@.len() && lowers_to(cat, cat.customs@[k].repr, t, (fuel - 1) as nat)
        },
        TypeExpr::Vec(inner) => t matches CSharpType::Array(e) && lowers_to(cat, *inner, *e, fuel),
        TypeExpr::Option(inner) => t matches CSharpType::Nullable(e) && lowers_to(cat, *inner, *e, fuel),
        TypeExpr::Builtin(_) | TypeExpr::Result { .. } => false,
    }
}

/// Whether `ty` can cross a C# signature given the admitted records `rs`
/// and enums `es`: a custom type is judged by its representation, a vector
/// by its element, and `Option<Option<_>>` is refused since C# has no `T??`.
pub open spec fn supported_type(cat: TypeCatalog, ty: TypeExpr, rs: Set<Seq<char>>, es: Set<Seq<char>>, fuel: nat) -> bool
    decreases fuel, ty, 0nat,
{
    match ty {
        TypeExpr::Void | TypeExpr::Primitive(_) | TypeExpr::String | TypeExpr::Bytes => true,
        TypeExpr::Record(id) => rs.contains(id@),
        TypeExpr::Enum(id) => es.contains(id@),
        TypeExpr::Custom(id) => {
            let k = cat.custom_index(id@);
            fuel > 0 && 0 <= k < cat.customs@.len() && supported_type(cat, cat.customs@[k].repr, rs, es, (fuel - 1) as nat)
        },
        TypeExpr::Vec(inner) => supported_vec_element(cat, *inner, rs, es, fuel),
        TypeExpr::Option(inner) => !(*inner is Option) && supported_type(cat, *inner, rs, es, fuel),
        _ => false,
    }
}

/// Whether `ty` can be the element of a C# array: a supported type other
/// than `void`.
pub open spec fn supported_vec_element(cat: TypeCatalog, ty: TypeExpr, rs: Set<Seq<char>>, es: Set<Seq<char>>, fuel: nat) -> bool
    decreases fuel, ty, 1nat,
{
    !(ty is Void) && supported_type(cat, ty, rs, es, fuel)
}

/// Whether an array of `ty` can be pinned and handed over as raw memory: a
/// primitive other than `bool`, possibly behind custom types.
pub open spec fn blittable_element(cat: TypeCatalog, ty: TypeExpr, fuel: nat) -> bool
    decreases fuel,
{
    match ty {
        TypeExpr::Primitive(p) => p != PrimitiveType::Bool,
        TypeExpr::Custom(id) => {
            let k = cat.custom_index(id@);
            fuel > 0 && 0 <= k < cat.customs@.len() && blittable_element(cat, cat.customs@[k].repr, (fuel - 1) as nat)
        },
        _ => false,
    }
}

/// The state every C# lowering step shares: the contract, its ABI, the
/// namespace, and the records and enums the backend can render.
pub struct CSharpLowerer<'a> {
    pub ffi: &'a FfiContract,
    pub abi: &'a AbiContract,
    pub namespace: String,
    pub supported_records: RecordIdSet,
    pub supported_enums: EnumIdSet,
}

/// A free function as the C# surface exposes it.
pub struct CSharpFunctionPlan {
    pub name: CSharpMethodName,
    pub params: CSharpParameterList,
    pub return_type: CSharpType,
    pub is_async: bool,
}

impl<'a> CSharpLowerer<'a> {
    /// The lowerer's state is consistent: its sets are the least pair
    /// closed under admission for its contract.
    pub open spec fn wf(&self) -> bool {
        &&& admission_walks_end(self.ffi.catalog)
        &&& closed_under_admission(self.ffi.catalog, self.supported_records@, self.supported_enums@)
        &&& forall|rs: Set<Seq<char>>, es: Set<Seq<char>>| closed_under_admission(self.ffi.catalog, rs, es)
            ==> self.supported_records@.subset_of(rs) && self.supported_enums@.subset_of(es)
    }

    /// Prepares the lowering of `ffi`: computes the records and enums the
    /// backend can render and picks the namespace, which is the option's
    /// when given and the package name otherwise.
    pub fn new(ffi: &'a FfiContract, abi: &'a AbiContract, options: &CSharpOptions) -> (res: Self)
        requires
            admission_walks_end(ffi.catalog),
        ensures
            res.wf(),
            res.ffi == ffi,
            res.abi == abi,
            res.namespace@ == (match options.namespace {
                Some(n) => n@,
                None => pascal_case(ffi.package.name@),
            }),
    {
        let (records, enums) = Self::compute_supported_sets(ffi);
        let namespace = match &options.namespace {
            Some(n) => n.clone(),
            None => crate::naming::to_pascal_case(ffi.package.name.as_str()),
        };
        CSharpLowerer { ffi, abi, namespace, supported_records: records, supported_enums: enums }
    }

    /// Computes which records and enums the backend can render, jointly:
    /// the least pair of sets that holds the C-style enums with a legal
    /// backing type and is closed under admission.
    pub fn compute_supported_sets(ffi: &FfiContract) -> (res: (RecordIdSet, EnumIdSet))
        requires
            admission_walks_end(ffi.catalog),
        ensures
            closed_under_admission(ffi.catalog, res.0@, res.1@),
            res.0@.subset_of(admitted_records(ffi.catalog, res.0@, res.1@)),
            res.1@.subset_of(seed_enums(ffi.catalog).union(admitted_enums(ffi.catalog, res.0@, res.1@))),
            forall|rs: Set<Seq<char>>, es: Set<Seq<char>>| closed_under_admission(ffi.catalog, rs, es)
                ==> res.0@.subset_of(rs) && res.1@.subset_of(es),
            res.0@ == admitted_records(ffi.catalog, res.0@, res.1@),
            res.1@ == seed_enums(ffi.catalog).union(admitted_enums(ffi.catalog, res.0@, res.1@)),
    {
        compute_supported_sets(ffi)
    }

    /// Spells `ty` in C#; `None` when it has no C# spelling.
    pub(crate) fn lower_type_with_fuel(&self, ty: &TypeExpr, Ghost(fuel): Ghost<nat>) -> (res: Option<CSharpType>)
        requires
            customs_resolve(self.ffi.catalog, *ty, fuel),
        ensures
            res is Some <==> lowerable(self.ffi.catalog, *ty, fuel),
            res matches Some(t) ==> lowers_to(self.ffi.catalog, *ty, t, fuel),
        decreases fuel, ty,
    {
        match ty {
            TypeExpr::Void => Some(CSharpType::Void),
            TypeExpr::Primitive(p) => Some(csharp_type_for_primitive(*p)),
            TypeExpr::String => Some(CSharpType::String),
            TypeExpr::Bytes => Some(CSharpType::Array(Box::new(CSharpType::Byte))),
            TypeExpr::Record(id) => Some(CSharpType::Record(CSharpTypeReference::Plain(CSharpClassName::from_source(id.as_str())))),
            TypeExpr::Callback(id) => Some(CSharpType::Named(CSharpTypeReference::Plain(CSharpClassName::from_source(id.as_str())))),
            TypeExpr::Handle(id) => Some(CSharpType::Named(CSharpTypeReference::Plain(CSharpClassName::from_source(id.as_str())))),
            TypeExpr::Enum(id) => match self.ffi.catalog.resolve_enum(id) {
                Some(e) => {
                    let name = CSharpClassName::from_source(id.as_str());
                    match &e.repr {
                        EnumRepr::CStyle { .. } => Some(CSharpType::CStyleEnum(CSharpTypeReference::Plain(name))),
                        EnumRepr::Data { .. } => Some(CSharpType::DataEnum(CSharpTypeReference::Plain(name))),
                    }
                },
                None => None,
            },
            TypeExpr::Custom(id) => {
                let custom = self.ffi.catalog.resolve_custom(id);
                match custom {
                    Some(c) => self.lower_type_with_fuel(&c.repr, Ghost((fuel - 1) as nat)),
                    None => None,
                }
            },
            TypeExpr::Vec(inner) => match self.lower_type_with_fuel(inner, Ghost(fuel)) {
                Some(t) => Some(CSharpType::Array(Box::new(t))),
                None => None,
            },
            TypeExpr::Option(inner) => match self.lower_type_with_fuel(inner, Ghost(fuel)) {
                Some(t) => Some(CSharpType::Nullable(Box::new(t))),
                None => None,
            },
            TypeExpr::Builtin(_) => None,
            TypeExpr::Result { .. } => None,
        }
    }

    /// Whether `ty` can cross a C# signature.
    pub(crate) fn is_supported_type_with_fuel(&self, ty: &TypeExpr, Ghost(fuel): Ghost<nat>) -> (res: bool)
        requires
            customs_resolve(self.ffi.catalog, *ty, fuel),
        ensures
            res == supported_type(self.ffi.catalog, *ty, self.supported_records@, self.supported_enums@, fuel),
        decreases fuel, ty, 0nat,
    {
        match ty {
            TypeExpr::Void | TypeExpr::Primitive(_) | TypeExpr::String | TypeExpr::Bytes => true,
            TypeExpr::Record(id) => self.supported_records.contains(id),
            TypeExpr::Enum(id) => self.supported_enums.contains(id),
            TypeExpr::Custom(id) => match self.ffi.catalog.resolve_custom(id) {
                Some(c) => self.is_supported_type_with_fuel(&c.repr, Ghost((fuel - 1) as nat)),
                None => false,
            },
            TypeExpr::Vec(inner) => self.is_supported_vec_element_with_fuel(inner, Ghost(fuel)),
            TypeExpr::Option(inner) => !matches!(**inner, TypeExpr::Option(_)) && self.is_supported_type_with_fuel(inner, Ghost(fuel)),
            _ => false,
        }
    }

    /// Whether `ty` can be the element of a C# array.
    pub(crate) fn is_supported_vec_element_with_fuel(&self, ty: &TypeExpr, Ghost(fuel): Ghost<nat>) -> (res: bool)
        requires
            customs_resolve(self.ffi.catalog, *ty, fuel),
        ensures
            res == supported_vec_element(self.ffi.catalog, *ty, self.supported_records@, self.supported_enums@, fuel),
        decreases fuel, ty, 1nat,
    {
        !matches!(ty, TypeExpr::Void) && self.is_supported_type_with_fuel(ty, Ghost(fuel))
    }

    /// Whether an array of `ty` can be pinned and passed as raw memory.
    pub(crate) fn is_blittable_vec_element_with_fuel(&self, ty: &TypeExpr, Ghost(fuel): Ghost<nat>) -> (res: bool)
        requires
            customs_resolve(self.ffi.catalog, *ty, fuel),
        ensures
            res == blittable_element(self.ffi.catalog, *ty, fuel),
        decreases fuel,
    {
        match ty {
            TypeExpr::Primitive(p) => !matches!(p, PrimitiveType::Bool),
            TypeExpr::Custom(id) => match self.ffi.catalog.resolve_custom(id) {
                Some(c) => self.is_blittable_vec_element_with_fuel(&c.repr, Ghost((fuel - 1) as nat)),
                None => false,
            },
            _ => false,
        }
    }

    /// Whether `ty` is a declared C-style enum.
    pub fn is_c_style_enum_type(&self, ty: &TypeExpr) -> (res: bool)
        ensures
            res == (ty matches TypeExpr::Enum(id) && {
                let k = self.ffi.catalog.enum_index(id@);
                0 <= k < self.ffi.catalog.enums@.len() && self.ffi.catalog.enums@[k].repr is CStyle
            }),
    {
        match ty {
            TypeExpr::Enum(id) => match self.ffi.catalog.resolve_enum(id) {
                Some(e) => matches!(e.repr, EnumRepr::CStyle { .. }),
                None => false,
            },
            _ => false,
        }
    }
}

/// The return type a function's C# signature has: the value, or the `Ok`
/// type of a result, whose error becomes an exception.
pub open spec fn return_value_type(r: ReturnDef) -> TypeExpr {
    match r {
        ReturnDef::Void => TypeExpr::Void,
        ReturnDef::Value(t) => t,
        ReturnDef::Result { ok, .. } => ok,
    }
}

/// A parameter or return type the C# surface can carry and spell.
pub open spec fn carried(cat: TypeCatalog, ty: TypeExpr, rs: Set<Seq<char>>, es: Set<Seq<char>>, fuel: nat) -> bool {
    supported_type(cat, ty, rs, es, fuel) && lowerable(cat, ty, fuel)
}

/// Whether the C# surface can expose `f`: every parameter and the return
/// value are carried, and so is the error of a result.
pub open spec fn function_lowerable(cat: TypeCatalog, f: FunctionDef, rs: Set<Seq<char>>, es: Set<Seq<char>>, fuel: nat) -> bool {
    &&& forall|i: int| 0 <= i < f.params@.len() ==> carried(cat, #[trigger] f.params@[i].type_expr, rs, es, fuel)
    &&& carried(cat, return_value_type(f.returns), rs, es, fuel)
    &&& (f.returns matches ReturnDef::Result { err, .. } ==> carried(cat, err, rs, es, fuel))
}

/// Every custom type a function mentions resolves within `fuel` steps.
pub open spec fn function_customs_resolve(cat: TypeCatalog, f: FunctionDef, fuel: nat) -> bool {
    &&& forall|i: int| 0 <= i < f.params@.len() ==> customs_resolve(cat, #[trigger] f.params@[i].type_expr, fuel)
    &&& match f.returns {
        ReturnDef::Void => true,
        ReturnDef::Value(t) => customs_resolve(cat, t, fuel),
        ReturnDef::Result { ok, err } => customs_resolve(cat, ok, fuel) && customs_resolve(cat, err, fuel),
    }
}

impl<'a> CSharpLowerer<'a> {
    /// Lowers one parameter: its spelled type and its `camelCase` name.
    fn lower_param(&self, p: &ParamDef, Ghost(fuel): Ghost<nat>) -> (res: Option<CSharpParameter>)
        requires
            customs_resolve(self.ffi.catalog, p.type_expr, fuel),
        ensures
            res is Some <==> carried(self.ffi.catalog, p.type_expr, self.supported_records@, self.supported_enums@, fuel),
            res matches Some(q) ==> {
                &&& lowers_to(self.ffi.catalog, p.type_expr, q.csharp_type, fuel)
                &&& q.name@ == escaped_identifier(camel_case(p.name@))
                &&& q.modifier is None
                &&& q.attributes@.len() == 0
            },
    {
        if !self.is_supported_type_with_fuel(&p.type_expr, Ghost(fuel)) {
            return None;
        }
        match self.lower_type_with_fuel(&p.type_expr, Ghost(fuel)) {
            Some(t) => Some(CSharpParameter::bare(t, CSharpParamName::from_source(p.name.as_str()))),
            None => None,
        }
    }

    /// Lowers a free function to its C# signature; `None` when a parameter,
    /// the return value or the error of a result cannot cross a C#
    /// signature, so that the function is left out rather than emitted as
    /// code that does not compile.
    pub fn lower_function(&self, f: &FunctionDef) -> (res: Option<CSharpFunctionPlan>)
        requires
            function_customs_resolve(self.ffi.catalog, *f, crate::custom_chains::custom_depth(self.ffi.catalog)),
        ensures
            res is Some <==> function_lowerable(
                self.ffi.catalog,
                *f,
                self.supported_records@,
                self.supported_enums@,
                crate::custom_chains::custom_depth(self.ffi.catalog),
            ),
            res matches Some(plan) ==> {
                &&& plan.name@ == pascal_case(f.id@)
                &&& plan.is_async == (f.execution_kind == crate::defs::ExecutionKind::Async)
                &&& plan.params.params@.len() == f.params@.len()
                &&& forall|i: int| 0 <= i < f.params@.len() ==> {
                    &&& lowers_to(self.ffi.catalog, f.params@[i].type_expr, #[trigger] plan.params.params@[i].csharp_type, crate::custom_chains::custom_depth(self.ffi.catalog))
                    &&& plan.params.params@[i].name@ == escaped_identifier(camel_case(f.params@[i].name@))
                }
                &&& lowers_to(self.ffi.catalog, return_value_type(f.returns), plan.return_type, crate::custom_chains::custom_depth(self.ffi.catalog))
            },
    {
        let ghost fuel = crate::custom_chains::custom_depth(self.ffi.catalog);
        let ghost cat = self.ffi.catalog;
        let ghost rs = self.supported_records@;
        let ghost es = self.supported_enums@;
        let mut params = CSharpParameterList::empty();
        let mut i: usize = 0;
        while i < f.params.len()
            invariant
                fuel == crate::custom_chains::custom_depth(self.ffi.catalog),
                cat == self.ffi.catalog,
                rs == self.supported_records@,
                es == self.supported_enums@,
                function_customs_resolve(cat, *f, fuel),
                i <= f.params@.len(),
                params.params@.len() == i,
                forall|j: int| 0 <= j < i ==> carried(cat, #[trigger] f.params@[j].type_expr, rs, es, fuel),
                forall|j: int| 0 <= j < i ==> {
                    &&& lowers_to(cat, f.params@[j].type_expr, #[trigger] params.params@[j].csharp_type, fuel)
                    &&& params.params@[j].name@ == escaped_identifier(camel_case(f.params@[j].name@))
                },
            decreases f.params.len() - i,
        {
            assert(customs_resolve(cat, f.params@[i as int].type_expr, fuel));
            match self.lower_param(&f.params[i], Ghost(fuel)) {
                Some(q) => params.push(q),
                None => {
                    return None;
                },
            }
            i = i + 1;
        }
        let ret_ty: &TypeExpr = match &f.returns {
            ReturnDef::Void => &TypeExpr::Void,
            ReturnDef::Value(t) => t,
            ReturnDef::Result { ok, err } => {
                if !self.is_supported_type_with_fuel(err, Ghost(fuel)) {
                    return None;
                }
                if self.lower_type_with_fuel(err, Ghost(fuel)).is_none() {
                    return None;
                }
                ok
            },
        };
        assert(*ret_ty == return_value_type(f.returns));
        if !self.is_supported_type_with_fuel(ret_ty, Ghost(fuel)) {
            return None;
        }
        match self.lower_type_with_fuel(ret_ty, Ghost(fuel)) {
            Some(t) => Some(CSharpFunctionPlan {
                name: CSharpMethodName::from_source(f.id.as_str()),
                params,
                return_type: t,
                is_async: f.is_async(),
            }),
            None => None,
        }
    }
}

impl<'a> CSharpLowerer<'a> {
    /// Spells `ty` in C#; `None` when it has no C# spelling.
    pub fn lower_type(&self, ty: &TypeExpr) -> (res: Option<CSharpType>)
        requires
            customs_resolve(self.ffi.catalog, *ty, custom_depth(self.ffi.catalog)),
        ensures
            res is Some <==> lowerable(self.ffi.catalog, *ty, custom_depth(self.ffi.catalog)),
            res matches Some(t) ==> lowers_to(self.ffi.catalog, *ty, t, custom_depth(self.ffi.catalog)),
    {
        self.lower_type_with_fuel(ty, Ghost(custom_depth(self.ffi.catalog)))
    }

    /// Whether `ty` can cross a C# signature.
    pub fn is_supported_type(&self, ty: &TypeExpr) -> (res: bool)
        requires
            customs_resolve(self.ffi.catalog, *ty, custom_depth(self.ffi.catalog)),
        ensures
            res == supported_type(self.ffi.catalog, *ty, self.supported_records@, self.supported_enums@, custom_depth(self.ffi.catalog)),
    {
        self.is_supported_type_with_fuel(ty, Ghost(custom_depth(self.ffi.catalog)))
    }

    /// Whether `ty` can be the element of a C# array.
    pub fn is_supported_vec_element(&self, ty: &TypeExpr) -> (res: bool)
        requires
            customs_resolve(self.ffi.catalog, *ty, custom_depth(self.ffi.catalog)),
        ensures
            res == supported_vec_element(self.ffi.catalog, *ty, self.supported_records@, self.supported_enums@, custom_depth(self.ffi.catalog)),
    {
        self.is_supported_vec_element_with_fuel(ty, Ghost(custom_depth(self.ffi.catalog)))
    }

    /// Whether an array of `ty` can be pinned and passed as raw memory, the
    /// way the native side already hands over a vector of primitives.
    pub fn is_blittable_vec_element(&self, ty: &TypeExpr) -> (res: bool)
        requires
            customs_resolve(self.ffi.catalog, *ty, custom_depth(self.ffi.catalog)),
        ensures
            res == blittable_element(self.ffi.catalog, *ty, custom_depth(self.ffi.catalog)),
    {
        self.is_blittable_vec_element_with_fuel(ty, Ghost(custom_depth(self.ffi.catalog)))
    }
}

/// The width in bits and the signedness of an integral primitive; a width
/// of 0 stands for the pointer width. `None` for `bool` and floats.
pub open spec fn primitive_integer_layout(p: PrimitiveType) -> Option<(nat, bool)> {
    match p {
        PrimitiveType::I8 => Some((8, true)),
        PrimitiveType::U8 => Some((8, false)),
        PrimitiveType::I16 => Some((16, true)),
        PrimitiveType::U16 => Some((16, false)),
        PrimitiveType::I32 => Some((32, true)),
        PrimitiveType::U32 => Some((32, false)),
        PrimitiveType::I64 => Some((64, true)),
        PrimitiveType::U64 => Some((64, false)),
        PrimitiveType::ISize => Some((0, true)),
        PrimitiveType::USize => Some((0, false)),
        _ => None,
    }
}

/// The width in bits and the signedness of a C# integral type, as the C#
/// language defines them (`uint` is 32 bits unsigned); a width of 0 stands
/// for the pointer width of `nint` and `nuint`. `None` for other types.
pub open spec fn csharp_integer_layout(t: CSharpType) -> Option<(nat, bool)> {
    match t {
        CSharpType::SByte => Some((8, true)),
        CSharpType::Byte => Some((8, false)),
        CSharpType::Short => Some((16, true)),
        CSharpType::UShort => Some((16, false)),
        CSharpType::Int => Some((32, true)),
        CSharpType::UInt => Some((32, false)),
        CSharpType::Long => Some((64, true)),
        CSharpType::ULong => Some((64, false)),
        CSharpType::NInt => Some((0, true)),
        CSharpType::NUInt => Some((0, false)),
        _ => None,
    }
}

/// Each primitive lowers to the C# type of the same kind, width and
/// signedness: an integer to the integral type of its width and sign (an
/// unsigned one never to a signed type), `f32` to `float`, `f64` to
/// `double`, `bool` to `bool`; and distinct primitives lower to distinct
/// types.
pub proof fn lemma_primitive_lowering_keeps_layout(p: PrimitiveType, q: PrimitiveType)
    ensures
        csharp_integer_layout(csharp_primitive(p)) == primitive_integer_layout(p),
        (p == PrimitiveType::F32) <==> csharp_primitive(p) is Float,
        (p == PrimitiveType::F64) <==> csharp_primitive(p) is Double,
        (p == PrimitiveType::Bool) <==> csharp_primitive(p) is Bool,
        csharp_primitive(p) == csharp_primitive(q) ==> p == q,
{
}

} // verus!
