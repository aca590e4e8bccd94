//! Identifiers of the declarations in an FFI contract.

use vstd::prelude::*;
use vstd::string::*;

verus! {

/// Identifier of a record declaration, as written in the source contract.
#[derive(Debug)]
pub struct RecordId(pub String);

impl View for RecordId {
    type V = Seq<char>;

    open spec fn view(&self) -> Seq<char> {
        self.0@
    }
}

impl RecordId {
    /// Wraps the source spelling.
    pub fn new(text: &str) -> (res: Self)
        ensures
            res@ == text@,
    {
        RecordId(String::from_str(text))
    }

    /// Returns the source spelling.
    pub fn as_str(&self) -> (res: &str)
        ensures
            res@ == self@,
    {
        self.0.as_str()
    }

    /// Whether both identifiers are spelled the same.
    pub fn same_as(&self, other: &RecordId) -> (res: bool)
        ensures
            res == (self@ == other@),
    {
        self.0 == other.0
    }
}

impl Clone for RecordId {
    fn clone(&self) -> (res: Self)
        ensures
            res == *self,
    {
        RecordId(self.0.clone())
    }
}

/// Identifier of an enum declaration, as written in the source contract.
#[derive(Debug)]
pub struct EnumId(pub String);

impl View for EnumId {
    type V = Seq<char>;

    open spec fn view(&self) -> Seq<char> {
        self.0@
    }
}

impl EnumId {
    /// Wraps the source spelling.
    pub fn new(text: &str) -> (res: Self)
        ensures
            res@ == text@,
    {
        EnumId(String::from_str(text))
    }

    /// Returns the source spelling.
    pub fn as_str(&self) -> (res: &str)
        ensures
            res@ == self@,
    {
        self.0.as_str()
    }

    /// Whether both identifiers are spelled the same.
    pub fn same_as(&self, other: &EnumId) -> (res: bool)
        ensures
            res == (self@ == other@),
    {
        self.0 == other.0
    }
}

impl Clone for EnumId {
    fn clone(&self) -> (res: Self)
        ensures
            res == *self,
    {
        EnumId(self.0.clone())
    }
}

/// Identifier of a custom type declaration, as written in the source contract.
#[derive(Debug)]
pub struct CustomTypeId(pub String);

impl View for CustomTypeId {
    type V = Seq<char>;

    open spec fn view(&self) -> Seq<char> {
        self.0@
    }
}

impl CustomTypeId {
    /// Wraps the source spelling.
    pub fn new(text: &str) -> (res: Self)
        ensures
            res@ == text@,
    {
        CustomTypeId(String::from_str(text))
    }

    /// Returns the source spelling.
    pub fn as_str(&self) -> (res: &str)
        ensures
            res@ == self@,
    {
        self.0.as_str()
    }

    /// Whether both identifiers are spelled the same.
    pub fn same_as(&self, other: &CustomTypeId) -> (res: bool)
        ensures
            res == (self@ == other@),
    {
        self.0 == other.0
    }
}

impl Clone for CustomTypeId {
    fn clone(&self) -> (res: Self)
        ensures
            res == *self,
    {
        CustomTypeId(self.0.clone())
    }
}

/// Identifier of a callback trait or closure signature, as written in the source contract.
#[derive(Debug)]
pub struct CallbackId(pub String);

impl View for CallbackId {
    type V = Seq<char>;

    open spec fn view(&self) -> Seq<char> {
        self.0@
    }
}

impl CallbackId {
    /// Wraps the source spelling.
    pub fn new(text: &str) -> (res: Self)
        ensures
            res@ == text@,
    {
        CallbackId(String::from_str(text))
    }

    /// Returns the source spelling.
    pub fn as_str(&self) -> (res: &str)
        ensures
            res@ == self@,
    {
        self.0.as_str()
    }

    /// Whether both identifiers are spelled the same.
    pub fn same_as(&self, other: &CallbackId) -> (res: bool)
        ensures
            res == (self@ == other@),
    {
        self.0 == other.0
    }
}

impl Clone for CallbackId {
    fn clone(&self) -> (res: Self)
        ensures
            res == *self,
    {
        CallbackId(self.0.clone())
    }
}

/// Identifier of an exported class, as written in the source contract.
#[derive(Debug)]
pub struct ClassId(pub String);

impl View for ClassId {
    type V = Seq<char>;

    open spec fn view(&self) -> Seq<char> {
        self.0@
    }
}

impl ClassId {
    /// Wraps the source spelling.
    pub fn new(text: &str) -> (res: Self)
        ensures
            res@ == text@,
    {
        ClassId(String::from_str(text))
    }

    /// Returns the source spelling.
    pub fn as_str(&self) -> (res: &str)
        ensures
            res@ == self@,
    {
        self.0.as_str()
    }

    /// Whether both identifiers are spelled the same.
    pub fn same_as(&self, other: &ClassId) -> (res: bool)
        ensures
            res == (self@ == other@),
    {
        self.0 == other.0
    }
}

impl Clone for ClassId {
    fn clone(&self) -> (res: Self)
        ensures
            res == *self,
    {
        ClassId(self.0.clone())
    }
}

/// Identifier of a builtin type, as written in the source contract.
#[derive(Debug)]
pub struct BuiltinId(pub String);

impl View for BuiltinId {
    type V = Seq<char>;

    open spec fn view(&self) -> Seq<char> {
        self.0@
    }
}

impl BuiltinId {
    /// Wraps the source spelling.
    pub fn new(text: &str) -> (res: Self)
        ensures
            res@ == text@,
    {
        BuiltinId(String::from_str(text))
    }

    /// Returns the source spelling.
    pub fn as_str(&self) -> (res: &str)
        ensures
            res@ == self@,
    {
        self.0.as_str()
    }

    /// Whether both identifiers are spelled the same.
    pub fn same_as(&self, other: &BuiltinId) -> (res: bool)
        ensures
            res == (self@ == other@),
    {
        self.0 == other.0
    }
}

impl Clone for BuiltinId {
    fn clone(&self) -> (res: Self)
        ensures
            res == *self,
    {
        BuiltinId(self.0.clone())
    }
}

/// Identifier of an exported function, as written in the source contract.
#[derive(Debug)]
pub struct FunctionId(pub String);

impl View for FunctionId {
    type V = Seq<char>;

    open spec fn view(&self) -> Seq<char> {
        self.0@
    }
}

impl FunctionId {
    /// Wraps the source spelling.
    pub fn new(text: &str) -> (res: Self)
        ensures
            res@ == text@,
    {
        FunctionId(String::from_str(text))
    }

    /// Returns the source spelling.
    pub fn as_str(&self) -> (res: &str)
        ensures
            res@ == self@,
    {
        self.0.as_str()
    }

    /// Whether both identifiers are spelled the same.
    pub fn same_as(&self, other: &FunctionId) -> (res: bool)
        ensures
            res == (self@ == other@),
    {
        self.0 == other.0
    }
}

impl Clone for FunctionId {
    fn clone(&self) -> (res: Self)
        ensures
            res == *self,
    {
        FunctionId(self.0.clone())
    }
}

/// Identifier of a callback method, as written in the source contract.
#[derive(Debug)]
pub struct MethodId(pub String);

impl View for MethodId {
    type V = Seq<char>;

    open spec fn view(&self) -> Seq<char> {
        self.0@
    }
}

impl MethodId {
    /// Wraps the source spelling.
    pub fn new(text: &str) -> (res: Self)
        ensures
            res@ == text@,
    {
        MethodId(String::from_str(text))
    }

    /// Returns the source spelling.
    pub fn as_str(&self) -> (res: &str)
        ensures
            res@ == self@,
    {
        self.0.as_str()
    }

    /// Whether both identifiers are spelled the same.
    pub fn same_as(&self, other: &MethodId) -> (res: bool)
        ensures
            res == (self@ == other@),
    {
        self.0 == other.0
    }
}

impl Clone for MethodId {
    fn clone(&self) -> (res: Self)
        ensures
            res == *self,
    {
        MethodId(self.0.clone())
    }
}

/// Identifier of a parameter, as written in the source contract.
#[derive(Debug)]
pub struct ParamName(pub String);

impl View for ParamName {
    type V = Seq<char>;

    open spec fn view(&self) -> Seq<char> {
        self.0@
    }
}

impl ParamName {
    /// Wraps the source spelling.
    pub fn new(text: &str) -> (res: Self)
        ensures
            res@ == text@,
    {
        ParamName(String::from_str(text))
    }

    /// Returns the source spelling.
    pub fn as_str(&self) -> (res: &str)
        ensures
            res@ == self@,
    {
        self.0.as_str()
    }

    /// Whether both identifiers are spelled the same.
    pub fn same_as(&self, other: &ParamName) -> (res: bool)
        ensures
            res == (self@ == other@),
    {
        self.0 == other.0
    }
}

impl Clone for ParamName {
    fn clone(&self) -> (res: Self)
        ensures
            res == *self,
    {
        ParamName(self.0.clone())
    }
}

/// Identifier of a record field, as written in the source contract.
#[derive(Debug)]
pub struct FieldName(pub String);

impl View for FieldName {
    type V = Seq<char>;

    open spec fn view(&self) -> Seq<char> {
        self.0@
    }
}

impl FieldName {
    /// Wraps the source spelling.
    pub fn new(text: &str) -> (res: Self)
        ensures
            res@ == text@,
    {
        FieldName(String::from_str(text))
    }

    /// Returns the source spelling.
    pub fn as_str(&self) -> (res: &str)
        ensures
            res@ == self@,
    {
        self.0.as_str()
    }

    /// Whether both identifiers are spelled the same.
    pub fn same_as(&self, other: &FieldName) -> (res: bool)
        ensures
            res == (self@ == other@),
    {
        self.0 == other.0
    }
}

impl Clone for FieldName {
    fn clone(&self) -> (res: Self)
        ensures
            res == *self,
    {
        FieldName(self.0.clone())
    }
}

/// The spellings of a sequence of record ids.
pub open spec fn record_id_seq(ids: Seq<RecordId>) -> Seq<Seq<char>> {
    ids.map_values(|x: RecordId| x@)
}

/// The spellings of a sequence of enum ids.
pub open spec fn enum_id_seq(ids: Seq<EnumId>) -> Seq<Seq<char>> {
    ids.map_values(|x: EnumId| x@)
}

} // verus!
