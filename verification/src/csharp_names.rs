//! Identifiers of generated C# code.
//!
//! Each kind of C# identifier has its own type so a local can never be
//! passed where a parameter or a class name is expected. `new` keeps the
//! spelling it is given; `from_source` spells a `snake_case` source name the
//! way C# expects that kind of identifier.

use vstd::prelude::*;
use vstd::string::*;

use crate::naming::{camel_case, pascal_case, str_eq, to_camel_case, to_pascal_case};
use crate::text::push_char;

verus! {

/// The C# keywords that cannot stand as a plain identifier.
pub open spec fn is_csharp_keyword(s: Seq<char>) -> bool {
    ||| s == "abstract"@ ||| s == "as"@ ||| s == "base"@ ||| s == "bool"@ ||| s == "break"@
    ||| s == "byte"@ ||| s == "case"@ ||| s == "catch"@ ||| s == "char"@ ||| s == "checked"@
    ||| s == "class"@ ||| s == "const"@ ||| s == "continue"@ ||| s == "decimal"@
    ||| s == "default"@ ||| s == "delegate"@ ||| s == "do"@ ||| s == "double"@ ||| s == "else"@
    ||| s == "enum"@ ||| s == "event"@ ||| s == "explicit"@ ||| s == "extern"@ ||| s == "false"@
    ||| s == "finally"@ ||| s == "fixed"@ ||| s == "float"@ ||| s == "for"@ ||| s == "foreach"@
    ||| s == "goto"@ ||| s == "if"@ ||| s == "implicit"@ ||| s == "in"@ ||| s == "int"@
    ||| s == "interface"@ ||| s == "internal"@ ||| s == "is"@ ||| s == "lock"@ ||| s == "long"@
    ||| s == "namespace"@ ||| s == "new"@ ||| s == "null"@ ||| s == "object"@
    ||| s == "operator"@ ||| s == "out"@ ||| s == "override"@ ||| s == "params"@
    ||| s == "private"@ ||| s == "protected"@ ||| s == "public"@ ||| s == "readonly"@
    ||| s == "ref"@ ||| s == "return"@ ||| s == "sbyte"@ ||| s == "sealed"@ ||| s == "short"@
    ||| s == "sizeof"@ ||| s == "stackalloc"@ ||| s == "static"@ ||| s == "string"@
    ||| s == "struct"@ ||| s == "switch"@ ||| s == "this"@ ||| s == "throw"@ ||| s == "true"@
    ||| s == "try"@ ||| s == "typeof"@ ||| s == "uint"@ ||| s == "ulong"@ ||| s == "unchecked"@
    ||| s == "unsafe"@ ||| s == "ushort"@ ||| s == "using"@ ||| s == "virtual"@ ||| s == "void"@
    ||| s == "volatile"@ ||| s == "while"@
}

/// Whether `s` is a C# keyword.
pub fn csharp_keyword(s: &str) -> (res: bool)
    ensures
        res == is_csharp_keyword(s@),
{
    str_eq(s, "abstract") || str_eq(s, "as") || str_eq(s, "base") || str_eq(s, "bool")
        || str_eq(s, "break") || str_eq(s, "byte") || str_eq(s, "case") || str_eq(s, "catch")
        || str_eq(s, "char") || str_eq(s, "checked") || str_eq(s, "class") || str_eq(s, "const")
        || str_eq(s, "continue") || str_eq(s, "decimal") || str_eq(s, "default")
        || str_eq(s, "delegate") || str_eq(s, "do") || str_eq(s, "double") || str_eq(s, "else")
        || str_eq(s, "enum") || str_eq(s, "event") || str_eq(s, "explicit") || str_eq(s, "extern")
        || str_eq(s, "false") || str_eq(s, "finally") || str_eq(s, "fixed") || str_eq(s, "float")
        || str_eq(s, "for") || str_eq(s, "foreach") || str_eq(s, "goto") || str_eq(s, "if")
        || str_eq(s, "implicit") || str_eq(s, "in") || str_eq(s, "int") || str_eq(s, "interface")
        || str_eq(s, "internal") || str_eq(s, "is") || str_eq(s, "lock") || str_eq(s, "long")
        || str_eq(s, "namespace") || str_eq(s, "new") || str_eq(s, "null") || str_eq(s, "object")
        || str_eq(s, "operator") || str_eq(s, "out") || str_eq(s, "override")
        || str_eq(s, "params") || str_eq(s, "private") || str_eq(s, "protected")
        || str_eq(s, "public") || str_eq(s, "readonly") || str_eq(s, "ref") || str_eq(s, "return")
        || str_eq(s, "sbyte") || str_eq(s, "sealed") || str_eq(s, "short") || str_eq(s, "sizeof")
        || str_eq(s, "stackalloc") || str_eq(s, "static") || str_eq(s, "string")
        || str_eq(s, "struct") || str_eq(s, "switch") || str_eq(s, "this") || str_eq(s, "throw")
        || str_eq(s, "true") || str_eq(s, "try") || str_eq(s, "typeof") || str_eq(s, "uint")
        || str_eq(s, "ulong") || str_eq(s, "unchecked") || str_eq(s, "unsafe")
        || str_eq(s, "ushort") || str_eq(s, "using") || str_eq(s, "virtual") || str_eq(s, "void")
        || str_eq(s, "volatile") || str_eq(s, "while")
}

/// `s`, prefixed with `@` when it is a keyword, so that it can stand as an
/// identifier.
pub open spec fn escaped_identifier(s: Seq<char>) -> Seq<char> {
    if is_csharp_keyword(s) {
        seq!['@'] + s
    } else {
        s
    }
}

fn escape_identifier(s: String) -> (res: String)
    ensures
        res@ == escaped_identifier(s@),
{
    if csharp_keyword(s.as_str()) {
        let mut res = String::new();
        push_char(&mut res, '@');
        res.append(s.as_str());
        res
    } else {
        s
    }
}

/// The name of a C# class, struct, enum or delegate type.
pub struct CSharpClassName(pub String);

impl View for CSharpClassName {
    type V = Seq<char>;

    open spec fn view(&self) -> Seq<char> {
        self.0@
    }
}

impl CSharpClassName {
    /// Keeps `name` as it is.
    pub fn new(name: &str) -> (res: Self)
        ensures
            res@ == name@,
    {
        CSharpClassName(String::from_str(name))
    }

    /// Spells a `snake_case` source name in `PascalCase`.
    pub fn from_source(name: &str) -> (res: Self)
        ensures
            res@ == pascal_case(name@),
    {
        CSharpClassName(to_pascal_case(name))
    }

    /// The spelling.
    pub fn as_str(&self) -> (res: &str)
        ensures
            res@ == self@,
    {
        self.0.as_str()
    }

    /// The spelling, as an owned string.
    pub fn to_string(&self) -> (res: String)
        ensures
            res@ == self@,
    {
        self.0.clone()
    }
}

impl Clone for CSharpClassName {
    fn clone(&self) -> (res: Self)
        ensures
            res == *self,
    {
        CSharpClassName(self.0.clone())
    }
}

/// The name of a local variable.
pub struct CSharpLocalName(pub String);

impl View for CSharpLocalName {
    type V = Seq<char>;

    open spec fn view(&self) -> Seq<char> {
        self.0@
    }
}

impl CSharpLocalName {
    /// Keeps `name` as it is.
    pub fn new(name: &str) -> (res: Self)
        ensures
            res@ == name@,
    {
        CSharpLocalName(String::from_str(name))
    }

    /// The spelling.
    pub fn as_str(&self) -> (res: &str)
        ensures
            res@ == self@,
    {
        self.0.as_str()
    }

    /// The spelling, as an owned string.
    pub fn to_string(&self) -> (res: String)
        ensures
            res@ == self@,
    {
        self.0.clone()
    }
}

impl Clone for CSharpLocalName {
    fn clone(&self) -> (res: Self)
        ensures
            res == *self,
    {
        CSharpLocalName(self.0.clone())
    }
}

/// The name of a method parameter.
pub struct CSharpParamName(pub String);

impl View for CSharpParamName {
    type V = Seq<char>;

    open spec fn view(&self) -> Seq<char> {
        self.0@
    }
}

impl CSharpParamName {
    /// Keeps `name` as it is.
    pub fn new(name: &str) -> (res: Self)
        ensures
            res@ == name@,
    {
        CSharpParamName(String::from_str(name))
    }

    /// Spells a `snake_case` source name in `camelCase`, escaping a keyword
    /// with `@`.
    pub fn from_source(name: &str) -> (res: Self)
        ensures
            res@ == escaped_identifier(camel_case(name@)),
    {
        CSharpParamName(escape_identifier(to_camel_case(name)))
    }

    /// The spelling.
    pub fn as_str(&self) -> (res: &str)
        ensures
            res@ == self@,
    {
        self.0.as_str()
    }

    /// The spelling, as an owned string.
    pub fn to_string(&self) -> (res: String)
        ensures
            res@ == self@,
    {
        self.0.clone()
    }
}

impl Clone for CSharpParamName {
    fn clone(&self) -> (res: Self)
        ensures
            res == *self,
    {
        CSharpParamName(self.0.clone())
    }
}

/// The name of a method.
pub struct CSharpMethodName(pub String);

impl View for CSharpMethodName {
    type V = Seq<char>;

    open spec fn view(&self) -> Seq<char> {
        self.0@
    }
}

impl CSharpMethodName {
    /// Keeps `name` as it is.
    pub fn new(name: &str) -> (res: Self)
        ensures
            res@ == name@,
    {
        CSharpMethodName(String::from_str(name))
    }

    /// Spells a `snake_case` source name in `PascalCase`.
    pub fn from_source(name: &str) -> (res: Self)
        ensures
            res@ == pascal_case(name@),
    {
        CSharpMethodName(to_pascal_case(name))
    }

    /// The spelling.
    pub fn as_str(&self) -> (res: &str)
        ensures
            res@ == self@,
    {
        self.0.as_str()
    }

    /// The spelling, as an owned string.
    pub fn to_string(&self) -> (res: String)
        ensures
            res@ == self@,
    {
        self.0.clone()
    }
}

impl Clone for CSharpMethodName {
    fn clone(&self) -> (res: Self)
        ensures
            res == *self,
    {
        CSharpMethodName(self.0.clone())
    }
}

/// The name of a property or field.
pub struct CSharpPropertyName(pub String);

impl View for CSharpPropertyName {
    type V = Seq<char>;

    open spec fn view(&self) -> Seq<char> {
        self.0@
    }
}

impl CSharpPropertyName {
    /// Keeps `name` as it is.
    pub fn new(name: &str) -> (res: Self)
        ensures
            res@ == name@,
    {
        CSharpPropertyName(String::from_str(name))
    }

    /// Spells a `snake_case` source name in `PascalCase`.
    pub fn from_source(name: &str) -> (res: Self)
        ensures
            res@ == pascal_case(name@),
    {
        CSharpPropertyName(to_pascal_case(name))
    }

    /// The spelling.
    pub fn as_str(&self) -> (res: &str)
        ensures
            res@ == self@,
    {
        self.0.as_str()
    }

    /// The spelling, as an owned string.
    pub fn to_string(&self) -> (res: String)
        ensures
            res@ == self@,
    {
        self.0.clone()
    }
}

impl Clone for CSharpPropertyName {
    fn clone(&self) -> (res: Self)
        ensures
            res == *self,
    {
        CSharpPropertyName(self.0.clone())
    }
}

} // verus!
