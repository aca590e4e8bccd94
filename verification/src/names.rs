//! Names in the binding contract, stored as ordered segments so that each
//! target language can apply its own casing rule.

use vstd::prelude::*;
use vstd::string::*;

use crate::text::{join_strings, joined};

verus! {

/// One already-normalized word inside a [`CanonicalName`].
pub struct NamePart(pub String);

impl View for NamePart {
    type V = Seq<char>;

    open spec fn view(&self) -> Seq<char> {
        self.0@
    }
}

impl NamePart {
    /// Stores one already-normalized segment.
    pub fn new(part: String) -> (res: Self)
        ensures
            res@ == part@,
    {
        NamePart(part)
    }

    /// Returns the segment.
    pub fn as_str(&self) -> (res: &str)
        ensures
            res@ == self@,
    {
        self.0.as_str()
    }

    /// The segment as an owned string, as it is displayed.
    pub fn to_string(&self) -> (res: String)
        ensures
            res@ == self@,
    {
        self.0.clone()
    }
}

impl Clone for NamePart {
    fn clone(&self) -> (res: Self)
        ensures
            res == *self,
    {
        NamePart(self.0.clone())
    }
}

/// A segment from borrowed text, stored as it is.
impl From<&str> for NamePart {
    fn from(part: &str) -> (res: Self)
        ensures
            res@ == part@,
    {
        NamePart::new(String::from_str(part))
    }
}

impl vstd::std_specs::convert::FromSpecImpl<&str> for NamePart {
    open spec fn obeys_from_spec() -> bool {
        false
    }

    open spec fn from_spec(v: &str) -> NamePart {
        choose|p: NamePart| p@ == v@
    }
}

/// A segment from owned text, stored as it is.
impl From<String> for NamePart {
    fn from(part: String) -> (res: Self)
        ensures
            res@ == part@,
    {
        NamePart(part)
    }
}

impl vstd::std_specs::convert::FromSpecImpl<String> for NamePart {
    open spec fn obeys_from_spec() -> bool {
        true
    }

    open spec fn from_spec(v: String) -> NamePart {
        NamePart(v)
    }
}

/// A name before any target language has spelled it: its segments in order.
/// Empty names are accepted here and rejected by later validation.
pub struct CanonicalName {
    parts: Vec<NamePart>,
}

impl View for CanonicalName {
    type V = Seq<Seq<char>>;

    closed spec fn view(&self) -> Seq<Seq<char>> {
        self.parts@.map_values(|p: NamePart| p@)
    }
}

impl CanonicalName {
    /// Builds a name from already-normalized parts.
    pub fn new(parts: Vec<NamePart>) -> (res: Self)
        ensures
            res@ == parts@.map_values(|p: NamePart| p@),
    {
        CanonicalName { parts }
    }

    /// Builds a single-segment name.
    pub fn single(part: NamePart) -> (res: Self)
        ensures
            res@ == seq![part@],
    {
        let mut parts = Vec::new();
        parts.push(part);
        let res = CanonicalName { parts };
        assert(res@ =~= seq![part@]);
        res
    }

    /// Returns the segments in source order.
    pub fn parts(&self) -> (res: &[NamePart])
        ensures
            res@.map_values(|p: NamePart| p@) == self@,
    {
        self.parts.as_slice()
    }

    /// Returns the segments joined by `::`.
    pub fn as_path_string(&self) -> (res: String)
        ensures
            res@ == joined(self@, "::"@),
    {
        let mut texts: Vec<String> = Vec::new();
        let mut i: usize = 0;
        while i < self.parts.len()
            invariant
                i <= self.parts.len(),
                texts.len() == i,
                texts@.map_values(|t: String| t@) =~= self@.take(i as int),
            decreases self.parts.len() - i,
        {
            let t = self.parts[i].0.clone();
            texts.push(t);
            assert(self@[i as int] == self.parts@[i as int]@);
            assert(texts@[i as int]@ == self@[i as int]);
            assert(texts@.map_values(|t: String| t@) =~= self@.take(i + 1));
            i = i + 1;
        }
        assert(self@.take(self.parts.len() as int) =~= self@);
        join_strings(&texts, "::")
    }
}

} // verus!
