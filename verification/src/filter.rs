//! The reachability of types: which sanitized type names take part in
//! serialization and which in deserialization.

use crate::text::{has_text, texts};
use vstd::prelude::*;
use vstd::string::*;

verus! {

/// The type names that are serialized and those that are deserialized, as
/// settled for one service before its types are emitted.
#[derive(Clone, Debug)]
pub struct TypeFilter {
    pub serialized: Vec<String>,
    pub deserialized: Vec<String>,
}

/// What a `TypeFilter` stands for: two sets of type names.
pub struct TypeFilterView {
    pub serialized: Set<Seq<char>>,
    pub deserialized: Set<Seq<char>>,
}

impl View for TypeFilter {
    type V = TypeFilterView;

    open spec fn view(&self) -> TypeFilterView {
        TypeFilterView {
            serialized: texts(self.serialized@).to_set(),
            deserialized: texts(self.deserialized@).to_set(),
        }
    }
}

impl TypeFilter {
    /// Whether the type called `name` is serialized.
    pub fn is_serialized(&self, name: &str) -> (r: bool)
        ensures
            r == self@.serialized.contains(name@),
    {
        has_text(&self.serialized, name)
    }

    /// Whether the type called `name` is deserialized.
    pub fn is_deserialized(&self, name: &str) -> (r: bool)
        ensures
            r == self@.deserialized.contains(name@),
    {
        has_text(&self.deserialized, name)
    }
}

} // verus!
