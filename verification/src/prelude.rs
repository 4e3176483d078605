//! The attribute keys that a query can select.

use vstd::prelude::*;

verus! {

/// The attributes a query may report for each item it finds.
#[derive(Clone, Copy, Debug, PartialEq, Eq, Structural)]
pub enum KMDItemTypes {
    UserTags,
    Path,
}

/// Something that names an attribute of the index.
pub trait KMDItem {
    /// The key under which the index stores the attribute.
    spec fn key(&self) -> Seq<char>;

    /// The attribute's key, as the index spells it.
    fn into_ref(&self) -> (name: &'static str)
        ensures
            name@ == self.key(),
    ;
}

impl KMDItemTypes {
    /// The key under which the index stores this attribute.
    pub open spec fn name(self) -> Seq<char> {
        match self {
            KMDItemTypes::UserTags => "kMDItemUserTags"@,
            KMDItemTypes::Path => "kMDItemPath"@,
        }
    }

    /// The attribute's key, as the index spells it.
    pub fn into_ref(&self) -> (name: &'static str)
        ensures
            name@ == self.name(),
    {
        match self {
            KMDItemTypes::UserTags => "kMDItemUserTags",
            KMDItemTypes::Path => "kMDItemPath",
        }
    }
}

impl KMDItem for KMDItemTypes {
    open spec fn key(&self) -> Seq<char> {
        self.name()
    }

    fn into_ref(&self) -> (name: &'static str) {
        KMDItemTypes::into_ref(self)
    }
}

} // verus!
