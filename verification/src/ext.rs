//! Attribute lookups that start from a file-system path.

use crate::from_objc::FromObjC;
use crate::mds::{query_file_attr, AttrQuery, AttrQueryView};
use std::path::PathBuf;
use vstd::prelude::*;

verus! {

/// `std::path::PathBuf`, taken as an opaque value: nothing is claimed of
/// what a path holds.
#[verifier::external_type_specification]
#[verifier::external_body]
pub struct ExPathBuf(std::path::PathBuf);

/// The text of a path: what `Path::to_str` returns for it, which is the
/// path as text where the path is valid Unicode, and `None` where it is not.
pub uninterp spec fn path_as_text(path: PathBuf) -> Option<Seq<char>>;

/// `Path::to_str`, reached through `PathBuf`: the path as text, or `None`
/// where the path is not valid Unicode. The result depends on the path
/// alone, and is claimed to be [`path_as_text`] of it; nothing is claimed of
/// which paths have a text or of what the text holds.
#[verifier::external_body]
fn path_text(path: &PathBuf) -> (text: Option<&str>)
    ensures
        text is None ==> path_as_text(*path) is None,
        text matches Some(t) ==> path_as_text(*path) == Some(t@),
{
    path.to_str()
}

/// Begins the lookup of `attr_name` at a path whose text is `path`; there is
/// no lookup for a path without text.
pub fn lookup_at<T: FromObjC>(path: Option<&str>, attr_name: &str) -> (lookup: Option<
    AttrQuery<T>,
>)
    ensures
        path is None ==> lookup is None,
        path is Some ==> lookup is Some && lookup->0@ == AttrQueryView::<T::V>::initial(
            path->0@,
            attr_name@,
        ),
{
    match path {
        Some(file_name) => Some(query_file_attr(file_name, attr_name)),
        None => None,
    }
}

/// Attribute lookups on a path. Each method begins the lookup at the text of
/// the path, and returns `None` exactly for a path without a text.
pub trait PathBufExt {
    /// The path as text, or `None` where it has none.
    spec fn text(&self) -> Option<Seq<char>>;

    /// Begins the lookup of the attribute `attr_name` as a `T`.
    fn attr<T: FromObjC>(&self, attr_name: &str) -> (lookup: Option<AttrQuery<T>>)
        ensures
            self.text() is None ==> lookup is None,
            self.text() matches Some(path) ==> lookup is Some && lookup->0@ == AttrQueryView::<
                T::V,
            >::initial(path, attr_name@),
    ;

    /// Begins the lookup of the kind of the file, such as "Plain Text
    /// Document".
    fn kind(&self) -> (lookup: Option<AttrQuery<String>>)
        ensures
            self.text() is None ==> lookup is None,
            self.text() matches Some(path) ==> lookup is Some && lookup->0@ == AttrQueryView::<
                Seq<char>,
            >::initial(path, "kMDItemKind"@),
    ;

    /// Begins the lookup of the content type of the file, such as
    /// "public.plain-text".
    fn content_type(&self) -> (lookup: Option<AttrQuery<String>>)
        ensures
            self.text() is None ==> lookup is None,
            self.text() matches Some(path) ==> lookup is Some && lookup->0@ == AttrQueryView::<
                Seq<char>,
            >::initial(path, "kMDItemContentType"@),
    ;

    /// Begins the lookup of the content types that the file's type
    /// descends from, the nearest first.
    fn content_type_tree(&self) -> (lookup: Option<AttrQuery<Vec<String>>>)
        ensures
            self.text() is None ==> lookup is None,
            self.text() matches Some(path) ==> lookup is Some && lookup->0@ == AttrQueryView::<
                Seq<Seq<char>>,
            >::initial(path, "kMDItemContentTypeTree"@),
    ;

    /// Begins the lookup of the places that the file was downloaded from.
    fn where_from(&self) -> (lookup: Option<AttrQuery<Vec<String>>>)
        ensures
            self.text() is None ==> lookup is None,
            self.text() matches Some(path) ==> lookup is Some && lookup->0@ == AttrQueryView::<
                Seq<Seq<char>>,
            >::initial(path, "kMDItemWhereFroms"@),
    ;
}

impl PathBufExt for PathBuf {
    open spec fn text(&self) -> Option<Seq<char>> {
        path_as_text(*self)
    }

    fn attr<T: FromObjC>(&self, attr_name: &str) -> (lookup: Option<AttrQuery<T>>) {
        lookup_at(path_text(self), attr_name)
    }

    fn kind(&self) -> (lookup: Option<AttrQuery<String>>) {
        lookup_at(path_text(self), "kMDItemKind")
    }

    fn content_type(&self) -> (lookup: Option<AttrQuery<String>>) {
        lookup_at(path_text(self), "kMDItemContentType")
    }

    fn content_type_tree(&self) -> (lookup: Option<AttrQuery<Vec<String>>>) {
        lookup_at(path_text(self), "kMDItemContentTypeTree")
    }

    fn where_from(&self) -> (lookup: Option<AttrQuery<Vec<String>>>) {
        lookup_at(path_text(self), "kMDItemWhereFroms")
    }
}

} // verus!
