//! The hash maps that a project fixture keeps its files and its changes
//! in, behind the few operations that the fixture needs of them.
//!
//! The maps are those of the crate `fnv`: hash maps of the standard
//! library with another hasher. Nothing here is proved of them; each
//! operation says what the map it calls is documented to do.

use vstd::prelude::*;
use fnv::FnvHashMap;
use crate::project_fixture::{change_view, FileChange, FixtureChange, FixtureFile};

verus! {

/// The hasher of the crate `fnv`, carried through as it is.
#[verifier::external_type_specification]
#[verifier::external_body]
pub struct ExFnvHasher(fnv::FnvHasher);

/// The hasher builder of the standard library, carried through as it is.
#[verifier::external_type_specification]
#[verifier::external_body]
#[verifier::reject_recursive_types(H)]
pub struct ExBuildHasherDefault<H>(std::hash::BuildHasherDefault<H>);

/// What a map of files holds: for each path its content.
pub uninterp spec fn file_entries(files: FnvHashMap<String, String>) -> Map<Seq<char>, Seq<char>>;

/// What a map of changes holds: for each path the new content, or nothing
/// for a deleted file.
pub uninterp spec fn change_entries(changes: FnvHashMap<String, FileChange>) -> Map<
    Seq<char>,
    Option<Seq<char>>,
>;

/// The file with a copy of `path` and of `content`.
pub fn fixture_file(path: &String, content: &String) -> (file: FixtureFile)
    ensures
        file.path@ == path@,
        file.content@ == content@,
{
    FixtureFile { path: path.clone(), content: content.clone() }
}

/// A copy of a change.
pub fn duplicate_change(change: &FileChange) -> (copy: FileChange)
    ensures
        change_view(copy) == change_view(*change),
{
    match change {
        FileChange::Change(content) => FileChange::Change(content.clone()),
        FileChange::Delete => FileChange::Delete,
    }
}

/// The change with a copy of `path` and of `change`.
pub fn fixture_change(path: &String, change: &FileChange) -> (copy: FixtureChange)
    ensures
        copy.path@ == path@,
        change_view(copy.change) == change_view(*change),
{
    FixtureChange { path: path.clone(), change: duplicate_change(change) }
}

/// A map without files.
///
/// Calls `Default::default` for the map, which makes an empty map.
#[verifier::external_body]
pub(crate) fn new_files() -> (files: FnvHashMap<String, String>)
    ensures
        file_entries(files) == (Map::<Seq<char>, Seq<char>>::empty()),
{
    Default::default()
}

/// Puts `content` under `path`.
///
/// Calls `HashMap::insert`: afterwards the map holds `content` under
/// `path` and is unchanged under every other path.
#[verifier::external_body]
pub(crate) fn insert_file(files: &mut FnvHashMap<String, String>, path: String, content: String)
    ensures
        file_entries(*final(files)) == file_entries(*old(files)).insert(path@, content@),
{
    files.insert(path, content);
}

/// Takes the file under `path` out of the map.
///
/// Calls `HashMap::remove`: afterwards the map holds nothing under `path`
/// and is unchanged under every other path.
#[verifier::external_body]
pub(crate) fn remove_file(files: &mut FnvHashMap<String, String>, path: &String)
    ensures
        file_entries(*final(files)) == file_entries(*old(files)).remove(path@),
{
    files.remove(path);
}

/// The content under `path`.
///
/// Calls `HashMap::get`: it returns the content that the map holds under
/// `path`, if it holds one.
#[verifier::external_body]
pub(crate) fn get_file<'a>(files: &'a FnvHashMap<String, String>, path: &String) -> (content:
    Option<&'a String>)
    ensures
        match content {
            Some(content) => file_entries(*files).contains_key(path@) && file_entries(
                *files,
            )[path@] == content@,
            None => !file_entries(*files).contains_key(path@),
        },
{
    files.get(path)
}

/// A copy of the map.
///
/// Calls `HashMap::clone`: the copy holds what the map holds.
#[verifier::external_body]
pub(crate) fn clone_files(files: &FnvHashMap<String, String>) -> (copy: FnvHashMap<String, String>)
    ensures
        file_entries(copy) == file_entries(*files),
{
    files.clone()
}

/// The files of the map, each once, in no order that can be relied on.
///
/// Calls `HashMap::iter`, which visits every entry of the map once, in
/// arbitrary order.
#[verifier::external_body]
pub(crate) fn list_files(files: &FnvHashMap<String, String>) -> (listed: Vec<FixtureFile>)
    ensures
        forall|i: int|
            0 <= i < listed.len() ==> file_entries(*files).contains_key(
                #[trigger] listed[i].path@,
            ) && file_entries(*files)[listed[i].path@] == listed[i].content@,
        forall|path: Seq<char>|
            file_entries(*files).contains_key(path) ==> exists|i: int|
                0 <= i < listed.len() && #[trigger] listed[i].path@ == path,
        forall|i: int, j: int|
            0 <= i < j < listed.len() ==> #[trigger] listed[i].path@ != #[trigger] listed[j].path@,
{
    files.iter().map(|(path, content)| fixture_file(path, content)).collect()
}

/// A map without changes.
///
/// Calls `Default::default` for the map, which makes an empty map.
#[verifier::external_body]
pub(crate) fn new_changes() -> (changes: FnvHashMap<String, FileChange>)
    ensures
        change_entries(changes) == (Map::<Seq<char>, Option<Seq<char>>>::empty()),
{
    Default::default()
}

/// Puts `change` under `path`.
///
/// Calls `HashMap::insert`: afterwards the map holds `change` under
/// `path` and is unchanged under every other path.
#[verifier::external_body]
pub(crate) fn insert_change(
    changes: &mut FnvHashMap<String, FileChange>,
    path: String,
    change: FileChange,
)
    ensures
        change_entries(*final(changes)) == change_entries(*old(changes)).insert(
            path@,
            change_view(change),
        ),
{
    changes.insert(path, change);
}

/// The changes of the map, each once, in no order that can be relied on.
///
/// Calls `HashMap::iter`, which visits every entry of the map once, in
/// arbitrary order.
#[verifier::external_body]
pub(crate) fn list_changes(changes: &FnvHashMap<String, FileChange>) -> (listed: Vec<
    FixtureChange,
>)
    ensures
        forall|i: int|
            0 <= i < listed.len() ==> change_entries(*changes).contains_key(
                #[trigger] listed[i].path@,
            ) && change_entries(*changes)[listed[i].path@] == change_view(listed[i].change),
        forall|path: Seq<char>|
            change_entries(*changes).contains_key(path) ==> exists|i: int|
                0 <= i < listed.len() && #[trigger] listed[i].path@ == path,
        forall|i: int, j: int|
            0 <= i < j < listed.len() ==> #[trigger] listed[i].path@ != #[trigger] listed[j].path@,
{
    changes.iter().map(|(path, change)| fixture_change(path, change)).collect()
}

} // verus!
