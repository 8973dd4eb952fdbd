//! When the data of the former application identifier is carried over.

use vstd::prelude::*;

use crate::text::opt_text;

verus! {

/// What a migration run did.
#[derive(Clone, Copy, Debug, PartialEq, Eq, Structural)]
pub enum MigrationOutcome {
    Migrated,
    LegacyDataNotFound,
    CurrentDataAlreadyExists,
}

/// Decides, before anything is copied, whether a migration run stops at once
/// and with which outcome; `None` means that the legacy data is to be copied.
/// A database that already exists under the current identifier is never
/// overwritten, whatever the legacy directory holds.
pub fn migration_precheck(current_database_exists: bool, legacy_database_is_file: bool) -> (r:
    Option<MigrationOutcome>)
    ensures
        current_database_exists ==> r == Some(MigrationOutcome::CurrentDataAlreadyExists),
        !current_database_exists && !legacy_database_is_file ==> r == Some(
            MigrationOutcome::LegacyDataNotFound,
        ),
        !current_database_exists && legacy_database_is_file ==> r is None,
{
    if current_database_exists {
        return Some(MigrationOutcome::CurrentDataAlreadyExists);
    }
    if !legacy_database_is_file {
        return Some(MigrationOutcome::LegacyDataNotFound);
    }
    None
}

/// What `std::path::Path::strip_prefix` gives for `path` and the directory
/// `prefix`, as text: the part of `path` below `prefix`, or none when `path`
/// does not lie under it. The comparison is lexical, component by component;
/// how a path splits into components is fixed, for the platform the library
/// is built for, by std.
pub uninterp spec fn path_below(path: Seq<char>, prefix: Seq<char>) -> Option<Seq<char>>;

/// What `std::path::Path::join` gives for the directory `base` and the path
/// `relative`, as text. It is lexical too, with the separator std fixes for
/// the platform the library is built for.
pub uninterp spec fn path_joined(base: Seq<char>, relative: Seq<char>) -> Seq<char>;

/// `std::path::Path::strip_prefix`, then `to_string_lossy`, which changes
/// nothing here since the path is text. The result is `path_below` of the
/// arguments; nothing more is stated of it.
#[verifier::external_body]
fn strip_path_prefix(path: &str, prefix: &str) -> (r: Option<String>)
    ensures
        match r {
            Some(rest) => path_below(path@, prefix@) == Some(rest@),
            None => path_below(path@, prefix@) is None,
        },
{
    std::path::Path::new(path).strip_prefix(prefix).ok().map(|rest| rest.to_string_lossy().into_owned())
}

/// `std::path::Path::join`, then `to_string_lossy`, which changes nothing here
/// since both parts are text. The result is `path_joined` of the arguments;
/// nothing more is stated of it.
#[verifier::external_body]
fn join_path(base: &str, relative: &str) -> (r: String)
    ensures
        r@ == path_joined(base@, relative@),
{
    std::path::Path::new(base).join(relative).to_string_lossy().into_owned()
}

/// Where a stored file path lands once the directory `from` is replaced by
/// `to`: its part below `from` joined onto `to`, none when it does not lie
/// under `from`.
pub open spec fn relocation(path: Seq<char>, from: Seq<char>, to: Seq<char>) -> Option<Seq<char>> {
    match path_below(path, from) {
        Some(relative) => Some(path_joined(to, relative)),
        None => None,
    }
}

fn relocated_path(path: &str, from: &str, to: &str) -> (r: Option<String>)
    ensures
        opt_text(r) == relocation(path@, from@, to@),
{
    match strip_path_prefix(path, from) {
        Some(relative) => Some(join_path(to, relative.as_str())),
        None => None,
    }
}

/// The new location of each stored path, in order, once the legacy data
/// directory is replaced by the current one; none for a path outside the
/// legacy directory.
pub fn relocated_paths(paths: &Vec<String>, legacy_directory: &str, current_directory: &str) -> (r:
    Vec<Option<String>>)
    ensures
        r@.len() == paths@.len(),
        forall|i: int|
            0 <= i < paths@.len() ==> opt_text(#[trigger] r@[i]) == relocation(
                paths@[i]@,
                legacy_directory@,
                current_directory@,
            ),
{
    let mut relocated: Vec<Option<String>> = Vec::new();
    let mut i: usize = 0;
    while i < paths.len()
        invariant
            i <= paths@.len(),
            relocated@.len() == i,
            forall|k: int|
                0 <= k < i ==> opt_text(#[trigger] relocated@[k]) == relocation(
                    paths@[k]@,
                    legacy_directory@,
                    current_directory@,
                ),
        decreases paths.len() - i,
    {
        relocated.push(relocated_path(paths[i].as_str(), legacy_directory, current_directory));
        i = i + 1;
    }
    relocated
}

/// The updates to store, in order: the key and new path of every row whose
/// path was relocated.
pub open spec fn path_updates(keys: Seq<String>, relocated: Seq<Option<String>>) -> Seq<
    (String, String),
>
    decreases keys.len(),
{
    if keys.len() == 0 || relocated.len() == 0 {
        Seq::empty()
    } else {
        let earlier = path_updates(keys.drop_last(), relocated.drop_last());
        match relocated.last() {
            Some(path) => earlier.push((keys.last(), path)),
            None => earlier,
        }
    }
}

/// The custom background rows to rewrite after a migration: for each row `i`
/// whose path was relocated, the pair of its key and its new path, in row
/// order.
pub fn background_path_updates(keys: &Vec<String>, relocated: &Vec<Option<String>>) -> (r: Vec<
    (String, String),
>)
    requires
        keys@.len() == relocated@.len(),
    ensures
        r@ == path_updates(keys@, relocated@),
{
    let mut updates: Vec<(String, String)> = Vec::new();
    let mut i: usize = 0;
    while i < keys.len()
        invariant
            i <= keys@.len(),
            keys@.len() == relocated@.len(),
            updates@ == path_updates(keys@.take(i as int), relocated@.take(i as int)),
        decreases keys.len() - i,
    {
        proof {
            assert(keys@.take(i + 1).drop_last() =~= keys@.take(i as int));
            assert(relocated@.take(i + 1).drop_last() =~= relocated@.take(i as int));
        }
        match &relocated[i] {
            Some(path) => {
                updates.push((keys[i].clone(), path.clone()));
            },
            None => {},
        }
        i = i + 1;
    }
    proof {
        assert(keys@.take(keys@.len() as int) =~= keys@);
        assert(relocated@.take(relocated@.len() as int) =~= relocated@);
    }
    updates
}

} // verus!
