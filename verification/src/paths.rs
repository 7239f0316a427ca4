use vstd::prelude::*;

verus! {

/// What `std::path::Path::strip_prefix` gives for `path` and `base` (the rest of
/// `path` after the components of `base`, or nothing where `base` is not a prefix),
/// taken as text.
pub uninterp spec fn path_strip_prefix(path: Seq<char>, base: Seq<char>) -> Option<Seq<char>>;

/// What `std::path::Path::join` gives for `base` and `rest`, taken as text.
pub uninterp spec fn path_join(base: Seq<char>, rest: Seq<char>) -> Seq<char>;

/// What `std::path::Path::file_name` gives for `path` (its final normal
/// component, if any), taken as text.
pub uninterp spec fn path_file_name(path: Seq<char>) -> Option<Seq<char>>;

/// The text view of an optional text.
pub open spec fn opt_view(o: Option<String>) -> Option<Seq<char>> {
    match o {
        Some(s) => Some(s@),
        None => None,
    }
}

/// `std::path::Path::strip_prefix` on two paths given as text. Its result is a
/// part of `path`, so turning it back into text loses nothing.
#[verifier::external_body]
pub(crate) fn strip_path_prefix(path: &str, base: &str) -> (r: Option<String>)
    ensures
        opt_view(r) == path_strip_prefix(path@, base@),
{
    match std::path::Path::new(path).strip_prefix(base) {
        Ok(rest) => Some(rest.to_string_lossy().into_owned()),
        Err(_) => None,
    }
}

/// `std::path::Path::join` on two paths given as text; both are text, so the
/// joined path is too.
#[verifier::external_body]
pub(crate) fn join_paths(base: &str, rest: &str) -> (r: String)
    ensures
        r@ == path_join(base@, rest@),
{
    std::path::Path::new(base).join(rest).to_string_lossy().into_owned()
}

/// `std::path::Path::file_name` on a path given as text.
#[verifier::external_body]
pub(crate) fn file_name_of(path: &str) -> (r: Option<String>)
    ensures
        opt_view(r) == path_file_name(path@),
{
    match std::path::Path::new(path).file_name() {
        Some(name) => Some(name.to_string_lossy().into_owned()),
        None => None,
    }
}

/// `dirs::home_dir`: the home directory of the current user, as text (bytes that
/// are not UTF-8 replaced by U+FFFD). Which directory it is depends on the
/// environment and the account database and is not stated; the source and its
/// documentation give only that a home it returns is never empty.
#[verifier::external_body]
pub(crate) fn local_home_dir() -> (r: Option<String>)
    ensures
        r matches Some(h) ==> h@.len() > 0,
{
    match dirs::home_dir() {
        Some(p) => Some(p.to_string_lossy().into_owned()),
        None => None,
    }
}

/// The names of the entries of a directory listing: the final component of each
/// entry's path, entries without one left out.
pub open spec fn entry_names(paths: Seq<Seq<char>>) -> Seq<Seq<char>>
    decreases paths.len(),
{
    if paths.len() == 0 {
        Seq::empty()
    } else {
        let rest = entry_names(paths.drop_last());
        match path_file_name(paths.last()) {
            Some(n) => rest.push(n),
            None => rest,
        }
    }
}

/// The text views of a list of texts.
pub open spec fn views(v: Seq<String>) -> Seq<Seq<char>> {
    v.map_values(|s: String| s@)
}

/// The names of the entries whose paths are `paths`, in the same order.
pub fn dir_entry_names(paths: &Vec<String>) -> (names: Vec<String>)
    ensures
        views(names@) == entry_names(views(paths@)),
{
    let mut names: Vec<String> = Vec::new();
    let mut i: usize = 0;
    while i < paths.len()
        invariant
            i <= paths@.len(),
            views(names@) == entry_names(views(paths@).take(i as int)),
        decreases paths@.len() - i,
    {
        let ghost before = views(paths@).take(i as int);
        let ghost after = views(paths@).take(i + 1);
        assert(after.drop_last() =~= before);
        assert(after.last() == paths@[i as int]@);
        match file_name_of(paths[i].as_str()) {
            Some(n) => {
                names.push(n);
                assert(views(names@) =~= entry_names(before).push(names@.last()@));
            },
            None => {},
        }
        i = i + 1;
    }
    assert(views(paths@).take(paths@.len() as int) =~= views(paths@));
    names
}

/// The names of a listing, entry by entry: an empty listing has no names; an
/// entry with a final component adds that name at the end; an entry without one
/// adds nothing.
pub proof fn law_entry_names_step(paths: Seq<Seq<char>>, p: Seq<char>)
    ensures
        entry_names(Seq::empty()) == Seq::<Seq<char>>::empty(),
        path_file_name(p) matches Some(n) ==> entry_names(paths.push(p)) == entry_names(paths).push(n),
        path_file_name(p) is None ==> entry_names(paths.push(p)) == entry_names(paths),
{
    assert(paths.push(p).drop_last() =~= paths);
}

/// Every entry that has a final component has its name listed, and every listed
/// name is the final component of some entry.
pub proof fn law_every_named_entry_is_listed(paths: Seq<Seq<char>>)
    ensures
        forall|i: int| 0 <= i < paths.len() && (#[trigger] path_file_name(paths[i])) is Some
            ==> entry_names(paths).contains(path_file_name(paths[i])->0),
        forall|k: int| 0 <= k < entry_names(paths).len() ==> exists|i: int|
            0 <= i < paths.len() && path_file_name(paths[i]) == Some(#[trigger] entry_names(paths)[k]),
    decreases paths.len(),
{
    if paths.len() > 0 {
        let before = paths.drop_last();
        law_every_named_entry_is_listed(before);
        let rest = entry_names(before);
        let names = entry_names(paths);
        let last = paths.len() - 1;
        assert forall|i: int| 0 <= i < paths.len() && (#[trigger] path_file_name(paths[i])) is Some
            implies names.contains(path_file_name(paths[i])->0) by {
            if i < last {
                assert(paths[i] == before[i]);
                let n = path_file_name(before[i])->0;
                assert(rest.contains(n));
                let k = choose|k: int| 0 <= k < rest.len() && rest[k] == n;
                match path_file_name(paths.last()) {
                    Some(m) => assert(names[k] == n),
                    None => assert(names[k] == n),
                }
            } else {
                assert(names[names.len() - 1] == path_file_name(paths[i])->0);
            }
        }
        assert forall|k: int| 0 <= k < names.len() implies exists|i: int|
            0 <= i < paths.len() && path_file_name(paths[i]) == Some(#[trigger] names[k]) by {
            if k < rest.len() {
                assert(names[k] == rest[k]);
                let i = choose|i: int| 0 <= i < before.len() && path_file_name(before[i]) == Some(rest[k]);
                assert(paths[i] == before[i]);
            } else {
                assert(path_file_name(paths[last]) == Some(names[k]));
            }
        }
    }
}

} // verus!
