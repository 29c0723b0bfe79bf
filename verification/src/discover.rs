use vstd::prelude::*;
use crate::error::ChpError;
use crate::text::{
    child_path, distinct_texts, first_occurrences, join_path, lemma_first_occurrences, texts,
};

verus! {

/// What was found at one path below a source directory.
#[derive(Debug, PartialEq, Eq)]
pub enum Node {
    /// Anything that is not a directory.
    File,
    /// A directory and its immediate children, in the order they were listed.
    Dir(Vec<Entry>),
    /// A directory that is missing or could not be listed.
    Unreadable,
}

/// One child of a directory.
#[derive(Debug, PartialEq, Eq)]
pub struct Entry {
    pub name: String,
    pub node: Node,
}

/// A file name counts as a source when its extension is `cpp`: it ends in
/// `.cpp` and has at least one character before that dot.
pub open spec fn is_source_name(name: Seq<char>) -> bool {
    name.len() > 4 && name.subrange(name.len() - 4, name.len() as int) == ".cpp"@
}

/// `first` followed by `second`, where both are there.
pub open spec fn both(first: Option<Seq<Seq<char>>>, second: Option<Seq<Seq<char>>>) -> Option<
    Seq<Seq<char>>,
> {
    match (first, second) {
        (Some(a), Some(b)) => Some(a + b),
        _ => None,
    }
}

/// The sources below a directory `dir` with the children `entries`: each
/// child in turn, a subdirectory standing for everything below it. `None`
/// where some directory below could not be listed.
pub open spec fn listing_sources(dir: Seq<char>, entries: Seq<Entry>) -> Option<Seq<Seq<char>>>
    decreases entries,
{
    if entries.len() == 0 {
        Some(Seq::empty())
    } else {
        let last = entries.last();
        let path = child_path(dir, last.name@);
        both(
            listing_sources(dir, entries.drop_last()),
            match last.node {
                Node::File => Some(
                    if is_source_name(last.name@) {
                        seq![path]
                    } else {
                        Seq::empty()
                    },
                ),
                Node::Dir(children) => listing_sources(path, children@),
                Node::Unreadable => None,
            },
        )
    }
}

/// The sources below one configured directory, which must itself be a
/// directory that could be listed.
pub open spec fn dir_sources(dir: Seq<char>, snapshot: Node) -> Option<Seq<Seq<char>>> {
    match snapshot {
        Node::Dir(children) => listing_sources(dir, children@),
        _ => None,
    }
}

/// Every source met while the configured directories are searched in the
/// order configured; a file that stands below two of them is met twice.
/// `snapshots[k]` is what was found at `dirs[k]`; a directory without a
/// snapshot counts as unreadable.
pub open spec fn discovered(dirs: Seq<Seq<char>>, snapshots: Seq<Node>) -> Option<Seq<Seq<char>>>
    decreases dirs.len(),
{
    if dirs.len() == 0 {
        Some(Seq::empty())
    } else {
        let k = dirs.len() - 1;
        both(
            discovered(dirs.drop_last(), snapshots),
            if k < snapshots.len() {
                dir_sources(dirs[k], snapshots[k])
            } else {
                None
            },
        )
    }
}

/// The directories to search: those configured, or none at all where the
/// project configures no search.
pub open spec fn configured(maybe_dirs: Option<Vec<String>>) -> Seq<Seq<char>> {
    match maybe_dirs {
        Some(dirs) => texts(dirs@),
        None => Seq::empty(),
    }
}

/// How many source files stand in a listing, at any depth.
pub open spec fn source_count(entries: Seq<Entry>) -> nat
    decreases entries,
{
    if entries.len() == 0 {
        0
    } else {
        let last = entries.last();
        source_count(entries.drop_last()) + match last.node {
            Node::File => if is_source_name(last.name@) {
                1nat
            } else {
                0nat
            },
            Node::Dir(children) => source_count(children@),
            Node::Unreadable => 0nat,
        }
    }
}

/// Whether every directory of a listing, at any depth, could be listed.
pub open spec fn fully_listed(entries: Seq<Entry>) -> bool
    decreases entries,
{
    if entries.len() == 0 {
        true
    } else {
        let last = entries.last();
        fully_listed(entries.drop_last()) && match last.node {
            Node::File => true,
            Node::Dir(children) => fully_listed(children@),
            Node::Unreadable => false,
        }
    }
}

/// The source files in a listing, at any depth, as a set of paths.
pub open spec fn source_files(dir: Seq<char>, entries: Seq<Entry>) -> Set<Seq<char>>
    decreases entries,
{
    if entries.len() == 0 {
        Set::empty()
    } else {
        let last = entries.last();
        let path = child_path(dir, last.name@);
        source_files(dir, entries.drop_last()).union(
            match last.node {
                Node::File => if is_source_name(last.name@) {
                    set![path]
                } else {
                    Set::empty()
                },
                Node::Dir(children) => source_files(path, children@),
                Node::Unreadable => Set::empty(),
            },
        )
    }
}

/// The source files below the configured directories, as a set of paths:
/// a file that stands below two of them is one file.
pub open spec fn configured_source_files(dirs: Seq<Seq<char>>, snapshots: Seq<Node>) -> Set<
    Seq<char>,
>
    decreases dirs.len(),
{
    if dirs.len() == 0 {
        Set::empty()
    } else {
        let k = dirs.len() - 1;
        configured_source_files(dirs.drop_last(), snapshots).union(
            if k < snapshots.len() {
                match snapshots[k] {
                    Node::Dir(children) => source_files(dirs[k], children@),
                    _ => Set::empty(),
                }
            } else {
                Set::empty()
            },
        )
    }
}

/// Whether a file of this name is a source file.
pub fn has_source_extension(name: &str) -> (yes: bool)
    ensures
        yes == is_source_name(name@),
{
    let n: usize = name.unicode_len();
    if n <= 4 {
        return false;
    }
    proof {
        reveal_strlit(".cpp");
    }
    let yes = name.get_char(n - 4) == '.' && name.get_char(n - 3) == 'c' && name.get_char(n - 2)
        == 'p' && name.get_char(n - 1) == 'p';
    proof {
        let tail = name@.subrange(name@.len() - 4, name@.len() as int);
        if yes {
            assert(tail =~= ".cpp"@);
        } else {
            assert(tail[0] == name@[n - 4]);
            assert(tail[1] == name@[n - 3]);
            assert(tail[2] == name@[n - 2]);
            assert(tail[3] == name@[n - 1]);
        }
    }
    yes
}

/// Appends to `cpp_files` the sources below the directory `dir`, whose
/// children are `entries`. On failure what was found so far stays in
/// `cpp_files`, behind what it held.
pub fn find_cpp_files_in_dirs_helper(
    cpp_files: &mut Vec<String>,
    dir: &str,
    entries: &Vec<Entry>,
) -> (done: Result<(), ChpError>)
    ensures
        match listing_sources(dir@, entries@) {
            Some(found) => done is Ok && texts(final(cpp_files)@) == texts(old(cpp_files)@)
                + found,
            None => done matches Err(error) && error == ChpError::DirectoryWalkError && texts(
                old(cpp_files)@,
            ).is_prefix_of(texts(final(cpp_files)@)),
        },
    decreases entries,
{
    let ghost before = texts(cpp_files@);
    let mut i: usize = 0;
    while i < entries.len()
        invariant
            i <= entries.len(),
            before == texts(old(cpp_files)@),
            match listing_sources(dir@, entries@.take(i as int)) {
                Some(found) => texts(cpp_files@) == before + found,
                None => false,
            },
        decreases entries.len() - i,
    {
        let entry = &entries[i];
        let path = join_path(dir, entry.name.as_str());
        let ghost so_far = texts(cpp_files@);
        proof {
            assert(entries@.take(i + 1).drop_last() =~= entries@.take(i as int));
            assert(entries@.take(i + 1).last() == entries@[i as int]);
        }
        match &entry.node {
            Node::File => {
                if has_source_extension(entry.name.as_str()) {
                    cpp_files.push(path);
                    assert(texts(cpp_files@) =~= so_far + seq![child_path(dir@, entry.name@)]);
                } else {
                    assert(so_far + Seq::<Seq<char>>::empty() =~= so_far);
                }
            },
            Node::Dir(children) => {
                match find_cpp_files_in_dirs_helper(cpp_files, path.as_str(), children) {
                    Ok(()) => {},
                    Err(error) => {
                        proof {
                            lemma_failure_spreads(dir@, entries@, i as int);
                            let now = texts(cpp_files@);
                            assert(before =~= so_far.subrange(0, before.len() as int));
                            assert(before =~= now.subrange(0, before.len() as int));
                        }
                        return Err(error);
                    },
                }
            },
            Node::Unreadable => {
                proof {
                    lemma_failure_spreads(dir@, entries@, i as int);
                    assert(before =~= so_far.subrange(0, before.len() as int));
                }
                return Err(ChpError::DirectoryWalkError);
            },
        }
        proof {
            let prior = listing_sources(dir@, entries@.take(i as int))->Some_0;
            let next = listing_sources(dir@, entries@.take(i + 1))->Some_0;
            assert(texts(cpp_files@) =~= before + next);
        }
        i += 1;
    }
    assert(entries@.take(entries@.len() as int) =~= entries@);
    Ok(())
}

/// Once the sources of the first `i + 1` children are undefined, so are
/// those of the whole listing.
proof fn lemma_failure_spreads(dir: Seq<char>, entries: Seq<Entry>, i: int)
    requires
        0 <= i < entries.len(),
        listing_sources(dir, entries.take(i + 1)) is None,
    ensures
        listing_sources(dir, entries) is None,
    decreases entries.len() - i,
{
    if i + 1 < entries.len() {
        assert(entries.take(i + 2).drop_last() =~= entries.take(i + 1));
        lemma_failure_spreads(dir, entries, i + 1);
    } else {
        assert(entries.take(i + 1) =~= entries);
    }
}

/// Searches the configured directories in order and gives the sources
/// found, as paths relative to the project root. `snapshots[k]` is what
/// was found at the `k`-th configured directory. A file reached through
/// two configured directories is returned once, where it was first found.
/// Fails where one of the directories is no directory, has no snapshot,
/// or holds a directory that could not be listed.
pub fn find_cpp_files_in_dirs(maybe_dirs: &Option<Vec<String>>, snapshots: &Vec<Node>) -> (files:
    Result<Vec<String>, ChpError>)
    ensures
        match discovered(configured(*maybe_dirs), snapshots@) {
            Some(found) => files matches Ok(list) && texts(list@) == first_occurrences(found)
                && texts(list@).no_duplicates(),
            None => files matches Err(error) && error == ChpError::DirectoryWalkError,
        },
{
    let mut cpp_files: Vec<String> = Vec::new();
    let dirs = match maybe_dirs {
        Some(dirs) => dirs,
        None => {
            assert(texts(cpp_files@) =~= first_occurrences(Seq::empty()));
            return Ok(cpp_files);
        },
    };
    let ghost names = texts(dirs@);
    let mut k: usize = 0;
    while k < dirs.len()
        invariant
            k <= dirs.len(),
            names == texts(dirs@),
            names == configured(*maybe_dirs),
            discovered(names.take(k as int), snapshots@) == Some(texts(cpp_files@)),
        decreases dirs.len() - k,
    {
        proof {
            assert(names.take(k + 1).drop_last() =~= names.take(k as int));
            assert(names.take(k + 1).last() == dirs@[k as int]@);
        }
        if k >= snapshots.len() {
            proof {
                lemma_search_failure_spreads(names, snapshots@, k as int);
            }
            return Err(ChpError::DirectoryWalkError);
        }
        match &snapshots[k] {
            Node::Dir(children) => {
                match find_cpp_files_in_dirs_helper(&mut cpp_files, dirs[k].as_str(), children) {
                    Ok(()) => {},
                    Err(error) => {
                        proof {
                            lemma_search_failure_spreads(names, snapshots@, k as int);
                        }
                        return Err(error);
                    },
                }
            },
            _ => {
                proof {
                    lemma_search_failure_spreads(names, snapshots@, k as int);
                }
                return Err(ChpError::DirectoryWalkError);
            },
        }
        k += 1;
    }
    assert(names.take(names.len() as int) =~= names);
    Ok(distinct_texts(&cpp_files))
}

/// Once the search of the first `k + 1` directories is undefined, so is
/// the search of all of them.
proof fn lemma_search_failure_spreads(dirs: Seq<Seq<char>>, snapshots: Seq<Node>, k: int)
    requires
        0 <= k < dirs.len(),
        discovered(dirs.take(k + 1), snapshots) is None,
    ensures
        discovered(dirs, snapshots) is None,
    decreases dirs.len() - k,
{
    if k + 1 < dirs.len() {
        assert(dirs.take(k + 2).drop_last() =~= dirs.take(k + 1));
        lemma_search_failure_spreads(dirs, snapshots, k + 1);
    } else {
        assert(dirs.take(k + 1) =~= dirs);
    }
}

/// A listing has sources exactly when every directory in it could be
/// listed.
pub proof fn lemma_sources_iff_listed(dir: Seq<char>, entries: Seq<Entry>)
    ensures
        listing_sources(dir, entries) is Some <==> fully_listed(entries),
    decreases entries,
{
    if entries.len() > 0 {
        let last = entries.last();
        lemma_sources_iff_listed(dir, entries.drop_last());
        match last.node {
            Node::Dir(children) => {
                lemma_sources_iff_listed(child_path(dir, last.name@), children@);
            },
            _ => {},
        }
    }
}

/// The search of one listing returns one path for each source file that
/// the listing holds, at any depth.
pub proof fn lemma_every_source_found(dir: Seq<char>, entries: Seq<Entry>)
    requires
        listing_sources(dir, entries) is Some,
    ensures
        listing_sources(dir, entries)->Some_0.len() == source_count(entries),
    decreases entries,
{
    if entries.len() > 0 {
        let last = entries.last();
        lemma_every_source_found(dir, entries.drop_last());
        match last.node {
            Node::Dir(children) => {
                lemma_every_source_found(child_path(dir, last.name@), children@);
            },
            _ => {},
        }
    }
}

/// The paths of two sequences put together are the paths of either.
proof fn lemma_concat_paths(a: Seq<Seq<char>>, b: Seq<Seq<char>>)
    ensures
        (a + b).to_set() == a.to_set().union(b.to_set()),
{
    let both = a + b;
    assert forall|path: Seq<char>| both.contains(path) <==> a.contains(path) || b.contains(
        path,
    ) by {
        if both.contains(path) {
            let i = choose|i: int| 0 <= i < both.len() && both[i] == path;
            if i < a.len() {
                assert(a[i] == path);
            } else {
                assert(b[i - a.len()] == path);
            }
        }
        if a.contains(path) {
            let i = choose|i: int| 0 <= i < a.len() && a[i] == path;
            assert(both[i] == path);
        }
        if b.contains(path) {
            let i = choose|i: int| 0 <= i < b.len() && b[i] == path;
            assert(both[a.len() + i] == path);
        }
    }
    assert(both.to_set() =~= a.to_set().union(b.to_set()));
}

/// The paths that the search of a listing returns are exactly its source
/// files.
pub proof fn lemma_found_are_the_source_files(dir: Seq<char>, entries: Seq<Entry>)
    requires
        listing_sources(dir, entries) is Some,
    ensures
        listing_sources(dir, entries)->Some_0.to_set() == source_files(dir, entries),
    decreases entries,
{
    let found = listing_sources(dir, entries)->Some_0;
    if entries.len() == 0 {
        assert(found.to_set() =~= Set::<Seq<char>>::empty());
    } else {
        let last = entries.last();
        let path = child_path(dir, last.name@);
        let head = listing_sources(dir, entries.drop_last())->Some_0;
        lemma_found_are_the_source_files(dir, entries.drop_last());
        match last.node {
            Node::File => {
                if is_source_name(last.name@) {
                    assert(seq![path][0] == path);
                    assert(seq![path].to_set() =~= set![path]);
                    lemma_concat_paths(head, seq![path]);
                } else {
                    assert(Seq::<Seq<char>>::empty().to_set() =~= Set::<Seq<char>>::empty());
                    lemma_concat_paths(head, Seq::empty());
                }
            },
            Node::Dir(children) => {
                lemma_found_are_the_source_files(path, children@);
                lemma_concat_paths(head, listing_sources(path, children@)->Some_0);
            },
            Node::Unreadable => {},
        }
    }
}

proof fn lemma_discovered_are_the_source_files(dirs: Seq<Seq<char>>, snapshots: Seq<Node>)
    requires
        discovered(dirs, snapshots) is Some,
    ensures
        discovered(dirs, snapshots)->Some_0.to_set() == configured_source_files(dirs, snapshots),
    decreases dirs.len(),
{
    let found = discovered(dirs, snapshots)->Some_0;
    if dirs.len() == 0 {
        assert(found.to_set() =~= Set::<Seq<char>>::empty());
    } else {
        let k = dirs.len() - 1;
        let head = discovered(dirs.drop_last(), snapshots)->Some_0;
        let children = snapshots[k]->Dir_0@;
        lemma_discovered_are_the_source_files(dirs.drop_last(), snapshots);
        lemma_found_are_the_source_files(dirs[k], children);
        lemma_concat_paths(head, listing_sources(dirs[k], children)->Some_0);
    }
}

/// Completeness and precision over the configured directories: what a
/// search returns holds no path twice, holds exactly the source files
/// below the configured directories, and so has as many paths as there
/// are such files, also where the directories overlap.
pub proof fn lemma_every_source_discovered(dirs: Seq<Seq<char>>, snapshots: Seq<Node>)
    requires
        discovered(dirs, snapshots) is Some,
    ensures
        first_occurrences(discovered(dirs, snapshots)->Some_0).no_duplicates(),
        first_occurrences(discovered(dirs, snapshots)->Some_0).to_set() == configured_source_files(
            dirs,
            snapshots,
        ),
        first_occurrences(discovered(dirs, snapshots)->Some_0).len() == configured_source_files(
            dirs,
            snapshots,
        ).len(),
{
    lemma_discovered_are_the_source_files(dirs, snapshots);
    lemma_first_occurrences(discovered(dirs, snapshots)->Some_0);
}

/// A path inside a directory ends as the name does.
pub proof fn lemma_child_is_source(dir: Seq<char>, name: Seq<char>)
    requires
        is_source_name(name),
    ensures
        is_source_name(child_path(dir, name)),
{
    let path = child_path(dir, name);
    assert(path.subrange(path.len() - 4, path.len() as int) =~= name.subrange(
        name.len() - 4,
        name.len() as int,
    ));
}

/// Precision: every path that the search returns lies below the directory
/// searched and names a source file.
pub proof fn lemma_found_is_source_inside(dir: Seq<char>, entries: Seq<Entry>, i: int)
    requires
        listing_sources(dir, entries) is Some,
        0 <= i < listing_sources(dir, entries)->Some_0.len(),
    ensures
        is_source_name(listing_sources(dir, entries)->Some_0[i]),
        (dir + "/"@).is_prefix_of(listing_sources(dir, entries)->Some_0[i]),
    decreases entries,
{
    let found = listing_sources(dir, entries)->Some_0;
    let last = entries.last();
    let path = child_path(dir, last.name@);
    let head = listing_sources(dir, entries.drop_last())->Some_0;
    if i < head.len() {
        lemma_found_is_source_inside(dir, entries.drop_last(), i);
    } else {
        match last.node {
            Node::File => {
                lemma_child_is_source(dir, last.name@);
                assert((dir + "/"@) =~= path.subrange(0, (dir + "/"@).len() as int));
            },
            Node::Dir(children) => {
                lemma_found_is_source_inside(path, children@, i - head.len());
                let deeper = path + "/"@;
                let item = found[i];
                assert(deeper =~= item.subrange(0, deeper.len() as int));
                assert((dir + "/"@) =~= item.subrange(0, (dir + "/"@).len() as int));
            },
            Node::Unreadable => {},
        }
    }
}

/// Every path that a search of the configured directories returns lies
/// below one of them and names a source file: nothing outside the
/// configured directories is ever returned.
pub proof fn lemma_discovered_is_source_inside(
    dirs: Seq<Seq<char>>,
    snapshots: Seq<Node>,
    i: int,
)
    requires
        discovered(dirs, snapshots) is Some,
        0 <= i < first_occurrences(discovered(dirs, snapshots)->Some_0).len(),
    ensures
        is_source_name(first_occurrences(discovered(dirs, snapshots)->Some_0)[i]),
        exists|k: int|
            0 <= k < dirs.len() && (#[trigger] dirs[k] + "/"@).is_prefix_of(
                first_occurrences(discovered(dirs, snapshots)->Some_0)[i],
            ),
{
    let found = discovered(dirs, snapshots)->Some_0;
    let kept = first_occurrences(found);
    lemma_first_occurrences(found);
    assert(kept.contains(kept[i]));
    assert(found.contains(kept[i]));
    let j = choose|j: int| 0 <= j < found.len() && found[j] == kept[i];
    lemma_each_found_is_source_inside(dirs, snapshots, j);
}

proof fn lemma_each_found_is_source_inside(
    dirs: Seq<Seq<char>>,
    snapshots: Seq<Node>,
    i: int,
)
    requires
        discovered(dirs, snapshots) is Some,
        0 <= i < discovered(dirs, snapshots)->Some_0.len(),
    ensures
        is_source_name(discovered(dirs, snapshots)->Some_0[i]),
        exists|k: int|
            0 <= k < dirs.len() && (#[trigger] dirs[k] + "/"@).is_prefix_of(
                discovered(dirs, snapshots)->Some_0[i],
            ),
    decreases dirs.len(),
{
    let k = dirs.len() - 1;
    let head = discovered(dirs.drop_last(), snapshots)->Some_0;
    let item = discovered(dirs, snapshots)->Some_0[i];
    if i < head.len() {
        lemma_each_found_is_source_inside(dirs.drop_last(), snapshots, i);
        let j = choose|j: int|
            0 <= j < dirs.drop_last().len() && (#[trigger] dirs.drop_last()[j] + "/"@).is_prefix_of(
                item,
            );
        assert(dirs[j] == dirs.drop_last()[j]);
    } else {
        lemma_found_is_source_inside(dirs[k], snapshots[k]->Dir_0@, i - head.len());
        assert((dirs[k] + "/"@).is_prefix_of(item));
    }
}

} // verus!
