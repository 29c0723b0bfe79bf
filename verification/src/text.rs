use vstd::prelude::*;

verus! {

/// The character contents of each string of `items`, in order.
pub open spec fn texts(items: Seq<String>) -> Seq<Seq<char>> {
    Seq::new(items.len(), |i: int| items[i]@)
}

/// `dir` and `name` joined by one `/`, the only separator this crate writes.
pub open spec fn child_path(dir: Seq<char>, name: Seq<char>) -> Seq<char> {
    dir + "/"@ + name
}

/// `paths` with every repeat of an earlier path left out.
pub open spec fn first_occurrences(paths: Seq<Seq<char>>) -> Seq<Seq<char>>
    decreases paths.len(),
{
    if paths.len() == 0 {
        Seq::empty()
    } else {
        let head = first_occurrences(paths.drop_last());
        if head.contains(paths.last()) {
            head
        } else {
            head.push(paths.last())
        }
    }
}

/// Whether `text` holds exactly the characters of `other`.
pub fn same_text(text: &String, other: &str) -> (same: bool)
    ensures
        same == (text@ == other@),
{
    let owned = String::from_str(other);
    *text == owned
}

/// The path of `name` inside `dir`.
pub fn join_path(dir: &str, name: &str) -> (path: String)
    ensures
        path@ == child_path(dir@, name@),
{
    let mut path = String::from_str(dir);
    path.append("/");
    path.append(name);
    path
}

/// A fresh vector holding the same strings as `items`.
pub fn copy_texts(items: &Vec<String>) -> (copy: Vec<String>)
    ensures
        texts(copy@) == texts(items@),
{
    let mut copy: Vec<String> = Vec::new();
    let mut i: usize = 0;
    while i < items.len()
        invariant
            i <= items.len(),
            copy@.len() == i,
            forall|k: int| 0 <= k < i ==> copy@[k]@ == items@[k]@,
        decreases items.len() - i,
    {
        copy.push(items[i].clone());
        i += 1;
    }
    assert(texts(copy@) =~= texts(items@));
    copy
}

/// Appends a copy of every string of `items` to `out`, keeping their order.
pub fn append_texts(out: &mut Vec<String>, items: &Vec<String>)
    ensures
        texts(final(out)@) == texts(old(out)@) + texts(items@),
{
    let ghost before = texts(out@);
    let mut i: usize = 0;
    while i < items.len()
        invariant
            i <= items.len(),
            texts(out@) == before + texts(items@).take(i as int),
        decreases items.len() - i,
    {
        let ghost prev = out@;
        out.push(items[i].clone());
        assert(texts(out@) =~= texts(prev).push(items@[i as int]@));
        assert(texts(items@).take(i + 1) =~= texts(items@).take(i as int).push(items@[i as int]@));
        i += 1;
    }
    assert(texts(items@).take(items@.len() as int) =~= texts(items@));
}

/// Whether one of `items` holds the characters of `text`.
pub fn contains_text(items: &Vec<String>, text: &String) -> (found: bool)
    ensures
        found == texts(items@).contains(text@),
{
    let mut i: usize = 0;
    while i < items.len()
        invariant
            i <= items.len(),
            forall|k: int| 0 <= k < i ==> texts(items@)[k] != text@,
        decreases items.len() - i,
    {
        if items[i] == *text {
            assert(texts(items@)[i as int] == text@);
            return true;
        }
        i += 1;
    }
    false
}

/// A copy of `items` in which each text stands once, at the place of its
/// first occurrence.
pub fn distinct_texts(items: &Vec<String>) -> (kept: Vec<String>)
    ensures
        texts(kept@) == first_occurrences(texts(items@)),
        texts(kept@).no_duplicates(),
{
    let mut kept: Vec<String> = Vec::new();
    let mut i: usize = 0;
    assert(texts(items@).take(0) =~= Seq::<Seq<char>>::empty());
    assert(texts(kept@) =~= Seq::<Seq<char>>::empty());
    while i < items.len()
        invariant
            i <= items.len(),
            texts(kept@) == first_occurrences(texts(items@).take(i as int)),
        decreases items.len() - i,
    {
        let ghost before = texts(kept@);
        proof {
            assert(texts(items@).take(i + 1).drop_last() =~= texts(items@).take(i as int));
            assert(texts(items@).take(i + 1).last() == items@[i as int]@);
        }
        if !contains_text(&kept, &items[i]) {
            kept.push(items[i].clone());
            assert(texts(kept@) =~= before.push(items@[i as int]@));
        }
        i += 1;
    }
    proof {
        assert(texts(items@).take(items@.len() as int) =~= texts(items@));
        lemma_first_occurrences(texts(items@));
    }
    kept
}

/// Leaving out repeats keeps every path once: the result has no path
/// twice, holds exactly the paths of `paths`, is as long as `paths` has
/// different paths, and is `paths` itself where nothing repeats.
pub proof fn lemma_first_occurrences(paths: Seq<Seq<char>>)
    ensures
        first_occurrences(paths).no_duplicates(),
        forall|path: Seq<char>| #[trigger]
            first_occurrences(paths).contains(path) <==> paths.contains(path),
        first_occurrences(paths).to_set() == paths.to_set(),
        first_occurrences(paths).len() == paths.to_set().len(),
        paths.no_duplicates() ==> first_occurrences(paths) == paths,
    decreases paths.len(),
{
    let kept = first_occurrences(paths);
    if paths.len() > 0 {
        let rest = paths.drop_last();
        let last = paths.last();
        let head = first_occurrences(rest);
        lemma_first_occurrences(rest);
        assert forall|path: Seq<char>| #[trigger] kept.contains(path) <==> paths.contains(path) by {
            assert(head.contains(path) <==> rest.contains(path));
            if kept.contains(path) {
                let i = choose|i: int| 0 <= i < kept.len() && kept[i] == path;
                if i < head.len() {
                    assert(head[i] == path);
                    assert(head.contains(path));
                    let j = choose|j: int| 0 <= j < rest.len() && rest[j] == path;
                    assert(paths[j] == path);
                } else {
                    assert(paths[paths.len() - 1] == path);
                }
            }
            if paths.contains(path) {
                let j = choose|j: int| 0 <= j < paths.len() && paths[j] == path;
                if j < rest.len() {
                    assert(rest[j] == path);
                    assert(rest.contains(path));
                    let i = choose|i: int| 0 <= i < head.len() && head[i] == path;
                    assert(kept[i] == path);
                } else if head.contains(last) {
                } else {
                    assert(kept[kept.len() - 1] == path);
                }
            }
        }
        if paths.no_duplicates() {
            assert(rest.no_duplicates());
            assert(!rest.contains(last)) by {
                if rest.contains(last) {
                    let j = choose|j: int| 0 <= j < rest.len() && rest[j] == last;
                    assert(paths[j] == paths[paths.len() - 1]);
                }
            }
            assert(kept =~= paths);
        }
    }
    assert(kept.to_set() =~= paths.to_set());
    kept.unique_seq_to_set();
}

} // verus!
