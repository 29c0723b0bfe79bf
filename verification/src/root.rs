use vstd::prelude::*;
use crate::error::ChpError;
use crate::text::same_text;

verus! {

/// Name of the file whose presence makes a directory a project root.
pub open spec fn marker_name() -> Seq<char> {
    "chp.toml"@
}

/// The marker file's name.
pub fn marker() -> (name: &'static str)
    ensures
        name@ == marker_name(),
{
    "chp.toml"
}

/// What listing one directory produced: the names of its immediate
/// children, or nothing because the listing failed.
#[derive(Debug)]
pub enum Probe {
    Unreadable,
    Entries(Vec<String>),
}

/// Whether one of `entries` is the marker file.
pub open spec fn holds_marker(entries: Seq<String>) -> bool {
    exists|i: int| 0 <= i < entries.len() && entries[i]@ == marker_name()
}

/// The outcome of walking `chain` upward from position `depth`. The chain
/// lists the invocation directory first and the filesystem root last.
pub open spec fn root_from(chain: Seq<Probe>, depth: int) -> Result<int, ChpError>
    decreases chain.len() - depth,
{
    if depth < 0 || depth >= chain.len() {
        Err(ChpError::RootNotFound)
    } else {
        match chain[depth] {
            Probe::Unreadable => Err(ChpError::DirectoryReadError),
            Probe::Entries(names) => if holds_marker(names@) {
                Ok(depth)
            } else {
                root_from(chain, depth + 1)
            },
        }
    }
}

/// The position in `chain` of the project root: the nearest directory that
/// holds the marker, provided every directory before it could be listed.
pub open spec fn root_of(chain: Seq<Probe>) -> Result<int, ChpError> {
    root_from(chain, 0)
}

/// What the search does next.
#[derive(Clone, Copy, Debug, PartialEq, Eq, Structural)]
pub enum RootStep {
    /// List the ancestor at this position and report back.
    Probe(usize),
    /// The ancestor at this position is the project root.
    Found(usize),
    /// The search is over without a root.
    Failed(ChpError),
}

/// What `probe`, the listing of ancestor `depth` out of `chain_len`, leads to.
pub open spec fn step_after(chain_len: usize, depth: usize, probe: Probe) -> RootStep {
    match probe {
        Probe::Unreadable => RootStep::Failed(ChpError::DirectoryReadError),
        Probe::Entries(names) => if holds_marker(names@) {
            RootStep::Found(depth)
        } else if depth + 1 < chain_len {
            RootStep::Probe((depth + 1) as usize)
        } else {
            RootStep::Failed(ChpError::RootNotFound)
        },
    }
}

/// Whether a directory with these children is a project root.
pub fn has_marker(entries: &Vec<String>) -> (found: bool)
    ensures
        found == holds_marker(entries@),
{
    let mut i: usize = 0;
    while i < entries.len()
        invariant
            i <= entries.len(),
            forall|k: int| 0 <= k < i ==> entries@[k]@ != marker_name(),
        decreases entries.len() - i,
    {
        if same_text(&entries[i], marker()) {
            return true;
        }
        i += 1;
    }
    false
}

/// The first step of a search over `chain_len` ancestors.
pub fn root_start(chain_len: usize) -> (step: RootStep)
    ensures
        step == if chain_len == 0 {
            RootStep::Failed(ChpError::RootNotFound)
        } else {
            RootStep::Probe(0)
        },
{
    if chain_len == 0 {
        RootStep::Failed(ChpError::RootNotFound)
    } else {
        RootStep::Probe(0)
    }
}

/// The step that follows the listing of ancestor `depth`.
pub fn root_step(chain_len: usize, depth: usize, probe: &Probe) -> (step: RootStep)
    ensures
        step == step_after(chain_len, depth, *probe),
{
    match probe {
        Probe::Unreadable => RootStep::Failed(ChpError::DirectoryReadError),
        Probe::Entries(names) => {
            if has_marker(names) {
                RootStep::Found(depth)
            } else if depth < usize::MAX && depth + 1 < chain_len {
                RootStep::Probe(depth + 1)
            } else {
                RootStep::Failed(ChpError::RootNotFound)
            }
        },
    }
}

/// Runs the whole search over listings that are already at hand and gives
/// the position of the project root.
pub fn find_root(chain: &Vec<Probe>) -> (found: Result<usize, ChpError>)
    ensures
        match found {
            Ok(depth) => root_of(chain@) matches Ok(d) && d == depth,
            Err(error) => root_of(chain@) matches Err(e) && e == error,
        },
{
    let mut step = root_start(chain.len());
    loop
        invariant
            match step {
                RootStep::Probe(depth) => depth < chain.len() && root_from(chain@, depth as int)
                    == root_of(chain@),
                RootStep::Found(depth) => root_of(chain@) matches Ok(d) && d == depth,
                RootStep::Failed(error) => root_of(chain@) matches Err(e) && e == error,
            },
        decreases
            match step {
                RootStep::Probe(depth) => chain.len() - depth,
                _ => 0,
            },
    {
        match step {
            RootStep::Probe(depth) => {
                step = root_step(chain.len(), depth, &chain[depth]);
                assert(depth + 1 >= chain.len() ==> root_from(chain@, depth + 1) is Err);
            },
            RootStep::Found(depth) => {
                return Ok(depth);
            },
            RootStep::Failed(error) => {
                return Err(error);
            },
        }
    }
}

/// The search returns the nearest directory that holds the marker: if the
/// ancestor at position `depth` holds it, and every nearer one was listed
/// and does not, the root is at `depth`.
pub proof fn lemma_nearest_marker_is_root(chain: Seq<Probe>, depth: int)
    requires
        0 <= depth < chain.len(),
        forall|i: int|
            0 <= i < depth ==> chain[i] is Entries && !holds_marker(chain[i]->Entries_0@),
        chain[depth] is Entries,
        holds_marker(chain[depth]->Entries_0@),
    ensures
        root_of(chain) matches Ok(d) && d == depth,
{
    lemma_root_from_nearest(chain, 0, depth);
}

proof fn lemma_root_from_nearest(chain: Seq<Probe>, from: int, depth: int)
    requires
        0 <= from <= depth < chain.len(),
        forall|i: int|
            from <= i < depth ==> chain[i] is Entries && !holds_marker(chain[i]->Entries_0@),
        chain[depth] is Entries,
        holds_marker(chain[depth]->Entries_0@),
    ensures
        root_from(chain, from) matches Ok(d) && d == depth,
    decreases depth - from,
{
    if from < depth {
        lemma_root_from_nearest(chain, from + 1, depth);
    }
}

/// Where every ancestor was listed and none holds the marker, the search
/// fails with `RootNotFound`.
pub proof fn lemma_no_marker_no_root(chain: Seq<Probe>)
    requires
        forall|i: int|
            0 <= i < chain.len() ==> chain[i] is Entries && !holds_marker(chain[i]->Entries_0@),
    ensures
        root_of(chain) matches Err(e) && e == ChpError::RootNotFound,
{
    lemma_root_from_absent(chain, 0);
}

proof fn lemma_root_from_absent(chain: Seq<Probe>, from: int)
    requires
        0 <= from,
        forall|i: int|
            from <= i < chain.len() ==> chain[i] is Entries && !holds_marker(
                chain[i]->Entries_0@,
            ),
    ensures
        root_from(chain, from) matches Err(e) && e == ChpError::RootNotFound,
    decreases chain.len() - from,
{
    if from < chain.len() {
        lemma_root_from_absent(chain, from + 1);
    }
}

} // verus!
