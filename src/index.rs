use vstd::prelude::*;
use dashmap::DashMap;
use std::collections::hash_map::RandomState;
use crate::skeleton::{extract_ir, routed, Bucket, FileSkeleton, TopItem};

verus! {

/// The concurrent map of the dashmap crate, held opaquely: what it holds is
/// shared with other tasks and read through the wrappers below.
#[verifier::external_type_specification]
#[verifier::external_body]
#[verifier::reject_recursive_types(K)]
#[verifier::reject_recursive_types(V)]
#[verifier::reject_recursive_types(S)]
pub struct ExDashMap<K, V, S>(DashMap<K, V, S>);

/// The paths of `entries` are pairwise distinct.
pub open spec fn distinct_paths(entries: Seq<(String, FileSkeleton)>) -> bool {
    forall|i: int, j: int|
        0 <= i < entries.len() && 0 <= j < entries.len() && i != j ==> #[trigger] entries[i].0@
            != #[trigger] entries[j].0@
}

/// Relies on DashMap::new: an empty map.
#[verifier::external_body]
fn graph_new() -> (r: DashMap<String, FileSkeleton, RandomState>) {
    DashMap::new()
}

/// Relies on DashMap::insert: stores `sk` under `path`, replacing what was there.
/// Other tasks read and write the same map, so nothing is promised of what a
/// later read returns.
#[verifier::external_body]
fn graph_insert(m: &DashMap<String, FileSkeleton, RandomState>, path: String, sk: FileSkeleton) {
    m.insert(path, sk);
}

/// Relies on DashMap::get: a copy of the entry stored under `path` at the
/// moment of the call, if any. The entry is found by key equality, so its key
/// holds the characters of `path`.
#[verifier::external_body]
fn graph_get(m: &DashMap<String, FileSkeleton, RandomState>, path: &str) -> (r: Option<
    (String, FileSkeleton),
>)
    ensures
        r is Some ==> (r->0).0@ == path@,
{
    m.get(path).map(|e| (e.key().clone(), e.value().clone()))
}

/// Relies on DashMap::iter: a copy of the entries, each shard read under its
/// lock. A path lives in one shard only, so no path comes twice.
#[verifier::external_body]
fn graph_entries(m: &DashMap<String, FileSkeleton, RandomState>) -> (r: Vec<
    (String, FileSkeleton),
>)
    ensures
        distinct_paths(r@),
{
    m.iter().map(|e| (e.key().clone(), e.value().clone())).collect()
}

/// The shared index of the project: a concurrent map from a file's path to
/// its skeleton. The scanner and the watcher write it; the server reads it.
pub struct AppState {
    skeleton_graph: DashMap<String, FileSkeleton, RandomState>,
}

impl AppState {
    /// An empty index.
    pub fn new() -> (r: AppState) {
        AppState { skeleton_graph: graph_new() }
    }

    /// Stores the skeleton of `path`, replacing the one it had.
    fn insert(&self, path: String, sk: FileSkeleton) {
        graph_insert(&self.skeleton_graph, path, sk);
    }

    /// The entry stored under `path`, if any.
    pub(crate) fn lookup(&self, path: &str) -> (r: Option<(String, FileSkeleton)>)
        ensures
            r is Some ==> (r->0).0@ == path@,
    {
        graph_get(&self.skeleton_graph, path)
    }

    /// A copy of every entry of the index, each path once.
    pub fn snapshot(&self) -> (r: Vec<(String, FileSkeleton)>)
        ensures
            distinct_paths(r@),
    {
        graph_entries(&self.skeleton_graph)
    }

    /// Indexes each successfully parsed file of one batch: stores under each
    /// path the skeleton that `skeletons_of` builds from its top-level items,
    /// and tells whether any file was indexed (then one change notification is
    /// due). The index is shared with other tasks, so what a later read shows
    /// is not stated here.
    pub fn index_batch(&self, parsed: Vec<(String, Vec<TopItem>)>) -> (changed: bool)
        ensures
            changed == (parsed@.len() > 0),
    {
        let built = skeletons_of(&parsed);
        let mut built = built;
        let n = built.len();
        while built.len() > 0
            invariant
                built@.len() <= n,
                n == parsed@.len(),
            decreases built@.len(),
        {
            let (path, sk) = built.remove(0);
            self.insert(path, sk);
        }
        n > 0
    }
}

/// The skeleton of each parsed file of a batch, under its path, in the
/// batch's order.
pub open spec fn skeletons_built(
    parsed: Seq<(String, Vec<TopItem>)>,
    built: Seq<(String, FileSkeleton)>,
) -> bool {
    &&& built.len() == parsed.len()
    &&& forall|i: int|
        0 <= i < parsed.len() ==> #[trigger] built[i].0@ == parsed[i].0@ && forall|b: Bucket|
            built[i].1.field(b) == routed(parsed[i].1@, b)
}

/// Builds the skeleton of each parsed file of a batch, keeping its path.
pub fn skeletons_of(parsed: &Vec<(String, Vec<TopItem>)>) -> (r: Vec<(String, FileSkeleton)>)
    ensures
        skeletons_built(parsed@, r@),
{
    let mut r: Vec<(String, FileSkeleton)> = Vec::new();
    let mut i: usize = 0;
    while i < parsed.len()
        invariant
            i <= parsed@.len(),
            skeletons_built(parsed@.subrange(0, i as int), r@),
        decreases parsed@.len() - i,
    {
        let (path, items) = &parsed[i];
        let sk = extract_ir(items);
        let p = path.clone();
        r.push((p, sk));
        proof {
            let sub = parsed@.subrange(0, i + 1);
            assert forall|k: int| 0 <= k < sub.len() implies #[trigger] r@[k].0@ == sub[k].0@
                && forall|b: Bucket| r@[k].1.field(b) == routed(sub[k].1@, b) by {
                if k < i {
                    assert(sub[k] == parsed@.subrange(0, i as int)[k]);
                }
            }
        }
        i = i + 1;
    }
    assert(parsed@.subrange(0, parsed@.len() as int) =~= parsed@);
    r
}

/// Whether a file with this extension is indexed: TypeScript sources,
/// `ts` and `tsx`.
pub fn is_source_extension(ext: &str) -> (r: bool)
    ensures
        r == (ext@ == "ts"@ || ext@ == "tsx"@),
{
    crate::text::same_text(ext, "ts") || crate::text::same_text(ext, "tsx")
}

} // verus!
