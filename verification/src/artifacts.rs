//! Discovery and retrieval of a run's artifact tree.
//!
//! Listing and downloading are network calls made by the caller; this module
//! holds the crawl state machine, the retry and dispatch rules, and the path
//! mapping, each with its contract.

use vstd::multiset::Multiset;
use vstd::prelude::*;

use crate::api::Artifact;
use crate::errors::ArtifactError;

verus! {

broadcast use vstd::seq_lib::group_seq_properties;

/// A remote artifact tree: a file leaf, or a directory with its children.
pub enum ArtifactTreeNode {
    File { artifact: Artifact },
    Dir { id: String, children: Vec<ArtifactTreeNode> },
}

/// A tree is well formed when every leaf holds a file-flagged artifact.
pub open spec fn tree_wf(t: ArtifactTreeNode) -> bool
    decreases t,
{
    match t {
        ArtifactTreeNode::File { artifact } => artifact.is_file,
        ArtifactTreeNode::Dir { id, children } => forall|i: int|
            0 <= i < children@.len() ==> tree_wf(#[trigger] children@[i]),
    }
}

/// The file leaves reachable from `t`, as a multiset: the crawl promises
/// exactly these, in no particular order.
pub open spec fn leaves_of(t: ArtifactTreeNode) -> Multiset<Artifact>
    decreases t,
{
    match t {
        ArtifactTreeNode::File { artifact } => Multiset::empty().insert(artifact),
        ArtifactTreeNode::Dir { id, children } => leaves_of_seq(children@),
    }
}

/// The file leaves reachable from any node of `s`.
pub open spec fn leaves_of_seq(s: Seq<ArtifactTreeNode>) -> Multiset<Artifact>
    decreases s,
{
    if s.len() == 0 {
        Multiset::empty()
    } else {
        leaves_of_seq(s.drop_last()).add(leaves_of(s.last()))
    }
}

/// Number of nodes in `t`.
pub open spec fn size_of(t: ArtifactTreeNode) -> nat
    decreases t,
{
    match t {
        ArtifactTreeNode::File { artifact } => 1,
        ArtifactTreeNode::Dir { id, children } => 1 + size_of_seq(children@),
    }
}

/// Number of nodes in all of `s`.
pub open spec fn size_of_seq(s: Seq<ArtifactTreeNode>) -> nat
    decreases s,
{
    if s.len() == 0 {
        0
    } else {
        size_of_seq(s.drop_last()) + size_of(s.last())
    }
}

proof fn lemma_size_of_pos(t: ArtifactTreeNode)
    ensures
        size_of(t) >= 1,
{
    match t {
        ArtifactTreeNode::File { artifact } => {},
        ArtifactTreeNode::Dir { id, children } => {},
    }
}

/// Move every child into the frontier, carrying leaves and size across.
fn push_children(frontier: &mut Vec<ArtifactTreeNode>, children: Vec<ArtifactTreeNode>)
    requires
        forall|i: int| 0 <= i < old(frontier)@.len() ==> tree_wf(#[trigger] old(frontier)@[i]),
        forall|i: int| 0 <= i < children@.len() ==> tree_wf(#[trigger] children@[i]),
    ensures
        leaves_of_seq(final(frontier)@) == leaves_of_seq(old(frontier)@).add(
            leaves_of_seq(children@),
        ),
        size_of_seq(final(frontier)@) == size_of_seq(old(frontier)@) + size_of_seq(children@),
        forall|i: int| 0 <= i < final(frontier)@.len() ==> tree_wf(#[trigger] final(frontier)@[i]),
{
    broadcast use vstd::multiset::group_multiset_axioms;

    let ghost total_size = size_of_seq(frontier@) + size_of_seq(children@);
    let ghost total_leaves = leaves_of_seq(frontier@).add(leaves_of_seq(children@));
    let mut children = children;
    while children.len() > 0
        invariant
            size_of_seq(frontier@) + size_of_seq(children@) == total_size,
            leaves_of_seq(frontier@).add(leaves_of_seq(children@)) == total_leaves,
            forall|i: int| 0 <= i < frontier@.len() ==> tree_wf(#[trigger] frontier@[i]),
            forall|i: int| 0 <= i < children@.len() ==> tree_wf(#[trigger] children@[i]),
        decreases size_of_seq(children@),
    {
        let ghost pre_c = children@;
        let ghost pre_f = frontier@;
        let child = children.pop().unwrap();
        assert(children@ =~= pre_c.drop_last());
        proof {
            lemma_size_of_pos(pre_c.last());
        }
        assert(size_of_seq(pre_c) == size_of_seq(children@) + size_of(pre_c.last()));
        frontier.push(child);
        assert(frontier@.drop_last() =~= pre_f);
        assert(frontier@.last() == child);
        assert(leaves_of_seq(frontier@) == leaves_of_seq(pre_f).add(leaves_of(child)));
        assert(leaves_of_seq(pre_c) == leaves_of_seq(children@).add(leaves_of(child)));
        assert(leaves_of_seq(frontier@).add(leaves_of_seq(children@)) =~= total_leaves);
    }
    assert(leaves_of_seq(children@) =~= Multiset::<Artifact>::empty());
    assert(leaves_of_seq(frontier@) =~= total_leaves);
}

/// Crawl an artifact tree by iterative frontier expansion and return every
/// file leaf: exactly the file set of the tree, with nothing from any
/// directory node.
pub fn crawl_tree(root: ArtifactTreeNode) -> (r: Vec<Artifact>)
    requires
        tree_wf(root),
    ensures
        r@.to_multiset() == leaves_of(root),
        forall|i: int| 0 <= i < r@.len() ==> (#[trigger] r@[i]).is_file,
{
    broadcast use vstd::seq_lib::group_to_multiset_ensures;
    broadcast use vstd::multiset::group_multiset_axioms;

    let ghost total = leaves_of(root);
    let mut files: Vec<Artifact> = Vec::new();
    let mut frontier: Vec<ArtifactTreeNode> = Vec::new();
    frontier.push(root);
    assert(frontier@.drop_last() =~= Seq::<ArtifactTreeNode>::empty());
    assert(files@.to_multiset() =~= Multiset::<Artifact>::empty()) by {
        assert(files@.to_multiset().len() == 0);
    }
    assert(frontier@.last() == root);
    assert(leaves_of_seq(frontier@.drop_last()) =~= Multiset::<Artifact>::empty());
    assert(leaves_of_seq(frontier@) =~= Multiset::<Artifact>::empty().add(leaves_of(root)));
    assert(files@.to_multiset().add(leaves_of_seq(frontier@)) =~= total);
    while frontier.len() > 0
        invariant
            files@.to_multiset().add(leaves_of_seq(frontier@)) == total,
            forall|i: int| 0 <= i < files@.len() ==> (#[trigger] files@[i]).is_file,
            forall|i: int| 0 <= i < frontier@.len() ==> tree_wf(#[trigger] frontier@[i]),
        decreases size_of_seq(frontier@),
    {
        let ghost pre = frontier@;
        let node = frontier.pop().unwrap();
        assert(frontier@ =~= pre.drop_last());
        assert(node == pre.last());
        assert(leaves_of_seq(pre) == leaves_of_seq(frontier@).add(leaves_of(node)));
        assert(size_of_seq(pre) == size_of_seq(frontier@) + size_of(node));
        match node {
            ArtifactTreeNode::File { artifact } => {
                assert(artifact.is_file);
                files.push(artifact);
                assert(files@.to_multiset().add(leaves_of_seq(frontier@)) =~= total);
            },
            ArtifactTreeNode::Dir { id, children } => {
                let ghost kids = children@;
                assert(leaves_of(pre.last()) == leaves_of_seq(kids));
                assert(size_of(pre.last()) == 1 + size_of_seq(kids));
                push_children(&mut frontier, children);
                assert(files@.to_multiset().add(leaves_of_seq(frontier@)) =~= total);
            },
        }
    }
    assert(leaves_of_seq(frontier@) =~= Multiset::<Artifact>::empty());
    assert(files@.to_multiset() =~= total);
    files
}

/// The file entries of a listing, in listing order.
pub open spec fn files_of(nodes: Seq<Artifact>) -> Seq<Artifact>
    decreases nodes.len(),
{
    if nodes.len() == 0 {
        Seq::empty()
    } else {
        files_of(nodes.drop_last()) + (if nodes.last().is_file {
            seq![nodes.last()]
        } else {
            Seq::empty()
        })
    }
}

/// The ids of the directory entries of a listing, in listing order.
pub open spec fn dir_ids_of(nodes: Seq<Artifact>) -> Seq<String>
    decreases nodes.len(),
{
    if nodes.len() == 0 {
        Seq::empty()
    } else {
        dir_ids_of(nodes.drop_last()) + (if !nodes.last().is_file {
            seq![nodes.last().id]
        } else {
            Seq::empty()
        })
    }
}

proof fn lemma_partition_concat(a: Seq<Artifact>, b: Seq<Artifact>)
    ensures
        files_of(a + b) == files_of(a) + files_of(b),
        dir_ids_of(a + b) == dir_ids_of(a) + dir_ids_of(b),
    decreases b.len(),
{
    if b.len() == 0 {
        assert(a + b =~= a);
        assert(files_of(a) + files_of(b) =~= files_of(a));
        assert(dir_ids_of(a) + dir_ids_of(b) =~= dir_ids_of(a));
    } else {
        lemma_partition_concat(a, b.drop_last());
        assert((a + b).drop_last() =~= a + b.drop_last());
        assert((a + b).last() == b.last());
        assert(files_of(a + b) =~= files_of(a) + files_of(b));
        assert(dir_ids_of(a + b) =~= dir_ids_of(a) + dir_ids_of(b));
    }
}

/// Split one listing into its file entries and its directory ids.
pub fn partition_listing(nodes: &Vec<Artifact>) -> (r: (Vec<Artifact>, Vec<String>))
    ensures
        r.0@ == files_of(nodes@),
        r.1@ == dir_ids_of(nodes@),
{
    let mut files: Vec<Artifact> = Vec::new();
    let mut dirs: Vec<String> = Vec::new();
    let n = nodes.len();
    let mut i: usize = 0;
    assert(nodes@.take(0) =~= Seq::<Artifact>::empty());
    while i < n
        invariant
            n == nodes@.len(),
            i <= n,
            files@ == files_of(nodes@.take(i as int)),
            dirs@ == dir_ids_of(nodes@.take(i as int)),
        decreases n - i,
    {
        let ghost prefix = nodes@.take(i as int);
        assert(nodes@.take(i + 1).drop_last() =~= prefix);
        assert(nodes@.take(i + 1).last() == nodes@[i as int]);
        if nodes[i].is_file {
            files.push(nodes[i].duplicate());
            assert(files@ =~= files_of(nodes@.take(i + 1)));
            assert(dirs@ =~= dir_ids_of(nodes@.take(i + 1)));
        } else {
            dirs.push(nodes[i].id.clone());
            assert(files@ =~= files_of(nodes@.take(i + 1)));
            assert(dirs@ =~= dir_ids_of(nodes@.take(i + 1)));
        }
        i = i + 1;
    }
    assert(nodes@.take(n as int) =~= nodes@);
    (files, dirs)
}

/// All entries of a batch of listing results, failures contributing nothing.
pub open spec fn flatten_listings(batch: Seq<Result<Vec<Artifact>, String>>) -> Seq<Artifact>
    decreases batch.len(),
{
    if batch.len() == 0 {
        Seq::empty()
    } else {
        flatten_listings(batch.drop_last()) + (match batch.last() {
            Ok(v) => v@,
            Err(_) => Seq::empty(),
        })
    }
}

/// The crawl after some rounds: directory ids still to expand, and the file
/// artifacts found so far.
pub struct CrawlState {
    pub frontier: Vec<String>,
    pub files: Vec<Artifact>,
}

impl CrawlState {
    /// A crawl about to expand the run's artifact root.
    pub fn begin(root_id: String) -> (s: CrawlState)
        ensures
            s.frontier@ == seq![root_id],
            s.files@ == Seq::<Artifact>::empty(),
    {
        let mut frontier: Vec<String> = Vec::new();
        frontier.push(root_id);
        CrawlState { frontier, files: Vec::new() }
    }

    /// The crawl is finished when no directory is left to expand.
    pub fn is_done(&self) -> (r: bool)
        ensures
            r == (self.frontier@.len() == 0),
    {
        self.frontier.len() == 0
    }

    /// Feed the listing results of one round, one per frontier entry. If
    /// every call succeeded, the files join the result set and the
    /// directories become the next frontier. If any call failed, that
    /// failure comes back and the state is left untouched: a partial file
    /// list never leaks out.
    pub fn round(&mut self, batch: Vec<Result<Vec<Artifact>, String>>) -> (r: Result<
        (),
        ArtifactError,
    >)
        requires
            batch@.len() == old(self).frontier@.len(),
        ensures
            r is Ok <==> (forall|k: int| 0 <= k < batch@.len() ==> batch@[k] is Ok),
            r is Ok ==> final(self).files@ == old(self).files@ + files_of(
                flatten_listings(batch@),
            ) && final(self).frontier@ == dir_ids_of(flatten_listings(batch@)),
            r is Err ==> *final(self) == *old(self),
            r matches Err(e) ==> exists|k: int|
                {
                    &&& 0 <= k < batch@.len()
                    &&& batch@[k] is Err
                    &&& (forall|m: int| 0 <= m < k ==> batch@[m] is Ok)
                    &&& e == ArtifactError::ListFailed { error: batch@[k]->Err_0 }
                },
    {
        let n = batch.len();
        let mut k: usize = 0;
        while k < n
            invariant
                n == batch@.len(),
                k <= n,
                forall|m: int| 0 <= m < k ==> batch@[m] is Ok,
            decreases n - k,
        {
            match &batch[k] {
                Ok(_) => {},
                Err(msg) => {
                    return Err(ArtifactError::ListFailed { error: msg.clone() });
                },
            }
            k = k + 1;
        }
        let mut collected: Vec<Artifact> = Vec::new();
        let mut next_frontier: Vec<String> = Vec::new();
        let mut j: usize = 0;
        assert(batch@.take(0) =~= Seq::<Result<Vec<Artifact>, String>>::empty());
        while j < n
            invariant
                n == batch@.len(),
                j <= n,
                forall|m: int| 0 <= m < n ==> batch@[m] is Ok,
                collected@ == files_of(flatten_listings(batch@.take(j as int))),
                next_frontier@ == dir_ids_of(flatten_listings(batch@.take(j as int))),
            decreases n - j,
        {
            let ghost prefix = batch@.take(j as int);
            assert(batch@.take(j + 1).drop_last() =~= prefix);
            assert(batch@.take(j + 1).last() == batch@[j as int]);
            match &batch[j] {
                Ok(nodes) => {
                    let (mut fs, mut ds) = partition_listing(nodes);
                    proof {
                        lemma_partition_concat(flatten_listings(prefix), nodes@);
                    }
                    collected.append(&mut fs);
                    next_frontier.append(&mut ds);
                    assert(flatten_listings(batch@.take(j + 1)) =~= flatten_listings(prefix)
                        + nodes@);
                },
                Err(_) => {
                    assert(false);
                },
            }
            j = j + 1;
        }
        assert(batch@.take(n as int) =~= batch@);
        self.files.append(&mut collected);
        self.frontier = next_frontier;
        Ok(())
    }

    /// Hand out the collected file set once the crawl is done.
    pub fn finish(self) -> (r: Vec<Artifact>)
        requires
            self.frontier@.len() == 0,
        ensures
            r@ == self.files@,
    {
        self.files
    }
}

/// Crawling repeats nothing: a crawl result whose multiset matches a tree
/// with pairwise distinct leaves holds no duplicate artifacts.
pub proof fn lemma_crawl_no_duplicates(files: Seq<Artifact>, t: ArtifactTreeNode)
    requires
        files.to_multiset() == leaves_of(t),
        forall|a: Artifact| leaves_of(t).count(a) <= 1,
    ensures
        files.no_duplicates(),
{
    broadcast use vstd::multiset::group_multiset_axioms;

    assert(forall|x: Artifact| files.to_multiset().contains(x) ==> files.to_multiset().count(x)
        == 1);
    files.lemma_multiset_has_no_duplicates_conv();
}

/// The redirected form of an allure attachment source: everything from the
/// first `logs/omni` (or, failing that, `video/omni`) on, reached two
/// directories up. Sources that mention neither stay as they are.
pub fn patch_attachment_source(source: &str) -> (r: Option<String>)
    ensures
        r is Some <==> (crate::strutil::contains_str(source@, "logs/omni"@)
            || crate::strutil::contains_str(source@, "video/omni"@)),
        crate::strutil::contains_str(source@, "logs/omni"@) ==> (r matches Some(p) && exists|
            i: int,
        |
            crate::strutil::is_first_match(source@, "logs/omni"@, i) && p@ == "../../"@
                + #[trigger] source@.skip(i)),
        !crate::strutil::contains_str(source@, "logs/omni"@) && crate::strutil::contains_str(
            source@,
            "video/omni"@,
        ) ==> (r matches Some(p) && exists|i: int|
            crate::strutil::is_first_match(source@, "video/omni"@, i) && p@ == "../../"@
                + #[trigger] source@.skip(i)),
{
    proof {
        reveal_strlit("logs/omni");
        reveal_strlit("video/omni");
    }
    let len = source.unicode_len();
    let by_logs = crate::strutil::find_str(source, "logs/omni");
    let index = match by_logs {
        Some(i) => {
            assert(crate::strutil::contains_str(source@, "logs/omni"@));
            i
        },
        None => {
            assert(!crate::strutil::contains_str(source@, "logs/omni"@));
            let by_video = crate::strutil::find_str(source, "video/omni");
            match by_video {
                Some(i) => {
                    assert(crate::strutil::contains_str(source@, "video/omni"@));
                    i
                },
                None => {
                    assert(!crate::strutil::contains_str(source@, "video/omni"@));
                    return None;
                },
            }
        },
    };
    let mut patched = String::from_str("../../");
    let rest = source.substring_char(index, len);
    patched.append(rest);
    assert(patched@ =~= "../../"@ + source@.skip(index as int));
    Some(patched)
}

/// How a remote artifact id maps onto a path below the output directory:
/// the `<run id>/` prefix is stripped; failing that, one leading `/`.
pub open spec fn spec_relative_path(run_id: Seq<char>, artifact_id: Seq<char>) -> Seq<char> {
    let prefix = run_id + seq!['/'];
    if prefix.is_prefix_of(artifact_id) {
        artifact_id.skip(prefix.len() as int)
    } else if artifact_id.len() > 0 && artifact_id[0] == '/' {
        artifact_id.skip(1)
    } else {
        artifact_id
    }
}

/// Compute the path of an artifact relative to the output directory.
pub fn artifact_relative_path(run_id: &str, artifact_id: &str) -> (r: String)
    ensures
        r@ == spec_relative_path(run_id@, artifact_id@),
{
    proof {
        reveal_strlit("/");
    }
    let mut prefix = run_id.to_owned();
    prefix.append("/");
    assert(prefix@ =~= run_id@ + seq!['/']);
    let len = artifact_id.unicode_len();
    if crate::strutil::starts_with(artifact_id, prefix.as_str()) {
        let plen = prefix.as_str().unicode_len();
        artifact_id.substring_char(plen, len).to_owned()
    } else if len > 0 && artifact_id.get_char(0) == '/' {
        artifact_id.substring_char(1, len).to_owned()
    } else {
        artifact_id.to_owned()
    }
}

/// A `..` path component anywhere in `p`.
pub open spec fn has_dotdot_component(p: Seq<char>) -> bool {
    exists|i: int|
        {
            &&& 0 <= i
            &&& i + 2 <= p.len()
            &&& #[trigger] p[i] == '.'
            &&& p[i + 1] == '.'
            &&& (i == 0 || p[i - 1] == '/')
            &&& (i + 2 == p.len() || p[i + 2] == '/')
        }
}

fn find_dotdot_component(p: &str) -> (r: bool)
    ensures
        r == has_dotdot_component(p@),
{
    let len = p.unicode_len();
    if len < 2 {
        assert(!has_dotdot_component(p@));
        return false;
    }
    let mut i: usize = 0;
    while i <= len - 2
        invariant
            len == p@.len(),
            2 <= len,
            i <= len - 1,
            forall|j: int|
                0 <= j < i ==> !(j + 2 <= p@.len() && #[trigger] p@[j] == '.' && p@[j + 1] == '.'
                    && (j == 0 || p@[j - 1] == '/') && (j + 2 == p@.len() || p@[j + 2] == '/')),
        decreases len - i,
    {
        if p.get_char(i) == '.' && p.get_char(i + 1) == '.' && (i == 0 || p.get_char(i - 1) == '/')
            && (i + 2 == len || p.get_char(i + 2) == '/') {
            assert(has_dotdot_component(p@));
            return true;
        }
        i = i + 1;
    }
    assert(!has_dotdot_component(p@));
    false
}

/// A relative path that stays inside the directory it is joined onto:
/// non-empty, not absolute, and without `..` components.
pub open spec fn is_safe_relative_path(p: Seq<char>) -> bool {
    &&& p.len() > 0
    &&& p[0] != '/'
    &&& !has_dotdot_component(p)
}

/// The local download path of an artifact: the output directory joined with
/// the artifact's relative path. Ids whose relative path would land outside
/// the output directory are refused.
pub fn local_download_path(output_dir: &str, run_id: &str, artifact_id: &str) -> (r: Option<
    String,
>)
    ensures
        r is Some <==> is_safe_relative_path(spec_relative_path(run_id@, artifact_id@)),
        r matches Some(p) ==> p@ == output_dir@ + seq!['/'] + spec_relative_path(
            run_id@,
            artifact_id@,
        ),
{
    proof {
        reveal_strlit("/");
    }
    let rel = artifact_relative_path(run_id, artifact_id);
    let rel_len = rel.as_str().unicode_len();
    if rel_len == 0 {
        return None;
    }
    if rel.as_str().get_char(0) == '/' {
        return None;
    }
    if find_dotdot_component(rel.as_str()) {
        return None;
    }
    let mut path = output_dir.to_owned();
    path.append("/");
    path.append(rel.as_str());
    assert(path@ =~= output_dir@ + seq!['/'] + spec_relative_path(run_id@, artifact_id@));
    Some(path)
}

/// How often one download may be attempted before it counts as failed.
pub const MAX_DOWNLOAD_ATTEMPTS: u32 = 3;

/// What became of one download task after its retry loop.
#[derive(Debug, Clone, PartialEq, Eq)]
pub enum DownloadOutcome {
    /// The attempt with this 1-based number succeeded; earlier ones failed.
    Completed { attempts: u32 },
    /// Every allowed attempt failed.
    Failed,
}

/// Run one task's retry loop against its attempt results: `attempts[k]`
/// says whether attempt `k + 1` would succeed. The task completes on the
/// first success within the allowed attempts and fails only if all of them
/// fail.
pub fn run_with_retries(attempts: &Vec<bool>) -> (r: DownloadOutcome)
    requires
        attempts@.len() >= MAX_DOWNLOAD_ATTEMPTS,
    ensures
        r matches DownloadOutcome::Completed { attempts: a } ==> 1 <= a
            <= MAX_DOWNLOAD_ATTEMPTS && attempts@[a - 1] && (forall|j: int|
            0 <= j < a - 1 ==> !attempts@[j]),
        r is Failed <==> (forall|j: int| 0 <= j < MAX_DOWNLOAD_ATTEMPTS ==> !attempts@[j]),
{
    let mut attempt: u32 = 0;
    while attempt < MAX_DOWNLOAD_ATTEMPTS
        invariant
            attempts@.len() >= MAX_DOWNLOAD_ATTEMPTS,
            attempt <= MAX_DOWNLOAD_ATTEMPTS,
            forall|j: int| 0 <= j < attempt ==> !attempts@[j],
        decreases MAX_DOWNLOAD_ATTEMPTS - attempt,
    {
        if attempts[attempt as usize] {
            return DownloadOutcome::Completed { attempts: attempt + 1 };
        }
        attempt = attempt + 1;
    }
    DownloadOutcome::Failed
}

/// What a whole download batch produced: a success count and the ids whose
/// retries were exhausted. Failed tasks are reported, never dropped.
pub struct DownloadReport {
    pub completed: usize,
    pub failed: Vec<String>,
}

impl DownloadReport {
    /// An empty report.
    pub fn new() -> (r: DownloadReport)
        ensures
            r.completed == 0,
            r.failed@ == Seq::<String>::empty(),
    {
        DownloadReport { completed: 0, failed: Vec::new() }
    }

    /// Record one task's outcome: a success bumps the counter exactly once,
    /// a failure adds the artifact's id to the failure list.
    pub fn record(&mut self, artifact_id: String, outcome: &DownloadOutcome)
        requires
            old(self).completed < usize::MAX,
        ensures
            outcome is Completed ==> final(self).completed == old(self).completed + 1
                && final(self).failed@ == old(self).failed@,
            outcome is Failed ==> final(self).completed == old(self).completed
                && final(self).failed@ == old(self).failed@.push(artifact_id),
    {
        match outcome {
            DownloadOutcome::Completed { .. } => {
                self.completed = self.completed + 1;
            },
            DownloadOutcome::Failed => {
                self.failed.push(artifact_id);
            },
        }
    }
}

/// Bookkeeping of a bounded-concurrency dispatch: how many tasks of `total`
/// have been started and finished, with never more than `limit` in flight.
pub struct DownloadDispatcher {
    pub limit: usize,
    pub total: usize,
    pub started: usize,
    pub done: usize,
}

impl DownloadDispatcher {
    /// Tasks currently in flight.
    pub open spec fn in_flight(self) -> int {
        self.started - self.done
    }

    /// The dispatcher's invariant; every operation preserves it.
    pub open spec fn wf(self) -> bool {
        &&& self.limit >= 1
        &&& self.done <= self.started <= self.total
        &&& self.in_flight() <= self.limit
    }

    /// A dispatcher for `total` tasks, at most `limit` of them in flight.
    pub fn new(total: usize, limit: usize) -> (r: DownloadDispatcher)
        requires
            limit >= 1,
        ensures
            r.wf(),
            r.limit == limit,
            r.total == total,
            r.started == 0,
            r.done == 0,
    {
        DownloadDispatcher { limit, total, started: 0, done: 0 }
    }

    /// Whether another task may start now.
    pub fn can_start(&self) -> (r: bool)
        requires
            self.wf(),
        ensures
            r == (self.started < self.total && self.in_flight() < self.limit),
    {
        self.started < self.total && self.started - self.done < self.limit
    }

    /// Start the next task. Only allowed while the bound has room.
    pub fn start(&mut self)
        requires
            old(self).wf(),
            old(self).started < old(self).total,
            old(self).in_flight() < old(self).limit,
        ensures
            final(self).wf(),
            final(self).started == old(self).started + 1,
            final(self).done == old(self).done,
            final(self).limit == old(self).limit,
            final(self).total == old(self).total,
            final(self).in_flight() <= final(self).limit,
    {
        self.started = self.started + 1;
    }

    /// Mark one in-flight task as finished.
    pub fn complete(&mut self)
        requires
            old(self).wf(),
            old(self).in_flight() > 0,
        ensures
            final(self).wf(),
            final(self).done == old(self).done + 1,
            final(self).started == old(self).started,
            final(self).limit == old(self).limit,
            final(self).total == old(self).total,
    {
        self.done = self.done + 1;
    }

    /// Every task has started and finished.
    pub fn all_done(&self) -> (r: bool)
        ensures
            r == (self.started == self.total && self.done == self.total),
    {
        self.started == self.total && self.done == self.total
    }
}

/// The concurrency bound itself: at no reachable state of a dispatcher are
/// more tasks in flight than its limit allows.
pub proof fn lemma_dispatch_bounded(d: DownloadDispatcher)
    requires
        d.wf(),
    ensures
        d.in_flight() <= d.limit,
{
}

} // verus!
