//! Managing workspace directories: where they live, what deleting a workspace cleans
//! up, and which directories are orphans.
use vstd::prelude::*;
use crate::config::{join_path, path_join};
use crate::json::str_eq;
use crate::text::owned;

verus! {

/// The input for creating a workspace over a repository.
pub struct RepoWorkspaceInput<R> {
    pub repo: R,
    pub target_branch: String,
}

impl<R> RepoWorkspaceInput<R> {
    pub fn new(repo: R, target_branch: String) -> (r: Self)
        ensures
            r.repo == repo,
            r.target_branch == target_branch,
    {
        RepoWorkspaceInput { repo, target_branch }
    }
}

/// What cleaning up after a deleted workspace needs.
pub struct WorkspaceDeletionContext {
    pub workspace_id: u128,
    pub workspace_dir: Option<String>,
    pub session_ids: Vec<u128>,
}

/// A workspace record together with the store it belongs to.
pub struct ManagedWorkspace<D, W> {
    pub workspace: W,
    pub db: D,
}

impl<D, W> ManagedWorkspace<D, W> {
    fn new(db: D, workspace: W) -> (r: Self)
        ensures
            r.workspace == workspace,
            r.db == db,
    {
        ManagedWorkspace { workspace, db }
    }
}

/// The context for deleting a workspace: its id, its directory (the container reference,
/// if it has one) and the ids of its sessions.
pub fn prepare_deletion_context(
    workspace_id: u128,
    container_ref: Option<String>,
    session_ids: Vec<u128>,
) -> (r: WorkspaceDeletionContext)
    ensures
        r.workspace_id == workspace_id,
        r.workspace_dir == container_ref,
        r.session_ids == session_ids,
{
    WorkspaceDeletionContext { workspace_id, workspace_dir: container_ref, session_ids }
}

/// Manages workspaces in a store.
pub struct WorkspaceManager<D> {
    pub db: D,
}

/// The directory that holds workspace directories, under the given data directory (or
/// the current directory when there is none).
pub open spec fn workspace_base_dir(data_dir: Option<Seq<char>>) -> Seq<char> {
    let base = match data_dir {
        Some(d) => d,
        None => "."@,
    };
    path_join(path_join(base, "vibe-kanban"@), "workspaces"@)
}

impl<D: Clone> WorkspaceManager<D> {
    pub fn new(db: D) -> (r: Self)
        ensures
            r.db == db,
    {
        WorkspaceManager { db }
    }

    /// The managed form of a workspace record, sharing this manager's store.
    pub fn load_managed_workspace<W>(&self, workspace: W) -> (r: ManagedWorkspace<D, W>)
        ensures
            r.workspace == workspace,
            cloned(self.db, r.db),
    {
        ManagedWorkspace::new(self.db.clone(), workspace)
    }

    /// The directory that holds workspace directories.
    pub fn get_workspace_base_dir(data_dir: Option<&str>) -> (r: String)
        ensures
            r@ == workspace_base_dir(match data_dir {
                Some(d) => Some(d@),
                None => None,
            }),
    {
        proof {
            reveal_strlit("vibe-kanban");
            reveal_strlit("workspaces");
        }
        let base = match data_dir {
            Some(d) => owned(d),
            None => owned("."),
        };
        let app = join_path(base.as_str(), "vibe-kanban");
        join_path(app.as_str(), "workspaces")
    }

    /// Whether orphan cleanup is turned off: by the configuration flag, or by the
    /// `DISABLE_WORKTREE_CLEANUP` variable being set.
    pub fn cleanup_disabled(config_flag: Option<bool>, env_set: bool) -> (r: bool)
        ensures
            r == (config_flag == Some(true) || env_set),
    {
        let flag = match config_flag {
            Some(b) => b,
            None => false,
        };
        flag || env_set
    }
}

/// Whether an optional container reference is the directory `d`.
pub open spec fn ref_is(r: Option<String>, d: Seq<char>) -> bool {
    match r {
        Some(x) => x@ == d,
        None => false,
    }
}

/// The directories that belong to live workspaces: the container references that are set.
pub open spec fn active_dirs(refs: Seq<Option<String>>) -> Set<Seq<char>> {
    Set::new(|d: Seq<char>| exists|i: int| 0 <= i < refs.len() && ref_is(refs[i], d))
}

fn in_refs(refs: &Vec<Option<String>>, d: &str) -> (b: bool)
    ensures
        b == active_dirs(refs@).contains(d@),
{
    let mut i: usize = 0;
    while i < refs.len()
        invariant
            i <= refs.len(),
            forall|j: int| 0 <= j < i ==> !ref_is(refs@[j], d@),
        decreases refs.len() - i,
    {
        if let Some(r) = &refs[i] {
            if str_eq(r.as_str(), d) {
                assert(ref_is(refs@[i as int], d@));
                return true;
            }
        }
        i = i + 1;
    }
    false
}

/// The directories under the base directory that no live workspace uses, in the order
/// given; `refs` are the container references of the live workspaces.
pub fn orphan_dirs(dirs: &Vec<String>, refs: &Vec<Option<String>>) -> (r: Vec<String>)
    ensures
        r@.map_values(|s: String| s@) == dirs@.map_values(|s: String| s@).filter(
            |d: Seq<char>| !active_dirs(refs@).contains(d),
        ),
{
    let ghost pred = |d: Seq<char>| !active_dirs(refs@).contains(d);
    let ghost views = dirs@.map_values(|s: String| s@);
    let mut r: Vec<String> = Vec::new();
    let mut i: usize = 0;
    proof {
        reveal_with_fuel(Seq::<_>::filter, 1);
        assert(views.take(0) =~= Seq::<Seq<char>>::empty());
        assert(r@.map_values(|s: String| s@) =~= Seq::<Seq<char>>::empty());
    }
    while i < dirs.len()
        invariant
            i <= dirs.len(),
            views == dirs@.map_values(|s: String| s@),
            pred == (|d: Seq<char>| !active_dirs(refs@).contains(d)),
            r@.map_values(|s: String| s@) == views.take(i as int).filter(pred),
        decreases dirs.len() - i,
    {
        proof {
            reveal_with_fuel(Seq::<_>::filter, 1);
            assert(views.take(i + 1).drop_last() =~= views.take(i as int));
            assert(views.take(i + 1).last() == dirs@[i as int]@);
        }
        let ghost before = r@;
        if !in_refs(refs, dirs[i].as_str()) {
            r.push(dirs[i].clone());
            assert(r@.map_values(|s: String| s@) =~= before.map_values(|s: String| s@).push(
                dirs@[i as int]@,
            ));
        }
        i = i + 1;
    }
    assert(views.take(dirs.len() as int) =~= views);
    r
}

proof fn lemma_filter_from_source(s: Seq<Seq<char>>, pred: spec_fn(Seq<char>) -> bool, d: Seq<char>)
    requires
        s.filter(pred).contains(d),
    ensures
        s.contains(d),
        pred(d),
    decreases s.len(),
{
    reveal_with_fuel(Seq::<_>::filter, 1);
    if s.len() > 0 {
        let rest = s.drop_last().filter(pred);
        if pred(s.last()) && d == s.last() {
            assert(s[s.len() - 1] == d);
        } else {
            if pred(s.last()) {
                let k = choose|k: int| 0 <= k < s.filter(pred).len() && s.filter(pred)[k] == d;
                assert(s.filter(pred) == rest.push(s.last()));
                assert(k < rest.len());
                assert(rest[k] == d);
            }
            assert(rest.contains(d));
            lemma_filter_from_source(s.drop_last(), pred, d);
            let j = choose|j: int| 0 <= j < s.drop_last().len() && s.drop_last()[j] == d;
            assert(s[j] == d);
        }
    }
}

/// Orphan cleanup spares live workspaces: a directory is removed exactly when it is
/// one of the directories found and no live workspace uses it.
pub proof fn law_orphan_cleanup_spares_live_workspaces(
    dirs: Seq<Seq<char>>,
    refs: Seq<Option<String>>,
    d: Seq<char>,
)
    ensures
        dirs.filter(|x: Seq<char>| !active_dirs(refs).contains(x)).contains(d) <==> (
        dirs.contains(d) && !active_dirs(refs).contains(d)),
{
    let pred = |x: Seq<char>| !active_dirs(refs).contains(x);
    if dirs.filter(pred).contains(d) {
        lemma_filter_from_source(dirs, pred, d);
    }
    if dirs.contains(d) && !active_dirs(refs).contains(d) {
        let i = choose|i: int| 0 <= i < dirs.len() && dirs[i] == d;
        dirs.lemma_filter_contains(pred, i);
    }
}

} // verus!
