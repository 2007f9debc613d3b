//! Comparison of local project folders with the projects known remotely.

use crate::text::lowercase;
use vstd::prelude::*;

verus! {

/// A local folder that could be a project.
#[derive(Debug, PartialEq, Eq)]
pub struct LocalProject {
    pub name: String,
    pub path: String,
    pub has_git: bool,
}

/// A remote project.
#[derive(Debug, PartialEq, Eq)]
pub struct LinearProject {
    pub id: String,
    pub name: String,
    pub url: Option<String>,
}

/// Where a project exists.
#[derive(Debug, PartialEq, Eq)]
pub enum SyncStatus {
    /// Locally and remotely.
    Synced { local: LocalProject, remote: LinearProject },
    /// Locally only.
    LocalOnly(LocalProject),
    /// Remotely only.
    RemoteOnly(LinearProject),
}

/// The mathematical content of a [`LocalProject`].
pub struct LocalProjectView {
    pub name: Seq<char>,
    pub path: Seq<char>,
    pub has_git: bool,
}

/// The mathematical content of a [`LinearProject`].
pub struct LinearProjectView {
    pub id: Seq<char>,
    pub name: Seq<char>,
    pub url: Option<Seq<char>>,
}

/// The mathematical content of a [`SyncStatus`].
pub enum SyncStatusView {
    Synced { local: LocalProjectView, remote: LinearProjectView },
    LocalOnly(LocalProjectView),
    RemoteOnly(LinearProjectView),
}

impl View for LocalProject {
    type V = LocalProjectView;

    open spec fn view(&self) -> LocalProjectView {
        LocalProjectView { name: self.name@, path: self.path@, has_git: self.has_git }
    }
}

impl View for LinearProject {
    type V = LinearProjectView;

    open spec fn view(&self) -> LinearProjectView {
        LinearProjectView {
            id: self.id@,
            name: self.name@,
            url: match self.url {
                Some(url) => Some(url@),
                None => None,
            },
        }
    }
}

impl View for SyncStatus {
    type V = SyncStatusView;

    open spec fn view(&self) -> SyncStatusView {
        match self {
            SyncStatus::Synced { local, remote } => SyncStatusView::Synced {
                local: local@,
                remote: remote@,
            },
            SyncStatus::LocalOnly(local) => SyncStatusView::LocalOnly(local@),
            SyncStatus::RemoteOnly(remote) => SyncStatusView::RemoteOnly(remote@),
        }
    }
}

impl Clone for LocalProject {
    fn clone(&self) -> (r: Self)
        ensures
            r@ == self@,
    {
        LocalProject { name: self.name.clone(), path: self.path.clone(), has_git: self.has_git }
    }
}

impl Clone for LinearProject {
    fn clone(&self) -> (r: Self)
        ensures
            r@ == self@,
    {
        LinearProject {
            id: self.id.clone(),
            name: self.name.clone(),
            url: match &self.url {
                Some(url) => Some(url.clone()),
                None => None,
            },
        }
    }
}

/// The contents of a list of local projects.
pub open spec fn locals_view(projects: Seq<LocalProject>) -> Seq<LocalProjectView> {
    Seq::new(projects.len(), |i: int| projects[i]@)
}

/// The contents of a list of remote projects.
pub open spec fn remotes_view(projects: Seq<LinearProject>) -> Seq<LinearProjectView> {
    Seq::new(projects.len(), |i: int| projects[i]@)
}

/// The contents of a list of statuses.
pub open spec fn statuses_view(statuses: Seq<SyncStatus>) -> Seq<SyncStatusView> {
    Seq::new(statuses.len(), |i: int| statuses[i]@)
}

/// The texts of a list of keys.
pub open spec fn keys_view(keys: Seq<String>) -> Seq<Seq<char>> {
    Seq::new(keys.len(), |i: int| keys[i]@)
}

/// The names of local projects in lower case.
pub open spec fn local_keys(projects: Seq<LocalProjectView>) -> Seq<Seq<char>> {
    Seq::new(projects.len(), |i: int| lowercase(projects[i].name))
}

/// The names of remote projects in lower case.
pub open spec fn remote_keys(projects: Seq<LinearProjectView>) -> Seq<Seq<char>> {
    Seq::new(projects.len(), |i: int| lowercase(projects[i].name))
}

/// Whether `at` is the first position of `key` among `keys`.
pub open spec fn is_first_of(keys: Seq<Seq<char>>, key: Seq<char>, at: int) -> bool {
    &&& 0 <= at < keys.len()
    &&& keys[at] == key
    &&& forall|j: int| 0 <= j < at ==> keys[j] != key
}

/// The status of one local project: synced with the first remote project of
/// the same key, or local only where there is none.
pub open spec fn local_status(
    local: LocalProjectView,
    key: Seq<char>,
    remote: Seq<LinearProjectView>,
    remote_keys: Seq<Seq<char>>,
) -> SyncStatusView {
    if remote_keys.contains(key) {
        SyncStatusView::Synced {
            local,
            remote: remote[choose|at: int| is_first_of(remote_keys, key, at)],
        }
    } else {
        SyncStatusView::LocalOnly(local)
    }
}

/// The statuses of the first `n` remote projects that no local project
/// shares a key with, in their order.
pub open spec fn remote_only(
    remote: Seq<LinearProjectView>,
    remote_keys: Seq<Seq<char>>,
    local_keys: Seq<Seq<char>>,
    n: int,
) -> Seq<SyncStatusView>
    decreases n,
{
    if n <= 0 {
        Seq::empty()
    } else {
        let before = remote_only(remote, remote_keys, local_keys, n - 1);
        if local_keys.contains(remote_keys[n - 1]) {
            before
        } else {
            before.push(SyncStatusView::RemoteOnly(remote[n - 1]))
        }
    }
}

/// The comparison of local with remote projects by their keys: one status
/// for each local project, in order, then one for each remote project that
/// no local project shares a key with, in order.
pub open spec fn compared(
    local: Seq<LocalProjectView>,
    local_keys: Seq<Seq<char>>,
    remote: Seq<LinearProjectView>,
    remote_keys: Seq<Seq<char>>,
) -> Seq<SyncStatusView> {
    Seq::new(local.len(), |i: int| local_status(local[i], local_keys[i], remote, remote_keys))
        + remote_only(remote, remote_keys, local_keys, remote.len() as int)
}

/// The first position of `key` among `keys`.
fn first_position(keys: &Vec<String>, key: &String) -> (found: Option<usize>)
    ensures
        match found {
            Some(at) => is_first_of(keys_view(keys@), key@, at as int),
            None => !keys_view(keys@).contains(key@),
        },
{
    let mut i: usize = 0;
    while i < keys.len()
        invariant
            i <= keys.len(),
            forall|j: int| 0 <= j < i ==> keys_view(keys@)[j] != key@,
        decreases keys.len() - i,
    {
        if keys[i] == *key {
            return Some(i);
        }
        i += 1;
    }
    None
}

/// Compares local with remote projects by the given keys, one key for each
/// project.
pub fn compare_keyed(
    local: &Vec<LocalProject>,
    local_keys: &Vec<String>,
    remote: &Vec<LinearProject>,
    remote_keys: &Vec<String>,
) -> (statuses: Vec<SyncStatus>)
    requires
        local_keys.len() == local.len(),
        remote_keys.len() == remote.len(),
    ensures
        statuses_view(statuses@) == compared(
            locals_view(local@),
            keys_view(local_keys@),
            remotes_view(remote@),
            keys_view(remote_keys@),
        ),
{
    let ghost lv = locals_view(local@);
    let ghost lk = keys_view(local_keys@);
    let ghost rv = remotes_view(remote@);
    let ghost rk = keys_view(remote_keys@);
    let mut statuses: Vec<SyncStatus> = Vec::new();
    let mut i: usize = 0;
    while i < local.len()
        invariant
            i <= local.len(),
            local_keys.len() == local.len(),
            remote_keys.len() == remote.len(),
            lv == locals_view(local@),
            lk == keys_view(local_keys@),
            rv == remotes_view(remote@),
            rk == keys_view(remote_keys@),
            statuses@.len() == i,
            forall|j: int| 0 <= j < i ==> statuses@[j]@ == local_status(lv[j], lk[j], rv, rk),
        decreases local.len() - i,
    {
        match first_position(remote_keys, &local_keys[i]) {
            Some(at) => {
                proof {
                    let chosen = choose|c: int| is_first_of(rk, lk[i as int], c);
                    assert(is_first_of(rk, lk[i as int], at as int));
                    assert(rk.contains(lk[i as int]));
                    assert(chosen == at);
                }
                statuses.push(
                    SyncStatus::Synced { local: local[i].clone(), remote: remote[at].clone() },
                );
            },
            None => {
                statuses.push(SyncStatus::LocalOnly(local[i].clone()));
            },
        }
        i += 1;
    }
    let ghost head = statuses_view(statuses@);
    let mut k: usize = 0;
    while k < remote.len()
        invariant
            k <= remote.len(),
            local_keys.len() == local.len(),
            remote_keys.len() == remote.len(),
            lv == locals_view(local@),
            lk == keys_view(local_keys@),
            rv == remotes_view(remote@),
            rk == keys_view(remote_keys@),
            head.len() == local.len(),
            forall|j: int| 0 <= j < head.len() ==> head[j] == local_status(lv[j], lk[j], rv, rk),
            statuses_view(statuses@) == head + remote_only(rv, rk, lk, k as int),
        decreases remote.len() - k,
    {
        let ghost before = statuses_view(statuses@);
        match first_position(local_keys, &remote_keys[k]) {
            Some(_) => {
                proof {
                    assert(lk.contains(rk[k as int]));
                }
            },
            None => {
                statuses.push(SyncStatus::RemoteOnly(remote[k].clone()));
                proof {
                    assert(statuses_view(statuses@) =~= before.push(
                        SyncStatusView::RemoteOnly(rv[k as int]),
                    ));
                    assert(before.push(SyncStatusView::RemoteOnly(rv[k as int])) =~= head
                        + remote_only(rv, rk, lk, k as int).push(
                        SyncStatusView::RemoteOnly(rv[k as int]),
                    ));
                }
            },
        }
        k += 1;
    }
    assert(head =~= Seq::new(lv.len(), |i: int| local_status(lv[i], lk[i], rv, rk)));
    statuses
}

/// The names of local projects in lower case.
fn lower_local_names(projects: &Vec<LocalProject>) -> (keys: Vec<String>)
    ensures
        keys.len() == projects.len(),
        keys_view(keys@) == local_keys(locals_view(projects@)),
{
    let mut keys: Vec<String> = Vec::new();
    let mut i: usize = 0;
    while i < projects.len()
        invariant
            i <= projects.len(),
            keys@.len() == i,
            forall|j: int| 0 <= j < i ==> keys@[j]@ == lowercase(projects@[j].name@),
        decreases projects.len() - i,
    {
        keys.push(projects[i].name.as_str().to_lowercase());
        i += 1;
    }
    assert(keys_view(keys@) =~= local_keys(locals_view(projects@)));
    keys
}

/// The names of remote projects in lower case.
fn lower_remote_names(projects: &Vec<LinearProject>) -> (keys: Vec<String>)
    ensures
        keys.len() == projects.len(),
        keys_view(keys@) == remote_keys(remotes_view(projects@)),
{
    let mut keys: Vec<String> = Vec::new();
    let mut i: usize = 0;
    while i < projects.len()
        invariant
            i <= projects.len(),
            keys@.len() == i,
            forall|j: int| 0 <= j < i ==> keys@[j]@ == lowercase(projects@[j].name@),
        decreases projects.len() - i,
    {
        keys.push(projects[i].name.as_str().to_lowercase());
        i += 1;
    }
    assert(keys_view(keys@) =~= remote_keys(remotes_view(projects@)));
    keys
}

/// Compares local with remote projects by name, without regard to case: one
/// status for each local project, then one for each remote project that no
/// local project shares its name with.
pub fn compare_projects(local: Vec<LocalProject>, remote: Vec<LinearProject>) -> (statuses: Vec<
    SyncStatus,
>)
    ensures
        statuses_view(statuses@) == compared(
            locals_view(local@),
            local_keys(locals_view(local@)),
            remotes_view(remote@),
            remote_keys(remotes_view(remote@)),
        ),
{
    let local_names = lower_local_names(&local);
    let remote_names = lower_remote_names(&remote);
    compare_keyed(&local, &local_names, &remote, &remote_names)
}

} // verus!
