//! The kubeconfig model: which cluster, user and namespace the current context selects.
use vstd::prelude::*;
use vstd::string::*;

use crate::error::{ErrorView, InstallerError, InstallerResult};

verus! {

/// Represents a kubeconfig file structure
#[derive(Debug, Clone)]
pub struct KubeConfig {
    pub api_version: String,
    pub kind: String,
    pub clusters: Vec<ClusterInfo>,
    pub users: Vec<UserInfo>,
    pub contexts: Vec<ContextInfo>,
    pub current_context: String,
}

#[derive(Debug, Clone)]
pub struct ClusterInfo {
    pub name: String,
    pub cluster: Cluster,
}

#[derive(Debug, Clone)]
pub struct Cluster {
    pub server: String,
    pub certificate_authority_data: Option<String>,
    pub certificate_authority: Option<String>,
    pub insecure_skip_tls_verify: Option<bool>,
}

#[derive(Debug, Clone)]
pub struct UserInfo {
    pub name: String,
    pub user: User,
}

#[derive(Debug, Clone)]
pub struct User {
    pub client_certificate_data: Option<String>,
    pub client_certificate: Option<String>,
    pub client_key_data: Option<String>,
    pub client_key: Option<String>,
    pub token: Option<String>,
    pub username: Option<String>,
    pub password: Option<String>,
}

#[derive(Debug, Clone)]
pub struct ContextInfo {
    pub name: String,
    pub context: Context,
}

#[derive(Debug, Clone)]
pub struct Context {
    pub cluster: String,
    pub user: String,
    pub namespace: Option<String>,
}

// ---------------------------------------------------------------------------
// Lookup by name
// ---------------------------------------------------------------------------

/// The index of the first entry of `names` equal to `target`, or -1 when there is none.
pub open spec fn first_index_of(names: Seq<Seq<char>>, target: Seq<char>) -> int
    decreases names.len(),
{
    if names.len() == 0 {
        -1
    } else if names[0] == target {
        0
    } else {
        let r = first_index_of(names.drop_first(), target);
        if r < 0 {
            -1
        } else {
            r + 1
        }
    }
}

/// `first_index_of` is the position of the first match, or -1 exactly when nothing matches.
pub proof fn lemma_first_index_of(names: Seq<Seq<char>>, target: Seq<char>)
    ensures
        -1 <= first_index_of(names, target) < names.len(),
        first_index_of(names, target) >= 0 ==> names[first_index_of(names, target)] == target,
        forall|j: int|
            0 <= j < first_index_of(names, target) ==> #[trigger] names[j] != target,
        first_index_of(names, target) < 0 ==> forall|j: int|
            0 <= j < names.len() ==> #[trigger] names[j] != target,
    decreases names.len(),
{
    if names.len() > 0 && names[0] != target {
        let rest = names.drop_first();
        lemma_first_index_of(rest, target);
        assert forall|j: int| 0 < j < names.len() implies names[j] == rest[j - 1] by {}
        if first_index_of(rest, target) < 0 {
            assert forall|j: int| 0 <= j < names.len() implies #[trigger] names[j] != target by {
                if j > 0 {
                    assert(rest[j - 1] != target);
                }
            }
        } else {
            assert forall|j: int| 0 <= j < first_index_of(names, target) implies #[trigger] names[j]
                != target by {
                if j > 0 {
                    assert(rest[j - 1] != target);
                }
            }
        }
    }
}

/// A scan that has passed `i` non-matching names and stands on a match (or at the end)
/// has found `first_index_of`.
pub proof fn lemma_scan_finds_first(names: Seq<Seq<char>>, target: Seq<char>, i: int)
    requires
        0 <= i <= names.len(),
        forall|j: int| 0 <= j < i ==> #[trigger] names[j] != target,
    ensures
        i < names.len() && names[i] == target ==> first_index_of(names, target) == i,
        i == names.len() ==> first_index_of(names, target) == -1,
    decreases i,
{
    if i > 0 {
        let rest = names.drop_first();
        assert(names[0] != target);
        assert forall|j: int| 0 <= j < i - 1 implies #[trigger] rest[j] != target by {
            assert(rest[j] == names[j + 1]);
        }
        lemma_scan_finds_first(rest, target, i - 1);
        if i < names.len() {
            assert(rest[i - 1] == names[i]);
        }
    }
}

pub open spec fn context_names(contexts: Seq<ContextInfo>) -> Seq<Seq<char>> {
    Seq::new(contexts.len(), |i: int| contexts[i].name@)
}

pub open spec fn cluster_names(clusters: Seq<ClusterInfo>) -> Seq<Seq<char>> {
    Seq::new(clusters.len(), |i: int| clusters[i].name@)
}

pub open spec fn user_names(users: Seq<UserInfo>) -> Seq<Seq<char>> {
    Seq::new(users.len(), |i: int| users[i].name@)
}

impl KubeConfig {
    /// Index of the context named by `current-context`, or -1.
    pub open spec fn current_context_index(&self) -> int {
        first_index_of(context_names(self.contexts@), self.current_context@)
    }

    pub open spec fn has_current_context(&self) -> bool {
        self.current_context_index() >= 0
    }

    /// The context that `current-context` selects (meaningful when it exists).
    pub open spec fn current_context_spec(&self) -> ContextInfo {
        self.contexts@[self.current_context_index()]
    }

    /// Index of the cluster that the current context references, or -1.
    pub open spec fn current_cluster_index(&self) -> int {
        first_index_of(cluster_names(self.clusters@), self.current_context_spec().context.cluster@)
    }

    /// Index of the user that the current context references, or -1.
    pub open spec fn current_user_index(&self) -> int {
        first_index_of(user_names(self.users@), self.current_context_spec().context.user@)
    }

    /// What `validate` reports: `None` for a usable kubeconfig, else the first problem found.
    pub open spec fn validation_problem(&self) -> Option<ErrorView> {
        if self.current_context@.len() == 0 {
            Some(ErrorView::Kubeconfig("No current-context specified in kubeconfig"@))
        } else if !self.has_current_context() {
            Some(
                ErrorView::Kubeconfig(
                    "Current context '"@ + self.current_context@ + "' not found in kubeconfig"@,
                ),
            )
        } else if self.current_cluster_index() < 0 {
            Some(
                ErrorView::Kubeconfig(
                    "Cluster '"@ + self.current_context_spec().context.cluster@
                        + "' referenced by context not found"@,
                ),
            )
        } else if self.current_user_index() < 0 {
            Some(
                ErrorView::Kubeconfig(
                    "User '"@ + self.current_context_spec().context.user@
                        + "' referenced by context not found"@,
                ),
            )
        } else {
            None
        }
    }

    /// What `get_current_cluster` answers: the cluster's index, or the error.
    pub open spec fn cluster_lookup(&self) -> Result<int, ErrorView> {
        if !self.has_current_context() {
            Err(ErrorView::Kubeconfig("Current context not found"@))
        } else if self.current_cluster_index() < 0 {
            Err(ErrorView::Kubeconfig("Cluster not found"@))
        } else {
            Ok(self.current_cluster_index())
        }
    }

    /// What `get_current_user` answers: the user's index, or the error.
    pub open spec fn user_lookup(&self) -> Result<int, ErrorView> {
        if !self.has_current_context() {
            Err(ErrorView::Kubeconfig("Current context not found"@))
        } else if self.current_user_index() < 0 {
            Err(ErrorView::Kubeconfig("User not found"@))
        } else {
            Ok(self.current_user_index())
        }
    }

    /// What `get_namespace` answers: the current context's namespace, `default` when it
    /// names none, or the error.
    pub open spec fn namespace_lookup(&self) -> Result<Seq<char>, ErrorView> {
        if !self.has_current_context() {
            Err(ErrorView::Kubeconfig("Current context not found"@))
        } else {
            match self.current_context_spec().context.namespace {
                Some(ns) => Ok(ns@),
                None => Ok("default"@),
            }
        }
    }

    fn find_current_context(&self) -> (r: Option<usize>)
        ensures
            match r {
                Some(i) => i as int == self.current_context_index() && i < self.contexts.len(),
                None => !self.has_current_context(),
            },
    {
        let ghost names = context_names(self.contexts@);
        let mut i: usize = 0;
        while i < self.contexts.len()
            invariant
                names == context_names(self.contexts@),
                i <= self.contexts.len(),
                forall|j: int| 0 <= j < i ==> #[trigger] names[j] != self.current_context@,
            decreases self.contexts.len() - i,
        {
            if self.contexts[i].name == self.current_context {
                proof {
                    lemma_scan_finds_first(names, self.current_context@, i as int);
                }
                return Some(i);
            }
            assert(names[i as int] != self.current_context@);
            i = i + 1;
        }
        proof {
            lemma_scan_finds_first(names, self.current_context@, i as int);
        }
        None
    }

    fn find_cluster(&self, name: &String) -> (r: Option<usize>)
        ensures
            match r {
                Some(i) => i as int == first_index_of(cluster_names(self.clusters@), name@) && i
                    < self.clusters.len(),
                None => first_index_of(cluster_names(self.clusters@), name@) < 0,
            },
    {
        let ghost names = cluster_names(self.clusters@);
        let mut i: usize = 0;
        while i < self.clusters.len()
            invariant
                names == cluster_names(self.clusters@),
                i <= self.clusters.len(),
                forall|j: int| 0 <= j < i ==> #[trigger] names[j] != name@,
            decreases self.clusters.len() - i,
        {
            if self.clusters[i].name == *name {
                proof {
                    lemma_scan_finds_first(names, name@, i as int);
                }
                return Some(i);
            }
            assert(names[i as int] != name@);
            i = i + 1;
        }
        proof {
            lemma_scan_finds_first(names, name@, i as int);
        }
        None
    }

    fn find_user(&self, name: &String) -> (r: Option<usize>)
        ensures
            match r {
                Some(i) => i as int == first_index_of(user_names(self.users@), name@) && i
                    < self.users.len(),
                None => first_index_of(user_names(self.users@), name@) < 0,
            },
    {
        let ghost names = user_names(self.users@);
        let mut i: usize = 0;
        while i < self.users.len()
            invariant
                names == user_names(self.users@),
                i <= self.users.len(),
                forall|j: int| 0 <= j < i ==> #[trigger] names[j] != name@,
            decreases self.users.len() - i,
        {
            if self.users[i].name == *name {
                proof {
                    lemma_scan_finds_first(names, name@, i as int);
                }
                return Some(i);
            }
            assert(names[i as int] != name@);
            i = i + 1;
        }
        proof {
            lemma_scan_finds_first(names, name@, i as int);
        }
        None
    }

    /// Validate kubeconfig structure: a current context is named, exists, and
    /// references a cluster and a user that exist.
    pub fn validate(&self) -> (r: InstallerResult<()>)
        ensures
            match r {
                Ok(()) => self.validation_problem() is None,
                Err(e) => self.validation_problem() == Some(e@),
            },
    {
        if self.current_context.unicode_len() == 0 {
            return Err(
                InstallerError::KubeconfigError(
                    String::from_str("No current-context specified in kubeconfig"),
                ),
            );
        }
        let ci = match self.find_current_context() {
            Some(i) => i,
            None => {
                let mut m = String::from_str("Current context '");
                m.append(self.current_context.as_str());
                m.append("' not found in kubeconfig");
                return Err(InstallerError::KubeconfigError(m));
            },
        };
        let current = &self.contexts[ci];
        let cluster_name = &current.context.cluster;
        if self.find_cluster(cluster_name).is_none() {
            let mut m = String::from_str("Cluster '");
            m.append(cluster_name.as_str());
            m.append("' referenced by context not found");
            return Err(InstallerError::KubeconfigError(m));
        }
        let user_name = &current.context.user;
        if self.find_user(user_name).is_none() {
            let mut m = String::from_str("User '");
            m.append(user_name.as_str());
            m.append("' referenced by context not found");
            return Err(InstallerError::KubeconfigError(m));
        }
        Ok(())
    }

    /// Get the current cluster info
    pub fn get_current_cluster(&self) -> (r: InstallerResult<&ClusterInfo>)
        ensures
            match r {
                Ok(c) => self.cluster_lookup() == Ok::<int, ErrorView>(self.current_cluster_index())
                    && *c == self.clusters@[self.current_cluster_index()],
                Err(e) => self.cluster_lookup() == Err::<int, ErrorView>(e@),
            },
    {
        let ci = match self.find_current_context() {
            Some(i) => i,
            None => {
                return Err(
                    InstallerError::KubeconfigError(String::from_str("Current context not found")),
                )
            },
        };
        match self.find_cluster(&self.contexts[ci].context.cluster) {
            Some(k) => Ok(&self.clusters[k]),
            None => Err(InstallerError::KubeconfigError(String::from_str("Cluster not found"))),
        }
    }

    /// Get the current user info
    pub fn get_current_user(&self) -> (r: InstallerResult<&UserInfo>)
        ensures
            match r {
                Ok(u) => self.user_lookup() == Ok::<int, ErrorView>(self.current_user_index())
                    && *u == self.users@[self.current_user_index()],
                Err(e) => self.user_lookup() == Err::<int, ErrorView>(e@),
            },
    {
        let ci = match self.find_current_context() {
            Some(i) => i,
            None => {
                return Err(
                    InstallerError::KubeconfigError(String::from_str("Current context not found")),
                )
            },
        };
        match self.find_user(&self.contexts[ci].context.user) {
            Some(k) => Ok(&self.users[k]),
            None => Err(InstallerError::KubeconfigError(String::from_str("User not found"))),
        }
    }

    /// Get the namespace from current context
    pub fn get_namespace(&self) -> (r: InstallerResult<String>)
        ensures
            match r {
                Ok(ns) => self.namespace_lookup() == Ok::<Seq<char>, ErrorView>(ns@),
                Err(e) => self.namespace_lookup() == Err::<Seq<char>, ErrorView>(e@),
            },
    {
        let ci = match self.find_current_context() {
            Some(i) => i,
            None => {
                return Err(
                    InstallerError::KubeconfigError(String::from_str("Current context not found")),
                )
            },
        };
        match &self.contexts[ci].context.namespace {
            Some(ns) => Ok(ns.clone()),
            None => Ok(String::from_str("default")),
        }
    }
}

/// A kubeconfig that passes `validate` resolves its current cluster and user, and
/// what they resolve to carries the names that the current context references.
pub proof fn law_validated_config_resolves(config: KubeConfig)
    requires
        config.validation_problem() is None,
    ensures
        config.cluster_lookup() is Ok,
        config.user_lookup() is Ok,
        config.namespace_lookup() is Ok,
        config.clusters@[config.cluster_lookup()->Ok_0].name@
            == config.current_context_spec().context.cluster@,
        config.users@[config.user_lookup()->Ok_0].name@
            == config.current_context_spec().context.user@,
        config.current_context_spec().name@ == config.current_context@,
{
    lemma_first_index_of(context_names(config.contexts@), config.current_context@);
    lemma_first_index_of(
        cluster_names(config.clusters@),
        config.current_context_spec().context.cluster@,
    );
    lemma_first_index_of(user_names(config.users@), config.current_context_spec().context.user@);
}

/// `validate` accepts a kubeconfig exactly when its current context is named, a context
/// of that name exists, and the first such context references a cluster and a user that
/// exist; nothing else (such as a namespace) is asked of it.
pub proof fn law_validation_accepts_exactly(config: KubeConfig)
    ensures
        config.validation_problem() is None <==> (config.current_context@.len() > 0 && exists|i: int|
            0 <= i < config.contexts@.len() && #[trigger] config.contexts@[i].name@
                == config.current_context@ && (forall|j: int|
                0 <= j < i ==> #[trigger] config.contexts@[j].name@ != config.current_context@)
                && (exists|c: int|
                0 <= c < config.clusters@.len() && #[trigger] config.clusters@[c].name@
                    == config.contexts@[i].context.cluster@) && (exists|u: int|
                0 <= u < config.users@.len() && #[trigger] config.users@[u].name@
                    == config.contexts@[i].context.user@)),
{
    let ctx_names = context_names(config.contexts@);
    lemma_first_index_of(ctx_names, config.current_context@);
    let k = first_index_of(ctx_names, config.current_context@);
    if k >= 0 {
        let ctx = config.contexts@[k];
        let cl_names = cluster_names(config.clusters@);
        let us_names = user_names(config.users@);
        lemma_first_index_of(cl_names, ctx.context.cluster@);
        lemma_first_index_of(us_names, ctx.context.user@);
        assert forall|j: int| 0 <= j < k implies #[trigger] config.contexts@[j].name@
            != config.current_context@ by {
            assert(ctx_names[j] != config.current_context@);
        }
        if first_index_of(cl_names, ctx.context.cluster@) >= 0 {
            let c = first_index_of(cl_names, ctx.context.cluster@);
            assert(config.clusters@[c].name@ == cl_names[c]);
        } else {
            assert forall|c: int| 0 <= c < config.clusters@.len() implies #[trigger] config.clusters@[c].name@
                != ctx.context.cluster@ by {
                assert(cl_names[c] != ctx.context.cluster@);
            }
        }
        if first_index_of(us_names, ctx.context.user@) >= 0 {
            let u = first_index_of(us_names, ctx.context.user@);
            assert(config.users@[u].name@ == us_names[u]);
        } else {
            assert forall|u: int| 0 <= u < config.users@.len() implies #[trigger] config.users@[u].name@
                != ctx.context.user@ by {
                assert(us_names[u] != ctx.context.user@);
            }
        }
        // Any context satisfying the right-hand side is the first match, `k`.
        assert forall|i: int|
            0 <= i < config.contexts@.len() && #[trigger] config.contexts@[i].name@
                == config.current_context@ && (forall|j: int|
                0 <= j < i ==> #[trigger] config.contexts@[j].name@ != config.current_context@)
            implies i == k by {
            if i < k {
                assert(ctx_names[i] != config.current_context@);
            } else if i > k {
                assert(config.contexts@[k].name@ == ctx_names[k]);
            }
        }
    } else {
        assert forall|i: int| 0 <= i < config.contexts@.len() implies #[trigger] config.contexts@[i].name@
            != config.current_context@ by {
            assert(ctx_names[i] != config.current_context@);
        }
    }
}

/// The namespace of a configuration is the current context's own namespace when it
/// names one, and `default` otherwise.
pub proof fn law_namespace_defaults(config: KubeConfig)
    requires
        config.has_current_context(),
    ensures
        config.current_context_spec().context.namespace is None ==> config.namespace_lookup()
            == Ok::<Seq<char>, ErrorView>("default"@),
        config.current_context_spec().context.namespace is Some ==> config.namespace_lookup()
            == Ok::<Seq<char>, ErrorView>(config.current_context_spec().context.namespace->0@),
{
}

} // verus!
