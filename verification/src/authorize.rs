//! The access-control decision engine: a pure function of the bound
//! identity, the requested verb, the canonical repository path, whether the
//! target exists, and (for existing ordinary repositories) the repository's
//! own configuration. The checks come in a fixed order: the
//! reserved-repository admin rule, then existence and creation, then
//! membership and visibility.
use vstd::prelude::*;
use vstd::string::*;

use crate::config::{RepoConfig, ServerUser, spec_is_member};
use crate::paths::RepoPath;
use crate::strutil::str_eq;

verus! {

/// The principal bound to a connection after public-key authentication.
pub struct Identity {
    pub username: String,
    pub is_admin: bool,
    pub can_create_repos: bool,
}

impl Clone for Identity {
    fn clone(&self) -> (r: Self)
        ensures
            r == *self,
    {
        Identity {
            username: self.username.clone(),
            is_admin: self.is_admin,
            can_create_repos: self.can_create_repos,
        }
    }
}

impl Identity {
    /// The guest principal: bound when no roster key matches. It carries
    /// the placeholder username and no capability at all.
    pub fn guest() -> (r: Identity)
        ensures
            r.username@ == "guest"@,
            !r.is_admin,
            !r.can_create_repos,
    {
        Identity { username: String::from_str("guest"), is_admin: false, can_create_repos: false }
    }

    /// Binds an authenticated principal from its roster entry; an absent
    /// capability flag means the capability is not granted.
    pub fn from_roster(username: String, entry: &ServerUser) -> (r: Identity)
        ensures
            r.username == username,
            r.is_admin == (entry.is_admin == Some(true)),
            r.can_create_repos == (entry.can_create_repos == Some(true)),
    {
        Identity {
            username,
            is_admin: match entry.is_admin {
                Some(b) => b,
                None => false,
            },
            can_create_repos: match entry.can_create_repos {
                Some(b) => b,
                None => false,
            },
        }
    }
}

/// The three recognized git service verbs.
#[derive(PartialEq, Eq, Structural, Clone, Copy, Debug)]
pub enum Verb {
    UploadPack,
    UploadArchive,
    ReceivePack,
}

/// Recognizes a command's first word as one of the three service verbs.
pub fn parse_verb(word: &str) -> (r: Option<Verb>)
    ensures
        r == spec_parse_verb(word@),
{
    if str_eq(word, "git-receive-pack") {
        Some(Verb::ReceivePack)
    } else if str_eq(word, "git-upload-archive") {
        Some(Verb::UploadArchive)
    } else if str_eq(word, "git-upload-pack") {
        Some(Verb::UploadPack)
    } else {
        None
    }
}

pub open spec fn spec_parse_verb(w: Seq<char>) -> Option<Verb> {
    if w == "git-receive-pack"@ {
        Some(Verb::ReceivePack)
    } else if w == "git-upload-archive"@ {
        Some(Verb::UploadArchive)
    } else if w == "git-upload-pack"@ {
        Some(Verb::UploadPack)
    } else {
        None
    }
}

/// The program each verb stands for, spawned with the canonical path as its
/// sole argument.
pub fn verb_program(v: Verb) -> (r: &'static str)
    ensures
        v is ReceivePack ==> r@ == "git-receive-pack"@,
        v is UploadArchive ==> r@ == "git-upload-archive"@,
        v is UploadPack ==> r@ == "git-upload-pack"@,
{
    match v {
        Verb::ReceivePack => "git-receive-pack",
        Verb::UploadArchive => "git-upload-archive",
        Verb::UploadPack => "git-upload-pack",
    }
}

/// The single-component path of the reserved configuration repository.
pub open spec fn config_repo() -> Seq<Seq<char>> {
    seq![seq!['c', 'o', 'n', 'f', 'i', 'g', '.', 'g', 'i', 't']]
}

/// Whether a canonical path names the reserved configuration repository.
pub fn is_config_repo(p: &RepoPath) -> (r: bool)
    ensures
        r == (p@ == config_repo()),
{
    let r = p.components.len() == 1 && str_eq(p.components[0].as_str(), "config.git");
    proof {
        reveal_strlit("config.git");
        assert("config.git"@ =~= config_repo()[0]);
        if p.components.len() == 1 {
            assert(p@[0] == p.components@[0]@);
            if p.components@[0]@ == "config.git"@ {
                assert(p@ =~= config_repo());
            } else {
                assert(p@ != config_repo());
            }
        } else {
            assert(p@.len() != 1);
        }
    }
    r
}

/// The outcome of an authorization decision.
pub enum Decision {
    /// Spawn the verb against the existing repository.
    Run,
    /// The target does not exist and the requester may create it: create
    /// the bare repository, then spawn, and bootstrap its configuration
    /// afterwards.
    CreateAndRun,
    /// Only admins may touch the reserved configuration repository.
    DenyAdminOnly,
    /// A non-admin may create repositories only under the directory named
    /// after their own username.
    DenyPersonalDir,
    /// The target does not exist and may not be created by this request.
    DenyMissing,
    /// Push refused for a non-member, with the repository's configured
    /// failed-push notice, if any.
    DenyPush { note: Option<String> },
    /// The repository is neither public nor is the requester a member.
    DenyAccess,
}

/// The decision, as a pure function of the identity, the verb, the
/// canonical path, the target's existence, and the target's configuration.
/// The checks come in a fixed order: the reserved-repository admin rule
/// first, then existence and creation, then membership and visibility.
pub open spec fn spec_authorize(
    id: Identity,
    verb: Verb,
    path: Seq<Seq<char>>,
    exists: bool,
    cfg: Option<RepoConfig>,
) -> Decision {
    if !id.is_admin && path == config_repo() {
        Decision::DenyAdminOnly
    } else if !exists {
        if verb is ReceivePack && (id.can_create_repos || id.is_admin) {
            if !id.is_admin && path[0] != id.username@ {
                Decision::DenyPersonalDir
            } else {
                Decision::CreateAndRun
            }
        } else {
            Decision::DenyMissing
        }
    } else if path != config_repo() {
        match cfg {
            Option::Some(c) => {
                let member = spec_is_member(c, id.username@);
                if verb is ReceivePack && !member {
                    Decision::DenyPush { note: c.failed_push_message }
                } else if !(c.public || member) {
                    Decision::DenyAccess
                } else {
                    Decision::Run
                }
            },
            Option::None => Decision::Run,
        }
    } else {
        Decision::Run
    }
}

/// Renders the authorization decision for one exec request. The repository
/// configuration is supplied exactly when the target exists and is not the
/// reserved repository, mirroring that it is read fresh per decision.
pub fn authorize(
    id: &Identity,
    verb: Verb,
    path: &RepoPath,
    exists: bool,
    cfg: Option<&RepoConfig>,
) -> (r: Decision)
    requires
        cfg is Some <==> (exists && path@ != config_repo()),
        path@.len() > 0,
    ensures
        r == spec_authorize(
            *id,
            verb,
            path@,
            exists,
            match cfg {
                Option::Some(c) => Some(*c),
                Option::None => None::<RepoConfig>,
            },
        ),
{
    if !id.is_admin && is_config_repo(path) {
        return Decision::DenyAdminOnly;
    }
    if !exists {
        if verb == Verb::ReceivePack && (id.can_create_repos || id.is_admin) {
            if !id.is_admin && !str_eq(path.components[0].as_str(), id.username.as_str()) {
                return Decision::DenyPersonalDir;
            }
            return Decision::CreateAndRun;
        }
        return Decision::DenyMissing;
    }
    if !is_config_repo(path) {
        let c = match cfg {
            Some(c) => c,
            None => {
                return Decision::Run;  // unreachable under the precondition
            },
        };
        let member = c.is_member(id.username.as_str());
        if verb == Verb::ReceivePack && !member {
            let note = match &c.failed_push_message {
                Some(m) => Some(m.clone()),
                None => None,
            };
            return Decision::DenyPush { note };
        }
        if !(c.public || member) {
            return Decision::DenyAccess;
        }
        return Decision::Run;
    }
    Decision::Run
}

/// The guest principal is powerless: it can never cause a repository to be
/// created; it cannot push to an existing repository, and it cannot reach a
/// non-public one, as long as the target's members list does not name the
/// guest placeholder username itself.
pub proof fn lemma_guest_powerless(
    guest: Identity,
    verb: Verb,
    path: Seq<Seq<char>>,
    exists: bool,
    cfg: Option<RepoConfig>,
)
    requires
        !guest.is_admin,
        !guest.can_create_repos,
        cfg is Some <==> (exists && path != config_repo()),
        cfg matches Some(c) ==> !spec_is_member(c, guest.username@),
    ensures
        !(spec_authorize(guest, verb, path, exists, cfg) is CreateAndRun),
        verb is ReceivePack ==> !(spec_authorize(guest, verb, path, exists, cfg) is Run),
        (cfg matches Some(c) && !c.public) ==> !(spec_authorize(guest, verb, path, exists, cfg)
            is Run),
{
}

/// No non-admin ever reaches the reserved configuration repository: the
/// decision is an immediate denial, whatever the verb, before any
/// existence, creation, or membership consideration.
pub proof fn lemma_reserved_repo_admin_gate(
    id: Identity,
    verb: Verb,
    exists: bool,
    cfg: Option<RepoConfig>,
)
    requires
        !id.is_admin,
    ensures
        spec_authorize(id, verb, config_repo(), exists, cfg) is DenyAdminOnly,
{
}

} // verus!
