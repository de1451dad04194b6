//! The two configuration documents and the server-wide state snapshot.
//!
//! The server configuration lives in the reserved bare repository and names
//! the roster of users with their capabilities; each hosted repository
//! carries its own configuration file naming its members and visibility.
use vstd::prelude::*;
use vstd::string::*;

use crate::docs::DocValue;
use crate::strutil::{split_on, split_str, str_eq};

verus! {

/// A roster entry of the server configuration: a public key in
/// authorized-keys form plus optional capability flags.
pub struct ServerUser {
    pub public_key: String,
    pub is_admin: Option<bool>,
    pub can_create_repos: Option<bool>,
}

impl Clone for ServerUser {
    fn clone(&self) -> (r: Self)
        ensures
            r == *self,
    {
        ServerUser {
            public_key: self.public_key.clone(),
            is_admin: self.is_admin,
            can_create_repos: self.can_create_repos,
        }
    }
}

/// The zero-capability entry bound to a connection whose key matched nobody.
impl Default for ServerUser {
    fn default() -> (r: Self)
        ensures
            r.public_key@ == Seq::<char>::empty(),
            r.is_admin == Some(false),
            r.can_create_repos == Some(false),
    {
        ServerUser {
            public_key: String::new(),
            is_admin: Some(false),
            can_create_repos: Some(false),
        }
    }
}

/// The server-wide configuration document.
pub struct ServerConfig {
    pub name: String,
    pub hostname: String,
    pub port: u16,
    pub users: Vec<(String, ServerUser)>,
    pub welcome_message: Option<String>,
    pub exta: Option<Vec<(String, DocValue)>>,
}

/// Whether the roster entry's key material matches a presented canonical
/// key encoding: the second whitespace-separated word of the stored
/// authorized-keys line is the encoded key itself.
pub open spec fn key_matches(u: ServerUser, key: Seq<char>) -> bool {
    let words = split_on(u.public_key@, ' ');
    words.len() >= 2 && words[1] == key
}

/// First roster entry whose stored key matches, in roster order.
pub open spec fn find_user(users: Seq<(String, ServerUser)>, key: Seq<char>) -> Option<
    (String, ServerUser),
>
    decreases users.len(),
{
    if users.len() == 0 {
        None
    } else if key_matches(users[0].1, key) {
        Some(users[0])
    } else {
        find_user(users.drop_first(), key)
    }
}

impl ServerConfig {
    /// Looks the presented key up in the roster and returns the resolved
    /// username with the entry's capabilities. An entry whose stored key
    /// line has no second word can match no presented key.
    pub fn get_user(&self, key: &str) -> (r: Option<(String, ServerUser)>)
        ensures
            r == find_user(self.users@, key@),
    {
        let ghost us = self.users@;
        let mut i: usize = 0;
        proof {
            assert(us.skip(0) =~= us);
        }
        while i < self.users.len()
            invariant
                i <= self.users.len(),
                us == self.users@,
                find_user(us, key@) == find_user(us.skip(i as int), key@),
            decreases self.users.len() - i,
        {
            proof {
                assert(us.skip(i as int)[0] == us[i as int]);
                assert(us.skip(i as int).drop_first() =~= us.skip(i + 1));
            }
            let entry = &self.users[i];
            let words = split_str(entry.1.public_key.as_str(), ' ');
            let matched = words.len() >= 2 && str_eq(words[1].as_str(), key);
            proof {
                if words.len() >= 2 {
                    assert(words.deep_view()[1] == words@[1]@);
                }
            }
            if matched {
                return Some((entry.0.clone(), entry.1.clone()));
            }
            i = i + 1;
        }
        proof {
            assert(us.skip(us.len() as int) =~= Seq::<(String, ServerUser)>::empty());
        }
        None
    }
}

/// A hosted repository's configuration document.
pub struct RepoConfig {
    pub name: String,
    pub public: bool,
    pub members: Vec<String>,
    pub failed_push_message: Option<String>,
    pub web_template: Option<String>,
    pub extra: Option<Vec<(String, DocValue)>>,
}

/// Whether `username` is listed among the repository's members.
pub open spec fn spec_is_member(c: RepoConfig, username: Seq<char>) -> bool {
    exists|i: int| 0 <= i < c.members@.len() && c.members@[i]@ == username
}

impl RepoConfig {
    pub fn is_member(&self, username: &str) -> (r: bool)
        ensures
            r == spec_is_member(*self, username@),
    {
        let mut i: usize = 0;
        while i < self.members.len()
            invariant
                i <= self.members.len(),
                forall|j: int| 0 <= j < i ==> self.members@[j]@ != username@,
            decreases self.members.len() - i,
        {
            if str_eq(self.members[i].as_str(), username) {
                return true;
            }
            i = i + 1;
        }
        false
    }

    /// The configuration committed into a freshly created repository: it is
    /// private and its creator is the sole member.
    pub fn bootstrap(name: String, owner: &str) -> (r: RepoConfig)
        ensures
            r.name == name,
            r.public == false,
            r.members.deep_view() == seq![owner@],
            r.failed_push_message is None,
            r.web_template is None,
            r.extra is None,
    {
        let mut members: Vec<String> = Vec::new();
        members.push(owner.to_owned());
        proof {
            assert(members.deep_view() =~= seq![owner@]);
        }
        RepoConfig {
            name,
            public: false,
            members,
            failed_push_message: None,
            web_template: None,
            extra: None,
        }
    }
}

/// What to do about the server configuration repository at startup.
pub enum StartupPlan {
    /// The reserved repository exists: clone it and read the document.
    LoadExisting,
    /// It does not exist but a local seed document does: create the bare
    /// repository, move the seed in, commit and push it.
    BootstrapFromSeed,
    /// Neither exists: the server cannot start.
    Fatal,
}

/// Startup decision for the server configuration lifecycle.
pub fn server_config_startup(repo_exists: bool, seed_exists: bool) -> (r: StartupPlan)
    ensures
        repo_exists ==> r is LoadExisting,
        !repo_exists && seed_exists ==> r is BootstrapFromSeed,
        !repo_exists && !seed_exists ==> r is Fatal,
{
    if repo_exists {
        StartupPlan::LoadExisting
    } else if seed_exists {
        StartupPlan::BootstrapFromSeed
    } else {
        StartupPlan::Fatal
    }
}

/// The cross-connection shared state: one configuration snapshot, replaced
/// wholesale on reload and never mutated field by field.
pub struct State {
    pub server_config: ServerConfig,
}

impl State {
    pub fn new(server_config: ServerConfig) -> (r: State)
        ensures
            r.server_config == server_config,
    {
        State { server_config }
    }

    /// Swaps in a freshly loaded configuration snapshot.
    pub fn replace_config(&mut self, c: ServerConfig) -> (r: ())
        ensures
            final(self).server_config == c,
    {
        self.server_config = c;
    }
}

} // verus!
