//! The configuration documents as key–value trees, with rendering and
//! parsing in both directions and a proved round trip.
//!
//! A document is a sequence of keyed entries; the schema of each
//! configuration struct says which keys are read and with which shapes.
//! Unknown keys are ignored by parsing, and the dedicated passthrough table
//! is preserved verbatim. The textual encoding and decoding of such trees
//! is the document parser's business and stays outside the library; the
//! schema logic here is what the server's behaviour depends on.
use vstd::prelude::*;
use vstd::string::*;

use crate::config::{RepoConfig, ServerConfig, ServerUser};
use crate::strutil::str_eq;

verus! {

/// One value of a configuration document.
pub enum DocValue {
    /// A string.
    S(String),
    /// A boolean.
    B(bool),
    /// An integer.
    I(i64),
    /// A list of strings.
    L(Vec<String>),
    /// A nested table.
    T(Vec<(String, DocValue)>),
}

/// Why a document fails to parse as a configuration.
#[derive(PartialEq, Eq, Structural, Clone, Copy, Debug)]
pub enum ConfigError {
    /// A required key is absent.
    MissingField,
    /// A key is present with a value of the wrong shape.
    WrongType,
    /// The port is outside the unsigned 16-bit range.
    BadPort,
}

/// The first entry bearing `key`, if any.
pub open spec fn spec_lookup_doc(entries: Seq<(String, DocValue)>, key: Seq<char>) -> Option<
    DocValue,
>
    decreases entries.len(),
{
    if entries.len() == 0 {
        None
    } else if entries[0].0@ == key {
        Some(entries[0].1)
    } else {
        spec_lookup_doc(entries.drop_first(), key)
    }
}

/// Appending an entry changes only the lookup of a key that was absent.
pub proof fn lemma_lookup_push(s: Seq<(String, DocValue)>, e: (String, DocValue), k: Seq<char>)
    ensures
        spec_lookup_doc(s.push(e), k) == (if spec_lookup_doc(s, k) is Some {
            spec_lookup_doc(s, k)
        } else if e.0@ == k {
            Some(e.1)
        } else {
            None::<DocValue>
        }),
    decreases s.len(),
{
    if s.len() == 0 {
        assert(s.push(e)[0] == e);
        assert(s.push(e).drop_first() =~= Seq::<(String, DocValue)>::empty());
        assert(spec_lookup_doc(Seq::<(String, DocValue)>::empty(), k) is None);
        assert(spec_lookup_doc(s, k) is None);
    } else {
        assert(s.push(e)[0] == s[0]);
        assert(s.push(e).drop_first() =~= s.drop_first().push(e));
        lemma_lookup_push(s.drop_first(), e, k);
        assert(spec_lookup_doc(s, k) == (if s[0].0@ == k {
            Some(s[0].1)
        } else {
            spec_lookup_doc(s.drop_first(), k)
        }));
    }
}

/// Removing the first entry bearing one key leaves every other key's lookup
/// unchanged.
proof fn lemma_remove_first_preserves(
    s: Seq<(String, DocValue)>,
    j: int,
    k: Seq<char>,
    k2: Seq<char>,
)
    requires
        0 <= j < s.len(),
        forall|m: int| 0 <= m < j ==> s[m].0@ != k,
        s[j].0@ == k,
        k2 != k,
    ensures
        spec_lookup_doc(s.remove(j), k2) == spec_lookup_doc(s, k2),
    decreases j,
{
    if j == 0 {
        assert(s.remove(0) =~= s.drop_first());
    } else {
        assert(s.remove(j)[0] == s[0]);
        assert(s.remove(j).drop_first() =~= s.drop_first().remove(j - 1));
        lemma_remove_first_preserves(s.drop_first(), j - 1, k, k2);
    }
}

/// Removes and returns the first entry bearing `key`, leaving every other
/// key's lookup untouched.
pub fn take_key(doc: &mut Vec<(String, DocValue)>, key: &str) -> (r: Option<DocValue>)
    ensures
        r == spec_lookup_doc(old(doc)@, key@),
        forall|k2: Seq<char>|
            k2 != key@ ==> spec_lookup_doc(final(doc)@, k2) == spec_lookup_doc(old(doc)@, k2),
{
    let ghost orig = doc@;
    let mut j: usize = 0;
    while j < doc.len()
        invariant
            doc@ == orig,
            orig == old(doc)@,
            j <= doc.len(),
            forall|m: int| 0 <= m < j ==> orig[m].0@ != key@,
        decreases doc.len() - j,
    {
        if str_eq(doc[j].0.as_str(), key) {
            proof {
                lemma_lookup_found(orig, j as int, key@);
            }
            let entry = doc.remove(j);
            proof {
                assert forall|k2: Seq<char>| k2 != key@ implies spec_lookup_doc(doc@, k2)
                    == spec_lookup_doc(orig, k2) by {
                    lemma_remove_first_preserves(orig, j as int, key@, k2);
                }
            }
            return Some(entry.1);
        }
        j = j + 1;
    }
    proof {
        lemma_lookup_absent(orig, key@);
    }
    None
}

/// A lookup whose key first occurs at `j` returns that entry's value.
proof fn lemma_lookup_found(s: Seq<(String, DocValue)>, j: int, k: Seq<char>)
    requires
        0 <= j < s.len(),
        forall|m: int| 0 <= m < j ==> s[m].0@ != k,
        s[j].0@ == k,
    ensures
        spec_lookup_doc(s, k) == Some(s[j].1),
    decreases j,
{
    if j == 0 {
    } else {
        assert(s.drop_first()[j - 1] == s[j]);
        lemma_lookup_found(s.drop_first(), j - 1, k);
    }
}

/// A key borne by no entry looks up to nothing.
proof fn lemma_lookup_absent(s: Seq<(String, DocValue)>, k: Seq<char>)
    requires
        forall|m: int| 0 <= m < s.len() ==> s[m].0@ != k,
    ensures
        spec_lookup_doc(s, k) is None,
    decreases s.len(),
{
    if s.len() == 0 {
    } else {
        lemma_lookup_absent(s.drop_first(), k);
    }
}

// ---------------------------------------------------------------------------
// Repository configuration document.
// ---------------------------------------------------------------------------
/// The document `entries` records exactly the repository configuration `c`.
pub open spec fn doc_describes_repo(entries: Seq<(String, DocValue)>, c: RepoConfig) -> bool {
    &&& spec_lookup_doc(entries, "name"@) == Some(DocValue::S(c.name))
    &&& spec_lookup_doc(entries, "public"@) == Some(DocValue::B(c.public))
    &&& spec_lookup_doc(entries, "members"@) == Some(DocValue::L(c.members))
    &&& match c.failed_push_message {
        Some(m) => spec_lookup_doc(entries, "failed_push_message"@) == Some(DocValue::S(m)),
        None => spec_lookup_doc(entries, "failed_push_message"@) is None,
    }
    &&& match c.web_template {
        Some(t) => spec_lookup_doc(entries, "web_template"@) == Some(DocValue::S(t)),
        None => spec_lookup_doc(entries, "web_template"@) is None,
    }
    &&& match c.extra {
        Some(t) => spec_lookup_doc(entries, "extra"@) == Some(DocValue::T(t)),
        None => spec_lookup_doc(entries, "extra"@) is None,
    }
}

/// The first schema violation a repository document contains, if any,
/// checked in the parser's fixed order.
pub open spec fn repo_doc_error(entries: Seq<(String, DocValue)>) -> Option<ConfigError> {
    match spec_lookup_doc(entries, "name"@) {
        Option::None => Some(ConfigError::MissingField),
        Option::Some(v) => if !(v is S) {
            Some(ConfigError::WrongType)
        } else {
            match spec_lookup_doc(entries, "public"@) {
                Option::None => Some(ConfigError::MissingField),
                Option::Some(v) => if !(v is B) {
                    Some(ConfigError::WrongType)
                } else {
                    match spec_lookup_doc(entries, "members"@) {
                        Option::None => Some(ConfigError::MissingField),
                        Option::Some(v) => if !(v is L) {
                            Some(ConfigError::WrongType)
                        } else {
                            match spec_lookup_doc(entries, "failed_push_message"@) {
                                Option::Some(v) => if !(v is S) {
                                    Some(ConfigError::WrongType)
                                } else {
                                    repo_doc_error_tail(entries)
                                },
                                Option::None => repo_doc_error_tail(entries),
                            }
                        },
                    }
                },
            }
        },
    }
}

pub open spec fn repo_doc_error_tail(entries: Seq<(String, DocValue)>) -> Option<ConfigError> {
    match spec_lookup_doc(entries, "web_template"@) {
        Option::Some(v) => if !(v is S) {
            Some(ConfigError::WrongType)
        } else {
            repo_doc_error_extra(entries)
        },
        Option::None => repo_doc_error_extra(entries),
    }
}

pub open spec fn repo_doc_error_extra(entries: Seq<(String, DocValue)>) -> Option<ConfigError> {
    match spec_lookup_doc(entries, "extra"@) {
        Option::Some(v) => if !(v is T) {
            Some(ConfigError::WrongType)
        } else {
            None
        },
        Option::None => None,
    }
}

/// Parses a repository configuration document.
pub fn repo_config_from_doc(doc: Vec<(String, DocValue)>) -> (r: Result<RepoConfig, ConfigError>)
    ensures
        r is Ok <==> repo_doc_error(doc@) is None,
        r matches Ok(c) ==> doc_describes_repo(doc@, c),
        r matches Err(e) ==> repo_doc_error(doc@) == Some(e),
{
    let mut doc = doc;
    let ghost orig = doc@;
    proof {
        lemma_distinct_repo_keys();
    }
    let name = match take_key(&mut doc, "name") {
        Some(DocValue::S(s)) => s,
        Some(_) => {
            return Err(ConfigError::WrongType);
        },
        None => {
            return Err(ConfigError::MissingField);
        },
    };
    let public = match take_key(&mut doc, "public") {
        Some(DocValue::B(b)) => b,
        Some(_) => {
            return Err(ConfigError::WrongType);
        },
        None => {
            return Err(ConfigError::MissingField);
        },
    };
    let members = match take_key(&mut doc, "members") {
        Some(DocValue::L(v)) => v,
        Some(_) => {
            return Err(ConfigError::WrongType);
        },
        None => {
            return Err(ConfigError::MissingField);
        },
    };
    let failed_push_message = match take_key(&mut doc, "failed_push_message") {
        Some(DocValue::S(s)) => Some(s),
        Some(_) => {
            return Err(ConfigError::WrongType);
        },
        None => None,
    };
    let web_template = match take_key(&mut doc, "web_template") {
        Some(DocValue::S(s)) => Some(s),
        Some(_) => {
            return Err(ConfigError::WrongType);
        },
        None => None,
    };
    let extra = match take_key(&mut doc, "extra") {
        Some(DocValue::T(t)) => Some(t),
        Some(_) => {
            return Err(ConfigError::WrongType);
        },
        None => None,
    };
    Ok(RepoConfig { name, public, members, failed_push_message, web_template, extra })
}

/// Renders a repository configuration as a document. The rendered entries
/// record the configuration exactly, which is what the round-trip law
/// consumes.
pub fn repo_config_to_doc(c: RepoConfig) -> (r: Vec<(String, DocValue)>)
    ensures
        doc_describes_repo(r@, c),
        repo_doc_error(r@) is None,
{
    let RepoConfig { name, public, members, failed_push_message, web_template, extra } = c;
    let mut r: Vec<(String, DocValue)> = Vec::new();
    push_entry(&mut r, "name", DocValue::S(name));
    push_entry(&mut r, "public", DocValue::B(public));
    push_entry(&mut r, "members", DocValue::L(members));
    match failed_push_message {
        Some(m) => push_entry(&mut r, "failed_push_message", DocValue::S(m)),
        None => (),
    }
    match web_template {
        Some(t) => push_entry(&mut r, "web_template", DocValue::S(t)),
        None => (),
    }
    match extra {
        Some(t) => push_entry(&mut r, "extra", DocValue::T(t)),
        None => (),
    }
    proof {
        lemma_distinct_repo_keys();
    }
    r
}

/// Pushes one entry, recording how every lookup is affected.
fn push_entry(doc: &mut Vec<(String, DocValue)>, key: &str, value: DocValue)
    ensures
        forall|k2: Seq<char>|
            spec_lookup_doc(final(doc)@, k2) == (if spec_lookup_doc(old(doc)@, k2) is Some {
                spec_lookup_doc(old(doc)@, k2)
            } else if k2 == key@ {
                Some(value)
            } else {
                None::<DocValue>
            }),
{
    let ghost orig = doc@;
    let ghost v = value;
    let k = key.to_owned();
    doc.push((k, value));
    proof {
        assert(doc@ =~= orig.push((k, v)));
        assert forall|k2: Seq<char>|
            spec_lookup_doc(doc@, k2) == (if spec_lookup_doc(orig, k2) is Some {
                spec_lookup_doc(orig, k2)
            } else if k2 == key@ {
                Some(v)
            } else {
                None::<DocValue>
            }) by {
            lemma_lookup_push(orig, (k, v), k2);
        }
    }
}

/// The schema keys of the repository document are pairwise distinct.
proof fn lemma_distinct_repo_keys()
    ensures
        "name"@ != "public"@,
        "name"@ != "members"@,
        "name"@ != "failed_push_message"@,
        "name"@ != "web_template"@,
        "name"@ != "extra"@,
        "public"@ != "members"@,
        "public"@ != "failed_push_message"@,
        "public"@ != "web_template"@,
        "public"@ != "extra"@,
        "members"@ != "failed_push_message"@,
        "members"@ != "web_template"@,
        "members"@ != "extra"@,
        "failed_push_message"@ != "web_template"@,
        "failed_push_message"@ != "extra"@,
        "web_template"@ != "extra"@,
{
    reveal_strlit("name");
    reveal_strlit("public");
    reveal_strlit("members");
    reveal_strlit("failed_push_message");
    reveal_strlit("web_template");
    reveal_strlit("extra");
    assert("name"@.len() == 4);
    assert("public"@.len() == 6);
    assert("members"@.len() == 7);
    assert("failed_push_message"@.len() == 19);
    assert("web_template"@.len() == 12);
    assert("extra"@.len() == 5);
    assert("members"@[0] == 'm' && "failed_push_message"@[0] == 'f');
}

/// Round trip for the repository document: any document that records a
/// configuration — in particular the one `repo_config_to_doc` renders —
/// parses back to a configuration with field-for-field the same content,
/// the passthrough table verbatim included.
pub proof fn lemma_repo_config_round_trip(
    entries: Seq<(String, DocValue)>,
    c: RepoConfig,
    reparsed: RepoConfig,
)
    requires
        doc_describes_repo(entries, c),
        doc_describes_repo(entries, reparsed),
    ensures
        reparsed.name == c.name,
        reparsed.public == c.public,
        reparsed.members == c.members,
        reparsed.failed_push_message == c.failed_push_message,
        reparsed.web_template == c.web_template,
        reparsed.extra == c.extra,
{
}


// ---------------------------------------------------------------------------
// Server configuration document.
// ---------------------------------------------------------------------------
/// The user table `entries` records exactly the roster entry `u`.
pub open spec fn doc_describes_user(entries: Seq<(String, DocValue)>, u: ServerUser) -> bool {
    &&& spec_lookup_doc(entries, "public_key"@) == Some(DocValue::S(u.public_key))
    &&& match u.is_admin {
        Some(b) => spec_lookup_doc(entries, "is_admin"@) == Some(DocValue::B(b)),
        None => spec_lookup_doc(entries, "is_admin"@) is None,
    }
    &&& match u.can_create_repos {
        Some(b) => spec_lookup_doc(entries, "can_create_repos"@) == Some(DocValue::B(b)),
        None => spec_lookup_doc(entries, "can_create_repos"@) is None,
    }
}

/// The first schema violation in one user table, in the parser's order.
pub open spec fn user_doc_error(entries: Seq<(String, DocValue)>) -> Option<ConfigError> {
    match spec_lookup_doc(entries, "public_key"@) {
        Option::None => Some(ConfigError::MissingField),
        Option::Some(v) => if !(v is S) {
            Some(ConfigError::WrongType)
        } else {
            match spec_lookup_doc(entries, "is_admin"@) {
                Option::Some(v) => if !(v is B) {
                    Some(ConfigError::WrongType)
                } else {
                    user_doc_error_tail(entries)
                },
                Option::None => user_doc_error_tail(entries),
            }
        },
    }
}

pub open spec fn user_doc_error_tail(entries: Seq<(String, DocValue)>) -> Option<ConfigError> {
    match spec_lookup_doc(entries, "can_create_repos"@) {
        Option::Some(v) => if !(v is B) {
            Some(ConfigError::WrongType)
        } else {
            None
        },
        Option::None => None,
    }
}

/// The users table `ds` records exactly the roster `us`, entry for entry
/// and in order.
pub open spec fn users_doc_describes(ds: Seq<(String, DocValue)>, us: Seq<(String, ServerUser)>) -> bool {
    &&& ds.len() == us.len()
    &&& forall|i: int|
        0 <= i < ds.len() ==> (#[trigger] ds[i]).0 == us[i].0 && (ds[i].1 matches DocValue::T(sub)
            && doc_describes_user(sub@, us[i].1))
}

/// The first schema violation in the users table, in roster order.
pub open spec fn users_doc_error(ds: Seq<(String, DocValue)>) -> Option<ConfigError>
    decreases ds.len(),
{
    if ds.len() == 0 {
        None
    } else {
        match ds[0].1 {
            DocValue::T(sub) => match user_doc_error(sub@) {
                Option::Some(e) => Some(e),
                Option::None => users_doc_error(ds.drop_first()),
            },
            _ => Some(ConfigError::WrongType),
        }
    }
}

/// The document `entries` records exactly the server configuration `c`.
pub open spec fn doc_describes_server(entries: Seq<(String, DocValue)>, c: ServerConfig) -> bool {
    &&& spec_lookup_doc(entries, "name"@) == Some(DocValue::S(c.name))
    &&& spec_lookup_doc(entries, "hostname"@) == Some(DocValue::S(c.hostname))
    &&& spec_lookup_doc(entries, "port"@) == Some(DocValue::I(c.port as i64))
    &&& (spec_lookup_doc(entries, "users"@) matches Some(v) && v matches DocValue::T(t)
        && users_doc_describes(t@, c.users@))
    &&& match c.welcome_message {
        Some(m) => spec_lookup_doc(entries, "welcome_message"@) == Some(DocValue::S(m)),
        None => spec_lookup_doc(entries, "welcome_message"@) is None,
    }
    &&& match c.exta {
        Some(t) => spec_lookup_doc(entries, "exta"@) == Some(DocValue::T(t)),
        None => spec_lookup_doc(entries, "exta"@) is None,
    }
}

/// The first schema violation in a server document, in the parser's order.
pub open spec fn server_doc_error(entries: Seq<(String, DocValue)>) -> Option<ConfigError> {
    match spec_lookup_doc(entries, "name"@) {
        Option::None => Some(ConfigError::MissingField),
        Option::Some(v) => if !(v is S) {
            Some(ConfigError::WrongType)
        } else {
            match spec_lookup_doc(entries, "hostname"@) {
                Option::None => Some(ConfigError::MissingField),
                Option::Some(v) => if !(v is S) {
                    Some(ConfigError::WrongType)
                } else {
                    match spec_lookup_doc(entries, "port"@) {
                        Option::None => Some(ConfigError::MissingField),
                        Option::Some(v) => match v {
                            DocValue::I(p) => if !(0 <= p <= 65535) {
                                Some(ConfigError::BadPort)
                            } else {
                                server_doc_error_users(entries)
                            },
                            _ => Some(ConfigError::WrongType),
                        },
                    }
                },
            }
        },
    }
}

pub open spec fn server_doc_error_users(entries: Seq<(String, DocValue)>) -> Option<ConfigError> {
    match spec_lookup_doc(entries, "users"@) {
        Option::None => Some(ConfigError::MissingField),
        Option::Some(v) => match v {
            DocValue::T(t) => match users_doc_error(t@) {
                Option::Some(e) => Some(e),
                Option::None => server_doc_error_tail(entries),
            },
            _ => Some(ConfigError::WrongType),
        },
    }
}

pub open spec fn server_doc_error_tail(entries: Seq<(String, DocValue)>) -> Option<ConfigError> {
    match spec_lookup_doc(entries, "welcome_message"@) {
        Option::Some(v) => if !(v is S) {
            Some(ConfigError::WrongType)
        } else {
            server_doc_error_exta(entries)
        },
        Option::None => server_doc_error_exta(entries),
    }
}

pub open spec fn server_doc_error_exta(entries: Seq<(String, DocValue)>) -> Option<ConfigError> {
    match spec_lookup_doc(entries, "exta"@) {
        Option::Some(v) => if !(v is T) {
            Some(ConfigError::WrongType)
        } else {
            None
        },
        Option::None => None,
    }
}

/// The schema keys of one user table are pairwise distinct.
proof fn lemma_distinct_user_keys()
    ensures
        "public_key"@ != "is_admin"@,
        "public_key"@ != "can_create_repos"@,
        "is_admin"@ != "can_create_repos"@,
{
    reveal_strlit("public_key");
    reveal_strlit("is_admin");
    reveal_strlit("can_create_repos");
    assert("public_key"@.len() == 10);
    assert("is_admin"@.len() == 8);
    assert("can_create_repos"@.len() == 16);
}

/// The schema keys of the server document are pairwise distinct.
proof fn lemma_distinct_server_keys()
    ensures
        "name"@ != "hostname"@,
        "name"@ != "port"@,
        "name"@ != "users"@,
        "name"@ != "welcome_message"@,
        "name"@ != "exta"@,
        "hostname"@ != "port"@,
        "hostname"@ != "users"@,
        "hostname"@ != "welcome_message"@,
        "hostname"@ != "exta"@,
        "port"@ != "users"@,
        "port"@ != "welcome_message"@,
        "port"@ != "exta"@,
        "users"@ != "welcome_message"@,
        "users"@ != "exta"@,
        "welcome_message"@ != "exta"@,
{
    reveal_strlit("name");
    reveal_strlit("hostname");
    reveal_strlit("port");
    reveal_strlit("users");
    reveal_strlit("welcome_message");
    reveal_strlit("exta");
    assert("name"@.len() == 4);
    assert("hostname"@.len() == 8);
    assert("port"@.len() == 4);
    assert("users"@.len() == 5);
    assert("welcome_message"@.len() == 15);
    assert("exta"@.len() == 4);
    assert("name"@[0] == 'n' && "port"@[0] == 'p' && "exta"@[0] == 'e');
}

/// Parses one user table of the roster.
pub fn parse_user(sub: Vec<(String, DocValue)>) -> (r: Result<ServerUser, ConfigError>)
    ensures
        r is Ok <==> user_doc_error(sub@) is None,
        r matches Ok(u) ==> doc_describes_user(sub@, u),
        r matches Err(e) ==> user_doc_error(sub@) == Some(e),
{
    let mut sub = sub;
    proof {
        lemma_distinct_user_keys();
    }
    let public_key = match take_key(&mut sub, "public_key") {
        Some(DocValue::S(s)) => s,
        Some(_) => {
            return Err(ConfigError::WrongType);
        },
        None => {
            return Err(ConfigError::MissingField);
        },
    };
    let is_admin = match take_key(&mut sub, "is_admin") {
        Some(DocValue::B(b)) => Some(b),
        Some(_) => {
            return Err(ConfigError::WrongType);
        },
        None => None,
    };
    let can_create_repos = match take_key(&mut sub, "can_create_repos") {
        Some(DocValue::B(b)) => Some(b),
        Some(_) => {
            return Err(ConfigError::WrongType);
        },
        None => None,
    };
    Ok(ServerUser { public_key, is_admin, can_create_repos })
}

/// Parses the users table into the roster, in order.
pub fn parse_users(table: Vec<(String, DocValue)>) -> (r: Result<
    Vec<(String, ServerUser)>,
    ConfigError,
>)
    ensures
        r is Ok <==> users_doc_error(table@) is None,
        r matches Ok(us) ==> users_doc_describes(table@, us@),
        r matches Err(e) ==> users_doc_error(table@) == Some(e),
{
    let mut t = table;
    let ghost orig = t@;
    let mut built: Vec<(String, ServerUser)> = Vec::new();
    proof {
        assert(orig.skip(0) =~= orig);
        assert(orig.take(0) =~= Seq::<(String, DocValue)>::empty());
    }
    while t.len() > 0
        invariant
            orig == table@,
            built.len() <= orig.len(),
            t@ == orig.skip(built.len() as int),
            users_doc_describes(orig.take(built.len() as int), built@),
            users_doc_error(orig) == users_doc_error(t@),
        decreases t.len(),
    {
        let ghost told = t@;
        let ghost i = built.len() as int;
        proof {
            assert(told[0] == orig[i]);
            assert(told.drop_first() =~= orig.skip(i + 1));
        }
        let entry = t.remove(0);
        match entry.1 {
            DocValue::T(sub) => {
                let ghost subv = sub@;
                match parse_user(sub) {
                    Ok(u) => {
                        let ghost old_built = built@;
                        built.push((entry.0, u));
                        proof {
                            assert(built@ =~= old_built.push((entry.0, u)));
                            assert(orig.take(i + 1).drop_last() =~= orig.take(i));
                            assert(orig.take(i + 1)[i] == orig[i]);
                            assert forall|m: int| 0 <= m < i + 1 implies (#[trigger] orig.take(
                                i + 1,
                            )[m]).0 == built@[m].0 && (orig.take(i + 1)[m].1 matches DocValue::T(
                                sub,
                            ) && doc_describes_user(sub@, built@[m].1)) by {
                                if m < i {
                                    assert(orig.take(i)[m] == orig.take(i + 1)[m]);
                                }
                            }
                        }
                    },
                    Err(e) => {
                        return Err(e);
                    },
                }
            },
            _ => {
                return Err(ConfigError::WrongType);
            },
        }
    }
    proof {
        assert(t@.len() == 0);
        assert(orig.take(built.len() as int) =~= orig);
    }
    Ok(built)
}

/// Parses a server configuration document.
pub fn server_config_from_doc(doc: Vec<(String, DocValue)>) -> (r: Result<
    ServerConfig,
    ConfigError,
>)
    ensures
        r is Ok <==> server_doc_error(doc@) is None,
        r matches Ok(c) ==> doc_describes_server(doc@, c),
        r matches Err(e) ==> server_doc_error(doc@) == Some(e),
{
    let mut doc = doc;
    proof {
        lemma_distinct_server_keys();
    }
    let name = match take_key(&mut doc, "name") {
        Some(DocValue::S(s)) => s,
        Some(_) => {
            return Err(ConfigError::WrongType);
        },
        None => {
            return Err(ConfigError::MissingField);
        },
    };
    let hostname = match take_key(&mut doc, "hostname") {
        Some(DocValue::S(s)) => s,
        Some(_) => {
            return Err(ConfigError::WrongType);
        },
        None => {
            return Err(ConfigError::MissingField);
        },
    };
    let port = match take_key(&mut doc, "port") {
        Some(DocValue::I(p)) => {
            if p < 0 || p > 65535 {
                return Err(ConfigError::BadPort);
            }
            p as u16
        },
        Some(_) => {
            return Err(ConfigError::WrongType);
        },
        None => {
            return Err(ConfigError::MissingField);
        },
    };
    let users = match take_key(&mut doc, "users") {
        Some(DocValue::T(t)) => match parse_users(t) {
            Ok(us) => us,
            Err(e) => {
                return Err(e);
            },
        },
        Some(_) => {
            return Err(ConfigError::WrongType);
        },
        None => {
            return Err(ConfigError::MissingField);
        },
    };
    let welcome_message = match take_key(&mut doc, "welcome_message") {
        Some(DocValue::S(s)) => Some(s),
        Some(_) => {
            return Err(ConfigError::WrongType);
        },
        None => None,
    };
    let exta = match take_key(&mut doc, "exta") {
        Some(DocValue::T(t)) => Some(t),
        Some(_) => {
            return Err(ConfigError::WrongType);
        },
        None => None,
    };
    Ok(ServerConfig { name, hostname, port, users, welcome_message, exta })
}

/// Renders one roster entry as a user table.
pub fn user_to_doc(u: ServerUser) -> (r: Vec<(String, DocValue)>)
    ensures
        doc_describes_user(r@, u),
        user_doc_error(r@) is None,
{
    let ServerUser { public_key, is_admin, can_create_repos } = u;
    let mut r: Vec<(String, DocValue)> = Vec::new();
    push_entry(&mut r, "public_key", DocValue::S(public_key));
    match is_admin {
        Some(b) => push_entry(&mut r, "is_admin", DocValue::B(b)),
        None => (),
    }
    match can_create_repos {
        Some(b) => push_entry(&mut r, "can_create_repos", DocValue::B(b)),
        None => (),
    }
    proof {
        lemma_distinct_user_keys();
    }
    r
}

/// Renders the roster as the users table, in order.
pub fn users_to_doc(us: Vec<(String, ServerUser)>) -> (r: Vec<(String, DocValue)>)
    ensures
        users_doc_describes(r@, us@),
        users_doc_error(r@) is None,
{
    let mut us = us;
    let ghost orig = us@;
    let mut r: Vec<(String, DocValue)> = Vec::new();
    proof {
        assert(orig.skip(0) =~= orig);
    }
    while us.len() > 0
        invariant
            r.len() <= orig.len(),
            us@ == orig.skip(r.len() as int),
            users_doc_describes(r@, orig.take(r.len() as int)),
            users_doc_error(r@) is None,
        decreases us.len(),
    {
        let ghost i = r.len() as int;
        proof {
            assert(us@[0] == orig[i]);
            assert(us@.drop_first() =~= orig.skip(i + 1));
        }
        let entry = us.remove(0);
        let sub = user_to_doc(entry.1);
        let ghost old_r = r@;
        r.push((entry.0, DocValue::T(sub)));
        proof {
            assert(r@ =~= old_r.push((entry.0, DocValue::T(sub))));
            assert(orig.take(i + 1)[i] == orig[i]);
            assert forall|m: int| 0 <= m < i + 1 implies (#[trigger] r@[m]).0 == orig.take(
                i + 1,
            )[m].0 && (r@[m].1 matches DocValue::T(s2) && doc_describes_user(
                s2@,
                orig.take(i + 1)[m].1,
            )) by {
                if m < i {
                    assert(orig.take(i)[m] == orig.take(i + 1)[m]);
                    assert(r@[m] == old_r[m]);
                }
            }
            assert(users_doc_error(r@) is None) by {
                lemma_users_doc_error_push(old_r, (entry.0, DocValue::T(sub)));
            }
        }
    }
    proof {
        assert(orig.take(r.len() as int) =~= orig);
    }
    r
}

/// Appending an error-free user entry keeps the users table error-free.
proof fn lemma_users_doc_error_push(ds: Seq<(String, DocValue)>, e: (String, DocValue))
    requires
        users_doc_error(ds) is None,
        e.1 matches DocValue::T(sub) && user_doc_error(sub@) is None,
    ensures
        users_doc_error(ds.push(e)) is None,
    decreases ds.len(),
{
    assert(users_doc_error(Seq::<(String, DocValue)>::empty()) is None);
    if ds.len() == 0 {
        assert(ds.push(e)[0] == e);
        assert(ds.push(e).drop_first() =~= Seq::<(String, DocValue)>::empty());
        assert(users_doc_error(ds.push(e)) is None);
    } else {
        assert(ds.push(e)[0] == ds[0]);
        assert(ds.push(e).drop_first() =~= ds.drop_first().push(e));
        assert(ds[0].1 matches DocValue::T(sub) && user_doc_error(sub@) is None);
        lemma_users_doc_error_push(ds.drop_first(), e);
        assert(users_doc_error(ds.push(e)) is None);
    }
}

/// Renders a server configuration as a document.
pub fn server_config_to_doc(c: ServerConfig) -> (r: Vec<(String, DocValue)>)
    ensures
        doc_describes_server(r@, c),
        server_doc_error(r@) is None,
{
    let ServerConfig { name, hostname, port, users, welcome_message, exta } = c;
    let users_doc = users_to_doc(users);
    let mut r: Vec<(String, DocValue)> = Vec::new();
    push_entry(&mut r, "name", DocValue::S(name));
    push_entry(&mut r, "hostname", DocValue::S(hostname));
    push_entry(&mut r, "port", DocValue::I(port as i64));
    push_entry(&mut r, "users", DocValue::T(users_doc));
    match welcome_message {
        Some(m) => push_entry(&mut r, "welcome_message", DocValue::S(m)),
        None => (),
    }
    match exta {
        Some(t) => push_entry(&mut r, "exta", DocValue::T(t)),
        None => (),
    }
    proof {
        lemma_distinct_server_keys();
    }
    r
}

/// Two roster entries recorded by the same user table are equal.
proof fn lemma_user_describes_unique(entries: Seq<(String, DocValue)>, u1: ServerUser, u2: ServerUser)
    requires
        doc_describes_user(entries, u1),
        doc_describes_user(entries, u2),
    ensures
        u1 == u2,
{
    assert(u1.public_key == u2.public_key);
    assert(u1.is_admin == u2.is_admin);
    assert(u1.can_create_repos == u2.can_create_repos);
}

/// Round trip for the server document: any document that records a
/// configuration — in particular the one `server_config_to_doc` renders —
/// parses back to a configuration with field-for-field the same content,
/// the roster in order and the passthrough table verbatim included.
pub proof fn lemma_server_config_round_trip(
    entries: Seq<(String, DocValue)>,
    c: ServerConfig,
    reparsed: ServerConfig,
)
    requires
        doc_describes_server(entries, c),
        doc_describes_server(entries, reparsed),
    ensures
        reparsed.name == c.name,
        reparsed.hostname == c.hostname,
        reparsed.port == c.port,
        reparsed.users@ == c.users@,
        reparsed.welcome_message == c.welcome_message,
        reparsed.exta == c.exta,
{
    let t = spec_lookup_doc(entries, "users"@)->Some_0->T_0;
    assert(users_doc_describes(t@, c.users@));
    assert(users_doc_describes(t@, reparsed.users@));
    assert forall|i: int| 0 <= i < c.users@.len() implies c.users@[i] == reparsed.users@[i] by {
        assert((#[trigger] t@[i]).0 == c.users@[i].0);
        let sub = t@[i].1->T_0;
        lemma_user_describes_unique(sub@, c.users@[i].1, reparsed.users@[i].1);
    }
    assert(c.users@ =~= reparsed.users@);
}

/// Reloading the server configuration twice from the same document — no
/// push having changed it in between — installs the same in-memory state
/// both times.
pub proof fn lemma_reload_idempotent(
    entries: Seq<(String, DocValue)>,
    first: crate::config::State,
    second: crate::config::State,
)
    requires
        doc_describes_server(entries, first.server_config),
        doc_describes_server(entries, second.server_config),
    ensures
        second.server_config.name == first.server_config.name,
        second.server_config.hostname == first.server_config.hostname,
        second.server_config.port == first.server_config.port,
        second.server_config.users@ == first.server_config.users@,
        second.server_config.welcome_message == first.server_config.welcome_message,
        second.server_config.exta == first.server_config.exta,
{
    lemma_server_config_round_trip(entries, first.server_config, second.server_config);
}

} // verus!
