use eejit::authorize::{authorize, parse_verb, verb_program, Decision, Identity, Verb};
use eejit::commands::parse_request;
use eejit::config::{server_config_startup, RepoConfig, ServerConfig, ServerUser, StartupPlan, State};
use eejit::docs::{
    repo_config_from_doc, repo_config_to_doc, server_config_from_doc, server_config_to_doc,
    ConfigError, DocValue,
};
use eejit::exit_code_report;
use eejit::gitops::{exit_ok, Repo};
use eejit::messages::{repo_note_tag, server_tag, side_message, welcome_text};
use eejit::paths::canonicalize_repo_arg;
use eejit::session::ChannelTable;
use eejit::site::{clone_url, site_output_dir, site_plan, u16_to_string, SitePlan};
use eejit::strutil::{join_strings, replace_char_str, split_str, str_eq};

fn ident(name: &str, admin: bool, create: bool) -> Identity {
    Identity { username: name.to_string(), is_admin: admin, can_create_repos: create }
}

fn repo_cfg(name: &str, public: bool, members: &[&str]) -> RepoConfig {
    RepoConfig {
        name: name.to_string(),
        public,
        members: members.iter().map(|m| m.to_string()).collect(),
        failed_push_message: None,
        web_template: None,
        extra: None,
    }
}

fn components(p: &eejit::paths::RepoPath) -> Vec<String> {
    p.components.clone()
}

#[test]
fn canonicalize_plain_repo() {
    let p = canonicalize_repo_arg("/repo").unwrap();
    assert_eq!(components(&p), vec!["repo.git".to_string()]);
}

#[test]
fn canonicalize_keeps_existing_suffix() {
    let p = canonicalize_repo_arg("/repo.git").unwrap();
    assert_eq!(components(&p), vec!["repo.git".to_string()]);
}

#[test]
fn canonicalize_resolves_dots() {
    let p = canonicalize_repo_arg("/a/./b/../c").unwrap();
    assert_eq!(components(&p), vec!["a".to_string(), "c.git".to_string()]);
}

#[test]
fn canonicalize_rejects_escape() {
    assert!(canonicalize_repo_arg("/../etc/passwd").is_none());
    assert!(canonicalize_repo_arg("/a/../../x").is_none());
}

#[test]
fn canonicalize_rejects_no_leading_slash() {
    assert!(canonicalize_repo_arg("repo.git").is_none());
    assert!(canonicalize_repo_arg("").is_none());
}

#[test]
fn canonicalize_rejects_empty_path() {
    assert!(canonicalize_repo_arg("/").is_none());
    assert!(canonicalize_repo_arg("/./.").is_none());
}

#[test]
fn canonicalize_never_leaves_parent_components() {
    for raw in ["/a/../b", "/a/b/../../c.git", "/x/./../y/z", "/..a/b..", "/a//b"] {
        if let Some(p) = canonicalize_repo_arg(raw) {
            for c in components(&p) {
                assert_ne!(c, "..");
                assert_ne!(c, ".");
                assert_ne!(c, "");
            }
        }
    }
}

#[test]
fn suffix_normalization_idempotent() {
    // Canonicalizing the rendered canonical form changes nothing further.
    let p1 = canonicalize_repo_arg("/dir/repo").unwrap();
    let rendered = format!("/{}", p1.render());
    let p2 = canonicalize_repo_arg(&rendered).unwrap();
    assert_eq!(components(&p1), components(&p2));
}

#[test]
fn dot_git_component_gets_suffix_like_hidden_file() {
    let p = canonicalize_repo_arg("/.git").unwrap();
    assert_eq!(components(&p), vec![".git.git".to_string()]);
}

#[test]
fn parse_request_full_command() {
    let (verb, path) = parse_request("git-upload-pack '/proj.git'").unwrap();
    assert_eq!(verb, Verb::UploadPack);
    assert_eq!(components(&path), vec!["proj.git".to_string()]);
}

#[test]
fn parse_request_quotes_group_words() {
    let (verb, path) = parse_request("git-receive-pack '/my repo'").unwrap();
    assert_eq!(verb, Verb::ReceivePack);
    assert_eq!(components(&path), vec!["my repo.git".to_string()]);
}

#[test]
fn parse_request_rejects_unknown_verb() {
    assert!(parse_request("rm -rf /").is_none());
    assert!(parse_request("git-upload-pack").is_none());
    assert!(parse_request("").is_none());
}

#[test]
fn parse_request_rejects_mismatched_quotes() {
    assert!(parse_request("git-upload-pack '/repo").is_none());
}

#[test]
fn parse_verb_recognizes_the_three() {
    assert_eq!(parse_verb("git-upload-pack"), Some(Verb::UploadPack));
    assert_eq!(parse_verb("git-upload-archive"), Some(Verb::UploadArchive));
    assert_eq!(parse_verb("git-receive-pack"), Some(Verb::ReceivePack));
    assert_eq!(parse_verb("git-shell"), None);
    assert_eq!(verb_program(Verb::ReceivePack), "git-receive-pack");
}

#[test]
fn guest_read_public_repo_runs() {
    // A guest running upload-pack against a public repository reaches the
    // subprocess spawn.
    let guest = Identity::guest();
    let path = canonicalize_repo_arg("/open.git").unwrap();
    let cfg = repo_cfg("open", true, &["alice"]);
    let d = authorize(&guest, Verb::UploadPack, &path, true, Some(&cfg));
    assert!(matches!(d, Decision::Run));
}

#[test]
fn guest_cannot_push_or_read_private() {
    let guest = Identity::guest();
    let path = canonicalize_repo_arg("/closed.git").unwrap();
    let cfg = repo_cfg("closed", false, &["alice"]);
    let d = authorize(&guest, Verb::ReceivePack, &path, true, Some(&cfg));
    assert!(matches!(d, Decision::DenyPush { .. }));
    let d = authorize(&guest, Verb::UploadPack, &path, true, Some(&cfg));
    assert!(matches!(d, Decision::DenyAccess));
    let d = authorize(&guest, Verb::ReceivePack, &path, false, None);
    assert!(matches!(d, Decision::DenyMissing));
}

#[test]
fn creation_denied_without_capability() {
    // bob, authenticated but without create-capability, pushing to a
    // repository of his own that does not exist yet.
    let bob = ident("bob", false, false);
    let path = canonicalize_repo_arg("/bob/new.git").unwrap();
    let d = authorize(&bob, Verb::ReceivePack, &path, false, None);
    assert!(matches!(d, Decision::DenyMissing));
}

#[test]
fn creation_allowed_with_capability_in_own_directory() {
    let bob = ident("bob", false, true);
    let path = canonicalize_repo_arg("/bob/new.git").unwrap();
    let d = authorize(&bob, Verb::ReceivePack, &path, false, None);
    assert!(matches!(d, Decision::CreateAndRun));
    // The bootstrap configuration names bob as sole member and is private.
    let boot = RepoConfig::bootstrap("bob/new.git".to_string(), "bob");
    assert!(!boot.public);
    assert_eq!(boot.members, vec!["bob".to_string()]);
    assert!(boot.failed_push_message.is_none());
}

#[test]
fn creation_outside_own_directory_denied() {
    let bob = ident("bob", false, true);
    let path = canonicalize_repo_arg("/alice/new.git").unwrap();
    let d = authorize(&bob, Verb::ReceivePack, &path, false, None);
    assert!(matches!(d, Decision::DenyPersonalDir));
}

#[test]
fn admin_creates_anywhere() {
    let root = ident("root", true, false);
    let path = canonicalize_repo_arg("/anything/here.git").unwrap();
    let d = authorize(&root, Verb::ReceivePack, &path, false, None);
    assert!(matches!(d, Decision::CreateAndRun));
}

#[test]
fn non_admin_denied_on_config_repo() {
    // Any verb, any existence: the reserved repository is admin-only.
    let bob = ident("bob", false, true);
    let path = canonicalize_repo_arg("/config.git").unwrap();
    for verb in [Verb::UploadPack, Verb::UploadArchive, Verb::ReceivePack] {
        let d = authorize(&bob, verb, &path, true, None);
        assert!(matches!(d, Decision::DenyAdminOnly));
        let d = authorize(&bob, verb, &path, false, None);
        assert!(matches!(d, Decision::DenyAdminOnly));
    }
}

#[test]
fn member_push_allowed_and_failed_push_note_returned() {
    let alice = ident("alice", false, false);
    let path = canonicalize_repo_arg("/proj.git").unwrap();
    let mut cfg = repo_cfg("proj", false, &["alice"]);
    cfg.failed_push_message = Some("ask alice".to_string());
    let d = authorize(&alice, Verb::ReceivePack, &path, true, Some(&cfg));
    assert!(matches!(d, Decision::Run));
    let carol = ident("carol", false, false);
    let d = authorize(&carol, Verb::ReceivePack, &path, true, Some(&cfg));
    match d {
        Decision::DenyPush { note } => assert_eq!(note, Some("ask alice".to_string())),
        _ => panic!("expected a push denial"),
    }
}

#[test]
fn roster_lookup_matches_second_word() {
    let users = vec![
        (
            "alice".to_string(),
            ServerUser {
                public_key: "ssh-ed25519 AAAAC3alice alice@host".to_string(),
                is_admin: Some(true),
                can_create_repos: None,
            },
        ),
        (
            "bob".to_string(),
            ServerUser {
                public_key: "ssh-ed25519 AAAAC3bob bob@host".to_string(),
                is_admin: None,
                can_create_repos: Some(true),
            },
        ),
        ("broken".to_string(), ServerUser {
            public_key: "no-second-word".to_string(),
            is_admin: Some(true),
            can_create_repos: Some(true),
        }),
    ];
    let cfg = ServerConfig {
        name: "srv".to_string(),
        hostname: "example.org".to_string(),
        port: 2222,
        users,
        welcome_message: None,
        exta: None,
    };
    let (name, u) = cfg.get_user("AAAAC3alice").unwrap();
    assert_eq!(name, "alice");
    assert_eq!(u.is_admin, Some(true));
    // A non-admin roster entry is matched as well.
    let (name, u) = cfg.get_user("AAAAC3bob").unwrap();
    assert_eq!(name, "bob");
    assert_eq!(u.can_create_repos, Some(true));
    assert!(cfg.get_user("AAAAC3carol").is_none());
    assert!(cfg.get_user("no-second-word").is_none());
}

#[test]
fn identity_from_roster_defaults_absent_flags() {
    let u = ServerUser {
        public_key: "k".to_string(),
        is_admin: None,
        can_create_repos: Some(true),
    };
    let id = Identity::from_roster("bob".to_string(), &u);
    assert!(!id.is_admin);
    assert!(id.can_create_repos);
    let g = Identity::guest();
    assert_eq!(g.username, "guest");
    assert!(!g.is_admin && !g.can_create_repos);
    let d = ServerUser::default();
    assert_eq!(d.public_key, "");
    assert_eq!(d.is_admin, Some(false));
}

#[test]
fn repo_config_round_trips() {
    let mut cfg = repo_cfg("proj", true, &["alice", "bob"]);
    cfg.failed_push_message = Some("talk to alice".to_string());
    cfg.web_template = Some("site.html".to_string());
    cfg.extra = Some(vec![
        ("custom".to_string(), DocValue::S("kept".to_string())),
        ("level".to_string(), DocValue::I(3)),
    ]);
    let doc = repo_config_to_doc(cfg);
    let back = repo_config_from_doc(doc).unwrap();
    assert_eq!(back.name, "proj");
    assert!(back.public);
    assert_eq!(back.members, vec!["alice".to_string(), "bob".to_string()]);
    assert_eq!(back.failed_push_message, Some("talk to alice".to_string()));
    assert_eq!(back.web_template, Some("site.html".to_string()));
    match back.extra.as_deref() {
        Some([(k1, DocValue::S(v1)), (k2, DocValue::I(3))]) => {
            assert_eq!(k1, "custom");
            assert_eq!(v1, "kept");
            assert_eq!(k2, "level");
        },
        _ => panic!("passthrough table not preserved"),
    }
}

#[test]
fn server_config_round_trips() {
    let cfg = ServerConfig {
        name: "srv".to_string(),
        hostname: "example.org".to_string(),
        port: 2222,
        users: vec![(
            "alice".to_string(),
            ServerUser {
                public_key: "ssh-ed25519 AAAA alice".to_string(),
                is_admin: Some(true),
                can_create_repos: None,
            },
        )],
        welcome_message: Some("hi %".to_string()),
        exta: Some(vec![("note".to_string(), DocValue::B(true))]),
    };
    let doc = server_config_to_doc(cfg);
    let back = server_config_from_doc(doc).unwrap();
    assert_eq!(back.name, "srv");
    assert_eq!(back.hostname, "example.org");
    assert_eq!(back.port, 2222);
    assert_eq!(back.users.len(), 1);
    assert_eq!(back.users[0].0, "alice");
    assert_eq!(back.users[0].1.public_key, "ssh-ed25519 AAAA alice");
    assert_eq!(back.users[0].1.is_admin, Some(true));
    assert_eq!(back.users[0].1.can_create_repos, None);
    assert_eq!(back.welcome_message, Some("hi %".to_string()));
    match back.exta.as_deref() {
        Some([(k, DocValue::B(true))]) => assert_eq!(k, "note"),
        _ => panic!("passthrough table not preserved"),
    }
}

#[test]
fn parse_errors_are_reported() {
    // Missing required key.
    let doc = vec![("public".to_string(), DocValue::B(true))];
    let e = repo_config_from_doc(doc).err().unwrap();
    assert_eq!(e, ConfigError::MissingField);
    // Wrong shape for a key.
    let doc = vec![
        ("name".to_string(), DocValue::I(1)),
        ("public".to_string(), DocValue::B(true)),
        ("members".to_string(), DocValue::L(vec![])),
    ];
    let e = repo_config_from_doc(doc).err().unwrap();
    assert_eq!(e, ConfigError::WrongType);
    // Port outside the 16-bit range.
    let doc = vec![
        ("name".to_string(), DocValue::S("s".to_string())),
        ("hostname".to_string(), DocValue::S("h".to_string())),
        ("port".to_string(), DocValue::I(70000)),
        ("users".to_string(), DocValue::T(vec![])),
    ];
    let e = server_config_from_doc(doc).err().unwrap();
    assert_eq!(e, ConfigError::BadPort);
    // A user entry that is not a table.
    let doc = vec![
        ("name".to_string(), DocValue::S("s".to_string())),
        ("hostname".to_string(), DocValue::S("h".to_string())),
        ("port".to_string(), DocValue::I(22)),
        (
            "users".to_string(),
            DocValue::T(vec![("alice".to_string(), DocValue::S("oops".to_string()))]),
        ),
    ];
    let e = server_config_from_doc(doc).err().unwrap();
    assert_eq!(e, ConfigError::WrongType);
}

#[test]
fn unknown_keys_are_ignored() {
    let doc = vec![
        ("surprise".to_string(), DocValue::B(true)),
        ("name".to_string(), DocValue::S("p".to_string())),
        ("public".to_string(), DocValue::B(false)),
        ("members".to_string(), DocValue::L(vec!["x".to_string()])),
    ];
    let cfg = repo_config_from_doc(doc).unwrap();
    assert_eq!(cfg.name, "p");
    assert!(cfg.extra.is_none());
}

#[test]
fn side_message_matches_wrapping() {
    assert_eq!(side_message(server_tag(), "hello"), "[EEJIT] hello\n");
    let long = "this message is comfortably longer than forty columns and must wrap";
    let expected = format!("[REPO NOTE] {}\n", textwrap::wrap(long, 40).join("\n"));
    assert_eq!(side_message(repo_note_tag(), long), expected);
    assert!(side_message(repo_note_tag(), long).matches('\n').count() > 1);
}

#[test]
fn welcome_substitutes_every_placeholder() {
    assert_eq!(welcome_text("welcome, %!", "bob"), "welcome, bob!");
    assert_eq!(welcome_text("% and % again", "x"), "x and x again");
    assert_eq!(welcome_text("no placeholder", "x"), "no placeholder");
}

#[test]
fn exit_codes_mirror_subprocess() {
    assert_eq!(exit_code_report(Some(0)), 0);
    assert_eq!(exit_code_report(Some(5)), 5);
    assert_eq!(exit_code_report(None), 128);
    assert!(exit_ok(true).is_ok());
    assert!(exit_ok(false).is_err());
}

#[test]
fn git_plans_spell_out_invocations() {
    let (repo, cmds) = Repo::create_bare("bob/new.git");
    assert_eq!(repo.dir, "bob/new.git");
    assert_eq!(cmds.len(), 4);
    assert_eq!(cmds[0].args, vec!["git", "init", "--bare", "bob/new.git"]);
    assert!(cmds[0].cwd.is_none());
    assert_eq!(cmds[1].args, vec!["git", "branch", "-m", "main"]);
    assert_eq!(cmds[1].cwd.as_deref(), Some("bob/new.git"));
    assert_eq!(cmds[2].args, vec!["git", "config", "--local", "user.name", "Eejit Server"]);
    assert_eq!(cmds[3].args, vec!["git", "config", "--local", "user.email", "N/A"]);

    let (clone, cmds) = Repo::clone("src.git", "/tmp/scratch/src.git");
    assert_eq!(clone.dir, "/tmp/scratch/src.git");
    assert_eq!(cmds[0].args, vec!["git", "clone", "src.git", "/tmp/scratch/src.git"]);

    let cmds = clone.push_changes("chore: create repo config");
    assert_eq!(cmds.len(), 3);
    assert_eq!(cmds[0].args, vec!["git", "add", "."]);
    assert_eq!(cmds[1].args, vec!["git", "commit", "-m", "chore: create repo config"]);
    assert_eq!(cmds[2].args, vec!["git", "push"]);
    assert_eq!(cmds[2].cwd.as_deref(), Some("/tmp/scratch/src.git"));
}

#[test]
fn startup_plan_covers_all_cases() {
    assert!(matches!(server_config_startup(true, false), StartupPlan::LoadExisting));
    assert!(matches!(server_config_startup(true, true), StartupPlan::LoadExisting));
    assert!(matches!(server_config_startup(false, true), StartupPlan::BootstrapFromSeed));
    assert!(matches!(server_config_startup(false, false), StartupPlan::Fatal));
}

#[test]
fn state_swaps_config_wholesale() {
    let cfg = ServerConfig {
        name: "a".to_string(),
        hostname: "h".to_string(),
        port: 1,
        users: vec![],
        welcome_message: None,
        exta: None,
    };
    let mut st = State::new(cfg);
    assert_eq!(st.server_config.name, "a");
    let cfg2 = ServerConfig {
        name: "b".to_string(),
        hostname: "h2".to_string(),
        port: 2,
        users: vec![],
        welcome_message: None,
        exta: None,
    };
    st.replace_config(cfg2);
    assert_eq!(st.server_config.name, "b");
    assert_eq!(st.server_config.port, 2);
}

#[test]
fn channel_table_routes_and_drops() {
    let mut t = ChannelTable::new();
    assert_eq!(t.route_data(7), None);
    t.register(7, 100);
    t.register(9, 200);
    assert_eq!(t.route_data(7), Some(100));
    assert_eq!(t.route_data(9), Some(200));
    // Re-registration replaces: one live subprocess per channel.
    t.register(7, 101);
    assert_eq!(t.route_data(7), Some(101));
    assert_eq!(t.take(7), Some(101));
    assert_eq!(t.route_data(7), None);
    assert_eq!(t.take(7), None);
    assert_eq!(t.route_data(9), Some(200));
}

#[test]
fn string_helpers() {
    assert_eq!(split_str("a/b//c", '/'), vec!["a", "b", "", "c"]);
    assert_eq!(split_str("", '/'), vec![""]);
    let parts = vec!["a".to_string(), "b".to_string()];
    assert_eq!(join_strings(&parts, "/"), "a/b");
    assert_eq!(replace_char_str("x%y", '%', "AB"), "xABy");
    assert!(str_eq("same", "same"));
    assert!(!str_eq("same", "other"));
}

#[test]
fn site_plan_follows_visibility_and_readme() {
    let private = repo_cfg("p", false, &["a"]);
    assert!(matches!(site_plan(&private, true), SitePlan::Skip));
    let public = repo_cfg("p", true, &["a"]);
    assert!(matches!(site_plan(&public, false), SitePlan::Skip));
    match site_plan(&public, true) {
        SitePlan::Build { template } => assert!(template.is_none()),
        _ => panic!("expected a build"),
    }
    let mut templated = repo_cfg("p", true, &["a"]);
    templated.web_template = Some("page.html".to_string());
    match site_plan(&templated, true) {
        SitePlan::Build { template } => assert_eq!(template, Some("page.html".to_string())),
        _ => panic!("expected a build"),
    }
}

#[test]
fn clone_url_and_output_dir() {
    assert_eq!(u16_to_string(0), "0");
    assert_eq!(u16_to_string(22), "22");
    assert_eq!(u16_to_string(65535), "65535");
    let path = canonicalize_repo_arg("/bob/proj.git").unwrap();
    assert_eq!(clone_url("example.org", 2222, &path), "ssh://example.org:2222/bob/proj.git");
    assert_eq!(site_output_dir(&path), "static/bob/proj");
    let hidden = canonicalize_repo_arg("/.git").unwrap();
    assert_eq!(site_output_dir(&hidden), "static/.git");
}
