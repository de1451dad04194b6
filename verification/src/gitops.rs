//! The repository store's side of the design: every operation on a bare
//! repository is an external `git` invocation, and what the library
//! guarantees is exactly which invocations each operation performs. The
//! plans built here are executed, in order and stopping at the first
//! failure, by the process layer around the library.
use vstd::prelude::*;
use vstd::string::*;

verus! {

/// One external `git` invocation: an optional working directory and the
/// full argument list, program first.
pub struct GitCmd {
    pub cwd: Option<String>,
    pub args: Vec<String>,
}

/// A handle on a repository working directory with the commands that
/// operate on it.
pub struct Repo {
    pub dir: String,
}

fn arg_list_2(a: &str, b: &str) -> (r: Vec<String>)
    ensures
        r.deep_view() == seq![a@, b@],
{
    let mut r: Vec<String> = Vec::new();
    r.push(a.to_owned());
    r.push(b.to_owned());
    proof {
        assert(r.deep_view() =~= seq![a@, b@]);
    }
    r
}

fn arg_list_4(a: &str, b: &str, c: &str, d: &str) -> (r: Vec<String>)
    ensures
        r.deep_view() == seq![a@, b@, c@, d@],
{
    let mut r: Vec<String> = Vec::new();
    r.push(a.to_owned());
    r.push(b.to_owned());
    r.push(c.to_owned());
    r.push(d.to_owned());
    proof {
        assert(r.deep_view() =~= seq![a@, b@, c@, d@]);
    }
    r
}

fn arg_list_5(a: &str, b: &str, c: &str, d: &str, e: &str) -> (r: Vec<String>)
    ensures
        r.deep_view() == seq![a@, b@, c@, d@, e@],
{
    let mut r: Vec<String> = Vec::new();
    r.push(a.to_owned());
    r.push(b.to_owned());
    r.push(c.to_owned());
    r.push(d.to_owned());
    r.push(e.to_owned());
    proof {
        assert(r.deep_view() =~= seq![a@, b@, c@, d@, e@]);
    }
    r
}

impl Repo {
    /// A handle on an existing repository directory, with the two local
    /// configuration commands that stamp the fixed commit-author identity
    /// so automated commits need no interactive setup.
    pub fn from(path: &str) -> (r: (Repo, Vec<GitCmd>))
        ensures
            r.0.dir@ == path@,
            r.1@.len() == 2,
            (r.1@[0].cwd matches Some(c) && c@ == path@),
            r.1@[0].args.deep_view() == seq![
                "git"@,
                "config"@,
                "--local"@,
                "user.name"@,
                "Eejit Server"@,
            ],
            (r.1@[1].cwd matches Some(c) && c@ == path@),
            r.1@[1].args.deep_view() == seq!["git"@, "config"@, "--local"@, "user.email"@, "N/A"@],
    {
        let mut cmds: Vec<GitCmd> = Vec::new();
        cmds.push(
            GitCmd {
                cwd: Some(path.to_owned()),
                args: arg_list_5("git", "config", "--local", "user.name", "Eejit Server"),
            },
        );
        cmds.push(
            GitCmd {
                cwd: Some(path.to_owned()),
                args: arg_list_5("git", "config", "--local", "user.email", "N/A"),
            },
        );
        (Repo { dir: path.to_owned() }, cmds)
    }

    /// Initializes a bare repository: create it, rename its default branch
    /// to the canonical main branch, and stamp the author identity.
    pub fn create_bare(path: &str) -> (r: (Repo, Vec<GitCmd>))
        ensures
            r.0.dir@ == path@,
            r.1@.len() == 4,
            r.1@[0].cwd is None,
            r.1@[0].args.deep_view() == seq!["git"@, "init"@, "--bare"@, path@],
            (r.1@[1].cwd matches Some(c) && c@ == path@),
            r.1@[1].args.deep_view() == seq!["git"@, "branch"@, "-m"@, "main"@],
            (r.1@[2].cwd matches Some(c) && c@ == path@),
            r.1@[2].args.deep_view() == seq![
                "git"@,
                "config"@,
                "--local"@,
                "user.name"@,
                "Eejit Server"@,
            ],
            (r.1@[3].cwd matches Some(c) && c@ == path@),
            r.1@[3].args.deep_view() == seq!["git"@, "config"@, "--local"@, "user.email"@, "N/A"@],
    {
        let mut cmds: Vec<GitCmd> = Vec::new();
        cmds.push(GitCmd { cwd: None, args: arg_list_4("git", "init", "--bare", path) });
        cmds.push(
            GitCmd { cwd: Some(path.to_owned()), args: arg_list_4("git", "branch", "-m", "main") },
        );
        let (repo, mut stamp) = Repo::from(path);
        let s0 = stamp.remove(0);
        let s1 = stamp.remove(0);
        cmds.push(s0);
        cmds.push(s1);
        (repo, cmds)
    }

    /// Clones a repository into a scratch directory and stamps the author
    /// identity in the clone.
    pub fn clone(from: &str, to: &str) -> (r: (Repo, Vec<GitCmd>))
        ensures
            r.0.dir@ == to@,
            r.1@.len() == 3,
            r.1@[0].cwd is None,
            r.1@[0].args.deep_view() == seq!["git"@, "clone"@, from@, to@],
            (r.1@[1].cwd matches Some(c) && c@ == to@),
            r.1@[1].args.deep_view() == seq![
                "git"@,
                "config"@,
                "--local"@,
                "user.name"@,
                "Eejit Server"@,
            ],
            (r.1@[2].cwd matches Some(c) && c@ == to@),
            r.1@[2].args.deep_view() == seq!["git"@, "config"@, "--local"@, "user.email"@, "N/A"@],
    {
        let mut cmds: Vec<GitCmd> = Vec::new();
        cmds.push(GitCmd { cwd: None, args: arg_list_4("git", "clone", from, to) });
        let (repo, mut stamp) = Repo::from(to);
        let s0 = stamp.remove(0);
        let s1 = stamp.remove(0);
        cmds.push(s0);
        cmds.push(s1);
        (repo, cmds)
    }

    /// Stages everything, commits with the given message, and pushes to
    /// the origin; a failure of any step is fatal for the operation and
    /// nothing is retried.
    pub fn push_changes(&self, message: &str) -> (r: Vec<GitCmd>)
        ensures
            r@.len() == 3,
            (r@[0].cwd matches Some(c) && c@ == self.dir@),
            r@[0].args.deep_view() == seq!["git"@, "add"@, "."@],
            (r@[1].cwd matches Some(c) && c@ == self.dir@),
            r@[1].args.deep_view() == seq!["git"@, "commit"@, "-m"@, message@],
            (r@[2].cwd matches Some(c) && c@ == self.dir@),
            r@[2].args.deep_view() == seq!["git"@, "push"@],
    {
        let mut add_args: Vec<String> = Vec::new();
        add_args.push("git".to_owned());
        add_args.push("add".to_owned());
        add_args.push(".".to_owned());
        proof {
            assert(add_args.deep_view() =~= seq!["git"@, "add"@, "."@]);
        }
        let mut cmds: Vec<GitCmd> = Vec::new();
        cmds.push(GitCmd { cwd: Some(self.dir.clone()), args: add_args });
        cmds.push(
            GitCmd {
                cwd: Some(self.dir.clone()),
                args: arg_list_4("git", "commit", "-m", message),
            },
        );
        cmds.push(GitCmd { cwd: Some(self.dir.clone()), args: arg_list_2("git", "push") });
        cmds
    }
}

/// Uniform success test for an external invocation: a non-zero exit is a
/// failure, with no recognition of partial success.
pub fn exit_ok(success: bool) -> (r: Result<(), ()>)
    ensures
        r is Ok <==> success,
{
    if success {
        Ok(())
    } else {
        Err(())
    }
}

} // verus!
