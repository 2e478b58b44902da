use vstd::prelude::*;
use vstd::string::StringExecFns;
use crate::error::{outcome_view, ResolveError, ResolveErrorView};
use crate::resolver::LedgerExtension;

verus! {

/// A command line for the host to run.
#[derive(Debug, Clone, PartialEq, Eq)]
pub struct Command {
    pub command: String,
    pub args: Vec<String>,
    pub env: Vec<(String, String)>,
}

/// The value of the first `HOME` entry of an environment snapshot.
pub open spec fn home_of(env: Seq<(String, String)>) -> Option<Seq<char>>
    decreases env.len(),
{
    if env.len() == 0 {
        None
    } else if env[0].0@ == "HOME"@ {
        Some(env[0].1@)
    } else {
        home_of(env.drop_first())
    }
}

/// Where a local build of the server lies below a home directory.
pub open spec fn local_build_of(home: Seq<char>, debug: bool) -> Seq<char> {
    home + "/src/ledger-language-server/target/"@ + (if debug {
        "debug"@
    } else {
        "release"@
    }) + "/ledger-language-server"@
}

/// The path of a local build, or the error where the snapshot has no `HOME`.
pub open spec fn local_build_outcome(env: Seq<(String, String)>, debug: bool) -> Result<
    Seq<char>,
    ResolveErrorView,
> {
    match home_of(env) {
        Some(home) => Ok(local_build_of(home, debug)),
        None => Err(ResolveErrorView::MissingHomeEnv),
    }
}

impl LedgerExtension {
    /// Builds the command that starts the server at `path`: the one
    /// argument `lsp`, and no environment.
    pub fn language_server_command(path: String) -> (c: Command)
        ensures
            c.command@ == path@,
            c.args@.len() == 1,
            c.args@[0]@ == "lsp"@,
            c.env@.len() == 0,
    {
        let mut args: Vec<String> = Vec::new();
        args.push(String::from_str("lsp"));
        Command { command: path, args, env: Vec::new() }
    }
}

/// Reads `HOME` from an environment snapshot: the first entry by that name.
pub fn home_directory(env: &Vec<(String, String)>) -> (r: Option<String>)
    ensures
        match r {
            Some(home) => home_of(env@) == Some(home@),
            None => home_of(env@).is_none(),
        },
{
    let key = String::from_str("HOME");
    let mut i: usize = 0;
    proof {
        assert(env@.skip(0) =~= env@);
    }
    while i < env.len()
        invariant
            i <= env.len(),
            key@ == "HOME"@,
            home_of(env@) == home_of(env@.skip(i as int)),
        decreases env.len() - i,
    {
        proof {
            assert(env@.skip(i as int)[0] == env@[i as int]);
            assert(env@.skip(i as int).drop_first() =~= env@.skip(i + 1));
        }
        if env[i].0 == key {
            return Some(env[i].1.clone());
        }
        i = i + 1;
    }
    None
}

/// Locates a local build of the server below the home directory that the
/// environment snapshot names.
pub fn local_build_path(env: &Vec<(String, String)>, debug: bool) -> (r: Result<
    String,
    ResolveError,
>)
    ensures
        outcome_view(r) == local_build_outcome(env@, debug),
{
    match home_directory(env) {
        Some(home) => {
            let mut out = home;
            out.append("/src/ledger-language-server/target/");
            out.append(if debug { "debug" } else { "release" });
            out.append("/ledger-language-server");
            Ok(out)
        },
        None => Err(ResolveError::MissingHomeEnv),
    }
}

} // verus!
