//! The host: its command line, and the name of its program.

use crate::text::slices;
use vstd::prelude::*;
use vstd::string::*;

verus! {

/// Runs host subcommands.
pub trait HerdrCli {
    /// Runs a subcommand that prints JSON and returns what it printed, or a message.
    fn run_json(&self, args: &[&str]) -> Result<String, String>;

    /// Runs a subcommand for its effect.
    fn run(&self, args: &[&str]) -> (r: Result<(), String>)
        default_ensures
            exists|reply: Result<String, String>| #[trigger]
                call_ensures(Self::run_json, (self, args), reply) && match (reply, r) {
                    (Ok(_), Ok(())) => true,
                    (Err(a), Err(b)) => a == b,
                    _ => false,
                },
    {
        match self.run_json(args) {
            Ok(_) => Ok(()),
            Err(message) => Err(message),
        }
    }
}

/// The host's program: the configured one, or `herdr` where none is configured.
pub fn resolve_program(configured: Option<String>) -> (r: String)
    ensures
        match configured {
            Some(program) if program@.len() > 0 => r == program,
            _ => r@ == "herdr"@,
        },
{
    match configured {
        Some(program) => {
            if program.as_str().is_empty() {
                "herdr".to_owned()
            } else {
                program
            }
        },
        None => "herdr".to_owned(),
    }
}

/// What a host subcommand gives its caller: what it printed where it succeeded, a message where
/// it ended with a failure status.
pub fn reply_text(succeeded: bool, printed: &[u8]) -> (r: Result<String, String>)
    ensures
        succeeded ==> (r matches Ok(text) && text@ == crate::paths::lossy_text(printed@)),
        !succeeded ==> (r matches Err(message) && message@ == "herdr exited non-zero"@),
{
    if succeeded {
        Ok(crate::paths::text_lossy(printed))
    } else {
        Err("herdr exited non-zero".to_owned())
    }
}

/// The host was asked with these arguments and answered so.
pub open spec fn replied<H: HerdrCli>(
    herdr: H,
    args: Seq<Seq<char>>,
    reply: Result<String, String>,
) -> bool {
    exists|list: &[&str]|
        slices(list@) == args && #[trigger] call_ensures(H::run_json, (&herdr, list), reply)
}

/// The host ran a command with these arguments and this result.
pub open spec fn carried<H: HerdrCli>(
    herdr: H,
    args: Seq<Seq<char>>,
    reply: Result<(), String>,
) -> bool {
    exists|list: &[&str]|
        slices(list@) == args && #[trigger] call_ensures(H::run, (&herdr, list), reply)
}

/// What the host says of its worktrees and of its agents; nothing without a host, and where it
/// fails to answer either question.
pub fn herdr_overlay<H: HerdrCli>(herdr: Option<&H>) -> (r: Option<(String, String)>)
    ensures
        herdr is None ==> r is None,
        r matches Some((worktrees, agents)) ==> replied(
            *herdr->0,
            seq!["worktree"@, "list"@],
            Ok(worktrees),
        ) && replied(*herdr->0, seq!["agent"@, "list"@], Ok(agents)),
        herdr is Some && r is None ==> exists|message: String|
            #![auto]
            replied(*herdr->0, seq!["worktree"@, "list"@], Err(message)) || replied(
                *herdr->0,
                seq!["agent"@, "list"@],
                Err(message),
            ),
{
    match herdr {
        None => None,
        Some(host) => {
            let first = ["worktree", "list"];
            let second = ["agent", "list"];
            assert(slices(first@) =~= seq!["worktree"@, "list"@]);
            assert(slices(second@) =~= seq!["agent"@, "list"@]);
            let worktrees = host.run_json(&first);
            assert(replied(*host, seq!["worktree"@, "list"@], worktrees));
            match worktrees {
                Err(_) => None,
                Ok(worktrees) => {
                    let agents = host.run_json(&second);
                    assert(replied(*host, seq!["agent"@, "list"@], agents));
                    match agents {
                        Err(_) => None,
                        Ok(agents) => Some((worktrees, agents)),
                    }
                },
            }
        },
    }
}

} // verus!
