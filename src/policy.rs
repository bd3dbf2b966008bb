use vstd::prelude::*;

verus! {

/// Whether an update check runs on this invocation, and whether an
/// "already up to date" result is shown to the user.
#[derive(Clone, Copy, Debug, PartialEq, Eq, Structural)]
pub struct UpdateCheckPolicy {
    pub suppressed: bool,
    pub announce_up_to_date: bool,
}

/// The command-line argument that turns the update check off.
pub open spec fn skip_flag() -> Seq<char> {
    "--skip-update"@
}

/// Some argument is exactly the skip flag.
pub open spec fn mentions_skip_flag(args: Seq<String>) -> bool {
    exists|i: int| 0 <= i < args.len() && #[trigger] args[i]@ == skip_flag()
}

/// True iff one of `args` is, character for character, `--skip-update`.
pub fn has_skip_flag(args: &Vec<String>) -> (r: bool)
    ensures
        r == mentions_skip_flag(args@),
{
    proof {
        reveal_strlit("--skip-update");
    }
    let flag: String = "--skip-update".to_owned();
    let mut i: usize = 0;
    while i < args.len()
        invariant
            i <= args@.len(),
            flag@ == skip_flag(),
            forall|j: int| 0 <= j < i ==> #[trigger] args@[j]@ != skip_flag(),
        decreases args@.len() - i,
    {
        if args[i] == flag {
            return true;
        }
        i = i + 1;
    }
    false
}

/// The policy for one invocation: the check is suppressed when the skip flag
/// was passed or when the build mode turns checks off; otherwise it runs.
pub fn policy_from_args(args: &Vec<String>, build_suppresses: bool, announce_up_to_date: bool) -> (r:
    UpdateCheckPolicy)
    ensures
        r.suppressed == (mentions_skip_flag(args@) || build_suppresses),
        r.announce_up_to_date == announce_up_to_date,
        !mentions_skip_flag(args@) ==> r.suppressed == build_suppresses,
{
    let flagged = has_skip_flag(args);
    UpdateCheckPolicy { suppressed: flagged || build_suppresses, announce_up_to_date }
}

} // verus!
