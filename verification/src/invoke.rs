//! Building the external tool's argument list and interpreting its exit.
//!
//! The whole-process argument list is classified once at startup: when the
//! host build tool delegates to this tool it passes a sentinel token after
//! the program path, and that token must not be forwarded. The forwarded
//! arguments are placed before a separator, the synthesized lint flags
//! after it, warn flags first, then deny, then allow — so that, under
//! last-wins flag semantics, deny overrides warn and allow overrides both.

use vstd::prelude::*;

use crate::errors::LintError;
use crate::lints::{pair_flags, Lints, LintsView};

verus! {

/// How the process was started: directly, or delegated to as a subcommand
/// plugin of the host build tool.
#[derive(Clone, Copy, Debug, PartialEq, Eq, Structural)]
pub enum Invocation {
    Direct,
    Delegated,
}

/// A delegated start: the argument after the program path is the sentinel
/// token under which the host build tool runs this tool.
pub open spec fn spec_is_delegated(args: Seq<Seq<char>>) -> bool {
    args.len() >= 2 && args[1] == "clippy-lints"@
}

/// How many leading arguments are dropped when collecting passthrough
/// arguments: the program path, plus the sentinel when delegated.
pub open spec fn spec_skip_count(args: Seq<Seq<char>>) -> int {
    if spec_is_delegated(args) {
        2
    } else {
        1
    }
}

/// The passthrough arguments: everything after the dropped prefix, verbatim
/// and in order.
pub open spec fn spec_passthrough(args: Seq<Seq<char>>) -> Seq<Seq<char>> {
    if args.len() <= spec_skip_count(args) {
        Seq::empty()
    } else {
        args.skip(spec_skip_count(args))
    }
}

/// Classifies the whole-process argument list, once at startup.
pub fn classify_invocation(args: &Vec<String>) -> (r: Invocation)
    ensures
        r == Invocation::Delegated <==> spec_is_delegated(args.deep_view()),
{
    if args.len() >= 2 {
        let sentinel: String = "clippy-lints".to_owned();
        if args[1] == sentinel {
            return Invocation::Delegated;
        }
    }
    Invocation::Direct
}

/// Collects the passthrough arguments from the whole-process argument list:
/// everything after the program path, and after the sentinel as well when
/// the invocation is delegated.
pub fn passthrough_args(args: &Vec<String>) -> (r: Vec<String>)
    ensures
        r.deep_view() == spec_passthrough(args.deep_view()),
{
    let skip: usize = match classify_invocation(args) {
        Invocation::Delegated => 2,
        Invocation::Direct => 1,
    };
    let mut r: Vec<String> = Vec::new();
    if args.len() <= skip {
        proof {
            assert(r.deep_view() =~= spec_passthrough(args.deep_view()));
        }
        return r;
    }
    let mut i: usize = skip;
    while i < args.len()
        invariant
            skip <= i <= args@.len(),
            skip == spec_skip_count(args.deep_view()),
            r.deep_view() == args.deep_view().subrange(skip as int, i as int),
        decreases args@.len() - i,
    {
        let ghost pre = r.deep_view();
        r.push(args[i].clone());
        proof {
            assert(r.deep_view() =~= pre.push(args.deep_view()[i as int]));
            assert(r.deep_view() =~= args.deep_view().subrange(skip as int, i as int + 1));
        }
        i = i + 1;
    }
    proof {
        assert(r.deep_view() =~= spec_passthrough(args.deep_view()));
    }
    r
}

/// Appends clones of all items to `out`, preserving order.
fn append_all(out: &mut Vec<String>, items: &Vec<String>)
    ensures
        final (out).deep_view() == old(out).deep_view() + items.deep_view(),
{
    proof {
        assert(out.deep_view() =~= old(out).deep_view() + items.deep_view().take(0));
    }
    let mut i: usize = 0;
    while i < items.len()
        invariant
            i <= items@.len(),
            out.deep_view() == old(out).deep_view() + items.deep_view().take(i as int),
        decreases items@.len() - i,
    {
        let ghost pre = out.deep_view();
        out.push(items[i].clone());
        proof {
            assert(out.deep_view() =~= pre.push(items.deep_view()[i as int]));
            assert(out.deep_view() =~= old(out).deep_view() + items.deep_view().take(
                i as int + 1,
            ));
        }
        i = i + 1;
    }
    proof {
        assert(items.deep_view().take(items@.len() as int) =~= items.deep_view());
    }
}

/// The full argument list handed to the host build tool: the fixed
/// subcommand token, the passthrough arguments verbatim, the separator,
/// then all warn flags, all deny flags and all allow flags, in that order.
pub open spec fn spec_tool_args(l: LintsView, passthrough: Seq<Seq<char>>) -> Seq<Seq<char>> {
    seq!["clippy"@] + passthrough + seq!["--"@] + pair_flags("-W"@, l.warn) + pair_flags(
        "-D"@,
        l.deny,
    ) + pair_flags("-A"@, l.allow)
}

/// In the combined list, the three flag categories stand in adjacent
/// blocks after the separator: all warn flags first, then all deny flags,
/// then all allow flags.
pub proof fn lemma_category_precedence(l: LintsView, passthrough: Seq<Seq<char>>)
    ensures
        spec_tool_args(l, passthrough).len() == 2 + passthrough.len() as int + 2 * (
        l.warn.len() as int) + 2 * (l.deny.len() as int) + 2 * (l.allow.len() as int),
        spec_tool_args(l, passthrough).subrange(
            2 + passthrough.len() as int,
            2 + passthrough.len() as int + 2 * (l.warn.len() as int),
        ) == pair_flags("-W"@, l.warn),
        spec_tool_args(l, passthrough).subrange(
            2 + passthrough.len() as int + 2 * (l.warn.len() as int),
            2 + passthrough.len() as int + 2 * (l.warn.len() as int) + 2 * (l.deny.len() as int),
        ) == pair_flags("-D"@, l.deny),
        spec_tool_args(l, passthrough).subrange(
            2 + passthrough.len() as int + 2 * (l.warn.len() as int) + 2 * (l.deny.len() as int),
            spec_tool_args(l, passthrough).len() as int,
        ) == pair_flags("-A"@, l.allow),
{
    assert(spec_tool_args(l, passthrough).subrange(
        2 + passthrough.len() as int,
        2 + passthrough.len() as int + 2 * (l.warn.len() as int),
    ) =~= pair_flags("-W"@, l.warn));
    assert(spec_tool_args(l, passthrough).subrange(
        2 + passthrough.len() as int + 2 * (l.warn.len() as int),
        2 + passthrough.len() as int + 2 * (l.warn.len() as int) + 2 * (l.deny.len() as int),
    ) =~= pair_flags("-D"@, l.deny));
    assert(spec_tool_args(l, passthrough).subrange(
        2 + passthrough.len() as int + 2 * (l.warn.len() as int) + 2 * (l.deny.len() as int),
        spec_tool_args(l, passthrough).len() as int,
    ) =~= pair_flags("-A"@, l.allow));
}

impl Lints {
    /// Constructs the argument list for the delegated `cargo` run: the
    /// `clippy` subcommand, the passthrough arguments, `--`, then the warn,
    /// deny and allow flags in that order.
    pub fn clippy_args(&self, passthrough: &Vec<String>) -> (r: Vec<String>)
        ensures
            r.deep_view() == spec_tool_args(self@, passthrough.deep_view()),
    {
        let mut r: Vec<String> = Vec::new();
        r.push("clippy".to_owned());
        proof {
            assert(r.deep_view() =~= seq!["clippy"@]);
        }
        append_all(&mut r, passthrough);
        let ghost with_passthrough = r.deep_view();
        r.push("--".to_owned());
        proof {
            assert(r.deep_view() =~= with_passthrough.push("--"@));
        }
        let warn = self.warn_flags();
        append_all(&mut r, &warn);
        let deny = self.deny_flags();
        append_all(&mut r, &deny);
        let allow = self.allow_flags();
        append_all(&mut r, &allow);
        proof {
            assert(r.deep_view() =~= spec_tool_args(self@, passthrough.deep_view()));
        }
        r
    }
}

/// Translates the external tool's exit into the run's own outcome: success
/// exactly when the tool reported success, and otherwise a failure that
/// carries the tool's own status code.
pub fn tool_outcome(success: bool, status: Option<i32>) -> (r: Result<(), LintError>)
    ensures
        r is Ok <==> success,
        !success ==> r == Err::<(), LintError>(LintError::ToolNonZeroExit { status }),
{
    if success {
        Ok(())
    } else {
        Err(LintError::ToolNonZeroExit { status })
    }
}

} // verus!
