//! Command-line configuration of the program.

use vstd::prelude::*;
use vstd::string::StrSliceExecFns;

verus! {

/// Whether the program runs with its debugging aids switched on.
pub struct Debug(pub bool);

/// What the command line asked for.
pub struct ProgramConfig {
    pub debug: bool,
}

/// The two spellings of the debug switch.
pub open spec fn is_debug_flag(arg: Seq<char>) -> bool {
    arg == "-d"@ || arg == "--debug"@
}

/// Every argument is a debug switch.
pub open spec fn all_debug_flags(args: Seq<String>) -> bool {
    forall|i: int| 0 <= i < args.len() ==> is_debug_flag(#[trigger] args[i]@)
}

/// Compares two strings character by character.
fn same_text(a: &str, b: &str) -> (same: bool)
    ensures
        same == (a@ == b@),
{
    let n = a.unicode_len();
    if n != b.unicode_len() {
        return false;
    }
    let mut i: usize = 0;
    while i < n
        invariant
            i <= n,
            n == a@.len(),
            n == b@.len(),
            forall|k: int| 0 <= k < i ==> a@[k] == b@[k],
        decreases n - i,
    {
        if a.get_char(i) != b.get_char(i) {
            return false;
        }
        i += 1;
    }
    assert(a@ =~= b@);
    true
}

impl ProgramConfig {
    /// Reads the arguments that follow the program's name.
    ///
    /// The debug switch may be given any number of times, in either spelling.
    /// Anything else is refused, whatever stands before or after it.
    pub fn build(args: &[String]) -> (built: Result<ProgramConfig, &'static str>)
        ensures
            all_debug_flags(args@) ==> built == Ok::<ProgramConfig, &'static str>(
                ProgramConfig { debug: args@.len() > 0 },
            ),
            !all_debug_flags(args@) ==> built is Err && built->Err_0@ == "unknown argument"@,
    {
        let mut cfg = ProgramConfig { debug: false };
        let mut i: usize = 0;
        while i < args.len()
            invariant
                i <= args@.len(),
                forall|k: int| 0 <= k < i ==> is_debug_flag(#[trigger] args@[k]@),
                cfg.debug == (i > 0),
            decreases args@.len() - i,
        {
            let arg = args[i].as_str();
            if same_text(arg, "-d") || same_text(arg, "--debug") {
                cfg.debug = true;
            } else {
                assert(!is_debug_flag(args@[i as int]@));
                return Err("unknown argument");
            }
            i += 1;
        }
        Ok(cfg)
    }
}

} // verus!
