//! The minimal flag set of the renderer.
use vstd::prelude::*;
use crate::text::str_eq;

verus! {

/// The renderer's flags.
#[derive(Debug, Clone, Copy, PartialEq, Eq, Structural)]
pub struct Config {
    pub windowed: bool,
}

/// Whether some argument after the program name equals `flag`.
pub open spec fn has_flag(args: Seq<String>, flag: Seq<char>) -> bool {
    exists|i: int| 1 <= i < args.len() && (#[trigger] args[i])@ == flag
}

impl Config {
    /// Reads the flags from `args`, the first of which is the program name:
    /// `None` when help is asked for, else the configuration, windowed when
    /// `--windowed` is given. Other arguments are ignored.
    pub fn from_args(args: &Vec<String>) -> (r: Option<Config>)
        requires
            args@.len() >= 1,
        ensures
            r is None <==> has_flag(args@, "--help"@),
            r matches Some(c) ==> c.windowed == has_flag(args@, "--windowed"@),
    {
        let mut windowed = false;
        let mut i: usize = 1;
        while i < args.len()
            invariant
                1 <= i <= args@.len(),
                forall|j: int| 1 <= j < i ==> (#[trigger] args@[j])@ != "--help"@,
                windowed == exists|j: int| 1 <= j < i && (#[trigger] args@[j])@ == "--windowed"@,
            decreases args@.len() - i,
        {
            if str_eq(args[i].as_str(), "--help") {
                return None;
            }
            if str_eq(args[i].as_str(), "--windowed") {
                windowed = true;
            }
            i += 1;
        }
        Some(Config { windowed })
    }
}

} // verus!
