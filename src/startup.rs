//! What the command line asks for: usage help, the list of key names, a
//! refusal when no key resolves, or interception of the resolved keys.

use vstd::prelude::*;

use crate::registry::KeyRegistry;
use crate::suppression::{invalid_positions, resolved_codes, tokens_view, Resolution, SuppressionSet};

verus! {

broadcast use vstd::string::group_string_axioms;

/// The flag that asks for the list of key names.
pub const LIST_KEYS_FLAG: &'static str = "--list-keys";

/// The exit status of a run that did its work.
pub const EXIT_OK: i32 = 0;

/// The exit status of a run without usable input.
pub const EXIT_INVALID_INPUT: i32 = 1;

/// What a run of the program is to do.
pub enum Startup {
    /// No argument was given: print usage help and fail.
    Usage,
    /// Print these names, one per line, and succeed.
    ListKeys(Vec<&'static str>),
    /// No token resolved: report those at these positions and fail.
    NoValidKeys(Vec<usize>),
    /// Intercept the keys of this set; report the tokens at the invalid positions.
    Intercept(Resolution),
}

/// Some argument is the list flag.
pub open spec fn asks_for_list(args: Seq<Seq<char>>) -> bool {
    exists|i: int| 0 <= i < args.len() && #[trigger] args[i] == LIST_KEYS_FLAG@
}

impl Startup {
    /// The status with which the run ends without intercepting, if it does.
    pub fn exit_status(&self) -> (r: Option<i32>)
        ensures
            r == match self {
                Startup::Usage => Some(EXIT_INVALID_INPUT),
                Startup::ListKeys(_) => Some(EXIT_OK),
                Startup::NoValidKeys(_) => Some(EXIT_INVALID_INPUT),
                Startup::Intercept(_) => None::<i32>,
            },
    {
        match self {
            Startup::Usage => Some(EXIT_INVALID_INPUT),
            Startup::ListKeys(_) => Some(EXIT_OK),
            Startup::NoValidKeys(_) => Some(EXIT_INVALID_INPUT),
            Startup::Intercept(_) => None,
        }
    }
}

/// Whether some argument is the list flag.
pub fn has_list_flag(args: &Vec<String>) -> (r: bool)
    ensures
        r == asks_for_list(tokens_view(args@)),
{
    let flag = LIST_KEYS_FLAG.to_string();
    let ghost tv = tokens_view(args@);
    let mut i: usize = 0;
    while i < args.len()
        invariant
            i <= args@.len(),
            tv == tokens_view(args@),
            flag@ == LIST_KEYS_FLAG@,
            forall|j: int| 0 <= j < i ==> tv[j] != LIST_KEYS_FLAG@,
        decreases args@.len() - i,
    {
        if args[i] == flag {
            assert(tv[i as int] == LIST_KEYS_FLAG@);
            return true;
        }
        i = i + 1;
    }
    false
}

/// Decides what a run does with its arguments: with none, usage help; with
/// the list flag anywhere, the registry's names; otherwise the tokens are
/// resolved, and the run intercepts if at least one of them named a key.
pub fn plan(reg: &KeyRegistry, args: &Vec<String>) -> (r: Startup)
    ensures
        (r is Usage) <==> args@.len() == 0,
        args@.len() > 0 && asks_for_list(tokens_view(args@)) ==> match r {
            Startup::ListKeys(names) => names@.len() == reg@.len() && forall|i: int|
                0 <= i < names@.len() ==> #[trigger] names@[i]@ == reg@[i].0,
            _ => false,
        },
        args@.len() > 0 && !asks_for_list(tokens_view(args@)) ==> match r {
            Startup::NoValidKeys(invalid) => resolved_codes(reg@, tokens_view(args@)).is_empty()
                && invalid@.map_values(|p: usize| p as int) == invalid_positions(
                reg@,
                tokens_view(args@),
            ),
            Startup::Intercept(res) => !resolved_codes(reg@, tokens_view(args@)).is_empty()
                && res.set@ == resolved_codes(reg@, tokens_view(args@))
                && res.invalid@.map_values(|p: usize| p as int) == invalid_positions(
                reg@,
                tokens_view(args@),
            ),
            _ => false,
        },
{
    if args.len() == 0 {
        return Startup::Usage;
    }
    if has_list_flag(args) {
        return Startup::ListKeys(reg.names());
    }
    let res = SuppressionSet::build(reg, args);
    if res.set.is_empty() {
        Startup::NoValidKeys(res.invalid)
    } else {
        Startup::Intercept(res)
    }
}

} // verus!
