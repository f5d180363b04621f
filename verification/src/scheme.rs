//! The URL-scheme prefixes that mark an argument as a deep link.

use vstd::prelude::*;
use vstd::std_specs::iter::IteratorSpec;

verus! {

/// Prefix of the application's own URL scheme.
pub const APP_SCHEME: &'static str = "heliodesk://";

/// Prefix of the generic tunnel scheme used during development.
pub const TUNNEL_SCHEME: &'static str = "tauri://";

/// An argument is a deep link when it begins, character for character, with
/// one of the recognized scheme prefixes.
pub open spec fn is_deep_link(arg: Seq<char>) -> bool {
    APP_SCHEME@.is_prefix_of(arg) || TUNNEL_SCHEME@.is_prefix_of(arg)
}

/// The recognized prefixes are disjoint: no argument carries both, so the
/// order in which they are tried never changes the answer.
pub proof fn law_schemes_disjoint(arg: Seq<char>)
    ensures
        !(APP_SCHEME@.is_prefix_of(arg) && TUNNEL_SCHEME@.is_prefix_of(arg)),
{
    reveal_strlit("heliodesk://");
    reveal_strlit("tauri://");
    if APP_SCHEME@.is_prefix_of(arg) && TUNNEL_SCHEME@.is_prefix_of(arg) {
        assert(APP_SCHEME@[0] == arg[0]);
        assert(TUNNEL_SCHEME@[0] == arg[0]);
    }
}

/// Whether `text` begins with `prefix`. The comparison is exact and
/// case-sensitive; the empty prefix matches every text.
pub fn starts_with(text: &str, prefix: &str) -> (found: bool)
    ensures
        found == prefix@.is_prefix_of(text@),
{
    let mut rest = text.chars();
    let mut wanted = prefix.chars();
    let ghost mut seen: int = 0;
    loop
        invariant
            0 <= seen <= prefix@.len(),
            seen <= text@.len(),
            wanted.remaining() == prefix@.skip(seen),
            rest.remaining() == text@.skip(seen),
            prefix@.take(seen) =~= text@.take(seen),
        decreases prefix@.len() - seen,
    {
        match wanted.next() {
            None => {
                return true;
            },
            Some(p) => match rest.next() {
                None => {
                    return false;
                },
                Some(c) => {
                    if c != p {
                        return false;
                    }
                    proof {
                        seen = seen + 1;
                    }
                },
            },
        }
    }
}

/// Whether `arg` carries one of the recognized scheme prefixes.
pub fn has_deep_link_scheme(arg: &str) -> (found: bool)
    ensures
        found == is_deep_link(arg@),
{
    starts_with(arg, APP_SCHEME) || starts_with(arg, TUNNEL_SCHEME)
}

} // verus!
