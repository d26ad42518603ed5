//! The built-in hooks and the prefix that marks a custom hook.

use vstd::prelude::*;
use crate::text::starts_with;
use crate::text::str_eq;

verus! {

/// The names of React's built-in hooks.
pub const DEFAULT_HOOKS: [&'static str; 14] = [
    "useState",
    "useEffect",
    "useContext",
    "useReducer",
    "useCallback",
    "useMemo",
    "useRef",
    "useImperativeHandle",
    "useLayoutEffect",
    "useDebugValue",
    "useTransition",
    "useDeferredValue",
    "useId",
    "useSyncExternalStore",
];

/// What the exported name of a custom hook starts with.
pub const HOOK_PREFIX: &'static str = "use";

/// The built-in hooks as character sequences, in the order of `DEFAULT_HOOKS`.
pub open spec fn default_hooks() -> Seq<Seq<char>> {
    Seq::new(14, |i: int| DEFAULT_HOOKS[i]@)
}

/// Whether `name` is one of the built-in hooks.
pub fn is_default_hook(name: &str) -> (known: bool)
    ensures
        known == default_hooks().contains(name@),
{
    let mut i: usize = 0;
    while i < 14
        invariant
            i <= 14,
            forall|j: int| 0 <= j < i ==> default_hooks()[j] != name@,
        decreases 14 - i,
    {
        if str_eq(DEFAULT_HOOKS[i], name) {
            assert(default_hooks()[i as int] == name@);
            return true;
        }
        i += 1;
    }
    false
}

/// Whether `name` starts with the prefix of a custom hook.
pub open spec fn carries_hook_prefix(name: Seq<char>) -> bool {
    HOOK_PREFIX@.is_prefix_of(name)
}

/// Whether `name` starts with the prefix of a custom hook.
pub fn has_hook_prefix(name: &str) -> (found: bool)
    ensures
        found == carries_hook_prefix(name@),
{
    starts_with(name, HOOK_PREFIX)
}

/// No built-in hook is listed twice, and each carries the hook prefix.
pub proof fn lemma_default_hooks_are_distinct_and_prefixed()
    ensures
        default_hooks().no_duplicates(),
        forall|i: int| 0 <= i < 14 ==> carries_hook_prefix(#[trigger] default_hooks()[i]),
{
    reveal_strlit("use");
    reveal_strlit("useState");
    reveal_strlit("useEffect");
    reveal_strlit("useContext");
    reveal_strlit("useReducer");
    reveal_strlit("useCallback");
    reveal_strlit("useMemo");
    reveal_strlit("useRef");
    reveal_strlit("useImperativeHandle");
    reveal_strlit("useLayoutEffect");
    reveal_strlit("useDebugValue");
    reveal_strlit("useTransition");
    reveal_strlit("useDeferredValue");
    reveal_strlit("useId");
    reveal_strlit("useSyncExternalStore");
    let hooks = default_hooks();
    assert forall|i: int| 0 <= i < 14 implies carries_hook_prefix(#[trigger] hooks[i]) by {
        assert(hooks[i].subrange(0, 3) =~= HOOK_PREFIX@);
    }
    assert forall|i: int, j: int| 0 <= i < 14 && 0 <= j < 14 && i != j implies hooks[i]
        != hooks[j] by {
        if hooks[i].len() == hooks[j].len() {
            assert(hooks[i][3] != hooks[j][3] || hooks[i][4] != hooks[j][4]);
        }
    }
}

} // verus!
