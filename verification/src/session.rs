//! A model of how an evaluating PowerShell session is changed by the text
//! this crate emits.
//!
//! The generated scripts act on state that lives in the external shell
//! process — its environment, its function namespace, and the guard variables
//! the activation text itself sets. This module states that effect, clause by
//! clause after the emitted text (see `crate::shell`), as spec functions on a
//! [`Session`], and proves the laws the text is written to uphold: a set line
//! binds exactly the original value (the escaping round-trips), an unset line
//! leaves the variable absent whatever it held, repeated prepend lines build
//! a newest-first separator-joined value, re-evaluating the activation script
//! never registers a hook twice, and the deactivation script is safe in a
//! session that was never activated.

use vstd::prelude::*;

use crate::escape::escape_seq;
use crate::escape::lemma_unescape_escape;
use crate::escape::unescape_seq;

verus! {

/// The session state the emitted text reads and writes: the environment,
/// whether the wrapper and hook functions are defined, and — for each of the
/// two hook triggers — the guard variable and how many times the hook has
/// been registered on that trigger.
pub ghost struct Session {
    pub env: Map<Seq<char>, Seq<char>>,
    pub wrapper_defined: bool,
    pub hook_defined: bool,
    pub chpwd_hooked: bool,
    pub chpwd_registrations: nat,
    pub prompt_hooked: bool,
    pub prompt_registrations: nat,
}

/// What `$env:k` evaluates to: the stored value, or the empty string when the
/// variable is absent (PowerShell yields `$null`, which string concatenation
/// treats as empty).
pub open spec fn env_lookup(env: Map<Seq<char>, Seq<char>>, k: Seq<char>) -> Seq<char> {
    if env.dom().contains(k) {
        env[k]
    } else {
        Seq::empty()
    }
}

/// The effect of evaluating `set_env_text(k, v)`: the shell binds `k` to the
/// value of the single-quoted literal, which is the unescaping of the escaped
/// `v` embedded there.
pub open spec fn eval_set_line(env: Map<Seq<char>, Seq<char>>, k: Seq<char>, v: Seq<char>) -> Map<
    Seq<char>,
    Seq<char>,
> {
    env.insert(k, unescape_seq(escape_seq(v)))
}

/// The effect of evaluating `prepend_env_text(k, v)` with platform path
/// separator `sep`: the shell binds `k` to the quoted literal's value, the
/// separator, then whatever `k` evaluates to at that moment.
pub open spec fn eval_prepend_line(
    env: Map<Seq<char>, Seq<char>>,
    k: Seq<char>,
    v: Seq<char>,
    sep: char,
) -> Map<Seq<char>, Seq<char>> {
    env.insert(k, unescape_seq(escape_seq(v)) + seq![sep] + env_lookup(env, k))
}

/// The effect of evaluating `unset_env_text(k)`: the variable is removed from
/// the environment entirely.
pub open spec fn eval_unset_line(env: Map<Seq<char>, Seq<char>>, k: Seq<char>) -> Map<
    Seq<char>,
    Seq<char>,
> {
    env.remove(k)
}

/// The effect of evaluating `activate_script(exe, flags, no_hook_env)` on the
/// session state it touches: the session marker and `PATH` snapshot are set
/// and the wrapper defined; then, unless hook installation is suppressed, the
/// hook function is defined and registered on each trigger whose guard
/// variable is still clear, setting the guard alongside. The environment
/// changes of the immediate hook invocation come from the external
/// environment-diff engine and are outside this model.
pub open spec fn eval_activate(s: Session, no_hook_env: bool) -> Session {
    let marked = Session {
        env: s.env.insert("MISE_SHELL"@, "pwsh"@).insert(
            "__MISE_ORIG_PATH"@,
            env_lookup(s.env, "PATH"@),
        ),
        wrapper_defined: true,
        ..s
    };
    if no_hook_env {
        marked
    } else {
        let hooked = Session { hook_defined: true, ..marked };
        let chpwd = if !hooked.chpwd_hooked {
            Session {
                chpwd_hooked: true,
                chpwd_registrations: hooked.chpwd_registrations + 1,
                ..hooked
            }
        } else {
            hooked
        };
        if !chpwd.prompt_hooked {
            Session {
                prompt_hooked: true,
                prompt_registrations: chpwd.prompt_registrations + 1,
                ..chpwd
            }
        } else {
            chpwd
        }
    }
}

/// The effect of evaluating `deactivate_text()`: the wrapper and hook
/// functions are removed, each trigger whose guard variable is set has the
/// previously chained handler restored and its guard cleared, and the
/// tool-owned variables are removed. Every step is conditional or silenced,
/// so evaluation succeeds on any session state.
pub open spec fn eval_deactivate(s: Session) -> Session {
    let cleared = Session { wrapper_defined: false, hook_defined: false, ..s };
    let chpwd = if cleared.chpwd_hooked {
        Session {
            chpwd_hooked: false,
            chpwd_registrations: (cleared.chpwd_registrations - 1) as nat,
            ..cleared
        }
    } else {
        cleared
    };
    let prompt = if chpwd.prompt_hooked {
        Session {
            prompt_hooked: false,
            prompt_registrations: (chpwd.prompt_registrations - 1) as nat,
            ..chpwd
        }
    } else {
        chpwd
    };
    Session {
        env: prompt.env.remove("MISE_SHELL"@).remove("__MISE_WATCH"@).remove("__MISE_DIFF"@),
        ..prompt
    }
}

/// A session never touched by the activation script: no wrapper, no hook, no
/// guard set, no registration made.
pub open spec fn never_activated(s: Session) -> bool {
    &&& !s.wrapper_defined
    &&& !s.hook_defined
    &&& !s.chpwd_hooked
    &&& s.chpwd_registrations == 0
    &&& !s.prompt_hooked
    &&& s.prompt_registrations == 0
}

/// The invariant the guard variables keep: a hook is registered on a trigger
/// exactly once while its guard is set, and not at all while it is clear.
pub open spec fn session_inv(s: Session) -> bool {
    &&& s.chpwd_registrations == (if s.chpwd_hooked {
        1nat
    } else {
        0nat
    })
    &&& s.prompt_registrations == (if s.prompt_hooked {
        1nat
    } else {
        0nat
    })
}

/// Evaluating a set line binds the variable to exactly the original value:
/// the escaping discipline round-trips at the point of use.
pub proof fn lemma_set_line_exact(env: Map<Seq<char>, Seq<char>>, k: Seq<char>, v: Seq<char>)
    ensures
        eval_set_line(env, k, v) == env.insert(k, v),
{
    lemma_unescape_escape(v);
}

/// Evaluating an unset line leaves the variable absent — never holding its
/// prior value — and no other variable is disturbed.
pub proof fn lemma_unset_line_absent(env: Map<Seq<char>, Seq<char>>, k: Seq<char>)
    ensures
        !eval_unset_line(env, k).dom().contains(k),
        forall|k2: Seq<char>|
            k2 != k ==> eval_unset_line(env, k).dom().contains(k2) == env.dom().contains(k2),
        forall|k2: Seq<char>|
            k2 != k && env.dom().contains(k2) ==> eval_unset_line(env, k)[k2] == env[k2],
{
}

/// Evaluating two prepend lines yields the newest value first, separator-
/// joined, in front of whatever the variable held before — entries already
/// present are kept, none is duplicated or dropped.
pub proof fn lemma_prepend_lines_order(
    env: Map<Seq<char>, Seq<char>>,
    k: Seq<char>,
    v1: Seq<char>,
    v2: Seq<char>,
    sep: char,
)
    ensures
        ({
            let once = eval_prepend_line(env, k, v1, sep);
            let twice = eval_prepend_line(once, k, v2, sep);
            &&& twice.dom().contains(k)
            &&& twice[k] == v2 + seq![sep] + v1 + seq![sep] + env_lookup(env, k)
            &&& twice.dom() == env.dom().insert(k)
        }),
{
    lemma_unescape_escape(v1);
    lemma_unescape_escape(v2);
    let once = eval_prepend_line(env, k, v1, sep);
    let twice = eval_prepend_line(once, k, v2, sep);
    assert(twice[k] =~= v2 + seq![sep] + v1 + seq![sep] + env_lookup(env, k));
    assert(twice.dom() =~= env.dom().insert(k));
}

/// Evaluating the activation script a second time in the same session
/// registers no further hook on either trigger: the guard variables set by
/// the first evaluation are checked by the second.
pub proof fn lemma_activate_registers_once(s: Session, no_hook_env: bool)
    ensures
        ({
            let first = eval_activate(s, no_hook_env);
            let second = eval_activate(first, no_hook_env);
            &&& second.chpwd_registrations == first.chpwd_registrations
            &&& second.prompt_registrations == first.prompt_registrations
        }),
{
}

/// The guard invariant holds of a fresh session and is preserved by
/// activation and deactivation, so a hook is never registered twice on a
/// trigger no matter how the two scripts are interleaved.
pub proof fn lemma_session_inv_preserved(s: Session, no_hook_env: bool)
    requires
        session_inv(s),
    ensures
        session_inv(eval_activate(s, no_hook_env)),
        session_inv(eval_deactivate(s)),
        eval_activate(s, no_hook_env).chpwd_registrations <= 1,
        eval_activate(s, no_hook_env).prompt_registrations <= 1,
{
}

/// A never-activated session satisfies the guard invariant.
pub proof fn lemma_never_activated_inv(s: Session)
    requires
        never_activated(s),
    ensures
        session_inv(s),
{
}

/// Evaluating the deactivation script in a session where activation never
/// ran raises no error and installs nothing: each removal finds its guard
/// clear or its target absent, and the only effect is the best-effort removal
/// of the tool-owned variables.
pub proof fn lemma_deactivate_fresh(s: Session)
    requires
        never_activated(s),
    ensures
        never_activated(eval_deactivate(s)),
        eval_deactivate(s).env == s.env.remove("MISE_SHELL"@).remove("__MISE_WATCH"@).remove(
            "__MISE_DIFF"@,
        ),
        forall|k: Seq<char>|
            k != "MISE_SHELL"@ && k != "__MISE_WATCH"@ && k != "__MISE_DIFF"@
                && s.env.dom().contains(k) ==> eval_deactivate(s).env[k] == s.env[k],
{
}

} // verus!
