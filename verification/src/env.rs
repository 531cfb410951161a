//! Resolution of the application environment.
//!
//! The environment is a free-form string. It is taken verbatim from the
//! value of the `APP_ENV` process variable when one is present; otherwise it
//! falls back to a constant fixed by the build mode: `"development"` for a
//! debug build, `"production"` otherwise. Reading the process environment is
//! I/O and stays with the caller; the functions here take the raw reading
//! and the build mode as plain values.

use vstd::prelude::*;

use crate::text::str_eq;

verus! {

/// The environment a build falls back to when the variable is unset.
pub open spec fn fallback_env(debug_build: bool) -> Seq<char> {
    if debug_build {
        "development"@
    } else {
        "production"@
    }
}

/// What the environment resolves to: the raw variable value verbatim when
/// one is present, the build fallback otherwise.
pub open spec fn resolved_env(raw: Option<Seq<char>>, debug_build: bool) -> Seq<char> {
    match raw {
        Option::Some(v) => v,
        Option::None => fallback_env(debug_build),
    }
}

/// Resolves the application environment from the raw `APP_ENV` reading
/// (`None` when the variable is unset) and the build mode.
pub fn app_env(raw: Option<String>, debug_build: bool) -> (r: String)
    ensures
        r@ == resolved_env(raw.deep_view(), debug_build),
{
    match raw {
        Option::Some(v) => v,
        Option::None => {
            if debug_build {
                "development".to_owned()
            } else {
                "production".to_owned()
            }
        },
    }
}

/// True exactly when the environment resolves to `"development"`.
pub fn is_development(raw: Option<String>, debug_build: bool) -> (r: bool)
    ensures
        r == (resolved_env(raw.deep_view(), debug_build) == "development"@),
{
    let e = app_env(raw, debug_build);
    str_eq(e.as_str(), "development")
}

/// True exactly when the environment resolves to `"production"`.
pub fn is_production(raw: Option<String>, debug_build: bool) -> (r: bool)
    ensures
        r == (resolved_env(raw.deep_view(), debug_build) == "production"@),
{
    let e = app_env(raw, debug_build);
    str_eq(e.as_str(), "production")
}

/// A present variable value is returned verbatim, whatever the build mode:
/// no trimming, no case change.
pub proof fn lemma_set_env_verbatim(v: Seq<char>, debug_build: bool)
    ensures
        resolved_env(Some(v), debug_build) == v,
{
}

/// With the variable unset, resolution yields the build fallback, and that
/// fallback is `"development"` or `"production"` — so exactly one of the two
/// predicates holds of it.
pub proof fn lemma_unset_resolves_to_fallback(debug_build: bool)
    ensures
        resolved_env(None, debug_build) == fallback_env(debug_build),
        (resolved_env(None, debug_build) == "development"@) != (resolved_env(None, debug_build)
            == "production"@),
{
    reveal_strlit("development");
    reveal_strlit("production");
    assert("development"@.len() != "production"@.len());
}

} // verus!
