//! Paths as text.
//!
//! A path is kept as a `String` and extended one component at a time with
//! the rule of Unix paths: an absolute component replaces what was there, any
//! other component is appended behind exactly one separator.

use vstd::prelude::*;
use vstd::string::*;

verus! {

/// The path separator.
pub open spec fn sep() -> Seq<char> {
    seq!['/']
}

/// Whether `component` starts at the root.
pub open spec fn is_absolute(component: Seq<char>) -> bool {
    component.len() > 0 && component[0] == '/'
}

/// Whether a separator has to be written between `base` and what follows.
pub open spec fn needs_sep(base: Seq<char>) -> bool {
    base.len() > 0 && base.last() != '/'
}

/// `base` extended by `component`.
pub open spec fn pushed(base: Seq<char>, component: Seq<char>) -> Seq<char> {
    if is_absolute(component) {
        component
    } else if needs_sep(base) {
        base + sep() + component
    } else {
        base + component
    }
}

/// Extends `base` by `component`.
pub fn push(base: String, component: &str) -> (path: String)
    ensures
        path@ == pushed(base@, component@),
{
    let comp_len = component.unicode_len();
    if comp_len > 0 && component.get_char(0) == '/' {
        return String::from_str(component);
    }
    let base_len = base.as_str().unicode_len();
    let mut path = base;
    if base_len > 0 && path.as_str().get_char(base_len - 1) != '/' {
        proof {
            reveal_strlit("/");
            assert("/"@ =~= sep());
        }
        path.append("/");
    }
    path.append(component);
    path
}

} // verus!
