//! Validation of custom-function references.  A reference is a plain path:
//! one or more identifiers separated by `::`.  An unresolvable reference is
//! a generation-time error, never deferred to rendering time.

use vstd::prelude::*;

verus! {

/// Characters that may start an identifier segment.
pub open spec fn is_ident_start_char(c: char) -> bool {
    c == '_' || ('a' as u32) <= (c as u32) && (c as u32) <= ('z' as u32) || ('A' as u32) <= (
    c as u32) && (c as u32) <= ('Z' as u32)
}

/// Characters that may continue an identifier segment.
pub open spec fn is_ident_continue_char(c: char) -> bool {
    is_ident_start_char(c) || ('0' as u32) <= (c as u32) && (c as u32) <= ('9' as u32)
}

/// One step of the path recognizer.  States: 0 expects the start of a
/// segment, 1 is inside a segment, 2 has seen the first of a `::` pair,
/// 3 is the reject state.
pub open spec fn path_step(state: int, c: char) -> int {
    if state == 0 {
        if is_ident_start_char(c) {
            1
        } else {
            3
        }
    } else if state == 1 {
        if is_ident_continue_char(c) {
            1
        } else if c == ':' {
            2
        } else {
            3
        }
    } else if state == 2 {
        if c == ':' {
            0
        } else {
            3
        }
    } else {
        3
    }
}

/// The recognizer state after reading the first `n` characters of `s`.
pub open spec fn path_state(s: Seq<char>, n: int) -> int
    decreases n,
{
    if n <= 0 {
        0
    } else {
        path_step(path_state(s, n - 1), s[n - 1])
    }
}

/// A well-formed function reference: identifiers separated by `::`,
/// accepted exactly when the recognizer ends inside a segment.
pub open spec fn valid_path(s: Seq<char>) -> bool {
    path_state(s, s.len() as int) == 1
}

/// Exec mirror of `is_ident_start_char`.
fn ident_start_char(c: char) -> (b: bool)
    ensures
        b == is_ident_start_char(c),
{
    let u = c as u32;
    c == '_' || ('a' as u32) <= u && u <= ('z' as u32) || ('A' as u32) <= u && u <= ('Z' as u32)
}

/// Exec mirror of `is_ident_continue_char`.
fn ident_continue_char(c: char) -> (b: bool)
    ensures
        b == is_ident_continue_char(c),
{
    let u = c as u32;
    ident_start_char(c) || ('0' as u32) <= u && u <= ('9' as u32)
}

/// Exec mirror of `path_step`.
fn path_step_exec(state: u8, c: char) -> (r: u8)
    requires
        state <= 3,
    ensures
        r as int == path_step(state as int, c),
        r <= 3,
{
    if state == 0 {
        if ident_start_char(c) {
            1
        } else {
            3
        }
    } else if state == 1 {
        if ident_continue_char(c) {
            1
        } else if c == ':' {
            2
        } else {
            3
        }
    } else if state == 2 {
        if c == ':' {
            0
        } else {
            3
        }
    } else {
        3
    }
}

/// Decides whether `s` is a well-formed function reference.
pub fn check_path(s: &str) -> (b: bool)
    ensures
        b == valid_path(s@),
{
    let n = s.unicode_len();
    let mut state: u8 = 0;
    let mut i: usize = 0;
    while i < n
        invariant
            i <= n,
            n == s@.len(),
            state <= 3,
            state as int == path_state(s@, i as int),
        decreases n - i,
    {
        let c = s.get_char(i);
        state = path_step_exec(state, c);
        i = i + 1;
    }
    state == 1
}

} // verus!
