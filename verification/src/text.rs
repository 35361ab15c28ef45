//! Small string utilities shared by the rest of the crate.

use vstd::prelude::*;

verus! {

/// Relies on `String::push` from std: appends the given `char` to the end of
/// the string, as its documentation states.
pub assume_specification[ std::string::String::push ](s: &mut String, c: char)
    ensures
        final(s)@ == old(s)@.push(c),
;

/// True when `inner` occurs in `s` starting at position `at`.
pub open spec fn occurs_at(s: Seq<char>, inner: Seq<char>, at: int) -> bool {
    &&& 0 <= at
    &&& at + inner.len() <= s.len()
    &&& s.subrange(at, at + inner.len() as int) == inner
}

/// Merges the standard output and standard error of a process into one
/// text, a newline between them.
pub fn whole_output(stdout: &str, stderr: &str) -> (r: String)
    ensures
        r@ == stdout@ + seq!['\n'] + stderr@,
{
    let mut r = String::from_str(stdout);
    r.push('\n');
    r.append(stderr);
    r
}

/// Copies the characters `[from, to)` of `s` into a fresh `String`.
pub fn copy_range(s: &str, from: usize, to: usize) -> (r: String)
    requires
        from <= to <= s@.len(),
    ensures
        r@ == s@.subrange(from as int, to as int),
{
    let piece = s.substring_char(from, to);
    String::from_str(piece)
}

} // verus!
