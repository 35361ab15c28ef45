//! LaTeX escaping of strings.
//!
//! `escape_tex_string` puts a backslash before each of the LaTeX
//! metacharacters `& % $ # _ { }`; `unescape_tex_string` is the inverse
//! transform. Both work on characters, so multibyte text passes through
//! untouched.

use vstd::prelude::*;

verus! {

/// The LaTeX metacharacters that escaping prefixes with a backslash.
pub open spec fn is_tex_special(c: char) -> bool {
    c == '&' || c == '%' || c == '$' || c == '#' || c == '_' || c == '{' || c == '}'
}

/// The escaped form of one character: specials gain a leading backslash,
/// every other character stands alone.
pub open spec fn escaped_char(c: char) -> Seq<char> {
    if is_tex_special(c) {
        seq!['\\', c]
    } else {
        seq![c]
    }
}

/// The escaped form of a whole string.
pub open spec fn escape_tex_chars(s: Seq<char>) -> Seq<char>
    decreases s.len(),
{
    if s.len() == 0 {
        Seq::empty()
    } else {
        escaped_char(s[0]) + escape_tex_chars(s.drop_first())
    }
}

/// The unescaped form: a backslash followed by a metacharacter collapses to
/// the metacharacter alone; everything else is kept as it is.
pub open spec fn unescape_tex_chars(s: Seq<char>) -> Seq<char>
    decreases s.len(),
{
    if s.len() == 0 {
        Seq::empty()
    } else if s.len() >= 2 && s[0] == '\\' && is_tex_special(s[1]) {
        seq![s[1]] + unescape_tex_chars(s.skip(2))
    } else {
        seq![s[0]] + unescape_tex_chars(s.drop_first())
    }
}

/// Whether `c` is one of the LaTeX metacharacters, decided at run time.
pub fn tex_special(c: char) -> (r: bool)
    ensures
        r == is_tex_special(c),
{
    c == '&' || c == '%' || c == '$' || c == '#' || c == '_' || c == '{' || c == '}'
}

/// Escaping distributes over appending one character at the end.
proof fn lemma_escape_push(s: Seq<char>, c: char)
    ensures
        escape_tex_chars(s.push(c)) == escape_tex_chars(s) + escaped_char(c),
    decreases s.len(),
{
    if s.len() == 0 {
        assert(s.push(c)[0] == c);
        assert(s.push(c).drop_first() =~= Seq::<char>::empty());
        assert(escape_tex_chars(s.push(c)) == escaped_char(c) + escape_tex_chars(
            Seq::<char>::empty(),
        ));
        assert(escape_tex_chars(s.push(c)) =~= escaped_char(c));
        assert(escape_tex_chars(s) + escaped_char(c) =~= escaped_char(c));
    } else {
        assert(s.push(c).drop_first() =~= s.drop_first().push(c));
        lemma_escape_push(s.drop_first(), c);
        assert(escape_tex_chars(s.push(c)) =~= escape_tex_chars(s) + escaped_char(c));
    }
}

/// Replaces each occurrence of one of `& % $ # _ { }` with the same
/// character preceded by a backslash.
pub fn escape_tex_string(string: &str) -> (r: String)
    ensures
        r@ == escape_tex_chars(string@),
{
    let n = string.unicode_len();
    let mut r = String::new();
    let mut i: usize = 0;
    proof {
        assert(string@.subrange(0, 0) =~= Seq::<char>::empty());
    }
    while i < n
        invariant
            n == string@.len(),
            0 <= i <= n,
            r@ == escape_tex_chars(string@.subrange(0, i as int)),
        decreases n - i,
    {
        let ghost r0 = r@;
        let c = string.get_char(i);
        if tex_special(c) {
            r.push('\\');
        }
        r.push(c);
        proof {
            assert(r@ =~= r0 + escaped_char(c));
            lemma_escape_push(string@.subrange(0, i as int), c);
            assert(string@.subrange(0, i + 1) =~= string@.subrange(0, i as int).push(c));
        }
        i += 1;
    }
    proof {
        assert(string@.subrange(0, n as int) =~= string@);
    }
    r
}

/// The inverse transform of [`escape_tex_string`].
pub fn unescape_tex_string(string: &str) -> (r: String)
    ensures
        r@ == unescape_tex_chars(string@),
{
    let n = string.unicode_len();
    let mut r = String::new();
    let mut i: usize = 0;
    proof {
        assert(string@.skip(0) =~= string@);
        assert(Seq::<char>::empty() + unescape_tex_chars(string@) =~= unescape_tex_chars(
            string@,
        ));
    }
    while i < n
        invariant
            n == string@.len(),
            0 <= i <= n,
            unescape_tex_chars(string@) == r@ + unescape_tex_chars(string@.skip(i as int)),
        decreases n - i,
    {
        let ghost r0 = r@;
        let ghost rest = string@.skip(i as int);
        let c = string.get_char(i);
        if c == '\\' && i + 1 < n {
            let c2 = string.get_char(i + 1);
            if tex_special(c2) {
                r.push(c2);
                proof {
                    assert(rest.len() >= 2);
                    assert(rest[0] == '\\' && is_tex_special(rest[1]));
                    assert(rest.skip(2) =~= string@.skip(i + 2));
                    assert(unescape_tex_chars(rest) == seq![rest[1]] + unescape_tex_chars(
                        rest.skip(2),
                    ));
                    assert(r0 + unescape_tex_chars(rest) =~= r@ + unescape_tex_chars(
                        string@.skip(i + 2),
                    ));
                }
                i += 2;
                continue ;
            }
        }
        r.push(c);
        proof {
            assert(!(rest.len() >= 2 && rest[0] == '\\' && is_tex_special(rest[1])));
            assert(rest.drop_first() =~= string@.skip(i + 1));
            assert(unescape_tex_chars(rest) == seq![rest[0]] + unescape_tex_chars(
                rest.drop_first(),
            ));
            assert(r0 + unescape_tex_chars(rest) =~= r@ + unescape_tex_chars(
                string@.skip(i + 1),
            ));
        }
        i += 1;
    }
    proof {
        assert(string@.skip(n as int) =~= Seq::<char>::empty());
        assert(r@ + Seq::<char>::empty() =~= r@);
    }
    r
}

/// The first character that escaping produces is never a metacharacter.
proof fn lemma_escape_head_not_special(s: Seq<char>)
    requires
        escape_tex_chars(s).len() > 0,
    ensures
        !is_tex_special(escape_tex_chars(s)[0]),
{
    if s.len() == 0 {
    } else {
        assert(escape_tex_chars(s) == escaped_char(s[0]) + escape_tex_chars(s.drop_first()));
        if is_tex_special(s[0]) {
            assert(escape_tex_chars(s)[0] == '\\');
        } else {
            assert(escape_tex_chars(s)[0] == s[0]);
        }
    }
}

/// Unescaping undoes escaping: for every string `s`,
/// `unescape_tex_chars(escape_tex_chars(s)) == s`. This is the law behind
/// the round trip of `unescape_tex_string` after `escape_tex_string`.
pub proof fn lemma_unescape_escape(s: Seq<char>)
    ensures
        unescape_tex_chars(escape_tex_chars(s)) == s,
    decreases s.len(),
{
    if s.len() == 0 {
    } else {
        let rest = s.drop_first();
        lemma_unescape_escape(rest);
        let e = escape_tex_chars(s);
        if is_tex_special(s[0]) {
            assert(e =~= seq!['\\', s[0]] + escape_tex_chars(rest));
            assert(e.len() >= 2 && e[0] == '\\' && is_tex_special(e[1]));
            assert(e.skip(2) =~= escape_tex_chars(rest));
            assert(unescape_tex_chars(e) == seq![e[1]] + unescape_tex_chars(e.skip(2)));
            assert(unescape_tex_chars(e) =~= seq![s[0]] + rest);
            assert(seq![s[0]] + rest =~= s);
        } else {
            assert(e =~= seq![s[0]] + escape_tex_chars(rest));
            if e.len() >= 2 && e[0] == '\\' && is_tex_special(e[1]) {
                assert(e[1] == escape_tex_chars(rest)[0]);
                lemma_escape_head_not_special(rest);
                assert(false);
            }
            assert(e.drop_first() =~= escape_tex_chars(rest));
            assert(unescape_tex_chars(e) == seq![e[0]] + unescape_tex_chars(e.drop_first()));
            assert(unescape_tex_chars(e) =~= seq![s[0]] + rest);
            assert(seq![s[0]] + rest =~= s);
        }
    }
}

/// A string without any of `& % $ # _ { }` is left unchanged by escaping.
pub proof fn lemma_escape_leaves_plain_strings(s: Seq<char>)
    requires
        forall|i: int| 0 <= i < s.len() ==> !is_tex_special(s[i]),
    ensures
        escape_tex_chars(s) == s,
    decreases s.len(),
{
    if s.len() == 0 {
        assert(escape_tex_chars(s) =~= s);
    } else {
        assert(forall|i: int| 0 <= i < s.drop_first().len() ==> !is_tex_special(
            s.drop_first()[i],
        ));
        lemma_escape_leaves_plain_strings(s.drop_first());
        assert(escape_tex_chars(s) =~= seq![s[0]] + s.drop_first());
        assert(seq![s[0]] + s.drop_first() =~= s);
    }
}

} // verus!
