//! Text helpers over `String` and `str`.

use vstd::prelude::*;

verus! {

/// Whether a string holds exactly the given text.
pub fn is_text(s: &String, text: &str) -> (r: bool)
    ensures
        r == (s@ == text@),
{
    let t = String::from_str(text);
    s.eq(&t)
}

/// The characters with Unicode's `White_Space` property, which
/// `char::is_whitespace` accepts: tab to carriage return, space, NEL,
/// no-break space, Ogham space mark, the spaces U+2000 to U+200A, the line
/// and paragraph separators, narrow no-break space, medium mathematical
/// space and ideographic space.
pub open spec fn is_white_space(c: char) -> bool {
    let u = c as u32;
    ||| 0x09 <= u <= 0x0D
    ||| u == 0x20
    ||| u == 0x85
    ||| u == 0xA0
    ||| u == 0x1680
    ||| 0x2000 <= u <= 0x200A
    ||| u == 0x2028
    ||| u == 0x2029
    ||| u == 0x202F
    ||| u == 0x205F
    ||| u == 0x3000
}

/// A text without its leading white space.
pub open spec fn trimmed_start(s: Seq<char>) -> Seq<char>
    decreases s.len(),
{
    if s.len() > 0 && is_white_space(s[0]) {
        trimmed_start(s.drop_first())
    } else {
        s
    }
}

/// A text without its trailing white space.
pub open spec fn trimmed_end(s: Seq<char>) -> Seq<char>
    decreases s.len(),
{
    if s.len() > 0 && is_white_space(s.last()) {
        trimmed_end(s.drop_last())
    } else {
        s
    }
}

/// What `str::trim` leaves of a text: it drops leading and trailing
/// white space.
pub open spec fn trimmed_text(s: Seq<char>) -> Seq<char> {
    trimmed_end(trimmed_start(s))
}

/// A text made of white space only trims to nothing.
pub proof fn lemma_blank_trims_to_empty(s: Seq<char>)
    requires
        forall|i: int| 0 <= i < s.len() ==> is_white_space(#[trigger] s[i]),
    ensures
        trimmed_text(s).len() == 0,
    decreases s.len(),
{
    if s.len() > 0 {
        let rest = s.drop_first();
        assert forall|i: int| 0 <= i < rest.len() implies is_white_space(#[trigger] rest[i]) by {
            assert(rest[i] == s[i + 1]);
        }
        lemma_blank_trims_to_empty(rest);
        assert(trimmed_start(s) == trimmed_start(rest));
    } else {
        assert(trimmed_start(s) == s);
    }
}

/// What `str::to_uppercase` makes of a text, by Unicode's upper-case mapping.
pub uninterp spec fn uppercased_text(s: Seq<char>) -> Seq<char>;

/// Every character of `s` is white space.
pub open spec fn all_white_space(s: Seq<char>) -> bool {
    forall|i: int| 0 <= i < s.len() ==> is_white_space(#[trigger] s[i])
}

/// Leading white space in front of a text is dropped with the text's own.
proof fn lemma_trimmed_start_skips(p: Seq<char>, t: Seq<char>)
    requires
        all_white_space(p),
    ensures
        trimmed_start(p + t) == trimmed_start(t),
    decreases p.len(),
{
    if p.len() == 0 {
        assert(p + t =~= t);
    } else {
        assert((p + t)[0] == p[0]);
        assert((p + t).drop_first() =~= p.drop_first() + t);
        assert forall|i: int| 0 <= i < p.drop_first().len() implies is_white_space(#[trigger] p.drop_first()[i]) by {
            assert(p.drop_first()[i] == p[i + 1]);
        }
        lemma_trimmed_start_skips(p.drop_first(), t);
    }
}

/// Trailing white space after a text is dropped with the text's own.
proof fn lemma_trimmed_end_skips(t: Seq<char>, q: Seq<char>)
    requires
        all_white_space(q),
    ensures
        trimmed_end(t + q) == trimmed_end(t),
    decreases q.len(),
{
    if q.len() == 0 {
        assert(t + q =~= t);
    } else {
        assert((t + q).last() == q.last());
        assert((t + q).drop_last() =~= t + q.drop_last());
        assert forall|i: int| 0 <= i < q.drop_last().len() implies is_white_space(#[trigger] q.drop_last()[i]) by {
            assert(q.drop_last()[i] == q[i]);
        }
        lemma_trimmed_end_skips(t, q.drop_last());
    }
}

/// Dropping the leading white space of `s + q`: what is left of `s`, then
/// `q`; or, when `s` is all white space, what is left of `q`.
proof fn lemma_trimmed_start_append(s: Seq<char>, q: Seq<char>)
    ensures
        trimmed_start(s + q) == (if trimmed_start(s).len() > 0 { trimmed_start(s) + q } else { trimmed_start(q) }),
    decreases s.len(),
{
    if s.len() == 0 {
        assert(s + q =~= q);
    } else if is_white_space(s[0]) {
        assert((s + q)[0] == s[0]);
        assert((s + q).drop_first() =~= s.drop_first() + q);
        lemma_trimmed_start_append(s.drop_first(), q);
    } else {
        assert((s + q)[0] == s[0]);
    }
}

/// A text of white space only has nothing left after its leading white
/// space is dropped.
proof fn lemma_blank_start(q: Seq<char>)
    requires
        all_white_space(q),
    ensures
        trimmed_start(q).len() == 0,
    decreases q.len(),
{
    if q.len() > 0 {
        assert forall|i: int| 0 <= i < q.drop_first().len() implies is_white_space(#[trigger] q.drop_first()[i]) by {
            assert(q.drop_first()[i] == q[i + 1]);
        }
        lemma_blank_start(q.drop_first());
    }
}

/// What is left after leading white space is dropped does not start with
/// white space.
proof fn lemma_trimmed_start_head(t: Seq<char>)
    ensures
        trimmed_start(t).len() > 0 ==> !is_white_space(trimmed_start(t)[0]),
    decreases t.len(),
{
    if t.len() > 0 && is_white_space(t[0]) {
        lemma_trimmed_start_head(t.drop_first());
    }
}

/// Dropping trailing white space keeps a prefix that does not end with
/// white space.
proof fn lemma_trimmed_end_prefix(t: Seq<char>)
    ensures
        trimmed_end(t) == t.take(trimmed_end(t).len() as int),
        trimmed_end(t).len() <= t.len(),
        trimmed_end(t).len() > 0 ==> !is_white_space(trimmed_end(t).last()),
    decreases t.len(),
{
    if t.len() > 0 && is_white_space(t.last()) {
        lemma_trimmed_end_prefix(t.drop_last());
        let u = trimmed_end(t.drop_last());
        assert(t.drop_last().take(u.len() as int) =~= t.take(u.len() as int));
    } else {
        assert(t.take(t.len() as int) =~= t);
    }
}

/// White space around a text never changes what it trims to.
pub proof fn lemma_trim_ignores_surrounding_space(p: Seq<char>, s: Seq<char>, q: Seq<char>)
    requires
        all_white_space(p),
        all_white_space(q),
    ensures
        trimmed_text(p + s + q) == trimmed_text(s),
{
    assert(p + s + q =~= p + (s + q));
    lemma_trimmed_start_skips(p, s + q);
    lemma_trimmed_start_append(s, q);
    if trimmed_start(s).len() > 0 {
        lemma_trimmed_end_skips(trimmed_start(s), q);
    } else {
        lemma_blank_start(q);
        assert(trimmed_start(q) =~= trimmed_start(s));
    }
}

/// Trimming a trimmed text changes nothing.
pub proof fn lemma_trim_idempotent(s: Seq<char>)
    ensures
        trimmed_text(trimmed_text(s)) == trimmed_text(s),
{
    let t = trimmed_start(s);
    let u = trimmed_end(t);
    lemma_trimmed_start_head(s);
    lemma_trimmed_end_prefix(t);
    if u.len() > 0 {
        assert(u[0] == t[0]);
        assert(trimmed_start(u) == u);
        lemma_trimmed_end_prefix(u);
        assert(trimmed_end(u) == u);
    } else {
        assert(trimmed_start(u) == u);
    }
}

/// Whether a character is white space.
pub fn is_white_space_char(c: char) -> (r: bool)
    ensures
        r == is_white_space(c),
{
    let u = c as u32;
    (0x09 <= u && u <= 0x0D) || u == 0x20 || u == 0x85 || u == 0xA0 || u == 0x1680
        || (0x2000 <= u && u <= 0x200A) || u == 0x2028 || u == 0x2029 || u == 0x202F
        || u == 0x205F || u == 0x3000
}

/// The text without its leading and trailing white space, as `str::trim`
/// gives it.
pub fn trim_text(s: &str) -> (r: &str)
    ensures
        r@ == trimmed_text(s@),
{
    let n = s.unicode_len();
    let mut i: usize = 0;
    proof {
        assert(s@.skip(0) =~= s@);
    }
    while i < n && is_white_space_char(s.get_char(i))
        invariant
            n == s@.len(),
            i <= n,
            trimmed_start(s@) == trimmed_start(s@.skip(i as int)),
        decreases n - i,
    {
        proof {
            assert(s@.skip(i as int)[0] == s@[i as int]);
            assert(s@.skip(i as int).drop_first() =~= s@.skip(i + 1));
        }
        i = i + 1;
    }
    proof {
        if i < n {
            assert(s@.skip(i as int)[0] == s@[i as int]);
        } else {
            assert(s@.skip(i as int).len() == 0);
        }
        assert(trimmed_start(s@) == s@.skip(i as int));
        assert(s@.skip(i as int) =~= s@.subrange(i as int, n as int));
    }
    let mut j: usize = n;
    while j > i && is_white_space_char(s.get_char(j - 1))
        invariant
            n == s@.len(),
            i <= j <= n,
            trimmed_end(s@.subrange(i as int, n as int)) == trimmed_end(s@.subrange(i as int, j as int)),
        decreases j - i,
    {
        proof {
            let t = s@.subrange(i as int, j as int);
            assert(t.last() == s@[j - 1]);
            assert(t.drop_last() =~= s@.subrange(i as int, j - 1));
        }
        j = j - 1;
    }
    proof {
        let t = s@.subrange(i as int, j as int);
        if j > i {
            assert(t.last() == s@[j - 1]);
        }
        assert(trimmed_end(t) == t);
    }
    s.substring_char(i, j)
}

/// Every character of the text is ASCII.
pub open spec fn is_ascii_text(s: Seq<char>) -> bool {
    forall|i: int| 0 <= i < s.len() ==> (#[trigger] s[i] as u32) < 128
}

/// The upper case of an ASCII character: `a` to `z` become `A` to `Z`,
/// every other character stays.
pub open spec fn ascii_upper(c: char) -> char {
    if 97 <= (c as u32) <= 122 {
        ((c as u32) - 32) as char
    } else {
        c
    }
}

/// The upper case of an ASCII text, character by character.
pub open spec fn ascii_upper_text(s: Seq<char>) -> Seq<char> {
    s.map_values(|c: char| ascii_upper(c))
}

/// Calls `str::to_uppercase`; its result is named by `uppercased_text`.
/// On an ASCII text, Unicode's upper-case mapping changes only `a` to `z`,
/// each to its capital.
#[verifier::external_body]
pub(crate) fn uppercase_text(s: &str) -> (r: String)
    ensures
        r@ == uppercased_text(s@),
        is_ascii_text(s@) ==> r@ == ascii_upper_text(s@),
{
    s.to_uppercase()
}

} // verus!
