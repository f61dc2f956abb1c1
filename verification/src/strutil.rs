//! Small string operations: the few std calls that vstd gives no
//! specification, and a verified escaper for emitted string literals.

use vstd::prelude::*;
use vstd::string::StrSliceExecFns;

verus! {

/// `needle` occurs contiguously somewhere in `hay`.
pub open spec fn is_substring_of(needle: Seq<char>, hay: Seq<char>) -> bool {
    exists|i: int|
        0 <= i <= hay.len() - needle.len() && #[trigger] hay.subrange(i, i + needle.len() as int)
            == needle
}

/// Relies on `<str as PartialEq>::eq`: string slices are equal exactly when
/// their character contents are equal.
#[verifier::external_body]
pub fn str_eq(a: &str, b: &str) -> (r: bool)
    ensures
        r == (a@ == b@),
{
    a == b
}

/// Relies on `str::contains` with a `&str` pattern: it returns true exactly
/// when the pattern matches a sub-slice of the receiver.
#[verifier::external_body]
pub fn str_contains(hay: &str, needle: &str) -> (r: bool)
    ensures
        r == is_substring_of(needle@, hay@),
{
    hay.contains(needle)
}

/// The character sequence that `str::to_lowercase` returns for a given
/// character sequence. Lowercasing is a function of the characters alone.
pub uninterp spec fn fold_of(s: Seq<char>) -> Seq<char>;

/// Relies on `str::to_lowercase`: the result depends on the characters of the
/// receiver alone.
#[verifier::external_body]
pub fn fold_str(s: &str) -> (r: String)
    ensures
        r@ == fold_of(s@),
{
    s.to_lowercase()
}

/// Relies on `String::push`: it appends the given character to the string.
#[verifier::external_body]
pub fn push_char(s: &mut String, c: char)
    ensures
        final(s)@ == old(s)@.push(c),
{
    s.push(c);
}

/// How one character is written inside an emitted double-quoted literal:
/// quotes and backslashes take a leading backslash, everything else stands
/// as it is.
pub open spec fn escaped_char(c: char) -> Seq<char> {
    if c == '"' || c == '\\' {
        seq!['\\', c]
    } else {
        seq![c]
    }
}

/// The body of an emitted double-quoted literal for the contents `s`.
pub open spec fn escaped_text(s: Seq<char>) -> Seq<char>
    decreases s.len(),
{
    if s.len() == 0 {
        Seq::empty()
    } else {
        escaped_char(s[0]) + escaped_text(s.drop_first())
    }
}

/// `escaped_text` distributes over splitting a sequence after its first `i`
/// characters.
proof fn lemma_escaped_text_split(s: Seq<char>, i: int)
    requires
        0 <= i <= s.len(),
    ensures
        escaped_text(s) == escaped_text(s.take(i)) + escaped_text(s.skip(i)),
    decreases i,
{
    if i == 0 {
        assert(s.take(0) == Seq::<char>::empty());
        assert(escaped_text(s.take(0)) + escaped_text(s.skip(0)) == escaped_text(s.skip(0)));
        assert(s.skip(0) == s);
    } else {
        lemma_escaped_text_split(s.drop_first(), i - 1);
        assert(s.take(i).len() != 0);
        assert(s.take(i).drop_first() == s.drop_first().take(i - 1));
        assert(s.skip(i) == s.drop_first().skip(i - 1));
        assert(escaped_text(s.take(i)) == escaped_char(s[0]) + escaped_text(
            s.drop_first().take(i - 1),
        ));
        assert(escaped_char(s[0]) + (escaped_text(s.drop_first().take(i - 1)) + escaped_text(
            s.skip(i),
        )) == (escaped_char(s[0]) + escaped_text(s.drop_first().take(i - 1))) + escaped_text(
            s.skip(i),
        ));
        assert(escaped_text(s) == escaped_char(s[0]) + escaped_text(s.drop_first()));
    }
}

/// Appends to `out` the escaped form of `s`, as it stands between the quotes
/// of an emitted string literal.
pub fn append_escaped(out: &mut String, s: &str)
    ensures
        final(out)@ == old(out)@ + escaped_text(s@),
{
    let n = s.unicode_len();
    let mut i: usize = 0;
    while i < n
        invariant
            n == s@.len(),
            0 <= i <= n,
            out@ == old(out)@ + escaped_text(s@.take(i as int)),
        decreases n - i,
    {
        let c = s.get_char(i);
        if c == '"' || c == '\\' {
            push_char(out, '\\');
        }
        push_char(out, c);
        proof {
            lemma_escaped_text_split(s@.take(i + 1 as int), i as int);
            assert(s@.take(i + 1 as int).take(i as int) == s@.take(i as int));
            assert(s@.take(i + 1 as int).skip(i as int) == seq![s@[i as int]]);
            assert(seq![s@[i as int]].drop_first() == Seq::<char>::empty());
            assert(escaped_text(seq![s@[i as int]]) == escaped_char(s@[i as int]) + escaped_text(
                Seq::<char>::empty(),
            ));
            assert(escaped_char(s@[i as int]) + Seq::<char>::empty() == escaped_char(
                s@[i as int],
            ));
            if c == '"' || c == '\\' {
                assert(out@ == old(out)@ + (escaped_text(s@.take(i as int)) + escaped_char(
                    s@[i as int],
                )));
            } else {
                assert(escaped_char(s@[i as int]) == seq![s@[i as int]]);
                assert(out@ == old(out)@ + (escaped_text(s@.take(i as int)) + escaped_char(
                    s@[i as int],
                )));
            }
        }
        i = i + 1;
    }
    proof {
        assert(s@.take(n as int) == s@);
    }
}

} // verus!
