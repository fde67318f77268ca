//! Operations on the characters of a line: trimming, padding, joining.

use vstd::prelude::*;
use vstd::string::*;

verus! {

/// The answer of `char::is_whitespace` for `c`.
pub uninterp spec fn is_whitespace(c: char) -> bool;

/// White space within ASCII: the space, and the five controls from the
/// horizontal tab (U+0009) to the carriage return (U+000D).
pub open spec fn is_ascii_white_space(c: char) -> bool {
    c == ' ' || 0x09 <= (c as u32) <= 0x0d
}

/// Whether `c` is white space: within ASCII by [`is_ascii_white_space`],
/// beyond it by what `char::is_whitespace` answers.
pub open spec fn white_space(c: char) -> bool {
    if (c as u32) <= 0x7f {
        is_ascii_white_space(c)
    } else {
        is_whitespace(c)
    }
}

/// Asks `char::is_whitespace`, which tells the Unicode property
/// `White_Space`.
///
/// Trusted. The contract gives the answer a name, and so claims that it
/// depends on the character alone. For a character of ASCII it claims the
/// answer itself: of those, `White_Space` holds of U+0009 to U+000D and of
/// the space, and of no other.
#[verifier::external_body]
fn char_is_whitespace(c: char) -> (b: bool)
    ensures
        b == is_whitespace(c),
        (c as u32) <= 0x7f ==> b == is_ascii_white_space(c),
{
    c.is_whitespace()
}

/// `s` without its trailing white space.
pub open spec fn trim_end(s: Seq<char>) -> Seq<char>
    decreases s.len(),
{
    if s.len() > 0 && white_space(s.last()) {
        trim_end(s.drop_last())
    } else {
        s
    }
}

/// `n` spaces.
pub open spec fn spaces(n: nat) -> Seq<char> {
    Seq::new(n, |i: int| ' ')
}

/// `s` filled up with spaces to `width + 1` characters, so that it covers
/// what an earlier, longer line left on the screen. A text longer than
/// `width` stays as it is.
pub open spec fn padded(s: Seq<char>, width: nat) -> Seq<char> {
    if s.len() <= width {
        s + spaces((width + 1 - s.len()) as nat)
    } else {
        s
    }
}

/// `line` added to `total`, after a line feed where `total` holds text.
pub open spec fn joined(total: Seq<char>, line: Seq<char>) -> Seq<char> {
    if total.len() == 0 {
        line
    } else {
        total + seq!['\n'] + line
    }
}

/// Trimming keeps a prefix and drops nothing but white space; what it
/// keeps does not end in white space, so that trimming it again changes
/// nothing.
pub proof fn lemma_trim_end(s: Seq<char>)
    ensures
        trim_end(s).len() <= s.len(),
        trim_end(s) == s.subrange(0, trim_end(s).len() as int),
        trim_end(s).len() > 0 ==> !white_space(trim_end(s).last()),
        forall|i: int| trim_end(s).len() <= i < s.len() ==> white_space(#[trigger] s[i]),
        trim_end(trim_end(s)) == trim_end(s),
    decreases s.len(),
{
    if s.len() > 0 && white_space(s.last()) {
        let shorter = s.drop_last();
        lemma_trim_end(shorter);
        let kept = trim_end(shorter).len() as int;
        assert(shorter.subrange(0, kept) =~= s.subrange(0, kept));
        assert forall|i: int| trim_end(s).len() <= i < s.len() implies white_space(
            #[trigger] s[i],
        ) by {
            if i < shorter.len() {
                assert(shorter[i] == s[i]);
            }
        }
    } else {
        assert(s.subrange(0, s.len() as int) =~= s);
    }
}

/// How many characters of `s` are left when its trailing white space goes.
pub fn trimmed_len(s: &str) -> (n: usize)
    ensures
        n <= s@.len(),
        n == trim_end(s@).len(),
        trim_end(s@) == s@.subrange(0, n as int),
{
    let mut end: usize = s.unicode_len();
    proof {
        assert(s@.subrange(0, end as int) =~= s@);
    }
    loop
        invariant
            end <= s@.len(),
            trim_end(s@) == trim_end(s@.subrange(0, end as int)),
        ensures
            end <= s@.len(),
            trim_end(s@) == s@.subrange(0, end as int),
        decreases end,
    {
        if end == 0 {
            break ;
        }
        let last = s.get_char(end - 1);
        if !char_is_whitespace(last) {
            break ;
        }
        proof {
            let head = s@.subrange(0, end as int);
            assert(head.last() == s@[end - 1]);
            assert(head.drop_last() =~= s@.subrange(0, end - 1));
        }
        end = end - 1;
    }
    end
}

/// A copy of `s` without its trailing white space.
pub fn trimmed_end(s: &str) -> (r: String)
    ensures
        r@ == trim_end(s@),
{
    let end = trimmed_len(s);
    s.substring_char(0, end).to_owned()
}

/// Whether `s` holds nothing but white space.
pub fn is_blank(s: &str) -> (blank: bool)
    ensures
        blank == (trim_end(s@).len() == 0),
{
    trimmed_len(s) == 0
}

/// `s` followed by `n` spaces.
pub fn with_spaces(s: String, n: usize) -> (r: String)
    ensures
        r@ == s@ + spaces(n as nat),
{
    let mut r = s;
    let mut i: usize = 0;
    proof {
        assert(r@ =~= s@ + spaces(0));
    }
    while i < n
        invariant
            i <= n,
            r@ == s@ + spaces(i as nat),
        decreases n - i,
    {
        proof {
            reveal_strlit(" ");
        }
        r.append(" ");
        i = i + 1;
        proof {
            assert(r@ =~= s@ + spaces(i as nat));
        }
    }
    r
}

/// `s` padded for a field of `width` columns: see [`padded`].
pub fn pad(s: String, width: u16) -> (r: String)
    ensures
        r@ == padded(s@, width as nat),
{
    let len = s.as_str().unicode_len();
    if len <= width as usize {
        with_spaces(s, width as usize - len + 1)
    } else {
        s
    }
}

/// Adds `line` to `total`: see [`joined`].
pub fn join(total: &mut String, line: &str)
    ensures
        final(total)@ == joined(old(total)@, line@),
{
    if !total.as_str().is_empty() {
        proof {
            reveal_strlit("\n");
        }
        total.append("\n");
        proof {
            assert("\n"@ =~= seq!['\n']);
        }
    }
    total.append(line);
    proof {
        if old(total)@.len() == 0 {
            assert(old(total)@ + line@ =~= line@);
        }
    }
}

} // verus!
