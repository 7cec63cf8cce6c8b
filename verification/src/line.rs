//! Lines as they come off the wire: text that may end in `\r` and `\n`.

use vstd::prelude::*;

verus! {

/// The characters that end a line on the wire.
pub open spec fn is_line_terminator(c: char) -> bool {
    c == '\n' || c == '\r'
}

/// `s` without the line terminators at its end.
pub open spec fn spec_strip_terminators(s: Seq<char>) -> Seq<char>
    decreases s.len(),
{
    if s.len() > 0 && is_line_terminator(s.last()) {
        spec_strip_terminators(s.drop_last())
    } else {
        s
    }
}

/// A line is blank when nothing is left of it once its terminators are gone.
pub open spec fn spec_is_blank(s: Seq<char>) -> bool {
    spec_strip_terminators(s).len() == 0
}

/// What `spec_strip_terminators` computes, said without recursion: the one
/// prefix of `s` that does not end in a terminator and is followed by
/// terminators only.
pub proof fn lemma_strip_terminators_is_longest_clean_prefix(s: Seq<char>)
    ensures
        spec_strip_terminators(s).len() <= s.len(),
        spec_strip_terminators(s) == s.subrange(0, spec_strip_terminators(s).len() as int),
        spec_strip_terminators(s).len() > 0 ==> !is_line_terminator(
            spec_strip_terminators(s).last(),
        ),
        forall|i: int|
            spec_strip_terminators(s).len() <= i < s.len() ==> is_line_terminator(#[trigger] s[i]),
    decreases s.len(),
{
    if s.len() > 0 && is_line_terminator(s.last()) {
        lemma_strip_terminators_is_longest_clean_prefix(s.drop_last());
    } else {
        assert(s == s.subrange(0, s.len() as int));
    }
}

/// Any prefix of `s` that ends clean and is followed by terminators only is
/// the stripped line.
pub proof fn lemma_clean_prefix_is_stripped(s: Seq<char>, n: int)
    requires
        0 <= n <= s.len(),
        n > 0 ==> !is_line_terminator(s[n - 1]),
        forall|i: int| n <= i < s.len() ==> is_line_terminator(#[trigger] s[i]),
    ensures
        spec_strip_terminators(s) == s.subrange(0, n),
    decreases s.len(),
{
    if n < s.len() {
        lemma_clean_prefix_is_stripped(s.drop_last(), n);
    }
}

/// Tells whether `c` ends a line.
pub fn is_terminator_char(c: char) -> (yes: bool)
    ensures
        yes == is_line_terminator(c),
{
    c == '\n' || c == '\r'
}

/// The line without the `\r` and `\n` characters at its end.
pub fn strip_terminators(line: &str) -> (stripped: String)
    ensures
        stripped@ == spec_strip_terminators(line@),
{
    let total: usize = line.unicode_len();
    let mut end: usize = total;
    while end > 0 && is_terminator_char(line.get_char(end - 1))
        invariant
            total == line@.len(),
            end <= total,
            forall|i: int| end <= i < total ==> is_line_terminator(#[trigger] line@[i]),
        decreases end,
    {
        end = end - 1;
    }
    proof {
        lemma_clean_prefix_is_stripped(line@, end as int);
    }
    String::from_str(line.substring_char(0, end))
}

/// Tells whether the line holds anything besides its terminators.
pub fn is_blank(line: &str) -> (blank: bool)
    ensures
        blank == spec_is_blank(line@),
{
    let total: usize = line.unicode_len();
    let mut at: usize = 0;
    while at < total
        invariant
            total == line@.len(),
            at <= total,
            forall|i: int| 0 <= i < at ==> is_line_terminator(#[trigger] line@[i]),
        decreases total - at,
    {
        if !is_terminator_char(line.get_char(at)) {
            proof {
                lemma_strip_terminators_is_longest_clean_prefix(line@);
            }
            return false;
        }
        at = at + 1;
    }
    proof {
        lemma_clean_prefix_is_stripped(line@, 0);
    }
    true
}

} // verus!
