use vstd::prelude::*;

verus! {

/// Display width that a terminal cell grid assigns to one character, as
/// measured by the `unicode_width` crate (characters it does not measure
/// fall back to width 1).
pub uninterp spec fn char_width(c: char) -> usize;

/// Relies on `unicode_width::UnicodeWidthChar::width`: the display width of a
/// character depends on that character alone.
#[verifier::external_body]
pub(crate) fn display_width(c: char) -> (r: usize)
    ensures
        r == char_width(c),
{
    unicode_width::UnicodeWidthChar::width(c).unwrap_or(1)
}

/// Total display width of one line of characters.
pub open spec fn line_width(l: Seq<char>) -> int
    decreases l.len(),
{
    if l.len() == 0 {
        0
    } else {
        line_width(l.drop_last()) + char_width(l.last())
    }
}

pub proof fn lemma_line_width_empty()
    ensures
        line_width(Seq::<char>::empty()) == 0,
{
}

pub proof fn lemma_line_width_push(l: Seq<char>, c: char)
    ensures
        line_width(l.push(c)) == line_width(l) + char_width(c),
{
    assert(l.push(c).drop_last() =~= l);
    assert(l.push(c).last() == c);
}

pub proof fn lemma_line_width_single(c: char)
    ensures
        line_width(seq![c]) == char_width(c),
{
    assert(seq![c] =~= Seq::<char>::empty().push(c));
    lemma_line_width_empty();
    lemma_line_width_push(Seq::<char>::empty(), c);
}

} // verus!
