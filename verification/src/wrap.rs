use vstd::prelude::*;

use crate::strutil::push_char;
use crate::width::char_width;
use crate::width::display_width;
use crate::width::line_width;

verus! {

// ------------------------------------------------------------------
// The model: what wrapping a text at a width produces.
// ------------------------------------------------------------------

/// The paragraphs of a text: the pieces between newline characters, in
/// order, with empty pieces kept. A text without a newline is one
/// paragraph; every newline ends the paragraph before it.
pub open spec fn split_paragraphs(t: Seq<char>) -> Seq<Seq<char>>
    decreases t.len(),
{
    if t.len() == 0 {
        seq![Seq::<char>::empty()]
    } else {
        let rest = split_paragraphs(t.drop_last());
        if t.last() == '\n' {
            rest.push(Seq::<char>::empty())
        } else {
            rest.update(rest.len() - 1, rest.last().push(t.last()))
        }
    }
}

/// Greedy wrapping of the remaining characters of a paragraph, with `cur`
/// the line being accumulated and `curw` its display width: a character
/// whose width no longer fits on `cur` flushes `cur` and starts a new line.
pub open spec fn wrap_from(p: Seq<char>, w: nat, cur: Seq<char>, curw: int) -> Seq<Seq<char>>
    decreases p.len(),
{
    if p.len() == 0 {
        if cur.len() == 0 {
            Seq::<Seq<char>>::empty()
        } else {
            seq![cur]
        }
    } else {
        let cw = char_width(p[0]) as int;
        if curw + cw > w {
            seq![cur] + wrap_from(p.drop_first(), w, seq![p[0]], cw)
        } else {
            wrap_from(p.drop_first(), w, cur.push(p[0]), curw + cw)
        }
    }
}

/// The display lines of one paragraph: an empty paragraph is one empty
/// line, any other paragraph is wrapped greedily from an empty line.
pub open spec fn wrap_paragraph_model(p: Seq<char>, w: nat) -> Seq<Seq<char>> {
    if p.len() == 0 {
        seq![Seq::<char>::empty()]
    } else {
        wrap_from(p, w, Seq::<char>::empty(), 0)
    }
}

/// The display lines of a list of paragraphs, one paragraph after the other.
pub open spec fn wrap_paragraphs_model(ps: Seq<Seq<char>>, w: nat) -> Seq<Seq<char>>
    decreases ps.len(),
{
    if ps.len() == 0 {
        Seq::<Seq<char>>::empty()
    } else {
        wrap_paragraphs_model(ps.drop_last(), w) + wrap_paragraph_model(ps.last(), w)
    }
}

/// The display lines of a whole text: width zero returns the text as one
/// unwrapped line, any other width wraps each paragraph in turn.
pub open spec fn wrap_model(t: Seq<char>, w: nat) -> Seq<Seq<char>> {
    if w == 0 {
        seq![t]
    } else {
        wrap_paragraphs_model(split_paragraphs(t), w)
    }
}

// ------------------------------------------------------------------
// Laws of the model.
// ------------------------------------------------------------------

/// All lines joined into one sequence, in order.
pub open spec fn concat_all(ls: Seq<Seq<char>>) -> Seq<char>
    decreases ls.len(),
{
    if ls.len() == 0 {
        Seq::<char>::empty()
    } else {
        concat_all(ls.drop_last()) + ls.last()
    }
}

/// The text with its newline characters removed.
pub open spec fn strip_newlines(t: Seq<char>) -> Seq<char>
    decreases t.len(),
{
    if t.len() == 0 {
        Seq::<char>::empty()
    } else if t.last() == '\n' {
        strip_newlines(t.drop_last())
    } else {
        strip_newlines(t.drop_last()).push(t.last())
    }
}

proof fn lemma_split_nonempty(t: Seq<char>)
    ensures
        split_paragraphs(t).len() >= 1,
    decreases t.len(),
{
    if t.len() > 0 {
        lemma_split_nonempty(t.drop_last());
    }
}

proof fn lemma_concat_all_empty()
    ensures
        concat_all(Seq::<Seq<char>>::empty()) == Seq::<char>::empty(),
{
}

proof fn lemma_concat_all_single(l: Seq<char>)
    ensures
        concat_all(seq![l]) == l,
{
    assert(seq![l].drop_last() =~= Seq::<Seq<char>>::empty());
    assert(seq![l].last() == l);
    lemma_concat_all_empty();
    assert(concat_all(seq![l]) == Seq::<char>::empty() + l);
    assert(Seq::<char>::empty() + l =~= l);
}

proof fn lemma_concat_all_append(a: Seq<Seq<char>>, b: Seq<Seq<char>>)
    ensures
        concat_all(a + b) == concat_all(a) + concat_all(b),
    decreases b.len(),
{
    if b.len() == 0 {
        assert(a + b =~= a);
        assert(concat_all(a) + concat_all(b) =~= concat_all(a));
    } else {
        lemma_concat_all_append(a, b.drop_last());
        assert((a + b).drop_last() =~= a + b.drop_last());
        assert((a + b).last() == b.last());
        assert(concat_all(a) + concat_all(b.drop_last()) + b.last() =~= concat_all(a) + (
        concat_all(b.drop_last()) + b.last()));
    }
}

proof fn lemma_wrap_from_concat(p: Seq<char>, w: nat, cur: Seq<char>, curw: int)
    ensures
        concat_all(wrap_from(p, w, cur, curw)) == cur + p,
    decreases p.len(),
{
    if p.len() == 0 {
        if cur.len() == 0 {
            assert(cur + p =~= Seq::<char>::empty());
        } else {
            lemma_concat_all_single(cur);
            assert(cur + p =~= cur);
        }
    } else {
        let cw = char_width(p[0]) as int;
        if curw + cw > w {
            lemma_wrap_from_concat(p.drop_first(), w, seq![p[0]], cw);
            lemma_concat_all_append(seq![cur], wrap_from(p.drop_first(), w, seq![p[0]], cw));
            lemma_concat_all_single(cur);
            assert(cur + (seq![p[0]] + p.drop_first()) =~= cur + p);
        } else {
            lemma_wrap_from_concat(p.drop_first(), w, cur.push(p[0]), curw + cw);
            assert(cur.push(p[0]) + p.drop_first() =~= cur + p);
        }
    }
}

proof fn lemma_wrap_paragraph_concat(p: Seq<char>, w: nat)
    ensures
        concat_all(wrap_paragraph_model(p, w)) == p,
{
    if p.len() == 0 {
        lemma_concat_all_single(Seq::<char>::empty());
        assert(Seq::<char>::empty() =~= p);
    } else {
        lemma_wrap_from_concat(p, w, Seq::<char>::empty(), 0);
        assert(Seq::<char>::empty() + p =~= p);
    }
}

proof fn lemma_wrap_paragraphs_concat(ps: Seq<Seq<char>>, w: nat)
    ensures
        concat_all(wrap_paragraphs_model(ps, w)) == concat_all(ps),
    decreases ps.len(),
{
    if ps.len() > 0 {
        lemma_wrap_paragraphs_concat(ps.drop_last(), w);
        lemma_wrap_paragraph_concat(ps.last(), w);
        lemma_concat_all_append(wrap_paragraphs_model(ps.drop_last(), w), wrap_paragraph_model(ps.last(), w));
    }
}

proof fn lemma_split_strip(t: Seq<char>)
    ensures
        concat_all(split_paragraphs(t)) == strip_newlines(t),
    decreases t.len(),
{
    if t.len() == 0 {
        lemma_concat_all_single(Seq::<char>::empty());
    } else {
        lemma_split_strip(t.drop_last());
        lemma_split_nonempty(t.drop_last());
        let rest = split_paragraphs(t.drop_last());
        if t.last() == '\n' {
            let pushed = rest.push(Seq::<char>::empty());
            assert(split_paragraphs(t) == pushed);
            assert(pushed.drop_last() =~= rest);
            assert(pushed.last() == Seq::<char>::empty());
            assert(concat_all(pushed) == concat_all(rest) + Seq::<char>::empty());
            assert(concat_all(rest) + Seq::<char>::empty() =~= concat_all(rest));
        } else {
            let upd = rest.update(rest.len() - 1, rest.last().push(t.last()));
            assert(split_paragraphs(t) == upd);
            assert(upd.drop_last() =~= rest.drop_last());
            assert(upd.last() == rest.last().push(t.last()));
            assert(concat_all(upd) == concat_all(rest.drop_last()) + rest.last().push(t.last()));
            assert(concat_all(rest) == concat_all(rest.drop_last()) + rest.last());
            assert(concat_all(rest.drop_last()) + rest.last().push(t.last()) =~= (concat_all(
            rest.drop_last()) + rest.last()).push(t.last()));
            assert(strip_newlines(t) == strip_newlines(t.drop_last()).push(t.last()));
        }
    }
}


/// Law: for a positive width, joining the wrapped lines back together
/// restores the text, save for the newlines that split it into paragraphs.
/// No character is lost, reordered or split across lines.
pub proof fn lemma_wrap_preserves_characters(t: Seq<char>, w: nat)
    requires
        w >= 1,
    ensures
        concat_all(wrap_model(t, w)) == strip_newlines(t),
{
    lemma_wrap_paragraphs_concat(split_paragraphs(t), w);
    lemma_split_strip(t);
}

/// Law: wrapping at width zero returns exactly one line, the text itself.
pub proof fn lemma_wrap_zero_width(t: Seq<char>)
    ensures
        wrap_model(t, 0) == seq![t],
{
}

proof fn lemma_wrap_from_narrow(p: Seq<char>, w: nat, cur: Seq<char>, curw: int)
    requires
        curw == line_width(cur),
        curw <= w,
        forall|i: int| 0 <= i < p.len() ==> char_width(#[trigger] p[i]) <= w,
    ensures
        forall|j: int|
            0 <= j < wrap_from(p, w, cur, curw).len() ==> line_width(
                #[trigger] wrap_from(p, w, cur, curw)[j],
            ) <= w,
    decreases p.len(),
{
    if p.len() == 0 {
        if cur.len() > 0 {
            assert(wrap_from(p, w, cur, curw) == seq![cur]);
            assert(seq![cur][0] == cur);
        }
        assert(forall|j: int|
            0 <= j < wrap_from(p, w, cur, curw).len() ==> line_width(
                #[trigger] wrap_from(p, w, cur, curw)[j],
            ) <= w);
    } else {
        let cw = char_width(p[0]) as int;
        assert(forall|i: int|
            0 <= i < p.drop_first().len() ==> char_width(#[trigger] p.drop_first()[i]) <= w);
        if curw + cw > w {
            crate::width::lemma_line_width_single(p[0]);
            lemma_wrap_from_narrow(p.drop_first(), w, seq![p[0]], cw);
            let rec = wrap_from(p.drop_first(), w, seq![p[0]], cw);
            assert(wrap_from(p, w, cur, curw) == seq![cur] + rec);
            assert forall|j: int| 0 <= j < (seq![cur] + rec).len() implies line_width(
                #[trigger] (seq![cur] + rec)[j],
            ) <= w by {
                if j == 0 {
                    assert((seq![cur] + rec)[0] == cur);
                } else {
                    assert((seq![cur] + rec)[j] == rec[j - 1]);
                }
            }
            assert(forall|j: int|
                0 <= j < wrap_from(p, w, cur, curw).len() ==> line_width(
                    #[trigger] wrap_from(p, w, cur, curw)[j],
                ) <= w);
        } else {
            crate::width::lemma_line_width_push(cur, p[0]);
            lemma_wrap_from_narrow(p.drop_first(), w, cur.push(p[0]), curw + cw);
            assert(wrap_from(p, w, cur, curw) == wrap_from(
                p.drop_first(),
                w,
                cur.push(p[0]),
                curw + cw,
            ));
            assert(forall|j: int|
                0 <= j < wrap_from(p, w, cur, curw).len() ==> line_width(
                    #[trigger] wrap_from(p, w, cur, curw)[j],
                ) <= w);
        }
    }
}


proof fn lemma_wrap_paragraph_narrow(p: Seq<char>, w: nat)
    requires
        forall|i: int| 0 <= i < p.len() ==> char_width(#[trigger] p[i]) <= w,
    ensures
        forall|j: int|
            0 <= j < wrap_paragraph_model(p, w).len() ==> line_width(
                #[trigger] wrap_paragraph_model(p, w)[j],
            ) <= w,
{
    if p.len() > 0 {
        lemma_wrap_from_narrow(p, w, Seq::<char>::empty(), 0);
    }
}

proof fn lemma_split_char_bound(t: Seq<char>, w: nat)
    requires
        forall|i: int| 0 <= i < t.len() ==> char_width(#[trigger] t[i]) <= w,
    ensures
        forall|i: int, j: int|
            0 <= i < split_paragraphs(t).len() && 0 <= j < (#[trigger] split_paragraphs(t)[i]).len()
                ==> char_width(#[trigger] split_paragraphs(t)[i][j]) <= w,
    decreases t.len(),
{
    if t.len() > 0 {
        assert(forall|i: int|
            0 <= i < t.drop_last().len() ==> char_width(#[trigger] t.drop_last()[i]) <= w);
        lemma_split_char_bound(t.drop_last(), w);
        lemma_split_nonempty(t.drop_last());
        let rest = split_paragraphs(t.drop_last());
        if t.last() != '\n' {
            assert(char_width(t.last()) <= w);
            let grown = rest.last().push(t.last());
            assert(forall|j: int|
                0 <= j < grown.len() ==> char_width(#[trigger] grown[j]) <= w) by {
                assert(forall|j: int|
                    0 <= j < rest.last().len() ==> char_width(#[trigger] rest.last()[j]) <= w);
            }
        }
    }
}

proof fn lemma_wrap_paragraphs_narrow(ps: Seq<Seq<char>>, w: nat)
    requires
        forall|i: int, j: int|
            0 <= i < ps.len() && 0 <= j < (#[trigger] ps[i]).len() ==> char_width(
                #[trigger] ps[i][j],
            ) <= w,
    ensures
        forall|j: int|
            0 <= j < wrap_paragraphs_model(ps, w).len() ==> line_width(
                #[trigger] wrap_paragraphs_model(ps, w)[j],
            ) <= w,
    decreases ps.len(),
{
    if ps.len() > 0 {
        lemma_wrap_paragraphs_narrow(ps.drop_last(), w);
        lemma_wrap_paragraph_narrow(ps.last(), w);
        let head = wrap_paragraphs_model(ps.drop_last(), w);
        let tail = wrap_paragraph_model(ps.last(), w);
        assert(forall|j: int|
            0 <= j < (head + tail).len() ==> (#[trigger] (head + tail)[j]) == if j < head.len() {
                head[j]
            } else {
                tail[j - head.len()]
            });
    }
}

/// Law: for a positive width, when every character of the text fits the
/// width on its own, no wrapped line is wider than the width.
pub proof fn lemma_wrap_fits_width(t: Seq<char>, w: nat)
    requires
        w >= 1,
        forall|i: int| 0 <= i < t.len() ==> char_width(#[trigger] t[i]) <= w,
    ensures
        forall|j: int|
            0 <= j < wrap_model(t, w).len() ==> line_width(#[trigger] wrap_model(t, w)[j]) <= w,
{
    lemma_split_char_bound(t, w);
    lemma_wrap_paragraphs_narrow(split_paragraphs(t), w);
}

proof fn lemma_wrap_from_loose(p: Seq<char>, w: nat, cur: Seq<char>, curw: int)
    requires
        curw == line_width(cur),
        curw <= w || cur.len() == 1,
    ensures
        forall|j: int|
            0 <= j < wrap_from(p, w, cur, curw).len() ==> line_width(
                #[trigger] wrap_from(p, w, cur, curw)[j],
            ) <= w || wrap_from(p, w, cur, curw)[j].len() == 1,
    decreases p.len(),
{
    if p.len() == 0 {
        if cur.len() > 0 {
            assert(wrap_from(p, w, cur, curw) == seq![cur]);
            assert(seq![cur][0] == cur);
        }
    } else {
        let cw = char_width(p[0]) as int;
        if curw + cw > w {
            crate::width::lemma_line_width_single(p[0]);
            lemma_wrap_from_loose(p.drop_first(), w, seq![p[0]], cw);
            let rec = wrap_from(p.drop_first(), w, seq![p[0]], cw);
            assert(wrap_from(p, w, cur, curw) == seq![cur] + rec);
            assert forall|j: int| 0 <= j < (seq![cur] + rec).len() implies line_width(
                #[trigger] (seq![cur] + rec)[j],
            ) <= w || (seq![cur] + rec)[j].len() == 1 by {
                if j == 0 {
                    assert((seq![cur] + rec)[0] == cur);
                } else {
                    assert((seq![cur] + rec)[j] == rec[j - 1]);
                }
            }
        } else {
            crate::width::lemma_line_width_push(cur, p[0]);
            lemma_wrap_from_loose(p.drop_first(), w, cur.push(p[0]), curw + cw);
            assert(wrap_from(p, w, cur, curw) == wrap_from(
                p.drop_first(),
                w,
                cur.push(p[0]),
                curw + cw,
            ));
        }
    }
}

proof fn lemma_wrap_paragraph_loose(p: Seq<char>, w: nat)
    ensures
        forall|j: int|
            0 <= j < wrap_paragraph_model(p, w).len() ==> line_width(
                #[trigger] wrap_paragraph_model(p, w)[j],
            ) <= w || wrap_paragraph_model(p, w)[j].len() == 1,
{
    if p.len() == 0 {
        crate::width::lemma_line_width_empty();
        assert(wrap_paragraph_model(p, w)[0] == Seq::<char>::empty());
    } else {
        crate::width::lemma_line_width_empty();
        lemma_wrap_from_loose(p, w, Seq::<char>::empty(), 0);
    }
}

/// Law: for a positive width, every wrapped line fits the width, except
/// that a single character wider than the whole width stands alone on a
/// line of its own.
pub proof fn lemma_wrap_line_widths(t: Seq<char>, w: nat)
    requires
        w >= 1,
    ensures
        forall|j: int|
            0 <= j < wrap_model(t, w).len() ==> line_width(#[trigger] wrap_model(t, w)[j]) <= w
                || wrap_model(t, w)[j].len() == 1,
{
    lemma_wrap_paragraphs_loose(split_paragraphs(t), w);
}

proof fn lemma_wrap_paragraphs_loose(ps: Seq<Seq<char>>, w: nat)
    ensures
        forall|j: int|
            0 <= j < wrap_paragraphs_model(ps, w).len() ==> line_width(
                #[trigger] wrap_paragraphs_model(ps, w)[j],
            ) <= w || wrap_paragraphs_model(ps, w)[j].len() == 1,
    decreases ps.len(),
{
    if ps.len() > 0 {
        lemma_wrap_paragraphs_loose(ps.drop_last(), w);
        lemma_wrap_paragraph_loose(ps.last(), w);
        let head = wrap_paragraphs_model(ps.drop_last(), w);
        let tail = wrap_paragraph_model(ps.last(), w);
        assert(forall|j: int|
            0 <= j < (head + tail).len() ==> (#[trigger] (head + tail)[j]) == if j < head.len() {
                head[j]
            } else {
                tail[j - head.len()]
            });
    }
}

// ------------------------------------------------------------------
// The executable engine.
// ------------------------------------------------------------------

fn split_text(text: &str) -> (r: Vec<String>)
    ensures
        r.deep_view() == split_paragraphs(text@),
{
    let n = text.unicode_len();
    let mut out: Vec<String> = Vec::new();
    let mut cur = String::new();
    let mut i: usize = 0;
    proof {
        assert(out.deep_view().push(cur@) =~= split_paragraphs(text@.take(0)));
    }
    while i < n
        invariant
            i <= n,
            n == text@.len(),
            out.deep_view().push(cur@) == split_paragraphs(text@.take(i as int)),
        decreases n - i,
    {
        let c = text.get_char(i);
        proof {
            assert(text@.take(i + 1).drop_last() =~= text@.take(i as int));
            assert(text@.take(i + 1).last() == text@[i as int]);
        }
        let ghost prev = out.deep_view().push(cur@);
        if c == '\n' {
            out.push(cur);
            cur = String::new();
            proof {
                assert(out.deep_view().push(cur@) =~= prev.push(Seq::<char>::empty()));
            }
        } else {
            push_char(&mut cur, c);
            proof {
                assert(out.deep_view().push(cur@) =~= prev.update(prev.len() - 1, prev.last().push(
                c)));
            }
        }
        i += 1;
    }
    proof {
        assert(text@.take(n as int) =~= text@);
    }
    out.push(cur);
    proof {
        assert(out.deep_view() =~= split_paragraphs(text@));
    }
    out
}

fn wrap_paragraph(p: &str, width: usize) -> (r: Vec<String>)
    requires
        width >= 1,
    ensures
        r.deep_view() == wrap_paragraph_model(p@, width as nat),
{
    let n = p.unicode_len();
    let mut out: Vec<String> = Vec::new();
    if n == 0 {
        out.push(String::new());
        proof {
            assert(out.deep_view() =~= wrap_paragraph_model(p@, width as nat));
        }
        return out;
    }
    let mut cur = String::new();
    let mut curw: usize = 0;
    let mut i: usize = 0;
    proof {
        assert(p@.skip(0) =~= p@);
        assert(out.deep_view() + wrap_from(p@, width as nat, cur@, curw as int) =~= wrap_from(
        p@, width as nat, cur@, curw as int));
    }
    while i < n
        invariant
            width >= 1,
            i <= n,
            n == p@.len(),
            n >= 1,
            curw == line_width(cur@),
            curw <= width || cur@.len() == 1,
            i > 0 ==> cur@.len() >= 1,
            wrap_paragraph_model(p@, width as nat) == out.deep_view() + wrap_from(
                p@.skip(i as int),
                width as nat,
                cur@,
                curw as int,
            ),
        decreases n - i,
    {
        let c = p.get_char(i);
        let cw = display_width(c);
        let flush = curw > width || cw > width - curw;
        proof {
            assert(p@.skip(i as int).drop_first() =~= p@.skip(i + 1));
            assert(p@.skip(i as int)[0] == p@[i as int]);
            assert(flush == (curw as int + cw as int > width as int));
        }
        let ghost dv = out.deep_view();
        let ghost oldline = cur@;
        if flush {
            out.push(cur);
            cur = String::new();
            push_char(&mut cur, c);
            curw = cw;
            proof {
                assert(cur@ =~= seq![p@[i as int]]);
                crate::width::lemma_line_width_single(p@[i as int]);
                assert(out.deep_view() =~= dv.push(oldline));
                let rec = wrap_from(p@.skip(i + 1), width as nat, cur@, curw as int);
                assert(dv + (seq![oldline] + rec) =~= dv.push(oldline) + rec);
            }
        } else {
            push_char(&mut cur, c);
            curw = curw + cw;
            proof {
                crate::width::lemma_line_width_push(oldline, p@[i as int]);
                assert(cur@ =~= oldline.push(p@[i as int]));
            }
        }
        i += 1;
    }
    proof {
        assert(p@.skip(n as int) =~= Seq::<char>::empty());
    }
    out.push(cur);
    proof {
        assert(out.deep_view() =~= wrap_paragraph_model(p@, width as nat));
    }
    out
}

/// Splits the text into display lines no wider than `width`: paragraphs
/// break at every newline, and inside a paragraph characters accumulate
/// greedily by display width. Width zero returns the text as one line.
pub fn wrap_text(text: &str, width: usize) -> (r: Vec<String>)
    ensures
        r.deep_view() == wrap_model(text@, width as nat),
{
    if width == 0 {
        let mut r: Vec<String> = Vec::new();
        r.push(text.to_owned());
        proof {
            assert(r.deep_view() =~= seq![text@]);
        }
        return r;
    }
    let paras = split_text(text);
    let mut out: Vec<String> = Vec::new();
    let mut i: usize = 0;
    proof {
        assert(paras.deep_view().take(0) =~= Seq::<Seq<char>>::empty());
    }
    while i < paras.len()
        invariant
            width >= 1,
            i <= paras.len(),
            paras.deep_view() == split_paragraphs(text@),
            out.deep_view() == wrap_paragraphs_model(paras.deep_view().take(i as int), width as nat),
        decreases paras.len() - i,
    {
        proof {
            assert(paras.deep_view().take(i + 1).drop_last() =~= paras.deep_view().take(i as int));
            assert(paras.deep_view().take(i + 1).last() == paras.deep_view()[i as int]);
            assert(paras@[i as int]@ == paras.deep_view()[i as int]);
        }
        let ghost dv = out.deep_view();
        let mut block = wrap_paragraph(paras[i].as_str(), width);
        out.append(&mut block);
        proof {
            assert(out.deep_view() =~= dv + wrap_paragraph_model(
                paras.deep_view()[i as int],
                width as nat,
            ));
        }
        i += 1;
    }
    proof {
        assert(paras.deep_view().take(paras.deep_view().len() as int) =~= paras.deep_view());
    }
    out
}

} // verus!
