//! Terminal colours: the foreground colours the report uses and what a piece
//! of text looks like once it has been given one.

use colored::Colorize;
use vstd::prelude::*;

verus! {

/// A foreground colour.
#[derive(Clone, Copy, PartialEq, Eq, Structural, Debug)]
pub enum Tint {
    Red,
    Green,
    Yellow,
    Blue,
    Purple,
    White,
}

/// The digits of the ANSI foreground code of `tint`.
pub open spec fn tint_code(tint: Tint) -> Seq<char> {
    match tint {
        Tint::Red => seq!['3', '1'],
        Tint::Green => seq!['3', '2'],
        Tint::Yellow => seq!['3', '3'],
        Tint::Blue => seq!['3', '4'],
        Tint::Purple => seq!['3', '5'],
        Tint::White => seq!['3', '7'],
    }
}

/// The escape sequence that switches the foreground to `tint`.
pub open spec fn tint_start(tint: Tint) -> Seq<char> {
    seq!['\u{1b}', '['] + tint_code(tint) + seq!['m']
}

/// The escape sequence that switches every attribute off again.
pub open spec fn tint_reset() -> Seq<char> {
    seq!['\u{1b}', '[', '0', 'm']
}

/// `text` between the start sequence of `tint` and the reset sequence.
pub open spec fn tinted(text: Seq<char>, tint: Tint) -> Seq<char> {
    tint_start(tint) + text + tint_reset()
}

/// `text` with `start` put in behind each reset sequence in it, so that the
/// colour goes on after an inner piece of coloured text has switched it off.
pub open spec fn renewed(text: Seq<char>, start: Seq<char>) -> Seq<char>
    decreases text.len(),
{
    if text.len() == 0 {
        text
    } else if tint_reset().is_prefix_of(text) {
        tint_reset() + start + renewed(text.skip(4), start)
    } else {
        seq![text[0]] + renewed(text.skip(1), start)
    }
}

/// `text` in colour `tint` on a terminal with colours: the start sequence of
/// the colour, the text with the colour renewed after each reset sequence in
/// it, and the reset sequence.
pub open spec fn painted(text: Seq<char>, tint: Tint) -> Seq<char> {
    tint_start(tint) + renewed(text, tint_start(tint)) + tint_reset()
}

/// `out` is `text` in colour `tint`, as a terminal without or with colours
/// gets it: either `text` untouched, or `text` painted.
pub open spec fn is_painting(out: Seq<char>, text: Seq<char>, tint: Tint) -> bool {
    out == text || out == painted(text, tint)
}

/// Text without an escape character, so that no reset sequence is in it.
pub open spec fn is_plain(text: Seq<char>) -> bool {
    !text.contains('\u{1b}')
}

/// Plain text at the head of a text is left as it is.
pub proof fn lemma_renewed_after_plain(head: Seq<char>, rest: Seq<char>, start: Seq<char>)
    requires
        is_plain(head),
    ensures
        renewed(head + rest, start) == head + renewed(rest, start),
    decreases head.len(),
{
    if head.len() == 0 {
        assert(head + rest =~= rest);
        assert(head + renewed(rest, start) =~= renewed(rest, start));
    } else {
        let text = head + rest;
        assert(text[0] == head[0]);
        assert(head.contains(head[0]));
        assert(tint_reset()[0] == '\u{1b}');
        assert(!tint_reset().is_prefix_of(text)) by {
            if tint_reset().is_prefix_of(text) {
                assert(text.subrange(0, 4)[0] == tint_reset()[0]);
            }
        }
        assert(text.skip(1) =~= head.skip(1) + rest);
        assert(is_plain(head.skip(1))) by {
            if head.skip(1).contains('\u{1b}') {
                let i = choose|i: int| 0 <= i < head.skip(1).len() && head.skip(1)[i] == '\u{1b}';
                assert(head[i + 1] == '\u{1b}');
            }
        }
        lemma_renewed_after_plain(head.skip(1), rest, start);
        assert(seq![text[0]] + (head.skip(1) + renewed(rest, start)) =~= head + renewed(
            rest,
            start,
        ));
    }
}

/// Painted plain text is the text between the start sequence of the colour
/// and the reset sequence.
pub proof fn lemma_painted_plain(text: Seq<char>, tint: Tint)
    requires
        is_plain(text),
    ensures
        painted(text, tint) == tinted(text, tint),
{
    lemma_renewed_after_plain(text, Seq::empty(), tint_start(tint));
    assert(text + Seq::<char>::empty() =~= text);
}

/// Coloured text that has been given a colour once more: the inner colour
/// shows on the text, and the outer one is renewed behind it.
pub open spec fn tinted_twice(text: Seq<char>, inner: Tint, outer: Tint) -> Seq<char> {
    tint_start(outer) + tint_start(inner) + text + tint_reset() + tint_start(outer) + tint_reset()
}

/// A start sequence at the head of a text is left as it is: it is no reset
/// sequence.
pub proof fn lemma_renewed_after_start(tint: Tint, rest: Seq<char>, start: Seq<char>)
    ensures
        renewed(tint_start(tint) + rest, start) == tint_start(tint) + renewed(rest, start),
{
    let text = tint_start(tint) + rest;
    let tail = seq!['['] + tint_code(tint) + seq!['m'];
    assert(text[2] == tint_code(tint)[0]);
    assert(!tint_reset().is_prefix_of(text)) by {
        if tint_reset().is_prefix_of(text) {
            assert(text.subrange(0, 4)[2] == tint_reset()[2]);
        }
    }
    assert(text.skip(1) =~= tail + rest);
    lemma_renewed_after_plain(tail, rest, start);
    assert(seq![text[0]] + (tail + renewed(rest, start)) =~= tint_start(tint) + renewed(
        rest,
        start,
    ));
}

/// Plain text painted twice is the text in the inner colour, with the outer
/// colour started before it and renewed behind it.
pub proof fn lemma_painted_twice(text: Seq<char>, inner: Tint, outer: Tint)
    requires
        is_plain(text),
    ensures
        painted(tinted(text, inner), outer) == tinted_twice(text, inner, outer),
{
    let start = tint_start(outer);
    assert(tinted(text, inner) =~= tint_start(inner) + (text + tint_reset()));
    lemma_renewed_after_start(inner, text + tint_reset(), start);
    lemma_renewed_after_plain(text, tint_reset(), start);
    assert(renewed(tint_reset(), start) =~= tint_reset() + start) by {
        reveal_with_fuel(renewed, 2);
        assert(tint_reset().subrange(0, 4) =~= tint_reset());
        assert(tint_reset().skip(4) =~= Seq::<char>::empty());
    }
    assert(painted(tinted(text, inner), outer) =~= tinted_twice(text, inner, outer));
}

/// Gives `text` the colour `tint` through `colored::Colorize::color` and
/// renders the outcome to a `String`.
///
/// Whether `colored` emits escape sequences at all is settled by the process
/// (its colour override, `NO_COLOR`, `CLICOLOR`, `CLICOLOR_FORCE`, whether
/// standard output is a terminal), so the contract admits both outcomes. With
/// colours off the text comes back unchanged. With colours on, `colored`
/// writes the start sequence of the colour, then the text, in which it puts
/// the start sequence behind every reset sequence, then the reset sequence.
/// Not proved: this is what the `Display` impl of `colored::ColoredString`
/// does, as long as no other thread switches the colour override while it
/// runs.
#[verifier::external_body]
pub(crate) fn paint(text: &str, tint: Tint) -> (out: String)
    ensures
        out@ == text@ || out@ == painted(text@, tint),
{
    let color = match tint {
        Tint::Red => colored::Color::Red,
        Tint::Green => colored::Color::Green,
        Tint::Yellow => colored::Color::Yellow,
        Tint::Blue => colored::Color::Blue,
        Tint::Purple => colored::Color::Magenta,
        Tint::White => colored::Color::White,
    };
    text.color(color).to_string()
}

} // verus!
