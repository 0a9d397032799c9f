use vstd::prelude::*;

use crate::attribute::{attr_code, Attribute};
use crate::color::{bg_code, decimal, fg_code, Color};
use crate::style::{sgr_open, sgr_reset, StyleView};

verus! {

/// How many entries of `params` equal `code`.
pub open spec fn occurrences(params: Seq<Seq<char>>, code: Seq<char>) -> nat
    decreases params.len(),
{
    if params.len() == 0 {
        0
    } else {
        occurrences(params.drop_last(), code) + if params.last() == code {
            1nat
        } else {
            0nat
        }
    }
}

/// `v` with `a` added `n` times in a row.
pub open spec fn with_attribute_times(v: StyleView, a: Attribute, n: nat) -> StyleView
    decreases n,
{
    if n == 0 {
        v
    } else {
        with_attribute_times(v, a, (n - 1) as nat).with_attribute(a)
    }
}

/// A palette colour is selected by `38;5;n` in the foreground and by
/// `48;5;n` in the background, for every index `n`.
pub proof fn lemma_palette_codes(n: u8)
    ensures
        fg_code(Color::Named(n)) == seq!['3', '8', ';', '5', ';'] + decimal(n as nat),
        bg_code(Color::Named(n)) == seq!['4', '8', ';', '5', ';'] + decimal(n as nat),
{
    assert(fg_code(Color::Named(n)) =~= seq!['3', '8', ';', '5', ';'] + decimal(n as nat));
    assert(bg_code(Color::Named(n)) =~= seq!['4', '8', ';', '5', ';'] + decimal(n as nat));
}

/// An RGB colour is selected by `38;2;r;g;b` in the foreground and by
/// `48;2;r;g;b` in the background, for every triple.
pub proof fn lemma_rgb_codes(r: u8, g: u8, b: u8)
    ensures
        fg_code(Color::RGB(r, g, b)) == seq!['3', '8', ';', '2', ';'] + decimal(r as nat) + seq![
            ';',
        ] + decimal(g as nat) + seq![';'] + decimal(b as nat),
        bg_code(Color::RGB(r, g, b)) == seq!['4', '8', ';', '2', ';'] + decimal(r as nat) + seq![
            ';',
        ] + decimal(g as nat) + seq![';'] + decimal(b as nat),
{
    let rest = decimal(r as nat) + seq![';'] + decimal(g as nat) + seq![';'] + decimal(b as nat);
    assert(fg_code(Color::RGB(r, g, b)) =~= seq!['3', '8', ';', '2', ';'] + rest);
    assert(bg_code(Color::RGB(r, g, b)) =~= seq!['4', '8', ';', '2', ';'] + rest);
    assert(seq!['3', '8', ';', '2', ';'] + rest =~= seq!['3', '8', ';', '2', ';'] + decimal(
        r as nat,
    ) + seq![';'] + decimal(g as nat) + seq![';'] + decimal(b as nat));
    assert(seq!['4', '8', ';', '2', ';'] + rest =~= seq!['4', '8', ';', '2', ';'] + decimal(
        r as nat,
    ) + seq![';'] + decimal(g as nat) + seq![';'] + decimal(b as nat));
}

/// Every attribute code is one digit, and none is `6`.
pub proof fn lemma_attribute_codes(a: Attribute)
    ensures
        attr_code(a).len() == 1,
        attr_code(a) != seq!['6'],
{
    assert(seq!['6'][0] == '6');
}

/// A style with nothing set emits no escape sequence, and text under it
/// is rendered unchanged, with no reset after it.
pub proof fn lemma_plain_style_renders_text(v: StyleView, text: Seq<char>, styling: bool)
    requires
        v.is_plain(),
    ensures
        v.ansi_start() == Seq::<char>::empty(),
        v.render(text, styling) == text,
{
    assert(v.params() =~= Seq::<Seq<char>>::empty());
}

/// With styling on, text under a style that sets anything is rendered as
/// `ESC[`, the parameters and `m`, then the text itself, then `ESC[0m`.
pub proof fn lemma_styled_output_frame(v: StyleView, text: Seq<char>)
    requires
        !v.is_plain(),
    ensures
        v.render(text, true) == v.ansi_start() + text + sgr_reset(),
        v.ansi_start().take(2) == sgr_open(),
        v.render(text, true).take(2) == sgr_open(),
        v.render(text, true).subrange(
            v.ansi_start().len() as int,
            (v.ansi_start().len() + text.len()) as int,
        ) == text,
        v.render(text, true).skip(v.render(text, true).len() - 4) == sgr_reset(),
{
    if v.attributes.len() > 0 {
        assert(v.attribute_params().len() > 0);
    }
    assert(v.params().len() > 0);
    let p = v.ansi_start();
    let r = v.render(text, true);
    assert(p.len() >= 2);
    assert(p.take(2) =~= sgr_open());
    assert(r =~= p + text + sgr_reset());
    assert(r.take(2) =~= sgr_open());
    assert(r.subrange(p.len() as int, (p.len() + text.len()) as int) =~= text);
    assert(r.skip(r.len() - 4) =~= sgr_reset());
}

proof fn lemma_occurrences_concat(a: Seq<Seq<char>>, b: Seq<Seq<char>>, code: Seq<char>)
    ensures
        occurrences(a + b, code) == occurrences(a, code) + occurrences(b, code),
    decreases b.len(),
{
    if b.len() == 0 {
        assert(a + b =~= a);
    } else {
        assert((a + b).drop_last() =~= a + b.drop_last());
        lemma_occurrences_concat(a, b.drop_last(), code);
    }
}

proof fn lemma_occurrences_repeated(code: Seq<char>, n: nat)
    ensures
        occurrences(Seq::new(n, |i: int| code), code) == n,
    decreases n,
{
    if n > 0 {
        assert(Seq::new(n, |i: int| code).drop_last() =~= Seq::new((n - 1) as nat, |i: int| code));
        lemma_occurrences_repeated(code, (n - 1) as nat);
    }
}

proof fn lemma_with_attribute_times(v: StyleView, a: Attribute, n: nat)
    ensures
        with_attribute_times(v, a, n).attributes == v.attributes + Seq::new(n, |i: int| a),
        with_attribute_times(v, a, n).foreground == v.foreground,
        with_attribute_times(v, a, n).background == v.background,
    decreases n,
{
    if n == 0 {
        assert(v.attributes + Seq::new(0, |i: int| a) =~= v.attributes);
    } else {
        lemma_with_attribute_times(v, a, (n - 1) as nat);
        assert(v.attributes + Seq::new(n, |i: int| a) =~= (v.attributes + Seq::new(
            (n - 1) as nat,
            |i: int| a,
        )).push(a));
    }
}

/// Adding an attribute `n` times adds `n` occurrences of its code to the
/// style's SGR parameters: repetitions are kept, never merged.
pub proof fn lemma_repeated_attribute(v: StyleView, a: Attribute, n: nat)
    ensures
        occurrences(with_attribute_times(v, a, n).params(), attr_code(a)) == occurrences(
            v.params(),
            attr_code(a),
        ) + n,
{
    let w = with_attribute_times(v, a, n);
    let code = attr_code(a);
    lemma_with_attribute_times(v, a, n);
    let extra = Seq::new(n, |i: int| code);
    assert(w.attribute_params() =~= v.attribute_params() + extra);
    let colours = v.foreground_params() + v.background_params();
    assert(v.params() =~= v.attribute_params() + colours);
    assert(w.params() =~= (v.attribute_params() + extra) + colours);
    lemma_occurrences_concat(v.attribute_params() + extra, colours, code);
    lemma_occurrences_concat(v.attribute_params(), extra, code);
    lemma_occurrences_concat(v.attribute_params(), colours, code);
    lemma_occurrences_repeated(code, n);
}

/// Setting the foreground or the background twice keeps only the colour
/// set last.
pub proof fn lemma_last_colour_wins(v: StyleView, first: Color, second: Color)
    ensures
        v.with_foreground(first).with_foreground(second) == v.with_foreground(second),
        v.with_background(first).with_background(second) == v.with_background(second),
{
}

/// With styling off, any text under any style is rendered as the text
/// itself.
pub proof fn lemma_disabled_styling_renders_text(v: StyleView, text: Seq<char>)
    ensures
        v.render(text, false) == text,
{
}

} // verus!
