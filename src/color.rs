use vstd::prelude::*;

verus! {

/// The character of a decimal digit `d` (`d < 10`).
pub open spec fn digit_char(d: nat) -> char {
    seq!['0', '1', '2', '3', '4', '5', '6', '7', '8', '9'][d as int]
}

/// The decimal notation of `n`, without leading zeros.
pub open spec fn decimal(n: nat) -> Seq<char>
    decreases n,
{
    if n < 10 {
        seq![digit_char(n)]
    } else {
        decimal(n / 10).push(digit_char(n % 10))
    }
}

/// One decimal digit as a one-character string.
fn digit_str(d: u8) -> (r: &'static str)
    requires
        d < 10,
    ensures
        r@ == seq![digit_char(d as nat)],
{
    proof {
        reveal_strlit("0");
        reveal_strlit("1");
        reveal_strlit("2");
        reveal_strlit("3");
        reveal_strlit("4");
        reveal_strlit("5");
        reveal_strlit("6");
        reveal_strlit("7");
        reveal_strlit("8");
        reveal_strlit("9");
    }
    let r = match d {
        0 => "0",
        1 => "1",
        2 => "2",
        3 => "3",
        4 => "4",
        5 => "5",
        6 => "6",
        7 => "7",
        8 => "8",
        _ => "9",
    };
    assert(r@ =~= seq![digit_char(d as nat)]);
    r
}

/// Appends the decimal notation of `n` to `out`.
fn push_decimal(out: &mut String, n: u8)
    ensures
        final(out)@ == old(out)@ + decimal(n as nat),
{
    let ghost start = out@;
    if n >= 100 {
        out.append(digit_str(n / 100));
    }
    if n >= 10 {
        out.append(digit_str((n / 10) % 10));
    }
    out.append(digit_str(n % 10));
    proof {
        let k = n as nat;
        reveal_with_fuel(decimal, 3);
        if k >= 100 {
            assert(k / 10 / 10 == k / 100);
            assert(decimal(k) =~= seq![digit_char(k / 100), digit_char((k / 10) % 10), digit_char(k % 10)]);
        } else if k >= 10 {
            assert(decimal(k) =~= seq![digit_char(k / 10), digit_char(k % 10)]);
        }
        assert(out@ =~= start + decimal(k));
    }
}

/// A terminal colour: an index into the 256-colour palette, or a 24-bit
/// RGB triple.
#[derive(Debug, Clone, Copy, PartialEq, Eq, Structural)]
pub enum Color {
    Named(u8),
    RGB(u8, u8, u8),
}

/// The SGR parameters selecting colour `c` in the layer introduced by
/// `layer` ("38" for the foreground, "48" for the background).
pub open spec fn color_code(layer: Seq<char>, c: Color) -> Seq<char> {
    match c {
        Color::Named(n) => layer + seq![';', '5', ';'] + decimal(n as nat),
        Color::RGB(r, g, b) => layer + seq![';', '2', ';'] + decimal(r as nat) + seq![';'] + decimal(
            g as nat,
        ) + seq![';'] + decimal(b as nat),
    }
}

/// The SGR parameters of `c` as a foreground colour.
pub open spec fn fg_code(c: Color) -> Seq<char> {
    color_code(seq!['3', '8'], c)
}

/// The SGR parameters of `c` as a background colour.
pub open spec fn bg_code(c: Color) -> Seq<char> {
    color_code(seq!['4', '8'], c)
}

impl Color {
    /// Palette index 0.
    pub fn black() -> (r: Color)
        ensures
            r == Color::Named(0),
    {
        Color::Named(0)
    }

    /// Palette index 1.
    pub fn red() -> (r: Color)
        ensures
            r == Color::Named(1),
    {
        Color::Named(1)
    }

    /// Palette index 2.
    pub fn green() -> (r: Color)
        ensures
            r == Color::Named(2),
    {
        Color::Named(2)
    }

    /// Palette index 3.
    pub fn yellow() -> (r: Color)
        ensures
            r == Color::Named(3),
    {
        Color::Named(3)
    }

    /// Palette index 4.
    pub fn blue() -> (r: Color)
        ensures
            r == Color::Named(4),
    {
        Color::Named(4)
    }

    /// Palette index 5.
    pub fn magenta() -> (r: Color)
        ensures
            r == Color::Named(5),
    {
        Color::Named(5)
    }

    /// Palette index 6.
    pub fn cyan() -> (r: Color)
        ensures
            r == Color::Named(6),
    {
        Color::Named(6)
    }

    /// Palette index 7.
    pub fn white() -> (r: Color)
        ensures
            r == Color::Named(7),
    {
        Color::Named(7)
    }

    /// Palette index 8.
    pub fn bright_black() -> (r: Color)
        ensures
            r == Color::Named(8),
    {
        Color::Named(8)
    }

    /// Palette index 9.
    pub fn bright_red() -> (r: Color)
        ensures
            r == Color::Named(9),
    {
        Color::Named(9)
    }

    /// Palette index 10.
    pub fn bright_green() -> (r: Color)
        ensures
            r == Color::Named(10),
    {
        Color::Named(10)
    }

    /// Palette index 11.
    pub fn bright_yellow() -> (r: Color)
        ensures
            r == Color::Named(11),
    {
        Color::Named(11)
    }

    /// Palette index 12.
    pub fn bright_blue() -> (r: Color)
        ensures
            r == Color::Named(12),
    {
        Color::Named(12)
    }

    /// Palette index 13.
    pub fn bright_magenta() -> (r: Color)
        ensures
            r == Color::Named(13),
    {
        Color::Named(13)
    }

    /// Palette index 14.
    pub fn bright_cyan() -> (r: Color)
        ensures
            r == Color::Named(14),
    {
        Color::Named(14)
    }

    /// Palette index 15.
    pub fn bright_white() -> (r: Color)
        ensures
            r == Color::Named(15),
    {
        Color::Named(15)
    }

    /// Writes `layer` followed by this colour's selector and channels.
    fn code_in_layer(&self, layer: &str) -> (r: String)
        ensures
            r@ == color_code(layer@, *self),
    {
        let mut out = String::from_str(layer);
        proof {
            reveal_strlit(";5;");
            reveal_strlit(";2;");
            reveal_strlit(";");
        }
        match *self {
            Color::Named(n) => {
                out.append(";5;");
                push_decimal(&mut out, n);
            },
            Color::RGB(r, g, b) => {
                out.append(";2;");
                push_decimal(&mut out, r);
                out.append(";");
                push_decimal(&mut out, g);
                out.append(";");
                push_decimal(&mut out, b);
            },
        }
        out
    }

    /// The foreground code: `38;5;n` for a palette index, `38;2;r;g;b`
    /// for an RGB triple.
    pub fn to_fg_code(&self) -> (r: String)
        ensures
            r@ == fg_code(*self),
    {
        proof {
            reveal_strlit("38");
        }
        assert("38"@ =~= seq!['3', '8']);
        self.code_in_layer("38")
    }

    /// The background code: `48;5;n` for a palette index, `48;2;r;g;b`
    /// for an RGB triple.
    pub fn to_bg_code(&self) -> (r: String)
        ensures
            r@ == bg_code(*self),
    {
        proof {
            reveal_strlit("48");
        }
        assert("48"@ =~= seq!['4', '8']);
        self.code_in_layer("48")
    }
}

} // verus!
