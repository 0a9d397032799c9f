use vstd::prelude::*;

verus! {

/// A text decoration.
#[derive(Debug, Clone, Copy, PartialEq, Eq, Structural)]
pub enum Attribute {
    Bold,
    Dim,
    Italic,
    Underline,
    Blink,
    Reverse,
    Hidden,
    Strikethrough,
}

/// The SGR parameter of an attribute; there is no attribute with code 6.
pub open spec fn attr_code(a: Attribute) -> Seq<char> {
    match a {
        Attribute::Bold => seq!['1'],
        Attribute::Dim => seq!['2'],
        Attribute::Italic => seq!['3'],
        Attribute::Underline => seq!['4'],
        Attribute::Blink => seq!['5'],
        Attribute::Reverse => seq!['7'],
        Attribute::Hidden => seq!['8'],
        Attribute::Strikethrough => seq!['9'],
    }
}

impl Attribute {
    /// The SGR parameter that switches this attribute on.
    pub fn to_code(&self) -> (r: &'static str)
        ensures
            r@ == attr_code(*self),
    {
        proof {
            reveal_strlit("1");
            reveal_strlit("2");
            reveal_strlit("3");
            reveal_strlit("4");
            reveal_strlit("5");
            reveal_strlit("7");
            reveal_strlit("8");
            reveal_strlit("9");
        }
        let r = match self {
            Attribute::Bold => "1",
            Attribute::Dim => "2",
            Attribute::Italic => "3",
            Attribute::Underline => "4",
            Attribute::Blink => "5",
            Attribute::Reverse => "7",
            Attribute::Hidden => "8",
            Attribute::Strikethrough => "9",
        };
        assert(r@ =~= attr_code(*self));
        r
    }
}

} // verus!
