use vstd::prelude::*;

use crate::attribute::{attr_code, Attribute};
use crate::color::{bg_code, fg_code, Color};

verus! {

/// Whether styled output carries escape sequences. When it is `false`
/// every rendering degrades to the plain text.
pub const STYLING_ENABLED: bool = true;

/// The escape that opens an SGR sequence: ESC followed by `[`.
pub open spec fn sgr_open() -> Seq<char> {
    seq!['\x1b', '[']
}

/// The SGR sequence that resets every colour and attribute.
pub open spec fn sgr_reset() -> Seq<char> {
    seq!['\x1b', '[', '0', 'm']
}

/// The parameters joined with `;` between neighbours.
pub open spec fn join_params(params: Seq<Seq<char>>) -> Seq<char>
    decreases params.len(),
{
    if params.len() == 0 {
        Seq::empty()
    } else if params.len() == 1 {
        params[0]
    } else {
        join_params(params.drop_last()) + seq![';'] + params.last()
    }
}

/// The strings' contents.
pub open spec fn string_views(v: Seq<String>) -> Seq<Seq<char>> {
    v.map_values(|s: String| s@)
}

/// What a style is: an optional foreground, an optional background and the
/// attributes in the order they were added, repetitions kept.
pub struct StyleView {
    pub foreground: Option<Color>,
    pub background: Option<Color>,
    pub attributes: Seq<Attribute>,
}

impl StyleView {
    /// The style with nothing set.
    pub open spec fn empty() -> StyleView {
        StyleView { foreground: None, background: None, attributes: Seq::empty() }
    }

    pub open spec fn with_foreground(self, c: Color) -> StyleView {
        StyleView { foreground: Some(c), ..self }
    }

    pub open spec fn with_background(self, c: Color) -> StyleView {
        StyleView { background: Some(c), ..self }
    }

    pub open spec fn with_attribute(self, a: Attribute) -> StyleView {
        StyleView { attributes: self.attributes.push(a), ..self }
    }

    /// Whether nothing at all is set.
    pub open spec fn is_plain(self) -> bool {
        &&& self.foreground is None
        &&& self.background is None
        &&& self.attributes.len() == 0
    }

    /// The codes of the attributes, in order.
    pub open spec fn attribute_params(self) -> Seq<Seq<char>> {
        self.attributes.map_values(|a: Attribute| attr_code(a))
    }

    /// The code of the foreground, if one is set.
    pub open spec fn foreground_params(self) -> Seq<Seq<char>> {
        match self.foreground {
            Some(c) => seq![fg_code(c)],
            None => Seq::empty(),
        }
    }

    /// The code of the background, if one is set.
    pub open spec fn background_params(self) -> Seq<Seq<char>> {
        match self.background {
            Some(c) => seq![bg_code(c)],
            None => Seq::empty(),
        }
    }

    /// The SGR parameters: the attributes' codes, then the foreground's,
    /// then the background's.
    pub open spec fn params(self) -> Seq<Seq<char>> {
        self.attribute_params() + self.foreground_params() + self.background_params()
    }

    /// The escape sequence that switches the style on; empty where there
    /// are no parameters.
    pub open spec fn ansi_start(self) -> Seq<char> {
        if self.params().len() == 0 {
            Seq::empty()
        } else {
            sgr_open() + join_params(self.params()) + seq!['m']
        }
    }

    /// The prefix written before the text: the escape sequence when
    /// styling is on, nothing when it is off.
    pub open spec fn prefix(self, styling: bool) -> Seq<char> {
        if styling {
            self.ansi_start()
        } else {
            Seq::empty()
        }
    }

    /// `text` under this style: wrapped between the prefix and a reset
    /// where the prefix is not empty, unchanged where it is.
    pub open spec fn render(self, text: Seq<char>, styling: bool) -> Seq<char> {
        if self.prefix(styling).len() == 0 {
            text
        } else {
            self.prefix(styling) + text + sgr_reset()
        }
    }
}

/// A style: colours and attributes to apply to text.
#[derive(Clone, Debug)]
pub struct Style {
    pub foreground: Option<Color>,
    pub background: Option<Color>,
    pub attributes: Vec<Attribute>,
}

impl View for Style {
    type V = StyleView;

    open spec fn view(&self) -> StyleView {
        StyleView {
            foreground: self.foreground,
            background: self.background,
            attributes: self.attributes@,
        }
    }
}

impl Style {
    /// A style with no colour and no attribute.
    pub fn new() -> (r: Style)
        ensures
            r@ == StyleView::empty(),
    {
        Style { foreground: None, background: None, attributes: Vec::new() }
    }

    /// Sets the foreground colour, replacing any earlier one.
    pub fn fg(self, color: Color) -> (r: Style)
        ensures
            r@ == self@.with_foreground(color),
    {
        Style { foreground: Some(color), background: self.background, attributes: self.attributes }
    }

    /// Sets the background colour, replacing any earlier one.
    pub fn bg(self, color: Color) -> (r: Style)
        ensures
            r@ == self@.with_background(color),
    {
        Style { foreground: self.foreground, background: Some(color), attributes: self.attributes }
    }

    /// Appends an attribute, even one that is already there.
    pub fn attr(self, attribute: Attribute) -> (r: Style)
        ensures
            r@ == self@.with_attribute(attribute),
    {
        let mut attributes = self.attributes;
        attributes.push(attribute);
        Style { foreground: self.foreground, background: self.background, attributes }
    }

    pub fn bold(self) -> (r: Style)
        ensures
            r@ == self@.with_attribute(Attribute::Bold),
    {
        self.attr(Attribute::Bold)
    }

    pub fn dim(self) -> (r: Style)
        ensures
            r@ == self@.with_attribute(Attribute::Dim),
    {
        self.attr(Attribute::Dim)
    }

    pub fn italic(self) -> (r: Style)
        ensures
            r@ == self@.with_attribute(Attribute::Italic),
    {
        self.attr(Attribute::Italic)
    }

    pub fn underline(self) -> (r: Style)
        ensures
            r@ == self@.with_attribute(Attribute::Underline),
    {
        self.attr(Attribute::Underline)
    }

    pub fn blink(self) -> (r: Style)
        ensures
            r@ == self@.with_attribute(Attribute::Blink),
    {
        self.attr(Attribute::Blink)
    }

    pub fn reverse(self) -> (r: Style)
        ensures
            r@ == self@.with_attribute(Attribute::Reverse),
    {
        self.attr(Attribute::Reverse)
    }

    pub fn hidden(self) -> (r: Style)
        ensures
            r@ == self@.with_attribute(Attribute::Hidden),
    {
        self.attr(Attribute::Hidden)
    }

    pub fn strikethrough(self) -> (r: Style)
        ensures
            r@ == self@.with_attribute(Attribute::Strikethrough),
    {
        self.attr(Attribute::Strikethrough)
    }

    /// An independent style with the same colours and attributes.
    pub(crate) fn duplicate(&self) -> (r: Style)
        ensures
            r@ == self@,
    {
        let mut attributes: Vec<Attribute> = Vec::new();
        let n = self.attributes.len();
        let mut i: usize = 0;
        while i < n
            invariant
                n == self.attributes@.len(),
                i <= n,
                attributes@ =~= self.attributes@.take(i as int),
            decreases n - i,
        {
            attributes.push(self.attributes[i]);
            i = i + 1;
        }
        assert(attributes@ =~= self.attributes@);
        Style { foreground: self.foreground, background: self.background, attributes }
    }
}

impl Default for Style {
    fn default() -> (r: Style)
        ensures
            r@ == StyleView::empty(),
    {
        Style::new()
    }
}

/// Joins the strings with `;` between neighbours.
fn join_with_semicolons(codes: &Vec<String>) -> (r: String)
    ensures
        r@ == join_params(string_views(codes@)),
{
    let mut out = String::new();
    proof {
        reveal_strlit(";");
    }
    assert(";"@ =~= seq![';']);
    let n = codes.len();
    let mut i: usize = 0;
    while i < n
        invariant
            n == codes@.len(),
            i <= n,
            ";"@ == seq![';'],
            out@ == join_params(string_views(codes@.take(i as int))),
        decreases n - i,
    {
        let ghost before = string_views(codes@.take(i as int));
        let ghost after = string_views(codes@.take(i + 1));
        assert(after.drop_last() =~= before);
        assert(after.last() == codes@[i as int]@);
        if i > 0 {
            out.append(";");
            out.append(codes[i].as_str());
            assert(out@ =~= join_params(before) + seq![';'] + after.last());
        } else {
            assert(after.len() == 1);
            out.append(codes[i].as_str());
            assert(out@ =~= after[0]);
        }
        i = i + 1;
    }
    assert(codes@.take(n as int) =~= codes@);
    out
}

impl Style {
    /// The SGR parameters of this style, each as a string.
    fn sgr_params(&self) -> (codes: Vec<String>)
        ensures
            string_views(codes@) == self@.params(),
    {
        let mut codes: Vec<String> = Vec::new();
        let n = self.attributes.len();
        let mut i: usize = 0;
        while i < n
            invariant
                n == self.attributes@.len(),
                i <= n,
                string_views(codes@) =~= self@.attribute_params().take(i as int),
            decreases n - i,
        {
            let ghost before = codes@;
            let code = String::from_str(self.attributes[i].to_code());
            codes.push(code);
            assert(codes@ =~= before.push(code));
            assert(self@.attribute_params().take(i + 1) =~= self@.attribute_params().take(
                i as int,
            ).push(attr_code(self.attributes@[i as int])));
            i = i + 1;
        }
        assert(self@.attribute_params().take(n as int) =~= self@.attribute_params());
        match self.foreground {
            Some(c) => {
                let ghost before = codes@;
                let code = c.to_fg_code();
                codes.push(code);
                assert(codes@ =~= before.push(code));
            },
            None => {},
        }
        assert(string_views(codes@) =~= self@.attribute_params() + self@.foreground_params());
        match self.background {
            Some(c) => {
                let ghost before = codes@;
                let code = c.to_bg_code();
                codes.push(code);
                assert(codes@ =~= before.push(code));
            },
            None => {},
        }
        assert(string_views(codes@) =~= self@.params());
        codes
    }

    /// The escape sequence that switches this style on, or the empty
    /// string when styling is off or nothing is set.
    pub fn ansi_start_in(&self, styling: bool) -> (r: String)
        ensures
            r@ == self@.prefix(styling),
    {
        if !styling {
            return String::new();
        }
        let codes = self.sgr_params();
        if codes.len() == 0 {
            String::new()
        } else {
            proof {
                reveal_strlit("\x1b[");
                reveal_strlit("m");
            }
            let mut out = String::from_str("\x1b[");
            let joined = join_with_semicolons(&codes);
            out.append(joined.as_str());
            out.append("m");
            assert(out@ =~= self@.ansi_start());
            out
        }
    }

    /// The escape sequence that switches this style on, under the
    /// library's styling switch.
    pub fn to_ansi_start(&self) -> (r: String)
        ensures
            r@ == self@.prefix(STYLING_ENABLED),
    {
        self.ansi_start_in(STYLING_ENABLED)
    }
}

} // verus!
