use vstd::prelude::*;

use crate::attribute::Attribute;
use crate::color::Color;
use crate::style::{sgr_reset, Style, StyleView, STYLING_ENABLED};

verus! {

/// What a piece of styled text is: its characters and its style.
pub struct ConsoleView {
    pub text: Seq<char>,
    pub style: StyleView,
}

impl ConsoleView {
    /// The same text under `style`.
    pub open spec fn restyled(self, style: StyleView) -> ConsoleView {
        ConsoleView { text: self.text, style }
    }

    /// The characters written for this text.
    pub open spec fn rendered(self, styling: bool) -> Seq<char> {
        self.style.render(self.text, styling)
    }
}

/// Text together with the style it is to be shown in.
#[derive(Clone, Debug)]
pub struct Console {
    pub text: String,
    pub style: Style,
}

impl View for Console {
    type V = ConsoleView;

    open spec fn view(&self) -> ConsoleView {
        ConsoleView { text: self.text@, style: self.style@ }
    }
}

impl Console {
    /// `text` with no styling.
    pub fn new(text: &str) -> (r: Console)
        ensures
            r@ == (ConsoleView { text: text@, style: StyleView::empty() }),
    {
        Console { text: String::from_str(text), style: Style::new() }
    }

    /// `text` under `style`.
    pub fn new_with_style(text: &str, style: Style) -> (r: Console)
        ensures
            r@ == (ConsoleView { text: text@, style: style@ }),
    {
        Console { text: String::from_str(text), style }
    }

    /// Other text under the same style.
    pub fn with_text(&self, text: &str) -> (r: Console)
        ensures
            r@ == (ConsoleView { text: text@, style: self@.style }),
    {
        Console { text: String::from_str(text), style: self.style.duplicate() }
    }

    /// Sets the foreground colour, replacing any earlier one.
    pub fn fg(self, color: Color) -> (r: Console)
        ensures
            r@ == self@.restyled(self@.style.with_foreground(color)),
    {
        Console { text: self.text, style: self.style.fg(color) }
    }

    /// Sets the background colour, replacing any earlier one.
    pub fn bg(self, color: Color) -> (r: Console)
        ensures
            r@ == self@.restyled(self@.style.with_background(color)),
    {
        Console { text: self.text, style: self.style.bg(color) }
    }

    /// Sets an RGB foreground colour.
    pub fn fg_rgb(self, r: u8, g: u8, b: u8) -> (out: Console)
        ensures
            out@ == self@.restyled(self@.style.with_foreground(Color::RGB(r, g, b))),
    {
        self.fg(Color::RGB(r, g, b))
    }

    /// Sets an RGB background colour.
    pub fn bg_rgb(self, r: u8, g: u8, b: u8) -> (out: Console)
        ensures
            out@ == self@.restyled(self@.style.with_background(Color::RGB(r, g, b))),
    {
        self.bg(Color::RGB(r, g, b))
    }

    pub fn black(self) -> (r: Console)
        ensures
            r@ == self@.restyled(self@.style.with_foreground(Color::Named(0))),
    {
        self.fg(Color::black())
    }

    pub fn red(self) -> (r: Console)
        ensures
            r@ == self@.restyled(self@.style.with_foreground(Color::Named(1))),
    {
        self.fg(Color::red())
    }

    pub fn green(self) -> (r: Console)
        ensures
            r@ == self@.restyled(self@.style.with_foreground(Color::Named(2))),
    {
        self.fg(Color::green())
    }

    pub fn yellow(self) -> (r: Console)
        ensures
            r@ == self@.restyled(self@.style.with_foreground(Color::Named(3))),
    {
        self.fg(Color::yellow())
    }

    pub fn blue(self) -> (r: Console)
        ensures
            r@ == self@.restyled(self@.style.with_foreground(Color::Named(4))),
    {
        self.fg(Color::blue())
    }

    pub fn magenta(self) -> (r: Console)
        ensures
            r@ == self@.restyled(self@.style.with_foreground(Color::Named(5))),
    {
        self.fg(Color::magenta())
    }

    pub fn cyan(self) -> (r: Console)
        ensures
            r@ == self@.restyled(self@.style.with_foreground(Color::Named(6))),
    {
        self.fg(Color::cyan())
    }

    pub fn white(self) -> (r: Console)
        ensures
            r@ == self@.restyled(self@.style.with_foreground(Color::Named(7))),
    {
        self.fg(Color::white())
    }

    pub fn bright_black(self) -> (r: Console)
        ensures
            r@ == self@.restyled(self@.style.with_foreground(Color::Named(8))),
    {
        self.fg(Color::bright_black())
    }

    pub fn bright_red(self) -> (r: Console)
        ensures
            r@ == self@.restyled(self@.style.with_foreground(Color::Named(9))),
    {
        self.fg(Color::bright_red())
    }

    pub fn bright_green(self) -> (r: Console)
        ensures
            r@ == self@.restyled(self@.style.with_foreground(Color::Named(10))),
    {
        self.fg(Color::bright_green())
    }

    pub fn bright_yellow(self) -> (r: Console)
        ensures
            r@ == self@.restyled(self@.style.with_foreground(Color::Named(11))),
    {
        self.fg(Color::bright_yellow())
    }

    pub fn bright_blue(self) -> (r: Console)
        ensures
            r@ == self@.restyled(self@.style.with_foreground(Color::Named(12))),
    {
        self.fg(Color::bright_blue())
    }

    pub fn bright_magenta(self) -> (r: Console)
        ensures
            r@ == self@.restyled(self@.style.with_foreground(Color::Named(13))),
    {
        self.fg(Color::bright_magenta())
    }

    pub fn bright_cyan(self) -> (r: Console)
        ensures
            r@ == self@.restyled(self@.style.with_foreground(Color::Named(14))),
    {
        self.fg(Color::bright_cyan())
    }

    pub fn bright_white(self) -> (r: Console)
        ensures
            r@ == self@.restyled(self@.style.with_foreground(Color::Named(15))),
    {
        self.fg(Color::bright_white())
    }

    pub fn on_black(self) -> (r: Console)
        ensures
            r@ == self@.restyled(self@.style.with_background(Color::Named(0))),
    {
        self.bg(Color::black())
    }

    pub fn on_red(self) -> (r: Console)
        ensures
            r@ == self@.restyled(self@.style.with_background(Color::Named(1))),
    {
        self.bg(Color::red())
    }

    pub fn on_green(self) -> (r: Console)
        ensures
            r@ == self@.restyled(self@.style.with_background(Color::Named(2))),
    {
        self.bg(Color::green())
    }

    pub fn on_yellow(self) -> (r: Console)
        ensures
            r@ == self@.restyled(self@.style.with_background(Color::Named(3))),
    {
        self.bg(Color::yellow())
    }

    pub fn on_blue(self) -> (r: Console)
        ensures
            r@ == self@.restyled(self@.style.with_background(Color::Named(4))),
    {
        self.bg(Color::blue())
    }

    pub fn on_magenta(self) -> (r: Console)
        ensures
            r@ == self@.restyled(self@.style.with_background(Color::Named(5))),
    {
        self.bg(Color::magenta())
    }

    pub fn on_cyan(self) -> (r: Console)
        ensures
            r@ == self@.restyled(self@.style.with_background(Color::Named(6))),
    {
        self.bg(Color::cyan())
    }

    pub fn on_white(self) -> (r: Console)
        ensures
            r@ == self@.restyled(self@.style.with_background(Color::Named(7))),
    {
        self.bg(Color::white())
    }

    pub fn on_bright_black(self) -> (r: Console)
        ensures
            r@ == self@.restyled(self@.style.with_background(Color::Named(8))),
    {
        self.bg(Color::bright_black())
    }

    pub fn on_bright_red(self) -> (r: Console)
        ensures
            r@ == self@.restyled(self@.style.with_background(Color::Named(9))),
    {
        self.bg(Color::bright_red())
    }

    pub fn on_bright_green(self) -> (r: Console)
        ensures
            r@ == self@.restyled(self@.style.with_background(Color::Named(10))),
    {
        self.bg(Color::bright_green())
    }

    pub fn on_bright_yellow(self) -> (r: Console)
        ensures
            r@ == self@.restyled(self@.style.with_background(Color::Named(11))),
    {
        self.bg(Color::bright_yellow())
    }

    pub fn on_bright_blue(self) -> (r: Console)
        ensures
            r@ == self@.restyled(self@.style.with_background(Color::Named(12))),
    {
        self.bg(Color::bright_blue())
    }

    pub fn on_bright_magenta(self) -> (r: Console)
        ensures
            r@ == self@.restyled(self@.style.with_background(Color::Named(13))),
    {
        self.bg(Color::bright_magenta())
    }

    pub fn on_bright_cyan(self) -> (r: Console)
        ensures
            r@ == self@.restyled(self@.style.with_background(Color::Named(14))),
    {
        self.bg(Color::bright_cyan())
    }

    pub fn on_bright_white(self) -> (r: Console)
        ensures
            r@ == self@.restyled(self@.style.with_background(Color::Named(15))),
    {
        self.bg(Color::bright_white())
    }

    /// Appends an attribute, even one that is already there.
    pub fn attr(self, attribute: Attribute) -> (r: Console)
        ensures
            r@ == self@.restyled(self@.style.with_attribute(attribute)),
    {
        Console { text: self.text, style: self.style.attr(attribute) }
    }

    pub fn bold(self) -> (r: Console)
        ensures
            r@ == self@.restyled(self@.style.with_attribute(Attribute::Bold)),
    {
        Console { text: self.text, style: self.style.bold() }
    }

    pub fn dim(self) -> (r: Console)
        ensures
            r@ == self@.restyled(self@.style.with_attribute(Attribute::Dim)),
    {
        Console { text: self.text, style: self.style.dim() }
    }

    pub fn italic(self) -> (r: Console)
        ensures
            r@ == self@.restyled(self@.style.with_attribute(Attribute::Italic)),
    {
        Console { text: self.text, style: self.style.italic() }
    }

    pub fn underline(self) -> (r: Console)
        ensures
            r@ == self@.restyled(self@.style.with_attribute(Attribute::Underline)),
    {
        Console { text: self.text, style: self.style.underline() }
    }

    pub fn blink(self) -> (r: Console)
        ensures
            r@ == self@.restyled(self@.style.with_attribute(Attribute::Blink)),
    {
        Console { text: self.text, style: self.style.blink() }
    }

    pub fn reverse(self) -> (r: Console)
        ensures
            r@ == self@.restyled(self@.style.with_attribute(Attribute::Reverse)),
    {
        Console { text: self.text, style: self.style.reverse() }
    }

    pub fn hidden(self) -> (r: Console)
        ensures
            r@ == self@.restyled(self@.style.with_attribute(Attribute::Hidden)),
    {
        Console { text: self.text, style: self.style.hidden() }
    }

    pub fn strikethrough(self) -> (r: Console)
        ensures
            r@ == self@.restyled(self@.style.with_attribute(Attribute::Strikethrough)),
    {
        Console { text: self.text, style: self.style.strikethrough() }
    }

    /// The text between the style's escape sequence and a reset; the bare
    /// text where the style emits nothing or `styling` is off.
    pub fn render_in(&self, styling: bool) -> (r: String)
        ensures
            r@ == self@.rendered(styling),
    {
        let mut out = self.style.ansi_start_in(styling);
        if out.as_str().is_empty() {
            return self.text.clone();
        }
        proof {
            reveal_strlit("\x1b[0m");
        }
        out.append(self.text.as_str());
        out.append("\x1b[0m");
        assert(out@ =~= self@.rendered(styling));
        out
    }

    /// The styled text under the library's styling switch.
    pub fn to_string(&self) -> (r: String)
        ensures
            r@ == self@.rendered(STYLING_ENABLED),
    {
        self.render_in(STYLING_ENABLED)
    }
}

} // verus!
