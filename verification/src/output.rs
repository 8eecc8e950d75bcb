use vstd::prelude::*;

verus! {

/// ANSI escape helpers. All no-op when color is disabled.
#[derive(Debug, Clone, Copy)]
pub struct Style {
    color: bool,
}

/// Text with the escape code that styles it.
#[derive(Debug, Clone, Copy)]
pub struct Styled<'a> {
    text: &'a str,
    code: &'static str,
    color: bool,
}

/// What a styled text shows: the code, the text and the reset code when
/// color is on; the bare text otherwise.
pub open spec fn styled_text(text: Seq<char>, code: Seq<char>, color: bool) -> Seq<char> {
    if color {
        code + text + "\x1b[0m"@
    } else {
        text
    }
}

impl<'a> Styled<'a> {
    pub closed spec fn shown(&self) -> Seq<char> {
        styled_text(self.text@, self.code@, self.color)
    }

    /// The text as it is written to the terminal.
    pub fn render(&self) -> (s: String)
        ensures
            s@ == self.shown(),
    {
        if self.color {
            let mut s = self.code.to_string();
            s.append(self.text);
            s.append("\x1b[0m");
            s
        } else {
            self.text.to_string()
        }
    }
}

impl Style {
    pub closed spec fn colored(&self) -> bool {
        self.color
    }

    pub fn new(color: bool) -> (s: Self)
        ensures
            s.colored() == color,
    {
        Self { color }
    }

    fn styled<'a>(&self, text: &'a str, code: &'static str) -> (s: Styled<'a>)
        ensures
            s.shown() == styled_text(text@, code@, self.colored()),
    {
        Styled { text, code, color: self.color }
    }

    pub fn bold<'a>(&self, text: &'a str) -> (s: Styled<'a>)
        ensures
            s.shown() == styled_text(text@, "\x1b[1m"@, self.colored()),
    {
        self.styled(text, "\x1b[1m")
    }

    pub fn dim<'a>(&self, text: &'a str) -> (s: Styled<'a>)
        ensures
            s.shown() == styled_text(text@, "\x1b[2m"@, self.colored()),
    {
        self.styled(text, "\x1b[2m")
    }

    pub fn green<'a>(&self, text: &'a str) -> (s: Styled<'a>)
        ensures
            s.shown() == styled_text(text@, "\x1b[32m"@, self.colored()),
    {
        self.styled(text, "\x1b[32m")
    }

    pub fn cyan<'a>(&self, text: &'a str) -> (s: Styled<'a>)
        ensures
            s.shown() == styled_text(text@, "\x1b[36m"@, self.colored()),
    {
        self.styled(text, "\x1b[36m")
    }

    pub fn yellow<'a>(&self, text: &'a str) -> (s: Styled<'a>)
        ensures
            s.shown() == styled_text(text@, "\x1b[33m"@, self.colored()),
    {
        self.styled(text, "\x1b[33m")
    }

    pub fn red<'a>(&self, text: &'a str) -> (s: Styled<'a>)
        ensures
            s.shown() == styled_text(text@, "\x1b[31m"@, self.colored()),
    {
        self.styled(text, "\x1b[31m")
    }

    pub fn bold_green<'a>(&self, text: &'a str) -> (s: Styled<'a>)
        ensures
            s.shown() == styled_text(text@, "\x1b[1;32m"@, self.colored()),
    {
        self.styled(text, "\x1b[1;32m")
    }

    pub fn bold_cyan<'a>(&self, text: &'a str) -> (s: Styled<'a>)
        ensures
            s.shown() == styled_text(text@, "\x1b[1;36m"@, self.colored()),
    {
        self.styled(text, "\x1b[1;36m")
    }

    pub fn bold_yellow<'a>(&self, text: &'a str) -> (s: Styled<'a>)
        ensures
            s.shown() == styled_text(text@, "\x1b[1;33m"@, self.colored()),
    {
        self.styled(text, "\x1b[1;33m")
    }

    pub fn bold_red<'a>(&self, text: &'a str) -> (s: Styled<'a>)
        ensures
            s.shown() == styled_text(text@, "\x1b[1;31m"@, self.colored()),
    {
        self.styled(text, "\x1b[1;31m")
    }
}

/// A labeled key-value line: the label dimmed, then the value.
pub fn field_line(style: &Style, label: &str, value: &str) -> (s: String)
    ensures
        s@ == "  "@ + styled_text(label@, "\x1b[2m"@, style.colored()) + "  "@ + value@,
{
    let l = style.dim(label).render();
    let mut s = "  ".to_string();
    s.append(l.as_str());
    s.append("  ");
    s.append(value);
    s
}

/// A section header: an empty line, then the text in bold.
pub fn header_line(style: &Style, text: &str) -> (s: String)
    ensures
        s@ == "\n"@ + styled_text(text@, "\x1b[1m"@, style.colored()),
{
    let b = style.bold(text).render();
    let mut s = "\n".to_string();
    s.append(b.as_str());
    s
}

fn marked_line(mark: String, text: &str) -> (s: String)
    ensures
        s@ == "  "@ + mark@ + " "@ + text@,
{
    let mut s = "  ".to_string();
    s.append(mark.as_str());
    s.append(" ");
    s.append(text);
    s
}

/// A success line: a bold green check mark, then the text.
pub fn ok_line(style: &Style, text: &str) -> (s: String)
    ensures
        s@ == "  "@ + styled_text("✓"@, "\x1b[1;32m"@, style.colored()) + " "@ + text@,
{
    marked_line(style.bold_green("✓").render(), text)
}

/// A warning line: a bold yellow `!`, then the text.
pub fn warn_line(style: &Style, text: &str) -> (s: String)
    ensures
        s@ == "  "@ + styled_text("!"@, "\x1b[1;33m"@, style.colored()) + " "@ + text@,
{
    marked_line(style.bold_yellow("!").render(), text)
}

/// An error line: a bold red cross, then the text.
pub fn err_line(style: &Style, text: &str) -> (s: String)
    ensures
        s@ == "  "@ + styled_text("✗"@, "\x1b[1;31m"@, style.colored()) + " "@ + text@,
{
    marked_line(style.bold_red("✗").render(), text)
}

} // verus!
