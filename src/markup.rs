//! Escaping text for the native toolkit's markup language.
use vstd::prelude::*;
use vstd::string::*;
use crate::text::{push_char, push_str};

verus! {

/// The markup for one character: the five reserved characters become
/// entities, every other character stands for itself.
pub open spec fn escape_char(c: char) -> Seq<char> {
    if c == '&' {
        "&amp;"@
    } else if c == '<' {
        "&lt;"@
    } else if c == '>' {
        "&gt;"@
    } else if c == '\'' {
        "&apos;"@
    } else if c == '"' {
        "&quot;"@
    } else {
        seq![c]
    }
}

/// The markup for a whole text, character by character.
pub open spec fn escaped(s: Seq<char>) -> Seq<char>
    decreases s.len(),
{
    if s.len() == 0 {
        Seq::empty()
    } else {
        escaped(s.drop_last()) + escape_char(s.last())
    }
}

/// Escapes `text` so that markup shows it literally.
pub fn pango_escape_text(text: &str) -> (r: String)
    ensures
        r@ == escaped(text@),
{
    let n = text.unicode_len();
    let mut out = String::new();
    let mut i: usize = 0;
    assert(text@.subrange(0, 0) =~= Seq::<char>::empty());
    while i < n
        invariant
            n == text@.len(),
            i <= n,
            out@ == escaped(text@.subrange(0, i as int)),
        decreases n - i,
    {
        let c = text.get_char(i);
        let ghost before = out@;
        assert(text@.subrange(0, i + 1).drop_last() =~= text@.subrange(0, i as int));
        if c == '&' {
            push_str(&mut out, "&amp;");
        } else if c == '<' {
            push_str(&mut out, "&lt;");
        } else if c == '>' {
            push_str(&mut out, "&gt;");
        } else if c == '\'' {
            push_str(&mut out, "&apos;");
        } else if c == '"' {
            push_str(&mut out, "&quot;");
        } else {
            push_char(&mut out, c);
            assert(before.push(c) =~= before + seq![c]);
        }
        i += 1;
    }
    assert(text@.subrange(0, n as int) =~= text@);
    out
}

} // verus!

verus! {

/// A markdown parser event, as far as the conversion to markup reads it.
#[derive(Debug)]
pub enum MdEvent {
    StartParagraph,
    EndParagraph,
    StartList,
    EndList,
    StartItem,
    EndItem,
    StartStrong,
    EndStrong,
    StartEmphasis,
    EndEmphasis,
    StartCodeBlock,
    EndCodeBlock,
    /// The start of a link, with its destination.
    StartLink(String),
    EndLink,
    Text(String),
    Code(String),
    SoftBreak,
    HardBreak,
    /// Anything else; it adds nothing.
    Other,
}

/// ASCII punctuation, as `char::is_ascii_punctuation` documents it.
pub open spec fn is_ascii_punct(c: char) -> bool {
    ('!' <= c && c <= '/') || (':' <= c && c <= '@') || ('[' <= c && c <= '`') || ('{' <= c && c <= '~')
}

/// The markup output so far, and whether it ends in white space.
pub struct MarkupState {
    pub output: Seq<char>,
    pub last_ws: bool,
}

pub open spec fn push_text(st: MarkupState, s: Seq<char>) -> MarkupState {
    if s.len() == 0 {
        st
    } else {
        MarkupState { output: st.output + s, last_ws: crate::desktop_entry::is_ws(s.last()) }
    }
}

pub open spec fn push_one(st: MarkupState, c: char) -> MarkupState {
    MarkupState { output: st.output.push(c), last_ws: crate::desktop_entry::is_ws(c) }
}

pub open spec fn ends_with_nl(s: Seq<char>) -> bool {
    s.len() > 0 && s.last() == '\n'
}

/// A newline, unless the output is empty or already ends in one.
pub open spec fn break_line(st: MarkupState) -> MarkupState {
    if st.output.len() > 0 && !ends_with_nl(st.output) { push_one(st, '\n') } else { st }
}

/// A space before inline content that follows other content directly.
pub open spec fn space_before(st: MarkupState) -> MarkupState {
    if st.output.len() > 0 && !st.last_ws { push_one(st, ' ') } else { st }
}

pub open spec fn link_open(url: Seq<char>) -> Seq<char> {
    "<a href=\""@ + escaped(url) + "\">"@
}

pub open spec fn code_span(t: Seq<char>) -> Seq<char> {
    "<span font_family=\"monospace\">"@ + escaped(t) + "</span>"@
}

/// The markup state after one event.
pub open spec fn markup_step(st: MarkupState, ev: MdEvent) -> MarkupState {
    match ev {
        MdEvent::StartParagraph => {
            let o = st.output;
            if o.len() > 0 && !(o.len() >= 2 && o.subrange(o.len() - 2, o.len() as int) == "\n\n"@) {
                push_text(st, "\n\n"@)
            } else {
                st
            }
        },
        MdEvent::EndParagraph | MdEvent::StartList | MdEvent::EndList => break_line(st),
        MdEvent::StartItem => push_text(break_line(st), "• "@),
        MdEvent::StartStrong => push_text(space_before(st), "<b>"@),
        MdEvent::EndStrong => push_text(st, "</b>"@),
        MdEvent::StartEmphasis => push_text(space_before(st), "<i>"@),
        MdEvent::EndEmphasis => push_text(st, "</i>"@),
        MdEvent::StartCodeBlock => push_text(space_before(st), "<span font_family=\"monospace\">"@),
        MdEvent::EndCodeBlock => push_text(st, "</span>"@),
        MdEvent::StartLink(url) => push_text(space_before(st), link_open(url@)),
        MdEvent::EndLink => push_text(st, "</a>"@),
        MdEvent::Text(t) => {
            let spaced = if t@.len() > 0 && (crate::desktop_entry::is_ws(t@[0]) || is_ascii_punct(t@[0])) {
                st
            } else {
                space_before(st)
            };
            push_text(spaced, escaped(t@))
        },
        MdEvent::Code(t) => push_text(space_before(st), code_span(t@)),
        MdEvent::SoftBreak => push_text(st, "\n"@),
        MdEvent::HardBreak => push_text(st, "<br/>"@),
        _ => st,
    }
}

pub open spec fn markup_of(events: Seq<MdEvent>) -> MarkupState
    decreases events.len(),
{
    if events.len() == 0 {
        MarkupState { output: Seq::empty(), last_ws: true }
    } else {
        markup_step(markup_of(events.drop_last()), events.last())
    }
}

/// Turns markdown events into markup text.
pub struct PangoConverter {
    output: String,
    last_output_char_is_whitespace: bool,
}

impl PangoConverter {
    pub closed spec fn state(&self) -> MarkupState {
        MarkupState { output: self.output@, last_ws: self.last_output_char_is_whitespace }
    }

    pub fn new() -> (r: PangoConverter)
        ensures
            r.state() == (MarkupState { output: Seq::empty(), last_ws: true }),
    {
        PangoConverter { output: String::new(), last_output_char_is_whitespace: true }
    }

    pub fn push_str_and_update_ws(&mut self, s: &str)
        ensures
            final(self).state() == push_text(old(self).state(), s@),
    {
        let n = s.unicode_len();
        if n > 0 {
            crate::text::push_str(&mut self.output, s);
            self.last_output_char_is_whitespace = crate::desktop_entry::is_whitespace(s.get_char(n - 1));
        }
    }

    pub fn push_char_and_update_ws(&mut self, c: char)
        ensures
            final(self).state() == push_one(old(self).state(), c),
    {
        push_char(&mut self.output, c);
        self.last_output_char_is_whitespace = crate::desktop_entry::is_whitespace(c);
    }

    fn ends_with_blank_line(&self) -> (r: bool)
        ensures
            r == (self.output@.len() >= 2 && self.output@.subrange(self.output@.len() - 2, self.output@.len() as int) == "\n\n"@),
    {
        let s = self.output.as_str();
        let n = s.unicode_len();
        proof {
            reveal_strlit("\n\n");
        }
        if n < 2 {
            return false;
        }
        let r = s.get_char(n - 2) == '\n' && s.get_char(n - 1) == '\n';
        let ghost tail = s@.subrange(n - 2, n as int);
        assert("\n\n"@.len() == 2 && "\n\n"@[0] == '\n' && "\n\n"@[1] == '\n');
        if r {
            assert(tail =~= "\n\n"@);
        } else {
            assert(tail[0] != '\n' || tail[1] != '\n');
        }
        r
    }

    fn break_line(&mut self)
        ensures
            final(self).state() == break_line(old(self).state()),
    {
        let s = self.output.as_str();
        if s.unicode_len() > 0 && !crate::text::ends_with_char(s, '\n') {
            self.push_char_and_update_ws('\n');
        }
    }

    fn space_before(&mut self)
        ensures
            final(self).state() == space_before(old(self).state()),
    {
        if self.output.as_str().unicode_len() > 0 && !self.last_output_char_is_whitespace {
            self.push_char_and_update_ws(' ');
        }
    }

    /// Adds the markup of one event.
    pub fn process_event(&mut self, event: MdEvent)
        ensures
            final(self).state() == markup_step(old(self).state(), event),
    {
        match event {
            MdEvent::StartParagraph => {
                if self.output.as_str().unicode_len() > 0 && !self.ends_with_blank_line() {
                    self.push_str_and_update_ws("\n\n");
                }
            },
            MdEvent::EndParagraph | MdEvent::StartList | MdEvent::EndList => self.break_line(),
            MdEvent::StartItem => {
                self.break_line();
                self.push_str_and_update_ws("• ");
            },
            MdEvent::StartStrong => {
                self.space_before();
                self.push_str_and_update_ws("<b>");
            },
            MdEvent::EndStrong => self.push_str_and_update_ws("</b>"),
            MdEvent::StartEmphasis => {
                self.space_before();
                self.push_str_and_update_ws("<i>");
            },
            MdEvent::EndEmphasis => self.push_str_and_update_ws("</i>"),
            MdEvent::StartCodeBlock => {
                self.space_before();
                self.push_str_and_update_ws("<span font_family=\"monospace\">");
            },
            MdEvent::EndCodeBlock => self.push_str_and_update_ws("</span>"),
            MdEvent::StartLink(url) => {
                self.space_before();
                let mut open = String::from_str("<a href=\"");
                let e = pango_escape_text(url.as_str());
                crate::text::push_str(&mut open, e.as_str());
                crate::text::push_str(&mut open, "\">");
                self.push_str_and_update_ws(open.as_str());
            },
            MdEvent::EndLink => self.push_str_and_update_ws("</a>"),
            MdEvent::Text(t) => {
                let ts = t.as_str();
                let starts_plain = ts.unicode_len() > 0 && {
                    let c = ts.get_char(0);
                    crate::desktop_entry::is_whitespace(c) || ('!' <= c && c <= '/') || (':' <= c && c <= '@')
                        || ('[' <= c && c <= '`') || ('{' <= c && c <= '~')
                };
                if !starts_plain {
                    self.space_before();
                }
                let e = pango_escape_text(ts);
                self.push_str_and_update_ws(e.as_str());
            },
            MdEvent::Code(t) => {
                self.space_before();
                let mut span = String::from_str("<span font_family=\"monospace\">");
                let e = pango_escape_text(t.as_str());
                crate::text::push_str(&mut span, e.as_str());
                crate::text::push_str(&mut span, "</span>");
                self.push_str_and_update_ws(span.as_str());
            },
            MdEvent::SoftBreak => self.push_str_and_update_ws("\n"),
            MdEvent::HardBreak => self.push_str_and_update_ws("<br/>"),
            _ => {},
        }
    }

    /// The markup, without leading and trailing white space.
    pub fn into_string(self) -> (r: String)
        ensures
            r@ == crate::desktop_entry::trimmed(self.state().output),
    {
        crate::desktop_entry::trim(self.output.as_str())
    }
}

/// The markup of a markdown document given as its parser events.
pub fn events_to_pango(events: Vec<MdEvent>) -> (r: String)
    ensures
        r@ == crate::desktop_entry::trimmed(markup_of(events@).output),
{
    let mut converter = PangoConverter::new();
    let mut rest = events;
    let ghost all = events@;
    let n = rest.len();
    let mut i: usize = 0;
    assert(all.subrange(0, 0) =~= Seq::<MdEvent>::empty());
    assert(all.subrange(0, n as int) =~= all);
    while rest.len() > 0
        invariant
            n == all.len(),
            i <= n,
            rest@ == all.subrange(i as int, n as int),
            converter.state() == markup_of(all.subrange(0, i as int)),
        decreases rest@.len(),
    {
        let ev = rest.remove(0);
        assert(all.subrange(0, i + 1).drop_last() =~= all.subrange(0, i as int));
        assert(rest@ =~= all.subrange(i + 1, n as int));
        converter.process_event(ev);
        i += 1;
    }
    assert(all.subrange(0, n as int) =~= all);
    converter.into_string()
}

} // verus!
