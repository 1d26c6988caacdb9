use ink::markup::{events_to_pango, MdEvent, PangoConverter};

fn text(s: &str) -> MdEvent {
    MdEvent::Text(s.to_string())
}

#[test]
fn paragraph_with_strong_text() {
    let events = vec![
        MdEvent::StartParagraph,
        text("Hello"),
        MdEvent::StartStrong,
        text("world"),
        MdEvent::EndStrong,
        MdEvent::EndParagraph,
        MdEvent::StartParagraph,
        text("Next"),
        MdEvent::EndParagraph,
    ];
    assert_eq!(events_to_pango(events), "Hello <b> world</b>\n\n\nNext");
}

#[test]
fn list_items_on_lines() {
    let events = vec![
        MdEvent::StartList,
        MdEvent::StartItem,
        text("a"),
        MdEvent::EndItem,
        MdEvent::StartItem,
        text("b"),
        MdEvent::EndItem,
        MdEvent::EndList,
    ];
    assert_eq!(events_to_pango(events), "• a\n• b");
}

#[test]
fn links_code_and_punctuation() {
    let events = vec![
        text("see"),
        MdEvent::StartLink("http://x?a=1&b=2".to_string()),
        text("here"),
        MdEvent::EndLink,
        text(", then run"),
        MdEvent::Code("x<y".to_string()),
        MdEvent::HardBreak,
        MdEvent::Other,
    ];
    assert_eq!(
        events_to_pango(events),
        "see <a href=\"http://x?a=1&amp;b=2\"> here</a>, then run <span font_family=\"monospace\">x&lt;y</span><br/>"
    );
}

#[test]
fn converter_tracks_trailing_space() {
    let mut c = PangoConverter::new();
    c.push_str_and_update_ws("  a ");
    c.push_char_and_update_ws('b');
    c.process_event(MdEvent::SoftBreak);
    c.process_event(MdEvent::StartEmphasis);
    c.process_event(text("it"));
    c.process_event(MdEvent::EndEmphasis);
    assert_eq!(c.into_string(), "a b\n<i> it</i>");
}
