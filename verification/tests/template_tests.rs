use mdpreview::sync::{Artifact, SyncState};
use mdpreview::template::{
    build_full_html, read_style_css, render_document, serve_current, Fonts,
};

fn empty_fonts() -> Fonts {
    Fonts {
        font_regular: String::new(),
        font_medium: String::new(),
        font_light: String::new(),
        favicon: String::new(),
    }
}

#[test]
fn page_embeds_artifact_and_title() {
    let fonts = empty_fonts();
    let page = build_full_html("notes.md", "<h1>Hello</h1>", "body {}", &fonts, true);
    assert!(page.contains("<!DOCTYPE html>"));
    assert!(page.contains("<h1>Hello</h1>"));
    assert!(page.contains("notes.md"));
    assert!(page.contains("body {}"));
    assert!(page.ends_with("</html>\n"));
}

#[test]
fn reload_script_only_on_live_pages() {
    let fonts = empty_fonts();
    let live = build_full_html("a.md", "<p>x</p>", "", &fonts, true);
    let oneshot = build_full_html("a.md", "<p>x</p>", "", &fonts, false);
    assert!(live.contains("new EventSource(\"/events\")"));
    assert!(live.contains("location.reload()"));
    assert!(!oneshot.contains("EventSource"));
}

#[test]
fn fonts_are_embedded_in_font_faces() {
    let fonts = Fonts {
        font_regular: "AAAA".to_string(),
        font_medium: "BBBB".to_string(),
        font_light: "CCCC".to_string(),
        favicon: "DDDD".to_string(),
    };
    let page = build_full_html("a.md", "", "", &fonts, false);
    assert!(page.contains("base64,AAAA) format('truetype')"));
    assert!(page.contains("base64,BBBB) format('truetype')"));
    assert!(page.contains("base64,CCCC) format('truetype')"));
    assert!(page.contains("href=\"data:image/x-icon;base64,DDDD\""));
}

#[test]
fn stylesheet_is_nonempty_css() {
    let css = read_style_css();
    assert!(css.contains("body {"));
    assert!(css.contains("#footnote-container"));
}

#[test]
fn static_document_renders_and_wraps() {
    let fonts = empty_fonts();
    let css = read_style_css();
    let page = render_document("hello.md", "# Hello", &css, &fonts);
    assert!(page.contains("<h1>Hello</h1>"));
    assert!(page.contains("hello.md"));
    assert!(!page.contains("EventSource"));
}

#[test]
fn served_page_wraps_current_artifact() {
    let mut s = SyncState::new(Artifact {
        html: "<h1>Hello</h1>".to_string(),
        source_name: "hello.md".to_string(),
    });
    let fonts = empty_fonts();
    let css = read_style_css();
    let page = serve_current(&s, &css, &fonts);
    assert!(page.contains("<h1>Hello</h1>"));
    assert!(page.contains("new EventSource(\"/events\")"));
    s.update_and_publish("<h1>Hello</h1>\n<p>World</p>".to_string());
    let page2 = serve_current(&s, &css, &fonts);
    assert!(page2.contains("<p>World</p>"));
}
