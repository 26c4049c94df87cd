use mdpreview::render::{
    render_markdown_to_html, soft_break_html, wrap_display_math, wrap_inline_math,
};

#[test]
fn heading_renders_to_h1() {
    let html = render_markdown_to_html("# Hello");
    assert!(html.contains("<h1>Hello</h1>"));
}

#[test]
fn rendering_twice_is_byte_identical() {
    let src = "# Title\n\nSome *emphasis*, a [link](https://example.org), and `code`.\n";
    let first = render_markdown_to_html(src);
    let second = render_markdown_to_html(src);
    assert_eq!(first, second);
}

#[test]
fn soft_break_becomes_br() {
    assert_eq!(soft_break_html(), "<br>");
    let html = render_markdown_to_html("first line\nsecond line");
    assert!(html.contains("<br>"));
}

#[test]
fn inline_math_is_wrapped() {
    assert_eq!(
        wrap_inline_math("x^2"),
        "<span class=\"math math-inline\">$x^2$</span>"
    );
    let html = render_markdown_to_html("value $x^2$ here");
    assert!(html.contains("<span class=\"math math-inline\">$x^2$</span>"));
}

#[test]
fn display_math_is_wrapped() {
    assert_eq!(
        wrap_display_math("\\sum_i i"),
        "<span class=\"math math-display\">$$\\sum_i i$$</span>"
    );
    let html = render_markdown_to_html("$$\\sum_i i$$");
    assert!(html.contains("math math-display"));
}

#[test]
fn empty_source_renders_without_heading() {
    let html = render_markdown_to_html("");
    assert!(!html.contains("<h1>"));
}
