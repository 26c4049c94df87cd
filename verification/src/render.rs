//! The renderer: markup text to HTML text.
//!
//! The markup-to-HTML transformation itself is an opaque pure function of the
//! source text, performed by the `pulldown_cmark` crate; this module names
//! its result and verifies the event substitutions the engine layers on top:
//! soft line breaks become explicit `<br>` tags, and math spans are wrapped
//! in delimiters a client-side formula renderer picks up.

use vstd::prelude::*;
use pulldown_cmark::{html, CowStr, Event, Options, Parser};

verus! {

/// The HTML that rendering a given markdown source produces. The rendering
/// pipeline is deterministic: the same source text always yields the same
/// HTML, byte for byte.
pub uninterp spec fn rendered_html(src: Seq<char>) -> Seq<char>;

/// The HTML substituted for a soft line break.
pub open spec fn soft_break_spec() -> Seq<char> {
    "<br>"@
}

/// An inline math run `s`, wrapped for the client-side formula renderer.
pub open spec fn inline_math_spec(s: Seq<char>) -> Seq<char> {
    "<span class=\"math math-inline\">$"@ + s + "$</span>"@
}

/// A display math run `s`, wrapped for the client-side formula renderer.
pub open spec fn display_math_spec(s: Seq<char>) -> Seq<char> {
    "<span class=\"math math-display\">$$"@ + s + "$$</span>"@
}

/// The literal `<br>` substituted for a soft line break.
pub fn soft_break_html() -> (r: String)
    ensures
        r@ == soft_break_spec(),
{
    String::from_str("<br>")
}

/// Wraps one inline math run in its delimiters.
pub fn wrap_inline_math(s: &str) -> (r: String)
    ensures
        r@ == inline_math_spec(s@),
{
    let mut r = String::from_str("<span class=\"math math-inline\">$");
    r.append(s);
    r.append("$</span>");
    r
}

/// Wraps one display math run in its delimiters.
pub fn wrap_display_math(s: &str) -> (r: String)
    ensures
        r@ == display_math_spec(s@),
{
    let mut r = String::from_str("<span class=\"math math-display\">$$");
    r.append(s);
    r.append("$$</span>");
    r
}

/// Relies on pulldown_cmark: `Parser::new_ext` with all extensions, the
/// event substitutions above, and `html::push_html`. The pipeline reads
/// nothing but the source text, so its output is a function of that text
/// alone, here named `rendered_html`.
#[verifier::external_body]
fn render_markdown_ext(input: &str) -> (r: String)
    ensures
        r@ == rendered_html(input@),
{
    let parser = Parser::new_ext(input, Options::all());
    let mapped = parser.map(|ev| match ev {
        Event::SoftBreak => Event::Html(CowStr::from(soft_break_html())),
        Event::InlineMath(s) => Event::Html(CowStr::from(wrap_inline_math(s.as_ref()))),
        Event::DisplayMath(s) => Event::Html(CowStr::from(wrap_display_math(s.as_ref()))),
        other => other,
    });
    let mut out = String::new();
    html::push_html(&mut out, mapped);
    out
}

/// Renders one markdown source to HTML.
pub fn render_markdown_to_html(markdown_input: &str) -> (r: String)
    ensures
        r@ == rendered_html(markdown_input@),
{
    render_markdown_ext(markdown_input)
}

/// Renderer purity: rendering the same source text twice yields
/// byte-identical HTML output.
pub proof fn lemma_render_deterministic(a: Seq<char>, b: Seq<char>)
    requires
        a == b,
    ensures
        rendered_html(a) == rendered_html(b),
{
}

} // verus!
