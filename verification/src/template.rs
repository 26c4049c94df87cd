//! Page template assembly: wraps the rendered artifact, the stylesheet and
//! the embedded assets into one complete HTML document, with or without the
//! live-reload client script.

use vstd::prelude::*;
use crate::render::render_markdown_to_html;
use crate::render::rendered_html;
use crate::sync::SyncState;

verus! {

/// Base64-encoded font faces and the favicon, supplied by the embedding
/// program as inert text blobs.
pub struct Fonts {
    pub font_regular: String,
    pub font_medium: String,
    pub font_light: String,
    pub favicon: String,
}

/// The stylesheet served with every page.
pub const STYLE_CSS: &'static str = "body {
    font-family: 'Oswald', sans-serif;
    max-width: 50rem;
    margin: 0 auto;
    padding: 1rem 2rem;
    line-height: 1.6;
    color: #24292f;
}
h1, h2 {
    border-bottom: 1px solid #d8dee4;
    padding-bottom: 0.3em;
}
pre {
    background: #f6f8fa;
    padding: 1em;
    overflow-x: auto;
    border-radius: 6px;
}
code {
    font-family: monospace;
    background: #f6f8fa;
    border-radius: 4px;
    padding: 0.1em 0.3em;
}
blockquote {
    border-left: 4px solid #d8dee4;
    margin-left: 0;
    padding-left: 1em;
    color: #57606a;
}
table {
    border-collapse: collapse;
}
th, td {
    border: 1px solid #d8dee4;
    padding: 0.4em 0.8em;
}
#footnote-container {
    margin-top: 3em;
    border-top: 1px solid #d8dee4;
    font-size: 0.9em;
}
";

/// The client script that listens on the event stream and reloads the page
/// whenever an event carries the literal token `reload`.
pub const RELOAD_SCRIPT: &'static str = r#"
        <script>
            var evtSource = new EventSource("/events");
            evtSource.onmessage = function(e) {
                if (e.data === "reload") {
                    location.reload();
                }
            };
        </script>
        "#;

/// Document head up to the favicon data.
pub const TPL_HEAD: &'static str = r#"
<!DOCTYPE html>
<html lang="en">
<head>
    <meta charset="UTF-8">
    <meta name="viewport" content="width=device-width, initial-scale=1.0">
    <link rel="icon" href="data:image/x-icon;base64,"#;

/// Helper scripts and the first font face, up to its data.
pub const TPL_SCRIPTS: &'static str = r#"">
    <script>
        document.addEventListener('DOMContentLoaded', function() {
            const footnotes = document.querySelectorAll('.footnote-definition');
            if (footnotes.length > 0) {
                const container = document.createElement('div');
                container.id = 'footnote-container';
                footnotes.forEach(footnote => container.appendChild(footnote));
                document.body.appendChild(container);
            }
        });
    </script>
    <script id="MathJax-script" async src="https://cdn.jsdelivr.net/npm/mathjax@3/es5/tex-mml-chtml.js"></script>
    <script>
    window.MathJax = {
      tex: {
        inlineMath: [['$', '$'], ['\(', '\)']]
      }
    };
    </script>
    <style>
        @font-face {
            font-family: 'Oswald';
            src: url(data:font/truetype;charset=utf-8;base64,"#;

/// End of the regular font face and start of the bold one.
pub const TPL_FONT_BOLD: &'static str = r#") format('truetype');
            font-weight: 400;
            font-style: normal;
        }
        @font-face {
            font-family: 'Oswald';
            src: url(data:font/truetype;charset=utf-8;base64,"#;

/// End of the bold font face and start of the light one.
pub const TPL_FONT_LIGHT: &'static str = r#") format('truetype');
            font-weight: 700;
            font-style: normal;
        }
        @font-face {
            font-family: 'Oswald';
            src: url(data:font/truetype;charset=utf-8;base64,"#;

/// End of the last font face, before the stylesheet text.
pub const TPL_FONT_END: &'static str = r#") format('truetype');
            font-weight: 300;
            font-style: normal;
        }
        "#;

/// Between the stylesheet and the page title.
pub const TPL_TITLE: &'static str = r#"
    </style>
    <title>
        "#;

/// Between the title and the document body.
pub const TPL_BODY: &'static str = r#"
    </title>
</head>
<body>
    "#;

/// Between the rendered document and the reload script slot.
pub const TPL_GAP: &'static str = "\n    ";

/// Closes the document.
pub const TPL_TAIL: &'static str = "\n</body>\n</html>\n";

/// The reload script slot: the client script when live reload is on,
/// nothing when the page is a static one-shot rendering.
pub open spec fn reload_script_spec(enable: bool) -> Seq<char> {
    if enable {
        RELOAD_SCRIPT@
    } else {
        Seq::<char>::empty()
    }
}

/// The complete page: template chunks interleaved with the favicon, the
/// three font blobs, the stylesheet, the source's display name, the
/// rendered document, and the reload script slot — in that order.
pub open spec fn full_html_spec(
    file_name: Seq<char>,
    html_output: Seq<char>,
    style: Seq<char>,
    font_regular: Seq<char>,
    font_medium: Seq<char>,
    font_light: Seq<char>,
    favicon: Seq<char>,
    enable_reload: bool,
) -> Seq<char> {
    TPL_HEAD@ + favicon + TPL_SCRIPTS@ + font_regular + TPL_FONT_BOLD@ + font_medium
        + TPL_FONT_LIGHT@ + font_light + TPL_FONT_END@ + style + TPL_TITLE@ + file_name
        + TPL_BODY@ + html_output + TPL_GAP@ + reload_script_spec(enable_reload) + TPL_TAIL@
}

/// Hands back the stylesheet text.
pub fn read_style_css() -> (r: String)
    ensures
        r@ == STYLE_CSS@,
{
    String::from_str(STYLE_CSS)
}

/// Assembles the complete HTML page around one rendered document.
pub fn build_full_html(
    file_name: &str,
    html_output: &str,
    style: &str,
    fonts: &Fonts,
    enable_reload: bool,
) -> (r: String)
    ensures
        r@ == full_html_spec(
            file_name@,
            html_output@,
            style@,
            fonts.font_regular@,
            fonts.font_medium@,
            fonts.font_light@,
            fonts.favicon@,
            enable_reload,
        ),
{
    let mut r = String::from_str(TPL_HEAD);
    r.append(fonts.favicon.as_str());
    r.append(TPL_SCRIPTS);
    r.append(fonts.font_regular.as_str());
    r.append(TPL_FONT_BOLD);
    r.append(fonts.font_medium.as_str());
    r.append(TPL_FONT_LIGHT);
    r.append(fonts.font_light.as_str());
    r.append(TPL_FONT_END);
    r.append(style);
    r.append(TPL_TITLE);
    r.append(file_name);
    r.append(TPL_BODY);
    r.append(html_output);
    r.append(TPL_GAP);
    if enable_reload {
        r.append(RELOAD_SCRIPT);
    }
    r.append(TPL_TAIL);
    proof {
        assert(r@ =~= full_html_spec(
            file_name@,
            html_output@,
            style@,
            fonts.font_regular@,
            fonts.font_medium@,
            fonts.font_light@,
            fonts.favicon@,
            enable_reload,
        ));
    }
    r
}

/// The one-shot path: renders a markdown source and wraps it in the page
/// template, without the live-reload script.
pub fn render_document(file_name: &str, markdown_input: &str, style: &str, fonts: &Fonts) -> (r:
    String)
    ensures
        r@ == full_html_spec(
            file_name@,
            rendered_html(markdown_input@),
            style@,
            fonts.font_regular@,
            fonts.font_medium@,
            fonts.font_light@,
            fonts.favicon@,
            false,
        ),
{
    let html_output = render_markdown_to_html(markdown_input);
    build_full_html(file_name, html_output.as_str(), style, fonts, false)
}

/// The serving path: wraps the engine's current artifact in the page
/// template, with the live-reload script, so a viewer that fetches right
/// after a change signal sees exactly the committed artifact.
pub fn serve_current(s: &SyncState, style: &str, fonts: &Fonts) -> (r: String)
    ensures
        r@ == full_html_spec(
            s.artifact.source_name@,
            s.artifact.html@,
            style@,
            fonts.font_regular@,
            fonts.font_medium@,
            fonts.font_light@,
            fonts.favicon@,
            true,
        ),
{
    let a = s.read_artifact();
    build_full_html(a.source_name.as_str(), a.html.as_str(), style, fonts, true)
}

} // verus!
