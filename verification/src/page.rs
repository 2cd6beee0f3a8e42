//! Host-page rendering.
//!
//! A page template carries two substitution markers: `{{name}}` for the
//! target's display name and `{{css}}` for optional stylesheet text.
//! Rendering is literal text replacement, not a templating engine.  The
//! stylesheet text is rejected when it holds a style-closing tag, since that
//! could inject elements into the generated page; a caller-supplied template
//! is rejected when it lacks a marker that the substitution needs.

use vstd::prelude::*;

verus! {

use crate::errors::RunError;
use crate::errors::TemplateFault;
use crate::text::contains_pattern;
use crate::text::contains_seq;
use crate::text::replace_all;
use crate::text::spec_replace;
use vstd::string::StrSliceExecFns;

/// The marker replaced by the target's display name.
pub open spec fn name_marker() -> Seq<char> {
    "{{name}}"@
}

/// The marker replaced by the stylesheet text.
pub open spec fn css_marker() -> Seq<char> {
    "{{css}}"@
}

/// The closing tag that stylesheet text may not hold.
pub open spec fn style_close_tag() -> Seq<char> {
    "</style>"@
}

/// The text of the default page template.
pub open spec fn default_template_text() -> Seq<char> {
    "<!DOCTYPE html>\n<html lang=\"en\">\n  <head>\n    <meta charset=\"UTF-8\" />\n    <title>{{name}}</title>\n    <style type=\"text/css\">\n      {{css}}\n    </style>\n  </head>\n  <body>\n    <script type=\"module\">\n      import init from './{{name}}.js';\n      init();\n    </script>\n  </body>\n</html>\n"@
}

/// The page template used when the caller supplies none: a minimal page that
/// loads the generated browser module and applies the optional stylesheet.
pub fn default_template() -> (r: &'static str)
    ensures
        r@ == default_template_text(),
{
    "<!DOCTYPE html>\n<html lang=\"en\">\n  <head>\n    <meta charset=\"UTF-8\" />\n    <title>{{name}}</title>\n    <style type=\"text/css\">\n      {{css}}\n    </style>\n  </head>\n  <body>\n    <script type=\"module\">\n      import init from './{{name}}.js';\n      init();\n    </script>\n  </body>\n</html>\n"
}

/// Why rendering rejects these inputs, if it does.  The stylesheet check
/// comes first, then the name marker, then the stylesheet marker, which is
/// required only when stylesheet text was supplied.
pub open spec fn spec_render_error(template: Seq<char>, css: Seq<char>) -> Option<RunError> {
    if contains_seq(css, style_close_tag()) {
        Some(RunError::Template(TemplateFault::DisallowedStylesheet))
    } else if !contains_seq(template, name_marker()) {
        Some(RunError::Template(TemplateFault::MissingNameMarker))
    } else if css.len() > 0 && !contains_seq(template, css_marker()) {
        Some(RunError::Template(TemplateFault::MissingStylesheetMarker))
    } else {
        None
    }
}

/// The rendered page: the name marker replaced by `name`, then the
/// stylesheet marker replaced by `css`.  A replaced name cannot conjure a
/// stylesheet marker, since `{` is not valid in a crate or target name.
pub open spec fn spec_render(template: Seq<char>, name: Seq<char>, css: Seq<char>) -> Seq<char> {
    spec_replace(spec_replace(template, name_marker(), name), css_marker(), css)
}

/// Renders `template` with the target's display name and the stylesheet
/// text, or reports exactly why the inputs are rejected.  Nothing is written
/// anywhere by this function; a run that renders no page writes none.
pub fn render_page(template: &str, name: &str, css: &str) -> (r: Result<String, RunError>)
    ensures
        match r {
            Ok(page) => spec_render_error(template@, css@) is None && page@ == spec_render(
                template@,
                name@,
                css@,
            ),
            Err(e) => spec_render_error(template@, css@) == Some(e),
        },
{
    if contains_pattern(css, "</style>") {
        return Err(RunError::Template(TemplateFault::DisallowedStylesheet));
    }
    if !contains_pattern(template, "{{name}}") {
        return Err(RunError::Template(TemplateFault::MissingNameMarker));
    }
    if css.unicode_len() > 0 && !contains_pattern(template, "{{css}}") {
        return Err(RunError::Template(TemplateFault::MissingStylesheetMarker));
    }
    let with_name = replace_all(template, "{{name}}", name);
    let with_css = replace_all(with_name.as_str(), "{{css}}", css);
    Ok(with_css)
}

/// Stylesheet text holding a style-closing tag is rejected whatever the
/// template and the name: rendering fails, produces no page text, and so
/// no page file is ever written for it.
pub proof fn lemma_disallowed_stylesheet_always_rejected(template: Seq<char>, css: Seq<char>)
    requires
        contains_seq(css, style_close_tag()),
    ensures
        spec_render_error(template, css) == Some(
            RunError::Template(TemplateFault::DisallowedStylesheet),
        ),
{
}

/// A template lacking the stylesheet marker can never be rendered with
/// stylesheet text: whenever text was supplied, rendering fails with a
/// template error.
pub proof fn lemma_missing_stylesheet_marker_rejected(template: Seq<char>, css: Seq<char>)
    requires
        css.len() > 0,
        !contains_seq(template, css_marker()),
    ensures
        spec_render_error(template, css) matches Some(e) && e matches RunError::Template(_),
{
}

} // verus!
