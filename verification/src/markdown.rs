//! Markdown to HTML, by comrak.

use vstd::prelude::*;
use crate::ids::AlertMarkdown;

verus! {

/// The HTML that comrak renders for a markdown text. `tables` says whether
/// the table extension is on, `raw_html` whether raw HTML and unsafe links
/// are let through; every other option is comrak's default.
pub uninterp spec fn markdown_html(markdown: Seq<char>, tables: bool, raw_html: bool) -> Seq<char>;

/// `comrak::markdown_to_html` with comrak's default options but for the two
/// that are given: `tables` is put into `extension.table`, `raw_html` into
/// `render.unsafe_`. The HTML depends on the markdown and the two options
/// alone; the contract gives it its name.
#[verifier::external_body]
fn markdown_to_html(markdown: &str, tables: bool, raw_html: bool) -> (html: String)
    ensures
        html@ == markdown_html(markdown@, tables, raw_html),
{
    let mut options = comrak::Options::default();
    options.extension.table = tables;
    options.render.unsafe_ = raw_html;
    comrak::markdown_to_html(markdown, &options)
}

impl AlertMarkdown {
    /// The HTML for this markdown, with tables. Raw HTML in it is kept as
    /// it is: the result is as trustworthy as whoever wrote the alert.
    pub fn to_markdown(&self) -> (html: String)
        ensures
            html@ == markdown_html(self@, true, true),
    {
        markdown_to_html(self.as_str(), true, true)
    }
}

} // verus!
