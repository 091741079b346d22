//! Badge rendering: the status-to-color table, the layout geometry derived
//! from the status text, the fixed markup template, and the complete reply
//! for each endpoint the service answers.

use crate::text::{decimal, escape_text, escaped, str_eq, usize_to_decimal};
use crate::upstream::{classification, classify, UpstreamOutcome};
use vstd::prelude::*;

verus! {

/// The display color for a status: an exact-match table over the recognized
/// vocabulary, with a default for every other string (the synthetic failure
/// statuses included).
pub open spec fn color_of(status: Seq<char>) -> Seq<char> {
    if status == "finished"@ {
        "#3fb950"@
    } else if status == "failed"@ {
        "#f85149"@
    } else if status == "in_progress"@ {
        "#2188ff"@
    } else if status == "queued"@ {
        "#6e7681"@
    } else if status == "no_history"@ {
        "#d1d5da"@
    } else {
        "#cea61b"@
    }
}

/// Looks up the display color for a status string.
pub fn color_for(status: &str) -> (r: &'static str)
    ensures
        r@ == color_of(status@),
{
    if str_eq(status, "finished") {
        "#3fb950"
    } else if str_eq(status, "failed") {
        "#f85149"
    } else if str_eq(status, "in_progress") {
        "#2188ff"
    } else if str_eq(status, "queued") {
        "#6e7681"
    } else if str_eq(status, "no_history") {
        "#d1d5da"
    } else {
        "#cea61b"
    }
}

/// Width of the status field: eight units per character of the status text,
/// with a floor of forty units.
pub open spec fn status_field_width_of(status: Seq<char>) -> int {
    if 8 * status.len() < 40 {
        40
    } else {
        8 * status.len() as int
    }
}

/// Total image width: the fixed fifty-unit label field plus the status field.
pub open spec fn total_width_of(status: Seq<char>) -> int {
    50 + status_field_width_of(status)
}

/// Horizontal center of the status text: the midpoint of the status field.
pub open spec fn status_center_of(status: Seq<char>) -> int {
    50 + status_field_width_of(status) / 2
}

/// The layout arithmetic for this status text stays within the machine word.
pub open spec fn fits_layout(status: Seq<char>) -> bool {
    8 * status.len() + 50 <= usize::MAX
}

/// Computes the status field width from the status text.
pub fn status_field_width(status: &str) -> (w: usize)
    requires
        fits_layout(status@),
    ensures
        w == status_field_width_of(status@),
{
    let w = status.unicode_len() * 8;
    if w < 40 {
        40
    } else {
        w
    }
}

/// Computes the total image width from the status text.
pub fn total_width(status: &str) -> (w: usize)
    requires
        fits_layout(status@),
    ensures
        w == total_width_of(status@),
{
    50 + status_field_width(status)
}

/// Computes the horizontal center of the status text from the status text.
pub fn status_center(status: &str) -> (x: usize)
    requires
        fits_layout(status@),
    ensures
        x == status_center_of(status@),
{
    50 + status_field_width(status) / 2
}

/// The badge image for a status string: a fixed markup template with the
/// widths, the color and the escaped status text interpolated. The label
/// field always holds the word `deploy`; the status text is centered in the
/// status field and drawn twice for a beveled effect.
pub open spec fn badge_svg(status: Seq<char>) -> Seq<char> {
    let tw = decimal(total_width_of(status) as nat);
    let sw = decimal(status_field_width_of(status) as nat);
    let cx = decimal(status_center_of(status) as nat);
    "<svg xmlns=\"http://www.w3.org/2000/svg\" width=\""@ + tw
        + "\" height=\"20\">\n            <linearGradient id=\"b\" x2=\"0\" y2=\"100%\">\n                <stop offset=\"0\" stop-color=\"#bbb\" stop-opacity=\".1\"/>\n                <stop offset=\"1\" stop-opacity=\".1\"/>\n            </linearGradient>\n            <mask id=\"a\">\n                <rect width=\""@
        + tw
        + "\" height=\"20\" rx=\"3\" fill=\"#fff\"/>\n            </mask>\n            <g mask=\"url(#a)\">\n                <path fill=\"#555\" d=\"M0 0h50v20H0z\"/>\n                <path fill=\""@
        + color_of(status) + "\" d=\"M50 0h"@ + sw
        + "v20H50z\"/>\n                <path fill=\"url(#b)\" d=\"M0 0h"@ + tw
        + "v20H0z\"/>\n            </g>\n            <g fill=\"#fff\" text-anchor=\"middle\" font-family=\"Verdana,DejaVu Sans,sans-serif\" font-size=\"11\">\n                <text x=\"25\" y=\"15\" fill=\"#010101\" fill-opacity=\".3\">deploy</text>\n                <text x=\"25\" y=\"14\">deploy</text>\n                <text x=\""@
        + cx + "\" y=\"15\" fill=\"#010101\" fill-opacity=\".3\">"@ + escaped(status)
        + "</text>\n                <text x=\""@ + cx + "\" y=\"14\">"@ + escaped(status)
        + "</text>\n            </g>\n        </svg>"@
}

/// Renders the badge image for a status string.
pub fn render_svg(status: &str) -> (r: String)
    requires
        fits_layout(status@),
    ensures
        r@ == badge_svg(status@),
{
    let tw = usize_to_decimal(total_width(status));
    let sw = usize_to_decimal(status_field_width(status));
    let cx = usize_to_decimal(status_center(status));
    let color = color_for(status);
    let text = escape_text(status);
    let mut out = String::from_str("<svg xmlns=\"http://www.w3.org/2000/svg\" width=\"");
    out.append(tw.as_str());
    out.append(
        "\" height=\"20\">\n            <linearGradient id=\"b\" x2=\"0\" y2=\"100%\">\n                <stop offset=\"0\" stop-color=\"#bbb\" stop-opacity=\".1\"/>\n                <stop offset=\"1\" stop-opacity=\".1\"/>\n            </linearGradient>\n            <mask id=\"a\">\n                <rect width=\"",
    );
    out.append(tw.as_str());
    out.append(
        "\" height=\"20\" rx=\"3\" fill=\"#fff\"/>\n            </mask>\n            <g mask=\"url(#a)\">\n                <path fill=\"#555\" d=\"M0 0h50v20H0z\"/>\n                <path fill=\"",
    );
    out.append(color);
    out.append("\" d=\"M50 0h");
    out.append(sw.as_str());
    out.append("v20H50z\"/>\n                <path fill=\"url(#b)\" d=\"M0 0h");
    out.append(tw.as_str());
    out.append(
        "v20H0z\"/>\n            </g>\n            <g fill=\"#fff\" text-anchor=\"middle\" font-family=\"Verdana,DejaVu Sans,sans-serif\" font-size=\"11\">\n                <text x=\"25\" y=\"15\" fill=\"#010101\" fill-opacity=\".3\">deploy</text>\n                <text x=\"25\" y=\"14\">deploy</text>\n                <text x=\"",
    );
    out.append(cx.as_str());
    out.append("\" y=\"15\" fill=\"#010101\" fill-opacity=\".3\">");
    out.append(text.as_str());
    out.append("</text>\n                <text x=\"");
    out.append(cx.as_str());
    out.append("\" y=\"14\">");
    out.append(text.as_str());
    out.append("</text>\n            </g>\n        </svg>");
    proof {
        assert(out@ =~= badge_svg(status@));
    }
    out
}

/// Everything the badge endpoint answers with: the HTTP status, the two
/// headers it always sets, and the image body.
pub struct BadgeReply {
    pub status_code: u16,
    pub content_type: &'static str,
    pub cache_control: &'static str,
    pub body: String,
}

/// Builds the full badge reply for an upstream outcome: always HTTP 200 —
/// every failure mode is absorbed into the rendered image — with the image
/// content type and a cache-control header that forbids caching.
pub fn badge_reply(outcome: &UpstreamOutcome) -> (r: BadgeReply)
    requires
        fits_layout(classification(*outcome)),
    ensures
        r.status_code == 200,
        r.content_type@ == "image/svg+xml"@,
        r.cache_control@ == "no-cache, no-store, must-revalidate"@,
        r.body@ == badge_svg(classification(*outcome)),
{
    let status = classify(outcome);
    let body = render_svg(status.as_str());
    BadgeReply {
        status_code: 200,
        content_type: "image/svg+xml",
        cache_control: "no-cache, no-store, must-revalidate",
        body,
    }
}

/// The liveness reply: HTTP 200 with a fixed message, independent of the
/// upstream and of the configuration.
pub fn root_reply() -> (r: (u16, &'static str))
    ensures
        r.0 == 200,
        r.1@ == "Badge service is alive!"@,
{
    (200, "Badge service is alive!")
}

/// The health reply: HTTP 200 with a fixed message, independent of the
/// upstream and of the configuration.
pub fn health_reply() -> (r: (u16, &'static str))
    ensures
        r.0 == 200,
        r.1@ == "OK"@,
{
    (200, "OK")
}

} // verus!
