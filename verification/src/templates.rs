//! HTML fragments of the web interface.

use vstd::prelude::*;
use crate::i18n::{lang_tag, tr, tr_text};

verus! {

/// The free-use notice: the translated notice text and warning around a
/// link to the source repository, in a `div` of the given classes.
pub open spec fn notice_html(lang: Seq<char>, open_tag: Seq<char>) -> Seq<char> {
    open_tag + tr_text(lang_tag(lang), "web.free_text"@)
        + " &middot; <a href=\"https://github.com/kychitoge/tomato-tool\" target=\"_blank\" rel=\"noopener\">开源仓库</a><br />"@
        + tr_text(lang_tag(lang), "web.free_warn"@) + "</div>"@
}

fn notice_with(lang: &str, open_tag: &str) -> (r: String)
    ensures
        r@ == notice_html(lang@, open_tag@),
{
    let mut s = String::from_str(open_tag);
    let text = tr(lang, "web.free_text");
    s.append(text.as_str());
    s.append(
        " &middot; <a href=\"https://github.com/kychitoge/tomato-tool\" target=\"_blank\" rel=\"noopener\">开源仓库</a><br />",
    );
    let warn = tr(lang, "web.free_warn");
    s.append(warn.as_str());
    s.append("</div>");
    s
}

/// The free-use notice shown on the desktop pages. Builds made for the
/// official API carry it; other builds show nothing in its place.
pub fn free_notice_html(lang: &str, official_api: bool) -> (r: String)
    ensures
        r@ == (if official_api {
            notice_html(lang@, "<div class=\"free-notice\">"@)
        } else {
            Seq::<char>::empty()
        }),
{
    if official_api {
        notice_with(lang, "<div class=\"free-notice\">")
    } else {
        String::new()
    }
}

/// The free-use notice placed at the bottom of the mobile status page, in
/// builds made for the official API; empty in the others.
pub fn free_notice_mobile_html(lang: &str, official_api: bool) -> (r: String)
    ensures
        r@ == (if official_api {
            notice_html(lang@, "<div class=\"free-notice free-notice-mobile\">"@)
        } else {
            Seq::<char>::empty()
        }),
{
    if official_api {
        notice_with(lang, "<div class=\"free-notice free-notice-mobile\">")
    } else {
        String::new()
    }
}

} // verus!
