//! Display labels of the book-name field and novel-format settings, and the
//! way back from a label to the stored value.

use vstd::prelude::*;
use crate::text::chars_is;

verus! {

/// The label shown for a preferred book-name field; an unknown field shows
/// as the default one.
pub open spec fn book_field_label(f: Seq<char>) -> Seq<char> {
    if f == "book_name"@ {
        "Ten sach mac dinh"@
    } else if f == "original_book_name"@ {
        "Ten sach goc"@
    } else if f == "book_short_name"@ {
        "Ten sach ngan"@
    } else if f == "ask_after_download"@ {
        "Chon sau khi tai xong"@
    } else {
        "Ten sach mac dinh"@
    }
}

/// The book-name field that a label stands for.
pub open spec fn book_field_of_label(l: Seq<char>) -> Option<Seq<char>> {
    if l == "Ten sach mac dinh"@ {
        Some("book_name"@)
    } else if l == "Ten sach goc"@ {
        Some("original_book_name"@)
    } else if l == "Ten sach ngan"@ {
        Some("book_short_name"@)
    } else if l == "Chon sau khi tai xong"@ {
        Some("ask_after_download"@)
    } else {
        None
    }
}

/// The stored names of the book-name field.
pub open spec fn is_book_field_name(f: Seq<char>) -> bool {
    f == "book_name"@ || f == "original_book_name"@ || f == "book_short_name"@ || f
        == "ask_after_download"@
}

/// The label shown for a novel format; an unknown format shows as txt.
pub open spec fn format_label(f: Seq<char>) -> Seq<char> {
    if f == "txt"@ {
        "Dinh dang txt"@
    } else if f == "epub"@ {
        "Dinh dang epub"@
    } else if f == "ask_after_download"@ {
        "Chon sau khi tai xong"@
    } else {
        "Dinh dang txt"@
    }
}

/// The novel format that a label stands for.
pub open spec fn format_of_label(l: Seq<char>) -> Option<Seq<char>> {
    if l == "Dinh dang txt"@ {
        Some("txt"@)
    } else if l == "Dinh dang epub"@ {
        Some("epub"@)
    } else if l == "Chon sau khi tai xong"@ {
        Some("ask_after_download"@)
    } else {
        None
    }
}

/// Label of a preferred book-name field.
pub fn book_name_field_to_chinese(field: &[char]) -> (r: &'static str)
    ensures
        r@ == book_field_label(field@),
{
    if chars_is(field, "book_name") {
        "Ten sach mac dinh"
    } else if chars_is(field, "original_book_name") {
        "Ten sach goc"
    } else if chars_is(field, "book_short_name") {
        "Ten sach ngan"
    } else if chars_is(field, "ask_after_download") {
        "Chon sau khi tai xong"
    } else {
        "Ten sach mac dinh"
    }
}

/// The book-name field named by a label, if it is one.
pub fn chinese_to_book_name_field(label: &[char]) -> (r: Option<String>)
    ensures
        match r {
            Some(s) => book_field_of_label(label@) == Some(s@),
            None => book_field_of_label(label@) is None,
        },
{
    if chars_is(label, "Ten sach mac dinh") {
        Some(String::from_str("book_name"))
    } else if chars_is(label, "Ten sach goc") {
        Some(String::from_str("original_book_name"))
    } else if chars_is(label, "Ten sach ngan") {
        Some(String::from_str("book_short_name"))
    } else if chars_is(label, "Chon sau khi tai xong") {
        Some(String::from_str("ask_after_download"))
    } else {
        None
    }
}

/// Whether the text is one of the stored book-name field names.
pub fn is_book_name_field(f: &[char]) -> (r: bool)
    ensures
        r == is_book_field_name(f@),
{
    chars_is(f, "book_name") || chars_is(f, "original_book_name") || chars_is(f, "book_short_name")
        || chars_is(f, "ask_after_download")
}

/// Label of a novel format.
pub fn novel_format_to_chinese(field: &[char]) -> (r: &'static str)
    ensures
        r@ == format_label(field@),
{
    if chars_is(field, "txt") {
        "Dinh dang txt"
    } else if chars_is(field, "epub") {
        "Dinh dang epub"
    } else if chars_is(field, "ask_after_download") {
        "Chon sau khi tai xong"
    } else {
        "Dinh dang txt"
    }
}

/// The novel format named by a label, if it is one.
pub fn chinese_to_novel_format(label: &[char]) -> (r: Option<String>)
    ensures
        match r {
            Some(s) => format_of_label(label@) == Some(s@),
            None => format_of_label(label@) is None,
        },
{
    if chars_is(label, "Dinh dang txt") {
        Some(String::from_str("txt"))
    } else if chars_is(label, "Dinh dang epub") {
        Some(String::from_str("epub"))
    } else if chars_is(label, "Chon sau khi tai xong") {
        Some(String::from_str("ask_after_download"))
    } else {
        None
    }
}

/// Showing a stored book-name field and reading the label back gives the
/// field again.
pub proof fn lemma_book_field_label_round_trip(f: Seq<char>)
    requires
        is_book_field_name(f),
    ensures
        book_field_of_label(book_field_label(f)) == Some(f),
{
    reveal_strlit("book_name");
    reveal_strlit("original_book_name");
    reveal_strlit("book_short_name");
    reveal_strlit("ask_after_download");
    reveal_strlit("Ten sach mac dinh");
    reveal_strlit("Ten sach goc");
    reveal_strlit("Ten sach ngan");
    reveal_strlit("Chon sau khi tai xong");
    assert("Ten sach goc"@.len() != "Ten sach mac dinh"@.len());
    assert("Ten sach ngan"@[9] != "Ten sach mac dinh"@[9]);
    assert("Ten sach ngan"@.len() != "Ten sach goc"@.len());
    assert("Chon sau khi tai xong"@.len() != "Ten sach mac dinh"@.len());
    assert("Chon sau khi tai xong"@.len() != "Ten sach goc"@.len());
    assert("Chon sau khi tai xong"@.len() != "Ten sach ngan"@.len());
    assert("original_book_name"@.len() != "book_name"@.len());
    assert("book_short_name"@.len() != "book_name"@.len());
    assert("book_short_name"@.len() != "original_book_name"@.len());
    assert("ask_after_download"@[0] != "book_name"@[0]);
    assert("ask_after_download"@[0] != "original_book_name"@[0]);
    assert("ask_after_download"@[0] != "book_short_name"@[0]);
}

/// Showing a known novel format and reading the label back gives the
/// format again.
pub proof fn lemma_format_label_round_trip(f: Seq<char>)
    requires
        f == "txt"@ || f == "epub"@ || f == "ask_after_download"@,
    ensures
        format_of_label(format_label(f)) == Some(f),
{
    reveal_strlit("txt");
    reveal_strlit("epub");
    reveal_strlit("ask_after_download");
    reveal_strlit("Dinh dang txt");
    reveal_strlit("Dinh dang epub");
    reveal_strlit("Chon sau khi tai xong");
    assert("txt"@.len() != "epub"@.len());
    assert("txt"@.len() != "ask_after_download"@.len());
    assert("epub"@.len() != "ask_after_download"@.len());
    assert("Dinh dang txt"@.len() != "Dinh dang epub"@.len());
    assert("Dinh dang txt"@.len() != "Chon sau khi tai xong"@.len());
    assert("Dinh dang epub"@.len() != "Chon sau khi tai xong"@.len());
}

} // verus!
