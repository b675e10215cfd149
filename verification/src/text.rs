//! Character-level text handling: whitespace trimming, ASCII case folding,
//! decimal formatting and parsing, and comma-separated lists.

use vstd::prelude::*;

verus! {

// ----------------------------------------------------------------------
// Specifications
// ----------------------------------------------------------------------

/// Unicode `White_Space`, the property that `char::is_whitespace` tests.
pub open spec fn is_ws(c: char) -> bool {
    ||| ('\u{9}' <= c && c <= '\u{d}')
    ||| c == ' '
    ||| c == '\u{85}'
    ||| c == '\u{a0}'
    ||| c == '\u{1680}'
    ||| ('\u{2000}' <= c && c <= '\u{200a}')
    ||| c == '\u{2028}'
    ||| c == '\u{2029}'
    ||| c == '\u{202f}'
    ||| c == '\u{205f}'
    ||| c == '\u{3000}'
}

/// The text without its leading whitespace.
pub open spec fn trim_start(s: Seq<char>) -> Seq<char>
    decreases s.len(),
{
    if s.len() > 0 && is_ws(s[0]) {
        trim_start(s.drop_first())
    } else {
        s
    }
}

/// The text without its trailing whitespace.
pub open spec fn trim_end(s: Seq<char>) -> Seq<char>
    decreases s.len(),
{
    if s.len() > 0 && is_ws(s.last()) {
        trim_end(s.drop_last())
    } else {
        s
    }
}

/// The text without leading and trailing whitespace (`str::trim`).
pub open spec fn trim(s: Seq<char>) -> Seq<char> {
    trim_end(trim_start(s))
}

/// ASCII upper-case letters mapped to lower case, everything else kept.
pub open spec fn lower_char(c: char) -> char {
    if 'A' <= c && c <= 'Z' {
        ((c as u32) + 32) as char
    } else {
        c
    }
}

/// `str::to_ascii_lowercase` on the characters of a text.
pub open spec fn ascii_lower(s: Seq<char>) -> Seq<char> {
    s.map_values(|c: char| lower_char(c))
}

/// `str::eq_ignore_ascii_case`.
pub open spec fn eq_ignore_case(a: Seq<char>, b: Seq<char>) -> bool {
    ascii_lower(a) == ascii_lower(b)
}

/// The decimal digit for `d < 10`.
pub open spec fn digit_char(d: nat) -> char {
    (48 + d) as char
}

/// Decimal notation of a natural number, without leading zeros.
pub open spec fn decimal(n: nat) -> Seq<char>
    decreases n,
{
    if n < 10 {
        seq![digit_char(n)]
    } else {
        decimal(n / 10).push(digit_char(n % 10))
    }
}

/// `bool::to_string`.
pub open spec fn bool_text(b: bool) -> Seq<char> {
    if b {
        "true"@
    } else {
        "false"@
    }
}

pub open spec fn is_digit(c: char) -> bool {
    '0' <= c && c <= '9'
}

pub open spec fn all_digits(s: Seq<char>) -> bool {
    forall|i: int| 0 <= i < s.len() ==> is_digit(#[trigger] s[i])
}

/// Value of a string of decimal digits.
pub open spec fn digits_value(s: Seq<char>) -> nat
    decreases s.len(),
{
    if s.len() == 0 {
        0
    } else {
        10 * digits_value(s.drop_last()) + ((s.last() as int - 48) as nat)
    }
}

/// The number that an unsigned `FromStr` reads: an optional `+`, then one
/// or more ASCII digits, and nothing else.
pub open spec fn unsigned_value(s: Seq<char>) -> Option<nat> {
    let body = if s.len() > 0 && s[0] == '+' {
        s.drop_first()
    } else {
        s
    };
    if body.len() > 0 && all_digits(body) {
        Some(digits_value(body))
    } else {
        None
    }
}

/// The number that a signed `FromStr` reads: as `unsigned_value`, or a `-`
/// followed by one or more digits.
pub open spec fn signed_value(s: Seq<char>) -> Option<int> {
    if s.len() > 0 && s[0] == '-' {
        let body = s.drop_first();
        if body.len() > 0 && all_digits(body) {
            Some(-(digits_value(body) as int))
        } else {
            None
        }
    } else {
        match unsigned_value(s) {
            Some(n) => Some(n as int),
            None => None,
        }
    }
}

/// The result of parsing into an unsigned type whose largest value is `max`.
pub open spec fn parse_unsigned(s: Seq<char>, max: nat) -> Option<nat> {
    match unsigned_value(s) {
        Some(n) => if n <= max {
            Some(n)
        } else {
            None
        },
        None => None,
    }
}

/// The result of parsing into `i64`.
pub open spec fn parse_i64_spec(s: Seq<char>) -> Option<int> {
    match signed_value(s) {
        Some(n) => if i64::MIN <= n <= i64::MAX {
            Some(n)
        } else {
            None
        },
        None => None,
    }
}

pub open spec fn is_list_sep(c: char, semicolon: bool) -> bool {
    c == ',' || c == '\n' || (semicolon && c == ';')
}

/// The pieces between separators, as `str::split` yields them.
pub open spec fn split_pieces(s: Seq<char>, semicolon: bool) -> Seq<Seq<char>>
    decreases s.len(),
{
    if s.len() == 0 {
        seq![Seq::<char>::empty()]
    } else {
        let prev = split_pieces(s.drop_last(), semicolon);
        if is_list_sep(s.last(), semicolon) {
            prev.push(Seq::<char>::empty())
        } else {
            prev.update(prev.len() - 1, prev.last().push(s.last()))
        }
    }
}

/// The trimmed pieces, with the empty ones left out.
pub open spec fn keep_items(pieces: Seq<Seq<char>>) -> Seq<Seq<char>>
    decreases pieces.len(),
{
    if pieces.len() == 0 {
        Seq::<Seq<char>>::empty()
    } else {
        let rest = keep_items(pieces.drop_last());
        let t = trim(pieces.last());
        if t.len() > 0 {
            rest.push(t)
        } else {
            rest
        }
    }
}

/// The entries of a list typed as text.
pub open spec fn list_items(s: Seq<char>, semicolon: bool) -> Seq<Seq<char>> {
    keep_items(split_pieces(s, semicolon))
}

/// The items joined by `,` (`[String]::join(",")`).
pub open spec fn join_comma(items: Seq<Seq<char>>) -> Seq<char>
    decreases items.len(),
{
    if items.len() == 0 {
        Seq::<char>::empty()
    } else if items.len() == 1 {
        items[0]
    } else {
        join_comma(items.drop_last()) + seq![','] + items.last()
    }
}

/// The views of a vector of strings.
pub open spec fn views(v: Seq<String>) -> Seq<Seq<char>> {
    v.map_values(|s: String| s@)
}

// ----------------------------------------------------------------------
// Lemmas
// ----------------------------------------------------------------------

proof fn lemma_trim_start_skip(s: Seq<char>, i: int)
    requires
        0 <= i <= s.len(),
        forall|k: int| 0 <= k < i ==> is_ws(#[trigger] s[k]),
    ensures
        trim_start(s) == trim_start(s.subrange(i, s.len() as int)),
    decreases i,
{
    if i > 0 {
        assert(s.drop_first() =~= s.subrange(1, s.len() as int));
        let t = s.drop_first();
        assert forall|k: int| 0 <= k < i - 1 implies is_ws(#[trigger] t[k]) by {
            assert(t[k] == s[k + 1]);
        }
        lemma_trim_start_skip(t, i - 1);
        assert(t.subrange(i - 1, t.len() as int) =~= s.subrange(i, s.len() as int));
    } else {
        assert(s.subrange(0, s.len() as int) =~= s);
    }
}

proof fn lemma_trim_end_skip(s: Seq<char>, j: int)
    requires
        0 <= j <= s.len(),
        forall|k: int| j <= k < s.len() ==> is_ws(#[trigger] s[k]),
    ensures
        trim_end(s) == trim_end(s.subrange(0, j)),
    decreases s.len() - j,
{
    if j < s.len() {
        let t = s.drop_last();
        assert forall|k: int| j <= k < t.len() implies is_ws(#[trigger] t[k]) by {
            assert(t[k] == s[k]);
        }
        assert(is_ws(s[s.len() - 1]));
        lemma_trim_end_skip(t, j);
        assert(t.subrange(0, j) =~= s.subrange(0, j));
    } else {
        assert(s.subrange(0, j) =~= s);
    }
}

proof fn lemma_digits_value_step(s: Seq<char>, i: int)
    requires
        0 <= i < s.len(),
    ensures
        digits_value(s.take(i + 1)) == 10 * digits_value(s.take(i)) + ((s[i] as int - 48) as nat),
{
    assert(s.take(i + 1).drop_last() =~= s.take(i));
}

proof fn lemma_digits_value_monotone(s: Seq<char>, i: int)
    requires
        0 <= i <= s.len(),
        all_digits(s),
    ensures
        digits_value(s.take(i)) <= digits_value(s),
    decreases s.len() - i,
{
    if i < s.len() {
        lemma_digits_value_step(s, i);
        assert(is_digit(s[i]));
        lemma_digits_value_monotone(s, i + 1);
    } else {
        assert(s.take(i) =~= s);
    }
}

proof fn lemma_decimal_digits(n: nat)
    ensures
        decimal(n).len() >= 1,
        all_digits(decimal(n)),
        digits_value(decimal(n)) == n,
    decreases n,
{
    if n >= 10 {
        lemma_decimal_digits(n / 10);
        let d = decimal(n);
        assert(d.drop_last() =~= decimal(n / 10));
        assert(d.last() == digit_char(n % 10));
        assert(digit_char(n % 10) as int == 48 + n % 10);
        assert(10 * (n / 10) + n % 10 == n);
        assert(digits_value(d) == 10 * digits_value(d.drop_last()) + ((d.last() as int - 48) as nat));
        assert forall|i: int| 0 <= i < d.len() implies is_digit(#[trigger] d[i]) by {
            if i < d.len() - 1 {
                assert(d[i] == decimal(n / 10)[i]);
            }
        }
    } else {
        assert(digit_char(n) as int == 48 + n);
        assert(decimal(n).drop_last() =~= Seq::<char>::empty());
        assert(digits_value(Seq::<char>::empty()) == 0);
        assert(digits_value(decimal(n)) == 10 * digits_value(decimal(n).drop_last()) + ((decimal(
            n,
        ).last() as int - 48) as nat));
    }
}

/// Reading back the decimal notation of a number gives the number, for
/// any type large enough to hold it.
pub proof fn lemma_decimal_round_trip(n: nat, max: nat)
    requires
        n <= max,
    ensures
        parse_unsigned(decimal(n), max) == Some(n),
{
    lemma_decimal_digits(n);
    assert(is_digit(decimal(n)[0]));
}

/// Reading back the decimal notation of a number as a signed 64-bit
/// integer gives the number, where it fits.
pub proof fn lemma_decimal_reads_as_i64(n: nat)
    requires
        n <= i64::MAX,
    ensures
        parse_i64_spec(decimal(n)) == Some(n as int),
{
    lemma_decimal_digits(n);
    assert(is_digit(decimal(n)[0]));
}

/// A text that neither starts nor ends with whitespace is its own trim.
pub proof fn lemma_trim_plain(s: Seq<char>)
    requires
        s.len() > 0,
        !is_ws(s[0]),
        !is_ws(s.last()),
    ensures
        trim(s) == s,
{
    assert(trim_start(s) == s);
    assert(trim_end(s) == s);
}

/// Decimal notation has no surrounding whitespace.
pub proof fn lemma_decimal_trimmed(n: nat)
    ensures
        trim(decimal(n)) == decimal(n),
{
    lemma_decimal_digits(n);
    let d = decimal(n);
    assert(is_digit(d[0]));
    assert(is_digit(d[d.len() - 1]));
    lemma_trim_plain(d);
}

/// Decimal notation is untouched by ASCII lower-casing and starts with a
/// digit.
pub proof fn lemma_decimal_lower(n: nat)
    ensures
        ascii_lower(decimal(n)) == decimal(n),
        is_digit(decimal(n)[0]),
{
    lemma_decimal_digits(n);
    let d = decimal(n);
    assert(is_digit(d[0]));
    assert forall|i: int| 0 <= i < d.len() implies lower_char(#[trigger] d[i]) == d[i] by {
        assert(is_digit(d[i]));
    }
    assert(ascii_lower(d) =~= d);
}

proof fn lemma_split_pieces_nonempty(s: Seq<char>, semicolon: bool)
    ensures
        split_pieces(s, semicolon).len() >= 1,
    decreases s.len(),
{
    if s.len() > 0 {
        lemma_split_pieces_nonempty(s.drop_last(), semicolon);
    }
}

proof fn lemma_split_pieces_append_plain(a: Seq<char>, b: Seq<char>, semicolon: bool)
    requires
        forall|k: int| 0 <= k < b.len() ==> !is_list_sep(#[trigger] b[k], semicolon),
    ensures
        split_pieces(a + b, semicolon) == split_pieces(a, semicolon).update(
            split_pieces(a, semicolon).len() - 1,
            split_pieces(a, semicolon).last() + b,
        ),
    decreases b.len(),
{
    lemma_split_pieces_nonempty(a, semicolon);
    let p = split_pieces(a, semicolon);
    if b.len() == 0 {
        assert(a + b =~= a);
        assert(p.last() + b =~= p.last());
        assert(p.update(p.len() - 1, p.last()) =~= p);
    } else {
        let c = b.last();
        let b0 = b.drop_last();
        assert forall|k: int| 0 <= k < b0.len() implies !is_list_sep(#[trigger] b0[k], semicolon) by {
            assert(b0[k] == b[k]);
        }
        lemma_split_pieces_append_plain(a, b0, semicolon);
        assert((a + b).drop_last() =~= a + b0);
        assert((a + b).last() == c);
        let q = split_pieces(a + b0, semicolon);
        assert(q == p.update(p.len() - 1, p.last() + b0));
        assert(q.last() == p.last() + b0);
        assert(q.last().push(c) =~= p.last() + b);
        assert(q.update(q.len() - 1, q.last().push(c)) =~= p.update(p.len() - 1, p.last() + b));
    }
}

/// The items of a list, joined by commas, split back into the same items.
proof fn lemma_split_join(items: Seq<Seq<char>>, semicolon: bool)
    requires
        items.len() > 0,
        forall|i: int, k: int|
            0 <= i < items.len() && 0 <= k < items[i].len() ==> !is_list_sep(
                #[trigger] items[i][k],
                semicolon,
            ),
    ensures
        split_pieces(join_comma(items), semicolon) == items,
    decreases items.len(),
{
    let last = items.last();
    assert forall|k: int| 0 <= k < last.len() implies !is_list_sep(#[trigger] last[k], semicolon) by {
        assert(last[k] == items[items.len() - 1][k]);
    }
    if items.len() == 1 {
        lemma_split_pieces_append_plain(Seq::<char>::empty(), last, semicolon);
        assert(Seq::<char>::empty() + last =~= last);
        assert(Seq::<char>::empty() + last =~= items[0]);
        assert(seq![Seq::<char>::empty()].update(0, Seq::<char>::empty() + last) =~= items);
    } else {
        let rest = items.drop_last();
        assert forall|i: int, k: int| 0 <= i < rest.len() && 0 <= k < rest[i].len() implies !is_list_sep(
            #[trigger] rest[i][k],
            semicolon,
        ) by {
            assert(rest[i] == items[i]);
        }
        lemma_split_join(rest, semicolon);
        let head = join_comma(rest) + seq![','];
        assert(join_comma(items) == join_comma(rest) + seq![','] + last);
        assert(head.drop_last() =~= join_comma(rest));
        assert(head.last() == ',');
        assert(split_pieces(head, semicolon) == rest.push(Seq::<char>::empty()));
        lemma_split_pieces_append_plain(head, last, semicolon);
        assert(Seq::<char>::empty() + last =~= last);
        assert(rest.push(Seq::<char>::empty()).update(rest.len() as int, Seq::<char>::empty() + last)
            =~= items);
    }
}

proof fn lemma_keep_clean_items(items: Seq<Seq<char>>)
    requires
        forall|i: int| 0 <= i < items.len() ==> (#[trigger] items[i]).len() > 0 && trim(items[i])
            == items[i],
    ensures
        keep_items(items) == items,
    decreases items.len(),
{
    if items.len() > 0 {
        let rest = items.drop_last();
        assert forall|i: int| 0 <= i < rest.len() implies (#[trigger] rest[i]).len() > 0 && trim(rest[i])
            == rest[i] by {
            assert(rest[i] == items[i]);
        }
        lemma_keep_clean_items(rest);
        assert(trim(items.last()) == items.last());
        assert(rest.push(items.last()) =~= items);
    }
}

/// Whether a text holds no list separator.
pub open spec fn no_separator(s: Seq<char>, semicolon: bool) -> bool {
    forall|k: int| 0 <= k < s.len() ==> !is_list_sep(#[trigger] s[k], semicolon)
}

/// Whether every item of a list is non-empty, without surrounding
/// whitespace, and holds no separator.
pub open spec fn clean_items(items: Seq<Seq<char>>, semicolon: bool) -> bool {
    forall|i: int|
        0 <= i < items.len() ==> (#[trigger] items[i]).len() > 0 && trim(items[i]) == items[i]
            && no_separator(items[i], semicolon)
}

proof fn lemma_split_pieces_clean(s: Seq<char>, semicolon: bool)
    ensures
        forall|i: int|
            0 <= i < split_pieces(s, semicolon).len() ==> no_separator(
                #[trigger] split_pieces(s, semicolon)[i],
                semicolon,
            ),
    decreases s.len(),
{
    if s.len() > 0 {
        lemma_split_pieces_clean(s.drop_last(), semicolon);
        lemma_split_pieces_nonempty(s.drop_last(), semicolon);
        let prev = split_pieces(s.drop_last(), semicolon);
        if !is_list_sep(s.last(), semicolon) {
            let q = prev.update(prev.len() - 1, prev.last().push(s.last()));
            assert forall|i: int| 0 <= i < q.len() implies no_separator(#[trigger] q[i], semicolon) by {
                if i == q.len() - 1 {
                    assert(no_separator(prev[i], semicolon));
                    assert forall|k: int| 0 <= k < q[i].len() implies !is_list_sep(
                        #[trigger] q[i][k],
                        semicolon,
                    ) by {
                        if k < prev[i].len() {
                            assert(q[i][k] == prev[i][k]);
                        }
                    }
                }
            }
        } else {
            let q = prev.push(Seq::<char>::empty());
            assert forall|i: int| 0 <= i < q.len() implies no_separator(#[trigger] q[i], semicolon) by {
                if i < prev.len() {
                    assert(q[i] == prev[i]);
                }
            }
        }
    }
}

proof fn lemma_trim_start_facts(s: Seq<char>, semicolon: bool)
    ensures
        trim_start(s).len() > 0 ==> !is_ws(trim_start(s)[0]),
        no_separator(s, semicolon) ==> no_separator(trim_start(s), semicolon),
    decreases s.len(),
{
    if s.len() > 0 && is_ws(s[0]) {
        lemma_trim_start_facts(s.drop_first(), semicolon);
        if no_separator(s, semicolon) {
            let t = s.drop_first();
            assert forall|k: int| 0 <= k < t.len() implies !is_list_sep(#[trigger] t[k], semicolon) by {
                assert(t[k] == s[k + 1]);
            }
        }
    }
}

proof fn lemma_trim_end_facts(s: Seq<char>, semicolon: bool)
    ensures
        trim_end(s).len() > 0 ==> !is_ws(trim_end(s).last()),
        trim_end(s).len() <= s.len(),
        trim_end(s) == s.take(trim_end(s).len() as int),
        no_separator(s, semicolon) ==> no_separator(trim_end(s), semicolon),
    decreases s.len(),
{
    if s.len() > 0 && is_ws(s.last()) {
        let t = s.drop_last();
        lemma_trim_end_facts(t, semicolon);
        assert(t.take(trim_end(t).len() as int) =~= s.take(trim_end(t).len() as int));
        if no_separator(s, semicolon) {
            assert forall|k: int| 0 <= k < t.len() implies !is_list_sep(#[trigger] t[k], semicolon) by {
                assert(t[k] == s[k]);
            }
        }
    } else {
        assert(s.take(s.len() as int) =~= s);
    }
}

/// Trimming a trimmed text changes nothing; trimming keeps a text free of
/// separators.
proof fn lemma_trim_clean(s: Seq<char>, semicolon: bool)
    ensures
        trim(trim(s)) == trim(s),
        no_separator(s, semicolon) ==> no_separator(trim(s), semicolon),
{
    let z = trim_start(s);
    let y = trim_end(z);
    lemma_trim_start_facts(s, semicolon);
    lemma_trim_end_facts(z, semicolon);
    if y.len() > 0 {
        assert(y[0] == z[0]);
        assert(trim_start(y) == y);
        lemma_trim_end_facts(y, semicolon);
        assert(trim_end(y) == y);
    } else {
        assert(trim_start(y) == y);
        assert(trim_end(y) == y);
    }
}

proof fn lemma_keep_items_clean(pieces: Seq<Seq<char>>, semicolon: bool)
    requires
        forall|i: int| 0 <= i < pieces.len() ==> no_separator(#[trigger] pieces[i], semicolon),
    ensures
        clean_items(keep_items(pieces), semicolon),
    decreases pieces.len(),
{
    if pieces.len() > 0 {
        let rest = pieces.drop_last();
        assert forall|i: int| 0 <= i < rest.len() implies no_separator(#[trigger] rest[i], semicolon) by {
            assert(rest[i] == pieces[i]);
        }
        lemma_keep_items_clean(rest, semicolon);
        let t = trim(pieces.last());
        assert(no_separator(pieces[pieces.len() - 1], semicolon));
        lemma_trim_clean(pieces.last(), semicolon);
        let k = keep_items(rest);
        if t.len() > 0 {
            assert forall|i: int| 0 <= i < k.push(t).len() implies (#[trigger] k.push(t)[i]).len() > 0
                && trim(k.push(t)[i]) == k.push(t)[i] && no_separator(k.push(t)[i], semicolon) by {
                if i < k.len() {
                    assert(k.push(t)[i] == k[i]);
                }
            }
        }
    }
}

/// The items read from a typed list are non-empty, have no surrounding
/// whitespace and hold no separator.
pub proof fn lemma_list_items_clean(s: Seq<char>, semicolon: bool)
    ensures
        clean_items(list_items(s, semicolon), semicolon),
{
    lemma_split_pieces_clean(s, semicolon);
    lemma_keep_items_clean(split_pieces(s, semicolon), semicolon);
}

/// The items read from a typed list, joined by commas and read again, are
/// the same items.
pub proof fn lemma_list_items_read_back(s: Seq<char>, semicolon: bool)
    ensures
        list_items(join_comma(list_items(s, semicolon)), semicolon) == list_items(s, semicolon),
{
    let items = list_items(s, semicolon);
    lemma_list_items_clean(s, semicolon);
    assert forall|i: int, k: int| 0 <= i < items.len() && 0 <= k < items[i].len() implies !is_list_sep(
        #[trigger] items[i][k],
        semicolon,
    ) by {
        assert(no_separator(items[i], semicolon));
    }
    lemma_list_round_trip(items, semicolon);
}

/// A list shown joined by commas and typed back gives the same items,
/// where each item is non-empty, has no surrounding whitespace and holds
/// no separator.
pub proof fn lemma_list_round_trip(items: Seq<Seq<char>>, semicolon: bool)
    requires
        forall|i: int| 0 <= i < items.len() ==> (#[trigger] items[i]).len() > 0 && trim(items[i])
            == items[i],
        forall|i: int, k: int|
            0 <= i < items.len() && 0 <= k < items[i].len() ==> !is_list_sep(
                #[trigger] items[i][k],
                semicolon,
            ),
    ensures
        list_items(join_comma(items), semicolon) == items,
{
    if items.len() == 0 {
        assert(join_comma(items) == Seq::<char>::empty());
        assert(split_pieces(Seq::<char>::empty(), semicolon) == seq![Seq::<char>::empty()]);
        let p = seq![Seq::<char>::empty()];
        assert(p.drop_last() =~= Seq::<Seq<char>>::empty());
        assert(trim(p.last()).len() == 0);
        assert(keep_items(p.drop_last()) == Seq::<Seq<char>>::empty());
        assert(keep_items(p) =~= Seq::<Seq<char>>::empty());
    } else {
        lemma_split_join(items, semicolon);
        lemma_keep_clean_items(items);
    }
}

// ----------------------------------------------------------------------
// Executable helpers
// ----------------------------------------------------------------------

/// `String::push`, which vstd leaves without a specification. Claimed: the
/// string afterwards is the one before with the character added at its
/// end, as std documents.
#[verifier::external_body]
fn push_char(s: &mut String, c: char)
    ensures
        final(s)@ == old(s)@.push(c),
{
    s.push(c);
}

/// The characters of a text.
pub fn to_chars(s: &str) -> (v: Vec<char>)
    ensures
        v@ == s@,
{
    let mut v: Vec<char> = Vec::new();
    for c in it: s.chars()
        invariant
            v@ == it.seq().take(it.index() as int),
            it.seq() == s@,
    {
        v.push(c);
    }
    v
}

/// A string made of the given characters.
pub fn from_chars(v: &[char]) -> (s: String)
    ensures
        s@ == v@,
{
    let mut s = String::new();
    let n = v.len();
    for i in 0..n
        invariant
            n == v@.len(),
            s@ == v@.take(i as int),
    {
        push_char(&mut s, v[i]);
        assert(v@.take(i + 1) =~= v@.take(i as int).push(v@[i as int]));
    }
    assert(v@.take(n as int) =~= v@);
    s
}

/// Whether two character sequences are equal.
pub fn slice_eq(a: &[char], b: &[char]) -> (r: bool)
    ensures
        r == (a@ == b@),
{
    if a.len() != b.len() {
        return false;
    }
    let n = a.len();
    for i in 0..n
        invariant
            n == a@.len(),
            n == b@.len(),
            forall|k: int| 0 <= k < i ==> a@[k] == b@[k],
    {
        if a[i] != b[i] {
            return false;
        }
    }
    assert(a@ =~= b@);
    true
}

/// Whether the characters equal those of a text.
pub fn chars_is(a: &[char], lit: &str) -> (r: bool)
    ensures
        r == (a@ == lit@),
{
    let b = to_chars(lit);
    slice_eq(a, b.as_slice())
}

/// Whether two texts are equal.
pub fn str_is(a: &str, b: &str) -> (r: bool)
    ensures
        r == (a@ == b@),
{
    let x = to_chars(a);
    chars_is(x.as_slice(), b)
}

/// `char::is_whitespace`.
pub fn is_whitespace(c: char) -> (r: bool)
    ensures
        r == is_ws(c),
{
    ('\u{9}' <= c && c <= '\u{d}') || c == ' ' || c == '\u{85}' || c == '\u{a0}' || c == '\u{1680}'
        || ('\u{2000}' <= c && c <= '\u{200a}') || c == '\u{2028}' || c == '\u{2029}' || c
        == '\u{202f}' || c == '\u{205f}' || c == '\u{3000}'
}

/// The characters without leading and trailing whitespace.
pub fn trim_chars(v: &[char]) -> (r: Vec<char>)
    ensures
        r@ == trim(v@),
{
    let n = v.len();
    let mut i: usize = 0;
    while i < n && is_whitespace(v[i])
        invariant
            n == v@.len(),
            i <= n,
            forall|k: int| 0 <= k < i ==> is_ws(#[trigger] v@[k]),
        decreases n - i,
    {
        i += 1;
    }
    proof {
        lemma_trim_start_skip(v@, i as int);
    }
    let ghost start = v@.subrange(i as int, n as int);
    let mut j: usize = n;
    while j > i && is_whitespace(v[j - 1])
        invariant
            n == v@.len(),
            i <= j <= n,
            forall|k: int| j <= k < n ==> is_ws(#[trigger] v@[k]),
        decreases j,
    {
        j -= 1;
    }
    proof {
        assert forall|k: int| j - i <= k < start.len() implies is_ws(#[trigger] start[k]) by {
            assert(start[k] == v@[k + i]);
        }
        lemma_trim_end_skip(start, j - i);
        assert(start.subrange(0, j - i) =~= v@.subrange(i as int, j as int));
        let u = v@.subrange(i as int, j as int);
        if u.len() > 0 {
            assert(u.last() == v@[j - 1]);
        }
        assert(trim_end(u) == u);
        if i < n {
            assert(start[0] == v@[i as int]);
        }
        assert(trim_start(start) == start);
    }
    let mut r: Vec<char> = Vec::new();
    let mut k: usize = i;
    while k < j
        invariant
            n == v@.len(),
            i <= k <= j <= n,
            r@ == v@.subrange(i as int, k as int),
        decreases j - k,
    {
        r.push(v[k]);
        assert(v@.subrange(i as int, k + 1) =~= v@.subrange(i as int, k as int).push(v@[k as int]));
        k += 1;
    }
    r
}

/// The characters without trailing whitespace.
pub fn trim_end_chars(v: &[char]) -> (r: Vec<char>)
    ensures
        r@ == trim_end(v@),
{
    let n = v.len();
    let mut j: usize = n;
    while j > 0 && is_whitespace(v[j - 1])
        invariant
            n == v@.len(),
            j <= n,
            forall|k: int| j <= k < n ==> is_ws(#[trigger] v@[k]),
        decreases j,
    {
        j -= 1;
    }
    proof {
        lemma_trim_end_skip(v@, j as int);
        let u = v@.subrange(0, j as int);
        if u.len() > 0 {
            assert(u.last() == v@[j - 1]);
        }
        assert(trim_end(u) == u);
    }
    let mut r: Vec<char> = Vec::new();
    let mut k: usize = 0;
    while k < j
        invariant
            n == v@.len(),
            k <= j <= n,
            r@ == v@.subrange(0, k as int),
        decreases j - k,
    {
        r.push(v[k]);
        assert(v@.subrange(0, k + 1) =~= v@.subrange(0, k as int).push(v@[k as int]));
        k += 1;
    }
    r
}

/// `char::to_ascii_lowercase`.
pub fn lower_ascii(c: char) -> (r: char)
    ensures
        r == lower_char(c),
{
    if 'A' <= c && c <= 'Z' {
        let b: u8 = c as u8;
        (b + 32) as char
    } else {
        c
    }
}

/// The characters with ASCII letters in lower case.
pub fn ascii_lower_chars(v: &[char]) -> (r: Vec<char>)
    ensures
        r@ == ascii_lower(v@),
{
    let mut r: Vec<char> = Vec::new();
    let n = v.len();
    for i in 0..n
        invariant
            n == v@.len(),
            r@ == ascii_lower(v@.take(i as int)),
    {
        r.push(lower_ascii(v[i]));
        assert(ascii_lower(v@.take(i + 1)) =~= ascii_lower(v@.take(i as int)).push(lower_char(v@[i as int])));
    }
    assert(v@.take(n as int) =~= v@);
    r
}

/// The text trimmed and in ASCII lower case, as `s.trim().to_ascii_lowercase()`.
pub fn trim_lower(s: &str) -> (r: Vec<char>)
    ensures
        r@ == ascii_lower(trim(s@)),
{
    let v = to_chars(s);
    let t = trim_chars(v.as_slice());
    ascii_lower_chars(t.as_slice())
}

/// `eq_ignore_ascii_case` between characters and a text.
pub fn chars_eq_ignore_case(a: &[char], lit: &str) -> (r: bool)
    ensures
        r == eq_ignore_case(a@, lit@),
{
    let x = ascii_lower_chars(a);
    let b = to_chars(lit);
    let y = ascii_lower_chars(b.as_slice());
    slice_eq(x.as_slice(), y.as_slice())
}

/// Appends the decimal notation of `n`.
pub fn push_decimal(s: &mut String, n: u64)
    ensures
        final(s)@ == old(s)@ + decimal(n as nat),
    decreases n,
{
    if n >= 10 {
        push_decimal(s, n / 10);
    }
    let d: u8 = (n % 10) as u8;
    let c: char = (48u8 + d) as char;
    assert(c == digit_char((n % 10) as nat));
    push_char(s, c);
    proof {
        if n >= 10 {
            assert(decimal(n as nat) == decimal((n / 10) as nat).push(digit_char((n % 10) as nat)));
        } else {
            assert(decimal(n as nat) == seq![digit_char(n as nat)]);
        }
    }
}

/// The decimal notation of `n` (`u64::to_string`).
pub fn decimal_string(n: u64) -> (r: String)
    ensures
        r@ == decimal(n as nat),
{
    let mut s = String::new();
    push_decimal(&mut s, n);
    assert(s@ =~= decimal(n as nat));
    s
}

/// `bool::to_string`.
pub fn bool_string(b: bool) -> (r: String)
    ensures
        r@ == bool_text(b),
{
    if b {
        String::from_str("true")
    } else {
        String::from_str("false")
    }
}

/// Reads a run of decimal digits no larger than `max`.
fn parse_digits(body: &[char], max: u64) -> (r: Option<u64>)
    ensures
        r == (if body@.len() > 0 && all_digits(body@) && digits_value(body@) <= max {
            Some(digits_value(body@) as u64)
        } else {
            None::<u64>
        }),
{
    let n = body.len();
    if n == 0 {
        return None;
    }
    let mut i: usize = 0;
    while i < n
        invariant
            n == body@.len(),
            i <= n,
            forall|k: int| 0 <= k < i ==> is_digit(#[trigger] body@[k]),
        decreases n - i,
    {
        if !('0' <= body[i] && body[i] <= '9') {
            return None;
        }
        i += 1;
    }
    assert(all_digits(body@));
    let mut acc: u64 = 0;
    let mut i: usize = 0;
    assert(body@.take(0) =~= Seq::<char>::empty());
    while i < n
        invariant
            n == body@.len(),
            i <= n,
            all_digits(body@),
            acc as nat == digits_value(body@.take(i as int)),
            acc <= max,
        decreases n - i,
    {
        let c = body[i];
        assert(is_digit(body@[i as int]));
        let d: u64 = ((c as u32) - 48) as u64;
        proof {
            lemma_digits_value_step(body@, i as int);
        }
        if d > max || acc > (max - d) / 10 {
            proof {
                if d <= max {
                    assert(10 * acc + d > max) by (nonlinear_arith)
                        requires
                            acc > (max - d) / 10,
                            d <= max,
                    ;
                }
                lemma_digits_value_monotone(body@, i + 1);
            }
            return None;
        }
        assert(10 * acc + d <= max) by (nonlinear_arith)
            requires
                acc <= (max - d) / 10,
                d <= max,
        ;
        acc = 10 * acc + d;
        i += 1;
    }
    assert(body@.take(n as int) =~= body@);
    Some(acc)
}

/// Parses an unsigned number no larger than `max`, as the unsigned
/// `FromStr` impls do.
pub fn parse_unsigned_max(s: &[char], max: u64) -> (r: Option<u64>)
    ensures
        r == (match parse_unsigned(s@, max as nat) {
            Some(n) => Some(n as u64),
            None => None::<u64>,
        }),
{
    if s.len() > 0 && s[0] == '+' {
        let mut body: Vec<char> = Vec::new();
        let n = s.len();
        for i in 1..n
            invariant
                n == s@.len(),
                1 <= n,
                body@ == s@.subrange(1, i as int),
        {
            body.push(s[i]);
            assert(s@.subrange(1, i + 1) =~= s@.subrange(1, i as int).push(s@[i as int]));
        }
        assert(body@ =~= s@.drop_first());
        parse_digits(body.as_slice(), max)
    } else {
        parse_digits(s, max)
    }
}

/// Parses an `i64` as `i64::from_str` does.
pub fn parse_i64(s: &[char]) -> (r: Option<i64>)
    ensures
        r == (match parse_i64_spec(s@) {
            Some(n) => Some(n as i64),
            None => None::<i64>,
        }),
{
    if s.len() > 0 && s[0] == '-' {
        let mut body: Vec<char> = Vec::new();
        let n = s.len();
        for i in 1..n
            invariant
                n == s@.len(),
                1 <= n,
                body@ == s@.subrange(1, i as int),
        {
            body.push(s[i]);
            assert(s@.subrange(1, i + 1) =~= s@.subrange(1, i as int).push(s@[i as int]));
        }
        assert(body@ =~= s@.drop_first());
        match parse_digits(body.as_slice(), 9223372036854775808u64) {
            Some(m) => {
                if m == 9223372036854775808u64 {
                    Some(i64::MIN)
                } else {
                    Some(-(m as i64))
                }
            },
            None => None,
        }
    } else {
        match parse_unsigned_max(s, 9223372036854775807u64) {
            Some(m) => Some(m as i64),
            None => None,
        }
    }
}

/// Splits at the list separators, trims every piece and leaves out the
/// empty ones (`split(..).map(trim).filter(non-empty)`).
pub fn split_trimmed(v: &[char], semicolon: bool) -> (r: Vec<String>)
    ensures
        views(r@) == list_items(v@, semicolon),
{
    let mut out: Vec<String> = Vec::new();
    let mut cur: Vec<char> = Vec::new();
    let n = v.len();
    assert(v@.take(0) =~= Seq::<char>::empty());
    for i in 0..n
        invariant
            n == v@.len(),
            split_pieces(v@.take(i as int), semicolon).len() >= 1,
            cur@ == split_pieces(v@.take(i as int), semicolon).last(),
            views(out@) == keep_items(split_pieces(v@.take(i as int), semicolon).drop_last()),
    {
        let c = v[i];
        let ghost pre = v@.take(i as int);
        let ghost p = split_pieces(pre, semicolon);
        assert(v@.take(i + 1).drop_last() =~= pre);
        assert(v@.take(i + 1).last() == c);
        if c == ',' || c == '\n' || (semicolon && c == ';') {
            let t = trim_chars(cur.as_slice());
            proof {
                let q = split_pieces(v@.take(i + 1), semicolon);
                assert(q == p.push(Seq::<char>::empty()));
                assert(q.drop_last() =~= p);
                assert(p.drop_last() =~= p.drop_last());
            }
            if t.len() > 0 {
                let item = from_chars(t.as_slice());
                out.push(item);
                proof {
                    assert(views(out@) =~= keep_items(p.drop_last()).push(t@));
                    assert(p.drop_last().push(p.last()) =~= p);
                    assert(keep_items(p) == keep_items(p.drop_last()).push(trim(p.last())));
                }
            } else {
                proof {
                    assert(p.drop_last().push(p.last()) =~= p);
                    assert(keep_items(p) == keep_items(p.drop_last()));
                }
            }
            cur = Vec::new();
            proof {
                assert(cur@ =~= Seq::<char>::empty());
            }
        } else {
            cur.push(c);
            proof {
                let q = split_pieces(v@.take(i + 1), semicolon);
                assert(q == p.update(p.len() - 1, p.last().push(c)));
                assert(q.drop_last() =~= p.drop_last());
            }
        }
    }
    assert(v@.take(n as int) =~= v@);
    let ghost p = split_pieces(v@, semicolon);
    let t = trim_chars(cur.as_slice());
    if t.len() > 0 {
        let item = from_chars(t.as_slice());
        out.push(item);
        proof {
            assert(views(out@) =~= keep_items(p.drop_last()).push(t@));
            assert(p.drop_last().push(p.last()) =~= p);
            assert(keep_items(p) == keep_items(p.drop_last()).push(trim(p.last())));
        }
    } else {
        proof {
            assert(p.drop_last().push(p.last()) =~= p);
            assert(keep_items(p) == keep_items(p.drop_last()));
        }
    }
    out
}

/// The strings joined by `,`.
pub fn join_with_comma(items: &Vec<String>) -> (r: String)
    ensures
        r@ == join_comma(views(items@)),
{
    let mut r = String::new();
    let n = items.len();
    for i in 0..n
        invariant
            n == items@.len(),
            r@ == join_comma(views(items@.take(i as int))),
    {
        let ghost before = views(items@.take(i as int));
        assert(views(items@.take(i + 1)).drop_last() =~= before);
        if i > 0 {
            r.append(",");
            proof {
                reveal_strlit(",");
            }
        }
        r.append(items[i].as_str());
        proof {
            let after = views(items@.take(i + 1));
            assert(after.last() == items@[i as int]@);
            if i == 0 {
                assert(after.len() == 1);
                assert(r@ =~= after[0]);
            } else {
                assert(r@ =~= join_comma(before) + seq![','] + after.last());
            }
        }
    }
    assert(items@.take(n as int) =~= items@);
    r
}

} // verus!
