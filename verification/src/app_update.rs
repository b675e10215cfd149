//! Release notes of a new version, shortened for the startup notice, and
//! the answers of the update prompt.

use vstd::prelude::*;
use crate::text::{ascii_lower, from_chars, to_chars, trim, trim_end, trim_end_chars, trim_lower};

verus! {

// ----------------------------------------------------------------------
// Specifications
// ----------------------------------------------------------------------

/// The pieces of a text between `'\n'` characters.
pub open spec fn newline_pieces(s: Seq<char>) -> Seq<Seq<char>>
    decreases s.len(),
{
    if s.len() == 0 {
        seq![Seq::<char>::empty()]
    } else {
        let prev = newline_pieces(s.drop_last());
        if s.last() == '\n' {
            prev.push(Seq::<char>::empty())
        } else {
            prev.update(prev.len() - 1, prev.last().push(s.last()))
        }
    }
}

/// The lines of a text as `str::lines` yields them: the pieces between
/// line feeds, without the empty piece after a final line feed. (`lines`
/// also drops a `'\r'` before each line feed; the notes trim every line's
/// trailing whitespace, which removes it anyway.)
pub open spec fn text_lines(s: Seq<char>) -> Seq<Seq<char>> {
    let p = newline_pieces(s);
    if p.last().len() == 0 {
        p.drop_last()
    } else {
        p
    }
}

/// The lines of the notes, each without trailing whitespace.
pub open spec fn note_lines(s: Seq<char>) -> Seq<Seq<char>> {
    text_lines(s).map_values(|l: Seq<char>| trim_end(l))
}

/// The lines that are not empty, in order.
pub open spec fn kept_lines(l: Seq<Seq<char>>) -> Seq<Seq<char>>
    decreases l.len(),
{
    if l.len() == 0 {
        Seq::<Seq<char>>::empty()
    } else {
        let rest = kept_lines(l.drop_last());
        if l.last().len() > 0 {
            rest.push(l.last())
        } else {
            rest
        }
    }
}

/// Lines joined by `'\n'`.
pub open spec fn join_lines(items: Seq<Seq<char>>) -> Seq<char>
    decreases items.len(),
{
    if items.len() == 0 {
        Seq::<char>::empty()
    } else if items.len() == 1 {
        items[0]
    } else {
        join_lines(items.drop_last()) + seq!['\n'] + items.last()
    }
}

/// The number of bytes of a character in UTF-8.
pub open spec fn char_bytes(c: char) -> nat {
    if (c as u32) < 0x80 {
        1
    } else if (c as u32) < 0x800 {
        2
    } else if (c as u32) < 0x10000 {
        3
    } else {
        4
    }
}

/// The number of bytes of a text in UTF-8 (`str::len`).
pub open spec fn utf8_len(s: Seq<char>) -> nat
    decreases s.len(),
{
    if s.len() == 0 {
        0
    } else {
        utf8_len(s.drop_last()) + char_bytes(s.last())
    }
}

/// The number of characters of the longest prefix that takes at most `n`
/// bytes: where a text is cut at the last character boundary at or before
/// byte `n`.
pub open spec fn chars_within(s: Seq<char>, n: nat) -> nat
    decreases s.len(),
{
    if utf8_len(s) <= n {
        s.len()
    } else {
        chars_within(s.drop_last(), n)
    }
}

/// The notes as the startup notice shows them: of the first `max_lines`
/// lines, the non-empty ones (trailing whitespace removed) joined by line
/// feeds; where that reaches `max_chars` bytes, it is cut at the last
/// character boundary at or before byte `max_chars` and ends in `…`;
/// otherwise, where lines were left out, `…` follows.
pub open spec fn notes_preview(body: Seq<char>, max_lines: nat, max_chars: nat) -> Seq<char> {
    let l = note_lines(body);
    let m = if l.len() <= max_lines {
        l.len()
    } else {
        max_lines
    };
    let joined = join_lines(kept_lines(l.take(m as int)));
    if joined.len() > 0 && utf8_len(joined) >= max_chars {
        joined.take(chars_within(joined, max_chars) as int).push('…')
    } else if l.len() > max_lines {
        joined.push('…')
    } else {
        joined
    }
}

/// Whether the answer to "do not remind me again" is yes.
pub open spec fn is_yes_answer(answer: Seq<char>) -> bool {
    let a = ascii_lower(trim(answer));
    a == "y"@ || a == "yes"@
}

// ----------------------------------------------------------------------
// Lemmas
// ----------------------------------------------------------------------

proof fn lemma_newline_pieces_nonempty(s: Seq<char>)
    ensures
        newline_pieces(s).len() >= 1,
    decreases s.len(),
{
    if s.len() > 0 {
        lemma_newline_pieces_nonempty(s.drop_last());
    }
}

proof fn lemma_utf8_len_step(s: Seq<char>, k: int)
    requires
        0 <= k < s.len(),
    ensures
        utf8_len(s.take(k + 1)) == utf8_len(s.take(k)) + char_bytes(s[k]),
{
    assert(s.take(k + 1).drop_last() =~= s.take(k));
}

proof fn lemma_utf8_len_take_monotone(s: Seq<char>, i: int, j: int)
    requires
        0 <= i <= j <= s.len(),
    ensures
        utf8_len(s.take(i)) <= utf8_len(s.take(j)),
        i < j ==> utf8_len(s.take(i)) < utf8_len(s.take(j)),
    decreases j - i,
{
    if i < j {
        lemma_utf8_len_step(s, j - 1);
        lemma_utf8_len_take_monotone(s, i, j - 1);
    }
}

proof fn lemma_take_all(s: Seq<char>)
    ensures
        s.take(s.len() as int) == s,
{
    assert(s.take(s.len() as int) =~= s);
}

/// The prefix that `chars_within` keeps takes at most `n` bytes.
proof fn lemma_chars_within_fits(s: Seq<char>, n: nat)
    ensures
        chars_within(s, n) <= s.len(),
        utf8_len(s.take(chars_within(s, n) as int)) <= n,
    decreases s.len(),
{
    if utf8_len(s) <= n {
        lemma_take_all(s);
    } else {
        lemma_chars_within_fits(s.drop_last(), n);
        let k = chars_within(s.drop_last(), n) as int;
        assert(s.drop_last().take(k) =~= s.take(k));
    }
}

/// `chars_within` is the `k` of a prefix that fits while one more
/// character would not.
proof fn lemma_chars_within_is(s: Seq<char>, n: nat, k: int)
    requires
        0 <= k <= s.len(),
        utf8_len(s.take(k)) <= n,
        k == s.len() || utf8_len(s.take(k + 1)) > n,
    ensures
        chars_within(s, n) == k,
    decreases s.len(),
{
    lemma_take_all(s);
    if k < s.len() {
        lemma_utf8_len_take_monotone(s, k + 1, s.len() as int);
        let t = s.drop_last();
        assert(t.take(k) =~= s.take(k));
        if k < t.len() {
            assert(t.take(k + 1) =~= s.take(k + 1));
        }
        lemma_chars_within_is(t, n, k);
    }
}

/// Where a prefix of a text already takes `n` bytes or more, the text is
/// cut at the same place as the prefix.
proof fn lemma_chars_within_prefix(s: Seq<char>, j: int, n: nat)
    requires
        0 <= j <= s.len(),
        utf8_len(s.take(j)) >= n,
    ensures
        chars_within(s.take(j), n) == chars_within(s, n),
        chars_within(s, n) <= j,
    decreases s.len() - j,
{
    lemma_take_all(s);
    if j < s.len() {
        lemma_utf8_len_take_monotone(s, j, s.len() as int);
        let t = s.drop_last();
        assert(t.take(j) =~= s.take(j));
        lemma_chars_within_prefix(t, j, n);
    }
    lemma_chars_within_fits(s.take(j), n);
}

proof fn lemma_kept_lines_step(l: Seq<Seq<char>>, i: int)
    requires
        0 <= i < l.len(),
    ensures
        kept_lines(l.take(i + 1)) == (if l[i].len() > 0 {
            kept_lines(l.take(i)).push(l[i])
        } else {
            kept_lines(l.take(i))
        }),
{
    assert(l.take(i + 1).drop_last() =~= l.take(i));
}

proof fn lemma_join_lines_push(items: Seq<Seq<char>>, x: Seq<char>)
    ensures
        join_lines(items.push(x)) == (if items.len() == 0 {
            x
        } else {
            join_lines(items) + seq!['\n'] + x
        }),
{
    assert(items.push(x).drop_last() =~= items);
}

/// The joined lines of a shorter prefix are a prefix of those of a longer.
proof fn lemma_joined_prefix(l: Seq<Seq<char>>, a: int, b: int)
    requires
        0 <= a <= b <= l.len(),
    ensures
        ({
            let x = join_lines(kept_lines(l.take(a)));
            let y = join_lines(kept_lines(l.take(b)));
            x.len() <= y.len() && x == y.take(x.len() as int)
        }),
    decreases b - a,
{
    let x = join_lines(kept_lines(l.take(a)));
    if a == b {
        assert(x =~= x.take(x.len() as int));
    } else {
        lemma_joined_prefix(l, a, b - 1);
        let y0 = join_lines(kept_lines(l.take(b - 1)));
        let y = join_lines(kept_lines(l.take(b)));
        lemma_kept_lines_step(l, b - 1);
        lemma_join_lines_push(kept_lines(l.take(b - 1)), l[b - 1]);
        if l[b - 1].len() > 0 {
            if kept_lines(l.take(b - 1)).len() == 0 {
                assert(x.len() == 0) by {
                    assert(y0.len() == 0);
                }
                assert(x =~= y.take(0));
            } else {
                assert(y == y0 + seq!['\n'] + l[b - 1]);
                assert(y.take(x.len() as int) =~= y0.take(x.len() as int));
            }
        }
    }
}

/// The shortened notes take at most three bytes more than `max_chars`
/// (the closing `…`).
pub proof fn lemma_notes_preview_bounded(body: Seq<char>, max_lines: nat, max_chars: nat)
    ensures
        utf8_len(notes_preview(body, max_lines, max_chars)) <= max_chars + 3,
{
    let l = note_lines(body);
    let m = if l.len() <= max_lines {
        l.len()
    } else {
        max_lines
    };
    let joined = join_lines(kept_lines(l.take(m as int)));
    let r = notes_preview(body, max_lines, max_chars);
    assert(char_bytes('…') == 3);
    if joined.len() > 0 && utf8_len(joined) >= max_chars {
        let p = joined.take(chars_within(joined, max_chars) as int);
        lemma_chars_within_fits(joined, max_chars);
        assert(r.drop_last() =~= p);
    } else if l.len() > max_lines {
        assert(r.drop_last() =~= joined);
        if joined.len() == 0 {
            assert(utf8_len(joined) == 0);
        }
    } else {
        if joined.len() == 0 {
            assert(utf8_len(joined) == 0);
        }
    }
}

/// The number of line feeds in a text.
pub open spec fn newlines(s: Seq<char>) -> nat
    decreases s.len(),
{
    if s.len() == 0 {
        0
    } else {
        newlines(s.drop_last()) + if s.last() == '\n' {
            1nat
        } else {
            0nat
        }
    }
}

/// Whether a text holds no line feed.
pub open spec fn no_newline(s: Seq<char>) -> bool {
    forall|k: int| 0 <= k < s.len() ==> s[k] != '\n'
}

proof fn lemma_newlines_concat(a: Seq<char>, b: Seq<char>)
    ensures
        newlines(a + b) == newlines(a) + newlines(b),
    decreases b.len(),
{
    if b.len() == 0 {
        assert(a + b =~= a);
    } else {
        lemma_newlines_concat(a, b.drop_last());
        assert((a + b).drop_last() =~= a + b.drop_last());
        assert((a + b).last() == b.last());
    }
}

proof fn lemma_newlines_none(s: Seq<char>)
    requires
        no_newline(s),
    ensures
        newlines(s) == 0,
    decreases s.len(),
{
    if s.len() > 0 {
        lemma_newlines_none(s.drop_last());
    }
}

proof fn lemma_newlines_take(s: Seq<char>, k: int)
    requires
        0 <= k <= s.len(),
    ensures
        newlines(s.take(k)) <= newlines(s),
    decreases s.len() - k,
{
    if k < s.len() {
        lemma_newlines_take(s, k + 1);
        assert(s.take(k + 1).drop_last() =~= s.take(k));
    } else {
        assert(s.take(k) =~= s);
    }
}

proof fn lemma_newline_pieces_clean(s: Seq<char>)
    ensures
        forall|i: int| 0 <= i < newline_pieces(s).len() ==> no_newline(#[trigger] newline_pieces(s)[i]),
    decreases s.len(),
{
    lemma_newline_pieces_nonempty(s);
    if s.len() > 0 {
        lemma_newline_pieces_clean(s.drop_last());
        lemma_newline_pieces_nonempty(s.drop_last());
        let prev = newline_pieces(s.drop_last());
        if s.last() != '\n' {
            let q = prev.update(prev.len() - 1, prev.last().push(s.last()));
            assert forall|i: int| 0 <= i < q.len() implies no_newline(#[trigger] q[i]) by {
                if i == q.len() - 1 {
                    assert(no_newline(prev[i]));
                    assert forall|k: int| 0 <= k < q[i].len() implies q[i][k] != '\n' by {
                        if k < prev[i].len() {
                            assert(q[i][k] == prev[i][k]);
                        }
                    }
                }
            }
        } else {
            let q = prev.push(Seq::<char>::empty());
            assert forall|i: int| 0 <= i < q.len() implies no_newline(#[trigger] q[i]) by {
                if i < prev.len() {
                    assert(q[i] == prev[i]);
                }
            }
        }
    }
}

proof fn lemma_trim_end_prefix(s: Seq<char>)
    ensures
        trim_end(s).len() <= s.len(),
        forall|k: int| 0 <= k < trim_end(s).len() ==> trim_end(s)[k] == s[k],
    decreases s.len(),
{
    if s.len() > 0 && crate::text::is_ws(s.last()) {
        lemma_trim_end_prefix(s.drop_last());
        assert forall|k: int| 0 <= k < trim_end(s).len() implies trim_end(s)[k] == s[k] by {
            assert(s.drop_last()[k] == s[k]);
        }
    }
}

proof fn lemma_note_lines_clean(body: Seq<char>)
    ensures
        forall|i: int| 0 <= i < note_lines(body).len() ==> no_newline(#[trigger] note_lines(body)[i]),
{
    lemma_newline_pieces_clean(body);
    lemma_newline_pieces_nonempty(body);
    let p = newline_pieces(body);
    let t = text_lines(body);
    assert forall|i: int| 0 <= i < t.len() implies no_newline(#[trigger] t[i]) by {
        assert(t[i] == p[i]);
    }
    assert forall|i: int| 0 <= i < note_lines(body).len() implies no_newline(
        #[trigger] note_lines(body)[i],
    ) by {
        let l = t[i];
        assert(note_lines(body)[i] == trim_end(l));
        lemma_trim_end_prefix(l);
        assert forall|k: int| 0 <= k < trim_end(l).len() implies trim_end(l)[k] != '\n' by {
            assert(trim_end(l)[k] == l[k]);
        }
    }
}

proof fn lemma_kept_lines_clean(l: Seq<Seq<char>>)
    requires
        forall|i: int| 0 <= i < l.len() ==> no_newline(#[trigger] l[i]),
    ensures
        kept_lines(l).len() <= l.len(),
        forall|i: int| 0 <= i < kept_lines(l).len() ==> no_newline(#[trigger] kept_lines(l)[i]),
    decreases l.len(),
{
    if l.len() > 0 {
        let r = l.drop_last();
        assert forall|i: int| 0 <= i < r.len() implies no_newline(#[trigger] r[i]) by {
            assert(r[i] == l[i]);
        }
        lemma_kept_lines_clean(r);
        assert(no_newline(l[l.len() - 1]));
    }
}

proof fn lemma_join_lines_newlines(items: Seq<Seq<char>>)
    requires
        forall|i: int| 0 <= i < items.len() ==> no_newline(#[trigger] items[i]),
    ensures
        newlines(join_lines(items)) + 1 <= items.len() || newlines(join_lines(items)) == 0,
        items.len() > 0 ==> newlines(join_lines(items)) + 1 == items.len(),
    decreases items.len(),
{
    if items.len() == 1 {
        lemma_newlines_none(items[0]);
    } else if items.len() > 1 {
        let r = items.drop_last();
        assert forall|i: int| 0 <= i < r.len() implies no_newline(#[trigger] r[i]) by {
            assert(r[i] == items[i]);
        }
        lemma_join_lines_newlines(r);
        lemma_newlines_concat(join_lines(r), seq!['\n']);
        lemma_newlines_concat(join_lines(r) + seq!['\n'], items.last());
        lemma_newlines_none(items.last());
        assert(seq!['\n'].drop_last() =~= Seq::<char>::empty());
        assert(newlines(Seq::<char>::empty()) == 0);
        assert(newlines(seq!['\n']) == 1);
    }
}

/// The shortened notes never have more lines than `max_lines` (no line
/// feed at all where `max_lines` is 0 or 1).
pub proof fn lemma_notes_preview_lines(body: Seq<char>, max_lines: nat, max_chars: nat)
    ensures
        newlines(notes_preview(body, max_lines, max_chars)) + 1 <= max_lines || newlines(
            notes_preview(body, max_lines, max_chars),
        ) == 0,
{
    let l = note_lines(body);
    let m = if l.len() <= max_lines {
        l.len()
    } else {
        max_lines
    };
    let lt = l.take(m as int);
    lemma_note_lines_clean(body);
    assert forall|i: int| 0 <= i < lt.len() implies no_newline(#[trigger] lt[i]) by {
        assert(lt[i] == l[i]);
    }
    lemma_kept_lines_clean(lt);
    let kept = kept_lines(lt);
    let joined = join_lines(kept);
    lemma_join_lines_newlines(kept);
    let r = notes_preview(body, max_lines, max_chars);
    lemma_newlines_concat(Seq::<char>::empty(), seq!['…']);
    assert(seq!['…'].drop_last() =~= Seq::<char>::empty());
    assert(newlines(seq!['…']) == 0);
    if joined.len() > 0 && utf8_len(joined) >= max_chars {
        let k = chars_within(joined, max_chars) as int;
        lemma_chars_within_fits(joined, max_chars);
        lemma_newlines_take(joined, k);
        assert(r =~= joined.take(k) + seq!['…']);
        lemma_newlines_concat(joined.take(k), seq!['…']);
    } else if l.len() > max_lines {
        assert(r =~= joined + seq!['…']);
        lemma_newlines_concat(joined, seq!['…']);
    }
}

// ----------------------------------------------------------------------
// Executable functions
// ----------------------------------------------------------------------

/// The number of bytes of a character in UTF-8 (`char::len_utf8`).
fn char_len_utf8(c: char) -> (r: usize)
    ensures
        r == char_bytes(c),
        1 <= r <= 4,
{
    let v = c as u32;
    if v < 0x80 {
        1
    } else if v < 0x800 {
        2
    } else if v < 0x10000 {
        3
    } else {
        4
    }
}

/// The lines of a text (`str::lines`, see `text_lines`).
fn split_lines(v: &[char]) -> (r: Vec<Vec<char>>)
    ensures
        r@.map_values(|x: Vec<char>| x@) == text_lines(v@),
{
    let mut out: Vec<Vec<char>> = Vec::new();
    let mut cur: Vec<char> = Vec::new();
    let n = v.len();
    assert(v@.take(0) =~= Seq::<char>::empty());
    for i in 0..n
        invariant
            n == v@.len(),
            newline_pieces(v@.take(i as int)).len() >= 1,
            cur@ == newline_pieces(v@.take(i as int)).last(),
            out@.map_values(|x: Vec<char>| x@) == newline_pieces(v@.take(i as int)).drop_last(),
    {
        let c = v[i];
        let ghost p = newline_pieces(v@.take(i as int));
        assert(v@.take(i + 1).drop_last() =~= v@.take(i as int));
        assert(v@.take(i + 1).last() == c);
        if c == '\n' {
            let ghost before = out@;
            out.push(cur);
            cur = Vec::new();
            proof {
                let q = newline_pieces(v@.take(i + 1));
                assert(q == p.push(Seq::<char>::empty()));
                assert(out@.map_values(|x: Vec<char>| x@) =~= before.map_values(|x: Vec<char>| x@).push(
                    p.last(),
                ));
                assert(p.drop_last().push(p.last()) =~= p);
                assert(q.drop_last() =~= p);
                assert(cur@ =~= Seq::<char>::empty());
            }
        } else {
            cur.push(c);
            proof {
                let q = newline_pieces(v@.take(i + 1));
                assert(q == p.update(p.len() - 1, p.last().push(c)));
                assert(q.drop_last() =~= p.drop_last());
            }
        }
    }
    assert(v@.take(n as int) =~= v@);
    let ghost p = newline_pieces(v@);
    if cur.len() > 0 {
        let ghost before = out@;
        out.push(cur);
        proof {
            assert(out@.map_values(|x: Vec<char>| x@) =~= before.map_values(|x: Vec<char>| x@).push(
                p.last(),
            ));
            assert(p.drop_last().push(p.last()) =~= p);
        }
    }
    out
}

/// The characters of the longest prefix of `v` that takes at most `n`
/// bytes.
fn prefix_within(v: &Vec<char>, n: usize) -> (r: Vec<char>)
    ensures
        r@ == v@.take(chars_within(v@, n as nat) as int),
{
    let len = v.len();
    let mut k: usize = 0;
    let mut used: usize = 0;
    while k < len
        invariant
            len == v@.len(),
            k <= len,
            used == utf8_len(v@.take(k as int)),
            used <= n,
        ensures
            k <= len,
            used == utf8_len(v@.take(k as int)),
            k == len || utf8_len(v@.take(k + 1)) > n,
        decreases len - k,
    {
        let b = char_len_utf8(v[k]);
        proof {
            lemma_utf8_len_step(v@, k as int);
        }
        if b > n - used {
            break;
        }
        used = used + b;
        k = k + 1;
    }
    proof {
        lemma_chars_within_is(v@, n as nat, k as int);
    }
    let mut r: Vec<char> = Vec::new();
    let mut j: usize = 0;
    while j < k
        invariant
            k <= len == v@.len(),
            j <= k,
            r@ == v@.take(j as int),
        decreases k - j,
    {
        r.push(v[j]);
        assert(v@.take(j + 1) =~= v@.take(j as int).push(v@[j as int]));
        j = j + 1;
    }
    r
}

/// Shortens release notes for the startup notice: see `notes_preview`.
pub fn preview_notes(body: &str, max_lines: usize, max_chars: usize) -> (r: String)
    ensures
        r@ == notes_preview(body@, max_lines as nat, max_chars as nat),
{
    let chars = to_chars(body);
    let lines = split_lines(chars.as_slice());
    let ghost l = note_lines(body@);
    let n = lines.len();
    assert(l.len() == n);
    let mut out: Vec<char> = Vec::new();
    let mut bytes: usize = 0;
    assert(l.take(0) =~= Seq::<Seq<char>>::empty());
    for i in 0..n
        invariant
            n == lines@.len(),
            l == note_lines(body@),
            l.len() == n,
            lines@.map_values(|x: Vec<char>| x@) == text_lines(body@),
            i <= max_lines,
            out@ == join_lines(kept_lines(l.take(i as int))),
            (out@.len() == 0) == (kept_lines(l.take(i as int)).len() == 0),
            bytes == utf8_len(out@),
            out@.len() == 0 || bytes < max_chars,
    {
        if i >= max_lines {
            out.push('…');
            proof {
                assert(l.len() > max_lines);
            }
            return from_chars(out.as_slice());
        }
        let line = trim_end_chars(lines[i].as_slice());
        proof {
            assert(lines@.map_values(|x: Vec<char>| x@)[i as int] == lines@[i as int]@);
            assert(line@ == l[i as int]);
            lemma_kept_lines_step(l, i as int);
        }
        if line.len() > 0 {
            let ghost before = out@;
            let ghost kept = kept_lines(l.take(i as int));
            proof {
                lemma_join_lines_push(kept, line@);
            }
            let mut total: usize = bytes;
            if out.len() > 0 {
                out.push('\n');
                total = total + 1;
                proof {
                    assert(out@.drop_last() =~= before);
                }
            }
            let ghost base = out@;
            let m = line.len();
            for j in 0..m
                invariant
                    m == line@.len(),
                    out@ == base + line@.take(j as int),
                    total == (if utf8_len(out@) <= usize::MAX {
                        utf8_len(out@)
                    } else {
                        usize::MAX as nat
                    }),
            {
                let c = line[j];
                out.push(c);
                let b = char_len_utf8(c);
                proof {
                    assert(out@.drop_last() =~= base + line@.take(j as int));
                    assert(line@.take(j + 1) =~= line@.take(j as int).push(c));
                    assert(out@ =~= base + line@.take(j + 1));
                }
                total = total.saturating_add(b);
            }
            proof {
                assert(line@.take(m as int) =~= line@);
                if before.len() == 0 {
                    assert(out@ =~= line@);
                } else {
                    assert(out@ =~= before + seq!['\n'] + line@);
                }
            }
            if total >= max_chars {
                let cut = prefix_within(&out, max_chars);
                let mut res = cut;
                res.push('…');
                proof {
                    let mm = if l.len() <= max_lines {
                        l.len() as int
                    } else {
                        max_lines as int
                    };
                    let joined = join_lines(kept_lines(l.take(mm)));
                    lemma_joined_prefix(l, i + 1, mm);
                    let j = out@.len() as int;
                    assert(out@ == joined.take(j));
                    lemma_chars_within_prefix(joined, j, max_chars as nat);
                    assert(joined.len() > 0);
                    lemma_take_all(joined);
                    lemma_utf8_len_take_monotone(joined, j, joined.len() as int);
                    assert(out@.take(chars_within(out@, max_chars as nat) as int) =~= joined.take(
                        chars_within(joined, max_chars as nat) as int,
                    ));
                }
                return from_chars(res.as_slice());
            }
            bytes = total;
        }
    }
    proof {
        assert(l.take(n as int) =~= l);
    }
    from_chars(out.as_slice())
}

/// Whether the answer to "do not remind me again for this version" is
/// yes: `y` or `yes`, ignoring surrounding whitespace and ASCII case.
pub fn accepts_dismiss(answer: &str) -> (r: bool)
    ensures
        r == is_yes_answer(answer@),
{
    let a = trim_lower(answer);
    let yes_short = to_chars("y");
    let yes_long = to_chars("yes");
    crate::text::slice_eq(a.as_slice(), yes_short.as_slice()) || crate::text::slice_eq(
        a.as_slice(),
        yes_long.as_slice(),
    )
}

} // verus!
