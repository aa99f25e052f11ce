//! Helpers for page templates: safe links, link relations, form tokens,
//! asset tags, pagination, line breaks and slugs.
use crate::text::{
    head, is_white, lemma_words_end_in_word, or_else, pos_from, pos_of, same_text, starts_with,
    starts_with_text, tail, white, words,
};
use vstd::arithmetic::div_mod::{lemma_fundamental_div_mod, lemma_fundamental_div_mod_converse};
use vstd::prelude::*;
use vstd::string::{StringExecFns, StringSliceAdditionalSpecFns};
use vstd::utf8::{decode_utf8, encode_utf8_decode_utf8, is_char_boundary};

verus! {

/// An address that may stand in a link: site-relative or over HTTP(S).
pub open spec fn is_safe_url(url: Seq<char>) -> bool {
    starts_with(url, "/"@) || starts_with(url, "https://"@) || starts_with(url, "http://"@)
}

/// `url` when it is safe to link to, `#` otherwise.
pub fn safe_url(url: &str) -> (r: &str)
    ensures
        is_safe_url(url@) ==> r@ == url@,
        !is_safe_url(url@) ==> r@ == "#"@,
{
    if starts_with_text(url, "/") || starts_with_text(url, "https://") || starts_with_text(url, "http://") {
        url
    } else {
        "#"
    }
}

/// The `rel` value for a link: external addresses (starting with `http`)
/// open without referrer or opener; others get none.
pub fn external_rel(url: &str) -> (r: &'static str)
    ensures
        starts_with(url@, "http"@) ==> r@ == "noopener noreferrer external"@,
        !starts_with(url@, "http"@) ==> r@ == ""@,
{
    if starts_with_text(url, "http") {
        "noopener noreferrer external"
    } else {
        ""
    }
}

/// A hidden form field carrying the anti-forgery token.
pub fn csrf_input(token: &str) -> (r: String)
    ensures
        r@ == "<input type=\"hidden\" name=\"csrf\" value=\""@ + token@ + "\">"@,
{
    let mut s = "<input type=\"hidden\" name=\"csrf\" value=\"".to_owned();
    s.append(token);
    s.append("\">");
    s
}

/// Marks the link to the current page.
pub fn active_link(current: &str, href: &str) -> (r: &'static str)
    ensures
        current@ == href@ ==> r@ == "aria-current=\"page\""@,
        current@ != href@ ==> r@ == ""@,
{
    if same_text(current, href) {
        "aria-current=\"page\""
    } else {
        ""
    }
}

/// The tag that loads an asset: a style sheet for `css`, a module script for
/// `js`, nothing for another kind.
pub fn asset_tag(kind: &str, href: &str) -> (r: String)
    ensures
        kind@ == "css"@ ==> r@ == "<link rel=\"stylesheet\" href=\""@ + href@ + "\">"@,
        kind@ == "js"@ ==> r@ == "<script type=\"module\" src=\""@ + href@ + "\"></script>"@,
        kind@ != "css"@ && kind@ != "js"@ ==> r@ == Seq::<char>::empty(),
{
    proof {
        reveal_strlit("css");
        reveal_strlit("js");
        assert("js"@.len() != "css"@.len());
    }
    if same_text(kind, "css") {
        let mut s = "<link rel=\"stylesheet\" href=\"".to_owned();
        s.append(href);
        s.append("\">");
        s
    } else if same_text(kind, "js") {
        let mut s = "<script type=\"module\" src=\"".to_owned();
        s.append(href);
        s.append("\"></script>");
        s
    } else {
        String::new()
    }
}

/// Where a page stands among the pages of a listing.
#[derive(Clone, Copy, Debug, PartialEq, Eq, Structural)]
pub struct Pagination {
    pub pages: usize,
    pub page: usize,
    pub per: usize,
    pub prev: bool,
    pub next: bool,
}

/// Pages needed for `total` items, `per` to a page.
pub open spec fn page_count(total: int, per: int) -> int
    recommends
        per > 0,
{
    (total + per - 1) / per
}

/// The pagination of page `page` of `total` items, `per` to a page: there is
/// a previous page after the first, and a next page before the last (a
/// listing has at least one page).
pub fn paginate(total: usize, page: usize, per: usize) -> (r: Pagination)
    requires
        per > 0,
    ensures
        r.pages == page_count(total as int, per as int),
        r.page == page,
        r.per == per,
        r.prev == (page > 1),
        r.next == (page < (if r.pages > 1 {
            r.pages
        } else {
            1
        })),
{
    let q = total / per;
    let pages = if total % per != 0 {
        assert(q < usize::MAX) by (nonlinear_arith)
            requires
                per > 1,
                q == total / per,
                total <= usize::MAX,
        {
        }
        q + 1
    } else {
        q
    };
    proof {
        let t = total as int;
        let d = per as int;
        let rem = t % d;
        lemma_fundamental_div_mod(t, d);
        if rem == 0 {
            lemma_fundamental_div_mod_converse(t + d - 1, d, q as int, d - 1);
        } else {
            assert((q as int + 1) * d == q as int * d + d) by (nonlinear_arith);
            lemma_fundamental_div_mod_converse(t + d - 1, d, q as int + 1, rem - 1);
        }
    }
    let last = if pages > 1 {
        pages
    } else {
        1
    };
    Pagination { pages, page, per, prev: page > 1, next: page < last }
}

/// `s` with each line break written as an HTML break.
pub open spec fn with_breaks(s: Seq<char>) -> Seq<char>
    decreases s.len(),
{
    if s.len() == 0 {
        seq![]
    } else {
        with_breaks(s.drop_last()) + (if s.last() == '\n' {
            "<br/>"@
        } else {
            seq![s.last()]
        })
    }
}

/// Replaces every line break of `s` by `<br/>`.
pub fn nl2br(s: &str) -> (r: String)
    ensures
        r@ == with_breaks(s@),
{
    let n = s.unicode_len();
    let mut out = String::new();
    let mut i: usize = 0;
    while i < n
        invariant
            n == s@.len(),
            i <= n,
            out@ == with_breaks(s@.take(i as int)),
        decreases n - i,
    {
        assert(s@.take(i + 1).drop_last() =~= s@.take(i as int));
        let c = s.get_char(i);
        if c == '\n' {
            out.append("<br/>");
        } else {
            let piece = s.substring_char(i, i + 1);
            assert(piece@ =~= seq![c]);
            out.append(piece);
        }
        i = i + 1;
    }
    assert(s@.take(n as int) =~= s@);
    out
}

/// The slug of a text, as the `slug` crate computes it.
pub uninterp spec fn slug_of(s: Seq<char>) -> Seq<char>;

/// Relies on `slug::slugify`: the slug depends on the text alone.
#[verifier::external_body]
fn slug_text(s: &str) -> (r: String)
    ensures
        r@ == slug_of(s@),
{
    slug::slugify(s)
}

/// The slug of `s` for use in an address.
pub fn slugify(s: &str) -> (r: String)
    ensures
        r@ == slug_of(s@),
{
    slug_text(s)
}

/// The decimal digit for `d` (below ten).
pub open spec fn digit_char(d: int) -> char {
    if d == 0 {
        '0'
    } else if d == 1 {
        '1'
    } else if d == 2 {
        '2'
    } else if d == 3 {
        '3'
    } else if d == 4 {
        '4'
    } else if d == 5 {
        '5'
    } else if d == 6 {
        '6'
    } else if d == 7 {
        '7'
    } else if d == 8 {
        '8'
    } else {
        '9'
    }
}

/// The decimal digits of `n`, without leading zeros.
pub open spec fn digits(n: nat) -> Seq<char>
    decreases n,
{
    if n < 10 {
        seq![digit_char(n as int)]
    } else {
        digits(n / 10).push(digit_char((n % 10) as int))
    }
}

/// `n` in decimal, with a minus sign when negative.
pub open spec fn decimal(n: int) -> Seq<char> {
    if n < 0 {
        seq!['-'] + digits((-n) as nat)
    } else {
        digits(n as nat)
    }
}

fn digit_str(d: u64) -> (r: &'static str)
    requires
        d < 10,
    ensures
        r@ == seq![digit_char(d as int)],
{
    proof {
        reveal_strlit("0");
        reveal_strlit("1");
        reveal_strlit("2");
        reveal_strlit("3");
        reveal_strlit("4");
        reveal_strlit("5");
        reveal_strlit("6");
        reveal_strlit("7");
        reveal_strlit("8");
        reveal_strlit("9");
    }
    if d == 0 {
        "0"
    } else if d == 1 {
        "1"
    } else if d == 2 {
        "2"
    } else if d == 3 {
        "3"
    } else if d == 4 {
        "4"
    } else if d == 5 {
        "5"
    } else if d == 6 {
        "6"
    } else if d == 7 {
        "7"
    } else if d == 8 {
        "8"
    } else {
        "9"
    }
}

fn push_digits(s: &mut String, n: u64)
    ensures
        final(s)@ == old(s)@ + digits(n as nat),
    decreases n,
{
    if n >= 10 {
        push_digits(s, n / 10);
    }
    s.append(digit_str(n % 10));
    assert(final(s)@ =~= old(s)@ + digits(n as nat));
}

/// Appends `n` in decimal to `s`.
pub fn push_decimal(s: &mut String, n: i64)
    ensures
        final(s)@ == old(s)@ + decimal(n as int),
{
    if n < 0 {
        s.append("-");
        proof {
            reveal_strlit("-");
        }
        let magnitude: u64 = (-(n + 1)) as u64 + 1;
        push_digits(s, magnitude);
        assert(final(s)@ =~= old(s)@ + decimal(n as int));
    } else {
        push_digits(s, n as u64);
    }
}

/// How long ago something happened, given the seconds since then: in
/// seconds under a minute, then whole minutes, hours, and days.
pub open spec fn ago(seconds: int) -> Seq<char> {
    if seconds < 60 {
        "il y a "@ + decimal(seconds) + "s"@
    } else if seconds < 3600 {
        "il y a "@ + decimal(seconds / 60) + "min"@
    } else if seconds < 86400 {
        "il y a "@ + decimal(seconds / 3600) + "h"@
    } else {
        "il y a "@ + decimal(seconds / 86400) + "j"@
    }
}

/// The relative-time text for an event `seconds` ago.
pub fn ago_text(seconds: i64) -> (r: String)
    ensures
        r@ == ago(seconds as int),
{
    let mut s = "il y a ".to_owned();
    if seconds < 60 {
        push_decimal(&mut s, seconds);
        s.append("s");
    } else if seconds < 3600 {
        push_decimal(&mut s, seconds / 60);
        s.append("min");
    } else if seconds < 86400 {
        push_decimal(&mut s, seconds / 3600);
        s.append("h");
    } else {
        push_decimal(&mut s, seconds / 86400);
        s.append("j");
    }
    s
}

/// The text after the last dot of `p` (all of `p` when it has none).
pub open spec fn last_piece(p: Seq<char>) -> Seq<char>
    decreases p.len(),
{
    if p.len() == 0 {
        seq![]
    } else if p.last() == '.' {
        seq![]
    } else {
        last_piece(p.drop_last()).push(p.last())
    }
}

/// `p` with every dot replaced by `rep`.
pub open spec fn replace_dots(p: Seq<char>, rep: Seq<char>) -> Seq<char>
    decreases p.len(),
{
    if p.len() == 0 {
        seq![]
    } else {
        replace_dots(p.drop_last(), rep) + (if p.last() == '.' {
            rep
        } else {
            seq![p.last()]
        })
    }
}

/// One candidate of an image source set: the variant of `path` at width `w`
/// (each dot of the path becomes `.w.ext`) and its width descriptor.
pub open spec fn srcset_entry(path: Seq<char>, w: int) -> Seq<char> {
    "/public/"@ + replace_dots(path, "."@ + decimal(w) + "."@ + last_piece(path)) + " "@ + decimal(w)
        + "w"@
}

/// The candidates for `widths`, in order, separated by `, `.
pub open spec fn srcset(path: Seq<char>, widths: Seq<i64>) -> Seq<char>
    decreases widths.len(),
{
    if widths.len() == 0 {
        seq![]
    } else if widths.len() == 1 {
        srcset_entry(path, widths[0] as int)
    } else {
        srcset(path, widths.drop_last()) + ", "@ + srcset_entry(path, widths.last() as int)
    }
}

fn last_piece_of(p: &str) -> (r: &str)
    ensures
        r@ == last_piece(p@),
{
    let n = p.unicode_len();
    let mut k = n;
    assert(p@.take(n as int) =~= p@);
    assert(last_piece(p@) + p@.subrange(n as int, n as int) =~= last_piece(p@));
    while k > 0 && p.get_char(k - 1) != '.'
        invariant
            k <= n == p@.len(),
            last_piece(p@) == last_piece(p@.take(k as int)) + p@.subrange(k as int, n as int),
        decreases k,
    {
        assert(p@.take(k as int).drop_last() =~= p@.take(k - 1));
        assert(p@.subrange(k - 1, n as int) =~= seq![p@[k - 1]] + p@.subrange(k as int, n as int));
        assert(last_piece(p@.take(k - 1)) + p@.subrange(k - 1, n as int) =~= last_piece(
            p@.take(k - 1),
        ).push(p@[k - 1]) + p@.subrange(k as int, n as int));
        k = k - 1;
    }
    assert(last_piece(p@.take(k as int)) =~= seq![]);
    assert(p@.take(n as int) =~= p@);
    p.substring_char(k, n)
}

fn push_replaced(s: &mut String, p: &str, rep: &str)
    ensures
        final(s)@ == old(s)@ + replace_dots(p@, rep@),
{
    let n = p.unicode_len();
    let mut i: usize = 0;
    while i < n
        invariant
            n == p@.len(),
            i <= n,
            s@ == old(s)@ + replace_dots(p@.take(i as int), rep@),
        decreases n - i,
    {
        assert(p@.take(i + 1).drop_last() =~= p@.take(i as int));
        let c = p.get_char(i);
        if c == '.' {
            s.append(rep);
        } else {
            let piece = p.substring_char(i, i + 1);
            assert(piece@ =~= seq![c]);
            s.append(piece);
        }
        assert(s@ =~= old(s)@ + replace_dots(p@.take(i + 1), rep@));
        i = i + 1;
    }
    assert(p@.take(n as int) =~= p@);
}

fn push_entry(s: &mut String, path: &str, w: i64)
    ensures
        final(s)@ == old(s)@ + srcset_entry(path@, w as int),
{
    let mut rep = ".".to_owned();
    push_decimal(&mut rep, w);
    rep.append(".");
    rep.append(last_piece_of(path));
    s.append("/public/");
    push_replaced(s, path, rep.as_str());
    s.append(" ");
    push_decimal(s, w);
    s.append("w");
    assert(final(s)@ =~= old(s)@ + srcset_entry(path@, w as int));
}

/// The source set of a responsive image: for each width, the variant of
/// `path` at that width and its descriptor, separated by `, `.
pub fn img_srcset(path: &str, widths: &[i64]) -> (r: String)
    ensures
        r@ == srcset(path@, widths@),
{
    let mut s = String::new();
    let mut i: usize = 0;
    while i < widths.len()
        invariant
            i <= widths@.len(),
            s@ == srcset(path@, widths@.take(i as int)),
        decreases widths@.len() - i,
    {
        let ghost before = s@;
        assert(widths@.take(i + 1).drop_last() =~= widths@.take(i as int));
        if i > 0 {
            s.append(", ");
        }
        push_entry(&mut s, path, widths[i]);
        proof {
            if i == 0 {
                assert(before =~= Seq::<char>::empty());
                assert(s@ =~= srcset(path@, widths@.take(1)));
            } else {
                assert(s@ =~= srcset(path@, widths@.take(i + 1)));
            }
        }
        i = i + 1;
    }
    assert(widths@.take(i as int) =~= widths@);
    s
}

/// `ws` separated by single spaces.
pub open spec fn join_words(ws: Seq<Seq<char>>) -> Seq<char>
    decreases ws.len(),
{
    if ws.len() == 0 {
        seq![]
    } else if ws.len() == 1 {
        ws[0]
    } else {
        join_words(ws.drop_last()) + seq![' '] + ws.last()
    }
}

/// Position of the first character of `s` at or after `i` that is not white
/// space, or the length of `s`.
pub open spec fn first_solid(s: Seq<char>, i: int) -> int
    decreases s.len() - i,
{
    if i >= s.len() || i < 0 {
        s.len() as int
    } else if !is_white(s[i]) {
        i
    } else {
        first_solid(s, i + 1)
    }
}

/// The first `n` elements of `ws` (all of them when there are fewer).
pub open spec fn first_n(ws: Seq<Seq<char>>, n: nat) -> Seq<Seq<char>> {
    if n < ws.len() {
        ws.take(n as int)
    } else {
        ws
    }
}

/// The first `n` words of the first line of `s` that is not blank, separated
/// by single spaces.
pub open spec fn excerpt(s: Seq<char>, n: nat) -> Seq<char> {
    let k = first_solid(s, 0);
    let e = pos_from(s, '\n', k);
    join_words(first_n(words(s.subrange(k, e)), n))
}

proof fn lemma_join_extend(ws: Seq<Seq<char>>, c: char)
    requires
        ws.len() > 0,
    ensures
        join_words(ws.drop_last().push(ws.last().push(c))) == join_words(ws).push(c),
{
    let v = ws.drop_last().push(ws.last().push(c));
    assert(v.drop_last() =~= ws.drop_last());
    if ws.len() > 1 {
        assert(join_words(v) =~= join_words(ws).push(c));
    }
}

/// The first `n` words of the first non-blank line of `s`, separated by
/// single spaces; empty when every line is blank.
pub fn md_excerpt(s: &str, n: usize) -> (r: String)
    ensures
        r@ == excerpt(s@, n as nat),
{
    let len = s.unicode_len();
    let mut k: usize = 0;
    while k < len && white(s.get_char(k))
        invariant
            len == s@.len(),
            k <= len,
            first_solid(s@, k as int) == first_solid(s@, 0),
        decreases len - k,
    {
        k = k + 1;
    }
    let mut e: usize = k;
    while e < len && s.get_char(e) != '\n'
        invariant
            len == s@.len(),
            k <= e <= len,
            pos_from(s@, '\n', e as int) == pos_from(s@, '\n', k as int),
        decreases len - e,
    {
        e = e + 1;
    }
    let ghost line = s@.subrange(k as int, e as int);
    let mut out = String::new();
    let mut count: usize = 0;
    let mut i: usize = k;
    assert(line.take(0) =~= Seq::<char>::empty());
    while i < e
        invariant
            len == s@.len(),
            k <= i <= e <= len,
            line == s@.subrange(k as int, e as int),
            count == words(line.take(i - k)).len(),
            count <= i - k,
            out@ == join_words(first_n(words(line.take(i - k)), n as nat)),
        decreases e - i,
    {
        let ghost t = line.take(i - k + 1);
        let ghost w = words(line.take(i - k));
        assert(t.drop_last() =~= line.take(i - k));
        let c = s.get_char(i);
        assert(t.last() == c);
        if !white(c) {
            if i > k && !white(s.get_char(i - 1)) {
                assert(t[t.len() - 2] == s@[i - 1]);
                proof {
                    lemma_words_end_in_word(line.take(i - k));
                }
                let ghost v = w.drop_last().push(w.last().push(c));
                assert(words(t) == v);
                if count <= n {
                    let piece = s.substring_char(i, i + 1);
                    assert(piece@ =~= seq![c]);
                    out.append(piece);
                    proof {
                        lemma_join_extend(w, c);
                        assert(out@ =~= join_words(w).push(c));
                    }
                } else {
                    assert(v.take(n as int) =~= w.take(n as int));
                }
            } else {
                assert(i == k || is_white(t[t.len() - 2]));
                let ghost v = w.push(seq![c]);
                assert(words(t) == v);
                if count < n {
                    if count > 0 {
                        out.append(" ");
                        proof {
                            reveal_strlit(" ");
                        }
                    }
                    let piece = s.substring_char(i, i + 1);
                    assert(piece@ =~= seq![c]);
                    out.append(piece);
                    proof {
                        assert(v.drop_last() =~= w);
                        assert(out@ =~= join_words(v));
                    }
                } else {
                    assert(v.take(n as int) =~= first_n(w, n as nat));
                }
                count = count + 1;
            }
        }
        i = i + 1;
    }
    assert(line.take(e - k) =~= line);
    out
}

/// `s` cut to its first `n` bytes, with an ellipsis, when it is longer than
/// that; `n` must then fall on a character boundary.
pub fn truncate(s: &str, n: usize) -> (r: String)
    requires
        s.len() <= n || is_char_boundary(s.spec_bytes(), n as int),
    ensures
        s.len() <= n ==> r@ == s@,
        s.len() > n ==> r@ == decode_utf8(s.spec_bytes().subrange(0, n as int))
            + "\u{2026}"@,
{
    if s.len() > n {
        let (head, _) = s.split_at(n);
        proof {
            encode_utf8_decode_utf8(head@);
            assert(head.spec_bytes() == s.spec_bytes().subrange(0, n as int));
            assert(decode_utf8(s.spec_bytes().subrange(0, n as int)) == head@);
        }
        let mut r = head.to_owned();
        r.append("\u{2026}");
        r
    } else {
        s.to_owned()
    }
}

/// Character `i` of `s`, followed by a space when a multiple of three
/// (but not zero) characters stand to its right.
pub open spec fn grouped_piece(s: Seq<char>, i: int) -> Seq<char> {
    let right = s.len() - 1 - i;
    if right > 0 && right % 3 == 0 {
        seq![s[i], ' ']
    } else {
        seq![s[i]]
    }
}

/// The pieces of the first `k` characters of `s`.
pub open spec fn grouped_prefix(s: Seq<char>, k: int) -> Seq<char>
    decreases k,
{
    if k <= 0 {
        seq![]
    } else {
        grouped_prefix(s, k - 1) + grouped_piece(s, k - 1)
    }
}

/// `s` with a space after every third character counted from the right.
pub open spec fn grouped(s: Seq<char>) -> Seq<char> {
    grouped_prefix(s, s.len() as int)
}

/// Separates the digits of a formatted number by thousands, with spaces.
pub fn group_thousands(s: &str) -> (r: String)
    ensures
        r@ == grouped(s@),
{
    let n = s.unicode_len();
    let mut out = String::new();
    let mut i: usize = 0;
    while i < n
        invariant
            n == s@.len(),
            i <= n,
            out@ == grouped_prefix(s@, i as int),
        decreases n - i,
    {
        let piece = s.substring_char(i, i + 1);
        out.append(piece);
        let right = n - 1 - i;
        if right > 0 && right % 3 == 0 {
            out.append(" ");
            proof {
                reveal_strlit(" ");
            }
        }
        assert(out@ =~= grouped_prefix(s@, i + 1));
        i = i + 1;
    }
    out
}

/// A euro amount from its two-decimal rendering: the whole part grouped by
/// thousands, a decimal comma, the cents and the euro sign.
pub open spec fn euros(formatted: Seq<char>) -> Seq<char> {
    grouped(head(formatted, '.')) + ","@ + or_else(tail(formatted, '.'), "00"@) + " \u{20ac}"@
}

/// Writes an amount already rendered with two decimals (`1234.50`) as euros
/// (`1 234,50 €`).
pub fn money_text(formatted: &str) -> (r: String)
    ensures
        r@ == euros(formatted@),
{
    let k = pos_of(formatted, '.');
    let n = formatted.unicode_len();
    let mut out = group_thousands(formatted.substring_char(0, k));
    out.append(",");
    if k < n {
        out.append(formatted.substring_char(k + 1, n));
    } else {
        out.append("00");
    }
    out.append(" \u{20ac}");
    out
}

/// The HTML that `comrak` renders for a Markdown text, with the table and
/// strikethrough extensions switched as given.
pub uninterp spec fn markdown_html_of(s: Seq<char>, table: bool, strikethrough: bool) -> Seq<char>;

/// Relies on `comrak::markdown_to_html`: the output depends on the text and
/// the extension switches alone.
#[verifier::external_body]
fn markdown_to_html(s: &str, table: bool, strikethrough: bool) -> (r: String)
    ensures
        r@ == markdown_html_of(s@, table, strikethrough),
{
    let mut opt = comrak::Options::default();
    opt.extension.table = table;
    opt.extension.strikethrough = strikethrough;
    comrak::markdown_to_html(s, &opt)
}

/// Markdown to HTML, with tables and strikethrough.
pub fn markdown(s: &str) -> (r: String)
    ensures
        r@ == markdown_html_of(s@, true, true),
{
    markdown_to_html(s, true, true)
}

} // verus!
