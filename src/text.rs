//! Small text helpers shared by the modules of this crate.
use vstd::prelude::*;

verus! {

/// The text of each string.
pub open spec fn texts(v: Seq<String>) -> Seq<Seq<char>> {
    v.map_values(|s: String| s@)
}

/// `p[i..j]` is the text `lit`.
pub fn span_is(p: &str, i: usize, j: usize, lit: &str) -> (r: bool)
    requires
        i <= j <= p@.len(),
    ensures
        r == (p@.subrange(i as int, j as int) == lit@),
{
    let n = lit.unicode_len();
    if j - i != n {
        return false;
    }
    let mut k: usize = 0;
    while k < n
        invariant
            i <= j <= p@.len(),
            j - i == n,
            n == lit@.len(),
            k <= n,
            forall|t: int| 0 <= t < k ==> p@[i + t] == lit@[t],
        decreases n - k,
    {
        if p.get_char(i + k) != lit.get_char(k) {
            assert(p@.subrange(i as int, j as int)[k as int] != lit@[k as int]);
            return false;
        }
        k = k + 1;
    }
    assert(p@.subrange(i as int, j as int) =~= lit@);
    true
}

/// `a` and `b` hold the same text.
pub fn same_text(a: &str, b: &str) -> (r: bool)
    ensures
        r == (a@ == b@),
{
    let n = a.unicode_len();
    let r = span_is(a, 0, n, b);
    assert(a@.subrange(0, n as int) =~= a@);
    r
}

/// `s` is one of the texts in `list`.
pub open spec fn contains_text(list: Seq<&str>, s: Seq<char>) -> bool {
    exists|i: int| 0 <= i < list.len() && (#[trigger] list[i])@ == s
}

/// Whether `list` holds the text `s`.
pub fn has_text(list: &[&str], s: &str) -> (r: bool)
    ensures
        r == contains_text(list@, s@),
{
    let mut i: usize = 0;
    while i < list.len()
        invariant
            i <= list@.len(),
            forall|k: int| 0 <= k < i ==> (#[trigger] list@[k])@ != s@,
        decreases list@.len() - i,
    {
        if same_text(list[i], s) {
            return true;
        }
        i = i + 1;
    }
    false
}

/// Position of the first `c` in `s` at or after `i`, or the length of `s`.
pub open spec fn pos_from(s: Seq<char>, c: char, i: int) -> int
    decreases s.len() - i,
{
    if i >= s.len() || i < 0 {
        s.len() as int
    } else if s[i] == c {
        i
    } else {
        pos_from(s, c, i + 1)
    }
}

/// The part of `s` before its first `c` (all of `s` when there is none).
pub open spec fn head(s: Seq<char>, c: char) -> Seq<char> {
    s.subrange(0, pos_from(s, c, 0))
}

/// The part of `s` after its first `c`, if there is one.
pub open spec fn tail(s: Seq<char>, c: char) -> Option<Seq<char>> {
    let k = pos_from(s, c, 0);
    if k < s.len() {
        Some(s.subrange(k + 1, s.len() as int))
    } else {
        None
    }
}

/// The text held by `o`, or `d`.
pub open spec fn or_else(o: Option<Seq<char>>, d: Seq<char>) -> Seq<char> {
    match o {
        Some(v) => v,
        None => d,
    }
}

/// `s` begins with `pre`.
pub open spec fn starts_with(s: Seq<char>, pre: Seq<char>) -> bool {
    s.len() >= pre.len() && s.subrange(0, pre.len() as int) == pre
}

/// Position of the first `c` in `s`, or the length of `s`.
pub fn pos_of(s: &str, c: char) -> (r: usize)
    ensures
        r == pos_from(s@, c, 0),
        r <= s@.len(),
{
    let n = s.unicode_len();
    let mut i: usize = 0;
    while i < n
        invariant
            n == s@.len(),
            i <= n,
            pos_from(s@, c, i as int) == pos_from(s@, c, 0),
        decreases n - i,
    {
        if s.get_char(i) == c {
            return i;
        }
        i = i + 1;
    }
    i
}

/// Whether `s` begins with `pre`.
pub fn starts_with_text(s: &str, pre: &str) -> (r: bool)
    ensures
        r == starts_with(s@, pre@),
{
    let n = pre.unicode_len();
    n <= s.unicode_len() && span_is(s, 0, n, pre)
}

/// The characters with the Unicode White_Space property, which is what
/// `char::is_whitespace` tests.
pub open spec fn is_white(c: char) -> bool {
    let v = c as u32;
    ||| 0x09 <= v <= 0x0d
    ||| v == 0x20
    ||| v == 0x85
    ||| v == 0xa0
    ||| v == 0x1680
    ||| 0x2000 <= v <= 0x200a
    ||| v == 0x2028
    ||| v == 0x2029
    ||| v == 0x202f
    ||| v == 0x205f
    ||| v == 0x3000
}

pub fn white(c: char) -> (r: bool)
    ensures
        r == is_white(c),
{
    let v = c as u32;
    (0x09 <= v && v <= 0x0d) || v == 0x20 || v == 0x85 || v == 0xa0 || v == 0x1680 || (0x2000 <= v
        && v <= 0x200a) || v == 0x2028 || v == 0x2029 || v == 0x202f || v == 0x205f || v == 0x3000
}

/// The words of `t`: its maximal runs of characters that are not white
/// space, in order.
pub open spec fn words(t: Seq<char>) -> Seq<Seq<char>>
    decreases t.len(),
{
    if t.len() == 0 {
        seq![]
    } else {
        let w = words(t.drop_last());
        if is_white(t.last()) {
            w
        } else if t.len() >= 2 && !is_white(t[t.len() - 2]) {
            w.drop_last().push(w.last().push(t.last()))
        } else {
            w.push(seq![t.last()])
        }
    }
}

/// Text that ends in a word has at least one word.
pub proof fn lemma_words_end_in_word(t: Seq<char>)
    requires
        t.len() > 0,
        !is_white(t.last()),
    ensures
        words(t).len() > 0,
    decreases t.len(),
{
    if t.len() >= 2 && !is_white(t[t.len() - 2]) {
        let u = t.drop_last();
        assert(u.last() == t[t.len() - 2]);
        lemma_words_end_in_word(u);
    }
}

/// The words of `s`, in order: what `str::split_whitespace` yields.
pub fn split_words(s: &str) -> (r: Vec<String>)
    ensures
        texts(r@) == words(s@),
{
    let n = s.unicode_len();
    let mut out: Vec<String> = Vec::new();
    let mut cur = String::new();
    let mut i: usize = 0;
    while i < n
        invariant
            n == s@.len(),
            i <= n,
            (i == 0 || is_white(s@[i - 1])) ==> texts(out@) == words(s@.take(i as int))
                && cur@.len() == 0,
            (i > 0 && !is_white(s@[i - 1])) ==> texts(out@).push(cur@) == words(s@.take(i as int)),
        decreases n - i,
    {
        let ghost t = s@.take(i + 1);
        let ghost w = words(s@.take(i as int));
        assert(t.drop_last() =~= s@.take(i as int));
        let c = s.get_char(i);
        assert(t.last() == c);
        if white(c) {
            if i > 0 && !white(s.get_char(i - 1)) {
                let ghost before = texts(out@);
                let ghost word = cur@;
                out.push(cur);
                cur = String::new();
                assert(texts(out@) =~= before.push(word));
            }
            assert(cur@ =~= Seq::<char>::empty());
        } else {
            let piece = s.substring_char(i, i + 1);
            assert(piece@ =~= seq![c]);
            if i > 0 && !white(s.get_char(i - 1)) {
                assert(t[t.len() - 2] == s@[i - 1]);
                proof {
                    lemma_words_end_in_word(s@.take(i as int));
                }
                let ghost old_cur = cur@;
                assert(texts(out@).push(old_cur) == w);
                assert(w.drop_last() =~= texts(out@));
                assert(w.last() == old_cur);
                cur.append(piece);
                assert(cur@ =~= old_cur.push(c));
                assert(texts(out@).push(cur@) =~= w.drop_last().push(w.last().push(c)));
            } else {
                assert(i == 0 || is_white(t[t.len() - 2]));
                cur.append(piece);
                assert(cur@ =~= seq![c]);
                assert(texts(out@).push(cur@) =~= w.push(seq![c]));
            }
        }
        i = i + 1;
    }
    assert(s@.take(n as int) =~= s@);
    if n > 0 && !white(s.get_char(n - 1)) {
        let ghost before = texts(out@);
        out.push(cur);
        assert(texts(out@) =~= before.push(cur@));
    }
    out
}

} // verus!
