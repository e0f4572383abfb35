//! Character-level helpers shared by the configuration parser and the API layer.
use vstd::prelude::*;

verus! {

/// `char::is_whitespace`: the Unicode `White_Space` property.
pub open spec fn spec_is_whitespace(c: char) -> bool {
    ||| ('\u{9}' <= c && c <= '\u{d}')
    ||| c == ' '
    ||| c == '\u{85}'
    ||| c == '\u{a0}'
    ||| c == '\u{1680}'
    ||| ('\u{2000}' <= c && c <= '\u{200a}')
    ||| c == '\u{2028}'
    ||| c == '\u{2029}'
    ||| c == '\u{202f}'
    ||| c == '\u{205f}'
    ||| c == '\u{3000}'
}

/// Whether `c` has the Unicode `White_Space` property.
pub fn is_whitespace(c: char) -> (res: bool)
    ensures
        res == spec_is_whitespace(c),
{
    ('\u{9}' <= c && c <= '\u{d}') || c == ' ' || c == '\u{85}' || c == '\u{a0}' || c
        == '\u{1680}' || ('\u{2000}' <= c && c <= '\u{200a}') || c == '\u{2028}' || c
        == '\u{2029}' || c == '\u{202f}' || c == '\u{205f}' || c == '\u{3000}'
}

/// `String::push`: appends one character at the end of the string.
#[verifier::external_body]
pub(crate) fn string_push(s: &mut String, c: char)
    ensures
        final(s)@ == old(s)@.push(c),
{
    s.push(c);
}


/// `s` with every `'\n'` removed (`str::replace('\n', "")`).
pub open spec fn strip_newlines(s: Seq<char>) -> Seq<char>
    decreases s.len(),
{
    if s.len() == 0 {
        s
    } else {
        let rest = strip_newlines(s.drop_last());
        if s.last() == '\n' {
            rest
        } else {
            rest.push(s.last())
        }
    }
}

/// The maximal runs of non-whitespace characters of `s`, in order
/// (`str::split_whitespace`).
pub open spec fn words(s: Seq<char>) -> Seq<Seq<char>>
    decreases s.len(),
{
    if s.len() == 0 {
        Seq::empty()
    } else {
        let p = s.drop_last();
        let c = s.last();
        let w = words(p);
        if spec_is_whitespace(c) {
            w
        } else if p.len() > 0 && !spec_is_whitespace(p.last()) && w.len() > 0 {
            w.update(w.len() - 1, w.last().push(c))
        } else {
            w.push(seq![c])
        }
    }
}

/// The pieces of `ws` joined with `sep` between each two neighbours (`[T]::join`).
pub open spec fn join(ws: Seq<Seq<char>>, sep: Seq<char>) -> Seq<char>
    decreases ws.len(),
{
    if ws.len() == 0 {
        Seq::empty()
    } else if ws.len() == 1 {
        ws[0]
    } else {
        join(ws.drop_last(), sep) + sep + ws.last()
    }
}

/// The text of a multi-line configuration value put on one line: newlines
/// removed, then the words joined by single spaces.
pub open spec fn single_line(s: Seq<char>) -> Seq<char> {
    join(words(strip_newlines(s)), seq![' '])
}

/// A non-whitespace last character means the last word is still open.
proof fn lemma_words_nonempty(s: Seq<char>)
    requires
        s.len() > 0,
        !spec_is_whitespace(s.last()),
    ensures
        words(s).len() > 0,
    decreases s.len(),
{
}

proof fn lemma_join_extend_last(ws: Seq<Seq<char>>, sep: Seq<char>, c: char)
    requires
        ws.len() > 0,
    ensures
        join(ws.update(ws.len() - 1, ws.last().push(c)), sep) == join(ws, sep).push(c),
{
    let nw = ws.update(ws.len() - 1, ws.last().push(c));
    if ws.len() > 1 {
        assert(nw.drop_last() =~= ws.drop_last());
        assert(join(nw, sep) == join(ws.drop_last(), sep) + sep + ws.last().push(c));
        assert(join(ws.drop_last(), sep) + sep + ws.last().push(c) =~= (join(ws.drop_last(), sep)
            + sep + ws.last()).push(c));
    }
}

proof fn lemma_join_push(ws: Seq<Seq<char>>, sep: Seq<char>, w: Seq<char>)
    ensures
        join(ws.push(w), sep) == if ws.len() == 0 {
            w
        } else {
            join(ws, sep) + sep + w
        },
{
    assert(ws.push(w).drop_last() =~= ws);
}

/// Puts a multi-line configuration value on one line: removes every newline,
/// then joins the whitespace-separated words with single spaces.
pub fn to_single_line(s: &str) -> (res: String)
    ensures
        res@ == single_line(s@),
{
    let n = s.unicode_len();
    let mut out = String::new();
    let mut i: usize = 0;
    let mut open_word = false;
    let mut any_word = false;
    while i < n
        invariant
            n == s@.len(),
            0 <= i <= n,
            out@ == join(words(strip_newlines(s@.take(i as int))), seq![' ']),
            open_word == (strip_newlines(s@.take(i as int)).len() > 0 && !spec_is_whitespace(
                strip_newlines(s@.take(i as int)).last(),
            )),
            any_word == (words(strip_newlines(s@.take(i as int))).len() > 0),
        decreases n - i,
    {
        let c = s.get_char(i);
        let ghost f = strip_newlines(s@.take(i as int));
        proof {
            assert(s@.take(i + 1).drop_last() =~= s@.take(i as int));
            assert(s@.take(i + 1).last() == c);
        }
        if c == '\n' {
        } else if is_whitespace(c) {
            proof {
                assert(strip_newlines(s@.take(i + 1)) == f.push(c));
                assert(f.push(c).drop_last() =~= f);
            }
            open_word = false;
        } else {
            proof {
                assert(strip_newlines(s@.take(i + 1)) == f.push(c));
                assert(f.push(c).drop_last() =~= f);
            }
            if open_word {
                proof {
                    lemma_words_nonempty(f);
                    lemma_join_extend_last(words(f), seq![' '], c);
                }
                string_push(&mut out, c);
            } else {
                proof {
                    lemma_join_push(words(f), seq![' '], seq![c]);
                }
                if any_word {
                    string_push(&mut out, ' ');
                    proof {
                        assert(join(words(f), seq![' ']) + seq![' '] + seq![c] =~= out@.push(c));
                    }
                } else {
                    proof {
                        assert(seq![c] =~= out@.push(c));
                    }
                }
                string_push(&mut out, c);
            }
            open_word = true;
            any_word = true;
        }
        i = i + 1;
    }
    proof {
        assert(s@.take(n as int) =~= s@);
    }
    out
}


/// Removes every newline from `s` (`str::replace('\n', "")`).
pub fn remove_newlines(s: &str) -> (res: String)
    ensures
        res@ == strip_newlines(s@),
{
    let n = s.unicode_len();
    let mut out = String::new();
    let mut i: usize = 0;
    while i < n
        invariant
            n == s@.len(),
            0 <= i <= n,
            out@ == strip_newlines(s@.take(i as int)),
        decreases n - i,
    {
        let c = s.get_char(i);
        proof {
            assert(s@.take(i + 1).drop_last() =~= s@.take(i as int));
        }
        if c != '\n' {
            string_push(&mut out, c);
        }
        i = i + 1;
    }
    proof {
        assert(s@.take(n as int) =~= s@);
    }
    out
}

/// The decimal digit for `d < 10`.
pub open spec fn digit_char(d: nat) -> char {
    if d == 0 { '0' } else if d == 1 { '1' } else if d == 2 { '2' } else if d == 3 { '3' }
    else if d == 4 { '4' } else if d == 5 { '5' } else if d == 6 { '6' } else if d == 7 { '7' }
    else if d == 8 { '8' } else { '9' }
}

/// The decimal notation of `n`, without leading zeros (`u64::to_string`).
pub open spec fn decimal(n: nat) -> Seq<char>
    decreases n,
{
    if n < 10 {
        seq![digit_char(n)]
    } else {
        decimal(n / 10).push(digit_char(n % 10))
    }
}

fn digit(d: u64) -> (c: char)
    requires
        d < 10,
    ensures
        c == digit_char(d as nat),
{
    if d == 0 { '0' } else if d == 1 { '1' } else if d == 2 { '2' } else if d == 3 { '3' }
    else if d == 4 { '4' } else if d == 5 { '5' } else if d == 6 { '6' } else if d == 7 { '7' }
    else if d == 8 { '8' } else { '9' }
}

/// Appends the decimal notation of `n` to `out`.
pub fn push_decimal(out: &mut String, n: u64)
    ensures
        final(out)@ == old(out)@ + decimal(n as nat),
    decreases n,
{
    if n >= 10 {
        push_decimal(out, n / 10);
        string_push(out, digit(n % 10));
        proof {
            assert(old(out)@ + decimal(n as nat) =~= (old(out)@ + decimal((n / 10) as nat)).push(
                digit_char((n % 10) as nat),
            ));
        }
    } else {
        string_push(out, digit(n));
        proof {
            assert(old(out)@ + decimal(n as nat) =~= old(out)@.push(digit_char(n as nat)));
        }
    }
}


/// Whether two strings hold the same characters (`str == str`).
pub fn str_eq(a: &str, b: &str) -> (res: bool)
    ensures
        res == (a@ == b@),
{
    let n = a.unicode_len();
    if n != b.unicode_len() {
        return false;
    }
    let mut i: usize = 0;
    while i < n
        invariant
            n == a@.len(),
            n == b@.len(),
            0 <= i <= n,
            forall|j: int| 0 <= j < i ==> a@[j] == b@[j],
        decreases n - i,
    {
        if a.get_char(i) != b.get_char(i) {
            return false;
        }
        i = i + 1;
    }
    proof {
        assert(a@ =~= b@);
    }
    true
}


/// `s` without its leading whitespace.
pub open spec fn trim_start(s: Seq<char>) -> Seq<char>
    decreases s.len(),
{
    if s.len() > 0 && spec_is_whitespace(s[0]) {
        trim_start(s.drop_first())
    } else {
        s
    }
}

/// `s` without its trailing whitespace.
pub open spec fn trim_end(s: Seq<char>) -> Seq<char>
    decreases s.len(),
{
    if s.len() > 0 && spec_is_whitespace(s.last()) {
        trim_end(s.drop_last())
    } else {
        s
    }
}

/// `s` without leading and trailing whitespace (`str::trim`).
pub open spec fn trim(s: Seq<char>) -> Seq<char> {
    trim_end(trim_start(s))
}

proof fn lemma_trim_start_skip(s: Seq<char>, i: int)
    requires
        0 <= i <= s.len(),
        forall|j: int| 0 <= j < i ==> spec_is_whitespace(#[trigger] s[j]),
    ensures
        trim_start(s) == trim_start(s.skip(i)),
    decreases i,
{
    if i > 0 {
        assert(s.drop_first().skip(i - 1) =~= s.skip(i));
        assert forall|j: int| 0 <= j < i - 1 implies spec_is_whitespace(#[trigger] s.drop_first()[j]) by {
            assert(s.drop_first()[j] == s[j + 1]);
        }
        lemma_trim_start_skip(s.drop_first(), i - 1);
    } else {
        assert(s.skip(0) =~= s);
    }
}

proof fn lemma_trim_end_take(s: Seq<char>, k: int)
    requires
        0 <= k <= s.len(),
        forall|j: int| k <= j < s.len() ==> spec_is_whitespace(#[trigger] s[j]),
    ensures
        trim_end(s) == trim_end(s.take(k)),
    decreases s.len() - k,
{
    if k < s.len() {
        assert(s.drop_last().take(k) =~= s.take(k));
        assert forall|j: int| k <= j < s.drop_last().len() implies spec_is_whitespace(#[trigger] s.drop_last()[j]) by {
            assert(s.drop_last()[j] == s[j]);
        }
        lemma_trim_end_take(s.drop_last(), k);
    } else {
        assert(s.take(k) =~= s);
    }
}

/// `s` without leading and trailing whitespace.
pub fn trim_str(s: &str) -> (res: String)
    ensures
        res@ == trim(s@),
{
    let n = s.unicode_len();
    let mut start: usize = 0;
    while start < n && is_whitespace(s.get_char(start))
        invariant
            n == s@.len(),
            0 <= start <= n,
            forall|j: int| 0 <= j < start ==> spec_is_whitespace(#[trigger] s@[j]),
        decreases n - start,
    {
        start = start + 1;
    }
    let mut end: usize = n;
    while end > start && is_whitespace(s.get_char(end - 1))
        invariant
            n == s@.len(),
            0 <= start <= end <= n,
            forall|j: int| end <= j < n ==> spec_is_whitespace(#[trigger] s@[j]),
        decreases end,
    {
        end = end - 1;
    }
    proof {
        lemma_trim_start_skip(s@, start as int);
        let r = s@.skip(start as int);
        if start < n {
            assert(!spec_is_whitespace(r[0]));
            assert(trim_start(r) == r);
        } else {
            assert(r.len() == 0);
        }
        assert forall|j: int| end - start <= j < r.len() implies spec_is_whitespace(#[trigger] r[j]) by {
            assert(r[j] == s@[j + start]);
        }
        lemma_trim_end_take(r, end - start);
        let t = r.take(end - start);
        if end > start {
            assert(t.last() == s@[end - 1]);
        }
        assert(trim_end(t) == t);
        assert(t =~= s@.subrange(start as int, end as int));
    }
    String::from_str(s.substring_char(start, end))
}


/// No character of `s` is whitespace.
pub open spec fn no_whitespace(s: Seq<char>) -> bool {
    forall|i: int| 0 <= i < s.len() ==> !spec_is_whitespace(#[trigger] s[i])
}

proof fn lemma_words_append_word(x: Seq<char>, w: Seq<char>)
    requires
        x.len() == 0 || spec_is_whitespace(x.last()),
        w.len() > 0,
        no_whitespace(w),
    ensures
        words(x + w) == words(x).push(w),
    decreases w.len(),
{
    let p = x + w.drop_last();
    assert((x + w).drop_last() =~= p);
    assert((x + w).last() == w.last());
    assert(!spec_is_whitespace(w[w.len() - 1]));
    if w.len() == 1 {
        assert(p =~= x);
        assert(w =~= seq![w.last()]);
    } else {
        let w1 = w.drop_last();
        assert forall|i: int| 0 <= i < w1.len() implies !spec_is_whitespace(#[trigger] w1[i]) by {
            assert(w1[i] == w[i]);
        }
        lemma_words_append_word(x, w1);
        assert(p.last() == w1.last());
        assert(!spec_is_whitespace(w1[w1.len() - 1]));
        assert(w1.push(w.last()) =~= w);
        assert(words(x).push(w1).update(words(x).len() as int, w) =~= words(x).push(w));
    }
}

proof fn lemma_join_no_newline(ws: Seq<Seq<char>>)
    requires
        forall|k: int| 0 <= k < ws.len() ==> no_whitespace(#[trigger] ws[k]),
    ensures
        no_newline(join(ws, seq![' '])),
    decreases ws.len(),
{
    if ws.len() > 1 {
        let a = join(ws.drop_last(), seq![' ']);
        assert forall|k: int| 0 <= k < ws.drop_last().len() implies no_whitespace(#[trigger] ws.drop_last()[k]) by {
            assert(ws.drop_last()[k] == ws[k]);
        }
        lemma_join_no_newline(ws.drop_last());
        let j = a + seq![' '] + ws.last();
        assert(no_whitespace(ws[ws.len() - 1]));
        assert forall|i: int| 0 <= i < j.len() implies #[trigger] j[i] != '\n' by {
            if i < a.len() {
            } else if i == a.len() {
            } else {
                assert(j[i] == ws.last()[i - a.len() - 1]);
            }
        }
    } else if ws.len() == 1 {
        assert(no_whitespace(ws[0]));
    }
}

/// No character of `s` is a newline.
pub open spec fn no_newline(s: Seq<char>) -> bool {
    forall|i: int| 0 <= i < s.len() ==> #[trigger] s[i] != '\n'
}

proof fn lemma_strip_newlines_id(s: Seq<char>)
    requires
        no_newline(s),
    ensures
        strip_newlines(s) == s,
    decreases s.len(),
{
    if s.len() > 0 {
        assert forall|i: int| 0 <= i < s.drop_last().len() implies #[trigger] s.drop_last()[i] != '\n' by {
            assert(s.drop_last()[i] == s[i]);
        }
        lemma_strip_newlines_id(s.drop_last());
        assert(s[s.len() - 1] != '\n');
        assert(s.drop_last().push(s.last()) =~= s);
    }
}

proof fn lemma_words_of_join(ws: Seq<Seq<char>>)
    requires
        forall|k: int| 0 <= k < ws.len() ==> (#[trigger] ws[k]).len() > 0 && no_whitespace(ws[k]),
    ensures
        words(join(ws, seq![' '])) == ws,
    decreases ws.len(),
{
    if ws.len() == 1 {
        lemma_words_append_word(Seq::empty(), ws[0]);
        assert(Seq::<char>::empty() + ws[0] =~= ws[0]);
        assert(Seq::<Seq<char>>::empty().push(ws[0]) =~= ws);
    } else if ws.len() > 1 {
        let init = ws.drop_last();
        assert forall|k: int| 0 <= k < init.len() implies (#[trigger] init[k]).len() > 0 && no_whitespace(init[k]) by {
            assert(init[k] == ws[k]);
        }
        lemma_words_of_join(init);
        let a = join(init, seq![' ']);
        let x = a + seq![' '];
        assert(x.drop_last() =~= a);
        assert(spec_is_whitespace(x.last()));
        assert(words(x) == words(a));
        assert((ws[ws.len() - 1]).len() > 0 && no_whitespace(ws[ws.len() - 1]));
        lemma_words_append_word(x, ws.last());
        assert(init.push(ws.last()) =~= ws);
    } else {
        assert(ws =~= Seq::<Seq<char>>::empty());
    }
}

proof fn lemma_words_are_words(s: Seq<char>)
    ensures
        forall|k: int| 0 <= k < words(s).len() ==> (#[trigger] words(s)[k]).len() > 0 && no_whitespace(words(s)[k]),
    decreases s.len(),
{
    if s.len() > 0 {
        let p = s.drop_last();
        lemma_words_are_words(p);
        let w = words(p);
        let c = s.last();
        if !spec_is_whitespace(c) && p.len() > 0 && !spec_is_whitespace(p.last()) && w.len() > 0 {
            let last = w.last().push(c);
            assert(last.len() > 0);
            assert(w[w.len() - 1].len() > 0 && no_whitespace(w[w.len() - 1]));
            assert forall|i: int| 0 <= i < last.len() implies !spec_is_whitespace(#[trigger] last[i]) by {
                if i < w.last().len() {
                    assert(last[i] == w.last()[i]);
                }
            }
        } else if !spec_is_whitespace(c) {
            assert(no_whitespace(seq![c]));
        }
    }
}

/// A text put on one line holds no newline.
pub proof fn lemma_single_line_has_no_newline(s: Seq<char>)
    ensures
        no_newline(single_line(s)),
{
    lemma_words_are_words(strip_newlines(s));
    lemma_join_no_newline(words(strip_newlines(s)));
}

/// Putting a text on one line a second time changes nothing.
pub proof fn lemma_single_line_idempotent(s: Seq<char>)
    ensures
        single_line(single_line(s)) == single_line(s),
{
    let ws = words(strip_newlines(s));
    lemma_words_are_words(strip_newlines(s));
    lemma_join_no_newline(ws);
    lemma_strip_newlines_id(join(ws, seq![' ']));
    lemma_words_of_join(ws);
}

} // verus!
