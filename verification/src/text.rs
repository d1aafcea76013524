//! Character-level text helpers: decimal and grouped numbers, joining,
//! replacing, searching and word splitting, each with the sequence it yields.
use vstd::prelude::*;
use vstd::string::StringSliceAdditionalSpecFns;
use vstd::utf8::{decode_utf8, encode_utf8, is_char_boundary};

verus! {

broadcast use vstd::string::group_string_axioms;

// ---------------------------------------------------------------------------
// Specifications
// ---------------------------------------------------------------------------

/// The ASCII digit for `d` (taken modulo ten).
pub open spec fn digit_char(d: int) -> char {
    let r = d % 10;
    if r == 0 { '0' }
    else if r == 1 { '1' }
    else if r == 2 { '2' }
    else if r == 3 { '3' }
    else if r == 4 { '4' }
    else if r == 5 { '5' }
    else if r == 6 { '6' }
    else if r == 7 { '7' }
    else if r == 8 { '8' }
    else { '9' }
}

/// Decimal notation of a natural number, without leading zeros.
pub open spec fn decimal(n: nat) -> Seq<char>
    decreases n,
{
    if n < 10 {
        seq![digit_char(n as int)]
    } else {
        decimal(n / 10).push(digit_char((n % 10) as int))
    }
}

/// Decimal notation of an integer: a minus sign before negative values.
pub open spec fn signed_decimal(n: int) -> Seq<char> {
    if n < 0 { seq!['-'] + decimal((-n) as nat) } else { decimal(n as nat) }
}

/// The three digits of `r` (below one thousand), zero-padded.
pub open spec fn three_digits(r: nat) -> Seq<char> {
    seq![digit_char((r / 100) as int), digit_char((r / 10) as int), digit_char(r as int)]
}

/// Decimal notation with a comma between each group of three digits,
/// as in `1,234,567`.
pub open spec fn grouped(n: nat) -> Seq<char>
    decreases n,
{
    if n < 1000 {
        decimal(n)
    } else {
        grouped(n / 1000) + seq![','] + three_digits(n % 1000)
    }
}

/// The parts, with `sep` between each two neighbours.
pub open spec fn joined(parts: Seq<Seq<char>>, sep: Seq<char>) -> Seq<char>
    decreases parts.len(),
{
    if parts.len() == 0 {
        Seq::empty()
    } else if parts.len() == 1 {
        parts[0]
    } else {
        joined(parts.drop_last(), sep) + sep + parts.last()
    }
}

/// The views of a sequence of strings.
pub open spec fn views(v: Seq<String>) -> Seq<Seq<char>> {
    v.map_values(|s: String| s@)
}

/// `pat` occurs in `s` at position `i`.
pub open spec fn occurs_at(s: Seq<char>, i: int, pat: Seq<char>) -> bool {
    0 <= i && i + pat.len() <= s.len() && s.subrange(i, i + pat.len()) == pat
}

/// `pat` occurs somewhere in `s`.
pub open spec fn has_sub(s: Seq<char>, pat: Seq<char>) -> bool {
    exists|i: int| occurs_at(s, i, pat)
}

/// `s` with every occurrence of the non-empty `pat`, found from the left
/// without overlaps, replaced by `rep`.
pub open spec fn replaced(s: Seq<char>, pat: Seq<char>, rep: Seq<char>) -> Seq<char>
    decreases s.len(),
{
    if s.len() == 0 {
        s
    } else if pat.len() > 0 && occurs_at(s, 0, pat) {
        rep + replaced(s.skip(pat.len() as int), pat, rep)
    } else {
        seq![s[0]] + replaced(s.skip(1), pat, rep)
    }
}

/// How many non-overlapping occurrences of the non-empty `pat` a scan from
/// the left finds in `s`.
pub open spec fn match_count(s: Seq<char>, pat: Seq<char>) -> nat
    decreases s.len(),
{
    if s.len() == 0 {
        0
    } else if pat.len() > 0 && occurs_at(s, 0, pat) {
        1 + match_count(s.skip(pat.len() as int), pat)
    } else {
        match_count(s.skip(1), pat)
    }
}

/// The characters that Unicode gives the White_Space property.
pub open spec fn is_white(c: char) -> bool {
    ||| ('\u{9}' <= c && c <= '\u{d}')
    ||| c == ' '
    ||| c == '\u{85}'
    ||| c == '\u{a0}'
    ||| c == '\u{1680}'
    ||| ('\u{2000}' <= c && c <= '\u{200a}')
    ||| c == '\u{2028}'
    ||| c == '\u{2029}'
    ||| c == '\u{202f}'
    ||| c == '\u{205f}'
    ||| c == '\u{3000}'
}

/// Length of the run of non-white characters at the start of `s`.
pub open spec fn word_len(s: Seq<char>) -> nat
    decreases s.len(),
{
    if s.len() == 0 || is_white(s[0]) { 0 } else { 1 + word_len(s.skip(1)) }
}

/// The maximal runs of non-white characters of `s`, in order.
pub open spec fn words(s: Seq<char>) -> Seq<Seq<char>>
    decreases s.len(),
{
    if s.len() == 0 {
        Seq::empty()
    } else if is_white(s[0]) {
        words(s.skip(1))
    } else {
        proof {
            lemma_word_len_bound(s);
        }
        seq![s.take(word_len(s) as int)] + words(s.skip(word_len(s) as int))
    }
}

/// Lower-case form of an ASCII upper-case letter; other characters stay.
pub open spec fn ascii_lower(c: char) -> char {
    if 'A' <= c && c <= 'Z' { ((c as u32) + 32) as char } else { c }
}

/// The upper-case form of an ASCII letter; every other character as it is.
pub open spec fn ascii_upper(c: char) -> char {
    if 'a' <= c && c <= 'z' { ((c as u32) - 32) as char } else { c }
}

/// The text with its ASCII letters in upper case.
pub open spec fn upper_text(s: Seq<char>) -> Seq<char> {
    s.map_values(|c: char| ascii_upper(c))
}

/// Every character of the text is ASCII.
pub open spec fn is_ascii_text(s: Seq<char>) -> bool {
    forall|i: int| 0 <= i < s.len() ==> (s[i] as u32) < 128
}

// ---------------------------------------------------------------------------
// Lemmas
// ---------------------------------------------------------------------------

pub proof fn lemma_word_len_bound(s: Seq<char>)
    ensures
        word_len(s) <= s.len(),
        forall|k: int| 0 <= k < word_len(s) ==> !is_white(#[trigger] s[k]),
        word_len(s) < s.len() ==> is_white(s[word_len(s) as int]),
    decreases s.len(),
{
    if s.len() > 0 && !is_white(s[0]) {
        lemma_word_len_bound(s.skip(1));
        assert forall|k: int| 0 <= k < word_len(s) implies !is_white(#[trigger] s[k]) by {
            if k > 0 {
                assert(s[k] == s.skip(1)[k - 1]);
            }
        }
        if word_len(s) < s.len() {
            assert(s[word_len(s) as int] == s.skip(1)[word_len(s.skip(1)) as int]);
        }
    }
}

/// `s` with its commas left out.
pub open spec fn without_commas(s: Seq<char>) -> Seq<char>
    decreases s.len(),
{
    if s.len() == 0 {
        s
    } else {
        without_commas(s.drop_last()) + if s.last() == ',' { Seq::empty() } else { seq![s.last()] }
    }
}

proof fn lemma_without_commas_concat(a: Seq<char>, b: Seq<char>)
    ensures
        without_commas(a + b) == without_commas(a) + without_commas(b),
    decreases b.len(),
{
    if b.len() == 0 {
        assert(a + b =~= a);
        assert(without_commas(a) + without_commas(b) =~= without_commas(a));
    } else {
        lemma_without_commas_concat(a, b.drop_last());
        assert((a + b).drop_last() =~= a + b.drop_last());
        assert((a + b).last() == b.last());
        assert(without_commas(a + b) =~= without_commas(a) + without_commas(b));
    }
}

proof fn lemma_decimal_thousands(n: nat)
    requires
        n >= 1000,
    ensures
        decimal(n) == decimal(n / 1000) + three_digits(n % 1000),
{
    let r = n % 1000;
    assert(n / 10 >= 100);
    assert(n / 100 >= 10);
    assert((n / 10) / 10 == n / 100) by (nonlinear_arith);
    assert((n / 100) / 10 == n / 1000) by (nonlinear_arith);
    assert((n / 10) % 10 == (r / 10) % 10) by (nonlinear_arith)
        requires
            r == n % 1000,
    ;
    assert((n / 100) % 10 == (r / 100) % 10) by (nonlinear_arith)
        requires
            r == n % 1000,
    ;
    assert(n % 10 == r % 10) by (nonlinear_arith)
        requires
            r == n % 1000,
    ;
    assert(decimal(n / 10) == decimal(n / 100).push(digit_char(((n / 10) % 10) as int)));
    assert(decimal(n / 100) == decimal(n / 1000).push(digit_char(((n / 100) % 10) as int)));
    assert(digit_char((r / 100) as int) == digit_char(((n / 100) % 10) as int));
    assert(digit_char((r / 10) as int) == digit_char(((n / 10) % 10) as int));
    assert(digit_char(r as int) == digit_char((n % 10) as int));
    assert(decimal(n) =~= decimal(n / 1000) + three_digits(r));
}

/// Numbers written with thousands separators have the digits `to_string`
/// writes: leave the commas out and the decimal notation remains.
pub proof fn grouped_has_decimal_digits(n: nat)
    ensures
        without_commas(grouped(n)) == decimal(n),
    decreases n,
{
    if n < 1000 {
        lemma_no_commas_in_decimal(n);
    } else {
        grouped_has_decimal_digits(n / 1000);
        lemma_without_commas_concat(grouped(n / 1000), seq![',']);
        lemma_without_commas_concat(grouped(n / 1000) + seq![','], three_digits(n % 1000));
        assert(without_commas(seq![',']) =~= Seq::<char>::empty()) by {
            reveal_with_fuel(without_commas, 2);
            assert(seq![','].drop_last() =~= Seq::<char>::empty());
        }
        let t = three_digits(n % 1000);
        assert(without_commas(t) =~= t) by {
            reveal_with_fuel(without_commas, 4);
            assert(t.drop_last().drop_last().drop_last() =~= Seq::<char>::empty());
            assert(t.drop_last().drop_last() =~= seq![t[0]]);
            assert(t.drop_last() =~= seq![t[0], t[1]]);
        }
        lemma_decimal_thousands(n);
        assert(without_commas(grouped(n)) =~= decimal(n));
    }
}

proof fn lemma_no_commas_in_decimal(n: nat)
    ensures
        without_commas(decimal(n)) == decimal(n),
    decreases n,
{
    if n < 10 {
        reveal_with_fuel(without_commas, 2);
        assert(decimal(n).drop_last() =~= Seq::<char>::empty());
        assert(without_commas(decimal(n)) =~= decimal(n));
    } else {
        lemma_no_commas_in_decimal(n / 10);
        assert(decimal(n).drop_last() =~= decimal(n / 10));
        assert(without_commas(decimal(n)) =~= decimal(n));
    }
}

/// Replacing a text that does not occur changes nothing.
pub proof fn replace_without_occurrence(s: Seq<char>, pat: Seq<char>, rep: Seq<char>)
    requires
        !has_sub(s, pat),
    ensures
        replaced(s, pat, rep) == s,
    decreases s.len(),
{
    if s.len() > 0 {
        assert(!occurs_at(s, 0, pat));
        assert(!has_sub(s.skip(1), pat)) by {
            if has_sub(s.skip(1), pat) {
                let i = choose|i: int| occurs_at(s.skip(1), i, pat);
                assert(s.skip(1).subrange(i, i + pat.len()) =~= s.subrange(i + 1, i + 1 + pat.len()));
                assert(occurs_at(s, i + 1, pat));
            }
        }
        replace_without_occurrence(s.skip(1), pat, rep);
        assert(seq![s[0]] + s.skip(1) =~= s);
    }
}

proof fn lemma_trimmed_ends(s: Seq<char>)
    ensures
        trimmed(s).len() == 0 || (!is_white(trimmed(s)[0]) && !is_white(trimmed(s).last())),
    decreases s.len(),
{
    if s.len() > 0 {
        if is_white(s[0]) {
            lemma_trimmed_ends(s.skip(1));
        } else if is_white(s.last()) {
            lemma_trimmed_ends(s.drop_last());
        }
    }
}

/// Trimming twice is trimming once.
pub proof fn trim_is_idempotent(s: Seq<char>)
    ensures
        trimmed(trimmed(s)) == trimmed(s),
{
    lemma_trimmed_ends(s);
}

// ---------------------------------------------------------------------------
// Executable helpers
// ---------------------------------------------------------------------------

/// Appends one character to a string (std's `String::push`, documented as
/// appending the given char to the end of the string).
#[verifier::external_body]
pub(crate) fn push_char(s: &mut String, c: char)
    ensures
        final(s)@ == old(s)@.push(c),
{
    s.push(c);
}

/// The characters of a string slice, in order.
pub fn chars_of(s: &str) -> (v: Vec<char>)
    ensures
        v@ == s@,
{
    let mut v: Vec<char> = Vec::new();
    for c in it: s.chars()
        invariant
            v@ == it.seq().take(it.index() as int),
            it.seq() == s@,
    {
        v.push(c);
    }
    v
}

/// Appends the characters `cs[from..to]` to `out`.
pub fn push_chars(out: &mut String, cs: &Vec<char>, from: usize, to: usize)
    requires
        from <= to <= cs@.len(),
    ensures
        final(out)@ == old(out)@ + cs@.subrange(from as int, to as int),
{
    let mut i = from;
    while i < to
        invariant
            from <= i <= to <= cs@.len(),
            out@ == old(out)@ + cs@.subrange(from as int, i as int),
        decreases to - i,
    {
        push_char(out, cs[i]);
        assert(cs@.subrange(from as int, i + 1) =~= cs@.subrange(from as int, i as int).push(cs@[i as int]));
        i = i + 1;
    }
}

/// A string holding the given characters.
pub fn string_of(cs: &Vec<char>) -> (s: String)
    ensures
        s@ == cs@,
{
    let mut s = String::new();
    push_chars(&mut s, cs, 0, cs.len());
    assert(cs@.subrange(0, cs@.len() as int) =~= cs@);
    s
}

/// A fresh copy of a string slice.
pub fn owned(s: &str) -> (r: String)
    ensures
        r@ == s@,
{
    s.to_owned()
}

/// `b.to_string()`.
pub open spec fn bool_text(b: bool) -> Seq<char> {
    if b { "true"@ } else { "false"@ }
}

/// A boolean as Rust writes it.
pub fn bool_string(b: bool) -> (s: String)
    ensures
        s@ == bool_text(b),
{
    if b { owned("true") } else { owned("false") }
}

/// `s` without its leading and trailing white space (`str::trim`).
pub open spec fn trimmed(s: Seq<char>) -> Seq<char>
    decreases s.len(),
{
    if s.len() == 0 {
        s
    } else if is_white(s[0]) {
        trimmed(s.skip(1))
    } else if is_white(s.last()) {
        trimmed(s.drop_last())
    } else {
        s
    }
}

/// `s` without its leading and trailing white space.
pub fn trim(s: &str) -> (r: String)
    ensures
        r@ == trimmed(s@),
{
    let cs = chars_of(s);
    let mut i: usize = 0;
    let mut j: usize = cs.len();
    assert(cs@.subrange(0, cs@.len() as int) =~= cs@);
    while i < j && is_white_char(cs[i])
        invariant
            i <= j <= cs@.len(),
            trimmed(cs@) == trimmed(cs@.subrange(i as int, j as int)),
        decreases j - i,
    {
        assert(cs@.subrange(i as int, j as int).skip(1) =~= cs@.subrange(i + 1, j as int));
        i = i + 1;
    }
    while i < j && is_white_char(cs[j - 1])
        invariant
            i <= j <= cs@.len(),
            i < j ==> !is_white(cs@[i as int]),
            trimmed(cs@) == trimmed(cs@.subrange(i as int, j as int)),
        decreases j - i,
    {
        assert(cs@.subrange(i as int, j as int).drop_last() =~= cs@.subrange(i as int, j - 1));
        j = j - 1;
    }
    let mut r = String::new();
    push_chars(&mut r, &cs, i, j);
    assert(r@ =~= cs@.subrange(i as int, j as int));
    r
}

/// Whether a character is white space.
pub fn is_white_char(c: char) -> (b: bool)
    ensures
        b == is_white(c),
{
    ('\u{9}' <= c && c <= '\u{d}') || c == ' ' || c == '\u{85}' || c == '\u{a0}' || c == '\u{1680}' || ('\u{2000}' <= c
        && c <= '\u{200a}') || c == '\u{2028}' || c == '\u{2029}' || c == '\u{202f}' || c == '\u{205f}' || c == '\u{3000}'
}

/// A run of non-white characters that starts `s` and ends at `k` (at a
/// white character or the end) is the first word.
pub proof fn lemma_word_len_is(s: Seq<char>, k: int)
    requires
        0 <= k <= s.len(),
        forall|m: int| 0 <= m < k ==> !is_white(#[trigger] s[m]),
        k == s.len() || is_white(s[k]),
    ensures
        word_len(s) == k,
{
    lemma_word_len_bound(s);
    let w = word_len(s) as int;
    if w < k {
        assert(!is_white(s[w]));
    }
    if w > k {
        assert(!is_white(s[k]));
    }
}

/// The white-space separated words of `s` (`split_whitespace`).
pub fn split_words(s: &str) -> (r: Vec<String>)
    ensures
        views(r@) == words(s@),
{
    let cs = chars_of(s);
    let n = cs.len();
    let mut out: Vec<String> = Vec::new();
    let mut i: usize = 0;
    assert(cs@.skip(0) =~= cs@);
    assert(views(out@) =~= Seq::<Seq<char>>::empty());
    while i < n
        invariant
            n == cs@.len(),
            i <= n,
            words(cs@) == views(out@) + words(cs@.skip(i as int)),
        decreases n - i,
    {
        let ghost rest = cs@.skip(i as int);
        if is_white_char(cs[i]) {
            assert(rest[0] == cs@[i as int]);
            assert(rest.skip(1) =~= cs@.skip(i + 1));
            i = i + 1;
        } else {
            let mut j = i + 1;
            while j < n && !is_white_char(cs[j])
                invariant
                    n == cs@.len(),
                    i < j <= n,
                    forall|m: int| i <= m < j ==> !is_white(#[trigger] cs@[m]),
                decreases n - j,
            {
                j = j + 1;
            }
            proof {
                assert forall|m: int| 0 <= m < j - i implies !is_white(#[trigger] rest[m]) by {
                    assert(rest[m] == cs@[i + m]);
                }
                if j < n {
                    assert(rest[j - i] == cs@[j as int]);
                }
                lemma_word_len_is(rest, j - i);
                assert(rest[0] == cs@[i as int]);
                assert(rest.take(j - i) =~= cs@.subrange(i as int, j as int));
                assert(rest.skip(j - i) =~= cs@.skip(j as int));
            }
            let mut w = String::new();
            push_chars(&mut w, &cs, i, j);
            let ghost before = out@;
            out.push(w);
            assert(views(out@) =~= views(before).push(cs@.subrange(i as int, j as int)));
            assert(views(before) + words(rest) =~= views(out@) + words(cs@.skip(j as int)));
            i = j;
        }
    }
    assert(words(cs@.skip(n as int)) =~= Seq::<Seq<char>>::empty()) by {
        assert(cs@.skip(n as int).len() == 0);
    }
    assert(views(out@) + Seq::<Seq<char>>::empty() =~= views(out@));
    out
}

/// Whether `w` is one of the words of `s`.
pub fn has_word(s: &str, w: &str) -> (b: bool)
    ensures
        b == words(s@).contains(w@),
{
    let ws = split_words(s);
    let mut i: usize = 0;
    while i < ws.len()
        invariant
            i <= ws@.len(),
            views(ws@) == words(s@),
            forall|k: int| 0 <= k < i ==> ws@[k]@ != w@,
        decreases ws@.len() - i,
    {
        if same_text(ws[i].as_str(), w) {
            assert(views(ws@)[i as int] == w@);
            return true;
        }
        i = i + 1;
    }
    proof {
        if words(s@).contains(w@) {
            let k = choose|k: int| 0 <= k < words(s@).len() && words(s@)[k] == w@;
            assert(views(ws@)[k] == ws@[k]@);
        }
    }
    false
}

/// The text whose UTF-8 form is the first `n` bytes of the UTF-8 form of
/// `s` (`&s[0..n]`).
pub open spec fn byte_prefix(s: Seq<char>, n: int) -> Seq<char> {
    decode_utf8(encode_utf8(s).subrange(0, n))
}

/// `&s[0..n]` is defined: `n` is within `s` and falls between characters.
pub open spec fn prefix_ok(s: Seq<char>, n: int) -> bool {
    is_char_boundary(encode_utf8(s), n)
}

/// The text whose UTF-8 form is what follows the first `n` bytes of the
/// UTF-8 form of `s` (`&s[n..]`).
pub open spec fn byte_suffix(s: Seq<char>, n: int) -> Seq<char> {
    decode_utf8(encode_utf8(s).subrange(n, encode_utf8(s).len() as int))
}

/// `&s[0..n]`, as a string.
pub fn prefix_bytes(s: &str, n: usize) -> (r: String)
    requires
        prefix_ok(s@, n as int),
    ensures
        r@ == byte_prefix(s@, n as int),
{
    let (head, _) = s.split_at(n);
    proof {
        vstd::utf8::encode_utf8_decode_utf8(head@);
    }
    owned(head)
}

/// `(&s[..n], &s[n..])`, as strings.
pub fn split_bytes(s: &str, n: usize) -> (r: (String, String))
    requires
        prefix_ok(s@, n as int),
    ensures
        r.0@ == byte_prefix(s@, n as int),
        r.1@ == byte_suffix(s@, n as int),
{
    let (head, tail) = s.split_at(n);
    proof {
        vstd::utf8::encode_utf8_decode_utf8(head@);
        vstd::utf8::encode_utf8_decode_utf8(tail@);
    }
    (owned(head), owned(tail))
}

/// Whether two strings hold the same characters.
pub fn same_text(a: &str, b: &str) -> (r: bool)
    ensures
        r == (a@ == b@),
{
    let x = owned(a);
    let y = owned(b);
    x == y
}

/// Appends `s` to `out`.
pub fn push_str(out: &mut String, s: &str)
    ensures
        final(out)@ == old(out)@ + s@,
{
    out.append(s);
}

fn digit(d: u64) -> (c: char)
    ensures
        c == digit_char(d as int),
{
    let r = d % 10;
    if r == 0 { '0' }
    else if r == 1 { '1' }
    else if r == 2 { '2' }
    else if r == 3 { '3' }
    else if r == 4 { '4' }
    else if r == 5 { '5' }
    else if r == 6 { '6' }
    else if r == 7 { '7' }
    else if r == 8 { '8' }
    else { '9' }
}

/// Appends the decimal notation of `n`.
pub fn push_decimal(out: &mut String, n: u64)
    ensures
        final(out)@ == old(out)@ + decimal(n as nat),
    decreases n,
{
    if n >= 10 {
        push_decimal(out, n / 10);
    }
    let ghost mid = out@;
    push_char(out, digit(n % 10));
    if n >= 10 {
        assert(out@ =~= old(out)@ + decimal(n as nat));
    } else {
        assert(out@ =~= old(out)@ + decimal(n as nat));
    }
}

/// Decimal notation of `n`, as `n.to_string()` writes it.
pub fn decimal_string(n: u64) -> (s: String)
    ensures
        s@ == decimal(n as nat),
{
    let mut s = String::new();
    push_decimal(&mut s, n);
    assert(s@ =~= decimal(n as nat));
    s
}

/// Decimal notation of a signed integer, as `n.to_string()` writes it.
pub fn signed_string(n: i64) -> (s: String)
    ensures
        s@ == signed_decimal(n as int),
{
    if n < 0 {
        let m: u64 = (0i128 - (n as i128)) as u64;
        let mut s = String::new();
        push_char(&mut s, '-');
        push_decimal(&mut s, m);
        assert(s@ =~= signed_decimal(n as int));
        s
    } else {
        decimal_string(n as u64)
    }
}

/// Appends `n` with thousands separators.
pub fn push_grouped(out: &mut String, n: u64)
    ensures
        final(out)@ == old(out)@ + grouped(n as nat),
    decreases n,
{
    if n < 1000 {
        push_decimal(out, n);
    } else {
        push_grouped(out, n / 1000);
        let r = n % 1000;
        push_char(out, ',');
        push_char(out, digit(r / 100));
        push_char(out, digit(r / 10));
        push_char(out, digit(r));
        assert(out@ =~= old(out)@ + grouped(n as nat));
    }
}

/// `n` written with a comma between each group of three digits.
pub fn format_int(n: u64) -> (s: String)
    ensures
        s@ == grouped(n as nat),
{
    let mut s = String::new();
    push_grouped(&mut s, n);
    assert(s@ =~= grouped(n as nat));
    s
}

/// The strings of `parts`, with `sep` between each two neighbours.
pub fn join(parts: &Vec<String>, sep: &str) -> (s: String)
    ensures
        s@ == joined(views(parts@), sep@),
{
    let mut s = String::new();
    let mut i: usize = 0;
    while i < parts.len()
        invariant
            i <= parts@.len(),
            s@ == joined(views(parts@).take(i as int), sep@),
        decreases parts@.len() - i,
    {
        let ghost prev = views(parts@).take(i as int);
        if i > 0 {
            s.append(sep);
        }
        s.append(parts[i].as_str());
        proof {
            let next = views(parts@).take(i + 1);
            assert(next.drop_last() =~= prev);
            assert(next.last() == parts@[i as int]@);
            if i == 0 {
                assert(s@ =~= joined(next, sep@));
            }
        }
        i = i + 1;
    }
    assert(views(parts@).take(parts@.len() as int) =~= views(parts@));
    s
}

/// Whether `pat` occurs in `cs` at position `i`.
pub fn occurs_at_exec(cs: &Vec<char>, i: usize, pat: &Vec<char>) -> (b: bool)
    ensures
        b == occurs_at(cs@, i as int, pat@),
{
    if i > cs.len() || pat.len() > cs.len() - i {
        return false;
    }
    let n = cs.len();
    let mut k: usize = 0;
    while k < pat.len()
        invariant
            n == cs@.len(),
            i + pat@.len() <= cs@.len(),
            i <= cs@.len(),
            k <= pat@.len(),
            forall|j: int| 0 <= j < k ==> cs@[i + j] == pat@[j],
        decreases pat@.len() - k,
    {
        assert(i + k < cs@.len());
        let j: usize = i + k;
        if cs[j] != pat[k] {
            assert(cs@.subrange(i as int, i + pat@.len())[k as int] != pat@[k as int]);
            return false;
        }
        k = k + 1;
    }
    assert(cs@.subrange(i as int, i + pat@.len()) =~= pat@);
    true
}

/// Whether `pat` occurs anywhere in `s`.
pub fn contains(s: &str, pat: &str) -> (b: bool)
    ensures
        b == has_sub(s@, pat@),
{
    let cs = chars_of(s);
    let ps = chars_of(pat);
    let mut i: usize = 0;
    while i < cs.len()
        invariant
            cs@ == s@,
            ps@ == pat@,
            i <= cs@.len(),
            forall|j: int| 0 <= j < i ==> !occurs_at(s@, j, pat@),
        decreases cs@.len() - i,
    {
        if occurs_at_exec(&cs, i, &ps) {
            return true;
        }
        i = i + 1;
    }
    occurs_at_exec(&cs, i, &ps)
}

/// `s` with every occurrence of `pat` (non-empty), found from the left
/// without overlaps, replaced by `rep`; what `str::replace` returns.
pub fn replace(s: &str, pat: &str, rep: &str) -> (r: String)
    requires
        pat@.len() > 0,
    ensures
        r@ == replaced(s@, pat@, rep@),
{
    let cs = chars_of(s);
    let ps = chars_of(pat);
    let mut out = String::new();
    let mut i: usize = 0;
    assert(s@.skip(0) =~= s@);
    assert(out@ + replaced(s@, pat@, rep@) =~= replaced(s@, pat@, rep@));
    while i < cs.len()
        invariant
            cs@ == s@,
            ps@ == pat@,
            pat@.len() > 0,
            i <= cs@.len(),
            replaced(s@, pat@, rep@) == out@ + replaced(s@.skip(i as int), pat@, rep@),
        decreases cs@.len() - i,
    {
        let ghost rest = s@.skip(i as int);
        if occurs_at_exec(&cs, i, &ps) {
            proof {
                assert(rest.subrange(0, pat@.len() as int) =~= s@.subrange(i as int, i + pat@.len()));
                assert(occurs_at(rest, 0, pat@));
                assert(rest.skip(pat@.len() as int) =~= s@.skip(i + pat@.len()));
            }
            out.append(rep);
            i = i + ps.len();
        } else {
            proof {
                if occurs_at(rest, 0, pat@) {
                    assert(rest.subrange(0, pat@.len() as int) =~= s@.subrange(i as int, i + pat@.len()));
                }
                assert(rest.skip(1) =~= s@.skip(i + 1));
                assert(rest[0] == cs@[i as int]);
            }
            push_char(&mut out, cs[i]);
            proof {
                assert(out@ + replaced(s@.skip(i + 1), pat@, rep@) =~= (out@.drop_last()) + (seq![cs@[i as int]] + replaced(s@.skip(i + 1), pat@, rep@)));
            }
            i = i + 1;
        }
    }
    assert(s@.skip(i as int).len() == 0);
    assert(out@ + replaced(s@.skip(i as int), pat@, rep@) =~= out@);
    out
}

} // verus!

verus! {

/// How many non-overlapping occurrences of `pat` (non-empty) a scan from the
/// left finds in `s`; what `s.matches(pat).count()` returns.
pub fn count_matches(s: &str, pat: &str) -> (n: usize)
    requires
        pat@.len() > 0,
    ensures
        n == match_count(s@, pat@),
{
    let cs = chars_of(s);
    let ps = chars_of(pat);
    let mut n: usize = 0;
    let mut i: usize = 0;
    assert(s@.skip(0) =~= s@);
    while i < cs.len()
        invariant
            cs@ == s@,
            ps@ == pat@,
            pat@.len() > 0,
            i <= cs@.len(),
            n <= i,
            match_count(s@, pat@) == n + match_count(s@.skip(i as int), pat@),
        decreases cs@.len() - i,
    {
        let ghost rest = s@.skip(i as int);
        if occurs_at_exec(&cs, i, &ps) {
            proof {
                assert(rest.subrange(0, pat@.len() as int) =~= s@.subrange(i as int, i + pat@.len()));
                assert(occurs_at(rest, 0, pat@));
                assert(rest.skip(pat@.len() as int) =~= s@.skip(i + pat@.len()));
            }
            n = n + 1;
            i = i + ps.len();
        } else {
            proof {
                if occurs_at(rest, 0, pat@) {
                    assert(rest.subrange(0, pat@.len() as int) =~= s@.subrange(i as int, i + pat@.len()));
                }
                assert(rest.skip(1) =~= s@.skip(i + 1));
            }
            i = i + 1;
        }
    }
    n
}

/// Index of the last `c` in `s`, or -1 when there is none.
pub open spec fn last_index_of(s: Seq<char>, c: char) -> int
    decreases s.len(),
{
    if s.len() == 0 {
        -1
    } else if s.last() == c {
        s.len() - 1
    } else {
        last_index_of(s.drop_last(), c)
    }
}

pub proof fn lemma_last_index_of(s: Seq<char>, c: char)
    ensures
        -1 <= last_index_of(s, c) < s.len(),
        last_index_of(s, c) >= 0 ==> s[last_index_of(s, c)] == c,
        forall|j: int| last_index_of(s, c) < j < s.len() ==> s[j] != c,
    decreases s.len(),
{
    if s.len() > 0 && s.last() != c {
        lemma_last_index_of(s.drop_last(), c);
        assert forall|j: int| last_index_of(s, c) < j < s.len() implies s[j] != c by {
            if j < s.len() - 1 {
                assert(s[j] == s.drop_last()[j]);
            }
        }
    }
}

/// The index of the last `c` in `cs`, if any.
pub fn last_index(cs: &Vec<char>, c: char) -> (r: Option<usize>)
    ensures
        match r {
            Some(i) => i as int == last_index_of(cs@, c),
            None => last_index_of(cs@, c) == -1,
        },
{
    let mut i = cs.len();
    assert(cs@.take(i as int) =~= cs@);
    while i > 0
        invariant
            i <= cs@.len(),
            last_index_of(cs@, c) == last_index_of(cs@.take(i as int), c),
        decreases i,
    {
        let ghost pre = cs@.take(i as int);
        assert(pre.drop_last() =~= cs@.take(i - 1));
        if cs[i - 1] == c {
            return Some(i - 1);
        }
        i = i - 1;
    }
    None
}

/// `s` with the ASCII letters made lower case.
pub fn ascii_lowercase(s: &str) -> (r: String)
    ensures
        r@ == s@.map_values(|c: char| ascii_lower(c)),
{
    let cs = chars_of(s);
    let mut r = String::new();
    let mut i: usize = 0;
    while i < cs.len()
        invariant
            cs@ == s@,
            i <= cs@.len(),
            r@ == s@.take(i as int).map_values(|c: char| ascii_lower(c)),
        decreases cs@.len() - i,
    {
        let c = cs[i];
        let l = if 'A' <= c && c <= 'Z' { ((c as u32) + 32) as u8 as char } else { c };
        assert(l == ascii_lower(c));
        push_char(&mut r, l);
        assert(s@.take(i + 1).map_values(|c: char| ascii_lower(c)) =~= s@.take(i as int).map_values(|c: char| ascii_lower(c)).push(l));
        i = i + 1;
    }
    assert(s@.take(cs@.len() as int) =~= s@);
    r
}

} // verus!
