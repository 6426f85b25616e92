//! String operations of `std` that the library builds on, and the character
//! level splitting and pattern removal used to read request tokens.

use vstd::prelude::*;

verus! {

/// Whether `c` has the Unicode `White_Space` property, which is what
/// `char::is_whitespace` tests and what `str::trim` removes: the controls
/// U+0009 to U+000D, the space, U+0085, the no-break space U+00A0, U+1680,
/// the spaces U+2000 to U+200A, the line and paragraph separators U+2028 and
/// U+2029, U+202F, U+205F and U+3000.
pub open spec fn is_white_space(c: char) -> bool {
    ||| '\u{9}' <= c <= '\u{d}'
    ||| c == ' '
    ||| c == '\u{85}'
    ||| c == '\u{a0}'
    ||| c == '\u{1680}'
    ||| '\u{2000}' <= c <= '\u{200a}'
    ||| c == '\u{2028}'
    ||| c == '\u{2029}'
    ||| c == '\u{202f}'
    ||| c == '\u{205f}'
    ||| c == '\u{3000}'
}

/// `s` without its leading whitespace.
pub open spec fn trim_start(s: Seq<char>) -> Seq<char>
    decreases s.len(),
{
    if s.len() > 0 && is_white_space(s[0]) {
        trim_start(s.skip(1))
    } else {
        s
    }
}

/// `s` without its trailing whitespace.
pub open spec fn trim_end(s: Seq<char>) -> Seq<char>
    decreases s.len(),
{
    if s.len() > 0 && is_white_space(s.last()) {
        trim_end(s.drop_last())
    } else {
        s
    }
}

/// `s` without leading and trailing whitespace, as `str::trim` gives it.
pub open spec fn str_trimmed(s: Seq<char>) -> Seq<char> {
    trim_end(trim_start(s))
}

/// Whether `s` neither starts nor ends with whitespace.
pub open spec fn unpadded(s: Seq<char>) -> bool {
    s.len() > 0 ==> !is_white_space(s[0]) && !is_white_space(s.last())
}

/// Name for what `str::to_lowercase` makes of a string.
pub uninterp spec fn unicode_lowercase(s: Seq<char>) -> Seq<char>;

/// Name for what `format!("{:?}", s)` makes of a string slice: the quoted,
/// escaped form.
pub uninterp spec fn debug_quoted(s: Seq<char>) -> Seq<char>;

/// Whether every character of `s` is a lowercase ASCII letter.
pub open spec fn all_ascii_lowercase(s: Seq<char>) -> bool {
    forall|i: int| 0 <= i < s.len() ==> 'a' <= #[trigger] s[i] <= 'z'
}

/// Whether every character of `s` is ASCII.
pub open spec fn is_ascii_text(s: Seq<char>) -> bool {
    forall|i: int| 0 <= i < s.len() ==> (#[trigger] s[i] as int) < 128
}

/// `c` with an uppercase ASCII letter turned into its lowercase letter.
pub open spec fn ascii_lower_char(c: char) -> char {
    if 'A' <= c <= 'Z' {
        ((c as int) + 32) as char
    } else {
        c
    }
}

/// `c` with a lowercase ASCII letter turned into its uppercase letter.
pub open spec fn ascii_upper_char(c: char) -> char {
    if 'a' <= c <= 'z' {
        ((c as int) - 32) as char
    } else {
        c
    }
}

/// `s` with its ASCII letters in lowercase.
pub open spec fn ascii_lowercase(s: Seq<char>) -> Seq<char> {
    s.map_values(|c: char| ascii_lower_char(c))
}

/// `s` with its ASCII letters in uppercase.
pub open spec fn ascii_uppercase(s: Seq<char>) -> Seq<char> {
    s.map_values(|c: char| ascii_upper_char(c))
}

/// `String::push`: appends one character.
#[verifier::external_body]
pub fn push_char(s: &mut String, c: char)
    ensures
        final(s)@ == old(s)@.push(c),
{
    s.push(c);
}

/// Whether `c` has the Unicode `White_Space` property.
pub fn char_is_white_space(c: char) -> (b: bool)
    ensures
        b == is_white_space(c),
        (c as int) < 128 ==> (b <==> (c == ' ' || c == '\t' || c == '\n' || c == '\u{b}' || c == '\u{c}' || c == '\r')),
        is_ascii_alphanumeric_char(c) ==> !b,
        b <==> ({
            let x = c as int;
            ||| 0x9 <= x <= 0xd
            ||| x == 0x20
            ||| x == 0x85
            ||| x == 0xa0
            ||| x == 0x1680
            ||| 0x2000 <= x <= 0x200a
            ||| x == 0x2028
            ||| x == 0x2029
            ||| x == 0x202f
            ||| x == 0x205f
            ||| x == 0x3000
        }),
{
    proof {
        lemma_ascii_white_space(c);
    }
    ('\u{9}' <= c && c <= '\u{d}') || c == ' ' || c == '\u{85}' || c == '\u{a0}' || c == '\u{1680}'
        || ('\u{2000}' <= c && c <= '\u{200a}') || c == '\u{2028}' || c == '\u{2029}' || c == '\u{202f}'
        || c == '\u{205f}' || c == '\u{3000}'
}

/// `s` without leading and trailing whitespace (the Unicode `White_Space`
/// property), as `str::trim` gives it.
pub fn trim(s: &str) -> (t: &str)
    ensures
        t@ == str_trimmed(s@),
        s@.len() > 0 && is_ascii_alphanumeric_char(s@[0]) && is_ascii_alphanumeric_char(s@.last()) ==> t@ == s@,
{
    proof {
        if s@.len() > 0 && is_ascii_alphanumeric_char(s@[0]) && is_ascii_alphanumeric_char(s@.last()) {
            lemma_alphanumeric_ends_are_kept(s@);
        }
    }
    let n = s.unicode_len();
    let mut start: usize = 0;
    proof {
        assert(s@.skip(0) =~= s@);
    }
    while start < n && char_is_white_space(s.get_char(start))
        invariant
            n == s@.len(),
            start <= n,
            trim_start(s@) == trim_start(s@.skip(start as int)),
        decreases n - start,
    {
        proof {
            let rest = s@.skip(start as int);
            assert(rest[0] == s@[start as int]);
            assert(rest.skip(1) =~= s@.skip(start + 1));
        }
        start = start + 1;
    }
    let ghost front = s@.skip(start as int);
    proof {
        if start < n {
            assert(front[0] == s@[start as int]);
        }
        assert(trim_start(s@) == front);
        assert(front.take(front.len() as int) =~= front);
    }
    let mut end: usize = n;
    while end > start && char_is_white_space(s.get_char(end - 1))
        invariant
            n == s@.len(),
            start <= end <= n,
            front == s@.skip(start as int),
            trim_end(front) == trim_end(front.take(end - start)),
        decreases end - start,
    {
        proof {
            let part = front.take(end - start);
            assert(part.last() == s@[end - 1]);
            assert(part.drop_last() =~= front.take(end - 1 - start));
        }
        end = end - 1;
    }
    proof {
        let part = front.take(end - start);
        if end > start {
            assert(part.last() == s@[end - 1]);
        }
        assert(trim_end(part) == part);
        assert(part =~= s@.subrange(start as int, end as int));
    }
    s.substring_char(start, end)
}

/// Whether `c` is an ASCII letter or digit.
pub open spec fn is_ascii_alphanumeric_char(c: char) -> bool {
    'a' <= c <= 'z' || 'A' <= c <= 'Z' || '0' <= c <= '9'
}

/// Among ASCII characters, exactly the tab, line feed, vertical tab, form
/// feed, carriage return and space are whitespace; in particular no letter
/// or digit is.
pub proof fn lemma_ascii_white_space(c: char)
    ensures
        (c as int) < 128 ==> (is_white_space(c) <==> (c == ' ' || c == '\t' || c == '\n' || c == '\u{b}' || c
            == '\u{c}' || c == '\r')),
        is_ascii_alphanumeric_char(c) ==> !is_white_space(c),
{
}

/// Trimming keeps text that starts and ends with an ASCII letter or digit
/// as it is: only surrounding whitespace is removed.
pub proof fn lemma_alphanumeric_ends_are_kept(s: Seq<char>)
    requires
        s.len() > 0,
        is_ascii_alphanumeric_char(s[0]),
        is_ascii_alphanumeric_char(s.last()),
    ensures
        str_trimmed(s) == s,
{
    lemma_ascii_white_space(s[0]);
    lemma_ascii_white_space(s.last());
    lemma_unpadded_is_trimmed(s);
}

/// Trimming the start drops a prefix, after which the text is empty or does
/// not start with whitespace.
proof fn lemma_trim_start(s: Seq<char>)
    ensures
        exists|k: int| 0 <= k <= s.len() && trim_start(s) == #[trigger] s.skip(k),
        trim_start(s).len() > 0 ==> !is_white_space(trim_start(s)[0]),
    decreases s.len(),
{
    if s.len() > 0 && is_white_space(s[0]) {
        lemma_trim_start(s.skip(1));
        let k = choose|k: int| 0 <= k <= s.skip(1).len() && trim_start(s.skip(1)) == #[trigger] s.skip(1).skip(k);
        assert(s.skip(1).skip(k) =~= s.skip(k + 1));
    } else {
        assert(s.skip(0) =~= s);
    }
}

/// Trimming the end keeps a prefix, which is empty or does not end with
/// whitespace.
proof fn lemma_trim_end(s: Seq<char>)
    ensures
        exists|k: int| 0 <= k <= s.len() && trim_end(s) == #[trigger] s.take(k),
        trim_end(s).len() > 0 ==> !is_white_space(trim_end(s).last()),
    decreases s.len(),
{
    if s.len() > 0 && is_white_space(s.last()) {
        lemma_trim_end(s.drop_last());
        let k = choose|k: int| 0 <= k <= s.drop_last().len() && trim_end(s.drop_last()) == #[trigger] s.drop_last().take(k);
        assert(s.drop_last().take(k) =~= s.take(k));
    } else {
        assert(s.take(s.len() as int) =~= s);
    }
}

/// Text that neither starts nor ends with whitespace is left as it is by
/// trimming.
pub proof fn lemma_unpadded_is_trimmed(s: Seq<char>)
    requires
        unpadded(s),
    ensures
        str_trimmed(s) == s,
{
}

/// What trimming gives is a contiguous part of the input that neither
/// starts nor ends with whitespace, so trimming it again changes nothing.
pub proof fn lemma_trimmed(s: Seq<char>)
    ensures
        exists|start: int|
            0 <= start <= s.len() - str_trimmed(s).len() && str_trimmed(s) == #[trigger] s.subrange(
                start,
                start + str_trimmed(s).len(),
            ),
        unpadded(str_trimmed(s)),
        str_trimmed(str_trimmed(s)) == str_trimmed(s),
{
    lemma_trim_start(s);
    let u = trim_start(s);
    let a = choose|k: int| 0 <= k <= s.len() && u == #[trigger] s.skip(k);
    lemma_trim_end(u);
    let b = choose|k: int| 0 <= k <= u.len() && trim_end(u) == #[trigger] u.take(k);
    let t = str_trimmed(s);
    assert(t =~= s.subrange(a, a + t.len()));
    if t.len() > 0 {
        assert(t[0] == u[0]);
    }
    lemma_unpadded_is_trimmed(t);
}

/// `str::to_lowercase`.
///
/// Its result is named by [`unicode_lowercase`]; the documentation maps
/// each character by its Unicode lowercase mapping, which on ASCII text
/// turns `A` to `Z` into `a` to `z` and leaves every other character as it
/// is, and that much is stated here.
#[verifier::external_body]
pub fn to_lowercase(s: &str) -> (t: String)
    ensures
        t@ == unicode_lowercase(s@),
        is_ascii_text(s@) ==> t@ == ascii_lowercase(s@),
{
    s.to_lowercase()
}

/// Whether every character of `s` is an ASCII letter or digit.
pub open spec fn is_ascii_alphanumeric(s: Seq<char>) -> bool {
    forall|i: int| 0 <= i < s.len() ==> ('a' <= #[trigger] s[i] <= 'z' || 'A' <= s[i] <= 'Z' || '0' <= s[i] <= '9')
}

/// `format!("{:?}", s)` on a string slice.
///
/// Its result is named by [`debug_quoted`]: the text between double
/// quotes, each character escaped as `char::escape_debug` does. ASCII
/// letters and digits need no escape, so such text comes back between
/// double quotes as it is; that much is stated here.
#[verifier::external_body]
pub fn debug_quote(s: &str) -> (t: String)
    ensures
        t@ == debug_quoted(s@),
        is_ascii_alphanumeric(s@) ==> t@ == seq!['"'] + s@ + seq!['"'],
{
    format!("{:?}", s)
}

/// `s` with every occurrence of `pat` removed, scanning from the left and
/// never letting two removed occurrences overlap (as `str::replace(pat, "")`).
pub open spec fn remove_all(s: Seq<char>, pat: Seq<char>) -> Seq<char>
    recommends
        pat.len() > 0,
    decreases s.len(),
{
    if s.len() == 0 || pat.len() == 0 {
        s
    } else if pat.len() <= s.len() && s.take(pat.len() as int) == pat {
        remove_all(s.skip(pat.len() as int), pat)
    } else {
        seq![s[0]] + remove_all(s.skip(1), pat)
    }
}

/// The pieces of `s` between the occurrences of `sep` (as `str::split(sep)`):
/// there is always at least one piece, and an empty `s` gives one empty piece.
pub open spec fn split_on(s: Seq<char>, sep: char) -> Seq<Seq<char>>
    decreases s.len(),
{
    if s.len() == 0 {
        seq![Seq::<char>::empty()]
    } else {
        let rest = split_on(s.drop_last(), sep);
        if s.last() == sep {
            rest.push(Seq::<char>::empty())
        } else {
            rest.update(rest.len() - 1, rest.last().push(s.last()))
        }
    }
}

/// The index of the first occurrence of `c` in `s`, if any.
pub open spec fn first_index_of(s: Seq<char>, c: char) -> Option<int>
    decreases s.len(),
{
    if s.len() == 0 {
        None
    } else if s[0] == c {
        Some(0)
    } else {
        match first_index_of(s.skip(1), c) {
            Some(i) => Some(i + 1),
            None => None,
        }
    }
}

/// The first occurrence of `c` is the position `j` that holds `c` with no
/// `c` before it.
pub proof fn lemma_first_index_of(s: Seq<char>, c: char, j: int)
    requires
        0 <= j < s.len(),
        s[j] == c,
        forall|k: int| 0 <= k < j ==> s[k] != c,
    ensures
        first_index_of(s, c) == Some(j),
    decreases s.len(),
{
    if j > 0 {
        assert forall|k: int| 0 <= k < j - 1 implies s.skip(1)[k] != c by {
            assert(s.skip(1)[k] == s[k + 1]);
        }
        lemma_first_index_of(s.skip(1), c, j - 1);
    }
}

/// Without any occurrence of `c`, there is no first one.
pub proof fn lemma_first_index_of_none(s: Seq<char>, c: char)
    requires
        forall|k: int| 0 <= k < s.len() ==> s[k] != c,
    ensures
        first_index_of(s, c) is None,
    decreases s.len(),
{
    if s.len() > 0 {
        assert forall|k: int| 0 <= k < s.len() - 1 implies s.skip(1)[k] != c by {
            assert(s.skip(1)[k] == s[k + 1]);
        }
        lemma_first_index_of_none(s.skip(1), c);
    }
}

/// Whether `a` and `b` hold the same characters.
pub fn same_text(a: &str, b: &str) -> (r: bool)
    ensures
        r == (a@ == b@),
{
    let n = a.unicode_len();
    let m = b.unicode_len();
    if n != m {
        return false;
    }
    let mut i: usize = 0;
    while i < n
        invariant
            n == a@.len(),
            m == b@.len(),
            n == m,
            i <= n,
            forall|k: int| 0 <= k < i ==> a@[k] == b@[k],
        decreases n - i,
    {
        if a.get_char(i) != b.get_char(i) {
            return false;
        }
        i = i + 1;
    }
    assert(a@ =~= b@);
    true
}

/// Whether `pat` occurs in `s` at character position `at`.
fn occurs_at(s: &str, pat: &str, at: usize) -> (r: bool)
    requires
        at + pat@.len() <= s@.len(),
        s@.len() <= usize::MAX,
    ensures
        r == (s@.subrange(at as int, at + pat@.len()) == pat@),
{
    let m = pat.unicode_len();
    let mut k: usize = 0;
    while k < m
        invariant
            m == pat@.len(),
            at + m <= s@.len(),
            s@.len() <= usize::MAX,
            k <= m,
            forall|j: int| 0 <= j < k ==> s@[at + j] == pat@[j],
        decreases m - k,
    {
        if s.get_char(at + k) != pat.get_char(k) {
            assert(s@.subrange(at as int, at + pat@.len())[k as int] != pat@[k as int]);
            return false;
        }
        k = k + 1;
    }
    assert(s@.subrange(at as int, at + pat@.len()) =~= pat@);
    true
}

/// The texts held by a list of strings.
pub open spec fn texts(v: Seq<String>) -> Seq<Seq<char>> {
    v.map_values(|x: String| x@)
}

/// The pieces of `s` between the occurrences of `sep` (`str::split(sep)`).
pub fn split_text(s: &str, sep: char) -> (pieces: Vec<String>)
    ensures
        texts(pieces@) == split_on(s@, sep),
{
    let n = s.unicode_len();
    let mut done: Vec<String> = Vec::new();
    let mut cur = String::new();
    let mut i: usize = 0;
    assert(s@.take(0) =~= Seq::<char>::empty());
    assert(texts(done@).push(cur@) =~= split_on(s@.take(0), sep));
    while i < n
        invariant
            n == s@.len(),
            i <= n,
            texts(done@).push(cur@) == split_on(s@.take(i as int), sep),
        decreases n - i,
    {
        let c = s.get_char(i);
        let ghost prefix = s@.take(i + 1);
        assert(prefix.drop_last() =~= s@.take(i as int));
        assert(prefix.last() == c);
        if c == sep {
            let piece = cur;
            done.push(piece);
            cur = String::new();
            assert(texts(done@).push(cur@) =~= split_on(prefix, sep));
        } else {
            let ghost before = texts(done@).push(cur@);
            push_char(&mut cur, c);
            assert(texts(done@).push(cur@) =~= before.update(before.len() - 1, before.last().push(c)));
        }
        i = i + 1;
    }
    assert(s@.take(n as int) =~= s@);
    done.push(cur);
    done
}

/// `s` with every occurrence of `pat` removed (`str::replace(pat, "")`).
pub fn remove_occurrences(s: &str, pat: &str) -> (r: String)
    requires
        pat@.len() > 0,
    ensures
        r@ == remove_all(s@, pat@),
{
    let n = s.unicode_len();
    let m = pat.unicode_len();
    let mut out = String::new();
    let mut i: usize = 0;
    assert(s@.skip(0) =~= s@);
    assert(out@ + remove_all(s@, pat@) =~= remove_all(s@, pat@));
    while i < n
        invariant
            n == s@.len(),
            m == pat@.len(),
            m > 0,
            i <= n,
            out@ + remove_all(s@.skip(i as int), pat@) == remove_all(s@, pat@),
        decreases n - i,
    {
        let ghost rest = s@.skip(i as int);
        if m <= n - i && occurs_at(s, pat, i) {
            assert(rest.take(m as int) =~= s@.subrange(i as int, i + m));
            assert(rest.skip(m as int) =~= s@.skip(i + m));
            i = i + m;
        } else {
            let c = s.get_char(i);
            assert(m <= rest.len() ==> rest.take(m as int) =~= s@.subrange(i as int, i + m));
            assert(rest.skip(1) =~= s@.skip(i + 1));
            assert(rest[0] == c);
            let ghost before = out@;
            push_char(&mut out, c);
            assert(out@ + remove_all(s@.skip(i + 1), pat@) =~= before + (seq![c] + remove_all(
                rest.skip(1),
                pat@,
            )));
            i = i + 1;
        }
    }
    assert(s@.skip(n as int) =~= Seq::<char>::empty());
    assert(out@ + remove_all(Seq::<char>::empty(), pat@) =~= out@);
    out
}

} // verus!

verus! {

/// The decimal digit for `d` (below ten).
pub open spec fn digit_char(d: nat) -> char {
    if d == 0 { '0' }
    else if d == 1 { '1' }
    else if d == 2 { '2' }
    else if d == 3 { '3' }
    else if d == 4 { '4' }
    else if d == 5 { '5' }
    else if d == 6 { '6' }
    else if d == 7 { '7' }
    else if d == 8 { '8' }
    else { '9' }
}

/// The decimal notation of `n`, without leading zeros (`0` for zero), as
/// `Display` writes unsigned integers.
pub open spec fn decimal(n: nat) -> Seq<char>
    decreases n,
{
    if n < 10 {
        seq![digit_char(n)]
    } else {
        decimal(n / 10).push(digit_char(n % 10))
    }
}

fn digit(d: u64) -> (c: char)
    requires
        d < 10,
    ensures
        c == digit_char(d as nat),
        c as int == '0' as int + d,
{
    proof {
        lemma_digit_char_code(d as nat);
    }
    if d == 0 { '0' }
    else if d == 1 { '1' }
    else if d == 2 { '2' }
    else if d == 3 { '3' }
    else if d == 4 { '4' }
    else if d == 5 { '5' }
    else if d == 6 { '6' }
    else if d == 7 { '7' }
    else if d == 8 { '8' }
    else { '9' }
}

/// The number that the decimal digits `s` denote (most significant first).
pub open spec fn decimal_value(s: Seq<char>) -> int
    decreases s.len(),
{
    if s.len() == 0 {
        0
    } else {
        decimal_value(s.drop_last()) * 10 + (s.last() as int - '0' as int)
    }
}

/// Whether every character of `s` is a decimal digit.
pub open spec fn all_decimal_digits(s: Seq<char>) -> bool {
    forall|i: int| 0 <= i < s.len() ==> '0' <= #[trigger] s[i] <= '9'
}

/// The digit for `d` is the character `d` places after `0`.
pub proof fn lemma_digit_char_code(d: nat)
    requires
        d < 10,
    ensures
        digit_char(d) as int == '0' as int + d,
        '0' <= digit_char(d) <= '9',
{
}

/// The decimal notation of `n` is a non-empty run of digits, without a
/// leading zero unless `n` is zero, and reads back as `n`.
pub proof fn lemma_decimal_reads_back(n: nat)
    ensures
        decimal(n).len() > 0,
        all_decimal_digits(decimal(n)),
        decimal_value(decimal(n)) == n,
        n > 0 ==> decimal(n)[0] != '0',
    decreases n,
{
    if n < 10 {
        lemma_digit_char_code(n);
        let s = decimal(n);
        assert(s.drop_last() =~= Seq::<char>::empty());
        assert(decimal_value(s.drop_last()) == 0);
        assert(s.last() == digit_char(n));
    } else {
        let q = n / 10;
        let r = n % 10;
        assert(q < n);
        lemma_decimal_reads_back(q);
        lemma_digit_char_code(r);
        let s = decimal(n);
        assert(s.drop_last() =~= decimal(q));
        assert(s[0] == decimal(q)[0]);
        assert(q > 0);
        assert(n == q * 10 + r) by {
            vstd::arithmetic::div_mod::lemma_fundamental_div_mod(n as int, 10);
        }
        assert(s.last() == digit_char(r));
        assert(decimal_value(s) == decimal_value(decimal(q)) * 10 + r);
    }
}

/// Append the decimal notation of `n` to `out`.
pub fn push_decimal(out: &mut String, n: u64)
    ensures
        final(out)@ == old(out)@ + decimal(n as nat),
        final(out)@.subrange(0, old(out)@.len() as int) == old(out)@,
        decimal_value(final(out)@.skip(old(out)@.len() as int)) == n,
        all_decimal_digits(final(out)@.skip(old(out)@.len() as int)),
    decreases n,
{
    proof {
        lemma_decimal_reads_back(n as nat);
    }
    let ghost before = out@;
    if n < 10 {
        push_char(out, digit(n));
    } else {
        push_decimal(out, n / 10);
        push_char(out, digit(n % 10));
    }
    assert(out@.skip(before.len() as int) =~= decimal(n as nat));
    assert(out@.subrange(0, before.len() as int) =~= before);
}

} // verus!
