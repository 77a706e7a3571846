//! Character-level helpers that the rest of the library builds on.
use vstd::prelude::*;

verus! {

broadcast use vstd::string::group_string_axioms;

/// An index as a mathematical integer.
pub open spec fn int_of(i: usize) -> int {
    i as int
}

/// The characters of `s`, in order.
pub fn chars_of(s: &str) -> (r: Vec<char>)
    ensures
        r@ == s@,
{
    let mut out: Vec<char> = Vec::new();
    for c in it: s.chars()
        invariant
            out@ == it.seq().take(it.index() as int),
            it.seq() == s@,
    {
        out.push(c);
    }
    out
}

/// `String::push`: appends one character at the end of the string.
#[verifier::external_body]
fn push_char(s: &mut String, c: char)
    ensures
        final(s)@ == old(s)@.push(c),
{
    s.push(c);
}

/// A string holding exactly the characters of `v`.
pub fn string_of(v: &Vec<char>) -> (r: String)
    ensures
        r@ == v@,
{
    let mut out = String::new();
    for i in 0..v.len()
        invariant
            out@ == v@.take(i as int),
    {
        push_char(&mut out, v[i]);
        assert(v@.take(i + 1) == v@.take(i as int).push(v@[i as int]));
    }
    assert(v@.take(v.len() as int) == v@);
    out
}

/// ASCII lowercase of one character; other characters are left alone.
pub open spec fn ascii_lower_char(c: char) -> char {
    if 'A' <= c && c <= 'Z' {
        ((c as u32) + 32) as char
    } else {
        c
    }
}

/// ASCII lowercase of a whole sequence, character by character.
pub open spec fn ascii_lower(s: Seq<char>) -> Seq<char> {
    s.map_values(|c: char| ascii_lower_char(c))
}

pub fn to_ascii_lower_char(c: char) -> (r: char)
    ensures
        r == ascii_lower_char(c),
{
    if 'A' <= c && c <= 'Z' {
        let b: u8 = (c as u8) + 32;
        b as char
    } else {
        c
    }
}

/// `str::to_ascii_lowercase`, character by character.
pub fn to_ascii_lowercase(s: &Vec<char>) -> (r: Vec<char>)
    ensures
        r@ == ascii_lower(s@),
{
    let mut out: Vec<char> = Vec::new();
    for i in 0..s.len()
        invariant
            out@ == ascii_lower(s@.take(i as int)),
    {
        out.push(to_ascii_lower_char(s[i]));
        assert(ascii_lower(s@.take(i + 1)) == ascii_lower(s@.take(i as int)).push(
            ascii_lower_char(s@[i as int]),
        ));
    }
    assert(s@.take(s.len() as int) == s@);
    out
}


/// An ASCII decimal digit.
pub open spec fn is_digit(c: char) -> bool {
    '0' <= c && c <= '9'
}

/// The value of an ASCII decimal digit.
pub open spec fn digit_value(c: char) -> nat {
    (c as int - '0' as int) as nat
}

/// Every character is an ASCII decimal digit.
pub open spec fn all_digits(s: Seq<char>) -> bool {
    forall|i: int| 0 <= i < s.len() ==> is_digit(#[trigger] s[i])
}

/// The number that a string of decimal digits spells, most significant first.
pub open spec fn digits_value(s: Seq<char>) -> nat
    decreases s.len(),
{
    if s.len() == 0 {
        0
    } else {
        digits_value(s.drop_last()) * 10 + digit_value(s.last())
    }
}

/// What `u64::from_str` accepts: an optional `+`, then one or more ASCII
/// digits whose value fits in a `u64`.
pub open spec fn decimal_u64(s: Seq<char>) -> Option<u64> {
    let d = if s.len() > 0 && s[0] == '+' {
        s.drop_first()
    } else {
        s
    };
    if d.len() > 0 && all_digits(d) && digits_value(d) <= u64::MAX {
        Some(digits_value(d) as u64)
    } else {
        None
    }
}

/// A prefix of a digit string never spells more than the whole string.
pub proof fn lemma_digits_prefix_le(s: Seq<char>, k: int)
    requires
        0 <= k <= s.len(),
    ensures
        digits_value(s.take(k)) <= digits_value(s),
    decreases s.len(),
{
    if k < s.len() {
        assert(s.drop_last().take(k) == s.take(k));
        lemma_digits_prefix_le(s.drop_last(), k);
    } else {
        assert(s.take(k) == s);
    }
}

fn digit_of(c: char) -> (r: u64)
    requires
        is_digit(c),
    ensures
        r == digit_value(c),
{
    ((c as u32) - ('0' as u32)) as u64
}

/// `u64::from_str`: parses an optional `+` followed by ASCII digits, refusing
/// empty input, any other character, and values beyond `u64::MAX`.
pub fn parse_decimal_u64(s: &Vec<char>) -> (r: Option<u64>)
    ensures
        r == decimal_u64(s@),
{
    let start: usize = if s.len() > 0 && s[0] == '+' {
        1
    } else {
        0
    };
    let ghost d = if s@.len() > 0 && s@[0] == '+' {
        s@.drop_first()
    } else {
        s@
    };
    assert(d == s@.skip(start as int));
    if start >= s.len() {
        return None;
    }
    let mut v: u64 = 0;
    let mut i: usize = start;
    while i < s.len()
        invariant
            start <= i <= s.len(),
            d == s@.skip(start as int),
            d == (if s@.len() > 0 && s@[0] == '+' {
                s@.drop_first()
            } else {
                s@
            }),
            d.len() > 0,
            all_digits(d.take(i - start)),
            v as nat == digits_value(d.take(i - start)),
        decreases s.len() - i,
    {
        let c = s[i];
        let ghost k: int = i - start;
        assert(d[k] == c);
        if !('0' <= c && c <= '9') {
            assert(!all_digits(d));
            return None;
        }
        assert(d.take(k + 1).drop_last() == d.take(k));
        assert(d.take(k + 1).last() == c);
        let dv = digit_of(c);
        match v.checked_mul(10) {
            Some(m) => match m.checked_add(dv) {
                Some(n) => {
                    v = n;
                },
                None => {
                    proof {
                        lemma_digits_prefix_le(d, k + 1);
                    }
                    return None;
                },
            },
            None => {
                proof {
                    lemma_digits_prefix_le(d, k + 1);
                }
                return None;
            },
        }
        i = i + 1;
        assert forall|j: int| 0 <= j < d.take(i - start).len() implies is_digit(
            #[trigger] d.take(i - start)[j],
        ) by {
            if j < k {
                assert(d.take(i - start)[j] == d.take(k)[j]);
            }
        }
    }
    assert(d.take(i - start) == d);
    Some(v)
}


/// `str::split_once` on a character: the text before the first `c`, and the
/// text after it when there is one.
pub open spec fn split_first(s: Seq<char>, c: char) -> (Seq<char>, Option<Seq<char>>) {
    match s.index_of_first(c) {
        Some(i) => (s.take(i), Some(s.skip(i + 1))),
        None => (s, None),
    }
}

pub fn split_first_char(s: &Vec<char>, c: char) -> (r: (Vec<char>, Option<Vec<char>>))
    ensures
        r.0@ == split_first(s@, c).0,
        match r.1 {
            Some(v) => split_first(s@, c).1 == Some(v@),
            None => split_first(s@, c).1 is None,
        },
{
    let mut i: usize = 0;
    while i < s.len()
        invariant
            i <= s.len(),
            forall|j: int| 0 <= j < i ==> s@[j] != c,
        decreases s.len() - i,
    {
        if s[i] == c {
            let mut before: Vec<char> = Vec::new();
            let mut after: Vec<char> = Vec::new();
            for k in 0..i
                invariant
                    i < s.len(),
                    before@ == s@.take(k as int),
            {
                before.push(s[k]);
                assert(s@.take(k + 1) == s@.take(k as int).push(s@[k as int]));
            }
            let mut k: usize = i + 1;
            while k < s.len()
                invariant
                    i < k <= s.len(),
                    after@ == s@.subrange(i + 1, k as int),
                decreases s.len() - k,
            {
                after.push(s[k]);
                assert(s@.subrange(i + 1, k + 1) == s@.subrange(i + 1, k as int).push(s@[k as int]));
                k = k + 1;
            }
            proof {
                s@.index_of_first_ensures(c);
                let f = s@.index_of_first(c);
                assert(s@.contains(c));
                if f.unwrap() < i {
                    assert(s@[f.unwrap()] != c);
                }
                if f.unwrap() > i {
                    assert(s@[i as int] == c);
                }
                assert(s@.subrange(i + 1, s@.len() as int) == s@.skip(i + 1));
            }
            return (before, Some(after));
        }
        i = i + 1;
    }
    proof {
        s@.index_of_first_ensures(c);
        assert(!s@.contains(c));
    }
    (s.clone(), None)
}

/// `str::split` on a character: the pieces between occurrences of `c`, in
/// order; always at least one piece.
pub open spec fn split_on(s: Seq<char>, c: char) -> Seq<Seq<char>>
    decreases s.len(),
{
    if s.len() == 0 {
        seq![Seq::<char>::empty()]
    } else {
        let prev = split_on(s.drop_last(), c);
        if s.last() == c {
            prev.push(Seq::<char>::empty())
        } else {
            prev.update(prev.len() - 1, prev.last().push(s.last()))
        }
    }
}

pub proof fn lemma_split_on_nonempty(s: Seq<char>, c: char)
    ensures
        split_on(s, c).len() >= 1,
    decreases s.len(),
{
    if s.len() > 0 {
        lemma_split_on_nonempty(s.drop_last(), c);
    }
}

/// A separator at the end opens a new, empty piece.
pub proof fn lemma_split_on_push_separator(s: Seq<char>, c: char)
    ensures
        split_on(s.push(c), c) == split_on(s, c).push(Seq::<char>::empty()),
{
    assert(s.push(c).drop_last() =~= s);
}

/// Text free of the separator, appended, extends the last piece.
pub proof fn lemma_split_on_append_plain(s: Seq<char>, t: Seq<char>, c: char)
    requires
        !t.contains(c),
    ensures
        split_on(s + t, c) == split_on(s, c).update(
            split_on(s, c).len() - 1,
            split_on(s, c).last() + t,
        ),
    decreases t.len(),
{
    lemma_split_on_nonempty(s, c);
    let p = split_on(s, c);
    if t.len() == 0 {
        assert(s + t =~= s);
        assert(p.last() + t =~= p.last());
        assert(p.update(p.len() - 1, p.last()) =~= p);
    } else {
        let u = t.drop_last();
        assert(!u.contains(c)) by {
            if u.contains(c) {
                let i = choose|i: int| 0 <= i < u.len() && u[i] == c;
                assert(t[i] == c);
            }
        }
        lemma_split_on_append_plain(s, u, c);
        assert((s + t).drop_last() =~= s + u);
        assert((s + t).last() == t[t.len() - 1]);
        assert(t[t.len() - 1] != c);
        let prev = split_on(s + u, c);
        assert((p.last() + u).push(t.last()) =~= p.last() + t);
        assert(prev.update(prev.len() - 1, prev.last().push(t.last())) =~= p.update(
            p.len() - 1,
            p.last() + t,
        ));
    }
}

/// The pieces of `p`, a separator and a separator-free `x` are those of `p`
/// followed by `x`.
pub proof fn lemma_split_on_last_piece(p: Seq<char>, x: Seq<char>, c: char)
    requires
        !x.contains(c),
    ensures
        split_on(p + seq![c] + x, c) == split_on(p, c).push(x),
{
    let q = p.push(c);
    assert(p + seq![c] =~= q);
    lemma_split_on_push_separator(p, c);
    lemma_split_on_append_plain(q, x, c);
    let sq = split_on(q, c);
    assert(sq.last() + x =~= x);
    assert(sq.update(sq.len() - 1, x) =~= split_on(p, c).push(x));
}

/// The character sequences held by a list of character vectors.
pub open spec fn views(v: Seq<Vec<char>>) -> Seq<Seq<char>> {
    v.map_values(|x: Vec<char>| x@)
}

pub fn split_on_char(s: &Vec<char>, c: char) -> (r: Vec<Vec<char>>)
    ensures
        views(r@) == split_on(s@, c),
        r.len() >= 1,
{
    let mut pieces: Vec<Vec<char>> = Vec::new();
    let mut current: Vec<char> = Vec::new();
    for i in 0..s.len()
        invariant
            views(pieces@).push(current@) == split_on(s@.take(i as int), c),
    {
        let ghost before = s@.take(i as int);
        assert(s@.take(i + 1).drop_last() == before);
        assert(s@.take(i + 1).last() == s@[i as int]);
        proof {
            lemma_split_on_nonempty(before, c);
        }
        let ghost old_pieces = views(pieces@);
        let ghost old_current = current@;
        if s[i] == c {
            let done = current;
            pieces.push(done);
            current = Vec::new();
            assert(views(pieces@) =~= old_pieces.push(old_current));
            assert(views(pieces@) =~= split_on(before, c));
        } else {
            current.push(s[i]);
        }
        assert(views(pieces@).push(current@) =~= split_on(s@.take(i + 1), c));
    }
    assert(s@.take(s.len() as int) == s@);
    let ghost old_pieces = views(pieces@);
    let ghost old_current = current@;
    pieces.push(current);
    assert(views(pieces@) =~= old_pieces.push(old_current));
    pieces
}


/// Whether two character vectors hold the same characters.
pub fn same_chars(a: &Vec<char>, b: &Vec<char>) -> (r: bool)
    ensures
        r == (a@ == b@),
{
    if a.len() != b.len() {
        return false;
    }
    for i in 0..a.len()
        invariant
            a@.len() == b@.len(),
            forall|j: int| 0 <= j < i ==> a@[j] == b@[j],
    {
        if a[i] != b[i] {
            return false;
        }
    }
    assert(a@ =~= b@);
    true
}

/// `str::starts_with` for a string prefix.
pub fn starts_with(s: &Vec<char>, prefix: &Vec<char>) -> (r: bool)
    ensures
        r == prefix@.is_prefix_of(s@),
{
    if prefix.len() > s.len() {
        return false;
    }
    for i in 0..prefix.len()
        invariant
            prefix@.len() <= s@.len(),
            forall|j: int| 0 <= j < i ==> prefix@[j] == s@[j],
    {
        if prefix[i] != s[i] {
            assert(prefix@[int_of(i)] != s@.subrange(0, prefix@.len() as int)[int_of(i)]);
            return false;
        }
    }
    assert(prefix@ =~= s@.subrange(0, prefix@.len() as int));
    true
}

/// `str::trim_end_matches` with a single character: every trailing `c` removed.
pub open spec fn trim_end_char(s: Seq<char>, c: char) -> Seq<char>
    decreases s.len(),
{
    if s.len() > 0 && s.last() == c {
        trim_end_char(s.drop_last(), c)
    } else {
        s
    }
}

pub fn trim_end_matches_char(s: &Vec<char>, c: char) -> (r: Vec<char>)
    ensures
        r@ == trim_end_char(s@, c),
{
    let mut n: usize = s.len();
    assert(s@.take(int_of(n)) == s@);
    while n > 0 && s[n - 1] == c
        invariant
            n <= s.len(),
            trim_end_char(s@, c) == trim_end_char(s@.take(int_of(n)), c),
        decreases n,
    {
        assert(s@.take(int_of(n)).drop_last() == s@.take(n - 1));
        n = n - 1;
    }
    let mut out: Vec<char> = Vec::new();
    for i in 0..n
        invariant
            n <= s.len(),
            out@ == s@.take(int_of(i)),
    {
        out.push(s[i]);
        assert(s@.take(i + 1) == s@.take(int_of(i)).push(s@[int_of(i)]));
    }
    out
}


/// A character with the Unicode `White_Space` property: the 25 code points
/// U+0009..=U+000D, U+0020, U+0085, U+00A0, U+1680, U+2000..=U+200A, U+2028,
/// U+2029, U+202F, U+205F and U+3000.
pub open spec fn is_white_space(c: char) -> bool {
    ||| ('\u{9}' <= c && c <= '\u{d}')
    ||| c == ' '
    ||| c == '\u{85}'
    ||| c == '\u{a0}'
    ||| c == '\u{1680}'
    ||| ('\u{2000}' <= c && c <= '\u{200a}')
    ||| c == '\u{2028}'
    ||| c == '\u{2029}'
    ||| c == '\u{202f}'
    ||| c == '\u{205f}'
    ||| c == '\u{3000}'
}

fn white_space(c: char) -> (r: bool)
    ensures
        r == is_white_space(c),
{
    ('\u{9}' <= c && c <= '\u{d}') || c == ' ' || c == '\u{85}' || c == '\u{a0}' || c == '\u{1680}'
        || ('\u{2000}' <= c && c <= '\u{200a}') || c == '\u{2028}' || c == '\u{2029}' || c
        == '\u{202f}' || c == '\u{205f}' || c == '\u{3000}'
}

/// The text without its leading white space.
pub open spec fn trim_start_ws(s: Seq<char>) -> Seq<char>
    decreases s.len(),
{
    if s.len() > 0 && is_white_space(s[0]) {
        trim_start_ws(s.drop_first())
    } else {
        s
    }
}

/// The text without its trailing white space.
pub open spec fn trim_end_ws(s: Seq<char>) -> Seq<char>
    decreases s.len(),
{
    if s.len() > 0 && is_white_space(s.last()) {
        trim_end_ws(s.drop_last())
    } else {
        s
    }
}

/// What `str::trim` leaves of a string: the text without leading and trailing
/// white space.
pub open spec fn trimmed(s: Seq<char>) -> Seq<char> {
    trim_end_ws(trim_start_ws(s))
}

/// `str::trim`: the characters of `s` without leading and trailing white
/// space.
pub fn trim_chars(s: &Vec<char>) -> (r: Vec<char>)
    ensures
        r@ == trimmed(s@),
{
    let n = s.len();
    let mut i: usize = 0;
    assert(s@.skip(0) == s@);
    while i < n && white_space(s[i])
        invariant
            i <= n,
            n == s@.len(),
            trim_start_ws(s@) == trim_start_ws(s@.skip(int_of(i))),
        decreases n - i,
    {
        assert(s@.skip(int_of(i)).drop_first() == s@.skip(i + 1));
        assert(s@.skip(int_of(i))[0] == s@[int_of(i)]);
        i = i + 1;
    }
    assert(trim_start_ws(s@.skip(int_of(i))) == s@.skip(int_of(i)));
    assert(s@.skip(int_of(i)) == s@.subrange(int_of(i), int_of(n)));
    let mut j: usize = n;
    while j > i && white_space(s[j - 1])
        invariant
            i <= j <= n,
            n == s@.len(),
            trimmed(s@) == trim_end_ws(s@.subrange(int_of(i), int_of(j))),
        decreases j,
    {
        assert(s@.subrange(int_of(i), int_of(j)).drop_last() == s@.subrange(int_of(i), j - 1));
        assert(s@.subrange(int_of(i), int_of(j)).last() == s@[j - 1]);
        j = j - 1;
    }
    let mut out: Vec<char> = Vec::new();
    let mut k: usize = i;
    while k < j
        invariant
            i <= k <= j,
            j <= s@.len(),
            out@ == s@.subrange(int_of(i), int_of(k)),
        decreases j - k,
    {
        out.push(s[k]);
        assert(s@.subrange(int_of(i), k + 1) == s@.subrange(int_of(i), int_of(k)).push(
            s@[int_of(k)],
        ));
        k = k + 1;
    }
    out
}

/// What `str::to_lowercase` makes of a string: the Unicode lowercase mapping
/// of every character.
pub uninterp spec fn lowercased(s: Seq<char>) -> Seq<char>;

/// `str::to_lowercase`: the Unicode lowercase form of a string. Its contract
/// names the result and claims nothing more of it.
#[verifier::external_body]
pub fn to_lowercase(s: &str) -> (r: String)
    ensures
        r@ == lowercased(s@),
{
    s.to_lowercase()
}

} // verus!
