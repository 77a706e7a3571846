//! NuGet package versions: parsing and ordering.
use std::cmp::Ordering;
use vstd::prelude::*;
use vstd::string::StringExecFns;
use crate::text::{
    all_digits, ascii_lower, chars_of, decimal_u64, digits_value, parse_decimal_u64, split_first,
    split_first_char, split_on, split_on_char, string_of, to_ascii_lowercase, views, int_of,
    lemma_split_on_append_plain, lemma_split_on_last_piece,
};

verus! {

/// A parsed NuGet version: up to four numeric segments and an optional
/// prerelease label, together with the text it was parsed from.
#[derive(Debug)]
pub struct NuGetVersion {
    pub major: u64,
    pub minor: u64,
    pub patch: u64,
    pub revision: u64,
    pub prerelease: Option<String>,
    pub raw: String,
}

/// The mathematical content of a [`NuGetVersion`].
pub struct VersionView {
    pub major: u64,
    pub minor: u64,
    pub patch: u64,
    pub revision: u64,
    pub prerelease: Option<Seq<char>>,
    pub raw: Seq<char>,
}

pub open spec fn opt_chars(o: Option<String>) -> Option<Seq<char>> {
    match o {
        Some(s) => Some(s@),
        None => None,
    }
}

impl View for NuGetVersion {
    type V = VersionView;

    open spec fn view(&self) -> VersionView {
        VersionView {
            major: self.major,
            minor: self.minor,
            patch: self.patch,
            revision: self.revision,
            prerelease: opt_chars(self.prerelease),
            raw: self.raw@,
        }
    }
}

/// The `i`-th numeric segment, or 0 past the last one.
pub open spec fn segment_or_zero(segments: Seq<Seq<char>>, i: int) -> u64 {
    if i < segments.len() {
        decimal_u64(segments[i]).unwrap()
    } else {
        0
    }
}

/// What a version string means: the part before the first `-` is split on
/// `.` into one to four decimal `u64` segments (missing ones are 0); the part
/// after the first `-`, if any, is the prerelease label. Anything else is not
/// a version.
pub open spec fn parsed_version(s: Seq<char>) -> Option<VersionView> {
    let core = split_first(s, '-').0;
    let prerelease = split_first(s, '-').1;
    let segments = split_on(core, '.');
    if 1 <= segments.len() <= 4 && forall|i: int|
        0 <= i < segments.len() ==> #[trigger] decimal_u64(segments[i]) is Some {
        Some(
            VersionView {
                major: segment_or_zero(segments, 0),
                minor: segment_or_zero(segments, 1),
                patch: segment_or_zero(segments, 2),
                revision: segment_or_zero(segments, 3),
                prerelease,
                raw: s,
            },
        )
    } else {
        None
    }
}

impl NuGetVersion {
    /// Parses `input` as described by [`parsed_version`].
    pub fn parse(input: &str) -> (r: Option<NuGetVersion>)
        ensures
            match r {
                Some(v) => parsed_version(input@) == Some(v@),
                None => parsed_version(input@) is None,
            },
    {
        let chars = chars_of(input);
        let (core, pre) = split_first_char(&chars, '-');
        let segments = split_on_char(&core, '.');
        let ghost segs = views(segments@);
        if segments.len() > 4 {
            return None;
        }
        let mut numbers: Vec<u64> = Vec::new();
        for i in 0..segments.len()
            invariant
                segs == views(segments@),
                segs == split_on(split_first(input@, '-').0, '.'),
                numbers@.len() == i,
                forall|j: int| 0 <= j < i ==> decimal_u64(#[trigger] segs[j]) == Some(numbers@[j]),
        {
            assert(segs[i as int] == segments@[i as int]@);
            match parse_decimal_u64(&segments[i]) {
                Some(v) => {
                    numbers.push(v);
                },
                None => {
                    assert(decimal_u64(segs[i as int]) is None);
                    return None;
                },
            }
        }
        let n = numbers.len();
        let major = numbers[0];
        let minor = if n > 1 {
            numbers[1]
        } else {
            0
        };
        let patch = if n > 2 {
            numbers[2]
        } else {
            0
        };
        let revision = if n > 3 {
            numbers[3]
        } else {
            0
        };
        let prerelease = match pre {
            Some(p) => Some(string_of(&p)),
            None => None,
        };
        let v = NuGetVersion { major, minor, patch, revision, prerelease, raw: String::from_str(input) };
        assert(v@ == parsed_version(input@).unwrap());
        Some(v)
    }
}


/// Three-way comparison of two unsigned integers.
pub open spec fn u64_order(a: u64, b: u64) -> Ordering {
    if a < b {
        Ordering::Less
    } else if a == b {
        Ordering::Equal
    } else {
        Ordering::Greater
    }
}

/// Lexicographic comparison of character sequences by code point; a proper
/// prefix comes first.
pub open spec fn char_seq_order(a: Seq<char>, b: Seq<char>) -> Ordering
    decreases a.len(),
{
    if a.len() == 0 {
        if b.len() == 0 {
            Ordering::Equal
        } else {
            Ordering::Less
        }
    } else if b.len() == 0 {
        Ordering::Greater
    } else if a[0] < b[0] {
        Ordering::Less
    } else if a[0] > b[0] {
        Ordering::Greater
    } else {
        char_seq_order(a.drop_first(), b.drop_first())
    }
}

/// How two dot-separated prerelease labels compare: numbers by value,
/// numbers before words, words by their ASCII-lowercased text.
pub open spec fn token_order(a: Seq<char>, b: Seq<char>) -> Ordering {
    match (decimal_u64(a), decimal_u64(b)) {
        (Some(x), Some(y)) => u64_order(x, y),
        (Some(_), None) => Ordering::Less,
        (None, Some(_)) => Ordering::Greater,
        (None, None) => char_seq_order(ascii_lower(a), ascii_lower(b)),
    }
}

/// Lexicographic comparison of label lists by [`token_order`]; a list that is
/// a prefix of the other comes first.
pub open spec fn token_list_order(a: Seq<Seq<char>>, b: Seq<Seq<char>>) -> Ordering
    decreases a.len(),
{
    if a.len() == 0 {
        if b.len() == 0 {
            Ordering::Equal
        } else {
            Ordering::Less
        }
    } else if b.len() == 0 {
        Ordering::Greater
    } else if token_order(a[0], b[0]) != Ordering::Equal {
        token_order(a[0], b[0])
    } else {
        token_list_order(a.drop_first(), b.drop_first())
    }
}

/// How two prerelease strings compare: label by label after splitting on `.`.
pub open spec fn prerelease_order(a: Seq<char>, b: Seq<char>) -> Ordering {
    token_list_order(split_on(a, '.'), split_on(b, '.'))
}

/// The order of NuGet versions: by major, minor, patch and revision; with
/// equal numbers a release comes after any prerelease, and two prereleases
/// compare by [`prerelease_order`]. The raw text plays no part.
pub open spec fn version_order(a: VersionView, b: VersionView) -> Ordering {
    if a.major != b.major {
        u64_order(a.major, b.major)
    } else if a.minor != b.minor {
        u64_order(a.minor, b.minor)
    } else if a.patch != b.patch {
        u64_order(a.patch, b.patch)
    } else if a.revision != b.revision {
        u64_order(a.revision, b.revision)
    } else {
        match (a.prerelease, b.prerelease) {
            (None, None) => Ordering::Equal,
            (None, Some(_)) => Ordering::Greater,
            (Some(_), None) => Ordering::Less,
            (Some(x), Some(y)) => prerelease_order(x, y),
        }
    }
}

fn compare_u64(a: u64, b: u64) -> (r: Ordering)
    ensures
        r == u64_order(a, b),
{
    if a < b {
        Ordering::Less
    } else if a == b {
        Ordering::Equal
    } else {
        Ordering::Greater
    }
}

proof fn lemma_char_seq_order_skip(a: Seq<char>, b: Seq<char>, i: int)
    requires
        0 <= i < a.len(),
        i < b.len(),
        a[i] == b[i],
    ensures
        char_seq_order(a.skip(i), b.skip(i)) == char_seq_order(a.skip(i + 1), b.skip(i + 1)),
{
    assert(a.skip(i).drop_first() == a.skip(i + 1));
    assert(b.skip(i).drop_first() == b.skip(i + 1));
}

fn compare_chars(a: &Vec<char>, b: &Vec<char>) -> (r: Ordering)
    ensures
        r == char_seq_order(a@, b@),
{
    let mut i: usize = 0;
    assert(a@.skip(0) == a@);
    assert(b@.skip(0) == b@);
    while i < a.len() && i < b.len()
        invariant
            i <= a.len(),
            i <= b.len(),
            char_seq_order(a@, b@) == char_seq_order(a@.skip(int_of(i)), b@.skip(int_of(i))),
        decreases a.len() - i,
    {
        if a[i] < b[i] {
            return Ordering::Less;
        }
        if a[i] > b[i] {
            return Ordering::Greater;
        }
        proof {
            lemma_char_seq_order_skip(a@, b@, int_of(i));
        }
        i = i + 1;
    }
    if i < b.len() {
        Ordering::Less
    } else if i < a.len() {
        Ordering::Greater
    } else {
        Ordering::Equal
    }
}

fn compare_tokens(a: &Vec<char>, b: &Vec<char>) -> (r: Ordering)
    ensures
        r == token_order(a@, b@),
{
    match (parse_decimal_u64(a), parse_decimal_u64(b)) {
        (Some(x), Some(y)) => compare_u64(x, y),
        (Some(_), None) => Ordering::Less,
        (None, Some(_)) => Ordering::Greater,
        (None, None) => compare_chars(&to_ascii_lowercase(a), &to_ascii_lowercase(b)),
    }
}

/// Compares two prerelease labels: numbers by value, numbers before words,
/// words by their ASCII-lowercased text.
pub fn cmp_prerelease_token(a: &str, b: &str) -> (r: Ordering)
    ensures
        r == token_order(a@, b@),
{
    compare_tokens(&chars_of(a), &chars_of(b))
}

proof fn lemma_token_list_order_skip(a: Seq<Seq<char>>, b: Seq<Seq<char>>, i: int)
    requires
        0 <= i < a.len(),
        i < b.len(),
        token_order(a[i], b[i]) == Ordering::Equal,
    ensures
        token_list_order(a.skip(i), b.skip(i)) == token_list_order(a.skip(i + 1), b.skip(i + 1)),
{
    assert(a.skip(i).drop_first() == a.skip(i + 1));
    assert(b.skip(i).drop_first() == b.skip(i + 1));
}

fn compare_prerelease(a: &Vec<char>, b: &Vec<char>) -> (r: Ordering)
    ensures
        r == prerelease_order(a@, b@),
{
    let ta = split_on_char(a, '.');
    let tb = split_on_char(b, '.');
    let ghost sa = views(ta@);
    let ghost sb = views(tb@);
    assert(sa.skip(0) == sa);
    assert(sb.skip(0) == sb);
    let mut i: usize = 0;
    while i < ta.len() && i < tb.len()
        invariant
            i <= ta.len(),
            i <= tb.len(),
            sa == views(ta@),
            sb == views(tb@),
            prerelease_order(a@, b@) == token_list_order(sa.skip(int_of(i)), sb.skip(int_of(i))),
        decreases ta.len() - i,
    {
        let o = compare_tokens(&ta[i], &tb[i]);
        assert(sa.skip(int_of(i))[0] == ta@[int_of(i)]@);
        assert(sb.skip(int_of(i))[0] == tb@[int_of(i)]@);
        match o {
            Ordering::Equal => {},
            _ => {
                return o;
            },
        }
        proof {
            lemma_token_list_order_skip(sa, sb, int_of(i));
        }
        i = i + 1;
    }
    if i < tb.len() {
        Ordering::Less
    } else if i < ta.len() {
        Ordering::Greater
    } else {
        Ordering::Equal
    }
}

impl NuGetVersion {
    /// Three-way comparison in the order of [`version_order`].
    pub fn cmp(&self, other: &Self) -> (r: Ordering)
        ensures
            r == version_order(self@, other@),
    {
        if self.major != other.major {
            return compare_u64(self.major, other.major);
        }
        if self.minor != other.minor {
            return compare_u64(self.minor, other.minor);
        }
        if self.patch != other.patch {
            return compare_u64(self.patch, other.patch);
        }
        if self.revision != other.revision {
            return compare_u64(self.revision, other.revision);
        }
        match (&self.prerelease, &other.prerelease) {
            (None, None) => Ordering::Equal,
            (None, Some(_)) => Ordering::Greater,
            (Some(_), None) => Ordering::Less,
            (Some(a), Some(b)) => compare_prerelease(&chars_of(a.as_str()), &chars_of(b.as_str())),
        }
    }
}


/// The same comparison seen from the other side.
pub open spec fn flipped(o: Ordering) -> Ordering {
    match o {
        Ordering::Less => Ordering::Greater,
        Ordering::Equal => Ordering::Equal,
        Ordering::Greater => Ordering::Less,
    }
}

/// The three properties of a total preorder, for one comparison function.
pub open spec fn preorder_step(ab: Ordering, bc: Ordering, ac: Ordering) -> bool {
    &&& (ab != Ordering::Greater && bc != Ordering::Greater ==> ac != Ordering::Greater)
    &&& (ab == Ordering::Less && bc != Ordering::Greater ==> ac == Ordering::Less)
    &&& (ab != Ordering::Greater && bc == Ordering::Less ==> ac == Ordering::Less)
}

proof fn lemma_char_seq_order_laws(a: Seq<char>, b: Seq<char>, c: Seq<char>)
    ensures
        char_seq_order(a, a) == Ordering::Equal,
        char_seq_order(b, a) == flipped(char_seq_order(a, b)),
        preorder_step(char_seq_order(a, b), char_seq_order(b, c), char_seq_order(a, c)),
    decreases a.len(),
{
    if a.len() > 0 {
        lemma_char_seq_order_laws(a.drop_first(), b.drop_first(), c.drop_first());
        if b.len() > 0 {
            lemma_char_seq_order_laws(a.drop_first(), b.drop_first(), b.drop_first());
        }
    }
    if a.len() > 0 && b.len() == 0 {
        assert(char_seq_order(b, a) == Ordering::Less);
    }
}

proof fn lemma_token_order_laws(a: Seq<char>, b: Seq<char>, c: Seq<char>)
    ensures
        token_order(a, a) == Ordering::Equal,
        token_order(b, a) == flipped(token_order(a, b)),
        preorder_step(token_order(a, b), token_order(b, c), token_order(a, c)),
{
    lemma_char_seq_order_laws(ascii_lower(a), ascii_lower(b), ascii_lower(c));
}

proof fn lemma_token_list_order_laws(a: Seq<Seq<char>>, b: Seq<Seq<char>>, c: Seq<Seq<char>>)
    ensures
        token_list_order(a, a) == Ordering::Equal,
        token_list_order(b, a) == flipped(token_list_order(a, b)),
        preorder_step(token_list_order(a, b), token_list_order(b, c), token_list_order(a, c)),
    decreases a.len(),
{
    if a.len() > 0 {
        lemma_token_order_laws(a[0], a[0], a[0]);
        lemma_token_list_order_laws(a.drop_first(), a.drop_first(), a.drop_first());
        if b.len() > 0 {
            lemma_token_order_laws(a[0], b[0], b[0]);
            lemma_token_list_order_laws(a.drop_first(), b.drop_first(), b.drop_first());
            if c.len() > 0 {
                lemma_token_order_laws(a[0], b[0], c[0]);
                lemma_token_order_laws(b[0], c[0], a[0]);
                lemma_token_order_laws(c[0], a[0], b[0]);
                lemma_token_list_order_laws(a.drop_first(), b.drop_first(), c.drop_first());
            }
        }
    }
}

/// Every version compares equal to itself.
pub proof fn lemma_version_order_reflexive(a: VersionView)
    ensures
        version_order(a, a) == Ordering::Equal,
{
    if let Some(p) = a.prerelease {
        lemma_token_list_order_laws(split_on(p, '.'), split_on(p, '.'), split_on(p, '.'));
    }
}

/// Comparing the other way round gives the opposite answer.
pub proof fn lemma_version_order_antisymmetric(a: VersionView, b: VersionView)
    ensures
        version_order(b, a) == flipped(version_order(a, b)),
{
    if let (Some(p), Some(q)) = (a.prerelease, b.prerelease) {
        lemma_token_list_order_laws(split_on(p, '.'), split_on(q, '.'), split_on(q, '.'));
    }
}

/// The order is transitive: `a <= b <= c` gives `a <= c`, strictly when
/// either step is strict.
pub proof fn lemma_version_order_transitive(a: VersionView, b: VersionView, c: VersionView)
    ensures
        preorder_step(version_order(a, b), version_order(b, c), version_order(a, c)),
{
    if let (Some(p), Some(q), Some(r)) = (a.prerelease, b.prerelease, c.prerelease) {
        lemma_token_list_order_laws(split_on(p, '.'), split_on(q, '.'), split_on(r, '.'));
    }
}


impl PartialEq for NuGetVersion {
    fn eq(&self, other: &Self) -> (r: bool) {
        match self.cmp(other) {
            Ordering::Equal => true,
            _ => false,
        }
    }
}

impl vstd::std_specs::cmp::PartialEqSpecImpl for NuGetVersion {
    open spec fn obeys_eq_spec() -> bool {
        true
    }

    open spec fn eq_spec(&self, other: &Self) -> bool {
        version_order(self@, other@) == Ordering::Equal
    }
}

impl Eq for NuGetVersion {

}

impl PartialOrd for NuGetVersion {
    fn partial_cmp(&self, other: &Self) -> (r: Option<Ordering>) {
        Some(self.cmp(other))
    }
}

impl vstd::std_specs::cmp::PartialOrdSpecImpl for NuGetVersion {
    open spec fn obeys_partial_cmp_spec() -> bool {
        true
    }

    open spec fn partial_cmp_spec(&self, other: &Self) -> Option<Ordering> {
        Some(version_order(self@, other@))
    }
}

/// The contents of a list of versions.
pub open spec fn version_views(v: Seq<NuGetVersion>) -> Seq<VersionView> {
    v.map_values(|x: NuGetVersion| x@)
}

/// `i` is where `Iterator::max` stops: no version is above the one at `i`,
/// and every version after it is strictly below it (the last of equally
/// high versions wins).
pub open spec fn is_highest(vs: Seq<VersionView>, i: int) -> bool {
    &&& 0 <= i < vs.len()
    &&& forall|j: int| 0 <= j < vs.len() ==> version_order(#[trigger] vs[j], vs[i]) != Ordering::Greater
    &&& forall|j: int| i < j < vs.len() ==> version_order(#[trigger] vs[j], vs[i]) == Ordering::Less
}

/// The index of the highest version, the last one among equals; `None` for an
/// empty list.
pub fn highest_version(versions: &Vec<NuGetVersion>) -> (r: Option<usize>)
    ensures
        r is None <==> versions@.len() == 0,
        r matches Some(i) ==> is_highest(version_views(versions@), int_of(i)),
{
    if versions.len() == 0 {
        return None;
    }
    let ghost vs = version_views(versions@);
    let mut best: usize = 0;
    proof {
        lemma_version_order_reflexive(vs[0]);
    }
    for i in 1..versions.len()
        invariant
            vs == version_views(versions@),
            vs.len() == versions@.len(),
            best < i,
            is_highest(vs.take(int_of(i)), int_of(best)),
    {
        let o = versions[i].cmp(&versions[best]);
        let ghost prefix = vs.take(int_of(i));
        let ghost grown = vs.take(i + 1);
        assert(grown[int_of(i)] == vs[int_of(i)]);
        assert(vs[int_of(i)] == versions@[int_of(i)]@);
        assert(vs[int_of(best)] == versions@[int_of(best)]@);
        match o {
            Ordering::Less => {
                assert forall|j: int| 0 <= j < grown.len() implies version_order(
                    #[trigger] grown[j],
                    grown[int_of(best)],
                ) != Ordering::Greater by {
                    if j < i {
                        assert(grown[j] == prefix[j]);
                    }
                }
                assert forall|j: int| best < j < grown.len() implies version_order(
                    #[trigger] grown[j],
                    grown[int_of(best)],
                ) == Ordering::Less by {
                    if j < i {
                        assert(grown[j] == prefix[j]);
                    }
                }
            },
            _ => {
                proof {
                    lemma_version_order_reflexive(vs[int_of(i)]);
                }
                assert forall|j: int| 0 <= j < grown.len() implies version_order(
                    #[trigger] grown[j],
                    grown[int_of(i)],
                ) != Ordering::Greater by {
                    if j < i {
                        assert(grown[j] == prefix[j]);
                        lemma_version_order_transitive(grown[j], vs[int_of(best)], vs[int_of(i)]);
                        lemma_version_order_antisymmetric(vs[int_of(i)], vs[int_of(best)]);
                    }
                }
                best = i;
            },
        }
    }
    assert(vs.take(int_of(versions.len())) == vs);
    Some(best)
}

/// Two indices that both satisfy [`is_highest`] are the same index.
pub proof fn lemma_highest_unique(vs: Seq<VersionView>, i: int, j: int)
    requires
        is_highest(vs, i),
        is_highest(vs, j),
    ensures
        i == j,
{
    if i < j {
        assert(version_order(vs[j], vs[i]) == Ordering::Less);
        assert(version_order(vs[i], vs[j]) != Ordering::Greater);
        lemma_version_order_antisymmetric(vs[i], vs[j]);
    } else if j < i {
        assert(version_order(vs[i], vs[j]) == Ordering::Less);
        assert(version_order(vs[j], vs[i]) != Ordering::Greater);
        lemma_version_order_antisymmetric(vs[j], vs[i]);
    }
}


/// A prerelease comes before the release with the same numbers.
pub proof fn lemma_prerelease_below_release(a: VersionView, b: VersionView)
    requires
        a.major == b.major,
        a.minor == b.minor,
        a.patch == b.patch,
        a.revision == b.revision,
        a.prerelease is Some,
        b.prerelease is None,
    ensures
        version_order(a, b) == Ordering::Less,
{
}

proof fn lemma_common_labels_then_last(p: Seq<Seq<char>>, x: Seq<char>, y: Seq<char>)
    ensures
        token_list_order(p.push(x), p.push(y)) == token_order(x, y),
    decreases p.len(),
{
    if p.len() == 0 {
        assert(p.push(x).drop_first() =~= Seq::<Seq<char>>::empty());
        assert(p.push(y).drop_first() =~= Seq::<Seq<char>>::empty());
    } else {
        lemma_token_order_laws(p[0], p[0], p[0]);
        assert(p.push(x).drop_first() =~= p.drop_first().push(x));
        assert(p.push(y).drop_first() =~= p.drop_first().push(y));
        lemma_common_labels_then_last(p.drop_first(), x, y);
    }
}

/// The labels before the last one in a prerelease that is `head` followed by
/// a last label: none when `head` is empty, else those of `head` without its
/// final dot.
spec fn labels_before(head: Seq<char>) -> Seq<Seq<char>> {
    if head.len() == 0 {
        Seq::empty()
    } else {
        split_on(head.drop_last(), '.')
    }
}

proof fn lemma_split_after_head(head: Seq<char>, x: Seq<char>)
    requires
        head.len() == 0 || head.last() == '.',
        !x.contains('.'),
    ensures
        split_on(head + x, '.') == labels_before(head).push(x),
{
    if head.len() == 0 {
        assert(head + x =~= Seq::<char>::empty() + x);
        lemma_split_on_append_plain(Seq::<char>::empty(), x, '.');
        assert(Seq::<char>::empty() + x =~= x);
        assert(seq![Seq::<char>::empty()].update(0, x) =~= Seq::<Seq<char>>::empty().push(x));
    } else {
        let label = head.drop_last();
        assert(head =~= label + seq!['.']);
        lemma_split_on_last_piece(label, x, '.');
    }
}

proof fn lemma_digits_free_of_dot(x: Seq<char>)
    requires
        all_digits(x),
    ensures
        !x.contains('.'),
{
    if x.contains('.') {
        let i = choose|i: int| 0 <= i < x.len() && x[i] == '.';
        assert(crate::text::is_digit(x[i]));
    }
}

/// Prerelease labels compare label by label, and a numeric label by its
/// value, not its text: with equal numbers and the same labels before a last,
/// numeric one, the versions compare as the numbers of that last label do,
/// so `beta.2` comes before `beta.10`, and `2` before `10`.
pub proof fn lemma_numeric_labels_by_value(
    a: VersionView,
    b: VersionView,
    head: Seq<char>,
    x: Seq<char>,
    y: Seq<char>,
)
    requires
        a.major == b.major,
        a.minor == b.minor,
        a.patch == b.patch,
        a.revision == b.revision,
        head.len() == 0 || head.last() == '.',
        a.prerelease == Some(head + x),
        b.prerelease == Some(head + y),
        x.len() > 0,
        y.len() > 0,
        all_digits(x),
        all_digits(y),
        digits_value(x) <= u64::MAX,
        digits_value(y) <= u64::MAX,
    ensures
        (version_order(a, b) == Ordering::Less) == (digits_value(x) < digits_value(y)),
        (version_order(a, b) == Ordering::Equal) == (digits_value(x) == digits_value(y)),
        (version_order(a, b) == Ordering::Greater) == (digits_value(x) > digits_value(y)),
{
    lemma_digits_free_of_dot(x);
    lemma_digits_free_of_dot(y);
    assert(crate::text::is_digit(x[0]));
    assert(crate::text::is_digit(y[0]));
    lemma_split_after_head(head, x);
    lemma_split_after_head(head, y);
    lemma_common_labels_then_last(labels_before(head), x, y);
    assert(decimal_u64(x) is Some && decimal_u64(x).unwrap() == digits_value(x));
    assert(decimal_u64(y) is Some && decimal_u64(y).unwrap() == digits_value(y));
}

/// A numeric label comes before a label with a letter in it: with equal
/// numbers and the same labels before, `beta.2` comes before `beta.rc`.
pub proof fn lemma_numeric_label_before_word(
    a: VersionView,
    b: VersionView,
    head: Seq<char>,
    x: Seq<char>,
    y: Seq<char>,
    k: int,
)
    requires
        a.major == b.major,
        a.minor == b.minor,
        a.patch == b.patch,
        a.revision == b.revision,
        head.len() == 0 || head.last() == '.',
        a.prerelease == Some(head + x),
        b.prerelease == Some(head + y),
        x.len() > 0,
        all_digits(x),
        digits_value(x) <= u64::MAX,
        !y.contains('.'),
        0 <= k < y.len(),
        !crate::text::is_digit(y[k]),
        y[k] != '+',
    ensures
        version_order(a, b) == Ordering::Less,
{
    lemma_digits_free_of_dot(x);
    assert(crate::text::is_digit(x[0]));
    lemma_split_after_head(head, x);
    lemma_split_after_head(head, y);
    lemma_common_labels_then_last(labels_before(head), x, y);
    assert(decimal_u64(x) is Some);
    if y[0] == '+' {
        assert(k > 0);
        assert(y.drop_first()[k - 1] == y[k]);
    }
    assert(decimal_u64(y) is None);
}

proof fn lemma_prefix_labels_first(p: Seq<Seq<char>>, x: Seq<char>)
    ensures
        token_list_order(p, p.push(x)) == Ordering::Less,
    decreases p.len(),
{
    if p.len() > 0 {
        lemma_token_order_laws(p[0], p[0], p[0]);
        assert(p.push(x).drop_first() =~= p.drop_first().push(x));
        lemma_prefix_labels_first(p.drop_first(), x);
    }
}

/// With equal numbers, a prerelease comes before one that adds labels to it:
/// `beta` comes before `beta.1`.
pub proof fn lemma_fewer_labels_first(a: VersionView, b: VersionView, label: Seq<char>, x: Seq<char>)
    requires
        a.major == b.major,
        a.minor == b.minor,
        a.patch == b.patch,
        a.revision == b.revision,
        a.prerelease == Some(label),
        b.prerelease == Some(label + seq!['.'] + x),
        !x.contains('.'),
    ensures
        version_order(a, b) == Ordering::Less,
{
    lemma_split_on_last_piece(label, x, '.');
    lemma_prefix_labels_first(split_on(label, '.'), x);
}

/// Word labels ignore ASCII case: with equal numbers and the same labels
/// before, `beta.RC` and `beta.rc` compare equal.
pub proof fn lemma_word_labels_ignore_case(
    a: VersionView,
    b: VersionView,
    head: Seq<char>,
    x: Seq<char>,
    y: Seq<char>,
    k: int,
)
    requires
        a.major == b.major,
        a.minor == b.minor,
        a.patch == b.patch,
        a.revision == b.revision,
        head.len() == 0 || head.last() == '.',
        a.prerelease == Some(head + x),
        b.prerelease == Some(head + y),
        !x.contains('.'),
        !y.contains('.'),
        ascii_lower(x) == ascii_lower(y),
        0 <= k < x.len(),
        !crate::text::is_digit(x[k]),
        x[k] != '+',
    ensures
        version_order(a, b) == Ordering::Equal,
{
    lemma_split_after_head(head, x);
    lemma_split_after_head(head, y);
    lemma_common_labels_then_last(labels_before(head), x, y);
    if x[0] == '+' {
        assert(k > 0);
        assert(x.drop_first()[k - 1] == x[k]);
    }
    assert(decimal_u64(x) is None);
    assert(x.len() == ascii_lower(x).len());
    assert(ascii_lower(x)[k] == crate::text::ascii_lower_char(x[k]));
    assert(y.len() == x.len());
    assert(ascii_lower(y)[k] == crate::text::ascii_lower_char(y[k]));
    assert(!crate::text::is_digit(y[k]) && y[k] != '+');
    if y[0] == '+' {
        assert(k > 0);
        assert(y.drop_first()[k - 1] == y[k]);
    }
    assert(decimal_u64(y) is None);
    lemma_char_seq_order_laws(ascii_lower(x), ascii_lower(x), ascii_lower(x));
}

} // verus!
