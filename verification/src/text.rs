//! Text primitives on which the configuration and the prompts rest: white
//! space, trimming, splitting into words, splitting at a delimiter, and
//! decimal numbers.
use vstd::prelude::*;
use vstd::string::StrSliceExecFns;

verus! {

/// The Unicode `White_Space` property, the set of characters that
/// `char::is_whitespace` and `str::trim` treat as blank.
pub open spec fn is_white_space(c: char) -> bool {
    ||| c == '\t' || c == '\n' || c == '\u{0B}' || c == '\u{0C}' || c == '\r'
    ||| c == ' ' || c == '\u{85}' || c == '\u{A0}' || c == '\u{1680}'
    ||| ('\u{2000}' <= c && c <= '\u{200A}')
    ||| c == '\u{2028}' || c == '\u{2029}' || c == '\u{202F}' || c == '\u{205F}'
    ||| c == '\u{3000}'
}

/// Every character of `s` is white space (the empty text included).
pub open spec fn all_white(s: Seq<char>) -> bool {
    forall|k: int| 0 <= k < s.len() ==> is_white_space(#[trigger] s[k])
}

/// No character of `s` is white space.
pub open spec fn no_white(s: Seq<char>) -> bool {
    forall|k: int| 0 <= k < s.len() ==> !is_white_space(#[trigger] s[k])
}

/// The index of the first character at or after `i` that is not white space,
/// or the length of `s` when there is none.
pub open spec fn first_non_white(s: Seq<char>, i: nat) -> nat
    decreases s.len() - i,
{
    if i >= s.len() {
        s.len()
    } else if !is_white_space(s[i as int]) {
        i
    } else {
        first_non_white(s, i + 1)
    }
}

/// The index of the first white-space character at or after `i`, or the
/// length of `s` when there is none.
pub open spec fn first_white(s: Seq<char>, i: nat) -> nat
    decreases s.len() - i,
{
    if i >= s.len() {
        s.len()
    } else if is_white_space(s[i as int]) {
        i
    } else {
        first_white(s, i + 1)
    }
}

/// The end of `s.take(j)` once its trailing white space is dropped.
pub open spec fn end_non_white(s: Seq<char>, j: nat) -> nat
    decreases j,
{
    if j == 0 {
        0
    } else if !is_white_space(s[j - 1]) {
        j
    } else {
        end_non_white(s, (j - 1) as nat)
    }
}

/// `s` without its leading and trailing white space, as `str::trim` gives it.
pub open spec fn trimmed(s: Seq<char>) -> Seq<char> {
    let a = first_non_white(s, 0);
    if a >= s.len() {
        Seq::empty()
    } else {
        s.subrange(a as int, end_non_white(s, s.len()) as int)
    }
}

/// The words of `s` from index `i` on, as `str::split_whitespace` yields
/// them: skip white space, take the run of other characters up to the next
/// white space, and go on from there.
pub open spec fn words_from(s: Seq<char>, i: nat) -> Seq<Seq<char>>
    decreases s.len() - i,
{
    let a = first_non_white(s, i);
    if a >= s.len() {
        Seq::empty()
    } else {
        let b = first_white(s, a);
        proof {
            lemma_first_non_white_bounds(s, i);
            lemma_first_white_bounds(s, a);
        }
        seq![s.subrange(a as int, b as int)] + words_from(s, b)
    }
}

/// The words of `s`.
pub open spec fn words(s: Seq<char>) -> Seq<Seq<char>> {
    words_from(s, 0)
}

/// The index of the first occurrence of `c` in `s` at or after `i`.
pub open spec fn find_char(s: Seq<char>, c: char, i: nat) -> Option<nat>
    decreases s.len() - i,
{
    if i >= s.len() {
        None
    } else if s[i as int] == c {
        Some(i)
    } else {
        find_char(s, c, i + 1)
    }
}

/// What `str::split_once` gives for a single-character delimiter: the text
/// before its first occurrence and the text after it.
pub open spec fn split_once_spec(s: Seq<char>, c: char) -> Option<(Seq<char>, Seq<char>)> {
    match find_char(s, c, 0) {
        Some(k) => Some((s.subrange(0, k as int), s.subrange(k + 1int, s.len() as int))),
        None => None,
    }
}

/// The character of a decimal digit.
pub open spec fn digit_char(d: nat) -> char {
    if d == 0 {
        '0'
    } else if d == 1 {
        '1'
    } else if d == 2 {
        '2'
    } else if d == 3 {
        '3'
    } else if d == 4 {
        '4'
    } else if d == 5 {
        '5'
    } else if d == 6 {
        '6'
    } else if d == 7 {
        '7'
    } else if d == 8 {
        '8'
    } else {
        '9'
    }
}

/// The decimal representation of `n`, without sign or leading zeros, as
/// `Display` writes an unsigned integer.
pub open spec fn decimal(n: nat) -> Seq<char>
    decreases n,
{
    if n < 10 {
        seq![digit_char(n)]
    } else {
        decimal(n / 10).push(digit_char(n % 10))
    }
}

pub proof fn lemma_first_non_white_bounds(s: Seq<char>, i: nat)
    ensures
        i <= s.len() ==> i <= first_non_white(s, i) <= s.len(),
        i > s.len() ==> first_non_white(s, i) == s.len(),
        first_non_white(s, i) < s.len() ==> !is_white_space(s[first_non_white(s, i) as int]),
        forall|k: int| i <= k < first_non_white(s, i) ==> is_white_space(#[trigger] s[k]),
    decreases s.len() - i,
{
    if i < s.len() && is_white_space(s[i as int]) {
        lemma_first_non_white_bounds(s, i + 1);
    }
}

pub proof fn lemma_first_white_bounds(s: Seq<char>, i: nat)
    ensures
        i <= s.len() ==> i <= first_white(s, i) <= s.len(),
        i > s.len() ==> first_white(s, i) == s.len(),
        first_white(s, i) < s.len() ==> is_white_space(s[first_white(s, i) as int]),
        forall|k: int| i <= k < first_white(s, i) ==> !is_white_space(#[trigger] s[k]),
    decreases s.len() - i,
{
    if i < s.len() && !is_white_space(s[i as int]) {
        lemma_first_white_bounds(s, i + 1);
    }
}

pub proof fn lemma_end_non_white_bounds(s: Seq<char>, j: nat)
    requires
        j <= s.len(),
    ensures
        end_non_white(s, j) <= j,
        end_non_white(s, j) > 0 ==> !is_white_space(s[end_non_white(s, j) - 1]),
        forall|k: int| end_non_white(s, j) <= k < j ==> is_white_space(#[trigger] s[k]),
    decreases j,
{
    if j > 0 && is_white_space(s[j - 1]) {
        lemma_end_non_white_bounds(s, (j - 1) as nat);
    }
}

proof fn lemma_end_non_white_past(s: Seq<char>, j: nat, a: nat)
    requires
        a < j <= s.len(),
        !is_white_space(s[a as int]),
    ensures
        a < end_non_white(s, j),
    decreases j,
{
    if is_white_space(s[j - 1]) {
        lemma_end_non_white_past(s, (j - 1) as nat, a);
    }
}

/// Whether `c` is white space, exactly as `char::is_whitespace` decides it.
pub fn is_whitespace(c: char) -> (r: bool)
    ensures
        r == is_white_space(c),
{
    c == '\t' || c == '\n' || c == '\u{0B}' || c == '\u{0C}' || c == '\r' || c == ' '
        || c == '\u{85}' || c == '\u{A0}' || c == '\u{1680}' || ('\u{2000}' <= c && c
        <= '\u{200A}') || c == '\u{2028}' || c == '\u{2029}' || c == '\u{202F}' || c
        == '\u{205F}' || c == '\u{3000}'
}

/// `s` without its leading and trailing white space.
pub fn trim(s: &str) -> (r: &str)
    ensures
        r@ == trimmed(s@),
{
    let n = s.unicode_len();
    let mut i: usize = 0;
    while i < n && is_whitespace(s.get_char(i))
        invariant
            n == s@.len(),
            i <= n,
            first_non_white(s@, 0) == first_non_white(s@, i as nat),
        decreases n - i,
    {
        i = i + 1;
    }
    if i == n {
        return s.substring_char(n, n);
    }
    let mut j: usize = n;
    while j > i && is_whitespace(s.get_char(j - 1))
        invariant
            n == s@.len(),
            i < n,
            !is_white_space(s@[i as int]),
            i < j <= n,
            end_non_white(s@, n as nat) == end_non_white(s@, j as nat),
        decreases j,
    {
        j = j - 1;
    }
    s.substring_char(i, j)
}

/// Whether `s` holds nothing but white space, that is whether
/// `s.trim().is_empty()`.
pub fn is_blank(s: &str) -> (r: bool)
    ensures
        r == all_white(s@),
{
    let n = s.unicode_len();
    let mut i: usize = 0;
    while i < n
        invariant
            n == s@.len(),
            i <= n,
            forall|k: int| 0 <= k < i ==> is_white_space(#[trigger] s@[k]),
        decreases n - i,
    {
        if !is_whitespace(s.get_char(i)) {
            return false;
        }
        i = i + 1;
    }
    true
}

/// The words of `s`, as `s.split_whitespace()` yields them.
pub fn split_whitespace(s: &str) -> (r: Vec<String>)
    ensures
        r@.map_values(|w: String| w@) == words(s@),
{
    let n = s.unicode_len();
    let mut out: Vec<String> = Vec::new();
    let mut i: usize = 0;
    while i < n
        invariant
            n == s@.len(),
            i <= n,
            words(s@) == out@.map_values(|w: String| w@) + words_from(s@, i as nat),
        decreases n - i,
    {
        let ghost start = i;
        while i < n && is_whitespace(s.get_char(i))
            invariant
                n == s@.len(),
                start <= i <= n,
                first_non_white(s@, start as nat) == first_non_white(s@, i as nat),
            decreases n - i,
        {
            i = i + 1;
        }
        if i == n {
            assert(words_from(s@, start as nat) =~= Seq::<Seq<char>>::empty());
            assert(out@.map_values(|w: String| w@) + Seq::<Seq<char>>::empty() =~= out@.map_values(
                |w: String| w@,
            ));
            return out;
        }
        let a = i;
        while i < n && !is_whitespace(s.get_char(i))
            invariant
                n == s@.len(),
                a <= i <= n,
                first_white(s@, a as nat) == first_white(s@, i as nat),
            decreases n - i,
        {
            i = i + 1;
        }
        let word = s.substring_char(a, i).to_owned();
        let ghost before = out@.map_values(|w: String| w@);
        out.push(word);
        assert(out@.map_values(|w: String| w@) =~= before.push(word@));
        assert(words_from(s@, start as nat) == seq![s@.subrange(a as int, i as int)]
            + words_from(s@, i as nat));
        assert(before + words_from(s@, start as nat) =~= before.push(word@) + words_from(
            s@,
            i as nat,
        ));
    }
    assert(words_from(s@, n as nat) =~= Seq::<Seq<char>>::empty());
    assert(out@.map_values(|w: String| w@) + Seq::<Seq<char>>::empty() =~= out@.map_values(
        |w: String| w@,
    ));
    out
}

/// The index of the first `c` in `s`, if any.
pub fn find(s: &str, c: char) -> (r: Option<usize>)
    ensures
        r matches Some(k) ==> find_char(s@, c, 0) == Some(k as nat),
        r is None ==> find_char(s@, c, 0) is None,
{
    let n = s.unicode_len();
    let mut i: usize = 0;
    while i < n
        invariant
            n == s@.len(),
            i <= n,
            find_char(s@, c, 0) == find_char(s@, c, i as nat),
        decreases n - i,
    {
        if s.get_char(i) == c {
            return Some(i);
        }
        i = i + 1;
    }
    None
}

/// The text before the first `c` in `s` and the text after it, as
/// `s.split_once(c)` gives them.
pub fn split_once(s: &str, c: char) -> (r: Option<(&str, &str)>)
    ensures
        r matches Some(p) ==> split_once_spec(s@, c) == Some((p.0@, p.1@)),
        r is None ==> split_once_spec(s@, c) is None,
{
    match find(s, c) {
        Some(k) => {
            proof {
                lemma_find_char_bounds(s@, c, 0);
            }
            let n = s.unicode_len();
            Some((s.substring_char(0, k), s.substring_char(k + 1, n)))
        },
        None => None,
    }
}

pub proof fn lemma_find_char_bounds(s: Seq<char>, c: char, i: nat)
    ensures
        find_char(s, c, i) matches Some(k) ==> i <= k < s.len() && s[k as int] == c && forall|
            m: int,
        |
            i <= m < k ==> #[trigger] s[m] != c,
        find_char(s, c, i) is None ==> forall|m: int| i <= m < s.len() ==> #[trigger] s[m] != c,
    decreases s.len() - i,
{
    if i < s.len() && s[i as int] != c {
        lemma_find_char_bounds(s, c, i + 1);
    }
}

/// Appends `c` to `s`.
#[verifier::external_body]
pub(crate) fn push_char(s: &mut String, c: char)
    ensures
        final(s)@ == old(s)@.push(c),
{
    s.push(c);
}

/// The character of the decimal digit `d`.
fn digit(d: u64) -> (c: char)
    requires
        d < 10,
    ensures
        c == digit_char(d as nat),
{
    if d == 0 {
        '0'
    } else if d == 1 {
        '1'
    } else if d == 2 {
        '2'
    } else if d == 3 {
        '3'
    } else if d == 4 {
        '4'
    } else if d == 5 {
        '5'
    } else if d == 6 {
        '6'
    } else if d == 7 {
        '7'
    } else if d == 8 {
        '8'
    } else {
        '9'
    }
}

/// `n` written in decimal, as `n.to_string()` writes it.
pub fn decimal_string(n: u64) -> (r: String)
    ensures
        r@ == decimal(n as nat),
    decreases n,
{
    if n < 10 {
        let mut s = String::new();
        push_char(&mut s, digit(n));
        assert(s@ =~= seq![digit_char(n as nat)]);
        s
    } else {
        let mut s = decimal_string(n / 10);
        push_char(&mut s, digit(n % 10));
        s
    }
}

/// `count` copies of `c`.
pub fn repeat_char(c: char, count: usize) -> (r: String)
    ensures
        r@ == Seq::new(count as nat, |k: int| c),
{
    let mut s = String::new();
    let mut i: usize = 0;
    while i < count
        invariant
            i <= count,
            s@ == Seq::new(i as nat, |k: int| c),
        decreases count - i,
    {
        push_char(&mut s, c);
        i = i + 1;
        assert(s@ =~= Seq::new(i as nat, |k: int| c));
    }
    s
}

/// Text that is trimmed stays as it is when trimmed again.
pub proof fn law_trim_idempotent(s: Seq<char>)
    ensures
        trimmed(trimmed(s)) == trimmed(s),
{
    let a = first_non_white(s, 0);
    lemma_first_non_white_bounds(s, 0);
    if a < s.len() {
        let b = end_non_white(s, s.len());
        lemma_end_non_white_bounds(s, s.len());
        lemma_end_non_white_past(s, s.len(), a);
        let t = s.subrange(a as int, b as int);
        assert(!is_white_space(t[0]));
        assert(first_non_white(t, 0) == 0);
        assert(!is_white_space(t[t.len() - 1]));
        assert(end_non_white(t, t.len()) == t.len());
        assert(t.subrange(0, t.len() as int) =~= t);
    } else {
        assert(first_non_white(Seq::<char>::empty(), 0) == 0);
    }
}

/// A text trims to nothing exactly when it holds nothing but white space.
pub proof fn law_blank_iff_trims_empty(s: Seq<char>)
    ensures
        all_white(s) <==> trimmed(s).len() == 0,
{
    lemma_first_non_white_bounds(s, 0);
    let a = first_non_white(s, 0);
    if a < s.len() {
        lemma_end_non_white_bounds(s, s.len());
        lemma_end_non_white_past(s, s.len(), a);
        assert(!is_white_space(s[a as int]));
    } else {
        assert forall|k: int| 0 <= k < s.len() implies is_white_space(#[trigger] s[k]) by {}
    }
}

/// Each word of a text is non-empty and holds no white space.
pub proof fn law_words_are_nonblank(s: Seq<char>)
    ensures
        forall|k: int|
            0 <= k < words(s).len() ==> (#[trigger] words(s)[k]).len() > 0 && no_white(
                words(s)[k],
            ),
{
    lemma_words_from_nonblank(s, 0);
}

proof fn lemma_words_from_nonblank(s: Seq<char>, i: nat)
    ensures
        forall|k: int|
            0 <= k < words_from(s, i).len() ==> (#[trigger] words_from(s, i)[k]).len() > 0
                && no_white(words_from(s, i)[k]),
    decreases s.len() - i,
{
    let a = first_non_white(s, i);
    lemma_first_non_white_bounds(s, i);
    if a < s.len() {
        let b = first_white(s, a);
        lemma_first_white_bounds(s, a);
        lemma_words_from_nonblank(s, b);
        let w = s.subrange(a as int, b as int);
        assert(no_white(w));
        let rest = words_from(s, b);
        assert(words_from(s, i) == seq![w] + rest);
        assert forall|k: int| 0 <= k < words_from(s, i).len() implies (#[trigger] words_from(
            s,
            i,
        )[k]).len() > 0 && no_white(words_from(s, i)[k]) by {
            if k > 0 {
                assert(words_from(s, i)[k] == rest[k - 1]);
            }
        }
    }
}

/// Whether `a` and `b` hold the same characters.
pub fn same_text(a: &str, b: &str) -> (r: bool)
    ensures
        r == (a@ == b@),
{
    let n = a.unicode_len();
    if n != b.unicode_len() {
        return false;
    }
    let mut i: usize = 0;
    while i < n
        invariant
            n == a@.len(),
            n == b@.len(),
            i <= n,
            forall|k: int| 0 <= k < i ==> a@[k] == b@[k],
        decreases n - i,
    {
        if a.get_char(i) != b.get_char(i) {
            return false;
        }
        i = i + 1;
    }
    assert(a@ =~= b@);
    true
}

/// What `str::to_uppercase` gives for a text: its upper-case form under the
/// Unicode case mappings of the standard library.
pub uninterp spec fn upper_case(s: Seq<char>) -> Seq<char>;

/// What `str::to_lowercase` gives for a text: its lower-case form under the
/// Unicode case mappings of the standard library.
pub uninterp spec fn lower_case(s: Seq<char>) -> Seq<char>;

/// `s.to_uppercase()`. Its result is a function of `s` alone, named
/// `upper_case`; nothing more is claimed of it here.
#[verifier::external_body]
pub(crate) fn to_uppercase(s: &str) -> (r: String)
    ensures
        r@ == upper_case(s@),
{
    s.to_uppercase()
}

/// `s.to_lowercase()`. Its result is a function of `s` alone, named
/// `lower_case`; nothing more is claimed of it here.
#[verifier::external_body]
pub(crate) fn to_lowercase(s: &str) -> (r: String)
    ensures
        r@ == lower_case(s@),
{
    s.to_lowercase()
}

/// Words joined with single spaces.
pub open spec fn join_words(ws: Seq<Seq<char>>) -> Seq<char>
    decreases ws.len(),
{
    if ws.len() == 0 {
        Seq::empty()
    } else if ws.len() == 1 {
        ws[0]
    } else {
        ws[0] + seq![' '] + join_words(ws.drop_first())
    }
}

proof fn lemma_first_non_white_shift(s: Seq<char>, d: nat, i: nat)
    requires
        d <= i <= s.len(),
    ensures
        first_non_white(s, i) == first_non_white(s.subrange(d as int, s.len() as int), (i - d) as nat)
            + d,
    decreases s.len() - i,
{
    let t = s.subrange(d as int, s.len() as int);
    if i < s.len() {
        assert(t[i - d] == s[i as int]);
        if is_white_space(s[i as int]) {
            lemma_first_non_white_shift(s, d, i + 1);
            assert((i + 1 - d) as nat == (i - d) as nat + 1);
        }
    }
}

proof fn lemma_first_white_shift(s: Seq<char>, d: nat, i: nat)
    requires
        d <= i <= s.len(),
    ensures
        first_white(s, i) == first_white(s.subrange(d as int, s.len() as int), (i - d) as nat) + d,
    decreases s.len() - i,
{
    let t = s.subrange(d as int, s.len() as int);
    if i < s.len() {
        assert(t[i - d] == s[i as int]);
        if !is_white_space(s[i as int]) {
            lemma_first_white_shift(s, d, i + 1);
            assert((i + 1 - d) as nat == (i - d) as nat + 1);
        }
    }
}

/// The words of `s` from `i` on are the words of the text from `d` on,
/// counted from `i - d`.
proof fn lemma_words_from_shift(s: Seq<char>, d: nat, i: nat)
    requires
        d <= i <= s.len(),
    ensures
        words_from(s, i) == words_from(s.subrange(d as int, s.len() as int), (i - d) as nat),
    decreases s.len() - i,
{
    let t = s.subrange(d as int, s.len() as int);
    let a = first_non_white(s, i);
    lemma_first_non_white_shift(s, d, i);
    lemma_first_non_white_bounds(s, i);
    if a < s.len() {
        let b = first_white(s, a);
        lemma_first_white_shift(s, d, a);
        lemma_first_white_bounds(s, a);
        lemma_words_from_shift(s, d, b);
        assert(s.subrange(a as int, b as int) =~= t.subrange(a - d, b - d));
        assert((a - d) as nat == first_non_white(t, (i - d) as nat));
        assert((b - d) as nat == first_white(t, (a - d) as nat));
    }
}

/// Splitting words that were joined with single spaces gives them back, when
/// each is non-empty and holds no white space.
pub proof fn law_split_of_joined_words(ws: Seq<Seq<char>>)
    requires
        forall|k: int| 0 <= k < ws.len() ==> (#[trigger] ws[k]).len() > 0 && no_white(ws[k]),
    ensures
        words(join_words(ws)) == ws,
    decreases ws.len(),
{
    let s = join_words(ws);
    if ws.len() == 0 {
        assert(words(s) =~= ws);
    } else {
        let w = ws[0];
        assert(w.len() > 0 && no_white(w));
        assert(!is_white_space(s[0])) by {
            if ws.len() > 1 {
                assert(s[0] == w[0]);
            }
        }
        assert(first_non_white(s, 0) == 0);
        if ws.len() == 1 {
            assert(s == w);
            assert(s.subrange(0, w.len() as int) =~= w);
            lemma_first_white_run(s, w, 0);
            assert(first_white(s, 0) == s.len());
            assert(s.subrange(0, s.len() as int) =~= s);
            assert(words_from(s, s.len()) =~= Seq::<Seq<char>>::empty());
            assert(words(s) =~= ws);
        } else {
            let rest = ws.drop_first();
            let r = join_words(rest);
            assert(s == w + seq![' '] + r);
            assert(s.subrange(0, w.len() as int) =~= w);
            lemma_first_white_run(s, w, 0);
            assert(s[w.len() as int] == ' ');
            assert(first_white(s, 0) == w.len());
            assert(s.subrange(0, w.len() as int) =~= w);
            assert(forall|k: int| 0 <= k < rest.len() ==> #[trigger] rest[k] == ws[k + 1]);
            law_split_of_joined_words(rest);
            let n = w.len();
            assert(first_non_white(s, n) == first_non_white(s, n + 1));
            assert(words_from(s, n) == words_from(s, n + 1));
            lemma_words_from_shift(s, n + 1, n + 1);
            assert(s.subrange((n + 1) as int, s.len() as int) =~= r);
            assert(words(s) == seq![w] + words(r));
            assert(words(s) =~= ws);
        }
    }
}

/// In a text that starts with the run of non-white characters `w`, the first
/// white space at or after `i` comes no earlier than the end of `w`.
proof fn lemma_first_white_run(s: Seq<char>, w: Seq<char>, i: nat)
    requires
        w.len() <= s.len(),
        s.subrange(0, w.len() as int) == w,
        no_white(w),
        i <= w.len(),
    ensures
        first_white(s, i) == first_white(s, w.len()),
    decreases w.len() - i,
{
    if i < w.len() {
        assert(s[i as int] == w[i as int]);
        lemma_first_white_run(s, w, i + 1);
    }
}

} // verus!
