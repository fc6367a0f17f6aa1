//! Character-level string helpers shared by the bridge, the registries and the
//! scaffolding generators.
//!
//! Strings are modelled by their view, a `Seq<char>`.  Unicode case
//! mappings come from `char`'s and `str`'s own methods in std, each through
//! one wrapper, and are named here; the `White_Space` property is short
//! enough to be stated and tested directly.
use vstd::prelude::*;

verus! {

broadcast use vstd::string::group_string_axioms;

// ---------------------------------------------------------------------------
// Unicode character properties (std)
// ---------------------------------------------------------------------------

/// Whether `c` has the Unicode `Uppercase` property (std's `char::is_uppercase`).
pub uninterp spec fn is_uppercase_char(c: char) -> bool;

/// The first character of the Unicode lowercase mapping of `c`
/// (std's `char::to_lowercase`, which always yields at least one character).
pub uninterp spec fn lowercase_first(c: char) -> char;

/// The Unicode uppercase mapping of `c` (std's `char::to_uppercase`).
pub uninterp spec fn uppercase_of(c: char) -> Seq<char>;

/// Whether `c` has the Unicode `White_Space` property (std's
/// `char::is_whitespace`): U+0009 to U+000D, U+0020, U+0085, U+00A0,
/// U+1680, U+2000 to U+200A, U+2028, U+2029, U+202F, U+205F and U+3000.
pub open spec fn is_whitespace_char(c: char) -> bool {
    let u = c as u32;
    ||| 0x09 <= u <= 0x0d
    ||| u == 0x20
    ||| u == 0x85
    ||| u == 0xa0
    ||| u == 0x1680
    ||| 0x2000 <= u <= 0x200a
    ||| u == 0x2028
    ||| u == 0x2029
    ||| u == 0x202f
    ||| u == 0x205f
    ||| u == 0x3000
}

/// The Unicode lowercase mapping of a whole string (std's `str::to_lowercase`,
/// which takes the context of each character into account).
pub uninterp spec fn lowercase_of_str(s: Seq<char>) -> Seq<char>;

/// Calls `char::is_uppercase`; the result is named `is_uppercase_char(c)`,
/// a function of `c` alone.
#[verifier::external_body]
pub(crate) fn char_is_uppercase(c: char) -> (r: bool)
    ensures
        r == is_uppercase_char(c),
{
    c.is_uppercase()
}

/// Calls `char::to_lowercase` and takes its first character, which std
/// documents to exist; the result is named `lowercase_first(c)`.
#[verifier::external_body]
pub(crate) fn char_lowercase_first(c: char) -> (r: char)
    ensures
        r == lowercase_first(c),
{
    c.to_lowercase().next().unwrap()
}

/// Calls `char::to_uppercase` and collects what it yields; the result is
/// named `uppercase_of(c)`.
#[verifier::external_body]
pub(crate) fn char_uppercase(c: char) -> (r: Vec<char>)
    ensures
        r@ == uppercase_of(c),
{
    c.to_uppercase().collect()
}

/// Whether `c` is one of the `White_Space` code points listed by
/// `is_whitespace_char` (the set that std's `char::is_whitespace` tests).
pub(crate) fn char_is_whitespace(c: char) -> (r: bool)
    ensures
        r == is_whitespace_char(c),
{
    let u = c as u32;
    (0x09 <= u && u <= 0x0d) || u == 0x20 || u == 0x85 || u == 0xa0 || u == 0x1680 || (0x2000
        <= u && u <= 0x200a) || u == 0x2028 || u == 0x2029 || u == 0x202f || u == 0x205f || u
        == 0x3000
}

/// Calls `str::to_lowercase`; the result is named `lowercase_of_str(s@)`.
#[verifier::external_body]
pub(crate) fn str_to_lowercase(s: &str) -> (r: String)
    ensures
        r@ == lowercase_of_str(s@),
{
    s.to_lowercase()
}

/// Calls `String::push`, which std documents as appending `c` to the end.
#[verifier::external_body]
pub(crate) fn push_char(s: &mut String, c: char)
    ensures
        final(s)@ == old(s)@.push(c),
{
    s.push(c)
}

// ---------------------------------------------------------------------------
// Basic conversions
// ---------------------------------------------------------------------------

/// The characters of `s`, in order.
pub fn chars_of(s: &str) -> (v: Vec<char>)
    ensures
        v@ == s@,
{
    let mut v: Vec<char> = Vec::new();
    for c in iter: s.chars()
        invariant
            v@ == iter.seq().take(iter.index() as int),
    {
        v.push(c);
    }
    assert(v@ =~= s@);
    v
}

/// A string made of the characters `v[from..to]`.
pub fn string_of_chars(v: &Vec<char>, from: usize, to: usize) -> (s: String)
    requires
        from <= to <= v.len(),
    ensures
        s@ == v@.subrange(from as int, to as int),
{
    let mut s = String::new();
    let mut i = from;
    while i < to
        invariant
            from <= i <= to <= v.len(),
            s@ == v@.subrange(from as int, i as int),
        decreases to - i,
    {
        push_char(&mut s, v[i]);
        i = i + 1;
        assert(s@ =~= v@.subrange(from as int, i as int));
    }
    s
}

/// Appends the characters of `t` to `s`.
pub fn push_chars(s: &mut String, t: &Vec<char>)
    ensures
        final(s)@ == old(s)@ + t@,
{
    let mut i: usize = 0;
    while i < t.len()
        invariant
            i <= t.len(),
            s@ == old(s)@ + t@.take(i as int),
        decreases t.len() - i,
    {
        push_char(s, t[i]);
        i = i + 1;
        assert(s@ =~= old(s)@ + t@.take(i as int));
    }
    assert(t@.take(t.len() as int) =~= t@);
}

/// Whether `a` and `b` hold the same characters.
pub fn str_eq(a: &str, b: &str) -> (r: bool)
    ensures
        r == (a@ == b@),
{
    let x = chars_of(a);
    let y = chars_of(b);
    if x.len() != y.len() {
        return false;
    }
    let mut i: usize = 0;
    while i < x.len()
        invariant
            x@ == a@,
            y@ == b@,
            x.len() == y.len(),
            i <= x.len(),
            forall|j: int| 0 <= j < i ==> x@[j] == y@[j],
        decreases x.len() - i,
    {
        if x[i] != y[i] {
            assert(x@[i as int] != y@[i as int]);
            return false;
        }
        i = i + 1;
    }
    assert(x@ =~= y@);
    true
}

/// The views of a list of string slices.
pub open spec fn strs_view(list: Seq<&str>) -> Seq<Seq<char>> {
    list.map_values(|p: &str| p@)
}

/// The views of a list of strings.
pub open spec fn strings_view(list: Seq<String>) -> Seq<Seq<char>> {
    list.map_values(|p: String| p@)
}

/// Whether `name` is one of `list` (`[&str]::contains`).
pub fn contains_str(list: &[&str], name: &str) -> (r: bool)
    ensures
        r == strs_view(list@).contains(name@),
{
    let mut i: usize = 0;
    while i < list.len()
        invariant
            i <= list.len(),
            forall|j: int| 0 <= j < i ==> list@[j]@ != name@,
        decreases list.len() - i,
    {
        if str_eq(list[i], name) {
            assert(strs_view(list@)[i as int] == name@);
            return true;
        }
        i = i + 1;
    }
    assert(!strs_view(list@).contains(name@)) by {
        if strs_view(list@).contains(name@) {
            let k = choose|k: int| 0 <= k < strs_view(list@).len() && strs_view(list@)[k] == name@;
            assert(list@[k]@ == name@);
        }
    }
    false
}

/// Whether `name` is one of `list`.
pub fn contains_string(list: &Vec<String>, name: &str) -> (r: bool)
    ensures
        r == strings_view(list@).contains(name@),
{
    let mut i: usize = 0;
    while i < list.len()
        invariant
            i <= list.len(),
            forall|j: int| 0 <= j < i ==> list@[j]@ != name@,
        decreases list.len() - i,
    {
        if str_eq(list[i].as_str(), name) {
            assert(strings_view(list@)[i as int] == name@);
            return true;
        }
        i = i + 1;
    }
    assert(!strings_view(list@).contains(name@)) by {
        if strings_view(list@).contains(name@) {
            let k = choose|k: int|
                0 <= k < strings_view(list@).len() && strings_view(list@)[k] == name@;
            assert(list@[k]@ == name@);
        }
    }
    false
}

// ---------------------------------------------------------------------------
// Decimal numbers
// ---------------------------------------------------------------------------

/// The decimal digit character of `d` (`d < 10`).
pub open spec fn digit_char(d: nat) -> char {
    if d == 0 {
        '0'
    } else if d == 1 {
        '1'
    } else if d == 2 {
        '2'
    } else if d == 3 {
        '3'
    } else if d == 4 {
        '4'
    } else if d == 5 {
        '5'
    } else if d == 6 {
        '6'
    } else if d == 7 {
        '7'
    } else if d == 8 {
        '8'
    } else {
        '9'
    }
}

/// The decimal representation of `n`, without leading zeros (as `Display` prints it).
pub open spec fn decimal(n: nat) -> Seq<char>
    decreases n,
{
    if n < 10 {
        seq![digit_char(n)]
    } else {
        decimal(n / 10).push(digit_char(n % 10))
    }
}

/// The decimal representation of a signed integer, with a leading `-` when negative.
pub open spec fn signed_decimal(i: int) -> Seq<char> {
    if i < 0 {
        seq!['-'] + decimal((-i) as nat)
    } else {
        decimal(i as nat)
    }
}

fn digit(d: u64) -> (c: char)
    requires
        d < 10,
    ensures
        c == digit_char(d as nat),
{
    if d == 0 {
        '0'
    } else if d == 1 {
        '1'
    } else if d == 2 {
        '2'
    } else if d == 3 {
        '3'
    } else if d == 4 {
        '4'
    } else if d == 5 {
        '5'
    } else if d == 6 {
        '6'
    } else if d == 7 {
        '7'
    } else if d == 8 {
        '8'
    } else {
        '9'
    }
}

/// Writes `n` in decimal (`n.to_string()`).
pub fn u64_to_decimal(n: u64) -> (s: String)
    ensures
        s@ == decimal(n as nat),
    decreases n,
{
    if n < 10 {
        let mut s = String::new();
        push_char(&mut s, digit(n));
        assert(s@ =~= seq![digit_char(n as nat)]);
        s
    } else {
        let mut s = u64_to_decimal(n / 10);
        push_char(&mut s, digit(n % 10));
        s
    }
}

/// Writes `i` in decimal, with a leading `-` when negative (`i.to_string()`).
pub fn i64_to_decimal(i: i64) -> (s: String)
    ensures
        s@ == signed_decimal(i as int),
{
    if i < 0 {
        // |i| as u64, computed without overflow for i64::MIN
        let magnitude: u64 = ((-(i + 1)) as u64) + 1;
        let digits = u64_to_decimal(magnitude);
        let mut s = String::new();
        push_char(&mut s, '-');
        s.append(digits.as_str());
        assert(s@ =~= seq!['-'] + decimal((-i) as nat));
        s
    } else {
        u64_to_decimal(i as u64)
    }
}

// ---------------------------------------------------------------------------
// Trimming and splitting
// ---------------------------------------------------------------------------

/// `s` without its leading whitespace.
pub open spec fn trim_start_seq(s: Seq<char>) -> Seq<char>
    decreases s.len(),
{
    if s.len() > 0 && is_whitespace_char(s[0]) {
        trim_start_seq(s.drop_first())
    } else {
        s
    }
}

/// `s` without its trailing whitespace.
pub open spec fn trim_end_seq(s: Seq<char>) -> Seq<char>
    decreases s.len(),
{
    if s.len() > 0 && is_whitespace_char(s.last()) {
        trim_end_seq(s.drop_last())
    } else {
        s
    }
}

/// `s` without leading and trailing whitespace (`str::trim`).
pub open spec fn trim_seq(s: Seq<char>) -> Seq<char> {
    trim_end_seq(trim_start_seq(s))
}

/// Removes leading and trailing whitespace (`str::trim`).
pub fn trim(s: &str) -> (r: String)
    ensures
        r@ == trim_seq(s@),
{
    let v = chars_of(s);
    let mut start: usize = 0;
    assert(v@.skip(0) =~= v@);
    while start < v.len() && char_is_whitespace(v[start])
        invariant
            start <= v.len(),
            trim_start_seq(v@) == trim_start_seq(v@.skip(start as int)),
        decreases v.len() - start,
    {
        assert(v@.skip(start as int).drop_first() =~= v@.skip(start + 1));
        start = start + 1;
    }
    assert(trim_start_seq(v@) == v@.subrange(start as int, v.len() as int)) by {
        assert(v@.skip(start as int) =~= v@.subrange(start as int, v.len() as int));
    }
    let mut end: usize = v.len();
    while end > start && char_is_whitespace(v[end - 1])
        invariant
            start <= end <= v.len(),
            trim_seq(v@) == trim_end_seq(v@.subrange(start as int, end as int)),
        decreases end - start,
    {
        assert(v@.subrange(start as int, end as int).drop_last() =~= v@.subrange(
            start as int,
            end - 1,
        ));
        end = end - 1;
    }
    string_of_chars(&v, start, end)
}

/// The pieces of `s` between occurrences of `sep` (`str::split` on a character):
/// there is always at least one piece, and `k` separators give `k + 1` pieces.
pub open spec fn split_seq(s: Seq<char>, sep: char) -> Seq<Seq<char>>
    decreases s.len(),
{
    if s.len() == 0 {
        seq![Seq::<char>::empty()]
    } else {
        let rest = split_seq(s.drop_last(), sep);
        if s.last() == sep {
            rest.push(Seq::<char>::empty())
        } else {
            rest.update(rest.len() - 1, rest.last().push(s.last()))
        }
    }
}

proof fn lemma_split_nonempty(s: Seq<char>, sep: char)
    ensures
        split_seq(s, sep).len() >= 1,
    decreases s.len(),
{
    if s.len() > 0 {
        lemma_split_nonempty(s.drop_last(), sep);
    }
}

/// Splits `s` at every `sep` (`s.split(sep)`).
pub fn split(s: &str, sep: char) -> (pieces: Vec<String>)
    ensures
        strings_view(pieces@) == split_seq(s@, sep),
{
    let v = chars_of(s);
    let mut pieces: Vec<String> = Vec::new();
    let mut current = String::new();
    let mut i: usize = 0;
    assert(v@.take(0) =~= Seq::<char>::empty());
    assert(strings_view(pieces@).push(current@) =~= split_seq(v@.take(0), sep));
    while i < v.len()
        invariant
            i <= v.len(),
            strings_view(pieces@).push(current@) == split_seq(v@.take(i as int), sep),
        decreases v.len() - i,
    {
        let ghost prefix = v@.take(i as int);
        let ghost next = v@.take(i + 1);
        assert(next.drop_last() =~= prefix);
        assert(next.last() == v@[i as int]);
        proof {
            lemma_split_nonempty(prefix, sep);
        }
        if v[i] == sep {
            let done = current;
            pieces.push(done);
            current = String::new();
            assert(strings_view(pieces@).push(current@) =~= split_seq(next, sep));
        } else {
            let ghost before = strings_view(pieces@);
            push_char(&mut current, v[i]);
            assert(strings_view(pieces@).push(current@) =~= split_seq(next, sep));
        }
        i = i + 1;
    }
    assert(v@.take(v.len() as int) =~= v@);
    pieces.push(current);
    assert(strings_view(pieces@) =~= split_seq(s@, sep));
    pieces
}

/// The words of `s`: its maximal runs of non-whitespace characters, in
/// order (`str::split_whitespace`).
pub open spec fn words_seq(s: Seq<char>) -> Seq<Seq<char>>
    decreases s.len(),
{
    if s.len() == 0 {
        Seq::<Seq<char>>::empty()
    } else {
        let rest = words_seq(s.drop_last());
        if is_whitespace_char(s.last()) {
            rest
        } else if s.len() >= 2 && !is_whitespace_char(s[s.len() - 2]) {
            rest.update(rest.len() - 1, rest.last().push(s.last()))
        } else {
            rest.push(seq![s.last()])
        }
    }
}

proof fn lemma_words_nonempty(s: Seq<char>)
    requires
        s.len() >= 1,
        !is_whitespace_char(s.last()),
    ensures
        words_seq(s).len() >= 1,
    decreases s.len(),
{
    if s.len() >= 2 && !is_whitespace_char(s[s.len() - 2]) {
        assert(s.drop_last().last() == s[s.len() - 2]);
        lemma_words_nonempty(s.drop_last());
    }
}

/// The words of `s` (`s.split_whitespace()`).
pub fn split_whitespace(s: &str) -> (words: Vec<String>)
    ensures
        strings_view(words@) == words_seq(s@),
{
    let v = chars_of(s);
    let mut words: Vec<String> = Vec::new();
    let mut current = String::new();
    let mut in_word = false;
    let mut i: usize = 0;
    assert(v@.take(0) =~= Seq::<char>::empty());
    while i < v.len()
        invariant
            i <= v.len(),
            in_word == (i > 0 && !is_whitespace_char(v@[i - 1])),
            in_word ==> strings_view(words@).push(current@) == words_seq(v@.take(i as int)),
            !in_word ==> strings_view(words@) == words_seq(v@.take(i as int)),
        decreases v.len() - i,
    {
        let ghost prefix = v@.take(i as int);
        let ghost next = v@.take(i + 1);
        assert(next.drop_last() =~= prefix);
        assert(next.last() == v@[i as int]);
        if char_is_whitespace(v[i]) {
            if in_word {
                let done = current;
                words.push(done);
                current = String::new();
            }
            in_word = false;
            assert(strings_view(words@) =~= words_seq(next));
        } else {
            if in_word {
                assert(next[next.len() - 2] == v@[i - 1]);
                proof {
                    lemma_words_nonempty(prefix);
                }
                push_char(&mut current, v[i]);
                assert(strings_view(words@).push(current@) =~= words_seq(next));
            } else {
                current = String::new();
                push_char(&mut current, v[i]);
                assert(current@ =~= seq![v@[i as int]]);
                assert(strings_view(words@).push(current@) =~= words_seq(next));
            }
            in_word = true;
        }
        i = i + 1;
    }
    assert(v@.take(v.len() as int) =~= v@);
    if in_word {
        words.push(current);
    }
    assert(strings_view(words@) =~= words_seq(s@));
    words
}

/// Whether `s` begins with `prefix` (`str::starts_with`).
pub fn starts_with(s: &str, prefix: &str) -> (r: bool)
    ensures
        r == prefix@.is_prefix_of(s@),
{
    let a = chars_of(s);
    let b = chars_of(prefix);
    if b.len() > a.len() {
        return false;
    }
    let mut i: usize = 0;
    while i < b.len()
        invariant
            i <= b.len() <= a.len(),
            a@ == s@,
            b@ == prefix@,
            forall|j: int| 0 <= j < i ==> a@[j] == b@[j],
        decreases b.len() - i,
    {
        if a[i] != b[i] {
            assert(s@.subrange(0, prefix@.len() as int)[i as int] != prefix@[i as int]);
            return false;
        }
        i = i + 1;
    }
    assert(b@ =~= a@.take(b@.len() as int));
    true
}

/// Whether `needle` occurs in `hay` at position `i`.
pub open spec fn occurs_at(hay: Seq<char>, needle: Seq<char>, i: int) -> bool {
    0 <= i && i + needle.len() <= hay.len() && hay.subrange(i, i + needle.len()) == needle
}

/// Whether `needle` occurs somewhere in `hay` (`str::contains` with a string pattern).
pub open spec fn contains_seq(hay: Seq<char>, needle: Seq<char>) -> bool {
    exists|i: int| occurs_at(hay, needle, i)
}

/// Whether `needle` occurs in `hay`.
pub fn contains_text(hay: &str, needle: &str) -> (r: bool)
    ensures
        r == contains_seq(hay@, needle@),
{
    let a = chars_of(hay);
    let b = chars_of(needle);
    if b.len() > a.len() {
        assert forall|i: int| !occurs_at(hay@, needle@, i) by {}
        return false;
    }
    let mut i: usize = 0;
    while i <= a.len() - b.len()
        invariant
            b.len() <= a.len(),
            i <= a.len() - b.len() + 1,
            a@ == hay@,
            b@ == needle@,
            forall|k: int| 0 <= k < i ==> !occurs_at(hay@, needle@, k),
        decreases a.len() - b.len() + 1 - i,
    {
        let mut j: usize = 0;
        while j < b.len() && a[i + j] == b[j]
            invariant
                i + b.len() <= a.len(),
                j <= b.len(),
                forall|m: int| 0 <= m < j ==> a@[i + m] == b@[m],
            decreases b.len() - j,
        {
            j = j + 1;
        }
        if j == b.len() {
            assert(a@.subrange(i as int, i + b.len()) =~= b@);
            assert(occurs_at(hay@, needle@, i as int));
            return true;
        }
        assert(!occurs_at(hay@, needle@, i as int)) by {
            if occurs_at(hay@, needle@, i as int) {
                assert(a@.subrange(i as int, i + b.len())[j as int] == b@[j as int]);
            }
        }
        i = i + 1;
    }
    assert forall|k: int| !occurs_at(hay@, needle@, k) by {
        if 0 <= k < i {
        }
    }
    false
}

/// The first line of `s`: the text before the first `\n`, without the `\r`
/// of a `\r\n` ending; all of `s` when it holds no `\n` (the first item of
/// `str::lines`, or empty when there is none).
pub open spec fn first_line_seq(s: Seq<char>) -> Seq<char> {
    if s.contains('\n') {
        let k = choose|k: int| 0 <= k < s.len() && s[k] == '\n' && !s.take(k).contains('\n');
        if k > 0 && s[k - 1] == '\r' {
            s.take(k - 1)
        } else {
            s.take(k)
        }
    } else {
        s
    }
}

/// The first line of `s`.
pub fn first_line(s: &str) -> (r: String)
    ensures
        r@ == first_line_seq(s@),
{
    let v = chars_of(s);
    let mut k: usize = 0;
    while k < v.len() && v[k] != '\n'
        invariant
            k <= v.len(),
            v@ == s@,
            !v@.take(k as int).contains('\n'),
        decreases v.len() - k,
    {
        assert(v@.take(k + 1) =~= v@.take(k as int).push(v@[k as int]));
        k = k + 1;
    }
    if k == v.len() {
        assert(v@.take(k as int) =~= v@);
        return string_of_chars(&v, 0, v.len());
    }
    proof {
        let c = choose|c: int| 0 <= c < s@.len() && s@[c] == '\n' && !s@.take(c).contains('\n');
        if c < k {
            assert(v@.take(k as int)[c] == '\n');
        }
        if c > k {
            assert(s@.take(c)[k as int] == '\n');
        }
        assert(c == k);
    }
    if k > 0 && v[k - 1] == '\r' {
        assert(v@.subrange(0, k - 1) =~= v@.take(k - 1));
        string_of_chars(&v, 0, k - 1)
    } else {
        assert(v@.subrange(0, k as int) =~= v@.take(k as int));
        string_of_chars(&v, 0, k)
    }
}

// ---------------------------------------------------------------------------
// Numbers
// ---------------------------------------------------------------------------

/// Whether every character of `s` is an ASCII digit.
pub open spec fn all_ascii_digits(s: Seq<char>) -> bool {
    forall|i: int| 0 <= i < s.len() ==> '0' <= #[trigger] s[i] && s[i] <= '9'
}

/// The number that the ASCII digits `s` write in base 10.
pub open spec fn digits_value(s: Seq<char>) -> nat
    decreases s.len(),
{
    if s.len() == 0 {
        0
    } else {
        digits_value(s.drop_last()) * 10 + ((s.last() as int) - ('0' as int)) as nat
    }
}

/// What `str::parse::<i32>` gives: an optional `+` or `-`, then at least one
/// ASCII digit and nothing else, for a value within `i32`'s range.
pub open spec fn parse_i32_spec(s: Seq<char>) -> Option<i32> {
    let signed = s.len() > 0 && (s[0] == '-' || s[0] == '+');
    let body = if signed {
        s.drop_first()
    } else {
        s
    };
    if body.len() == 0 || !all_ascii_digits(body) {
        None
    } else {
        let v: int = if s[0] == '-' {
            -(digits_value(body) as int)
        } else {
            digits_value(body) as int
        };
        if i32::MIN <= v && v <= i32::MAX {
            Some(v as i32)
        } else {
            None
        }
    }
}

/// A bound above every magnitude that fits in `i32`.
spec fn parse_cap() -> nat {
    2147483649
}

/// `v`, or `parse_cap()` when it is larger.
spec fn capped(v: nat) -> nat {
    if v > parse_cap() {
        parse_cap()
    } else {
        v
    }
}

/// Parses a decimal `i32` as `str::parse::<i32>` does.
pub fn parse_i32(s: &str) -> (r: Option<i32>)
    ensures
        r == parse_i32_spec(s@),
{
    let v = chars_of(s);
    let signed = v.len() > 0 && (v[0] == '-' || v[0] == '+');
    let start: usize = if signed {
        1
    } else {
        0
    };
    let ghost body = if signed {
        s@.drop_first()
    } else {
        s@
    };
    assert(body =~= v@.skip(start as int));
    if start == v.len() {
        return None;
    }
    let mut acc: u64 = 0;
    let mut i: usize = start;
    assert(v@.subrange(start as int, start as int) =~= Seq::<char>::empty());
    while i < v.len()
        invariant
            start <= i <= v.len(),
            v@ == s@,
            body == v@.skip(start as int),
            body == (if s@.len() > 0 && (s@[0] == '-' || s@[0] == '+') {
                s@.drop_first()
            } else {
                s@
            }),
            all_ascii_digits(v@.subrange(start as int, i as int)),
            acc == capped(digits_value(v@.subrange(start as int, i as int))),
        decreases v.len() - i,
    {
        let c = v[i];
        if c < '0' || c > '9' {
            assert(body[i - start] == c);
            return None;
        }
        let ghost prev = v@.subrange(start as int, i as int);
        let ghost next = v@.subrange(start as int, i + 1);
        assert(next.drop_last() =~= prev);
        assert(next.last() == c);
        let d = (c as u32 - '0' as u32) as u64;
        assert(d == (c as int) - ('0' as int));
        assert(digits_value(next) == digits_value(prev) * 10 + d);
        if acc >= 2147483649 {
            assert(digits_value(prev) >= parse_cap());
            assert(digits_value(prev) * 10 + d >= parse_cap()) by (nonlinear_arith)
                requires
                    digits_value(prev) >= parse_cap(),
                    d >= 0,
            ;
            acc = 2147483649;
        } else {
            assert(acc == digits_value(prev));
            let n = acc * 10 + d;
            acc = if n > 2147483649 {
                2147483649
            } else {
                n
            };
        }
        i = i + 1;
    }
    assert(v@.subrange(start as int, v.len() as int) =~= body);
    if signed && v[0] == '-' {
        if acc <= 2147483648 {
            Some((0 - (acc as i64)) as i32)
        } else {
            None
        }
    } else {
        if acc <= 2147483647 {
            Some(acc as i32)
        } else {
            None
        }
    }
}

// ---------------------------------------------------------------------------
// Joining and quoting
// ---------------------------------------------------------------------------

/// `items` joined with `sep` between consecutive items (`[String]::join`).
pub open spec fn join_seq(items: Seq<Seq<char>>, sep: Seq<char>) -> Seq<char>
    decreases items.len(),
{
    if items.len() == 0 {
        Seq::<char>::empty()
    } else if items.len() == 1 {
        items[0]
    } else {
        join_seq(items.drop_last(), sep) + sep + items.last()
    }
}

/// Joins `items` with `sep` between consecutive items.
pub fn join(items: &Vec<String>, sep: &str) -> (r: String)
    ensures
        r@ == join_seq(strings_view(items@), sep@),
{
    let mut r = String::new();
    let mut i: usize = 0;
    while i < items.len()
        invariant
            i <= items.len(),
            r@ == join_seq(strings_view(items@).take(i as int), sep@),
        decreases items.len() - i,
    {
        let ghost before = strings_view(items@).take(i as int);
        let ghost after = strings_view(items@).take(i + 1);
        assert(after.drop_last() =~= before);
        assert(after.last() == items@[i as int]@);
        if i > 0 {
            r.append(sep);
        }
        r.append(items[i].as_str());
        i = i + 1;
        assert(r@ =~= join_seq(after, sep@));
    }
    assert(strings_view(items@).take(i as int) =~= strings_view(items@));
    r
}

/// How `Debug` prints a string: in double quotes, with quotes, backslashes
/// and non-printable characters escaped (std's `<str as Debug>::fmt`).
pub uninterp spec fn debug_str(s: Seq<char>) -> Seq<char>;

/// Formats `s` with `{:?}`; the result is named `debug_str(s@)`.
#[verifier::external_body]
pub(crate) fn debug_quoted(s: &str) -> (r: String)
    ensures
        r@ == debug_str(s@),
{
    format!("{:?}", s)
}

} // verus!
