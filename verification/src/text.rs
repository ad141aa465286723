//! Character-level text operations shared by the protocol layers: prefix tests,
//! searching, replacing, trimming and decimal rendering, each with its
//! mathematical definition over `Seq<char>`.

use vstd::prelude::*;

verus! {

// ---------------------------------------------------------------------------
// Specifications
// ---------------------------------------------------------------------------

/// `p` occurs in `s` starting at index `i`.
pub open spec fn occurs_at(s: Seq<char>, p: Seq<char>, i: int) -> bool {
    0 <= i && i + p.len() <= s.len() && s.subrange(i, i + p.len()) == p
}

/// `p` is a prefix of `s`.
pub open spec fn has_prefix(s: Seq<char>, p: Seq<char>) -> bool {
    occurs_at(s, p, 0)
}

/// `p` is a suffix of `s`.
pub open spec fn has_suffix(s: Seq<char>, p: Seq<char>) -> bool {
    p.len() <= s.len() && s.subrange(s.len() - p.len(), s.len() as int) == p
}

/// The first index at or after `i` where `p` occurs in `s`.
pub open spec fn find_from(s: Seq<char>, p: Seq<char>, i: int) -> Option<int>
    decreases s.len() + 1 - i,
{
    if i < 0 || i + p.len() > s.len() {
        None
    } else if occurs_at(s, p, i) {
        Some(i)
    } else {
        find_from(s, p, i + 1)
    }
}

/// The first index where `p` occurs in `s`.
pub open spec fn find_first(s: Seq<char>, p: Seq<char>) -> Option<int> {
    find_from(s, p, 0)
}

/// `s` with every non-overlapping occurrence of the non-empty `pat`, scanned
/// from the left, replaced by `rep`.
pub open spec fn replace_all(s: Seq<char>, pat: Seq<char>, rep: Seq<char>) -> Seq<char>
    decreases s.len(),
{
    if pat.len() == 0 || s.len() < pat.len() {
        s
    } else if s.subrange(0, pat.len() as int) == pat {
        rep + replace_all(s.subrange(pat.len() as int, s.len() as int), pat, rep)
    } else {
        seq![s[0]] + replace_all(s.subrange(1, s.len() as int), pat, rep)
    }
}

/// Unicode `White_Space`, the characters that `str::trim` removes.
pub open spec fn is_ws(c: char) -> bool {
    ||| c == '\t' || c == '\n' || c == '\u{0B}' || c == '\u{0C}' || c == '\r' || c == ' '
    ||| c == '\u{85}' || c == '\u{A0}' || c == '\u{1680}'
    ||| ('\u{2000}' <= c && c <= '\u{200A}')
    ||| c == '\u{2028}' || c == '\u{2029}' || c == '\u{202F}' || c == '\u{205F}' || c == '\u{3000}'
}

/// `s` without leading white space.
pub open spec fn trim_start(s: Seq<char>) -> Seq<char>
    decreases s.len(),
{
    if s.len() > 0 && is_ws(s[0]) {
        trim_start(s.subrange(1, s.len() as int))
    } else {
        s
    }
}

/// `s` without trailing white space.
pub open spec fn trim_end(s: Seq<char>) -> Seq<char>
    decreases s.len(),
{
    if s.len() > 0 && is_ws(s[s.len() - 1]) {
        trim_end(s.subrange(0, s.len() - 1))
    } else {
        s
    }
}

/// `s` without leading and trailing white space.
pub open spec fn trim(s: Seq<char>) -> Seq<char> {
    trim_end(trim_start(s))
}

/// A match found from `i` lies at or after `i`, and `p` occurs there.
pub proof fn lemma_find_from_some(s: Seq<char>, p: Seq<char>, i: int)
    ensures
        find_from(s, p, i) matches Some(j) ==> i <= j && occurs_at(s, p, j),
    decreases s.len() + 1 - i,
{
    if !(i < 0 || i + p.len() > s.len()) && !occurs_at(s, p, i) {
        lemma_find_from_some(s, p, i + 1);
    }
}

/// Replacing a pattern that occurs nowhere in a text leaves the text as it is.
pub proof fn lemma_replace_absent(s: Seq<char>, pat: Seq<char>, rep: Seq<char>)
    requires
        forall|i: int| !occurs_at(s, pat, i),
    ensures
        replace_all(s, pat, rep) == s,
    decreases s.len(),
{
    if pat.len() == 0 || s.len() < pat.len() {
    } else {
        assert(!occurs_at(s, pat, 0));
        assert(s.subrange(0, pat.len() as int) != pat);
        let t = s.subrange(1, s.len() as int);
        assert forall|i: int| !occurs_at(t, pat, i) by {
            if occurs_at(t, pat, i) {
                assert(t.subrange(i, i + pat.len()) =~= s.subrange(i + 1, i + 1 + pat.len()));
                assert(occurs_at(s, pat, i + 1));
            }
        }
        lemma_replace_absent(t, pat, rep);
        assert(seq![s[0]] + t =~= s);
    }
}

/// Trimming never lengthens a text.
pub proof fn lemma_trim_len(s: Seq<char>)
    ensures
        trim(s).len() <= s.len(),
{
    lemma_trim_start_len(s);
    lemma_trim_end_len(trim_start(s));
}

proof fn lemma_trim_start_len(s: Seq<char>)
    ensures
        trim_start(s).len() <= s.len(),
    decreases s.len(),
{
    if s.len() > 0 && is_ws(s[0]) {
        lemma_trim_start_len(s.subrange(1, s.len() as int));
    }
}

proof fn lemma_trim_end_len(s: Seq<char>)
    ensures
        trim_end(s).len() <= s.len(),
    decreases s.len(),
{
    if s.len() > 0 && is_ws(s[s.len() - 1]) {
        lemma_trim_end_len(s.subrange(0, s.len() - 1));
    }
}

/// A trimmed text that is not empty starts with a character other than white space.
pub proof fn lemma_trim_first(s: Seq<char>)
    requires
        trim(s).len() > 0,
    ensures
        !is_ws(trim(s)[0]),
{
    lemma_trim_start_first(s);
    lemma_trim_end_prefix(trim_start(s));
}

proof fn lemma_trim_start_first(s: Seq<char>)
    ensures
        trim_start(s).len() > 0 ==> !is_ws(trim_start(s)[0]),
    decreases s.len(),
{
    if s.len() > 0 && is_ws(s[0]) {
        lemma_trim_start_first(s.subrange(1, s.len() as int));
    }
}

proof fn lemma_trim_end_prefix(s: Seq<char>)
    ensures
        trim_end(s).len() <= s.len(),
        trim_end(s) == s.subrange(0, trim_end(s).len() as int),
    decreases s.len(),
{
    if s.len() > 0 && is_ws(s[s.len() - 1]) {
        let t = s.subrange(0, s.len() - 1);
        lemma_trim_end_prefix(t);
        assert(t.subrange(0, trim_end(t).len() as int) =~= s.subrange(0, trim_end(t).len() as int));
    } else {
        assert(s.subrange(0, s.len() as int) =~= s);
    }
}

/// The decimal digit for `d < 10`.
pub open spec fn digit_char(d: nat) -> char {
    if d == 0 { '0' } else if d == 1 { '1' } else if d == 2 { '2' } else if d == 3 { '3' }
    else if d == 4 { '4' } else if d == 5 { '5' } else if d == 6 { '6' } else if d == 7 { '7' }
    else if d == 8 { '8' } else { '9' }
}

/// The decimal rendering of `n`, without leading zeros.
pub open spec fn decimal(n: nat) -> Seq<char>
    decreases n,
{
    if n < 10 {
        seq![digit_char(n)]
    } else {
        decimal(n / 10).push(digit_char(n % 10))
    }
}

/// The decimal rendering of a signed integer.
pub open spec fn decimal_int(n: int) -> Seq<char> {
    if n < 0 { seq!['-'] + decimal((-n) as nat) } else { decimal(n as nat) }
}

/// The parts joined with `sep` between each two of them.
pub open spec fn join(parts: Seq<Seq<char>>, sep: Seq<char>) -> Seq<char>
    decreases parts.len(),
{
    if parts.len() == 0 {
        Seq::empty()
    } else if parts.len() == 1 {
        parts[0]
    } else {
        join(parts.drop_last(), sep) + sep + parts.last()
    }
}

// ---------------------------------------------------------------------------
// Conversions between strings and characters
// ---------------------------------------------------------------------------

/// The characters of a string slice, in order.
pub fn chars_of(s: &str) -> (r: Vec<char>)
    ensures
        r@ == s@,
{
    broadcast use vstd::string::axiom_spec_iter;
    let mut out: Vec<char> = Vec::new();
    for c in it: s.chars()
        invariant
            it.seq() == s@,
            out@ == it.seq().subrange(0, it.index() as int),
    {
        let ghost before = out@;
        out.push(c);
        assert(out@ =~= it.seq().subrange(0, it.index() + 1));
    }
    assert(out@ =~= s@);
    out
}

/// The string made of the given characters (`String: FromIterator<char>`).
#[verifier::external_body]
pub fn string_of(v: &[char]) -> (r: String)
    ensures
        r@ == v@,
{
    v.iter().collect()
}

/// String slice equality: the same characters in the same order.
pub fn str_eq(a: &str, b: &str) -> (r: bool)
    ensures
        r == (a@ == b@),
{
    owned(a) == owned(b)
}

/// A string holding a copy of the slice.
pub fn owned(s: &str) -> (r: String)
    ensures
        r@ == s@,
{
    s.to_owned()
}

/// Concatenation of two string slices.
pub fn concat2(a: &str, b: &str) -> (r: String)
    ensures
        r@ == a@ + b@,
{
    let mut r = a.to_owned();
    r.append(b);
    r
}

/// Concatenation of three string slices.
pub fn concat3(a: &str, b: &str, c: &str) -> (r: String)
    ensures
        r@ == a@ + b@ + c@,
{
    let mut r = a.to_owned();
    r.append(b);
    r.append(c);
    r
}

/// Concatenation of four string slices.
pub fn concat4(a: &str, b: &str, c: &str, d: &str) -> (r: String)
    ensures
        r@ == a@ + b@ + c@ + d@,
{
    let mut r = a.to_owned();
    r.append(b);
    r.append(c);
    r.append(d);
    r
}

// ---------------------------------------------------------------------------
// Executable operations
// ---------------------------------------------------------------------------

/// Whether `p` occurs in `s` at index `i`.
pub fn occurs_at_exec(s: &Vec<char>, p: &Vec<char>, i: usize) -> (r: bool)
    ensures
        r == occurs_at(s@, p@, i as int),
{
    if i > s.len() || p.len() > s.len() - i {
        return false;
    }
    let mut k: usize = 0;
    while k < p.len()
        invariant
            k <= p.len(),
            i + p.len() <= s.len(),
            forall|j: int| 0 <= j < k ==> s@[i + j] == p@[j],
        decreases p.len() - k,
    {
        if s[i + k] != p[k] {
            assert(s@.subrange(i as int, i + p.len())[k as int] != p@[k as int]);
            return false;
        }
        k = k + 1;
    }
    assert(s@.subrange(i as int, i + p.len()) =~= p@);
    true
}

/// The first index at or after `i` where `p` occurs in `s`.
pub fn find_from_exec(s: &Vec<char>, p: &Vec<char>, i: usize) -> (r: Option<usize>)
    ensures
        r matches Some(k) ==> find_from(s@, p@, i as int) == Some(k as int),
        r is None ==> find_from(s@, p@, i as int) is None,
{
    if p.len() == 0 {
        if i <= s.len() {
            assert(s@.subrange(i as int, i as int) =~= p@);
            return Some(i);
        }
        return None;
    }
    let mut k = i;
    while k < s.len() && p.len() <= s.len() - k
        invariant
            i <= k,
            find_from(s@, p@, i as int) == find_from(s@, p@, k as int),
        decreases s.len() - k,
    {
        if occurs_at_exec(s, p, k) {
            return Some(k);
        }
        k = k + 1;
    }
    None
}

/// Appends all characters of `src` to `out`.
pub fn push_all(out: &mut Vec<char>, src: &Vec<char>)
    ensures
        final(out)@ == old(out)@ + src@,
{
    let mut j: usize = 0;
    while j < src.len()
        invariant
            j <= src.len(),
            out@ == old(out)@ + src@.subrange(0, j as int),
        decreases src.len() - j,
    {
        out.push(src[j]);
        j = j + 1;
        assert(out@ =~= old(out)@ + src@.subrange(0, j as int));
    }
    assert(src@.subrange(0, src@.len() as int) =~= src@);
}

/// `s` with every occurrence of the non-empty `pat` replaced by `rep`.
pub fn replace_all_exec(s: &Vec<char>, pat: &Vec<char>, rep: &Vec<char>) -> (r: Vec<char>)
    requires
        pat@.len() > 0,
    ensures
        r@ == replace_all(s@, pat@, rep@),
{
    let mut out: Vec<char> = Vec::new();
    let mut i: usize = 0;
    assert(s@.subrange(0, s@.len() as int) =~= s@);
    while i < s.len() && pat.len() <= s.len() - i
        invariant
            i <= s.len(),
            pat@.len() > 0,
            out@ + replace_all(s@.subrange(i as int, s@.len() as int), pat@, rep@)
                == replace_all(s@, pat@, rep@),
        decreases s.len() - i,
    {
        let ghost rest = s@.subrange(i as int, s@.len() as int);
        let ghost old_out = out@;
        assert(rest.subrange(0, pat@.len() as int) =~= s@.subrange(i as int, i + pat@.len()));
        if occurs_at_exec(s, pat, i) {
            assert(rest.subrange(pat@.len() as int, rest.len() as int)
                =~= s@.subrange(i + pat@.len(), s@.len() as int));
            push_all(&mut out, rep);
            assert(out@ + replace_all(s@.subrange(i + pat@.len(), s@.len() as int), pat@, rep@)
                =~= old_out + replace_all(rest, pat@, rep@));
            i = i + pat.len();
        } else {
            assert(rest.subrange(1, rest.len() as int) =~= s@.subrange(i + 1, s@.len() as int));
            out.push(s[i]);
            assert(out@ + replace_all(s@.subrange(i + 1, s@.len() as int), pat@, rep@)
                =~= old_out + replace_all(rest, pat@, rep@));
            i = i + 1;
        }
    }
    let ghost rest = s@.subrange(i as int, s@.len() as int);
    assert(replace_all(rest, pat@, rep@) == rest);
    let mut j = i;
    while j < s.len()
        invariant
            i <= j <= s.len(),
            out@ + s@.subrange(j as int, s@.len() as int) == replace_all(s@, pat@, rep@),
        decreases s.len() - j,
    {
        let ghost old_out = out@;
        out.push(s[j]);
        assert(out@ + s@.subrange(j + 1, s@.len() as int) =~= old_out + s@.subrange(j as int, s@.len() as int));
        j = j + 1;
    }
    assert(out@ =~= out@ + s@.subrange(j as int, s@.len() as int));
    out
}

/// Whether `c` is white space in the sense of `char::is_whitespace`.
pub fn is_ws_exec(c: char) -> (r: bool)
    ensures
        r == is_ws(c),
{
    c == '\t' || c == '\n' || c == '\u{0B}' || c == '\u{0C}' || c == '\r' || c == ' '
        || c == '\u{85}' || c == '\u{A0}' || c == '\u{1680}'
        || ('\u{2000}' <= c && c <= '\u{200A}')
        || c == '\u{2028}' || c == '\u{2029}' || c == '\u{202F}' || c == '\u{205F}'
        || c == '\u{3000}'
}

/// The characters of `s` without leading and trailing white space.
pub fn trim_exec(s: &Vec<char>) -> (r: Vec<char>)
    ensures
        r@ == trim(s@),
{
    let mut a: usize = 0;
    assert(s@.subrange(0, s@.len() as int) =~= s@);
    while a < s.len() && is_ws_exec(s[a])
        invariant
            a <= s.len(),
            trim_start(s@) == trim_start(s@.subrange(a as int, s@.len() as int)),
        decreases s.len() - a,
    {
        assert(s@.subrange(a as int, s@.len() as int).subrange(1, s@.len() - a)
            =~= s@.subrange(a + 1, s@.len() as int));
        a = a + 1;
    }
    let ghost t = s@.subrange(a as int, s@.len() as int);
    assert(trim_start(t) == t);
    let mut b: usize = s.len();
    assert(t.subrange(0, (b - a) as int) =~= t);
    while b > a && is_ws_exec(s[b - 1])
        invariant
            a <= b <= s.len(),
            t == s@.subrange(a as int, s@.len() as int),
            trim_end(t) == trim_end(t.subrange(0, (b - a) as int)),
        decreases b - a,
    {
        assert(t.subrange(0, (b - a) as int).subrange(0, (b - a) - 1) =~= t.subrange(0, (b - 1 - a) as int));
        b = b - 1;
    }
    let ghost u = t.subrange(0, (b - a) as int);
    assert(trim_end(u) == u);
    let mut out: Vec<char> = Vec::new();
    let mut k = a;
    while k < b
        invariant
            a <= k <= b <= s.len(),
            out@ == s@.subrange(a as int, k as int),
        decreases b - k,
    {
        out.push(s[k]);
        k = k + 1;
        assert(out@ =~= s@.subrange(a as int, k as int));
    }
    assert(u =~= s@.subrange(a as int, b as int));
    out
}

/// The decimal digits of `n`.
pub fn decimal_chars(n: u64) -> (r: Vec<char>)
    ensures
        r@ == decimal(n as nat),
    decreases n,
{
    let d = n % 10;
    let c = if d == 0 { '0' } else if d == 1 { '1' } else if d == 2 { '2' } else if d == 3 { '3' }
        else if d == 4 { '4' } else if d == 5 { '5' } else if d == 6 { '6' } else if d == 7 { '7' }
        else if d == 8 { '8' } else { '9' };
    if n < 10 {
        let mut v = Vec::new();
        v.push(c);
        v
    } else {
        let mut v = decimal_chars(n / 10);
        v.push(c);
        v
    }
}

/// The decimal rendering of `n` as a string.
pub fn u64_to_string(n: u64) -> (r: String)
    ensures
        r@ == decimal(n as nat),
{
    let v = decimal_chars(n);
    string_of(v.as_slice())
}

/// The decimal rendering of a signed integer as a string.
pub fn i64_to_string(n: i64) -> (r: String)
    ensures
        r@ == decimal_int(n as int),
{
    if n < 0 {
        let m: u64 = if n == i64::MIN { 9223372036854775808u64 } else { (-n) as u64 };
        let mut v: Vec<char> = Vec::new();
        v.push('-');
        let d = decimal_chars(m);
        push_all(&mut v, &d);
        assert(v@ =~= seq!['-'] + decimal((-(n as int)) as nat));
        string_of(v.as_slice())
    } else {
        u64_to_string(n as u64)
    }
}

/// The strings joined with `sep` between each two of them.
pub fn join_strings(parts: &Vec<String>, sep: &str) -> (r: String)
    ensures
        r@ == join(strings_view(parts@), sep@),
{
    let mut r = String::new();
    let mut i: usize = 0;
    while i < parts.len()
        invariant
            i <= parts.len(),
            r@ == join(strings_view(parts@).subrange(0, i as int), sep@),
        decreases parts.len() - i,
    {
        let ghost before = strings_view(parts@).subrange(0, i as int);
        assert(strings_view(parts@).subrange(0, i + 1).drop_last() =~= before);
        if i > 0 {
            r.append(sep);
        }
        r.append(parts[i].as_str());
        assert(strings_view(parts@).subrange(0, i + 1).last() == parts@[i as int]@);
        if i == 0 {
            assert(r@ =~= join(strings_view(parts@).subrange(0, 1), sep@));
        }
        i = i + 1;
    }
    assert(strings_view(parts@).subrange(0, parts@.len() as int) =~= strings_view(parts@));
    r
}

/// The text that `{:?}` gives for a list of strings: the standard library's
/// debug rendering, each string quoted and escaped, inside brackets.
pub uninterp spec fn debug_list_text(items: Seq<Seq<char>>) -> Seq<char>;

/// The views of a list of strings.
pub open spec fn strings_view(v: Seq<String>) -> Seq<Seq<char>> {
    v.map_values(|s: String| s@)
}

/// Formats a list of strings with `{:?}` (std's `Debug` for `Vec<String>`).
/// The result is named: it depends on the strings alone.
#[verifier::external_body]
pub fn debug_list(v: &Vec<String>) -> (r: String)
    ensures
        r@ == debug_list_text(strings_view(v@)),
{
    format!("{:?}", v)
}

/// Whether `v` holds a string equal to `s`.
pub fn contains_str(v: &Vec<String>, s: &str) -> (r: bool)
    ensures
        r == strings_view(v@).contains(s@),
{
    let mut i: usize = 0;
    while i < v.len()
        invariant
            i <= v@.len(),
            forall|j: int| 0 <= j < i ==> v@[j]@ != s@,
        decreases v.len() - i,
    {
        if str_eq(v[i].as_str(), s) {
            assert(strings_view(v@)[i as int] == s@);
            return true;
        }
        i = i + 1;
    }
    false
}

/// `v` without the strings equal to `s`, the others in order.
pub fn without_str(v: &Vec<String>, s: &str) -> (r: Vec<String>)
    ensures
        strings_view(r@) == strings_view(v@).filter(|x: Seq<char>| x != s@),
{
    let mut out: Vec<String> = Vec::new();
    let mut i: usize = 0;
    while i < v.len()
        invariant
            i <= v@.len(),
            strings_view(out@) == strings_view(v@.subrange(0, i as int)).filter(|x: Seq<char>| x != s@),
        decreases v.len() - i,
    {
        let ghost before = out@;
        proof {
            let a = strings_view(v@.subrange(0, i as int));
            let b = strings_view(v@.subrange(0, i + 1));
            assert(b =~= a.push(v@[i as int]@));
            assert(b.drop_last() =~= a);
            reveal(Seq::filter);
        }
        if !str_eq(v[i].as_str(), s) {
            out.push(v[i].clone());
            assert(strings_view(out@) =~= strings_view(before).push(v@[i as int]@));
        }
        i = i + 1;
    }
    assert(v@.subrange(0, v@.len() as int) =~= v@);
    out
}


/// The words of `s` after the partial word `cur`: the maximal runs of
/// characters other than white space, in order.
pub open spec fn words_from(s: Seq<char>, cur: Seq<char>) -> Seq<Seq<char>>
    decreases s.len(),
{
    if s.len() == 0 {
        if cur.len() == 0 { Seq::empty() } else { seq![cur] }
    } else if is_ws(s[0]) {
        (if cur.len() == 0 { Seq::empty() } else { seq![cur] }) + words_from(s.subrange(1, s.len() as int), Seq::empty())
    } else {
        words_from(s.subrange(1, s.len() as int), cur.push(s[0]))
    }
}

/// The words of `s`, as `str::split_whitespace` gives them.
pub open spec fn words(s: Seq<char>) -> Seq<Seq<char>> {
    words_from(s, Seq::empty())
}

/// A text that starts with a character other than white space has a word.
pub proof fn lemma_words_nonempty(s: Seq<char>, cur: Seq<char>)
    requires
        cur.len() > 0 || (s.len() > 0 && !is_ws(s[0])),
    ensures
        words_from(s, cur).len() > 0,
    decreases s.len(),
{
    if s.len() > 0 {
        if is_ws(s[0]) {
            assert(cur.len() > 0);
        } else {
            lemma_words_nonempty(s.subrange(1, s.len() as int), cur.push(s[0]));
        }
    }
}

/// The words of `s`, split at white space.
pub fn split_words(s: &str) -> (r: Vec<String>)
    ensures
        strings_view(r@) == words(s@),
{
    let cs = chars_of(s);
    let n = cs.len();
    let mut out: Vec<String> = Vec::new();
    let mut cur: Vec<char> = Vec::new();
    let mut i: usize = 0;
    assert(cs@.subrange(0, n as int) =~= cs@);
    while i < n
        invariant
            i <= n,
            n == cs@.len(),
            cs@ == s@,
            strings_view(out@) + words_from(cs@.subrange(i as int, n as int), cur@) == words(s@),
        decreases n - i,
    {
        let ghost rest = cs@.subrange(i as int, n as int);
        let ghost tail = cs@.subrange(i + 1, n as int);
        assert(rest.subrange(1, rest.len() as int) =~= tail);
        assert(rest[0] == cs@[i as int]);
        let c = cs[i];
        if is_ws_exec(c) {
            if cur.len() > 0 {
                let ghost old_cur = cur@;
                assert(words_from(rest, old_cur) == seq![old_cur] + words_from(tail, Seq::empty()));
                let w = string_of(cur.as_slice());
                let ghost before = out@;
                out.push(w);
                assert(strings_view(out@) =~= strings_view(before) + seq![old_cur]);
                cur = Vec::new();
                assert(strings_view(before) + (seq![old_cur] + words_from(tail, Seq::empty()))
                    =~= strings_view(out@) + words_from(tail, cur@));
            } else {
                assert(words_from(rest, cur@) =~= words_from(tail, Seq::empty()));
                assert(cur@ =~= Seq::<char>::empty());
            }
        } else {
            cur.push(c);
        }
        i = i + 1;
    }
    assert(cs@.subrange(n as int, n as int) =~= Seq::<char>::empty());
    if cur.len() > 0 {
        let w = string_of(cur.as_slice());
        let ghost before = out@;
        out.push(w);
        assert(strings_view(out@) =~= strings_view(before) + seq![cur@]);
    } else {
        assert(strings_view(out@) + Seq::<Seq<char>>::empty() =~= strings_view(out@));
    }
    out
}


/// An ASCII decimal digit.
pub open spec fn is_digit(c: char) -> bool {
    '0' <= c && c <= '9'
}

/// The value of a decimal digit.
pub open spec fn digit_value(c: char) -> nat {
    (c as int - '0' as int) as nat
}

/// The value of a run of decimal digits, most significant first.
pub open spec fn digits_value(d: Seq<char>) -> nat
    decreases d.len(),
{
    if d.len() == 0 { 0 } else { digits_value(d.drop_last()) * 10 + digit_value(d.last()) }
}

/// The text after an optional leading `+`.
pub open spec fn unsigned_digits(s: Seq<char>) -> Seq<char> {
    if s.len() > 0 && s[0] == '+' { s.subrange(1, s.len() as int) } else { s }
}

/// What `str::parse` gives for an unsigned integer type whose largest value is
/// `max`: the value of an optional `+` followed by one or more decimal digits,
/// when it is at most `max`; nothing for any other text.
pub open spec fn parsed_unsigned(s: Seq<char>, max: nat) -> Option<nat> {
    let d = unsigned_digits(s);
    if d.len() > 0 && (forall|i: int| 0 <= i < d.len() ==> is_digit(#[trigger] d[i])) && digits_value(d) <= max {
        Some(digits_value(d))
    } else {
        None
    }
}

/// More digits never give a smaller value.
pub proof fn lemma_digits_prefix(d: Seq<char>, k: int)
    requires
        0 <= k <= d.len(),
    ensures
        digits_value(d.subrange(0, k)) <= digits_value(d),
    decreases d.len(),
{
    if k < d.len() {
        lemma_digits_prefix(d.drop_last(), k);
        assert(d.drop_last().subrange(0, k) =~= d.subrange(0, k));
    } else {
        assert(d.subrange(0, k) =~= d);
    }
}

/// The decimal text of a number reads back as that number.
pub proof fn lemma_decimal_parses(n: nat, max: nat)
    requires
        n <= max,
    ensures
        parsed_unsigned(decimal(n), max) == Some(n),
{
    lemma_decimal_digits(n);
    let d = decimal(n);
    assert(unsigned_digits(d) == d) by {
        assert(is_digit(d[0]));
    }
}

proof fn lemma_digit_char_value(d: nat)
    requires
        d < 10,
    ensures
        is_digit(digit_char(d)),
        digit_value(digit_char(d)) == d,
{
    assert(digit_value('0') == 0 && digit_value('1') == 1 && digit_value('2') == 2 && digit_value('3') == 3
        && digit_value('4') == 4 && digit_value('5') == 5 && digit_value('6') == 6 && digit_value('7') == 7
        && digit_value('8') == 8 && digit_value('9') == 9);
}

/// The decimal text of a number is made of digits whose value is the number.
proof fn lemma_decimal_digits(n: nat)
    ensures
        decimal(n).len() > 0,
        forall|i: int| 0 <= i < decimal(n).len() ==> is_digit(#[trigger] decimal(n)[i]),
        digits_value(decimal(n)) == n,
    decreases n,
{
    if n < 10 {
        lemma_digit_char_value(n);
        assert(decimal(n) == seq![digit_char(n)]);
        assert(seq![digit_char(n)].drop_last() =~= Seq::<char>::empty());
        assert(digits_value(decimal(n)) == digits_value(Seq::<char>::empty()) * 10 + digit_value(digit_char(n)));
    } else {
        lemma_digit_char_value(n % 10);
        lemma_decimal_digits(n / 10);
        let p = decimal(n / 10);
        let d = decimal(n);
        assert(d == p.push(digit_char(n % 10)));
        assert(d.drop_last() =~= p);
        assert forall|i: int| 0 <= i < d.len() implies is_digit(#[trigger] d[i]) by {
            if i < p.len() {
                assert(d[i] == p[i]);
            }
        }
        assert(digits_value(d) == digits_value(p) * 10 + digit_value(digit_char(n % 10)));
        assert(digits_value(p) == n / 10);
        assert((n / 10) * 10 + n % 10 == n);
        assert(digits_value(d) == n);
    }
}

/// Parses an unsigned decimal number of at most `max`, as `str::parse` does
/// for an unsigned integer type whose largest value is `max`.
pub fn parse_unsigned(s: &str, max: u64) -> (r: Option<u64>)
    ensures
        match parsed_unsigned(s@, max as nat) {
            Some(v) => r == Some(v as u64),
            None => r is None,
        },
{
    let cs = chars_of(s);
    let n = cs.len();
    let mut i: usize = 0;
    if n > 0 && cs[0] == '+' {
        i = 1;
    }
    let start = i;
    let ghost d = unsigned_digits(s@);
    assert(d =~= cs@.subrange(start as int, n as int));
    if start == n {
        return None;
    }
    let mut acc: u64 = 0;
    assert(cs@.subrange(start as int, start as int) =~= Seq::<char>::empty());
    while i < n
        invariant
            start <= i <= n,
            n == cs@.len(),
            cs@ == s@,
            d == cs@.subrange(start as int, n as int),
            d == unsigned_digits(s@),
            d.len() > 0,
            forall|j: int| 0 <= j < i - start ==> is_digit(#[trigger] d[j]),
            acc == digits_value(cs@.subrange(start as int, i as int)),
            acc <= max,
        decreases n - i,
    {
        let c = cs[i];
        assert(d[i - start] == c);
        if !('0' <= c && c <= '9') {
            assert(!is_digit(d[i - start]));
            return None;
        }
        let dg: u64 = (c as u32 - '0' as u32) as u64;
        let next: u128 = acc as u128 * 10 + dg as u128;
        let ghost p = cs@.subrange(start as int, i + 1);
        assert(p.drop_last() =~= cs@.subrange(start as int, i as int));
        assert(p.last() == c);
        assert(next == digits_value(p));
        if next > max as u128 {
            proof {
                assert(p =~= d.subrange(0, i + 1 - start));
                lemma_digits_prefix(d, i + 1 - start);
            }
            return None;
        }
        acc = next as u64;
        i = i + 1;
    }
    assert(cs@.subrange(start as int, n as int) =~= d);
    Some(acc)
}

} // verus!
