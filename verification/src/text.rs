//! Text primitives: a character-level model of the string operations the library relies on.
//!
//! Every string is viewed as a `Seq<char>`. The spec functions here state what the usual
//! string operations (line splitting, trimming, whitespace tokenizing, substring search,
//! decimal formatting and parsing) compute; the exec functions implement them on `Vec<char>`.

use vstd::prelude::*;

verus! {

// ---------------------------------------------------------------------------
// Specifications
// ---------------------------------------------------------------------------

/// Unicode `White_Space` characters (what `char::is_whitespace` accepts).
pub open spec fn is_ws(c: char) -> bool {
    let u = c as u32;
    ||| u == 0x20
    ||| (0x09 <= u && u <= 0x0D)
    ||| u == 0x85
    ||| u == 0xA0
    ||| u == 0x1680
    ||| (0x2000 <= u && u <= 0x200A)
    ||| u == 0x2028
    ||| u == 0x2029
    ||| u == 0x202F
    ||| u == 0x205F
    ||| u == 0x3000
}

/// The character sequences held by a vector of character vectors.
pub open spec fn views(v: Seq<Vec<char>>) -> Seq<Seq<char>> {
    v.map_values(|x: Vec<char>| x@)
}

/// `n` occurs in `h` starting at position `i`.
pub open spec fn match_at(h: Seq<char>, n: Seq<char>, i: int) -> bool {
    0 <= i && i + n.len() <= h.len() && h.subrange(i, i + n.len()) == n
}

/// `n` occurs somewhere in `h`.
pub open spec fn contains(h: Seq<char>, n: Seq<char>) -> bool {
    exists|i: int| match_at(h, n, i)
}

/// `h` begins with `n`.
pub open spec fn starts_with(h: Seq<char>, n: Seq<char>) -> bool {
    match_at(h, n, 0)
}

/// `h` ends with `n`.
pub open spec fn ends_with(h: Seq<char>, n: Seq<char>) -> bool {
    n.len() <= h.len() && match_at(h, n, h.len() - n.len())
}

/// The first position at or after `i` where `n` occurs in `h`.
pub open spec fn find_from(h: Seq<char>, n: Seq<char>, i: int) -> Option<int>
    decreases h.len() + 1 - i,
{
    if i < 0 || i + n.len() > h.len() {
        None
    } else if match_at(h, n, i) {
        Some(i)
    } else {
        find_from(h, n, i + 1)
    }
}

/// The first position where `n` occurs in `h` (`str::find`).
pub open spec fn find(h: Seq<char>, n: Seq<char>) -> Option<int> {
    find_from(h, n, 0)
}

/// The last position of character `c` in `s` (`str::rfind`).
pub open spec fn rfind_char(s: Seq<char>, c: char) -> Option<int>
    decreases s.len(),
{
    if s.len() == 0 {
        None
    } else if s.last() == c {
        Some(s.len() - 1)
    } else {
        rfind_char(s.drop_last(), c)
    }
}

/// `s` with leading whitespace removed.
pub open spec fn trim_start(s: Seq<char>) -> Seq<char>
    decreases s.len(),
{
    if s.len() > 0 && is_ws(s[0]) {
        trim_start(s.drop_first())
    } else {
        s
    }
}

/// `s` with trailing whitespace removed.
pub open spec fn trim_end(s: Seq<char>) -> Seq<char>
    decreases s.len(),
{
    if s.len() > 0 && is_ws(s.last()) {
        trim_end(s.drop_last())
    } else {
        s
    }
}

/// `s` with leading and trailing whitespace removed (`str::trim`).
pub open spec fn trim(s: Seq<char>) -> Seq<char> {
    trim_end(trim_start(s))
}

/// A line ended by `'\n'` loses one trailing `'\r'`.
pub open spec fn strip_cr(l: Seq<char>) -> Seq<char> {
    if l.len() > 0 && l.last() == '\r' {
        l.drop_last()
    } else {
        l
    }
}

/// One step of line splitting: the finished lines and the line in progress.
pub open spec fn lines_step(st: (Seq<Seq<char>>, Seq<char>), c: char) -> (Seq<Seq<char>>, Seq<char>) {
    if c == '\n' {
        (st.0.push(strip_cr(st.1)), Seq::empty())
    } else {
        (st.0, st.1.push(c))
    }
}

/// Line splitting state after reading all of `s`.
pub open spec fn lines_fold(s: Seq<char>) -> (Seq<Seq<char>>, Seq<char>)
    decreases s.len(),
{
    if s.len() == 0 {
        (Seq::empty(), Seq::empty())
    } else {
        lines_step(lines_fold(s.drop_last()), s.last())
    }
}

/// The lines of `s` (`str::lines`): split at `'\n'`, a `'\r'` before a `'\n'` dropped,
/// and no empty line after a final `'\n'`.
pub open spec fn lines(s: Seq<char>) -> Seq<Seq<char>> {
    let st = lines_fold(s);
    if st.1.len() == 0 {
        st.0
    } else {
        st.0.push(st.1)
    }
}

/// One step of whitespace tokenizing.
pub open spec fn tokens_step(st: (Seq<Seq<char>>, Seq<char>), c: char) -> (Seq<Seq<char>>, Seq<char>) {
    if is_ws(c) {
        if st.1.len() == 0 {
            st
        } else {
            (st.0.push(st.1), Seq::empty())
        }
    } else {
        (st.0, st.1.push(c))
    }
}

/// Tokenizing state after reading all of `s`.
pub open spec fn tokens_fold(s: Seq<char>) -> (Seq<Seq<char>>, Seq<char>)
    decreases s.len(),
{
    if s.len() == 0 {
        (Seq::empty(), Seq::empty())
    } else {
        tokens_step(tokens_fold(s.drop_last()), s.last())
    }
}

/// The maximal runs of non-whitespace characters of `s` (`str::split_whitespace`).
pub open spec fn tokens(s: Seq<char>) -> Seq<Seq<char>> {
    let st = tokens_fold(s);
    if st.1.len() == 0 {
        st.0
    } else {
        st.0.push(st.1)
    }
}

/// Splitting state after reading all of `s`, separating at `sep`.
pub open spec fn split_fold(s: Seq<char>, sep: char) -> (Seq<Seq<char>>, Seq<char>)
    decreases s.len(),
{
    if s.len() == 0 {
        (Seq::empty(), Seq::empty())
    } else {
        let st = split_fold(s.drop_last(), sep);
        if s.last() == sep {
            (st.0.push(st.1), Seq::empty())
        } else {
            (st.0, st.1.push(s.last()))
        }
    }
}

/// The pieces of `s` between occurrences of `sep` (`str::split` on a char).
pub open spec fn split_char(s: Seq<char>, sep: char) -> Seq<Seq<char>> {
    let st = split_fold(s, sep);
    st.0.push(st.1)
}

/// The first token that begins with `p`, with `p` removed.
pub open spec fn first_with_prefix(toks: Seq<Seq<char>>, p: Seq<char>) -> Option<Seq<char>>
    decreases toks.len(),
{
    if toks.len() == 0 {
        None
    } else if starts_with(toks[0], p) {
        Some(toks[0].skip(p.len() as int))
    } else {
        first_with_prefix(toks.drop_first(), p)
    }
}

/// The last token that begins with `p`, with `p` removed.
pub open spec fn last_with_prefix(toks: Seq<Seq<char>>, p: Seq<char>) -> Option<Seq<char>>
    decreases toks.len(),
{
    if toks.len() == 0 {
        None
    } else if starts_with(toks.last(), p) {
        Some(toks.last().skip(p.len() as int))
    } else {
        last_with_prefix(toks.drop_last(), p)
    }
}

/// `s` with every `from` replaced by `to`.
pub open spec fn replace_char(s: Seq<char>, from: char, to: char) -> Seq<char> {
    Seq::new(s.len(), |i: int| if s[i] == from { to } else { s[i] })
}

/// The decimal digit character for `d < 10`.
pub open spec fn digit_char(d: nat) -> char {
    (48 + d) as char
}

/// The decimal representation of `n`, without leading zeros.
pub open spec fn decimal(n: nat) -> Seq<char>
    decreases n,
{
    if n < 10 {
        seq![digit_char(n)]
    } else {
        decimal(n / 10).push(digit_char(n % 10))
    }
}

/// `c` is one of `'0'..='9'`.
pub open spec fn is_digit(c: char) -> bool {
    '0' <= c && c <= '9'
}

/// The value of a string of decimal digits.
pub open spec fn digits_value(d: Seq<char>) -> nat
    decreases d.len(),
{
    if d.len() == 0 {
        0
    } else {
        digits_value(d.drop_last()) * 10 + ((d.last() as nat) - 48) as nat
    }
}

/// Every character of `d` is a decimal digit.
pub open spec fn all_digits(d: Seq<char>) -> bool {
    forall|i: int| 0 <= i < d.len() ==> is_digit(#[trigger] d[i])
}

/// The part of a number literal after an optional leading `'+'`.
pub open spec fn unsigned_body(s: Seq<char>) -> Seq<char> {
    if s.len() > 0 && s[0] == '+' {
        s.drop_first()
    } else {
        s
    }
}

/// What `str::parse::<u8>` accepts: an optional `'+'`, then one or more decimal digits
/// whose value is at most 255.
pub open spec fn parse_u8(s: Seq<char>) -> Option<u8> {
    let d = unsigned_body(s);
    if d.len() > 0 && all_digits(d) && digits_value(d) <= 255 {
        Some(digits_value(d) as u8)
    } else {
        None
    }
}

/// What `str::parse::<u32>` accepts: an optional `'+'`, then one or more decimal digits
/// whose value fits in 32 bits.
pub open spec fn parse_u32(s: Seq<char>) -> Option<u32> {
    let d = unsigned_body(s);
    if d.len() > 0 && all_digits(d) && digits_value(d) <= u32::MAX {
        Some(digits_value(d) as u32)
    } else {
        None
    }
}

// ---------------------------------------------------------------------------
// Lemmas
// ---------------------------------------------------------------------------

/// `find_from` finds the first match at or after `i`.
pub proof fn lemma_find_from(h: Seq<char>, n: Seq<char>, i: int)
    requires
        0 <= i,
    ensures
        find_from(h, n, i) matches Some(k) ==> i <= k && match_at(h, n, k) && (forall|j: int|
            i <= j < k ==> !match_at(h, n, j)),
        find_from(h, n, i) is None ==> forall|j: int| i <= j ==> !match_at(h, n, j),
    decreases h.len() + 1 - i,
{
    if i + n.len() > h.len() {
    } else if match_at(h, n, i) {
    } else {
        lemma_find_from(h, n, i + 1);
        assert forall|j: int| i <= j && find_from(h, n, i) is None implies !match_at(h, n, j) by {
            if j == i {
            }
        }
    }
}

/// `contains` holds exactly when `find` finds something.
pub proof fn lemma_find_contains(h: Seq<char>, n: Seq<char>)
    ensures
        contains(h, n) <==> find(h, n) is Some,
        find(h, n) matches Some(k) ==> match_at(h, n, k) && forall|j: int|
            0 <= j < k ==> !match_at(h, n, j),
{
    lemma_find_from(h, n, 0);
    if find(h, n) is None {
        assert forall|j: int| !match_at(h, n, j) by {
            if 0 <= j {
            }
        }
    }
}

/// A sequence contains itself.
pub broadcast proof fn lemma_contains_refl(p: Seq<char>)
    ensures
        #[trigger] contains(p, p),
{
    assert(p.subrange(0, p.len() as int) =~= p);
    assert(match_at(p, p, 0));
}

/// What a part of a concatenation contains, the concatenation contains.
pub broadcast proof fn lemma_contains_add(a: Seq<char>, b: Seq<char>, p: Seq<char>)
    ensures
        (contains(a, p) || contains(b, p)) ==> #[trigger] contains(a + b, p),
{
    if contains(a, p) {
        let i = choose|i: int| match_at(a, p, i);
        assert((a + b).subrange(i, i + p.len()) =~= a.subrange(i, i + p.len()));
        assert(match_at(a + b, p, i));
    } else if contains(b, p) {
        let i = choose|i: int| match_at(b, p, i);
        assert((a + b).subrange(a.len() + i, a.len() + i + p.len()) =~= b.subrange(i, i + p.len()));
        assert(match_at(a + b, p, a.len() + i));
    }
}

/// The line splitting state: every finished line occurs in the text read, and the line in
/// progress ends it.
proof fn lemma_lines_fold_contained(s: Seq<char>)
    ensures
        forall|k: int| 0 <= k < lines_fold(s).0.len() ==> contains(s, #[trigger] lines_fold(s).0[k]),
        ends_with(s, lines_fold(s).1),
    decreases s.len(),
{
    if s.len() == 0 {
        assert(s.subrange(0, 0) =~= lines_fold(s).1);
    } else {
        let p = s.drop_last();
        let c = s.last();
        lemma_lines_fold_contained(p);
        let st = lines_fold(p);
        assert(s =~= p + seq![c]);
        assert forall|k: int| 0 <= k < st.0.len() implies contains(s, #[trigger] st.0[k]) by {
            lemma_contains_add(p, seq![c], st.0[k]);
        }
        let cur = st.1;
        assert(p.subrange(p.len() - cur.len(), p.len() as int) =~= cur);
        if c == '\n' {
            let l = strip_cr(cur);
            assert(match_at(p, l, p.len() - cur.len())) by {
                assert(p.subrange(p.len() - cur.len(), p.len() - cur.len() + l.len()) =~= l);
            }
            lemma_contains_add(p, seq![c], l);
            assert(lines_fold(s).0 =~= st.0.push(l));
            assert forall|k: int| 0 <= k < lines_fold(s).0.len() implies contains(s, #[trigger] lines_fold(s).0[k]) by {
                if k < st.0.len() {
                    assert(lines_fold(s).0[k] == st.0[k]);
                }
            }
            assert(s.subrange(s.len() as int, s.len() as int) =~= lines_fold(s).1);
        } else {
            assert(s.subrange(s.len() - cur.len() - 1, s.len() as int) =~= cur.push(c));
        }
    }
}

/// Every line of a text occurs in it.
pub proof fn lemma_line_in_text(s: Seq<char>, k: int)
    requires
        0 <= k < lines(s).len(),
    ensures
        contains(s, lines(s)[k]),
{
    lemma_lines_fold_contained(s);
    let st = lines_fold(s);
    if k < st.0.len() {
        assert(lines(s)[k] == st.0[k]);
    } else {
        assert(lines(s)[k] == st.1);
        assert(match_at(s, st.1, s.len() - st.1.len()));
    }
}

/// `rfind_char` finds the last occurrence of `c`.
pub proof fn lemma_rfind_char(s: Seq<char>, c: char)
    ensures
        rfind_char(s, c) matches Some(k) ==> 0 <= k < s.len() && s[k] == c,
    decreases s.len(),
{
    if s.len() > 0 && s.last() != c {
        lemma_rfind_char(s.drop_last(), c);
    }
}

/// Containment is transitive.
pub proof fn lemma_contains_trans(h: Seq<char>, m: Seq<char>, n: Seq<char>)
    requires
        contains(h, m),
        contains(m, n),
    ensures
        contains(h, n),
{
    let i = choose|i: int| match_at(h, m, i);
    let j = choose|j: int| match_at(m, n, j);
    assert(h.subrange(i + j, i + j + n.len()) =~= m.subrange(j, j + n.len()));
    assert(match_at(h, n, i + j));
}

/// Digit strings get no smaller as they are extended.
pub proof fn lemma_digits_value_prefix(d: Seq<char>, i: int)
    requires
        0 <= i <= d.len(),
    ensures
        digits_value(d.take(i)) <= digits_value(d),
    decreases d.len(),
{
    if i < d.len() {
        lemma_digits_value_prefix(d.drop_last(), i);
        assert(d.drop_last().take(i) =~= d.take(i));
    } else {
        assert(d.take(i) =~= d);
    }
}

// ---------------------------------------------------------------------------
// Executable operations
// ---------------------------------------------------------------------------

/// Appends one character to a string (`String::push`).
#[verifier::external_body]
pub(crate) fn push_char(s: &mut String, c: char)
    ensures
        final(s)@ == old(s)@.push(c),
{
    s.push(c);
}

/// Appends a string slice to a string.
pub(crate) fn push_str(s: &mut String, t: &str)
    ensures
        final(s)@ == old(s)@ + t@,
{
    s.append(t);
}

/// The characters of a string slice, in order.
pub fn chars_of(s: &str) -> (v: Vec<char>)
    ensures
        v@ == s@,
{
    let mut v: Vec<char> = Vec::new();
    for c in it: s.chars()
        invariant
            v@ == it.seq().take(it.index() as int),
            it.seq() == s@,
    {
        v.push(c);
    }
    v
}

/// Appends characters to a string.
pub fn push_chars(s: &mut String, v: &[char])
    ensures
        final(s)@ == old(s)@ + v@,
{
    let ghost start = s@;
    let mut i: usize = 0;
    while i < v.len()
        invariant
            i <= v.len(),
            s@ == start + v@.take(i as int),
        decreases v.len() - i,
    {
        push_char(s, v[i]);
        i = i + 1;
        assert(v@.take(i as int) =~= v@.take((i - 1) as int).push(v@[i - 1]));
    }
    assert(v@.take(v.len() as int) =~= v@);
}

/// A string holding the given characters.
pub fn string_of(v: &[char]) -> (s: String)
    ensures
        s@ == v@,
{
    let mut s = String::new();
    push_chars(&mut s, v);
    assert(s@ =~= v@);
    s
}

/// `char::is_whitespace`.
pub fn is_whitespace(c: char) -> (b: bool)
    ensures
        b == is_ws(c),
{
    let u = c as u32;
    u == 0x20 || (0x09 <= u && u <= 0x0D) || u == 0x85 || u == 0xA0 || u == 0x1680 || (0x2000 <= u
        && u <= 0x200A) || u == 0x2028 || u == 0x2029 || u == 0x202F || u == 0x205F || u == 0x3000
}

/// Whether two character sequences are equal.
pub fn chars_eq(av: &[char], bv: &[char]) -> (r: bool)
    ensures
        r == (av@ == bv@),
{
    if av.len() != bv.len() {
        return false;
    }
    let r = match_at_exec(av, bv, 0);
    assert(r ==> av@.subrange(0, bv@.len() as int) =~= av@);
    assert(av@ == bv@ ==> av@.subrange(0, bv@.len() as int) =~= bv@);
    r
}

/// Whether two strings are equal.
pub fn str_eq(a: &str, b: &str) -> (r: bool)
    ensures
        r == (a@ == b@),
{
    let av = chars_of(a);
    let bv = chars_of(b);
    chars_eq(av.as_slice(), bv.as_slice())
}

/// Whether `n` occurs in `h` at position `i`.
pub fn match_at_exec(h: &[char], n: &[char], i: usize) -> (b: bool)
    ensures
        b == match_at(h@, n@, i as int),
{
    if i > h.len() || n.len() > h.len() - i {
        return false;
    }
    let mut j: usize = 0;
    while j < n.len()
        invariant
            i + n.len() <= h.len(),
            j <= n.len(),
            forall|k: int| 0 <= k < j ==> h@[i + k] == n@[k],
        decreases n.len() - j,
    {
        if h[i + j] != n[j] {
            assert(h@.subrange(i as int, i + n.len())[j as int] != n@[j as int]);
            return false;
        }
        j = j + 1;
    }
    assert(h@.subrange(i as int, i + n.len()) =~= n@);
    true
}

/// The first position where `n` occurs in `h`.
pub fn find_exec(h: &[char], n: &[char]) -> (r: Option<usize>)
    ensures
        r matches Some(k) ==> find(h@, n@) == Some(k as int),
        r is None ==> find(h@, n@) is None,
{
    let mut i: usize = 0;
    while i <= h.len()
        invariant
            find(h@, n@) == find_from(h@, n@, i as int),
        decreases h.len() + 1 - i,
    {
        if n.len() > h.len() - i {
            return None;
        }
        if match_at_exec(h, n, i) {
            return Some(i);
        }
        if i == h.len() {
            assert(find_from(h@, n@, i + 1) is None);
            return None;
        }
        i = i + 1;
    }
    None
}

/// Whether `n` occurs anywhere in `h`.
pub fn contains_exec(h: &[char], n: &[char]) -> (b: bool)
    ensures
        b == contains(h@, n@),
{
    proof {
        lemma_find_contains(h@, n@);
    }
    find_exec(h, n).is_some()
}

/// Whether the literal `n` occurs anywhere in `h`.
pub fn contains_str(h: &[char], n: &str) -> (b: bool)
    ensures
        b == contains(h@, n@),
{
    let nv = chars_of(n);
    contains_exec(h, nv.as_slice())
}

/// Whether `h` begins with the literal `n`.
pub fn starts_with_str(h: &[char], n: &str) -> (b: bool)
    ensures
        b == starts_with(h@, n@),
{
    let nv = chars_of(n);
    match_at_exec(h, nv.as_slice(), 0)
}

/// Whether `h` ends with the literal `n`.
pub fn ends_with_str(h: &[char], n: &str) -> (b: bool)
    ensures
        b == ends_with(h@, n@),
{
    let nv = chars_of(n);
    if nv.len() > h.len() {
        return false;
    }
    match_at_exec(h, nv.as_slice(), h.len() - nv.len())
}

/// The characters `from..to` of `v`.
pub fn slice_chars(v: &[char], from: usize, to: usize) -> (r: Vec<char>)
    requires
        from <= to <= v.len(),
    ensures
        r@ == v@.subrange(from as int, to as int),
{
    let mut r: Vec<char> = Vec::new();
    let mut i = from;
    while i < to
        invariant
            from <= i <= to <= v.len(),
            r@ == v@.subrange(from as int, i as int),
        decreases to - i,
    {
        r.push(v[i]);
        i = i + 1;
        assert(r@ =~= v@.subrange(from as int, i as int));
    }
    r
}

/// `v` with leading and trailing whitespace removed.
pub fn trim_exec(v: &[char]) -> (r: Vec<char>)
    ensures
        r@ == trim(v@),
{
    let mut a: usize = 0;
    assert(v@.skip(0) =~= v@);
    while a < v.len() && is_whitespace(v[a])
        invariant
            a <= v.len(),
            trim_start(v@) == trim_start(v@.skip(a as int)),
        decreases v.len() - a,
    {
        assert(v@.skip(a as int).drop_first() =~= v@.skip(a + 1));
        a = a + 1;
    }
    assert(trim_start(v@) == v@.skip(a as int));
    let mut b: usize = v.len();
    while b > a && is_whitespace(v[b - 1])
        invariant
            a <= b <= v.len(),
            trim(v@) == trim_end(v@.subrange(a as int, b as int)),
        decreases b,
    {
        assert(v@.subrange(a as int, b as int).drop_last() =~= v@.subrange(a as int, b - 1));
        b = b - 1;
    }
    assert(v@.skip(a as int) =~= v@.subrange(a as int, v.len() as int));
    slice_chars(v, a, b)
}

/// The lines of `v`, as `str::lines` splits them.
pub fn lines_exec(v: &[char]) -> (r: Vec<Vec<char>>)
    ensures
        views(r@) == lines(v@),
{
    let mut done: Vec<Vec<char>> = Vec::new();
    let mut cur: Vec<char> = Vec::new();
    let mut i: usize = 0;
    while i < v.len()
        invariant
            i <= v.len(),
            (views(done@), cur@) == lines_fold(v@.take(i as int)),
        decreases v.len() - i,
    {
        assert(v@.take(i + 1).drop_last() =~= v@.take(i as int));
        if v[i] == '\n' {
            if cur.len() > 0 && cur[cur.len() - 1] == '\r' {
                cur.pop();
            }
            let line = cur;
            done.push(line);
            cur = Vec::new();
            assert(views(done@) =~= lines_fold(v@.take(i + 1)).0);
        } else {
            cur.push(v[i]);
        }
        i = i + 1;
    }
    assert(v@.take(v.len() as int) =~= v@);
    if cur.len() > 0 {
        done.push(cur);
        assert(views(done@) =~= lines(v@));
    }
    done
}

/// The whitespace-separated tokens of `v`, as `str::split_whitespace` yields them.
pub fn tokens_exec(v: &[char]) -> (r: Vec<Vec<char>>)
    ensures
        views(r@) == tokens(v@),
{
    let mut done: Vec<Vec<char>> = Vec::new();
    let mut cur: Vec<char> = Vec::new();
    let mut i: usize = 0;
    while i < v.len()
        invariant
            i <= v.len(),
            (views(done@), cur@) == tokens_fold(v@.take(i as int)),
        decreases v.len() - i,
    {
        assert(v@.take(i + 1).drop_last() =~= v@.take(i as int));
        if is_whitespace(v[i]) {
            if cur.len() > 0 {
                let tok = cur;
                done.push(tok);
                cur = Vec::new();
                assert(views(done@) =~= tokens_fold(v@.take(i + 1)).0);
            }
        } else {
            cur.push(v[i]);
        }
        i = i + 1;
    }
    assert(v@.take(v.len() as int) =~= v@);
    if cur.len() > 0 {
        done.push(cur);
        assert(views(done@) =~= tokens(v@));
    }
    done
}

/// The pieces of `v` between occurrences of `sep`.
pub fn split_char_exec(v: &[char], sep: char) -> (r: Vec<Vec<char>>)
    ensures
        views(r@) == split_char(v@, sep),
{
    let mut done: Vec<Vec<char>> = Vec::new();
    let mut cur: Vec<char> = Vec::new();
    let mut i: usize = 0;
    while i < v.len()
        invariant
            i <= v.len(),
            (views(done@), cur@) == split_fold(v@.take(i as int), sep),
        decreases v.len() - i,
    {
        assert(v@.take(i + 1).drop_last() =~= v@.take(i as int));
        if v[i] == sep {
            let piece = cur;
            done.push(piece);
            cur = Vec::new();
            assert(views(done@) =~= split_fold(v@.take(i + 1), sep).0);
        } else {
            cur.push(v[i]);
        }
        i = i + 1;
    }
    assert(v@.take(v.len() as int) =~= v@);
    done.push(cur);
    assert(views(done@) =~= split_char(v@, sep));
    done
}

/// The first token that begins with the literal `p`, with `p` removed.
pub fn first_with_prefix_exec(toks: &Vec<Vec<char>>, p: &str) -> (r: Option<Vec<char>>)
    ensures
        match r {
            Some(v) => first_with_prefix(views(toks@), p@) == Some(v@),
            None => first_with_prefix(views(toks@), p@) is None,
        },
{
    let pv = chars_of(p);
    let mut i: usize = 0;
    assert(views(toks@).skip(0) =~= views(toks@));
    while i < toks.len()
        invariant
            i <= toks.len(),
            pv@ == p@,
            first_with_prefix(views(toks@), p@) == first_with_prefix(views(toks@).skip(i as int), p@),
        decreases toks.len() - i,
    {
        let t = &toks[i];
        assert(views(toks@).skip(i as int)[0] == t@);
        if match_at_exec(t.as_slice(), pv.as_slice(), 0) {
            let r = slice_chars(t.as_slice(), pv.len(), t.len());
            assert(r@ =~= t@.skip(p@.len() as int));
            return Some(r);
        }
        assert(views(toks@).skip(i as int).drop_first() =~= views(toks@).skip(i + 1));
        i = i + 1;
    }
    None
}

/// The last token that begins with the literal `p`, with `p` removed.
pub fn last_with_prefix_exec(toks: &Vec<Vec<char>>, p: &str) -> (r: Option<Vec<char>>)
    ensures
        match r {
            Some(v) => last_with_prefix(views(toks@), p@) == Some(v@),
            None => last_with_prefix(views(toks@), p@) is None,
        },
{
    let pv = chars_of(p);
    let mut i: usize = toks.len();
    assert(views(toks@).take(i as int) =~= views(toks@));
    while i > 0
        invariant
            i <= toks.len(),
            pv@ == p@,
            last_with_prefix(views(toks@), p@) == last_with_prefix(views(toks@).take(i as int), p@),
        decreases i,
    {
        let t = &toks[i - 1];
        assert(views(toks@).take(i as int).last() == t@);
        if match_at_exec(t.as_slice(), pv.as_slice(), 0) {
            let r = slice_chars(t.as_slice(), pv.len(), t.len());
            assert(r@ =~= t@.skip(p@.len() as int));
            return Some(r);
        }
        assert(views(toks@).take(i as int).drop_last() =~= views(toks@).take(i - 1));
        i = i - 1;
    }
    None
}

/// The last position of `c` in `v`.
pub fn rfind_char_exec(v: &[char], c: char) -> (r: Option<usize>)
    ensures
        r matches Some(k) ==> rfind_char(v@, c) == Some(k as int),
        r is None ==> rfind_char(v@, c) is None,
{
    let mut i: usize = v.len();
    assert(v@.take(i as int) =~= v@);
    while i > 0
        invariant
            i <= v.len(),
            rfind_char(v@, c) == rfind_char(v@.take(i as int), c),
        decreases i,
    {
        if v[i - 1] == c {
            return Some(i - 1);
        }
        assert(v@.take(i as int).drop_last() =~= v@.take(i - 1));
        i = i - 1;
    }
    None
}

/// `v` with every `from` replaced by `to`.
pub fn replace_char_exec(v: &[char], from: char, to: char) -> (r: Vec<char>)
    ensures
        r@ == replace_char(v@, from, to),
{
    let mut r: Vec<char> = Vec::new();
    let mut i: usize = 0;
    while i < v.len()
        invariant
            i <= v.len(),
            r@ =~= replace_char(v@, from, to).take(i as int),
        decreases v.len() - i,
    {
        if v[i] == from {
            r.push(to);
        } else {
            r.push(v[i]);
        }
        i = i + 1;
    }
    r
}

/// The digit character for `d < 10`.
pub fn digit_char_exec(d: u64) -> (c: char)
    requires
        d < 10,
    ensures
        c == digit_char(d as nat),
{
    let b: u8 = (48 + d) as u8;
    b as char
}

/// Appends the decimal representation of `n`.
pub fn push_decimal(s: &mut String, n: u64)
    ensures
        final(s)@ == old(s)@ + decimal(n as nat),
    decreases n,
{
    if n >= 10 {
        push_decimal(s, n / 10);
    }
    let c = digit_char_exec(n % 10);
    push_char(s, c);
    assert(decimal(n as nat) == if n < 10 {
        seq![digit_char(n as nat)]
    } else {
        decimal((n / 10) as nat).push(digit_char((n % 10) as nat))
    });
}

/// Parses a `u8` the way `str::parse::<u8>` does.
pub fn parse_u8_exec(s: &[char]) -> (r: Option<u8>)
    ensures
        r == parse_u8(s@),
{
    let start: usize = if s.len() > 0 && s[0] == '+' { 1 } else { 0 };
    let ghost d = unsigned_body(s@);
    assert(d =~= s@.skip(start as int));
    if start >= s.len() {
        assert(d.len() == 0);
        return None;
    }
    let mut acc: u32 = 0;
    let mut i: usize = start;
    while i < s.len()
        invariant
            start <= i <= s.len(),
            d == unsigned_body(s@),
            d =~= s@.skip(start as int),
            acc as nat == digits_value(d.take(i - start)),
            acc <= 255,
            forall|k: int| 0 <= k < i - start ==> is_digit(#[trigger] d[k]),
        decreases s.len() - i,
    {
        let c = s[i];
        assert(d.take(i - start + 1).drop_last() =~= d.take(i - start));
        if !('0' <= c && c <= '9') {
            assert(!is_digit(d[i - start]));
            assert(!all_digits(d));
            return None;
        }
        let dv: u32 = (c as u32) - 48;
        assert(d[i - start] == c);
        assert(d.take(i - start + 1).last() == c);
        assert(digits_value(d.take(i - start + 1)) == digits_value(d.take(i - start)) * 10 + dv);
        acc = acc * 10 + dv;
        i = i + 1;
        if acc > 255 {
            proof {
                lemma_digits_value_prefix(d, i - start);
                assert(digits_value(d) > 255);
            }
            return None;
        }
    }
    assert(d.take(i - start) =~= d);
    Some(acc as u8)
}

/// Parses an unsigned 32-bit decimal number as `str::parse::<u32>` does.
pub fn parse_u32_exec(s: &[char]) -> (r: Option<u32>)
    ensures
        r == parse_u32(s@),
{
    let start: usize = if s.len() > 0 && s[0] == '+' { 1 } else { 0 };
    let ghost d = unsigned_body(s@);
    assert(d =~= s@.skip(start as int));
    if start >= s.len() {
        assert(d.len() == 0);
        return None;
    }
    let mut acc: u64 = 0;
    let mut i: usize = start;
    while i < s.len()
        invariant
            start <= i <= s.len(),
            d == unsigned_body(s@),
            d =~= s@.skip(start as int),
            acc as nat == digits_value(d.take(i - start)),
            acc <= u32::MAX,
            forall|k: int| 0 <= k < i - start ==> is_digit(#[trigger] d[k]),
        decreases s.len() - i,
    {
        let c = s[i];
        assert(d.take(i - start + 1).drop_last() =~= d.take(i - start));
        if !('0' <= c && c <= '9') {
            assert(!is_digit(d[i - start]));
            assert(!all_digits(d));
            return None;
        }
        let dv: u64 = (c as u64) - 48;
        assert(d[i - start] == c);
        assert(d.take(i - start + 1).last() == c);
        assert(digits_value(d.take(i - start + 1)) == digits_value(d.take(i - start)) * 10 + dv);
        acc = acc * 10 + dv;
        i = i + 1;
        if acc > u32::MAX as u64 {
            proof {
                lemma_digits_value_prefix(d, i - start);
                assert(digits_value(d) > u32::MAX);
            }
            return None;
        }
    }
    assert(d.take(i - start) =~= d);
    Some(acc as u32)
}

} // verus!
