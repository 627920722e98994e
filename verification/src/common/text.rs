//! Character-level text helpers shared by the request checks.
//!
//! Strings are viewed as sequences of Unicode scalar values (`Seq<char>`).

use vstd::prelude::*;

verus! {

/// The Unicode `White_Space` property, which `char::is_whitespace` and `str::trim` use.
pub open spec fn is_white_space(c: char) -> bool {
    let n = c as u32;
    ||| 0x09 <= n <= 0x0d
    ||| n == 0x20
    ||| n == 0x85
    ||| n == 0xa0
    ||| n == 0x1680
    ||| 0x2000 <= n <= 0x200a
    ||| n == 0x2028
    ||| n == 0x2029
    ||| n == 0x202f
    ||| n == 0x205f
    ||| n == 0x3000
}

/// Index of the first non-white-space char at or after `i`, or `s.len()` when there is none.
pub open spec fn skip_white_space(s: Seq<char>, i: int) -> int
    decreases s.len() - i,
{
    if i < 0 || i >= s.len() {
        s.len() as int
    } else if !is_white_space(s[i]) {
        i
    } else {
        skip_white_space(s, i + 1)
    }
}

/// Index just past the last non-white-space char of `s[lo..j]`, or `lo` when there is none.
pub open spec fn back_white_space(s: Seq<char>, lo: int, j: int) -> int
    decreases j - lo,
{
    if j <= lo {
        lo
    } else if !is_white_space(s[j - 1]) {
        j
    } else {
        back_white_space(s, lo, j - 1)
    }
}

/// `s` without its leading and trailing white space (what `str::trim` returns).
pub open spec fn trim_chars(s: Seq<char>) -> Seq<char> {
    let a = skip_white_space(s, 0);
    s.subrange(a, back_white_space(s, a, s.len() as int))
}

/// Name for what `str::to_lowercase` returns: the Unicode lowercase mapping of a string,
/// including its context-dependent rules (such as a final capital sigma).
pub uninterp spec fn lowercase_chars(s: Seq<char>) -> Seq<char>;

/// The lowercase hexadecimal digit for `n < 16`.
pub open spec fn hex_digit_spec(n: u8) -> char {
    if n < 10 {
        (48 + n) as char
    } else {
        (87 + n) as char
    }
}

/// Two lowercase hexadecimal digits per byte, high nibble first (what `format!("{:02x}")` gives per byte).
pub open spec fn hex_of(b: Seq<u8>) -> Seq<char>
    decreases b.len(),
{
    if b.len() == 0 {
        Seq::empty()
    } else {
        hex_of(b.drop_last()).push(hex_digit_spec(b.last() / 16)).push(
            hex_digit_spec(b.last() % 16),
        )
    }
}

/// Whether every char of `s` is one of `0-9a-f`.
pub open spec fn is_lower_hex(s: Seq<char>) -> bool {
    forall|i: int|
        0 <= i < s.len() ==> {
            let n = #[trigger] s[i] as u32;
            (48 <= n <= 57) || (97 <= n <= 102)
        }
}

/// `String::push`: appends `c` at the end of `s`.
#[verifier::external_body]
pub(crate) fn push_char(s: &mut String, c: char)
    ensures
        final(s)@ == old(s)@.push(c),
{
    s.push(c);
}

/// The ASCII lowercase of a char: `A`-`Z` become `a`-`z`, every other char stays.
pub open spec fn ascii_lower_char(c: char) -> char {
    if 'A' <= c <= 'Z' {
        ((c as u32) + 32) as char
    } else {
        c
    }
}

/// The ASCII lowercase of every char of `s`.
pub open spec fn ascii_lower(s: Seq<char>) -> Seq<char> {
    s.map_values(|c: char| ascii_lower_char(c))
}

/// `str::to_lowercase`; what it returns is named by [`lowercase_chars`]. On ASCII text the
/// Unicode lowercase mapping is the ASCII one (`A`-`Z` to `a`-`z`, all else unchanged), and
/// that much is stated.
#[verifier::external_body]
pub(crate) fn to_lowercase(s: &str) -> (r: String)
    ensures
        r@ == lowercase_chars(s@),
        vstd::utf8::is_ascii_chars(s@) ==> r@ == ascii_lower(s@),
{
    s.to_lowercase()
}

/// The chars of `s`, in order.
pub fn to_chars(s: &str) -> (v: Vec<char>)
    ensures
        v@ == s@,
{
    let mut v: Vec<char> = Vec::new();
    for c in it: s.chars()
        invariant
            v@ == it.seq().take(it.index()),
    {
        v.push(c);
    }
    v
}

/// A `String` holding `v[lo..hi]`.
pub fn string_from_chars(v: &Vec<char>, lo: usize, hi: usize) -> (r: String)
    requires
        lo <= hi <= v.len(),
    ensures
        r@ == v@.subrange(lo as int, hi as int),
{
    let mut r = String::new();
    let mut i = lo;
    while i < hi
        invariant
            lo <= i <= hi <= v.len(),
            r@ == v@.subrange(lo as int, i as int),
        decreases hi - i,
    {
        push_char(&mut r, v[i]);
        assert(v@.subrange(lo as int, i + 1) =~= v@.subrange(lo as int, i as int).push(v@[i as int]));
        i = i + 1;
    }
    r
}

/// Whether `c` has the Unicode `White_Space` property.
pub fn is_white_space_char(c: char) -> (b: bool)
    ensures
        b == is_white_space(c),
{
    let n = c as u32;
    (0x09 <= n && n <= 0x0d) || n == 0x20 || n == 0x85 || n == 0xa0 || n == 0x1680 || (0x2000
        <= n && n <= 0x200a) || n == 0x2028 || n == 0x2029 || n == 0x202f || n == 0x205f || n
        == 0x3000
}

/// `s` with leading and trailing white space removed.
pub fn trim(s: &str) -> (r: String)
    ensures
        r@ == trim_chars(s@),
{
    let v = to_chars(s);
    let n = v.len();
    let mut a: usize = 0;
    while a < n && is_white_space_char(v[a])
        invariant
            a <= n == v@.len(),
            skip_white_space(v@, 0) == skip_white_space(v@, a as int),
        decreases n - a,
    {
        a = a + 1;
    }
    let mut b: usize = n;
    while b > a && is_white_space_char(v[b - 1])
        invariant
            a <= b <= n == v@.len(),
            skip_white_space(v@, 0) == a,
            back_white_space(v@, a as int, n as int) == back_white_space(v@, a as int, b as int),
        decreases b - a,
    {
        b = b - 1;
    }
    string_from_chars(&v, a, b)
}

/// The lowercase hexadecimal digit for `n < 16`.
pub fn hex_digit(n: u8) -> (c: char)
    requires
        n < 16,
    ensures
        c == hex_digit_spec(n),
{
    if n < 10 {
        (48u8 + n) as char
    } else {
        (87u8 + n) as char
    }
}

/// Lowercase hexadecimal encoding of `bytes`, two digits per byte.
pub fn hex_encode(bytes: &[u8]) -> (r: String)
    ensures
        r@ == hex_of(bytes@),
        r@.len() == 2 * bytes@.len(),
        is_lower_hex(r@),
{
    let mut r = String::new();
    let mut i: usize = 0;
    while i < bytes.len()
        invariant
            i <= bytes@.len(),
            r@ == hex_of(bytes@.take(i as int)),
        decreases bytes.len() - i,
    {
        let byte = bytes[i];
        push_char(&mut r, hex_digit(byte / 16));
        push_char(&mut r, hex_digit(byte % 16));
        assert(bytes@.take(i + 1).drop_last() =~= bytes@.take(i as int));
        i = i + 1;
    }
    assert(bytes@.take(bytes@.len() as int) =~= bytes@);
    proof {
        lemma_hex_of_shape(bytes@);
    }
    r
}

/// The encoding has two lowercase hexadecimal digits per byte.
pub proof fn lemma_hex_of_shape(b: Seq<u8>)
    ensures
        hex_of(b).len() == 2 * b.len(),
        is_lower_hex(hex_of(b)),
        forall|i: int|
            0 <= i < b.len() ==> hex_of(b)[2 * i] == hex_digit_spec(#[trigger] b[i] / 16)
                && hex_of(b)[2 * i + 1] == hex_digit_spec(b[i] % 16),
    decreases b.len(),
{
    if b.len() > 0 {
        lemma_hex_of_shape(b.drop_last());
        let h = hex_of(b);
        let p = hex_of(b.drop_last());
        assert forall|i: int| 0 <= i < h.len() implies {
            let n = #[trigger] h[i] as u32;
            (48 <= n <= 57) || (97 <= n <= 102)
        } by {
            if i < p.len() {
                assert(h[i] == p[i]);
            }
        }
        assert forall|i: int| 0 <= i < b.len() implies hex_of(b)[2 * i] == hex_digit_spec(
            #[trigger] b[i] / 16,
        ) && hex_of(b)[2 * i + 1] == hex_digit_spec(b[i] % 16) by {
            if i < b.len() - 1 {
                assert(b.drop_last()[i] == b[i]);
            }
        }
    }
}

/// Distinct byte strings have distinct hexadecimal encodings.
pub proof fn lemma_hex_of_injective(a: Seq<u8>, b: Seq<u8>)
    requires
        hex_of(a) == hex_of(b),
    ensures
        a == b,
{
    lemma_hex_of_shape(a);
    lemma_hex_of_shape(b);
    assert forall|i: int| 0 <= i < a.len() implies a[i] == b[i] by {
        let x = a[i];
        let y = b[i];
        assert(hex_of(a)[2 * i] == hex_of(b)[2 * i]);
        assert(hex_of(a)[2 * i + 1] == hex_of(b)[2 * i + 1]);
        assert(hex_digit_spec(x / 16) == hex_digit_spec(y / 16));
        assert(hex_digit_spec(x % 16) == hex_digit_spec(y % 16));
        assert(x / 16 == y / 16);
        assert(x % 16 == y % 16);
    }
    assert(a =~= b);
}

/// Trimming removes exactly the white space at both ends: what remains is a slice of `s`
/// whose first and last chars are not white space, and everything cut off is white space.
pub proof fn lemma_trim_chars_shape(s: Seq<char>)
    ensures
        ({
            let a = skip_white_space(s, 0);
            let b = back_white_space(s, a, s.len() as int);
            &&& 0 <= a <= b <= s.len()
            &&& trim_chars(s) == s.subrange(a, b)
            &&& forall|k: int| 0 <= k < a ==> is_white_space(#[trigger] s[k])
            &&& forall|k: int| b <= k < s.len() ==> is_white_space(#[trigger] s[k])
            &&& a < b ==> !is_white_space(s[a]) && !is_white_space(s[b - 1])
        }),
{
    lemma_skip_white_space(s, 0);
    let a = skip_white_space(s, 0);
    lemma_back_white_space(s, a, s.len() as int);
}

proof fn lemma_skip_white_space(s: Seq<char>, i: int)
    requires
        0 <= i <= s.len(),
    ensures
        i <= skip_white_space(s, i) <= s.len(),
        forall|k: int| i <= k < skip_white_space(s, i) ==> is_white_space(#[trigger] s[k]),
        skip_white_space(s, i) < s.len() ==> !is_white_space(s[skip_white_space(s, i)]),
    decreases s.len() - i,
{
    if i < s.len() && is_white_space(s[i]) {
        lemma_skip_white_space(s, i + 1);
    }
}

proof fn lemma_back_white_space(s: Seq<char>, lo: int, j: int)
    requires
        0 <= lo <= j <= s.len(),
    ensures
        lo <= back_white_space(s, lo, j) <= j,
        forall|k: int| back_white_space(s, lo, j) <= k < j ==> is_white_space(#[trigger] s[k]),
        back_white_space(s, lo, j) > lo ==> !is_white_space(s[back_white_space(s, lo, j) - 1]),
    decreases j - lo,
{
    if j > lo && is_white_space(s[j - 1]) {
        lemma_back_white_space(s, lo, j - 1);
    }
}

/// Trimming twice is the same as trimming once.
pub proof fn lemma_trim_chars_idempotent(s: Seq<char>)
    ensures
        trim_chars(trim_chars(s)) == trim_chars(s),
{
    lemma_trim_chars_shape(s);
    let t = trim_chars(s);
    lemma_trim_chars_shape(t);
    if t.len() > 0 {
        assert(skip_white_space(t, 0) == 0);
        lemma_back_white_space(t, 0, t.len() as int);
        assert(back_white_space(t, 0, t.len() as int) == t.len());
    }
    assert(trim_chars(t) =~= t);
}

/// Whether every char of `s` is white space.
pub open spec fn all_white_space(s: Seq<char>) -> bool {
    forall|i: int| 0 <= i < s.len() ==> is_white_space(#[trigger] s[i])
}

proof fn lemma_skip_white_space_to(s: Seq<char>, i: int, j: int)
    requires
        0 <= i <= j <= s.len(),
        forall|k: int| i <= k < j ==> is_white_space(#[trigger] s[k]),
        j == s.len() || !is_white_space(s[j]),
    ensures
        skip_white_space(s, i) == j,
    decreases j - i,
{
    if i < j {
        lemma_skip_white_space_to(s, i + 1, j);
    }
}

proof fn lemma_back_white_space_to(s: Seq<char>, lo: int, j: int, b: int)
    requires
        0 <= lo <= b <= j <= s.len(),
        forall|k: int| b <= k < j ==> is_white_space(#[trigger] s[k]),
        b == lo || !is_white_space(s[b - 1]),
    ensures
        back_white_space(s, lo, j) == b,
    decreases j - b,
{
    if b < j {
        lemma_back_white_space_to(s, lo, j - 1, b);
    }
}

/// Trimming `p + t + q`, with `p` and `q` all white space and `t` free of white space at
/// both ends, gives exactly `t`.
pub proof fn lemma_trim_chars_unique(p: Seq<char>, t: Seq<char>, q: Seq<char>)
    requires
        all_white_space(p),
        all_white_space(q),
        t.len() > 0 ==> !is_white_space(t[0]) && !is_white_space(t[t.len() - 1]),
    ensures
        trim_chars(p + t + q) == t,
{
    let s = p + t + q;
    if t.len() == 0 {
        assert forall|k: int| 0 <= k < s.len() implies is_white_space(#[trigger] s[k]) by {
            if k < p.len() {
                assert(s[k] == p[k]);
            } else {
                assert(s[k] == q[k - p.len()]);
            }
        }
        lemma_skip_white_space_to(s, 0, s.len() as int);
        assert(trim_chars(s) =~= t);
    } else {
        let a = p.len() as int;
        let b = (p.len() + t.len()) as int;
        assert forall|k: int| 0 <= k < a implies is_white_space(#[trigger] s[k]) by {
            assert(s[k] == p[k]);
        }
        assert(s[a] == t[0]);
        lemma_skip_white_space_to(s, 0, a);
        assert forall|k: int| b <= k < s.len() implies is_white_space(#[trigger] s[k]) by {
            assert(s[k] == q[k - b]);
        }
        assert(s[b - 1] == t[t.len() - 1]);
        lemma_back_white_space_to(s, a, s.len() as int, b);
        assert(trim_chars(s) =~= t);
    }
}

/// White space added around a string does not change what trimming it gives.
pub proof fn lemma_trim_chars_ignores_surrounding_white_space(
    before: Seq<char>,
    s: Seq<char>,
    after: Seq<char>,
)
    requires
        all_white_space(before),
        all_white_space(after),
    ensures
        trim_chars(before + s + after) == trim_chars(s),
{
    lemma_trim_chars_shape(s);
    let a = skip_white_space(s, 0);
    let b = back_white_space(s, a, s.len() as int);
    let p = s.subrange(0, a);
    let t = s.subrange(a, b);
    let q = s.subrange(b, s.len() as int);
    assert(s =~= p + t + q);
    assert(before + s + after =~= (before + p) + t + (q + after));
    assert(all_white_space(before + p)) by {
        assert forall|k: int| 0 <= k < (before + p).len() implies is_white_space(
            #[trigger] (before + p)[k],
        ) by {
            if k >= before.len() {
                assert((before + p)[k] == s[k - before.len()]);
            }
        }
    }
    assert(all_white_space(q + after)) by {
        assert forall|k: int| 0 <= k < (q + after).len() implies is_white_space(
            #[trigger] (q + after)[k],
        ) by {
            if k < q.len() {
                assert((q + after)[k] == s[b + k]);
            }
        }
    }
    if t.len() > 0 {
        assert(t[0] == s[a]);
        assert(t[t.len() - 1] == s[b - 1]);
    }
    lemma_trim_chars_unique(before + p, t, q + after);
    lemma_trim_chars_unique(p, t, q);
}

/// Whether `x` and `y` differ at most in the ASCII case of their letters.
pub open spec fn same_but_ascii_case(x: Seq<char>, y: Seq<char>) -> bool {
    &&& x.len() == y.len()
    &&& forall|i: int| 0 <= i < x.len() ==> ascii_lower_char(#[trigger] x[i]) == ascii_lower_char(y[i])
}

proof fn lemma_same_case_white_space(x: Seq<char>, y: Seq<char>, i: int)
    requires
        same_but_ascii_case(x, y),
        0 <= i < x.len(),
    ensures
        is_white_space(x[i]) == is_white_space(y[i]),
{
    assert(ascii_lower_char(x[i]) == ascii_lower_char(y[i]));
}

proof fn lemma_same_case_skip(x: Seq<char>, y: Seq<char>, i: int)
    requires
        same_but_ascii_case(x, y),
        0 <= i <= x.len(),
    ensures
        skip_white_space(x, i) == skip_white_space(y, i),
    decreases x.len() - i,
{
    if i < x.len() {
        lemma_same_case_white_space(x, y, i);
        lemma_same_case_skip(x, y, i + 1);
    }
}

proof fn lemma_same_case_back(x: Seq<char>, y: Seq<char>, lo: int, j: int)
    requires
        same_but_ascii_case(x, y),
        0 <= lo <= j <= x.len(),
    ensures
        back_white_space(x, lo, j) == back_white_space(y, lo, j),
    decreases j - lo,
{
    if lo < j {
        lemma_same_case_white_space(x, y, j - 1);
        lemma_same_case_back(x, y, lo, j - 1);
    }
}

/// Trimming two strings that differ only in ASCII case gives two strings that differ only in
/// ASCII case.
pub proof fn lemma_trim_chars_keeps_case_difference(x: Seq<char>, y: Seq<char>)
    requires
        same_but_ascii_case(x, y),
    ensures
        same_but_ascii_case(trim_chars(x), trim_chars(y)),
{
    lemma_same_case_skip(x, y, 0);
    let a = skip_white_space(x, 0);
    lemma_skip_white_space(x, 0);
    lemma_same_case_back(x, y, a, x.len() as int);
    lemma_back_white_space(x, a, x.len() as int);
    let b = back_white_space(x, a, x.len() as int);
    assert forall|i: int| 0 <= i < trim_chars(x).len() implies ascii_lower_char(
        #[trigger] trim_chars(x)[i],
    ) == ascii_lower_char(trim_chars(y)[i]) by {
        assert(trim_chars(x)[i] == x[a + i]);
        assert(trim_chars(y)[i] == y[a + i]);
    }
}

/// Strings that differ only in ASCII case have the same ASCII lowercase.
pub proof fn lemma_ascii_lower_same_case(x: Seq<char>, y: Seq<char>)
    requires
        same_but_ascii_case(x, y),
    ensures
        ascii_lower(x) == ascii_lower(y),
{
    assert(ascii_lower(x) =~= ascii_lower(y));
}

/// Trimming ASCII text leaves ASCII text.
pub proof fn lemma_trim_chars_ascii(s: Seq<char>)
    requires
        vstd::utf8::is_ascii_chars(s),
    ensures
        vstd::utf8::is_ascii_chars(trim_chars(s)),
{
    lemma_trim_chars_shape(s);
    let a = skip_white_space(s, 0);
    assert forall|i: int| 0 <= i < trim_chars(s).len() implies '\0' <= #[trigger] trim_chars(
        s,
    )[i] <= '\u{7f}' by {
        assert(trim_chars(s)[i] == s[a + i]);
    }
}

/// The ASCII lowercase of a string differs from it only in ASCII case, and is ASCII when the
/// string is.
pub proof fn lemma_ascii_lower_shape(s: Seq<char>)
    ensures
        same_but_ascii_case(ascii_lower(s), s),
        vstd::utf8::is_ascii_chars(s) ==> vstd::utf8::is_ascii_chars(ascii_lower(s)),
{
    assert forall|i: int| 0 <= i < ascii_lower(s).len() implies ascii_lower_char(
        #[trigger] ascii_lower(s)[i],
    ) == ascii_lower_char(s[i]) by {
        let c = s[i];
        if 'A' <= c <= 'Z' {
            assert('a' <= ascii_lower_char(c) <= 'z');
        }
    }
    if vstd::utf8::is_ascii_chars(s) {
        assert forall|i: int| 0 <= i < ascii_lower(s).len() implies '\0' <= #[trigger] ascii_lower(
            s,
        )[i] <= '\u{7f}' by {
            assert(ascii_lower(s)[i] == ascii_lower_char(s[i]));
            assert('\0' <= s[i] <= '\u{7f}');
        }
    }
}

/// A string that differs only in ASCII case from one with nothing to trim has nothing to trim
/// either.
pub proof fn lemma_trim_chars_fixed_by_case(x: Seq<char>, y: Seq<char>)
    requires
        same_but_ascii_case(x, y),
        trim_chars(y) == y,
    ensures
        trim_chars(x) == x,
{
    lemma_same_case_skip(x, y, 0);
    lemma_skip_white_space(x, 0);
    let a = skip_white_space(x, 0);
    lemma_same_case_back(x, y, a, x.len() as int);
    lemma_back_white_space(x, a, x.len() as int);
    assert(trim_chars(y).len() == y.len());
    assert(trim_chars(x) =~= x);
}

} // verus!
