//! Text helpers over `str`/`String`, specified over the character sequence
//! (`s@`) and, where the byte layout matters, over its UTF-8 length.

use vstd::prelude::*;
use vstd::utf8::*;

verus! {

// ---------------------------------------------------------------------------
// UTF-8 lengths
// ---------------------------------------------------------------------------

/// Number of bytes in the UTF-8 encoding of one character.
pub open spec fn utf8_width(c: char) -> nat {
    if (c as u32) <= 0x7f {
        1
    } else if (c as u32) <= 0x7ff {
        2
    } else if (c as u32) <= 0xffff {
        3
    } else {
        4
    }
}

/// Number of bytes in the UTF-8 encoding of a character sequence
/// (what `str::len` returns).
pub open spec fn utf8_len(s: Seq<char>) -> nat
    decreases s.len(),
{
    if s.len() == 0 {
        0
    } else {
        utf8_width(s[0]) + utf8_len(s.drop_first())
    }
}

/// `k` bytes into `s` is the end of a character (a valid end for `&s[..k]`).
pub open spec fn is_byte_boundary(s: Seq<char>, k: int) -> bool {
    exists|i: int| 0 <= i <= s.len() && #[trigger] utf8_len(s.take(i)) == k
}

/// The characters of `&s[..k]`, for a byte boundary `k`.
pub open spec fn byte_prefix(s: Seq<char>, k: int) -> Seq<char> {
    s.take(choose|i: int| 0 <= i <= s.len() && #[trigger] utf8_len(s.take(i)) == k)
}

/// The byte length of joined text is the sum of the parts' lengths.
pub proof fn lemma_utf8_len_concat(a: Seq<char>, b: Seq<char>)
    ensures
        utf8_len(a + b) == utf8_len(a) + utf8_len(b),
    decreases a.len(),
{
    if a.len() == 0 {
        assert(a + b =~= b);
    } else {
        assert((a + b).drop_first() =~= a.drop_first() + b);
        lemma_utf8_len_concat(a.drop_first(), b);
    }
}

/// Adding one more character to a prefix adds its width.
pub proof fn lemma_utf8_len_take_step(s: Seq<char>, i: int)
    requires
        0 <= i < s.len(),
    ensures
        utf8_len(s.take(i + 1)) == utf8_len(s.take(i)) + utf8_width(s[i]),
{
    assert(s.take(i + 1) =~= s.take(i) + seq![s[i]]);
    lemma_utf8_len_concat(s.take(i), seq![s[i]]);
    assert(seq![s[i]].drop_first() =~= Seq::<char>::empty());
    assert(utf8_len(seq![s[i]]) == utf8_width(s[i])) by {
        reveal_with_fuel(utf8_len, 2);
    }
}

/// Byte lengths of prefixes grow strictly with the number of characters.
pub proof fn lemma_utf8_len_take_strict(s: Seq<char>, i: int, j: int)
    requires
        0 <= i < j <= s.len(),
    ensures
        utf8_len(s.take(i)) < utf8_len(s.take(j)),
    decreases j - i,
{
    lemma_utf8_len_take_step(s, j - 1);
    if i < j - 1 {
        lemma_utf8_len_take_strict(s, i, j - 1);
    }
}

/// A byte boundary is reached by exactly one character count.
pub proof fn lemma_byte_prefix_unique(s: Seq<char>, i: int, k: int)
    requires
        0 <= i <= s.len(),
        utf8_len(s.take(i)) == k,
    ensures
        is_byte_boundary(s, k),
        byte_prefix(s, k) == s.take(i),
{
    let j = choose|j: int| 0 <= j <= s.len() && #[trigger] utf8_len(s.take(j)) == k;
    if j < i {
        lemma_utf8_len_take_strict(s, j, i);
    } else if i < j {
        lemma_utf8_len_take_strict(s, i, j);
    }
}

/// The byte length of a whole sequence bounds that of every prefix.
pub proof fn lemma_utf8_len_take_le(s: Seq<char>, i: int)
    requires
        0 <= i <= s.len(),
    ensures
        utf8_len(s.take(i)) <= utf8_len(s),
{
    assert(s.take(s.len() as int) =~= s);
    if i < s.len() {
        lemma_utf8_len_take_strict(s, i, s.len() as int);
    }
}

/// `utf8_len` agrees with vstd's encoder.
pub proof fn lemma_utf8_len_encode(s: Seq<char>)
    ensures
        encode_utf8(s).len() == utf8_len(s),
    decreases s.len(),
{
    if s.len() > 0 {
        let c = s[0] as u32;
        assert(is_scalar(c)) by {
            char_is_scalar(s[0]);
        }
        lemma_utf8_len_encode(s.drop_first());
        assert(encode_scalar(c).len() == utf8_width(s[0]));
    }
}

// ---------------------------------------------------------------------------
// Character predicates of std
// ---------------------------------------------------------------------------

/// The Unicode `White_Space` property, which `char::is_whitespace`
/// answers: U+0009 to U+000D, the space, U+0085, U+00A0, U+1680, U+2000 to
/// U+200A, U+2028, U+2029, U+202F, U+205F and U+3000.
pub open spec fn spec_is_whitespace(c: char) -> bool {
    let u = c as u32;
    ||| 0x09 <= u <= 0x0d
    ||| u == 0x20 || u == 0x85 || u == 0xa0 || u == 0x1680
    ||| 0x2000 <= u <= 0x200a
    ||| u == 0x2028 || u == 0x2029 || u == 0x202f || u == 0x205f || u == 0x3000
}

/// What `char::is_alphanumeric` answers (Unicode `Alphabetic` or `Numeric`).
pub uninterp spec fn spec_is_alphanumeric(c: char) -> bool;

/// What `str::to_lowercase` returns (Unicode lowercase mapping).
pub uninterp spec fn spec_to_lowercase(s: Seq<char>) -> Seq<char>;

/// Whether `c` is whitespace (as `char::is_whitespace` answers).
pub fn is_whitespace(c: char) -> (b: bool)
    ensures
        b == spec_is_whitespace(c),
{
    let u = c as u32;
    (0x09 <= u && u <= 0x0d) || u == 0x20 || u == 0x85 || u == 0xa0 || u == 0x1680
        || (0x2000 <= u && u <= 0x200a) || u == 0x2028 || u == 0x2029 || u == 0x202f || u == 0x205f
        || u == 0x3000
}

/// std `char::is_alphanumeric`: the answer is named `spec_is_alphanumeric`;
/// the Unicode tables behind it are not stated.
#[verifier::external_body]
pub(crate) fn is_alphanumeric(c: char) -> (b: bool)
    ensures
        b == spec_is_alphanumeric(c),
{
    c.is_alphanumeric()
}

/// std `str::to_lowercase`: the result is named `spec_to_lowercase` of the
/// input's characters, and it is empty exactly when the input is (each
/// character maps to one or more characters); the Unicode case mapping
/// itself is not stated.
#[verifier::external_body]
pub(crate) fn to_lowercase(s: &str) -> (r: String)
    ensures
        r@ == spec_to_lowercase(s@),
        r@.len() == 0 <==> s@.len() == 0,
{
    s.to_lowercase()
}

// ---------------------------------------------------------------------------
// Building strings
// ---------------------------------------------------------------------------

/// std `String::push`: the character sequence grows by that character.
#[verifier::external_body]
pub(crate) fn push_char(s: &mut String, c: char)
    ensures
        final(s)@ == old(s)@.push(c),
{
    s.push(c);
}

/// std `String::pop`: removes and returns the last character, if any.
#[verifier::external_body]
pub(crate) fn pop_char(s: &mut String) -> (r: Option<char>)
    ensures
        old(s)@.len() == 0 ==> r is None && final(s)@ == old(s)@,
        old(s)@.len() > 0 ==> r == Some(old(s)@.last()) && final(s)@ == old(s)@.drop_last(),
{
    s.pop()
}

/// The characters of a string slice, in order.
pub fn chars_of(s: &str) -> (v: Vec<char>)
    ensures
        v@ == s@,
{
    let mut v: Vec<char> = Vec::new();
    for c in it: s.chars()
        invariant
            it.seq() == s@,
            v@ == s@.take(it.index() as int),
    {
        v.push(c);
    }
    assert(v@ =~= s@);
    v
}

/// A `String` holding the characters `v[from..to]`.
pub fn string_of_range(v: &Vec<char>, from: usize, to: usize) -> (r: String)
    requires
        from <= to <= v.len(),
    ensures
        r@ == v@.subrange(from as int, to as int),
{
    let mut r = String::new();
    let mut i = from;
    while i < to
        invariant
            from <= i <= to <= v.len(),
            r@ == v@.subrange(from as int, i as int),
        decreases to - i,
    {
        push_char(&mut r, v[i]);
        i += 1;
        assert(r@ =~= v@.subrange(from as int, i as int));
    }
    r
}

/// A `String` holding the characters of `v`.
pub fn string_of(v: &Vec<char>) -> (r: String)
    ensures
        r@ == v@,
{
    let r = string_of_range(v, 0, v.len());
    assert(v@.subrange(0, v@.len() as int) =~= v@);
    r
}

/// `a` followed by `b`.
pub fn concat(a: &str, b: &str) -> (r: String)
    ensures
        r@ == a@ + b@,
{
    let mut r = String::from_str(a);
    r.append(b);
    r
}

/// Equality of the character sequences.
pub fn str_eq(a: &str, b: &str) -> (r: bool)
    ensures
        r == (a@ == b@),
{
    let va = chars_of(a);
    let vb = chars_of(b);
    if va.len() != vb.len() {
        return false;
    }
    let mut i: usize = 0;
    while i < va.len()
        invariant
            va@ == a@,
            vb@ == b@,
            va.len() == vb.len(),
            i <= va.len(),
            forall|j: int| 0 <= j < i ==> va@[j] == vb@[j],
        decreases va.len() - i,
    {
        if va[i] != vb[i] {
            return false;
        }
        i += 1;
    }
    assert(va@ =~= vb@);
    true
}


// ---------------------------------------------------------------------------
// Byte positions
// ---------------------------------------------------------------------------

/// Width in bytes of one character's UTF-8 encoding.
pub fn char_width(c: char) -> (w: u128)
    ensures
        w == utf8_width(c),
{
    let u = c as u32;
    if u <= 0x7f {
        1
    } else if u <= 0x7ff {
        2
    } else if u <= 0xffff {
        3
    } else {
        4
    }
}

/// Whether the UTF-8 encoding of `v` is longer than `max` bytes.
pub fn exceeds_bytes(v: &Vec<char>, max: usize) -> (r: bool)
    ensures
        r == (utf8_len(v@) > max),
{
    let mut i: usize = 0;
    let mut acc: u128 = 0;
    while i < v.len() && acc <= max as u128
        invariant
            i <= v.len(),
            acc == utf8_len(v@.take(i as int)),
            acc <= max as u128 + 4,
        decreases v.len() - i,
    {
        proof {
            lemma_utf8_len_take_step(v@, i as int);
        }
        acc = acc + char_width(v[i]);
        i += 1;
    }
    proof {
        lemma_utf8_len_take_le(v@, i as int);
        assert(v@.take(v@.len() as int) =~= v@);
    }
    acc > max as u128
}

/// The number of characters whose encoding takes exactly the first `k`
/// bytes of `v`.
pub fn char_index_of_byte(v: &Vec<char>, k: usize) -> (r: usize)
    requires
        is_byte_boundary(v@, k as int),
    ensures
        r <= v.len(),
        utf8_len(v@.take(r as int)) == k,
        byte_prefix(v@, k as int) == v@.take(r as int),
{
    let ghost b = choose|i: int| 0 <= i <= v@.len() && #[trigger] utf8_len(v@.take(i)) == k;
    let mut j: usize = 0;
    let mut acc: u128 = 0;
    while acc < k as u128
        invariant
            0 <= b <= v@.len(),
            b <= v.len(),
            utf8_len(v@.take(b)) == k,
            j <= b,
            acc == utf8_len(v@.take(j as int)),
        decreases b - j,
    {
        proof {
            assert(j != b);
            lemma_utf8_len_take_step(v@, j as int);
        }
        acc = acc + char_width(v[j]);
        j += 1;
    }
    proof {
        if (j as int) < b {
            lemma_utf8_len_take_strict(v@, j as int, b);
        }
        lemma_byte_prefix_unique(v@, j as int, k as int);
    }
    j
}

/// Whether `k` bytes into `s` is the end of a character, so that
/// `&s[..k]` may be taken.
pub fn char_boundary(s: &str, k: usize) -> (r: bool)
    ensures
        r == is_byte_boundary(s@, k as int),
{
    let v = chars_of(s);
    let mut j: usize = 0;
    let mut acc: u128 = 0;
    while j < v.len() && acc < k as u128
        invariant
            j <= v.len(),
            v@ == s@,
            acc == utf8_len(v@.take(j as int)),
            forall|i: int| 0 <= i < j ==> #[trigger] utf8_len(v@.take(i)) < k,
        decreases v.len() - j,
    {
        proof {
            lemma_utf8_len_take_step(v@, j as int);
        }
        acc = acc + char_width(v[j]);
        j += 1;
    }
    proof {
        if acc == k as u128 {
            assert(utf8_len(v@.take(j as int)) == k);
        } else {
            assert forall|i: int| 0 <= i <= v@.len() implies #[trigger] utf8_len(v@.take(i)) != k by {
                if i > j {
                    lemma_utf8_len_take_strict(v@, j as int, i);
                }
            }
        }
    }
    acc == k as u128
}

// ---------------------------------------------------------------------------
// Truncation
// ---------------------------------------------------------------------------

/// `s` cut to at most `max` bytes, the cut marked with `…`:
/// `&s[..max - 1]` followed by `…` when `s` is longer than `max` bytes.
pub open spec fn truncated(s: Seq<char>, max: int) -> Seq<char> {
    if utf8_len(s) > max {
        byte_prefix(s, max - 1).push('\u{2026}')
    } else {
        s
    }
}

/// `&s[..max - 3]` followed by `...` when `s` is longer than `max` bytes.
pub open spec fn truncated_with_dots(s: Seq<char>, max: int) -> Seq<char> {
    if utf8_len(s) > max {
        byte_prefix(s, max - 3) + seq!['.', '.', '.']
    } else {
        s
    }
}

/// `&s[..limit]` followed by `...` when `s` is longer than `limit` bytes.
pub open spec fn previewed(s: Seq<char>, limit: int) -> Seq<char> {
    if utf8_len(s) > limit {
        byte_prefix(s, limit) + seq!['.', '.', '.']
    } else {
        s
    }
}

/// Shortens `s` to fit `max` bytes, marking the cut with an ellipsis
/// character. Cutting inside a character is refused (as slicing a `str`
/// would panic there).
pub fn truncate(s: &str, max: usize) -> (r: String)
    requires
        utf8_len(s@) > max ==> max >= 1 && is_byte_boundary(s@, max - 1),
    ensures
        r@ == truncated(s@, max as int),
{
    let v = chars_of(s);
    if exceeds_bytes(&v, max) {
        let cut = char_index_of_byte(&v, max - 1);
        let mut r = string_of_range(&v, 0, cut);
        push_char(&mut r, '\u{2026}');
        r
    } else {
        String::from_str(s)
    }
}

/// Shortens `s` to fit `max` bytes, ending the cut text with `...`.
pub fn truncate_with_dots(s: &str, max: usize) -> (r: String)
    requires
        utf8_len(s@) > max ==> max >= 3 && is_byte_boundary(s@, max - 3),
    ensures
        r@ == truncated_with_dots(s@, max as int),
{
    let v = chars_of(s);
    if exceeds_bytes(&v, max) {
        let cut = char_index_of_byte(&v, max - 3);
        let head = string_of_range(&v, 0, cut);
        proof {
            reveal_strlit("...");
        }
        concat(head.as_str(), "...")
    } else {
        String::from_str(s)
    }
}

/// The first `limit` bytes of `s` followed by `...`, or `s` itself when it
/// is no longer than that.
pub fn preview(s: &str, limit: usize) -> (r: String)
    requires
        utf8_len(s@) > limit ==> is_byte_boundary(s@, limit as int),
    ensures
        r@ == previewed(s@, limit as int),
{
    let v = chars_of(s);
    if exceeds_bytes(&v, limit) {
        let cut = char_index_of_byte(&v, limit);
        let head = string_of_range(&v, 0, cut);
        proof {
            reveal_strlit("...");
        }
        concat(head.as_str(), "...")
    } else {
        String::from_str(s)
    }
}


// ---------------------------------------------------------------------------
// Trimming
// ---------------------------------------------------------------------------

/// `s` without its leading run of `c` (`str::trim_start_matches(c)`).
pub open spec fn trim_start_char(s: Seq<char>, c: char) -> Seq<char>
    decreases s.len(),
{
    if s.len() > 0 && s[0] == c {
        trim_start_char(s.drop_first(), c)
    } else {
        s
    }
}

/// `s` without its trailing run of `c` (`str::trim_end_matches(c)`).
pub open spec fn trim_end_char(s: Seq<char>, c: char) -> Seq<char>
    decreases s.len(),
{
    if s.len() > 0 && s.last() == c {
        trim_end_char(s.drop_last(), c)
    } else {
        s
    }
}

/// `s` without leading whitespace.
pub open spec fn trim_start_ws(s: Seq<char>) -> Seq<char>
    decreases s.len(),
{
    if s.len() > 0 && spec_is_whitespace(s[0]) {
        trim_start_ws(s.drop_first())
    } else {
        s
    }
}

/// `s` without trailing whitespace.
pub open spec fn trim_end_ws(s: Seq<char>) -> Seq<char>
    decreases s.len(),
{
    if s.len() > 0 && spec_is_whitespace(s.last()) {
        trim_end_ws(s.drop_last())
    } else {
        s
    }
}

/// `s` without leading and trailing whitespace (`str::trim`).
pub open spec fn trimmed(s: Seq<char>) -> Seq<char> {
    trim_end_ws(trim_start_ws(s))
}

/// Removes every leading `c` from `s`.
pub fn trim_start_matches(s: &str, c: char) -> (r: String)
    ensures
        r@ == trim_start_char(s@, c),
{
    let v = chars_of(s);
    let mut i: usize = 0;
    assert(v@.skip(0) =~= v@);
    while i < v.len() && v[i] == c
        invariant
            i <= v.len(),
            trim_start_char(v@, c) == trim_start_char(v@.skip(i as int), c),
        decreases v.len() - i,
    {
        assert(v@.skip(i as int).drop_first() =~= v@.skip(i + 1));
        i += 1;
    }
    assert(v@.skip(0) =~= v@);
    let r = string_of_range(&v, i, v.len());
    assert(v@.subrange(i as int, v@.len() as int) =~= v@.skip(i as int));
    r
}

/// Removes every trailing `c` from `s`.
pub fn trim_end_matches(s: &str, c: char) -> (r: String)
    ensures
        r@ == trim_end_char(s@, c),
{
    let v = chars_of(s);
    let mut j: usize = v.len();
    assert(v@.take(v@.len() as int) =~= v@);
    while j > 0 && v[j - 1] == c
        invariant
            j <= v.len(),
            trim_end_char(v@, c) == trim_end_char(v@.take(j as int), c),
        decreases j,
    {
        assert(v@.take(j as int).drop_last() =~= v@.take(j - 1));
        j -= 1;
    }
    let r = string_of_range(&v, 0, j);
    assert(v@.subrange(0, j as int) =~= v@.take(j as int));
    r
}

/// Removes leading and trailing whitespace from `s`.
pub fn trim(s: &str) -> (r: String)
    ensures
        r@ == trimmed(s@),
{
    let v = chars_of(s);
    let mut i: usize = 0;
    assert(v@.skip(0) =~= v@);
    while i < v.len() && is_whitespace(v[i])
        invariant
            i <= v.len(),
            trim_start_ws(v@) == trim_start_ws(v@.skip(i as int)),
        decreases v.len() - i,
    {
        assert(v@.skip(i as int).drop_first() =~= v@.skip(i + 1));
        i += 1;
    }
    assert(v@.skip(0) =~= v@);
    assert(trim_start_ws(v@) == v@.skip(i as int));
    let mut j: usize = v.len();
    assert(v@.subrange(i as int, v@.len() as int) =~= v@.skip(i as int));
    while j > i && is_whitespace(v[j - 1])
        invariant
            i <= j <= v.len(),
            trimmed(v@) == trim_end_ws(v@.subrange(i as int, j as int)),
        decreases j,
    {
        assert(v@.subrange(i as int, j as int).drop_last() =~= v@.subrange(i as int, j - 1));
        j -= 1;
    }
    string_of_range(&v, i, j)
}

// ---------------------------------------------------------------------------
// Searching
// ---------------------------------------------------------------------------

/// `s` begins with `p`.
pub open spec fn has_prefix(s: Seq<char>, p: Seq<char>) -> bool {
    p.len() <= s.len() && s.take(p.len() as int) == p
}

/// `w` occurs in `s` as a contiguous run (`str::contains`).
pub open spec fn has_infix(s: Seq<char>, w: Seq<char>) -> bool {
    exists|i: int| 0 <= i && i + w.len() <= s.len() && #[trigger] s.subrange(i, i + w.len()) == w
}

/// An infix of an infix is an infix.
pub proof fn lemma_infix_transitive(a: Seq<char>, b: Seq<char>, c: Seq<char>)
    requires
        has_infix(a, b),
        has_infix(b, c),
    ensures
        has_infix(a, c),
{
    let i = choose|i: int| 0 <= i && i + b.len() <= a.len() && #[trigger] a.subrange(i, i + b.len()) == b;
    let j = choose|j: int| 0 <= j && j + c.len() <= b.len() && #[trigger] b.subrange(j, j + c.len()) == c;
    assert(a.subrange(i + j, i + j + c.len()) =~= a.subrange(i, i + b.len()).subrange(j, j + c.len()));
}

/// Whether `v[at..at + w.len()]` equals `w`.
pub fn matches_at(v: &Vec<char>, at: usize, w: &Vec<char>) -> (r: bool)
    requires
        at <= v.len(),
    ensures
        r == (at + w.len() <= v.len() && v@.subrange(at as int, at + w.len()) == w@),
{
    if w.len() > v.len() - at {
        return false;
    }
    let mut k: usize = 0;
    while k < w.len()
        invariant
            at + w.len() <= v.len(),
            k <= w.len(),
            forall|m: int| 0 <= m < k ==> v@[at + m] == w@[m],
        decreases w.len() - k,
    {
        if v[at + k] != w[k] {
            assert(v@.subrange(at as int, at + w.len())[k as int] != w@[k as int]);
            return false;
        }
        k += 1;
    }
    assert(v@.subrange(at as int, at + w.len()) =~= w@);
    true
}

/// Whether `w` occurs in `s`.
pub fn contains(s: &str, w: &str) -> (r: bool)
    ensures
        r == has_infix(s@, w@),
{
    let v = chars_of(s);
    let u = chars_of(w);
    if u.len() > v.len() {
        return false;
    }
    if u.len() == 0 {
        assert(s@.subrange(0int, 0int + w@.len()) =~= w@);
        return true;
    }
    let mut i: usize = 0;
    while i <= v.len() - u.len()
        invariant
            0 < u.len() <= v.len(),
            i <= v.len() - u.len() + 1,
            v@ == s@,
            u@ == w@,
            forall|j: int| 0 <= j < i ==> #[trigger] v@.subrange(j, j + u@.len()) != u@,
        decreases v.len() - u.len() + 1 - i,
    {
        if matches_at(&v, i, &u) {
            return true;
        }
        i += 1;
    }
    false
}

// ---------------------------------------------------------------------------
// Padding
// ---------------------------------------------------------------------------

/// `s` padded with spaces on the right to `width` characters (`{:<width}`).
pub open spec fn padded(s: Seq<char>, width: int) -> Seq<char> {
    if s.len() >= width {
        s
    } else {
        s + Seq::new((width - s.len()) as nat, |_i: int| ' ')
    }
}

/// Pads `s` with spaces on the right up to `width` characters.
pub fn pad_right(s: &str, width: usize) -> (r: String)
    ensures
        r@ == padded(s@, width as int),
{
    let v = chars_of(s);
    let mut r = String::from_str(s);
    let mut n: usize = v.len();
    while n < width
        invariant
            v@ == s@,
            v.len() <= n <= width || (n == v.len() && n >= width),
            r@ == s@ + Seq::new((n - v.len()) as nat, |_i: int| ' '),
        decreases width - n,
    {
        push_char(&mut r, ' ');
        n += 1;
        assert(r@ =~= s@ + Seq::new((n - v.len()) as nat, |_i: int| ' '));
    }
    assert(v.len() >= width ==> r@ =~= s@);
    assert(v.len() < width ==> n == width);
    r
}


// ---------------------------------------------------------------------------
// Splitting
// ---------------------------------------------------------------------------

/// The pieces of `s` between occurrences of `sep` (`str::split(sep)`):
/// there is always at least one piece, and `n` separators give `n + 1`.
pub open spec fn split_on(s: Seq<char>, sep: char) -> Seq<Seq<char>>
    decreases s.len(),
{
    if s.len() == 0 {
        seq![Seq::<char>::empty()]
    } else {
        let p = split_on(s.drop_last(), sep);
        if s.last() == sep {
            p.push(Seq::<char>::empty())
        } else {
            p.update(p.len() - 1, p.last().push(s.last()))
        }
    }
}

/// The maximal runs of non-whitespace characters of `s`
/// (`str::split_whitespace`).
pub open spec fn ws_tokens(s: Seq<char>) -> Seq<Seq<char>>
    decreases s.len(),
{
    if s.len() == 0 {
        Seq::<Seq<char>>::empty()
    } else {
        let t = ws_tokens(s.drop_last());
        if spec_is_whitespace(s.last()) {
            t
        } else if s.len() == 1 || spec_is_whitespace(s[s.len() - 2]) {
            t.push(seq![s.last()])
        } else {
            t.update(t.len() - 1, t.last().push(s.last()))
        }
    }
}

/// The character sequences of a list of strings.
pub open spec fn strings_view(v: Seq<String>) -> Seq<Seq<char>> {
    v.map_values(|x: String| x@)
}

/// The character sequences of a list of character vectors.
pub open spec fn views(r: Seq<Vec<char>>) -> Seq<Seq<char>> {
    r.map_values(|x: Vec<char>| x@)
}

/// Splitting always gives at least one piece.
pub proof fn lemma_split_on_nonempty(s: Seq<char>, sep: char)
    ensures
        split_on(s, sep).len() >= 1,
    decreases s.len(),
{
    if s.len() > 0 {
        lemma_split_on_nonempty(s.drop_last(), sep);
    }
}

/// The pieces of `v` between occurrences of `sep`.
pub fn split_chars(v: &Vec<char>, sep: char) -> (r: Vec<Vec<char>>)
    ensures
        views(r@) == split_on(v@, sep),
        r.len() >= 1,
{
    let mut r: Vec<Vec<char>> = Vec::new();
    r.push(Vec::new());
    assert(views(r@) =~= split_on(v@.take(0), sep));
    let mut i: usize = 0;
    while i < v.len()
        invariant
            i <= v.len(),
            r.len() >= 1,
            views(r@) == split_on(v@.take(i as int), sep),
        decreases v.len() - i,
    {
        let c = v[i];
        let ghost before = views(r@);
        assert(v@.take(i + 1).drop_last() =~= v@.take(i as int));
        if c == sep {
            r.push(Vec::new());
            assert(views(r@) =~= before.push(Seq::<char>::empty()));
        } else {
            let mut last = r.pop().unwrap();
            last.push(c);
            r.push(last);
            assert(views(r@) =~= before.update(before.len() - 1, before.last().push(c)));
        }
        i += 1;
    }
    assert(v@.take(v@.len() as int) =~= v@);
    r
}

/// The whitespace-separated words of `v`.
pub fn split_whitespace(v: &Vec<char>) -> (r: Vec<Vec<char>>)
    ensures
        views(r@) == ws_tokens(v@),
{
    let mut r: Vec<Vec<char>> = Vec::new();
    assert(views(r@) =~= ws_tokens(v@.take(0)));
    let mut prev_ws = true;
    let mut i: usize = 0;
    while i < v.len()
        invariant
            i <= v.len(),
            views(r@) == ws_tokens(v@.take(i as int)),
            prev_ws == (i == 0 || spec_is_whitespace(v@[i - 1])),
            !prev_ws ==> r.len() > 0,
        decreases v.len() - i,
    {
        let c = v[i];
        let ghost before = views(r@);
        let ghost t = v@.take(i + 1);
        assert(t.drop_last() =~= v@.take(i as int));
        assert(t.last() == c);
        assert(i >= 1 ==> t[t.len() - 2] == v@[i - 1]);
        let ws = is_whitespace(c);
        if ws {
        } else if prev_ws {
            let mut w: Vec<char> = Vec::new();
            w.push(c);
            r.push(w);
            assert(views(r@) =~= before.push(seq![c]));
        } else {
            let mut last = r.pop().unwrap();
            last.push(c);
            r.push(last);
            assert(views(r@) =~= before.update(before.len() - 1, before.last().push(c)));
        }
        prev_ws = ws;
        i += 1;
    }
    assert(v@.take(v@.len() as int) =~= v@);
    r
}


/// The character sequence of an optional string.
pub open spec fn opt_view(o: Option<String>) -> Option<Seq<char>> {
    match o {
        Some(s) => Some(s@),
        None => None,
    }
}

/// `s` cut at its first `sep` (`str::splitn(2, sep)`): the part before it,
/// and the part after it when `sep` occurs.
pub open spec fn split_once(s: Seq<char>, sep: char) -> (Seq<char>, Option<Seq<char>>)
    decreases s.len(),
{
    if s.len() == 0 {
        (Seq::<char>::empty(), None)
    } else if s[0] == sep {
        (Seq::<char>::empty(), Some(s.drop_first()))
    } else {
        let rest = split_once(s.drop_first(), sep);
        (seq![s[0]] + rest.0, rest.1)
    }
}

/// Cuts `s` at its first `sep`.
pub fn split_once_at(s: &str, sep: char) -> (r: (String, Option<String>))
    ensures
        r.0@ == split_once(s@, sep).0,
        opt_view(r.1) == split_once(s@, sep).1,
{
    let v = chars_of(s);
    let mut i: usize = 0;
    assert(v@.take(0) + split_once(v@.skip(0), sep).0 =~= split_once(v@, sep).0) by {
        assert(v@.skip(0) =~= v@);
    }
    assert(v@.skip(0) =~= v@);
    while i < v.len() && v[i] != sep
        invariant
            i <= v.len(),
            split_once(v@, sep).0 == v@.take(i as int) + split_once(v@.skip(i as int), sep).0,
            split_once(v@, sep).1 == split_once(v@.skip(i as int), sep).1,
        decreases v.len() - i,
    {
        let ghost t = v@.skip(i as int);
        assert(t.drop_first() =~= v@.skip(i + 1));
        assert(t[0] == v@[i as int]);
        assert(v@.take(i as int) + (seq![v@[i as int]] + split_once(v@.skip(i + 1), sep).0)
            =~= v@.take(i + 1) + split_once(v@.skip(i + 1), sep).0);
        i += 1;
    }
    let head = string_of_range(&v, 0, i);
    assert(v@.subrange(0, i as int) =~= v@.take(i as int));
    if i < v.len() {
        let ghost t = v@.skip(i as int);
        assert(t.drop_first() =~= v@.subrange(i + 1, v@.len() as int));
        assert(v@.take(i as int) + Seq::<char>::empty() =~= v@.take(i as int));
        let tail = string_of_range(&v, i + 1, v.len());
        (head, Some(tail))
    } else {
        assert(v@.skip(i as int) =~= Seq::<char>::empty());
        assert(v@.take(i as int) + Seq::<char>::empty() =~= v@.take(i as int));
        (head, None)
    }
}


/// Trimming a character from the start leaves no such character in front,
/// and trimming again changes nothing.
pub proof fn lemma_trim_start_char(s: Seq<char>, c: char)
    ensures
        trim_start_char(s, c).len() > 0 ==> trim_start_char(s, c)[0] != c,
        trim_start_char(trim_start_char(s, c), c) == trim_start_char(s, c),
        trim_start_char(s, c).len() <= s.len(),
    decreases s.len(),
{
    if s.len() > 0 && s[0] == c {
        lemma_trim_start_char(s.drop_first(), c);
    }
}

/// Trimming a character from the end leaves no such character at the end,
/// and keeps a prefix of the text.
pub proof fn lemma_trim_end_char(s: Seq<char>, c: char)
    ensures
        trim_end_char(s, c).len() > 0 ==> trim_end_char(s, c).last() != c,
        trim_end_char(trim_end_char(s, c), c) == trim_end_char(s, c),
        trim_end_char(s, c).len() <= s.len(),
        trim_end_char(s, c) == s.take(trim_end_char(s, c).len() as int),
    decreases s.len(),
{
    if s.len() > 0 && s.last() == c {
        lemma_trim_end_char(s.drop_last(), c);
        assert(s.drop_last().take(trim_end_char(s, c).len() as int) =~= s.take(trim_end_char(s, c).len() as int));
    } else {
        assert(s.take(s.len() as int) =~= s);
    }
}


/// `w` holds no whitespace.
pub open spec fn no_whitespace(w: Seq<char>) -> bool {
    forall|i: int| 0 <= i < w.len() ==> !spec_is_whitespace(#[trigger] w[i])
}

/// Text without the separator is a single piece.
pub proof fn lemma_split_on_single(s: Seq<char>, sep: char)
    requires
        !s.contains(sep),
    ensures
        split_on(s, sep) == seq![s],
    decreases s.len(),
{
    if s.len() > 0 {
        assert(!s.drop_last().contains(sep)) by {
            if s.drop_last().contains(sep) {
                let k = choose|k: int| 0 <= k < s.drop_last().len() && s.drop_last()[k] == sep;
                assert(s[k] == sep);
            }
        }
        lemma_split_on_single(s.drop_last(), sep);
        assert(s.last() != sep) by {
            assert(s[s.len() - 1] == s.last());
        }
        let p = split_on(s.drop_last(), sep);
        assert(p.len() == 1 && p.last() == s.drop_last());
        assert(s.drop_last().push(s.last()) =~= s);
        assert(p.update(p.len() - 1, p.last().push(s.last())) =~= seq![s]);
    } else {
        assert(s =~= Seq::<char>::empty());
    }
}

/// Splitting text joined by a separator gives the pieces of each side.
pub proof fn lemma_split_on_join(a: Seq<char>, b: Seq<char>, sep: char)
    ensures
        split_on(a + seq![sep] + b, sep) == split_on(a, sep) + split_on(b, sep),
    decreases b.len(),
{
    let x = a + seq![sep] + b;
    if b.len() == 0 {
        assert(x.drop_last() =~= a);
        assert(split_on(a, sep).push(Seq::<char>::empty()) =~= split_on(a, sep) + split_on(b, sep));
    } else {
        let b2 = b.drop_last();
        let c = b.last();
        lemma_split_on_join(a, b2, sep);
        assert(x.drop_last() =~= a + seq![sep] + b2);
        assert(x.last() == c);
        lemma_split_on_nonempty(b2, sep);
        let pa = split_on(a, sep);
        let pb = split_on(b2, sep);
        if c == sep {
            assert((pa + pb).push(Seq::<char>::empty()) =~= pa + pb.push(Seq::<char>::empty()));
        } else {
            assert((pa + pb).update((pa + pb).len() - 1, (pa + pb).last().push(c))
                =~= pa + pb.update(pb.len() - 1, pb.last().push(c)));
        }
    }
}

/// A word without whitespace after whitespace (or at the start) is one
/// more token.
pub proof fn lemma_ws_tokens_word(p: Seq<char>, w: Seq<char>)
    requires
        w.len() > 0,
        no_whitespace(w),
        p.len() == 0 || spec_is_whitespace(p.last()),
    ensures
        ws_tokens(p + w) == ws_tokens(p).push(w),
    decreases w.len(),
{
    let x = p + w;
    assert(x.last() == w[w.len() - 1]);
    if w.len() == 1 {
        assert(x.drop_last() =~= p);
        assert(x.len() >= 2 ==> x[x.len() - 2] == p.last());
        assert(seq![x.last()] =~= w);
    } else {
        let w2 = w.drop_last();
        assert(no_whitespace(w2)) by {
            assert forall|i: int| 0 <= i < w2.len() implies !spec_is_whitespace(#[trigger] w2[i]) by {
                assert(w2[i] == w[i]);
            }
        }
        lemma_ws_tokens_word(p, w2);
        assert(x.drop_last() =~= p + w2);
        assert(x[x.len() - 2] == w[w.len() - 2]);
        let t = ws_tokens(p).push(w2);
        assert(w2.push(w[w.len() - 1]) =~= w);
        assert(t.last() == w2);
        assert(t.update(t.len() - 1, t.last().push(x.last())) =~= ws_tokens(p).push(w));
    }
}

/// Whitespace after text adds no token.
pub proof fn lemma_ws_tokens_space(p: Seq<char>, c: char)
    requires
        spec_is_whitespace(c),
    ensures
        ws_tokens(p.push(c)) == ws_tokens(p),
{
    assert(p.push(c).drop_last() =~= p);
}


/// Text made of two parts without whitespace has none.
pub proof fn lemma_no_whitespace_concat(a: Seq<char>, b: Seq<char>)
    requires
        no_whitespace(a),
        no_whitespace(b),
    ensures
        no_whitespace(a + b),
{
    assert forall|i: int| 0 <= i < (a + b).len() implies !spec_is_whitespace(#[trigger] (a + b)[i]) by {
        if i < a.len() {
            assert((a + b)[i] == a[i]);
        } else {
            assert((a + b)[i] == b[i - a.len()]);
        }
    }
}

/// A character occurs in joined text only where it occurs in one part.
pub proof fn lemma_contains_concat(a: Seq<char>, b: Seq<char>, c: char)
    ensures
        (a + b).contains(c) == (a.contains(c) || b.contains(c)),
{
    if (a + b).contains(c) {
        let k = choose|k: int| 0 <= k < (a + b).len() && (a + b)[k] == c;
        if k < a.len() {
            assert(a[k] == c);
        } else {
            assert(b[k - a.len()] == c);
        }
    }
    if a.contains(c) {
        let k = choose|k: int| 0 <= k < a.len() && a[k] == c;
        assert((a + b)[k] == c);
    }
    if b.contains(c) {
        let k = choose|k: int| 0 <= k < b.len() && b[k] == c;
        assert((a + b)[k + a.len()] == c);
    }
}

/// Text without whitespace holds no line break.
pub proof fn lemma_no_whitespace_no_newline(w: Seq<char>)
    requires
        no_whitespace(w),
    ensures
        !w.contains('\n'),
        !w.contains('\r'),
        !w.contains(' '),
{
    if w.contains('\n') {
        let k = choose|k: int| 0 <= k < w.len() && w[k] == '\n';
        assert(!spec_is_whitespace(w[k]));
    }
    if w.contains('\r') {
        let k = choose|k: int| 0 <= k < w.len() && w[k] == '\r';
        assert(!spec_is_whitespace(w[k]));
    }
    if w.contains(' ') {
        let k = choose|k: int| 0 <= k < w.len() && w[k] == ' ';
        assert(!spec_is_whitespace(w[k]));
    }
}

} // verus!
