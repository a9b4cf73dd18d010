use vstd::prelude::*;

verus! {

// ---------------------------------------------------------------------------
// Character classes, as std documents them for `char`.
// ---------------------------------------------------------------------------

/// `char::is_whitespace`: the Unicode `White_Space` property.
pub open spec fn is_white_space(c: char) -> bool {
    let n = c as u32;
    ||| 0x09 <= n <= 0x0D
    ||| n == 0x20
    ||| n == 0x85
    ||| n == 0xA0
    ||| n == 0x1680
    ||| 0x2000 <= n <= 0x200A
    ||| n == 0x2028
    ||| n == 0x2029
    ||| n == 0x202F
    ||| n == 0x205F
    ||| n == 0x3000
}

/// `char::is_ascii_whitespace`: space, tab, line feed, form feed, carriage return.
pub open spec fn is_ascii_white_space(c: char) -> bool {
    c == ' ' || c == '\t' || c == '\n' || c == '\x0C' || c == '\r'
}

/// `char::is_ascii_graphic`: `'!'..='~'`.
pub open spec fn is_ascii_graphic_char(c: char) -> bool {
    '!' <= c && c <= '~'
}

/// `char::is_control`: the general category `Cc`.
pub open spec fn is_control_char(c: char) -> bool {
    let n = c as u32;
    n <= 0x1F || (0x7F <= n && n <= 0x9F)
}

pub fn is_whitespace(c: char) -> (b: bool)
    ensures
        b == is_white_space(c),
{
    let n = c as u32;
    (0x09 <= n && n <= 0x0D) || n == 0x20 || n == 0x85 || n == 0xA0 || n == 0x1680 || (0x2000
        <= n && n <= 0x200A) || n == 0x2028 || n == 0x2029 || n == 0x202F || n == 0x205F || n
        == 0x3000
}

pub fn is_ascii_whitespace(c: char) -> (b: bool)
    ensures
        b == is_ascii_white_space(c),
{
    c == ' ' || c == '\t' || c == '\n' || c == '\x0C' || c == '\r'
}

pub fn is_ascii_graphic(c: char) -> (b: bool)
    ensures
        b == is_ascii_graphic_char(c),
{
    '!' <= c && c <= '~'
}

pub fn is_control(c: char) -> (b: bool)
    ensures
        b == is_control_char(c),
{
    let n = c as u32;
    n <= 0x1F || (0x7F <= n && n <= 0x9F)
}

// ---------------------------------------------------------------------------
// Conversions between strings and characters.
// ---------------------------------------------------------------------------

/// Appends one character to a string (`String::push`).
#[verifier::external_body]
pub(crate) fn push_char(s: &mut String, c: char)
    ensures
        final(s)@ == old(s)@.push(c),
{
    s.push(c);
}

/// The characters of a string slice, in order.
pub fn chars_of(s: &str) -> (v: Vec<char>)
    ensures
        v@ == s@,
{
    let mut v: Vec<char> = Vec::new();
    for c in it: s.chars()
        invariant
            v@ == it.seq().take(it.index() as int),
            it.seq() == s@,
    {
        v.push(c);
    }
    v
}

/// A string made of the given characters.
pub fn string_from_chars(v: &[char]) -> (s: String)
    ensures
        s@ == v@,
{
    let mut s = String::new();
    let mut i: usize = 0;
    while i < v.len()
        invariant
            i <= v.len(),
            s@ == v@.take(i as int),
        decreases v.len() - i,
    {
        push_char(&mut s, v[i]);
        assert(v@.take(i + 1) == v@.take(i as int).push(v@[i as int]));
        i = i + 1;
    }
    assert(v@.take(v.len() as int) == v@);
    s
}

/// Appends the given characters to a string.
pub fn push_chars(s: &mut String, v: &[char])
    ensures
        final(s)@ == old(s)@ + v@,
{
    let mut i: usize = 0;
    while i < v.len()
        invariant
            i <= v.len(),
            s@ == old(s)@ + v@.take(i as int),
        decreases v.len() - i,
    {
        push_char(s, v[i]);
        assert(v@.take(i + 1) == v@.take(i as int).push(v@[i as int]));
        i = i + 1;
    }
    assert(v@.take(v.len() as int) == v@);
}

/// Whether two string slices hold the same characters.
pub fn str_equal(a: &str, b: &str) -> (r: bool)
    ensures
        r == (a@ == b@),
{
    let x = chars_of(a);
    let y = chars_of(b);
    chars_equal(&x, &y)
}

/// Whether two character slices are equal.
pub fn chars_equal(x: &[char], y: &[char]) -> (r: bool)
    ensures
        r == (x@ == y@),
{
    if x.len() != y.len() {
        return false;
    }
    let mut i: usize = 0;
    while i < x.len()
        invariant
            i <= x.len(),
            x@.len() == y@.len(),
            forall|j: int| 0 <= j < i ==> x@[j] == y@[j],
        decreases x.len() - i,
    {
        if x[i] != y[i] {
            return false;
        }
        i = i + 1;
    }
    assert(x@ =~= y@);
    true
}

// ---------------------------------------------------------------------------
// Decimal numerals.
// ---------------------------------------------------------------------------

pub open spec fn digit_char(d: nat) -> char {
    if d == 0 { '0' }
    else if d == 1 { '1' }
    else if d == 2 { '2' }
    else if d == 3 { '3' }
    else if d == 4 { '4' }
    else if d == 5 { '5' }
    else if d == 6 { '6' }
    else if d == 7 { '7' }
    else if d == 8 { '8' }
    else { '9' }
}

/// The decimal numeral of a natural number, without leading zeros.
pub open spec fn decimal(n: nat) -> Seq<char>
    decreases n,
{
    if n < 10 {
        seq![digit_char(n)]
    } else {
        decimal(n / 10).push(digit_char(n % 10))
    }
}

/// The decimal numeral of an integer, with a leading `-` when negative.
pub open spec fn signed_decimal(n: int) -> Seq<char> {
    if n < 0 {
        seq!['-'] + decimal((-n) as nat)
    } else {
        decimal(n as nat)
    }
}

fn digit(d: u64) -> (c: char)
    requires
        d < 10,
    ensures
        c == digit_char(d as nat),
{
    if d == 0 { '0' }
    else if d == 1 { '1' }
    else if d == 2 { '2' }
    else if d == 3 { '3' }
    else if d == 4 { '4' }
    else if d == 5 { '5' }
    else if d == 6 { '6' }
    else if d == 7 { '7' }
    else if d == 8 { '8' }
    else { '9' }
}

/// The decimal numeral of a `u64`, as `u64::to_string` writes it.
pub fn u64_to_decimal(n: u64) -> (s: String)
    ensures
        s@ == decimal(n as nat),
    decreases n,
{
    if n < 10 {
        let mut s = String::new();
        push_char(&mut s, digit(n));
        assert(s@ == seq![digit_char(n as nat)]);
        s
    } else {
        let mut s = u64_to_decimal(n / 10);
        push_char(&mut s, digit(n % 10));
        s
    }
}

/// The decimal numeral of an `i64`, as `i64::to_string` writes it.
pub fn i64_to_decimal(n: i64) -> (s: String)
    ensures
        s@ == signed_decimal(n as int),
{
    if n < 0 {
        let m: u64 = if n == i64::MIN {
            9223372036854775808u64
        } else {
            (-n) as u64
        };
        let mut s = String::new();
        push_char(&mut s, '-');
        let d = u64_to_decimal(m);
        s.append(d.as_str());
        s
    } else {
        u64_to_decimal(n as u64)
    }
}

} // verus!

verus! {

// ---------------------------------------------------------------------------
// Whitespace-separated words (`str::split_whitespace`).
// ---------------------------------------------------------------------------

/// The views of a sequence of character vectors.
pub open spec fn views(v: Seq<Vec<char>>) -> Seq<Seq<char>> {
    v.map_values(|w: Vec<char>| w@)
}

/// The views of a sequence of strings.
pub open spec fn string_views(v: Seq<String>) -> Seq<Seq<char>> {
    v.map_values(|w: String| w@)
}

/// One character of the left-to-right scan that cuts a text into words:
/// the words found so far, and the word being read.
pub open spec fn split_step(st: (Seq<Seq<char>>, Seq<char>), c: char) -> (Seq<Seq<char>>, Seq<char>) {
    if is_white_space(c) {
        if st.1.len() > 0 {
            (st.0.push(st.1), Seq::empty())
        } else {
            (st.0, Seq::empty())
        }
    } else {
        (st.0, st.1.push(c))
    }
}

pub open spec fn split_state(s: Seq<char>) -> (Seq<Seq<char>>, Seq<char>)
    decreases s.len(),
{
    if s.len() == 0 {
        (Seq::empty(), Seq::empty())
    } else {
        split_step(split_state(s.drop_last()), s.last())
    }
}

/// The maximal runs of non-whitespace characters of `s`, in order.
pub open spec fn words(s: Seq<char>) -> Seq<Seq<char>> {
    let st = split_state(s);
    if st.1.len() > 0 {
        st.0.push(st.1)
    } else {
        st.0
    }
}

proof fn lemma_views_push(v: Seq<Vec<char>>, w: Vec<char>)
    ensures
        views(v.push(w)) == views(v).push(w@),
{
    assert(views(v.push(w)) =~= views(v).push(w@));
}

/// `str::split_whitespace` on a character slice.
pub fn split_whitespace(s: &[char]) -> (r: Vec<Vec<char>>)
    ensures
        views(r@) == words(s@),
{
    let mut acc: Vec<Vec<char>> = Vec::new();
    let mut cur: Vec<char> = Vec::new();
    let mut i: usize = 0;
    assert(views(acc@) =~= Seq::<Seq<char>>::empty());
    assert(s@.take(0) =~= Seq::<char>::empty());
    while i < s.len()
        invariant
            i <= s.len(),
            (views(acc@), cur@) == split_state(s@.take(i as int)),
        decreases s.len() - i,
    {
        let c = s[i];
        assert(s@.take(i + 1).drop_last() =~= s@.take(i as int));
        assert(s@.take(i + 1).last() == c);
        if is_whitespace(c) {
            if cur.len() > 0 {
                let w = cur;
                proof {
                    lemma_views_push(acc@, w);
                }
                acc.push(w);
                cur = Vec::new();
            } else {
                cur = Vec::new();
            }
            assert(cur@ =~= Seq::<char>::empty());
        } else {
            cur.push(c);
        }
        i = i + 1;
    }
    assert(s@.take(s.len() as int) =~= s@);
    if cur.len() > 0 {
        proof {
            lemma_views_push(acc@, cur);
        }
        acc.push(cur);
    }
    acc
}

// ---------------------------------------------------------------------------
// Trimming (`str::trim`).
// ---------------------------------------------------------------------------

pub open spec fn trim_start(s: Seq<char>) -> Seq<char>
    decreases s.len(),
{
    if s.len() > 0 && is_white_space(s[0]) {
        trim_start(s.drop_first())
    } else {
        s
    }
}

pub open spec fn trim_end(s: Seq<char>) -> Seq<char>
    decreases s.len(),
{
    if s.len() > 0 && is_white_space(s.last()) {
        trim_end(s.drop_last())
    } else {
        s
    }
}

/// `s` without its leading and trailing whitespace.
pub open spec fn trim(s: Seq<char>) -> Seq<char> {
    trim_end(trim_start(s))
}

/// `str::trim` on a character slice.
pub fn trim_chars(s: &[char]) -> (r: Vec<char>)
    ensures
        r@ == trim(s@),
{
    let n = s.len();
    let mut i: usize = 0;
    assert(s@.subrange(0, n as int) =~= s@);
    while i < n && is_whitespace(s[i])
        invariant
            i <= n,
            n == s.len(),
            trim_start(s@) == trim_start(s@.subrange(i as int, n as int)),
        decreases n - i,
    {
        assert(s@.subrange(i as int, n as int).drop_first() =~= s@.subrange(i + 1, n as int));
        i = i + 1;
    }
    let mut j: usize = n;
    assert(s@.subrange(i as int, n as int) =~= s@.subrange(i as int, j as int));
    while j > i && is_whitespace(s[j - 1])
        invariant
            i <= j <= n,
            n == s.len(),
            trim_start(s@) == s@.subrange(i as int, n as int),
            trim(s@) == trim_end(s@.subrange(i as int, j as int)),
        decreases j - i,
    {
        assert(s@.subrange(i as int, j as int).drop_last() =~= s@.subrange(i as int, j - 1));
        j = j - 1;
    }
    let mut r: Vec<char> = Vec::new();
    let mut k: usize = i;
    while k < j
        invariant
            i <= k <= j <= n,
            n == s.len(),
            r@ == s@.subrange(i as int, k as int),
        decreases j - k,
    {
        r.push(s[k]);
        assert(s@.subrange(i as int, k + 1) =~= s@.subrange(i as int, k as int).push(s@[k as int]));
        k = k + 1;
    }
    r
}

// ---------------------------------------------------------------------------
// UTF-8 (`char::len_utf8`, `char::encode_utf8`).
// ---------------------------------------------------------------------------

/// The number of bytes that UTF-8 spends on `c`.
pub open spec fn utf8_width(c: char) -> nat {
    let n = c as u32;
    if n < 0x80 {
        1
    } else if n < 0x800 {
        2
    } else if n < 0x10000 {
        3
    } else {
        4
    }
}

/// The UTF-8 encoding of one character.
pub open spec fn utf8_char(c: char) -> Seq<u8> {
    let n = c as u32;
    if n < 0x80 {
        seq![n as u8]
    } else if n < 0x800 {
        seq![(0xC0 + n / 64) as u8, (0x80 + n % 64) as u8]
    } else if n < 0x10000 {
        seq![(0xE0 + n / 4096) as u8, (0x80 + (n / 64) % 64) as u8, (0x80 + n % 64) as u8]
    } else {
        seq![
            (0xF0 + n / 262144) as u8,
            (0x80 + (n / 4096) % 64) as u8,
            (0x80 + (n / 64) % 64) as u8,
            (0x80 + n % 64) as u8,
        ]
    }
}

/// The UTF-8 encoding of a text.
pub open spec fn utf8_encode(s: Seq<char>) -> Seq<u8>
    decreases s.len(),
{
    if s.len() == 0 {
        Seq::empty()
    } else {
        utf8_encode(s.drop_last()) + utf8_char(s.last())
    }
}

/// The number of bytes of the UTF-8 encoding of a text (`str::len`).
pub open spec fn utf8_len(s: Seq<char>) -> nat
    decreases s.len(),
{
    if s.len() == 0 {
        0
    } else {
        utf8_len(s.drop_last()) + utf8_width(s.last())
    }
}

pub proof fn lemma_utf8_len_concat(a: Seq<char>, b: Seq<char>)
    ensures
        utf8_len(a + b) == utf8_len(a) + utf8_len(b),
    decreases b.len(),
{
    if b.len() == 0 {
        assert(a + b =~= a);
    } else {
        lemma_utf8_len_concat(a, b.drop_last());
        assert((a + b).drop_last() =~= a + b.drop_last());
    }
}

pub proof fn lemma_utf8_encode_len(s: Seq<char>)
    ensures
        utf8_encode(s).len() == utf8_len(s),
    decreases s.len(),
{
    if s.len() > 0 {
        lemma_utf8_encode_len(s.drop_last());
    }
}

/// Whether every character of `s` is ASCII.
pub open spec fn is_ascii_text(s: Seq<char>) -> bool {
    forall|i: int| 0 <= i < s.len() ==> (#[trigger] s[i] as u32) < 128
}

/// The characters that ASCII bytes stand for.
pub open spec fn ascii_chars(bytes: Seq<u8>) -> Seq<char> {
    bytes.map_values(|b: u8| b as char)
}

/// An ASCII text is encoded one byte per character, each below 128.
pub proof fn lemma_ascii_encode(w: Seq<char>)
    requires
        is_ascii_text(w),
    ensures
        utf8_encode(w).len() == w.len(),
        utf8_len(w) == w.len(),
        forall|k: int| 0 <= k < utf8_encode(w).len() ==> #[trigger] utf8_encode(w)[k] < 128,
    decreases w.len(),
{
    if w.len() > 0 {
        let p = w.drop_last();
        assert forall|i: int| 0 <= i < p.len() implies (#[trigger] p[i] as u32) < 128 by {
            assert(p[i] == w[i]);
        }
        lemma_ascii_encode(p);
        let c = w.last();
        assert((c as u32) < 128) by {
            assert(w[w.len() - 1] == c);
        }
        let n = c as u32;
        assert((n as u8) < 128) by (bit_vector)
            requires
                n < 128,
        ;
        assert(utf8_char(c) =~= seq![n as u8]);
    }
}

/// Bytes below 128 are the encoding of the characters they stand for.
pub proof fn lemma_ascii_decode(bytes: Seq<u8>)
    requires
        forall|k: int| 0 <= k < bytes.len() ==> #[trigger] bytes[k] < 128,
    ensures
        utf8_encode(ascii_chars(bytes)) == bytes,
        utf8_len(ascii_chars(bytes)) == bytes.len(),
    decreases bytes.len(),
{
    if bytes.len() > 0 {
        let p = bytes.drop_last();
        assert forall|k: int| 0 <= k < p.len() implies #[trigger] p[k] < 128 by {
            assert(p[k] == bytes[k]);
        }
        lemma_ascii_decode(p);
        let cs = ascii_chars(bytes);
        assert(cs.drop_last() =~= ascii_chars(p));
        let b = bytes.last();
        assert(b < 128) by {
            assert(bytes[bytes.len() - 1] == b);
        }
        let c = b as char;
        assert(cs.last() == c);
        assert((c as u32) == (b as u32));
        let n = c as u32;
        assert((n as u8) == b) by (bit_vector)
            requires
                n == b as u32,
        ;
        assert(utf8_char(c) =~= seq![b]);
        assert(bytes =~= p + seq![b]);
    }
}

/// A text holds no whitespace.
pub open spec fn no_white_space(w: Seq<char>) -> bool {
    forall|i: int| 0 <= i < w.len() ==> !is_white_space(#[trigger] w[i])
}

/// Every word of a text is non-empty and holds no whitespace.
pub proof fn lemma_words_clean(s: Seq<char>)
    ensures
        forall|i: int| 0 <= i < words(s).len() ==> (#[trigger] words(s)[i]).len() > 0 && no_white_space(words(s)[i]),
{
    lemma_split_state_clean(s);
    let st = split_state(s);
    assert forall|i: int| 0 <= i < words(s).len() implies (#[trigger] words(s)[i]).len() > 0 && no_white_space(
        words(s)[i],
    ) by {
        if i < st.0.len() {
            assert(words(s)[i] == st.0[i]);
        }
    }
}

proof fn lemma_split_state_clean(s: Seq<char>)
    ensures
        forall|i: int|
            0 <= i < split_state(s).0.len() ==> (#[trigger] split_state(s).0[i]).len() > 0 && no_white_space(
                split_state(s).0[i],
            ),
        no_white_space(split_state(s).1),
    decreases s.len(),
{
    if s.len() > 0 {
        let p = s.drop_last();
        lemma_split_state_clean(p);
        let st = split_state(p);
        let c = s.last();
        let next = split_state(s);
        assert(next == split_step(st, c));
        assert forall|i: int| 0 <= i < next.0.len() implies (#[trigger] next.0[i]).len() > 0 && no_white_space(
            next.0[i],
        ) by {
            if i < st.0.len() {
                assert(next.0[i] == st.0[i]);
            }
        }
        assert forall|i: int| 0 <= i < next.1.len() implies !is_white_space(#[trigger] next.1[i]) by {
            if i < st.1.len() {
                assert(next.1[i] == st.1[i]);
            }
        }
    }
}

/// An ASCII text reads back from its encoding byte by byte.
pub proof fn lemma_ascii_roundtrip(w: Seq<char>)
    requires
        is_ascii_text(w),
    ensures
        ascii_chars(utf8_encode(w)) == w,
    decreases w.len(),
{
    if w.len() > 0 {
        let p = w.drop_last();
        assert forall|i: int| 0 <= i < p.len() implies (#[trigger] p[i] as u32) < 128 by {
            assert(p[i] == w[i]);
        }
        lemma_ascii_roundtrip(p);
        let c = w.last();
        assert((c as u32) < 128) by {
            assert(w[w.len() - 1] == c);
        }
        let n = c as u32;
        let b = n as u8;
        assert((n as u8) as u32 == n) by (bit_vector)
            requires
                n < 128,
        ;
        assert(utf8_char(c) =~= seq![b]);
        assert(b as int == n as int);
        vstd::utf8::char_u32_cast(c, n);
        assert((n as char) == c);
        assert((b as char) == c);
        assert(utf8_encode(w) == utf8_encode(p) + seq![b]);
        assert(ascii_chars(utf8_encode(p) + seq![b]) =~= ascii_chars(utf8_encode(p)).push(b as char));
        assert(w =~= p.push(c));
    }
}

/// The words of an ASCII text are ASCII.
pub proof fn lemma_words_ascii(s: Seq<char>)
    requires
        is_ascii_text(s),
    ensures
        forall|i: int| 0 <= i < words(s).len() ==> is_ascii_text(#[trigger] words(s)[i]),
{
    lemma_split_state_ascii(s);
    let st = split_state(s);
    assert forall|i: int| 0 <= i < words(s).len() implies is_ascii_text(#[trigger] words(s)[i]) by {
        if i < st.0.len() {
            assert(words(s)[i] == st.0[i]);
        }
    }
}

proof fn lemma_split_state_ascii(s: Seq<char>)
    requires
        is_ascii_text(s),
    ensures
        forall|i: int| 0 <= i < split_state(s).0.len() ==> is_ascii_text(#[trigger] split_state(s).0[i]),
        is_ascii_text(split_state(s).1),
    decreases s.len(),
{
    if s.len() > 0 {
        let p = s.drop_last();
        assert forall|i: int| 0 <= i < p.len() implies (#[trigger] p[i] as u32) < 128 by {
            assert(p[i] == s[i]);
        }
        lemma_split_state_ascii(p);
        let st = split_state(p);
        let c = s.last();
        assert((c as u32) < 128) by {
            assert(s[s.len() - 1] == c);
        }
        let next = split_state(s);
        assert(next == split_step(st, c));
        assert forall|i: int| 0 <= i < next.0.len() implies is_ascii_text(#[trigger] next.0[i]) by {
            if i < st.0.len() {
                assert(next.0[i] == st.0[i]);
            }
        }
        assert forall|i: int| 0 <= i < next.1.len() implies (#[trigger] next.1[i] as u32) < 128 by {
            if i < st.1.len() {
                assert(next.1[i] == st.1[i]);
            }
        }
    }
}

fn utf8_char_bytes(c: char, out: &mut Vec<u8>)
    ensures
        final(out)@ == old(out)@ + utf8_char(c),
{
    let n = c as u32;
    if n < 0x80 {
        out.push(n as u8);
        assert(out@ =~= old(out)@ + utf8_char(c));
    } else if n < 0x800 {
        out.push((0xC0 + n / 64) as u8);
        out.push((0x80 + n % 64) as u8);
        assert(out@ =~= old(out)@ + utf8_char(c));
    } else if n < 0x10000 {
        out.push((0xE0 + n / 4096) as u8);
        out.push((0x80 + (n / 64) % 64) as u8);
        out.push((0x80 + n % 64) as u8);
        assert(out@ =~= old(out)@ + utf8_char(c));
    } else {
        out.push((0xF0 + n / 262144) as u8);
        out.push((0x80 + (n / 4096) % 64) as u8);
        out.push((0x80 + (n / 64) % 64) as u8);
        out.push((0x80 + n % 64) as u8);
        assert(out@ =~= old(out)@ + utf8_char(c));
    }
}

/// The UTF-8 bytes of a text.
pub fn utf8_bytes(s: &[char]) -> (r: Vec<u8>)
    ensures
        r@ == utf8_encode(s@),
{
    let mut r: Vec<u8> = Vec::new();
    let mut i: usize = 0;
    assert(s@.take(0) =~= Seq::<char>::empty());
    while i < s.len()
        invariant
            i <= s.len(),
            r@ == utf8_encode(s@.take(i as int)),
        decreases s.len() - i,
    {
        utf8_char_bytes(s[i], &mut r);
        assert(s@.take(i + 1).drop_last() =~= s@.take(i as int));
        i = i + 1;
    }
    assert(s@.take(s.len() as int) =~= s@);
    r
}

fn char_width(c: char) -> (w: usize)
    ensures
        w == utf8_width(c),
{
    let n = c as u32;
    if n < 0x80 {
        1
    } else if n < 0x800 {
        2
    } else if n < 0x10000 {
        3
    } else {
        4
    }
}

/// The UTF-8 length of a text, or `cap` where it is longer than that.
pub fn utf8_len_capped(s: &[char], cap: usize) -> (r: usize)
    ensures
        r == if utf8_len(s@) < cap { utf8_len(s@) } else { cap as nat },
{
    let mut total: usize = 0;
    let mut i: usize = 0;
    assert(s@.take(0) =~= Seq::<char>::empty());
    while i < s.len()
        invariant
            i <= s.len(),
            total == if utf8_len(s@.take(i as int)) < cap { utf8_len(s@.take(i as int)) } else { cap as nat },
        decreases s.len() - i,
    {
        assert(s@.take(i + 1).drop_last() =~= s@.take(i as int));
        let w = char_width(s[i]);
        if total < cap {
            if w >= cap - total {
                total = cap;
            } else {
                total = total + w;
            }
        }
        i = i + 1;
    }
    assert(s@.take(s.len() as int) =~= s@);
    total
}

} // verus!

verus! {

// ---------------------------------------------------------------------------
// Searching, joining, parsing.
// ---------------------------------------------------------------------------

/// The first position of `c` in `s`.
pub open spec fn first_index_of(s: Seq<char>, c: char) -> Option<int>
    decreases s.len(),
{
    if s.len() == 0 {
        None
    } else if s[0] == c {
        Some(0)
    } else {
        match first_index_of(s.drop_first(), c) {
            Some(i) => Some(i + 1),
            None => None,
        }
    }
}

/// `str::split_once(c)`: the text before and after the first `c`.
pub open spec fn split_once_spec(s: Seq<char>, c: char) -> Option<(Seq<char>, Seq<char>)> {
    match first_index_of(s, c) {
        Some(i) => Some((s.take(i), s.skip(i + 1))),
        None => None,
    }
}

proof fn lemma_first_index_of(s: Seq<char>, c: char, i: int)
    requires
        0 <= i <= s.len(),
        forall|j: int| 0 <= j < i ==> s[j] != c,
    ensures
        i < s.len() && s[i] == c ==> first_index_of(s, c) == Some(i),
        i == s.len() ==> first_index_of(s, c) is None,
    decreases i,
{
    if i > 0 {
        lemma_first_index_of(s.drop_first(), c, i - 1);
    }
}

/// `str::split_once` on a character slice.
pub fn split_once(s: &[char], c: char) -> (r: Option<(Vec<char>, Vec<char>)>)
    ensures
        match r {
            Some((a, b)) => split_once_spec(s@, c) == Some((a@, b@)),
            None => split_once_spec(s@, c) is None,
        },
{
    let mut i: usize = 0;
    while i < s.len()
        invariant
            i <= s.len(),
            forall|j: int| 0 <= j < i ==> s@[j] != c,
        decreases s.len() - i,
    {
        if s[i] == c {
            proof {
                lemma_first_index_of(s@, c, i as int);
            }
            let a = slice_range(s, 0, i);
            let b = slice_range(s, i + 1, s.len());
            assert(a@ =~= s@.take(i as int));
            assert(b@ =~= s@.skip(i + 1));
            return Some((a, b));
        }
        i = i + 1;
    }
    proof {
        lemma_first_index_of(s@, c, i as int);
    }
    None
}

/// The characters `s[from..to]`.
pub fn slice_range(s: &[char], from: usize, to: usize) -> (r: Vec<char>)
    requires
        from <= to <= s.len(),
    ensures
        r@ == s@.subrange(from as int, to as int),
{
    let mut r: Vec<char> = Vec::new();
    let mut k: usize = from;
    while k < to
        invariant
            from <= k <= to <= s.len(),
            r@ == s@.subrange(from as int, k as int),
        decreases to - k,
    {
        r.push(s[k]);
        assert(s@.subrange(from as int, k + 1) =~= s@.subrange(from as int, k as int).push(s@[k as int]));
        k = k + 1;
    }
    r
}

/// `s` without its leading whitespace (`str::trim_start`).
pub fn trim_start_chars(s: &[char]) -> (r: Vec<char>)
    ensures
        r@ == trim_start(s@),
{
    let n = s.len();
    let mut i: usize = 0;
    assert(s@.subrange(0, n as int) =~= s@);
    while i < n && is_whitespace(s[i])
        invariant
            i <= n,
            n == s.len(),
            trim_start(s@) == trim_start(s@.subrange(i as int, n as int)),
        decreases n - i,
    {
        assert(s@.subrange(i as int, n as int).drop_first() =~= s@.subrange(i + 1, n as int));
        i = i + 1;
    }
    slice_range(s, i, n)
}

/// `s` without its leading non-whitespace characters.
pub open spec fn skip_word_chars(s: Seq<char>) -> Seq<char>
    decreases s.len(),
{
    if s.len() > 0 && !is_white_space(s[0]) {
        skip_word_chars(s.drop_first())
    } else {
        s
    }
}

/// The text after the first whitespace-separated word of `s`.
pub open spec fn drop_word(s: Seq<char>) -> Seq<char> {
    skip_word_chars(trim_start(s))
}

/// The text after the first `n` whitespace-separated words of `s`.
pub open spec fn drop_words(s: Seq<char>, n: nat) -> Seq<char>
    decreases n,
{
    if n == 0 {
        s
    } else {
        drop_word(drop_words(s, (n - 1) as nat))
    }
}

/// The text after the first whitespace-separated word of `s`.
pub fn drop_first_word(s: &[char]) -> (r: Vec<char>)
    ensures
        r@ == drop_word(s@),
{
    let t = trim_start_chars(s);
    let n = t.len();
    let mut i: usize = 0;
    assert(t@.subrange(0, n as int) =~= t@);
    while i < n && !is_whitespace(t[i])
        invariant
            i <= n,
            n == t.len(),
            skip_word_chars(t@) == skip_word_chars(t@.subrange(i as int, n as int)),
        decreases n - i,
    {
        assert(t@.subrange(i as int, n as int).drop_first() =~= t@.subrange(i + 1, n as int));
        i = i + 1;
    }
    slice_range(t.as_slice(), i, n)
}

/// The words joined by `sep` (`[&str]::join`).
pub open spec fn join(ws: Seq<Seq<char>>, sep: Seq<char>) -> Seq<char>
    decreases ws.len(),
{
    if ws.len() == 0 {
        Seq::empty()
    } else if ws.len() == 1 {
        ws[0]
    } else {
        join(ws.drop_last(), sep) + sep + ws.last()
    }
}

/// Joins strings with a separator.
pub fn join_strings(ws: &Vec<String>, sep: &str) -> (r: Vec<char>)
    ensures
        r@ == join(string_views(ws@), sep@),
{
    let r = join_strings_from(ws, 0, sep);
    assert(string_views(ws@).skip(0) =~= string_views(ws@));
    r
}

/// Joins the strings from index `from` on with a separator (`ws[from..].join(sep)`).
pub fn join_strings_from(ws: &Vec<String>, from: usize, sep: &str) -> (r: Vec<char>)
    requires
        from <= ws@.len(),
    ensures
        r@ == join(string_views(ws@).skip(from as int), sep@),
{
    let sep_chars = chars_of(sep);
    let mut r: Vec<char> = Vec::new();
    let mut i: usize = from;
    let ghost all = string_views(ws@).skip(from as int);
    assert(all.take(0) =~= Seq::<Seq<char>>::empty());
    while i < ws.len()
        invariant
            from <= i <= ws.len(),
            all == string_views(ws@).skip(from as int),
            sep_chars@ == sep@,
            r@ == join(all.take(i - from), sep@),
        decreases ws.len() - i,
    {
        let w = chars_of(ws[i].as_str());
        let ghost k = i - from;
        assert(all.take(k + 1).drop_last() =~= all.take(k));
        assert(all.take(k + 1).last() == w@);
        if i > from {
            let ghost before = r@;
            append_chars(&mut r, sep_chars.as_slice());
            append_chars(&mut r, w.as_slice());
            assert(r@ =~= before + sep@ + w@);
        } else {
            append_chars(&mut r, w.as_slice());
            assert(r@ =~= w@);
        }
        i = i + 1;
    }
    assert(all.take(ws.len() - from) =~= all);
    r
}

/// Appends `b` to `a`.
pub fn append_chars(a: &mut Vec<char>, b: &[char])
    ensures
        final(a)@ == old(a)@ + b@,
{
    let mut i: usize = 0;
    while i < b.len()
        invariant
            i <= b.len(),
            a@ == old(a)@ + b@.take(i as int),
        decreases b.len() - i,
    {
        a.push(b[i]);
        assert(b@.take(i + 1) =~= b@.take(i as int).push(b@[i as int]));
        i = i + 1;
    }
    assert(b@.take(b.len() as int) =~= b@);
}

pub open spec fn is_digit_char(c: char) -> bool {
    '0' <= c && c <= '9'
}

/// The number that a sequence of decimal digits writes.
pub open spec fn digits_value(s: Seq<char>) -> nat
    decreases s.len(),
{
    if s.len() == 0 {
        0
    } else {
        digits_value(s.drop_last()) * 10 + ((s.last() as u32) - ('0' as u32)) as nat
    }
}

/// The digits of an unsigned numeral: the text after an optional leading `+`.
pub open spec fn unsigned_body(s: Seq<char>) -> Seq<char> {
    if s.len() > 0 && s[0] == '+' { s.drop_first() } else { s }
}

pub open spec fn all_digits(s: Seq<char>) -> bool {
    forall|i: int| 0 <= i < s.len() ==> is_digit_char(#[trigger] s[i])
}

/// `str::parse::<u32>`: an optional `+`, then at least one decimal digit,
/// the whole within `u32`.
pub open spec fn parse_u32_spec(s: Seq<char>) -> Option<u32> {
    let body = unsigned_body(s);
    if body.len() == 0 {
        None
    } else if !all_digits(body) {
        None
    } else if digits_value(body) > u32::MAX {
        None
    } else {
        Some(digits_value(body) as u32)
    }
}

/// `str::parse::<u32>` on a character slice.
pub fn parse_u32(s: &[char]) -> (r: Option<u32>)
    ensures
        r == parse_u32_spec(s@),
{
    let start: usize = if s.len() > 0 && s[0] == '+' { 1 } else { 0 };
    let ghost body = unsigned_body(s@);
    assert(body =~= s@.subrange(start as int, s@.len() as int));
    if start >= s.len() {
        return None;
    }
    let cap: u64 = 4294967296;
    let mut acc: u64 = 0;
    let mut i: usize = start;
    assert(body.take(0) =~= Seq::<char>::empty());
    while i < s.len()
        invariant
            start <= i <= s.len(),
            body =~= s@.subrange(start as int, s@.len() as int),
            body == unsigned_body(s@),
            start < s.len(),
            cap == 4294967296,
            forall|j: int| 0 <= j < i - start ==> is_digit_char(body[j]),
            acc == if digits_value(body.take(i - start)) < cap { digits_value(body.take(i - start)) } else {
                cap as nat
            },
        decreases s.len() - i,
    {
        let c = s[i];
        if !('0' <= c && c <= '9') {
            let ghost k = (i - start) as int;
            assert(0 <= k < body.len());
            assert(!is_digit_char(body[k]));
            return None;
        }
        let d = (c as u32 - '0' as u32) as u64;
        let ghost k = (i - start) as int;
        assert(body.take(k + 1).drop_last() =~= body.take(k));
        assert(body.take(k + 1).last() == c);
        let ghost v = digits_value(body.take(k));
        assert(digits_value(body.take(k + 1)) == v * 10 + d);
        if acc >= cap {
            acc = cap;
        } else {
            let next = acc * 10 + d;
            acc = if next >= cap { cap } else { next };
        }
        i = i + 1;
    }
    assert(body.take(body.len() as int) =~= body);
    if acc >= cap {
        None
    } else {
        Some(acc as u32)
    }
}

} // verus!


verus! {

/// `str::to_lowercase`: the Unicode lowercase mapping of a text.
pub uninterp spec fn lowercase(s: Seq<char>) -> Seq<char>;

/// An ASCII character lowercased: `A` to `Z` become `a` to `z`.
pub open spec fn ascii_lower_char(c: char) -> char {
    if 'A' <= c <= 'Z' { ((c as u32) + 32) as char } else { c }
}

/// A text with its ASCII capitals lowercased.
pub open spec fn ascii_lowercase(s: Seq<char>) -> Seq<char> {
    s.map_values(|c: char| ascii_lower_char(c))
}

/// Lowercases a text with `str::to_lowercase`; on ASCII text that is
/// `A`-`Z` to `a`-`z`, the rest kept.
#[verifier::external_body]
pub(crate) fn to_lowercase(s: &str) -> (r: String)
    ensures
        r@ == lowercase(s@),
        is_ascii_text(s@) ==> r@ == ascii_lowercase(s@),
{
    s.to_lowercase()
}

/// The characters of `s` that `keep` accepts, in order.
pub open spec fn filter_chars(s: Seq<char>, keep: spec_fn(char) -> bool) -> Seq<char>
    decreases s.len(),
{
    if s.len() == 0 {
        Seq::empty()
    } else if keep(s.last()) {
        filter_chars(s.drop_last(), keep).push(s.last())
    } else {
        filter_chars(s.drop_last(), keep)
    }
}

/// `s` without its leading `c`s (`str::trim_start_matches(c)`).
pub open spec fn trim_start_char(s: Seq<char>, c: char) -> Seq<char>
    decreases s.len(),
{
    if s.len() > 0 && s[0] == c {
        trim_start_char(s.drop_first(), c)
    } else {
        s
    }
}

pub fn trim_start_matches_char(s: &[char], c: char) -> (r: Vec<char>)
    ensures
        r@ == trim_start_char(s@, c),
{
    let n = s.len();
    let mut i: usize = 0;
    assert(s@.subrange(0, n as int) =~= s@);
    while i < n && s[i] == c
        invariant
            i <= n,
            n == s.len(),
            trim_start_char(s@, c) == trim_start_char(s@.subrange(i as int, n as int), c),
        decreases n - i,
    {
        assert(s@.subrange(i as int, n as int).drop_first() =~= s@.subrange(i + 1, n as int));
        i = i + 1;
    }
    slice_range(s, i, n)
}

/// A string made of `a` followed by `b`.
pub fn concat2(a: &str, b: &str) -> (r: String)
    ensures
        r@ == a@ + b@,
{
    let mut r = String::from_str(a);
    r.append(b);
    r
}

/// A string made of `a`, `b` and `c`.
pub fn concat3(a: &str, b: &str, c: &str) -> (r: String)
    ensures
        r@ == a@ + b@ + c@,
{
    let mut r = String::from_str(a);
    r.append(b);
    r.append(c);
    r
}

/// A string made of five pieces.
pub fn concat5(a: &str, b: &str, c: &str, d: &str, e: &str) -> (r: String)
    ensures
        r@ == a@ + b@ + c@ + d@ + e@,
{
    let mut r = String::from_str(a);
    r.append(b);
    r.append(c);
    r.append(d);
    r.append(e);
    r
}

} // verus!

verus! {

/// Division that rounds toward zero, as Rust's `/` on signed integers does.
pub open spec fn trunc_div(a: int, d: int) -> int {
    if a >= 0 { a / d } else { -((-a) / d) }
}

/// The remainder that goes with `trunc_div`, as Rust's `%` on signed integers gives it.
pub open spec fn trunc_rem(a: int, d: int) -> int {
    a - trunc_div(a, d) * d
}

pub fn i64_div(a: i64, d: i64) -> (r: i64)
    requires
        d > 0,
    ensures
        r == trunc_div(a as int, d as int),
{
    a / d
}

pub fn i64_rem(a: i64, d: i64) -> (r: i64)
    requires
        d > 0,
    ensures
        r == trunc_rem(a as int, d as int),
{
    let q = a / d;
    proof {
        let qi = trunc_div(a as int, d as int);
        if a >= 0 {
            assert(0 <= qi * d <= a) by (nonlinear_arith)
                requires qi == (a as int) / (d as int), a >= 0, d > 0;
        } else {
            assert(a <= qi * d <= 0) by (nonlinear_arith)
                requires qi == -((-(a as int)) / (d as int)), a < 0, d > 0;
        }
    }
    a - q * d
}

} // verus!

verus! {

/// The digits of a signed numeral: the text after an optional leading sign.
pub open spec fn signed_body(s: Seq<char>) -> Seq<char> {
    if s.len() > 0 && (s[0] == '+' || s[0] == '-') { s.drop_first() } else { s }
}

/// `str::parse::<i64>`: an optional sign, then at least one decimal digit,
/// the whole within `i64`.
pub open spec fn parse_i64_spec(s: Seq<char>) -> Option<i64> {
    let negative = s.len() > 0 && s[0] == '-';
    let body = signed_body(s);
    if body.len() == 0 || !all_digits(body) {
        None
    } else if negative {
        if digits_value(body) > 9223372036854775808 {
            None
        } else {
            Some((-(digits_value(body) as int)) as i64)
        }
    } else if digits_value(body) > 9223372036854775807 {
        None
    } else {
        Some(digits_value(body) as i64)
    }
}

/// `str::parse::<i64>` on a character slice.
pub fn parse_i64(s: &[char]) -> (r: Option<i64>)
    ensures
        r == parse_i64_spec(s@),
{
    let negative = s.len() > 0 && s[0] == '-';
    let start: usize = if s.len() > 0 && (s[0] == '+' || s[0] == '-') { 1 } else { 0 };
    let ghost body = signed_body(s@);
    assert(body =~= s@.subrange(start as int, s@.len() as int));
    if start >= s.len() {
        return None;
    }
    let cap: u64 = 9223372036854775809;
    let mut acc: u64 = 0;
    let mut i: usize = start;
    assert(body.take(0) =~= Seq::<char>::empty());
    while i < s.len()
        invariant
            start <= i <= s.len(),
            start < s.len(),
            body =~= s@.subrange(start as int, s@.len() as int),
            body == signed_body(s@),
            cap == 9223372036854775809,
            forall|j: int| 0 <= j < i - start ==> is_digit_char(body[j]),
            acc == if digits_value(body.take(i - start)) < cap { digits_value(body.take(i - start)) } else {
                cap as nat
            },
        decreases s.len() - i,
    {
        let c = s[i];
        let ghost k = (i - start) as int;
        if !('0' <= c && c <= '9') {
            assert(0 <= k < body.len());
            assert(!is_digit_char(body[k]));
            return None;
        }
        let d = (c as u32 - '0' as u32) as u64;
        assert(body.take(k + 1).drop_last() =~= body.take(k));
        assert(body.take(k + 1).last() == c);
        if acc > 922337203685477580 {
            acc = cap;
        } else {
            let next = acc * 10 + d;
            acc = if next >= cap { cap } else { next };
        }
        i = i + 1;
    }
    assert(body.take(body.len() as int) =~= body);
    assert(all_digits(body));
    if negative {
        if acc > 9223372036854775808 {
            None
        } else if acc == 9223372036854775808 {
            Some(i64::MIN)
        } else {
            Some(-(acc as i64))
        }
    } else if acc > 9223372036854775807 {
        None
    } else {
        Some(acc as i64)
    }
}

/// `str::replace(from, to)`: the occurrences of `from`, found left to
/// right without overlap, each replaced by `to`; an empty `from` matches
/// before every character and at the end.
pub open spec fn replaced(s: Seq<char>, from: Seq<char>, to: Seq<char>) -> Seq<char>
    decreases s.len(),
{
    if from.len() == 0 {
        if s.len() == 0 {
            to
        } else {
            to + seq![s[0]] + replaced(s.drop_first(), from, to)
        }
    } else if s.len() >= from.len() && s.take(from.len() as int) == from {
        to + replaced(s.skip(from.len() as int), from, to)
    } else if s.len() == 0 {
        Seq::empty()
    } else {
        seq![s[0]] + replaced(s.drop_first(), from, to)
    }
}

/// Whether `f` occurs in `s` at position `i`.
fn occurs_at_index(s: &[char], f: &[char], i: usize) -> (r: bool)
    requires
        i <= s.len(),
    ensures
        r == (f.len() <= s.len() - i && s@.subrange(i as int, i + f.len()) == f@),
{
    if f.len() > s.len() - i {
        return false;
    }
    let mut j: usize = 0;
    while j < f.len()
        invariant
            j <= f.len(),
            f.len() <= s.len() - i,
            forall|k: int| 0 <= k < j ==> s@[i + k] == f@[k],
        decreases f.len() - j,
    {
        if s[i + j] != f[j] {
            assert(s@.subrange(i as int, i + f.len())[j as int] != f@[j as int]);
            return false;
        }
        j = j + 1;
    }
    assert(s@.subrange(i as int, i + f.len()) =~= f@);
    true
}

/// Replaces every occurrence of `from` in `s` with `to` (`str::replace`).
pub fn replace_all(s: &str, from: &str, to: &str) -> (r: String)
    ensures
        r@ == replaced(s@, from@, to@),
{
    let cs = chars_of(s);
    let fs = chars_of(from);
    let ts = chars_of(to);
    let n = cs.len();
    let m = fs.len();
    let mut out: Vec<char> = Vec::new();
    let mut i: usize = 0;
    assert(cs@.skip(0) =~= cs@);
    while i < n
        invariant
            i <= n,
            n == cs@.len(),
            m == fs@.len(),
            cs@ == s@,
            fs@ == from@,
            ts@ == to@,
            out@ + replaced(cs@.skip(i as int), fs@, ts@) == replaced(s@, from@, to@),
        decreases n - i,
    {
        let ghost rest = cs@.skip(i as int);
        if m == 0 {
            assert(rest.drop_first() =~= cs@.skip(i + 1));
            assert(rest[0] == cs@[i as int]);
            let ghost before = out@;
            append_chars(&mut out, ts.as_slice());
            out.push(cs[i]);
            assert(before + replaced(rest, fs@, ts@) =~= out@ + replaced(cs@.skip(i + 1), fs@, ts@));
            i = i + 1;
        } else if occurs_at_index(cs.as_slice(), fs.as_slice(), i) {
            assert(rest.take(m as int) =~= cs@.subrange(i as int, i + m));
            assert(rest.skip(m as int) =~= cs@.skip(i + m));
            let ghost before = out@;
            append_chars(&mut out, ts.as_slice());
            assert(before + replaced(rest, fs@, ts@) =~= out@ + replaced(cs@.skip(i + m), fs@, ts@));
            i = i + m;
        } else {
            assert(rest.len() >= m ==> rest.take(m as int) =~= cs@.subrange(i as int, i + m));
            assert(rest.drop_first() =~= cs@.skip(i + 1));
            assert(rest[0] == cs@[i as int]);
            let ghost before = out@;
            out.push(cs[i]);
            assert(before + replaced(rest, fs@, ts@) =~= out@ + replaced(cs@.skip(i + 1), fs@, ts@));
            i = i + 1;
        }
    }
    assert(cs@.skip(n as int) =~= Seq::<char>::empty());
    if m == 0 {
        append_chars(&mut out, ts.as_slice());
    } else {
        assert(out@ + Seq::<char>::empty() =~= out@);
    }
    string_from_chars(out.as_slice())
}

/// Trims a text (`str::trim`).
pub fn trim_string(s: &str) -> (r: String)
    ensures
        r@ == trim(s@),
{
    let cs = chars_of(s);
    let t = trim_chars(cs.as_slice());
    string_from_chars(t.as_slice())
}

} // verus!

verus! {

pub proof fn lemma_utf8_len_take_step(s: Seq<char>, j: int)
    requires
        0 <= j < s.len(),
    ensures
        utf8_len(s.take(j + 1)) == utf8_len(s.take(j)) + utf8_width(s[j]),
        utf8_len(s.take(j + 1)) > utf8_len(s.take(j)),
{
    assert(s.take(j + 1).drop_last() =~= s.take(j));
    assert(s.take(j + 1).last() == s[j]);
}

/// UTF-8 lengths of prefixes grow with the prefix.
pub proof fn lemma_utf8_len_take_mono(s: Seq<char>, a: int, b: int)
    requires
        0 <= a < b <= s.len(),
    ensures
        utf8_len(s.take(a)) < utf8_len(s.take(b)),
    decreases b - a,
{
    lemma_utf8_len_take_step(s, b - 1);
    if a < b - 1 {
        lemma_utf8_len_take_mono(s, a, b - 1);
    }
}

/// Whether byte offset `n` falls between two characters of `s`.
pub open spec fn is_char_boundary(s: Seq<char>, n: nat) -> bool {
    exists|k: int| 0 <= k <= s.len() && utf8_len(#[trigger] s.take(k)) == n
}

/// The number of characters in the first `n` bytes of `s`, where `n` is a boundary.
pub fn chars_in_bytes(s: &[char], n: usize) -> (k: usize)
    requires
        is_char_boundary(s@, n as nat),
    ensures
        k <= s.len(),
        utf8_len(s@.take(k as int)) == n,
{
    let ghost kb = choose|k: int| 0 <= k <= s@.len() && utf8_len(#[trigger] s@.take(k)) == n;
    let mut acc: usize = 0;
    let mut i: usize = 0;
    assert(s@.take(0) =~= Seq::<char>::empty());
    while acc < n && i < s.len()
        invariant
            i <= s.len(),
            acc == utf8_len(s@.take(i as int)),
            0 <= kb <= s@.len(),
            utf8_len(s@.take(kb)) == n,
            acc <= n || i == kb,
            acc < n ==> i < kb,
        decreases s.len() - i,
    {
        proof {
            lemma_utf8_len_take_step(s@, i as int);
            if (i as int) + 1 < kb {
                lemma_utf8_len_take_mono(s@, i as int + 1, kb);
            }
        }
        let w = char_width(s[i]);
        acc = acc + w;
        i = i + 1;
        proof {
            if i as int > kb {
                lemma_utf8_len_take_mono(s@, kb, i as int);
            } else if (i as int) < kb {
                lemma_utf8_len_take_mono(s@, i as int, kb);
            }
        }
    }
    proof {
        if (i as int) < kb {
            lemma_utf8_len_take_mono(s@, i as int, kb);
        } else if (i as int) > kb {
            lemma_utf8_len_take_mono(s@, kb, i as int);
        }
    }
    i
}

} // verus!

verus! {

/// Whether `needle` occurs in `hay` at position `i`.
pub open spec fn occurs_at(hay: Seq<char>, needle: Seq<char>, i: int) -> bool {
    0 <= i && i + needle.len() <= hay.len() && hay.subrange(i, i + needle.len()) == needle
}

/// Whether `needle` occurs in `hay` (`str::contains`).
pub open spec fn contains_text(hay: Seq<char>, needle: Seq<char>) -> bool {
    exists|i: int| #[trigger] occurs_at(hay, needle, i)
}

/// Whether `needle` occurs in `hay`.
pub fn contains_str(hay: &str, needle: &str) -> (r: bool)
    ensures
        r == contains_text(hay@, needle@),
{
    let h = chars_of(hay);
    let n = chars_of(needle);
    if n.len() > h.len() {
        proof {
            assert forall|i: int| !#[trigger] occurs_at(hay@, needle@, i) by {}
        }
        return false;
    }
    let mut i: usize = 0;
    while i <= h.len() - n.len()
        invariant
            h@ == hay@,
            n@ == needle@,
            n@.len() <= h@.len(),
            i <= h@.len() - n@.len() + 1,
            forall|j: int| 0 <= j < i ==> !#[trigger] occurs_at(hay@, needle@, j),
        decreases h@.len() - n@.len() + 1 - i,
    {
        let mut k: usize = 0;
        let mut same = true;
        while k < n.len()
            invariant
                h@ == hay@,
                n@ == needle@,
                i + n@.len() <= h@.len(),
                h@.len() <= usize::MAX,
                k <= n@.len(),
                same == (forall|m: int| 0 <= m < k ==> h@[i + m] == n@[m]),
            decreases n@.len() - k,
        {
            if h[i + k] != n[k] {
                same = false;
            }
            k = k + 1;
        }
        if same {
            assert(hay@.subrange(i as int, i + needle@.len()) =~= needle@);
            assert(occurs_at(hay@, needle@, i as int));
            return true;
        }
        proof {
            if occurs_at(hay@, needle@, i as int) {
                assert forall|m: int| 0 <= m < n@.len() implies h@[i + m] == n@[m] by {
                    assert(hay@.subrange(i as int, i + needle@.len())[m] == hay@[i + m]);
                }
            }
        }
        i = i + 1;
    }
    proof {
        assert forall|j: int| !#[trigger] occurs_at(hay@, needle@, j) by {
            if 0 <= j < i {
            }
        }
    }
    false
}

} // verus!
