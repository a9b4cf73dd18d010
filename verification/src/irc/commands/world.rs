use vstd::prelude::*;
use crate::clock::{chrono_millis_in_range, date_of_day, day_of_millis};
use crate::irc::command_system::Command;
use crate::keyed::KeyedList;
use crate::roles::UserRole;
use crate::text::{
    i64_to_decimal, signed_decimal, decimal, digit_char,
    chars_of, lemma_utf8_len_concat, split_whitespace, string_from_chars, string_views, trim,
    trim_chars, utf8_bytes, utf8_encode, utf8_len, utf8_len_capped, views, words, is_ascii_text,
    ascii_chars, lemma_ascii_encode, lemma_ascii_decode, lemma_words_ascii, lemma_ascii_roundtrip, join, is_white_space,
    no_white_space, lemma_words_clean, trim_start,
};

verus! {

/// The longest message, in bytes, that one chat line may hold.
pub const MAX_IRC_MESSAGE_LENGTH: usize = 500;

/// How many bytes of an over-long word go into one piece (three more go to `...`).
pub const WORD_CHUNK_LENGTH: usize = 497;

/// `String::from_utf8_lossy`: invalid sequences become U+FFFD; valid UTF-8
/// reads as the text it encodes.
pub uninterp spec fn utf8_lossy(bytes: Seq<u8>) -> Seq<char>;

/// Decodes bytes as UTF-8 with `String::from_utf8_lossy`: bytes that are the
/// encoding of a text give that text back.
#[verifier::external_body]
fn decode_lossy(bytes: &[u8]) -> (s: String)
    ensures
        s@ == utf8_lossy(bytes@),
        forall|cs: Seq<char>| #[trigger] utf8_encode(cs) == bytes@ ==> s@ == cs,
{
    String::from_utf8_lossy(bytes).into_owned()
}

/// `slice::chunks(n)`: consecutive pieces of `n` elements, the last one shorter.
pub open spec fn chunks(b: Seq<u8>, n: nat) -> Seq<Seq<u8>>
    recommends
        n > 0,
    decreases b.len(),
{
    if b.len() == 0 || n == 0 {
        Seq::empty()
    } else if b.len() <= n {
        seq![b]
    } else {
        seq![b.take(n as int)] + chunks(b.skip(n as int), n)
    }
}

/// One piece of an over-long word, as it is sent.
pub open spec fn word_piece(chunk: Seq<u8>) -> Seq<char> {
    utf8_lossy(chunk) + "..."@
}

/// The pieces that an over-long word is sent as.
pub open spec fn word_pieces(word: Seq<char>) -> Seq<Seq<char>> {
    chunks(utf8_encode(word), WORD_CHUNK_LENGTH as nat).map_values(|c: Seq<u8>| word_piece(c))
}

/// `s` cut into consecutive pieces of `n` characters, the last one shorter.
pub open spec fn char_chunks(s: Seq<char>, n: nat) -> Seq<Seq<char>>
    decreases s.len(),
{
    if s.len() == 0 || n == 0 {
        Seq::empty()
    } else if s.len() <= n {
        seq![s]
    } else {
        seq![s.take(n as int)] + char_chunks(s.skip(n as int), n)
    }
}

/// One piece of an over-long ASCII word: its characters, then `...`.
pub open spec fn ascii_piece(c: Seq<char>) -> Seq<char> {
    c + "..."@
}

/// The pieces of an over-long ASCII word: its consecutive 497-character
/// pieces, the last one shorter, each followed by `...`.
pub open spec fn ascii_word_pieces(w: Seq<char>) -> Seq<Seq<char>> {
    char_chunks(w, WORD_CHUNK_LENGTH as nat).map_values(|c: Seq<char>| ascii_piece(c))
}

proof fn lemma_char_chunks_append(s: Seq<char>, t: Seq<char>)
    requires
        s.len() % 497 == 0,
        0 < t.len() <= 497,
    ensures
        char_chunks(s + t, 497) == char_chunks(s, 497).push(t),
    decreases s.len(),
{
    if s.len() == 0 {
        assert(s + t =~= t);
        assert(char_chunks(s, 497) =~= Seq::<Seq<char>>::empty());
        assert(char_chunks(t, 497) =~= seq![t]);
    } else {
        let st = s + t;
        assert(st.take(497) =~= s.take(497));
        assert(st.skip(497) =~= s.skip(497) + t);
        lemma_char_chunks_append(s.skip(497), t);
        if s.len() == 497 {
            assert(s.skip(497) =~= Seq::<char>::empty());
            assert(s.skip(497) + t =~= t);
            assert(char_chunks(s, 497) =~= seq![s]);
            assert(s.take(497) =~= s);
        }
        assert(char_chunks(st, 497) =~= char_chunks(s, 497).push(t));
    }
}

/// Every piece that the over-long word `w` would be sent as fits a chat line.
pub open spec fn pieces_fit(w: Seq<char>) -> bool {
    forall|i: int| 0 <= i < word_pieces(w).len() ==> utf8_len(#[trigger] word_pieces(w)[i]) <= MAX_IRC_MESSAGE_LENGTH
}

/// A word fits a chat line, or is sent as pieces that do.
pub open spec fn word_fits(w: Seq<char>) -> bool {
    utf8_len(w) <= MAX_IRC_MESSAGE_LENGTH || pieces_fit(w)
}

/// One word of the packing: the lines already closed, and the line being filled.
pub open spec fn pack_step(st: (Seq<Seq<char>>, Seq<char>), word: Seq<char>) -> (Seq<Seq<char>>, Seq<char>) {
    let (lines, cur) = st;
    if utf8_len(cur) + utf8_len(word) + 1 > MAX_IRC_MESSAGE_LENGTH {
        let closed = if cur.len() > 0 { lines.push(trim(cur)) } else { lines };
        if utf8_len(word) > MAX_IRC_MESSAGE_LENGTH {
            (closed + word_pieces(word), Seq::empty())
        } else {
            (closed, word)
        }
    } else if cur.len() > 0 {
        (lines, cur.push(' ') + word)
    } else {
        (lines, word)
    }
}

pub open spec fn pack_state(ws: Seq<Seq<char>>) -> (Seq<Seq<char>>, Seq<char>)
    decreases ws.len(),
{
    if ws.len() == 0 {
        (Seq::empty(), Seq::empty())
    } else {
        pack_step(pack_state(ws.drop_last()), ws.last())
    }
}

/// The chat lines that `message` is sent as: the message itself when it fits,
/// otherwise its words packed greedily into lines of at most 500 bytes, a
/// longer word cut into pieces of 497 bytes followed by `...`.
pub open spec fn split_message_spec(message: Seq<char>) -> Seq<Seq<char>> {
    if utf8_len(message) <= MAX_IRC_MESSAGE_LENGTH {
        seq![message]
    } else {
        let st = pack_state(words(message));
        if st.1.len() > 0 {
            st.0.push(trim(st.1))
        } else {
            st.0
        }
    }
}

proof fn lemma_trim_start_shorter(s: Seq<char>)
    ensures
        utf8_len(crate::text::trim_start(s)) <= utf8_len(s),
    decreases s.len(),
{
    if s.len() > 0 && crate::text::is_white_space(s[0]) {
        lemma_trim_start_shorter(s.drop_first());
        assert(s =~= seq![s[0]] + s.drop_first());
        lemma_utf8_len_concat(seq![s[0]], s.drop_first());
    }
}

proof fn lemma_trim_end_shorter(s: Seq<char>)
    ensures
        utf8_len(crate::text::trim_end(s)) <= utf8_len(s),
    decreases s.len(),
{
    if s.len() > 0 && crate::text::is_white_space(s.last()) {
        lemma_trim_end_shorter(s.drop_last());
    }
}

/// Trimming never lengthens a text.
proof fn lemma_trim_shorter(s: Seq<char>)
    ensures
        utf8_len(trim(s)) <= utf8_len(s),
{
    lemma_trim_start_shorter(s);
    lemma_trim_end_shorter(crate::text::trim_start(s));
}

proof fn lemma_pack_fits(ws: Seq<Seq<char>>)
    requires
        forall|i: int| 0 <= i < ws.len() ==> word_fits(#[trigger] ws[i]),
    ensures
        utf8_len(pack_state(ws).1) <= MAX_IRC_MESSAGE_LENGTH,
        forall|i: int|
            0 <= i < pack_state(ws).0.len() ==> utf8_len(#[trigger] pack_state(ws).0[i]) <= MAX_IRC_MESSAGE_LENGTH,
    decreases ws.len(),
{
    if ws.len() > 0 {
        let prev = ws.drop_last();
        assert forall|i: int| 0 <= i < prev.len() implies word_fits(#[trigger] prev[i]) by {
            assert(prev[i] == ws[i]);
        }
        lemma_pack_fits(prev);
        let (lines, cur) = pack_state(prev);
        let word = ws.last();
        assert(word_fits(word)) by {
            assert(ws[ws.len() - 1] == word);
        }
        lemma_trim_shorter(cur);
        if cur.len() > 0 {
            lemma_utf8_len_concat(cur.push(' '), word);
            lemma_utf8_len_concat(cur, seq![' ']);
            assert(cur + seq![' '] =~= cur.push(' '));
            assert(seq![' '].drop_last() =~= Seq::<char>::empty());
            assert(seq![' '].last() == ' ');
            assert(utf8_len(Seq::<char>::empty()) == 0);
            assert((' ' as u32) == 32);
            assert(utf8_len(seq![' ']) == 1);
        }
        let next = pack_step((lines, cur), word);
        assert(pack_state(ws) == next);
        let closed = if cur.len() > 0 { lines.push(trim(cur)) } else { lines };
        assert forall|i: int| 0 <= i < next.0.len() implies utf8_len(#[trigger] next.0[i]) <= MAX_IRC_MESSAGE_LENGTH by {
            if i < lines.len() {
                assert(next.0[i] == lines[i]);
            } else if utf8_len(word) > MAX_IRC_MESSAGE_LENGTH && i >= closed.len() {
                assert(next.0 == closed + word_pieces(word));
                assert(next.0[i] == word_pieces(word)[i - closed.len()]);
            }
        }
    }
}

/// Where every word of a message fits in 500 bytes, or is cut into pieces
/// that do, every chat line the message is sent as fits in 500 bytes.
/// (`split_message` shows that the pieces of an ASCII word do.)
pub proof fn law_split_lines_fit(message: Seq<char>)
    requires
        forall|i: int| 0 <= i < words(message).len() ==> word_fits(#[trigger] words(message)[i]),
    ensures
        forall|i: int|
            0 <= i < split_message_spec(message).len() ==> utf8_len(#[trigger] split_message_spec(message)[i])
                <= MAX_IRC_MESSAGE_LENGTH,
{
    if utf8_len(message) > MAX_IRC_MESSAGE_LENGTH {
        let ws = words(message);
        lemma_pack_fits(ws);
        let st = pack_state(ws);
        lemma_trim_shorter(st.1);
        let lines = split_message_spec(message);
        assert forall|i: int| 0 <= i < lines.len() implies utf8_len(#[trigger] lines[i]) <= MAX_IRC_MESSAGE_LENGTH by {
            if i < st.0.len() {
                assert(lines[i] == st.0[i]);
            }
        }
    }
}

/// A non-empty text that neither starts nor ends with whitespace.
pub open spec fn tidy_line(l: Seq<char>) -> bool {
    l.len() > 0 && !is_white_space(l[0]) && !is_white_space(l.last())
}

/// The lines of a packing state, the one being filled included.
pub open spec fn pack_lines(st: (Seq<Seq<char>>, Seq<char>)) -> Seq<Seq<char>> {
    if st.1.len() > 0 {
        st.0.push(st.1)
    } else {
        st.0
    }
}

proof fn lemma_join_push(xs: Seq<Seq<char>>, x: Seq<char>, sep: Seq<char>)
    ensures
        join(xs.push(x), sep) == if xs.len() == 0 { x } else { join(xs, sep) + sep + x },
{
    assert(xs.push(x).drop_last() =~= xs);
    if xs.len() == 0 {
        assert(xs.push(x)[0] == x);
    }
}

proof fn lemma_trim_tidy(l: Seq<char>)
    requires
        tidy_line(l),
    ensures
        trim(l) == l,
{
    assert(trim_start(l) == l);
}

/// Packing words that fit keeps them whole and in order, one space apart,
/// in tidy lines.
proof fn lemma_pack_keeps_words(ws: Seq<Seq<char>>)
    requires
        forall|i: int|
            0 <= i < ws.len() ==> (#[trigger] ws[i]).len() > 0 && no_white_space(ws[i]) && utf8_len(ws[i])
                <= MAX_IRC_MESSAGE_LENGTH,
    ensures
        join(pack_lines(pack_state(ws)), " "@) == join(ws, " "@),
        forall|i: int| 0 <= i < pack_state(ws).0.len() ==> tidy_line(#[trigger] pack_state(ws).0[i]),
        pack_state(ws).1.len() == 0 || tidy_line(pack_state(ws).1),
        ws.len() > 0 ==> pack_lines(pack_state(ws)).len() > 0,
    decreases ws.len(),
{
    if ws.len() > 0 {
        let prev = ws.drop_last();
        assert forall|i: int|
            0 <= i < prev.len() implies (#[trigger] prev[i]).len() > 0 && no_white_space(prev[i]) && utf8_len(
                prev[i],
            ) <= MAX_IRC_MESSAGE_LENGTH by {
            assert(prev[i] == ws[i]);
        }
        lemma_pack_keeps_words(prev);
        let (lines, cur) = pack_state(prev);
        let w = ws.last();
        assert(w.len() > 0 && no_white_space(w) && utf8_len(w) <= MAX_IRC_MESSAGE_LENGTH) by {
            assert(ws[ws.len() - 1] == w);
        }
        assert(tidy_line(w)) by {
            assert(!is_white_space(w[0]));
            assert(!is_white_space(w[w.len() - 1]));
        }
        assert(ws.drop_last() =~= prev);
        let flat = pack_lines((lines, cur));
        lemma_join_push(prev, w, " "@);
        let next = pack_step((lines, cur), w);
        assert(pack_state(ws) == next);
        if utf8_len(cur) + utf8_len(w) + 1 > MAX_IRC_MESSAGE_LENGTH || cur.len() == 0 {
            if cur.len() > 0 {
                lemma_trim_tidy(cur);
            }
            let closed = if cur.len() > 0 { lines.push(trim(cur)) } else { lines };
            assert(closed == flat);
            assert(next == (closed, w));
            assert(pack_lines(next) == flat.push(w));
            lemma_join_push(flat, w, " "@);
            assert forall|i: int| 0 <= i < next.0.len() implies tidy_line(#[trigger] next.0[i]) by {
                if i < lines.len() {
                    assert(next.0[i] == lines[i]);
                }
            }
        } else {
            let joined = cur.push(' ') + w;
            assert(next == (lines, joined));
            assert(joined[0] == cur[0]);
            assert(joined.last() == w.last());
            lemma_join_push(lines, cur, " "@);
            lemma_join_push(lines, joined, " "@);
            assert(cur.push(' ') + w =~= cur + " "@ + w) by {
                reveal_strlit(" ");
            }
        }
    }
}

/// A long message whose words all fit is sent as tidy lines (non-empty,
/// without whitespace at either end) that, joined by single spaces, give
/// back its words in order.
pub proof fn law_split_keeps_words(message: Seq<char>)
    requires
        utf8_len(message) > MAX_IRC_MESSAGE_LENGTH,
        forall|i: int| 0 <= i < words(message).len() ==> utf8_len(#[trigger] words(message)[i]) <= MAX_IRC_MESSAGE_LENGTH,
    ensures
        join(split_message_spec(message), " "@) == join(words(message), " "@),
        forall|i: int| 0 <= i < split_message_spec(message).len() ==> tidy_line(#[trigger] split_message_spec(message)[i]),
{
    let ws = words(message);
    lemma_words_clean(message);
    assert forall|i: int|
        0 <= i < ws.len() implies (#[trigger] ws[i]).len() > 0 && no_white_space(ws[i]) && utf8_len(ws[i])
            <= MAX_IRC_MESSAGE_LENGTH by {}
    lemma_pack_keeps_words(ws);
    let st = pack_state(ws);
    if st.1.len() > 0 {
        lemma_trim_tidy(st.1);
    }
    assert(split_message_spec(message) == pack_lines(st));
    let lines = split_message_spec(message);
    assert forall|i: int| 0 <= i < lines.len() implies tidy_line(#[trigger] lines[i]) by {
        if i < st.0.len() {
            assert(lines[i] == st.0[i]);
        }
    }
}

proof fn lemma_string_views_push(v: Seq<String>, s: String)
    ensures
        string_views(v.push(s)) == string_views(v).push(s@),
{
    assert(string_views(v.push(s)) =~= string_views(v).push(s@));
}

/// Appends the pieces of an over-long word to `lines`.
fn push_word_pieces(lines: &mut Vec<String>, word: &[char])
    ensures
        string_views(final(lines)@) == string_views(old(lines)@) + word_pieces(word@),
        is_ascii_text(word@) ==> pieces_fit(word@),
        is_ascii_text(word@) ==> word_pieces(word@) == ascii_word_pieces(word@),
{
    let bytes = utf8_bytes(word);
    let ghost all = bytes@;
    let ghost n = WORD_CHUNK_LENGTH as nat;
    let mut start: usize = 0;
    let ghost base = string_views(lines@);
    let ghost ascii = is_ascii_text(word@);
    proof {
        if ascii {
            lemma_ascii_encode(word@);
            lemma_ascii_roundtrip(word@);
            assert(word@.take(0) =~= Seq::<char>::empty());
            assert(char_chunks(word@.take(0), 497) =~= Seq::<Seq<char>>::empty());
            assert(string_views(lines@) =~= base + char_chunks(word@.take(0), 497).map_values(
                |c: Seq<char>| ascii_piece(c),
            ));
        }
        assert(utf8_len("..."@) == 3) by {
            reveal_strlit("...");
            reveal_with_fuel(utf8_len, 4);
        }
    }
    assert(all.skip(0) =~= all);
    assert(chunks(all, n).map_values(|c: Seq<u8>| word_piece(c)) == word_pieces(word@));
    while start < bytes.len()
        invariant
            start <= bytes.len(),
            bytes@ == all,
            n == WORD_CHUNK_LENGTH,
            string_views(lines@) + chunks(all.skip(start as int), n).map_values(
                |c: Seq<u8>| word_piece(c),
            ) == base + chunks(all, n).map_values(|c: Seq<u8>| word_piece(c)),
            lines@.len() >= base.len(),
            ascii == is_ascii_text(word@),
            utf8_len("..."@) == 3,
            ascii ==> forall|k: int| 0 <= k < all.len() ==> #[trigger] all[k] < 128,
            ascii ==> forall|j: int|
                base.len() <= j < lines@.len() ==> utf8_len(#[trigger] lines@[j]@) <= MAX_IRC_MESSAGE_LENGTH,
            ascii ==> word@.len() == all.len() && ascii_chars(all) == word@,
            ascii ==> start % 497 == 0 || start == bytes.len(),
            ascii ==> string_views(lines@) == base + char_chunks(word@.take(start as int), 497).map_values(
                |c: Seq<char>| ascii_piece(c),
            ),
        decreases bytes.len() - start,
    {
        let rest_len = bytes.len() - start;
        let end = if rest_len <= WORD_CHUNK_LENGTH {
            bytes.len()
        } else {
            start + WORD_CHUNK_LENGTH
        };
        let mut chunk: Vec<u8> = Vec::new();
        let mut k: usize = start;
        while k < end
            invariant
                start <= k <= end <= bytes.len(),
                chunk@ == bytes@.subrange(start as int, k as int),
            decreases end - k,
        {
            chunk.push(bytes[k]);
            assert(bytes@.subrange(start as int, k + 1) =~= bytes@.subrange(start as int, k as int).push(
                bytes@[k as int],
            ));
            k = k + 1;
        }
        let decoded = decode_lossy(chunk.as_slice());
        let mut piece = decoded;
        piece.append("...");
        let ghost rest = all.skip(start as int);
        proof {
            lemma_utf8_len_concat(decoded@, "..."@);
            if ascii {
                assert forall|k: int| 0 <= k < chunk@.len() implies #[trigger] chunk@[k] < 128 by {
                    assert(chunk@[k] == all[start + k]);
                }
                lemma_ascii_decode(chunk@);
                assert(decoded@ == ascii_chars(chunk@));
                assert(utf8_len(piece@) <= MAX_IRC_MESSAGE_LENGTH);
                let t = word@.subrange(start as int, end as int);
                assert(ascii_chars(chunk@) =~= t) by {
                    assert forall|i: int| 0 <= i < t.len() implies ascii_chars(chunk@)[i] == t[i] by {
                        assert(ascii_chars(all)[start + i] == word@[start + i]);
                    }
                }
                assert(piece@ == ascii_piece(t));
                lemma_char_chunks_append(word@.take(start as int), t);
                assert(word@.take(start as int) + t =~= word@.take(end as int));
                let g = |c: Seq<char>| ascii_piece(c);
                assert(char_chunks(word@.take(start as int), 497).push(t).map_values(g) =~= char_chunks(
                    word@.take(start as int),
                    497,
                ).map_values(g).push(ascii_piece(t)));
            }
            lemma_string_views_push(lines@, piece);
            if rest.len() <= n {
                assert(chunk@ =~= rest);
                assert(chunks(rest, n) =~= seq![rest]);
                assert(all.skip(end as int) =~= Seq::<u8>::empty());
                assert(chunks(all.skip(end as int), n) =~= Seq::<Seq<u8>>::empty());
            } else {
                assert(chunk@ =~= rest.take(n as int));
                assert(rest.skip(n as int) =~= all.skip(end as int));
                assert(chunks(rest, n) == seq![rest.take(n as int)] + chunks(all.skip(end as int), n));
            }
            let f = |c: Seq<u8>| word_piece(c);
            assert(chunks(rest, n).map_values(f) =~= seq![word_piece(chunk@)] + chunks(
                all.skip(end as int),
                n,
            ).map_values(f));
            assert(piece@ == word_piece(chunk@));
        }
        lines.push(piece);
        start = end;
    }
    proof {
        assert(all.skip(start as int) =~= Seq::<u8>::empty());
        assert(chunks(all.skip(start as int), n) =~= Seq::<Seq<u8>>::empty());
        assert(string_views(lines@) + Seq::<Seq<char>>::empty() =~= string_views(lines@));
        if ascii {
            let ps = word_pieces(word@);
            assert forall|i: int| 0 <= i < ps.len() implies utf8_len(#[trigger] ps[i]) <= MAX_IRC_MESSAGE_LENGTH by {
                assert(string_views(lines@)[base.len() + i] == ps[i]);
                assert(string_views(lines@)[base.len() + i] == lines@[base.len() + i]@);
            }
            assert(word@.take(start as int) =~= word@);
            let qs = ascii_word_pieces(word@);
            assert(ps =~= qs) by {
                assert(ps.len() == qs.len());
                assert forall|i: int| 0 <= i < ps.len() implies ps[i] == qs[i] by {
                    assert(string_views(lines@)[base.len() + i] == ps[i]);
                    assert(string_views(lines@)[base.len() + i] == qs[i]);
                }
            }
        }
    }
}

/// Splits a chat message into lines that each fit the IRC limit; those of
/// an ASCII message all do, however long its words.
pub fn split_message(message: &str) -> (r: Vec<String>)
    ensures
        string_views(r@) == split_message_spec(message@),
        is_ascii_text(message@) ==> forall|i: int|
            0 <= i < r@.len() ==> utf8_len(#[trigger] r@[i]@) <= MAX_IRC_MESSAGE_LENGTH,
        is_ascii_text(message@) && utf8_len(message@) > MAX_IRC_MESSAGE_LENGTH ==> forall|k: int|
            0 <= k < words(message@).len() && utf8_len(words(message@)[k]) > MAX_IRC_MESSAGE_LENGTH
                ==> #[trigger] word_pieces(words(message@)[k]) == ascii_word_pieces(words(message@)[k]),
{
    let chars = chars_of(message);
    let total = utf8_len_capped(chars.as_slice(), MAX_IRC_MESSAGE_LENGTH + 1);
    if total <= MAX_IRC_MESSAGE_LENGTH {
        let mut r: Vec<String> = Vec::new();
        let s = string_from_chars(chars.as_slice());
        r.push(s);
        assert(string_views(r@) =~= seq![message@]);
        return r;
    }
    let ws = split_whitespace(chars.as_slice());
    let mut lines: Vec<String> = Vec::new();
    let mut cur: Vec<char> = Vec::new();
    let mut cur_len: usize = 0;
    let mut i: usize = 0;
    assert(views(ws@).take(0) =~= Seq::<Seq<char>>::empty());
    assert(string_views(lines@) =~= Seq::<Seq<char>>::empty());
    proof {
        if is_ascii_text(message@) {
            lemma_words_ascii(message@);
        }
    }
    while i < ws.len()
        invariant
            i <= ws.len(),
            views(ws@) == words(message@),
            is_ascii_text(message@) ==> forall|k: int|
                0 <= k < words(message@).len() ==> is_ascii_text(#[trigger] words(message@)[k]),
            is_ascii_text(message@) ==> forall|k: int| 0 <= k < i ==> word_fits(#[trigger] words(message@)[k]),
            is_ascii_text(message@) ==> forall|k: int|
                0 <= k < i && utf8_len(words(message@)[k]) > MAX_IRC_MESSAGE_LENGTH ==> #[trigger] word_pieces(
                    words(message@)[k],
                ) == ascii_word_pieces(words(message@)[k]),
            (string_views(lines@), cur@) == pack_state(views(ws@).take(i as int)),
            cur_len == utf8_len(cur@),
            cur_len <= MAX_IRC_MESSAGE_LENGTH,
        decreases ws.len() - i,
    {
        let word = &ws[i];
        let ghost wv = views(ws@)[i as int];
        assert(wv == word@);
        assert(views(ws@).take(i + 1).drop_last() =~= views(ws@).take(i as int));
        assert(views(ws@).take(i + 1).last() == wv);
        let word_len = utf8_len_capped(word.as_slice(), MAX_IRC_MESSAGE_LENGTH + 1);
        if word_len >= MAX_IRC_MESSAGE_LENGTH - cur_len {
            if cur.len() > 0 {
                let t = trim_chars(cur.as_slice());
                let line = string_from_chars(t.as_slice());
                proof {
                    lemma_string_views_push(lines@, line);
                }
                lines.push(line);
                cur = Vec::new();
                cur_len = 0;
            }
            if word_len > MAX_IRC_MESSAGE_LENGTH {
                proof {
                    if is_ascii_text(message@) {
                        assert(is_ascii_text(words(message@)[i as int]));
                    }
                }
                push_word_pieces(&mut lines, word.as_slice());
                cur = Vec::new();
                cur_len = 0;
                assert(cur@ =~= Seq::<char>::empty());
            } else {
                cur = word.clone();
                cur_len = word_len;
            }
        } else {
            let ghost old_cur = cur@;
            if cur.len() > 0 {
                cur.push(' ');
                proof {
                    lemma_utf8_len_concat(old_cur, seq![' ']);
                    assert(old_cur + seq![' '] =~= old_cur.push(' '));
                    assert(utf8_len(seq![' ']) == 1) by {
                        assert(seq![' '].drop_last() =~= Seq::<char>::empty());
                        assert(seq![' '].last() == ' ');
                        assert(utf8_len(Seq::<char>::empty()) == 0);
                        assert((' ' as u32) == 32);
                    }
                }
                cur_len = cur_len + 1;
            }
            let ghost mid = cur@;
            let mut k: usize = 0;
            while k < word.len()
                invariant
                    k <= word.len(),
                    cur@ == mid + word@.take(k as int),
                decreases word.len() - k,
            {
                cur.push(word[k]);
                assert(word@.take(k + 1) =~= word@.take(k as int).push(word@[k as int]));
                assert(mid + word@.take(k + 1) =~= (mid + word@.take(k as int)).push(word@[k as int]));
                k = k + 1;
            }
            assert(word@.take(word.len() as int) =~= word@);
            proof {
                lemma_utf8_len_concat(mid, word@);
                if old_cur.len() == 0 {
                    assert(mid + word@ =~= word@);
                }
            }
            cur_len = cur_len + word_len;
        }
        proof {
            if is_ascii_text(message@) {
                assert(word_fits(words(message@)[i as int]));
            }
        }
        i = i + 1;
    }
    assert(views(ws@).take(ws.len() as int) =~= views(ws@));
    if cur.len() > 0 {
        let t = trim_chars(cur.as_slice());
        let line = string_from_chars(t.as_slice());
        proof {
            lemma_string_views_push(lines@, line);
        }
        lines.push(line);
    }
    assert(string_views(lines@) == split_message_spec(message@));
    proof {
        if is_ascii_text(message@) {
            law_split_lines_fit(message@);
            assert forall|j: int| 0 <= j < lines@.len() implies utf8_len(#[trigger] lines@[j]@)
                <= MAX_IRC_MESSAGE_LENGTH by {
                assert(string_views(lines@)[j] == lines@[j]@);
                assert(split_message_spec(message@)[j] == lines@[j]@);
            }
        }
    }
    lines
}

} // verus!

verus! {

/// `!world`: what the streamer's current VRChat world is.
pub struct WorldCommand;

impl Command for WorldCommand {
    fn name(&self) -> (r: &'static str)
        ensures
            r@ == "!world"@,
    {
        "!world"
    }

    fn description(&self) -> (r: &'static str)
        ensures
            r@ == "Provides information about the current VRChat world"@,
    {
        "Provides information about the current VRChat world"
    }

    fn required_role(&self) -> (r: UserRole)
        ensures
            r == UserRole::Subscriber,
    {
        UserRole::Subscriber
    }
}

/// How long, in milliseconds, `!world` stays quiet in a channel after it ran there.
pub const WORLD_COOLDOWN_MS: i64 = 10000;

/// When `!world` last ran in each channel, in milliseconds since the Unix epoch.
pub struct WorldCooldowns {
    last_use: KeyedList<i64>,
}

impl WorldCooldowns {
    /// When `!world` last ran in `channel`.
    pub closed spec fn last_use(self, channel: Seq<char>) -> Option<i64> {
        self.last_use.get_spec(channel)
    }

    /// Whether `!world` may run in `channel` at `now_ms`: not within ten
    /// seconds of its last run there (a clock that went back counts as within).
    pub open spec fn may_run(self, channel: Seq<char>, now_ms: int) -> bool {
        match self.last_use(channel) {
            Some(t) => now_ms - t >= 10000,
            None => true,
        }
    }

    pub fn new() -> (r: Self)
        ensures
            forall|c: Seq<char>| r.last_use(c) is None,
    {
        WorldCooldowns { last_use: KeyedList::new() }
    }

    /// Whether `!world` may run in `channel` at `now_ms`: not within ten
    /// seconds of its last run there (a clock that went back counts as
    /// within). When it may, `now_ms` becomes its last run there.
    pub fn try_use(&mut self, channel: &str, now_ms: i64) -> (r: bool)
        ensures
            r == old(self).may_run(channel@, now_ms as int),
            r ==> final(self).last_use(channel@) == Some(now_ms),
            !r ==> *final(self) == *old(self),
            forall|c: Seq<char>| c != channel@ ==> final(self).last_use(c) == old(self).last_use(c),
    {
        let allowed = match self.last_use.get(channel) {
            Some(t) => {
                let t = *t;
                now_ms as i128 - t as i128 >= WORLD_COOLDOWN_MS as i128
            },
            None => true,
        };
        if allowed {
            self.last_use.insert(String::from_str(channel), now_ms);
        }
        allowed
    }
}

/// Once `!world` ran in a channel, it does not run there again for ten
/// seconds, while in the other channels nothing changed.
pub proof fn law_world_quiet_after_run(
    before: WorldCooldowns,
    after: WorldCooldowns,
    channel: Seq<char>,
    now_ms: int,
    later_ms: int,
    other: Seq<char>,
)
    requires
        after.last_use(channel) == Some(now_ms as i64),
        now_ms == now_ms as i64,
        now_ms <= later_ms < now_ms + 10000,
        other != channel ==> after.last_use(other) == before.last_use(other),
    ensures
        !after.may_run(channel, later_ms),
        other != channel ==> after.may_run(other, later_ms) == before.may_run(other, later_ms),
{
}

/// A VRChat world, as `!world` describes it.
pub struct WorldInfo {
    pub id: String,
    pub name: String,
    pub author_name: String,
    pub capacity: i64,
    pub description: String,
    pub release_status: String,
    /// Milliseconds since the Unix epoch.
    pub created_at_ms: i64,
    /// Milliseconds since the Unix epoch.
    pub updated_at_ms: i64,
}

/// Two decimal digits of `v` (0 to 99), as `%m` and `%d` write them.
pub open spec fn two_digits(v: int) -> Seq<char> {
    seq![digit_char((v / 10) as nat), digit_char((v % 10) as nat)]
}

/// Four decimal digits of `v` (0 to 9999).
pub open spec fn four_digits(v: int) -> Seq<char> {
    seq![
        digit_char((v / 1000) as nat),
        digit_char(((v / 100) % 10) as nat),
        digit_char(((v / 10) % 10) as nat),
        digit_char((v % 10) as nat),
    ]
}

/// A year as `%Y` writes it: four digits from 0 to 9999; otherwise a sign
/// and at least four digits.
pub open spec fn year_text(y: int) -> Seq<char> {
    if 0 <= y <= 9999 {
        four_digits(y)
    } else {
        let sign = if y < 0 { seq!['-'] } else { seq!['+'] };
        let a = if y < 0 { -y } else { y };
        sign + if a <= 9999 { four_digits(a) } else { decimal(a as nat) }
    }
}

/// chrono's `format("%Y-%m-%d")` of the UTC time `ms` milliseconds after the
/// Unix epoch: the proleptic Gregorian date of its day.
pub open spec fn ymd_text(ms: int) -> Seq<char> {
    let (y, m, d) = date_of_day(day_of_millis(ms));
    year_text(y) + seq!['-'] + two_digits(m) + seq!['-'] + two_digits(d)
}

/// The UTC date of a time, written by chrono as `%Y-%m-%d`.
#[verifier::external_body]
fn format_ymd(ms: i64) -> (r: String)
    requires
        chrono_millis_in_range(ms as int),
    ensures
        r@ == ymd_text(ms as int),
{
    match chrono::DateTime::from_timestamp_millis(ms) {
        Some(t) => t.format("%Y-%m-%d").to_string(),
        None => String::new(),
    }
}

/// The first message about a world, before it is split to fit the chat.
pub open spec fn world_first_text(w: WorldInfo) -> Seq<char> {
    "Current World: "@ + w.name@ + " | Author: "@ + w.author_name@ + " | Capacity: "@ + signed_decimal(
        w.capacity as int,
    ) + " | Description: "@ + w.description@ + " | Status: "@ + w.release_status@
}

/// The second message about a world, before it is split to fit the chat.
pub open spec fn world_second_text(w: WorldInfo) -> Seq<char> {
    "Published: "@ + ymd_text(w.created_at_ms as int) + " | Last Updated: "@ + ymd_text(
        w.updated_at_ms as int,
    ) + " | World Link: "@ + "https://vrchat.com/home/world/"@ + w.id@
}

/// What `!world` says.
pub enum WorldReply {
    /// The world could not be fetched.
    Failed(String),
    /// The lines about the world, in two groups sent one after the other.
    Info { first: Vec<String>, second: Vec<String> },
}

impl WorldCommand {
    /// The answer while VRChat reports the streamer offline.
    pub fn offline_reply(&self) -> (r: String)
        ensures
            r@ == "The VRChat status is currently offline."@,
    {
        String::from_str("The VRChat status is currently offline.")
    }

    /// The lines about the current world, or the failure to fetch it.
    pub fn reply(&self, world: Result<WorldInfo, String>) -> (r: WorldReply)
        requires
            world matches Ok(w) ==> chrono_millis_in_range(w.created_at_ms as int) && chrono_millis_in_range(
                w.updated_at_ms as int,
            ),
        ensures
            match world {
                Ok(w) => r is Info && string_views(r->first@) == split_message_spec(world_first_text(w))
                    && string_views(r->second@) == split_message_spec(world_second_text(w)),
                Err(e) => r is Failed && r->Failed_0@ == "Unable to fetch current world information: "@ + e@,
            },
    {
        match world {
            Ok(w) => {
                let mut first = String::from_str("Current World: ");
                first.append(w.name.as_str());
                first.append(" | Author: ");
                first.append(w.author_name.as_str());
                first.append(" | Capacity: ");
                first.append(i64_to_decimal(w.capacity).as_str());
                first.append(" | Description: ");
                first.append(w.description.as_str());
                first.append(" | Status: ");
                first.append(w.release_status.as_str());
                let mut second = String::from_str("Published: ");
                second.append(format_ymd(w.created_at_ms).as_str());
                second.append(" | Last Updated: ");
                second.append(format_ymd(w.updated_at_ms).as_str());
                second.append(" | World Link: ");
                second.append("https://vrchat.com/home/world/");
                second.append(w.id.as_str());
                WorldReply::Info { first: split_message(first.as_str()), second: split_message(second.as_str()) }
            },
            Err(e) => {
                let mut m = String::from_str("Unable to fetch current world information: ");
                m.append(e.as_str());
                WorldReply::Failed(m)
            },
        }
    }

    /// What is said when sending a line failed: `first_group` tells which
    /// of the two groups it belonged to.
    pub fn send_failure_reply(&self, first_group: bool) -> (r: String)
        ensures
            first_group ==> r@ == "Error sending world info. Please try again."@,
            !first_group ==> r@ == "Error sending world link info. Please try again."@,
    {
        if first_group {
            String::from_str("Error sending world info. Please try again.")
        } else {
            String::from_str("Error sending world link info. Please try again.")
        }
    }
}

} // verus!
