//! The block cipher that obfuscates the credential payload, and the payload itself.

use crate::text::{decimal, decimal_i32, hex_char};
use vstd::prelude::*;
use vstd::slice::slice_subrange;
use vstd::string::StringSliceAdditionalSpecFns;
use vstd::utf8::encode_utf8;

verus! {

/// The amount by which the round accumulator advances in every round.
pub const DELTA: u32 = 0x9e37_79b9;

/// The byte at index `i`, or zero beyond the end.
pub open spec fn byte_at(bytes: Seq<u8>, i: int) -> u8 {
    if 0 <= i < bytes.len() {
        bytes[i]
    } else {
        0u8
    }
}

/// The 32-bit word made of four bytes, least significant first.
pub open spec fn le_word(b0: u8, b1: u8, b2: u8, b3: u8) -> u32 {
    (b0 as u32) | ((b1 as u32) << 8) | ((b2 as u32) << 16) | ((b3 as u32) << 24)
}

/// The `w`-th little-endian word of `bytes`; a last partial word is filled with zeros.
pub open spec fn word_at(bytes: Seq<u8>, w: int) -> u32 {
    le_word(
        byte_at(bytes, 4 * w),
        byte_at(bytes, 4 * w + 1),
        byte_at(bytes, 4 * w + 2),
        byte_at(bytes, 4 * w + 3),
    )
}

/// The number of words that `n` bytes pack into.
pub open spec fn packed_len(n: nat) -> nat {
    (n + 3) / 4
}

/// The bytes packed into little-endian words.
pub open spec fn pack_words(bytes: Seq<u8>) -> Seq<u32> {
    Seq::new(packed_len(bytes.len()), |w: int| word_at(bytes, w))
}

/// The packed words of `bytes`, followed by the byte count where `append_size` is set.
pub open spec fn mix_spec(bytes: Seq<u8>, append_size: bool) -> Seq<u32> {
    if append_size {
        pack_words(bytes).push(bytes.len() as u32)
    } else {
        pack_words(bytes)
    }
}

/// Byte `k` (0 is the least significant) of the word `w`.
pub open spec fn word_byte(w: u32, k: int) -> u8 {
    if k == 0 {
        (w & 0xff) as u8
    } else if k == 1 {
        ((w >> 8) & 0xff) as u8
    } else if k == 2 {
        ((w >> 16) & 0xff) as u8
    } else {
        ((w >> 24) & 0xff) as u8
    }
}

/// The words laid out as bytes, least significant byte of each word first.
pub open spec fn unpack_words(words: Seq<u32>) -> Seq<u8> {
    Seq::new(4 * words.len(), |i: int| word_byte(words[i / 4], i % 4))
}

/// The bytes of `words`. With `include_size` the last word is read as the byte count of
/// the content before it: a count within three of the padded size cuts the bytes to
/// that count, any other count yields no bytes at all.
pub open spec fn splite_spec(words: Seq<u32>, include_size: bool) -> Seq<u8> {
    if !include_size {
        unpack_words(words)
    } else {
        let padded = 4 * (words.len() - 1);
        let recorded = words.last() as int;
        if padded - 3 <= recorded <= padded {
            unpack_words(words).take(recorded)
        } else {
            Seq::<u8>::empty()
        }
    }
}

/// Packs `buffer` into little-endian 32-bit words, zero-filling the last partial word,
/// and appends the byte count as one more word where `append_size` is set.
pub fn mix(buffer: &[u8], append_size: bool) -> (words: Vec<u32>)
    ensures
        words@ == mix_spec(buffer@, append_size),
{
    let n: usize = buffer.len();
    let count: usize = if n % 4 == 0 {
        n / 4
    } else {
        n / 4 + 1
    };
    let mut words: Vec<u32> = Vec::new();
    let mut w: usize = 0;
    while w < count
        invariant
            n == buffer@.len(),
            count == packed_len(n as nat),
            w <= count,
            words@.len() == w,
            forall|k: int| 0 <= k < w ==> words@[k] == word_at(buffer@, k),
        decreases count - w,
    {
        let base: usize = 4 * w;
        let room: usize = n - base;
        let b0: u8 = buffer[base];
        let b1: u8 = if room > 1 {
            buffer[base + 1]
        } else {
            0
        };
        let b2: u8 = if room > 2 {
            buffer[base + 2]
        } else {
            0
        };
        let b3: u8 = if room > 3 {
            buffer[base + 3]
        } else {
            0
        };
        words.push((b0 as u32) | ((b1 as u32) << 8) | ((b2 as u32) << 16) | ((b3 as u32) << 24));
        w = w + 1;
    }
    assert(words@ =~= pack_words(buffer@));
    if append_size {
        words.push(n as u32);
    }
    words
}

/// Lays `buffer` out as bytes, least significant byte of each word first. With
/// `include_size` the last word is taken as the content's byte count and the bytes are
/// cut to it, or dropped altogether where the count does not fit the padded size.
pub fn splite(buffer: Vec<u32>, include_size: bool) -> (bytes: Vec<u8>)
    requires
        buffer@.len() > 0,
    ensures
        bytes@ == splite_spec(buffer@, include_size),
{
    let len: usize = buffer.len();
    let recorded: u32 = buffer[len - 1];
    if include_size {
        let padded: u128 = 4 * ((len - 1) as u128);
        if (recorded as u128) + 3 < padded || (recorded as u128) > padded {
            return Vec::new();
        }
    }
    let mut bytes: Vec<u8> = Vec::new();
    let mut i: usize = 0;
    while i < len
        invariant
            len == buffer@.len(),
            i <= len,
            bytes@.len() == 4 * i,
            forall|k: int| 0 <= k < 4 * i ==> bytes@[k] == word_byte(buffer@[k / 4], k % 4),
        decreases len - i,
    {
        let w: u32 = buffer[i];
        bytes.push((w & 0xff) as u8);
        bytes.push(((w >> 8) & 0xff) as u8);
        bytes.push(((w >> 16) & 0xff) as u8);
        bytes.push(((w >> 24) & 0xff) as u8);
        i = i + 1;
    }
    assert(bytes@ =~= unpack_words(buffer@));
    if include_size {
        bytes.truncate(recorded as usize);
    }
    bytes
}

/// Each byte of a little-endian word is the byte that the word was made of.
pub proof fn lemma_word_bytes(b0: u8, b1: u8, b2: u8, b3: u8)
    ensures
        word_byte(le_word(b0, b1, b2, b3), 0) == b0,
        word_byte(le_word(b0, b1, b2, b3), 1) == b1,
        word_byte(le_word(b0, b1, b2, b3), 2) == b2,
        word_byte(le_word(b0, b1, b2, b3), 3) == b3,
{
    let w = le_word(b0, b1, b2, b3);
    assert((w & 0xff) as u8 == b0 && ((w >> 8) & 0xff) as u8 == b1 && ((w >> 16) & 0xff) as u8
        == b2 && ((w >> 24) & 0xff) as u8 == b3) by (bit_vector)
        requires
            w == (b0 as u32) | ((b1 as u32) << 8) | ((b2 as u32) << 16) | ((b3 as u32) << 24),
    ;
}

/// Unpacking undoes packing: the bytes of a text that was packed with its size
/// appended, cut to that size, are the text. This holds of every text whose length a
/// 32-bit word holds.
pub proof fn lemma_splite_undoes_mix(bytes: Seq<u8>)
    requires
        bytes.len() <= u32::MAX,
    ensures
        splite_spec(mix_spec(bytes, true), true) == bytes,
{
    let words = mix_spec(bytes, true);
    let laid = unpack_words(words);
    assert(words.last() == bytes.len() as u32);
    assert forall|i: int| 0 <= i < bytes.len() implies laid[i] == bytes[i] by {
        let w = i / 4;
        assert(words[w] == word_at(bytes, w));
        lemma_word_bytes(
            byte_at(bytes, 4 * w),
            byte_at(bytes, 4 * w + 1),
            byte_at(bytes, 4 * w + 2),
            byte_at(bytes, 4 * w + 3),
        );
    }
    assert(laid.take(bytes.len() as int) =~= bytes);
}

/// The key as words: its packed words, or a single zero word for the empty key.
pub open spec fn key_words(key: Seq<u8>) -> Seq<u32> {
    if key.len() == 0 {
        seq![0u32]
    } else {
        pack_words(key)
    }
}

/// The two bits of the round accumulator `d` that rotate the key slots.
pub open spec fn selector(d: u32) -> u32 {
    (d >> 2) & 3
}

/// The key word for position `p` in a round with accumulator `d`: the slot is `p mod 4`
/// xor the selector, and slots beyond the key's last word wrap around to its first.
pub open spec fn key_word(key: Seq<u32>, p: int, d: u32) -> u32 {
    key[((((p % 4) as u32) ^ selector(d)) as int) % (key.len() as int)]
}

/// The slot of a key word is one of four, so a key of four words or more is read at
/// the slot itself, and words after its fourth are never read.
pub proof fn lemma_key_word_slot(key: Seq<u32>, p: int, d: u32)
    requires
        0 <= p,
        key.len() >= 4,
    ensures
        (((p % 4) as u32) ^ selector(d)) < 4,
        key_word(key, p, d) == key[(((p % 4) as u32) ^ selector(d)) as int],
{
    let a = (p % 4) as u32;
    let e = selector(d);
    assert(a ^ e < 4) by (bit_vector)
        requires
            a < 4,
            e == (d >> 2) & 3,
    ;
    vstd::arithmetic::div_mod::lemma_small_mod((a ^ e) as nat, key.len());
}

/// The new value of a word `cur`, given the word written just before it (`right`), the
/// word after it (`left`), the round accumulator `d` and the key word `k`. Every
/// addition wraps at 32 bits.
pub open spec fn mixed(right: u32, left: u32, d: u32, k: u32, cur: u32) -> u32 {
    ((right >> 5) ^ (left << 2)).wrapping_add(((left >> 3) ^ (right << 4)) ^ (d ^ left)).wrapping_add(
        k ^ right,
    ).wrapping_add(cur)
}

/// The words after positions `0..p` of one round with accumulator `d` were rewritten in
/// order. Position `i` is mixed with its neighbours as they stand at that moment: the
/// one before it (cyclically) already rewritten in this round unless `i` is 0, the one
/// after it not yet unless `i` is the last.
pub open spec fn sweep(words: Seq<u32>, key: Seq<u32>, d: u32, p: nat) -> Seq<u32>
    decreases p,
{
    if p == 0 {
        words
    } else {
        let prev = sweep(words, key, d, (p - 1) as nat);
        let i = p - 1;
        let n = words.len() as int;
        prev.update(
            i,
            mixed(prev[(i + n - 1) % n], prev[(i + 1) % n], d, key_word(key, i, d), prev[i]),
        )
    }
}

/// The round accumulator in round `q` (rounds count from 1): `q` times `DELTA`, wrapping
/// at 32 bits.
pub open spec fn accumulator(q: nat) -> u32
    decreases q,
{
    if q == 0 {
        0u32
    } else {
        accumulator((q - 1) as nat).wrapping_add(DELTA)
    }
}

/// The words after `q` full rounds.
pub open spec fn rounds(words: Seq<u32>, key: Seq<u32>, q: nat) -> Seq<u32>
    decreases q,
{
    if q == 0 {
        words
    } else {
        sweep(rounds(words, key, (q - 1) as nat), key, accumulator(q), words.len())
    }
}

/// The number of rounds for a sequence of `n` words.
pub open spec fn round_count(n: nat) -> nat {
    6 + 52nat / n
}

/// The cipher text of `msg` under `key`: nothing for the empty message; else the
/// message packed into words with its length appended, mixed for `round_count` rounds
/// and laid out as bytes again.
pub open spec fn x_encode_spec(msg: Seq<u8>, key: Seq<u8>) -> Seq<u8> {
    if msg.len() == 0 {
        Seq::<u8>::empty()
    } else {
        let words = mix_spec(msg, true);
        unpack_words(rounds(words, key_words(key), round_count(words.len())))
    }
}

/// A sweep keeps the number of words.
pub proof fn lemma_sweep_len(words: Seq<u32>, key: Seq<u32>, d: u32, p: nat)
    requires
        p <= words.len(),
    ensures
        sweep(words, key, d, p).len() == words.len(),
    decreases p,
{
    if p > 0 {
        lemma_sweep_len(words, key, d, (p - 1) as nat);
    }
}

/// Rounds keep the number of words.
pub proof fn lemma_rounds_len(words: Seq<u32>, key: Seq<u32>, q: nat)
    ensures
        rounds(words, key, q).len() == words.len(),
    decreases q,
{
    if q > 0 {
        lemma_rounds_len(words, key, (q - 1) as nat);
        lemma_sweep_len(rounds(words, key, (q - 1) as nat), key, accumulator(q), words.len());
    }
}

/// The cipher text has four bytes for each word of the message and four for its length;
/// the empty message has none.
pub proof fn lemma_x_encode_len(msg: Seq<u8>, key: Seq<u8>)
    ensures
        x_encode_spec(msg, key).len() == if msg.len() == 0 {
            0
        } else {
            4 * (packed_len(msg.len()) + 1)
        },
{
    if msg.len() > 0 {
        let words = mix_spec(msg, true);
        lemma_rounds_len(words, key_words(key), round_count(words.len()));
    }
}

/// An index below `n`, taken cyclically, is itself, also when `n` was added to it first.
proof fn lemma_cyclic_index(i: int, n: int)
    requires
        0 <= i < n,
    ensures
        i % n == i,
        (i + n) % n == i,
{
    vstd::arithmetic::div_mod::lemma_small_mod(i as nat, n as nat);
    vstd::arithmetic::div_mod::lemma_mod_add_multiples_vanish(i, n);
}

/// Encodes `msg` under `key`. The result is a function of the two texts alone. The
/// empty message encodes to no bytes, whatever the key; any other message to four
/// bytes for each of its words and four more.
pub fn x_encode(msg: &str, key: &str) -> (out: Vec<u8>)
    ensures
        out@ == x_encode_spec(msg.spec_bytes(), key.spec_bytes()),
        msg@.len() == 0 ==> out@.len() == 0,
        msg@.len() > 0 ==> out@.len() == 4 * (packed_len(msg.spec_bytes().len()) + 1),
{
    x_encode_bytes(msg.as_bytes(), key.as_bytes())
}

/// Encodes the bytes `msg` under the bytes `key`. The result is a function of the two
/// byte strings alone. The empty message encodes to no bytes, whatever the key; any
/// other message to four bytes for each of its words and four more.
pub fn x_encode_bytes(msg: &[u8], key: &[u8]) -> (out: Vec<u8>)
    ensures
        out@ == x_encode_spec(msg@, key@),
        msg@.len() == 0 ==> out@.len() == 0,
        msg@.len() > 0 ==> out@.len() == 4 * (packed_len(msg@.len()) + 1),
{
    proof {
        lemma_x_encode_len(msg@, key@);
    }
    if msg.len() == 0 {
        return Vec::new();
    }
    let ghost key_bytes = key@;
    let mut words: Vec<u32> = mix(msg, true);
    let mut key: Vec<u32> = mix(key, false);
    if key.len() == 0 {
        key.push(0);
    }
    assert(key@ =~= key_words(key_bytes));
    let len: usize = words.len();
    let key_len: usize = key.len();
    let count: usize = 6 + 52 / len;
    let ghost start = words@;
    let mut right: u32 = words[len - 1];
    let mut d: u32 = 0;
    let mut q: usize = 0;
    while q < count
        invariant
            q <= count,
            len == start.len(),
            len > 0,
            key_len == key@.len(),
            key_len > 0,
            words@ == rounds(start, key@, q as nat),
            words@.len() == len,
            d == accumulator(q as nat),
            right == words@[len - 1],
        decreases count - q,
    {
        d = d.wrapping_add(DELTA);
        let e: u32 = (d >> 2) & 3;
        let ghost before = words@;
        let mut p: usize = 0;
        proof {
            lemma_cyclic_index(len - 1, len as int);
        }
        while p < len
            invariant
                p <= len,
                len == before.len(),
                len > 0,
                key_len == key@.len(),
                key_len > 0,
                e == selector(d),
                words@ == sweep(before, key@, d, p as nat),
                words@.len() == len,
                right == words@[(p + len - 1) % (len as int)],
            decreases len - p,
        {
            let left: u32 = words[(p + 1) % len];
            let k: u32 = key[((((p % 4) as u32) ^ e) as usize) % key_len];
            right = ((right >> 5) ^ (left << 2)).wrapping_add(
                ((left >> 3) ^ (right << 4)) ^ (d ^ left),
            ).wrapping_add(k ^ right).wrapping_add(words[p]);
            words.set(p, right);
            p = p + 1;
            proof {
                lemma_cyclic_index(p - 1, len as int);
            }
        }
        proof {
            lemma_cyclic_index(len - 1, len as int);
        }
        q = q + 1;
    }
    splite(words, false)
}

/// The 64 symbols of the payload's base64 text, in the order of their values.
pub const BASE64_ALPHABET: &'static str =
    "LVoJPiCN2R8G90yg+hmFHuacZ1OWMnrsSTXkYpUq/3dlbfKwv6xztjI7DeBE45QA";

/// The tag that opens every encoded payload.
pub const PAYLOAD_TAG: &'static str = "{SRBX1}";

/// The largest number of bytes that is handed to the base64 encoder at once. It is a
/// multiple of three, so that the texts of the pieces join to the text of the whole.
pub const BASE64_PIECE: usize = 3072;

/// Whether `symbols` can serve as a base64 alphabet: 64 printable ASCII characters, all
/// different, none of them the padding sign.
pub open spec fn is_symbol_table(symbols: Seq<char>) -> bool {
    &&& symbols.len() == 64
    &&& forall|i: int|
        0 <= i < 64 ==> 32 <= (#[trigger] symbols[i]) as u32 <= 126 && symbols[i] != '='
    &&& forall|i: int, j: int| 0 <= i < j < 64 ==> symbols[i] != symbols[j]
}

/// The `k`-th group of six bits of `data`, read as one string of bits, most significant
/// bit of each byte first, with zero bits after the end.
pub open spec fn sextet(data: Seq<u8>, k: int) -> u8 {
    let i = (k / 4) * 3;
    let b0 = byte_at(data, i);
    let b1 = byte_at(data, i + 1);
    let b2 = byte_at(data, i + 2);
    if k % 4 == 0 {
        b0 >> 2
    } else if k % 4 == 1 {
        ((b0 & 0x03) << 4) | (b1 >> 4)
    } else if k % 4 == 2 {
        ((b1 & 0x0f) << 2) | (b2 >> 6)
    } else {
        b2 & 0x3f
    }
}

/// The length of the base64 text of `n` bytes, padding included.
pub open spec fn base64_len(n: nat) -> nat {
    4 * ((n + 2) / 3)
}

/// The number of symbols in the base64 text of `n` bytes that carry data.
pub open spec fn base64_data_len(n: nat) -> nat {
    (4 * n + 2) / 3
}

/// The padded base64 text of `data` over `symbols`: one symbol for each group of six
/// bits, then `=` up to a multiple of four characters.
pub open spec fn base64_text(symbols: Seq<char>, data: Seq<u8>) -> Seq<char> {
    Seq::new(
        base64_len(data.len()),
        |k: int|
            if k < base64_data_len(data.len()) {
                symbols[sextet(data, k) as int]
            } else {
                '='
            },
    )
}

/// The base64 text of `n` input bytes has `ceil(n / 3) * 4` characters. Those that carry
/// data are symbols of the table, and those after them are the padding sign: none where
/// `n` is a multiple of three, two where one byte is left over, one where two are.
pub proof fn lemma_base64_shape(symbols: Seq<char>, data: Seq<u8>)
    requires
        is_symbol_table(symbols),
    ensures
        base64_text(symbols, data).len() == 4 * ((data.len() + 2) / 3),
        base64_len(data.len()) - base64_data_len(data.len()) == (3 - data.len() % 3) % 3,
        forall|k: int|
            0 <= k < base64_data_len(data.len()) ==> symbols.contains(
                #[trigger] base64_text(symbols, data)[k],
            ),
        forall|k: int|
            base64_data_len(data.len()) <= k < base64_len(data.len()) ==> (
            #[trigger] base64_text(symbols, data)[k]) == '=',
{
    assert forall|k: int| 0 <= k < base64_data_len(data.len()) implies symbols.contains(
        #[trigger] base64_text(symbols, data)[k],
    ) by {
        lemma_sextet_range(data, k);
    }
}

/// A group of six bits is a value below 64.
pub proof fn lemma_sextet_range(data: Seq<u8>, k: int)
    ensures
        sextet(data, k) < 64,
{
    let i = (k / 4) * 3;
    let b0 = byte_at(data, i);
    let b1 = byte_at(data, i + 1);
    let b2 = byte_at(data, i + 2);
    assert(b0 >> 2 < 64) by (bit_vector);
    assert(((b0 & 0x03) << 4) | (b1 >> 4) < 64) by (bit_vector);
    assert(((b1 & 0x0f) << 2) | (b2 >> 6) < 64) by (bit_vector);
    assert(b2 & 0x3f < 64) by (bit_vector);
}

/// The base64 text of two runs of bytes joined, the first with a length that is a
/// multiple of three, is the text of the first followed by the text of the second.
pub proof fn lemma_base64_joins(symbols: Seq<char>, head: Seq<u8>, tail: Seq<u8>)
    requires
        head.len() % 3 == 0,
    ensures
        base64_text(symbols, head + tail) == base64_text(symbols, head) + base64_text(
            symbols,
            tail,
        ),
{
    let whole = head + tail;
    let cut = base64_len(head.len()) as int;
    assert(cut == 4 * (head.len() / 3));
    assert(base64_data_len(head.len()) == cut);
    assert(base64_len(whole.len()) == cut + base64_len(tail.len()));
    assert(base64_data_len(whole.len()) == cut + base64_data_len(tail.len()));
    let joined = base64_text(symbols, head) + base64_text(symbols, tail);
    assert forall|k: int| 0 <= k < base64_len(whole.len()) implies base64_text(symbols, whole)[k]
        == joined[k] by {
        if k < cut {
            let i = (k / 4) * 3;
            assert(i + 2 < head.len());
            assert(byte_at(whole, i) == byte_at(head, i));
            assert(byte_at(whole, i + 1) == byte_at(head, i + 1));
            assert(byte_at(whole, i + 2) == byte_at(head, i + 2));
        } else {
            let j = k - cut;
            let i = (j / 4) * 3;
            assert((k / 4) * 3 == head.len() + i);
            assert(k % 4 == j % 4);
            assert(byte_at(whole, head.len() + i) == byte_at(tail, i));
            assert(byte_at(whole, head.len() + i + 1) == byte_at(tail, i + 1));
            assert(byte_at(whole, head.len() + i + 2) == byte_at(tail, i + 2));
        }
    }
    assert(base64_text(symbols, whole) =~= joined);
}

/// The payload's alphabet is a base64 alphabet.
pub proof fn lemma_alphabet_is_symbol_table()
    ensures
        is_symbol_table(BASE64_ALPHABET@),
{
    reveal_strlit("LVoJPiCN2R8G90yg+hmFHuacZ1OWMnrsSTXkYpUq/3dlbfKwv6xztjI7DeBE45QA");
}

/// How one character stands inside a JSON string literal: the quote and the backslash
/// behind a backslash; backspace, tab, line feed, form feed and carriage return as a
/// backslash and a letter; any other character below the space as `\u00` and its two
/// lower-case hexadecimal digits; every other character as itself.
pub open spec fn json_char_text(c: char) -> Seq<char> {
    if c == '"' {
        seq!['\\', '"']
    } else if c == '\\' {
        seq!['\\', '\\']
    } else if c == '\u{8}' {
        seq!['\\', 'b']
    } else if c == '\t' {
        seq!['\\', 't']
    } else if c == '\n' {
        seq!['\\', 'n']
    } else if c == '\u{c}' {
        seq!['\\', 'f']
    } else if c == '\r' {
        seq!['\\', 'r']
    } else if (c as u32) < 0x20 {
        seq!['\\', 'u', '0', '0', hex_char((c as u32 / 16) as int), hex_char((c as u32 % 16) as int)]
    } else {
        seq![c]
    }
}

/// The characters of `s` as they stand inside a JSON string literal.
pub open spec fn json_escaped(s: Seq<char>) -> Seq<char>
    decreases s.len(),
{
    if s.len() == 0 {
        Seq::<char>::empty()
    } else {
        json_escaped(s.drop_last()) + json_char_text(s.last())
    }
}

/// The JSON string literal that stands for the text `s`, quotes included.
pub open spec fn json_string_text(s: Seq<char>) -> Seq<char> {
    seq!['"'] + json_escaped(s) + seq!['"']
}

/// Whether `c` stands for itself inside a JSON string literal.
pub open spec fn is_json_plain(c: char) -> bool {
    c != '"' && c != '\\' && (c as u32) >= 0x20
}

/// A text of characters that all stand for themselves is its own escaped form: its
/// JSON string literal is the text between quotes.
pub proof fn lemma_json_plain_text(s: Seq<char>)
    requires
        forall|i: int| 0 <= i < s.len() ==> is_json_plain(#[trigger] s[i]),
    ensures
        json_escaped(s) == s,
        json_string_text(s) == seq!['"'] + s + seq!['"'],
    decreases s.len(),
{
    if s.len() > 0 {
        lemma_json_plain_text(s.drop_last());
        assert(json_char_text(s.last()) == seq![s.last()]);
        assert(s.drop_last() + seq![s.last()] =~= s);
    }
}

/// The JSON text that `serde_json` writes for a string value (`Value::to_string` on a
/// `Value::String`): the text between quotes, each character escaped as the writer's
/// escape table has it.
#[verifier::external_body]
fn json_quote(s: &str) -> (text: String)
    ensures
        text@ == json_string_text(s@),
{
    serde_json::Value::from(s).to_string()
}

/// `base64::Engine::encode` on a `GeneralPurpose` engine made of the alphabet
/// `symbols` (`Alphabet::new`) and the default configuration, which pads: the padded
/// base64 text of `data` over that alphabet. `Alphabet::new` rejects what is no symbol
/// table, and `encode` panics where the text's length is beyond `usize`, which a piece
/// of at most `BASE64_PIECE` bytes cannot reach.
#[verifier::external_body]
fn base64_encode(symbols: &str, data: &[u8]) -> (text: String)
    requires
        is_symbol_table(symbols@),
        data@.len() <= BASE64_PIECE,
    ensures
        text@ == base64_text(symbols@, data@),
{
    let alphabet = base64::alphabet::Alphabet::new(symbols).unwrap();
    let config = base64::engine::GeneralPurposeConfig::new();
    base64::Engine::encode(&base64::engine::GeneralPurpose::new(&alphabet, config), data)
}

/// The credential payload as JSON text: an object of the five fields, keys in
/// alphabetical order, without white space.
pub open spec fn info_text(
    username: Seq<char>,
    password: Seq<char>,
    ip: Seq<char>,
    acid: int,
) -> Seq<char> {
    "{\"acid\":"@ + decimal(acid) + ",\"enc_ver\":\"srun_bx1\",\"ip\":"@ + json_string_text(ip)
        + ",\"password\":"@ + json_string_text(password) + ",\"username\":"@ + json_string_text(
        username,
    ) + "}"@
}

/// The encoded payload: the tag, then the base64 text, over the payload's alphabet, of
/// the JSON text encoded under the token.
pub open spec fn param_i_text(
    username: Seq<char>,
    password: Seq<char>,
    ip: Seq<char>,
    acid: int,
    token: Seq<char>,
) -> Seq<char> {
    PAYLOAD_TAG@ + base64_text(
        BASE64_ALPHABET@,
        x_encode_spec(encode_utf8(info_text(username, password, ip, acid)), encode_utf8(token)),
    )
}

/// Writes the credential payload as JSON text.
pub fn info_json(username: &str, password: &str, ip: &str, acid: i32) -> (out: String)
    ensures
        out@ == info_text(username@, password@, ip@, acid as int),
{
    let mut out = String::from_str("{\"acid\":");
    out.append(decimal_i32(acid).as_str());
    out.append(",\"enc_ver\":\"srun_bx1\",\"ip\":");
    out.append(json_quote(ip).as_str());
    out.append(",\"password\":");
    out.append(json_quote(password).as_str());
    out.append(",\"username\":");
    out.append(json_quote(username).as_str());
    out.append("}");
    out
}

/// Renders `data` as padded base64 text over the payload's alphabet. The text has
/// `ceil(n / 3) * 4` characters for `n` bytes, each a symbol of the alphabet or, at
/// the end, the padding sign.
///
/// The encoder gets the data in pieces of `BASE64_PIECE` bytes, so that no piece is
/// long enough for its length computation to overflow.
pub fn custom_base64(data: &[u8]) -> (text: String)
    ensures
        text@ == base64_text(BASE64_ALPHABET@, data@),
        text@.len() == 4 * ((data@.len() + 2) / 3),
        forall|k: int|
            0 <= k < text@.len() ==> BASE64_ALPHABET@.contains(#[trigger] text@[k]) || text@[k]
                == '=',
{
    proof {
        lemma_alphabet_is_symbol_table();
        lemma_base64_shape(BASE64_ALPHABET@, data@);
    }
    let n: usize = data.len();
    let mut text = String::new();
    let mut done: usize = 0;
    assert(base64_text(BASE64_ALPHABET@, data@.subrange(0, 0)) =~= Seq::<char>::empty());
    while n - done > BASE64_PIECE
        invariant
            done <= n,
            n == data@.len(),
            done % 3 == 0,
            is_symbol_table(BASE64_ALPHABET@),
            text@ == base64_text(BASE64_ALPHABET@, data@.subrange(0, done as int)),
        decreases n - done,
    {
        let piece = slice_subrange(data, done, done + BASE64_PIECE);
        proof {
            lemma_base64_joins(BASE64_ALPHABET@, data@.subrange(0, done as int), piece@);
            assert(data@.subrange(0, done as int) + piece@ =~= data@.subrange(
                0,
                done + BASE64_PIECE,
            ));
        }
        text.append(base64_encode(BASE64_ALPHABET, piece).as_str());
        done = done + BASE64_PIECE;
    }
    let rest = slice_subrange(data, done, n);
    proof {
        lemma_base64_joins(BASE64_ALPHABET@, data@.subrange(0, done as int), rest@);
        assert(data@.subrange(0, done as int) + rest@ =~= data@);
    }
    text.append(base64_encode(BASE64_ALPHABET, rest).as_str());
    text
}

/// Encodes the JSON text `info` under `token` and renders it as tagged base64 text.
pub fn seal_info(info: &str, token: &str) -> (out: String)
    ensures
        out@ == PAYLOAD_TAG@ + base64_text(
            BASE64_ALPHABET@,
            x_encode_spec(info.spec_bytes(), token.spec_bytes()),
        ),
{
    let cipher = x_encode(info, token);
    let mut out = String::from_str(PAYLOAD_TAG);
    out.append(custom_base64(cipher.as_slice()).as_str());
    out
}

/// Builds the encoded payload of a login request from the credentials and the
/// challenge token.
pub fn param_i(username: &str, password: &str, ip: &str, acid: i32, token: &str) -> (out: String)
    ensures
        out@ == param_i_text(username@, password@, ip@, acid as int, token@),
{
    let info = info_json(username, password, ip, acid);
    seal_info(info.as_str(), token)
}

} // verus!
