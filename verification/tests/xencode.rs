use srun::param_i;
use srun::text::hex_lower;
use srun::xencode::{
    custom_base64, info_json, mix, seal_info, splite, x_encode, x_encode_bytes, BASE64_ALPHABET,
    BASE64_PIECE,
};

#[test]
fn mix_packs_little_endian_words() {
    assert_eq!(mix(b"abcd", false), vec![0x64636261]);
    assert_eq!(mix(b"abcde", true), vec![1684234849, 101, 5]);
    assert_eq!(mix(&[1, 2, 3, 4, 5, 6, 7, 8], false), vec![0x04030201, 0x08070605]);
}

#[test]
fn mix_fills_the_last_word_with_zeros() {
    assert_eq!(mix(&[0xff], false), vec![0x000000ff]);
    assert_eq!(mix(&[0xff, 0xee], false), vec![0x0000eeff]);
    assert_eq!(mix(&[0xff, 0xee, 0xdd], false), vec![0x00ddeeff]);
}

#[test]
fn mix_of_nothing() {
    assert_eq!(mix(b"", false), Vec::<u32>::new());
    assert_eq!(mix(b"", true), vec![0]);
}

#[test]
fn splite_lays_words_out_as_bytes() {
    assert_eq!(splite(vec![0x64636261], false), b"abcd".to_vec());
    assert_eq!(splite(vec![0x04030201, 0x08070605], false), vec![1, 2, 3, 4, 5, 6, 7, 8]);
    assert_eq!(splite(vec![1684234849, 101, 5], false).len(), 12);
}

#[test]
fn splite_cuts_to_the_recorded_size() {
    assert_eq!(splite(vec![1684234849, 101, 5], true), b"abcde".to_vec());
    assert_eq!(splite(vec![0x64636261, 4], true), b"abcd".to_vec());
    assert_eq!(splite(vec![0x64636261, 1], true), b"a".to_vec());
    assert_eq!(splite(vec![0], true), Vec::<u8>::new());
}

#[test]
fn splite_drops_everything_on_a_wrong_size() {
    assert_eq!(splite(vec![0x64636261, 5], true), Vec::<u8>::new());
    assert_eq!(splite(vec![0x64636261, 0], true), Vec::<u8>::new());
    assert_eq!(splite(vec![1684234849, 101, 4], true), Vec::<u8>::new());
    assert_eq!(splite(vec![1684234849, 101, 9], true), Vec::<u8>::new());
    assert_eq!(splite(vec![7], true), Vec::<u8>::new());
}

#[test]
fn splite_undoes_mix() {
    for text in ["a", "ab", "abc", "abcd", "abcde", "hello, world"] {
        assert_eq!(splite(mix(text.as_bytes(), true), true), text.as_bytes().to_vec());
    }
}

#[test]
fn x_encode_of_the_empty_message_is_empty() {
    assert_eq!(x_encode("", "key"), Vec::<u8>::new());
    assert_eq!(x_encode("", ""), Vec::<u8>::new());
    assert_eq!(x_encode("", "0123456789abcdef0123"), Vec::<u8>::new());
    assert_eq!(x_encode_bytes(&[], &[1, 2, 3]), Vec::<u8>::new());
}

#[test]
fn x_encode_known_vectors() {
    assert_eq!(hex_lower(&x_encode("hello", "key")), "9d8fbb68014552d823b1013a");
    assert_eq!(hex_lower(&x_encode("hello", "")), "a3807a98d53f1f94b34cc6fa");
    assert_eq!(hex_lower(&x_encode("a", "0123456789abcdef0123")), "0b315eb3f861d1ce");
}

#[test]
fn x_encode_gives_the_same_bytes_each_time() {
    let first = x_encode("{\"username\":\"u1\"}", "abc123");
    let second = x_encode("{\"username\":\"u1\"}", "abc123");
    assert_eq!(first, second);
    assert_eq!(first, x_encode_bytes(b"{\"username\":\"u1\"}", b"abc123"));
}

#[test]
fn x_encode_length_is_words_plus_length_word() {
    assert_eq!(x_encode("a", "k").len(), 8);
    assert_eq!(x_encode("abcd", "k").len(), 8);
    assert_eq!(x_encode("abcde", "k").len(), 12);
    assert_eq!(x_encode("abcdefgh", "k").len(), 12);
}

#[test]
fn x_encode_depends_on_the_key() {
    assert_ne!(x_encode("hello", "key"), x_encode("hello", "kez"));
    assert_ne!(x_encode("hello", "key"), x_encode("hellp", "key"));
}

#[test]
fn base64_known_vectors() {
    assert_eq!(custom_base64(b""), "");
    assert_eq!(custom_base64(b"f"), "1S==");
    assert_eq!(custom_base64(b"fo"), "1U4=");
    assert_eq!(custom_base64(b"foo"), "1U5w");
    assert_eq!(custom_base64(b"foob"), "1U5wZS==");
    assert_eq!(custom_base64(b"fooba"), "1U5wZUP=");
    assert_eq!(custom_base64(b"foobar"), "1U5wZUix");
    assert_eq!(custom_base64(&[0xff, 0xfe, 0xfd]), "AAE5");
}

#[test]
fn base64_length_and_symbols() {
    let mut data: Vec<u8> = Vec::new();
    for n in 0..50usize {
        let text = custom_base64(&data);
        assert_eq!(text.len(), (n + 2) / 3 * 4);
        let pad = (3 - n % 3) % 3;
        for (k, c) in text.chars().enumerate() {
            if k < text.len() - pad {
                assert!(BASE64_ALPHABET.contains(c));
            } else {
                assert_eq!(c, '=');
            }
        }
        data.push((n * 37 + 11) as u8);
    }
}

#[test]
fn base64_maps_each_value_to_its_symbol() {
    let symbols: Vec<char> = BASE64_ALPHABET.chars().collect();
    for v in 0..64u8 {
        let text = custom_base64(&[v << 2, 0, 0]);
        assert_eq!(text.chars().next(), Some(symbols[v as usize]));
        let text = custom_base64(&[0, 0, v]);
        assert_eq!(text.chars().nth(3), Some(symbols[v as usize]));
    }
}

#[test]
fn info_json_has_sorted_keys_and_no_spaces() {
    assert_eq!(
        info_json("u1", "p1", "10.0.0.5", 12),
        "{\"acid\":12,\"enc_ver\":\"srun_bx1\",\"ip\":\"10.0.0.5\",\"password\":\"p1\",\"username\":\"u1\"}"
    );
    assert_eq!(
        info_json("", "", "", -3),
        "{\"acid\":-3,\"enc_ver\":\"srun_bx1\",\"ip\":\"\",\"password\":\"\",\"username\":\"\"}"
    );
}

#[test]
fn info_json_escapes_its_strings() {
    assert_eq!(
        info_json("alice", "s3cret\"q", "192.168.1.20", 1),
        "{\"acid\":1,\"enc_ver\":\"srun_bx1\",\"ip\":\"192.168.1.20\",\"password\":\"s3cret\\\"q\",\"username\":\"alice\"}"
    );
    assert_eq!(
        info_json("a\\b", "line\nbreak", "", 0),
        "{\"acid\":0,\"enc_ver\":\"srun_bx1\",\"ip\":\"\",\"password\":\"line\\nbreak\",\"username\":\"a\\\\b\"}"
    );
}

#[test]
fn param_i_known_vectors() {
    assert_eq!(
        param_i("u1", "p1", "10.0.0.5", 12, "abc123"),
        "{SRBX1}8RAt/0ucK6pvwbq7YE+rKjhiiuPyhBGhfLdCrQ9e5/H4vATjD0/X0s8hPUzSyJ3XexSeAY2taRHzmfpCCRwyrlgje98uw3I/Cknb2n8/E3cXGrUN"
    );
    assert_eq!(
        param_i(
            "alice",
            "s3cret\"q",
            "192.168.1.20",
            1,
            "e4c3a1b2c3d4e5f60718293a4b5c6d7e8f90a1b2c3d4e5f60718293a4b5c6d7e"
        ),
        "{SRBX1}5yaOrOZXCpbP4vK98jdEtjJRT7IudMG1wkYFshdRIGF7El6SzXwKzt8uGcr82G1BQl+ZYS52pmdkil+XnkZpUbR/zj0rXl0zCB0fQK1KoqePH7ErkAcnbrNLOwyfxhY4knCSzv=="
    );
}

#[test]
fn param_i_is_tag_then_base64_of_the_cipher_text() {
    let info = info_json("u1", "p1", "10.0.0.5", 12);
    let cipher = x_encode(&info, "abc123");
    let expected = format!("{{SRBX1}}{}", custom_base64(&cipher));
    assert_eq!(param_i("u1", "p1", "10.0.0.5", 12, "abc123"), expected);
    assert_eq!(seal_info(&info, "abc123"), expected);
}

#[test]
fn base64_of_data_longer_than_a_piece() {
    assert_eq!(BASE64_PIECE, 3072);
    for n in [3071usize, 3072, 3073, 3074, 6144, 6145, 10000] {
        let data: Vec<u8> = (0..n).map(|i| (i * 131 + 7) as u8).collect();
        let text = custom_base64(&data);
        assert_eq!(text.len(), (n + 2) / 3 * 4);
        let mut piecewise = String::new();
        let mut start = 0;
        while start < n {
            let end = if n - start > 300 { start + 300 } else { n };
            piecewise.push_str(&custom_base64(&data[start..end]));
            start = end;
        }
        assert_eq!(text, piecewise);
    }
}

#[test]
fn base64_of_zero_bytes_repeats_the_first_symbol() {
    assert_eq!(custom_base64(&[0u8; 3072]), "L".repeat(4096));
    assert_eq!(custom_base64(&[0u8; 3073]), format!("{}LL==", "L".repeat(4096)));
}

#[test]
fn x_encode_works_on_the_bytes_of_the_texts() {
    assert_eq!(hex_lower(&x_encode("\u{e9}\u{20ac}", "\u{43a}\u{43b}\u{44e}\u{447}")), "1f8548437d4f8bcaa3e26308");
}

#[test]
fn x_encode_round_count_shrinks_with_the_message() {
    // 53 bytes make 15 words: 9 rounds. 208 bytes make 53 words: 6 rounds.
    let short = "x".repeat(53);
    assert_eq!(
        hex_lower(&x_encode(&short, "0123456789abcdef")),
        "19b08dce12eece8ee6eeef1100648e690cba254269a106b98133e378b269e71e5bdbae2fd2c3a3f3470d64aade6c19e9bafa94117c8dd3ccbc02a9d4"
    );
    let long = "x".repeat(208);
    let cipher = x_encode(&long, "0123456789abcdef");
    assert_eq!(cipher.len(), 212);
    assert_eq!(
        hex_lower(&cipher[..32]),
        "3ee0c79ba34aab4df97694a504f682695a72f255b286298a05e5ae7d644d569c"
    );
}

#[test]
fn sealing_the_empty_text_leaves_the_tag() {
    assert_eq!(seal_info("", "abc123"), "{SRBX1}");
}

#[test]
fn param_i_with_a_short_token_and_odd_credentials() {
    assert_eq!(
        info_json("u\u{e9}", "p\\1", "::1", -7),
        "{\"acid\":-7,\"enc_ver\":\"srun_bx1\",\"ip\":\"::1\",\"password\":\"p\\\\1\",\"username\":\"u\u{e9}\"}"
    );
    assert_eq!(
        param_i("u\u{e9}", "p\\1", "::1", -7, "t"),
        "{SRBX1}3nbIXkpbLZ5hQi1IuqlDZkjMvx1X+YVFIZiv5gFrm1rcpGlDSnA1GHtsMybCuSh0xdVNG9DyVYcSfHc9CI37KAb96kQApFbT3XPd6xPPKbUTXYYH"
    );
}

#[test]
fn x_encode_reads_the_first_four_words_of_a_long_key() {
    let message = "{\"username\":\"u1\",\"password\":\"p1\"}";
    assert_eq!(
        x_encode(message, "0123456789abcdefXXXX"),
        x_encode(message, "0123456789abcdefYYYYYYYY")
    );
    assert_eq!(x_encode(message, "0123456789abcdef"), x_encode(message, "0123456789abcdefZ"));
    assert_ne!(x_encode(message, "0123456789abcdef"), x_encode(message, "0123456789abcdeF"));
}

#[test]
fn x_encode_wraps_a_short_key_around() {
    // A key of one word serves all four slots; so does the same word four times.
    assert_eq!(x_encode("hello world", "abcd"), x_encode("hello world", "abcdabcdabcdabcd"));
    assert_eq!(x_encode("hello world", "abcdefgh"), x_encode("hello world", "abcdefghabcdefgh"));
    assert_eq!(x_encode("hello world", ""), x_encode("hello world", "\0\0\0\0"));
}

#[test]
fn info_json_escapes_control_characters() {
    assert_eq!(
        info_json("\u{8}\t\n\u{c}\r", "\u{0}\u{1}\u{b}\u{1f}", "\u{7f} /", 0),
        "{\"acid\":0,\"enc_ver\":\"srun_bx1\",\"ip\":\"\u{7f} /\",\"password\":\"\\u0000\\u0001\\u000b\\u001f\",\"username\":\"\\b\\t\\n\\f\\r\"}"
    );
}

#[test]
fn info_json_leaves_other_characters_as_they_are() {
    assert_eq!(
        info_json("\u{e9}\u{4e2d}\u{1f600}", "'<>&", "\u{80}\u{2028}", 1),
        "{\"acid\":1,\"enc_ver\":\"srun_bx1\",\"ip\":\"\u{80}\u{2028}\",\"password\":\"'<>&\",\"username\":\"\u{e9}\u{4e2d}\u{1f600}\"}"
    );
}
