use tis620::{
    decode, decode_buf, decode_byte, encode, encode_buf, encode_char, encode_lossy,
    encode_lossy_buf, is_ascii, ReplacementChar,
};

fn is_table_byte(byte: u8) -> bool {
    (0xA1..=0xDA).contains(&byte) || (0xDF..=0xFB).contains(&byte)
}

fn is_gap(byte: u8) -> bool {
    (0x80..=0xA0).contains(&byte) || (0xDB..=0xDE).contains(&byte) || byte >= 0xFC
}

#[test]
fn decode_single_thai_byte() {
    assert_eq!(decode(&[0xA1]).unwrap(), "ก");
    assert_eq!(encode("ก").unwrap(), vec![0xA1]);
}

#[test]
fn encode_and_decode_a_word() {
    assert_eq!(encode("แมว").unwrap(), vec![0xE1, 0xC1, 0xC7]);
    assert_eq!(decode(&[0xE1, 0xC1, 0xC7]).unwrap(), "แมว");
}

#[test]
fn ends_of_the_table() {
    assert_eq!(decode(&[0xDA]).unwrap(), "\u{0E3A}");
    assert_eq!(decode(&[0xDF]).unwrap(), "\u{0E3F}");
    assert_eq!(decode(&[0xDF]).unwrap(), "฿");
    assert_eq!(decode(&[0xFB]).unwrap(), "\u{0E5B}");
    assert_eq!(encode("\u{0E3A}\u{0E3F}\u{0E5B}").unwrap(), vec![0xDA, 0xDF, 0xFB]);
    assert_eq!(encode("\u{0E00}").unwrap_err().0, '\u{0E00}');
    assert_eq!(encode("\u{0E3B}").unwrap_err().0, '\u{0E3B}');
    assert_eq!(encode("\u{0E3E}").unwrap_err().0, '\u{0E3E}');
    assert_eq!(encode("\u{0E5C}").unwrap_err().0, '\u{0E5C}');
    assert_eq!(encode("\u{80}").unwrap_err().0, '\u{80}');
}

#[test]
fn empty_input() {
    assert_eq!(decode(&[]).unwrap(), "");
    assert_eq!(encode("").unwrap(), Vec::<u8>::new());
    assert_eq!(encode_lossy("", |_| None), Vec::<u8>::new());
}

#[test]
fn ascii_passes_through() {
    for byte in 0u8..=0x7F {
        assert!(is_ascii(byte));
        let text = decode(&[byte]).unwrap();
        assert_eq!(text.chars().count(), 1);
        assert_eq!(text.chars().next().unwrap() as u32, byte as u32);
        assert_eq!(encode(&text).unwrap(), vec![byte]);
    }
    assert!(!is_ascii(0x80));
    assert!(!is_ascii(0xFF));
}

#[test]
fn every_valid_byte_round_trips() {
    let mut valid = 0;
    for byte in 0u8..=0xFF {
        if byte <= 0x7F || is_table_byte(byte) {
            let text = decode(&[byte]).unwrap();
            assert_eq!(encode(&text).unwrap(), vec![byte]);
            valid += 1;
        }
    }
    assert_eq!(valid, 128 + 87);
}

#[test]
fn every_valid_character_round_trips() {
    let mut valid = 0;
    for code in 0u32..=0x10FFFF {
        if let Some(ch) = char::from_u32(code) {
            let text = ch.to_string();
            match encode(&text) {
                Ok(bytes) => {
                    assert_eq!(bytes.len(), 1);
                    assert_eq!(decode(&bytes).unwrap(), text);
                    valid += 1;
                }
                Err(e) => assert_eq!(e.0, ch),
            }
        }
    }
    assert_eq!(valid, 128 + 87);
}

#[test]
fn table_is_one_to_one() {
    let mut chars: Vec<char> = Vec::new();
    let mut bytes: Vec<u8> = Vec::new();
    for byte in 0u8..=0xFF {
        if let Some(ch) = decode_byte(byte) {
            if byte > 0x7F {
                assert!(!chars.contains(&ch));
                chars.push(ch);
                let back = encode_char(ch).unwrap();
                assert!(!bytes.contains(&back));
                bytes.push(back);
            }
        }
    }
    assert_eq!(chars.len(), 87);
    assert_eq!(bytes.len(), 87);
}

#[test]
fn gap_bytes_are_rejected() {
    let mut gaps = 0;
    for byte in 0u8..=0xFF {
        if is_gap(byte) {
            let err = decode(&[byte]).unwrap_err();
            assert_eq!(err.0, byte);
            assert_eq!(decode_byte(byte), None);
            gaps += 1;
        } else {
            assert!(decode(&[byte]).is_ok());
        }
    }
    assert_eq!(gaps, 33 + 4 + 4);
}

#[test]
fn decode_reports_the_first_invalid_byte() {
    let err = decode(&[0x41, 0xA1, 0xDB, 0x80, 0xFF]).unwrap_err();
    assert_eq!(err.0, 0xDB);
    let err = decode(&[0xFF, 0x80]).unwrap_err();
    assert_eq!(err.0, 0xFF);
}

#[test]
fn encode_reports_the_first_invalid_character() {
    let err = encode("aกµ€").unwrap_err();
    assert_eq!(err.0, 'µ');
    let err = encode("€µ").unwrap_err();
    assert_eq!(err.0, '€');
}

#[test]
fn unit_functions() {
    assert_eq!(decode_byte(0x41), Some('A'));
    assert_eq!(decode_byte(0xA1), Some('ก'));
    assert_eq!(decode_byte(0xC1), Some('ม'));
    assert_eq!(decode_byte(0xA0), None);
    assert_eq!(encode_char('A'), Some(0x41));
    assert_eq!(encode_char('ก'), Some(0xA1));
    assert_eq!(encode_char('๛'), Some(0xFB));
    assert_eq!(encode_char('µ'), None);
    assert_eq!(encode_char('\u{7F}'), Some(0x7F));
    assert_eq!(encode_char('\u{80}'), None);
}

#[test]
fn decode_buf_appends() {
    let mut buffer = String::from("x=");
    decode_buf(&[0xE1, 0xC1, 0xC7, 0x21], &mut buffer).unwrap();
    assert_eq!(buffer, "x=แมว!");
    decode_buf(&[0x3F], &mut buffer).unwrap();
    assert_eq!(buffer, "x=แมว!?");
}

#[test]
fn decode_buf_keeps_what_came_before_the_invalid_byte() {
    let mut buffer = String::from(">");
    let err = decode_buf(&[0x61, 0xA1, 0x80, 0x62], &mut buffer).unwrap_err();
    assert_eq!(err.0, 0x80);
    assert_eq!(buffer, ">aก");
}

#[test]
fn encode_buf_appends() {
    let mut buffer = vec![0x01, 0x02];
    encode_buf("แมว", &mut buffer).unwrap();
    assert_eq!(buffer, vec![0x01, 0x02, 0xE1, 0xC1, 0xC7]);
}

#[test]
fn encode_buf_keeps_what_came_before_the_invalid_character() {
    let mut buffer = vec![0xFF];
    let err = encode_buf("aกµb", &mut buffer).unwrap_err();
    assert_eq!(err.0, 'µ');
    assert_eq!(buffer, vec![0xFF, 0x61, 0xA1]);
}

#[test]
fn buffer_variants_agree_with_allocating_ones() {
    let texts = ["", "hello", "แมว", "ใช้เวลา 42 s", "aµb", "µ", "กขค€"];
    for text in texts {
        let mut buffer = Vec::new();
        let buffered = encode_buf(text, &mut buffer);
        match encode(text) {
            Ok(bytes) => {
                assert!(buffered.is_ok());
                assert_eq!(buffer, bytes);
            }
            Err(e) => assert_eq!(buffered.unwrap_err().0, e.0),
        }
        let mut lossy = Vec::new();
        encode_lossy_buf(text, |_| ReplacementChar::from_char('?'), &mut lossy);
        assert_eq!(lossy, encode_lossy(text, |_| ReplacementChar::from_char('?')));
    }
    let inputs: [&[u8]; 5] = [&[], &[0x41], &[0xE1, 0xC1, 0xC7], &[0x41, 0x80], &[0xFF]];
    for input in inputs {
        let mut buffer = String::new();
        let buffered = decode_buf(input, &mut buffer);
        match decode(input) {
            Ok(text) => {
                assert!(buffered.is_ok());
                assert_eq!(buffer, text);
            }
            Err(e) => assert_eq!(buffered.unwrap_err().0, e.0),
        }
    }
}

#[test]
fn lossy_drops_where_the_policy_gives_nothing() {
    let bytes = encode_lossy("aµb", |_| None);
    assert_eq!(bytes, vec![b'a', b'b']);
    assert_eq!(bytes.len(), 2);
}

#[test]
fn lossy_replaces_where_the_policy_gives_a_byte() {
    let bytes = encode_lossy("aµb", |_| Some(ReplacementChar::from_char('m').unwrap()));
    assert_eq!(bytes, vec![0x61, 0x6D, 0x62]);
}

#[test]
fn lossy_replaces_with_a_thai_character() {
    let bytes = encode_lossy("a€", |_| ReplacementChar::from_char('฿'));
    assert_eq!(bytes, vec![0x61, 0xDF]);
}

#[test]
fn lossy_equals_strict_on_encodable_text() {
    let texts = ["", "hello world", "แมว", "ใช้เวลา 42 s", "฿100"];
    for text in texts {
        let strict = encode(text).unwrap();
        assert_eq!(encode_lossy(text, |_| None), strict);
        assert_eq!(encode_lossy(text, |_| ReplacementChar::from_char('?')), strict);
        assert_eq!(encode_lossy(text, |_| ReplacementChar::from_char('ก')), strict);
    }
}

#[test]
fn lossy_asks_once_for_each_unencodable_character() {
    let mut asked: Vec<char> = Vec::new();
    let bytes = encode_lossy("aµb€cµ", |ch| {
        asked.push(ch);
        if ch == 'µ' {
            ReplacementChar::from_char('u')
        } else {
            None
        }
    });
    assert_eq!(asked, vec!['µ', '€', 'µ']);
    assert_eq!(bytes, vec![b'a', b'u', b'b', b'c', b'u']);
}

#[test]
fn lossy_output_always_decodes() {
    let bytes = encode_lossy("ใช้เวลา 42 µs", |_| ReplacementChar::from_char('m'));
    assert_eq!(decode(&bytes).unwrap(), "ใช้เวลา 42 ms");
}

#[test]
fn lossy_buf_appends() {
    let mut buffer = vec![0x00];
    encode_lossy_buf("aµก", |_| ReplacementChar::from_char('?'), &mut buffer);
    assert_eq!(buffer, vec![0x00, 0x61, 0x3F, 0xA1]);
}

#[test]
fn replacement_is_made_only_from_valid_characters() {
    assert_eq!(ReplacementChar::from_char('m').unwrap().to_tis620_byte(), 0x6D);
    assert_eq!(ReplacementChar::from_char('ก').unwrap().to_tis620_byte(), 0xA1);
    assert_eq!(ReplacementChar::from_char('\0').unwrap().to_tis620_byte(), 0x00);
    assert_eq!(ReplacementChar::from_char('\u{7F}').unwrap().to_tis620_byte(), 0x7F);
    assert!(ReplacementChar::from_char('µ').is_none());
    assert!(ReplacementChar::from_char('\u{80}').is_none());
    assert!(ReplacementChar::from_char('€').is_none());
    for code in 0u32..=0x10FFFF {
        if let Some(ch) = char::from_u32(code) {
            assert_eq!(
                ReplacementChar::from_char(ch).map(|rc| rc.to_tis620_byte()),
                encode_char(ch)
            );
        }
    }
}

#[test]
fn replacement_compares_by_its_byte() {
    let a = ReplacementChar::from_char('a').unwrap();
    let b = ReplacementChar::from_char('b').unwrap();
    let ko_kai = ReplacementChar::from_char('ก').unwrap();
    assert!(a < b);
    assert!(b < ko_kai);
    assert_eq!(a, ReplacementChar::from_char('a').unwrap());
    assert_ne!(a, b);
}
