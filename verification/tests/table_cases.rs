use tis620::decode;

const TEST_CASES: &str = "\
0xA1,0x0E01\n\
0xA2,0x0E02\n\
0xA3,0x0E03\n\
0xA4,0x0E04\n\
0xA5,0x0E05\n\
0xA6,0x0E06\n\
0xA7,0x0E07\n\
0xA8,0x0E08\n\
0xA9,0x0E09\n\
0xAA,0x0E0A\n\
0xAB,0x0E0B\n\
0xAC,0x0E0C\n\
0xAD,0x0E0D\n\
0xAE,0x0E0E\n\
0xAF,0x0E0F\n\
0xB0,0x0E10\n\
0xB1,0x0E11\n\
0xB2,0x0E12\n\
0xB3,0x0E13\n\
0xB4,0x0E14\n\
0xB5,0x0E15\n\
0xB6,0x0E16\n\
0xB7,0x0E17\n\
0xB8,0x0E18\n\
0xB9,0x0E19\n\
0xBA,0x0E1A\n\
0xBB,0x0E1B\n\
0xBC,0x0E1C\n\
0xBD,0x0E1D\n\
0xBE,0x0E1E\n\
0xBF,0x0E1F\n\
0xC0,0x0E20\n\
0xC1,0x0E21\n\
0xC2,0x0E22\n\
0xC3,0x0E23\n\
0xC4,0x0E24\n\
0xC5,0x0E25\n\
0xC6,0x0E26\n\
0xC7,0x0E27\n\
0xC8,0x0E28\n\
0xC9,0x0E29\n\
0xCA,0x0E2A\n\
0xCB,0x0E2B\n\
0xCC,0x0E2C\n\
0xCD,0x0E2D\n\
0xCE,0x0E2E\n\
0xCF,0x0E2F\n\
0xD0,0x0E30\n\
0xD1,0x0E31\n\
0xD2,0x0E32\n\
0xD3,0x0E33\n\
0xD4,0x0E34\n\
0xD5,0x0E35\n\
0xD6,0x0E36\n\
0xD7,0x0E37\n\
0xD8,0x0E38\n\
0xD9,0x0E39\n\
0xDA,0x0E3A\n\
0xDF,0x0E3F\n\
0xE0,0x0E40\n\
0xE1,0x0E41\n\
0xE2,0x0E42\n\
0xE3,0x0E43\n\
0xE4,0x0E44\n\
0xE5,0x0E45\n\
0xE6,0x0E46\n\
0xE7,0x0E47\n\
0xE8,0x0E48\n\
0xE9,0x0E49\n\
0xEA,0x0E4A\n\
0xEB,0x0E4B\n\
0xEC,0x0E4C\n\
0xED,0x0E4D\n\
0xEE,0x0E4E\n\
0xEF,0x0E4F\n\
0xF0,0x0E50\n\
0xF1,0x0E51\n\
0xF2,0x0E52\n\
0xF3,0x0E53\n\
0xF4,0x0E54\n\
0xF5,0x0E55\n\
0xF6,0x0E56\n\
0xF7,0x0E57\n\
0xF8,0x0E58\n\
0xF9,0x0E59\n\
0xFA,0x0E5A\n\
0xFB,0x0E5B\n";

#[test]
fn test_from_test_case() {
    let test_cases = TEST_CASES;
    let mut seen = 0;
    for line in test_cases.lines() {
        if let Some((tis620_char_hex, utf8_char_hex)) = line.split_once(',') {
            let tis620_char_hex = tis620_char_hex.trim_start_matches("0x");
            let tis620_char_byte = hex::decode(tis620_char_hex).expect("TIS-620 byte");
            let str_from_tis620 =
                decode(&tis620_char_byte).expect("string with single thai character");

            let utf8_u32 = u32::from_str_radix(utf8_char_hex.trim_start_matches("0x"), 16)
                .expect("utf8 u32");
            let thai_char = std::char::from_u32(utf8_u32).expect("char");

            assert_eq!(str_from_tis620, thai_char.to_string());
            seen += 1;
        }
    }
    assert_eq!(seen, 87);
}
