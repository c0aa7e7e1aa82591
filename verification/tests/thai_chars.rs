use tis620::chars::ThaiChar;

#[test]
fn entries_by_byte_and_by_character() {
    assert_eq!(ThaiChar::from_tis620_byte(0xA1), Some(ThaiChar::KO_KAI));
    assert_eq!(ThaiChar::from_char('ก'), Some(ThaiChar::KO_KAI));
    assert_eq!(ThaiChar::KO_KAI.to_tis620_byte(), 0xA1);
    assert_eq!(ThaiChar::KO_KAI.to_char(), 'ก');
    assert_eq!(ThaiChar::BAHT.to_tis620_byte(), 0xDF);
    assert_eq!(ThaiChar::BAHT.to_char(), '฿');
    assert_eq!(ThaiChar::KHOMUT.to_tis620_byte(), 0xFB);
    assert_eq!(ThaiChar::KHOMUT.to_char(), '\u{0E5B}');
    assert_eq!(ThaiChar::PHINTHU.to_tis620_byte(), 0xDA);
    assert_eq!(ThaiChar::PHINTHU.to_char(), '\u{0E3A}');
    assert_eq!(ThaiChar::from_tis620_byte(0x41), None);
    assert_eq!(ThaiChar::from_tis620_byte(0xA0), None);
    assert_eq!(ThaiChar::from_tis620_byte(0xDB), None);
    assert_eq!(ThaiChar::from_tis620_byte(0xFC), None);
    assert_eq!(ThaiChar::from_char('A'), None);
    assert_eq!(ThaiChar::from_char('µ'), None);
}

#[test]
fn every_entry_goes_both_ways() {
    let mut entries = 0;
    for byte in 0u8..=0xFF {
        if let Some(tc) = ThaiChar::from_tis620_byte(byte) {
            assert_eq!(tc.to_tis620_byte(), byte);
            let ch = tc.to_char();
            assert_eq!(ch as u32, byte as u32 + 0x0D60);
            assert_eq!(ThaiChar::from_char(ch), Some(tc));
            assert_eq!(ThaiChar::byte_to_char(byte), Some(ch));
            entries += 1;
        } else {
            assert_eq!(ThaiChar::byte_to_char(byte), None);
        }
    }
    assert_eq!(entries, 87);
}

#[test]
fn entries_are_ordered_by_their_bytes() {
    let mut earlier: Option<ThaiChar> = None;
    for byte in 0u8..=0xFF {
        if let Some(tc) = ThaiChar::from_tis620_byte(byte) {
            if let Some(before) = earlier {
                assert!(before < tc);
            }
            earlier = Some(tc);
        }
    }
    assert_eq!(earlier, Some(ThaiChar::KHOMUT));
}

#[test]
fn conversions_of_an_entry() {
    assert_eq!(char::from(ThaiChar::MO_MA), 'ม');
    assert_eq!(u8::from(ThaiChar::MO_MA), 0xC1);
    assert_eq!(ThaiChar::try_from('ว'), Ok(ThaiChar::WO_WAEN));
    assert_eq!(ThaiChar::try_from('w'), Err(()));
}
