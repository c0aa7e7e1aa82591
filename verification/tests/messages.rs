use tis620::message::{hex_digit_char, invalid_character_message};
use tis620::{decode, encode, DecodeError, EncodeError};

#[test]
fn display_error() {
    println!("display: {}", DecodeError(40).message());
    println!("display: {}", EncodeError('µ').message());
}

#[test]
fn decode_error_message() {
    assert_eq!(DecodeError(40).message(), "0x28 is invalid TIS-620 byte.");
    assert_eq!(DecodeError(0x80).message(), "0x80 is invalid TIS-620 byte.");
    assert_eq!(DecodeError(0xFF).message(), "0xFF is invalid TIS-620 byte.");
    assert_eq!(DecodeError(0x0A).message(), "0xA is invalid TIS-620 byte.");
    assert_eq!(DecodeError(0).message(), "0x0 is invalid TIS-620 byte.");
    assert_eq!(decode(&[0xDB]).unwrap_err().message(), "0xDB is invalid TIS-620 byte.");
}

#[test]
fn decode_error_message_for_every_byte() {
    for byte in 0u8..=0xFF {
        assert_eq!(
            DecodeError(byte).message(),
            format!("{:#X?} is invalid TIS-620 byte.", byte)
        );
    }
}

#[test]
fn encode_error_message() {
    assert_eq!(EncodeError('µ').message(), "'µ' is invalid TIS-620 character.");
    assert_eq!(EncodeError('\n').message(), "'\\n' is invalid TIS-620 character.");
    assert_eq!(EncodeError('\'').message(), "'\\'' is invalid TIS-620 character.");
    assert_eq!(encode("a€").unwrap_err().message(), "'€' is invalid TIS-620 character.");
    assert_eq!(
        EncodeError('€').message(),
        format!("{:?} is invalid TIS-620 character.", '€')
    );
}

#[test]
fn message_around_a_quoted_character() {
    assert_eq!(
        invalid_character_message(String::from("'x'")),
        "'x' is invalid TIS-620 character."
    );
    assert_eq!(invalid_character_message(String::new()), " is invalid TIS-620 character.");
}

#[test]
fn hexadecimal_digits() {
    let digits: Vec<char> = (0u8..16).map(hex_digit_char).collect();
    let text: String = digits.into_iter().collect();
    assert_eq!(text, "0123456789ABCDEF");
}
