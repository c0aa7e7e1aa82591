//! The table of TIS-620 as data: one entry for each of its 87 characters, with
//! the lookups in both directions, each proved against the mapping of
//! [`crate::mapping`]; and the replacement byte of lossy encoding.

use crate::encode_char;
use crate::mapping::{byte_of_char, is_thai_byte, is_thai_char, is_valid_byte, thai_char_of};
use vstd::prelude::*;

verus! {

/// A character of the Thai script, or the baht sign: one entry of the TIS-620 table.
///
/// The variants stand in the order of their bytes, so the derived order is the
/// order of the bytes.
#[derive(Clone, Copy, Debug, Eq, PartialEq, Ord, PartialOrd)]
#[allow(clippy::upper_case_acronyms)]
#[allow(non_camel_case_types)]
pub enum ThaiChar {
    KO_KAI,
    KHO_KHAI,
    KHO_KHUAT,
    KHO_KHWAI,
    KHO_KHON,
    KHO_RAKHANG,
    NGO_NGU,
    CHO_CHAN,
    CHO_CHING,
    CHO_CHANG,
    SO_SO,
    CHO_CHOE,
    YO_YING,
    DO_CHADA,
    TO_PATAK,
    THO_THAN,
    THO_NANGMONTHO,
    THO_PHUTHAO,
    NO_NEN,
    DO_DEK,
    TO_TAO,
    THO_THUNG,
    THO_THAHAN,
    THO_THONG,
    NO_NU,
    BO_BAIMAI,
    PO_PLA,
    PHO_PHUNG,
    FO_FA,
    PHO_PHAN,
    FO_FAN,
    PHO_SAMPHAO,
    MO_MA,
    YO_YAK,
    RO_RUA,
    RU,
    LO_LING,
    LU,
    WO_WAEN,
    SO_SALA,
    SO_RUSI,
    SO_SUA,
    HO_HIP,
    LO_CHULA,
    O_ANG,
    HO_NOKHUK,
    PAIYANNOI,
    SARA_A,
    MAI_HAN_AKAT,
    SARA_AA,
    SARA_AM,
    SARA_I,
    SARA_II,
    SARA_UE,
    SARA_UEE,
    SARA_U,
    SARA_UU,
    PHINTHU,
    BAHT,
    SARA_E,
    SARA_AE,
    SARA_O,
    SARA_AI_MAIMUAN,
    SARA_AI_MAIMALAI,
    LAKKHANGYAO,
    MAIYAMOK,
    MAITAIKHU,
    MAI_EK,
    MAI_THO,
    MAI_TRI,
    MAI_CHATTAWA,
    THANTHAKHAT,
    NIKHAHIT,
    YAMAKKAN,
    FONGMAN,
    ZERO,
    ONE,
    TWO,
    THREE,
    FOUR,
    FIVE,
    SIX,
    SEVEN,
    EIGHT,
    NINE,
    ANGKHANKHU,
    KHOMUT,
}

impl ThaiChar {
    /// The byte that TIS-620 gives to this character.
    pub open spec fn byte(self) -> u8 {
        match self {
            ThaiChar::KO_KAI => 0xA1,
            ThaiChar::KHO_KHAI => 0xA2,
            ThaiChar::KHO_KHUAT => 0xA3,
            ThaiChar::KHO_KHWAI => 0xA4,
            ThaiChar::KHO_KHON => 0xA5,
            ThaiChar::KHO_RAKHANG => 0xA6,
            ThaiChar::NGO_NGU => 0xA7,
            ThaiChar::CHO_CHAN => 0xA8,
            ThaiChar::CHO_CHING => 0xA9,
            ThaiChar::CHO_CHANG => 0xAA,
            ThaiChar::SO_SO => 0xAB,
            ThaiChar::CHO_CHOE => 0xAC,
            ThaiChar::YO_YING => 0xAD,
            ThaiChar::DO_CHADA => 0xAE,
            ThaiChar::TO_PATAK => 0xAF,
            ThaiChar::THO_THAN => 0xB0,
            ThaiChar::THO_NANGMONTHO => 0xB1,
            ThaiChar::THO_PHUTHAO => 0xB2,
            ThaiChar::NO_NEN => 0xB3,
            ThaiChar::DO_DEK => 0xB4,
            ThaiChar::TO_TAO => 0xB5,
            ThaiChar::THO_THUNG => 0xB6,
            ThaiChar::THO_THAHAN => 0xB7,
            ThaiChar::THO_THONG => 0xB8,
            ThaiChar::NO_NU => 0xB9,
            ThaiChar::BO_BAIMAI => 0xBA,
            ThaiChar::PO_PLA => 0xBB,
            ThaiChar::PHO_PHUNG => 0xBC,
            ThaiChar::FO_FA => 0xBD,
            ThaiChar::PHO_PHAN => 0xBE,
            ThaiChar::FO_FAN => 0xBF,
            ThaiChar::PHO_SAMPHAO => 0xC0,
            ThaiChar::MO_MA => 0xC1,
            ThaiChar::YO_YAK => 0xC2,
            ThaiChar::RO_RUA => 0xC3,
            ThaiChar::RU => 0xC4,
            ThaiChar::LO_LING => 0xC5,
            ThaiChar::LU => 0xC6,
            ThaiChar::WO_WAEN => 0xC7,
            ThaiChar::SO_SALA => 0xC8,
            ThaiChar::SO_RUSI => 0xC9,
            ThaiChar::SO_SUA => 0xCA,
            ThaiChar::HO_HIP => 0xCB,
            ThaiChar::LO_CHULA => 0xCC,
            ThaiChar::O_ANG => 0xCD,
            ThaiChar::HO_NOKHUK => 0xCE,
            ThaiChar::PAIYANNOI => 0xCF,
            ThaiChar::SARA_A => 0xD0,
            ThaiChar::MAI_HAN_AKAT => 0xD1,
            ThaiChar::SARA_AA => 0xD2,
            ThaiChar::SARA_AM => 0xD3,
            ThaiChar::SARA_I => 0xD4,
            ThaiChar::SARA_II => 0xD5,
            ThaiChar::SARA_UE => 0xD6,
            ThaiChar::SARA_UEE => 0xD7,
            ThaiChar::SARA_U => 0xD8,
            ThaiChar::SARA_UU => 0xD9,
            ThaiChar::PHINTHU => 0xDA,
            ThaiChar::BAHT => 0xDF,
            ThaiChar::SARA_E => 0xE0,
            ThaiChar::SARA_AE => 0xE1,
            ThaiChar::SARA_O => 0xE2,
            ThaiChar::SARA_AI_MAIMUAN => 0xE3,
            ThaiChar::SARA_AI_MAIMALAI => 0xE4,
            ThaiChar::LAKKHANGYAO => 0xE5,
            ThaiChar::MAIYAMOK => 0xE6,
            ThaiChar::MAITAIKHU => 0xE7,
            ThaiChar::MAI_EK => 0xE8,
            ThaiChar::MAI_THO => 0xE9,
            ThaiChar::MAI_TRI => 0xEA,
            ThaiChar::MAI_CHATTAWA => 0xEB,
            ThaiChar::THANTHAKHAT => 0xEC,
            ThaiChar::NIKHAHIT => 0xED,
            ThaiChar::YAMAKKAN => 0xEE,
            ThaiChar::FONGMAN => 0xEF,
            ThaiChar::ZERO => 0xF0,
            ThaiChar::ONE => 0xF1,
            ThaiChar::TWO => 0xF2,
            ThaiChar::THREE => 0xF3,
            ThaiChar::FOUR => 0xF4,
            ThaiChar::FIVE => 0xF5,
            ThaiChar::SIX => 0xF6,
            ThaiChar::SEVEN => 0xF7,
            ThaiChar::EIGHT => 0xF8,
            ThaiChar::NINE => 0xF9,
            ThaiChar::ANGKHANKHU => 0xFA,
            ThaiChar::KHOMUT => 0xFB,
        }
    }

    /// The Unicode character that this entry stands for.
    pub open spec fn character(self) -> char {
        thai_char_of(self.byte())
    }

    /// The entry that stands for a character of the table.
    pub open spec fn of_char(ch: char) -> ThaiChar
        recommends
            is_thai_char(ch),
    {
        choose|tc: ThaiChar| tc.character() == ch
    }

    /// Every entry's byte lies in one of the two Thai ranges, and its character
    /// in the matching range of code points.
    pub proof fn lemma_in_range(self)
        ensures
            is_thai_byte(self.byte()),
            is_thai_char(self.character()),
            byte_of_char(self.character()) == Some(self.byte()),
    {
    }

    /// No two entries share a byte or a character.
    pub proof fn lemma_distinct(self, other: ThaiChar)
        requires
            self != other,
        ensures
            self.byte() != other.byte(),
            self.character() != other.character(),
    {
    }

    /// The entry for a character, if the table holds it.
    pub fn from_char(ch: char) -> (found: Option<ThaiChar>)
        ensures
            match found {
                Some(tc) => tc.character() == ch,
                None => !is_thai_char(ch),
            },
    {
        let variant = match ch {
            'ก' => ThaiChar::KO_KAI,
            'ข' => ThaiChar::KHO_KHAI,
            'ฃ' => ThaiChar::KHO_KHUAT,
            'ค' => ThaiChar::KHO_KHWAI,
            'ฅ' => ThaiChar::KHO_KHON,
            'ฆ' => ThaiChar::KHO_RAKHANG,
            'ง' => ThaiChar::NGO_NGU,
            'จ' => ThaiChar::CHO_CHAN,
            'ฉ' => ThaiChar::CHO_CHING,
            'ช' => ThaiChar::CHO_CHANG,
            'ซ' => ThaiChar::SO_SO,
            'ฌ' => ThaiChar::CHO_CHOE,
            'ญ' => ThaiChar::YO_YING,
            'ฎ' => ThaiChar::DO_CHADA,
            'ฏ' => ThaiChar::TO_PATAK,
            'ฐ' => ThaiChar::THO_THAN,
            'ฑ' => ThaiChar::THO_NANGMONTHO,
            'ฒ' => ThaiChar::THO_PHUTHAO,
            'ณ' => ThaiChar::NO_NEN,
            'ด' => ThaiChar::DO_DEK,
            'ต' => ThaiChar::TO_TAO,
            'ถ' => ThaiChar::THO_THUNG,
            'ท' => ThaiChar::THO_THAHAN,
            'ธ' => ThaiChar::THO_THONG,
            'น' => ThaiChar::NO_NU,
            'บ' => ThaiChar::BO_BAIMAI,
            'ป' => ThaiChar::PO_PLA,
            'ผ' => ThaiChar::PHO_PHUNG,
            'ฝ' => ThaiChar::FO_FA,
            'พ' => ThaiChar::PHO_PHAN,
            'ฟ' => ThaiChar::FO_FAN,
            'ภ' => ThaiChar::PHO_SAMPHAO,
            'ม' => ThaiChar::MO_MA,
            'ย' => ThaiChar::YO_YAK,
            'ร' => ThaiChar::RO_RUA,
            'ฤ' => ThaiChar::RU,
            'ล' => ThaiChar::LO_LING,
            'ฦ' => ThaiChar::LU,
            'ว' => ThaiChar::WO_WAEN,
            'ศ' => ThaiChar::SO_SALA,
            'ษ' => ThaiChar::SO_RUSI,
            'ส' => ThaiChar::SO_SUA,
            'ห' => ThaiChar::HO_HIP,
            'ฬ' => ThaiChar::LO_CHULA,
            'อ' => ThaiChar::O_ANG,
            'ฮ' => ThaiChar::HO_NOKHUK,
            'ฯ' => ThaiChar::PAIYANNOI,
            'ะ' => ThaiChar::SARA_A,
            'ั' => ThaiChar::MAI_HAN_AKAT,
            'า' => ThaiChar::SARA_AA,
            'ำ' => ThaiChar::SARA_AM,
            'ิ' => ThaiChar::SARA_I,
            'ี' => ThaiChar::SARA_II,
            'ึ' => ThaiChar::SARA_UE,
            'ื' => ThaiChar::SARA_UEE,
            'ุ' => ThaiChar::SARA_U,
            'ู' => ThaiChar::SARA_UU,
            'ฺ' => ThaiChar::PHINTHU,
            '฿' => ThaiChar::BAHT,
            'เ' => ThaiChar::SARA_E,
            'แ' => ThaiChar::SARA_AE,
            'โ' => ThaiChar::SARA_O,
            'ใ' => ThaiChar::SARA_AI_MAIMUAN,
            'ไ' => ThaiChar::SARA_AI_MAIMALAI,
            'ๅ' => ThaiChar::LAKKHANGYAO,
            'ๆ' => ThaiChar::MAIYAMOK,
            '็' => ThaiChar::MAITAIKHU,
            '่' => ThaiChar::MAI_EK,
            '้' => ThaiChar::MAI_THO,
            '๊' => ThaiChar::MAI_TRI,
            '๋' => ThaiChar::MAI_CHATTAWA,
            '์' => ThaiChar::THANTHAKHAT,
            'ํ' => ThaiChar::NIKHAHIT,
            '๎' => ThaiChar::YAMAKKAN,
            '๏' => ThaiChar::FONGMAN,
            '๐' => ThaiChar::ZERO,
            '๑' => ThaiChar::ONE,
            '๒' => ThaiChar::TWO,
            '๓' => ThaiChar::THREE,
            '๔' => ThaiChar::FOUR,
            '๕' => ThaiChar::FIVE,
            '๖' => ThaiChar::SIX,
            '๗' => ThaiChar::SEVEN,
            '๘' => ThaiChar::EIGHT,
            '๙' => ThaiChar::NINE,
            '๚' => ThaiChar::ANGKHANKHU,
            '๛' => ThaiChar::KHOMUT,
            _ => return None,
        };
        Some(variant)
    }

    /// The entry for a byte, if the table holds it.
    pub fn from_tis620_byte(byte: u8) -> (found: Option<ThaiChar>)
        ensures
            match found {
                Some(tc) => tc.byte() == byte,
                None => !is_thai_byte(byte),
            },
    {
        let variant = match byte {
            0xA1 => ThaiChar::KO_KAI,
            0xA2 => ThaiChar::KHO_KHAI,
            0xA3 => ThaiChar::KHO_KHUAT,
            0xA4 => ThaiChar::KHO_KHWAI,
            0xA5 => ThaiChar::KHO_KHON,
            0xA6 => ThaiChar::KHO_RAKHANG,
            0xA7 => ThaiChar::NGO_NGU,
            0xA8 => ThaiChar::CHO_CHAN,
            0xA9 => ThaiChar::CHO_CHING,
            0xAA => ThaiChar::CHO_CHANG,
            0xAB => ThaiChar::SO_SO,
            0xAC => ThaiChar::CHO_CHOE,
            0xAD => ThaiChar::YO_YING,
            0xAE => ThaiChar::DO_CHADA,
            0xAF => ThaiChar::TO_PATAK,
            0xB0 => ThaiChar::THO_THAN,
            0xB1 => ThaiChar::THO_NANGMONTHO,
            0xB2 => ThaiChar::THO_PHUTHAO,
            0xB3 => ThaiChar::NO_NEN,
            0xB4 => ThaiChar::DO_DEK,
            0xB5 => ThaiChar::TO_TAO,
            0xB6 => ThaiChar::THO_THUNG,
            0xB7 => ThaiChar::THO_THAHAN,
            0xB8 => ThaiChar::THO_THONG,
            0xB9 => ThaiChar::NO_NU,
            0xBA => ThaiChar::BO_BAIMAI,
            0xBB => ThaiChar::PO_PLA,
            0xBC => ThaiChar::PHO_PHUNG,
            0xBD => ThaiChar::FO_FA,
            0xBE => ThaiChar::PHO_PHAN,
            0xBF => ThaiChar::FO_FAN,
            0xC0 => ThaiChar::PHO_SAMPHAO,
            0xC1 => ThaiChar::MO_MA,
            0xC2 => ThaiChar::YO_YAK,
            0xC3 => ThaiChar::RO_RUA,
            0xC4 => ThaiChar::RU,
            0xC5 => ThaiChar::LO_LING,
            0xC6 => ThaiChar::LU,
            0xC7 => ThaiChar::WO_WAEN,
            0xC8 => ThaiChar::SO_SALA,
            0xC9 => ThaiChar::SO_RUSI,
            0xCA => ThaiChar::SO_SUA,
            0xCB => ThaiChar::HO_HIP,
            0xCC => ThaiChar::LO_CHULA,
            0xCD => ThaiChar::O_ANG,
            0xCE => ThaiChar::HO_NOKHUK,
            0xCF => ThaiChar::PAIYANNOI,
            0xD0 => ThaiChar::SARA_A,
            0xD1 => ThaiChar::MAI_HAN_AKAT,
            0xD2 => ThaiChar::SARA_AA,
            0xD3 => ThaiChar::SARA_AM,
            0xD4 => ThaiChar::SARA_I,
            0xD5 => ThaiChar::SARA_II,
            0xD6 => ThaiChar::SARA_UE,
            0xD7 => ThaiChar::SARA_UEE,
            0xD8 => ThaiChar::SARA_U,
            0xD9 => ThaiChar::SARA_UU,
            0xDA => ThaiChar::PHINTHU,
            0xDF => ThaiChar::BAHT,
            0xE0 => ThaiChar::SARA_E,
            0xE1 => ThaiChar::SARA_AE,
            0xE2 => ThaiChar::SARA_O,
            0xE3 => ThaiChar::SARA_AI_MAIMUAN,
            0xE4 => ThaiChar::SARA_AI_MAIMALAI,
            0xE5 => ThaiChar::LAKKHANGYAO,
            0xE6 => ThaiChar::MAIYAMOK,
            0xE7 => ThaiChar::MAITAIKHU,
            0xE8 => ThaiChar::MAI_EK,
            0xE9 => ThaiChar::MAI_THO,
            0xEA => ThaiChar::MAI_TRI,
            0xEB => ThaiChar::MAI_CHATTAWA,
            0xEC => ThaiChar::THANTHAKHAT,
            0xED => ThaiChar::NIKHAHIT,
            0xEE => ThaiChar::YAMAKKAN,
            0xEF => ThaiChar::FONGMAN,
            0xF0 => ThaiChar::ZERO,
            0xF1 => ThaiChar::ONE,
            0xF2 => ThaiChar::TWO,
            0xF3 => ThaiChar::THREE,
            0xF4 => ThaiChar::FOUR,
            0xF5 => ThaiChar::FIVE,
            0xF6 => ThaiChar::SIX,
            0xF7 => ThaiChar::SEVEN,
            0xF8 => ThaiChar::EIGHT,
            0xF9 => ThaiChar::NINE,
            0xFA => ThaiChar::ANGKHANKHU,
            0xFB => ThaiChar::KHOMUT,
            _ => return None,
        };
        Some(variant)
    }

    /// The byte of this entry.
    pub fn to_tis620_byte(self) -> (byte: u8)
        ensures
            byte == self.byte(),
            is_thai_byte(byte),
    {
        match self {
            ThaiChar::KO_KAI => 0xA1,
            ThaiChar::KHO_KHAI => 0xA2,
            ThaiChar::KHO_KHUAT => 0xA3,
            ThaiChar::KHO_KHWAI => 0xA4,
            ThaiChar::KHO_KHON => 0xA5,
            ThaiChar::KHO_RAKHANG => 0xA6,
            ThaiChar::NGO_NGU => 0xA7,
            ThaiChar::CHO_CHAN => 0xA8,
            ThaiChar::CHO_CHING => 0xA9,
            ThaiChar::CHO_CHANG => 0xAA,
            ThaiChar::SO_SO => 0xAB,
            ThaiChar::CHO_CHOE => 0xAC,
            ThaiChar::YO_YING => 0xAD,
            ThaiChar::DO_CHADA => 0xAE,
            ThaiChar::TO_PATAK => 0xAF,
            ThaiChar::THO_THAN => 0xB0,
            ThaiChar::THO_NANGMONTHO => 0xB1,
            ThaiChar::THO_PHUTHAO => 0xB2,
            ThaiChar::NO_NEN => 0xB3,
            ThaiChar::DO_DEK => 0xB4,
            ThaiChar::TO_TAO => 0xB5,
            ThaiChar::THO_THUNG => 0xB6,
            ThaiChar::THO_THAHAN => 0xB7,
            ThaiChar::THO_THONG => 0xB8,
            ThaiChar::NO_NU => 0xB9,
            ThaiChar::BO_BAIMAI => 0xBA,
            ThaiChar::PO_PLA => 0xBB,
            ThaiChar::PHO_PHUNG => 0xBC,
            ThaiChar::FO_FA => 0xBD,
            ThaiChar::PHO_PHAN => 0xBE,
            ThaiChar::FO_FAN => 0xBF,
            ThaiChar::PHO_SAMPHAO => 0xC0,
            ThaiChar::MO_MA => 0xC1,
            ThaiChar::YO_YAK => 0xC2,
            ThaiChar::RO_RUA => 0xC3,
            ThaiChar::RU => 0xC4,
            ThaiChar::LO_LING => 0xC5,
            ThaiChar::LU => 0xC6,
            ThaiChar::WO_WAEN => 0xC7,
            ThaiChar::SO_SALA => 0xC8,
            ThaiChar::SO_RUSI => 0xC9,
            ThaiChar::SO_SUA => 0xCA,
            ThaiChar::HO_HIP => 0xCB,
            ThaiChar::LO_CHULA => 0xCC,
            ThaiChar::O_ANG => 0xCD,
            ThaiChar::HO_NOKHUK => 0xCE,
            ThaiChar::PAIYANNOI => 0xCF,
            ThaiChar::SARA_A => 0xD0,
            ThaiChar::MAI_HAN_AKAT => 0xD1,
            ThaiChar::SARA_AA => 0xD2,
            ThaiChar::SARA_AM => 0xD3,
            ThaiChar::SARA_I => 0xD4,
            ThaiChar::SARA_II => 0xD5,
            ThaiChar::SARA_UE => 0xD6,
            ThaiChar::SARA_UEE => 0xD7,
            ThaiChar::SARA_U => 0xD8,
            ThaiChar::SARA_UU => 0xD9,
            ThaiChar::PHINTHU => 0xDA,
            ThaiChar::BAHT => 0xDF,
            ThaiChar::SARA_E => 0xE0,
            ThaiChar::SARA_AE => 0xE1,
            ThaiChar::SARA_O => 0xE2,
            ThaiChar::SARA_AI_MAIMUAN => 0xE3,
            ThaiChar::SARA_AI_MAIMALAI => 0xE4,
            ThaiChar::LAKKHANGYAO => 0xE5,
            ThaiChar::MAIYAMOK => 0xE6,
            ThaiChar::MAITAIKHU => 0xE7,
            ThaiChar::MAI_EK => 0xE8,
            ThaiChar::MAI_THO => 0xE9,
            ThaiChar::MAI_TRI => 0xEA,
            ThaiChar::MAI_CHATTAWA => 0xEB,
            ThaiChar::THANTHAKHAT => 0xEC,
            ThaiChar::NIKHAHIT => 0xED,
            ThaiChar::YAMAKKAN => 0xEE,
            ThaiChar::FONGMAN => 0xEF,
            ThaiChar::ZERO => 0xF0,
            ThaiChar::ONE => 0xF1,
            ThaiChar::TWO => 0xF2,
            ThaiChar::THREE => 0xF3,
            ThaiChar::FOUR => 0xF4,
            ThaiChar::FIVE => 0xF5,
            ThaiChar::SIX => 0xF6,
            ThaiChar::SEVEN => 0xF7,
            ThaiChar::EIGHT => 0xF8,
            ThaiChar::NINE => 0xF9,
            ThaiChar::ANGKHANKHU => 0xFA,
            ThaiChar::KHOMUT => 0xFB,
        }
    }

    /// The character of this entry.
    pub fn to_char(self) -> (ch: char)
        ensures
            ch == self.character(),
            is_thai_char(ch),
    {
        match self {
            ThaiChar::KO_KAI => 'ก',
            ThaiChar::KHO_KHAI => 'ข',
            ThaiChar::KHO_KHUAT => 'ฃ',
            ThaiChar::KHO_KHWAI => 'ค',
            ThaiChar::KHO_KHON => 'ฅ',
            ThaiChar::KHO_RAKHANG => 'ฆ',
            ThaiChar::NGO_NGU => 'ง',
            ThaiChar::CHO_CHAN => 'จ',
            ThaiChar::CHO_CHING => 'ฉ',
            ThaiChar::CHO_CHANG => 'ช',
            ThaiChar::SO_SO => 'ซ',
            ThaiChar::CHO_CHOE => 'ฌ',
            ThaiChar::YO_YING => 'ญ',
            ThaiChar::DO_CHADA => 'ฎ',
            ThaiChar::TO_PATAK => 'ฏ',
            ThaiChar::THO_THAN => 'ฐ',
            ThaiChar::THO_NANGMONTHO => 'ฑ',
            ThaiChar::THO_PHUTHAO => 'ฒ',
            ThaiChar::NO_NEN => 'ณ',
            ThaiChar::DO_DEK => 'ด',
            ThaiChar::TO_TAO => 'ต',
            ThaiChar::THO_THUNG => 'ถ',
            ThaiChar::THO_THAHAN => 'ท',
            ThaiChar::THO_THONG => 'ธ',
            ThaiChar::NO_NU => 'น',
            ThaiChar::BO_BAIMAI => 'บ',
            ThaiChar::PO_PLA => 'ป',
            ThaiChar::PHO_PHUNG => 'ผ',
            ThaiChar::FO_FA => 'ฝ',
            ThaiChar::PHO_PHAN => 'พ',
            ThaiChar::FO_FAN => 'ฟ',
            ThaiChar::PHO_SAMPHAO => 'ภ',
            ThaiChar::MO_MA => 'ม',
            ThaiChar::YO_YAK => 'ย',
            ThaiChar::RO_RUA => 'ร',
            ThaiChar::RU => 'ฤ',
            ThaiChar::LO_LING => 'ล',
            ThaiChar::LU => 'ฦ',
            ThaiChar::WO_WAEN => 'ว',
            ThaiChar::SO_SALA => 'ศ',
            ThaiChar::SO_RUSI => 'ษ',
            ThaiChar::SO_SUA => 'ส',
            ThaiChar::HO_HIP => 'ห',
            ThaiChar::LO_CHULA => 'ฬ',
            ThaiChar::O_ANG => 'อ',
            ThaiChar::HO_NOKHUK => 'ฮ',
            ThaiChar::PAIYANNOI => 'ฯ',
            ThaiChar::SARA_A => 'ะ',
            ThaiChar::MAI_HAN_AKAT => 'ั',
            ThaiChar::SARA_AA => 'า',
            ThaiChar::SARA_AM => 'ำ',
            ThaiChar::SARA_I => 'ิ',
            ThaiChar::SARA_II => 'ี',
            ThaiChar::SARA_UE => 'ึ',
            ThaiChar::SARA_UEE => 'ื',
            ThaiChar::SARA_U => 'ุ',
            ThaiChar::SARA_UU => 'ู',
            ThaiChar::PHINTHU => 'ฺ',
            ThaiChar::BAHT => '฿',
            ThaiChar::SARA_E => 'เ',
            ThaiChar::SARA_AE => 'แ',
            ThaiChar::SARA_O => 'โ',
            ThaiChar::SARA_AI_MAIMUAN => 'ใ',
            ThaiChar::SARA_AI_MAIMALAI => 'ไ',
            ThaiChar::LAKKHANGYAO => 'ๅ',
            ThaiChar::MAIYAMOK => 'ๆ',
            ThaiChar::MAITAIKHU => '็',
            ThaiChar::MAI_EK => '่',
            ThaiChar::MAI_THO => '้',
            ThaiChar::MAI_TRI => '๊',
            ThaiChar::MAI_CHATTAWA => '๋',
            ThaiChar::THANTHAKHAT => '์',
            ThaiChar::NIKHAHIT => 'ํ',
            ThaiChar::YAMAKKAN => '๎',
            ThaiChar::FONGMAN => '๏',
            ThaiChar::ZERO => '๐',
            ThaiChar::ONE => '๑',
            ThaiChar::TWO => '๒',
            ThaiChar::THREE => '๓',
            ThaiChar::FOUR => '๔',
            ThaiChar::FIVE => '๕',
            ThaiChar::SIX => '๖',
            ThaiChar::SEVEN => '๗',
            ThaiChar::EIGHT => '๘',
            ThaiChar::NINE => '๙',
            ThaiChar::ANGKHANKHU => '๚',
            ThaiChar::KHOMUT => '๛',
        }
    }

    /// The character that a byte above the ASCII range stands for, if any.
    pub fn byte_to_char(byte: u8) -> (found: Option<char>)
        ensures
            found == (if is_thai_byte(byte) {
                Some(thai_char_of(byte))
            } else {
                None
            }),
    {
        match ThaiChar::from_tis620_byte(byte) {
            Some(tc) => Some(tc.to_char()),
            None => None,
        }
    }
}

impl From<ThaiChar> for char {
    fn from(tc: ThaiChar) -> (ch: char) {
        tc.to_char()
    }
}

impl vstd::std_specs::convert::FromSpecImpl<ThaiChar> for char {
    open spec fn obeys_from_spec() -> bool {
        true
    }

    open spec fn from_spec(tc: ThaiChar) -> char {
        tc.character()
    }
}

impl From<ThaiChar> for u8 {
    fn from(tc: ThaiChar) -> (byte: u8) {
        tc.to_tis620_byte()
    }
}

impl vstd::std_specs::convert::FromSpecImpl<ThaiChar> for u8 {
    open spec fn obeys_from_spec() -> bool {
        true
    }

    open spec fn from_spec(tc: ThaiChar) -> u8 {
        tc.byte()
    }
}

impl TryFrom<char> for ThaiChar {
    type Error = ();

    fn try_from(ch: char) -> (found: Result<ThaiChar, ()>) {
        match ThaiChar::from_char(ch) {
            Some(tc) => Ok(tc),
            None => Err(()),
        }
    }
}

impl vstd::std_specs::convert::TryFromSpecImpl<char> for ThaiChar {
    open spec fn obeys_try_from_spec() -> bool {
        true
    }

    open spec fn try_from_spec(ch: char) -> Result<ThaiChar, ()> {
        if is_thai_char(ch) {
            Ok(ThaiChar::of_char(ch))
        } else {
            Err(())
        }
    }
}

/// A byte that lossy encoding writes in place of a character that TIS-620
/// cannot write. It is always a byte that TIS-620 itself can read: ASCII, or a
/// byte of the table.
#[derive(Debug, Clone, Copy, Eq, PartialEq, Ord, PartialOrd)]
pub struct ReplacementChar(u8);

impl ReplacementChar {
    #[verifier::type_invariant]
    spec fn representable(self) -> bool {
        is_valid_byte(self.0)
    }

    /// The byte that is written.
    pub closed spec fn byte(self) -> u8 {
        self.0
    }

    /// The replacement that writes `ch`, for a character that TIS-620 can
    /// write; nothing for any other character.
    pub fn from_char(ch: char) -> (made: Option<Self>)
        ensures
            match made {
                Some(rc) => byte_of_char(ch) == Some(rc.byte()) && is_valid_byte(rc.byte()),
                None => byte_of_char(ch) is None,
            },
    {
        let byte = match encode_char(ch) {
            Some(byte) => byte,
            None => return None,
        };
        Some(Self(byte))
    }

    /// The byte that is written, which TIS-620 can read.
    pub fn to_tis620_byte(self) -> (byte: u8)
        ensures
            byte == self.byte(),
            is_valid_byte(byte),
    {
        proof {
            use_type_invariant(&self);
        }
        self.0
    }
}

} // verus!
