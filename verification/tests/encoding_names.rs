use std::str::FromStr;

use certgen::{Encoding, Error, Stage};

#[test]
fn pem_is_read_in_small_letters() {
    assert_eq!(Encoding::from_str("pem"), Ok(Encoding::PEM));
}

#[test]
fn der_is_read_in_small_letters() {
    assert_eq!(Encoding::from_str("der"), Ok(Encoding::DER));
}

#[test]
fn names_are_read_in_any_case() {
    for name in ["PEM", "Pem", "pEm", "peM", "PeM", "pEM"] {
        assert_eq!(Encoding::from_str(name), Ok(Encoding::PEM), "{}", name);
    }
    for name in ["DER", "Der", "dEr", "deR", "DeR", "dER"] {
        assert_eq!(Encoding::from_str(name), Ok(Encoding::DER), "{}", name);
    }
}

#[test]
fn names_are_read_through_parse() {
    assert_eq!("Pem".parse::<Encoding>(), Ok(Encoding::PEM));
    assert_eq!("DER".parse::<Encoding>(), Ok(Encoding::DER));
    assert_eq!("xml".parse::<Encoding>(), Err(Error::UnknownEncoding));
}

#[test]
fn xml_is_no_encoding() {
    assert_eq!(Encoding::from_str("xml"), Err(Error::UnknownEncoding));
}

#[test]
fn other_texts_are_no_encoding() {
    for name in ["", "p", "pe", "pems", " pem", "pem ", "pe m", "der\n", "red", "dem", "per", "p3m"] {
        assert_eq!(Encoding::from_str(name), Err(Error::UnknownEncoding), "{:?}", name);
    }
}

#[test]
fn letters_next_to_the_capitals_are_not_folded() {
    // '@' and '[' stand just outside 'A'..='Z'; '0' + 32 is 'P'.
    for name in ["0em", "pEM@", "[em", "`em", "p%m"] {
        assert_eq!(Encoding::from_str(name), Err(Error::UnknownEncoding), "{:?}", name);
    }
}

#[test]
fn characters_outside_ascii_are_no_letters_of_a_name() {
    for name in ["p\u{e9}m", "\u{440}em", "de\u{280}", "pe\u{217f}", "\u{ff50}\u{ff45}\u{ff4d}"] {
        assert_eq!(Encoding::from_str(name), Err(Error::UnknownEncoding), "{:?}", name);
    }
}

#[test]
fn reading_agrees_with_unicode_lowercasing() {
    let samples = [
        "pem", "PEM", "der", "DeR", "xml", "", "pems", "PE\u{212a}", "\u{212a}em", "d\u{130}r",
        "\u{1e9e}em", "P\u{c9}M", "DE\u{52}", "de\u{211b}", "\u{3a0}EM",
    ];
    for name in samples {
        let expected = match name.to_lowercase().as_str() {
            "pem" => Ok(Encoding::PEM),
            "der" => Ok(Encoding::DER),
            _ => Err(Error::UnknownEncoding),
        };
        assert_eq!(Encoding::from_str(name), expected, "{:?}", name);
    }
}

#[test]
fn every_error_has_its_stage() {
    assert_eq!(Error::UnknownEncoding.stage(), Stage::Input);
    assert_eq!(Error::InvalidSubjectAltName { index: 3 }.stage(), Stage::CertificateGeneration);
    assert_eq!(
        Error::CertificateGeneration(rcgen::RcgenError::KeyGenerationUnavailable).stage(),
        Stage::CertificateGeneration
    );
    assert_eq!(
        Error::Serialization(rcgen::RcgenError::RingUnspecified).stage(),
        Stage::Serialization
    );
}

#[test]
fn an_unknown_encoding_fails_at_the_input_stage() {
    let error = Encoding::from_str("xml").unwrap_err();
    assert_eq!(error.stage(), Stage::Input);
}
