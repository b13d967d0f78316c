//! The two encodings, and the names that select them.

use vstd::prelude::*;
use vstd::utf8::{encode_utf8, is_ascii_chars, is_ascii_chars_encode_utf8};

use crate::error::Error;

verus! {

/// The format in which the certificate and both keys are written. One
/// encoding applies to all three artifacts.
#[derive(Debug, Clone, Copy, PartialEq, Eq, Structural)]
pub enum Encoding {
    /// Base64 text between `BEGIN` and `END` lines.
    PEM,
    /// The binary encoding itself.
    DER,
}

/// A character with the ASCII capitals turned into small letters; every
/// other character is left as it is.
pub open spec fn fold_ascii(c: char) -> char {
    if 'A' <= c && c <= 'Z' {
        ((c as int) + 32) as char
    } else {
        c
    }
}

/// `name` has the three given small letters, each in either case.
pub open spec fn spells(name: Seq<char>, first: char, second: char, third: char) -> bool {
    &&& name.len() == 3
    &&& fold_ascii(name[0]) == first
    &&& fold_ascii(name[1]) == second
    &&& fold_ascii(name[2]) == third
}

/// The encoding that a name selects, if any: `pem` or `der`, in any mix of
/// capital and small letters.
pub open spec fn named(name: Seq<char>) -> Option<Encoding> {
    if spells(name, 'p', 'e', 'm') {
        Some(Encoding::PEM)
    } else if spells(name, 'd', 'e', 'r') {
        Some(Encoding::DER)
    } else {
        None
    }
}

/// Names that differ only in the case of their ASCII letters select the same
/// encoding, or both select none.
pub proof fn lemma_named_ignores_case(a: Seq<char>, b: Seq<char>)
    requires
        a.len() == b.len(),
        forall|i: int| 0 <= i < a.len() ==> fold_ascii(#[trigger] a[i]) == fold_ascii(b[i]),
    ensures
        named(a) == named(b),
{
    if a.len() == 3 {
        assert(fold_ascii(a[0]) == fold_ascii(b[0]));
        assert(fold_ascii(a[1]) == fold_ascii(b[1]));
        assert(fold_ascii(a[2]) == fold_ascii(b[2]));
    }
}

/// Whether `c` is `small` or its capital.
fn is_letter(c: char, small: char, capital: char) -> (r: bool)
    requires
        'A' <= capital <= 'Z',
        capital as int + 32 == small as int,
    ensures
        r == (fold_ascii(c) == small),
{
    c == small || c == capital
}

impl std::str::FromStr for Encoding {
    type Err = Error;

    /// Reads an encoding from its name, `pem` or `der` in any mix of capital
    /// and small letters. Any other text is refused with
    /// [`Error::UnknownEncoding`].
    ///
    /// Only ASCII letters are folded. No character outside ASCII lowercases to
    /// a letter of either name, so a full Unicode lowercasing selects the same
    /// encoding for every text.
    fn from_str(name: &str) -> (r: Result<Encoding, Error>)
        ensures
            r == match named(name@) {
                Some(encoding) => Ok::<Encoding, Error>(encoding),
                None => Err(Error::UnknownEncoding),
            },
    {
        if name.unicode_len() != 3 {
            return Err(Error::UnknownEncoding);
        }
        let first = name.get_char(0);
        let second = name.get_char(1);
        let third = name.get_char(2);
        if is_letter(first, 'p', 'P') && is_letter(second, 'e', 'E') && is_letter(third, 'm', 'M') {
            Ok(Encoding::PEM)
        } else if is_letter(first, 'd', 'D') && is_letter(second, 'e', 'E') && is_letter(third, 'r', 'R') {
            Ok(Encoding::DER)
        } else {
            Err(Error::UnknownEncoding)
        }
    }
}

/// The label between the dashes of a PEM certificate.
pub open spec fn certificate_label() -> Seq<char> {
    "CERTIFICATE"@
}

/// The label between the dashes of a PEM public key.
pub open spec fn public_key_label() -> Seq<char> {
    "PUBLIC KEY"@
}

/// The label between the dashes of a PEM private key.
pub open spec fn private_key_label() -> Seq<char> {
    "PRIVATE KEY"@
}

/// The first line of a PEM document with the given label, without its line
/// ending.
pub open spec fn pem_opening(label: Seq<char>) -> Seq<char> {
    "-----BEGIN "@ + label + "-----"@
}

/// `bytes` is not empty and starts with the tag of a DER `SEQUENCE`, as
/// certificates, public keys and private keys all do.
pub open spec fn is_der(bytes: Seq<u8>) -> bool {
    bytes.len() > 0 && bytes[0] == 0x30
}

/// `text` is ASCII and starts with the opening line for `label`.
pub open spec fn is_pem_text(text: Seq<char>, label: Seq<char>) -> bool {
    is_ascii_chars(text) && pem_opening(label).is_prefix_of(text)
}

/// `bytes` starts with the opening line for `label`, one byte for each of its
/// characters.
pub open spec fn is_pem(bytes: Seq<u8>, label: Seq<char>) -> bool {
    &&& pem_opening(label).len() <= bytes.len()
    &&& forall|i: int|
        0 <= i < pem_opening(label).len() ==> #[trigger] bytes[i] == pem_opening(label)[i] as u8
}

/// The bytes of a PEM text start with the opening line that the text starts
/// with.
pub proof fn lemma_pem_text_bytes(text: Seq<char>, label: Seq<char>)
    requires
        is_pem_text(text, label),
    ensures
        is_pem(encode_utf8(text), label),
{
    is_ascii_chars_encode_utf8(text);
    let opening = pem_opening(label);
    assert forall|i: int| 0 <= i < opening.len() implies #[trigger] encode_utf8(text)[i]
        == opening[i] as u8 by {
        assert(text[i] == opening[i]);
    }
}

/// No artifact belongs to both encodings: a DER artifact starts with the
/// `SEQUENCE` tag, a PEM artifact with a dash.
pub proof fn lemma_der_is_not_pem(bytes: Seq<u8>, label: Seq<char>)
    ensures
        !(is_der(bytes) && is_pem(bytes, label)),
{
    reveal_strlit("-----BEGIN ");
    if is_pem(bytes, label) {
        assert(pem_opening(label)[0] == '-');
        assert(bytes[0] == '-' as u8);
    }
}

} // verus!
