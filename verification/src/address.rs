//! The identifier resolver: tells a hex address from a name of the name
//! service, and turns addresses into text and back.
//!
//! An address is 20 bytes. Its display form is `0x` and 40 hex digits, 42
//! characters in all.

use crate::error::{ErrorClass, PipelineError};
use ethers::types::H160;
use ethers::utils::hex::ToHex;
use std::str::FromStr;
use vstd::pervasive::unreached;
use vstd::prelude::*;
use vstd::string::*;

verus! {

/// Whether `c` is one of `0`-`9`, `a`-`f`, `A`-`F`.
pub open spec fn is_hex_digit(c: char) -> bool {
    ||| '0' <= c <= '9'
    ||| 'a' <= c <= 'f'
    ||| 'A' <= c <= 'F'
}

/// The number that a hex digit stands for.
pub open spec fn hex_digit_value(c: char) -> int {
    if '0' <= c <= '9' {
        c as int - '0' as int
    } else if 'a' <= c <= 'f' {
        c as int - 'a' as int + 10
    } else {
        c as int - 'A' as int + 10
    }
}

/// The lower-case hex digit of a number below 16.
pub open spec fn lower_hex_digit(value: int) -> char {
    if value < 10 {
        ('0' as int + value) as char
    } else {
        ('a' as int + value - 10) as char
    }
}

/// The bytes in lower-case hex, two digits for each, the high half first.
pub open spec fn lower_hex(bytes: Seq<u8>) -> Seq<char> {
    Seq::new(
        2 * bytes.len(),
        |i: int|
            if i % 2 == 0 {
                lower_hex_digit(bytes[i / 2] as int / 16)
            } else {
                lower_hex_digit(bytes[i / 2] as int % 16)
            },
    )
}

/// Whether the text begins with `0x`.
pub open spec fn has_hex_prefix(text: Seq<char>) -> bool {
    text.len() >= 2 && text[0] == '0' && text[1] == 'x'
}

/// Whether the text ends with `.eth`, the suffix of the name service.
pub open spec fn has_alias_suffix(text: Seq<char>) -> bool {
    let n = text.len() as int;
    n >= 4 && text[n - 4] == '.' && text[n - 3] == 'e' && text[n - 2] == 't' && text[n - 1] == 'h'
}

/// Whether the text is the display form of an address: `0x` and 40 hex
/// digits of either case.
pub open spec fn well_formed_address(text: Seq<char>) -> bool {
    &&& text.len() == 42
    &&& has_hex_prefix(text)
    &&& forall|i: int| 2 <= i < 42 ==> is_hex_digit(#[trigger] text[i])
}

/// The 20 bytes that the display form of an address stands for.
pub open spec fn address_bytes(text: Seq<char>) -> Seq<u8> {
    Seq::new(
        20,
        |i: int| (hex_digit_value(text[2 + 2 * i]) * 16 + hex_digit_value(text[3 + 2 * i])) as u8,
    )
}

/// The display form of an address, in lower case.
pub open spec fn address_text(bytes: Seq<u8>) -> Seq<char> {
    seq!['0', 'x'] + lower_hex(bytes)
}

/// What an identifier is.
#[derive(Clone, Copy, Debug, PartialEq, Eq, Structural)]
pub enum IdentifierKind {
    /// The display form of an address.
    RawAddress,
    /// A name of the name service.
    Alias,
}

/// An address: its display form, kept as it was written, and its 20 bytes.
#[derive(Debug)]
pub struct Address {
    text: String,
    bytes: [u8; 20],
}

impl Address {
    #[verifier::type_invariant]
    spec fn consistent(self) -> bool {
        well_formed_address(self.text@) && self.bytes@ == address_bytes(self.text@)
    }

    /// The display form.
    pub closed spec fn text(self) -> Seq<char> {
        self.text@
    }

    /// The address from its display form, where that is well formed. The
    /// text is kept as it is, in the case in which it was written.
    pub fn parse(text: String) -> (address: Result<Address, PipelineError>)
        ensures
            well_formed_address(text@) ==> address is Ok && address->Ok_0.text() == text@,
            !well_formed_address(text@) ==> address is Err && address->Err_0
                == PipelineError::InvalidAddressFormat,
    {
        match parse_address(text.as_str()) {
            Ok(bytes) => Ok(Address { text, bytes }),
            Err(error) => Err(error),
        }
    }

    /// The address of 20 bytes; its display form is in lower case.
    pub fn from_bytes(bytes: [u8; 20]) -> (address: Address)
        ensures
            address.text() == address_text(bytes@),
    {
        let text = format_address(&bytes);
        proof {
            lemma_address_round_trip(bytes@);
        }
        Address { text, bytes }
    }

    /// The display form.
    pub fn as_str(&self) -> (text: &str)
        ensures
            text@ == self.text(),
            well_formed_address(text@),
    {
        proof {
            use_type_invariant(self);
        }
        self.text.as_str()
    }

    /// The 20 bytes.
    pub fn bytes(&self) -> (bytes: [u8; 20])
        ensures
            bytes@ == address_bytes(self.text()),
    {
        proof {
            use_type_invariant(self);
        }
        self.bytes
    }

    /// A copy of the address.
    pub fn duplicate(&self) -> (copy: Address)
        ensures
            copy.text() == self.text(),
    {
        proof {
            use_type_invariant(self);
        }
        Address { text: self.text.clone(), bytes: self.bytes }
    }
}

/// An identifier that has been told apart, with its text as it was given.
#[derive(Debug)]
pub enum Identifier {
    /// An address.
    RawAddress(Address),
    /// A name of the name service, still to be resolved.
    Alias(String),
}

impl Identifier {
    /// What the identifier is.
    pub open spec fn kind(self) -> IdentifierKind {
        match self {
            Identifier::RawAddress(_) => IdentifierKind::RawAddress,
            Identifier::Alias(_) => IdentifierKind::Alias,
        }
    }

    /// The text of the identifier.
    pub open spec fn text(self) -> Seq<char> {
        match self {
            Identifier::RawAddress(address) => address.text(),
            Identifier::Alias(name) => name@,
        }
    }
}

/// What an identifier is told to be. With the hex prefix it is an address
/// or badly written, whatever its ending; without it, it is a name where it
/// has the suffix of the name service.
pub open spec fn classification(text: Seq<char>) -> Result<IdentifierKind, PipelineError> {
    if has_hex_prefix(text) {
        if well_formed_address(text) {
            Ok(IdentifierKind::RawAddress)
        } else {
            Err(PipelineError::InvalidAddressFormat)
        }
    } else if has_alias_suffix(text) {
        Ok(IdentifierKind::Alias)
    } else {
        Err(PipelineError::UnrecognizedIdentifierForm)
    }
}

/// Whether `c` is a hex digit.
pub fn hex_digit(c: char) -> (hex: bool)
    ensures
        hex == is_hex_digit(c),
{
    ('0' <= c && c <= '9') || ('a' <= c && c <= 'f') || ('A' <= c && c <= 'F')
}

/// Whether the text begins with `0x`.
pub fn hex_prefixed(text: &str) -> (prefixed: bool)
    ensures
        prefixed == has_hex_prefix(text@),
{
    let n: usize = text.unicode_len();
    n >= 2 && text.get_char(0) == '0' && text.get_char(1) == 'x'
}

/// Whether the text ends with the suffix of the name service.
pub fn alias_suffixed(text: &str) -> (suffixed: bool)
    ensures
        suffixed == has_alias_suffix(text@),
{
    let n: usize = text.unicode_len();
    n >= 4 && text.get_char(n - 4) == '.' && text.get_char(n - 3) == 'e' && text.get_char(n - 2)
        == 't' && text.get_char(n - 1) == 'h'
}

/// Whether the text is the display form of an address.
pub fn verify_address(address: &str) -> (valid: bool)
    ensures
        valid == well_formed_address(address@),
{
    if address.unicode_len() != 42 {
        return false;
    }
    if !hex_prefixed(address) {
        return false;
    }
    let mut i: usize = 2;
    while i < 42
        invariant
            2 <= i <= 42,
            address@.len() == 42,
            forall|k: int| 2 <= k < i ==> is_hex_digit(#[trigger] address@[k]),
        decreases 42 - i,
    {
        if !hex_digit(address.get_char(i)) {
            return false;
        }
        i += 1;
    }
    true
}

/// Tells what an identifier is, and hands its text back as it was given.
pub fn classify_address(address: String) -> (identifier: Result<Identifier, PipelineError>)
    ensures
        match identifier {
            Ok(found) => classification(address@) == Ok::<IdentifierKind, PipelineError>(
                found.kind(),
            ) && found.text() == address@,
            Err(error) => classification(address@) == Err::<IdentifierKind, PipelineError>(error),
        },
{
    if hex_prefixed(address.as_str()) {
        match Address::parse(address) {
            Ok(parsed) => Ok(Identifier::RawAddress(parsed)),
            Err(error) => Err(error),
        }
    } else if alias_suffixed(address.as_str()) {
        Ok(Identifier::Alias(address))
    } else {
        Err(PipelineError::UnrecognizedIdentifierForm)
    }
}

/// `<H160 as FromStr>::from_str` of ethers. Of a text that is `0x` and 40
/// hex digits it gives the 20 bytes that the digits spell, each byte from
/// two digits, the high half first. Nothing is claimed of other texts.
#[verifier::external_body]
fn h160_from_str(text: &str) -> (bytes: Option<[u8; 20]>)
    ensures
        well_formed_address(text@) ==> bytes is Some && bytes->0@ == address_bytes(text@),
{
    match H160::from_str(text) {
        Ok(hash) => Some(hash.0),
        Err(_) => None,
    }
}

/// `ToHex::encode_hex` of ethers' hex module, on an `H160`. It gives two
/// lower-case hex digits for each of the 20 bytes, the high half first,
/// and no prefix.
#[verifier::external_body]
fn h160_encode_hex(bytes: &[u8; 20]) -> (digits: String)
    ensures
        digits@ == lower_hex(bytes@),
{
    H160(*bytes).encode_hex::<String>()
}

/// The bytes of an address from its display form.
pub fn parse_address(text: &str) -> (bytes: Result<[u8; 20], PipelineError>)
    ensures
        well_formed_address(text@) ==> bytes is Ok && bytes->Ok_0@ == address_bytes(text@),
        !well_formed_address(text@) ==> bytes == Err::<[u8; 20], PipelineError>(
            PipelineError::InvalidAddressFormat,
        ),
{
    if !verify_address(text) {
        return Err(PipelineError::InvalidAddressFormat);
    }
    match h160_from_str(text) {
        Some(bytes) => Ok(bytes),
        None => unreached(),
    }
}

/// The display form of an address, in lower case.
pub fn format_address(bytes: &[u8; 20]) -> (text: String)
    ensures
        text@ == address_text(bytes@),
        well_formed_address(text@),
{
    let digits = h160_encode_hex(bytes);
    let mut text = "0x".to_owned();
    text.append(digits.as_str());
    proof {
        reveal_strlit("0x");
        assert("0x"@ =~= seq!['0', 'x']);
        lemma_address_text_well_formed(bytes@);
    }
    text
}

/// The lower-case digit of a number below 16 is a hex digit and stands for
/// that number.
pub proof fn lemma_lower_hex_digit(value: int)
    requires
        0 <= value < 16,
    ensures
        is_hex_digit(lower_hex_digit(value)),
        hex_digit_value(lower_hex_digit(value)) == value,
{
}

/// The display form of 20 bytes is a well-formed address.
pub proof fn lemma_address_text_well_formed(bytes: Seq<u8>)
    requires
        bytes.len() == 20,
    ensures
        well_formed_address(address_text(bytes)),
{
    let text = address_text(bytes);
    assert forall|i: int| 2 <= i < 42 implies is_hex_digit(#[trigger] text[i]) by {
        let k = i - 2;
        assert(text[i] == lower_hex(bytes)[k]);
        lemma_lower_hex_digit(bytes[k / 2] as int / 16);
        lemma_lower_hex_digit(bytes[k / 2] as int % 16);
    }
}

/// Reading the display form of an address gives the address back.
pub proof fn lemma_address_round_trip(bytes: Seq<u8>)
    requires
        bytes.len() == 20,
    ensures
        address_bytes(address_text(bytes)) == bytes,
{
    let text = address_text(bytes);
    assert forall|i: int| 0 <= i < 20 implies address_bytes(text)[i] == bytes[i] by {
        assert(text[2 + 2 * i] == lower_hex(bytes)[2 * i]);
        assert(text[3 + 2 * i] == lower_hex(bytes)[2 * i + 1]);
        lemma_lower_hex_digit(bytes[i] as int / 16);
        lemma_lower_hex_digit(bytes[i] as int % 16);
    }
    assert(address_bytes(text) =~= bytes);
}

/// An identifier whose length is not 42 and that does not end with the
/// suffix of the name service is refused for its form.
pub proof fn lemma_wrong_length_refused(text: Seq<char>)
    requires
        text.len() != 42,
        !has_alias_suffix(text),
    ensures
        classification(text) is Err,
        classification(text)->Err_0.spec_class() == ErrorClass::InputFormat,
{
}

/// A text of 42 characters that is `0x` and 40 hex digits is told to be an
/// address.
pub proof fn lemma_hex_address_accepted(text: Seq<char>)
    requires
        text.len() == 42,
        text[0] == '0',
        text[1] == 'x',
        forall|i: int| 2 <= i < 42 ==> is_hex_digit(#[trigger] text[i]),
    ensures
        classification(text) == Ok::<IdentifierKind, PipelineError>(IdentifierKind::RawAddress),
{
}

} // verus!
