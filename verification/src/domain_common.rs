//! Vocabulary shared by every service: identifiers, money and the base error.

use vstd::prelude::*;
use vstd::utf8::*;

use crate::digest::utf8_lossy;
use crate::ids::{fresh_id, id_text};
use crate::text::{chars_of, join, uuid_text};

pub use crate::time::{Clock, SystemClock};

verus! {

/// A refusal of a domain value.
#[derive(Debug, PartialEq, Eq)]
pub enum DomainError {
    InvalidCurrency(String),
}

impl DomainError {
    /// The error in words.
    pub fn message(&self) -> (r: String)
        ensures
            r@ == "invalid currency code: "@ + self->InvalidCurrency_0@,
    {
        match self {
            DomainError::InvalidCurrency(code) => join("invalid currency code: ", code.as_str()),
        }
    }
}

/// How a failure can be met.
#[derive(Debug, Clone, Copy, PartialEq, Eq, Structural)]
pub enum ErrorClass {
    /// By another attempt.
    Transient,
}

/// Three letters from `A` to `Z`.
pub open spec fn is_currency_code(code: Seq<char>) -> bool {
    &&& code.len() == 3
    &&& forall|i: int| 0 <= i < 3 ==> 'A' <= #[trigger] code[i] <= 'Z'
}

/// Whether `code` is three letters from `A` to `Z`.
pub fn currency_code_shaped(code: &str) -> (r: bool)
    ensures
        r == is_currency_code(code@),
{
    let letters: Vec<char> = chars_of(code);
    if letters.len() != 3 {
        return false;
    }
    let mut i: usize = 0;
    while i < 3
        invariant
            letters@ == code@,
            letters.len() == 3,
            i <= 3,
            forall|j: int| 0 <= j < i ==> 'A' <= #[trigger] code@[j] <= 'Z',
        decreases 3 - i,
    {
        if letters[i] < 'A' || letters[i] > 'Z' {
            assert(!('A' <= code@[i as int] <= 'Z'));
            return false;
        }
        i = i + 1;
    }
    true
}

/// An upper-case ISO-4217-shaped currency code; only the shape is checked.
#[derive(Debug, Clone, Copy, PartialEq, Eq, Structural)]
pub struct Currency {
    first: u8,
    second: u8,
    third: u8,
}

/// A letter from `A` to `Z` by its code.
spec fn is_letter(code: u8) -> bool {
    65 <= code <= 90
}

impl Currency {
    /// The three letters.
    pub closed spec fn code(self) -> Seq<char> {
        seq![self.first as char, self.second as char, self.third as char]
    }

    /// Every currency holds three letters.
    pub closed spec fn valid(self) -> bool {
        is_letter(self.first) && is_letter(self.second) && is_letter(self.third)
    }

    /// Reads a currency code: three letters from `A` to `Z` and nothing else.
    pub fn parse(code: &str) -> (r: Result<Currency, DomainError>)
        ensures
            r is Ok <==> is_currency_code(code@),
            r matches Ok(currency) ==> currency.valid() && currency.code() == code@,
            r matches Err(e) ==> e->InvalidCurrency_0@ == code@,
    {
        if !currency_code_shaped(code) {
            return Err(DomainError::InvalidCurrency(code.to_owned()));
        }
        let letters: Vec<char> = chars_of(code);
        assert('A' <= code@[0] <= 'Z' && 'A' <= code@[1] <= 'Z' && 'A' <= code@[2] <= 'Z');
        let currency = Currency {
            first: letters[0] as u8,
            second: letters[1] as u8,
            third: letters[2] as u8,
        };
        assert(currency.code() =~= code@);
        Ok(currency)
    }

    /// The code as text.
    pub fn text(&self) -> (r: String)
        requires
            self.valid(),
        ensures
            r@ == self.code(),
    {
        let mut bytes: Vec<u8> = Vec::new();
        bytes.push(self.first);
        bytes.push(self.second);
        bytes.push(self.third);
        proof {
            let code = self.code();
            assert(is_ascii_chars(code));
            is_ascii_chars_encode_utf8(code);
            encode_utf8_valid_utf8(code);
            encode_utf8_decode_utf8(code);
            assert(bytes@ =~= encode_utf8(code));
        }
        utf8_lossy(bytes.as_slice())
    }
}

/// A currency is its code: two with the same letters are one and the same.
pub proof fn currencies_are_their_codes(a: Currency, b: Currency)
    requires
        a.valid(),
        b.valid(),
        a.code() == b.code(),
    ensures
        a == b,
{
    assert(a.code()[0] == b.code()[0]);
    assert(a.code()[1] == b.code()[1]);
    assert(a.code()[2] == b.code()[2]);
}

/// What a currency prints is the code of a currency, so that it can be read
/// back.
pub proof fn currencies_print_their_codes(currency: Currency)
    requires
        currency.valid(),
    ensures
        is_currency_code(currency.code()),
{
}

/// An amount in integer minor units of a currency.
#[derive(Debug, Clone, Copy, PartialEq, Eq, Structural)]
pub struct Money {
    pub currency: Currency,
    pub minor_units: i64,
}

/// The identifier of an order.
#[derive(Debug, Clone, Copy, PartialEq, Eq, Hash, Structural)]
pub struct OrderId(pub u128);

/// The identifier of an event.
#[derive(Debug, Clone, Copy, PartialEq, Eq, Hash, Structural)]
pub struct EventId(pub u128);

/// The identifier that joins the messages of one journey.
#[derive(Debug, Clone, Copy, PartialEq, Eq, Hash, Structural)]
pub struct CorrelationId(pub u128);

/// The version field of an identifier reads 7 and its variant bits read
/// binary 10.
pub open spec fn is_version_7(id: u128) -> bool {
    (id >> 76) & 0xf == 7 && (id >> 62) & 0x3 == 2
}

impl OrderId {
    /// A fresh identifier.
    pub fn new_v7() -> (r: OrderId)
        ensures
            is_version_7(r.0),
    {
        OrderId(fresh_id())
    }

    /// The hyphenated form.
    pub fn text(&self) -> (r: String)
        ensures
            r@ == uuid_text(self.0),
    {
        id_text(self.0)
    }
}

impl EventId {
    /// A fresh identifier.
    pub fn new_v7() -> (r: EventId)
        ensures
            is_version_7(r.0),
    {
        EventId(fresh_id())
    }

    /// The hyphenated form.
    pub fn text(&self) -> (r: String)
        ensures
            r@ == uuid_text(self.0),
    {
        id_text(self.0)
    }
}

impl CorrelationId {
    /// A fresh identifier.
    pub fn new_v7() -> (r: CorrelationId)
        ensures
            is_version_7(r.0),
    {
        CorrelationId(fresh_id())
    }

    /// The hyphenated form.
    pub fn text(&self) -> (r: String)
        ensures
            r@ == uuid_text(self.0),
    {
        id_text(self.0)
    }
}

/// An identifier of version 7 has a 7 for its thirteenth hexadecimal digit,
/// and the two highest bits of the seventeenth are one and zero.
pub proof fn version_7_is_written_in_the_identifier(id: u128)
    ensures
        is_version_7(id) <==> (id / 75_557_863_725_914_323_419_136) % 16 == 7 && (id
            / 4_611_686_018_427_387_904) % 4 == 2,
{
    assert((id >> 76u128) & 0xf == (id / 75_557_863_725_914_323_419_136) % 16) by (bit_vector);
    assert((id >> 62u128) & 0x3 == (id / 4_611_686_018_427_387_904) % 4) by (bit_vector);
}

/// A currency is read exactly from three letters from `A` to `Z`, and is then
/// those letters; any other text is named in the refusal.
pub proof fn currencies_are_three_capital_letters(code: &str, r: Result<Currency, DomainError>)
    requires
        call_ensures(Currency::parse, (code,), r),
    ensures
        r is Ok <==> code@.len() == 3 && forall|i: int|
            0 <= i < 3 ==> 65 <= #[trigger] code@[i] as int <= 90,
        r is Ok ==> r->Ok_0.code() == code@,
        r is Err ==> r->Err_0->InvalidCurrency_0@ == code@,
{
    if r is Ok {
        assert forall|i: int| 0 <= i < 3 implies 65 <= #[trigger] code@[i] as int <= 90 by {
            assert('A' <= code@[i] <= 'Z');
        }
    }
}

}
