//! Validated scalars and the two entity records. Each value object can only
//! be built through a parse function that enforces its invariant, so every
//! live instance satisfies that invariant by construction.

use vstd::prelude::*;

use crate::text::{
    digit_val, digits_val, is_digit, is_digits, lemma_digits_val_nonneg, parse_u64_digits,
};

verus! {

/// Why a piece of raw input was rejected at the boundary.
#[derive(Debug, PartialEq, Eq, Structural, Clone, Copy)]
pub enum ParseError {
    /// The input was empty where content is required.
    Empty,
    /// A name was longer than the thirty characters allowed.
    TooLong,
    /// A password was shorter than the eight characters required.
    TooShort,
    /// The input did not denote a number this machine can hold.
    NotANumber,
    /// A price or count was zero or below, where only positive values live.
    NotPositive,
}

/// Why a commercial operation failed. Validation failures never reach these:
/// malformed input is rejected at the boundary by the parse functions.
#[derive(Debug, PartialEq, Eq, Structural, Clone, Copy)]
pub enum VendingError {
    /// No product carries the requested identity.
    ProductNotFound,
    /// The purchase would not leave a positive remainder in stock.
    InsufficientStock,
    /// The total price would not fit the machine's counters.
    PriceOverflow,
    /// The payment device failed while money was moving.
    PaymentFailed,
}

/// A product or account name: between one and thirty characters.
#[derive(Debug)]
pub struct Name(String);

impl Name {
    #[verifier::type_invariant]
    pub open spec fn inv(self) -> bool {
        1 <= self@.len() <= 30
    }

    /// Accepts any text of one to thirty characters and keeps it verbatim.
    pub fn parse(value: &str) -> (r: Result<Self, ParseError>)
        ensures
            match r {
                Ok(n) => 1 <= value@.len() <= 30 && n@ == value@,
                Err(ParseError::Empty) => value@.len() == 0,
                Err(ParseError::TooLong) => value@.len() > 30,
                Err(_) => false,
            },
    {
        let n = value.unicode_len();
        if n == 0 {
            return Err(ParseError::Empty);
        }
        if n > 30 {
            return Err(ParseError::TooLong);
        }
        Ok(Name(value.to_owned()))
    }

    /// The text this name was parsed from.
    pub fn as_str(&self) -> (r: &str)
        ensures
            r@ == self@,
    {
        self.0.as_str()
    }
}

impl View for Name {
    type V = Seq<char>;

    closed spec fn view(&self) -> Seq<char> {
        self.0@
    }
}

impl Clone for Name {
    fn clone(&self) -> (r: Self)
        ensures
            r == self,
    {
        proof {
            use_type_invariant(self);
        }
        Name(self.0.clone())
    }
}

/// A login password: at least eight characters, held only for the duration
/// of the login call.
#[derive(Debug)]
pub struct Password(String);

impl Password {
    #[verifier::type_invariant]
    pub open spec fn inv(self) -> bool {
        self@.len() >= 8
    }

    /// Accepts any text of at least eight characters.
    pub fn parse(value: &str) -> (r: Result<Self, ParseError>)
        ensures
            match r {
                Ok(p) => value@.len() >= 8 && p@ == value@,
                Err(ParseError::Empty) => value@.len() == 0,
                Err(ParseError::TooShort) => 1 <= value@.len() < 8,
                Err(_) => false,
            },
    {
        let n = value.unicode_len();
        if n == 0 {
            return Err(ParseError::Empty);
        }
        if n < 8 {
            return Err(ParseError::TooShort);
        }
        Ok(Password(value.to_owned()))
    }

    /// The text this password was parsed from.
    pub fn as_str(&self) -> (r: &str)
        ensures
            r@ == self@,
    {
        self.0.as_str()
    }
}

impl View for Password {
    type V = Seq<char>;

    closed spec fn view(&self) -> Seq<char> {
        self.0@
    }
}

/// A positive amount of currency, counted in hundredths of the unit, so
/// that totals and refunds are exact.
#[derive(Debug, Clone, Copy)]
pub struct Price(u64);

/// True when `s` is `whole '.' fraction` split at position `i`, with a whole
/// part of at least one digit and a fraction of one or two digits.
pub open spec fn price_split_at(s: Seq<char>, i: int) -> bool {
    &&& 0 <= i < s.len()
    &&& s[i] == '.'
    &&& is_digits(s.take(i))
    &&& is_fraction(s.skip(i + 1))
}

/// True when `s` is one or two decimal digits: a fraction of a currency unit.
pub open spec fn is_fraction(s: Seq<char>) -> bool {
    (s.len() == 1 || s.len() == 2) && forall|i: int| 0 <= i < s.len() ==> is_digit(#[trigger] s[i])
}

/// The hundredths denoted by a fraction: one digit counts tenths.
pub open spec fn fraction_cents(s: Seq<char>) -> int {
    if s.len() == 1 {
        digit_val(s[0]) * 10
    } else {
        digit_val(s[0]) * 10 + digit_val(s[1])
    }
}

/// True when `s` denotes an amount of currency: a digit string, optionally
/// followed by a dot and a one- or two-digit fraction.
pub open spec fn is_price_text(s: Seq<char>) -> bool {
    is_digits(s) || exists|i: int| price_split_at(s, i)
}

/// The hundredths of a unit denoted by a well-formed amount of currency.
pub open spec fn price_cents(s: Seq<char>) -> int {
    if is_digits(s) {
        digits_val(s) * 100
    } else {
        let i = choose|i: int| price_split_at(s, i);
        digits_val(s.take(i)) * 100 + fraction_cents(s.skip(i + 1))
    }
}

/// A price text splits at only one position: the digit parts leave room for
/// exactly one dot, so `price_cents` is well defined.
pub proof fn lemma_price_split_unique(s: Seq<char>, i: int, j: int)
    requires
        price_split_at(s, i),
        price_split_at(s, j),
    ensures
        i == j,
{
    if i < j {
        assert(s.take(j)[i] == s[i]);
        assert(is_digit(s[i]));
    }
    if j < i {
        assert(s.take(i)[j] == s[j]);
        assert(is_digit(s[j]));
    }
}

impl Price {
    #[verifier::type_invariant]
    pub open spec fn inv(self) -> bool {
        self@ >= 1
    }

    /// Accepts a positive amount written as digits with an optional one- or
    /// two-digit fraction, such as `3`, `1.5` or `1.50`.
    pub fn parse(value: &str) -> (r: Result<Self, ParseError>)
        ensures
            match r {
                Ok(p) => is_price_text(value@) && 1 <= price_cents(value@) <= u64::MAX && p@
                    == price_cents(value@),
                Err(ParseError::NotANumber) => !is_price_text(value@) || price_cents(value@)
                    > u64::MAX,
                Err(ParseError::NotPositive) => is_price_text(value@) && price_cents(value@) == 0,
                Err(_) => false,
            },
    {
        let n = value.unicode_len();
        let mut dot: usize = 0;
        let mut has_dot = false;
        let mut i: usize = 0;
        while i < n
            invariant
                0 <= i <= n,
                n == value@.len(),
                !has_dot ==> forall|j: int| 0 <= j < i ==> value@[j] != '.',
                has_dot ==> dot < i && value@[dot as int] == '.' && forall|j: int|
                    0 <= j < dot ==> value@[j] != '.',
            decreases n - i,
        {
            if !has_dot && value.get_char(i) == '.' {
                dot = i;
                has_dot = true;
            }
            i = i + 1;
        }
        if !has_dot {
            proof {
                assert(forall|k: int| price_split_at(value@, k) ==> is_digit(value@[k]));
            }
            match parse_u64_digits(value) {
                Some(v) => {
                    proof {
                        lemma_digits_val_nonneg(value@);
                    }
                    match v.checked_mul(100) {
                        Some(cents) => {
                            if cents == 0 {
                                Err(ParseError::NotPositive)
                            } else {
                                Ok(Price(cents))
                            }
                        },
                        None => Err(ParseError::NotANumber),
                    }
                },
                None => Err(ParseError::NotANumber),
            }
        } else {
            proof {
                if exists|k: int| price_split_at(value@, k) {
                    let k = choose|k: int| price_split_at(value@, k);
                    lemma_price_split_only_dot(value@, dot as int, k);
                }
                assert(!is_digits(value@));
            }
            let whole = value.substring_char(0, dot);
            let frac = value.substring_char(dot + 1, n);
            let frac_len = n - dot - 1;
            if frac_len != 1 && frac_len != 2 {
                proof {
                    assert(frac@.len() == frac_len);
                }
                return Err(ParseError::NotANumber);
            }
            let d0 = frac.get_char(0);
            if d0 < '0' || d0 > '9' {
                return Err(ParseError::NotANumber);
            }
            let mut f: u64 = ((d0 as u32 as u64) - ('0' as u32 as u64)) * 10;
            if frac_len == 2 {
                let d1 = frac.get_char(1);
                if d1 < '0' || d1 > '9' {
                    return Err(ParseError::NotANumber);
                }
                f = f + ((d1 as u32 as u64) - ('0' as u32 as u64));
            }
            proof {
                assert(is_fraction(frac@));
                assert(f == fraction_cents(frac@));
            }
            match parse_u64_digits(whole) {
                Some(v) => {
                    proof {
                        assert(price_split_at(value@, dot as int));
                        lemma_digits_val_nonneg(whole@);
                    }
                    match v.checked_mul(100) {
                        Some(base) => match base.checked_add(f) {
                            Some(cents) => {
                                if cents == 0 {
                                    Err(ParseError::NotPositive)
                                } else {
                                    Ok(Price(cents))
                                }
                            },
                            None => Err(ParseError::NotANumber),
                        },
                        None => Err(ParseError::NotANumber),
                    }
                },
                None => {
                    proof {
                        assert(forall|k: int|
                            price_split_at(value@, k) ==> k == dot as int) by {
                            assert forall|k: int| price_split_at(value@, k) implies k
                                == dot as int by {
                                lemma_price_split_only_dot(value@, dot as int, k);
                            }
                        }
                    }
                    Err(ParseError::NotANumber)
                },
            }
        }
    }

    /// Builds a price from a computed number of hundredths, as when a total
    /// or a refund is derived from other prices.
    pub fn from_cents(value: u64) -> (r: Result<Self, ParseError>)
        ensures
            match r {
                Ok(p) => value >= 1 && p@ == value,
                Err(ParseError::NotPositive) => value == 0,
                Err(_) => false,
            },
    {
        if value == 0 {
            return Err(ParseError::NotPositive);
        }
        Ok(Price(value))
    }

    /// The amount in hundredths of the currency unit.
    pub fn as_value(&self) -> (r: u64)
        ensures
            r == self@,
    {
        self.0
    }
}

/// Splits of a price text can only sit on its first dot.
proof fn lemma_price_split_only_dot(s: Seq<char>, dot: int, k: int)
    requires
        0 <= dot < s.len(),
        s[dot] == '.',
        forall|j: int| 0 <= j < dot ==> s[j] != '.',
        price_split_at(s, k),
    ensures
        k == dot,
{
    if k < dot {
        assert(s[k] == '.');
    }
    if k > dot {
        assert(s.take(k)[dot] == s[dot]);
        assert(is_digit(s[dot]));
    }
}

impl View for Price {
    type V = u64;

    closed spec fn view(&self) -> u64 {
        self.0
    }
}

/// A validated positive count, used for product identities and quantities.
#[derive(Debug, Clone, Copy)]
pub struct Value(u32);

impl Value {
    #[verifier::type_invariant]
    pub open spec fn inv(self) -> bool {
        self@ >= 1
    }

    /// Accepts a digit string denoting a positive count that fits the
    /// machine's counters.
    pub fn parse(value: &str) -> (r: Result<Self, ParseError>)
        ensures
            match r {
                Ok(v) => is_digits(value@) && 1 <= digits_val(value@) <= u32::MAX && v@
                    == digits_val(value@),
                Err(ParseError::NotANumber) => !is_digits(value@) || digits_val(value@)
                    > u32::MAX,
                Err(ParseError::NotPositive) => is_digits(value@) && digits_val(value@) == 0,
                Err(_) => false,
            },
    {
        match parse_u64_digits(value) {
            Some(v) => {
                if v == 0 {
                    Err(ParseError::NotPositive)
                } else if v > u32::MAX as u64 {
                    Err(ParseError::NotANumber)
                } else {
                    Ok(Value(v as u32))
                }
            },
            None => Err(ParseError::NotANumber),
        }
    }

    /// Accepts a signed count, rejecting zero and below; this is how a
    /// computed remainder is checked before it is stored.
    pub fn parse_i32(value: i32) -> (r: Result<Self, ParseError>)
        ensures
            match r {
                Ok(v) => value >= 1 && v@ == value,
                Err(ParseError::NotPositive) => value <= 0,
                Err(_) => false,
            },
    {
        if value <= 0 {
            return Err(ParseError::NotPositive);
        }
        Ok(Value(value as u32))
    }

    /// Accepts an unsigned count, rejecting zero.
    pub fn parse_u32(value: u32) -> (r: Result<Self, ParseError>)
        ensures
            match r {
                Ok(v) => value >= 1 && v@ == value,
                Err(ParseError::NotPositive) => value == 0,
                Err(_) => false,
            },
    {
        if value == 0 {
            return Err(ParseError::NotPositive);
        }
        Ok(Value(value))
    }

    /// The number this value stands for.
    pub fn as_value(&self) -> (r: u32)
        ensures
            r == self@,
    {
        self.0
    }
}

impl View for Value {
    type V = u32;

    closed spec fn view(&self) -> u32 {
        self.0
    }
}

/// What a product looks like in contracts: its fields as plain values.
pub ghost struct ProductModel {
    pub id: u32,
    pub name: Seq<char>,
    pub price: u64,
    pub quantity: u32,
}

/// A listed product: identity, name, unit price and quantity in stock.
#[derive(Debug)]
pub struct Product {
    pub column_id: Value,
    pub name: Name,
    pub price: Price,
    pub quantity: Value,
}

impl View for Product {
    type V = ProductModel;

    open spec fn view(&self) -> ProductModel {
        ProductModel {
            id: self.column_id@,
            name: self.name@,
            price: self.price@,
            quantity: self.quantity@,
        }
    }
}

impl Clone for Product {
    fn clone(&self) -> (r: Self)
        ensures
            r@ == self@,
    {
        Product {
            column_id: self.column_id,
            name: self.name.clone(),
            price: self.price,
            quantity: self.quantity,
        }
    }
}

/// What a sale looks like in contracts.
pub ghost struct SaleModel {
    pub date: i64,
    pub product_name: Seq<char>,
    pub price: u64,
}

/// An immutable record of one completed purchase: when it happened, which
/// product by name, and the price actually charged.
#[derive(Debug)]
pub struct Sale {
    pub date: i64,
    pub product_name: Name,
    pub price: Price,
}

impl View for Sale {
    type V = SaleModel;

    open spec fn view(&self) -> SaleModel {
        SaleModel { date: self.date, product_name: self.product_name@, price: self.price@ }
    }
}

impl Clone for Sale {
    fn clone(&self) -> (r: Self)
        ensures
            r@ == self@,
    {
        Sale { date: self.date, product_name: self.product_name.clone(), price: self.price }
    }
}

} // verus!
