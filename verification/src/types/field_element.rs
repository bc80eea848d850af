use vstd::prelude::*;

verus! {

/// The prime modulus of the field: 2^251 + 17 * 2^192 + 1.
pub open spec fn field_modulus() -> nat {
    0x800000000000011000000000000000000000000000000000000000000000001nat
}

/// 2^128, the weight of the high limb.
pub open spec fn limb_base() -> nat {
    0x1_0000_0000_0000_0000_0000_0000_0000_0000nat
}

/// The high limb of the modulus; its low limb is 1.
const MODULUS_HIGH: u128 = 0x0800_0000_0000_0011_0000_0000_0000_0000;

/// 2^64, half a limb.
const HALF_LIMB: u128 = 0x1_0000_0000_0000_0000;

/// Why a string is not the decimal form of a field element.
#[derive(Debug, Clone, Copy, PartialEq, Eq, Structural)]
pub enum FromStrError {
    /// Some character is not one of `0` to `9`.
    InvalidCharacter,
    /// The digits spell a number that is not below the modulus.
    OutOfRange,
}

/// An element of the field: an integer in `0 .. field_modulus()`.
///
/// The value is held in two 128-bit limbs and is always fully reduced, so
/// two elements are equal exactly when their values are.
#[derive(Debug, Clone, Copy, PartialEq, Eq, Hash, Structural)]
pub struct FieldElement {
    high: u128,
    low: u128,
}

impl View for FieldElement {
    type V = nat;

    /// The integer that the element stands for.
    closed spec fn view(&self) -> nat {
        self.high as nat * limb_base() + self.low as nat
    }
}

/// Whether `c` is one of the characters `0` to `9`.
pub open spec fn is_dec_digit(c: char) -> bool {
    '0' <= c && c <= '9'
}

/// The number that the digit `c` stands for.
pub open spec fn dec_digit(c: char) -> nat {
    (c as int - '0' as int) as nat
}

/// Whether every character of `s` is a decimal digit.
pub open spec fn all_dec_digits(s: Seq<char>) -> bool {
    forall|i: int| 0 <= i < s.len() ==> is_dec_digit(#[trigger] s[i])
}

/// The number that the digits of `s` spell, most significant first; zero for
/// the empty string.
pub open spec fn dec_value(s: Seq<char>) -> nat
    decreases s.len(),
{
    if s.len() == 0 {
        0
    } else {
        dec_value(s.drop_last()) * 10 + dec_digit(s.last())
    }
}

/// A string of digits spells at least what any of its prefixes spells.
proof fn lemma_dec_value_prefix(s: Seq<char>, i: int)
    requires
        0 <= i <= s.len(),
    ensures
        dec_value(s.take(i)) <= dec_value(s),
    decreases s.len(),
{
    if i == s.len() {
        assert(s.take(i) =~= s);
    } else {
        assert(s.drop_last().take(i) =~= s.take(i));
        lemma_dec_value_prefix(s.drop_last(), i);
    }
}

/// Ten times the two-limb number `high * 2^128 + low`, plus `digit`.
fn times_ten_plus(high: u128, low: u128, digit: u128) -> (r: (u128, u128))
    requires
        high <= MODULUS_HIGH,
        digit <= 9,
    ensures
        r.0 as nat * limb_base() + r.1 as nat == (high as nat * limb_base() + low as nat) * 10
            + digit as nat,
{
    let lo: u128 = low % HALF_LIMB;
    let hi: u128 = low / HALF_LIMB;
    let t0: u128 = lo * 10 + digit;
    let t1: u128 = hi * 10 + t0 / HALF_LIMB;
    let new_low: u128 = (t1 % HALF_LIMB) * HALF_LIMB + t0 % HALF_LIMB;
    let new_high: u128 = high * 10 + t1 / HALF_LIMB;
    (new_high, new_low)
}

impl FieldElement {
    #[verifier::type_invariant]
    spec fn reduced(self) -> bool {
        self@ < field_modulus()
    }

    /// The element whose value is `n`, for `n` below the modulus.
    pub closed spec fn from_nat(n: nat) -> FieldElement {
        FieldElement { high: (n / limb_base()) as u128, low: (n % limb_base()) as u128 }
    }

    /// `from_nat` builds the element of the value asked for.
    pub proof fn lemma_from_nat_value(n: nat)
        requires
            n < field_modulus(),
        ensures
            Self::from_nat(n)@ == n,
    {
    }

    /// An element is determined by its value.
    pub proof fn lemma_value_determines_element(a: FieldElement, b: FieldElement)
        requires
            a@ == b@,
        ensures
            a == b,
    {
    }

    /// Reads a field element from its decimal form.
    ///
    /// The string must consist of the digits `0` to `9` only (leading zeros
    /// are allowed, and the empty string stands for zero) and spell a
    /// number below the modulus.
    pub fn from_dec_str(value: &str) -> (r: Result<FieldElement, FromStrError>)
        ensures
            match r {
                Ok(felt) => all_dec_digits(value@) && dec_value(value@) < field_modulus()
                    && felt@ == dec_value(value@),
                Err(FromStrError::InvalidCharacter) => !all_dec_digits(value@),
                Err(FromStrError::OutOfRange) => all_dec_digits(value@) && dec_value(value@)
                    >= field_modulus(),
            },
    {
        if !value.is_ascii() {
            return Err(FromStrError::InvalidCharacter);
        }
        let bytes = value.as_bytes();
        let n = bytes.len();
        proof {
            vstd::string::is_ascii_spec_bytes(value);
        }
        let mut i: usize = 0;
        while i < n
            invariant
                i <= n,
                n == value@.len(),
                bytes@ == Seq::new(value@.len(), |k: int| value@[k] as u8),
                vstd::string::is_ascii(value),
                forall|k: int| 0 <= k < i ==> is_dec_digit(#[trigger] value@[k]),
            decreases n - i,
        {
            let b = bytes[i];
            if b < 48 || b > 57 {
                assert(!is_dec_digit(value@[i as int]));
                return Err(FromStrError::InvalidCharacter);
            }
            i += 1;
        }
        let mut high: u128 = 0;
        let mut low: u128 = 0;
        i = 0;
        assert(value@.take(0) =~= Seq::<char>::empty());
        while i < n
            invariant
                i <= n,
                n == value@.len(),
                bytes@ == Seq::new(value@.len(), |k: int| value@[k] as u8),
                all_dec_digits(value@),
                high as nat * limb_base() + low as nat == dec_value(value@.take(i as int)),
                dec_value(value@.take(i as int)) < field_modulus(),
            decreases n - i,
        {
            let b = bytes[i];
            assert(is_dec_digit(value@[i as int]));
            let digit: u128 = (b - 48) as u128;
            let (new_high, new_low) = times_ten_plus(high, low, digit);
            proof {
                let next = value@.take(i as int + 1);
                assert(next.drop_last() =~= value@.take(i as int));
                assert(next.last() == value@[i as int]);
                assert(dec_value(next) == dec_value(value@.take(i as int)) * 10 + digit as nat);
            }
            if !(new_high < MODULUS_HIGH || (new_high == MODULUS_HIGH && new_low == 0)) {
                proof {
                    lemma_dec_value_prefix(value@, i as int + 1);
                }
                return Err(FromStrError::OutOfRange);
            }
            high = new_high;
            low = new_low;
            i += 1;
        }
        assert(value@.take(n as int) =~= value@);
        Ok(FieldElement { high, low })
    }
}

impl From<u8> for FieldElement {
    /// The element with the value of an 8-bit unsigned integer, which is always
    /// below the modulus.
    fn from(value: u8) -> (r: FieldElement)
        ensures
            r@ == value as nat,
    {
        FieldElement { high: 0, low: value as u128 }
    }
}

impl vstd::std_specs::convert::FromSpecImpl<u8> for FieldElement {
    open spec fn obeys_from_spec() -> bool {
        true
    }

    open spec fn from_spec(value: u8) -> FieldElement {
        FieldElement::from_nat(value as nat)
    }
}

impl From<u16> for FieldElement {
    /// The element with the value of a 16-bit unsigned integer, which is always
    /// below the modulus.
    fn from(value: u16) -> (r: FieldElement)
        ensures
            r@ == value as nat,
    {
        FieldElement { high: 0, low: value as u128 }
    }
}

impl vstd::std_specs::convert::FromSpecImpl<u16> for FieldElement {
    open spec fn obeys_from_spec() -> bool {
        true
    }

    open spec fn from_spec(value: u16) -> FieldElement {
        FieldElement::from_nat(value as nat)
    }
}

impl From<u32> for FieldElement {
    /// The element with the value of a 32-bit unsigned integer, which is always
    /// below the modulus.
    fn from(value: u32) -> (r: FieldElement)
        ensures
            r@ == value as nat,
    {
        FieldElement { high: 0, low: value as u128 }
    }
}

impl vstd::std_specs::convert::FromSpecImpl<u32> for FieldElement {
    open spec fn obeys_from_spec() -> bool {
        true
    }

    open spec fn from_spec(value: u32) -> FieldElement {
        FieldElement::from_nat(value as nat)
    }
}

impl From<u64> for FieldElement {
    /// The element with the value of a 64-bit unsigned integer, which is always
    /// below the modulus.
    fn from(value: u64) -> (r: FieldElement)
        ensures
            r@ == value as nat,
    {
        FieldElement { high: 0, low: value as u128 }
    }
}

impl vstd::std_specs::convert::FromSpecImpl<u64> for FieldElement {
    open spec fn obeys_from_spec() -> bool {
        true
    }

    open spec fn from_spec(value: u64) -> FieldElement {
        FieldElement::from_nat(value as nat)
    }
}

impl From<u128> for FieldElement {
    /// The element with the value of a 128-bit unsigned integer, which is always
    /// below the modulus.
    fn from(value: u128) -> (r: FieldElement)
        ensures
            r@ == value as nat,
    {
        FieldElement { high: 0, low: value }
    }
}

impl vstd::std_specs::convert::FromSpecImpl<u128> for FieldElement {
    open spec fn obeys_from_spec() -> bool {
        true
    }

    open spec fn from_spec(value: u128) -> FieldElement {
        FieldElement::from_nat(value as nat)
    }
}

impl core::str::FromStr for FieldElement {
    type Err = FromStrError;

    /// Reads a field element from its decimal form, as `from_dec_str` does.
    fn from_str(s: &str) -> (r: Result<FieldElement, FromStrError>)
        ensures
            match r {
                Ok(felt) => all_dec_digits(s@) && dec_value(s@) < field_modulus() && felt@
                    == dec_value(s@),
                Err(FromStrError::InvalidCharacter) => !all_dec_digits(s@),
                Err(FromStrError::OutOfRange) => all_dec_digits(s@) && dec_value(s@)
                    >= field_modulus(),
            },
    {
        FieldElement::from_dec_str(s)
    }
}

} // verus!
