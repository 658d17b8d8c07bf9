use vstd::prelude::*;

use crate::error::{Error, ErrorKind};

verus! {

/// The fixed country-code prefix applied to every validated number.
pub open spec fn spec_country_prefix() -> Seq<char> {
    "+91"@
}

/// A decimal digit.
pub open spec fn is_digit(c: char) -> bool {
    '0' <= c && c <= '9'
}

/// A raw string is a well-formed mobile number: exactly ten digits, the
/// first of them 6, 7, 8 or 9.
pub open spec fn is_valid_mobile(s: Seq<char>) -> bool {
    &&& s.len() == 10
    &&& '6' <= s[0] && s[0] <= '9'
    &&& forall|i: int| 0 <= i < 10 ==> is_digit(#[trigger] s[i])
}

/// A validated mobile number, stored with the country-code prefix already
/// applied. Constructed only through `from_str`, so an unvalidated string
/// can never flow into request construction.
#[derive(Debug, Clone, PartialEq, Eq)]
pub struct MobileNumber(String);

impl View for MobileNumber {
    type V = Seq<char>;

    closed spec fn view(&self) -> Seq<char> {
        self.0@
    }
}

impl MobileNumber {
    /// Parse a raw string into a validated number. Succeeds exactly on
    /// well-formed ten-digit inputs, and stores the input with the country
    /// prefix in front of it.
    pub fn from_str(s: &str) -> (r: Result<MobileNumber, Error>)
        ensures
            is_valid_mobile(s@) <==> r is Ok,
            r matches Ok(m) ==> m@ == spec_country_prefix() + s@,
            r matches Err(e) ==> e.kind == ErrorKind::InvalidData && e.message@
                == "Invalid mobile number"@,
    {
        let len = s.unicode_len();
        if len != 10 {
            return Err(Error::new("Invalid mobile number", ErrorKind::InvalidData));
        }
        let first = s.get_char(0);
        if !('6' <= first && first <= '9') {
            return Err(Error::new("Invalid mobile number", ErrorKind::InvalidData));
        }
        let mut i: usize = 0;
        while i < 10
            invariant
                s@.len() == 10,
                i <= 10,
                forall|j: int| 0 <= j < i ==> is_digit(#[trigger] s@[j]),
            decreases 10 - i,
        {
            let c = s.get_char(i);
            if !('0' <= c && c <= '9') {
                return Err(Error::new("Invalid mobile number", ErrorKind::InvalidData));
            }
            i += 1;
        }
        let mut out = String::from_str("+91");
        out.append(s);
        Ok(MobileNumber(out))
    }

    /// The stored string form, country prefix included.
    pub fn to_string(&self) -> (r: String)
        ensures
            r@ == self@,
    {
        self.0.clone()
    }
}

/// Law: converting a validated mobile number back to a string yields the
/// country-code prefix followed by the original ten digits, unchanged.
pub proof fn lemma_mobile_round_trip(raw: Seq<char>, m: MobileNumber)
    requires
        is_valid_mobile(raw),
        m@ == spec_country_prefix() + raw,
    ensures
        m@.len() == 13,
        m@.subrange(0, 3) == spec_country_prefix(),
        m@.subrange(3, 13) == raw,
{
    reveal_strlit("+91");
    assert(m@.subrange(0, 3) =~= spec_country_prefix());
    assert(m@.subrange(3, 13) =~= raw);
}

} // verus!
