//! Philippine mobile phone numbers, as payers give them with a payment.

use vstd::prelude::*;
use vstd::string::*;
use vstd::utf8::encode_utf8;
use crate::text::{byte_len, char_is_digit, chars_of, decimal_text, is_digit, lemma_ascii_one_byte, lemma_encode_concat, push_decimal};

verus! {

broadcast use vstd::string::group_string_axioms;

/// Number of bytes of a phone number once its country code is replaced
/// by the trunk prefix `0`.
pub const PH_PHONE_NUMBER_LEN: usize = 11;

/// `s` starts with the country calling code `+63`.
pub open spec fn has_country_code(s: Seq<char>) -> bool {
    s.len() >= 3 && s[0] == '+' && s[1] == '6' && s[2] == '3'
}

/// `s` with a leading `+63` replaced by `0`: `+639123456789` becomes `09123456789`.
pub open spec fn normalize_ph(s: Seq<char>) -> Seq<char> {
    if has_country_code(s) {
        seq!['0'] + s.skip(3)
    } else {
        s
    }
}

/// Every character of `s` is an ASCII digit.
pub open spec fn all_digits(s: Seq<char>) -> bool {
    forall|i: int| 0 <= i < s.len() ==> is_digit(#[trigger] s[i])
}

/// `i` is the position of the first character of `s` that is not an ASCII digit.
pub open spec fn is_first_non_digit(s: Seq<char>, i: int) -> bool {
    &&& 0 <= i < s.len()
    &&& !is_digit(s[i])
    &&& forall|j: int| 0 <= j < i ==> is_digit(#[trigger] s[j])
}

/// What parsing `s` as a phone number gives: the normalized number, or
/// the offset that `InvalidPHPhoneNumber` reports. A normalized number
/// whose length in bytes is not 11 reports that length; otherwise the
/// 1-based position of its first character that is not a digit.
pub open spec fn spec_parse_ph(s: Seq<char>) -> Result<Seq<char>, int> {
    let n = normalize_ph(s);
    if byte_len(n) != 11 {
        Err(byte_len(n) as int)
    } else if all_digits(n) {
        Ok(n)
    } else {
        Err((choose|i: int| is_first_non_digit(n, i)) + 1)
    }
}

/// A Philippine phone number: eleven ASCII digits.
#[derive(Debug, PartialEq, Eq, Hash)]
pub struct PHPhoneNumber(String);

impl Clone for PHPhoneNumber {
    fn clone(&self) -> (r: Self)
        ensures
            r@ == self@,
    {
        proof {
            use_type_invariant(self);
        }
        PHPhoneNumber(self.0.clone())
    }
}

/// Why a text is not a phone number: the offset it reports is either the
/// length in bytes of the normalized text or the 1-based position of its
/// first character that is not a digit.
#[derive(Clone, Copy, Debug, PartialEq, Eq)]
pub struct InvalidPHPhoneNumber(usize);

impl InvalidPHPhoneNumber {
    /// The offset reported.
    pub closed spec fn spec_offset(self) -> usize {
        self.0
    }

    /// The offset reported.
    pub fn offset(&self) -> (r: usize)
        ensures
            r == self.spec_offset(),
    {
        self.0
    }

    /// The error in words, with its offset.
    pub fn message(&self) -> (r: String)
        ensures
            r@ == "unexpected non-digit at offset "@ + decimal_text(self.spec_offset() as nat),
    {
        let mut r = "unexpected non-digit at offset ".to_owned();
        push_decimal(&mut r, self.0 as u64);
        r
    }
}

impl View for PHPhoneNumber {
    type V = Seq<char>;

    closed spec fn view(&self) -> Seq<char> {
        self.0@
    }
}

impl PHPhoneNumber {
    #[verifier::type_invariant]
    spec fn well_formed(self) -> bool {
        self.0@.len() == 11 && all_digits(self.0@)
    }

    /// The digits of the number.
    pub fn as_str(&self) -> (r: &str)
        ensures
            r@ == self@,
    {
        self.0.as_str()
    }

    /// Reads a phone number, dropping a leading `+63` in favour of `0`.
    pub fn parse(s: &str) -> (r: Result<PHPhoneNumber, InvalidPHPhoneNumber>)
        ensures
            match r {
                Ok(p) => spec_parse_ph(s@) == Ok::<Seq<char>, int>(p@),
                Err(e) => spec_parse_ph(s@) == Err::<Seq<char>, int>(e.spec_offset() as int),
            },
    {
        let chars = chars_of(s);
        let n: usize = chars.len();
        let prefixed: bool = n >= 3 && chars[0] == '+' && chars[1] == '6' && chars[2] == '3';
        let ghost norm = normalize_ph(s@);
        let total_bytes: usize = s.as_bytes().len();
        // Length in bytes of the normalized text.
        let len: usize;
        if prefixed {
            proof {
                let rest = s@.skip(3);
                assert(s@ =~= seq!['+'] + (seq!['6'] + (seq!['3'] + rest)));
                lemma_encode_concat(seq!['+'], seq!['6'] + (seq!['3'] + rest));
                lemma_encode_concat(seq!['6'], seq!['3'] + rest);
                lemma_encode_concat(seq!['3'], rest);
                lemma_encode_concat(seq!['0'], rest);
                lemma_ascii_one_byte('+');
                lemma_ascii_one_byte('6');
                lemma_ascii_one_byte('3');
                lemma_ascii_one_byte('0');
                assert(encode_utf8(s@).len() == 3 + byte_len(rest));
                assert(norm =~= seq!['0'] + rest);
                assert(byte_len(norm) == 1 + byte_len(rest));
            }
            len = total_bytes - 2;
        } else {
            len = total_bytes;
        }
        assert(len == byte_len(norm));
        if len != PH_PHONE_NUMBER_LEN {
            return Err(InvalidPHPhoneNumber(len));
        }
        // The normalized characters.
        let mut digits: Vec<char> = Vec::new();
        let mut k: usize;
        if prefixed {
            digits.push('0');
            k = 3;
        } else {
            k = 0;
        }
        while k < n
            invariant
                chars@ == s@,
                n == chars@.len(),
                prefixed == has_country_code(s@),
                prefixed ==> 3 <= k <= n && digits@ =~= seq!['0'] + s@.subrange(3, k as int),
                !prefixed ==> k <= n && digits@ =~= s@.subrange(0, k as int),
            decreases n - k,
        {
            digits.push(chars[k]);
            k = k + 1;
        }
        assert(digits@ =~= norm);
        let mut i: usize = 0;
        while i < digits.len()
            invariant
                digits@ == norm,
                norm == normalize_ph(s@),
                byte_len(norm) == 11,
                i <= digits@.len(),
                forall|j: int| 0 <= j < i ==> is_digit(#[trigger] norm[j]),
            decreases digits.len() - i,
        {
            if !char_is_digit(digits[i]) {
                proof {
                    assert(is_first_non_digit(norm, i as int));
                    assert(!is_digit(norm[i as int]));
                    assert(!all_digits(norm));
                    assert(byte_len(norm) == 11);
                    let c = choose|c: int| is_first_non_digit(norm, c);
                    assert(c == i) by {
                        if c < i {
                            assert(is_digit(norm[c]));
                        } else if c > i {
                            assert(is_digit(norm[i as int]));
                        }
                    }
                }
                // Offsets are 1-based; a non-digit makes the text longer than
                // its number of characters, so `i + 1` is at most 11.
                return Err(InvalidPHPhoneNumber(i + 1));
            }
            i = i + 1;
        }
        assert(all_digits(norm));
        proof {
            // Eleven bytes of ASCII digits are eleven characters.
            lemma_digits_byte_len(norm);
        }
        let text: String;
        if prefixed {
            let rest: &str = s.substring_char(3, n);
            proof {
                reveal_strlit("0");
            }
            let zero: String = "0".to_owned();
            text = zero.concat(rest);
            assert(text@ =~= norm);
        } else {
            text = s.to_owned();
        }
        Ok(PHPhoneNumber(text))
    }
}

/// A text of ASCII digits takes one byte per character.
pub proof fn lemma_digits_byte_len(s: Seq<char>)
    requires
        all_digits(s),
    ensures
        byte_len(s) == s.len(),
    decreases s.len(),
{
    if s.len() > 0 {
        let rest = s.drop_first();
        assert(s =~= seq![s[0]] + rest);
        assert(is_digit(s[0]));
        lemma_encode_concat(seq![s[0]], rest);
        lemma_ascii_one_byte(s[0]);
        assert forall|i: int| 0 <= i < rest.len() implies is_digit(#[trigger] rest[i]) by {
            assert(rest[i] == s[i + 1]);
        }
        lemma_digits_byte_len(rest);
    }
}

/// A number written with the country code `+63` reads as the same number
/// written with the trunk prefix `0`, or fails the same way.
pub proof fn law_country_code_reads_as_trunk_prefix(rest: Seq<char>)
    ensures
        spec_parse_ph("+63"@ + rest) == spec_parse_ph("0"@ + rest),
{
    reveal_strlit("+63");
    reveal_strlit("0");
    let a = "+63"@ + rest;
    let b = "0"@ + rest;
    assert(has_country_code(a));
    assert(a.skip(3) =~= rest);
    assert(!has_country_code(b));
    assert(normalize_ph(a) =~= b);
}

/// A number that was read reads again as itself.
pub proof fn law_parse_is_idempotent(s: Seq<char>)
    requires
        spec_parse_ph(s) is Ok,
    ensures
        spec_parse_ph(spec_parse_ph(s)->Ok_0) == spec_parse_ph(s),
{
    let n = normalize_ph(s);
    assert(all_digits(n));
    assert(n.len() > 0) by {
        if n.len() == 0 {
            assert(encode_utf8(n) =~= Seq::<u8>::empty());
        }
    }
    assert(is_digit(n[0]));
    assert(!has_country_code(n));
}

impl core::str::FromStr for PHPhoneNumber {
    type Err = InvalidPHPhoneNumber;

    /// Same as `parse`.
    fn from_str(s: &str) -> (r: Result<PHPhoneNumber, InvalidPHPhoneNumber>)
        ensures
            match r {
                Ok(v) => spec_parse_ph(s@) == Ok::<Seq<char>, int>(v@),
                Err(e) => spec_parse_ph(s@) == Err::<Seq<char>, int>(e.spec_offset() as int),
            },
    {
        PHPhoneNumber::parse(s)
    }
}

/// A text of ASCII digits reads as itself when it has eleven of them, and
/// is refused with its length otherwise.
pub proof fn law_digits_read_by_their_count(s: Seq<char>)
    requires
        all_digits(s),
    ensures
        s.len() == 11 ==> spec_parse_ph(s) == Ok::<Seq<char>, int>(s),
        s.len() != 11 ==> spec_parse_ph(s) == Err::<Seq<char>, int>(s.len() as int),
{
    lemma_digits_byte_len(s);
    if s.len() >= 1 {
        assert(is_digit(s[0]));
    }
}

/// A number that is read is eleven ASCII digits: the text itself, or the
/// text with its leading `+63` replaced by `0`.
pub proof fn law_read_number_is_eleven_digits(s: Seq<char>)
    ensures
        spec_parse_ph(s) matches Ok(n) ==> {
            &&& n.len() == 11
            &&& all_digits(n)
            &&& n == s || (has_country_code(s) && n == seq!['0'] + s.skip(3))
        },
{
    if spec_parse_ph(s) is Ok {
        lemma_digits_byte_len(normalize_ph(s));
    }
}

} // verus!
