//! Reference numbers of Mynt (GCash) payments.

use vstd::prelude::*;
use crate::text::{char_is_digit, chars_of, decimal_text, is_digit, push_char, push_decimal};

verus! {

/// Reference numbers have fewer digits than this.
pub const MYNT_REF_MAX_CHARS: usize = 50;

/// Why a text is not a Mynt reference number.
#[derive(Clone, Copy, Debug, PartialEq, Eq)]
pub enum InvalidMyntRefNumber {
    /// A character other than a digit or a space, at this 1-based position.
    UnexpectedNonDigit(usize),
    /// A second space in a row, at this 1-based position.
    TooManySpaces(usize),
    /// The text holds 50 digits or more.
    TooManyCharacters,
}

impl InvalidMyntRefNumber {
    /// The 1-based position of the offending character, if there is one.
    pub fn offset(&self) -> (r: Option<usize>)
        ensures
            r == match *self {
                InvalidMyntRefNumber::UnexpectedNonDigit(n) => Some(n),
                InvalidMyntRefNumber::TooManySpaces(n) => Some(n),
                InvalidMyntRefNumber::TooManyCharacters => None::<usize>,
            },
    {
        match self {
            InvalidMyntRefNumber::UnexpectedNonDigit(n) => Some(*n),
            InvalidMyntRefNumber::TooManySpaces(n) => Some(*n),
            InvalidMyntRefNumber::TooManyCharacters => None,
        }
    }
}

impl InvalidMyntRefNumber {
    /// The error in words, with its offset where it has one.
    pub fn message(&self) -> (r: String)
        ensures
            r@ == (match *self {
                InvalidMyntRefNumber::UnexpectedNonDigit(n) => "unexpected non-digit from offset "@
                    + decimal_text(n as nat) + " when parsing Mynt reference number"@,
                InvalidMyntRefNumber::TooManySpaces(n) => "cannot have too many spaces consecutively in Mynt reference number. at offset "@
                    + decimal_text(n as nat),
                InvalidMyntRefNumber::TooManyCharacters => "cannot have too many digits in Mynt reference number"@,
            }),
    {
        match self {
            InvalidMyntRefNumber::UnexpectedNonDigit(n) => {
                let mut r = "unexpected non-digit from offset ".to_owned();
                push_decimal(&mut r, *n as u64);
                r.append(" when parsing Mynt reference number");
                r
            },
            InvalidMyntRefNumber::TooManySpaces(n) => {
                let mut r = "cannot have too many spaces consecutively in Mynt reference number. at offset ".to_owned();
                push_decimal(&mut r, *n as u64);
                r
            },
            InvalidMyntRefNumber::TooManyCharacters => "cannot have too many digits in Mynt reference number".to_owned(),
        }
    }
}

/// Scans `s` from position `i`, where `after_space` tells whether the
/// character before `i` was a space: digits are accepted, a space is
/// accepted unless it follows a space, anything else is refused.
pub open spec fn mynt_scan(s: Seq<char>, i: int, after_space: bool) -> Result<(), InvalidMyntRefNumber>
    decreases s.len() - i,
{
    if i < 0 || i >= s.len() {
        Ok(())
    } else if is_digit(s[i]) {
        mynt_scan(s, i + 1, false)
    } else if s[i] == ' ' && after_space {
        Err(InvalidMyntRefNumber::TooManySpaces((i + 1) as usize))
    } else if s[i] == ' ' {
        mynt_scan(s, i + 1, true)
    } else {
        Err(InvalidMyntRefNumber::UnexpectedNonDigit((i + 1) as usize))
    }
}

/// The digits of `s`, in order.
pub open spec fn digits_only(s: Seq<char>) -> Seq<char>
    decreases s.len(),
{
    if s.len() == 0 {
        Seq::empty()
    } else if is_digit(s.last()) {
        digits_only(s.drop_last()).push(s.last())
    } else {
        digits_only(s.drop_last())
    }
}

/// What parsing `s` as a reference number gives: a text that holds 50
/// digits or more is refused; otherwise the first refused character
/// decides the error; a text that passes keeps only its digits.
pub open spec fn spec_parse_mynt(s: Seq<char>) -> Result<Seq<char>, InvalidMyntRefNumber> {
    if digits_only(s).len() >= 50 {
        Err(InvalidMyntRefNumber::TooManyCharacters)
    } else {
        match mynt_scan(s, 0, false) {
            Ok(()) => Ok(digits_only(s)),
            Err(e) => Err(e),
        }
    }
}

/// Every character of `s` is an ASCII digit.
pub open spec fn only_digits(s: Seq<char>) -> bool {
    forall|i: int| 0 <= i < s.len() ==> is_digit(#[trigger] s[i])
}

/// The digits of a reference number: Mynt may change its length, so any
/// number of digits is kept.
#[derive(Debug, PartialEq, Eq, Hash)]
pub struct MyntRefNumber(String);

impl View for MyntRefNumber {
    type V = Seq<char>;

    closed spec fn view(&self) -> Seq<char> {
        self.0@
    }
}

impl Clone for MyntRefNumber {
    fn clone(&self) -> (r: Self)
        ensures
            r@ == self@,
    {
        proof {
            use_type_invariant(self);
        }
        MyntRefNumber(self.0.clone())
    }
}

proof fn lemma_digits_only_digits(s: Seq<char>)
    ensures
        only_digits(digits_only(s)),
    decreases s.len(),
{
    if s.len() > 0 {
        lemma_digits_only_digits(s.drop_last());
    }
}

impl MyntRefNumber {
    #[verifier::type_invariant]
    spec fn well_formed(self) -> bool {
        only_digits(self.0@)
    }

    /// The digits of the reference number.
    pub fn as_str(&self) -> (r: &str)
        ensures
            r@ == self@,
    {
        self.0.as_str()
    }

    /// Reads a reference number written with digits, single spaces between
    /// them allowed, and keeps its digits.
    pub fn parse(s: &str) -> (r: Result<MyntRefNumber, InvalidMyntRefNumber>)
        ensures
            match r {
                Ok(m) => spec_parse_mynt(s@) == Ok::<Seq<char>, InvalidMyntRefNumber>(m@),
                Err(e) => spec_parse_mynt(s@) == Err::<Seq<char>, InvalidMyntRefNumber>(e),
            },
    {
        let chars = chars_of(s);
        let mut count: usize = 0;
        let mut k: usize = 0;
        while k < chars.len()
            invariant
                chars@ == s@,
                k <= chars@.len(),
                count == digits_only(s@.take(k as int)).len(),
                count <= k,
            decreases chars.len() - k,
        {
            assert(s@.take(k + 1).drop_last() =~= s@.take(k as int));
            if char_is_digit(chars[k]) {
                count = count + 1;
            }
            k = k + 1;
        }
        assert(s@.take(k as int) =~= s@);
        if count >= MYNT_REF_MAX_CHARS {
            return Err(InvalidMyntRefNumber::TooManyCharacters);
        }
        let mut digits = String::new();
        let mut after_space: bool = false;
        let mut i: usize = 0;
        while i < chars.len()
            invariant
                chars@ == s@,
                digits_only(s@).len() < 50,
                i <= chars@.len(),
                mynt_scan(s@, 0, false) == mynt_scan(s@, i as int, after_space),
                digits@ == digits_only(s@.take(i as int)),
            decreases chars.len() - i,
        {
            let c: char = chars[i];
            assert(s@.take(i + 1).drop_last() =~= s@.take(i as int));
            if char_is_digit(c) {
                push_char(&mut digits, c);
                after_space = false;
            } else if c == ' ' && after_space {
                return Err(InvalidMyntRefNumber::TooManySpaces(i + 1));
            } else if c == ' ' {
                after_space = true;
            } else {
                return Err(InvalidMyntRefNumber::UnexpectedNonDigit(i + 1));
            }
            i = i + 1;
        }
        assert(s@.take(i as int) =~= s@);
        proof {
            lemma_digits_only_digits(s@);
        }
        Ok(MyntRefNumber(digits))
    }
}

/// Scanning digits from any position succeeds.
proof fn lemma_scan_digits(s: Seq<char>, i: int, after_space: bool)
    requires
        only_digits(s),
        0 <= i,
    ensures
        mynt_scan(s, i, after_space) is Ok,
    decreases s.len() - i,
{
    if i < s.len() {
        lemma_scan_digits(s, i + 1, false);
    }
}

/// Keeping the digits of a text made of digits keeps all of it.
proof fn lemma_digits_only_of_digits(s: Seq<char>)
    requires
        only_digits(s),
    ensures
        digits_only(s) == s,
    decreases s.len(),
{
    if s.len() > 0 {
        assert(only_digits(s.drop_last()));
        lemma_digits_only_of_digits(s.drop_last());
        assert(s.drop_last().push(s.last()) =~= s);
    }
}

/// A reference number written with fewer than 50 digits and nothing else
/// reads as itself.
pub proof fn law_digits_read_as_themselves(s: Seq<char>)
    requires
        only_digits(s),
        s.len() < 50,
    ensures
        spec_parse_mynt(s) == Ok::<Seq<char>, InvalidMyntRefNumber>(s),
{
    lemma_digits_only_of_digits(s);
    lemma_scan_digits(s, 0, false);
}

impl core::str::FromStr for MyntRefNumber {
    type Err = InvalidMyntRefNumber;

    /// Same as `parse`.
    fn from_str(s: &str) -> (r: Result<MyntRefNumber, InvalidMyntRefNumber>)
        ensures
            match r {
                Ok(v) => spec_parse_mynt(s@) == Ok::<Seq<char>, InvalidMyntRefNumber>(v@),
                Err(e) => spec_parse_mynt(s@) == Err::<Seq<char>, InvalidMyntRefNumber>(e),
            },
    {
        MyntRefNumber::parse(s)
    }
}

/// Scanning past a run of digits changes nothing.
proof fn lemma_scan_past_digits(s: Seq<char>, i: int, k: int)
    requires
        0 <= i <= k <= s.len(),
        forall|j: int| i <= j < k ==> is_digit(#[trigger] s[j]),
        i < k,
    ensures
        mynt_scan(s, i, false) == mynt_scan(s, k, false),
        forall|b: bool| #[trigger] mynt_scan(s, i, b) == mynt_scan(s, k, false),
    decreases k - i,
{
    if i + 1 < k {
        lemma_scan_past_digits(s, i + 1, k);
    }
}

/// Digits with single spaces between or around them scan without error.
proof fn lemma_scan_spaced_digits(s: Seq<char>, i: int)
    requires
        0 <= i <= s.len(),
        forall|j: int| 0 <= j < s.len() ==> is_digit(#[trigger] s[j]) || s[j] == ' ',
        forall|j: int| 0 < j < s.len() && #[trigger] s[j] == ' ' ==> s[j - 1] != ' ',
    ensures
        mynt_scan(s, i, i > 0 && s[i - 1] == ' ') is Ok,
    decreases s.len() - i,
{
    if i < s.len() {
        lemma_scan_spaced_digits(s, i + 1);
        if s[i] == ' ' && i > 0 {
            assert(s[i - 1] != ' ');
        }
    }
}

/// A text that holds 50 digits or more is refused as too long, whatever
/// else it holds.
pub proof fn law_fifty_digits_are_too_many(s: Seq<char>)
    requires
        digits_only(s).len() >= 50,
    ensures
        spec_parse_mynt(s) == Err::<Seq<char>, InvalidMyntRefNumber>(InvalidMyntRefNumber::TooManyCharacters),
{
}

/// Fewer than 50 digits with single spaces between or around them read
/// as the digits alone, in order.
pub proof fn law_spaced_digits_read_as_their_digits(s: Seq<char>)
    requires
        forall|j: int| 0 <= j < s.len() ==> is_digit(#[trigger] s[j]) || s[j] == ' ',
        forall|j: int| 0 < j < s.len() && #[trigger] s[j] == ' ' ==> s[j - 1] != ' ',
        digits_only(s).len() < 50,
    ensures
        spec_parse_mynt(s) == Ok::<Seq<char>, InvalidMyntRefNumber>(digits_only(s)),
{
    lemma_scan_spaced_digits(s, 0);
}

/// Within the limit of digits, a text of digits followed by a character
/// that is neither a digit nor a space is refused at that character's
/// 1-based position; one followed by two spaces is refused at the second.
pub proof fn law_first_refused_character(s: Seq<char>, i: int)
    requires
        digits_only(s).len() < 50,
        0 <= i < s.len(),
        forall|j: int| 0 <= j < i ==> is_digit(#[trigger] s[j]),
    ensures
        !is_digit(s[i]) && s[i] != ' ' ==> spec_parse_mynt(s)
            == Err::<Seq<char>, InvalidMyntRefNumber>(InvalidMyntRefNumber::UnexpectedNonDigit((i + 1) as usize)),
        s[i] == ' ' && i + 1 < s.len() && s[i + 1] == ' ' ==> spec_parse_mynt(s)
            == Err::<Seq<char>, InvalidMyntRefNumber>(InvalidMyntRefNumber::TooManySpaces((i + 2) as usize)),
{
    if i > 0 {
        lemma_scan_past_digits(s, 0, i);
    }
    if s[i] == ' ' && i + 1 < s.len() && s[i + 1] == ' ' {
        assert(mynt_scan(s, i + 1, true) == Err::<(), InvalidMyntRefNumber>(InvalidMyntRefNumber::TooManySpaces((i + 2) as usize)));
        assert(mynt_scan(s, i, false) == mynt_scan(s, i + 1, true));
    }
}

} // verus!
