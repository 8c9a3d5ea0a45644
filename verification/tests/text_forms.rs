use eden::nonzero::NonZeroU64;
use eden::schema::mynt::{InvalidMyntRefNumber, MyntRefNumber};
use eden::schema::payment::{PaymentDataVersion, UnknownPaymentDataVersion};
use eden::schema::phone::PHPhoneNumber;
use eden::settings::sharding::Sharding;
use eden::tasks_schema::worker_id::WorkerId;
use eden::text::{decimal, text_eq};

#[test]
fn decimal_numbers() {
    assert_eq!(decimal(0), "0");
    assert_eq!(decimal(7), "7");
    assert_eq!(decimal(10), "10");
    assert_eq!(decimal(1_000_000), "1000000");
    assert_eq!(decimal(u64::MAX), u64::MAX.to_string());
    for n in [1u64, 9, 99, 101, 4_294_967_296, 9_999_999_999_999_999_999] {
        assert_eq!(decimal(n), n.to_string());
    }
}

#[test]
fn texts_compare_by_characters() {
    assert!(text_eq("foo123", "foo123"));
    assert!(!text_eq("foo123", "foo12"));
    assert!(!text_eq("foo123", "foo124"));
    assert!(text_eq("", ""));
    assert!(!text_eq("é", "e"));
}

#[test]
fn shown_forms() {
    assert_eq!(WorkerId::new(2, 5).display(), "(2, 5)");
    assert_eq!(WorkerId::one().display(), "(1, 1)");
    assert_eq!(Sharding::one().describe(), "Single([0, 1])");
    let range = Sharding::Range { start: 1, end: 3, total: NonZeroU64::new(4).unwrap() };
    assert_eq!(range.describe(), "Range { start: 1, end: 3, total: 4 }");
    assert_eq!(PaymentDataVersion.display(), "1");
}

#[test]
fn error_messages() {
    assert_eq!(
        UnknownPaymentDataVersion { found: 2 }.message(),
        "payment data is far ahead from the current version (2 >= 1)"
    );
    assert_eq!(PHPhoneNumber::parse("0912345678").unwrap_err().message(), "unexpected non-digit at offset 10");
    assert_eq!(
        MyntRefNumber::parse("12a4").unwrap_err().message(),
        "unexpected non-digit from offset 3 when parsing Mynt reference number"
    );
    assert_eq!(
        InvalidMyntRefNumber::TooManySpaces(4).message(),
        "cannot have too many spaces consecutively in Mynt reference number. at offset 4"
    );
    assert_eq!(InvalidMyntRefNumber::TooManyCharacters.message(), "cannot have too many digits in Mynt reference number");
}
