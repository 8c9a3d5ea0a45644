use eden::nonzero::NonZeroU64;
use eden::schema::forms::InsertPayerForm;
use eden::schema::guild_settings::{GuildSettings, GuildSettingsVersion, PayerGuildSettings};
use eden::schema::mynt::{InvalidMyntRefNumber, MyntRefNumber};
use eden::schema::payment::{PaymentData, PaymentDataVersion, PaymentMethod, PaymentStatus};
use eden::schema::phone::PHPhoneNumber;
use eden::schema::queries::{GetAllBills, GetAllIdentities, GetAllPayments};
use eden::schema::records::{Identity, PayerApplication};

fn payer<'a>(java: &'a str, bedrock: Option<&'a str>) -> InsertPayerForm<'a> {
    InsertPayerForm { id: NonZeroU64::new(2345678).unwrap(), name: "foo", java_username: java, bedrock_username: bedrock }
}

#[test]
fn test_insert_with_same_username_both_editions() {
    let form = payer("foo123", Some("foo123"));
    assert_eq!(form.identity_names(), vec!["foo123".to_string()]);
}

#[test]
fn payer_test_insert_with_bedrock_username() {
    let form = payer("foo123", Some("bar123"));
    assert_eq!(form.identity_names(), vec!["foo123".to_string(), "bar123".to_string()]);
}

#[test]
fn payer_test_insert() {
    let form = payer("foo123", None);
    assert_eq!(form.bedrock_name(), ".foo123");
    assert_eq!(form.identity_names(), vec!["foo123".to_string(), ".foo123".to_string()]);
}

#[test]
fn phone_numbers() {
    let p = PHPhoneNumber::parse("09123456789").unwrap();
    assert_eq!(p.as_str(), "09123456789");
    let p: PHPhoneNumber = "+639123456789".parse().unwrap();
    assert_eq!(p.as_str(), "09123456789");
    assert_eq!(PHPhoneNumber::parse("0912345678").unwrap_err().offset(), 10);
    assert_eq!(PHPhoneNumber::parse("091234567890").unwrap_err().offset(), 12);
    assert_eq!(PHPhoneNumber::parse("0912a456789").unwrap_err().offset(), 5);
    assert_eq!(PHPhoneNumber::parse("+63912a456789").unwrap_err().offset(), 5);
    assert_eq!(PHPhoneNumber::parse("").unwrap_err().offset(), 0);
    let copy = p.clone();
    assert_eq!(copy.as_str(), p.as_str());
}

#[test]
fn mynt_reference_numbers() {
    let m = MyntRefNumber::parse("1234 567 890").unwrap();
    assert_eq!(m.as_str(), "1234567890");
    let m: MyntRefNumber = "42".parse().unwrap();
    assert_eq!(m.as_str(), "42");
    assert_eq!(MyntRefNumber::parse("12a4"), Err(InvalidMyntRefNumber::UnexpectedNonDigit(3)));
    assert_eq!(MyntRefNumber::parse("12a4").unwrap_err().offset(), Some(3));
    assert_eq!(MyntRefNumber::parse("12  4"), Err(InvalidMyntRefNumber::TooManySpaces(4)));
    let long = "1".repeat(51);
    assert_eq!(MyntRefNumber::parse(&long), Err(InvalidMyntRefNumber::TooManyCharacters));
    assert_eq!(InvalidMyntRefNumber::TooManyCharacters.offset(), None);
    assert_eq!(MyntRefNumber::parse(&"1".repeat(50)), Err(InvalidMyntRefNumber::TooManyCharacters));
    assert_eq!(MyntRefNumber::parse(&"1".repeat(49)).unwrap().as_str(), "1".repeat(49));
    let spaced = "1234 ".repeat(10) + "1";
    assert_eq!(MyntRefNumber::parse(&spaced).unwrap().as_str(), "1234".repeat(10) + "1");
    let spaced_too_long = "12345 ".repeat(10);
    assert_eq!(MyntRefNumber::parse(&spaced_too_long), Err(InvalidMyntRefNumber::TooManyCharacters));
    let limit_before_scan = "1".repeat(50) + "a";
    assert_eq!(MyntRefNumber::parse(&limit_before_scan), Err(InvalidMyntRefNumber::TooManyCharacters));
}

#[test]
fn guild_settings_defaults() {
    let s = GuildSettings::default();
    assert_eq!(s.version, GuildSettingsVersion::V1);
    assert!(s.payers.allow_self_register);
    assert_eq!(GuildSettingsVersion::default(), GuildSettingsVersion::V1);
    let s = GuildSettings::new(PayerGuildSettings::new(false));
    assert!(!s.payers.allow_self_register);
    assert_ne!(s, GuildSettings::default());
    assert_eq!(PayerGuildSettings::default(), PayerGuildSettings::new(true));
}

#[test]
fn payment_data_versions() {
    assert_eq!(PaymentDataVersion::CURRENT_VERSION, 1);
    assert!(PaymentDataVersion::from_number(1).is_ok());
    assert_eq!(PaymentDataVersion::from_number(2).unwrap_err().found, 2);
    assert_eq!(PaymentDataVersion::from_number(0).unwrap_err().found, 0);
    assert_eq!(PaymentDataVersion::default().number(), 1);

    let method = PaymentMethod::PayPal { name: None, proof_image_url: None, transaction_id: Some("T1".to_string()) };
    let d = PaymentData::new(method);
    assert!(matches!(d.status, PaymentStatus::Pending));
    assert!(matches!(PaymentStatus::default(), PaymentStatus::Pending));
    let d = PaymentData::with_status(d.method, PaymentStatus::Failed { reason: "no".to_string() });
    assert!(matches!(d.status, PaymentStatus::Failed { .. }));
}

#[test]
fn bill_and_identity_listings() {
    assert_eq!(GetAllBills.sql(), "SELECT * FROM bills");
    assert!(GetAllBills.args().is_empty());
    let q = GetAllIdentities { payer_id: NonZeroU64::new(613425648685547541).unwrap() };
    assert_eq!(q.sql(), "SELECT name, uuid FROM identities WHERE payer_id = $1");
    assert_eq!(q.args().len(), 1);
}

#[test]
fn payment_listings() {
    let q = GetAllPayments::new();
    assert_eq!(q.sql(), "SELECT * FROM payments");
    assert!(q.args().is_empty());

    let q = GetAllPayments::new().bill_id(Some(15));
    assert_eq!(q.sql(), "SELECT * FROM payments WHERE bill_id = $1");
    assert_eq!(q.args().len(), 1);

    let q = GetAllPayments::new().payer_id(NonZeroU64::new(5));
    assert_eq!(q.sql(), "SELECT * FROM payments WHERE payer_id = $1");

    // With both filters, each opens with WHERE.
    let q = GetAllPayments::new().bill_id(Some(15)).payer_id(NonZeroU64::new(5));
    assert_eq!(q.sql(), "SELECT * FROM payments WHERE bill_id = $1 WHERE payer_id = $2");
    assert_eq!(q.args().len(), 2);

    let q = q.bill_id(None).payer_id(None);
    assert_eq!(q.sql(), "SELECT * FROM payments");
}

#[test]
fn country_code_and_trunk_prefix_read_alike() {
    let a = PHPhoneNumber::parse("+639171234567").unwrap();
    let b = PHPhoneNumber::parse("09171234567").unwrap();
    assert_eq!(a, b);
    assert_eq!(PHPhoneNumber::parse("+6391712345").unwrap_err().offset(), PHPhoneNumber::parse("091712345").unwrap_err().offset());
    // Reading a read number gives it back.
    assert_eq!(PHPhoneNumber::parse(a.as_str()).unwrap(), a);
}

#[test]
fn digit_reference_numbers_read_as_themselves() {
    assert_eq!(MyntRefNumber::parse("0123456789").unwrap().as_str(), "0123456789");
    assert_eq!(MyntRefNumber::parse("").unwrap().as_str(), "");
    assert_eq!(MyntRefNumber::parse(" 1 2 ").unwrap().as_str(), "12");
}

#[test]
fn stored_records() {
    let app = PayerApplication {
        id: uuid::Uuid::new_v4(),
        created_at: 1,
        updated_at: None,
        name: "poopyy".to_string(),
        user_id: NonZeroU64::new(12345678).unwrap(),
        java_username: "fooooo".to_string(),
        bedrock_username: Some("fooooo_123".to_string()),
        accepted: None,
        answer: "I like strawberry pies".to_string(),
        deny_reason: None,
        icon_url: Some("https://example.com".to_string()),
    };
    assert!(app.is_pending());
    let identity = Identity { id: 1, payer_id: NonZeroU64::new(2345678).unwrap(), created_at: 0, name: Some("foo123".to_string()), uuid: None };
    let view = identity.as_view();
    assert_eq!(view.name.as_deref(), Some("foo123"));
    assert!(view.uuid.is_none());
}
