use eden::nonzero::NonZeroU32;
use eden::tasks_schema::worker_id::{WorkerId, WorkerIdError, WorkerIdFields, WorkerIdKey};

/// Reads a worker id written as a JSON map the way the deserializer walks it.
fn from_json_map(text: &str) -> Result<WorkerId, WorkerIdError> {
    let value: serde_json::Value = serde_json::from_str(text).unwrap();
    let mut fields = WorkerIdFields::new();
    for (key, v) in value.as_object().unwrap() {
        let key = match key.as_str() {
            "assigned" => WorkerIdKey::Assigned,
            "id" => WorkerIdKey::Id,
            "total" => WorkerIdKey::Total,
            _ => WorkerIdKey::Ignore,
        };
        fields.check_key(key)?;
        if key != WorkerIdKey::Ignore {
            let n = NonZeroU32::new(v.as_u64().unwrap() as u32).unwrap();
            fields.put(key, n);
        }
    }
    fields.finish()
}

fn nz(n: u32) -> NonZeroU32 {
    NonZeroU32::new(n).unwrap()
}

#[test]
fn test_serde_with_map() {
    let id = from_json_map(r#"{"assigned":1,"total":1}"#).unwrap();
    assert_eq!(id, WorkerId::one());

    let mut fields = WorkerIdFields::new();
    fields.put(WorkerIdKey::Assigned, nz(2));
    fields.put(WorkerIdKey::Total, nz(1));
    let error = fields.finish().unwrap_err();
    assert_eq!(error.message(), "assigned must be less than or equal total");
}

#[test]
fn test_serde_with_map_and_alias() {
    let id = from_json_map(r#"{"id":1,"total":1}"#).unwrap();
    assert_eq!(id, WorkerId::one());

    let mut fields = WorkerIdFields::new();
    fields.put(WorkerIdKey::Id, nz(2));
    fields.put(WorkerIdKey::Total, nz(1));
    let error = fields.finish().unwrap_err();
    assert_eq!(error.message(), "assigned must be less than or equal total");
}

#[test]
fn test_serde_with_sequence() {
    let one = WorkerId::one();
    assert_eq!(one.into_pair(), (1, 1));
    assert_eq!(WorkerId::from_sequence(Some(nz(1)), Some(nz(1))), Ok(one));

    let error = WorkerId::from_sequence(Some(nz(2)), Some(nz(1))).unwrap_err();
    assert_eq!(error.message(), "assigned must be less than or equal total");
}

#[test]
fn worker_id_map_errors() {
    assert_eq!(from_json_map(r#"{"assigned":1,"id":1,"total":2}"#), Err(WorkerIdError::AssignedAndId));
    assert_eq!(from_json_map(r#"{"total":2}"#), Err(WorkerIdError::MissingAssigned));
    assert_eq!(from_json_map(r#"{"id":2}"#), Err(WorkerIdError::MissingTotal));
    assert_eq!(from_json_map(r#"{"id":2,"total":3,"extra":5}"#), Ok(WorkerId::new(2, 3)));

    let mut fields = WorkerIdFields::new();
    fields.put(WorkerIdKey::Total, nz(3));
    assert_eq!(fields.check_key(WorkerIdKey::Total), Err(WorkerIdError::DuplicateField(WorkerIdKey::Total)));
    assert_eq!(fields.check_key(WorkerIdKey::Ignore), Ok(()));
    assert_eq!(WorkerIdError::DuplicateField(WorkerIdKey::Assigned).message(), "duplicate field `type`");
    assert_eq!(WorkerIdError::MissingTotal.message(), "missing field `total`");

    assert_eq!(WorkerId::from_sequence(Some(nz(1)), None), Err(WorkerIdError::MissingElement));
    assert_eq!(
        WorkerIdError::MissingElement.message(),
        "invalid length 0, expected worker id with 2 elements"
    );
}

#[test]
fn worker_id_numbers() {
    let w = WorkerId::new(2, 5);
    assert_eq!(w.assigned(), 2);
    assert_eq!(w.total(), 5);
    assert_eq!(w.assigned_sql(), 2i64);
    assert_eq!(w.total_sql(), 5i64);
    assert_eq!(WorkerId::default(), WorkerId::one());
    assert_eq!(WorkerId::new_checked(0, 1), None);
    assert_eq!(WorkerId::new_checked(1, 0), None);
    // Unlike `new`, it does not compare the two numbers.
    assert_eq!(WorkerId::new_checked(3, 2).map(|w| w.into_pair()), Some((3, 2)));
    assert_eq!(WorkerId::from_parts(nz(1), nz(4)), WorkerId::new(1, 4));
}

#[test]
fn worker_ids_compare_within_one_total() {
    assert!(WorkerId::new(1, 3) < WorkerId::new(2, 3));
    assert!(WorkerId::new(3, 3) > WorkerId::new(2, 3));
    assert_eq!(WorkerId::new(1, 3).partial_cmp(&WorkerId::new(1, 4)), None);
    assert_eq!(WorkerId::new(2, 3).partial_cmp(&WorkerId::new(2, 3)), Some(std::cmp::Ordering::Equal));
}
