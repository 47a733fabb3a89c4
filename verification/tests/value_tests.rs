use fust_orm::{DynamicRecord, DynamicValue};

#[test]
fn a_new_record_is_empty() {
    let record = DynamicRecord::new();
    assert_eq!(record.len(), 0);
    assert_eq!(record.get(&"id".to_string()), None);
}

#[test]
fn entries_keep_their_insertion_order() {
    let mut record = DynamicRecord::new();
    record.set("b".to_string(), DynamicValue::Integer(2));
    record.set("a".to_string(), DynamicValue::Text("one".to_string()));
    record.set("c".to_string(), DynamicValue::Null);
    assert_eq!(record.len(), 3);
    assert_eq!(record.name_at(0), "b");
    assert_eq!(record.value_at(0), &DynamicValue::Integer(2));
    assert_eq!(record.name_at(1), "a");
    assert_eq!(record.value_at(1), &DynamicValue::Text("one".to_string()));
    assert_eq!(record.name_at(2), "c");
    assert_eq!(record.value_at(2), &DynamicValue::Null);
}

#[test]
fn a_value_is_found_under_its_name() {
    let mut record = DynamicRecord::new();
    record.set("id".to_string(), DynamicValue::Integer(-5));
    record.set("data".to_string(), DynamicValue::Blob(vec![1, 2, 3]));
    assert_eq!(record.get(&"id".to_string()), Some(&DynamicValue::Integer(-5)));
    assert_eq!(record.get(&"data".to_string()), Some(&DynamicValue::Blob(vec![1, 2, 3])));
    assert_eq!(record.get(&"missing".to_string()), None);
    assert_eq!(record.get(&"ID".to_string()), None);
}

#[test]
fn a_name_stored_again_keeps_its_place_and_takes_the_new_value() {
    let mut record = DynamicRecord::new();
    record.set("a".to_string(), DynamicValue::Integer(1));
    record.set("b".to_string(), DynamicValue::Integer(2));
    record.set("a".to_string(), DynamicValue::Text("again".to_string()));
    assert_eq!(record.len(), 2);
    assert_eq!(record.name_at(0), "a");
    assert_eq!(record.value_at(0), &DynamicValue::Text("again".to_string()));
    assert_eq!(record.name_at(1), "b");
    assert_eq!(record.value_at(1), &DynamicValue::Integer(2));
    assert_eq!(record.get(&"a".to_string()), Some(&DynamicValue::Text("again".to_string())));
}

#[test]
fn a_real_is_held_by_its_bits() {
    let mut record = DynamicRecord::new();
    record.set("x".to_string(), DynamicValue::Real(2.5f64.to_bits()));
    match record.get(&"x".to_string()) {
        Some(DynamicValue::Real(bits)) => assert_eq!(f64::from_bits(*bits), 2.5),
        other => panic!("unexpected value {:?}", other),
    }
}

#[test]
fn the_five_kinds_are_distinct() {
    let values = [
        DynamicValue::Text(String::new()),
        DynamicValue::Integer(0),
        DynamicValue::Real(0),
        DynamicValue::Blob(Vec::new()),
        DynamicValue::Null,
    ];
    for (i, a) in values.iter().enumerate() {
        for (j, b) in values.iter().enumerate() {
            assert_eq!(a == b, i == j);
        }
    }
}

#[test]
fn a_cloned_value_equals_its_source() {
    let values = [
        DynamicValue::Text("héllo".to_string()),
        DynamicValue::Integer(i64::MIN),
        DynamicValue::Real(f64::MAX.to_bits()),
        DynamicValue::Blob(vec![0, 255]),
        DynamicValue::Null,
    ];
    for value in values.iter() {
        assert_eq!(&value.clone(), value);
    }
}

#[test]
fn a_cloned_record_equals_its_source_and_is_independent() {
    let mut record = DynamicRecord::new();
    record.set("a".to_string(), DynamicValue::Integer(1));
    record.set("b".to_string(), DynamicValue::Blob(vec![9]));
    let mut copy = record.clone();
    assert_eq!(copy, record);
    copy.set("a".to_string(), DynamicValue::Null);
    assert_eq!(record.get(&"a".to_string()), Some(&DynamicValue::Integer(1)));
    assert_eq!(copy.get(&"a".to_string()), Some(&DynamicValue::Null));
}
