use sane_scan::flags::{OptionCapability, CAP_AUTOMATIC, CAP_INACTIVE, CAP_SOFT_SELECT};
use sane_scan::handle::{matches_type, read_to_vec_step};
use sane_scan::option::{decode_constraint, take_before_null, DeviceOption, OptionConstraint, RawConstraint, RawDescriptor, Unit};
use sane_scan::status::{check, Error, Status};
use sane_scan::value::{is_nul_free, c_str_of, decode_value, encode_value, DeviceOptionValue, RawValue, ValueType};

#[test]
fn scalar_values_round_trip() {
    let cases = [
        (ValueType::Bool, DeviceOptionValue::Bool(true)),
        (ValueType::Bool, DeviceOptionValue::Bool(false)),
        (ValueType::Int, DeviceOptionValue::Int(-7)),
        (ValueType::Int, DeviceOptionValue::Int(i32::MAX)),
        (ValueType::Fixed, DeviceOptionValue::Fixed(0x18000)),
        (ValueType::String, DeviceOptionValue::String(b"Flatbed".to_vec())),
        (ValueType::String, DeviceOptionValue::String(vec![])),
    ];
    for (t, v) in cases {
        let raw = encode_value(v.clone());
        assert_eq!(decode_value(t, &raw), Some(v));
    }
}

#[test]
fn encoded_forms() {
    assert_eq!(encode_value(DeviceOptionValue::Bool(true)), RawValue::Word(1));
    assert_eq!(encode_value(DeviceOptionValue::Bool(false)), RawValue::Word(0));
    assert_eq!(encode_value(DeviceOptionValue::Int(37)), RawValue::Word(37));
    assert_eq!(encode_value(DeviceOptionValue::String(b"ab".to_vec())), RawValue::Text(b"ab\0".to_vec()));
    assert_eq!(encode_value(DeviceOptionValue::Button), RawValue::Absent);
}

#[test]
fn decode_mismatched_shape_is_none() {
    assert_eq!(decode_value(ValueType::Int, &RawValue::Text(vec![1, 0])), None);
    assert_eq!(decode_value(ValueType::String, &RawValue::Word(1)), None);
    assert_eq!(decode_value(ValueType::Int, &RawValue::Absent), None);
    assert_eq!(decode_value(ValueType::Button, &RawValue::Word(1)), None);
}

#[test]
fn c_string_stops_at_nul() {
    assert_eq!(c_str_of(&b"abc\0def\0".to_vec()), b"abc".to_vec());
    assert_eq!(c_str_of(&b"\0abc".to_vec()), Vec::<u8>::new());
    assert_eq!(c_str_of(&b"abc".to_vec()), b"abc".to_vec());
}

#[test]
fn word_list_strips_length_word() {
    let c = decode_constraint(RawConstraint::WordList(vec![3, 75, 150, 300, 999]));
    assert_eq!(c, Some(OptionConstraint::WordList(vec![75, 150, 300])));
    let c = decode_constraint(RawConstraint::WordList(vec![0]));
    assert_eq!(c, Some(OptionConstraint::WordList(vec![])));
}

#[test]
fn bad_word_list_is_refused() {
    assert_eq!(decode_constraint(RawConstraint::WordList(vec![])), None);
    assert_eq!(decode_constraint(RawConstraint::WordList(vec![-1, 4])), None);
    assert_eq!(decode_constraint(RawConstraint::WordList(vec![2, 4])), None);
}

#[test]
fn string_list_excludes_sentinel() {
    let raw = RawConstraint::StringList(vec![Some(b"Lineart".to_vec()), Some(b"Gray".to_vec()), None, Some(b"x".to_vec())]);
    assert_eq!(
        decode_constraint(raw),
        Some(OptionConstraint::StringList(vec![b"Lineart".to_vec(), b"Gray".to_vec()]))
    );
    assert_eq!(decode_constraint(RawConstraint::StringList(vec![None])), Some(OptionConstraint::StringList(vec![])));
}

#[test]
fn range_and_none_constraints_kept() {
    assert_eq!(
        decode_constraint(RawConstraint::Range { min: 0, max: 100, quant: 10 }),
        Some(OptionConstraint::Range { min: 0, max: 100, quant: 10 })
    );
    assert_eq!(decode_constraint(RawConstraint::Unconstrained), Some(OptionConstraint::Unconstrained));
}

#[test]
fn take_before_null_without_null_keeps_all() {
    assert_eq!(take_before_null(vec![Some(1), Some(2)]), vec![1, 2]);
    assert_eq!(take_before_null::<i32>(vec![]), Vec::<i32>::new());
}

#[test]
fn descriptor_capture_copies_fields() {
    let d = RawDescriptor {
        name: b"tl-x".to_vec(),
        title: b"Top-left x".to_vec(),
        desc: b"Left edge".to_vec(),
        type_: ValueType::Fixed,
        unit: Unit::Mm,
        size: 4,
        cap: 0x15,
        constraint: RawConstraint::Range { min: 0, max: 14_417_920, quant: 0 },
    };
    let o = DeviceOption::from_descriptor(3, d).unwrap();
    assert_eq!(o.option_idx, 3);
    assert_eq!(o.name, b"tl-x".to_vec());
    assert_eq!(o.desc, b"Left edge".to_vec());
    assert_eq!(o.type_, ValueType::Fixed);
    assert_eq!(o.unit, Unit::Mm);
    assert!(o.cap.contains(CAP_SOFT_SELECT | CAP_AUTOMATIC));
    assert!(!o.cap.contains(CAP_INACTIVE));
    assert_eq!(o.constraint, OptionConstraint::Range { min: 0, max: 14_417_920, quant: 0 });
}

#[test]
fn capability_bits_are_kept() {
    let c = OptionCapability::from_bits_unchecked(0x80 | CAP_AUTOMATIC);
    assert_eq!(c.bits(), 0x90);
    assert!(c.contains(CAP_AUTOMATIC));
}

#[test]
fn status_codes_round_trip() {
    for code in 0..12 {
        let s = Status::from_code(code).unwrap();
        assert_eq!(s.code(), code);
    }
    assert_eq!(Status::from_code(12), None);
    assert_eq!(Status::from_code(-1), None);
    assert_eq!(Status::from_code(5), Some(Status::Eof));
}

#[test]
fn check_maps_status() {
    assert_eq!(check(Status::Good), Ok(()));
    assert_eq!(check(Status::Jammed), Err(Error(Status::Jammed)));
    assert_eq!(Error(Status::Jammed).status(), Status::Jammed);
}

#[test]
fn type_match() {
    assert!(matches_type(ValueType::Int, &DeviceOptionValue::Int(1)));
    assert!(!matches_type(ValueType::Fixed, &DeviceOptionValue::Int(1)));
    assert!(matches_type(ValueType::Group, &DeviceOptionValue::Group));
}

#[test]
fn step_appends_exact_prefix() {
    let mut image = vec![9u8];
    let buf = vec![1u8, 2, 3, 4];
    assert!(read_to_vec_step(&mut image, &Ok(Some(2)), &buf));
    assert_eq!(image, vec![9, 1, 2]);
    assert!(!read_to_vec_step(&mut image, &Ok(None), &buf));
    assert!(!read_to_vec_step(&mut image, &Err(Error(Status::IoError)), &buf));
    assert_eq!(image, vec![9, 1, 2]);
}

#[test]
fn nul_free_strings() {
    assert!(is_nul_free(&b"Color".to_vec()));
    assert!(is_nul_free(&vec![]));
    assert!(!is_nul_free(&b"Co\0lor".to_vec()));
}
