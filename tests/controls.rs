use libcamera::{
    array_extent, ArrayExtent, Control, ControlInfo, ControlList, ControlNamespace,
    ControlPrimitiveValue, ControlValue, ErrorKind, Rectangle, SchemaDimension, Size,
};

fn list() -> ControlList {
    ControlList::new(vec![1, 2, 3, 4, 5, 6, 7, 8, 9, 10, 11, 12])
}

#[test]
fn bool_control_round_trips() {
    let mut l = list();
    let c = Control::<bool>::new(1, ControlNamespace::Stable);
    l.set(&c, true);
    assert_eq!(l.get(&c).unwrap(), Some(true));
    l.set(&c, false);
    assert_eq!(l.get(&c).unwrap(), Some(false));
}

#[test]
fn byte_control_round_trips() {
    let mut l = list();
    let c = Control::<u8>::new(2, ControlNamespace::Stable);
    l.set(&c, 200u8);
    assert_eq!(l.get(&c).unwrap(), Some(200u8));
}

#[test]
fn int32_control_round_trips() {
    let mut l = list();
    let c = Control::<i32>::new(3, ControlNamespace::Stable);
    l.set(&c, -123456);
    assert_eq!(l.get(&c).unwrap(), Some(-123456));
}

#[test]
fn int64_control_round_trips() {
    let mut l = list();
    let c = Control::<i64>::new(4, ControlNamespace::Draft);
    l.set(&c, i64::MIN);
    assert_eq!(l.get(&c).unwrap(), Some(i64::MIN));
}

#[test]
fn rectangle_control_round_trips() {
    let mut l = list();
    let c = Control::<Rectangle>::new(5, ControlNamespace::Stable);
    let r = Rectangle { x: -4, y: 8, width: 640, height: 480 };
    l.set(&c, r);
    assert_eq!(l.get(&c).unwrap(), Some(r));
}

#[test]
fn size_control_round_trips() {
    let mut l = list();
    let c = Control::<Size>::new(6, ControlNamespace::Stable);
    l.set(&c, Size { width: 1920, height: 1080 });
    assert_eq!(l.get(&c).unwrap(), Some(Size { width: 1920, height: 1080 }));
}

#[test]
fn string_control_round_trips() {
    let mut l = list();
    let c = Control::<String>::new(7, ControlNamespace::Stable);
    l.set(&c, "imx477".to_string());
    assert_eq!(l.get(&c).unwrap(), Some("imx477".to_string()));
}

#[test]
fn fixed_array_control_keeps_length_and_order() {
    let mut l = list();
    let c = Control::<[i32; 4]>::new(8, ControlNamespace::Stable);
    l.set(&c, [4, -3, 2, -1]);
    let back = l.get(&c).unwrap().unwrap();
    assert_eq!(back.len(), 4);
    assert_eq!(back, [4, -3, 2, -1]);
}

#[test]
fn fixed_array_control_rejects_another_length() {
    let mut l = list();
    let long = Control::<[i64; 3]>::new(9, ControlNamespace::Stable);
    let short = Control::<[i64; 2]>::new(9, ControlNamespace::Stable);
    l.set(&long, [1, 2, 3]);
    assert_eq!(l.get(&short).unwrap_err().kind, ErrorKind::MarshalTypeMismatch);
    assert_eq!(l.get(&long).unwrap(), Some([1, 2, 3]));
}

#[test]
fn variable_array_control_round_trips() {
    let mut l = list();
    let c = Control::<Vec<Size>>::new(10, ControlNamespace::Stable);
    let sizes = vec![Size { width: 1, height: 2 }, Size { width: 3, height: 4 }];
    l.set(&c, sizes.clone());
    assert_eq!(l.get(&c).unwrap(), Some(sizes));
    let empty = Control::<Vec<bool>>::new(11, ControlNamespace::Stable);
    l.set(&empty, vec![]);
    assert_eq!(l.get(&empty).unwrap(), Some(vec![]));
}

#[test]
fn string_array_control_round_trips() {
    let mut l = list();
    let c = Control::<Vec<String>>::new(12, ControlNamespace::Draft);
    let names = vec!["a".to_string(), "bc".to_string()];
    l.set(&c, names.clone());
    assert_eq!(l.get(&c).unwrap(), Some(names));
}

#[test]
fn absent_control_reads_as_none() {
    let l = list();
    let c = Control::<i32>::new(3, ControlNamespace::Stable);
    assert_eq!(l.get(&c).unwrap(), None);
    assert!(!l.contains(3));
    assert_eq!(l.len(), 0);
}

#[test]
fn reading_with_the_wrong_type_is_a_mismatch() {
    let mut l = list();
    let as_int = Control::<i32>::new(3, ControlNamespace::Stable);
    let as_bool = Control::<bool>::new(3, ControlNamespace::Stable);
    let as_array = Control::<Vec<i32>>::new(3, ControlNamespace::Stable);
    l.set(&as_int, 7);
    let e = l.get(&as_bool).unwrap_err();
    assert_eq!(e.kind, ErrorKind::MarshalTypeMismatch);
    assert_eq!(l.get(&as_array).unwrap_err().kind, ErrorKind::MarshalTypeMismatch);
}

#[test]
fn undeclared_control_is_ignored() {
    let mut l = ControlList::new(vec![1]);
    let c = Control::<i32>::new(99, ControlNamespace::Stable);
    l.set(&c, 5);
    assert_eq!(l.get(&c).unwrap(), None);
    assert!(!l.contains(99));
    assert_eq!(l.len(), 0);
    assert!(!l.is_declared(99));
    assert!(l.is_declared(1));
}

#[test]
fn setting_again_replaces_the_value() {
    let mut l = list();
    let a = Control::<i32>::new(3, ControlNamespace::Stable);
    let b = Control::<bool>::new(1, ControlNamespace::Stable);
    l.set(&a, 1);
    l.set(&b, true);
    l.set(&a, 2);
    assert_eq!(l.len(), 2);
    assert_eq!(l.get(&a).unwrap(), Some(2));
    assert_eq!(l.get(&b).unwrap(), Some(true));
}

#[test]
fn raw_values_can_be_set_and_read() {
    let mut l = list();
    l.set_value(2, ControlValue::Primitive(ControlPrimitiveValue::Int32(9)));
    let raw = Control::<ControlValue>::new(2, ControlNamespace::Stable);
    let v = l.get(&raw).unwrap().unwrap();
    assert!(matches!(v, ControlValue::Primitive(ControlPrimitiveValue::Int32(9))));
    let typed = Control::<i32>::new(2, ControlNamespace::Stable);
    assert_eq!(l.get(&typed).unwrap(), Some(9));
}

#[test]
fn empty_value_is_none() {
    assert!(ControlValue::Empty.is_none());
    assert!(!ControlValue::Unknown.is_none());
    assert!(!ControlValue::Primitive(ControlPrimitiveValue::Bool(false)).is_none());
}

#[test]
fn control_descriptor_keeps_id_and_namespace() {
    let c = Control::<i64>::new(42, ControlNamespace::Draft);
    assert_eq!(c.id(), 42);
    assert_eq!(c.namespace(), ControlNamespace::Draft);
}

#[test]
fn control_info_reports_range_and_values() {
    let info = ControlInfo::new(
        ControlValue::Primitive(ControlPrimitiveValue::Int32(0)),
        ControlValue::Primitive(ControlPrimitiveValue::Int32(100)),
        ControlValue::Primitive(ControlPrimitiveValue::Int32(50)),
        vec![
            ControlValue::Primitive(ControlPrimitiveValue::Int32(0)),
            ControlValue::Primitive(ControlPrimitiveValue::Int32(50)),
        ],
    );
    assert!(matches!(info.min(), ControlValue::Primitive(ControlPrimitiveValue::Int32(0))));
    assert!(matches!(info.max(), ControlValue::Primitive(ControlPrimitiveValue::Int32(100))));
    assert!(matches!(info.def(), ControlValue::Primitive(ControlPrimitiveValue::Int32(50))));
    let values = info.values();
    assert_eq!(values.len(), 2);
    assert!(matches!(values[1], ControlValue::Primitive(ControlPrimitiveValue::Int32(50))));
}

#[test]
fn numeric_dimensions_give_a_fixed_extent() {
    let dims = vec![SchemaDimension::Count(3), SchemaDimension::Count(4)];
    assert_eq!(array_extent(&dims), Some(ArrayExtent::Fixed(12)));
    assert_eq!(array_extent(&[]), Some(ArrayExtent::Fixed(1)));
}

#[test]
fn a_named_dimension_gives_a_dynamic_extent() {
    let dims = vec![SchemaDimension::Count(3), SchemaDimension::Named("n".to_string())];
    assert_eq!(array_extent(&dims), Some(ArrayExtent::Dynamic));
}

#[test]
fn an_extent_too_large_is_refused() {
    let dims = vec![SchemaDimension::Count(u64::MAX), SchemaDimension::Count(2)];
    assert_eq!(array_extent(&dims), None);
    let zero = vec![SchemaDimension::Count(u64::MAX), SchemaDimension::Count(2), SchemaDimension::Count(0)];
    assert_eq!(array_extent(&zero), Some(ArrayExtent::Fixed(0)));
}

#[test]
fn ids_keep_the_order_they_were_first_set() {
    let mut l = list();
    l.set(&Control::<i32>::new(9, ControlNamespace::Stable), 1);
    l.set(&Control::<bool>::new(2, ControlNamespace::Stable), true);
    l.set(&Control::<i32>::new(9, ControlNamespace::Stable), 5);
    l.set(&Control::<i64>::new(4, ControlNamespace::Stable), 6);
    l.set(&Control::<i64>::new(40, ControlNamespace::Stable), 6);
    assert_eq!(l.ids(), vec![9, 2, 4]);
}
