use svd_codegen::access::resolve_access;
use svd_codegen::bits::{mask_of, read_bit, read_field, write_bit, write_field};
use svd_codegen::codegen::{gen_register, gen_register_read_methods, gen_register_write_methods};
use svd_codegen::error::GenError;
use svd_codegen::fragment::{Accessor, Fragment, PeripheralField};
use svd_codegen::model::{Access, BitRange, Defaults, Field, Peripheral, Register};
use svd_codegen::naming::{getter_name, pascal_name, respace, setter_name, snake_name};
use svd_codegen::peripheral::gen_peripheral;
use svd_codegen::width::{to_ty, IntTy};

fn field(name: &str, offset: u32, width: u32, access: Option<Access>) -> Field {
    Field {
        name: name.to_string(),
        description: None,
        bit_range: BitRange { offset, width },
        access,
    }
}

fn register(name: &str, offset: u32, size: Option<u32>, access: Option<Access>, fields: Option<Vec<Field>>) -> Register {
    Register {
        name: name.to_string(),
        description: format!("{} register", name),
        address_offset: offset,
        size,
        access,
        reset_value: None,
        fields,
    }
}

fn no_defaults() -> Defaults {
    Defaults { size: None, reset_value: None, access: None }
}

fn peripheral(name: &str, registers: Vec<Register>) -> Peripheral {
    Peripheral {
        name: name.to_string(),
        base_address: 0x4002_0000,
        description: None,
        derived_from: None,
        registers,
    }
}

fn layout_fields(items: &[Fragment]) -> &Vec<PeripheralField> {
    for item in items {
        if let Fragment::PeripheralStruct { fields, .. } = item {
            return fields;
        }
    }
    panic!("no layout type");
}

#[test]
fn gpioa_scenario() {
    let moder = register("MODER", 0x00, Some(32), Some(Access::ReadWrite), None);
    let idr = register(
        "IDR",
        0x10,
        Some(32),
        Some(Access::ReadOnly),
        Some(vec![field("pin0", 0, 1, Some(Access::ReadOnly))]),
    );
    let p = peripheral("gpioa", vec![moder, idr]);
    let g = gen_peripheral(&p, &no_defaults()).unwrap();
    assert!(g.overlaps.is_empty());
    let fields = layout_fields(&g.items);
    assert_eq!(fields.len(), 3);
    assert!(matches!(&fields[0], PeripheralField::Register { name, access: Access::ReadWrite, .. } if name == "moder"));
    assert!(matches!(&fields[1], PeripheralField::Reserved { index: 0, bytes: 12 }));
    assert!(matches!(&fields[2], PeripheralField::Register { name, ty, access: Access::ReadOnly, address_offset: 0x10, .. } if name == "idr" && ty == "Idr"));
    // layout, then type + read impl + write impl for each of the two registers
    assert_eq!(g.items.len(), 7);
    match &g.items[5] {
        Fragment::Impl { name, items } => {
            assert_eq!(name, "Idr");
            assert_eq!(items.len(), 1);
            assert!(matches!(&items[0], Accessor::BitGetter { name, offset: 0 } if name == "pin0"));
        }
        other => panic!("unexpected {:?}", other),
    }
    match &g.items[6] {
        Fragment::Impl { name, items } => {
            assert_eq!(name, "Idr");
            assert!(items.is_empty());
        }
        other => panic!("unexpected {:?}", other),
    }
}

#[test]
fn adjacent_registers_have_no_padding() {
    let a = register("A", 0, Some(32), Some(Access::ReadWrite), None);
    let b = register("B", 4, Some(16), Some(Access::ReadWrite), None);
    let c = register("C", 6, Some(12), Some(Access::ReadWrite), None);
    let e = register("E", 8, Some(8), Some(Access::ReadWrite), None);
    let g = gen_peripheral(&peripheral("p", vec![a, b, c, e]), &no_defaults()).unwrap();
    let fields = layout_fields(&g.items);
    assert_eq!(fields.len(), 4);
    assert!(fields.iter().all(|f| matches!(f, PeripheralField::Register { .. })));
}

#[test]
fn padding_counter_numbers_each_gap() {
    let a = register("A", 0, Some(8), Some(Access::ReadWrite), None);
    let b = register("B", 4, Some(8), Some(Access::ReadWrite), None);
    let c = register("C", 8, Some(8), Some(Access::ReadWrite), None);
    let g = gen_peripheral(&peripheral("p", vec![a, b, c]), &no_defaults()).unwrap();
    let fields = layout_fields(&g.items);
    assert_eq!(fields.len(), 5);
    assert!(matches!(&fields[1], PeripheralField::Reserved { index: 0, bytes: 3 }));
    assert!(matches!(&fields[3], PeripheralField::Reserved { index: 1, bytes: 3 }));
}

#[test]
fn overlapping_register_is_skipped() {
    let a = register("A", 0, Some(32), Some(Access::ReadWrite), None);
    let b = register("B", 2, Some(32), Some(Access::ReadWrite), None);
    let c = register("C", 6, Some(32), Some(Access::ReadWrite), None);
    let g = gen_peripheral(&peripheral("p", vec![a, b, c]), &no_defaults()).unwrap();
    assert_eq!(g.overlaps.len(), 1);
    assert_eq!(g.overlaps[0].register, "B");
    assert_eq!(g.overlaps[0].address_offset, 2);
    let fields = layout_fields(&g.items);
    assert_eq!(fields.len(), 3);
    assert!(matches!(&fields[1], PeripheralField::Reserved { index: 0, bytes: 2 }));
    assert!(matches!(&fields[2], PeripheralField::Register { name, .. } if name == "c"));
    // only A and C get a type and two impl blocks
    assert_eq!(g.items.len(), 7);
}

#[test]
fn derived_peripheral_is_an_alias() {
    let bad = register("BAD", 0, None, None, None);
    let mut p = peripheral("gpiob", vec![bad]);
    p.derived_from = Some("gpioa".to_string());
    let g = gen_peripheral(&p, &no_defaults()).unwrap();
    assert_eq!(g.items.len(), 1);
    assert!(g.overlaps.is_empty());
    match &g.items[0] {
        Fragment::TypeAlias { name, module, target } => {
            assert_eq!(name, "Gpiob");
            assert_eq!(module, "gpioa");
            assert_eq!(target, "Gpioa");
        }
        other => panic!("unexpected {:?}", other),
    }
}

#[test]
fn peripheral_description_becomes_doc() {
    let mut p = peripheral("uart", vec![register("DR", 0, Some(8), Some(Access::ReadWrite), None)]);
    p.description = Some("  Universal\n   asynchronous  receiver ".to_string());
    let g = gen_peripheral(&p, &no_defaults()).unwrap();
    assert!(matches!(&g.items[0], Fragment::Doc { text } if text == "Universal asynchronous receiver"));
    assert!(matches!(&g.items[1], Fragment::PeripheralStruct { name, .. } if name == "Uart"));
}

#[test]
fn missing_size_is_fatal() {
    let a = register("A", 0, None, Some(Access::ReadWrite), None);
    let r = gen_peripheral(&peripheral("p", vec![a]), &no_defaults());
    assert!(matches!(r, Err(GenError::UnresolvableSize { register }) if register == "A"));
}

#[test]
fn default_size_is_used() {
    let a = register("A", 0, None, Some(Access::ReadWrite), None);
    let b = register("B", 2, None, Some(Access::ReadWrite), None);
    let d = Defaults { size: Some(16), reset_value: None, access: None };
    let g = gen_peripheral(&peripheral("p", vec![a, b]), &d).unwrap();
    assert_eq!(layout_fields(&g.items).len(), 2);
    assert!(matches!(&g.items[1], Fragment::RegisterType { bits: IntTy::U16, .. }));
}

#[test]
fn unsupported_register_width_is_fatal() {
    let a = register("WIDE", 0, Some(64), Some(Access::ReadWrite), None);
    let r = gen_peripheral(&peripheral("p", vec![a]), &no_defaults());
    assert!(matches!(r, Err(GenError::UnsupportedWidth { name, width: 64 }) if name == "WIDE"));
}

#[test]
fn width_resolution() {
    assert_eq!(to_ty(0), None);
    assert_eq!(to_ty(1), Some(IntTy::U8));
    assert_eq!(to_ty(8), Some(IntTy::U8));
    assert_eq!(to_ty(9), Some(IntTy::U16));
    assert_eq!(to_ty(16), Some(IntTy::U16));
    assert_eq!(to_ty(17), Some(IntTy::U32));
    assert_eq!(to_ty(32), Some(IntTy::U32));
    assert_eq!(to_ty(33), None);
}

#[test]
fn access_all_read_only() {
    let r = register("R", 0, Some(32), None, Some(vec![field("a", 0, 1, Some(Access::ReadOnly)), field("b", 1, 1, Some(Access::ReadOnly))]));
    assert_eq!(resolve_access(&r).unwrap(), Access::ReadOnly);
}

#[test]
fn access_all_write_only() {
    let r = register("R", 0, Some(32), None, Some(vec![field("a", 0, 1, Some(Access::WriteOnly)), field("b", 1, 1, Some(Access::WriteOnly))]));
    assert_eq!(resolve_access(&r).unwrap(), Access::WriteOnly);
}

#[test]
fn access_mixed_with_read_write() {
    let r = register("R", 0, Some(32), None, Some(vec![field("a", 0, 1, Some(Access::ReadOnly)), field("b", 1, 1, Some(Access::ReadWrite)), field("c", 2, 1, Some(Access::WriteOnly))]));
    assert_eq!(resolve_access(&r).unwrap(), Access::ReadWrite);
}

#[test]
fn access_read_only_and_write_only_is_ambiguous() {
    let r = register("R", 0, Some(32), None, Some(vec![field("a", 0, 1, Some(Access::ReadOnly)), field("b", 1, 1, Some(Access::WriteOnly))]));
    match resolve_access(&r) {
        Err(GenError::AmbiguousAccess { register, modes }) => {
            assert_eq!(register, "R");
            assert_eq!(modes, vec![Some(Access::ReadOnly), Some(Access::WriteOnly)]);
        }
        other => panic!("unexpected {:?}", other),
    }
}

#[test]
fn access_of_register_wins() {
    let r = register("R", 0, Some(32), Some(Access::WriteOnly), Some(vec![field("a", 0, 1, Some(Access::ReadOnly))]));
    assert_eq!(resolve_access(&r).unwrap(), Access::WriteOnly);
}

#[test]
fn access_without_fields_is_fatal() {
    let r = register("R", 0, Some(32), None, None);
    assert!(matches!(resolve_access(&r), Err(GenError::MissingFields { register }) if register == "R"));
}

#[test]
fn fields_without_mode_read_as_read_only() {
    let r = register("R", 0, Some(32), None, Some(vec![field("a", 0, 1, None), field("b", 1, 1, Some(Access::ReadOnly))]));
    assert_eq!(resolve_access(&r).unwrap(), Access::ReadOnly);
}

#[test]
fn read_methods_skip_write_only_fields() {
    let mut en = field("EN", 0, 1, Some(Access::ReadWrite));
    en.description = Some("Enable\n  the unit".to_string());
    let mode = field("MODE", 4, 3, None);
    let go = field("GO", 8, 1, Some(Access::WriteOnly));
    let r = register("CR", 0, Some(16), None, Some(vec![en, mode, go]));
    let v = gen_register_read_methods(&r, &no_defaults()).unwrap();
    assert_eq!(v.len(), 1);
    match &v[0] {
        Fragment::Impl { name, items } => {
            assert_eq!(name, "Cr");
            assert_eq!(items.len(), 3);
            assert!(matches!(&items[0], Accessor::Doc { offset: 0, width: 1, text } if text == "Enable the unit"));
            assert!(matches!(&items[1], Accessor::BitGetter { name, offset: 0 } if name == "en"));
            assert!(matches!(&items[2], Accessor::FieldGetter { name, offset: 4, width: 3, mask: 7, ty: IntTy::U8 } if name == "mode"));
        }
        other => panic!("unexpected {:?}", other),
    }
}

#[test]
fn write_methods_skip_read_only_fields() {
    let en = field("EN", 0, 1, Some(Access::ReadWrite));
    let st = field("STATUS", 1, 1, Some(Access::ReadOnly));
    let div = field("DIV", 8, 12, Some(Access::WriteOnly));
    let mut r = register("CR", 0, Some(32), None, Some(vec![en, st, div]));
    r.reset_value = Some(0x10);
    let v = gen_register_write_methods(&r, &no_defaults()).unwrap();
    match &v[0] {
        Fragment::Impl { name, items } => {
            assert_eq!(name, "Cr");
            assert_eq!(items.len(), 3);
            assert!(matches!(&items[0], Accessor::ResetValue { value: 0x10 }));
            assert!(matches!(&items[1], Accessor::BitSetter { name, offset: 0 } if name == "set_en"));
            assert!(matches!(&items[2], Accessor::FieldSetter { name, offset: 8, width: 12, mask: 0xfff, ty: IntTy::U16 } if name == "set_div"));
        }
        other => panic!("unexpected {:?}", other),
    }
}

#[test]
fn default_reset_value_is_used() {
    let r = register("CR", 0, Some(32), Some(Access::ReadWrite), None);
    let d = Defaults { size: None, reset_value: Some(0xff), access: None };
    let v = gen_register_write_methods(&r, &d).unwrap();
    assert!(matches!(&v[0], Fragment::Impl { items, .. } if items.len() == 1 && matches!(items[0], Accessor::ResetValue { value: 0xff })));
}

#[test]
fn zero_width_field_is_fatal() {
    let r = register("CR", 0, Some(32), None, Some(vec![field("BAD", 0, 0, None)]));
    let e = gen_register_read_methods(&r, &no_defaults());
    assert!(matches!(e, Err(GenError::UnsupportedWidth { name, width: 0 }) if name == "BAD"));
}

#[test]
fn wide_field_is_fatal() {
    let r = register("CR", 0, Some(32), None, Some(vec![field("BAD", 0, 33, None)]));
    let e = gen_register_write_methods(&r, &no_defaults());
    assert!(matches!(e, Err(GenError::UnsupportedWidth { name, width: 33 }) if name == "BAD"));
}

#[test]
fn register_type_width() {
    let r = register("SR", 0, Some(9), Some(Access::ReadOnly), None);
    let v = gen_register(&r, &no_defaults()).unwrap();
    assert!(matches!(&v[0], Fragment::RegisterType { name, bits: IntTy::U16 } if name == "Sr"));
}

#[test]
fn keyword_field_gets_suffix() {
    assert_eq!(getter_name("MATCH"), "match_");
    assert_eq!(getter_name("match"), "match_");
    assert_eq!(getter_name("MATCHED"), "matched");
    assert_eq!(setter_name("MATCH"), "set_match");
}

#[test]
fn case_conversion() {
    assert_eq!(snake_name("PinOne"), "pin_one");
    assert_eq!(pascal_name("pin_one"), "PinOne");
    assert_eq!(setter_name("PinOne"), "set_pin_one");
}

#[test]
fn respace_collapses_whitespace() {
    assert_eq!(respace("  a \n\t b  c "), "a b c");
    assert_eq!(respace(""), "");
    assert_eq!(respace("   "), "");
    assert_eq!(respace("x\u{3000}y"), "x y");
}

#[test]
fn field_round_trip_and_isolation() {
    let raw = 0xdead_beefu32;
    let w = write_field(raw, 4, 3, 5);
    assert_eq!(read_field(w, 4, 3), 5);
    assert_eq!(w & !(7 << 4), raw & !(7 << 4));
    assert_eq!(w, 0xdead_bedf);
    let full = write_field(raw, 0, 32, 0x1234_5678);
    assert_eq!(read_field(full, 0, 32), 0x1234_5678);
    let top = write_field(0, 28, 4, 0xf);
    assert_eq!(top, 0xf000_0000);
    assert_eq!(read_field(top, 28, 4), 0xf);
}

#[test]
fn field_write_masks_the_value() {
    assert_eq!(write_field(0, 0, 3, 0xff), 7);
}

#[test]
fn bit_round_trip_and_isolation() {
    let raw = 0x0000_00f0u32;
    let set = write_bit(raw, 0, true);
    assert_eq!(set, 0xf1);
    assert!(read_bit(set, 0));
    let clear = write_bit(raw, 4, false);
    assert_eq!(clear, 0xe0);
    assert!(!read_bit(clear, 4));
    assert!(read_bit(write_bit(0, 31, true), 31));
}

#[test]
fn masks() {
    assert_eq!(mask_of(1), 1);
    assert_eq!(mask_of(3), 7);
    assert_eq!(mask_of(16), 0xffff);
    assert_eq!(mask_of(32), 0xffff_ffff);
}
