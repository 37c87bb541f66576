use st7701s::fields::{clamp_field, combine};
use st7701s::Command;

#[test]
fn serializes_address_then_parameters() {
    let c = Command { address: 0x36, parameters: vec![0x10] };
    assert_eq!(c.to_words(), vec![[0x36, 0x00], [0x10, 0x01]]);
    assert_eq!(c.serialize_address(), [0x36, 0x00]);
    assert_eq!(Command::serialize_parameter(0x10), [0x10, 0x01]);
}

#[test]
fn serializes_command_without_parameters_as_one_word() {
    let c = Command::new(0x29);
    assert_eq!(c.to_words(), vec![[0x29, 0x00]]);
}

#[test]
fn serialization_keeps_parameter_order() {
    let c = Command::new(0xC3).arg(0x80).args(&[0x12, 0x34]).arg(0x56);
    assert_eq!(c.parameters, vec![0x80, 0x12, 0x34, 0x56]);
    assert_eq!(
        c.to_words(),
        vec![[0xC3, 0x00], [0x80, 0x01], [0x12, 0x01], [0x34, 0x01], [0x56, 0x01]]
    );
}

#[test]
fn builder_appends_in_call_order() {
    let c = Command::new(0xB0).args(&[]).arg(1).args(&[2, 3]);
    assert_eq!(c.address, 0xB0);
    assert_eq!(c.parameters, vec![1, 2, 3]);
}

#[test]
fn combine_disjoint_fields() {
    assert_eq!(combine(&[0x80, 0x04]), 0x84);
    assert_eq!(combine(&[]), 0x00);
    assert_eq!(combine(&[0x20, 0x08, 0x04]), 0x2C);
}

#[test]
fn combine_folds_with_or() {
    assert_eq!(combine(&[0x0F, 0x03]), 0x0F);
}

#[test]
fn clamp_alpha_field() {
    assert_eq!(clamp_field(0x1F, 0x0F), 0x0F);
    assert_eq!(clamp_field(0x05, 0x0F), 0x05);
    assert_eq!(clamp_field(0x0F, 0x0F), 0x0F);
    assert_eq!(clamp_field(0xFF, 0x0F), 0x0F);
}

#[test]
fn commands_compare_structurally() {
    let a = Command::new(0xC0).args(&[0x3B, 0x00]);
    let b = Command { address: 0xC0, parameters: vec![0x3B, 0x00] };
    assert!(a == b);
    assert!(a != Command { address: 0xC0, parameters: vec![0x3B] });
    assert!(a != Command { address: 0xC0, parameters: vec![0x3B, 0x01] });
    assert!(a != Command { address: 0xC1, parameters: vec![0x3B, 0x00] });
}
