use makair_telemetry::structures::{AlarmPriority, VentilationMode, VentilationModeClass, VentilationModeKind};
use std::cmp::Ordering;

#[test]
fn order_alarm_priority() {
    let high = AlarmPriority::High;
    let medium = AlarmPriority::Medium;
    let low = AlarmPriority::Low;

    // equal
    assert_eq!(high.cmp(&high), Ordering::Equal);
    assert_eq!(medium.cmp(&medium), Ordering::Equal);
    assert_eq!(low.cmp(&low), Ordering::Equal);

    // lower
    assert_eq!(medium.cmp(&high), Ordering::Less);
    assert_eq!(low.cmp(&high), Ordering::Less);
    assert_eq!(low.cmp(&medium), Ordering::Less);

    // greater
    assert_eq!(high.cmp(&medium), Ordering::Greater);
    assert_eq!(high.cmp(&low), Ordering::Greater);
    assert_eq!(medium.cmp(&low), Ordering::Greater);
}

#[test]
fn partial_cmp_agrees_with_cmp() {
    let all = [AlarmPriority::Low, AlarmPriority::Medium, AlarmPriority::High];
    for a in all.iter() {
        for b in all.iter() {
            assert_eq!(a.partial_cmp(b), Some(a.cmp(b)));
        }
    }
    assert!(AlarmPriority::High > AlarmPriority::Medium);
    assert!(AlarmPriority::Medium > AlarmPriority::Low);
    assert_eq!(AlarmPriority::High.rank(), 3);
}

#[test]
fn ventilation_mode_class_and_kind() {
    assert_eq!(VentilationMode::PC_CMV.class(), VentilationModeClass::Pressure);
    assert_eq!(VentilationMode::PC_AC.class(), VentilationModeClass::Pressure);
    assert_eq!(VentilationMode::PC_VSAI.class(), VentilationModeClass::Pressure);
    assert_eq!(VentilationMode::VC_CMV.class(), VentilationModeClass::Volume);
    assert_eq!(VentilationMode::VC_AC.class(), VentilationModeClass::Volume);
    assert_eq!(VentilationMode::PC_CMV.kind(), VentilationModeKind::Cmv);
    assert_eq!(VentilationMode::VC_CMV.kind(), VentilationModeKind::Cmv);
    assert_eq!(VentilationMode::PC_AC.kind(), VentilationModeKind::Ac);
    assert_eq!(VentilationMode::VC_AC.kind(), VentilationModeKind::Ac);
    assert_eq!(VentilationMode::PC_VSAI.kind(), VentilationModeKind::Vsai);
}

#[test]
fn ventilation_mode_wire_values() {
    assert_eq!(VentilationMode::try_from_u8(1), Some(VentilationMode::PC_CMV));
    assert_eq!(VentilationMode::try_from_u8(5), Some(VentilationMode::VC_AC));
    assert_eq!(VentilationMode::try_from_u8(0), None);
    assert_eq!(VentilationMode::try_from_u8(6), None);
    assert_eq!(VentilationMode::VC_CMV.as_u8(), 3);
    assert_eq!(VentilationMode::default(), VentilationMode::PC_AC);
}
