use native_shortcut::shortcut::{
    event_flags_contain, EVENT_FLAG_ALTERNATE, EVENT_FLAG_COMMAND, EVENT_FLAG_CONTROL,
    EVENT_FLAG_SHIFT,
};
use native_shortcut::NativeShortcut;

#[test]
fn flag_bits_match_core_graphics() {
    assert_eq!(EVENT_FLAG_SHIFT, 0x0002_0000);
    assert_eq!(EVENT_FLAG_CONTROL, 0x0004_0000);
    assert_eq!(EVENT_FLAG_ALTERNATE, 0x0008_0000);
    assert_eq!(EVENT_FLAG_COMMAND, 0x0010_0000);
}

#[test]
fn containment_needs_every_bit() {
    assert!(event_flags_contain(0x0008_0100, EVENT_FLAG_ALTERNATE));
    assert!(!event_flags_contain(0x0000_0100, EVENT_FLAG_ALTERNATE));
    assert!(event_flags_contain(0x0003_0000, 0x0003_0000));
    assert!(!event_flags_contain(0x0001_0000, 0x0003_0000));
    assert!(event_flags_contain(0, 0));
}

#[test]
fn modifier_pressed_reads_the_family_bit() {
    let option_down = 0x0008_0100u64;
    let command_down = 0x0010_0108u64;
    let control_down = 0x0004_0101u64;
    let shift_down = 0x0002_0102u64;
    assert!(NativeShortcut::RightOption.modifier_pressed(option_down));
    assert!(NativeShortcut::LeftOption.modifier_pressed(option_down));
    assert!(!NativeShortcut::RightOption.modifier_pressed(command_down));
    assert!(NativeShortcut::LeftCmd.modifier_pressed(command_down));
    assert!(!NativeShortcut::LeftCmd.modifier_pressed(shift_down));
    assert!(NativeShortcut::RightCtrl.modifier_pressed(control_down));
    assert!(NativeShortcut::RightShift.modifier_pressed(shift_down));
    assert!(!NativeShortcut::RightShift.modifier_pressed(0x100));
}
