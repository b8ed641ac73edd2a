use spotipi::cec::{
    convert_volume, decode_reported_volume, power_change, volume_change, CecCommandKind,
    CecDeviceState, CecEvent,
};

#[test]
fn convert_volume_maps_percentage_to_full_range() {
    assert_eq!(convert_volume(0), 0);
    assert_eq!(convert_volume(50), 32767);
    assert_eq!(convert_volume(100), 65535);
}

#[test]
fn convert_volume_saturates_above_one_hundred() {
    assert_eq!(convert_volume(101), 65535);
    assert_eq!(convert_volume(255), 65535);
}

#[test]
fn decode_strips_the_mute_flag() {
    assert_eq!(decode_reported_volume(0x85), 5);
    assert_eq!(decode_reported_volume(0xFF), 0x7F);
    // exactly 0x80 is not treated as muted
    assert_eq!(decode_reported_volume(0x80), 0x80);
    assert_eq!(decode_reported_volume(42), 42);
}

#[test]
fn apply_command_updates_the_mirrored_state() {
    let mut state = CecDeviceState::new();
    assert!(!state.device_on);
    assert!(!state.volume_init);

    state.apply_command(CecCommandKind::ReportPowerStatus(1));
    assert!(state.device_on);

    state.apply_command(CecCommandKind::ReportAudioStatus(0x85));
    assert_eq!(state.device_volume, 5);
    assert!(state.volume_init);

    state.apply_command(CecCommandKind::SetSystemAudioMode(0));
    assert!(!state.device_on);

    state.apply_command(CecCommandKind::Other);
    assert!(!state.device_on);
    assert_eq!(state.device_volume, 5);
}

#[test]
fn power_change_fires_only_on_difference() {
    assert_eq!(power_change(false, false), None);
    assert_eq!(power_change(true, true), None);
    assert_eq!(power_change(false, true), Some(CecEvent::PowerIsOnChange(true)));
    assert_eq!(power_change(true, false), Some(CecEvent::PowerIsOnChange(false)));
}

#[test]
fn volume_change_reports_old_then_new_mapped_volumes() {
    assert_eq!(volume_change(30, 30), None);
    assert_eq!(
        volume_change(30, 40),
        Some(CecEvent::VolumeChange(convert_volume(30), convert_volume(40)))
    );
}
