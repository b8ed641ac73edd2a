use vstd::prelude::*;

verus! {

/// The highest volume value reported to the playback layer.
pub const MAX_VOLUME: u16 = 65535;

/// A change observed on the audio device.
#[derive(Copy, Clone, Debug, Hash, PartialEq, Eq, Structural)]
pub enum CecEvent {
    PowerIsOnChange(bool),
    /// Order: old, new
    VolumeChange(u16, u16),
}

/// The device volume, 0 to 100, mapped onto the playback layer's full
/// range; values above 100 saturate.
pub open spec fn spec_convert_volume(volume: u8) -> u16 {
    if volume <= 100 {
        ((65535 * volume as int) / 100) as u16
    } else {
        65535u16
    }
}

/// Maps a device volume of 0 to 100 onto the playback layer's full range.
pub fn convert_volume(volume: u8) -> (r: u16)
    ensures
        r == spec_convert_volume(volume),
{
    proof {
        assert((65535 as int) * (volume as int) <= 65535 * 255) by (nonlinear_arith)
            requires
                volume <= 255,
        ;
    }
    let wide: u32 = (MAX_VOLUME as u32) * (volume as u32) / 100;
    if wide <= 65535 {
        proof {
            assert(volume <= 100) by (nonlinear_arith)
                requires
                    wide == (65535 * volume as int) / 100,
                    wide <= 65535,
            ;
        }
        wide as u16
    } else {
        proof {
            assert(volume > 100) by (nonlinear_arith)
                requires
                    wide == (65535 * volume as int) / 100,
                    wide > 65535,
            ;
        }
        MAX_VOLUME
    }
}

/// The volume value inside an audio-status report: the device reports a
/// muted state as the volume plus 0x80.
pub open spec fn spec_decode_reported_volume(raw: u8) -> u8 {
    if raw > 0x80 {
        (raw - 0x80) as u8
    } else {
        raw
    }
}

/// Extracts the volume from an audio-status report, stripping the mute flag.
pub fn decode_reported_volume(raw: u8) -> (r: u8)
    ensures
        r == spec_decode_reported_volume(raw),
{
    if raw > 0x80 {
        raw - 0x80
    } else {
        raw
    }
}

/// What this side tracks of the audio device: mirrored from the device's
/// own reports.
pub struct CecDeviceState {
    pub device_on: bool,
    pub device_volume: u8,
    pub volume_init: bool,
}

/// One command received from the device, reduced to what the tracking state
/// reads: the opcode kind and its first parameter byte.
#[derive(Copy, Clone, Debug, PartialEq, Eq, Structural)]
pub enum CecCommandKind {
    /// The device reported its power status.
    ReportPowerStatus(u8),
    /// The device reported its audio status (volume and mute flag).
    ReportAudioStatus(u8),
    /// The device announced system-audio mode on or off.
    SetSystemAudioMode(u8),
    /// Any other opcode; ignored.
    Other,
}

impl CecDeviceState {
    /// A fresh tracking state: nothing reported yet.
    pub fn new() -> (r: CecDeviceState)
        ensures
            !r.device_on,
            r.device_volume == 0,
            !r.volume_init,
    {
        CecDeviceState { device_on: false, device_volume: 0, volume_init: false }
    }

    /// Applies one received command: power reports toggle the power mirror,
    /// audio-status reports set the volume mirror (stripping the mute flag)
    /// and mark it initialized, and everything else is ignored.
    pub fn apply_command(&mut self, command: CecCommandKind)
        ensures
            ({
                match command {
                    CecCommandKind::ReportPowerStatus(p) => *final(self) == CecDeviceState {
                        device_on: p > 0,
                        ..*old(self)
                    },
                    CecCommandKind::ReportAudioStatus(v) => *final(self) == CecDeviceState {
                        device_volume: spec_decode_reported_volume(v),
                        volume_init: true,
                        ..*old(self)
                    },
                    CecCommandKind::SetSystemAudioMode(p) => *final(self) == CecDeviceState {
                        device_on: p > 0,
                        ..*old(self)
                    },
                    CecCommandKind::Other => *final(self) == *old(self),
                }
            }),
    {
        match command {
            CecCommandKind::ReportPowerStatus(p) => {
                self.device_on = p > 0;
            },
            CecCommandKind::ReportAudioStatus(v) => {
                self.device_volume = decode_reported_volume(v);
                self.volume_init = true;
            },
            CecCommandKind::SetSystemAudioMode(p) => {
                self.device_on = p > 0;
            },
            CecCommandKind::Other => {},
        }
    }
}

/// The event the monitoring task owes when the device's power differs from
/// the last value it published: the new power state, or nothing.
pub fn power_change(published: bool, device_on: bool) -> (r: Option<CecEvent>)
    ensures
        published == device_on ==> r is None,
        published != device_on ==> r == Some(CecEvent::PowerIsOnChange(device_on)),
{
    if published != device_on {
        Some(CecEvent::PowerIsOnChange(device_on))
    } else {
        None
    }
}

/// The event the monitoring task owes when the device's volume differs from
/// the last value it published: the old and new mapped volumes, or nothing.
pub fn volume_change(published: u8, device_volume: u8) -> (r: Option<CecEvent>)
    ensures
        published == device_volume ==> r is None,
        published != device_volume ==> r == Some(
            CecEvent::VolumeChange(
                spec_convert_volume(published),
                spec_convert_volume(device_volume),
            ),
        ),
{
    if published != device_volume {
        Some(CecEvent::VolumeChange(convert_volume(published), convert_volume(device_volume)))
    } else {
        None
    }
}

} // verus!
