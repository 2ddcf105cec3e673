//! The power state of the monitor, and the Windows events that tell of it.
use vstd::prelude::*;

verus! {

/// The window message that carries power events (`WM_POWERBROADCAST`).
pub const WM_POWERBROADCAST: u32 = 0x0218;

/// The power event that says that a power setting changed.
pub const PBT_POWERSETTINGCHANGE: u32 = 0x8013;

/// `GUID_CONSOLE_DISPLAY_STATE`, the display state of the console session.
pub const GUID_CONSOLE_DISPLAY_STATE: u128 = 0x6fe69556_704a_47a0_8f24_c28d936fda47;

/// `GUID_MONITOR_POWER_ON`, whether the primary monitor is powered.
pub const GUID_MONITOR_POWER_ON: u128 = 0x02731015_4510_4526_99e6_e5a17ebd1aea;

/// Whether the monitor is on.
#[derive(Debug, Clone, Copy, PartialEq, Eq, Structural)]
pub enum MonitorState {
    On,
    Off,
}

impl MonitorState {
    /// The text that is published for a state.
    pub open spec fn text(self) -> Seq<char> {
        match self {
            MonitorState::On => "ON"@,
            MonitorState::Off => "OFF"@,
        }
    }

    /// The state that a power value stands for: 0 is off; 1 is on, and 2, a
    /// dimmed monitor, counts as on, as does any other value.
    pub open spec fn of_power_value(value: u32) -> MonitorState {
        if value == 0 {
            MonitorState::Off
        } else {
            MonitorState::On
        }
    }

    /// The text that is published for a state.
    pub fn as_str(self) -> (res: &'static str)
        ensures
            res@ == self.text(),
    {
        match self {
            MonitorState::On => "ON",
            MonitorState::Off => "OFF",
        }
    }

    /// The state that a power value stands for.
    pub fn from_power_value(value: u32) -> (res: MonitorState)
        ensures
            res == MonitorState::of_power_value(value),
    {
        match value {
            0 => MonitorState::Off,
            _ => MonitorState::On,
        }
    }
}

/// The two power settings that tell of the monitor.
pub open spec fn monitor_setting(setting: u128) -> bool {
    setting == GUID_CONSOLE_DISPLAY_STATE || setting == GUID_MONITOR_POWER_ON
}

/// The monitor state that a power setting change tells of, if it is one of the
/// monitor: `setting` is the setting's identifier, `value` the first byte of
/// its data.
pub fn parse_power_setting_change(setting: u128, value: u8) -> (res: Option<MonitorState>)
    ensures
        res == (if monitor_setting(setting) {
            Some(MonitorState::of_power_value(value as u32))
        } else {
            None
        }),
{
    if setting == GUID_CONSOLE_DISPLAY_STATE || setting == GUID_MONITOR_POWER_ON {
        Some(MonitorState::from_power_value(value as u32))
    } else {
        None
    }
}

/// Whether a window message announces a power setting change. Of its first
/// parameter only the low half counts.
pub fn is_power_setting_change(message: u32, wparam: u64) -> (res: bool)
    ensures
        res == (message == WM_POWERBROADCAST && wparam % 0x1_0000_0000
            == PBT_POWERSETTINGCHANGE),
{
    message == WM_POWERBROADCAST && wparam % 0x1_0000_0000 == PBT_POWERSETTINGCHANGE as u64
}

/// The two states are told apart by what is published of them.
pub proof fn law_texts_differ(a: MonitorState, b: MonitorState)
    ensures
        a.text() == b.text() <==> a == b,
{
    reveal_strlit("ON");
    reveal_strlit("OFF");
    assert("ON"@.len() != "OFF"@.len());
}

/// A monitor is off where its power value is zero, and on at every other value;
/// it is published as `ON` or `OFF`.
pub proof fn law_only_zero_is_off(value: u32)
    ensures
        MonitorState::of_power_value(value) == MonitorState::Off <==> value == 0,
        MonitorState::of_power_value(value).text() == (if value == 0 {
            "OFF"@
        } else {
            "ON"@
        }),
        MonitorState::On.text() == "ON"@,
        MonitorState::Off.text() == "OFF"@,
{
}

/// Of all power settings two tell of the monitor, those with these identifiers.
pub proof fn law_two_settings_tell_of_the_monitor(setting: u128)
    ensures
        monitor_setting(setting) <==> setting == 0x6fe69556_704a_47a0_8f24_c28d936fda47
            || setting == 0x02731015_4510_4526_99e6_e5a17ebd1aea,
{
}

/// What is told of the monitor goes by the identifier and the value alone, and
/// whichever way the value comes it means the same.
pub proof fn law_settings_are_read_by_value(
    setting: u128,
    value: u8,
    read: Option<MonitorState>,
    wide: MonitorState,
)
    requires
        call_ensures(parse_power_setting_change, (setting, value), read),
        call_ensures(MonitorState::from_power_value, (value as u32,), wide),
    ensures
        read is Some ==> read == Some(wide),
        read is Some <==> setting == 0x6fe69556_704a_47a0_8f24_c28d936fda47 || setting
            == 0x02731015_4510_4526_99e6_e5a17ebd1aea,
        wide == MonitorState::Off <==> value == 0,
{
}

/// A message announces a change if and only if it is the power broadcast, with
/// the event for a changed setting in the low half of its first parameter.
pub proof fn law_announcements_go_by_the_low_half(message: u32, high: u32, low: u32, res: bool)
    requires
        call_ensures(
            is_power_setting_change,
            (message, (high * 0x1_0000_0000 + low) as u64),
            res,
        ),
    ensures
        res <==> message == 0x0218 && low == 0x8013,
{
    let wparam = (high * 0x1_0000_0000 + low) as u64;
    assert(wparam % 0x1_0000_0000 == low) by (nonlinear_arith)
        requires
            wparam == high * 0x1_0000_0000 + low,
            0 <= low < 0x1_0000_0000,
    ;
}

} // verus!
