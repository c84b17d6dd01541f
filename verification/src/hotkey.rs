//! The keyboard key and the gamepad button that show the overlay.

use vstd::prelude::*;

verus! {

/// A key the user can choose, or none.
#[derive(Debug, Clone, Copy, PartialEq, Eq, Structural)]
pub enum SelectableHotkey {
    Alt,
    LShift,
    LCtrl,
    Tab,
    Super,
    Disabled,
}

impl Default for SelectableHotkey {
    fn default() -> (r: Self)
        ensures
            r == SelectableHotkey::Alt,
    {
        SelectableHotkey::Alt
    }
}

/// The name shown for a key.
pub open spec fn hotkey_name(k: SelectableHotkey) -> Seq<char> {
    match k {
        SelectableHotkey::Disabled => "Disabled"@,
        SelectableHotkey::Alt => "Alt"@,
        SelectableHotkey::LShift => "Left Shift"@,
        SelectableHotkey::LCtrl => "Left Ctrl"@,
        SelectableHotkey::Tab => "Tab"@,
        SelectableHotkey::Super => "Windows"@,
    }
}

impl SelectableHotkey {
    pub fn as_str(&self) -> (r: &'static str)
        ensures
            r@ == hotkey_name(*self),
    {
        match self {
            SelectableHotkey::Disabled => "Disabled",
            SelectableHotkey::Alt => "Alt",
            SelectableHotkey::LShift => "Left Shift",
            SelectableHotkey::LCtrl => "Left Ctrl",
            SelectableHotkey::Tab => "Tab",
            SelectableHotkey::Super => "Windows",
        }
    }
}

/// What a key event tells the overlay: shown on a press of the chosen key, hidden on its
/// release, nothing for other keys or when no key is chosen.
pub open spec fn overlay_signal_of(chosen: SelectableHotkey, is_chosen_key: bool, pressed: bool) -> Option<bool> {
    if chosen == SelectableHotkey::Disabled || !is_chosen_key {
        None
    } else {
        Some(pressed)
    }
}

/// What a key event tells the overlay; `is_chosen_key` says whether the event's key is the
/// chosen one.
pub fn overlay_signal(chosen: SelectableHotkey, is_chosen_key: bool, pressed: bool) -> (r: Option<bool>)
    ensures
        r == overlay_signal_of(chosen, is_chosen_key, pressed),
{
    if matches!(chosen, SelectableHotkey::Disabled) || !is_chosen_key {
        None
    } else {
        Some(pressed)
    }
}

/// A gamepad button.
#[derive(Debug, Clone, Copy, PartialEq, Eq, Hash, Structural)]
pub enum GamepadButton {
    South,
    East,
    North,
    West,
    C,
    Z,
    LeftTrigger,
    LeftTrigger2,
    RightTrigger,
    RightTrigger2,
    Select,
    Start,
    Mode,
    LeftThumb,
    RightThumb,
    DPadUp,
    DPadDown,
    DPadLeft,
    DPadRight,
    Unknown,
}

/// The gamepad button chosen to show the overlay: a button, none, or waiting for the user
/// to press the one to choose.
#[derive(Debug, Clone, Copy, PartialEq, Eq, Structural)]
pub enum SelectedButtonState {
    Selected(GamepadButton),
    Disabled,
    Choosing,
}

impl Default for SelectedButtonState {
    fn default() -> (r: Self)
        ensures
            r == SelectedButtonState::Disabled,
    {
        SelectedButtonState::Disabled
    }
}

/// The user's hotkey settings. By default the overlay shows while Alt is held, or while the
/// button that PlayStation pads label Options (Start on others) is held.
#[derive(Debug, Clone, Copy, PartialEq, Eq, Structural)]
pub struct HotkeySettings {
    pub key: SelectableHotkey,
    pub button: SelectedButtonState,
}

impl Default for HotkeySettings {
    fn default() -> (r: Self)
        ensures
            r.key == SelectableHotkey::Alt,
            r.button == SelectedButtonState::Selected(GamepadButton::Start),
    {
        HotkeySettings { key: SelectableHotkey::Alt, button: SelectedButtonState::Selected(GamepadButton::Start) }
    }
}

/// A gamepad button event.
#[derive(Debug, Clone, Copy, PartialEq, Eq, Structural)]
pub enum GamepadEvent {
    ButtonPressed(GamepadButton),
    ButtonReleased(GamepadButton),
}

/// Taking gamepad events in order: while choosing, the first press chooses its button and
/// ends the run (the events after it are left for later); a press of the chosen button
/// shows the overlay and its release hides it. Gives the button setting after the run, the
/// overlay signals, and how many events were taken.
pub open spec fn button_run(button: SelectedButtonState, events: Seq<GamepadEvent>) -> (SelectedButtonState, Seq<bool>, nat)
    decreases events.len(),
{
    if events.len() == 0 {
        (button, seq![], 0)
    } else {
        match events[0] {
            GamepadEvent::ButtonPressed(b) => if button == SelectedButtonState::Choosing {
                (SelectedButtonState::Selected(b), seq![], 1)
            } else {
                let rest = button_run(button, events.drop_first());
                (
                    rest.0,
                    (if button == SelectedButtonState::Selected(b) {
                        seq![true]
                    } else {
                        seq![]
                    }) + rest.1,
                    rest.2 + 1,
                )
            },
            GamepadEvent::ButtonReleased(b) => {
                let rest = button_run(button, events.drop_first());
                (
                    rest.0,
                    (if button == SelectedButtonState::Selected(b) {
                        seq![false]
                    } else {
                        seq![]
                    }) + rest.1,
                    rest.2 + 1,
                )
            },
        }
    }
}

/// Takes gamepad events in order (see `button_run`): updates the button setting and gives
/// the overlay signals and how many events were taken.
pub fn handle_gamepad_events(settings: &mut HotkeySettings, events: &Vec<GamepadEvent>) -> (r: (Vec<bool>, usize))
    ensures
        final(settings).button == button_run(old(settings).button, events@).0,
        r.0@ == button_run(old(settings).button, events@).1,
        r.1 == button_run(old(settings).button, events@).2,
        final(settings).key == old(settings).key,
{
    let start = settings.button;
    let mut signals: Vec<bool> = Vec::new();
    let mut i: usize = 0;
    assert(events@.skip(0) =~= events@);
    while i < events.len()
        invariant
            i <= events@.len(),
            settings.button == start,
            settings.key == old(settings).key,
            start == old(settings).button,
            button_run(start, events@).0 == button_run(start, events@.skip(i as int)).0,
            button_run(start, events@).1 == signals@ + button_run(start, events@.skip(i as int)).1,
            button_run(start, events@).2 == button_run(start, events@.skip(i as int)).2 + i,
        decreases events@.len() - i,
    {
        let ghost rest = events@.skip(i as int);
        assert(rest[0] == events@[i as int]);
        assert(rest.drop_first() =~= events@.skip(i + 1));
        let ghost before = signals@;
        match events[i] {
            GamepadEvent::ButtonPressed(b) => {
                if matches!(settings.button, SelectedButtonState::Choosing) {
                    settings.button = SelectedButtonState::Selected(b);
                    assert(signals@ + Seq::<bool>::empty() =~= signals@);
                    return (signals, i + 1);
                }
                if settings.button == SelectedButtonState::Selected(b) {
                    signals.push(true);
                    assert(signals@ =~= before + seq![true]);
                } else {
                    assert(signals@ =~= before + Seq::<bool>::empty());
                }
            },
            GamepadEvent::ButtonReleased(b) => {
                if settings.button == SelectedButtonState::Selected(b) {
                    signals.push(false);
                    assert(signals@ =~= before + seq![false]);
                } else {
                    assert(signals@ =~= before + Seq::<bool>::empty());
                }
            },
        }
        proof {
            let r1 = button_run(start, events@.skip(i + 1));
            let added = signals@.skip(before.len() as int);
            assert(signals@ =~= before + added);
            assert(before + (added + r1.1) =~= signals@ + r1.1);
        }
        i = i + 1;
    }
    assert(events@.skip(i as int) =~= Seq::<GamepadEvent>::empty());
    assert(signals@ + Seq::<bool>::empty() =~= signals@);
    (signals, i)
}

} // verus!
