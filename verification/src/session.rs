use vstd::prelude::*;

verus! {

/// What the system reports about the session, the display and power.
#[derive(Clone, Copy, Debug, Default, PartialEq, Eq, Structural)]
pub struct SessionState {
    pub locked: bool,
    pub display_off: bool,
    pub suspended: bool,
    pub on_battery: bool,
    pub energy_saver: bool,
    pub display_changed: bool,
    pub clock_changed: bool,
}

/// The power source and saver state, as `GetSystemPowerStatus` reports them.
#[derive(Clone, Copy, Debug, PartialEq, Eq, Structural)]
pub struct PowerStatus {
    pub ac_line_status: u8,
    pub system_status_flag: u8,
}

/// A notification from the system about the session, the display or power.
#[derive(Clone, Copy, Debug, PartialEq, Eq, Structural)]
pub enum SessionEvent {
    /// The monitor layout or resolution changed.
    DisplayChanged,
    /// The system clock was set.
    ClockChanged,
    /// The session was locked.
    Locked,
    /// The session was unlocked.
    Unlocked,
    /// The machine is going to sleep.
    Suspending,
    /// The machine woke up; the power status read at that moment, if it could be read.
    Resumed(Option<PowerStatus>),
    /// Power source or saver changed; the power status, if it could be read.
    PowerChanged(Option<PowerStatus>),
    /// The display was turned off or on.
    DisplayPower { off: bool },
}

/// `state` with the power fields taken from `power`, when it could be read.
pub open spec fn with_power(state: SessionState, power: Option<PowerStatus>) -> SessionState {
    match power {
        Some(p) => SessionState {
            on_battery: p.ac_line_status == 0,
            energy_saver: p.system_status_flag == 1,
            ..state
        },
        None => state,
    }
}

/// The state after `event`.
pub open spec fn after_event(state: SessionState, event: SessionEvent) -> SessionState {
    match event {
        SessionEvent::DisplayChanged => SessionState { display_changed: true, ..state },
        SessionEvent::ClockChanged => SessionState { clock_changed: true, ..state },
        SessionEvent::Locked => SessionState { locked: true, ..state },
        SessionEvent::Unlocked => SessionState { locked: false, clock_changed: true, ..state },
        SessionEvent::Suspending => SessionState { suspended: true, ..state },
        SessionEvent::Resumed(power) => with_power(
            SessionState {
                suspended: false,
                clock_changed: true,
                display_changed: true,
                ..state
            },
            power,
        ),
        SessionEvent::PowerChanged(power) => with_power(state, power),
        SessionEvent::DisplayPower { off } => SessionState {
            display_off: off,
            clock_changed: state.clock_changed || !off,
            ..state
        },
    }
}

impl SessionState {
    /// Nobody can see the desktop: the session is locked, the display is off,
    /// or the machine is asleep.
    pub open spec fn dormant(self) -> bool {
        self.locked || self.display_off || self.suspended
    }

    pub fn is_dormant(&self) -> (dormant: bool)
        ensures
            dormant == self.dormant(),
    {
        self.locked || self.display_off || self.suspended
    }

    /// Takes the power fields from a status reading.
    pub fn update_power(&mut self, power: PowerStatus)
        ensures
            *final(self) == with_power(*old(self), Some(power)),
    {
        self.on_battery = power.ac_line_status == 0;
        self.energy_saver = power.system_status_flag == 1;
    }

    /// Applies a system notification.
    pub fn on_event(&mut self, event: SessionEvent)
        ensures
            *final(self) == after_event(*old(self), event),
    {
        match event {
            SessionEvent::DisplayChanged => self.display_changed = true,
            SessionEvent::ClockChanged => self.clock_changed = true,
            SessionEvent::Locked => self.locked = true,
            SessionEvent::Unlocked => {
                self.locked = false;
                self.clock_changed = true;
            },
            SessionEvent::Suspending => self.suspended = true,
            SessionEvent::Resumed(power) => {
                self.suspended = false;
                self.clock_changed = true;
                self.display_changed = true;
                if let Some(power) = power {
                    self.update_power(power);
                }
            },
            SessionEvent::PowerChanged(power) => {
                if let Some(power) = power {
                    self.update_power(power);
                }
            },
            SessionEvent::DisplayPower { off } => {
                self.display_off = off;
                if !off {
                    self.clock_changed = true;
                }
            },
        }
    }

    /// Reports whether the display layout and the clock changed since the last
    /// call, and forgets both.
    pub fn take_changes(&mut self) -> (changes: (bool, bool))
        ensures
            changes == (old(self).display_changed, old(self).clock_changed),
            *final(self) == (SessionState {
                display_changed: false,
                clock_changed: false,
                ..*old(self)
            }),
    {
        let changes = (self.display_changed, self.clock_changed);
        self.display_changed = false;
        self.clock_changed = false;
        changes
    }
}

/// Waking up, unlocking or turning the display back on always asks for the
/// schedule to be looked at again, since the clock may have moved meanwhile.
pub proof fn waking_rechecks_the_clock(state: SessionState, power: Option<PowerStatus>)
    ensures
        after_event(state, SessionEvent::Unlocked).clock_changed,
        after_event(state, SessionEvent::Resumed(power)).clock_changed,
        after_event(state, SessionEvent::DisplayPower { off: false }).clock_changed,
        !after_event(state, SessionEvent::Resumed(power)).suspended,
        after_event(state, SessionEvent::Locked).dormant(),
        after_event(state, SessionEvent::Suspending).dormant(),
        after_event(state, SessionEvent::DisplayPower { off: true }).dormant(),
{
}

/// The display flag follows the latest display notification: it is what was
/// reported, whatever it was before. Turning the display off and on again
/// gives back the state from before, with the clock to be checked again; and
/// turning it on in a session that is neither locked nor asleep leaves nobody
/// kept from seeing the desktop. No other notification touches the flag.
pub proof fn display_flag_follows_the_display(state: SessionState, off: bool, event: SessionEvent)
    ensures
        after_event(state, SessionEvent::DisplayPower { off }).display_off == off,
        after_event(
            after_event(state, SessionEvent::DisplayPower { off: true }),
            SessionEvent::DisplayPower { off: false },
        ) == (SessionState { display_off: false, clock_changed: true, ..state }),
        !state.locked && !state.suspended ==> !after_event(
            state,
            SessionEvent::DisplayPower { off: false },
        ).dormant(),
        !(event is DisplayPower) ==> after_event(state, event).display_off == state.display_off,
        !(SessionState {
            locked: false,
            display_off: false,
            suspended: false,
            on_battery: false,
            energy_saver: false,
            display_changed: false,
            clock_changed: false,
        }).dormant(),
{
}

} // verus!
