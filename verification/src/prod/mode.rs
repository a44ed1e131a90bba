//! Operating modes. The I²C-slave surface runs in every mode; a mode only decides who owns the
//! sensor bus. Switching is an action: entering Sensing acquires the bus as master, entering
//! Passive releases it so the SoM owns it, and a switch always releases before it acquires.
use vstd::prelude::*;
use crate::prod::image::BuildConfig;
use crate::prod::regmap;

verus! {

/// The MSP's operating posture.
#[derive(Clone, Copy, PartialEq, Eq, Debug, Structural)]
pub enum Mode {
    /// Off the sensor bus; the SoM owns it.
    Passive,
    /// Master of the sensor bus, monitoring.
    Sensing,
}

/// A mode that the image carries.
pub open spec fn built_in(m: Mode, image: BuildConfig) -> bool {
    match m {
        Mode::Passive => image.mode_passive,
        Mode::Sensing => image.mode_sensing,
    }
}

/// The mode an image boots into: Sensing when built, else Passive.
pub open spec fn boot_mode(image: BuildConfig) -> Mode {
    if image.mode_sensing { Mode::Sensing } else { Mode::Passive }
}

/// The wire code of a mode.
pub open spec fn code_of(m: Mode) -> u8 {
    match m {
        Mode::Passive => regmap::MODE_CODE_PASSIVE,
        Mode::Sensing => regmap::MODE_CODE_SENSING,
    }
}

impl Mode {
    /// Boot default: prefer Sensing when built in.
    pub fn default_boot(image: &BuildConfig) -> (m: Mode)
        ensures
            m == boot_mode(*image),
    {
        if image.mode_sensing { Mode::Sensing } else { Mode::Passive }
    }

    /// The other built-in mode; itself when only one mode is built in.
    pub fn toggled(self, image: &BuildConfig) -> (m: Mode)
        ensures
            m == (if image.mode_passive && image.mode_sensing {
                match self { Mode::Passive => Mode::Sensing, Mode::Sensing => Mode::Passive }
            } else {
                self
            }),
    {
        if image.mode_passive && image.mode_sensing {
            match self {
                Mode::Passive => Mode::Sensing,
                Mode::Sensing => Mode::Passive,
            }
        } else {
            self
        }
    }

    /// Does this mode master the sensor bus?
    pub fn is_sensing(self) -> (b: bool)
        ensures
            b == (self == Mode::Sensing),
    {
        match self {
            Mode::Sensing => true,
            Mode::Passive => false,
        }
    }

    /// Human-readable name.
    pub fn name(self) -> (s: &'static str)
        ensures
            s@ == (match self { Mode::Passive => "passive"@, Mode::Sensing => "sensing"@ }),
    {
        match self {
            Mode::Passive => "passive",
            Mode::Sensing => "sensing",
        }
    }

    /// Stable wire code for the SoM-facing mode register, independent of the build.
    pub fn code(self) -> (c: u8)
        ensures
            c == code_of(self),
    {
        match self {
            Mode::Passive => regmap::MODE_CODE_PASSIVE,
            Mode::Sensing => regmap::MODE_CODE_SENSING,
        }
    }

    /// Decode a wire code, but only to a mode this image carries; anything else is `None`.
    pub fn from_code(code: u8, image: &BuildConfig) -> (m: Option<Mode>)
        ensures
            m == (if code == regmap::MODE_CODE_PASSIVE && image.mode_passive {
                Some(Mode::Passive)
            } else if code == regmap::MODE_CODE_SENSING && image.mode_sensing {
                Some(Mode::Sensing)
            } else {
                None::<Mode>
            }),
    {
        if code == regmap::MODE_CODE_PASSIVE && image.mode_passive {
            Some(Mode::Passive)
        } else if code == regmap::MODE_CODE_SENSING && image.mode_sensing {
            Some(Mode::Sensing)
        } else {
            None
        }
    }
}

/// A sensor-bus ownership action the caller performs on the hardware.
#[derive(Clone, Copy, PartialEq, Eq, Debug, Structural)]
pub enum BusAction {
    /// Route the sensor pins to eUSCI_B0 and bring it up as master.
    Acquire,
    /// Hold eUSCI_B0 in reset and tri-state the sensor pins.
    Release,
}

/// Entry action of a mode.
fn enter(m: Mode) -> (a: BusAction)
    ensures
        a == (if m == Mode::Sensing { BusAction::Acquire } else { BusAction::Release }),
{
    match m {
        Mode::Passive => BusAction::Release,
        Mode::Sensing => BusAction::Acquire,
    }
}

/// Exit action of a mode: leaving Sensing releases the bus; leaving Passive does nothing.
fn exit(m: Mode) -> (a: Option<BusAction>)
    ensures
        a == (if m == Mode::Sensing { Some(BusAction::Release) } else { None::<BusAction> }),
{
    match m {
        Mode::Passive => None,
        Mode::Sensing => Some(BusAction::Release),
    }
}

/// Whether the MSP masters the sensor bus after performing `actions` in order, starting from
/// `held`; `None` if an action would make it a second master (acquire while already holding).
pub open spec fn run_actions(held: bool, actions: Seq<BusAction>) -> Option<bool>
    decreases actions.len(),
{
    if actions.len() == 0 {
        Some(held)
    } else {
        match actions[0] {
            BusAction::Acquire => if held { None } else { run_actions(true, actions.skip(1)) },
            BusAction::Release => run_actions(false, actions.skip(1)),
        }
    }
}

/// The bus actions of a switch from `from` to `to`: none when already there, else the old mode's
/// exit followed by the new mode's entry.
pub open spec fn switch_actions(from: Mode, to: Mode) -> Seq<BusAction> {
    if to == from {
        Seq::empty()
    } else {
        match from {
            Mode::Sensing => seq![BusAction::Release, BusAction::Release],
            Mode::Passive => seq![BusAction::Acquire],
        }
    }
}

/// The runtime mode machine.
pub struct ModeMachine {
    current: Mode,
}

impl ModeMachine {
    /// The current mode.
    pub closed spec fn mode(&self) -> Mode {
        self.current
    }

    /// Boot into the image's default mode; the returned action is that mode's entry action.
    pub fn boot(image: &BuildConfig) -> (r: (ModeMachine, BusAction))
        ensures
            r.0.mode() == boot_mode(*image),
            r.1 == (if boot_mode(*image) == Mode::Sensing { BusAction::Acquire } else { BusAction::Release }),
    {
        let m = Mode::default_boot(image);
        let a = enter(m);
        (ModeMachine { current: m }, a)
    }

    /// The current mode.
    pub fn current(&self) -> (m: Mode)
        ensures
            m == self.mode(),
    {
        self.current
    }

    /// Does the current mode master the sensor bus?
    pub fn is_sensing(&self) -> (b: bool)
        ensures
            b == (self.mode() == Mode::Sensing),
    {
        self.current.is_sensing()
    }

    /// Switch to `new`; returns the bus actions to perform, in order (none if already there). The
    /// old mode's exit always comes before the new mode's entry.
    pub fn switch(&mut self, new: Mode) -> (actions: Vec<BusAction>)
        ensures
            final(self).mode() == new,
            actions@ == switch_actions(old(self).mode(), new),
    {
        let mut actions: Vec<BusAction> = Vec::new();
        if new == self.current {
            assert(actions@ =~= switch_actions(old(self).mode(), new));
            return actions;
        }
        match exit(self.current) {
            Some(a) => actions.push(a),
            None => {},
        }
        actions.push(enter(new));
        self.current = new;
        assert(actions@ =~= switch_actions(old(self).mode(), new));
        actions
    }
}

/// The sensor bus never has two masters, and after any switch the MSP holds the bus exactly when
/// the new mode is Sensing: starting from "held iff the old mode is Sensing", the switch's
/// actions never acquire a held bus and end with the bus held iff the new mode is Sensing.
pub proof fn switch_keeps_single_master(old_mode: Mode, new: Mode)
    ensures
        run_actions(old_mode == Mode::Sensing, switch_actions(old_mode, new)) == Some(new == Mode::Sensing),
{
    reveal_with_fuel(run_actions, 3);
    if new != old_mode {
        match old_mode {
            Mode::Sensing => {
                let s = seq![BusAction::Release, BusAction::Release];
                assert(s.skip(1) =~= seq![BusAction::Release]);
                assert(s.skip(1).skip(1) =~= Seq::<BusAction>::empty());
            },
            Mode::Passive => {
                let s = seq![BusAction::Acquire];
                assert(s.skip(1) =~= Seq::<BusAction>::empty());
            },
        }
    }
}

/// Booting leaves the MSP holding the sensor bus exactly when it boots into Sensing.
pub proof fn boot_holds_bus_iff_sensing(image: BuildConfig)
    ensures
        run_actions(false, seq![if boot_mode(image) == Mode::Sensing { BusAction::Acquire } else { BusAction::Release }])
            == Some(boot_mode(image) == Mode::Sensing),
{
    reveal_with_fuel(run_actions, 2);
    let s = seq![if boot_mode(image) == Mode::Sensing { BusAction::Acquire } else { BusAction::Release }];
    assert(s.skip(1) =~= Seq::<BusAction>::empty());
}

/// A mode's wire code decodes back to that mode in every image that carries it.
pub proof fn mode_code_round_trip(m: Mode, image: BuildConfig)
    requires
        built_in(m, image),
    ensures
        (if code_of(m) == regmap::MODE_CODE_PASSIVE && image.mode_passive {
            Some(Mode::Passive)
        } else if code_of(m) == regmap::MODE_CODE_SENSING && image.mode_sensing {
            Some(Mode::Sensing)
        } else {
            None::<Mode>
        }) == Some(m),
{
}

} // verus!
