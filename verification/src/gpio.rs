//! GPIO pin mode state machine.
//!
//! A pin value is tagged at the type level with its mode: `Unknown` (freshly
//! enumerated), `Input`, or `Output` parameterized by drive mode (push-pull
//! or open-drain). Mode transitions consume the old value and return a new
//! typed value together with the exact register writes that realize the
//! transition, so a pin can never be used in two modes at once and an
//! input-only operation on an output pin is rejected by the type system.

use vstd::prelude::*;

verus! {

/// Configuration flag: the pin is an input.
pub const GPIO_PIN_INPUT: u32 = 0x01;
/// Configuration flag: the pin is an output.
pub const GPIO_PIN_OUTPUT: u32 = 0x02;
/// Configuration flag: open-drain drive mode.
pub const GPIO_PIN_OPENDRAIN: u32 = 0x04;
/// Configuration flag: push-pull drive mode.
pub const GPIO_PIN_PUSHPULL: u32 = 0x08;
/// Capability and configuration flag: the pin can be preset low atomically
/// with the write that makes it an output.
pub const GPIO_PIN_PRESET_LOW: u32 = 0x400;
/// Capability and configuration flag: the pin can be preset high atomically
/// with the write that makes it an output.
pub const GPIO_PIN_PRESET_HIGH: u32 = 0x800;

/// Mode tag of a pin whose hardware configuration has not been set by us.
pub struct Unknown;

/// Mode tag of a pin configured as an input.
pub struct Input;

/// Mode tag of a pin configured as an output with drive-mode flag `OM`.
pub struct Output<const OM: u32>;

/// An output actively driving both levels.
pub type OutputPushPull = Output<GPIO_PIN_PUSHPULL>;

/// An output driving only low, relying on a pull-up for high.
pub type OutputOpenDrain = Output<GPIO_PIN_OPENDRAIN>;

/// A logic level a pin can be driven to or read at.
#[derive(Clone, Copy, PartialEq, Eq, Structural, Debug)]
pub enum PinState {
    Low,
    High,
}

/// A pin identified by its index, with the hardware capability bitmask
/// cached at enumeration time and, for outputs, the currently driven level.
pub struct GpioPin<M> {
    mode: M,
    num: u32,
    caps: u32,
    level: bool,
}

/// Mathematical model of a pin: its index, capability bitmask, and driven
/// level (meaningful while the pin is an output).
#[verifier::ext_equal]
pub ghost struct PinModel {
    pub num: u32,
    pub caps: u32,
    pub level: bool,
}

impl<M> View for GpioPin<M> {
    type V = PinModel;

    closed spec fn view(&self) -> PinModel {
        PinModel { num: self.num, caps: self.caps, level: self.level }
    }
}

/// The preset capability/configuration flag that matches a requested
/// initial level.
pub open spec fn preset_flag_for(state: PinState) -> u32 {
    match state {
        PinState::Low => GPIO_PIN_PRESET_LOW,
        PinState::High => GPIO_PIN_PRESET_HIGH,
    }
}

/// Whether a capability bitmask advertises the hardware preset feature for
/// the requested initial level.
pub open spec fn has_preset(caps: u32, state: PinState) -> bool {
    caps & preset_flag_for(state) == preset_flag_for(state)
}

/// The register writes that turn a pin into an output: exactly one
/// configuration write, followed by an explicit level-set call only when the
/// hardware cannot preset the requested level atomically. This keeps a pin
/// from ever sitting at an undefined level between becoming an output and
/// reaching the requested level when the hardware can avoid it.
#[derive(Clone, Copy, PartialEq, Eq, Structural, Debug)]
pub struct OutputPlan {
    /// Flags for the single configuration register write.
    pub config_flags: u32,
    /// Level for the single explicit level-set call that follows, if one is
    /// needed at all.
    pub follow_up_level: Option<PinState>,
}

/// The plan for configuring an output with drive-mode flag `mode_flag` and
/// the requested initial level, given the pin's capability bitmask.
pub open spec fn output_plan_spec(caps: u32, mode_flag: u32, state: PinState) -> OutputPlan {
    if has_preset(caps, state) {
        OutputPlan {
            config_flags: GPIO_PIN_OUTPUT | mode_flag | preset_flag_for(state),
            follow_up_level: None,
        }
    } else {
        OutputPlan { config_flags: GPIO_PIN_OUTPUT | mode_flag, follow_up_level: Some(state) }
    }
}

fn plan_output(caps: u32, mode_flag: u32, state: PinState) -> (r: OutputPlan)
    ensures
        r == output_plan_spec(caps, mode_flag, state),
{
    let preset = match state {
        PinState::Low => GPIO_PIN_PRESET_LOW,
        PinState::High => GPIO_PIN_PRESET_HIGH,
    };
    if caps & preset == preset {
        OutputPlan { config_flags: GPIO_PIN_OUTPUT | mode_flag | preset, follow_up_level: None }
    } else {
        OutputPlan { config_flags: GPIO_PIN_OUTPUT | mode_flag, follow_up_level: Some(state) }
    }
}

impl GpioPin<Unknown> {
    /// A freshly enumerated pin: mode not yet configured by us.
    pub fn new(num: u32, caps: u32) -> (r: GpioPin<Unknown>)
        ensures
            r@.num == num,
            r@.caps == caps,
    {
        GpioPin { mode: Unknown, num, caps, level: false }
    }
}

impl<M> GpioPin<M> {
    /// The pin's index on its controller.
    pub fn number(&self) -> (r: u32)
        ensures
            r == self@.num,
    {
        self.num
    }

    /// The pin's cached hardware capability bitmask.
    pub fn capabilities(&self) -> (r: u32)
        ensures
            r == self@.caps,
    {
        self.caps
    }

    /// Consume the pin and retype it as an input. The returned flags word is
    /// what the single configuration register write must carry; any
    /// previously configured drive mode is cleared by it.
    pub fn into_input_pin(self) -> (r: (GpioPin<Input>, u32))
        ensures
            r.0@.num == self@.num,
            r.0@.caps == self@.caps,
            r.1 == GPIO_PIN_INPUT,
    {
        (GpioPin { mode: Input, num: self.num, caps: self.caps, level: false }, GPIO_PIN_INPUT)
    }

    /// Consume the pin and retype it as a push-pull output driven to
    /// `state`, together with the register writes that realize it.
    pub fn into_output_pin(self, state: PinState) -> (r: (GpioPin<OutputPushPull>, OutputPlan))
        ensures
            r.0@.num == self@.num,
            r.0@.caps == self@.caps,
            r.0@.level == (state == PinState::High),
            r.1 == output_plan_spec(self@.caps, GPIO_PIN_PUSHPULL, state),
    {
        let plan = plan_output(self.caps, GPIO_PIN_PUSHPULL, state);
        (
            GpioPin {
                mode: Output,
                num: self.num,
                caps: self.caps,
                level: matches!(state, PinState::High),
            },
            plan,
        )
    }

    /// Consume the pin and retype it as an open-drain output driven to
    /// `state`, together with the register writes that realize it.
    pub fn into_open_drain_output_pin(self, state: PinState) -> (r: (
        GpioPin<OutputOpenDrain>,
        OutputPlan,
    ))
        ensures
            r.0@.num == self@.num,
            r.0@.caps == self@.caps,
            r.0@.level == (state == PinState::High),
            r.1 == output_plan_spec(self@.caps, GPIO_PIN_OPENDRAIN, state),
    {
        let plan = plan_output(self.caps, GPIO_PIN_OPENDRAIN, state);
        (
            GpioPin {
                mode: Output,
                num: self.num,
                caps: self.caps,
                level: matches!(state, PinState::High),
            },
            plan,
        )
    }
}

impl GpioPin<Input> {
    /// Decode what the platform's pin-read call returned for this input pin:
    /// a negative result reports failure, otherwise the electrical level is
    /// high exactly when the result is 1.
    pub fn is_high(&self, raw: i32) -> (r: Option<bool>)
        ensures
            r == (if raw == -1 {
                Option::<bool>::None
            } else {
                Option::Some(raw == 1)
            }),
    {
        if raw == -1 {
            None
        } else {
            Some(raw == 1)
        }
    }

    /// Decode what the platform's pin-read call returned, inverted: the
    /// level is low exactly when it is not high.
    pub fn is_low(&self, raw: i32) -> (r: Option<bool>)
        ensures
            r == (if raw == -1 {
                Option::<bool>::None
            } else {
                Option::Some(raw != 1)
            }),
    {
        match self.is_high(raw) {
            Some(v) => Some(!v),
            None => None,
        }
    }
}

/// A pin model with its driven level flipped, everything else unchanged.
pub open spec fn toggled(m: PinModel) -> PinModel {
    PinModel { level: !m.level, ..m }
}

impl<const OM: u32> GpioPin<Output<OM>> {
    /// Drive the output low.
    pub fn set_low(&mut self)
        ensures
            final(self)@ == (PinModel { level: false, ..old(self)@ }),
    {
        self.level = false;
    }

    /// Drive the output high.
    pub fn set_high(&mut self)
        ensures
            final(self)@ == (PinModel { level: true, ..old(self)@ }),
    {
        self.level = true;
    }

    /// Flip the driven level.
    pub fn toggle(&mut self)
        ensures
            final(self)@ == toggled(old(self)@),
    {
        self.level = !self.level;
    }

    /// The currently driven level is high. This reads back what the pin is
    /// driven to, not necessarily the electrical level (an open-drain output
    /// can be held low externally).
    pub fn is_set_high(&self) -> (r: bool)
        ensures
            r == self@.level,
    {
        self.level
    }

    /// The currently driven level is low.
    pub fn is_set_low(&self) -> (r: bool)
        ensures
            r == !self@.level,
    {
        !self.level
    }
}

/// Configuring an output skips the explicit level-set call exactly when the
/// capability bitmask advertises the preset feature for the requested level;
/// in that case the preset flag rides along in the one configuration write,
/// and otherwise exactly one level-set call for the requested level follows.
pub proof fn lemma_preset_avoids_level_set(caps: u32, mode_flag: u32, state: PinState)
    ensures
        output_plan_spec(caps, mode_flag, state).follow_up_level is None <==> has_preset(
            caps,
            state,
        ),
        has_preset(caps, state) ==> output_plan_spec(caps, mode_flag, state).config_flags
            == GPIO_PIN_OUTPUT | mode_flag | preset_flag_for(state),
        !has_preset(caps, state) ==> output_plan_spec(caps, mode_flag, state)
            == (OutputPlan { config_flags: GPIO_PIN_OUTPUT | mode_flag, follow_up_level: Some(state) }),
{
}

/// Toggling a pin twice returns it to its original driven level (and
/// changes nothing else), assuming no external interference.
pub proof fn lemma_toggle_twice(m: PinModel)
    ensures
        toggled(toggled(m)) == m,
{
}

} // verus!
