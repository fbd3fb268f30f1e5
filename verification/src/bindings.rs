//! The radio binding table: the single bridge between owned hardware
//! resources and a foreign radio-control library that expects plain,
//! context-free entry points.
//!
//! Each resource is moved into its well-known slot exactly once during
//! initialization (write-once); from then on the slot is the sole access
//! path to the resource. The registry records every invocation it
//! forwards, so the contracts can say exactly when a slot acted: an
//! unpopulated optional slot is a safe, observable no-op, never a fault.
//! The hardware effect of a forwarded call belongs to the foreign layer
//! and is outside this model.

use vstd::prelude::*;

use crate::errors::CoreError;

verus! {

/// The well-known slots of the binding table: four required resources
/// and four optional ones.
#[derive(Clone, Copy, Debug, PartialEq, Eq, Structural)]
pub enum BindingSlot {
    /// Radio reset line control (required).
    Reset,
    /// SPI byte transfer (required).
    SpiInOut,
    /// SPI chip-select control (required).
    SpiNss,
    /// Millisecond delay (required).
    DelayMs,
    /// Antenna switch control (optional).
    AntennaSwitch,
    /// Crystal-oscillator enable (optional).
    TcxoEnable,
    /// Busy-pin read (optional).
    BusyPin,
    /// Power-limit control (optional).
    PowerLimit,
}

/// Which optional behaviors are present, so callers can skip invoking
/// absent ones instead of relying on the no-op semantics.
#[derive(Clone, Copy, Debug, PartialEq, Eq, Structural)]
pub struct Capabilities {
    /// An antenna switch is bound.
    pub antenna_switch: bool,
    /// A crystal-oscillator enable is bound.
    pub tcxo_enable: bool,
    /// A busy-pin read is bound.
    pub busy_pin: bool,
    /// A power-limit control is bound.
    pub power_limit: bool,
}

/// The singleton registry bridging hardware resources to the foreign
/// callback interface.
pub struct RadioBindingTable {
    reset_bound: bool,
    spi_in_out_bound: bool,
    spi_nss_bound: bool,
    delay_ms_bound: bool,
    antenna_bound: bool,
    tcxo_bound: bool,
    busy_bound: bool,
    power_bound: bool,
    antenna_calls: u64,
    tcxo_calls: u64,
    busy_calls: u64,
    power_calls: u64,
    last_antenna: Option<(u8, u8)>,
    last_tcxo: Option<bool>,
    last_power: Option<u8>,
}

impl RadioBindingTable {
    /// Whether the given slot has been populated.
    pub closed spec fn is_bound(&self, slot: BindingSlot) -> bool {
        match slot {
            BindingSlot::Reset => self.reset_bound,
            BindingSlot::SpiInOut => self.spi_in_out_bound,
            BindingSlot::SpiNss => self.spi_nss_bound,
            BindingSlot::DelayMs => self.delay_ms_bound,
            BindingSlot::AntennaSwitch => self.antenna_bound,
            BindingSlot::TcxoEnable => self.tcxo_bound,
            BindingSlot::BusyPin => self.busy_bound,
            BindingSlot::PowerLimit => self.power_bound,
        }
    }

    /// How often the antenna switch has been invoked.
    pub closed spec fn antenna_invocations(&self) -> u64 {
        self.antenna_calls
    }

    /// How often the crystal-oscillator enable has been invoked.
    pub closed spec fn tcxo_invocations(&self) -> u64 {
        self.tcxo_calls
    }

    /// How often the busy pin has been read.
    pub closed spec fn busy_invocations(&self) -> u64 {
        self.busy_calls
    }

    /// How often the power-limit control has been invoked.
    pub closed spec fn power_invocations(&self) -> u64 {
        self.power_calls
    }

    /// The antenna mode and power of the last forwarded antenna call.
    pub closed spec fn last_antenna_setting(&self) -> Option<(u8, u8)> {
        self.last_antenna
    }

    /// The argument of the last forwarded oscillator-enable call.
    pub closed spec fn last_tcxo_setting(&self) -> Option<bool> {
        self.last_tcxo
    }

    /// The argument of the last forwarded power-limit call.
    pub closed spec fn last_power_setting(&self) -> Option<u8> {
        self.last_power
    }

    /// An empty table: no slot populated, nothing ever invoked.
    pub fn new() -> (t: RadioBindingTable)
        ensures
            forall|slot: BindingSlot| !t.is_bound(slot),
            t.antenna_invocations() == 0,
            t.tcxo_invocations() == 0,
            t.busy_invocations() == 0,
            t.power_invocations() == 0,
            t.last_antenna_setting() == Option::<(u8, u8)>::None,
            t.last_tcxo_setting() == Option::<bool>::None,
            t.last_power_setting() == Option::<u8>::None,
    {
        RadioBindingTable {
            reset_bound: false,
            spi_in_out_bound: false,
            spi_nss_bound: false,
            delay_ms_bound: false,
            antenna_bound: false,
            tcxo_bound: false,
            busy_bound: false,
            power_bound: false,
            antenna_calls: 0,
            tcxo_calls: 0,
            busy_calls: 0,
            power_calls: 0,
            last_antenna: None,
            last_tcxo: None,
            last_power: None,
        }
    }

    /// Populates one slot, exactly once: a second attempt on the same
    /// slot fails with `ConfigurationError` and changes nothing.
    pub fn bind(&mut self, slot: BindingSlot) -> (r: Result<(), CoreError>)
        ensures
            old(self).is_bound(slot) ==> r == Err::<(), CoreError>(CoreError::ConfigurationError)
                && *final(self) == *old(self),
            !old(self).is_bound(slot) ==> r == Ok::<(), CoreError>(()) && final(self).is_bound(
                slot,
            ),
            forall|other: BindingSlot|
                other != slot ==> final(self).is_bound(other) == old(self).is_bound(other),
            final(self).antenna_invocations() == old(self).antenna_invocations(),
            final(self).tcxo_invocations() == old(self).tcxo_invocations(),
            final(self).busy_invocations() == old(self).busy_invocations(),
            final(self).power_invocations() == old(self).power_invocations(),
            final(self).last_antenna_setting() == old(self).last_antenna_setting(),
            final(self).last_tcxo_setting() == old(self).last_tcxo_setting(),
            final(self).last_power_setting() == old(self).last_power_setting(),
    {
        match slot {
            BindingSlot::Reset => {
                if self.reset_bound {
                    Err(CoreError::ConfigurationError)
                } else {
                    self.reset_bound = true;
                    Ok(())
                }
            },
            BindingSlot::SpiInOut => {
                if self.spi_in_out_bound {
                    Err(CoreError::ConfigurationError)
                } else {
                    self.spi_in_out_bound = true;
                    Ok(())
                }
            },
            BindingSlot::SpiNss => {
                if self.spi_nss_bound {
                    Err(CoreError::ConfigurationError)
                } else {
                    self.spi_nss_bound = true;
                    Ok(())
                }
            },
            BindingSlot::DelayMs => {
                if self.delay_ms_bound {
                    Err(CoreError::ConfigurationError)
                } else {
                    self.delay_ms_bound = true;
                    Ok(())
                }
            },
            BindingSlot::AntennaSwitch => {
                if self.antenna_bound {
                    Err(CoreError::ConfigurationError)
                } else {
                    self.antenna_bound = true;
                    Ok(())
                }
            },
            BindingSlot::TcxoEnable => {
                if self.tcxo_bound {
                    Err(CoreError::ConfigurationError)
                } else {
                    self.tcxo_bound = true;
                    Ok(())
                }
            },
            BindingSlot::BusyPin => {
                if self.busy_bound {
                    Err(CoreError::ConfigurationError)
                } else {
                    self.busy_bound = true;
                    Ok(())
                }
            },
            BindingSlot::PowerLimit => {
                if self.power_bound {
                    Err(CoreError::ConfigurationError)
                } else {
                    self.power_bound = true;
                    Ok(())
                }
            },
        }
    }

    /// The capability descriptor: which optional behaviors are present.
    pub fn capabilities(&self) -> (c: Capabilities)
        ensures
            c.antenna_switch == self.is_bound(BindingSlot::AntennaSwitch),
            c.tcxo_enable == self.is_bound(BindingSlot::TcxoEnable),
            c.busy_pin == self.is_bound(BindingSlot::BusyPin),
            c.power_limit == self.is_bound(BindingSlot::PowerLimit),
    {
        Capabilities {
            antenna_switch: self.antenna_bound,
            tcxo_enable: self.tcxo_bound,
            busy_pin: self.busy_bound,
            power_limit: self.power_bound,
        }
    }

    /// Whether every required slot is populated, so the foreign driver
    /// may be started.
    pub fn driver_ready(&self) -> (r: bool)
        ensures
            r == (self.is_bound(BindingSlot::Reset) && self.is_bound(BindingSlot::SpiInOut)
                && self.is_bound(BindingSlot::SpiNss) && self.is_bound(BindingSlot::DelayMs)),
    {
        self.reset_bound && self.spi_in_out_bound && self.spi_nss_bound && self.delay_ms_bound
    }

    /// How often the antenna switch has been invoked.
    pub fn antenna_call_count(&self) -> (n: u64)
        ensures
            n == self.antenna_invocations(),
    {
        self.antenna_calls
    }

    /// How often the crystal-oscillator enable has been invoked.
    pub fn tcxo_call_count(&self) -> (n: u64)
        ensures
            n == self.tcxo_invocations(),
    {
        self.tcxo_calls
    }

    /// How often the busy pin has been read.
    pub fn busy_call_count(&self) -> (n: u64)
        ensures
            n == self.busy_invocations(),
    {
        self.busy_calls
    }

    /// How often the power-limit control has been invoked.
    pub fn power_call_count(&self) -> (n: u64)
        ensures
            n == self.power_invocations(),
    {
        self.power_calls
    }

    /// Law, antenna slot: the bound resource is invoked exactly when
    /// this entry point is called — once per call, recording the
    /// arguments — while an unpopulated slot never faults and produces
    /// no observable effect.
    pub fn set_antenna_pins(&mut self, mode: u8, power: u8) -> (invoked: bool)
        requires
            old(self).antenna_invocations() < u64::MAX,
        ensures
            invoked == old(self).is_bound(BindingSlot::AntennaSwitch),
            invoked ==> final(self).antenna_invocations() == old(self).antenna_invocations() + 1
                && final(self).last_antenna_setting() == Option::Some((mode, power))
                && same_but_antenna(*old(self), *final(self)),
            !invoked ==> *final(self) == *old(self),
    {
        if self.antenna_bound {
            self.antenna_calls = self.antenna_calls + 1;
            self.last_antenna = Some((mode, power));
            true
        } else {
            false
        }
    }

    /// Law, oscillator slot: invoked exactly when called and populated;
    /// an unpopulated slot is a safe no-op whose caller sees the neutral
    /// answer `false`.
    pub fn set_board_tcxo(&mut self, enable: bool) -> (invoked: bool)
        requires
            old(self).tcxo_invocations() < u64::MAX,
        ensures
            invoked == old(self).is_bound(BindingSlot::TcxoEnable),
            invoked ==> final(self).tcxo_invocations() == old(self).tcxo_invocations() + 1
                && final(self).last_tcxo_setting() == Option::Some(enable) && same_but_tcxo(
                *old(self),
                *final(self),
            ),
            !invoked ==> *final(self) == *old(self),
    {
        if self.tcxo_bound {
            self.tcxo_calls = self.tcxo_calls + 1;
            self.last_tcxo = Some(enable);
            true
        } else {
            false
        }
    }

    /// Law, busy-pin slot: the pin is read exactly when this entry point
    /// is called and the slot is populated; an unpopulated slot is a
    /// safe no-op.
    pub fn poll_busy_pin(&mut self) -> (invoked: bool)
        requires
            old(self).busy_invocations() < u64::MAX,
        ensures
            invoked == old(self).is_bound(BindingSlot::BusyPin),
            invoked ==> final(self).busy_invocations() == old(self).busy_invocations() + 1
                && same_but_busy(*old(self), *final(self)),
            !invoked ==> *final(self) == *old(self),
    {
        if self.busy_bound {
            self.busy_calls = self.busy_calls + 1;
            true
        } else {
            false
        }
    }

    /// Law, power-limit slot: invoked exactly when called and populated,
    /// recording the limit; an unpopulated slot is a safe no-op.
    pub fn reduce_power(&mut self, limit: u8) -> (invoked: bool)
        requires
            old(self).power_invocations() < u64::MAX,
        ensures
            invoked == old(self).is_bound(BindingSlot::PowerLimit),
            invoked ==> final(self).power_invocations() == old(self).power_invocations() + 1
                && final(self).last_power_setting() == Option::Some(limit) && same_but_power(
                *old(self),
                *final(self),
            ),
            !invoked ==> *final(self) == *old(self),
    {
        if self.power_bound {
            self.power_calls = self.power_calls + 1;
            self.last_power = Some(limit);
            true
        } else {
            false
        }
    }
}

/// The two tables agree everywhere except the antenna call record.
pub open spec fn same_but_antenna(before: RadioBindingTable, after: RadioBindingTable) -> bool {
    &&& forall|slot: BindingSlot| after.is_bound(slot) == before.is_bound(slot)
    &&& after.tcxo_invocations() == before.tcxo_invocations()
    &&& after.busy_invocations() == before.busy_invocations()
    &&& after.power_invocations() == before.power_invocations()
    &&& after.last_tcxo_setting() == before.last_tcxo_setting()
    &&& after.last_power_setting() == before.last_power_setting()
}

/// The two tables agree everywhere except the oscillator call record.
pub open spec fn same_but_tcxo(before: RadioBindingTable, after: RadioBindingTable) -> bool {
    &&& forall|slot: BindingSlot| after.is_bound(slot) == before.is_bound(slot)
    &&& after.antenna_invocations() == before.antenna_invocations()
    &&& after.busy_invocations() == before.busy_invocations()
    &&& after.power_invocations() == before.power_invocations()
    &&& after.last_antenna_setting() == before.last_antenna_setting()
    &&& after.last_power_setting() == before.last_power_setting()
}

/// The two tables agree everywhere except the busy-pin call record.
pub open spec fn same_but_busy(before: RadioBindingTable, after: RadioBindingTable) -> bool {
    &&& forall|slot: BindingSlot| after.is_bound(slot) == before.is_bound(slot)
    &&& after.antenna_invocations() == before.antenna_invocations()
    &&& after.tcxo_invocations() == before.tcxo_invocations()
    &&& after.power_invocations() == before.power_invocations()
    &&& after.last_antenna_setting() == before.last_antenna_setting()
    &&& after.last_tcxo_setting() == before.last_tcxo_setting()
    &&& after.last_power_setting() == before.last_power_setting()
}

/// The two tables agree everywhere except the power-limit call record.
pub open spec fn same_but_power(before: RadioBindingTable, after: RadioBindingTable) -> bool {
    &&& forall|slot: BindingSlot| after.is_bound(slot) == before.is_bound(slot)
    &&& after.antenna_invocations() == before.antenna_invocations()
    &&& after.tcxo_invocations() == before.tcxo_invocations()
    &&& after.busy_invocations() == before.busy_invocations()
    &&& after.last_antenna_setting() == before.last_antenna_setting()
    &&& after.last_tcxo_setting() == before.last_tcxo_setting()
}

} // verus!
