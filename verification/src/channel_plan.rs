//! Deterministic frequency selection over the fixed EU868 regional tables.
//!
//! All lookups are pure functions of the immutable channel tables and the
//! small [`Configuration`] state; there is no I/O and no randomness beyond
//! the byte the caller passes in.

use vstd::prelude::*;

use crate::errors::CoreError;

verus! {

/// Seconds until the first receive window opens after a join request.
pub const JOIN_ACCEPT_DELAY1: usize = 5;

/// Seconds until the second receive window opens after a join request.
pub const JOIN_ACCEPT_DELAY2: usize = 6;

/// The uplink carrier table of the regional plan, in units of 10 Hz.
pub open spec fn uplink_table() -> Seq<u32> {
    seq![
        864_100_00u32,
        864_300_00u32,
        864_500_00u32,
        868_100_00u32,
        868_300_00u32,
        868_500_00u32,
    ]
}

/// The downlink carrier table of the regional plan, in units of 10 Hz.
pub open spec fn downlink_table() -> Seq<u32> {
    seq![868_100_00u32, 868_300_00u32, 868_500_00u32]
}

/// The uplink-table index a data-frequency lookup selects: one below the
/// explicit subband when one is set, else bits 3 to 5 of the random byte.
pub open spec fn data_index(subband: Option<u8>, random: u8) -> int {
    match subband {
        Option::Some(s) => s - 1,
        Option::None => ((random >> 3) & 0b111) as int,
    }
}

/// Channel-plan state: the optional explicitly configured subband and the
/// subband used by the last join attempt.
pub struct Configuration {
    subband: Option<u8>,
    last_join: u8,
}

impl Configuration {
    /// The explicitly configured subband, if any.
    pub closed spec fn explicit_subband(&self) -> Option<u8> {
        self.subband
    }

    /// The subband recorded by the last join attempt.
    pub closed spec fn last_join_subband(&self) -> u8 {
        self.last_join
    }

    /// The recorded join subband always indexes the downlink table.
    pub open spec fn wf(&self) -> bool {
        self.last_join_subband() < downlink_table().len()
    }

    /// A fresh configuration: no explicit subband, last join subband zero.
    pub fn new() -> (c: Configuration)
        ensures
            c.explicit_subband() == Option::<u8>::None,
            c.last_join_subband() == 0,
            c.wf(),
    {
        Configuration { subband: None, last_join: 0 }
    }

    /// Sets the explicit subband used by later data-frequency lookups.
    pub fn set_subband(&mut self, subband: u8)
        ensures
            final(self).explicit_subband() == Option::Some(subband),
            final(self).last_join_subband() == old(self).last_join_subband(),
    {
        self.subband = Some(subband);
    }

    /// The uplink frequency for a join request. The subband is fixed to
    /// zero (a randomized derivation is deliberately not in effect) and is
    /// recorded for the later join-accept downlink lookup.
    pub fn get_join_frequency(&mut self, random: u8) -> (r: u32)
        ensures
            r == uplink_table()[0],
            final(self).last_join_subband() == 0,
            final(self).explicit_subband() == old(self).explicit_subband(),
            final(self).wf(),
    {
        let subband: u8 = 0;
        self.last_join = subband;
        uplink_at(subband as usize)
    }

    /// The uplink frequency for a data transmission: `uplink[index]` with
    /// the index of [`data_index`], or `ConfigurationError` exactly when
    /// that index lies outside the uplink table.
    pub fn get_data_frequency(&mut self, random: u8) -> (r: Result<u32, CoreError>)
        ensures
            *final(self) == *old(self),
            ({
                let idx = data_index(old(self).explicit_subband(), random);
                match r {
                    Result::Ok(f) => 0 <= idx < uplink_table().len() && f == uplink_table()[idx],
                    Result::Err(e) => !(0 <= idx < uplink_table().len())
                        && e == CoreError::ConfigurationError,
                }
            }),
    {
        let index: Option<usize> = match self.subband {
            Some(s) => {
                if 1 <= s && s <= 6 {
                    Some((s - 1) as usize)
                } else {
                    None
                }
            },
            None => {
                let bits: u8 = (random >> 3) & 0b111;
                if bits < 6 {
                    Some(bits as usize)
                } else {
                    None
                }
            },
        };
        match index {
            Some(i) => Ok(uplink_at(i)),
            None => Err(CoreError::ConfigurationError),
        }
    }

    /// The downlink frequency of the first join-accept receive window:
    /// `downlink[last_join_subband]`.
    pub fn get_join_accept_frequency1(&mut self) -> (r: u32)
        requires
            old(self).wf(),
        ensures
            r == downlink_table()[old(self).last_join_subband() as int],
            *final(self) == *old(self),
    {
        downlink_at(self.last_join as usize)
    }

    /// Seconds until the first join-accept receive window opens.
    pub fn get_join_accept_delay1(&mut self) -> (r: usize)
        ensures
            r == JOIN_ACCEPT_DELAY1,
            *final(self) == *old(self),
    {
        JOIN_ACCEPT_DELAY1
    }

    /// Seconds until the second join-accept receive window opens.
    pub fn get_join_accept_delay2(&mut self) -> (r: usize)
        ensures
            r == JOIN_ACCEPT_DELAY2,
            *final(self) == *old(self),
    {
        JOIN_ACCEPT_DELAY2
    }
}

/// The uplink table entry at `i`.
fn uplink_at(i: usize) -> (r: u32)
    requires
        i < uplink_table().len(),
    ensures
        r == uplink_table()[i as int],
{
    if i == 0 {
        864_100_00
    } else if i == 1 {
        864_300_00
    } else if i == 2 {
        864_500_00
    } else if i == 3 {
        868_100_00
    } else if i == 4 {
        868_300_00
    } else {
        868_500_00
    }
}

/// The downlink table entry at `i`.
fn downlink_at(i: usize) -> (r: u32)
    requires
        i < downlink_table().len(),
    ensures
        r == downlink_table()[i as int],
{
    if i == 0 {
        868_100_00
    } else if i == 1 {
        868_300_00
    } else {
        868_500_00
    }
}

/// Law: the join lookup's frequency is present in the uplink table.
pub proof fn lemma_join_frequency_in_uplink_table()
    ensures
        uplink_table().contains(uplink_table()[0]),
{
    assert(uplink_table()[0] == uplink_table()[0]);
}

/// Law: every frequency a successful data lookup can return is present in
/// the uplink table.
pub proof fn lemma_data_frequency_in_uplink_table(subband: Option<u8>, random: u8)
    requires
        0 <= data_index(subband, random) < uplink_table().len(),
    ensures
        uplink_table().contains(uplink_table()[data_index(subband, random)]),
{
    let idx = data_index(subband, random);
    assert(uplink_table()[idx] == uplink_table()[idx]);
}

/// Law: the join-accept lookup's frequency is present in the downlink
/// table, for every well-formed configuration.
pub proof fn lemma_join_accept_frequency_in_downlink_table(c: Configuration)
    requires
        c.wf(),
    ensures
        downlink_table().contains(downlink_table()[c.last_join_subband() as int]),
{
    let idx = c.last_join_subband() as int;
    assert(downlink_table()[idx] == downlink_table()[idx]);
}

} // verus!
