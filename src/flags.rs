use vstd::prelude::*;

verus! {

pub const INIT_NORMAL: u32 = 0x00000000;
pub const INIT_STREAM_FROM_UPDATE: u32 = 0x00000001;
pub const INIT_MIX_FROM_UPDATE: u32 = 0x00000002;
pub const INIT_RIGHTHANDED_3D: u32 = 0x00000004;
pub const INIT_CLIP_OUTPUT: u32 = 0x00000008;
pub const INIT_CHANNEL_LOWPASS: u32 = 0x00000100;
pub const INIT_CHANNEL_DISTANCEFILTER: u32 = 0x00000200;
pub const INIT_PROFILE_ENABLE: u32 = 0x00010000;
pub const INIT_VOL0_BECOMES_VIRTUAL: u32 = 0x00020000;
pub const INIT_GEOMETRY_USECLOSEST: u32 = 0x00040000;
pub const INIT_PREFER_DOLBY_DOWNMIX: u32 = 0x00080000;
pub const INIT_THREAD_UNSAFE: u32 = 0x00100000;
pub const INIT_PROFILE_METER_ALL: u32 = 0x00200000;
pub const INIT_MEMORY_TRACKING: u32 = 0x00400000;
/// Every bit that a `Init` flag sets.
pub const INIT_ALL: u32 = 0x007f030f;

pub const LOAD_BANK_NORMAL: u32 = 0x00000000;
pub const LOAD_BANK_NONBLOCKING: u32 = 0x00000001;
pub const LOAD_BANK_DECOMPRESS_SAMPLES: u32 = 0x00000002;
pub const LOAD_BANK_UNENCRYPTED: u32 = 0x00000004;
/// Every bit that a `LoadBank` flag sets.
pub const LOAD_BANK_ALL: u32 = 0x00000007;

pub const STUDIO_INIT_NORMAL: u32 = 0x00000000;
pub const STUDIO_INIT_LIVEUPDATE: u32 = 0x00000001;
pub const STUDIO_INIT_ALLOW_MISSING_PLUGINS: u32 = 0x00000002;
pub const STUDIO_INIT_SYNCHRONOUS_UPDATE: u32 = 0x00000004;
pub const STUDIO_INIT_DEFERRED_CALLBACKS: u32 = 0x00000008;
pub const STUDIO_INIT_LOAD_FROM_UPDATE: u32 = 0x00000010;
pub const STUDIO_INIT_MEMORY_TRACKING: u32 = 0x00000020;
/// Every bit that a `StudioInit` flag sets.
pub const STUDIO_INIT_ALL: u32 = 0x0000003f;

/// Flags for initialising the core system.
#[derive(Debug, Clone, Copy, PartialEq, Eq, Structural)]
pub struct Init {
    bits: u32,
}

impl View for Init {
    type V = u32;

    closed spec fn view(&self) -> u32 {
        self.bits
    }
}

impl Init {
    /// The set with no flag.
    pub fn empty() -> (r: Init)
        ensures
            r@ == 0,
    {
        Init { bits: 0 }
    }

    /// The set of the given bits, or `None` when one of them is no `Init` flag.
    pub fn from_bits(bits: u32) -> (r: Option<Init>)
        ensures
            bits & !INIT_ALL == 0 ==> (r matches Some(f) && f@ == bits),
            bits & !INIT_ALL != 0 ==> r is None,
    {
        if bits & !INIT_ALL == 0 {
            Some(Init { bits })
        } else {
            None
        }
    }

    /// The set of the given bits, leaving out those that are no `Init` flag.
    pub fn from_bits_truncate(bits: u32) -> (r: Init)
        ensures
            r@ == bits & INIT_ALL,
    {
        Init { bits: bits & INIT_ALL }
    }

    /// The raw value that crosses the binding.
    pub fn bits(&self) -> (b: u32)
        ensures
            b == self@,
    {
        self.bits
    }

    /// The flags of both sets.
    pub fn union(self, other: Init) -> (r: Init)
        ensures
            r@ == self@ | other@,
    {
        Init { bits: self.bits | other.bits }
    }

    /// Whether every flag of `other` is in this set.
    pub fn contains(self, other: Init) -> (b: bool)
        ensures
            b <==> self@ & other@ == other@,
    {
        self.bits & other.bits == other.bits
    }
}

/// Flags for loading a bank.
#[derive(Debug, Clone, Copy, PartialEq, Eq, Structural)]
pub struct LoadBank {
    bits: u32,
}

impl View for LoadBank {
    type V = u32;

    closed spec fn view(&self) -> u32 {
        self.bits
    }
}

impl LoadBank {
    /// The set with no flag.
    pub fn empty() -> (r: LoadBank)
        ensures
            r@ == 0,
    {
        LoadBank { bits: 0 }
    }

    /// The set of the given bits, or `None` when one of them is no `LoadBank` flag.
    pub fn from_bits(bits: u32) -> (r: Option<LoadBank>)
        ensures
            bits & !LOAD_BANK_ALL == 0 ==> (r matches Some(f) && f@ == bits),
            bits & !LOAD_BANK_ALL != 0 ==> r is None,
    {
        if bits & !LOAD_BANK_ALL == 0 {
            Some(LoadBank { bits })
        } else {
            None
        }
    }

    /// The set of the given bits, leaving out those that are no `LoadBank` flag.
    pub fn from_bits_truncate(bits: u32) -> (r: LoadBank)
        ensures
            r@ == bits & LOAD_BANK_ALL,
    {
        LoadBank { bits: bits & LOAD_BANK_ALL }
    }

    /// The raw value that crosses the binding.
    pub fn bits(&self) -> (b: u32)
        ensures
            b == self@,
    {
        self.bits
    }

    /// The flags of both sets.
    pub fn union(self, other: LoadBank) -> (r: LoadBank)
        ensures
            r@ == self@ | other@,
    {
        LoadBank { bits: self.bits | other.bits }
    }

    /// Whether every flag of `other` is in this set.
    pub fn contains(self, other: LoadBank) -> (b: bool)
        ensures
            b <==> self@ & other@ == other@,
    {
        self.bits & other.bits == other.bits
    }
}

/// Flags for initialising the studio system.
#[derive(Debug, Clone, Copy, PartialEq, Eq, Structural)]
pub struct StudioInit {
    bits: u32,
}

impl View for StudioInit {
    type V = u32;

    closed spec fn view(&self) -> u32 {
        self.bits
    }
}

impl StudioInit {
    /// The set with no flag.
    pub fn empty() -> (r: StudioInit)
        ensures
            r@ == 0,
    {
        StudioInit { bits: 0 }
    }

    /// The set of the given bits, or `None` when one of them is no `StudioInit` flag.
    pub fn from_bits(bits: u32) -> (r: Option<StudioInit>)
        ensures
            bits & !STUDIO_INIT_ALL == 0 ==> (r matches Some(f) && f@ == bits),
            bits & !STUDIO_INIT_ALL != 0 ==> r is None,
    {
        if bits & !STUDIO_INIT_ALL == 0 {
            Some(StudioInit { bits })
        } else {
            None
        }
    }

    /// The set of the given bits, leaving out those that are no `StudioInit` flag.
    pub fn from_bits_truncate(bits: u32) -> (r: StudioInit)
        ensures
            r@ == bits & STUDIO_INIT_ALL,
    {
        StudioInit { bits: bits & STUDIO_INIT_ALL }
    }

    /// The raw value that crosses the binding.
    pub fn bits(&self) -> (b: u32)
        ensures
            b == self@,
    {
        self.bits
    }

    /// The flags of both sets.
    pub fn union(self, other: StudioInit) -> (r: StudioInit)
        ensures
            r@ == self@ | other@,
    {
        StudioInit { bits: self.bits | other.bits }
    }

    /// Whether every flag of `other` is in this set.
    pub fn contains(self, other: StudioInit) -> (b: bool)
        ensures
            b <==> self@ & other@ == other@,
    {
        self.bits & other.bits == other.bits
    }
}

} // verus!
