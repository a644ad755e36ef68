//! Versions, capability bits and algorithm bits of the protocol.

use vstd::prelude::*;

verus! {

/// A protocol version.
#[derive(Clone, Copy, Debug, PartialEq, Eq, Structural)]
pub enum SpdmVersion {
    SpdmVersion10,
    SpdmVersion11,
    SpdmVersion12,
    SpdmVersion13,
    SpdmVersion14,
}

/// The byte that stands for a version in a message: the major number in the
/// high half, the minor number in the low half.
pub open spec fn version_byte(version: SpdmVersion) -> u8 {
    match version {
        SpdmVersion::SpdmVersion10 => 0x10,
        SpdmVersion::SpdmVersion11 => 0x11,
        SpdmVersion::SpdmVersion12 => 0x12,
        SpdmVersion::SpdmVersion13 => 0x13,
        SpdmVersion::SpdmVersion14 => 0x14,
    }
}

/// The version that a byte stands for, if it stands for one.
pub open spec fn version_of_byte(byte: u8) -> Option<SpdmVersion> {
    if byte == 0x10 {
        Some(SpdmVersion::SpdmVersion10)
    } else if byte == 0x11 {
        Some(SpdmVersion::SpdmVersion11)
    } else if byte == 0x12 {
        Some(SpdmVersion::SpdmVersion12)
    } else if byte == 0x13 {
        Some(SpdmVersion::SpdmVersion13)
    } else if byte == 0x14 {
        Some(SpdmVersion::SpdmVersion14)
    } else {
        None
    }
}

impl SpdmVersion {
    /// The byte of this version in a message.
    pub fn get_u8(self) -> (byte: u8)
        ensures
            byte == version_byte(self),
    {
        match self {
            SpdmVersion::SpdmVersion10 => 0x10,
            SpdmVersion::SpdmVersion11 => 0x11,
            SpdmVersion::SpdmVersion12 => 0x12,
            SpdmVersion::SpdmVersion13 => 0x13,
            SpdmVersion::SpdmVersion14 => 0x14,
        }
    }

    /// The version that `byte` stands for.
    pub fn from_u8(byte: u8) -> (version: Option<SpdmVersion>)
        ensures
            version == version_of_byte(byte),
    {
        match byte {
            0x10 => Some(SpdmVersion::SpdmVersion10),
            0x11 => Some(SpdmVersion::SpdmVersion11),
            0x12 => Some(SpdmVersion::SpdmVersion12),
            0x13 => Some(SpdmVersion::SpdmVersion13),
            0x14 => Some(SpdmVersion::SpdmVersion14),
            _ => None,
        }
    }

    /// Whether this version is `other` or a later one.
    pub fn at_least(self, other: SpdmVersion) -> (later: bool)
        ensures
            later == (version_byte(self) >= version_byte(other)),
    {
        self.get_u8() >= other.get_u8()
    }
}

/// Every version is read back from its byte.
pub proof fn law_version_byte_round_trip(version: SpdmVersion)
    ensures
        version_of_byte(version_byte(version)) == Some(version),
{
}

/// A byte that is read as a version is the byte of that version.
pub proof fn law_version_of_byte_is_exact(byte: u8)
    ensures
        version_of_byte(byte) matches Some(version) ==> version_byte(version) == byte,
{
}

/// The capabilities of a requester, as a set of bits.
#[derive(Clone, Copy, Debug, PartialEq, Eq, Structural)]
pub struct SpdmRequestCapabilityFlags {
    pub bits: u32,
}

impl SpdmRequestCapabilityFlags {
    pub const CERT_CAP: u32 = 0x0000_0002;

    pub const CHAL_CAP: u32 = 0x0000_0004;

    pub const ENCRYPT_CAP: u32 = 0x0000_0040;

    pub const MAC_CAP: u32 = 0x0000_0080;

    pub const MUT_AUTH_CAP: u32 = 0x0000_0100;

    pub const KEY_EX_CAP: u32 = 0x0000_0200;

    pub const PSK_CAP: u32 = 0x0000_0400;

    pub const HBEAT_CAP: u32 = 0x0000_2000;

    pub const KEY_UPD_CAP: u32 = 0x0000_4000;

    pub const HANDSHAKE_IN_THE_CLEAR_CAP: u32 = 0x0000_8000;

    pub const CHUNK_CAP: u32 = 0x0002_0000;

    /// The set that holds exactly the given bits.
    pub fn from_bits(bits: u32) -> (flags: SpdmRequestCapabilityFlags)
        ensures
            flags.bits == bits,
    {
        SpdmRequestCapabilityFlags { bits }
    }

    /// Whether every bit of `mask` is set.
    pub open spec fn has(self, mask: u32) -> bool {
        self.bits & mask == mask
    }

    /// Whether every bit of `mask` is set.
    pub fn contains(self, mask: u32) -> (all: bool)
        ensures
            all == self.has(mask),
    {
        self.bits & mask == mask
    }
}

/// The extended capabilities of a requester, as a set of bits.
#[derive(Clone, Copy, Debug, PartialEq, Eq, Structural)]
pub struct SpdmRequestCapabilityExFlags {
    pub bits: u16,
}

/// The capabilities of a responder, as a set of bits.
#[derive(Clone, Copy, Debug, PartialEq, Eq, Structural)]
pub struct SpdmResponseCapabilityFlags {
    pub bits: u32,
}

impl SpdmResponseCapabilityFlags {
    pub const CERT_CAP: u32 = 0x0000_0002;

    pub const CHAL_CAP: u32 = 0x0000_0004;

    pub const ENCRYPT_CAP: u32 = 0x0000_0040;

    pub const MAC_CAP: u32 = 0x0000_0080;

    pub const MUT_AUTH_CAP: u32 = 0x0000_0100;

    pub const KEY_EX_CAP: u32 = 0x0000_0200;

    pub const PSK_CAP_WITHOUT_CONTEXT: u32 = 0x0000_0400;

    pub const PSK_CAP_WITH_CONTEXT: u32 = 0x0000_0800;

    pub const HBEAT_CAP: u32 = 0x0000_2000;

    pub const KEY_UPD_CAP: u32 = 0x0000_4000;

    pub const HANDSHAKE_IN_THE_CLEAR_CAP: u32 = 0x0000_8000;

    pub const CHUNK_CAP: u32 = 0x0002_0000;

    /// The set that holds exactly the given bits.
    pub fn from_bits(bits: u32) -> (flags: SpdmResponseCapabilityFlags)
        ensures
            flags.bits == bits,
    {
        SpdmResponseCapabilityFlags { bits }
    }

    /// Whether every bit of `mask` is set.
    pub open spec fn has(self, mask: u32) -> bool {
        self.bits & mask == mask
    }

    /// Whether every bit of `mask` is set.
    pub fn contains(self, mask: u32) -> (all: bool)
        ensures
            all == self.has(mask),
    {
        self.bits & mask == mask
    }
}

/// The base hash algorithms, as a set of bits.
#[derive(Clone, Copy, Debug, PartialEq, Eq, Structural)]
pub struct SpdmBaseHashAlgo {
    pub bits: u32,
}

impl SpdmBaseHashAlgo {
    pub const TPM_ALG_SHA_256: u32 = 0x0000_0001;

    pub const TPM_ALG_SHA_384: u32 = 0x0000_0002;

    pub const TPM_ALG_SHA_512: u32 = 0x0000_0004;

    /// The set that holds exactly the given bits.
    pub fn from_bits(bits: u32) -> (algo: SpdmBaseHashAlgo)
        ensures
            algo.bits == bits,
    {
        SpdmBaseHashAlgo { bits }
    }
}

/// The key exchange groups, as a set of bits.
#[derive(Clone, Copy, Debug, PartialEq, Eq, Structural)]
pub struct SpdmDheAlgo {
    pub bits: u16,
}

impl SpdmDheAlgo {
    pub const SECP_256_R1: u16 = 0x0008;

    pub const SECP_384_R1: u16 = 0x0010;

    pub const SECP_521_R1: u16 = 0x0020;
}

/// The key encapsulation mechanisms, as a set of bits.
#[derive(Clone, Copy, Debug, PartialEq, Eq, Structural)]
pub struct SpdmKemAlgo {
    pub bits: u32,
}

/// The authenticated ciphers, as a set of bits.
#[derive(Clone, Copy, Debug, PartialEq, Eq, Structural)]
pub struct SpdmAeadAlgo {
    pub bits: u16,
}

impl SpdmAeadAlgo {
    pub const AES_128_GCM: u16 = 0x0001;

    pub const AES_256_GCM: u16 = 0x0002;

    pub const CHACHA20_POLY1305: u16 = 0x0004;
}

/// The key schedules, as a set of bits.
#[derive(Clone, Copy, Debug, PartialEq, Eq, Structural)]
pub struct SpdmKeyScheduleAlgo {
    pub bits: u16,
}

impl SpdmKeyScheduleAlgo {
    pub const SPDM_KEY_SCHEDULE: u16 = 0x0001;
}

/// The post-quantum signature algorithms of a responder, as a set of bits.
#[derive(Clone, Copy, Debug, PartialEq, Eq, Structural)]
pub struct SpdmPqcAsymAlgo {
    pub bits: u32,
}

/// The post-quantum signature algorithms of a requester, as a set of bits.
#[derive(Clone, Copy, Debug, PartialEq, Eq, Structural)]
pub struct SpdmPqcReqAsymAlgo {
    pub bits: u32,
}

/// The first of three single algorithms that is in the set `common`, or the
/// empty set.
pub open spec fn first_in_set(common: u32, first: u32, second: u32, third: u32) -> u32 {
    if common & first != 0 {
        first
    } else if common & second != 0 {
        second
    } else if common & third != 0 {
        third
    } else {
        0
    }
}

/// The choice of a responder out of what both sides have: the strongest algorithm.
pub open spec fn strongest_of(common: u32) -> u32 {
    first_in_set(
        common,
        SpdmPqcAsymAlgo::ALG_MLDSA_87,
        SpdmPqcAsymAlgo::ALG_MLDSA_65,
        SpdmPqcAsymAlgo::ALG_MLDSA_44,
    )
}

/// The choice of a requester out of what both sides have: the weakest algorithm.
pub open spec fn weakest_of(common: u32) -> u32 {
    first_in_set(
        common,
        SpdmPqcReqAsymAlgo::ALG_MLDSA_44,
        SpdmPqcReqAsymAlgo::ALG_MLDSA_65,
        SpdmPqcReqAsymAlgo::ALG_MLDSA_87,
    )
}

impl SpdmPqcAsymAlgo {
    pub const ALG_MLDSA_44: u32 = 0x0000_0001;

    pub const ALG_MLDSA_65: u32 = 0x0000_0002;

    pub const ALG_MLDSA_87: u32 = 0x0000_0004;

    /// The set that holds exactly the given bits.
    pub fn from_bits(bits: u32) -> (algo: SpdmPqcAsymAlgo)
        ensures
            algo.bits == bits,
    {
        SpdmPqcAsymAlgo { bits }
    }

    /// Keeps one algorithm that both sides have, the strongest first.
    pub fn prioritize(&mut self, peer: SpdmPqcAsymAlgo)
        ensures
            final(self).bits == strongest_of(old(self).bits & peer.bits),
    {
        let common: u32 = self.bits & peer.bits;
        self.bits = if common & Self::ALG_MLDSA_87 != 0 {
            Self::ALG_MLDSA_87
        } else if common & Self::ALG_MLDSA_65 != 0 {
            Self::ALG_MLDSA_65
        } else if common & Self::ALG_MLDSA_44 != 0 {
            Self::ALG_MLDSA_44
        } else {
            0
        };
    }
}

impl SpdmPqcReqAsymAlgo {
    pub const ALG_MLDSA_44: u32 = 0x0000_0001;

    pub const ALG_MLDSA_65: u32 = 0x0000_0002;

    pub const ALG_MLDSA_87: u32 = 0x0000_0004;

    /// The set that holds exactly the given bits.
    pub fn from_bits(bits: u32) -> (algo: SpdmPqcReqAsymAlgo)
        ensures
            algo.bits == bits,
    {
        SpdmPqcReqAsymAlgo { bits }
    }

    /// Keeps one algorithm that both sides have, the weakest first.
    pub fn prioritize(&mut self, peer: SpdmPqcReqAsymAlgo)
        ensures
            final(self).bits == weakest_of(old(self).bits & peer.bits),
    {
        let common: u32 = self.bits & peer.bits;
        self.bits = if common & Self::ALG_MLDSA_44 != 0 {
            Self::ALG_MLDSA_44
        } else if common & Self::ALG_MLDSA_65 != 0 {
            Self::ALG_MLDSA_65
        } else if common & Self::ALG_MLDSA_87 != 0 {
            Self::ALG_MLDSA_87
        } else {
            0
        };
    }
}

/// The choice out of three single algorithms is one that both sides have, or
/// nothing at all; and it is nothing only where they share none of the three.
pub proof fn law_choice_is_common(mine: u32, peer: u32, first: u32, second: u32, third: u32)
    ensures
        ({
            let choice = first_in_set(mine & peer, first, second, third);
            &&& choice != 0 ==> (mine & peer) & choice != 0
            &&& choice == 0 ==> (mine & peer) & first == 0 && (mine & peer) & second == 0 && (mine
                & peer) & third == 0
        }),
{
    let common = mine & peer;
    assert(common & 0 == 0) by (bit_vector);
}

/// Both tables choose the same algorithm wherever the two sides share at most
/// one; where they share both ends of the table, the choices differ.
pub proof fn law_tables_are_inverse(common: u32)
    ensures
        common & 0x1 != 0 && common & 0x4 != 0 ==> first_in_set(common, 0x4, 0x2, 0x1) == 0x4
            && first_in_set(common, 0x1, 0x2, 0x4) == 0x1,
        common & 0x7 == 0x1 || common & 0x7 == 0x2 || common & 0x7 == 0x4 || common & 0x7 == 0
            ==> first_in_set(common, 0x4, 0x2, 0x1) == first_in_set(common, 0x1, 0x2, 0x4),
{
    assert(common & 0x7 == 0x1 ==> common & 0x2 == 0 && common & 0x4 == 0) by (bit_vector);
    assert(common & 0x7 == 0x2 ==> common & 0x1 == 0 && common & 0x4 == 0) by (bit_vector);
    assert(common & 0x7 == 0x4 ==> common & 0x1 == 0 && common & 0x2 == 0) by (bit_vector);
    assert(common & 0x7 == 0 ==> common & 0x1 == 0 && common & 0x2 == 0 && common & 0x4 == 0)
        by (bit_vector);
}

} // verus!
