//! TPM constants, attributes and tags.
use vstd::prelude::*;
use vstd::std_specs::convert::{FromSpecImpl, TryFromSpecImpl};

use crate::error::Error;

verus! {

/// An ECC curve identifier (`TPM_ECC_CURVE`).
#[derive(Debug, Clone, Copy, PartialEq, Eq, Structural)]
pub enum TpmEccCurve {
    NoCurve,
    NistP192,
    NistP224,
    NistP256,
    NistP384,
    NistP521,
    BnP256,
    BnP638,
    Sm2P256,
    BpP256R1,
    BpP384R1,
    BpP512R1,
    Curve25519,
    Curve448,
}

pub open spec fn spec_tpm_ecc_curve_value(x: TpmEccCurve) -> u16 {
    match x {
        TpmEccCurve::NoCurve => 0x0000,
        TpmEccCurve::NistP192 => 0x0001,
        TpmEccCurve::NistP224 => 0x0002,
        TpmEccCurve::NistP256 => 0x0003,
        TpmEccCurve::NistP384 => 0x0004,
        TpmEccCurve::NistP521 => 0x0005,
        TpmEccCurve::BnP256 => 0x0010,
        TpmEccCurve::BnP638 => 0x0011,
        TpmEccCurve::Sm2P256 => 0x0020,
        TpmEccCurve::BpP256R1 => 0x0030,
        TpmEccCurve::BpP384R1 => 0x0031,
        TpmEccCurve::BpP512R1 => 0x0032,
        TpmEccCurve::Curve25519 => 0x0040,
        TpmEccCurve::Curve448 => 0x0041,
    }
}

pub open spec fn spec_tpm_ecc_curve_of(value: u16) -> Option<TpmEccCurve> {
    if value == 0x0000 {
        Some(TpmEccCurve::NoCurve)
    } else if value == 0x0001 {
        Some(TpmEccCurve::NistP192)
    } else if value == 0x0002 {
        Some(TpmEccCurve::NistP224)
    } else if value == 0x0003 {
        Some(TpmEccCurve::NistP256)
    } else if value == 0x0004 {
        Some(TpmEccCurve::NistP384)
    } else if value == 0x0005 {
        Some(TpmEccCurve::NistP521)
    } else if value == 0x0010 {
        Some(TpmEccCurve::BnP256)
    } else if value == 0x0011 {
        Some(TpmEccCurve::BnP638)
    } else if value == 0x0020 {
        Some(TpmEccCurve::Sm2P256)
    } else if value == 0x0030 {
        Some(TpmEccCurve::BpP256R1)
    } else if value == 0x0031 {
        Some(TpmEccCurve::BpP384R1)
    } else if value == 0x0032 {
        Some(TpmEccCurve::BpP512R1)
    } else if value == 0x0040 {
        Some(TpmEccCurve::Curve25519)
    } else if value == 0x0041 {
        Some(TpmEccCurve::Curve448)
    } else {
        None
    }
}

impl TpmEccCurve {
    pub fn value(&self) -> (v: u16)
        ensures
            v == spec_tpm_ecc_curve_value(*self),
    {
        match self {
            TpmEccCurve::NoCurve => 0x0000,
            TpmEccCurve::NistP192 => 0x0001,
            TpmEccCurve::NistP224 => 0x0002,
            TpmEccCurve::NistP256 => 0x0003,
            TpmEccCurve::NistP384 => 0x0004,
            TpmEccCurve::NistP521 => 0x0005,
            TpmEccCurve::BnP256 => 0x0010,
            TpmEccCurve::BnP638 => 0x0011,
            TpmEccCurve::Sm2P256 => 0x0020,
            TpmEccCurve::BpP256R1 => 0x0030,
            TpmEccCurve::BpP384R1 => 0x0031,
            TpmEccCurve::BpP512R1 => 0x0032,
            TpmEccCurve::Curve25519 => 0x0040,
            TpmEccCurve::Curve448 => 0x0041,
        }
    }
}

impl TryFrom<u16> for TpmEccCurve {
    type Error = Error;

    fn try_from(value: u16) -> (r: Result<TpmEccCurve, Error>) {
        if value == 0x0000 {
            Ok(TpmEccCurve::NoCurve)
        } else if value == 0x0001 {
            Ok(TpmEccCurve::NistP192)
        } else if value == 0x0002 {
            Ok(TpmEccCurve::NistP224)
        } else if value == 0x0003 {
            Ok(TpmEccCurve::NistP256)
        } else if value == 0x0004 {
            Ok(TpmEccCurve::NistP384)
        } else if value == 0x0005 {
            Ok(TpmEccCurve::NistP521)
        } else if value == 0x0010 {
            Ok(TpmEccCurve::BnP256)
        } else if value == 0x0011 {
            Ok(TpmEccCurve::BnP638)
        } else if value == 0x0020 {
            Ok(TpmEccCurve::Sm2P256)
        } else if value == 0x0030 {
            Ok(TpmEccCurve::BpP256R1)
        } else if value == 0x0031 {
            Ok(TpmEccCurve::BpP384R1)
        } else if value == 0x0032 {
            Ok(TpmEccCurve::BpP512R1)
        } else if value == 0x0040 {
            Ok(TpmEccCurve::Curve25519)
        } else if value == 0x0041 {
            Ok(TpmEccCurve::Curve448)
        } else {
            Err(Error::Internal)
        }
    }
}

impl TryFromSpecImpl<u16> for TpmEccCurve {
    open spec fn obeys_try_from_spec() -> bool {
        true
    }

    open spec fn try_from_spec(value: u16) -> Result<TpmEccCurve, Error> {
        match spec_tpm_ecc_curve_of(value) {
            Some(x) => Ok(x),
            None => Err(Error::Internal),
        }
    }
}

/// A TPM property tag (`TPM_PT`).
#[derive(Debug, Clone, Copy, PartialEq, Eq, Structural)]
pub enum TpmPt {
    NoProperty,
    FamilyIndicator,
    Level,
    Revision,
    Errata,
    Year,
    Manufacturer,
    VendorString1,
    VendorString2,
    VendorString3,
    VendorString4,
    VendorTpmType,
    FirmwareVersion1,
    FirmwareVersion2,
    InputBuffer,
    HrTransientMin,
    HrPersistentMin,
    HrLoadedMin,
    ActiveSessionsMax,
    PcrCount,
    PcrSelectMin,
    ContextGapMax,
    NvCountersMax,
    NvIndexMax,
    Memory,
    ClockUpdate,
    ContextHash,
    ContextSym,
    ContextSymSize,
    OrderlyCount,
    MaxCommandSize,
    MaxResponseSize,
    MaxDigest,
    MaxObjectContext,
    MaxSessionContext,
    PsFamilyIndicator,
    PsLevel,
    PsRevision,
    PsDayOfYear,
    PsYear,
    SplitMax,
    TotalCommands,
    LibraryCommands,
    VendorCommands,
    NvBufferMax,
    Modes,
    MaxCapBuffer,
    FirmwareSvn,
    FirmwareMaxSvn,
    MlParameterSets,
    Permanent,
    StartupClear,
    HrNvIndex,
    HrLoaded,
    HrLoadedAvail,
    HrActive,
    HrActiveAvail,
    HrTransientAvail,
    HrPersistent,
    HrPersistentAvail,
    NvCounters,
    NvCountersAvail,
    AlgorithmSet,
    LoadedCurves,
    LockoutCounter,
    MaxAuthFail,
    LockoutInterval,
    LockoutRecovery,
    NvWriteRecovery,
    AuditCounter0,
    AuditCounter1,
}

pub open spec fn spec_tpm_pt_value(x: TpmPt) -> u32 {
    match x {
        TpmPt::NoProperty => 0x0000_0000,
        TpmPt::FamilyIndicator => 0x0000_0100,
        TpmPt::Level => 0x0000_0101,
        TpmPt::Revision => 0x0000_0102,
        TpmPt::Errata => 0x0000_0103,
        TpmPt::Year => 0x0000_0104,
        TpmPt::Manufacturer => 0x0000_0105,
        TpmPt::VendorString1 => 0x0000_0106,
        TpmPt::VendorString2 => 0x0000_0107,
        TpmPt::VendorString3 => 0x0000_0108,
        TpmPt::VendorString4 => 0x0000_0109,
        TpmPt::VendorTpmType => 0x0000_010A,
        TpmPt::FirmwareVersion1 => 0x0000_010B,
        TpmPt::FirmwareVersion2 => 0x0000_010C,
        TpmPt::InputBuffer => 0x0000_010D,
        TpmPt::HrTransientMin => 0x0000_010E,
        TpmPt::HrPersistentMin => 0x0000_010F,
        TpmPt::HrLoadedMin => 0x0000_0110,
        TpmPt::ActiveSessionsMax => 0x0000_0111,
        TpmPt::PcrCount => 0x0000_0112,
        TpmPt::PcrSelectMin => 0x0000_0113,
        TpmPt::ContextGapMax => 0x0000_0114,
        TpmPt::NvCountersMax => 0x0000_0116,
        TpmPt::NvIndexMax => 0x0000_0117,
        TpmPt::Memory => 0x0000_0118,
        TpmPt::ClockUpdate => 0x0000_0119,
        TpmPt::ContextHash => 0x0000_011A,
        TpmPt::ContextSym => 0x0000_011B,
        TpmPt::ContextSymSize => 0x0000_011C,
        TpmPt::OrderlyCount => 0x0000_011D,
        TpmPt::MaxCommandSize => 0x0000_011E,
        TpmPt::MaxResponseSize => 0x0000_011F,
        TpmPt::MaxDigest => 0x0000_0120,
        TpmPt::MaxObjectContext => 0x0000_0121,
        TpmPt::MaxSessionContext => 0x0000_0122,
        TpmPt::PsFamilyIndicator => 0x0000_0123,
        TpmPt::PsLevel => 0x0000_0124,
        TpmPt::PsRevision => 0x0000_0125,
        TpmPt::PsDayOfYear => 0x0000_0126,
        TpmPt::PsYear => 0x0000_0127,
        TpmPt::SplitMax => 0x0000_0128,
        TpmPt::TotalCommands => 0x0000_0129,
        TpmPt::LibraryCommands => 0x0000_012A,
        TpmPt::VendorCommands => 0x0000_012B,
        TpmPt::NvBufferMax => 0x0000_012C,
        TpmPt::Modes => 0x0000_012D,
        TpmPt::MaxCapBuffer => 0x0000_012E,
        TpmPt::FirmwareSvn => 0x0000_012F,
        TpmPt::FirmwareMaxSvn => 0x0000_0130,
        TpmPt::MlParameterSets => 0x0000_0131,
        TpmPt::Permanent => 0x0000_0200,
        TpmPt::StartupClear => 0x0000_0201,
        TpmPt::HrNvIndex => 0x0000_0202,
        TpmPt::HrLoaded => 0x0000_0203,
        TpmPt::HrLoadedAvail => 0x0000_0204,
        TpmPt::HrActive => 0x0000_0205,
        TpmPt::HrActiveAvail => 0x0000_0206,
        TpmPt::HrTransientAvail => 0x0000_0207,
        TpmPt::HrPersistent => 0x0000_0208,
        TpmPt::HrPersistentAvail => 0x0000_0209,
        TpmPt::NvCounters => 0x0000_020A,
        TpmPt::NvCountersAvail => 0x0000_020B,
        TpmPt::AlgorithmSet => 0x0000_020C,
        TpmPt::LoadedCurves => 0x0000_020D,
        TpmPt::LockoutCounter => 0x0000_020E,
        TpmPt::MaxAuthFail => 0x0000_020F,
        TpmPt::LockoutInterval => 0x0000_0210,
        TpmPt::LockoutRecovery => 0x0000_0211,
        TpmPt::NvWriteRecovery => 0x0000_0212,
        TpmPt::AuditCounter0 => 0x0000_0213,
        TpmPt::AuditCounter1 => 0x0000_0214,
    }
}

pub open spec fn spec_tpm_pt_of(value: u32) -> Option<TpmPt> {
    if value == 0x0000_0000 {
        Some(TpmPt::NoProperty)
    } else if value == 0x0000_0100 {
        Some(TpmPt::FamilyIndicator)
    } else if value == 0x0000_0101 {
        Some(TpmPt::Level)
    } else if value == 0x0000_0102 {
        Some(TpmPt::Revision)
    } else if value == 0x0000_0103 {
        Some(TpmPt::Errata)
    } else if value == 0x0000_0104 {
        Some(TpmPt::Year)
    } else if value == 0x0000_0105 {
        Some(TpmPt::Manufacturer)
    } else if value == 0x0000_0106 {
        Some(TpmPt::VendorString1)
    } else if value == 0x0000_0107 {
        Some(TpmPt::VendorString2)
    } else if value == 0x0000_0108 {
        Some(TpmPt::VendorString3)
    } else if value == 0x0000_0109 {
        Some(TpmPt::VendorString4)
    } else if value == 0x0000_010A {
        Some(TpmPt::VendorTpmType)
    } else if value == 0x0000_010B {
        Some(TpmPt::FirmwareVersion1)
    } else if value == 0x0000_010C {
        Some(TpmPt::FirmwareVersion2)
    } else if value == 0x0000_010D {
        Some(TpmPt::InputBuffer)
    } else if value == 0x0000_010E {
        Some(TpmPt::HrTransientMin)
    } else if value == 0x0000_010F {
        Some(TpmPt::HrPersistentMin)
    } else if value == 0x0000_0110 {
        Some(TpmPt::HrLoadedMin)
    } else if value == 0x0000_0111 {
        Some(TpmPt::ActiveSessionsMax)
    } else if value == 0x0000_0112 {
        Some(TpmPt::PcrCount)
    } else if value == 0x0000_0113 {
        Some(TpmPt::PcrSelectMin)
    } else if value == 0x0000_0114 {
        Some(TpmPt::ContextGapMax)
    } else if value == 0x0000_0116 {
        Some(TpmPt::NvCountersMax)
    } else if value == 0x0000_0117 {
        Some(TpmPt::NvIndexMax)
    } else if value == 0x0000_0118 {
        Some(TpmPt::Memory)
    } else if value == 0x0000_0119 {
        Some(TpmPt::ClockUpdate)
    } else if value == 0x0000_011A {
        Some(TpmPt::ContextHash)
    } else if value == 0x0000_011B {
        Some(TpmPt::ContextSym)
    } else if value == 0x0000_011C {
        Some(TpmPt::ContextSymSize)
    } else if value == 0x0000_011D {
        Some(TpmPt::OrderlyCount)
    } else if value == 0x0000_011E {
        Some(TpmPt::MaxCommandSize)
    } else if value == 0x0000_011F {
        Some(TpmPt::MaxResponseSize)
    } else if value == 0x0000_0120 {
        Some(TpmPt::MaxDigest)
    } else if value == 0x0000_0121 {
        Some(TpmPt::MaxObjectContext)
    } else if value == 0x0000_0122 {
        Some(TpmPt::MaxSessionContext)
    } else if value == 0x0000_0123 {
        Some(TpmPt::PsFamilyIndicator)
    } else if value == 0x0000_0124 {
        Some(TpmPt::PsLevel)
    } else if value == 0x0000_0125 {
        Some(TpmPt::PsRevision)
    } else if value == 0x0000_0126 {
        Some(TpmPt::PsDayOfYear)
    } else if value == 0x0000_0127 {
        Some(TpmPt::PsYear)
    } else if value == 0x0000_0128 {
        Some(TpmPt::SplitMax)
    } else if value == 0x0000_0129 {
        Some(TpmPt::TotalCommands)
    } else if value == 0x0000_012A {
        Some(TpmPt::LibraryCommands)
    } else if value == 0x0000_012B {
        Some(TpmPt::VendorCommands)
    } else if value == 0x0000_012C {
        Some(TpmPt::NvBufferMax)
    } else if value == 0x0000_012D {
        Some(TpmPt::Modes)
    } else if value == 0x0000_012E {
        Some(TpmPt::MaxCapBuffer)
    } else if value == 0x0000_012F {
        Some(TpmPt::FirmwareSvn)
    } else if value == 0x0000_0130 {
        Some(TpmPt::FirmwareMaxSvn)
    } else if value == 0x0000_0131 {
        Some(TpmPt::MlParameterSets)
    } else if value == 0x0000_0200 {
        Some(TpmPt::Permanent)
    } else if value == 0x0000_0201 {
        Some(TpmPt::StartupClear)
    } else if value == 0x0000_0202 {
        Some(TpmPt::HrNvIndex)
    } else if value == 0x0000_0203 {
        Some(TpmPt::HrLoaded)
    } else if value == 0x0000_0204 {
        Some(TpmPt::HrLoadedAvail)
    } else if value == 0x0000_0205 {
        Some(TpmPt::HrActive)
    } else if value == 0x0000_0206 {
        Some(TpmPt::HrActiveAvail)
    } else if value == 0x0000_0207 {
        Some(TpmPt::HrTransientAvail)
    } else if value == 0x0000_0208 {
        Some(TpmPt::HrPersistent)
    } else if value == 0x0000_0209 {
        Some(TpmPt::HrPersistentAvail)
    } else if value == 0x0000_020A {
        Some(TpmPt::NvCounters)
    } else if value == 0x0000_020B {
        Some(TpmPt::NvCountersAvail)
    } else if value == 0x0000_020C {
        Some(TpmPt::AlgorithmSet)
    } else if value == 0x0000_020D {
        Some(TpmPt::LoadedCurves)
    } else if value == 0x0000_020E {
        Some(TpmPt::LockoutCounter)
    } else if value == 0x0000_020F {
        Some(TpmPt::MaxAuthFail)
    } else if value == 0x0000_0210 {
        Some(TpmPt::LockoutInterval)
    } else if value == 0x0000_0211 {
        Some(TpmPt::LockoutRecovery)
    } else if value == 0x0000_0212 {
        Some(TpmPt::NvWriteRecovery)
    } else if value == 0x0000_0213 {
        Some(TpmPt::AuditCounter0)
    } else if value == 0x0000_0214 {
        Some(TpmPt::AuditCounter1)
    } else {
        None
    }
}

impl TpmPt {
    pub fn value(&self) -> (v: u32)
        ensures
            v == spec_tpm_pt_value(*self),
    {
        match self {
            TpmPt::NoProperty => 0x0000_0000,
            TpmPt::FamilyIndicator => 0x0000_0100,
            TpmPt::Level => 0x0000_0101,
            TpmPt::Revision => 0x0000_0102,
            TpmPt::Errata => 0x0000_0103,
            TpmPt::Year => 0x0000_0104,
            TpmPt::Manufacturer => 0x0000_0105,
            TpmPt::VendorString1 => 0x0000_0106,
            TpmPt::VendorString2 => 0x0000_0107,
            TpmPt::VendorString3 => 0x0000_0108,
            TpmPt::VendorString4 => 0x0000_0109,
            TpmPt::VendorTpmType => 0x0000_010A,
            TpmPt::FirmwareVersion1 => 0x0000_010B,
            TpmPt::FirmwareVersion2 => 0x0000_010C,
            TpmPt::InputBuffer => 0x0000_010D,
            TpmPt::HrTransientMin => 0x0000_010E,
            TpmPt::HrPersistentMin => 0x0000_010F,
            TpmPt::HrLoadedMin => 0x0000_0110,
            TpmPt::ActiveSessionsMax => 0x0000_0111,
            TpmPt::PcrCount => 0x0000_0112,
            TpmPt::PcrSelectMin => 0x0000_0113,
            TpmPt::ContextGapMax => 0x0000_0114,
            TpmPt::NvCountersMax => 0x0000_0116,
            TpmPt::NvIndexMax => 0x0000_0117,
            TpmPt::Memory => 0x0000_0118,
            TpmPt::ClockUpdate => 0x0000_0119,
            TpmPt::ContextHash => 0x0000_011A,
            TpmPt::ContextSym => 0x0000_011B,
            TpmPt::ContextSymSize => 0x0000_011C,
            TpmPt::OrderlyCount => 0x0000_011D,
            TpmPt::MaxCommandSize => 0x0000_011E,
            TpmPt::MaxResponseSize => 0x0000_011F,
            TpmPt::MaxDigest => 0x0000_0120,
            TpmPt::MaxObjectContext => 0x0000_0121,
            TpmPt::MaxSessionContext => 0x0000_0122,
            TpmPt::PsFamilyIndicator => 0x0000_0123,
            TpmPt::PsLevel => 0x0000_0124,
            TpmPt::PsRevision => 0x0000_0125,
            TpmPt::PsDayOfYear => 0x0000_0126,
            TpmPt::PsYear => 0x0000_0127,
            TpmPt::SplitMax => 0x0000_0128,
            TpmPt::TotalCommands => 0x0000_0129,
            TpmPt::LibraryCommands => 0x0000_012A,
            TpmPt::VendorCommands => 0x0000_012B,
            TpmPt::NvBufferMax => 0x0000_012C,
            TpmPt::Modes => 0x0000_012D,
            TpmPt::MaxCapBuffer => 0x0000_012E,
            TpmPt::FirmwareSvn => 0x0000_012F,
            TpmPt::FirmwareMaxSvn => 0x0000_0130,
            TpmPt::MlParameterSets => 0x0000_0131,
            TpmPt::Permanent => 0x0000_0200,
            TpmPt::StartupClear => 0x0000_0201,
            TpmPt::HrNvIndex => 0x0000_0202,
            TpmPt::HrLoaded => 0x0000_0203,
            TpmPt::HrLoadedAvail => 0x0000_0204,
            TpmPt::HrActive => 0x0000_0205,
            TpmPt::HrActiveAvail => 0x0000_0206,
            TpmPt::HrTransientAvail => 0x0000_0207,
            TpmPt::HrPersistent => 0x0000_0208,
            TpmPt::HrPersistentAvail => 0x0000_0209,
            TpmPt::NvCounters => 0x0000_020A,
            TpmPt::NvCountersAvail => 0x0000_020B,
            TpmPt::AlgorithmSet => 0x0000_020C,
            TpmPt::LoadedCurves => 0x0000_020D,
            TpmPt::LockoutCounter => 0x0000_020E,
            TpmPt::MaxAuthFail => 0x0000_020F,
            TpmPt::LockoutInterval => 0x0000_0210,
            TpmPt::LockoutRecovery => 0x0000_0211,
            TpmPt::NvWriteRecovery => 0x0000_0212,
            TpmPt::AuditCounter0 => 0x0000_0213,
            TpmPt::AuditCounter1 => 0x0000_0214,
        }
    }
}

impl TryFrom<u32> for TpmPt {
    type Error = Error;

    fn try_from(value: u32) -> (r: Result<TpmPt, Error>) {
        if value == 0x0000_0000 {
            Ok(TpmPt::NoProperty)
        } else if value == 0x0000_0100 {
            Ok(TpmPt::FamilyIndicator)
        } else if value == 0x0000_0101 {
            Ok(TpmPt::Level)
        } else if value == 0x0000_0102 {
            Ok(TpmPt::Revision)
        } else if value == 0x0000_0103 {
            Ok(TpmPt::Errata)
        } else if value == 0x0000_0104 {
            Ok(TpmPt::Year)
        } else if value == 0x0000_0105 {
            Ok(TpmPt::Manufacturer)
        } else if value == 0x0000_0106 {
            Ok(TpmPt::VendorString1)
        } else if value == 0x0000_0107 {
            Ok(TpmPt::VendorString2)
        } else if value == 0x0000_0108 {
            Ok(TpmPt::VendorString3)
        } else if value == 0x0000_0109 {
            Ok(TpmPt::VendorString4)
        } else if value == 0x0000_010A {
            Ok(TpmPt::VendorTpmType)
        } else if value == 0x0000_010B {
            Ok(TpmPt::FirmwareVersion1)
        } else if value == 0x0000_010C {
            Ok(TpmPt::FirmwareVersion2)
        } else if value == 0x0000_010D {
            Ok(TpmPt::InputBuffer)
        } else if value == 0x0000_010E {
            Ok(TpmPt::HrTransientMin)
        } else if value == 0x0000_010F {
            Ok(TpmPt::HrPersistentMin)
        } else if value == 0x0000_0110 {
            Ok(TpmPt::HrLoadedMin)
        } else if value == 0x0000_0111 {
            Ok(TpmPt::ActiveSessionsMax)
        } else if value == 0x0000_0112 {
            Ok(TpmPt::PcrCount)
        } else if value == 0x0000_0113 {
            Ok(TpmPt::PcrSelectMin)
        } else if value == 0x0000_0114 {
            Ok(TpmPt::ContextGapMax)
        } else if value == 0x0000_0116 {
            Ok(TpmPt::NvCountersMax)
        } else if value == 0x0000_0117 {
            Ok(TpmPt::NvIndexMax)
        } else if value == 0x0000_0118 {
            Ok(TpmPt::Memory)
        } else if value == 0x0000_0119 {
            Ok(TpmPt::ClockUpdate)
        } else if value == 0x0000_011A {
            Ok(TpmPt::ContextHash)
        } else if value == 0x0000_011B {
            Ok(TpmPt::ContextSym)
        } else if value == 0x0000_011C {
            Ok(TpmPt::ContextSymSize)
        } else if value == 0x0000_011D {
            Ok(TpmPt::OrderlyCount)
        } else if value == 0x0000_011E {
            Ok(TpmPt::MaxCommandSize)
        } else if value == 0x0000_011F {
            Ok(TpmPt::MaxResponseSize)
        } else if value == 0x0000_0120 {
            Ok(TpmPt::MaxDigest)
        } else if value == 0x0000_0121 {
            Ok(TpmPt::MaxObjectContext)
        } else if value == 0x0000_0122 {
            Ok(TpmPt::MaxSessionContext)
        } else if value == 0x0000_0123 {
            Ok(TpmPt::PsFamilyIndicator)
        } else if value == 0x0000_0124 {
            Ok(TpmPt::PsLevel)
        } else if value == 0x0000_0125 {
            Ok(TpmPt::PsRevision)
        } else if value == 0x0000_0126 {
            Ok(TpmPt::PsDayOfYear)
        } else if value == 0x0000_0127 {
            Ok(TpmPt::PsYear)
        } else if value == 0x0000_0128 {
            Ok(TpmPt::SplitMax)
        } else if value == 0x0000_0129 {
            Ok(TpmPt::TotalCommands)
        } else if value == 0x0000_012A {
            Ok(TpmPt::LibraryCommands)
        } else if value == 0x0000_012B {
            Ok(TpmPt::VendorCommands)
        } else if value == 0x0000_012C {
            Ok(TpmPt::NvBufferMax)
        } else if value == 0x0000_012D {
            Ok(TpmPt::Modes)
        } else if value == 0x0000_012E {
            Ok(TpmPt::MaxCapBuffer)
        } else if value == 0x0000_012F {
            Ok(TpmPt::FirmwareSvn)
        } else if value == 0x0000_0130 {
            Ok(TpmPt::FirmwareMaxSvn)
        } else if value == 0x0000_0131 {
            Ok(TpmPt::MlParameterSets)
        } else if value == 0x0000_0200 {
            Ok(TpmPt::Permanent)
        } else if value == 0x0000_0201 {
            Ok(TpmPt::StartupClear)
        } else if value == 0x0000_0202 {
            Ok(TpmPt::HrNvIndex)
        } else if value == 0x0000_0203 {
            Ok(TpmPt::HrLoaded)
        } else if value == 0x0000_0204 {
            Ok(TpmPt::HrLoadedAvail)
        } else if value == 0x0000_0205 {
            Ok(TpmPt::HrActive)
        } else if value == 0x0000_0206 {
            Ok(TpmPt::HrActiveAvail)
        } else if value == 0x0000_0207 {
            Ok(TpmPt::HrTransientAvail)
        } else if value == 0x0000_0208 {
            Ok(TpmPt::HrPersistent)
        } else if value == 0x0000_0209 {
            Ok(TpmPt::HrPersistentAvail)
        } else if value == 0x0000_020A {
            Ok(TpmPt::NvCounters)
        } else if value == 0x0000_020B {
            Ok(TpmPt::NvCountersAvail)
        } else if value == 0x0000_020C {
            Ok(TpmPt::AlgorithmSet)
        } else if value == 0x0000_020D {
            Ok(TpmPt::LoadedCurves)
        } else if value == 0x0000_020E {
            Ok(TpmPt::LockoutCounter)
        } else if value == 0x0000_020F {
            Ok(TpmPt::MaxAuthFail)
        } else if value == 0x0000_0210 {
            Ok(TpmPt::LockoutInterval)
        } else if value == 0x0000_0211 {
            Ok(TpmPt::LockoutRecovery)
        } else if value == 0x0000_0212 {
            Ok(TpmPt::NvWriteRecovery)
        } else if value == 0x0000_0213 {
            Ok(TpmPt::AuditCounter0)
        } else if value == 0x0000_0214 {
            Ok(TpmPt::AuditCounter1)
        } else {
            Err(Error::Internal)
        }
    }
}

impl TryFromSpecImpl<u32> for TpmPt {
    open spec fn obeys_try_from_spec() -> bool {
        true
    }

    open spec fn try_from_spec(value: u32) -> Result<TpmPt, Error> {
        match spec_tpm_pt_of(value) {
            Some(x) => Ok(x),
            None => Err(Error::Internal),
        }
    }
}

/// A PCR property tag (`TPM_PT_PCR`).
#[derive(Debug, Clone, Copy, PartialEq, Eq, Structural)]
pub enum TpmPtPcr {
    PcrSave,
    PcrExtendL0,
    PcrResetL0,
    PcrExtendL1,
    PcrResetL1,
    PcrExtendL2,
    PcrResetL2,
    PcrExtendL3,
    PcrResetL3,
    PcrExtendL4,
    PcrResetL4,
    PcrNoIncrement,
    PcrDrtmReset,
    PcrPolicy,
    PcrAuth,
}

pub open spec fn spec_tpm_pt_pcr_value(x: TpmPtPcr) -> u32 {
    match x {
        TpmPtPcr::PcrSave => 0x0000_0000,
        TpmPtPcr::PcrExtendL0 => 0x0000_0001,
        TpmPtPcr::PcrResetL0 => 0x0000_0002,
        TpmPtPcr::PcrExtendL1 => 0x0000_0003,
        TpmPtPcr::PcrResetL1 => 0x0000_0004,
        TpmPtPcr::PcrExtendL2 => 0x0000_0005,
        TpmPtPcr::PcrResetL2 => 0x0000_0006,
        TpmPtPcr::PcrExtendL3 => 0x0000_0007,
        TpmPtPcr::PcrResetL3 => 0x0000_0008,
        TpmPtPcr::PcrExtendL4 => 0x0000_0009,
        TpmPtPcr::PcrResetL4 => 0x0000_000A,
        TpmPtPcr::PcrNoIncrement => 0x0000_0011,
        TpmPtPcr::PcrDrtmReset => 0x0000_0012,
        TpmPtPcr::PcrPolicy => 0x0000_0013,
        TpmPtPcr::PcrAuth => 0x0000_0014,
    }
}

pub open spec fn spec_tpm_pt_pcr_of(value: u32) -> Option<TpmPtPcr> {
    if value == 0x0000_0000 {
        Some(TpmPtPcr::PcrSave)
    } else if value == 0x0000_0001 {
        Some(TpmPtPcr::PcrExtendL0)
    } else if value == 0x0000_0002 {
        Some(TpmPtPcr::PcrResetL0)
    } else if value == 0x0000_0003 {
        Some(TpmPtPcr::PcrExtendL1)
    } else if value == 0x0000_0004 {
        Some(TpmPtPcr::PcrResetL1)
    } else if value == 0x0000_0005 {
        Some(TpmPtPcr::PcrExtendL2)
    } else if value == 0x0000_0006 {
        Some(TpmPtPcr::PcrResetL2)
    } else if value == 0x0000_0007 {
        Some(TpmPtPcr::PcrExtendL3)
    } else if value == 0x0000_0008 {
        Some(TpmPtPcr::PcrResetL3)
    } else if value == 0x0000_0009 {
        Some(TpmPtPcr::PcrExtendL4)
    } else if value == 0x0000_000A {
        Some(TpmPtPcr::PcrResetL4)
    } else if value == 0x0000_0011 {
        Some(TpmPtPcr::PcrNoIncrement)
    } else if value == 0x0000_0012 {
        Some(TpmPtPcr::PcrDrtmReset)
    } else if value == 0x0000_0013 {
        Some(TpmPtPcr::PcrPolicy)
    } else if value == 0x0000_0014 {
        Some(TpmPtPcr::PcrAuth)
    } else {
        None
    }
}

impl TpmPtPcr {
    pub fn value(&self) -> (v: u32)
        ensures
            v == spec_tpm_pt_pcr_value(*self),
    {
        match self {
            TpmPtPcr::PcrSave => 0x0000_0000,
            TpmPtPcr::PcrExtendL0 => 0x0000_0001,
            TpmPtPcr::PcrResetL0 => 0x0000_0002,
            TpmPtPcr::PcrExtendL1 => 0x0000_0003,
            TpmPtPcr::PcrResetL1 => 0x0000_0004,
            TpmPtPcr::PcrExtendL2 => 0x0000_0005,
            TpmPtPcr::PcrResetL2 => 0x0000_0006,
            TpmPtPcr::PcrExtendL3 => 0x0000_0007,
            TpmPtPcr::PcrResetL3 => 0x0000_0008,
            TpmPtPcr::PcrExtendL4 => 0x0000_0009,
            TpmPtPcr::PcrResetL4 => 0x0000_000A,
            TpmPtPcr::PcrNoIncrement => 0x0000_0011,
            TpmPtPcr::PcrDrtmReset => 0x0000_0012,
            TpmPtPcr::PcrPolicy => 0x0000_0013,
            TpmPtPcr::PcrAuth => 0x0000_0014,
        }
    }
}

impl TryFrom<u32> for TpmPtPcr {
    type Error = Error;

    fn try_from(value: u32) -> (r: Result<TpmPtPcr, Error>) {
        if value == 0x0000_0000 {
            Ok(TpmPtPcr::PcrSave)
        } else if value == 0x0000_0001 {
            Ok(TpmPtPcr::PcrExtendL0)
        } else if value == 0x0000_0002 {
            Ok(TpmPtPcr::PcrResetL0)
        } else if value == 0x0000_0003 {
            Ok(TpmPtPcr::PcrExtendL1)
        } else if value == 0x0000_0004 {
            Ok(TpmPtPcr::PcrResetL1)
        } else if value == 0x0000_0005 {
            Ok(TpmPtPcr::PcrExtendL2)
        } else if value == 0x0000_0006 {
            Ok(TpmPtPcr::PcrResetL2)
        } else if value == 0x0000_0007 {
            Ok(TpmPtPcr::PcrExtendL3)
        } else if value == 0x0000_0008 {
            Ok(TpmPtPcr::PcrResetL3)
        } else if value == 0x0000_0009 {
            Ok(TpmPtPcr::PcrExtendL4)
        } else if value == 0x0000_000A {
            Ok(TpmPtPcr::PcrResetL4)
        } else if value == 0x0000_0011 {
            Ok(TpmPtPcr::PcrNoIncrement)
        } else if value == 0x0000_0012 {
            Ok(TpmPtPcr::PcrDrtmReset)
        } else if value == 0x0000_0013 {
            Ok(TpmPtPcr::PcrPolicy)
        } else if value == 0x0000_0014 {
            Ok(TpmPtPcr::PcrAuth)
        } else {
            Err(Error::Internal)
        }
    }
}

impl TryFromSpecImpl<u32> for TpmPtPcr {
    open spec fn obeys_try_from_spec() -> bool {
        true
    }

    open spec fn try_from_spec(value: u32) -> Result<TpmPtPcr, Error> {
        match spec_tpm_pt_pcr_of(value) {
            Some(x) => Ok(x),
            None => Err(Error::Internal),
        }
    }
}

/// A capability group (`TPM_CAP`).
#[derive(Debug, Clone, Copy, PartialEq, Eq, Structural)]
pub enum TpmCap {
    Algorithms,
    Handles,
    Commands,
    PPCommands,
    AuditCommands,
    Pcrs,
    TpmProperties,
    PcrProperties,
    ECCCurves,
}

pub open spec fn spec_tpm_cap_value(x: TpmCap) -> u32 {
    match x {
        TpmCap::Algorithms => 0x0000_0000,
        TpmCap::Handles => 0x0000_0001,
        TpmCap::Commands => 0x0000_0002,
        TpmCap::PPCommands => 0x0000_0003,
        TpmCap::AuditCommands => 0x0000_0004,
        TpmCap::Pcrs => 0x0000_0005,
        TpmCap::TpmProperties => 0x0000_0006,
        TpmCap::PcrProperties => 0x0000_0007,
        TpmCap::ECCCurves => 0x0000_0008,
    }
}

pub open spec fn spec_tpm_cap_of(value: u32) -> Option<TpmCap> {
    if value == 0x0000_0000 {
        Some(TpmCap::Algorithms)
    } else if value == 0x0000_0001 {
        Some(TpmCap::Handles)
    } else if value == 0x0000_0002 {
        Some(TpmCap::Commands)
    } else if value == 0x0000_0003 {
        Some(TpmCap::PPCommands)
    } else if value == 0x0000_0004 {
        Some(TpmCap::AuditCommands)
    } else if value == 0x0000_0005 {
        Some(TpmCap::Pcrs)
    } else if value == 0x0000_0006 {
        Some(TpmCap::TpmProperties)
    } else if value == 0x0000_0007 {
        Some(TpmCap::PcrProperties)
    } else if value == 0x0000_0008 {
        Some(TpmCap::ECCCurves)
    } else {
        None
    }
}

impl TpmCap {
    pub fn value(&self) -> (v: u32)
        ensures
            v == spec_tpm_cap_value(*self),
    {
        match self {
            TpmCap::Algorithms => 0x0000_0000,
            TpmCap::Handles => 0x0000_0001,
            TpmCap::Commands => 0x0000_0002,
            TpmCap::PPCommands => 0x0000_0003,
            TpmCap::AuditCommands => 0x0000_0004,
            TpmCap::Pcrs => 0x0000_0005,
            TpmCap::TpmProperties => 0x0000_0006,
            TpmCap::PcrProperties => 0x0000_0007,
            TpmCap::ECCCurves => 0x0000_0008,
        }
    }
}

impl TryFrom<u32> for TpmCap {
    type Error = Error;

    fn try_from(value: u32) -> (r: Result<TpmCap, Error>) {
        if value == 0x0000_0000 {
            Ok(TpmCap::Algorithms)
        } else if value == 0x0000_0001 {
            Ok(TpmCap::Handles)
        } else if value == 0x0000_0002 {
            Ok(TpmCap::Commands)
        } else if value == 0x0000_0003 {
            Ok(TpmCap::PPCommands)
        } else if value == 0x0000_0004 {
            Ok(TpmCap::AuditCommands)
        } else if value == 0x0000_0005 {
            Ok(TpmCap::Pcrs)
        } else if value == 0x0000_0006 {
            Ok(TpmCap::TpmProperties)
        } else if value == 0x0000_0007 {
            Ok(TpmCap::PcrProperties)
        } else if value == 0x0000_0008 {
            Ok(TpmCap::ECCCurves)
        } else {
            Err(Error::Internal)
        }
    }
}

impl TryFromSpecImpl<u32> for TpmCap {
    open spec fn obeys_try_from_spec() -> bool {
        true
    }

    open spec fn try_from_spec(value: u32) -> Result<TpmCap, Error> {
        match spec_tpm_cap_of(value) {
            Some(x) => Ok(x),
            None => Err(Error::Internal),
        }
    }
}

pub const ST_RSP_COMMAND: u16 = 0x00C4;
pub const ST_NULL: u16 = 0x8000;
pub const ST_NO_SESSIONS: u16 = 0x8001;
pub const ST_SESSIONS: u16 = 0x8002;
pub const ST_ATTEST_NV: u16 = 0x8014;
pub const ST_ATTEST_COMMAND_AUDIT: u16 = 0x8015;
pub const ST_ATTEST_SESSION_AUDIT: u16 = 0x8016;
pub const ST_ATTEST_CERTIFY: u16 = 0x8017;
pub const ST_ATTEST_QUOTE: u16 = 0x8018;
pub const ST_ATTEST_TIME: u16 = 0x8019;
pub const ST_ATTEST_CREATION: u16 = 0x801A;
pub const ST_ATTEST_NV_DIGEST: u16 = 0x801C;
pub const ST_CREATION: u16 = 0x8021;
pub const ST_VERIFIED: u16 = 0x8022;
pub const ST_AUTH_SECRET: u16 = 0x8023;
pub const ST_HASHCHECK: u16 = 0x8024;
pub const ST_AUTH_SIGNED: u16 = 0x8025;
pub const ST_FU_MANIFEST: u16 = 0x8029;

pub open spec fn is_structure_tag(v: u16) -> bool {
    v == ST_RSP_COMMAND
        || v == ST_NULL
        || v == ST_NO_SESSIONS
        || v == ST_SESSIONS
        || v == ST_ATTEST_NV
        || v == ST_ATTEST_COMMAND_AUDIT
        || v == ST_ATTEST_SESSION_AUDIT
        || v == ST_ATTEST_CERTIFY
        || v == ST_ATTEST_QUOTE
        || v == ST_ATTEST_TIME
        || v == ST_ATTEST_CREATION
        || v == ST_ATTEST_NV_DIGEST
        || v == ST_CREATION
        || v == ST_VERIFIED
        || v == ST_AUTH_SECRET
        || v == ST_HASHCHECK
        || v == ST_AUTH_SIGNED
        || v == ST_FU_MANIFEST
}

/// A structure tag (`TPM_ST`).
#[derive(Debug, Clone, Copy, PartialEq, Eq, Structural)]
pub struct TpmSt(pub u16);

impl TpmSt {
    pub fn value(&self) -> (v: u16)
        ensures
            v == self.0,
    {
        self.0
    }
}

impl TryFrom<u16> for TpmSt {
    type Error = Error;

    fn try_from(v: u16) -> (r: Result<TpmSt, Error>) {
        if v == ST_RSP_COMMAND
            || v == ST_NULL
            || v == ST_NO_SESSIONS
            || v == ST_SESSIONS
            || v == ST_ATTEST_NV
            || v == ST_ATTEST_COMMAND_AUDIT
            || v == ST_ATTEST_SESSION_AUDIT
            || v == ST_ATTEST_CERTIFY
            || v == ST_ATTEST_QUOTE
            || v == ST_ATTEST_TIME
            || v == ST_ATTEST_CREATION
            || v == ST_ATTEST_NV_DIGEST
            || v == ST_CREATION
            || v == ST_VERIFIED
            || v == ST_AUTH_SECRET
            || v == ST_HASHCHECK
            || v == ST_AUTH_SIGNED
            || v == ST_FU_MANIFEST {
            Ok(TpmSt(v))
        } else {
            Err(Error::conversion())
        }
    }
}

impl TryFromSpecImpl<u16> for TpmSt {
    open spec fn obeys_try_from_spec() -> bool {
        true
    }

    open spec fn try_from_spec(v: u16) -> Result<TpmSt, Error> {
        if is_structure_tag(v) {
            Ok(TpmSt(v))
        } else {
            Err(Error::Internal)
        }
    }
}

/// The tag of a command or response: with or without sessions (`TPMI_ST_COMMAND_TAG`).
#[derive(Debug, Clone, Copy, PartialEq, Eq, Structural)]
pub struct TpmiStCommandTag(pub TpmSt);

pub open spec fn is_command_tag(v: u16) -> bool {
    v == ST_NO_SESSIONS || v == ST_SESSIONS
}

impl TpmiStCommandTag {
    pub fn no_sessions() -> (t: TpmiStCommandTag)
        ensures
            t.0.0 == ST_NO_SESSIONS,
    {
        TpmiStCommandTag(TpmSt(ST_NO_SESSIONS))
    }

    pub fn sessions() -> (t: TpmiStCommandTag)
        ensures
            t.0.0 == ST_SESSIONS,
    {
        TpmiStCommandTag(TpmSt(ST_SESSIONS))
    }

    pub fn value(&self) -> (v: u16)
        ensures
            v == self.0.0,
    {
        self.0.0
    }
}

impl TryFrom<u16> for TpmiStCommandTag {
    type Error = Error;

    fn try_from(v: u16) -> (r: Result<TpmiStCommandTag, Error>) {
        if v == ST_NO_SESSIONS || v == ST_SESSIONS {
            Ok(TpmiStCommandTag(TpmSt(v)))
        } else {
            Err(Error::conversion())
        }
    }
}

impl TryFromSpecImpl<u16> for TpmiStCommandTag {
    open spec fn obeys_try_from_spec() -> bool {
        true
    }

    open spec fn try_from_spec(v: u16) -> Result<TpmiStCommandTag, Error> {
        if is_command_tag(v) {
            Ok(TpmiStCommandTag(TpmSt(v)))
        } else {
            Err(Error::Internal)
        }
    }
}

/// The type of an authorization session (`TPM_SE`).
#[derive(Debug, Clone, Copy, PartialEq, Eq, Structural)]
pub enum TpmSe {
    Hmac,
    Policy,
    Trial,
}

pub open spec fn spec_tpm_se_value(se: TpmSe) -> u8 {
    match se {
        TpmSe::Hmac => 0x00,
        TpmSe::Policy => 0x01,
        TpmSe::Trial => 0x03,
    }
}

impl TpmSe {
    pub fn value(&self) -> (v: u8)
        ensures
            v == spec_tpm_se_value(*self),
    {
        match self {
            TpmSe::Hmac => 0x00,
            TpmSe::Policy => 0x01,
            TpmSe::Trial => 0x03,
        }
    }

    pub fn marshal(&self, buf: &mut Vec<u8>) -> (r: Result<(), Error>)
        ensures
            r is Ok,
            final(buf)@ == old(buf)@.push(spec_tpm_se_value(*self)),
    {
        buf.push(self.value());
        Ok(())
    }
}

pub const SESSION_CONTINUE_SESSION: u8 = 0x01;
pub const SESSION_AUDIT_EXCLUSIVE: u8 = 0x02;
pub const SESSION_AUDIT_RESET: u8 = 0x04;
pub const SESSION_RESERVED: u8 = 0x18;
pub const SESSION_DECRYPT: u8 = 0x20;
pub const SESSION_ENCRYPT: u8 = 0x40;
pub const SESSION_AUDIT: u8 = 0x80;

/// The attributes of a session (`TPMA_SESSION`).
#[derive(Debug, Clone, Copy, PartialEq, Eq, Structural)]
pub struct TpmaSession(pub u8);

impl TpmaSession {
    /// The attributes with these bits; `None` where a reserved bit is set.
    pub fn from_bits(bits: u8) -> (r: Option<TpmaSession>)
        ensures
            r == (if bits & SESSION_RESERVED == 0 { Some(TpmaSession(bits)) } else { None::<TpmaSession> }),
    {
        if bits & SESSION_RESERVED == 0 {
            Some(TpmaSession(bits))
        } else {
            None
        }
    }

    pub fn bits(&self) -> (b: u8)
        ensures
            b == self.0,
    {
        self.0
    }

    pub fn empty() -> (a: TpmaSession)
        ensures
            a.0 == 0,
    {
        TpmaSession(0)
    }

    pub fn is_empty(&self) -> (b: bool)
        ensures
            b == (self.0 == 0),
    {
        self.0 == 0
    }

    /// Whether every bit of `other` is set here.
    pub fn contains(&self, other: u8) -> (b: bool)
        ensures
            b == (self.0 & other == other),
    {
        self.0 & other == other
    }

    pub fn continue_session() -> (a: TpmaSession)
        ensures
            a.0 == SESSION_CONTINUE_SESSION,
    {
        TpmaSession(SESSION_CONTINUE_SESSION)
    }

    pub fn encrypt() -> (a: TpmaSession)
        ensures
            a.0 == SESSION_ENCRYPT,
    {
        TpmaSession(SESSION_ENCRYPT)
    }

    pub fn decrypt() -> (a: TpmaSession)
        ensures
            a.0 == SESSION_DECRYPT,
    {
        TpmaSession(SESSION_DECRYPT)
    }

    pub fn encrypt_decrypt() -> (a: TpmaSession)
        ensures
            a.0 == SESSION_ENCRYPT | SESSION_DECRYPT,
    {
        TpmaSession(SESSION_ENCRYPT | SESSION_DECRYPT)
    }

    pub fn with_continue_session(self) -> (a: TpmaSession)
        ensures
            a.0 == self.0 | SESSION_CONTINUE_SESSION,
    {
        TpmaSession(self.0 | SESSION_CONTINUE_SESSION)
    }
}

/// The localities of a creation (`TPMA_LOCALITY`); every bit has a meaning.
#[derive(Debug, Clone, Copy, PartialEq, Eq, Structural)]
pub struct TpmaLocality(pub u8);

impl TpmaLocality {
    pub fn from_bits(bits: u8) -> (r: Option<TpmaLocality>)
        ensures
            r == Some(TpmaLocality(bits)),
    {
        Some(TpmaLocality(bits))
    }

    pub fn bits(&self) -> (b: u8)
        ensures
            b == self.0,
    {
        self.0
    }

    pub fn empty() -> (a: TpmaLocality)
        ensures
            a.0 == 0,
    {
        TpmaLocality(0)
    }
}

/// The reserved bits of `TPMA_CC`.
pub const CC_ATTRIBUTES_RESERVED: u32 = 0xC03F_0000;

/// The attributes of a command (`TPMA_CC`).
#[derive(Debug, Clone, Copy, PartialEq, Eq, Structural)]
pub struct TpmaCc(pub u32);

impl TryFrom<u32> for TpmaCc {
    type Error = Error;

    fn try_from(v: u32) -> (r: Result<TpmaCc, Error>) {
        if v & CC_ATTRIBUTES_RESERVED == 0 {
            Ok(TpmaCc(v))
        } else {
            Err(Error::conversion())
        }
    }
}

impl TryFromSpecImpl<u32> for TpmaCc {
    open spec fn obeys_try_from_spec() -> bool {
        true
    }

    open spec fn try_from_spec(v: u32) -> Result<TpmaCc, Error> {
        if v & CC_ATTRIBUTES_RESERVED == 0 {
            Ok(TpmaCc(v))
        } else {
            Err(Error::Internal)
        }
    }
}

/// The attributes of an algorithm (`TPMA_ALGORITHM`).
#[derive(Debug, Clone, Copy, PartialEq, Eq, Structural)]
pub struct TpmaAlgorithm(pub u32);

impl From<u32> for TpmaAlgorithm {
    fn from(v: u32) -> (a: TpmaAlgorithm) {
        TpmaAlgorithm(v)
    }
}

impl FromSpecImpl<u32> for TpmaAlgorithm {
    open spec fn obeys_from_spec() -> bool {
        true
    }

    open spec fn from_spec(v: u32) -> TpmaAlgorithm {
        TpmaAlgorithm(v)
    }
}

/// Each property tag is read as its `TPM_PT` value: the fixed properties from
/// 0x100 (the family indicator; 0x104 the year, 0x105 the manufacturer) up,
/// the variable ones from 0x200 (the permanent attributes) up.
pub proof fn law_tpm_pt_values()
    ensures
        spec_tpm_pt_value(TpmPt::NoProperty) == 0x0000_0000,
        spec_tpm_pt_value(TpmPt::FamilyIndicator) == 0x0000_0100,
        spec_tpm_pt_value(TpmPt::Level) == 0x0000_0101,
        spec_tpm_pt_value(TpmPt::Revision) == 0x0000_0102,
        spec_tpm_pt_value(TpmPt::Errata) == 0x0000_0103,
        spec_tpm_pt_value(TpmPt::Year) == 0x0000_0104,
        spec_tpm_pt_value(TpmPt::Manufacturer) == 0x0000_0105,
        spec_tpm_pt_value(TpmPt::VendorString1) == 0x0000_0106,
        spec_tpm_pt_value(TpmPt::VendorString2) == 0x0000_0107,
        spec_tpm_pt_value(TpmPt::VendorString3) == 0x0000_0108,
        spec_tpm_pt_value(TpmPt::VendorString4) == 0x0000_0109,
        spec_tpm_pt_value(TpmPt::VendorTpmType) == 0x0000_010A,
        spec_tpm_pt_value(TpmPt::FirmwareVersion1) == 0x0000_010B,
        spec_tpm_pt_value(TpmPt::FirmwareVersion2) == 0x0000_010C,
        spec_tpm_pt_value(TpmPt::InputBuffer) == 0x0000_010D,
        spec_tpm_pt_value(TpmPt::HrTransientMin) == 0x0000_010E,
        spec_tpm_pt_value(TpmPt::HrPersistentMin) == 0x0000_010F,
        spec_tpm_pt_value(TpmPt::HrLoadedMin) == 0x0000_0110,
        spec_tpm_pt_value(TpmPt::ActiveSessionsMax) == 0x0000_0111,
        spec_tpm_pt_value(TpmPt::PcrCount) == 0x0000_0112,
        spec_tpm_pt_value(TpmPt::PcrSelectMin) == 0x0000_0113,
        spec_tpm_pt_value(TpmPt::ContextGapMax) == 0x0000_0114,
        spec_tpm_pt_value(TpmPt::NvCountersMax) == 0x0000_0116,
        spec_tpm_pt_value(TpmPt::NvIndexMax) == 0x0000_0117,
        spec_tpm_pt_value(TpmPt::Memory) == 0x0000_0118,
        spec_tpm_pt_value(TpmPt::ClockUpdate) == 0x0000_0119,
        spec_tpm_pt_value(TpmPt::ContextHash) == 0x0000_011A,
        spec_tpm_pt_value(TpmPt::ContextSym) == 0x0000_011B,
        spec_tpm_pt_value(TpmPt::ContextSymSize) == 0x0000_011C,
        spec_tpm_pt_value(TpmPt::OrderlyCount) == 0x0000_011D,
        spec_tpm_pt_value(TpmPt::MaxCommandSize) == 0x0000_011E,
        spec_tpm_pt_value(TpmPt::MaxResponseSize) == 0x0000_011F,
        spec_tpm_pt_value(TpmPt::MaxDigest) == 0x0000_0120,
        spec_tpm_pt_value(TpmPt::MaxObjectContext) == 0x0000_0121,
        spec_tpm_pt_value(TpmPt::MaxSessionContext) == 0x0000_0122,
        spec_tpm_pt_value(TpmPt::PsFamilyIndicator) == 0x0000_0123,
        spec_tpm_pt_value(TpmPt::PsLevel) == 0x0000_0124,
        spec_tpm_pt_value(TpmPt::PsRevision) == 0x0000_0125,
        spec_tpm_pt_value(TpmPt::PsDayOfYear) == 0x0000_0126,
        spec_tpm_pt_value(TpmPt::PsYear) == 0x0000_0127,
        spec_tpm_pt_value(TpmPt::SplitMax) == 0x0000_0128,
        spec_tpm_pt_value(TpmPt::TotalCommands) == 0x0000_0129,
        spec_tpm_pt_value(TpmPt::LibraryCommands) == 0x0000_012A,
        spec_tpm_pt_value(TpmPt::VendorCommands) == 0x0000_012B,
        spec_tpm_pt_value(TpmPt::NvBufferMax) == 0x0000_012C,
        spec_tpm_pt_value(TpmPt::Modes) == 0x0000_012D,
        spec_tpm_pt_value(TpmPt::MaxCapBuffer) == 0x0000_012E,
        spec_tpm_pt_value(TpmPt::FirmwareSvn) == 0x0000_012F,
        spec_tpm_pt_value(TpmPt::FirmwareMaxSvn) == 0x0000_0130,
        spec_tpm_pt_value(TpmPt::MlParameterSets) == 0x0000_0131,
        spec_tpm_pt_value(TpmPt::Permanent) == 0x0000_0200,
        spec_tpm_pt_value(TpmPt::StartupClear) == 0x0000_0201,
        spec_tpm_pt_value(TpmPt::HrNvIndex) == 0x0000_0202,
        spec_tpm_pt_value(TpmPt::HrLoaded) == 0x0000_0203,
        spec_tpm_pt_value(TpmPt::HrLoadedAvail) == 0x0000_0204,
        spec_tpm_pt_value(TpmPt::HrActive) == 0x0000_0205,
        spec_tpm_pt_value(TpmPt::HrActiveAvail) == 0x0000_0206,
        spec_tpm_pt_value(TpmPt::HrTransientAvail) == 0x0000_0207,
        spec_tpm_pt_value(TpmPt::HrPersistent) == 0x0000_0208,
        spec_tpm_pt_value(TpmPt::HrPersistentAvail) == 0x0000_0209,
        spec_tpm_pt_value(TpmPt::NvCounters) == 0x0000_020A,
        spec_tpm_pt_value(TpmPt::NvCountersAvail) == 0x0000_020B,
        spec_tpm_pt_value(TpmPt::AlgorithmSet) == 0x0000_020C,
        spec_tpm_pt_value(TpmPt::LoadedCurves) == 0x0000_020D,
        spec_tpm_pt_value(TpmPt::LockoutCounter) == 0x0000_020E,
        spec_tpm_pt_value(TpmPt::MaxAuthFail) == 0x0000_020F,
        spec_tpm_pt_value(TpmPt::LockoutInterval) == 0x0000_0210,
        spec_tpm_pt_value(TpmPt::LockoutRecovery) == 0x0000_0211,
        spec_tpm_pt_value(TpmPt::NvWriteRecovery) == 0x0000_0212,
        spec_tpm_pt_value(TpmPt::AuditCounter0) == 0x0000_0213,
        spec_tpm_pt_value(TpmPt::AuditCounter1) == 0x0000_0214,
{
}

/// A property's value reads back as that property, and a value is read as a
/// property only where it is that property's value.
pub proof fn law_tpm_pt_round_trip(x: TpmPt, value: u32)
    ensures
        spec_tpm_pt_of(spec_tpm_pt_value(x)) == Some(x),
        spec_tpm_pt_of(value) matches Some(y) ==> spec_tpm_pt_value(y) == value,
{
}

/// Each PCR property tag is read as its `TPM_PT_PCR` value, from 0x00 (the
/// PCRs saved in a state save) to 0x14 (the PCRs with an authorization value).
pub proof fn law_tpm_pt_pcr_values()
    ensures
        spec_tpm_pt_pcr_value(TpmPtPcr::PcrSave) == 0x0000_0000,
        spec_tpm_pt_pcr_value(TpmPtPcr::PcrExtendL0) == 0x0000_0001,
        spec_tpm_pt_pcr_value(TpmPtPcr::PcrResetL0) == 0x0000_0002,
        spec_tpm_pt_pcr_value(TpmPtPcr::PcrExtendL1) == 0x0000_0003,
        spec_tpm_pt_pcr_value(TpmPtPcr::PcrResetL1) == 0x0000_0004,
        spec_tpm_pt_pcr_value(TpmPtPcr::PcrExtendL2) == 0x0000_0005,
        spec_tpm_pt_pcr_value(TpmPtPcr::PcrResetL2) == 0x0000_0006,
        spec_tpm_pt_pcr_value(TpmPtPcr::PcrExtendL3) == 0x0000_0007,
        spec_tpm_pt_pcr_value(TpmPtPcr::PcrResetL3) == 0x0000_0008,
        spec_tpm_pt_pcr_value(TpmPtPcr::PcrExtendL4) == 0x0000_0009,
        spec_tpm_pt_pcr_value(TpmPtPcr::PcrResetL4) == 0x0000_000A,
        spec_tpm_pt_pcr_value(TpmPtPcr::PcrNoIncrement) == 0x0000_0011,
        spec_tpm_pt_pcr_value(TpmPtPcr::PcrDrtmReset) == 0x0000_0012,
        spec_tpm_pt_pcr_value(TpmPtPcr::PcrPolicy) == 0x0000_0013,
        spec_tpm_pt_pcr_value(TpmPtPcr::PcrAuth) == 0x0000_0014,
{
}

/// A PCR property's value reads back as that PCR property, and a value is read as a
/// PCR property only where it is that PCR property's value.
pub proof fn law_tpm_pt_pcr_round_trip(x: TpmPtPcr, value: u32)
    ensures
        spec_tpm_pt_pcr_of(spec_tpm_pt_pcr_value(x)) == Some(x),
        spec_tpm_pt_pcr_of(value) matches Some(y) ==> spec_tpm_pt_pcr_value(y) == value,
{
}

/// Each curve is read as its `TPM_ECC_CURVE` value: the NIST curves 0x0001 to
/// 0x0005, the BN curves 0x0010 and 0x0011, SM2 0x0020, the Brainpool curves
/// 0x0030 to 0x0032, Curve25519 0x0040 and Curve448 0x0041.
pub proof fn law_tpm_ecc_curve_values()
    ensures
        spec_tpm_ecc_curve_value(TpmEccCurve::NoCurve) == 0x0000,
        spec_tpm_ecc_curve_value(TpmEccCurve::NistP192) == 0x0001,
        spec_tpm_ecc_curve_value(TpmEccCurve::NistP224) == 0x0002,
        spec_tpm_ecc_curve_value(TpmEccCurve::NistP256) == 0x0003,
        spec_tpm_ecc_curve_value(TpmEccCurve::NistP384) == 0x0004,
        spec_tpm_ecc_curve_value(TpmEccCurve::NistP521) == 0x0005,
        spec_tpm_ecc_curve_value(TpmEccCurve::BnP256) == 0x0010,
        spec_tpm_ecc_curve_value(TpmEccCurve::BnP638) == 0x0011,
        spec_tpm_ecc_curve_value(TpmEccCurve::Sm2P256) == 0x0020,
        spec_tpm_ecc_curve_value(TpmEccCurve::BpP256R1) == 0x0030,
        spec_tpm_ecc_curve_value(TpmEccCurve::BpP384R1) == 0x0031,
        spec_tpm_ecc_curve_value(TpmEccCurve::BpP512R1) == 0x0032,
        spec_tpm_ecc_curve_value(TpmEccCurve::Curve25519) == 0x0040,
        spec_tpm_ecc_curve_value(TpmEccCurve::Curve448) == 0x0041,
{
}

/// A curve's value reads back as that curve, and a value is read as a
/// curve only where it is that curve's value.
pub proof fn law_tpm_ecc_curve_round_trip(x: TpmEccCurve, value: u16)
    ensures
        spec_tpm_ecc_curve_of(spec_tpm_ecc_curve_value(x)) == Some(x),
        spec_tpm_ecc_curve_of(value) matches Some(y) ==> spec_tpm_ecc_curve_value(y) == value,
{
}

/// Each capability is asked for by its `TPM_CAP` value: algorithms 0,
/// handles 1, commands 2, physical-presence commands 3, audited commands 4,
/// PCRs 5, TPM properties 6, PCR properties 7, curves 8.
pub proof fn law_tpm_cap_values()
    ensures
        spec_tpm_cap_value(TpmCap::Algorithms) == 0,
        spec_tpm_cap_value(TpmCap::Handles) == 1,
        spec_tpm_cap_value(TpmCap::Commands) == 2,
        spec_tpm_cap_value(TpmCap::PPCommands) == 3,
        spec_tpm_cap_value(TpmCap::AuditCommands) == 4,
        spec_tpm_cap_value(TpmCap::Pcrs) == 5,
        spec_tpm_cap_value(TpmCap::TpmProperties) == 6,
        spec_tpm_cap_value(TpmCap::PcrProperties) == 7,
        spec_tpm_cap_value(TpmCap::ECCCurves) == 8,
{
}

/// A capability's value reads back as that capability, and a value is read
/// as a capability only where it is that capability's value.
pub proof fn law_tpm_cap_round_trip(x: TpmCap, value: u32)
    ensures
        spec_tpm_cap_of(spec_tpm_cap_value(x)) == Some(x),
        spec_tpm_cap_of(value) matches Some(y) ==> spec_tpm_cap_value(y) == value,
{
}

/// A session is started as its `TPM_SE` type: an HMAC session 0x00, a policy
/// session 0x01, a trial policy session 0x03.
pub proof fn law_tpm_se_values()
    ensures
        spec_tpm_se_value(TpmSe::Hmac) == 0x00,
        spec_tpm_se_value(TpmSe::Policy) == 0x01,
        spec_tpm_se_value(TpmSe::Trial) == 0x03,
{
}

/// The structure tags that a tag field may hold, by their `TPM_ST` values:
/// from the response to an unknown command (0x00C4) to a
/// firmware manifest (0x8029); a command or response is tagged without
/// sessions (0x8001) or with sessions (0x8002), and by nothing else.
pub proof fn law_structure_tags(v: u16)
    ensures
        is_structure_tag(0x00C4),
        is_structure_tag(0x8000),
        is_structure_tag(0x8001),
        is_structure_tag(0x8002),
        is_structure_tag(0x8014),
        is_structure_tag(0x8015),
        is_structure_tag(0x8016),
        is_structure_tag(0x8017),
        is_structure_tag(0x8018),
        is_structure_tag(0x8019),
        is_structure_tag(0x801A),
        is_structure_tag(0x801C),
        is_structure_tag(0x8021),
        is_structure_tag(0x8022),
        is_structure_tag(0x8023),
        is_structure_tag(0x8024),
        is_structure_tag(0x8025),
        is_structure_tag(0x8029),
        is_structure_tag(v) <==> (v == 0x00C4 || v == 0x8000 || v == 0x8001 || v == 0x8002 || v == 0x8014 || v == 0x8015 || v == 0x8016 || v == 0x8017 || v == 0x8018 || v == 0x8019 || v == 0x801A || v == 0x801C || v == 0x8021 || v == 0x8022 || v == 0x8023 || v == 0x8024 || v == 0x8025 || v == 0x8029),
        is_command_tag(v) <==> (v == 0x8001 || v == 0x8002),
{
}

} // verus!
