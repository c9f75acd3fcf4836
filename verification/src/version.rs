//! The host release that a build targets. It is fixed once, from the release
//! flags of the build, and never changes afterwards.

use vstd::prelude::*;
use vstd::utf8::valid_utf8;
use crate::cstring::{
    ascii_bytes_are_text, cstr_content, decimal_value, is_cstr, is_digits, unsigned_digits,
};

verus! {

/// A supported host release.
#[derive(Clone, Copy, Debug, PartialEq, Eq, Structural)]
pub enum PgVersion {
    Pg10,
    Pg11,
    Pg12,
    Pg13,
}

/// The release flags of a build, one per supported host release.
#[derive(Clone, Copy, Debug, PartialEq, Eq, Structural)]
pub struct VersionFlags {
    pub pg10: bool,
    pub pg11: bool,
    pub pg12: bool,
    pub pg13: bool,
}

/// Why a set of release flags selects no release.
#[derive(Clone, Copy, Debug, PartialEq, Eq, Structural)]
pub enum ConfigError {
    /// No flag is active.
    NoVersionSelected,
    /// More than one flag is active.
    SeveralVersionsSelected,
}

impl ConfigError {
    /// What a build that selects no release is refused with.
    pub open spec fn diagnostic_text(self) -> Seq<char> {
        match self {
            ConfigError::NoVersionSelected =>
                "exactly one feature must be provided (pg10, pg11, pg12 or pg13): none is"@,
            ConfigError::SeveralVersionsSelected =>
                "exactly one feature must be provided (pg10, pg11, pg12 or pg13): several are"@,
        }
    }

    /// What a build that selects no release is refused with.
    pub fn diagnostic(&self) -> (text: &'static str)
        ensures
            text@ == self.diagnostic_text(),
    {
        match self {
            ConfigError::NoVersionSelected =>
                "exactly one feature must be provided (pg10, pg11, pg12 or pg13): none is",
            ConfigError::SeveralVersionsSelected =>
                "exactly one feature must be provided (pg10, pg11, pg12 or pg13): several are",
        }
    }
}

impl VersionFlags {
    /// Whether the flag of `version` is active.
    pub open spec fn has(self, version: PgVersion) -> bool {
        match version {
            PgVersion::Pg10 => self.pg10,
            PgVersion::Pg11 => self.pg11,
            PgVersion::Pg12 => self.pg12,
            PgVersion::Pg13 => self.pg13,
        }
    }

    /// How many flags are active.
    pub open spec fn count(self) -> nat {
        (if self.pg10 { 1nat } else { 0nat }) + (if self.pg11 { 1nat } else { 0nat }) + (
        if self.pg12 { 1nat } else { 0nat }) + (if self.pg13 { 1nat } else { 0nat })
    }

    /// The flags with only that of `version` active.
    pub fn only(version: PgVersion) -> (flags: VersionFlags)
        ensures
            flags.count() == 1,
            forall|w: PgVersion| flags.has(w) <==> w == version,
    {
        VersionFlags {
            pg10: matches!(version, PgVersion::Pg10),
            pg11: matches!(version, PgVersion::Pg11),
            pg12: matches!(version, PgVersion::Pg12),
            pg13: matches!(version, PgVersion::Pg13),
        }
    }
}

/// The release that a build targets: the one whose flag is active, where
/// exactly one is. With no flag or with several there is none, and the build
/// is refused.
pub fn select_version(flags: &VersionFlags) -> (selected: Result<PgVersion, ConfigError>)
    ensures
        selected is Ok <==> flags.count() == 1,
        selected matches Ok(v) ==> flags.has(v) && forall|w: PgVersion| flags.has(w) ==> w == v,
        selected == Err::<PgVersion, ConfigError>(ConfigError::NoVersionSelected) <==> flags.count()
            == 0,
        selected == Err::<PgVersion, ConfigError>(ConfigError::SeveralVersionsSelected)
            <==> flags.count() >= 2,
{
    let mut active: u8 = 0;
    if flags.pg10 {
        active = active + 1;
    }
    if flags.pg11 {
        active = active + 1;
    }
    if flags.pg12 {
        active = active + 1;
    }
    if flags.pg13 {
        active = active + 1;
    }
    if active == 0 {
        Err(ConfigError::NoVersionSelected)
    } else if active > 1 {
        Err(ConfigError::SeveralVersionsSelected)
    } else if flags.pg10 {
        Ok(PgVersion::Pg10)
    } else if flags.pg11 {
        Ok(PgVersion::Pg11)
    } else if flags.pg12 {
        Ok(PgVersion::Pg12)
    } else {
        Ok(PgVersion::Pg13)
    }
}

/// The zero-terminated text of the major release number, as the host's
/// declarations for `version` hold it.
pub open spec fn major_version_constant(version: PgVersion) -> Seq<u8> {
    match version {
        PgVersion::Pg10 => seq![49u8, 48u8, 0u8],
        PgVersion::Pg11 => seq![49u8, 49u8, 0u8],
        PgVersion::Pg12 => seq![49u8, 50u8, 0u8],
        PgVersion::Pg13 => seq![49u8, 51u8, 0u8],
    }
}

/// The major release number of `version`.
pub open spec fn major_version_number(version: PgVersion) -> int {
    match version {
        PgVersion::Pg10 => 10,
        PgVersion::Pg11 => 11,
        PgVersion::Pg12 => 12,
        PgVersion::Pg13 => 13,
    }
}

/// The zero-terminated text of the major release number, as the host's
/// declarations for `version` hold it.
pub fn PG_MAJORVERSION(version: PgVersion) -> (constant: Vec<u8>)
    ensures
        constant@ == major_version_constant(version),
{
    let units: u8 = match version {
        PgVersion::Pg10 => 48,
        PgVersion::Pg11 => 49,
        PgVersion::Pg12 => 50,
        PgVersion::Pg13 => 51,
    };
    let mut constant: Vec<u8> = Vec::new();
    constant.push(49);
    constant.push(units);
    constant.push(0);
    assert(constant@ =~= major_version_constant(version));
    constant
}

/// The major version constant of every release is one zero-terminated run of
/// decimal digits, which is valid text, and the number it writes is the
/// release's number.
pub proof fn major_version_constant_writes_the_number(version: PgVersion)
    ensures
        is_cstr(major_version_constant(version)),
        valid_utf8(cstr_content(major_version_constant(version))),
        is_digits(unsigned_digits(cstr_content(major_version_constant(version)))),
        decimal_value(unsigned_digits(cstr_content(major_version_constant(version))))
            == major_version_number(version),
{
    let constant = major_version_constant(version);
    let digits = cstr_content(constant);
    assert(digits.len() == 2);
    assert(digits[0] == 49u8);
    assert(unsigned_digits(digits) == digits);
    let head = digits.drop_last();
    assert(head.len() == 1);
    assert(head.drop_last().len() == 0);
    assert(decimal_value(head.drop_last()) == 0);
    assert(decimal_value(head) == 1);
    assert(decimal_value(digits) == 10 * decimal_value(head) + (digits.last() - 48));
    ascii_bytes_are_text(digits);
}

} // verus!
