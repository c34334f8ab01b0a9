use vstd::prelude::*;

verus! {

/// Flag marking a 64-bit ABI in a CPU type value.
pub const CPU_ARCH_ABI64: u32 = 0x0100_0000;

/// Base CPU type of the x86 family.
pub const CPU_TYPE_X86: u32 = 7;

/// CPU type of 64-bit x86.
pub const CPU_TYPE_X86_64: u32 = CPU_TYPE_X86 | CPU_ARCH_ABI64;

/// Base CPU type of the ARM family.
pub const CPU_TYPE_ARM: u32 = 12;

/// CPU type of 64-bit ARM.
pub const CPU_TYPE_ARM64: u32 = CPU_TYPE_ARM | CPU_ARCH_ABI64;

/// Capability-flag bits of a CPU subtype: the high byte carries feature
/// flags, not part of the base subtype identifier.
pub const CPU_SUBTYPE_MASK: u32 = 0xFF00_0000;

/// Base subtype identifier of every 64-bit x86 machine.
pub const CPU_SUBTYPE_X86_64_ALL: u32 = 3;

/// Base subtype identifier of 64-bit x86 with Haswell extensions.
pub const CPU_SUBTYPE_X86_64_H: u32 = 8;

/// Base subtype identifier of every 64-bit ARM machine.
pub const CPU_SUBTYPE_ARM64_ALL: u32 = 0;

/// Base subtype identifier of 64-bit ARM with pointer authentication.
pub const CPU_SUBTYPE_ARM64E: u32 = 2;

/// A raw CPU type value as stored in a file header.
#[derive(Clone, Copy, Debug, PartialEq, Eq, Structural)]
pub struct CPUType(pub u32);

impl CPUType {
    /// Whether this CPU type names a 64-bit architecture.
    pub open spec fn spec_is_64(self) -> bool {
        self.0 & CPU_ARCH_ABI64 != 0
    }

    /// Whether this CPU type names a 64-bit architecture.
    pub fn is_64(self) -> (r: bool)
        ensures
            r == self.spec_is_64(),
    {
        self.0 & CPU_ARCH_ABI64 != 0
    }
}

/// A raw CPU subtype value as stored in a file header. The high byte is a
/// capability-flag mask ORed onto the base subtype identifier; semantic
/// comparison must strip it first.
#[derive(Clone, Copy, Debug, PartialEq, Eq, Structural)]
pub struct CPUSubtype(pub u32);

impl CPUSubtype {
    /// The base subtype: this value with the capability-mask bits cleared.
    pub open spec fn spec_masked(self) -> CPUSubtype {
        CPUSubtype(self.0 & !CPU_SUBTYPE_MASK)
    }

    /// The base subtype: this value with the capability-mask bits cleared.
    pub fn masked(self) -> (r: CPUSubtype)
        ensures
            r == self.spec_masked(),
    {
        CPUSubtype(self.0 & !CPU_SUBTYPE_MASK)
    }

    /// The capability-flag bits: exactly those that `masked` clears.
    pub open spec fn spec_feature_flags(self) -> u32 {
        self.0 & CPU_SUBTYPE_MASK
    }

    /// The capability-flag bits: exactly those that `masked` clears.
    pub fn feature_flags(self) -> (r: u32)
        ensures
            r == self.spec_feature_flags(),
    {
        self.0 & CPU_SUBTYPE_MASK
    }
}

/// The base subtype and the capability flags partition a subtype value:
/// together they restore it, and they share no bits.
pub proof fn lemma_subtype_mask_partition(v: CPUSubtype)
    ensures
        v.spec_masked().0 | v.spec_feature_flags() == v.0,
        v.spec_masked().0 & v.spec_feature_flags() == 0,
        v.spec_masked().0 & CPU_SUBTYPE_MASK == 0,
{
    let x = v.0;
    assert((x & !0xFF00_0000u32) | (x & 0xFF00_0000u32) == x) by (bit_vector);
    assert((x & !0xFF00_0000u32) & (x & 0xFF00_0000u32) == 0) by (bit_vector);
    assert((x & !0xFF00_0000u32) & 0xFF00_0000u32 == 0) by (bit_vector);
}

/// A raw (type, subtype) pair naming the machine an object was built for.
pub struct Machine {
    cpu_type: CPUType,
    cpu_subtype: CPUSubtype,
}

impl Machine {
    /// The raw CPU type this machine was built from.
    pub closed spec fn spec_cpu_type(&self) -> CPUType {
        self.cpu_type
    }

    /// The raw CPU subtype this machine was built from.
    pub closed spec fn spec_cpu_subtype(&self) -> CPUSubtype {
        self.cpu_subtype
    }

    /// Pairs a raw CPU type with its raw subtype.
    pub fn new(cpu_type: CPUType, cpu_subtype: CPUSubtype) -> (m: Machine)
        ensures
            m.spec_cpu_type() == cpu_type,
            m.spec_cpu_subtype() == cpu_subtype,
    {
        Machine { cpu_type, cpu_subtype }
    }

    /// The recognized CPU this pair names. If `None`, use the raw values
    /// the machine was built from.
    pub fn cpu(&self) -> (res: Option<CPU>)
        ensures
            res == CPU::spec_new(self.spec_cpu_type(), self.spec_cpu_subtype()),
    {
        CPU::new(self.cpu_type, self.cpu_subtype)
    }
}

/// A fully recognized CPU: a known architecture together with a known
/// base subtype.
#[allow(non_camel_case_types)]
#[derive(Clone, Copy, Debug, PartialEq, Eq, Structural)]
pub enum CPU {
    x86_64(SubtypeX86_64),
    arm64(SubtypeArm64),
}

impl CPU {
    /// The CPU recognized from a raw (type, subtype) pair: the type must
    /// be a known 64-bit architecture and the masked subtype one of its
    /// known identifiers; anything else is `None`.
    pub open spec fn spec_new(cpu_type: CPUType, cpu_subtype: CPUSubtype) -> Option<CPU> {
        if cpu_type.0 == CPU_TYPE_X86_64 {
            match SubtypeX86_64::spec_new(cpu_subtype) {
                Some(s) => Some(CPU::x86_64(s)),
                None => None,
            }
        } else if cpu_type.0 == CPU_TYPE_ARM64 {
            match SubtypeArm64::spec_new(cpu_subtype) {
                Some(s) => Some(CPU::arm64(s)),
                None => None,
            }
        } else {
            None
        }
    }

    /// Recognizes a CPU from a raw (type, subtype) pair.
    pub fn new(cpu_type: CPUType, cpu_subtype: CPUSubtype) -> (res: Option<CPU>)
        ensures
            res == CPU::spec_new(cpu_type, cpu_subtype),
    {
        if cpu_type.0 == CPU_TYPE_X86_64 {
            match SubtypeX86_64::new(cpu_subtype) {
                Some(s) => Some(CPU::x86_64(s)),
                None => None,
            }
        } else if cpu_type.0 == CPU_TYPE_ARM64 {
            match SubtypeArm64::new(cpu_subtype) {
                Some(s) => Some(CPU::arm64(s)),
                None => None,
            }
        } else {
            None
        }
    }
}

/// A known base subtype of 64-bit x86.
#[allow(non_camel_case_types)]
#[derive(Clone, Copy, Debug, PartialEq, Eq, Structural)]
pub enum SubtypeX86_64 {
    x86_64,
    x86_64h,
}

impl SubtypeX86_64 {
    /// The x86-64 subtype whose identifier is the masked value of
    /// `cpu_subtype`; `None` for any other identifier. Capability flags
    /// never affect recognition.
    pub open spec fn spec_new(cpu_subtype: CPUSubtype) -> Option<SubtypeX86_64> {
        if cpu_subtype.spec_masked().0 == CPU_SUBTYPE_X86_64_ALL {
            Some(SubtypeX86_64::x86_64)
        } else if cpu_subtype.spec_masked().0 == CPU_SUBTYPE_X86_64_H {
            Some(SubtypeX86_64::x86_64h)
        } else {
            None
        }
    }

    /// Recognizes an x86-64 subtype from a raw subtype value.
    pub fn new(cpu_subtype: CPUSubtype) -> (res: Option<SubtypeX86_64>)
        ensures
            res == SubtypeX86_64::spec_new(cpu_subtype),
    {
        let masked = cpu_subtype.masked().0;
        if masked == CPU_SUBTYPE_X86_64_ALL {
            Some(SubtypeX86_64::x86_64)
        } else if masked == CPU_SUBTYPE_X86_64_H {
            Some(SubtypeX86_64::x86_64h)
        } else {
            None
        }
    }
}

/// A known base subtype of 64-bit ARM.
#[allow(non_camel_case_types)]
#[derive(Clone, Copy, Debug, PartialEq, Eq, Structural)]
pub enum SubtypeArm64 {
    arm64,
    arm64e,
}

impl SubtypeArm64 {
    /// The ARM64 subtype whose identifier is the masked value of
    /// `cpu_subtype`; `None` for any other identifier. Capability flags
    /// never affect recognition.
    pub open spec fn spec_new(cpu_subtype: CPUSubtype) -> Option<SubtypeArm64> {
        if cpu_subtype.spec_masked().0 == CPU_SUBTYPE_ARM64_ALL {
            Some(SubtypeArm64::arm64)
        } else if cpu_subtype.spec_masked().0 == CPU_SUBTYPE_ARM64E {
            Some(SubtypeArm64::arm64e)
        } else {
            None
        }
    }

    /// Recognizes an ARM64 subtype from a raw subtype value.
    pub fn new(cpu_subtype: CPUSubtype) -> (res: Option<SubtypeArm64>)
        ensures
            res == SubtypeArm64::spec_new(cpu_subtype),
    {
        let masked = cpu_subtype.masked().0;
        if masked == CPU_SUBTYPE_ARM64_ALL {
            Some(SubtypeArm64::arm64)
        } else if masked == CPU_SUBTYPE_ARM64E {
            Some(SubtypeArm64::arm64e)
        } else {
            None
        }
    }
}

} // verus!
