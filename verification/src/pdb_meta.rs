use std::cmp::Ordering;
use vstd::prelude::*;
use vstd::std_specs::cmp::PartialOrdSpecImpl;

verus! {

/// The built-in scalar kinds of the debug-information format.
///
/// Each kind has a fixed number, [`SimpleTypeKind::code`], which is also the type index under
/// which every store knows the kind: a simple type needs no record of its own.
#[derive(Debug, PartialEq, Eq, Structural, Hash, Copy, Clone)]
pub enum SimpleTypeKind {
    /// Uncharacterized type (no type).
    NoType,
    /// Void.
    Void,
    /// Type not translated by cvpack.
    NotTranslated,
    /// OLE/COM HRESULT.
    HResult,
    /// 8 bit signed.
    SignedCharacter,
    /// 8 bit unsigned.
    UnsignedCharacter,
    /// Really a char.
    NarrowCharacter,
    /// Wide char.
    WideCharacter,
    /// `char16_t`.
    Character16,
    /// `char32_t`.
    Character32,
    /// 8 bit signed int.
    SByte,
    /// 8 bit unsigned int.
    Byte,
    /// 16 bit signed.
    Int16Short,
    /// 16 bit unsigned.
    UInt16Short,
    /// 16 bit signed int.
    Int16,
    /// 16 bit unsigned int.
    UInt16,
    /// 32 bit signed.
    Int32Long,
    /// 32 bit unsigned.
    UInt32Long,
    /// 32 bit signed int.
    Int32,
    /// 32 bit unsigned int.
    UInt32,
    /// 64 bit signed.
    Int64Quad,
    /// 64 bit unsigned.
    UInt64Quad,
    /// 64 bit signed int.
    Int64,
    /// 64 bit unsigned int.
    UInt64,
    /// 128 bit signed int.
    Int128Oct,
    /// 128 bit unsigned int.
    UInt128Oct,
    /// 128 bit signed int.
    Int128,
    /// 128 bit unsigned int.
    UInt128,
    /// 16 bit real.
    Float16,
    /// 32 bit real.
    Float32,
    /// 32 bit PP real.
    Float32PartialPrecision,
    /// 48 bit real.
    Float48,
    /// 64 bit real.
    Float64,
    /// 80 bit real.
    Float80,
    /// 128 bit real.
    Float128,
    /// 16 bit complex.
    Complex16,
    /// 32 bit complex.
    Complex32,
    /// 32 bit PP complex.
    Complex32PartialPrecision,
    /// 48 bit complex.
    Complex48,
    /// 64 bit complex.
    Complex64,
    /// 80 bit complex.
    Complex80,
    /// 128 bit complex.
    Complex128,
    /// 8 bit boolean.
    Boolean8,
    /// 16 bit boolean.
    Boolean16,
    /// 32 bit boolean.
    Boolean32,
    /// 64 bit boolean.
    Boolean64,
    /// 128 bit boolean.
    Boolean128,
}

impl SimpleTypeKind {
    /// The number that the debug-information format assigns to this value.
    pub open spec fn spec_code(self) -> u32 {
        match self {
            SimpleTypeKind::NoType => 0x0000u32,
            SimpleTypeKind::Void => 0x0003u32,
            SimpleTypeKind::NotTranslated => 0x0007u32,
            SimpleTypeKind::HResult => 0x0008u32,
            SimpleTypeKind::SignedCharacter => 0x0010u32,
            SimpleTypeKind::UnsignedCharacter => 0x0020u32,
            SimpleTypeKind::NarrowCharacter => 0x0070u32,
            SimpleTypeKind::WideCharacter => 0x0071u32,
            SimpleTypeKind::Character16 => 0x007au32,
            SimpleTypeKind::Character32 => 0x007bu32,
            SimpleTypeKind::SByte => 0x0068u32,
            SimpleTypeKind::Byte => 0x0069u32,
            SimpleTypeKind::Int16Short => 0x0011u32,
            SimpleTypeKind::UInt16Short => 0x0021u32,
            SimpleTypeKind::Int16 => 0x0072u32,
            SimpleTypeKind::UInt16 => 0x0073u32,
            SimpleTypeKind::Int32Long => 0x0012u32,
            SimpleTypeKind::UInt32Long => 0x0022u32,
            SimpleTypeKind::Int32 => 0x0074u32,
            SimpleTypeKind::UInt32 => 0x0075u32,
            SimpleTypeKind::Int64Quad => 0x0013u32,
            SimpleTypeKind::UInt64Quad => 0x0023u32,
            SimpleTypeKind::Int64 => 0x0076u32,
            SimpleTypeKind::UInt64 => 0x0077u32,
            SimpleTypeKind::Int128Oct => 0x0014u32,
            SimpleTypeKind::UInt128Oct => 0x0024u32,
            SimpleTypeKind::Int128 => 0x0078u32,
            SimpleTypeKind::UInt128 => 0x0079u32,
            SimpleTypeKind::Float16 => 0x0046u32,
            SimpleTypeKind::Float32 => 0x0040u32,
            SimpleTypeKind::Float32PartialPrecision => 0x0045u32,
            SimpleTypeKind::Float48 => 0x0044u32,
            SimpleTypeKind::Float64 => 0x0041u32,
            SimpleTypeKind::Float80 => 0x0042u32,
            SimpleTypeKind::Float128 => 0x0043u32,
            SimpleTypeKind::Complex16 => 0x0056u32,
            SimpleTypeKind::Complex32 => 0x0050u32,
            SimpleTypeKind::Complex32PartialPrecision => 0x0055u32,
            SimpleTypeKind::Complex48 => 0x0054u32,
            SimpleTypeKind::Complex64 => 0x0051u32,
            SimpleTypeKind::Complex80 => 0x0052u32,
            SimpleTypeKind::Complex128 => 0x0053u32,
            SimpleTypeKind::Boolean8 => 0x0030u32,
            SimpleTypeKind::Boolean16 => 0x0031u32,
            SimpleTypeKind::Boolean32 => 0x0032u32,
            SimpleTypeKind::Boolean64 => 0x0033u32,
            SimpleTypeKind::Boolean128 => 0x0034u32,
        }
    }

    /// Returns the number that the debug-information format assigns to this value.
    #[verifier::when_used_as_spec(spec_code)]
    pub fn code(self) -> (code: u32)
        ensures
            code == self.spec_code(),
    {
        match self {
            SimpleTypeKind::NoType => 0x0000u32,
            SimpleTypeKind::Void => 0x0003u32,
            SimpleTypeKind::NotTranslated => 0x0007u32,
            SimpleTypeKind::HResult => 0x0008u32,
            SimpleTypeKind::SignedCharacter => 0x0010u32,
            SimpleTypeKind::UnsignedCharacter => 0x0020u32,
            SimpleTypeKind::NarrowCharacter => 0x0070u32,
            SimpleTypeKind::WideCharacter => 0x0071u32,
            SimpleTypeKind::Character16 => 0x007au32,
            SimpleTypeKind::Character32 => 0x007bu32,
            SimpleTypeKind::SByte => 0x0068u32,
            SimpleTypeKind::Byte => 0x0069u32,
            SimpleTypeKind::Int16Short => 0x0011u32,
            SimpleTypeKind::UInt16Short => 0x0021u32,
            SimpleTypeKind::Int16 => 0x0072u32,
            SimpleTypeKind::UInt16 => 0x0073u32,
            SimpleTypeKind::Int32Long => 0x0012u32,
            SimpleTypeKind::UInt32Long => 0x0022u32,
            SimpleTypeKind::Int32 => 0x0074u32,
            SimpleTypeKind::UInt32 => 0x0075u32,
            SimpleTypeKind::Int64Quad => 0x0013u32,
            SimpleTypeKind::UInt64Quad => 0x0023u32,
            SimpleTypeKind::Int64 => 0x0076u32,
            SimpleTypeKind::UInt64 => 0x0077u32,
            SimpleTypeKind::Int128Oct => 0x0014u32,
            SimpleTypeKind::UInt128Oct => 0x0024u32,
            SimpleTypeKind::Int128 => 0x0078u32,
            SimpleTypeKind::UInt128 => 0x0079u32,
            SimpleTypeKind::Float16 => 0x0046u32,
            SimpleTypeKind::Float32 => 0x0040u32,
            SimpleTypeKind::Float32PartialPrecision => 0x0045u32,
            SimpleTypeKind::Float48 => 0x0044u32,
            SimpleTypeKind::Float64 => 0x0041u32,
            SimpleTypeKind::Float80 => 0x0042u32,
            SimpleTypeKind::Float128 => 0x0043u32,
            SimpleTypeKind::Complex16 => 0x0056u32,
            SimpleTypeKind::Complex32 => 0x0050u32,
            SimpleTypeKind::Complex32PartialPrecision => 0x0055u32,
            SimpleTypeKind::Complex48 => 0x0054u32,
            SimpleTypeKind::Complex64 => 0x0051u32,
            SimpleTypeKind::Complex80 => 0x0052u32,
            SimpleTypeKind::Complex128 => 0x0053u32,
            SimpleTypeKind::Boolean8 => 0x0030u32,
            SimpleTypeKind::Boolean16 => 0x0031u32,
            SimpleTypeKind::Boolean32 => 0x0032u32,
            SimpleTypeKind::Boolean64 => 0x0033u32,
            SimpleTypeKind::Boolean128 => 0x0034u32,
        }
    }

    /// The value that carries a given number, if there is one.
    pub open spec fn spec_from_code(code: u32) -> Option<SimpleTypeKind> {
        if code == 0x0000u32 {
            Some(SimpleTypeKind::NoType)
        }         else if code == 0x0003u32 {
            Some(SimpleTypeKind::Void)
        }         else if code == 0x0007u32 {
            Some(SimpleTypeKind::NotTranslated)
        }         else if code == 0x0008u32 {
            Some(SimpleTypeKind::HResult)
        }         else if code == 0x0010u32 {
            Some(SimpleTypeKind::SignedCharacter)
        }         else if code == 0x0020u32 {
            Some(SimpleTypeKind::UnsignedCharacter)
        }         else if code == 0x0070u32 {
            Some(SimpleTypeKind::NarrowCharacter)
        }         else if code == 0x0071u32 {
            Some(SimpleTypeKind::WideCharacter)
        }         else if code == 0x007au32 {
            Some(SimpleTypeKind::Character16)
        }         else if code == 0x007bu32 {
            Some(SimpleTypeKind::Character32)
        }         else if code == 0x0068u32 {
            Some(SimpleTypeKind::SByte)
        }         else if code == 0x0069u32 {
            Some(SimpleTypeKind::Byte)
        }         else if code == 0x0011u32 {
            Some(SimpleTypeKind::Int16Short)
        }         else if code == 0x0021u32 {
            Some(SimpleTypeKind::UInt16Short)
        }         else if code == 0x0072u32 {
            Some(SimpleTypeKind::Int16)
        }         else if code == 0x0073u32 {
            Some(SimpleTypeKind::UInt16)
        }         else if code == 0x0012u32 {
            Some(SimpleTypeKind::Int32Long)
        }         else if code == 0x0022u32 {
            Some(SimpleTypeKind::UInt32Long)
        }         else if code == 0x0074u32 {
            Some(SimpleTypeKind::Int32)
        }         else if code == 0x0075u32 {
            Some(SimpleTypeKind::UInt32)
        }         else if code == 0x0013u32 {
            Some(SimpleTypeKind::Int64Quad)
        }         else if code == 0x0023u32 {
            Some(SimpleTypeKind::UInt64Quad)
        }         else if code == 0x0076u32 {
            Some(SimpleTypeKind::Int64)
        }         else if code == 0x0077u32 {
            Some(SimpleTypeKind::UInt64)
        }         else if code == 0x0014u32 {
            Some(SimpleTypeKind::Int128Oct)
        }         else if code == 0x0024u32 {
            Some(SimpleTypeKind::UInt128Oct)
        }         else if code == 0x0078u32 {
            Some(SimpleTypeKind::Int128)
        }         else if code == 0x0079u32 {
            Some(SimpleTypeKind::UInt128)
        }         else if code == 0x0046u32 {
            Some(SimpleTypeKind::Float16)
        }         else if code == 0x0040u32 {
            Some(SimpleTypeKind::Float32)
        }         else if code == 0x0045u32 {
            Some(SimpleTypeKind::Float32PartialPrecision)
        }         else if code == 0x0044u32 {
            Some(SimpleTypeKind::Float48)
        }         else if code == 0x0041u32 {
            Some(SimpleTypeKind::Float64)
        }         else if code == 0x0042u32 {
            Some(SimpleTypeKind::Float80)
        }         else if code == 0x0043u32 {
            Some(SimpleTypeKind::Float128)
        }         else if code == 0x0056u32 {
            Some(SimpleTypeKind::Complex16)
        }         else if code == 0x0050u32 {
            Some(SimpleTypeKind::Complex32)
        }         else if code == 0x0055u32 {
            Some(SimpleTypeKind::Complex32PartialPrecision)
        }         else if code == 0x0054u32 {
            Some(SimpleTypeKind::Complex48)
        }         else if code == 0x0051u32 {
            Some(SimpleTypeKind::Complex64)
        }         else if code == 0x0052u32 {
            Some(SimpleTypeKind::Complex80)
        }         else if code == 0x0053u32 {
            Some(SimpleTypeKind::Complex128)
        }         else if code == 0x0030u32 {
            Some(SimpleTypeKind::Boolean8)
        }         else if code == 0x0031u32 {
            Some(SimpleTypeKind::Boolean16)
        }         else if code == 0x0032u32 {
            Some(SimpleTypeKind::Boolean32)
        }         else if code == 0x0033u32 {
            Some(SimpleTypeKind::Boolean64)
        }         else if code == 0x0034u32 {
            Some(SimpleTypeKind::Boolean128)
        } else {
            None
        }
    }

    /// No two values share a number: the number of a value leads back to that value alone.
    pub proof fn lemma_code_is_injective(a: SimpleTypeKind, b: SimpleTypeKind)
        ensures
            SimpleTypeKind::spec_from_code(a.spec_code()) == Some(a),
            a.spec_code() == b.spec_code() <==> a == b,
    {
    }
}

/// Values are ordered as their numbers are.
impl PartialOrd for SimpleTypeKind {
    fn partial_cmp(&self, other: &Self) -> (order: Option<Ordering>) {
        let mine: u32 = self.code();
        let theirs: u32 = other.code();
        if mine < theirs {
            Some(Ordering::Less)
        } else if mine == theirs {
            Some(Ordering::Equal)
        } else {
            Some(Ordering::Greater)
        }
    }
}

impl PartialOrdSpecImpl for SimpleTypeKind {
    open spec fn obeys_partial_cmp_spec() -> bool {
        true
    }

    open spec fn partial_cmp_spec(&self, other: &Self) -> Option<Ordering> {
        if self.spec_code() < other.spec_code() {
            Some(Ordering::Less)
        } else if self.spec_code() == other.spec_code() {
            Some(Ordering::Equal)
        } else {
            Some(Ordering::Greater)
        }
    }
}

/// How a function receives its arguments and who cleans the stack afterwards.
///
/// The numbers follow the `CV_call_e` enumeration of the debug-information format.
#[derive(Debug, PartialEq, Eq, Structural, Hash, Copy, Clone)]
pub enum CallingConvention {
    /// Near right to left push, caller pops stack.
    NearC,
    /// Far right to left push, caller pops stack.
    FarC,
    /// Near left to right push, callee pops stack.
    NearPascal,
    /// Far left to right push, callee pops stack.
    FarPascal,
    /// Near left to right push with regs, callee pops stack.
    NearFast,
    /// Far left to right push with regs, callee pops stack.
    FarFast,
    /// Near standard call.
    NearStdCall,
    /// Far standard call.
    FarStdCall,
    /// Near sys call.
    NearSysCall,
    /// Far sys call.
    FarSysCall,
    /// This call (this passed in register).
    ThisCall,
    /// Mips call.
    MipsCall,
    /// Generic call sequence.
    Generic,
    /// Alpha call.
    AlphaCall,
    /// PPC call.
    PpcCall,
    /// Hitachi SuperH call.
    SHCall,
    /// ARM call.
    ArmCall,
    /// AM33 call.
    AM33Call,
    /// TriCore Call.
    TriCall,
    /// Hitachi SuperH-5 call.
    SH5Call,
    /// M32R Call.
    M32RCall,
    /// Clr call.
    ClrCall,
    /// Marker for routines always inlined and thus lacking a convention.
    Inline,
    /// Near left to right push with regs, callee pops stack.
    NearVector,
}

impl CallingConvention {
    /// The number that the debug-information format assigns to this value.
    pub open spec fn spec_code(self) -> u8 {
        match self {
            CallingConvention::NearC => 0x00u8,
            CallingConvention::FarC => 0x01u8,
            CallingConvention::NearPascal => 0x02u8,
            CallingConvention::FarPascal => 0x03u8,
            CallingConvention::NearFast => 0x04u8,
            CallingConvention::FarFast => 0x05u8,
            CallingConvention::NearStdCall => 0x07u8,
            CallingConvention::FarStdCall => 0x08u8,
            CallingConvention::NearSysCall => 0x09u8,
            CallingConvention::FarSysCall => 0x0au8,
            CallingConvention::ThisCall => 0x0bu8,
            CallingConvention::MipsCall => 0x0cu8,
            CallingConvention::Generic => 0x0du8,
            CallingConvention::AlphaCall => 0x0eu8,
            CallingConvention::PpcCall => 0x0fu8,
            CallingConvention::SHCall => 0x10u8,
            CallingConvention::ArmCall => 0x11u8,
            CallingConvention::AM33Call => 0x12u8,
            CallingConvention::TriCall => 0x13u8,
            CallingConvention::SH5Call => 0x14u8,
            CallingConvention::M32RCall => 0x15u8,
            CallingConvention::ClrCall => 0x16u8,
            CallingConvention::Inline => 0x17u8,
            CallingConvention::NearVector => 0x18u8,
        }
    }

    /// Returns the number that the debug-information format assigns to this value.
    #[verifier::when_used_as_spec(spec_code)]
    pub fn code(self) -> (code: u8)
        ensures
            code == self.spec_code(),
    {
        match self {
            CallingConvention::NearC => 0x00u8,
            CallingConvention::FarC => 0x01u8,
            CallingConvention::NearPascal => 0x02u8,
            CallingConvention::FarPascal => 0x03u8,
            CallingConvention::NearFast => 0x04u8,
            CallingConvention::FarFast => 0x05u8,
            CallingConvention::NearStdCall => 0x07u8,
            CallingConvention::FarStdCall => 0x08u8,
            CallingConvention::NearSysCall => 0x09u8,
            CallingConvention::FarSysCall => 0x0au8,
            CallingConvention::ThisCall => 0x0bu8,
            CallingConvention::MipsCall => 0x0cu8,
            CallingConvention::Generic => 0x0du8,
            CallingConvention::AlphaCall => 0x0eu8,
            CallingConvention::PpcCall => 0x0fu8,
            CallingConvention::SHCall => 0x10u8,
            CallingConvention::ArmCall => 0x11u8,
            CallingConvention::AM33Call => 0x12u8,
            CallingConvention::TriCall => 0x13u8,
            CallingConvention::SH5Call => 0x14u8,
            CallingConvention::M32RCall => 0x15u8,
            CallingConvention::ClrCall => 0x16u8,
            CallingConvention::Inline => 0x17u8,
            CallingConvention::NearVector => 0x18u8,
        }
    }

    /// The value that carries a given number, if there is one.
    pub open spec fn spec_from_code(code: u8) -> Option<CallingConvention> {
        if code == 0x00u8 {
            Some(CallingConvention::NearC)
        }         else if code == 0x01u8 {
            Some(CallingConvention::FarC)
        }         else if code == 0x02u8 {
            Some(CallingConvention::NearPascal)
        }         else if code == 0x03u8 {
            Some(CallingConvention::FarPascal)
        }         else if code == 0x04u8 {
            Some(CallingConvention::NearFast)
        }         else if code == 0x05u8 {
            Some(CallingConvention::FarFast)
        }         else if code == 0x07u8 {
            Some(CallingConvention::NearStdCall)
        }         else if code == 0x08u8 {
            Some(CallingConvention::FarStdCall)
        }         else if code == 0x09u8 {
            Some(CallingConvention::NearSysCall)
        }         else if code == 0x0au8 {
            Some(CallingConvention::FarSysCall)
        }         else if code == 0x0bu8 {
            Some(CallingConvention::ThisCall)
        }         else if code == 0x0cu8 {
            Some(CallingConvention::MipsCall)
        }         else if code == 0x0du8 {
            Some(CallingConvention::Generic)
        }         else if code == 0x0eu8 {
            Some(CallingConvention::AlphaCall)
        }         else if code == 0x0fu8 {
            Some(CallingConvention::PpcCall)
        }         else if code == 0x10u8 {
            Some(CallingConvention::SHCall)
        }         else if code == 0x11u8 {
            Some(CallingConvention::ArmCall)
        }         else if code == 0x12u8 {
            Some(CallingConvention::AM33Call)
        }         else if code == 0x13u8 {
            Some(CallingConvention::TriCall)
        }         else if code == 0x14u8 {
            Some(CallingConvention::SH5Call)
        }         else if code == 0x15u8 {
            Some(CallingConvention::M32RCall)
        }         else if code == 0x16u8 {
            Some(CallingConvention::ClrCall)
        }         else if code == 0x17u8 {
            Some(CallingConvention::Inline)
        }         else if code == 0x18u8 {
            Some(CallingConvention::NearVector)
        } else {
            None
        }
    }

    /// No two values share a number: the number of a value leads back to that value alone.
    pub proof fn lemma_code_is_injective(a: CallingConvention, b: CallingConvention)
        ensures
            CallingConvention::spec_from_code(a.spec_code()) == Some(a),
            a.spec_code() == b.spec_code() <==> a == b,
    {
    }
}

/// Values are ordered as their numbers are.
impl PartialOrd for CallingConvention {
    fn partial_cmp(&self, other: &Self) -> (order: Option<Ordering>) {
        let mine: u8 = self.code();
        let theirs: u8 = other.code();
        if mine < theirs {
            Some(Ordering::Less)
        } else if mine == theirs {
            Some(Ordering::Equal)
        } else {
            Some(Ordering::Greater)
        }
    }
}

impl PartialOrdSpecImpl for CallingConvention {
    open spec fn obeys_partial_cmp_spec() -> bool {
        true
    }

    open spec fn partial_cmp_spec(&self, other: &Self) -> Option<Ordering> {
        if self.spec_code() < other.spec_code() {
            Some(Ordering::Less)
        } else if self.spec_code() == other.spec_code() {
            Some(Ordering::Equal)
        } else {
            Some(Ordering::Greater)
        }
    }
}

} // verus!
