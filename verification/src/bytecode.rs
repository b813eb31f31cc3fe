//! Single instructions and their text.
//!
//! In an assembly listing every instruction is one line of text: the name of
//! the instruction, then its operands in decimal between round brackets, as in
//! `Pop`, `LdU8(7)` or `VecPack(3, 2)`. [`BytecodeDef::to_text`] writes that
//! text and [`BytecodeDef::from_text`] reads it back; the reader follows the
//! three patterns `^\w+$`, `^\w+\(\d+\)$` and `^\w+\(\d+,\s+\d+\)$`.
use crate::text::{
    CharClass, all_ascii_digits, chars_of, class_contains, class_run_end, dec_digits, dec_fits,
    dec_value, is_ascii_digit, lemma_dec_digits, lemma_run_end_at, push_dec, run_end, u128_bound,
    u64_bound, parse_dec_u128,
};
use crate::u256::{
    U256Def, lemma_u256_value, parse_dec_u256, push_dec_u256, u256_bound, u256_of_value, u256_value,
};
use vstd::prelude::*;

verus! {

/// One instruction of Move bytecode. Operands are the plain numbers that the
/// binary format holds: code offsets, local indexes, table indexes and constants.
#[derive(Clone, Copy, Debug, PartialEq, Eq)]
pub enum BytecodeDef {
    Pop,
    Ret,
    BrTrue(u16),
    BrFalse(u16),
    Branch(u16),
    LdU8(u8),
    LdU64(u64),
    LdU128(u128),
    CastU8,
    CastU64,
    CastU128,
    LdConst(u16),
    LdTrue,
    LdFalse,
    CopyLoc(u8),
    MoveLoc(u8),
    StLoc(u8),
    Call(u16),
    CallGeneric(u16),
    Pack(u16),
    PackGeneric(u16),
    PackVariant(u16),
    PackVariantGeneric(u16),
    Unpack(u16),
    UnpackGeneric(u16),
    UnpackVariant(u16),
    UnpackVariantGeneric(u16),
    TestVariant(u16),
    TestVariantGeneric(u16),
    ReadRef,
    WriteRef,
    FreezeRef,
    MutBorrowLoc(u8),
    ImmBorrowLoc(u8),
    MutBorrowField(u16),
    MutBorrowVariantField(u16),
    MutBorrowFieldGeneric(u16),
    MutBorrowVariantFieldGeneric(u16),
    ImmBorrowField(u16),
    ImmBorrowVariantField(u16),
    ImmBorrowFieldGeneric(u16),
    ImmBorrowVariantFieldGeneric(u16),
    MutBorrowGlobal(u16),
    MutBorrowGlobalGeneric(u16),
    ImmBorrowGlobal(u16),
    ImmBorrowGlobalGeneric(u16),
    Add,
    Sub,
    Mul,
    Mod,
    Div,
    BitOr,
    BitAnd,
    Xor,
    Or,
    And,
    Not,
    Eq,
    Neq,
    Lt,
    Gt,
    Le,
    Ge,
    Abort,
    Nop,
    Exists(u16),
    ExistsGeneric(u16),
    MoveFrom(u16),
    MoveFromGeneric(u16),
    MoveTo(u16),
    MoveToGeneric(u16),
    Shl,
    Shr,
    VecPack(u16, u64),
    VecLen(u16),
    VecImmBorrow(u16),
    VecMutBorrow(u16),
    VecPushBack(u16),
    VecPopBack(u16),
    VecUnpack(u16, u64),
    VecSwap(u16),
    LdU16(u16),
    LdU32(u32),
    LdU256(U256Def),
    CastU16,
    CastU32,
    CastU256,
}

/// The operands of an instruction.
#[derive(Clone, Copy, Debug, PartialEq, Eq)]
pub enum Operands {
    Nothing,
    One(u128),
    Wide(U256Def),
    Two(u16, u64),
}

/// Why a line of text is not an instruction.
#[derive(Clone, Copy, Debug, PartialEq, Eq)]
pub enum BytecodeError {
    /// A lone word that names no instruction without operands.
    UnknownNoParam,
    /// A word with one operand that names no instruction with one operand.
    UnknownOneParam,
    /// A word with two operands that names no instruction with two operands.
    UnknownTwoParams,
    /// The text has none of the three shapes.
    NoMatch,
    /// The operand of a one-operand instruction other than `LdU256` is not a `u128`.
    ParamNotU128,
    /// The operand of `LdU256` is not a 256-bit number.
    ParamNotU256,
    /// The first of two operands is not a `u64`.
    FirstParamNotU64,
    /// The second of two operands is not a `u64`.
    SecondParamNotU64,
}

/// The name of the instruction, as it stands in its text.
pub open spec fn instruction_name(b: BytecodeDef) -> Seq<char> {
    match b {
        BytecodeDef::Pop => "Pop"@,
        BytecodeDef::Ret => "Ret"@,
        BytecodeDef::BrTrue(..) => "BrTrue"@,
        BytecodeDef::BrFalse(..) => "BrFalse"@,
        BytecodeDef::Branch(..) => "Branch"@,
        BytecodeDef::LdU8(..) => "LdU8"@,
        BytecodeDef::LdU64(..) => "LdU64"@,
        BytecodeDef::LdU128(..) => "LdU128"@,
        BytecodeDef::CastU8 => "CastU8"@,
        BytecodeDef::CastU64 => "CastU64"@,
        BytecodeDef::CastU128 => "CastU128"@,
        BytecodeDef::LdConst(..) => "LdConst"@,
        BytecodeDef::LdTrue => "LdTrue"@,
        BytecodeDef::LdFalse => "LdFalse"@,
        BytecodeDef::CopyLoc(..) => "CopyLoc"@,
        BytecodeDef::MoveLoc(..) => "MoveLoc"@,
        BytecodeDef::StLoc(..) => "StLoc"@,
        BytecodeDef::Call(..) => "Call"@,
        BytecodeDef::CallGeneric(..) => "CallGeneric"@,
        BytecodeDef::Pack(..) => "Pack"@,
        BytecodeDef::PackGeneric(..) => "PackGeneric"@,
        BytecodeDef::PackVariant(..) => "PackVariant"@,
        BytecodeDef::PackVariantGeneric(..) => "PackVariantGeneric"@,
        BytecodeDef::Unpack(..) => "Unpack"@,
        BytecodeDef::UnpackGeneric(..) => "UnpackGeneric"@,
        BytecodeDef::UnpackVariant(..) => "UnpackVariant"@,
        BytecodeDef::UnpackVariantGeneric(..) => "UnpackVariantGeneric"@,
        BytecodeDef::TestVariant(..) => "TestVariant"@,
        BytecodeDef::TestVariantGeneric(..) => "TestVariantGeneric"@,
        BytecodeDef::ReadRef => "ReadRef"@,
        BytecodeDef::WriteRef => "WriteRef"@,
        BytecodeDef::FreezeRef => "FreezeRef"@,
        BytecodeDef::MutBorrowLoc(..) => "MutBorrowLoc"@,
        BytecodeDef::ImmBorrowLoc(..) => "ImmBorrowLoc"@,
        BytecodeDef::MutBorrowField(..) => "MutBorrowField"@,
        BytecodeDef::MutBorrowVariantField(..) => "MutBorrowVariantField"@,
        BytecodeDef::MutBorrowFieldGeneric(..) => "MutBorrowFieldGeneric"@,
        BytecodeDef::MutBorrowVariantFieldGeneric(..) => "MutBorrowVariantFieldGeneric"@,
        BytecodeDef::ImmBorrowField(..) => "ImmBorrowField"@,
        BytecodeDef::ImmBorrowVariantField(..) => "ImmBorrowVariantField"@,
        BytecodeDef::ImmBorrowFieldGeneric(..) => "ImmBorrowFieldGeneric"@,
        BytecodeDef::ImmBorrowVariantFieldGeneric(..) => "ImmBorrowVariantFieldGeneric"@,
        BytecodeDef::MutBorrowGlobal(..) => "MutBorrowGlobal"@,
        BytecodeDef::MutBorrowGlobalGeneric(..) => "MutBorrowGlobalGeneric"@,
        BytecodeDef::ImmBorrowGlobal(..) => "ImmBorrowGlobal"@,
        BytecodeDef::ImmBorrowGlobalGeneric(..) => "ImmBorrowGlobalGeneric"@,
        BytecodeDef::Add => "Add"@,
        BytecodeDef::Sub => "Sub"@,
        BytecodeDef::Mul => "Mul"@,
        BytecodeDef::Mod => "Mod"@,
        BytecodeDef::Div => "Div"@,
        BytecodeDef::BitOr => "BitOr"@,
        BytecodeDef::BitAnd => "BitAnd"@,
        BytecodeDef::Xor => "Xor"@,
        BytecodeDef::Or => "Or"@,
        BytecodeDef::And => "And"@,
        BytecodeDef::Not => "Not"@,
        BytecodeDef::Eq => "Eq"@,
        BytecodeDef::Neq => "Neq"@,
        BytecodeDef::Lt => "Lt"@,
        BytecodeDef::Gt => "Gt"@,
        BytecodeDef::Le => "Le"@,
        BytecodeDef::Ge => "Ge"@,
        BytecodeDef::Abort => "Abort"@,
        BytecodeDef::Nop => "Nop"@,
        BytecodeDef::Exists(..) => "Exists"@,
        BytecodeDef::ExistsGeneric(..) => "ExistsGeneric"@,
        BytecodeDef::MoveFrom(..) => "MoveFrom"@,
        BytecodeDef::MoveFromGeneric(..) => "MoveFromGeneric"@,
        BytecodeDef::MoveTo(..) => "MoveTo"@,
        BytecodeDef::MoveToGeneric(..) => "MoveToGeneric"@,
        BytecodeDef::Shl => "Shl"@,
        BytecodeDef::Shr => "Shr"@,
        BytecodeDef::VecPack(..) => "VecPack"@,
        BytecodeDef::VecLen(..) => "VecLen"@,
        BytecodeDef::VecImmBorrow(..) => "VecImmBorrow"@,
        BytecodeDef::VecMutBorrow(..) => "VecMutBorrow"@,
        BytecodeDef::VecPushBack(..) => "VecPushBack"@,
        BytecodeDef::VecPopBack(..) => "VecPopBack"@,
        BytecodeDef::VecUnpack(..) => "VecUnpack"@,
        BytecodeDef::VecSwap(..) => "VecSwap"@,
        BytecodeDef::LdU16(..) => "LdU16"@,
        BytecodeDef::LdU32(..) => "LdU32"@,
        BytecodeDef::LdU256(..) => "LdU256"@,
        BytecodeDef::CastU16 => "CastU16"@,
        BytecodeDef::CastU32 => "CastU32"@,
        BytecodeDef::CastU256 => "CastU256"@,
    }
}

pub open spec fn instruction_operands(b: BytecodeDef) -> Operands {
    match b {
        BytecodeDef::Pop => Operands::Nothing,
        BytecodeDef::Ret => Operands::Nothing,
        BytecodeDef::BrTrue(x) => Operands::One(x as u128),
        BytecodeDef::BrFalse(x) => Operands::One(x as u128),
        BytecodeDef::Branch(x) => Operands::One(x as u128),
        BytecodeDef::LdU8(x) => Operands::One(x as u128),
        BytecodeDef::LdU64(x) => Operands::One(x as u128),
        BytecodeDef::LdU128(x) => Operands::One(x as u128),
        BytecodeDef::CastU8 => Operands::Nothing,
        BytecodeDef::CastU64 => Operands::Nothing,
        BytecodeDef::CastU128 => Operands::Nothing,
        BytecodeDef::LdConst(x) => Operands::One(x as u128),
        BytecodeDef::LdTrue => Operands::Nothing,
        BytecodeDef::LdFalse => Operands::Nothing,
        BytecodeDef::CopyLoc(x) => Operands::One(x as u128),
        BytecodeDef::MoveLoc(x) => Operands::One(x as u128),
        BytecodeDef::StLoc(x) => Operands::One(x as u128),
        BytecodeDef::Call(x) => Operands::One(x as u128),
        BytecodeDef::CallGeneric(x) => Operands::One(x as u128),
        BytecodeDef::Pack(x) => Operands::One(x as u128),
        BytecodeDef::PackGeneric(x) => Operands::One(x as u128),
        BytecodeDef::PackVariant(x) => Operands::One(x as u128),
        BytecodeDef::PackVariantGeneric(x) => Operands::One(x as u128),
        BytecodeDef::Unpack(x) => Operands::One(x as u128),
        BytecodeDef::UnpackGeneric(x) => Operands::One(x as u128),
        BytecodeDef::UnpackVariant(x) => Operands::One(x as u128),
        BytecodeDef::UnpackVariantGeneric(x) => Operands::One(x as u128),
        BytecodeDef::TestVariant(x) => Operands::One(x as u128),
        BytecodeDef::TestVariantGeneric(x) => Operands::One(x as u128),
        BytecodeDef::ReadRef => Operands::Nothing,
        BytecodeDef::WriteRef => Operands::Nothing,
        BytecodeDef::FreezeRef => Operands::Nothing,
        BytecodeDef::MutBorrowLoc(x) => Operands::One(x as u128),
        BytecodeDef::ImmBorrowLoc(x) => Operands::One(x as u128),
        BytecodeDef::MutBorrowField(x) => Operands::One(x as u128),
        BytecodeDef::MutBorrowVariantField(x) => Operands::One(x as u128),
        BytecodeDef::MutBorrowFieldGeneric(x) => Operands::One(x as u128),
        BytecodeDef::MutBorrowVariantFieldGeneric(x) => Operands::One(x as u128),
        BytecodeDef::ImmBorrowField(x) => Operands::One(x as u128),
        BytecodeDef::ImmBorrowVariantField(x) => Operands::One(x as u128),
        BytecodeDef::ImmBorrowFieldGeneric(x) => Operands::One(x as u128),
        BytecodeDef::ImmBorrowVariantFieldGeneric(x) => Operands::One(x as u128),
        BytecodeDef::MutBorrowGlobal(x) => Operands::One(x as u128),
        BytecodeDef::MutBorrowGlobalGeneric(x) => Operands::One(x as u128),
        BytecodeDef::ImmBorrowGlobal(x) => Operands::One(x as u128),
        BytecodeDef::ImmBorrowGlobalGeneric(x) => Operands::One(x as u128),
        BytecodeDef::Add => Operands::Nothing,
        BytecodeDef::Sub => Operands::Nothing,
        BytecodeDef::Mul => Operands::Nothing,
        BytecodeDef::Mod => Operands::Nothing,
        BytecodeDef::Div => Operands::Nothing,
        BytecodeDef::BitOr => Operands::Nothing,
        BytecodeDef::BitAnd => Operands::Nothing,
        BytecodeDef::Xor => Operands::Nothing,
        BytecodeDef::Or => Operands::Nothing,
        BytecodeDef::And => Operands::Nothing,
        BytecodeDef::Not => Operands::Nothing,
        BytecodeDef::Eq => Operands::Nothing,
        BytecodeDef::Neq => Operands::Nothing,
        BytecodeDef::Lt => Operands::Nothing,
        BytecodeDef::Gt => Operands::Nothing,
        BytecodeDef::Le => Operands::Nothing,
        BytecodeDef::Ge => Operands::Nothing,
        BytecodeDef::Abort => Operands::Nothing,
        BytecodeDef::Nop => Operands::Nothing,
        BytecodeDef::Exists(x) => Operands::One(x as u128),
        BytecodeDef::ExistsGeneric(x) => Operands::One(x as u128),
        BytecodeDef::MoveFrom(x) => Operands::One(x as u128),
        BytecodeDef::MoveFromGeneric(x) => Operands::One(x as u128),
        BytecodeDef::MoveTo(x) => Operands::One(x as u128),
        BytecodeDef::MoveToGeneric(x) => Operands::One(x as u128),
        BytecodeDef::Shl => Operands::Nothing,
        BytecodeDef::Shr => Operands::Nothing,
        BytecodeDef::VecPack(x, y) => Operands::Two(x, y),
        BytecodeDef::VecLen(x) => Operands::One(x as u128),
        BytecodeDef::VecImmBorrow(x) => Operands::One(x as u128),
        BytecodeDef::VecMutBorrow(x) => Operands::One(x as u128),
        BytecodeDef::VecPushBack(x) => Operands::One(x as u128),
        BytecodeDef::VecPopBack(x) => Operands::One(x as u128),
        BytecodeDef::VecUnpack(x, y) => Operands::Two(x, y),
        BytecodeDef::VecSwap(x) => Operands::One(x as u128),
        BytecodeDef::LdU16(x) => Operands::One(x as u128),
        BytecodeDef::LdU32(x) => Operands::One(x as u128),
        BytecodeDef::LdU256(x) => Operands::Wide(x),
        BytecodeDef::CastU16 => Operands::Nothing,
        BytecodeDef::CastU32 => Operands::Nothing,
        BytecodeDef::CastU256 => Operands::Nothing,
    }
}

/// The text of an instruction: its name, then its operands in decimal between
/// round brackets, two operands separated by a comma and a space.
pub open spec fn instruction_text(b: BytecodeDef) -> Seq<char> {
    let name = instruction_name(b);
    match instruction_operands(b) {
        Operands::Nothing => name,
        Operands::One(v) => name + seq!['('] + dec_digits(v as nat) + seq![')'],
        Operands::Wide(v) => name + seq!['('] + dec_digits(u256_value(v)) + seq![')'],
        Operands::Two(a, c) => name + seq!['('] + dec_digits(a as nat) + seq![',', ' '] + dec_digits(
            c as nat,
        ) + seq![')'],
    }
}

/// The instruction without operands that `op` names.
pub open spec fn no_param_instruction(op: Seq<char>) -> Option<BytecodeDef> {
    if op == "Pop"@ {
        Some(BytecodeDef::Pop)
    } else if op == "Ret"@ {
        Some(BytecodeDef::Ret)
    } else if op == "CastU8"@ {
        Some(BytecodeDef::CastU8)
    } else if op == "CastU16"@ {
        Some(BytecodeDef::CastU16)
    } else if op == "CastU32"@ {
        Some(BytecodeDef::CastU32)
    } else if op == "CastU64"@ {
        Some(BytecodeDef::CastU64)
    } else if op == "CastU128"@ {
        Some(BytecodeDef::CastU128)
    } else if op == "CastU256"@ {
        Some(BytecodeDef::CastU256)
    } else if op == "LdTrue"@ {
        Some(BytecodeDef::LdTrue)
    } else if op == "LdFalse"@ {
        Some(BytecodeDef::LdFalse)
    } else if op == "ReadRef"@ {
        Some(BytecodeDef::ReadRef)
    } else if op == "WriteRef"@ {
        Some(BytecodeDef::WriteRef)
    } else if op == "FreezeRef"@ {
        Some(BytecodeDef::FreezeRef)
    } else if op == "Add"@ {
        Some(BytecodeDef::Add)
    } else if op == "Sub"@ {
        Some(BytecodeDef::Sub)
    } else if op == "Mul"@ {
        Some(BytecodeDef::Mul)
    } else if op == "Mod"@ {
        Some(BytecodeDef::Mod)
    } else if op == "Div"@ {
        Some(BytecodeDef::Div)
    } else if op == "BitOr"@ {
        Some(BytecodeDef::BitOr)
    } else if op == "BitAnd"@ {
        Some(BytecodeDef::BitAnd)
    } else if op == "Xor"@ {
        Some(BytecodeDef::Xor)
    } else if op == "Shl"@ {
        Some(BytecodeDef::Shl)
    } else if op == "Shr"@ {
        Some(BytecodeDef::Shr)
    } else if op == "Or"@ {
        Some(BytecodeDef::Or)
    } else if op == "And"@ {
        Some(BytecodeDef::And)
    } else if op == "Not"@ {
        Some(BytecodeDef::Not)
    } else if op == "Eq"@ {
        Some(BytecodeDef::Eq)
    } else if op == "Neq"@ {
        Some(BytecodeDef::Neq)
    } else if op == "Lt"@ {
        Some(BytecodeDef::Lt)
    } else if op == "Gt"@ {
        Some(BytecodeDef::Gt)
    } else if op == "Le"@ {
        Some(BytecodeDef::Le)
    } else if op == "Ge"@ {
        Some(BytecodeDef::Ge)
    } else if op == "Abort"@ {
        Some(BytecodeDef::Abort)
    } else if op == "Nop"@ {
        Some(BytecodeDef::Nop)
    } else {
        None
    }
}

/// The instruction with one operand that `op` names, with the operand `v`
/// cut down to the operand's width.
pub open spec fn one_param_instruction(op: Seq<char>, v: u128) -> Option<BytecodeDef> {
    if op == "BrTrue"@ {
        Some(BytecodeDef::BrTrue(v as u16))
    } else if op == "BrFalse"@ {
        Some(BytecodeDef::BrFalse(v as u16))
    } else if op == "Branch"@ {
        Some(BytecodeDef::Branch(v as u16))
    } else if op == "LdU8"@ {
        Some(BytecodeDef::LdU8(v as u8))
    } else if op == "LdU16"@ {
        Some(BytecodeDef::LdU16(v as u16))
    } else if op == "LdU32"@ {
        Some(BytecodeDef::LdU32(v as u32))
    } else if op == "LdU64"@ {
        Some(BytecodeDef::LdU64(v as u64))
    } else if op == "LdU128"@ {
        Some(BytecodeDef::LdU128(v))
    } else if op == "LdConst"@ {
        Some(BytecodeDef::LdConst(v as u16))
    } else if op == "CopyLoc"@ {
        Some(BytecodeDef::CopyLoc(v as u8))
    } else if op == "MoveLoc"@ {
        Some(BytecodeDef::MoveLoc(v as u8))
    } else if op == "StLoc"@ {
        Some(BytecodeDef::StLoc(v as u8))
    } else if op == "Call"@ {
        Some(BytecodeDef::Call(v as u16))
    } else if op == "CallGeneric"@ {
        Some(BytecodeDef::CallGeneric(v as u16))
    } else if op == "Pack"@ {
        Some(BytecodeDef::Pack(v as u16))
    } else if op == "PackGeneric"@ {
        Some(BytecodeDef::PackGeneric(v as u16))
    } else if op == "PackVariant"@ {
        Some(BytecodeDef::PackVariant(v as u16))
    } else if op == "TestVariant"@ {
        Some(BytecodeDef::TestVariant(v as u16))
    } else if op == "PackVariantGeneric"@ {
        Some(BytecodeDef::PackVariantGeneric(v as u16))
    } else if op == "TestVariantGeneric"@ {
        Some(BytecodeDef::TestVariantGeneric(v as u16))
    } else if op == "Unpack"@ {
        Some(BytecodeDef::Unpack(v as u16))
    } else if op == "UnpackGeneric"@ {
        Some(BytecodeDef::UnpackGeneric(v as u16))
    } else if op == "UnpackVariant"@ {
        Some(BytecodeDef::UnpackVariant(v as u16))
    } else if op == "UnpackVariantGeneric"@ {
        Some(BytecodeDef::UnpackVariantGeneric(v as u16))
    } else if op == "MutBorrowLoc"@ {
        Some(BytecodeDef::MutBorrowLoc(v as u8))
    } else if op == "ImmBorrowLoc"@ {
        Some(BytecodeDef::ImmBorrowLoc(v as u8))
    } else if op == "MutBorrowField"@ {
        Some(BytecodeDef::MutBorrowField(v as u16))
    } else if op == "MutBorrowFieldGeneric"@ {
        Some(BytecodeDef::MutBorrowFieldGeneric(v as u16))
    } else if op == "MutBorrowVariantField"@ {
        Some(BytecodeDef::MutBorrowVariantField(v as u16))
    } else if op == "MutBorrowVariantFieldGeneric"@ {
        Some(BytecodeDef::MutBorrowVariantFieldGeneric(v as u16))
    } else if op == "ImmBorrowField"@ {
        Some(BytecodeDef::ImmBorrowField(v as u16))
    } else if op == "ImmBorrowFieldGeneric"@ {
        Some(BytecodeDef::ImmBorrowFieldGeneric(v as u16))
    } else if op == "ImmBorrowVariantField"@ {
        Some(BytecodeDef::ImmBorrowVariantField(v as u16))
    } else if op == "ImmBorrowVariantFieldGeneric"@ {
        Some(BytecodeDef::ImmBorrowVariantFieldGeneric(v as u16))
    } else if op == "MutBorrowGlobal"@ {
        Some(BytecodeDef::MutBorrowGlobal(v as u16))
    } else if op == "MutBorrowGlobalGeneric"@ {
        Some(BytecodeDef::MutBorrowGlobalGeneric(v as u16))
    } else if op == "ImmBorrowGlobal"@ {
        Some(BytecodeDef::ImmBorrowGlobal(v as u16))
    } else if op == "ImmBorrowGlobalGeneric"@ {
        Some(BytecodeDef::ImmBorrowGlobalGeneric(v as u16))
    } else if op == "Exists"@ {
        Some(BytecodeDef::Exists(v as u16))
    } else if op == "ExistsGeneric"@ {
        Some(BytecodeDef::ExistsGeneric(v as u16))
    } else if op == "MoveFrom"@ {
        Some(BytecodeDef::MoveFrom(v as u16))
    } else if op == "MoveFromGeneric"@ {
        Some(BytecodeDef::MoveFromGeneric(v as u16))
    } else if op == "MoveTo"@ {
        Some(BytecodeDef::MoveTo(v as u16))
    } else if op == "MoveToGeneric"@ {
        Some(BytecodeDef::MoveToGeneric(v as u16))
    } else if op == "VecLen"@ {
        Some(BytecodeDef::VecLen(v as u16))
    } else if op == "VecImmBorrow"@ {
        Some(BytecodeDef::VecImmBorrow(v as u16))
    } else if op == "VecMutBorrow"@ {
        Some(BytecodeDef::VecMutBorrow(v as u16))
    } else if op == "VecPushBack"@ {
        Some(BytecodeDef::VecPushBack(v as u16))
    } else if op == "VecPopBack"@ {
        Some(BytecodeDef::VecPopBack(v as u16))
    } else if op == "VecSwap"@ {
        Some(BytecodeDef::VecSwap(v as u16))
    } else {
        None
    }
}

/// The instruction with two operands that `op` names; the first operand is
/// cut down to 16 bits.
pub open spec fn two_param_instruction(op: Seq<char>, a: u64, c: u64) -> Option<BytecodeDef> {
    if op == "VecPack"@ {
        Some(BytecodeDef::VecPack(a as u16, c))
    } else if op == "VecUnpack"@ {
        Some(BytecodeDef::VecUnpack(a as u16, c))
    } else {
        None
    }
}

/// Where the leading word of `s` ends.
pub open spec fn word_end(s: Seq<char>) -> int {
    run_end(s, 0, CharClass::Word)
}

/// Where the first operand of `s` ends.
pub open spec fn first_operand_end(s: Seq<char>) -> int {
    run_end(s, word_end(s) + 1, CharClass::Digit)
}

/// Where the second operand of `s` starts.
pub open spec fn second_operand_start(s: Seq<char>) -> int {
    run_end(s, first_operand_end(s) + 1, CharClass::Space)
}

/// `s` matches `^\w+$`.
pub open spec fn no_param_form(s: Seq<char>) -> bool {
    s.len() > 0 && word_end(s) == s.len()
}

/// `s` matches `^\w+\(\d+\)$`.
pub open spec fn one_param_form(s: Seq<char>) -> bool {
    let k = word_end(s);
    let j = first_operand_end(s);
    &&& 0 < k && k + 1 < s.len()
    &&& s[k] == '('
    &&& k + 1 < j
    &&& j == s.len() - 1
    &&& s[j] == ')'
}

/// `s` matches `^\w+\(\d+,\s+\d+\)$` (no character is both in `\s` and in `\d`,
/// so the runs split the text the way the pattern does).
pub open spec fn two_param_form(s: Seq<char>) -> bool {
    let k = word_end(s);
    let j = first_operand_end(s);
    let m = second_operand_start(s);
    let e = run_end(s, m, CharClass::Digit);
    &&& 0 < k && k + 1 < s.len()
    &&& s[k] == '('
    &&& k + 1 < j && j < s.len()
    &&& s[j] == ','
    &&& j + 1 < m
    &&& m < e && e == s.len() - 1
    &&& s[e] == ')'
}

/// The instruction that a line of text denotes, or why it denotes none.
pub open spec fn bytecode_of_text(s: Seq<char>) -> Result<BytecodeDef, BytecodeError> {
    if no_param_form(s) {
        match no_param_instruction(s) {
            Some(b) => Ok(b),
            None => Err(BytecodeError::UnknownNoParam),
        }
    } else if one_param_form(s) {
        let op = s.subrange(0, word_end(s));
        let p = s.subrange(word_end(s) + 1, s.len() - 1);
        if op == "LdU256"@ {
            if dec_fits(p, u256_bound()) {
                Ok(BytecodeDef::LdU256(u256_of_value(dec_value(p))))
            } else {
                Err(BytecodeError::ParamNotU256)
            }
        } else if dec_fits(p, u128_bound()) {
            match one_param_instruction(op, dec_value(p) as u128) {
                Some(b) => Ok(b),
                None => Err(BytecodeError::UnknownOneParam),
            }
        } else {
            Err(BytecodeError::ParamNotU128)
        }
    } else if two_param_form(s) {
        let op = s.subrange(0, word_end(s));
        let p1 = s.subrange(word_end(s) + 1, first_operand_end(s));
        let p2 = s.subrange(second_operand_start(s), s.len() - 1);
        if !dec_fits(p1, u64_bound()) {
            Err(BytecodeError::FirstParamNotU64)
        } else if !dec_fits(p2, u64_bound()) {
            Err(BytecodeError::SecondParamNotU64)
        } else {
            match two_param_instruction(op, dec_value(p1) as u64, dec_value(p2) as u64) {
                Some(b) => Ok(b),
                None => Err(BytecodeError::UnknownTwoParams),
            }
        }
    } else {
        Err(BytecodeError::NoMatch)
    }
}

/// Whether `cs[0..k)` spells `lit`.
fn text_is(cs: &Vec<char>, k: usize, lit: &str) -> (b: bool)
    requires
        k <= cs.len(),
    ensures
        b == (cs@.subrange(0, k as int) == lit@),
{
    let n = lit.unicode_len();
    if n != k {
        return false;
    }
    let mut i: usize = 0;
    while i < k
        invariant
            0 <= i <= k <= cs.len(),
            n == k,
            lit@.len() == k,
            forall|t: int| 0 <= t < i ==> cs@[t] == lit@[t],
        decreases k - i,
    {
        if cs[i] != lit.get_char(i) {
            assert(cs@.subrange(0, k as int)[i as int] != lit@[i as int]);
            return false;
        }
        i = i + 1;
    }
    assert(cs@.subrange(0, k as int) =~= lit@);
    true
}

/// The instruction without operands that `cs[0..k)` names.
fn no_param_lookup(cs: &Vec<char>, k: usize) -> (r: Option<BytecodeDef>)
    requires
        k <= cs.len(),
    ensures
        r == no_param_instruction(cs@.subrange(0, k as int)),
{
    if text_is(cs, k, "Pop") {
        return Some(BytecodeDef::Pop);
    }
    if text_is(cs, k, "Ret") {
        return Some(BytecodeDef::Ret);
    }
    if text_is(cs, k, "CastU8") {
        return Some(BytecodeDef::CastU8);
    }
    if text_is(cs, k, "CastU16") {
        return Some(BytecodeDef::CastU16);
    }
    if text_is(cs, k, "CastU32") {
        return Some(BytecodeDef::CastU32);
    }
    if text_is(cs, k, "CastU64") {
        return Some(BytecodeDef::CastU64);
    }
    if text_is(cs, k, "CastU128") {
        return Some(BytecodeDef::CastU128);
    }
    if text_is(cs, k, "CastU256") {
        return Some(BytecodeDef::CastU256);
    }
    if text_is(cs, k, "LdTrue") {
        return Some(BytecodeDef::LdTrue);
    }
    if text_is(cs, k, "LdFalse") {
        return Some(BytecodeDef::LdFalse);
    }
    if text_is(cs, k, "ReadRef") {
        return Some(BytecodeDef::ReadRef);
    }
    if text_is(cs, k, "WriteRef") {
        return Some(BytecodeDef::WriteRef);
    }
    if text_is(cs, k, "FreezeRef") {
        return Some(BytecodeDef::FreezeRef);
    }
    if text_is(cs, k, "Add") {
        return Some(BytecodeDef::Add);
    }
    if text_is(cs, k, "Sub") {
        return Some(BytecodeDef::Sub);
    }
    if text_is(cs, k, "Mul") {
        return Some(BytecodeDef::Mul);
    }
    if text_is(cs, k, "Mod") {
        return Some(BytecodeDef::Mod);
    }
    if text_is(cs, k, "Div") {
        return Some(BytecodeDef::Div);
    }
    if text_is(cs, k, "BitOr") {
        return Some(BytecodeDef::BitOr);
    }
    if text_is(cs, k, "BitAnd") {
        return Some(BytecodeDef::BitAnd);
    }
    if text_is(cs, k, "Xor") {
        return Some(BytecodeDef::Xor);
    }
    if text_is(cs, k, "Shl") {
        return Some(BytecodeDef::Shl);
    }
    if text_is(cs, k, "Shr") {
        return Some(BytecodeDef::Shr);
    }
    if text_is(cs, k, "Or") {
        return Some(BytecodeDef::Or);
    }
    if text_is(cs, k, "And") {
        return Some(BytecodeDef::And);
    }
    if text_is(cs, k, "Not") {
        return Some(BytecodeDef::Not);
    }
    if text_is(cs, k, "Eq") {
        return Some(BytecodeDef::Eq);
    }
    if text_is(cs, k, "Neq") {
        return Some(BytecodeDef::Neq);
    }
    if text_is(cs, k, "Lt") {
        return Some(BytecodeDef::Lt);
    }
    if text_is(cs, k, "Gt") {
        return Some(BytecodeDef::Gt);
    }
    if text_is(cs, k, "Le") {
        return Some(BytecodeDef::Le);
    }
    if text_is(cs, k, "Ge") {
        return Some(BytecodeDef::Ge);
    }
    if text_is(cs, k, "Abort") {
        return Some(BytecodeDef::Abort);
    }
    if text_is(cs, k, "Nop") {
        return Some(BytecodeDef::Nop);
    }
    None
}

/// The instruction with one operand that `cs[0..k)` names.
fn one_param_lookup(cs: &Vec<char>, k: usize, v: u128) -> (r: Option<BytecodeDef>)
    requires
        k <= cs.len(),
    ensures
        r == one_param_instruction(cs@.subrange(0, k as int), v),
{
    if text_is(cs, k, "BrTrue") {
        return Some(BytecodeDef::BrTrue(v as u16));
    }
    if text_is(cs, k, "BrFalse") {
        return Some(BytecodeDef::BrFalse(v as u16));
    }
    if text_is(cs, k, "Branch") {
        return Some(BytecodeDef::Branch(v as u16));
    }
    if text_is(cs, k, "LdU8") {
        return Some(BytecodeDef::LdU8(v as u8));
    }
    if text_is(cs, k, "LdU16") {
        return Some(BytecodeDef::LdU16(v as u16));
    }
    if text_is(cs, k, "LdU32") {
        return Some(BytecodeDef::LdU32(v as u32));
    }
    if text_is(cs, k, "LdU64") {
        return Some(BytecodeDef::LdU64(v as u64));
    }
    if text_is(cs, k, "LdU128") {
        return Some(BytecodeDef::LdU128(v));
    }
    if text_is(cs, k, "LdConst") {
        return Some(BytecodeDef::LdConst(v as u16));
    }
    if text_is(cs, k, "CopyLoc") {
        return Some(BytecodeDef::CopyLoc(v as u8));
    }
    if text_is(cs, k, "MoveLoc") {
        return Some(BytecodeDef::MoveLoc(v as u8));
    }
    if text_is(cs, k, "StLoc") {
        return Some(BytecodeDef::StLoc(v as u8));
    }
    if text_is(cs, k, "Call") {
        return Some(BytecodeDef::Call(v as u16));
    }
    if text_is(cs, k, "CallGeneric") {
        return Some(BytecodeDef::CallGeneric(v as u16));
    }
    if text_is(cs, k, "Pack") {
        return Some(BytecodeDef::Pack(v as u16));
    }
    if text_is(cs, k, "PackGeneric") {
        return Some(BytecodeDef::PackGeneric(v as u16));
    }
    if text_is(cs, k, "PackVariant") {
        return Some(BytecodeDef::PackVariant(v as u16));
    }
    if text_is(cs, k, "TestVariant") {
        return Some(BytecodeDef::TestVariant(v as u16));
    }
    if text_is(cs, k, "PackVariantGeneric") {
        return Some(BytecodeDef::PackVariantGeneric(v as u16));
    }
    if text_is(cs, k, "TestVariantGeneric") {
        return Some(BytecodeDef::TestVariantGeneric(v as u16));
    }
    if text_is(cs, k, "Unpack") {
        return Some(BytecodeDef::Unpack(v as u16));
    }
    if text_is(cs, k, "UnpackGeneric") {
        return Some(BytecodeDef::UnpackGeneric(v as u16));
    }
    if text_is(cs, k, "UnpackVariant") {
        return Some(BytecodeDef::UnpackVariant(v as u16));
    }
    if text_is(cs, k, "UnpackVariantGeneric") {
        return Some(BytecodeDef::UnpackVariantGeneric(v as u16));
    }
    if text_is(cs, k, "MutBorrowLoc") {
        return Some(BytecodeDef::MutBorrowLoc(v as u8));
    }
    if text_is(cs, k, "ImmBorrowLoc") {
        return Some(BytecodeDef::ImmBorrowLoc(v as u8));
    }
    if text_is(cs, k, "MutBorrowField") {
        return Some(BytecodeDef::MutBorrowField(v as u16));
    }
    if text_is(cs, k, "MutBorrowFieldGeneric") {
        return Some(BytecodeDef::MutBorrowFieldGeneric(v as u16));
    }
    if text_is(cs, k, "MutBorrowVariantField") {
        return Some(BytecodeDef::MutBorrowVariantField(v as u16));
    }
    if text_is(cs, k, "MutBorrowVariantFieldGeneric") {
        return Some(BytecodeDef::MutBorrowVariantFieldGeneric(v as u16));
    }
    if text_is(cs, k, "ImmBorrowField") {
        return Some(BytecodeDef::ImmBorrowField(v as u16));
    }
    if text_is(cs, k, "ImmBorrowFieldGeneric") {
        return Some(BytecodeDef::ImmBorrowFieldGeneric(v as u16));
    }
    if text_is(cs, k, "ImmBorrowVariantField") {
        return Some(BytecodeDef::ImmBorrowVariantField(v as u16));
    }
    if text_is(cs, k, "ImmBorrowVariantFieldGeneric") {
        return Some(BytecodeDef::ImmBorrowVariantFieldGeneric(v as u16));
    }
    if text_is(cs, k, "MutBorrowGlobal") {
        return Some(BytecodeDef::MutBorrowGlobal(v as u16));
    }
    if text_is(cs, k, "MutBorrowGlobalGeneric") {
        return Some(BytecodeDef::MutBorrowGlobalGeneric(v as u16));
    }
    if text_is(cs, k, "ImmBorrowGlobal") {
        return Some(BytecodeDef::ImmBorrowGlobal(v as u16));
    }
    if text_is(cs, k, "ImmBorrowGlobalGeneric") {
        return Some(BytecodeDef::ImmBorrowGlobalGeneric(v as u16));
    }
    if text_is(cs, k, "Exists") {
        return Some(BytecodeDef::Exists(v as u16));
    }
    if text_is(cs, k, "ExistsGeneric") {
        return Some(BytecodeDef::ExistsGeneric(v as u16));
    }
    if text_is(cs, k, "MoveFrom") {
        return Some(BytecodeDef::MoveFrom(v as u16));
    }
    if text_is(cs, k, "MoveFromGeneric") {
        return Some(BytecodeDef::MoveFromGeneric(v as u16));
    }
    if text_is(cs, k, "MoveTo") {
        return Some(BytecodeDef::MoveTo(v as u16));
    }
    if text_is(cs, k, "MoveToGeneric") {
        return Some(BytecodeDef::MoveToGeneric(v as u16));
    }
    if text_is(cs, k, "VecLen") {
        return Some(BytecodeDef::VecLen(v as u16));
    }
    if text_is(cs, k, "VecImmBorrow") {
        return Some(BytecodeDef::VecImmBorrow(v as u16));
    }
    if text_is(cs, k, "VecMutBorrow") {
        return Some(BytecodeDef::VecMutBorrow(v as u16));
    }
    if text_is(cs, k, "VecPushBack") {
        return Some(BytecodeDef::VecPushBack(v as u16));
    }
    if text_is(cs, k, "VecPopBack") {
        return Some(BytecodeDef::VecPopBack(v as u16));
    }
    if text_is(cs, k, "VecSwap") {
        return Some(BytecodeDef::VecSwap(v as u16));
    }
    None
}

/// The instruction with two operands that `cs[0..k)` names.
fn two_param_lookup(cs: &Vec<char>, k: usize, a: u64, c: u64) -> (r: Option<BytecodeDef>)
    requires
        k <= cs.len(),
    ensures
        r == two_param_instruction(cs@.subrange(0, k as int), a, c),
{
    if text_is(cs, k, "VecPack") {
        return Some(BytecodeDef::VecPack(a as u16, c));
    }
    if text_is(cs, k, "VecUnpack") {
        return Some(BytecodeDef::VecUnpack(a as u16, c));
    }
    None
}

impl BytecodeDef {
    /// The name of the instruction.
    pub fn name(&self) -> (s: &'static str)
        ensures
            s@ == instruction_name(*self),
    {
        match self {
            BytecodeDef::Pop => "Pop",
            BytecodeDef::Ret => "Ret",
            BytecodeDef::BrTrue(..) => "BrTrue",
            BytecodeDef::BrFalse(..) => "BrFalse",
            BytecodeDef::Branch(..) => "Branch",
            BytecodeDef::LdU8(..) => "LdU8",
            BytecodeDef::LdU64(..) => "LdU64",
            BytecodeDef::LdU128(..) => "LdU128",
            BytecodeDef::CastU8 => "CastU8",
            BytecodeDef::CastU64 => "CastU64",
            BytecodeDef::CastU128 => "CastU128",
            BytecodeDef::LdConst(..) => "LdConst",
            BytecodeDef::LdTrue => "LdTrue",
            BytecodeDef::LdFalse => "LdFalse",
            BytecodeDef::CopyLoc(..) => "CopyLoc",
            BytecodeDef::MoveLoc(..) => "MoveLoc",
            BytecodeDef::StLoc(..) => "StLoc",
            BytecodeDef::Call(..) => "Call",
            BytecodeDef::CallGeneric(..) => "CallGeneric",
            BytecodeDef::Pack(..) => "Pack",
            BytecodeDef::PackGeneric(..) => "PackGeneric",
            BytecodeDef::PackVariant(..) => "PackVariant",
            BytecodeDef::PackVariantGeneric(..) => "PackVariantGeneric",
            BytecodeDef::Unpack(..) => "Unpack",
            BytecodeDef::UnpackGeneric(..) => "UnpackGeneric",
            BytecodeDef::UnpackVariant(..) => "UnpackVariant",
            BytecodeDef::UnpackVariantGeneric(..) => "UnpackVariantGeneric",
            BytecodeDef::TestVariant(..) => "TestVariant",
            BytecodeDef::TestVariantGeneric(..) => "TestVariantGeneric",
            BytecodeDef::ReadRef => "ReadRef",
            BytecodeDef::WriteRef => "WriteRef",
            BytecodeDef::FreezeRef => "FreezeRef",
            BytecodeDef::MutBorrowLoc(..) => "MutBorrowLoc",
            BytecodeDef::ImmBorrowLoc(..) => "ImmBorrowLoc",
            BytecodeDef::MutBorrowField(..) => "MutBorrowField",
            BytecodeDef::MutBorrowVariantField(..) => "MutBorrowVariantField",
            BytecodeDef::MutBorrowFieldGeneric(..) => "MutBorrowFieldGeneric",
            BytecodeDef::MutBorrowVariantFieldGeneric(..) => "MutBorrowVariantFieldGeneric",
            BytecodeDef::ImmBorrowField(..) => "ImmBorrowField",
            BytecodeDef::ImmBorrowVariantField(..) => "ImmBorrowVariantField",
            BytecodeDef::ImmBorrowFieldGeneric(..) => "ImmBorrowFieldGeneric",
            BytecodeDef::ImmBorrowVariantFieldGeneric(..) => "ImmBorrowVariantFieldGeneric",
            BytecodeDef::MutBorrowGlobal(..) => "MutBorrowGlobal",
            BytecodeDef::MutBorrowGlobalGeneric(..) => "MutBorrowGlobalGeneric",
            BytecodeDef::ImmBorrowGlobal(..) => "ImmBorrowGlobal",
            BytecodeDef::ImmBorrowGlobalGeneric(..) => "ImmBorrowGlobalGeneric",
            BytecodeDef::Add => "Add",
            BytecodeDef::Sub => "Sub",
            BytecodeDef::Mul => "Mul",
            BytecodeDef::Mod => "Mod",
            BytecodeDef::Div => "Div",
            BytecodeDef::BitOr => "BitOr",
            BytecodeDef::BitAnd => "BitAnd",
            BytecodeDef::Xor => "Xor",
            BytecodeDef::Or => "Or",
            BytecodeDef::And => "And",
            BytecodeDef::Not => "Not",
            BytecodeDef::Eq => "Eq",
            BytecodeDef::Neq => "Neq",
            BytecodeDef::Lt => "Lt",
            BytecodeDef::Gt => "Gt",
            BytecodeDef::Le => "Le",
            BytecodeDef::Ge => "Ge",
            BytecodeDef::Abort => "Abort",
            BytecodeDef::Nop => "Nop",
            BytecodeDef::Exists(..) => "Exists",
            BytecodeDef::ExistsGeneric(..) => "ExistsGeneric",
            BytecodeDef::MoveFrom(..) => "MoveFrom",
            BytecodeDef::MoveFromGeneric(..) => "MoveFromGeneric",
            BytecodeDef::MoveTo(..) => "MoveTo",
            BytecodeDef::MoveToGeneric(..) => "MoveToGeneric",
            BytecodeDef::Shl => "Shl",
            BytecodeDef::Shr => "Shr",
            BytecodeDef::VecPack(..) => "VecPack",
            BytecodeDef::VecLen(..) => "VecLen",
            BytecodeDef::VecImmBorrow(..) => "VecImmBorrow",
            BytecodeDef::VecMutBorrow(..) => "VecMutBorrow",
            BytecodeDef::VecPushBack(..) => "VecPushBack",
            BytecodeDef::VecPopBack(..) => "VecPopBack",
            BytecodeDef::VecUnpack(..) => "VecUnpack",
            BytecodeDef::VecSwap(..) => "VecSwap",
            BytecodeDef::LdU16(..) => "LdU16",
            BytecodeDef::LdU32(..) => "LdU32",
            BytecodeDef::LdU256(..) => "LdU256",
            BytecodeDef::CastU16 => "CastU16",
            BytecodeDef::CastU32 => "CastU32",
            BytecodeDef::CastU256 => "CastU256",
        }
    }

    /// The operands of the instruction.
    pub fn operands(&self) -> (r: Operands)
        ensures
            r == instruction_operands(*self),
    {
        match *self {
            BytecodeDef::Pop => Operands::Nothing,
            BytecodeDef::Ret => Operands::Nothing,
            BytecodeDef::BrTrue(x) => Operands::One(x as u128),
            BytecodeDef::BrFalse(x) => Operands::One(x as u128),
            BytecodeDef::Branch(x) => Operands::One(x as u128),
            BytecodeDef::LdU8(x) => Operands::One(x as u128),
            BytecodeDef::LdU64(x) => Operands::One(x as u128),
            BytecodeDef::LdU128(x) => Operands::One(x as u128),
            BytecodeDef::CastU8 => Operands::Nothing,
            BytecodeDef::CastU64 => Operands::Nothing,
            BytecodeDef::CastU128 => Operands::Nothing,
            BytecodeDef::LdConst(x) => Operands::One(x as u128),
            BytecodeDef::LdTrue => Operands::Nothing,
            BytecodeDef::LdFalse => Operands::Nothing,
            BytecodeDef::CopyLoc(x) => Operands::One(x as u128),
            BytecodeDef::MoveLoc(x) => Operands::One(x as u128),
            BytecodeDef::StLoc(x) => Operands::One(x as u128),
            BytecodeDef::Call(x) => Operands::One(x as u128),
            BytecodeDef::CallGeneric(x) => Operands::One(x as u128),
            BytecodeDef::Pack(x) => Operands::One(x as u128),
            BytecodeDef::PackGeneric(x) => Operands::One(x as u128),
            BytecodeDef::PackVariant(x) => Operands::One(x as u128),
            BytecodeDef::PackVariantGeneric(x) => Operands::One(x as u128),
            BytecodeDef::Unpack(x) => Operands::One(x as u128),
            BytecodeDef::UnpackGeneric(x) => Operands::One(x as u128),
            BytecodeDef::UnpackVariant(x) => Operands::One(x as u128),
            BytecodeDef::UnpackVariantGeneric(x) => Operands::One(x as u128),
            BytecodeDef::TestVariant(x) => Operands::One(x as u128),
            BytecodeDef::TestVariantGeneric(x) => Operands::One(x as u128),
            BytecodeDef::ReadRef => Operands::Nothing,
            BytecodeDef::WriteRef => Operands::Nothing,
            BytecodeDef::FreezeRef => Operands::Nothing,
            BytecodeDef::MutBorrowLoc(x) => Operands::One(x as u128),
            BytecodeDef::ImmBorrowLoc(x) => Operands::One(x as u128),
            BytecodeDef::MutBorrowField(x) => Operands::One(x as u128),
            BytecodeDef::MutBorrowVariantField(x) => Operands::One(x as u128),
            BytecodeDef::MutBorrowFieldGeneric(x) => Operands::One(x as u128),
            BytecodeDef::MutBorrowVariantFieldGeneric(x) => Operands::One(x as u128),
            BytecodeDef::ImmBorrowField(x) => Operands::One(x as u128),
            BytecodeDef::ImmBorrowVariantField(x) => Operands::One(x as u128),
            BytecodeDef::ImmBorrowFieldGeneric(x) => Operands::One(x as u128),
            BytecodeDef::ImmBorrowVariantFieldGeneric(x) => Operands::One(x as u128),
            BytecodeDef::MutBorrowGlobal(x) => Operands::One(x as u128),
            BytecodeDef::MutBorrowGlobalGeneric(x) => Operands::One(x as u128),
            BytecodeDef::ImmBorrowGlobal(x) => Operands::One(x as u128),
            BytecodeDef::ImmBorrowGlobalGeneric(x) => Operands::One(x as u128),
            BytecodeDef::Add => Operands::Nothing,
            BytecodeDef::Sub => Operands::Nothing,
            BytecodeDef::Mul => Operands::Nothing,
            BytecodeDef::Mod => Operands::Nothing,
            BytecodeDef::Div => Operands::Nothing,
            BytecodeDef::BitOr => Operands::Nothing,
            BytecodeDef::BitAnd => Operands::Nothing,
            BytecodeDef::Xor => Operands::Nothing,
            BytecodeDef::Or => Operands::Nothing,
            BytecodeDef::And => Operands::Nothing,
            BytecodeDef::Not => Operands::Nothing,
            BytecodeDef::Eq => Operands::Nothing,
            BytecodeDef::Neq => Operands::Nothing,
            BytecodeDef::Lt => Operands::Nothing,
            BytecodeDef::Gt => Operands::Nothing,
            BytecodeDef::Le => Operands::Nothing,
            BytecodeDef::Ge => Operands::Nothing,
            BytecodeDef::Abort => Operands::Nothing,
            BytecodeDef::Nop => Operands::Nothing,
            BytecodeDef::Exists(x) => Operands::One(x as u128),
            BytecodeDef::ExistsGeneric(x) => Operands::One(x as u128),
            BytecodeDef::MoveFrom(x) => Operands::One(x as u128),
            BytecodeDef::MoveFromGeneric(x) => Operands::One(x as u128),
            BytecodeDef::MoveTo(x) => Operands::One(x as u128),
            BytecodeDef::MoveToGeneric(x) => Operands::One(x as u128),
            BytecodeDef::Shl => Operands::Nothing,
            BytecodeDef::Shr => Operands::Nothing,
            BytecodeDef::VecPack(x, y) => Operands::Two(x, y),
            BytecodeDef::VecLen(x) => Operands::One(x as u128),
            BytecodeDef::VecImmBorrow(x) => Operands::One(x as u128),
            BytecodeDef::VecMutBorrow(x) => Operands::One(x as u128),
            BytecodeDef::VecPushBack(x) => Operands::One(x as u128),
            BytecodeDef::VecPopBack(x) => Operands::One(x as u128),
            BytecodeDef::VecUnpack(x, y) => Operands::Two(x, y),
            BytecodeDef::VecSwap(x) => Operands::One(x as u128),
            BytecodeDef::LdU16(x) => Operands::One(x as u128),
            BytecodeDef::LdU32(x) => Operands::One(x as u128),
            BytecodeDef::LdU256(x) => Operands::Wide(x),
            BytecodeDef::CastU16 => Operands::Nothing,
            BytecodeDef::CastU32 => Operands::Nothing,
            BytecodeDef::CastU256 => Operands::Nothing,
        }
    }
}


impl BytecodeDef {
    /// Writes the text of the instruction.
    pub fn to_text(&self) -> (s: String)
        ensures
            s@ == instruction_text(*self),
    {
        proof {
            reveal_strlit("(");
            reveal_strlit(")");
            reveal_strlit(", ");
        }
        let mut s = String::new();
        s.append(self.name());
        match self.operands() {
            Operands::Nothing => {},
            Operands::One(v) => {
                s.append("(");
                push_dec(&mut s, v);
                s.append(")");
            },
            Operands::Wide(v) => {
                s.append("(");
                push_dec_u256(&mut s, v);
                s.append(")");
            },
            Operands::Two(a, c) => {
                s.append("(");
                push_dec(&mut s, a as u128);
                s.append(", ");
                push_dec(&mut s, c as u128);
                s.append(")");
            },
        }
        assert(s@ =~= instruction_text(*self));
        s
    }

    /// Reads an instruction from its text.
    pub fn from_text(text: &str) -> (r: Result<BytecodeDef, BytecodeError>)
        ensures
            r == bytecode_of_text(text@),
    {
        let cs = chars_of(text);
        let n = cs.len();
        let k = class_run_end(&cs, 0, CharClass::Word);
        if n > 0 && k == n {
            assert(cs@.subrange(0, k as int) =~= cs@);
            return match no_param_lookup(&cs, k) {
                Some(b) => Ok(b),
                None => Err(BytecodeError::UnknownNoParam),
            };
        }
        if 0 < k && k + 1 < n && cs[k] == '(' {
            let j = class_run_end(&cs, k + 1, CharClass::Digit);
            if k + 1 < j && j == n - 1 && cs[j] == ')' {
                if text_is(&cs, k, "LdU256") {
                    return match parse_dec_u256(&cs, k + 1, j) {
                        Some(v) => {
                            proof {
                                lemma_u256_value(v);
                            }
                            Ok(BytecodeDef::LdU256(v))
                        },
                        None => Err(BytecodeError::ParamNotU256),
                    };
                }
                return match parse_dec_u128(&cs, k + 1, j) {
                    Some(v) => match one_param_lookup(&cs, k, v) {
                        Some(b) => Ok(b),
                        None => Err(BytecodeError::UnknownOneParam),
                    },
                    None => Err(BytecodeError::ParamNotU128),
                };
            }
            if k + 1 < j && j < n && cs[j] == ',' {
                let m = class_run_end(&cs, j + 1, CharClass::Space);
                if j + 1 < m {
                    let e = class_run_end(&cs, m, CharClass::Digit);
                    if m < e && e == n - 1 && cs[e] == ')' {
                        let a = match parse_dec_u128(&cs, k + 1, j) {
                            Some(v) => {
                                if v >= 0x1_0000_0000_0000_0000u128 {
                                    return Err(BytecodeError::FirstParamNotU64);
                                }
                                v as u64
                            },
                            None => {
                                return Err(BytecodeError::FirstParamNotU64);
                            },
                        };
                        let c = match parse_dec_u128(&cs, m, e) {
                            Some(v) => {
                                if v >= 0x1_0000_0000_0000_0000u128 {
                                    return Err(BytecodeError::SecondParamNotU64);
                                }
                                v as u64
                            },
                            None => {
                                return Err(BytecodeError::SecondParamNotU64);
                            },
                        };
                        return match two_param_lookup(&cs, k, a, c) {
                            Some(b) => Ok(b),
                            None => Err(BytecodeError::UnknownTwoParams),
                        };
                    }
                }
            }
        }
        Err(BytecodeError::NoMatch)
    }
}

/// All characters of `s` are in the class `k`.
pub open spec fn all_in_class(s: Seq<char>, k: CharClass) -> bool {
    forall|t: int| 0 <= t < s.len() ==> class_contains(k, #[trigger] s[t])
}


/// The spelling of the names of the instructions without operands, letter by letter.
proof fn lemma_no_param_names_spelled()
    ensures
        "Pop"@.len() == 3 && "Pop"@[0] == 'P' && "Pop"@[1] == 'o' && "Pop"@[2] == 'p',
        "Ret"@.len() == 3 && "Ret"@[0] == 'R' && "Ret"@[1] == 'e' && "Ret"@[2] == 't',
        "CastU8"@.len() == 6 && "CastU8"@[0] == 'C' && "CastU8"@[1] == 'a' && "CastU8"@[2] == 's'
            && "CastU8"@[3] == 't' && "CastU8"@[4] == 'U' && "CastU8"@[5] == '8',
        "CastU16"@.len() == 7 && "CastU16"@[0] == 'C' && "CastU16"@[1] == 'a'
            && "CastU16"@[2] == 's' && "CastU16"@[3] == 't' && "CastU16"@[4] == 'U'
            && "CastU16"@[5] == '1' && "CastU16"@[6] == '6',
        "CastU32"@.len() == 7 && "CastU32"@[0] == 'C' && "CastU32"@[1] == 'a'
            && "CastU32"@[2] == 's' && "CastU32"@[3] == 't' && "CastU32"@[4] == 'U'
            && "CastU32"@[5] == '3' && "CastU32"@[6] == '2',
        "CastU64"@.len() == 7 && "CastU64"@[0] == 'C' && "CastU64"@[1] == 'a'
            && "CastU64"@[2] == 's' && "CastU64"@[3] == 't' && "CastU64"@[4] == 'U'
            && "CastU64"@[5] == '6' && "CastU64"@[6] == '4',
        "CastU128"@.len() == 8 && "CastU128"@[0] == 'C' && "CastU128"@[1] == 'a'
            && "CastU128"@[2] == 's' && "CastU128"@[3] == 't' && "CastU128"@[4] == 'U'
            && "CastU128"@[5] == '1' && "CastU128"@[6] == '2' && "CastU128"@[7] == '8',
        "CastU256"@.len() == 8 && "CastU256"@[0] == 'C' && "CastU256"@[1] == 'a'
            && "CastU256"@[2] == 's' && "CastU256"@[3] == 't' && "CastU256"@[4] == 'U'
            && "CastU256"@[5] == '2' && "CastU256"@[6] == '5' && "CastU256"@[7] == '6',
        "LdTrue"@.len() == 6 && "LdTrue"@[0] == 'L' && "LdTrue"@[1] == 'd' && "LdTrue"@[2] == 'T'
            && "LdTrue"@[3] == 'r' && "LdTrue"@[4] == 'u' && "LdTrue"@[5] == 'e',
        "LdFalse"@.len() == 7 && "LdFalse"@[0] == 'L' && "LdFalse"@[1] == 'd'
            && "LdFalse"@[2] == 'F' && "LdFalse"@[3] == 'a' && "LdFalse"@[4] == 'l'
            && "LdFalse"@[5] == 's' && "LdFalse"@[6] == 'e',
        "ReadRef"@.len() == 7 && "ReadRef"@[0] == 'R' && "ReadRef"@[1] == 'e'
            && "ReadRef"@[2] == 'a' && "ReadRef"@[3] == 'd' && "ReadRef"@[4] == 'R'
            && "ReadRef"@[5] == 'e' && "ReadRef"@[6] == 'f',
        "WriteRef"@.len() == 8 && "WriteRef"@[0] == 'W' && "WriteRef"@[1] == 'r'
            && "WriteRef"@[2] == 'i' && "WriteRef"@[3] == 't' && "WriteRef"@[4] == 'e'
            && "WriteRef"@[5] == 'R' && "WriteRef"@[6] == 'e' && "WriteRef"@[7] == 'f',
        "FreezeRef"@.len() == 9 && "FreezeRef"@[0] == 'F' && "FreezeRef"@[1] == 'r'
            && "FreezeRef"@[2] == 'e' && "FreezeRef"@[3] == 'e' && "FreezeRef"@[4] == 'z'
            && "FreezeRef"@[5] == 'e' && "FreezeRef"@[6] == 'R' && "FreezeRef"@[7] == 'e'
            && "FreezeRef"@[8] == 'f',
        "Add"@.len() == 3 && "Add"@[0] == 'A' && "Add"@[1] == 'd' && "Add"@[2] == 'd',
        "Sub"@.len() == 3 && "Sub"@[0] == 'S' && "Sub"@[1] == 'u' && "Sub"@[2] == 'b',
        "Mul"@.len() == 3 && "Mul"@[0] == 'M' && "Mul"@[1] == 'u' && "Mul"@[2] == 'l',
        "Mod"@.len() == 3 && "Mod"@[0] == 'M' && "Mod"@[1] == 'o' && "Mod"@[2] == 'd',
        "Div"@.len() == 3 && "Div"@[0] == 'D' && "Div"@[1] == 'i' && "Div"@[2] == 'v',
        "BitOr"@.len() == 5 && "BitOr"@[0] == 'B' && "BitOr"@[1] == 'i' && "BitOr"@[2] == 't'
            && "BitOr"@[3] == 'O' && "BitOr"@[4] == 'r',
        "BitAnd"@.len() == 6 && "BitAnd"@[0] == 'B' && "BitAnd"@[1] == 'i' && "BitAnd"@[2] == 't'
            && "BitAnd"@[3] == 'A' && "BitAnd"@[4] == 'n' && "BitAnd"@[5] == 'd',
        "Xor"@.len() == 3 && "Xor"@[0] == 'X' && "Xor"@[1] == 'o' && "Xor"@[2] == 'r',
        "Shl"@.len() == 3 && "Shl"@[0] == 'S' && "Shl"@[1] == 'h' && "Shl"@[2] == 'l',
        "Shr"@.len() == 3 && "Shr"@[0] == 'S' && "Shr"@[1] == 'h' && "Shr"@[2] == 'r',
        "Or"@.len() == 2 && "Or"@[0] == 'O' && "Or"@[1] == 'r',
        "And"@.len() == 3 && "And"@[0] == 'A' && "And"@[1] == 'n' && "And"@[2] == 'd',
        "Not"@.len() == 3 && "Not"@[0] == 'N' && "Not"@[1] == 'o' && "Not"@[2] == 't',
        "Eq"@.len() == 2 && "Eq"@[0] == 'E' && "Eq"@[1] == 'q',
        "Neq"@.len() == 3 && "Neq"@[0] == 'N' && "Neq"@[1] == 'e' && "Neq"@[2] == 'q',
        "Lt"@.len() == 2 && "Lt"@[0] == 'L' && "Lt"@[1] == 't',
        "Gt"@.len() == 2 && "Gt"@[0] == 'G' && "Gt"@[1] == 't',
        "Le"@.len() == 2 && "Le"@[0] == 'L' && "Le"@[1] == 'e',
        "Ge"@.len() == 2 && "Ge"@[0] == 'G' && "Ge"@[1] == 'e',
        "Abort"@.len() == 5 && "Abort"@[0] == 'A' && "Abort"@[1] == 'b' && "Abort"@[2] == 'o'
            && "Abort"@[3] == 'r' && "Abort"@[4] == 't',
        "Nop"@.len() == 3 && "Nop"@[0] == 'N' && "Nop"@[1] == 'o' && "Nop"@[2] == 'p',
{
    reveal_strlit("Pop");
    reveal_strlit("Ret");
    reveal_strlit("CastU8");
    reveal_strlit("CastU16");
    reveal_strlit("CastU32");
    reveal_strlit("CastU64");
    reveal_strlit("CastU128");
    reveal_strlit("CastU256");
    reveal_strlit("LdTrue");
    reveal_strlit("LdFalse");
    reveal_strlit("ReadRef");
    reveal_strlit("WriteRef");
    reveal_strlit("FreezeRef");
    reveal_strlit("Add");
    reveal_strlit("Sub");
    reveal_strlit("Mul");
    reveal_strlit("Mod");
    reveal_strlit("Div");
    reveal_strlit("BitOr");
    reveal_strlit("BitAnd");
    reveal_strlit("Xor");
    reveal_strlit("Shl");
    reveal_strlit("Shr");
    reveal_strlit("Or");
    reveal_strlit("And");
    reveal_strlit("Not");
    reveal_strlit("Eq");
    reveal_strlit("Neq");
    reveal_strlit("Lt");
    reveal_strlit("Gt");
    reveal_strlit("Le");
    reveal_strlit("Ge");
    reveal_strlit("Abort");
    reveal_strlit("Nop");
}

/// The spelling of the names of the instructions with one operand, letter by letter.
proof fn lemma_one_param_names_spelled()
    ensures
        "BrTrue"@.len() == 6 && "BrTrue"@[0] == 'B' && "BrTrue"@[1] == 'r' && "BrTrue"@[2] == 'T'
            && "BrTrue"@[3] == 'r' && "BrTrue"@[4] == 'u' && "BrTrue"@[5] == 'e',
        "BrFalse"@.len() == 7 && "BrFalse"@[0] == 'B' && "BrFalse"@[1] == 'r'
            && "BrFalse"@[2] == 'F' && "BrFalse"@[3] == 'a' && "BrFalse"@[4] == 'l'
            && "BrFalse"@[5] == 's' && "BrFalse"@[6] == 'e',
        "Branch"@.len() == 6 && "Branch"@[0] == 'B' && "Branch"@[1] == 'r' && "Branch"@[2] == 'a'
            && "Branch"@[3] == 'n' && "Branch"@[4] == 'c' && "Branch"@[5] == 'h',
        "LdU8"@.len() == 4 && "LdU8"@[0] == 'L' && "LdU8"@[1] == 'd' && "LdU8"@[2] == 'U'
            && "LdU8"@[3] == '8',
        "LdU16"@.len() == 5 && "LdU16"@[0] == 'L' && "LdU16"@[1] == 'd' && "LdU16"@[2] == 'U'
            && "LdU16"@[3] == '1' && "LdU16"@[4] == '6',
        "LdU32"@.len() == 5 && "LdU32"@[0] == 'L' && "LdU32"@[1] == 'd' && "LdU32"@[2] == 'U'
            && "LdU32"@[3] == '3' && "LdU32"@[4] == '2',
        "LdU64"@.len() == 5 && "LdU64"@[0] == 'L' && "LdU64"@[1] == 'd' && "LdU64"@[2] == 'U'
            && "LdU64"@[3] == '6' && "LdU64"@[4] == '4',
        "LdU128"@.len() == 6 && "LdU128"@[0] == 'L' && "LdU128"@[1] == 'd' && "LdU128"@[2] == 'U'
            && "LdU128"@[3] == '1' && "LdU128"@[4] == '2' && "LdU128"@[5] == '8',
        "LdConst"@.len() == 7 && "LdConst"@[0] == 'L' && "LdConst"@[1] == 'd'
            && "LdConst"@[2] == 'C' && "LdConst"@[3] == 'o' && "LdConst"@[4] == 'n'
            && "LdConst"@[5] == 's' && "LdConst"@[6] == 't',
        "CopyLoc"@.len() == 7 && "CopyLoc"@[0] == 'C' && "CopyLoc"@[1] == 'o'
            && "CopyLoc"@[2] == 'p' && "CopyLoc"@[3] == 'y' && "CopyLoc"@[4] == 'L'
            && "CopyLoc"@[5] == 'o' && "CopyLoc"@[6] == 'c',
        "MoveLoc"@.len() == 7 && "MoveLoc"@[0] == 'M' && "MoveLoc"@[1] == 'o'
            && "MoveLoc"@[2] == 'v' && "MoveLoc"@[3] == 'e' && "MoveLoc"@[4] == 'L'
            && "MoveLoc"@[5] == 'o' && "MoveLoc"@[6] == 'c',
        "StLoc"@.len() == 5 && "StLoc"@[0] == 'S' && "StLoc"@[1] == 't' && "StLoc"@[2] == 'L'
            && "StLoc"@[3] == 'o' && "StLoc"@[4] == 'c',
        "Call"@.len() == 4 && "Call"@[0] == 'C' && "Call"@[1] == 'a' && "Call"@[2] == 'l'
            && "Call"@[3] == 'l',
        "CallGeneric"@.len() == 11 && "CallGeneric"@[0] == 'C' && "CallGeneric"@[1] == 'a'
            && "CallGeneric"@[2] == 'l' && "CallGeneric"@[3] == 'l' && "CallGeneric"@[4] == 'G'
            && "CallGeneric"@[5] == 'e' && "CallGeneric"@[6] == 'n' && "CallGeneric"@[7] == 'e'
            && "CallGeneric"@[8] == 'r' && "CallGeneric"@[9] == 'i' && "CallGeneric"@[10] == 'c',
        "Pack"@.len() == 4 && "Pack"@[0] == 'P' && "Pack"@[1] == 'a' && "Pack"@[2] == 'c'
            && "Pack"@[3] == 'k',
        "PackGeneric"@.len() == 11 && "PackGeneric"@[0] == 'P' && "PackGeneric"@[1] == 'a'
            && "PackGeneric"@[2] == 'c' && "PackGeneric"@[3] == 'k' && "PackGeneric"@[4] == 'G'
            && "PackGeneric"@[5] == 'e' && "PackGeneric"@[6] == 'n' && "PackGeneric"@[7] == 'e'
            && "PackGeneric"@[8] == 'r' && "PackGeneric"@[9] == 'i' && "PackGeneric"@[10] == 'c',
        "PackVariant"@.len() == 11 && "PackVariant"@[0] == 'P' && "PackVariant"@[1] == 'a'
            && "PackVariant"@[2] == 'c' && "PackVariant"@[3] == 'k' && "PackVariant"@[4] == 'V'
            && "PackVariant"@[5] == 'a' && "PackVariant"@[6] == 'r' && "PackVariant"@[7] == 'i'
            && "PackVariant"@[8] == 'a' && "PackVariant"@[9] == 'n' && "PackVariant"@[10] == 't',
        "TestVariant"@.len() == 11 && "TestVariant"@[0] == 'T' && "TestVariant"@[1] == 'e'
            && "TestVariant"@[2] == 's' && "TestVariant"@[3] == 't' && "TestVariant"@[4] == 'V'
            && "TestVariant"@[5] == 'a' && "TestVariant"@[6] == 'r' && "TestVariant"@[7] == 'i'
            && "TestVariant"@[8] == 'a' && "TestVariant"@[9] == 'n' && "TestVariant"@[10] == 't',
        "PackVariantGeneric"@.len() == 18 && "PackVariantGeneric"@[0] == 'P'
            && "PackVariantGeneric"@[1] == 'a' && "PackVariantGeneric"@[2] == 'c'
            && "PackVariantGeneric"@[3] == 'k' && "PackVariantGeneric"@[4] == 'V'
            && "PackVariantGeneric"@[5] == 'a' && "PackVariantGeneric"@[6] == 'r'
            && "PackVariantGeneric"@[7] == 'i' && "PackVariantGeneric"@[8] == 'a'
            && "PackVariantGeneric"@[9] == 'n' && "PackVariantGeneric"@[10] == 't'
            && "PackVariantGeneric"@[11] == 'G' && "PackVariantGeneric"@[12] == 'e'
            && "PackVariantGeneric"@[13] == 'n' && "PackVariantGeneric"@[14] == 'e'
            && "PackVariantGeneric"@[15] == 'r' && "PackVariantGeneric"@[16] == 'i'
            && "PackVariantGeneric"@[17] == 'c',
        "TestVariantGeneric"@.len() == 18 && "TestVariantGeneric"@[0] == 'T'
            && "TestVariantGeneric"@[1] == 'e' && "TestVariantGeneric"@[2] == 's'
            && "TestVariantGeneric"@[3] == 't' && "TestVariantGeneric"@[4] == 'V'
            && "TestVariantGeneric"@[5] == 'a' && "TestVariantGeneric"@[6] == 'r'
            && "TestVariantGeneric"@[7] == 'i' && "TestVariantGeneric"@[8] == 'a'
            && "TestVariantGeneric"@[9] == 'n' && "TestVariantGeneric"@[10] == 't'
            && "TestVariantGeneric"@[11] == 'G' && "TestVariantGeneric"@[12] == 'e'
            && "TestVariantGeneric"@[13] == 'n' && "TestVariantGeneric"@[14] == 'e'
            && "TestVariantGeneric"@[15] == 'r' && "TestVariantGeneric"@[16] == 'i'
            && "TestVariantGeneric"@[17] == 'c',
        "Unpack"@.len() == 6 && "Unpack"@[0] == 'U' && "Unpack"@[1] == 'n' && "Unpack"@[2] == 'p'
            && "Unpack"@[3] == 'a' && "Unpack"@[4] == 'c' && "Unpack"@[5] == 'k',
        "UnpackGeneric"@.len() == 13 && "UnpackGeneric"@[0] == 'U' && "UnpackGeneric"@[1] == 'n'
            && "UnpackGeneric"@[2] == 'p' && "UnpackGeneric"@[3] == 'a'
            && "UnpackGeneric"@[4] == 'c' && "UnpackGeneric"@[5] == 'k'
            && "UnpackGeneric"@[6] == 'G' && "UnpackGeneric"@[7] == 'e'
            && "UnpackGeneric"@[8] == 'n' && "UnpackGeneric"@[9] == 'e'
            && "UnpackGeneric"@[10] == 'r' && "UnpackGeneric"@[11] == 'i'
            && "UnpackGeneric"@[12] == 'c',
        "UnpackVariant"@.len() == 13 && "UnpackVariant"@[0] == 'U' && "UnpackVariant"@[1] == 'n'
            && "UnpackVariant"@[2] == 'p' && "UnpackVariant"@[3] == 'a'
            && "UnpackVariant"@[4] == 'c' && "UnpackVariant"@[5] == 'k'
            && "UnpackVariant"@[6] == 'V' && "UnpackVariant"@[7] == 'a'
            && "UnpackVariant"@[8] == 'r' && "UnpackVariant"@[9] == 'i'
            && "UnpackVariant"@[10] == 'a' && "UnpackVariant"@[11] == 'n'
            && "UnpackVariant"@[12] == 't',
        "UnpackVariantGeneric"@.len() == 20 && "UnpackVariantGeneric"@[0] == 'U'
            && "UnpackVariantGeneric"@[1] == 'n' && "UnpackVariantGeneric"@[2] == 'p'
            && "UnpackVariantGeneric"@[3] == 'a' && "UnpackVariantGeneric"@[4] == 'c'
            && "UnpackVariantGeneric"@[5] == 'k' && "UnpackVariantGeneric"@[6] == 'V'
            && "UnpackVariantGeneric"@[7] == 'a' && "UnpackVariantGeneric"@[8] == 'r'
            && "UnpackVariantGeneric"@[9] == 'i' && "UnpackVariantGeneric"@[10] == 'a'
            && "UnpackVariantGeneric"@[11] == 'n' && "UnpackVariantGeneric"@[12] == 't'
            && "UnpackVariantGeneric"@[13] == 'G' && "UnpackVariantGeneric"@[14] == 'e'
            && "UnpackVariantGeneric"@[15] == 'n' && "UnpackVariantGeneric"@[16] == 'e'
            && "UnpackVariantGeneric"@[17] == 'r' && "UnpackVariantGeneric"@[18] == 'i'
            && "UnpackVariantGeneric"@[19] == 'c',
        "MutBorrowLoc"@.len() == 12 && "MutBorrowLoc"@[0] == 'M' && "MutBorrowLoc"@[1] == 'u'
            && "MutBorrowLoc"@[2] == 't' && "MutBorrowLoc"@[3] == 'B' && "MutBorrowLoc"@[4] == 'o'
            && "MutBorrowLoc"@[5] == 'r' && "MutBorrowLoc"@[6] == 'r' && "MutBorrowLoc"@[7] == 'o'
            && "MutBorrowLoc"@[8] == 'w' && "MutBorrowLoc"@[9] == 'L' && "MutBorrowLoc"@[10] == 'o'
            && "MutBorrowLoc"@[11] == 'c',
        "ImmBorrowLoc"@.len() == 12 && "ImmBorrowLoc"@[0] == 'I' && "ImmBorrowLoc"@[1] == 'm'
            && "ImmBorrowLoc"@[2] == 'm' && "ImmBorrowLoc"@[3] == 'B' && "ImmBorrowLoc"@[4] == 'o'
            && "ImmBorrowLoc"@[5] == 'r' && "ImmBorrowLoc"@[6] == 'r' && "ImmBorrowLoc"@[7] == 'o'
            && "ImmBorrowLoc"@[8] == 'w' && "ImmBorrowLoc"@[9] == 'L' && "ImmBorrowLoc"@[10] == 'o'
            && "ImmBorrowLoc"@[11] == 'c',
        "MutBorrowField"@.len() == 14 && "MutBorrowField"@[0] == 'M' && "MutBorrowField"@[1] == 'u'
            && "MutBorrowField"@[2] == 't' && "MutBorrowField"@[3] == 'B'
            && "MutBorrowField"@[4] == 'o' && "MutBorrowField"@[5] == 'r'
            && "MutBorrowField"@[6] == 'r' && "MutBorrowField"@[7] == 'o'
            && "MutBorrowField"@[8] == 'w' && "MutBorrowField"@[9] == 'F'
            && "MutBorrowField"@[10] == 'i' && "MutBorrowField"@[11] == 'e'
            && "MutBorrowField"@[12] == 'l' && "MutBorrowField"@[13] == 'd',
        "MutBorrowFieldGeneric"@.len() == 21 && "MutBorrowFieldGeneric"@[0] == 'M'
            && "MutBorrowFieldGeneric"@[1] == 'u' && "MutBorrowFieldGeneric"@[2] == 't'
            && "MutBorrowFieldGeneric"@[3] == 'B' && "MutBorrowFieldGeneric"@[4] == 'o'
            && "MutBorrowFieldGeneric"@[5] == 'r' && "MutBorrowFieldGeneric"@[6] == 'r'
            && "MutBorrowFieldGeneric"@[7] == 'o' && "MutBorrowFieldGeneric"@[8] == 'w'
            && "MutBorrowFieldGeneric"@[9] == 'F' && "MutBorrowFieldGeneric"@[10] == 'i'
            && "MutBorrowFieldGeneric"@[11] == 'e' && "MutBorrowFieldGeneric"@[12] == 'l'
            && "MutBorrowFieldGeneric"@[13] == 'd' && "MutBorrowFieldGeneric"@[14] == 'G'
            && "MutBorrowFieldGeneric"@[15] == 'e' && "MutBorrowFieldGeneric"@[16] == 'n'
            && "MutBorrowFieldGeneric"@[17] == 'e' && "MutBorrowFieldGeneric"@[18] == 'r'
            && "MutBorrowFieldGeneric"@[19] == 'i' && "MutBorrowFieldGeneric"@[20] == 'c',
        "MutBorrowVariantField"@.len() == 21 && "MutBorrowVariantField"@[0] == 'M'
            && "MutBorrowVariantField"@[1] == 'u' && "MutBorrowVariantField"@[2] == 't'
            && "MutBorrowVariantField"@[3] == 'B' && "MutBorrowVariantField"@[4] == 'o'
            && "MutBorrowVariantField"@[5] == 'r' && "MutBorrowVariantField"@[6] == 'r'
            && "MutBorrowVariantField"@[7] == 'o' && "MutBorrowVariantField"@[8] == 'w'
            && "MutBorrowVariantField"@[9] == 'V' && "MutBorrowVariantField"@[10] == 'a'
            && "MutBorrowVariantField"@[11] == 'r' && "MutBorrowVariantField"@[12] == 'i'
            && "MutBorrowVariantField"@[13] == 'a' && "MutBorrowVariantField"@[14] == 'n'
            && "MutBorrowVariantField"@[15] == 't' && "MutBorrowVariantField"@[16] == 'F'
            && "MutBorrowVariantField"@[17] == 'i' && "MutBorrowVariantField"@[18] == 'e'
            && "MutBorrowVariantField"@[19] == 'l' && "MutBorrowVariantField"@[20] == 'd',
        "MutBorrowVariantFieldGeneric"@.len() == 28 && "MutBorrowVariantFieldGeneric"@[0] == 'M'
            && "MutBorrowVariantFieldGeneric"@[1] == 'u'
            && "MutBorrowVariantFieldGeneric"@[2] == 't'
            && "MutBorrowVariantFieldGeneric"@[3] == 'B'
            && "MutBorrowVariantFieldGeneric"@[4] == 'o'
            && "MutBorrowVariantFieldGeneric"@[5] == 'r'
            && "MutBorrowVariantFieldGeneric"@[6] == 'r'
            && "MutBorrowVariantFieldGeneric"@[7] == 'o'
            && "MutBorrowVariantFieldGeneric"@[8] == 'w'
            && "MutBorrowVariantFieldGeneric"@[9] == 'V'
            && "MutBorrowVariantFieldGeneric"@[10] == 'a'
            && "MutBorrowVariantFieldGeneric"@[11] == 'r'
            && "MutBorrowVariantFieldGeneric"@[12] == 'i'
            && "MutBorrowVariantFieldGeneric"@[13] == 'a'
            && "MutBorrowVariantFieldGeneric"@[14] == 'n'
            && "MutBorrowVariantFieldGeneric"@[15] == 't'
            && "MutBorrowVariantFieldGeneric"@[16] == 'F'
            && "MutBorrowVariantFieldGeneric"@[17] == 'i'
            && "MutBorrowVariantFieldGeneric"@[18] == 'e'
            && "MutBorrowVariantFieldGeneric"@[19] == 'l'
            && "MutBorrowVariantFieldGeneric"@[20] == 'd'
            && "MutBorrowVariantFieldGeneric"@[21] == 'G'
            && "MutBorrowVariantFieldGeneric"@[22] == 'e'
            && "MutBorrowVariantFieldGeneric"@[23] == 'n'
            && "MutBorrowVariantFieldGeneric"@[24] == 'e'
            && "MutBorrowVariantFieldGeneric"@[25] == 'r'
            && "MutBorrowVariantFieldGeneric"@[26] == 'i'
            && "MutBorrowVariantFieldGeneric"@[27] == 'c',
        "ImmBorrowField"@.len() == 14 && "ImmBorrowField"@[0] == 'I' && "ImmBorrowField"@[1] == 'm'
            && "ImmBorrowField"@[2] == 'm' && "ImmBorrowField"@[3] == 'B'
            && "ImmBorrowField"@[4] == 'o' && "ImmBorrowField"@[5] == 'r'
            && "ImmBorrowField"@[6] == 'r' && "ImmBorrowField"@[7] == 'o'
            && "ImmBorrowField"@[8] == 'w' && "ImmBorrowField"@[9] == 'F'
            && "ImmBorrowField"@[10] == 'i' && "ImmBorrowField"@[11] == 'e'
            && "ImmBorrowField"@[12] == 'l' && "ImmBorrowField"@[13] == 'd',
        "ImmBorrowFieldGeneric"@.len() == 21 && "ImmBorrowFieldGeneric"@[0] == 'I'
            && "ImmBorrowFieldGeneric"@[1] == 'm' && "ImmBorrowFieldGeneric"@[2] == 'm'
            && "ImmBorrowFieldGeneric"@[3] == 'B' && "ImmBorrowFieldGeneric"@[4] == 'o'
            && "ImmBorrowFieldGeneric"@[5] == 'r' && "ImmBorrowFieldGeneric"@[6] == 'r'
            && "ImmBorrowFieldGeneric"@[7] == 'o' && "ImmBorrowFieldGeneric"@[8] == 'w'
            && "ImmBorrowFieldGeneric"@[9] == 'F' && "ImmBorrowFieldGeneric"@[10] == 'i'
            && "ImmBorrowFieldGeneric"@[11] == 'e' && "ImmBorrowFieldGeneric"@[12] == 'l'
            && "ImmBorrowFieldGeneric"@[13] == 'd' && "ImmBorrowFieldGeneric"@[14] == 'G'
            && "ImmBorrowFieldGeneric"@[15] == 'e' && "ImmBorrowFieldGeneric"@[16] == 'n'
            && "ImmBorrowFieldGeneric"@[17] == 'e' && "ImmBorrowFieldGeneric"@[18] == 'r'
            && "ImmBorrowFieldGeneric"@[19] == 'i' && "ImmBorrowFieldGeneric"@[20] == 'c',
        "ImmBorrowVariantField"@.len() == 21 && "ImmBorrowVariantField"@[0] == 'I'
            && "ImmBorrowVariantField"@[1] == 'm' && "ImmBorrowVariantField"@[2] == 'm'
            && "ImmBorrowVariantField"@[3] == 'B' && "ImmBorrowVariantField"@[4] == 'o'
            && "ImmBorrowVariantField"@[5] == 'r' && "ImmBorrowVariantField"@[6] == 'r'
            && "ImmBorrowVariantField"@[7] == 'o' && "ImmBorrowVariantField"@[8] == 'w'
            && "ImmBorrowVariantField"@[9] == 'V' && "ImmBorrowVariantField"@[10] == 'a'
            && "ImmBorrowVariantField"@[11] == 'r' && "ImmBorrowVariantField"@[12] == 'i'
            && "ImmBorrowVariantField"@[13] == 'a' && "ImmBorrowVariantField"@[14] == 'n'
            && "ImmBorrowVariantField"@[15] == 't' && "ImmBorrowVariantField"@[16] == 'F'
            && "ImmBorrowVariantField"@[17] == 'i' && "ImmBorrowVariantField"@[18] == 'e'
            && "ImmBorrowVariantField"@[19] == 'l' && "ImmBorrowVariantField"@[20] == 'd',
        "ImmBorrowVariantFieldGeneric"@.len() == 28 && "ImmBorrowVariantFieldGeneric"@[0] == 'I'
            && "ImmBorrowVariantFieldGeneric"@[1] == 'm'
            && "ImmBorrowVariantFieldGeneric"@[2] == 'm'
            && "ImmBorrowVariantFieldGeneric"@[3] == 'B'
            && "ImmBorrowVariantFieldGeneric"@[4] == 'o'
            && "ImmBorrowVariantFieldGeneric"@[5] == 'r'
            && "ImmBorrowVariantFieldGeneric"@[6] == 'r'
            && "ImmBorrowVariantFieldGeneric"@[7] == 'o'
            && "ImmBorrowVariantFieldGeneric"@[8] == 'w'
            && "ImmBorrowVariantFieldGeneric"@[9] == 'V'
            && "ImmBorrowVariantFieldGeneric"@[10] == 'a'
            && "ImmBorrowVariantFieldGeneric"@[11] == 'r'
            && "ImmBorrowVariantFieldGeneric"@[12] == 'i'
            && "ImmBorrowVariantFieldGeneric"@[13] == 'a'
            && "ImmBorrowVariantFieldGeneric"@[14] == 'n'
            && "ImmBorrowVariantFieldGeneric"@[15] == 't'
            && "ImmBorrowVariantFieldGeneric"@[16] == 'F'
            && "ImmBorrowVariantFieldGeneric"@[17] == 'i'
            && "ImmBorrowVariantFieldGeneric"@[18] == 'e'
            && "ImmBorrowVariantFieldGeneric"@[19] == 'l'
            && "ImmBorrowVariantFieldGeneric"@[20] == 'd'
            && "ImmBorrowVariantFieldGeneric"@[21] == 'G'
            && "ImmBorrowVariantFieldGeneric"@[22] == 'e'
            && "ImmBorrowVariantFieldGeneric"@[23] == 'n'
            && "ImmBorrowVariantFieldGeneric"@[24] == 'e'
            && "ImmBorrowVariantFieldGeneric"@[25] == 'r'
            && "ImmBorrowVariantFieldGeneric"@[26] == 'i'
            && "ImmBorrowVariantFieldGeneric"@[27] == 'c',
        "MutBorrowGlobal"@.len() == 15 && "MutBorrowGlobal"@[0] == 'M'
            && "MutBorrowGlobal"@[1] == 'u' && "MutBorrowGlobal"@[2] == 't'
            && "MutBorrowGlobal"@[3] == 'B' && "MutBorrowGlobal"@[4] == 'o'
            && "MutBorrowGlobal"@[5] == 'r' && "MutBorrowGlobal"@[6] == 'r'
            && "MutBorrowGlobal"@[7] == 'o' && "MutBorrowGlobal"@[8] == 'w'
            && "MutBorrowGlobal"@[9] == 'G' && "MutBorrowGlobal"@[10] == 'l'
            && "MutBorrowGlobal"@[11] == 'o' && "MutBorrowGlobal"@[12] == 'b'
            && "MutBorrowGlobal"@[13] == 'a' && "MutBorrowGlobal"@[14] == 'l',
        "MutBorrowGlobalGeneric"@.len() == 22 && "MutBorrowGlobalGeneric"@[0] == 'M'
            && "MutBorrowGlobalGeneric"@[1] == 'u' && "MutBorrowGlobalGeneric"@[2] == 't'
            && "MutBorrowGlobalGeneric"@[3] == 'B' && "MutBorrowGlobalGeneric"@[4] == 'o'
            && "MutBorrowGlobalGeneric"@[5] == 'r' && "MutBorrowGlobalGeneric"@[6] == 'r'
            && "MutBorrowGlobalGeneric"@[7] == 'o' && "MutBorrowGlobalGeneric"@[8] == 'w'
            && "MutBorrowGlobalGeneric"@[9] == 'G' && "MutBorrowGlobalGeneric"@[10] == 'l'
            && "MutBorrowGlobalGeneric"@[11] == 'o' && "MutBorrowGlobalGeneric"@[12] == 'b'
            && "MutBorrowGlobalGeneric"@[13] == 'a' && "MutBorrowGlobalGeneric"@[14] == 'l'
            && "MutBorrowGlobalGeneric"@[15] == 'G' && "MutBorrowGlobalGeneric"@[16] == 'e'
            && "MutBorrowGlobalGeneric"@[17] == 'n' && "MutBorrowGlobalGeneric"@[18] == 'e'
            && "MutBorrowGlobalGeneric"@[19] == 'r' && "MutBorrowGlobalGeneric"@[20] == 'i'
            && "MutBorrowGlobalGeneric"@[21] == 'c',
        "ImmBorrowGlobal"@.len() == 15 && "ImmBorrowGlobal"@[0] == 'I'
            && "ImmBorrowGlobal"@[1] == 'm' && "ImmBorrowGlobal"@[2] == 'm'
            && "ImmBorrowGlobal"@[3] == 'B' && "ImmBorrowGlobal"@[4] == 'o'
            && "ImmBorrowGlobal"@[5] == 'r' && "ImmBorrowGlobal"@[6] == 'r'
            && "ImmBorrowGlobal"@[7] == 'o' && "ImmBorrowGlobal"@[8] == 'w'
            && "ImmBorrowGlobal"@[9] == 'G' && "ImmBorrowGlobal"@[10] == 'l'
            && "ImmBorrowGlobal"@[11] == 'o' && "ImmBorrowGlobal"@[12] == 'b'
            && "ImmBorrowGlobal"@[13] == 'a' && "ImmBorrowGlobal"@[14] == 'l',
        "ImmBorrowGlobalGeneric"@.len() == 22 && "ImmBorrowGlobalGeneric"@[0] == 'I'
            && "ImmBorrowGlobalGeneric"@[1] == 'm' && "ImmBorrowGlobalGeneric"@[2] == 'm'
            && "ImmBorrowGlobalGeneric"@[3] == 'B' && "ImmBorrowGlobalGeneric"@[4] == 'o'
            && "ImmBorrowGlobalGeneric"@[5] == 'r' && "ImmBorrowGlobalGeneric"@[6] == 'r'
            && "ImmBorrowGlobalGeneric"@[7] == 'o' && "ImmBorrowGlobalGeneric"@[8] == 'w'
            && "ImmBorrowGlobalGeneric"@[9] == 'G' && "ImmBorrowGlobalGeneric"@[10] == 'l'
            && "ImmBorrowGlobalGeneric"@[11] == 'o' && "ImmBorrowGlobalGeneric"@[12] == 'b'
            && "ImmBorrowGlobalGeneric"@[13] == 'a' && "ImmBorrowGlobalGeneric"@[14] == 'l'
            && "ImmBorrowGlobalGeneric"@[15] == 'G' && "ImmBorrowGlobalGeneric"@[16] == 'e'
            && "ImmBorrowGlobalGeneric"@[17] == 'n' && "ImmBorrowGlobalGeneric"@[18] == 'e'
            && "ImmBorrowGlobalGeneric"@[19] == 'r' && "ImmBorrowGlobalGeneric"@[20] == 'i'
            && "ImmBorrowGlobalGeneric"@[21] == 'c',
        "Exists"@.len() == 6 && "Exists"@[0] == 'E' && "Exists"@[1] == 'x' && "Exists"@[2] == 'i'
            && "Exists"@[3] == 's' && "Exists"@[4] == 't' && "Exists"@[5] == 's',
        "ExistsGeneric"@.len() == 13 && "ExistsGeneric"@[0] == 'E' && "ExistsGeneric"@[1] == 'x'
            && "ExistsGeneric"@[2] == 'i' && "ExistsGeneric"@[3] == 's'
            && "ExistsGeneric"@[4] == 't' && "ExistsGeneric"@[5] == 's'
            && "ExistsGeneric"@[6] == 'G' && "ExistsGeneric"@[7] == 'e'
            && "ExistsGeneric"@[8] == 'n' && "ExistsGeneric"@[9] == 'e'
            && "ExistsGeneric"@[10] == 'r' && "ExistsGeneric"@[11] == 'i'
            && "ExistsGeneric"@[12] == 'c',
        "MoveFrom"@.len() == 8 && "MoveFrom"@[0] == 'M' && "MoveFrom"@[1] == 'o'
            && "MoveFrom"@[2] == 'v' && "MoveFrom"@[3] == 'e' && "MoveFrom"@[4] == 'F'
            && "MoveFrom"@[5] == 'r' && "MoveFrom"@[6] == 'o' && "MoveFrom"@[7] == 'm',
        "MoveFromGeneric"@.len() == 15 && "MoveFromGeneric"@[0] == 'M'
            && "MoveFromGeneric"@[1] == 'o' && "MoveFromGeneric"@[2] == 'v'
            && "MoveFromGeneric"@[3] == 'e' && "MoveFromGeneric"@[4] == 'F'
            && "MoveFromGeneric"@[5] == 'r' && "MoveFromGeneric"@[6] == 'o'
            && "MoveFromGeneric"@[7] == 'm' && "MoveFromGeneric"@[8] == 'G'
            && "MoveFromGeneric"@[9] == 'e' && "MoveFromGeneric"@[10] == 'n'
            && "MoveFromGeneric"@[11] == 'e' && "MoveFromGeneric"@[12] == 'r'
            && "MoveFromGeneric"@[13] == 'i' && "MoveFromGeneric"@[14] == 'c',
        "MoveTo"@.len() == 6 && "MoveTo"@[0] == 'M' && "MoveTo"@[1] == 'o' && "MoveTo"@[2] == 'v'
            && "MoveTo"@[3] == 'e' && "MoveTo"@[4] == 'T' && "MoveTo"@[5] == 'o',
        "MoveToGeneric"@.len() == 13 && "MoveToGeneric"@[0] == 'M' && "MoveToGeneric"@[1] == 'o'
            && "MoveToGeneric"@[2] == 'v' && "MoveToGeneric"@[3] == 'e'
            && "MoveToGeneric"@[4] == 'T' && "MoveToGeneric"@[5] == 'o'
            && "MoveToGeneric"@[6] == 'G' && "MoveToGeneric"@[7] == 'e'
            && "MoveToGeneric"@[8] == 'n' && "MoveToGeneric"@[9] == 'e'
            && "MoveToGeneric"@[10] == 'r' && "MoveToGeneric"@[11] == 'i'
            && "MoveToGeneric"@[12] == 'c',
        "VecLen"@.len() == 6 && "VecLen"@[0] == 'V' && "VecLen"@[1] == 'e' && "VecLen"@[2] == 'c'
            && "VecLen"@[3] == 'L' && "VecLen"@[4] == 'e' && "VecLen"@[5] == 'n',
        "VecImmBorrow"@.len() == 12 && "VecImmBorrow"@[0] == 'V' && "VecImmBorrow"@[1] == 'e'
            && "VecImmBorrow"@[2] == 'c' && "VecImmBorrow"@[3] == 'I' && "VecImmBorrow"@[4] == 'm'
            && "VecImmBorrow"@[5] == 'm' && "VecImmBorrow"@[6] == 'B' && "VecImmBorrow"@[7] == 'o'
            && "VecImmBorrow"@[8] == 'r' && "VecImmBorrow"@[9] == 'r' && "VecImmBorrow"@[10] == 'o'
            && "VecImmBorrow"@[11] == 'w',
        "VecMutBorrow"@.len() == 12 && "VecMutBorrow"@[0] == 'V' && "VecMutBorrow"@[1] == 'e'
            && "VecMutBorrow"@[2] == 'c' && "VecMutBorrow"@[3] == 'M' && "VecMutBorrow"@[4] == 'u'
            && "VecMutBorrow"@[5] == 't' && "VecMutBorrow"@[6] == 'B' && "VecMutBorrow"@[7] == 'o'
            && "VecMutBorrow"@[8] == 'r' && "VecMutBorrow"@[9] == 'r' && "VecMutBorrow"@[10] == 'o'
            && "VecMutBorrow"@[11] == 'w',
        "VecPushBack"@.len() == 11 && "VecPushBack"@[0] == 'V' && "VecPushBack"@[1] == 'e'
            && "VecPushBack"@[2] == 'c' && "VecPushBack"@[3] == 'P' && "VecPushBack"@[4] == 'u'
            && "VecPushBack"@[5] == 's' && "VecPushBack"@[6] == 'h' && "VecPushBack"@[7] == 'B'
            && "VecPushBack"@[8] == 'a' && "VecPushBack"@[9] == 'c' && "VecPushBack"@[10] == 'k',
        "VecPopBack"@.len() == 10 && "VecPopBack"@[0] == 'V' && "VecPopBack"@[1] == 'e'
            && "VecPopBack"@[2] == 'c' && "VecPopBack"@[3] == 'P' && "VecPopBack"@[4] == 'o'
            && "VecPopBack"@[5] == 'p' && "VecPopBack"@[6] == 'B' && "VecPopBack"@[7] == 'a'
            && "VecPopBack"@[8] == 'c' && "VecPopBack"@[9] == 'k',
        "VecSwap"@.len() == 7 && "VecSwap"@[0] == 'V' && "VecSwap"@[1] == 'e'
            && "VecSwap"@[2] == 'c' && "VecSwap"@[3] == 'S' && "VecSwap"@[4] == 'w'
            && "VecSwap"@[5] == 'a' && "VecSwap"@[6] == 'p',
        "LdU256"@.len() == 6 && "LdU256"@[0] == 'L' && "LdU256"@[1] == 'd' && "LdU256"@[2] == 'U'
            && "LdU256"@[3] == '2' && "LdU256"@[4] == '5' && "LdU256"@[5] == '6',
{
    reveal_strlit("BrTrue");
    reveal_strlit("BrFalse");
    reveal_strlit("Branch");
    reveal_strlit("LdU8");
    reveal_strlit("LdU16");
    reveal_strlit("LdU32");
    reveal_strlit("LdU64");
    reveal_strlit("LdU128");
    reveal_strlit("LdConst");
    reveal_strlit("CopyLoc");
    reveal_strlit("MoveLoc");
    reveal_strlit("StLoc");
    reveal_strlit("Call");
    reveal_strlit("CallGeneric");
    reveal_strlit("Pack");
    reveal_strlit("PackGeneric");
    reveal_strlit("PackVariant");
    reveal_strlit("TestVariant");
    reveal_strlit("PackVariantGeneric");
    reveal_strlit("TestVariantGeneric");
    reveal_strlit("Unpack");
    reveal_strlit("UnpackGeneric");
    reveal_strlit("UnpackVariant");
    reveal_strlit("UnpackVariantGeneric");
    reveal_strlit("MutBorrowLoc");
    reveal_strlit("ImmBorrowLoc");
    reveal_strlit("MutBorrowField");
    reveal_strlit("MutBorrowFieldGeneric");
    reveal_strlit("MutBorrowVariantField");
    reveal_strlit("MutBorrowVariantFieldGeneric");
    reveal_strlit("ImmBorrowField");
    reveal_strlit("ImmBorrowFieldGeneric");
    reveal_strlit("ImmBorrowVariantField");
    reveal_strlit("ImmBorrowVariantFieldGeneric");
    reveal_strlit("MutBorrowGlobal");
    reveal_strlit("MutBorrowGlobalGeneric");
    reveal_strlit("ImmBorrowGlobal");
    reveal_strlit("ImmBorrowGlobalGeneric");
    reveal_strlit("Exists");
    reveal_strlit("ExistsGeneric");
    reveal_strlit("MoveFrom");
    reveal_strlit("MoveFromGeneric");
    reveal_strlit("MoveTo");
    reveal_strlit("MoveToGeneric");
    reveal_strlit("VecLen");
    reveal_strlit("VecImmBorrow");
    reveal_strlit("VecMutBorrow");
    reveal_strlit("VecPushBack");
    reveal_strlit("VecPopBack");
    reveal_strlit("VecSwap");
    reveal_strlit("LdU256");
}

/// The spelling of the names of the instructions with two operands, letter by letter.
proof fn lemma_two_param_names_spelled()
    ensures
        "VecPack"@.len() == 7 && "VecPack"@[0] == 'V' && "VecPack"@[1] == 'e'
            && "VecPack"@[2] == 'c' && "VecPack"@[3] == 'P' && "VecPack"@[4] == 'a'
            && "VecPack"@[5] == 'c' && "VecPack"@[6] == 'k',
        "VecUnpack"@.len() == 9 && "VecUnpack"@[0] == 'V' && "VecUnpack"@[1] == 'e'
            && "VecUnpack"@[2] == 'c' && "VecUnpack"@[3] == 'U' && "VecUnpack"@[4] == 'n'
            && "VecUnpack"@[5] == 'p' && "VecUnpack"@[6] == 'a' && "VecUnpack"@[7] == 'c'
            && "VecUnpack"@[8] == 'k',
{
    reveal_strlit("VecPack");
    reveal_strlit("VecUnpack");
}

/// The name of an instruction is a nonempty word.
pub proof fn lemma_instruction_name_is_word(b: BytecodeDef)
    ensures
        instruction_name(b).len() > 0,
        all_in_class(instruction_name(b), CharClass::Word),
{
    match b {
        BytecodeDef::Pop => {
            reveal_strlit("Pop");
            assert("Pop"@ =~= seq!['P', 'o', 'p']);
        },
        BytecodeDef::Ret => {
            reveal_strlit("Ret");
            assert("Ret"@ =~= seq!['R', 'e', 't']);
        },
        BytecodeDef::BrTrue(..) => {
            reveal_strlit("BrTrue");
            assert("BrTrue"@ =~= seq!['B', 'r', 'T', 'r', 'u', 'e']);
        },
        BytecodeDef::BrFalse(..) => {
            reveal_strlit("BrFalse");
            assert("BrFalse"@ =~= seq!['B', 'r', 'F', 'a', 'l', 's', 'e']);
        },
        BytecodeDef::Branch(..) => {
            reveal_strlit("Branch");
            assert("Branch"@ =~= seq!['B', 'r', 'a', 'n', 'c', 'h']);
        },
        BytecodeDef::LdU8(..) => {
            reveal_strlit("LdU8");
            assert("LdU8"@ =~= seq!['L', 'd', 'U', '8']);
        },
        BytecodeDef::LdU64(..) => {
            reveal_strlit("LdU64");
            assert("LdU64"@ =~= seq!['L', 'd', 'U', '6', '4']);
        },
        BytecodeDef::LdU128(..) => {
            reveal_strlit("LdU128");
            assert("LdU128"@ =~= seq!['L', 'd', 'U', '1', '2', '8']);
        },
        BytecodeDef::CastU8 => {
            reveal_strlit("CastU8");
            assert("CastU8"@ =~= seq!['C', 'a', 's', 't', 'U', '8']);
        },
        BytecodeDef::CastU64 => {
            reveal_strlit("CastU64");
            assert("CastU64"@ =~= seq!['C', 'a', 's', 't', 'U', '6', '4']);
        },
        BytecodeDef::CastU128 => {
            reveal_strlit("CastU128");
            assert("CastU128"@ =~= seq!['C', 'a', 's', 't', 'U', '1', '2', '8']);
        },
        BytecodeDef::LdConst(..) => {
            reveal_strlit("LdConst");
            assert("LdConst"@ =~= seq!['L', 'd', 'C', 'o', 'n', 's', 't']);
        },
        BytecodeDef::LdTrue => {
            reveal_strlit("LdTrue");
            assert("LdTrue"@ =~= seq!['L', 'd', 'T', 'r', 'u', 'e']);
        },
        BytecodeDef::LdFalse => {
            reveal_strlit("LdFalse");
            assert("LdFalse"@ =~= seq!['L', 'd', 'F', 'a', 'l', 's', 'e']);
        },
        BytecodeDef::CopyLoc(..) => {
            reveal_strlit("CopyLoc");
            assert("CopyLoc"@ =~= seq!['C', 'o', 'p', 'y', 'L', 'o', 'c']);
        },
        BytecodeDef::MoveLoc(..) => {
            reveal_strlit("MoveLoc");
            assert("MoveLoc"@ =~= seq!['M', 'o', 'v', 'e', 'L', 'o', 'c']);
        },
        BytecodeDef::StLoc(..) => {
            reveal_strlit("StLoc");
            assert("StLoc"@ =~= seq!['S', 't', 'L', 'o', 'c']);
        },
        BytecodeDef::Call(..) => {
            reveal_strlit("Call");
            assert("Call"@ =~= seq!['C', 'a', 'l', 'l']);
        },
        BytecodeDef::CallGeneric(..) => {
            reveal_strlit("CallGeneric");
            assert("CallGeneric"@ =~= seq!['C', 'a', 'l', 'l', 'G', 'e', 'n', 'e', 'r', 'i', 'c']);
        },
        BytecodeDef::Pack(..) => {
            reveal_strlit("Pack");
            assert("Pack"@ =~= seq!['P', 'a', 'c', 'k']);
        },
        BytecodeDef::PackGeneric(..) => {
            reveal_strlit("PackGeneric");
            assert("PackGeneric"@ =~= seq!['P', 'a', 'c', 'k', 'G', 'e', 'n', 'e', 'r', 'i', 'c']);
        },
        BytecodeDef::PackVariant(..) => {
            reveal_strlit("PackVariant");
            assert("PackVariant"@ =~= seq!['P', 'a', 'c', 'k', 'V', 'a', 'r', 'i', 'a', 'n', 't']);
        },
        BytecodeDef::PackVariantGeneric(..) => {
            reveal_strlit("PackVariantGeneric");
            assert("PackVariantGeneric"@ =~= seq!['P', 'a', 'c', 'k', 'V', 'a', 'r', 'i', 'a', 'n', 't', 'G', 'e', 'n', 'e', 'r', 'i', 'c']);
        },
        BytecodeDef::Unpack(..) => {
            reveal_strlit("Unpack");
            assert("Unpack"@ =~= seq!['U', 'n', 'p', 'a', 'c', 'k']);
        },
        BytecodeDef::UnpackGeneric(..) => {
            reveal_strlit("UnpackGeneric");
            assert("UnpackGeneric"@ =~= seq!['U', 'n', 'p', 'a', 'c', 'k', 'G', 'e', 'n', 'e', 'r', 'i', 'c']);
        },
        BytecodeDef::UnpackVariant(..) => {
            reveal_strlit("UnpackVariant");
            assert("UnpackVariant"@ =~= seq!['U', 'n', 'p', 'a', 'c', 'k', 'V', 'a', 'r', 'i', 'a', 'n', 't']);
        },
        BytecodeDef::UnpackVariantGeneric(..) => {
            reveal_strlit("UnpackVariantGeneric");
            assert("UnpackVariantGeneric"@ =~= seq!['U', 'n', 'p', 'a', 'c', 'k', 'V', 'a', 'r', 'i', 'a', 'n', 't', 'G', 'e', 'n', 'e', 'r', 'i', 'c']);
        },
        BytecodeDef::TestVariant(..) => {
            reveal_strlit("TestVariant");
            assert("TestVariant"@ =~= seq!['T', 'e', 's', 't', 'V', 'a', 'r', 'i', 'a', 'n', 't']);
        },
        BytecodeDef::TestVariantGeneric(..) => {
            reveal_strlit("TestVariantGeneric");
            assert("TestVariantGeneric"@ =~= seq!['T', 'e', 's', 't', 'V', 'a', 'r', 'i', 'a', 'n', 't', 'G', 'e', 'n', 'e', 'r', 'i', 'c']);
        },
        BytecodeDef::ReadRef => {
            reveal_strlit("ReadRef");
            assert("ReadRef"@ =~= seq!['R', 'e', 'a', 'd', 'R', 'e', 'f']);
        },
        BytecodeDef::WriteRef => {
            reveal_strlit("WriteRef");
            assert("WriteRef"@ =~= seq!['W', 'r', 'i', 't', 'e', 'R', 'e', 'f']);
        },
        BytecodeDef::FreezeRef => {
            reveal_strlit("FreezeRef");
            assert("FreezeRef"@ =~= seq!['F', 'r', 'e', 'e', 'z', 'e', 'R', 'e', 'f']);
        },
        BytecodeDef::MutBorrowLoc(..) => {
            reveal_strlit("MutBorrowLoc");
            assert("MutBorrowLoc"@ =~= seq!['M', 'u', 't', 'B', 'o', 'r', 'r', 'o', 'w', 'L', 'o', 'c']);
        },
        BytecodeDef::ImmBorrowLoc(..) => {
            reveal_strlit("ImmBorrowLoc");
            assert("ImmBorrowLoc"@ =~= seq!['I', 'm', 'm', 'B', 'o', 'r', 'r', 'o', 'w', 'L', 'o', 'c']);
        },
        BytecodeDef::MutBorrowField(..) => {
            reveal_strlit("MutBorrowField");
            assert("MutBorrowField"@ =~= seq!['M', 'u', 't', 'B', 'o', 'r', 'r', 'o', 'w', 'F', 'i', 'e', 'l', 'd']);
        },
        BytecodeDef::MutBorrowVariantField(..) => {
            reveal_strlit("MutBorrowVariantField");
            assert("MutBorrowVariantField"@ =~= seq!['M', 'u', 't', 'B', 'o', 'r', 'r', 'o', 'w', 'V', 'a', 'r', 'i', 'a', 'n', 't', 'F', 'i', 'e', 'l', 'd']);
        },
        BytecodeDef::MutBorrowFieldGeneric(..) => {
            reveal_strlit("MutBorrowFieldGeneric");
            assert("MutBorrowFieldGeneric"@ =~= seq!['M', 'u', 't', 'B', 'o', 'r', 'r', 'o', 'w', 'F', 'i', 'e', 'l', 'd', 'G', 'e', 'n', 'e', 'r', 'i', 'c']);
        },
        BytecodeDef::MutBorrowVariantFieldGeneric(..) => {
            reveal_strlit("MutBorrowVariantFieldGeneric");
            assert("MutBorrowVariantFieldGeneric"@ =~= seq!['M', 'u', 't', 'B', 'o', 'r', 'r', 'o', 'w', 'V', 'a', 'r', 'i', 'a', 'n', 't', 'F', 'i', 'e', 'l', 'd', 'G', 'e', 'n', 'e', 'r', 'i', 'c']);
        },
        BytecodeDef::ImmBorrowField(..) => {
            reveal_strlit("ImmBorrowField");
            assert("ImmBorrowField"@ =~= seq!['I', 'm', 'm', 'B', 'o', 'r', 'r', 'o', 'w', 'F', 'i', 'e', 'l', 'd']);
        },
        BytecodeDef::ImmBorrowVariantField(..) => {
            reveal_strlit("ImmBorrowVariantField");
            assert("ImmBorrowVariantField"@ =~= seq!['I', 'm', 'm', 'B', 'o', 'r', 'r', 'o', 'w', 'V', 'a', 'r', 'i', 'a', 'n', 't', 'F', 'i', 'e', 'l', 'd']);
        },
        BytecodeDef::ImmBorrowFieldGeneric(..) => {
            reveal_strlit("ImmBorrowFieldGeneric");
            assert("ImmBorrowFieldGeneric"@ =~= seq!['I', 'm', 'm', 'B', 'o', 'r', 'r', 'o', 'w', 'F', 'i', 'e', 'l', 'd', 'G', 'e', 'n', 'e', 'r', 'i', 'c']);
        },
        BytecodeDef::ImmBorrowVariantFieldGeneric(..) => {
            reveal_strlit("ImmBorrowVariantFieldGeneric");
            assert("ImmBorrowVariantFieldGeneric"@ =~= seq!['I', 'm', 'm', 'B', 'o', 'r', 'r', 'o', 'w', 'V', 'a', 'r', 'i', 'a', 'n', 't', 'F', 'i', 'e', 'l', 'd', 'G', 'e', 'n', 'e', 'r', 'i', 'c']);
        },
        BytecodeDef::MutBorrowGlobal(..) => {
            reveal_strlit("MutBorrowGlobal");
            assert("MutBorrowGlobal"@ =~= seq!['M', 'u', 't', 'B', 'o', 'r', 'r', 'o', 'w', 'G', 'l', 'o', 'b', 'a', 'l']);
        },
        BytecodeDef::MutBorrowGlobalGeneric(..) => {
            reveal_strlit("MutBorrowGlobalGeneric");
            assert("MutBorrowGlobalGeneric"@ =~= seq!['M', 'u', 't', 'B', 'o', 'r', 'r', 'o', 'w', 'G', 'l', 'o', 'b', 'a', 'l', 'G', 'e', 'n', 'e', 'r', 'i', 'c']);
        },
        BytecodeDef::ImmBorrowGlobal(..) => {
            reveal_strlit("ImmBorrowGlobal");
            assert("ImmBorrowGlobal"@ =~= seq!['I', 'm', 'm', 'B', 'o', 'r', 'r', 'o', 'w', 'G', 'l', 'o', 'b', 'a', 'l']);
        },
        BytecodeDef::ImmBorrowGlobalGeneric(..) => {
            reveal_strlit("ImmBorrowGlobalGeneric");
            assert("ImmBorrowGlobalGeneric"@ =~= seq!['I', 'm', 'm', 'B', 'o', 'r', 'r', 'o', 'w', 'G', 'l', 'o', 'b', 'a', 'l', 'G', 'e', 'n', 'e', 'r', 'i', 'c']);
        },
        BytecodeDef::Add => {
            reveal_strlit("Add");
            assert("Add"@ =~= seq!['A', 'd', 'd']);
        },
        BytecodeDef::Sub => {
            reveal_strlit("Sub");
            assert("Sub"@ =~= seq!['S', 'u', 'b']);
        },
        BytecodeDef::Mul => {
            reveal_strlit("Mul");
            assert("Mul"@ =~= seq!['M', 'u', 'l']);
        },
        BytecodeDef::Mod => {
            reveal_strlit("Mod");
            assert("Mod"@ =~= seq!['M', 'o', 'd']);
        },
        BytecodeDef::Div => {
            reveal_strlit("Div");
            assert("Div"@ =~= seq!['D', 'i', 'v']);
        },
        BytecodeDef::BitOr => {
            reveal_strlit("BitOr");
            assert("BitOr"@ =~= seq!['B', 'i', 't', 'O', 'r']);
        },
        BytecodeDef::BitAnd => {
            reveal_strlit("BitAnd");
            assert("BitAnd"@ =~= seq!['B', 'i', 't', 'A', 'n', 'd']);
        },
        BytecodeDef::Xor => {
            reveal_strlit("Xor");
            assert("Xor"@ =~= seq!['X', 'o', 'r']);
        },
        BytecodeDef::Or => {
            reveal_strlit("Or");
            assert("Or"@ =~= seq!['O', 'r']);
        },
        BytecodeDef::And => {
            reveal_strlit("And");
            assert("And"@ =~= seq!['A', 'n', 'd']);
        },
        BytecodeDef::Not => {
            reveal_strlit("Not");
            assert("Not"@ =~= seq!['N', 'o', 't']);
        },
        BytecodeDef::Eq => {
            reveal_strlit("Eq");
            assert("Eq"@ =~= seq!['E', 'q']);
        },
        BytecodeDef::Neq => {
            reveal_strlit("Neq");
            assert("Neq"@ =~= seq!['N', 'e', 'q']);
        },
        BytecodeDef::Lt => {
            reveal_strlit("Lt");
            assert("Lt"@ =~= seq!['L', 't']);
        },
        BytecodeDef::Gt => {
            reveal_strlit("Gt");
            assert("Gt"@ =~= seq!['G', 't']);
        },
        BytecodeDef::Le => {
            reveal_strlit("Le");
            assert("Le"@ =~= seq!['L', 'e']);
        },
        BytecodeDef::Ge => {
            reveal_strlit("Ge");
            assert("Ge"@ =~= seq!['G', 'e']);
        },
        BytecodeDef::Abort => {
            reveal_strlit("Abort");
            assert("Abort"@ =~= seq!['A', 'b', 'o', 'r', 't']);
        },
        BytecodeDef::Nop => {
            reveal_strlit("Nop");
            assert("Nop"@ =~= seq!['N', 'o', 'p']);
        },
        BytecodeDef::Exists(..) => {
            reveal_strlit("Exists");
            assert("Exists"@ =~= seq!['E', 'x', 'i', 's', 't', 's']);
        },
        BytecodeDef::ExistsGeneric(..) => {
            reveal_strlit("ExistsGeneric");
            assert("ExistsGeneric"@ =~= seq!['E', 'x', 'i', 's', 't', 's', 'G', 'e', 'n', 'e', 'r', 'i', 'c']);
        },
        BytecodeDef::MoveFrom(..) => {
            reveal_strlit("MoveFrom");
            assert("MoveFrom"@ =~= seq!['M', 'o', 'v', 'e', 'F', 'r', 'o', 'm']);
        },
        BytecodeDef::MoveFromGeneric(..) => {
            reveal_strlit("MoveFromGeneric");
            assert("MoveFromGeneric"@ =~= seq!['M', 'o', 'v', 'e', 'F', 'r', 'o', 'm', 'G', 'e', 'n', 'e', 'r', 'i', 'c']);
        },
        BytecodeDef::MoveTo(..) => {
            reveal_strlit("MoveTo");
            assert("MoveTo"@ =~= seq!['M', 'o', 'v', 'e', 'T', 'o']);
        },
        BytecodeDef::MoveToGeneric(..) => {
            reveal_strlit("MoveToGeneric");
            assert("MoveToGeneric"@ =~= seq!['M', 'o', 'v', 'e', 'T', 'o', 'G', 'e', 'n', 'e', 'r', 'i', 'c']);
        },
        BytecodeDef::Shl => {
            reveal_strlit("Shl");
            assert("Shl"@ =~= seq!['S', 'h', 'l']);
        },
        BytecodeDef::Shr => {
            reveal_strlit("Shr");
            assert("Shr"@ =~= seq!['S', 'h', 'r']);
        },
        BytecodeDef::VecPack(..) => {
            reveal_strlit("VecPack");
            assert("VecPack"@ =~= seq!['V', 'e', 'c', 'P', 'a', 'c', 'k']);
        },
        BytecodeDef::VecLen(..) => {
            reveal_strlit("VecLen");
            assert("VecLen"@ =~= seq!['V', 'e', 'c', 'L', 'e', 'n']);
        },
        BytecodeDef::VecImmBorrow(..) => {
            reveal_strlit("VecImmBorrow");
            assert("VecImmBorrow"@ =~= seq!['V', 'e', 'c', 'I', 'm', 'm', 'B', 'o', 'r', 'r', 'o', 'w']);
        },
        BytecodeDef::VecMutBorrow(..) => {
            reveal_strlit("VecMutBorrow");
            assert("VecMutBorrow"@ =~= seq!['V', 'e', 'c', 'M', 'u', 't', 'B', 'o', 'r', 'r', 'o', 'w']);
        },
        BytecodeDef::VecPushBack(..) => {
            reveal_strlit("VecPushBack");
            assert("VecPushBack"@ =~= seq!['V', 'e', 'c', 'P', 'u', 's', 'h', 'B', 'a', 'c', 'k']);
        },
        BytecodeDef::VecPopBack(..) => {
            reveal_strlit("VecPopBack");
            assert("VecPopBack"@ =~= seq!['V', 'e', 'c', 'P', 'o', 'p', 'B', 'a', 'c', 'k']);
        },
        BytecodeDef::VecUnpack(..) => {
            reveal_strlit("VecUnpack");
            assert("VecUnpack"@ =~= seq!['V', 'e', 'c', 'U', 'n', 'p', 'a', 'c', 'k']);
        },
        BytecodeDef::VecSwap(..) => {
            reveal_strlit("VecSwap");
            assert("VecSwap"@ =~= seq!['V', 'e', 'c', 'S', 'w', 'a', 'p']);
        },
        BytecodeDef::LdU16(..) => {
            reveal_strlit("LdU16");
            assert("LdU16"@ =~= seq!['L', 'd', 'U', '1', '6']);
        },
        BytecodeDef::LdU32(..) => {
            reveal_strlit("LdU32");
            assert("LdU32"@ =~= seq!['L', 'd', 'U', '3', '2']);
        },
        BytecodeDef::LdU256(..) => {
            reveal_strlit("LdU256");
            assert("LdU256"@ =~= seq!['L', 'd', 'U', '2', '5', '6']);
        },
        BytecodeDef::CastU16 => {
            reveal_strlit("CastU16");
            assert("CastU16"@ =~= seq!['C', 'a', 's', 't', 'U', '1', '6']);
        },
        BytecodeDef::CastU32 => {
            reveal_strlit("CastU32");
            assert("CastU32"@ =~= seq!['C', 'a', 's', 't', 'U', '3', '2']);
        },
        BytecodeDef::CastU256 => {
            reveal_strlit("CastU256");
            assert("CastU256"@ =~= seq!['C', 'a', 's', 't', 'U', '2', '5', '6']);
        },
    }
}

proof fn lemma_no_param_lookup(b: BytecodeDef)
    requires
        instruction_operands(b) is Nothing,
    ensures
        no_param_instruction(instruction_name(b)) == Some(b),
{
    lemma_no_param_names_spelled();
    match b {
        BytecodeDef::Pop => {},
        BytecodeDef::Ret => {},
        BytecodeDef::CastU8 => {},
        BytecodeDef::CastU16 => {},
        BytecodeDef::CastU32 => {},
        BytecodeDef::CastU64 => {},
        BytecodeDef::CastU128 => {},
        BytecodeDef::CastU256 => {},
        BytecodeDef::LdTrue => {},
        BytecodeDef::LdFalse => {},
        BytecodeDef::ReadRef => {},
        BytecodeDef::WriteRef => {},
        BytecodeDef::FreezeRef => {},
        BytecodeDef::Add => {},
        BytecodeDef::Sub => {},
        BytecodeDef::Mul => {},
        BytecodeDef::Mod => {},
        BytecodeDef::Div => {},
        BytecodeDef::BitOr => {},
        BytecodeDef::BitAnd => {},
        BytecodeDef::Xor => {},
        BytecodeDef::Shl => {},
        BytecodeDef::Shr => {},
        BytecodeDef::Or => {},
        BytecodeDef::And => {},
        BytecodeDef::Not => {},
        BytecodeDef::Eq => {},
        BytecodeDef::Neq => {},
        BytecodeDef::Lt => {},
        BytecodeDef::Gt => {},
        BytecodeDef::Le => {},
        BytecodeDef::Ge => {},
        BytecodeDef::Abort => {},
        BytecodeDef::Nop => {},
        _ => {},
    }
}

proof fn lemma_one_param_lookup(b: BytecodeDef)
    requires
        instruction_operands(b) is One,
    ensures
        instruction_name(b) != "LdU256"@,
        instruction_operands(b) matches Operands::One(v) && one_param_instruction(
            instruction_name(b),
            v,
        ) == Some(b),
{
    lemma_one_param_names_spelled();
    match b {
        BytecodeDef::BrTrue(..) => {},
        BytecodeDef::BrFalse(..) => {},
        BytecodeDef::Branch(..) => {},
        BytecodeDef::LdU8(..) => {},
        BytecodeDef::LdU16(..) => {},
        BytecodeDef::LdU32(..) => {},
        BytecodeDef::LdU64(..) => {},
        BytecodeDef::LdU128(..) => {},
        BytecodeDef::LdConst(..) => {},
        BytecodeDef::CopyLoc(..) => {},
        BytecodeDef::MoveLoc(..) => {},
        BytecodeDef::StLoc(..) => {},
        BytecodeDef::Call(..) => {},
        BytecodeDef::CallGeneric(..) => {},
        BytecodeDef::Pack(..) => {},
        BytecodeDef::PackGeneric(..) => {},
        BytecodeDef::PackVariant(..) => {},
        BytecodeDef::TestVariant(..) => {},
        BytecodeDef::PackVariantGeneric(..) => {},
        BytecodeDef::TestVariantGeneric(..) => {},
        BytecodeDef::Unpack(..) => {},
        BytecodeDef::UnpackGeneric(..) => {},
        BytecodeDef::UnpackVariant(..) => {},
        BytecodeDef::UnpackVariantGeneric(..) => {},
        BytecodeDef::MutBorrowLoc(..) => {},
        BytecodeDef::ImmBorrowLoc(..) => {},
        BytecodeDef::MutBorrowField(..) => {},
        BytecodeDef::MutBorrowFieldGeneric(..) => {},
        BytecodeDef::MutBorrowVariantField(..) => {},
        BytecodeDef::MutBorrowVariantFieldGeneric(..) => {},
        BytecodeDef::ImmBorrowField(..) => {},
        BytecodeDef::ImmBorrowFieldGeneric(..) => {},
        BytecodeDef::ImmBorrowVariantField(..) => {},
        BytecodeDef::ImmBorrowVariantFieldGeneric(..) => {},
        BytecodeDef::MutBorrowGlobal(..) => {},
        BytecodeDef::MutBorrowGlobalGeneric(..) => {},
        BytecodeDef::ImmBorrowGlobal(..) => {},
        BytecodeDef::ImmBorrowGlobalGeneric(..) => {},
        BytecodeDef::Exists(..) => {},
        BytecodeDef::ExistsGeneric(..) => {},
        BytecodeDef::MoveFrom(..) => {},
        BytecodeDef::MoveFromGeneric(..) => {},
        BytecodeDef::MoveTo(..) => {},
        BytecodeDef::MoveToGeneric(..) => {},
        BytecodeDef::VecLen(..) => {},
        BytecodeDef::VecImmBorrow(..) => {},
        BytecodeDef::VecMutBorrow(..) => {},
        BytecodeDef::VecPushBack(..) => {},
        BytecodeDef::VecPopBack(..) => {},
        BytecodeDef::VecSwap(..) => {},
        _ => {},
    }
}

proof fn lemma_two_param_lookup(b: BytecodeDef)
    requires
        instruction_operands(b) is Two,
    ensures
        instruction_operands(b) matches Operands::Two(a, c) && two_param_instruction(
            instruction_name(b),
            a as u64,
            c,
        ) == Some(b),
{
    lemma_two_param_names_spelled();
    match b {
        BytecodeDef::VecPack(..) => {},
        BytecodeDef::VecUnpack(..) => {},
        _ => {},
    }
}

proof fn lemma_no_param_shape(name: Seq<char>)
    requires
        name.len() > 0,
        all_in_class(name, CharClass::Word),
    ensures
        no_param_form(name),
{
    lemma_run_end_at(name, 0, name.len() as int, CharClass::Word);
}

proof fn lemma_one_param_shape(name: Seq<char>, p: Seq<char>)
    requires
        name.len() > 0,
        all_in_class(name, CharClass::Word),
        p.len() > 0,
        all_ascii_digits(p),
    ensures
        ({
            let s = name + seq!['('] + p + seq![')'];
            &&& !no_param_form(s)
            &&& one_param_form(s)
            &&& s.subrange(0, word_end(s)) == name
            &&& s.subrange(word_end(s) + 1, s.len() - 1) == p
        }),
{
    let s = name + seq!['('] + p + seq![')'];
    let k = name.len() as int;
    assert forall|t: int| 0 <= t < k implies class_contains(CharClass::Word, #[trigger] s[t]) by {
        assert(s[t] == name[t]);
    }
    assert(s[k] == '(');
    lemma_run_end_at(s, 0, k, CharClass::Word);
    let j = k + 1 + p.len();
    assert forall|t: int| k + 1 <= t < j implies class_contains(CharClass::Digit, #[trigger] s[t]) by {
        assert(s[t] == p[t - k - 1]);
        assert(is_ascii_digit(p[t - k - 1]));
    }
    assert(s[j] == ')');
    lemma_run_end_at(s, k + 1, j, CharClass::Digit);
    assert(s.subrange(0, k) =~= name);
    assert(s.subrange(k + 1, s.len() - 1) =~= p);
}

proof fn lemma_two_param_shape(name: Seq<char>, p1: Seq<char>, p2: Seq<char>)
    requires
        name.len() > 0,
        all_in_class(name, CharClass::Word),
        p1.len() > 0,
        all_ascii_digits(p1),
        p2.len() > 0,
        all_ascii_digits(p2),
    ensures
        ({
            let s = name + seq!['('] + p1 + seq![',', ' '] + p2 + seq![')'];
            &&& !no_param_form(s)
            &&& !one_param_form(s)
            &&& two_param_form(s)
            &&& s.subrange(0, word_end(s)) == name
            &&& s.subrange(word_end(s) + 1, first_operand_end(s)) == p1
            &&& s.subrange(second_operand_start(s), s.len() - 1) == p2
        }),
{
    let s = name + seq!['('] + p1 + seq![',', ' '] + p2 + seq![')'];
    let k = name.len() as int;
    assert forall|t: int| 0 <= t < k implies class_contains(CharClass::Word, #[trigger] s[t]) by {
        assert(s[t] == name[t]);
    }
    assert(s[k] == '(');
    lemma_run_end_at(s, 0, k, CharClass::Word);
    let j = k + 1 + p1.len();
    assert forall|t: int| k + 1 <= t < j implies class_contains(CharClass::Digit, #[trigger] s[t]) by {
        assert(s[t] == p1[t - k - 1]);
        assert(is_ascii_digit(p1[t - k - 1]));
    }
    assert(s[j] == ',');
    lemma_run_end_at(s, k + 1, j, CharClass::Digit);
    let m = j + 2;
    assert(s[j + 1] == ' ');
    assert(s[m] == p2[0]);
    assert(is_ascii_digit(p2[0]));
    lemma_run_end_at(s, j + 1, m, CharClass::Space);
    let e = m + p2.len();
    assert forall|t: int| m <= t < e implies class_contains(CharClass::Digit, #[trigger] s[t]) by {
        assert(s[t] == p2[t - m]);
        assert(is_ascii_digit(p2[t - m]));
    }
    assert(s[e] == ')');
    lemma_run_end_at(s, m, e, CharClass::Digit);
    assert(s.subrange(0, k) =~= name);
    assert(s.subrange(k + 1, j) =~= p1);
    assert(s.subrange(m, s.len() - 1) =~= p2);
}

/// Reading the text of an instruction gives back the instruction.
pub proof fn lemma_text_roundtrip(b: BytecodeDef)
    ensures
        bytecode_of_text(instruction_text(b)) == Ok::<BytecodeDef, BytecodeError>(b),
{
    let name = instruction_name(b);
    lemma_instruction_name_is_word(b);
    match instruction_operands(b) {
        Operands::Nothing => {
            lemma_no_param_shape(name);
            lemma_no_param_lookup(b);
        },
        Operands::One(v) => {
            lemma_dec_digits(v as nat);
            lemma_one_param_shape(name, dec_digits(v as nat));
            lemma_one_param_lookup(b);
        },
        Operands::Wide(v) => {
            lemma_dec_digits(u256_value(v));
            lemma_u256_value(v);
            lemma_one_param_shape(name, dec_digits(u256_value(v)));
            assert(b == BytecodeDef::LdU256(v));
        },
        Operands::Two(a, c) => {
            lemma_dec_digits(a as nat);
            lemma_dec_digits(c as nat);
            lemma_two_param_shape(name, dec_digits(a as nat), dec_digits(c as nat));
            lemma_two_param_lookup(b);
        },
    }
}


/// The name and operands of every instruction, spelled out: its own name, and
/// its own operands in their places.
pub proof fn lemma_instruction_parts_spelled(b: BytecodeDef)
    ensures
        match b {
            BytecodeDef::Pop => instruction_name(b) == "Pop"@ && instruction_operands(b) is Nothing,
            BytecodeDef::Ret => instruction_name(b) == "Ret"@ && instruction_operands(b) is Nothing,
            BytecodeDef::BrTrue(x) => instruction_name(b) == "BrTrue"@ && instruction_operands(b)
                == Operands::One(x as u128),
            BytecodeDef::BrFalse(x) => instruction_name(b) == "BrFalse"@ && instruction_operands(b)
                == Operands::One(x as u128),
            BytecodeDef::Branch(x) => instruction_name(b) == "Branch"@ && instruction_operands(b)
                == Operands::One(x as u128),
            BytecodeDef::LdU8(x) => instruction_name(b) == "LdU8"@ && instruction_operands(b)
                == Operands::One(x as u128),
            BytecodeDef::LdU64(x) => instruction_name(b) == "LdU64"@ && instruction_operands(b)
                == Operands::One(x as u128),
            BytecodeDef::LdU128(x) => instruction_name(b) == "LdU128"@ && instruction_operands(b)
                == Operands::One(x as u128),
            BytecodeDef::CastU8 => instruction_name(b) == "CastU8"@ && instruction_operands(b) is Nothing,
            BytecodeDef::CastU64 => instruction_name(b) == "CastU64"@ && instruction_operands(b) is Nothing,
            BytecodeDef::CastU128 => instruction_name(b) == "CastU128"@ && instruction_operands(b) is Nothing,
            BytecodeDef::LdConst(x) => instruction_name(b) == "LdConst"@ && instruction_operands(b)
                == Operands::One(x as u128),
            BytecodeDef::LdTrue => instruction_name(b) == "LdTrue"@ && instruction_operands(b) is Nothing,
            BytecodeDef::LdFalse => instruction_name(b) == "LdFalse"@ && instruction_operands(b) is Nothing,
            BytecodeDef::CopyLoc(x) => instruction_name(b) == "CopyLoc"@ && instruction_operands(b)
                == Operands::One(x as u128),
            BytecodeDef::MoveLoc(x) => instruction_name(b) == "MoveLoc"@ && instruction_operands(b)
                == Operands::One(x as u128),
            BytecodeDef::StLoc(x) => instruction_name(b) == "StLoc"@ && instruction_operands(b)
                == Operands::One(x as u128),
            BytecodeDef::Call(x) => instruction_name(b) == "Call"@ && instruction_operands(b)
                == Operands::One(x as u128),
            BytecodeDef::CallGeneric(x) => instruction_name(b) == "CallGeneric"@ && instruction_operands(b)
                == Operands::One(x as u128),
            BytecodeDef::Pack(x) => instruction_name(b) == "Pack"@ && instruction_operands(b)
                == Operands::One(x as u128),
            BytecodeDef::PackGeneric(x) => instruction_name(b) == "PackGeneric"@ && instruction_operands(b)
                == Operands::One(x as u128),
            BytecodeDef::PackVariant(x) => instruction_name(b) == "PackVariant"@ && instruction_operands(b)
                == Operands::One(x as u128),
            BytecodeDef::PackVariantGeneric(x) => instruction_name(b) == "PackVariantGeneric"@ && instruction_operands(b)
                == Operands::One(x as u128),
            BytecodeDef::Unpack(x) => instruction_name(b) == "Unpack"@ && instruction_operands(b)
                == Operands::One(x as u128),
            BytecodeDef::UnpackGeneric(x) => instruction_name(b) == "UnpackGeneric"@ && instruction_operands(b)
                == Operands::One(x as u128),
            BytecodeDef::UnpackVariant(x) => instruction_name(b) == "UnpackVariant"@ && instruction_operands(b)
                == Operands::One(x as u128),
            BytecodeDef::UnpackVariantGeneric(x) => instruction_name(b) == "UnpackVariantGeneric"@ && instruction_operands(b)
                == Operands::One(x as u128),
            BytecodeDef::TestVariant(x) => instruction_name(b) == "TestVariant"@ && instruction_operands(b)
                == Operands::One(x as u128),
            BytecodeDef::TestVariantGeneric(x) => instruction_name(b) == "TestVariantGeneric"@ && instruction_operands(b)
                == Operands::One(x as u128),
            BytecodeDef::ReadRef => instruction_name(b) == "ReadRef"@ && instruction_operands(b) is Nothing,
            BytecodeDef::WriteRef => instruction_name(b) == "WriteRef"@ && instruction_operands(b) is Nothing,
            BytecodeDef::FreezeRef => instruction_name(b) == "FreezeRef"@ && instruction_operands(b) is Nothing,
            BytecodeDef::MutBorrowLoc(x) => instruction_name(b) == "MutBorrowLoc"@ && instruction_operands(b)
                == Operands::One(x as u128),
            BytecodeDef::ImmBorrowLoc(x) => instruction_name(b) == "ImmBorrowLoc"@ && instruction_operands(b)
                == Operands::One(x as u128),
            BytecodeDef::MutBorrowField(x) => instruction_name(b) == "MutBorrowField"@ && instruction_operands(b)
                == Operands::One(x as u128),
            BytecodeDef::MutBorrowVariantField(x) => instruction_name(b) == "MutBorrowVariantField"@ && instruction_operands(b)
                == Operands::One(x as u128),
            BytecodeDef::MutBorrowFieldGeneric(x) => instruction_name(b) == "MutBorrowFieldGeneric"@ && instruction_operands(b)
                == Operands::One(x as u128),
            BytecodeDef::MutBorrowVariantFieldGeneric(x) => instruction_name(b) == "MutBorrowVariantFieldGeneric"@ && instruction_operands(b)
                == Operands::One(x as u128),
            BytecodeDef::ImmBorrowField(x) => instruction_name(b) == "ImmBorrowField"@ && instruction_operands(b)
                == Operands::One(x as u128),
            BytecodeDef::ImmBorrowVariantField(x) => instruction_name(b) == "ImmBorrowVariantField"@ && instruction_operands(b)
                == Operands::One(x as u128),
            BytecodeDef::ImmBorrowFieldGeneric(x) => instruction_name(b) == "ImmBorrowFieldGeneric"@ && instruction_operands(b)
                == Operands::One(x as u128),
            BytecodeDef::ImmBorrowVariantFieldGeneric(x) => instruction_name(b) == "ImmBorrowVariantFieldGeneric"@ && instruction_operands(b)
                == Operands::One(x as u128),
            BytecodeDef::MutBorrowGlobal(x) => instruction_name(b) == "MutBorrowGlobal"@ && instruction_operands(b)
                == Operands::One(x as u128),
            BytecodeDef::MutBorrowGlobalGeneric(x) => instruction_name(b) == "MutBorrowGlobalGeneric"@ && instruction_operands(b)
                == Operands::One(x as u128),
            BytecodeDef::ImmBorrowGlobal(x) => instruction_name(b) == "ImmBorrowGlobal"@ && instruction_operands(b)
                == Operands::One(x as u128),
            BytecodeDef::ImmBorrowGlobalGeneric(x) => instruction_name(b) == "ImmBorrowGlobalGeneric"@ && instruction_operands(b)
                == Operands::One(x as u128),
            BytecodeDef::Add => instruction_name(b) == "Add"@ && instruction_operands(b) is Nothing,
            BytecodeDef::Sub => instruction_name(b) == "Sub"@ && instruction_operands(b) is Nothing,
            BytecodeDef::Mul => instruction_name(b) == "Mul"@ && instruction_operands(b) is Nothing,
            BytecodeDef::Mod => instruction_name(b) == "Mod"@ && instruction_operands(b) is Nothing,
            BytecodeDef::Div => instruction_name(b) == "Div"@ && instruction_operands(b) is Nothing,
            BytecodeDef::BitOr => instruction_name(b) == "BitOr"@ && instruction_operands(b) is Nothing,
            BytecodeDef::BitAnd => instruction_name(b) == "BitAnd"@ && instruction_operands(b) is Nothing,
            BytecodeDef::Xor => instruction_name(b) == "Xor"@ && instruction_operands(b) is Nothing,
            BytecodeDef::Or => instruction_name(b) == "Or"@ && instruction_operands(b) is Nothing,
            BytecodeDef::And => instruction_name(b) == "And"@ && instruction_operands(b) is Nothing,
            BytecodeDef::Not => instruction_name(b) == "Not"@ && instruction_operands(b) is Nothing,
            BytecodeDef::Eq => instruction_name(b) == "Eq"@ && instruction_operands(b) is Nothing,
            BytecodeDef::Neq => instruction_name(b) == "Neq"@ && instruction_operands(b) is Nothing,
            BytecodeDef::Lt => instruction_name(b) == "Lt"@ && instruction_operands(b) is Nothing,
            BytecodeDef::Gt => instruction_name(b) == "Gt"@ && instruction_operands(b) is Nothing,
            BytecodeDef::Le => instruction_name(b) == "Le"@ && instruction_operands(b) is Nothing,
            BytecodeDef::Ge => instruction_name(b) == "Ge"@ && instruction_operands(b) is Nothing,
            BytecodeDef::Abort => instruction_name(b) == "Abort"@ && instruction_operands(b) is Nothing,
            BytecodeDef::Nop => instruction_name(b) == "Nop"@ && instruction_operands(b) is Nothing,
            BytecodeDef::Exists(x) => instruction_name(b) == "Exists"@ && instruction_operands(b)
                == Operands::One(x as u128),
            BytecodeDef::ExistsGeneric(x) => instruction_name(b) == "ExistsGeneric"@ && instruction_operands(b)
                == Operands::One(x as u128),
            BytecodeDef::MoveFrom(x) => instruction_name(b) == "MoveFrom"@ && instruction_operands(b)
                == Operands::One(x as u128),
            BytecodeDef::MoveFromGeneric(x) => instruction_name(b) == "MoveFromGeneric"@ && instruction_operands(b)
                == Operands::One(x as u128),
            BytecodeDef::MoveTo(x) => instruction_name(b) == "MoveTo"@ && instruction_operands(b)
                == Operands::One(x as u128),
            BytecodeDef::MoveToGeneric(x) => instruction_name(b) == "MoveToGeneric"@ && instruction_operands(b)
                == Operands::One(x as u128),
            BytecodeDef::Shl => instruction_name(b) == "Shl"@ && instruction_operands(b) is Nothing,
            BytecodeDef::Shr => instruction_name(b) == "Shr"@ && instruction_operands(b) is Nothing,
            BytecodeDef::VecPack(x, y) => instruction_name(b) == "VecPack"@ && instruction_operands(b)
                == Operands::Two(x, y),
            BytecodeDef::VecLen(x) => instruction_name(b) == "VecLen"@ && instruction_operands(b)
                == Operands::One(x as u128),
            BytecodeDef::VecImmBorrow(x) => instruction_name(b) == "VecImmBorrow"@ && instruction_operands(b)
                == Operands::One(x as u128),
            BytecodeDef::VecMutBorrow(x) => instruction_name(b) == "VecMutBorrow"@ && instruction_operands(b)
                == Operands::One(x as u128),
            BytecodeDef::VecPushBack(x) => instruction_name(b) == "VecPushBack"@ && instruction_operands(b)
                == Operands::One(x as u128),
            BytecodeDef::VecPopBack(x) => instruction_name(b) == "VecPopBack"@ && instruction_operands(b)
                == Operands::One(x as u128),
            BytecodeDef::VecUnpack(x, y) => instruction_name(b) == "VecUnpack"@ && instruction_operands(b)
                == Operands::Two(x, y),
            BytecodeDef::VecSwap(x) => instruction_name(b) == "VecSwap"@ && instruction_operands(b)
                == Operands::One(x as u128),
            BytecodeDef::LdU16(x) => instruction_name(b) == "LdU16"@ && instruction_operands(b)
                == Operands::One(x as u128),
            BytecodeDef::LdU32(x) => instruction_name(b) == "LdU32"@ && instruction_operands(b)
                == Operands::One(x as u128),
            BytecodeDef::LdU256(x) => instruction_name(b) == "LdU256"@ && instruction_operands(b)
                == Operands::Wide(x),
            BytecodeDef::CastU16 => instruction_name(b) == "CastU16"@ && instruction_operands(b) is Nothing,
            BytecodeDef::CastU32 => instruction_name(b) == "CastU32"@ && instruction_operands(b) is Nothing,
            BytecodeDef::CastU256 => instruction_name(b) == "CastU256"@ && instruction_operands(b) is Nothing,
        },
{
}


/// The text of every instruction, spelled out: the instruction's own name,
/// then its own operands in decimal.
pub proof fn lemma_instruction_text_spelled(b: BytecodeDef)
    ensures
        match b {
            BytecodeDef::Pop => instruction_text(b) == "Pop"@,
            BytecodeDef::Ret => instruction_text(b) == "Ret"@,
            BytecodeDef::BrTrue(x) => instruction_text(b) == "BrTrue"@ + seq!['('] + dec_digits(x as nat)
                + seq![')'],
            BytecodeDef::BrFalse(x) => instruction_text(b) == "BrFalse"@ + seq!['('] + dec_digits(x as nat)
                + seq![')'],
            BytecodeDef::Branch(x) => instruction_text(b) == "Branch"@ + seq!['('] + dec_digits(x as nat)
                + seq![')'],
            BytecodeDef::LdU8(x) => instruction_text(b) == "LdU8"@ + seq!['('] + dec_digits(x as nat)
                + seq![')'],
            BytecodeDef::LdU64(x) => instruction_text(b) == "LdU64"@ + seq!['('] + dec_digits(x as nat)
                + seq![')'],
            BytecodeDef::LdU128(x) => instruction_text(b) == "LdU128"@ + seq!['('] + dec_digits(x as nat)
                + seq![')'],
            BytecodeDef::CastU8 => instruction_text(b) == "CastU8"@,
            BytecodeDef::CastU64 => instruction_text(b) == "CastU64"@,
            BytecodeDef::CastU128 => instruction_text(b) == "CastU128"@,
            BytecodeDef::LdConst(x) => instruction_text(b) == "LdConst"@ + seq!['('] + dec_digits(x as nat)
                + seq![')'],
            BytecodeDef::LdTrue => instruction_text(b) == "LdTrue"@,
            BytecodeDef::LdFalse => instruction_text(b) == "LdFalse"@,
            BytecodeDef::CopyLoc(x) => instruction_text(b) == "CopyLoc"@ + seq!['('] + dec_digits(x as nat)
                + seq![')'],
            BytecodeDef::MoveLoc(x) => instruction_text(b) == "MoveLoc"@ + seq!['('] + dec_digits(x as nat)
                + seq![')'],
            BytecodeDef::StLoc(x) => instruction_text(b) == "StLoc"@ + seq!['('] + dec_digits(x as nat)
                + seq![')'],
            BytecodeDef::Call(x) => instruction_text(b) == "Call"@ + seq!['('] + dec_digits(x as nat)
                + seq![')'],
            BytecodeDef::CallGeneric(x) => instruction_text(b) == "CallGeneric"@ + seq!['('] + dec_digits(x as nat)
                + seq![')'],
            BytecodeDef::Pack(x) => instruction_text(b) == "Pack"@ + seq!['('] + dec_digits(x as nat)
                + seq![')'],
            BytecodeDef::PackGeneric(x) => instruction_text(b) == "PackGeneric"@ + seq!['('] + dec_digits(x as nat)
                + seq![')'],
            BytecodeDef::PackVariant(x) => instruction_text(b) == "PackVariant"@ + seq!['('] + dec_digits(x as nat)
                + seq![')'],
            BytecodeDef::PackVariantGeneric(x) => instruction_text(b) == "PackVariantGeneric"@ + seq!['('] + dec_digits(x as nat)
                + seq![')'],
            BytecodeDef::Unpack(x) => instruction_text(b) == "Unpack"@ + seq!['('] + dec_digits(x as nat)
                + seq![')'],
            BytecodeDef::UnpackGeneric(x) => instruction_text(b) == "UnpackGeneric"@ + seq!['('] + dec_digits(x as nat)
                + seq![')'],
            BytecodeDef::UnpackVariant(x) => instruction_text(b) == "UnpackVariant"@ + seq!['('] + dec_digits(x as nat)
                + seq![')'],
            BytecodeDef::UnpackVariantGeneric(x) => instruction_text(b) == "UnpackVariantGeneric"@ + seq!['('] + dec_digits(x as nat)
                + seq![')'],
            BytecodeDef::TestVariant(x) => instruction_text(b) == "TestVariant"@ + seq!['('] + dec_digits(x as nat)
                + seq![')'],
            BytecodeDef::TestVariantGeneric(x) => instruction_text(b) == "TestVariantGeneric"@ + seq!['('] + dec_digits(x as nat)
                + seq![')'],
            BytecodeDef::ReadRef => instruction_text(b) == "ReadRef"@,
            BytecodeDef::WriteRef => instruction_text(b) == "WriteRef"@,
            BytecodeDef::FreezeRef => instruction_text(b) == "FreezeRef"@,
            BytecodeDef::MutBorrowLoc(x) => instruction_text(b) == "MutBorrowLoc"@ + seq!['('] + dec_digits(x as nat)
                + seq![')'],
            BytecodeDef::ImmBorrowLoc(x) => instruction_text(b) == "ImmBorrowLoc"@ + seq!['('] + dec_digits(x as nat)
                + seq![')'],
            BytecodeDef::MutBorrowField(x) => instruction_text(b) == "MutBorrowField"@ + seq!['('] + dec_digits(x as nat)
                + seq![')'],
            BytecodeDef::MutBorrowVariantField(x) => instruction_text(b) == "MutBorrowVariantField"@ + seq!['('] + dec_digits(x as nat)
                + seq![')'],
            BytecodeDef::MutBorrowFieldGeneric(x) => instruction_text(b) == "MutBorrowFieldGeneric"@ + seq!['('] + dec_digits(x as nat)
                + seq![')'],
            BytecodeDef::MutBorrowVariantFieldGeneric(x) => instruction_text(b) == "MutBorrowVariantFieldGeneric"@ + seq!['('] + dec_digits(x as nat)
                + seq![')'],
            BytecodeDef::ImmBorrowField(x) => instruction_text(b) == "ImmBorrowField"@ + seq!['('] + dec_digits(x as nat)
                + seq![')'],
            BytecodeDef::ImmBorrowVariantField(x) => instruction_text(b) == "ImmBorrowVariantField"@ + seq!['('] + dec_digits(x as nat)
                + seq![')'],
            BytecodeDef::ImmBorrowFieldGeneric(x) => instruction_text(b) == "ImmBorrowFieldGeneric"@ + seq!['('] + dec_digits(x as nat)
                + seq![')'],
            BytecodeDef::ImmBorrowVariantFieldGeneric(x) => instruction_text(b) == "ImmBorrowVariantFieldGeneric"@ + seq!['('] + dec_digits(x as nat)
                + seq![')'],
            BytecodeDef::MutBorrowGlobal(x) => instruction_text(b) == "MutBorrowGlobal"@ + seq!['('] + dec_digits(x as nat)
                + seq![')'],
            BytecodeDef::MutBorrowGlobalGeneric(x) => instruction_text(b) == "MutBorrowGlobalGeneric"@ + seq!['('] + dec_digits(x as nat)
                + seq![')'],
            BytecodeDef::ImmBorrowGlobal(x) => instruction_text(b) == "ImmBorrowGlobal"@ + seq!['('] + dec_digits(x as nat)
                + seq![')'],
            BytecodeDef::ImmBorrowGlobalGeneric(x) => instruction_text(b) == "ImmBorrowGlobalGeneric"@ + seq!['('] + dec_digits(x as nat)
                + seq![')'],
            BytecodeDef::Add => instruction_text(b) == "Add"@,
            BytecodeDef::Sub => instruction_text(b) == "Sub"@,
            BytecodeDef::Mul => instruction_text(b) == "Mul"@,
            BytecodeDef::Mod => instruction_text(b) == "Mod"@,
            BytecodeDef::Div => instruction_text(b) == "Div"@,
            BytecodeDef::BitOr => instruction_text(b) == "BitOr"@,
            BytecodeDef::BitAnd => instruction_text(b) == "BitAnd"@,
            BytecodeDef::Xor => instruction_text(b) == "Xor"@,
            BytecodeDef::Or => instruction_text(b) == "Or"@,
            BytecodeDef::And => instruction_text(b) == "And"@,
            BytecodeDef::Not => instruction_text(b) == "Not"@,
            BytecodeDef::Eq => instruction_text(b) == "Eq"@,
            BytecodeDef::Neq => instruction_text(b) == "Neq"@,
            BytecodeDef::Lt => instruction_text(b) == "Lt"@,
            BytecodeDef::Gt => instruction_text(b) == "Gt"@,
            BytecodeDef::Le => instruction_text(b) == "Le"@,
            BytecodeDef::Ge => instruction_text(b) == "Ge"@,
            BytecodeDef::Abort => instruction_text(b) == "Abort"@,
            BytecodeDef::Nop => instruction_text(b) == "Nop"@,
            BytecodeDef::Exists(x) => instruction_text(b) == "Exists"@ + seq!['('] + dec_digits(x as nat)
                + seq![')'],
            BytecodeDef::ExistsGeneric(x) => instruction_text(b) == "ExistsGeneric"@ + seq!['('] + dec_digits(x as nat)
                + seq![')'],
            BytecodeDef::MoveFrom(x) => instruction_text(b) == "MoveFrom"@ + seq!['('] + dec_digits(x as nat)
                + seq![')'],
            BytecodeDef::MoveFromGeneric(x) => instruction_text(b) == "MoveFromGeneric"@ + seq!['('] + dec_digits(x as nat)
                + seq![')'],
            BytecodeDef::MoveTo(x) => instruction_text(b) == "MoveTo"@ + seq!['('] + dec_digits(x as nat)
                + seq![')'],
            BytecodeDef::MoveToGeneric(x) => instruction_text(b) == "MoveToGeneric"@ + seq!['('] + dec_digits(x as nat)
                + seq![')'],
            BytecodeDef::Shl => instruction_text(b) == "Shl"@,
            BytecodeDef::Shr => instruction_text(b) == "Shr"@,
            BytecodeDef::VecPack(x, y) => instruction_text(b) == "VecPack"@ + seq!['('] + dec_digits(x as nat)
                + seq![',', ' '] + dec_digits(y as nat) + seq![')'],
            BytecodeDef::VecLen(x) => instruction_text(b) == "VecLen"@ + seq!['('] + dec_digits(x as nat)
                + seq![')'],
            BytecodeDef::VecImmBorrow(x) => instruction_text(b) == "VecImmBorrow"@ + seq!['('] + dec_digits(x as nat)
                + seq![')'],
            BytecodeDef::VecMutBorrow(x) => instruction_text(b) == "VecMutBorrow"@ + seq!['('] + dec_digits(x as nat)
                + seq![')'],
            BytecodeDef::VecPushBack(x) => instruction_text(b) == "VecPushBack"@ + seq!['('] + dec_digits(x as nat)
                + seq![')'],
            BytecodeDef::VecPopBack(x) => instruction_text(b) == "VecPopBack"@ + seq!['('] + dec_digits(x as nat)
                + seq![')'],
            BytecodeDef::VecUnpack(x, y) => instruction_text(b) == "VecUnpack"@ + seq!['('] + dec_digits(x as nat)
                + seq![',', ' '] + dec_digits(y as nat) + seq![')'],
            BytecodeDef::VecSwap(x) => instruction_text(b) == "VecSwap"@ + seq!['('] + dec_digits(x as nat)
                + seq![')'],
            BytecodeDef::LdU16(x) => instruction_text(b) == "LdU16"@ + seq!['('] + dec_digits(x as nat)
                + seq![')'],
            BytecodeDef::LdU32(x) => instruction_text(b) == "LdU32"@ + seq!['('] + dec_digits(x as nat)
                + seq![')'],
            BytecodeDef::LdU256(x) => instruction_text(b) == "LdU256"@ + seq!['('] + dec_digits(
                x.hi as nat * u128_bound() + x.lo as nat,
            )
                + seq![')'],
            BytecodeDef::CastU16 => instruction_text(b) == "CastU16"@,
            BytecodeDef::CastU32 => instruction_text(b) == "CastU32"@,
            BytecodeDef::CastU256 => instruction_text(b) == "CastU256"@,
        },
{
}

/// Reading the name of an instruction without operands gives that instruction.
pub proof fn lemma_read_no_operand(b: BytecodeDef)
    ensures
        match b {
            BytecodeDef::Pop => bytecode_of_text("Pop"@) == Ok::<BytecodeDef, BytecodeError>(BytecodeDef::Pop),
            BytecodeDef::Ret => bytecode_of_text("Ret"@) == Ok::<BytecodeDef, BytecodeError>(BytecodeDef::Ret),
            BytecodeDef::CastU8 => bytecode_of_text("CastU8"@) == Ok::<BytecodeDef, BytecodeError>(BytecodeDef::CastU8),
            BytecodeDef::CastU16 => bytecode_of_text("CastU16"@) == Ok::<BytecodeDef, BytecodeError>(BytecodeDef::CastU16),
            BytecodeDef::CastU32 => bytecode_of_text("CastU32"@) == Ok::<BytecodeDef, BytecodeError>(BytecodeDef::CastU32),
            BytecodeDef::CastU64 => bytecode_of_text("CastU64"@) == Ok::<BytecodeDef, BytecodeError>(BytecodeDef::CastU64),
            BytecodeDef::CastU128 => bytecode_of_text("CastU128"@) == Ok::<BytecodeDef, BytecodeError>(BytecodeDef::CastU128),
            BytecodeDef::CastU256 => bytecode_of_text("CastU256"@) == Ok::<BytecodeDef, BytecodeError>(BytecodeDef::CastU256),
            BytecodeDef::LdTrue => bytecode_of_text("LdTrue"@) == Ok::<BytecodeDef, BytecodeError>(BytecodeDef::LdTrue),
            BytecodeDef::LdFalse => bytecode_of_text("LdFalse"@) == Ok::<BytecodeDef, BytecodeError>(BytecodeDef::LdFalse),
            BytecodeDef::ReadRef => bytecode_of_text("ReadRef"@) == Ok::<BytecodeDef, BytecodeError>(BytecodeDef::ReadRef),
            BytecodeDef::WriteRef => bytecode_of_text("WriteRef"@) == Ok::<BytecodeDef, BytecodeError>(BytecodeDef::WriteRef),
            BytecodeDef::FreezeRef => bytecode_of_text("FreezeRef"@) == Ok::<BytecodeDef, BytecodeError>(BytecodeDef::FreezeRef),
            BytecodeDef::Add => bytecode_of_text("Add"@) == Ok::<BytecodeDef, BytecodeError>(BytecodeDef::Add),
            BytecodeDef::Sub => bytecode_of_text("Sub"@) == Ok::<BytecodeDef, BytecodeError>(BytecodeDef::Sub),
            BytecodeDef::Mul => bytecode_of_text("Mul"@) == Ok::<BytecodeDef, BytecodeError>(BytecodeDef::Mul),
            BytecodeDef::Mod => bytecode_of_text("Mod"@) == Ok::<BytecodeDef, BytecodeError>(BytecodeDef::Mod),
            BytecodeDef::Div => bytecode_of_text("Div"@) == Ok::<BytecodeDef, BytecodeError>(BytecodeDef::Div),
            BytecodeDef::BitOr => bytecode_of_text("BitOr"@) == Ok::<BytecodeDef, BytecodeError>(BytecodeDef::BitOr),
            BytecodeDef::BitAnd => bytecode_of_text("BitAnd"@) == Ok::<BytecodeDef, BytecodeError>(BytecodeDef::BitAnd),
            BytecodeDef::Xor => bytecode_of_text("Xor"@) == Ok::<BytecodeDef, BytecodeError>(BytecodeDef::Xor),
            BytecodeDef::Shl => bytecode_of_text("Shl"@) == Ok::<BytecodeDef, BytecodeError>(BytecodeDef::Shl),
            BytecodeDef::Shr => bytecode_of_text("Shr"@) == Ok::<BytecodeDef, BytecodeError>(BytecodeDef::Shr),
            BytecodeDef::Or => bytecode_of_text("Or"@) == Ok::<BytecodeDef, BytecodeError>(BytecodeDef::Or),
            BytecodeDef::And => bytecode_of_text("And"@) == Ok::<BytecodeDef, BytecodeError>(BytecodeDef::And),
            BytecodeDef::Not => bytecode_of_text("Not"@) == Ok::<BytecodeDef, BytecodeError>(BytecodeDef::Not),
            BytecodeDef::Eq => bytecode_of_text("Eq"@) == Ok::<BytecodeDef, BytecodeError>(BytecodeDef::Eq),
            BytecodeDef::Neq => bytecode_of_text("Neq"@) == Ok::<BytecodeDef, BytecodeError>(BytecodeDef::Neq),
            BytecodeDef::Lt => bytecode_of_text("Lt"@) == Ok::<BytecodeDef, BytecodeError>(BytecodeDef::Lt),
            BytecodeDef::Gt => bytecode_of_text("Gt"@) == Ok::<BytecodeDef, BytecodeError>(BytecodeDef::Gt),
            BytecodeDef::Le => bytecode_of_text("Le"@) == Ok::<BytecodeDef, BytecodeError>(BytecodeDef::Le),
            BytecodeDef::Ge => bytecode_of_text("Ge"@) == Ok::<BytecodeDef, BytecodeError>(BytecodeDef::Ge),
            BytecodeDef::Abort => bytecode_of_text("Abort"@) == Ok::<BytecodeDef, BytecodeError>(BytecodeDef::Abort),
            BytecodeDef::Nop => bytecode_of_text("Nop"@) == Ok::<BytecodeDef, BytecodeError>(BytecodeDef::Nop),
            _ => true,
        },
{
    lemma_no_param_names_spelled();
    lemma_instruction_name_is_word(b);
    match b {
        BytecodeDef::Pop => lemma_no_param_shape("Pop"@),
        BytecodeDef::Ret => lemma_no_param_shape("Ret"@),
        BytecodeDef::CastU8 => lemma_no_param_shape("CastU8"@),
        BytecodeDef::CastU16 => lemma_no_param_shape("CastU16"@),
        BytecodeDef::CastU32 => lemma_no_param_shape("CastU32"@),
        BytecodeDef::CastU64 => lemma_no_param_shape("CastU64"@),
        BytecodeDef::CastU128 => lemma_no_param_shape("CastU128"@),
        BytecodeDef::CastU256 => lemma_no_param_shape("CastU256"@),
        BytecodeDef::LdTrue => lemma_no_param_shape("LdTrue"@),
        BytecodeDef::LdFalse => lemma_no_param_shape("LdFalse"@),
        BytecodeDef::ReadRef => lemma_no_param_shape("ReadRef"@),
        BytecodeDef::WriteRef => lemma_no_param_shape("WriteRef"@),
        BytecodeDef::FreezeRef => lemma_no_param_shape("FreezeRef"@),
        BytecodeDef::Add => lemma_no_param_shape("Add"@),
        BytecodeDef::Sub => lemma_no_param_shape("Sub"@),
        BytecodeDef::Mul => lemma_no_param_shape("Mul"@),
        BytecodeDef::Mod => lemma_no_param_shape("Mod"@),
        BytecodeDef::Div => lemma_no_param_shape("Div"@),
        BytecodeDef::BitOr => lemma_no_param_shape("BitOr"@),
        BytecodeDef::BitAnd => lemma_no_param_shape("BitAnd"@),
        BytecodeDef::Xor => lemma_no_param_shape("Xor"@),
        BytecodeDef::Shl => lemma_no_param_shape("Shl"@),
        BytecodeDef::Shr => lemma_no_param_shape("Shr"@),
        BytecodeDef::Or => lemma_no_param_shape("Or"@),
        BytecodeDef::And => lemma_no_param_shape("And"@),
        BytecodeDef::Not => lemma_no_param_shape("Not"@),
        BytecodeDef::Eq => lemma_no_param_shape("Eq"@),
        BytecodeDef::Neq => lemma_no_param_shape("Neq"@),
        BytecodeDef::Lt => lemma_no_param_shape("Lt"@),
        BytecodeDef::Gt => lemma_no_param_shape("Gt"@),
        BytecodeDef::Le => lemma_no_param_shape("Le"@),
        BytecodeDef::Ge => lemma_no_param_shape("Ge"@),
        BytecodeDef::Abort => lemma_no_param_shape("Abort"@),
        BytecodeDef::Nop => lemma_no_param_shape("Nop"@),
        _ => {},
    }
}

/// Reading `Name(p)`, for the name of an instruction with one operand and a
/// numeral `p` below 2^128, gives that instruction with the number `p`
/// denotes, cut down to the operand's width.
#[verifier::spinoff_prover]
#[verifier::rlimit(60)]
pub proof fn lemma_read_one_operand(b: BytecodeDef, p: Seq<char>)
    requires
        p.len() > 0,
        all_ascii_digits(p),
        dec_value(p) < u128_bound(),
    ensures
        match b {
            BytecodeDef::BrTrue(..) => bytecode_of_text("BrTrue"@ + seq!['('] + p + seq![')']) == Ok::<
                BytecodeDef,
                BytecodeError,
            >(BytecodeDef::BrTrue((dec_value(p) as u128) as u16)),
            BytecodeDef::BrFalse(..) => bytecode_of_text("BrFalse"@ + seq!['('] + p + seq![')']) == Ok::<
                BytecodeDef,
                BytecodeError,
            >(BytecodeDef::BrFalse((dec_value(p) as u128) as u16)),
            BytecodeDef::Branch(..) => bytecode_of_text("Branch"@ + seq!['('] + p + seq![')']) == Ok::<
                BytecodeDef,
                BytecodeError,
            >(BytecodeDef::Branch((dec_value(p) as u128) as u16)),
            BytecodeDef::LdU8(..) => bytecode_of_text("LdU8"@ + seq!['('] + p + seq![')']) == Ok::<
                BytecodeDef,
                BytecodeError,
            >(BytecodeDef::LdU8((dec_value(p) as u128) as u8)),
            BytecodeDef::LdU16(..) => bytecode_of_text("LdU16"@ + seq!['('] + p + seq![')']) == Ok::<
                BytecodeDef,
                BytecodeError,
            >(BytecodeDef::LdU16((dec_value(p) as u128) as u16)),
            BytecodeDef::LdU32(..) => bytecode_of_text("LdU32"@ + seq!['('] + p + seq![')']) == Ok::<
                BytecodeDef,
                BytecodeError,
            >(BytecodeDef::LdU32((dec_value(p) as u128) as u32)),
            BytecodeDef::LdU64(..) => bytecode_of_text("LdU64"@ + seq!['('] + p + seq![')']) == Ok::<
                BytecodeDef,
                BytecodeError,
            >(BytecodeDef::LdU64((dec_value(p) as u128) as u64)),
            BytecodeDef::LdU128(..) => bytecode_of_text("LdU128"@ + seq!['('] + p + seq![')']) == Ok::<
                BytecodeDef,
                BytecodeError,
            >(BytecodeDef::LdU128(dec_value(p) as u128)),
            BytecodeDef::LdConst(..) => bytecode_of_text("LdConst"@ + seq!['('] + p + seq![')']) == Ok::<
                BytecodeDef,
                BytecodeError,
            >(BytecodeDef::LdConst((dec_value(p) as u128) as u16)),
            BytecodeDef::CopyLoc(..) => bytecode_of_text("CopyLoc"@ + seq!['('] + p + seq![')']) == Ok::<
                BytecodeDef,
                BytecodeError,
            >(BytecodeDef::CopyLoc((dec_value(p) as u128) as u8)),
            BytecodeDef::MoveLoc(..) => bytecode_of_text("MoveLoc"@ + seq!['('] + p + seq![')']) == Ok::<
                BytecodeDef,
                BytecodeError,
            >(BytecodeDef::MoveLoc((dec_value(p) as u128) as u8)),
            BytecodeDef::StLoc(..) => bytecode_of_text("StLoc"@ + seq!['('] + p + seq![')']) == Ok::<
                BytecodeDef,
                BytecodeError,
            >(BytecodeDef::StLoc((dec_value(p) as u128) as u8)),
            BytecodeDef::Call(..) => bytecode_of_text("Call"@ + seq!['('] + p + seq![')']) == Ok::<
                BytecodeDef,
                BytecodeError,
            >(BytecodeDef::Call((dec_value(p) as u128) as u16)),
            BytecodeDef::CallGeneric(..) => bytecode_of_text("CallGeneric"@ + seq!['('] + p + seq![')']) == Ok::<
                BytecodeDef,
                BytecodeError,
            >(BytecodeDef::CallGeneric((dec_value(p) as u128) as u16)),
            BytecodeDef::Pack(..) => bytecode_of_text("Pack"@ + seq!['('] + p + seq![')']) == Ok::<
                BytecodeDef,
                BytecodeError,
            >(BytecodeDef::Pack((dec_value(p) as u128) as u16)),
            BytecodeDef::PackGeneric(..) => bytecode_of_text("PackGeneric"@ + seq!['('] + p + seq![')']) == Ok::<
                BytecodeDef,
                BytecodeError,
            >(BytecodeDef::PackGeneric((dec_value(p) as u128) as u16)),
            BytecodeDef::PackVariant(..) => bytecode_of_text("PackVariant"@ + seq!['('] + p + seq![')']) == Ok::<
                BytecodeDef,
                BytecodeError,
            >(BytecodeDef::PackVariant((dec_value(p) as u128) as u16)),
            BytecodeDef::TestVariant(..) => bytecode_of_text("TestVariant"@ + seq!['('] + p + seq![')']) == Ok::<
                BytecodeDef,
                BytecodeError,
            >(BytecodeDef::TestVariant((dec_value(p) as u128) as u16)),
            BytecodeDef::PackVariantGeneric(..) => bytecode_of_text("PackVariantGeneric"@ + seq!['('] + p + seq![')']) == Ok::<
                BytecodeDef,
                BytecodeError,
            >(BytecodeDef::PackVariantGeneric((dec_value(p) as u128) as u16)),
            BytecodeDef::TestVariantGeneric(..) => bytecode_of_text("TestVariantGeneric"@ + seq!['('] + p + seq![')']) == Ok::<
                BytecodeDef,
                BytecodeError,
            >(BytecodeDef::TestVariantGeneric((dec_value(p) as u128) as u16)),
            BytecodeDef::Unpack(..) => bytecode_of_text("Unpack"@ + seq!['('] + p + seq![')']) == Ok::<
                BytecodeDef,
                BytecodeError,
            >(BytecodeDef::Unpack((dec_value(p) as u128) as u16)),
            BytecodeDef::UnpackGeneric(..) => bytecode_of_text("UnpackGeneric"@ + seq!['('] + p + seq![')']) == Ok::<
                BytecodeDef,
                BytecodeError,
            >(BytecodeDef::UnpackGeneric((dec_value(p) as u128) as u16)),
            BytecodeDef::UnpackVariant(..) => bytecode_of_text("UnpackVariant"@ + seq!['('] + p + seq![')']) == Ok::<
                BytecodeDef,
                BytecodeError,
            >(BytecodeDef::UnpackVariant((dec_value(p) as u128) as u16)),
            BytecodeDef::UnpackVariantGeneric(..) => bytecode_of_text("UnpackVariantGeneric"@ + seq!['('] + p + seq![')']) == Ok::<
                BytecodeDef,
                BytecodeError,
            >(BytecodeDef::UnpackVariantGeneric((dec_value(p) as u128) as u16)),
            BytecodeDef::MutBorrowLoc(..) => bytecode_of_text("MutBorrowLoc"@ + seq!['('] + p + seq![')']) == Ok::<
                BytecodeDef,
                BytecodeError,
            >(BytecodeDef::MutBorrowLoc((dec_value(p) as u128) as u8)),
            BytecodeDef::ImmBorrowLoc(..) => bytecode_of_text("ImmBorrowLoc"@ + seq!['('] + p + seq![')']) == Ok::<
                BytecodeDef,
                BytecodeError,
            >(BytecodeDef::ImmBorrowLoc((dec_value(p) as u128) as u8)),
            BytecodeDef::MutBorrowField(..) => bytecode_of_text("MutBorrowField"@ + seq!['('] + p + seq![')']) == Ok::<
                BytecodeDef,
                BytecodeError,
            >(BytecodeDef::MutBorrowField((dec_value(p) as u128) as u16)),
            BytecodeDef::MutBorrowFieldGeneric(..) => bytecode_of_text("MutBorrowFieldGeneric"@ + seq!['('] + p + seq![')']) == Ok::<
                BytecodeDef,
                BytecodeError,
            >(BytecodeDef::MutBorrowFieldGeneric((dec_value(p) as u128) as u16)),
            BytecodeDef::MutBorrowVariantField(..) => bytecode_of_text("MutBorrowVariantField"@ + seq!['('] + p + seq![')']) == Ok::<
                BytecodeDef,
                BytecodeError,
            >(BytecodeDef::MutBorrowVariantField((dec_value(p) as u128) as u16)),
            BytecodeDef::MutBorrowVariantFieldGeneric(..) => bytecode_of_text("MutBorrowVariantFieldGeneric"@ + seq!['('] + p + seq![')']) == Ok::<
                BytecodeDef,
                BytecodeError,
            >(BytecodeDef::MutBorrowVariantFieldGeneric((dec_value(p) as u128) as u16)),
            BytecodeDef::ImmBorrowField(..) => bytecode_of_text("ImmBorrowField"@ + seq!['('] + p + seq![')']) == Ok::<
                BytecodeDef,
                BytecodeError,
            >(BytecodeDef::ImmBorrowField((dec_value(p) as u128) as u16)),
            BytecodeDef::ImmBorrowFieldGeneric(..) => bytecode_of_text("ImmBorrowFieldGeneric"@ + seq!['('] + p + seq![')']) == Ok::<
                BytecodeDef,
                BytecodeError,
            >(BytecodeDef::ImmBorrowFieldGeneric((dec_value(p) as u128) as u16)),
            BytecodeDef::ImmBorrowVariantField(..) => bytecode_of_text("ImmBorrowVariantField"@ + seq!['('] + p + seq![')']) == Ok::<
                BytecodeDef,
                BytecodeError,
            >(BytecodeDef::ImmBorrowVariantField((dec_value(p) as u128) as u16)),
            BytecodeDef::ImmBorrowVariantFieldGeneric(..) => bytecode_of_text("ImmBorrowVariantFieldGeneric"@ + seq!['('] + p + seq![')']) == Ok::<
                BytecodeDef,
                BytecodeError,
            >(BytecodeDef::ImmBorrowVariantFieldGeneric((dec_value(p) as u128) as u16)),
            BytecodeDef::MutBorrowGlobal(..) => bytecode_of_text("MutBorrowGlobal"@ + seq!['('] + p + seq![')']) == Ok::<
                BytecodeDef,
                BytecodeError,
            >(BytecodeDef::MutBorrowGlobal((dec_value(p) as u128) as u16)),
            BytecodeDef::MutBorrowGlobalGeneric(..) => bytecode_of_text("MutBorrowGlobalGeneric"@ + seq!['('] + p + seq![')']) == Ok::<
                BytecodeDef,
                BytecodeError,
            >(BytecodeDef::MutBorrowGlobalGeneric((dec_value(p) as u128) as u16)),
            BytecodeDef::ImmBorrowGlobal(..) => bytecode_of_text("ImmBorrowGlobal"@ + seq!['('] + p + seq![')']) == Ok::<
                BytecodeDef,
                BytecodeError,
            >(BytecodeDef::ImmBorrowGlobal((dec_value(p) as u128) as u16)),
            BytecodeDef::ImmBorrowGlobalGeneric(..) => bytecode_of_text("ImmBorrowGlobalGeneric"@ + seq!['('] + p + seq![')']) == Ok::<
                BytecodeDef,
                BytecodeError,
            >(BytecodeDef::ImmBorrowGlobalGeneric((dec_value(p) as u128) as u16)),
            BytecodeDef::Exists(..) => bytecode_of_text("Exists"@ + seq!['('] + p + seq![')']) == Ok::<
                BytecodeDef,
                BytecodeError,
            >(BytecodeDef::Exists((dec_value(p) as u128) as u16)),
            BytecodeDef::ExistsGeneric(..) => bytecode_of_text("ExistsGeneric"@ + seq!['('] + p + seq![')']) == Ok::<
                BytecodeDef,
                BytecodeError,
            >(BytecodeDef::ExistsGeneric((dec_value(p) as u128) as u16)),
            BytecodeDef::MoveFrom(..) => bytecode_of_text("MoveFrom"@ + seq!['('] + p + seq![')']) == Ok::<
                BytecodeDef,
                BytecodeError,
            >(BytecodeDef::MoveFrom((dec_value(p) as u128) as u16)),
            BytecodeDef::MoveFromGeneric(..) => bytecode_of_text("MoveFromGeneric"@ + seq!['('] + p + seq![')']) == Ok::<
                BytecodeDef,
                BytecodeError,
            >(BytecodeDef::MoveFromGeneric((dec_value(p) as u128) as u16)),
            BytecodeDef::MoveTo(..) => bytecode_of_text("MoveTo"@ + seq!['('] + p + seq![')']) == Ok::<
                BytecodeDef,
                BytecodeError,
            >(BytecodeDef::MoveTo((dec_value(p) as u128) as u16)),
            BytecodeDef::MoveToGeneric(..) => bytecode_of_text("MoveToGeneric"@ + seq!['('] + p + seq![')']) == Ok::<
                BytecodeDef,
                BytecodeError,
            >(BytecodeDef::MoveToGeneric((dec_value(p) as u128) as u16)),
            BytecodeDef::VecLen(..) => bytecode_of_text("VecLen"@ + seq!['('] + p + seq![')']) == Ok::<
                BytecodeDef,
                BytecodeError,
            >(BytecodeDef::VecLen((dec_value(p) as u128) as u16)),
            BytecodeDef::VecImmBorrow(..) => bytecode_of_text("VecImmBorrow"@ + seq!['('] + p + seq![')']) == Ok::<
                BytecodeDef,
                BytecodeError,
            >(BytecodeDef::VecImmBorrow((dec_value(p) as u128) as u16)),
            BytecodeDef::VecMutBorrow(..) => bytecode_of_text("VecMutBorrow"@ + seq!['('] + p + seq![')']) == Ok::<
                BytecodeDef,
                BytecodeError,
            >(BytecodeDef::VecMutBorrow((dec_value(p) as u128) as u16)),
            BytecodeDef::VecPushBack(..) => bytecode_of_text("VecPushBack"@ + seq!['('] + p + seq![')']) == Ok::<
                BytecodeDef,
                BytecodeError,
            >(BytecodeDef::VecPushBack((dec_value(p) as u128) as u16)),
            BytecodeDef::VecPopBack(..) => bytecode_of_text("VecPopBack"@ + seq!['('] + p + seq![')']) == Ok::<
                BytecodeDef,
                BytecodeError,
            >(BytecodeDef::VecPopBack((dec_value(p) as u128) as u16)),
            BytecodeDef::VecSwap(..) => bytecode_of_text("VecSwap"@ + seq!['('] + p + seq![')']) == Ok::<
                BytecodeDef,
                BytecodeError,
            >(BytecodeDef::VecSwap((dec_value(p) as u128) as u16)),
            _ => true,
        },
{
    lemma_one_param_names_spelled();
    lemma_instruction_name_is_word(b);
    match b {
        BytecodeDef::BrTrue(..) => lemma_read_named_operand("BrTrue"@, p),
        BytecodeDef::BrFalse(..) => lemma_read_named_operand("BrFalse"@, p),
        BytecodeDef::Branch(..) => lemma_read_named_operand("Branch"@, p),
        BytecodeDef::LdU8(..) => lemma_read_named_operand("LdU8"@, p),
        BytecodeDef::LdU16(..) => lemma_read_named_operand("LdU16"@, p),
        BytecodeDef::LdU32(..) => lemma_read_named_operand("LdU32"@, p),
        BytecodeDef::LdU64(..) => lemma_read_named_operand("LdU64"@, p),
        BytecodeDef::LdU128(..) => lemma_read_named_operand("LdU128"@, p),
        BytecodeDef::LdConst(..) => lemma_read_named_operand("LdConst"@, p),
        BytecodeDef::CopyLoc(..) => lemma_read_named_operand("CopyLoc"@, p),
        BytecodeDef::MoveLoc(..) => lemma_read_named_operand("MoveLoc"@, p),
        BytecodeDef::StLoc(..) => lemma_read_named_operand("StLoc"@, p),
        BytecodeDef::Call(..) => lemma_read_named_operand("Call"@, p),
        BytecodeDef::CallGeneric(..) => lemma_read_named_operand("CallGeneric"@, p),
        BytecodeDef::Pack(..) => lemma_read_named_operand("Pack"@, p),
        BytecodeDef::PackGeneric(..) => lemma_read_named_operand("PackGeneric"@, p),
        BytecodeDef::PackVariant(..) => lemma_read_named_operand("PackVariant"@, p),
        BytecodeDef::TestVariant(..) => lemma_read_named_operand("TestVariant"@, p),
        BytecodeDef::PackVariantGeneric(..) => lemma_read_named_operand("PackVariantGeneric"@, p),
        BytecodeDef::TestVariantGeneric(..) => lemma_read_named_operand("TestVariantGeneric"@, p),
        BytecodeDef::Unpack(..) => lemma_read_named_operand("Unpack"@, p),
        BytecodeDef::UnpackGeneric(..) => lemma_read_named_operand("UnpackGeneric"@, p),
        BytecodeDef::UnpackVariant(..) => lemma_read_named_operand("UnpackVariant"@, p),
        BytecodeDef::UnpackVariantGeneric(..) => lemma_read_named_operand("UnpackVariantGeneric"@, p),
        BytecodeDef::MutBorrowLoc(..) => lemma_read_named_operand("MutBorrowLoc"@, p),
        BytecodeDef::ImmBorrowLoc(..) => lemma_read_named_operand("ImmBorrowLoc"@, p),
        BytecodeDef::MutBorrowField(..) => lemma_read_named_operand("MutBorrowField"@, p),
        BytecodeDef::MutBorrowFieldGeneric(..) => lemma_read_named_operand("MutBorrowFieldGeneric"@, p),
        BytecodeDef::MutBorrowVariantField(..) => lemma_read_named_operand("MutBorrowVariantField"@, p),
        BytecodeDef::MutBorrowVariantFieldGeneric(..) => lemma_read_named_operand("MutBorrowVariantFieldGeneric"@, p),
        BytecodeDef::ImmBorrowField(..) => lemma_read_named_operand("ImmBorrowField"@, p),
        BytecodeDef::ImmBorrowFieldGeneric(..) => lemma_read_named_operand("ImmBorrowFieldGeneric"@, p),
        BytecodeDef::ImmBorrowVariantField(..) => lemma_read_named_operand("ImmBorrowVariantField"@, p),
        BytecodeDef::ImmBorrowVariantFieldGeneric(..) => lemma_read_named_operand("ImmBorrowVariantFieldGeneric"@, p),
        BytecodeDef::MutBorrowGlobal(..) => lemma_read_named_operand("MutBorrowGlobal"@, p),
        BytecodeDef::MutBorrowGlobalGeneric(..) => lemma_read_named_operand("MutBorrowGlobalGeneric"@, p),
        BytecodeDef::ImmBorrowGlobal(..) => lemma_read_named_operand("ImmBorrowGlobal"@, p),
        BytecodeDef::ImmBorrowGlobalGeneric(..) => lemma_read_named_operand("ImmBorrowGlobalGeneric"@, p),
        BytecodeDef::Exists(..) => lemma_read_named_operand("Exists"@, p),
        BytecodeDef::ExistsGeneric(..) => lemma_read_named_operand("ExistsGeneric"@, p),
        BytecodeDef::MoveFrom(..) => lemma_read_named_operand("MoveFrom"@, p),
        BytecodeDef::MoveFromGeneric(..) => lemma_read_named_operand("MoveFromGeneric"@, p),
        BytecodeDef::MoveTo(..) => lemma_read_named_operand("MoveTo"@, p),
        BytecodeDef::MoveToGeneric(..) => lemma_read_named_operand("MoveToGeneric"@, p),
        BytecodeDef::VecLen(..) => lemma_read_named_operand("VecLen"@, p),
        BytecodeDef::VecImmBorrow(..) => lemma_read_named_operand("VecImmBorrow"@, p),
        BytecodeDef::VecMutBorrow(..) => lemma_read_named_operand("VecMutBorrow"@, p),
        BytecodeDef::VecPushBack(..) => lemma_read_named_operand("VecPushBack"@, p),
        BytecodeDef::VecPopBack(..) => lemma_read_named_operand("VecPopBack"@, p),
        BytecodeDef::VecSwap(..) => lemma_read_named_operand("VecSwap"@, p),
        _ => {},
    }
}

proof fn lemma_read_named_operand(name: Seq<char>, p: Seq<char>)
    requires
        name.len() > 0,
        all_in_class(name, CharClass::Word),
        name != "LdU256"@,
        p.len() > 0,
        all_ascii_digits(p),
        dec_value(p) < u128_bound(),
    ensures
        bytecode_of_text(name + seq!['('] + p + seq![')']) == match one_param_instruction(
            name,
            dec_value(p) as u128,
        ) {
            Some(b) => Ok::<BytecodeDef, BytecodeError>(b),
            None => Err(BytecodeError::UnknownOneParam),
        },
{
    lemma_one_param_shape(name, p);
}

/// Reading `LdU256(p)`, for a numeral `p` below 2^256, gives `LdU256` with
/// the number `p` denotes: its high 128 bits, then its low 128 bits.
pub proof fn lemma_read_u256_operand(p: Seq<char>)
    requires
        p.len() > 0,
        all_ascii_digits(p),
        dec_value(p) < u256_bound(),
    ensures
        bytecode_of_text("LdU256"@ + seq!['('] + p + seq![')']) matches Ok(BytecodeDef::LdU256(v))
            && v.hi == dec_value(p) / u128_bound() && v.lo == dec_value(p) % u128_bound(),
{
    lemma_one_param_names_spelled();
    lemma_instruction_name_is_word(BytecodeDef::LdU256(U256Def { hi: 0, lo: 0 }));
    lemma_one_param_shape("LdU256"@, p);
    let n = dec_value(p);
    let b = u128_bound();
    vstd::arithmetic::div_mod::lemma_fundamental_div_mod(n as int, b as int);
    assert(n / b < b) by (nonlinear_arith)
        requires
            n < b * b,
            b > 0,
    ;
}

/// Reading `Name(p1, p2)`, for the name of an instruction with two operands
/// and numerals below 2^64, gives that instruction with the numbers they
/// denote, the first cut down to 16 bits.
pub proof fn lemma_read_two_operands(b: BytecodeDef, p1: Seq<char>, p2: Seq<char>)
    requires
        p1.len() > 0,
        all_ascii_digits(p1),
        dec_value(p1) < u64_bound(),
        p2.len() > 0,
        all_ascii_digits(p2),
        dec_value(p2) < u64_bound(),
    ensures
        match b {
            BytecodeDef::VecPack(..) => bytecode_of_text(
                "VecPack"@ + seq!['('] + p1 + seq![',', ' '] + p2 + seq![')'],
            ) == Ok::<BytecodeDef, BytecodeError>(
                BytecodeDef::VecPack((dec_value(p1) as u64) as u16, dec_value(p2) as u64),
            ),
            BytecodeDef::VecUnpack(..) => bytecode_of_text(
                "VecUnpack"@ + seq!['('] + p1 + seq![',', ' '] + p2 + seq![')'],
            ) == Ok::<BytecodeDef, BytecodeError>(
                BytecodeDef::VecUnpack((dec_value(p1) as u64) as u16, dec_value(p2) as u64),
            ),
            _ => true,
        },
{
    lemma_two_param_names_spelled();
    lemma_instruction_name_is_word(b);
    match b {
        BytecodeDef::VecPack(..) => lemma_two_param_shape("VecPack"@, p1, p2),
        BytecodeDef::VecUnpack(..) => lemma_two_param_shape("VecUnpack"@, p1, p2),
        _ => {},
    }
}


proof fn lemma_no_param_instruction_named(op: Seq<char>)
    ensures
        no_param_instruction(op) matches Some(b) ==> instruction_name(b) == op
            && instruction_operands(b) is Nothing,
{
}

proof fn lemma_one_param_instruction_named(op: Seq<char>, v: u128)
    ensures
        one_param_instruction(op, v) matches Some(b) ==> instruction_name(b) == op
            && instruction_operands(b) is One,
{
}

proof fn lemma_two_param_instruction_named(op: Seq<char>, a: u64, c: u64)
    ensures
        two_param_instruction(op, a, c) matches Some(b) ==> instruction_name(b) == op
            && instruction_operands(b) is Two,
{
}

/// A lone word that names no instruction without operands is refused as such.
pub proof fn lemma_read_unknown_word(name: Seq<char>)
    requires
        name.len() > 0,
        all_in_class(name, CharClass::Word),
        forall|b: BytecodeDef|
            #[trigger] instruction_operands(b) is Nothing ==> instruction_name(b) != name,
    ensures
        bytecode_of_text(name) == Err::<BytecodeDef, BytecodeError>(BytecodeError::UnknownNoParam),
{
    lemma_no_param_shape(name);
    lemma_no_param_instruction_named(name);
}

/// `Name(p)`, for a numeral `p` below 2^128 and a word other than `LdU256`
/// that names no instruction with one operand, is refused as an unknown
/// instruction with one operand.
pub proof fn lemma_read_unknown_one_operand(name: Seq<char>, p: Seq<char>)
    requires
        name.len() > 0,
        all_in_class(name, CharClass::Word),
        name != "LdU256"@,
        forall|b: BytecodeDef|
            #[trigger] instruction_operands(b) is One ==> instruction_name(b) != name,
        p.len() > 0,
        all_ascii_digits(p),
        dec_value(p) < u128_bound(),
    ensures
        bytecode_of_text(name + seq!['('] + p + seq![')']) == Err::<BytecodeDef, BytecodeError>(
            BytecodeError::UnknownOneParam,
        ),
{
    lemma_one_param_shape(name, p);
    lemma_one_param_instruction_named(name, dec_value(p) as u128);
}

/// `Name(p)`, for any word other than `LdU256` and a numeral `p` of 2^128 or
/// more, is refused for its operand, whatever the word.
pub proof fn lemma_read_operand_over_u128(name: Seq<char>, p: Seq<char>)
    requires
        name.len() > 0,
        all_in_class(name, CharClass::Word),
        name != "LdU256"@,
        p.len() > 0,
        all_ascii_digits(p),
        dec_value(p) >= u128_bound(),
    ensures
        bytecode_of_text(name + seq!['('] + p + seq![')']) == Err::<BytecodeDef, BytecodeError>(
            BytecodeError::ParamNotU128,
        ),
{
    lemma_one_param_shape(name, p);
}

/// `LdU256(p)`, for a numeral `p` of 2^256 or more, is refused for its operand.
pub proof fn lemma_read_operand_over_u256(p: Seq<char>)
    requires
        p.len() > 0,
        all_ascii_digits(p),
        dec_value(p) >= u256_bound(),
    ensures
        bytecode_of_text("LdU256"@ + seq!['('] + p + seq![')']) == Err::<BytecodeDef, BytecodeError>(
            BytecodeError::ParamNotU256,
        ),
{
    lemma_one_param_names_spelled();
    lemma_instruction_name_is_word(BytecodeDef::LdU256(U256Def { hi: 0, lo: 0 }));
    lemma_one_param_shape("LdU256"@, p);
}

/// `Name(p1, p2)` is refused for its first operand when that is 2^64 or
/// more, else for its second when that is; with both below 2^64 and a word
/// that names no instruction with two operands, it is refused as an unknown
/// instruction with two operands.
pub proof fn lemma_read_two_operands_refused(name: Seq<char>, p1: Seq<char>, p2: Seq<char>)
    requires
        name.len() > 0,
        all_in_class(name, CharClass::Word),
        p1.len() > 0,
        all_ascii_digits(p1),
        p2.len() > 0,
        all_ascii_digits(p2),
    ensures
        ({
            let s = name + seq!['('] + p1 + seq![',', ' '] + p2 + seq![')'];
            &&& dec_value(p1) >= u64_bound() ==> bytecode_of_text(s) == Err::<
                BytecodeDef,
                BytecodeError,
            >(BytecodeError::FirstParamNotU64)
            &&& dec_value(p1) < u64_bound() && dec_value(p2) >= u64_bound() ==> bytecode_of_text(s)
                == Err::<BytecodeDef, BytecodeError>(BytecodeError::SecondParamNotU64)
            &&& dec_value(p1) < u64_bound() && dec_value(p2) < u64_bound() && (forall|
                b: BytecodeDef,
            |
                #[trigger] instruction_operands(b) is Two ==> instruction_name(b) != name)
                ==> bytecode_of_text(s) == Err::<BytecodeDef, BytecodeError>(
                BytecodeError::UnknownTwoParams,
            )
        }),
{
    lemma_two_param_shape(name, p1, p2);
    lemma_two_param_instruction_named(name, dec_value(p1) as u64, dec_value(p2) as u64);
}

} // verus!
