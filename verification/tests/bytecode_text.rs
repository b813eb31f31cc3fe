use move_assembler::bytecode::{BytecodeDef, BytecodeError, Operands};
use move_assembler::u256::U256Def;

fn every_instruction() -> Vec<(BytecodeDef, &'static str)> {
    vec![
        (BytecodeDef::Pop, "Pop"),
        (BytecodeDef::Ret, "Ret"),
        (BytecodeDef::BrTrue(65535), "BrTrue(65535)"),
        (BytecodeDef::BrFalse(65535), "BrFalse(65535)"),
        (BytecodeDef::Branch(65535), "Branch(65535)"),
        (BytecodeDef::LdU8(200), "LdU8(200)"),
        (BytecodeDef::LdU64(18446744073709551615), "LdU64(18446744073709551615)"),
        (BytecodeDef::LdU128(340282366920938463463374607431768211455), "LdU128(340282366920938463463374607431768211455)"),
        (BytecodeDef::CastU8, "CastU8"),
        (BytecodeDef::CastU64, "CastU64"),
        (BytecodeDef::CastU128, "CastU128"),
        (BytecodeDef::LdConst(65535), "LdConst(65535)"),
        (BytecodeDef::LdTrue, "LdTrue"),
        (BytecodeDef::LdFalse, "LdFalse"),
        (BytecodeDef::CopyLoc(200), "CopyLoc(200)"),
        (BytecodeDef::MoveLoc(200), "MoveLoc(200)"),
        (BytecodeDef::StLoc(200), "StLoc(200)"),
        (BytecodeDef::Call(65535), "Call(65535)"),
        (BytecodeDef::CallGeneric(65535), "CallGeneric(65535)"),
        (BytecodeDef::Pack(65535), "Pack(65535)"),
        (BytecodeDef::PackGeneric(65535), "PackGeneric(65535)"),
        (BytecodeDef::PackVariant(65535), "PackVariant(65535)"),
        (BytecodeDef::PackVariantGeneric(65535), "PackVariantGeneric(65535)"),
        (BytecodeDef::Unpack(65535), "Unpack(65535)"),
        (BytecodeDef::UnpackGeneric(65535), "UnpackGeneric(65535)"),
        (BytecodeDef::UnpackVariant(65535), "UnpackVariant(65535)"),
        (BytecodeDef::UnpackVariantGeneric(65535), "UnpackVariantGeneric(65535)"),
        (BytecodeDef::TestVariant(65535), "TestVariant(65535)"),
        (BytecodeDef::TestVariantGeneric(65535), "TestVariantGeneric(65535)"),
        (BytecodeDef::ReadRef, "ReadRef"),
        (BytecodeDef::WriteRef, "WriteRef"),
        (BytecodeDef::FreezeRef, "FreezeRef"),
        (BytecodeDef::MutBorrowLoc(200), "MutBorrowLoc(200)"),
        (BytecodeDef::ImmBorrowLoc(200), "ImmBorrowLoc(200)"),
        (BytecodeDef::MutBorrowField(65535), "MutBorrowField(65535)"),
        (BytecodeDef::MutBorrowVariantField(65535), "MutBorrowVariantField(65535)"),
        (BytecodeDef::MutBorrowFieldGeneric(65535), "MutBorrowFieldGeneric(65535)"),
        (BytecodeDef::MutBorrowVariantFieldGeneric(65535), "MutBorrowVariantFieldGeneric(65535)"),
        (BytecodeDef::ImmBorrowField(65535), "ImmBorrowField(65535)"),
        (BytecodeDef::ImmBorrowVariantField(65535), "ImmBorrowVariantField(65535)"),
        (BytecodeDef::ImmBorrowFieldGeneric(65535), "ImmBorrowFieldGeneric(65535)"),
        (BytecodeDef::ImmBorrowVariantFieldGeneric(65535), "ImmBorrowVariantFieldGeneric(65535)"),
        (BytecodeDef::MutBorrowGlobal(65535), "MutBorrowGlobal(65535)"),
        (BytecodeDef::MutBorrowGlobalGeneric(65535), "MutBorrowGlobalGeneric(65535)"),
        (BytecodeDef::ImmBorrowGlobal(65535), "ImmBorrowGlobal(65535)"),
        (BytecodeDef::ImmBorrowGlobalGeneric(65535), "ImmBorrowGlobalGeneric(65535)"),
        (BytecodeDef::Add, "Add"),
        (BytecodeDef::Sub, "Sub"),
        (BytecodeDef::Mul, "Mul"),
        (BytecodeDef::Mod, "Mod"),
        (BytecodeDef::Div, "Div"),
        (BytecodeDef::BitOr, "BitOr"),
        (BytecodeDef::BitAnd, "BitAnd"),
        (BytecodeDef::Xor, "Xor"),
        (BytecodeDef::Or, "Or"),
        (BytecodeDef::And, "And"),
        (BytecodeDef::Not, "Not"),
        (BytecodeDef::Eq, "Eq"),
        (BytecodeDef::Neq, "Neq"),
        (BytecodeDef::Lt, "Lt"),
        (BytecodeDef::Gt, "Gt"),
        (BytecodeDef::Le, "Le"),
        (BytecodeDef::Ge, "Ge"),
        (BytecodeDef::Abort, "Abort"),
        (BytecodeDef::Nop, "Nop"),
        (BytecodeDef::Exists(65535), "Exists(65535)"),
        (BytecodeDef::ExistsGeneric(65535), "ExistsGeneric(65535)"),
        (BytecodeDef::MoveFrom(65535), "MoveFrom(65535)"),
        (BytecodeDef::MoveFromGeneric(65535), "MoveFromGeneric(65535)"),
        (BytecodeDef::MoveTo(65535), "MoveTo(65535)"),
        (BytecodeDef::MoveToGeneric(65535), "MoveToGeneric(65535)"),
        (BytecodeDef::Shl, "Shl"),
        (BytecodeDef::Shr, "Shr"),
        (BytecodeDef::VecPack(7, 18446744073709551615), "VecPack(7, 18446744073709551615)"),
        (BytecodeDef::VecLen(65535), "VecLen(65535)"),
        (BytecodeDef::VecImmBorrow(65535), "VecImmBorrow(65535)"),
        (BytecodeDef::VecMutBorrow(65535), "VecMutBorrow(65535)"),
        (BytecodeDef::VecPushBack(65535), "VecPushBack(65535)"),
        (BytecodeDef::VecPopBack(65535), "VecPopBack(65535)"),
        (BytecodeDef::VecUnpack(7, 18446744073709551615), "VecUnpack(7, 18446744073709551615)"),
        (BytecodeDef::VecSwap(65535), "VecSwap(65535)"),
        (BytecodeDef::LdU16(65535), "LdU16(65535)"),
        (BytecodeDef::LdU32(4000000000), "LdU32(4000000000)"),
        (BytecodeDef::LdU256(U256Def { hi: 1, lo: 0 }), "LdU256(340282366920938463463374607431768211456)"),
        (BytecodeDef::CastU16, "CastU16"),
        (BytecodeDef::CastU32, "CastU32"),
        (BytecodeDef::CastU256, "CastU256"),
    ]
}

#[test]
fn every_instruction_is_written_as_its_name_and_operands() {
    for (b, text) in every_instruction() {
        assert_eq!(b.to_text(), text);
    }
}

#[test]
fn every_instruction_reads_back_from_its_text() {
    let all = every_instruction();
    assert_eq!(all.len(), 87);
    for (b, _) in all {
        assert_eq!(BytecodeDef::from_text(&b.to_text()), Ok(b));
    }
}

#[test]
fn instructions_without_operands() {
    assert_eq!(BytecodeDef::from_text("Pop"), Ok(BytecodeDef::Pop));
    assert_eq!(BytecodeDef::from_text("CastU256"), Ok(BytecodeDef::CastU256));
    assert_eq!(BytecodeDef::from_text("Nop"), Ok(BytecodeDef::Nop));
    assert_eq!(BytecodeDef::Nop.operands(), Operands::Nothing);
    assert_eq!(BytecodeDef::Nop.name(), "Nop");
}

#[test]
fn unknown_names_by_shape() {
    assert_eq!(BytecodeDef::from_text("Foo"), Err(BytecodeError::UnknownNoParam));
    assert_eq!(BytecodeDef::from_text("pop"), Err(BytecodeError::UnknownNoParam));
    assert_eq!(BytecodeDef::from_text("LdU8"), Err(BytecodeError::UnknownNoParam));
    assert_eq!(BytecodeDef::from_text("Foo(1)"), Err(BytecodeError::UnknownOneParam));
    assert_eq!(BytecodeDef::from_text("Pop(1)"), Err(BytecodeError::UnknownOneParam));
    assert_eq!(BytecodeDef::from_text("Foo(1, 2)"), Err(BytecodeError::UnknownTwoParams));
    assert_eq!(BytecodeDef::from_text("LdU8(1, 2)"), Err(BytecodeError::UnknownTwoParams));
}

#[test]
fn texts_of_no_shape() {
    for text in ["", "Pop ", " Pop", "LdU8()", "LdU8(1", "LdU8(-1)", "LdU8(+1)", "VecPack(1,2)",
        "VecPack(1 ,2)", "VecPack(1, 2, 3)", "(1)", "Ld U8(1)", "LdU8(0x10)", "LdU8(1)\n"] {
        assert_eq!(BytecodeDef::from_text(text), Err(BytecodeError::NoMatch), "{:?}", text);
    }
}

#[test]
fn operands_are_cut_down_to_their_width() {
    assert_eq!(BytecodeDef::from_text("LdU8(300)"), Ok(BytecodeDef::LdU8(44)));
    assert_eq!(BytecodeDef::from_text("BrTrue(65537)"), Ok(BytecodeDef::BrTrue(1)));
    assert_eq!(BytecodeDef::from_text("CopyLoc(256)"), Ok(BytecodeDef::CopyLoc(0)));
    assert_eq!(BytecodeDef::from_text("LdU32(4294967297)"), Ok(BytecodeDef::LdU32(1)));
    assert_eq!(BytecodeDef::from_text("VecPack(70000, 2)"), Ok(BytecodeDef::VecPack(4464, 2)));
}

#[test]
fn leading_zeros_and_wide_spacing_are_read() {
    assert_eq!(BytecodeDef::from_text("LdU8(007)"), Ok(BytecodeDef::LdU8(7)));
    assert_eq!(BytecodeDef::from_text("VecUnpack(1,\t  2)"), Ok(BytecodeDef::VecUnpack(1, 2)));
    assert_eq!(BytecodeDef::from_text("VecUnpack(1,\n2)"), Ok(BytecodeDef::VecUnpack(1, 2)));
}

#[test]
fn operands_out_of_range() {
    assert_eq!(
        BytecodeDef::from_text("LdU128(340282366920938463463374607431768211456)"),
        Err(BytecodeError::ParamNotU128)
    );
    assert_eq!(
        BytecodeDef::from_text("Foo(340282366920938463463374607431768211456)"),
        Err(BytecodeError::ParamNotU128)
    );
    assert_eq!(
        BytecodeDef::from_text("VecPack(18446744073709551616, 1)"),
        Err(BytecodeError::FirstParamNotU64)
    );
    assert_eq!(
        BytecodeDef::from_text("VecPack(1, 18446744073709551616)"),
        Err(BytecodeError::SecondParamNotU64)
    );
    assert_eq!(
        BytecodeDef::from_text("Foo(18446744073709551616, 1)"),
        Err(BytecodeError::FirstParamNotU64)
    );
}

#[test]
fn u256_operands() {
    let max = "LdU256(115792089237316195423570985008687907853269984665640564039457584007913129639935)";
    let v = U256Def { hi: u128::MAX, lo: u128::MAX };
    assert_eq!(BytecodeDef::from_text(max), Ok(BytecodeDef::LdU256(v)));
    assert_eq!(BytecodeDef::LdU256(v).to_text(), max);
    assert_eq!(
        BytecodeDef::from_text(
            "LdU256(115792089237316195423570985008687907853269984665640564039457584007913129639936)"
        ),
        Err(BytecodeError::ParamNotU256)
    );
    assert_eq!(BytecodeDef::from_text("LdU256(0)"), Ok(BytecodeDef::LdU256(U256Def::from_u128(0))));
    assert_eq!(BytecodeDef::LdU256(U256Def::from_u128(0)).to_text(), "LdU256(0)");
    assert_eq!(
        BytecodeDef::LdU256(U256Def { hi: 1, lo: 5 }).to_text(),
        "LdU256(340282366920938463463374607431768211461)"
    );
    assert_eq!(BytecodeDef::LdU256(U256Def::from_u128(12345)).operands(), Operands::Wide(U256Def { hi: 0, lo: 12345 }));
}

#[test]
fn unicode_classes_follow_the_regex_crate() {
    // 'ö' is a word character, so the text has the shape of a lone word.
    assert_eq!(BytecodeDef::from_text("P\u{f6}p"), Err(BytecodeError::UnknownNoParam));
    // ARABIC-INDIC DIGIT THREE is a digit in the pattern but not for `parse`.
    assert_eq!(BytecodeDef::from_text("LdU8(\u{663})"), Err(BytecodeError::ParamNotU128));
    assert_eq!(BytecodeDef::from_text("LdU256(\u{663})"), Err(BytecodeError::ParamNotU256));
    // IDEOGRAPHIC SPACE is white space.
    assert_eq!(BytecodeDef::from_text("VecPack(1,\u{3000}2)"), Ok(BytecodeDef::VecPack(1, 2)));
    // A right arrow is not a word character.
    assert_eq!(BytecodeDef::from_text("Ld\u{2192}"), Err(BytecodeError::NoMatch));
    // A dash is neither a word character nor a digit.
    assert_eq!(BytecodeDef::from_text("Ld-U8(1)"), Err(BytecodeError::NoMatch));
}

#[test]
fn written_operands_are_decimal() {
    assert_eq!(BytecodeDef::LdU8(0).to_text(), "LdU8(0)");
    assert_eq!(BytecodeDef::Branch(10).to_text(), "Branch(10)");
    assert_eq!(BytecodeDef::VecPack(3, 2).to_text(), "VecPack(3, 2)");
    assert_eq!(BytecodeDef::LdU128(u128::MAX).to_text(), "LdU128(340282366920938463463374607431768211455)");
}
