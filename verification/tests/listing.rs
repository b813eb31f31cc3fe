use move_assembler::bytecode::{BytecodeDef, BytecodeError};
use move_assembler::listing::{
    assemble_module, assemble_script, disassemble_module, disassemble_script, list_address_specifier,
    list_code, read_address_specifier, read_code, AddressSpecifierListing, CodeUnitListing,
    FunctionDefinitionListing,
};
use move_assembler::model::{
    AccessKindDef, AccessSpecifierDef, AddressSpecifierDef, CodeUnitDef, CompiledModuleDef,
    CompiledScriptDef, ConstantDef, FunctionDefinitionDef, FunctionHandleDef, MetadataDef,
    ModuleHandleDef, ResourceSpecifierDef, SignatureTokenDef, StructDefinitionDef,
    StructFieldInformationDef, StructHandleDef, StructTypeParameterDef, FieldDefinitionDef,
    VisibilityDef,
};

fn function_handle(access: Option<Vec<AccessSpecifierDef>>) -> FunctionHandleDef {
    FunctionHandleDef {
        module: 0,
        name: 1,
        parameters: 0,
        return_: 1,
        type_parameters: vec![3],
        access_specifiers: access,
    }
}

fn sample_access() -> Vec<AccessSpecifierDef> {
    vec![
        AccessSpecifierDef {
            kind: AccessKindDef::Reads,
            negated: false,
            resource: ResourceSpecifierDef::Resource(0),
            address: AddressSpecifierDef::Parameter(1, Some(2)),
        },
        AccessSpecifierDef {
            kind: AccessKindDef::Writes,
            negated: true,
            resource: ResourceSpecifierDef::Any,
            address: AddressSpecifierDef::Literal(0),
        },
    ]
}

fn sample_code() -> Vec<BytecodeDef> {
    vec![
        BytecodeDef::CopyLoc(0),
        BytecodeDef::LdU64(1),
        BytecodeDef::Add,
        BytecodeDef::VecPack(2, 3),
        BytecodeDef::BrFalse(6),
        BytecodeDef::Ret,
    ]
}

fn sample_module(metadata: Vec<MetadataDef>) -> CompiledModuleDef {
    CompiledModuleDef {
        version: 7,
        self_module_handle_idx: 0,
        module_handles: vec![ModuleHandleDef { address: 0, name: 0 }],
        struct_handles: vec![StructHandleDef {
            module: 0,
            name: 2,
            abilities: 0x3,
            type_parameters: vec![StructTypeParameterDef { constraints: 1, is_phantom: true }],
        }],
        function_handles: vec![function_handle(Some(sample_access())), function_handle(None)],
        field_handles: vec![],
        friend_decls: vec![],
        struct_def_instantiations: vec![],
        function_instantiations: vec![],
        field_instantiations: vec![],
        signatures: vec![vec![], vec![SignatureTokenDef::U64, SignatureTokenDef::Vector(Box::new(SignatureTokenDef::U8))]],
        identifiers: vec!["m".to_string(), "f".to_string(), "S".to_string()],
        address_identifiers: vec![[1u8; 32]],
        constant_pool: vec![ConstantDef { type_: SignatureTokenDef::U64, data: vec![1, 0, 0, 0, 0, 0, 0, 0] }],
        metadata,
        struct_defs: vec![StructDefinitionDef {
            struct_handle: 0,
            field_information: StructFieldInformationDef::Declared(vec![FieldDefinitionDef {
                name: 2,
                signature: SignatureTokenDef::Bool,
            }]),
        }],
        function_defs: vec![
            FunctionDefinitionDef {
                function: 0,
                visibility: VisibilityDef::Public,
                is_entry: true,
                acquires_global_resources: vec![0],
                code: Some(CodeUnitDef { locals: 1, code: sample_code() }),
            },
            FunctionDefinitionDef {
                function: 1,
                visibility: VisibilityDef::Private,
                is_entry: false,
                acquires_global_resources: vec![],
                code: None,
            },
        ],
        struct_variant_handles: vec![],
        struct_variant_instantiations: vec![],
        variant_field_handles: vec![],
        variant_field_instantiations: vec![],
    }
}

fn sample_script(metadata: Vec<MetadataDef>) -> CompiledScriptDef {
    CompiledScriptDef {
        version: 6,
        module_handles: vec![ModuleHandleDef { address: 0, name: 0 }],
        struct_handles: vec![],
        function_handles: vec![function_handle(Some(sample_access()))],
        function_instantiations: vec![],
        signatures: vec![vec![]],
        identifiers: vec!["main".to_string()],
        address_identifiers: vec![[0u8; 32]],
        constant_pool: vec![],
        metadata,
        code: CodeUnitDef { locals: 0, code: sample_code() },
        type_parameters: vec![],
        parameters: 0,
    }
}

#[test]
fn code_is_listed_line_by_line() {
    let texts = list_code(&sample_code());
    assert_eq!(texts, vec!["CopyLoc(0)", "LdU64(1)", "Add", "VecPack(2, 3)", "BrFalse(6)", "Ret"]);
    assert_eq!(read_code(&texts).unwrap(), sample_code());
}

#[test]
fn reading_code_stops_at_the_first_bad_line() {
    let texts: Vec<String> = vec!["Pop".into(), "Frob".into(), "LdU8(1, 2)".into()];
    let e = read_code(&texts).unwrap_err();
    assert_eq!(e.instruction, "Frob");
    assert_eq!(e.reason, BytecodeError::UnknownNoParam);
    let texts: Vec<String> = vec!["Pop".into(), "LdU8(1, 2)".into(), "Frob".into()];
    let e = read_code(&texts).unwrap_err();
    assert_eq!(e.instruction, "LdU8(1, 2)");
    assert_eq!(e.reason, BytecodeError::UnknownTwoParams);
    assert_eq!(read_code(&vec![]).unwrap(), vec![]);
}

#[test]
fn module_roundtrip() {
    let md = vec![MetadataDef { key: vec![1, 2], value: vec![1, 2] }];
    let listing = disassemble_module(sample_module(md.clone()));
    assert_eq!(listing.function_defs[0].code.as_ref().unwrap().code[3], "VecPack(2, 3)");
    assert_eq!(listing.function_handles[0].access_specifiers.as_ref().unwrap()[0].address,
        AddressSpecifierListing::Parameter(1, Some(2)));
    let back = assemble_module(listing).unwrap();
    assert_eq!(back, sample_module(md));
}

#[test]
fn listing_keeps_metadata_keys_and_values() {
    let md = vec![MetadataDef { key: vec![1], value: vec![2] }, MetadataDef { key: vec![1, 2], value: vec![9] }];
    let listing = disassemble_module(sample_module(md.clone()));
    assert_eq!(listing.metadata, md);
    let back = assemble_module(listing).unwrap();
    assert_eq!(back, sample_module(md.clone()));
    let back = assemble_script(disassemble_script(sample_script(md.clone()))).unwrap();
    assert_eq!(back, sample_script(md));
}

#[test]
fn script_roundtrip() {
    let listing = disassemble_script(sample_script(vec![]));
    assert_eq!(listing.code.code.len(), 6);
    let back = assemble_script(listing).unwrap();
    assert_eq!(back, sample_script(vec![]));
}

#[test]
fn module_assembly_reports_the_first_bad_line_in_function_order() {
    let mut listing = disassemble_module(sample_module(vec![]));
    listing.function_defs[1].code = Some(CodeUnitListing { locals: 0, code: vec!["Oops(1)".into()] });
    listing.function_defs.push(FunctionDefinitionListing {
        function: 0,
        visibility: VisibilityDef::Friend,
        is_entry: false,
        acquires_global_resources: vec![],
        code: Some(CodeUnitListing { locals: 0, code: vec!["LdU8(99999999999999999999999999999999999999999)".into()] }),
    });
    let e = assemble_module(listing).unwrap_err();
    assert_eq!(e.instruction, "Oops(1)");
    assert_eq!(e.reason, BytecodeError::UnknownOneParam);
}

#[test]
fn script_assembly_reports_a_bad_operand() {
    let mut listing = disassemble_script(sample_script(vec![]));
    listing.code.code[2] = "LdU256(1157920892373161954235709850086879078532699846656405640394575840079131296399360)".into();
    let e = assemble_script(listing).unwrap_err();
    assert_eq!(e.reason, BytecodeError::ParamNotU256);
}

#[test]
fn instantiation_indexes_are_read_as_16_bits() {
    assert_eq!(read_address_specifier(AddressSpecifierListing::Parameter(3, Some(70000))),
        AddressSpecifierDef::Parameter(3, Some(4464)));
    assert_eq!(read_address_specifier(AddressSpecifierListing::Parameter(3, None)),
        AddressSpecifierDef::Parameter(3, None));
    assert_eq!(list_address_specifier(AddressSpecifierDef::Parameter(3, Some(65535))),
        AddressSpecifierListing::Parameter(3, Some(65535)));
    assert_eq!(read_address_specifier(list_address_specifier(AddressSpecifierDef::Literal(9))),
        AddressSpecifierDef::Literal(9));
}
