//! A plain-value model of compiled Move modules and scripts.
//!
//! Every table index of the binary format is the `u16` it holds, every
//! ability set the `u8` of its bits, an identifier its `String` and an account
//! address its 32 bytes. Instructions are [`BytecodeDef`]s.
use crate::bytecode::BytecodeDef;
use vstd::prelude::*;

verus! {

#[derive(Clone, Copy, Debug, PartialEq, Eq)]
pub struct ModuleHandleDef {
    pub address: u16,
    pub name: u16,
}

/// A type parameter of a struct: its ability constraints and whether it is phantom.
#[derive(Clone, Copy, Debug, PartialEq, Eq)]
pub struct StructTypeParameterDef {
    pub constraints: u8,
    pub is_phantom: bool,
}

#[derive(Clone, Debug, PartialEq, Eq)]
pub struct StructHandleDef {
    pub module: u16,
    pub name: u16,
    pub abilities: u8,
    pub type_parameters: Vec<StructTypeParameterDef>,
}

#[derive(Clone, Copy, Debug, PartialEq, Eq)]
pub enum AccessKindDef {
    Reads,
    Writes,
    Acquires,
}

#[derive(Clone, Copy, Debug, PartialEq, Eq)]
pub enum ResourceSpecifierDef {
    Any,
    DeclaredAtAddress(u16),
    DeclaredInModule(u16),
    Resource(u16),
    ResourceInstantiation(u16, u16),
}

#[derive(Clone, Copy, Debug, PartialEq, Eq)]
pub enum AddressSpecifierDef {
    Any,
    Literal(u16),
    /// A parameter of the function, and the instantiation of the function
    /// that maps it to an address.
    Parameter(u8, Option<u16>),
}

#[derive(Clone, Copy, Debug, PartialEq, Eq)]
pub struct AccessSpecifierDef {
    pub kind: AccessKindDef,
    pub negated: bool,
    pub resource: ResourceSpecifierDef,
    pub address: AddressSpecifierDef,
}

#[derive(Clone, Debug, PartialEq, Eq)]
pub struct FunctionHandleDef {
    pub module: u16,
    pub name: u16,
    pub parameters: u16,
    pub return_: u16,
    pub type_parameters: Vec<u8>,
    pub access_specifiers: Option<Vec<AccessSpecifierDef>>,
}

#[derive(Clone, Copy, Debug, PartialEq, Eq)]
pub struct FunctionInstantiationDef {
    pub handle: u16,
    pub type_parameters: u16,
}

#[derive(Debug, PartialEq, Eq)]
pub enum SignatureTokenDef {
    Bool,
    U8,
    U64,
    U128,
    Address,
    Signer,
    Vector(Box<SignatureTokenDef>),
    Struct(u16),
    StructInstantiation(u16, Vec<SignatureTokenDef>),
    Reference(Box<SignatureTokenDef>),
    MutableReference(Box<SignatureTokenDef>),
    TypeParameter(u16),
    U16,
    U32,
    U256,
}

#[derive(Debug, PartialEq, Eq)]
pub struct ConstantDef {
    pub type_: SignatureTokenDef,
    pub data: Vec<u8>,
}

#[derive(Clone, Debug, PartialEq, Eq)]
pub struct MetadataDef {
    pub key: Vec<u8>,
    pub value: Vec<u8>,
}

#[derive(Clone, Debug, PartialEq, Eq)]
pub struct CodeUnitDef {
    pub locals: u16,
    pub code: Vec<BytecodeDef>,
}

#[derive(Clone, Copy, Debug, PartialEq, Eq)]
pub struct FieldHandleDef {
    pub owner: u16,
    pub field: u16,
}

#[derive(Clone, Copy, Debug, PartialEq, Eq)]
pub struct StructDefInstantiationDef {
    pub def: u16,
    pub type_parameters: u16,
}

#[derive(Clone, Copy, Debug, PartialEq, Eq)]
pub struct FieldInstantiationDef {
    pub handle: u16,
    pub type_parameters: u16,
}

#[derive(Clone, Copy, Debug, PartialEq, Eq)]
pub struct StructVariantHandleDef {
    pub struct_index: u16,
    pub variant: u16,
}

#[derive(Clone, Copy, Debug, PartialEq, Eq)]
pub struct StructVariantInstantiationDef {
    pub handle: u16,
    pub type_parameters: u16,
}

#[derive(Clone, Debug, PartialEq, Eq)]
pub struct VariantFieldHandleDef {
    pub struct_index: u16,
    pub variants: Vec<u16>,
    pub field: u16,
}

#[derive(Clone, Copy, Debug, PartialEq, Eq)]
pub struct VariantFieldInstantiationDef {
    pub handle: u16,
    pub type_parameters: u16,
}

#[derive(Debug, PartialEq, Eq)]
pub struct FieldDefinitionDef {
    pub name: u16,
    pub signature: SignatureTokenDef,
}

#[derive(Debug, PartialEq, Eq)]
pub struct VariantDefinitionDef {
    pub name: u16,
    pub fields: Vec<FieldDefinitionDef>,
}

#[derive(Debug, PartialEq, Eq)]
pub enum StructFieldInformationDef {
    Native,
    Declared(Vec<FieldDefinitionDef>),
    DeclaredVariants(Vec<VariantDefinitionDef>),
}

#[derive(Debug, PartialEq, Eq)]
pub struct StructDefinitionDef {
    pub struct_handle: u16,
    pub field_information: StructFieldInformationDef,
}

#[derive(Clone, Copy, Debug, PartialEq, Eq)]
pub enum VisibilityDef {
    Private,
    Public,
    Friend,
}

#[derive(Clone, Debug, PartialEq, Eq)]
pub struct FunctionDefinitionDef {
    pub function: u16,
    pub visibility: VisibilityDef,
    pub is_entry: bool,
    pub acquires_global_resources: Vec<u16>,
    pub code: Option<CodeUnitDef>,
}

/// A compiled script.
#[derive(Debug, PartialEq, Eq)]
pub struct CompiledScriptDef {
    pub version: u32,
    pub module_handles: Vec<ModuleHandleDef>,
    pub struct_handles: Vec<StructHandleDef>,
    pub function_handles: Vec<FunctionHandleDef>,
    pub function_instantiations: Vec<FunctionInstantiationDef>,
    pub signatures: Vec<Vec<SignatureTokenDef>>,
    pub identifiers: Vec<String>,
    pub address_identifiers: Vec<[u8; 32]>,
    pub constant_pool: Vec<ConstantDef>,
    pub metadata: Vec<MetadataDef>,
    pub code: CodeUnitDef,
    pub type_parameters: Vec<u8>,
    pub parameters: u16,
}

/// A compiled module.
#[derive(Debug, PartialEq, Eq)]
pub struct CompiledModuleDef {
    pub version: u32,
    pub self_module_handle_idx: u16,
    pub module_handles: Vec<ModuleHandleDef>,
    pub struct_handles: Vec<StructHandleDef>,
    pub function_handles: Vec<FunctionHandleDef>,
    pub field_handles: Vec<FieldHandleDef>,
    pub friend_decls: Vec<ModuleHandleDef>,
    pub struct_def_instantiations: Vec<StructDefInstantiationDef>,
    pub function_instantiations: Vec<FunctionInstantiationDef>,
    pub field_instantiations: Vec<FieldInstantiationDef>,
    pub signatures: Vec<Vec<SignatureTokenDef>>,
    pub identifiers: Vec<String>,
    pub address_identifiers: Vec<[u8; 32]>,
    pub constant_pool: Vec<ConstantDef>,
    pub metadata: Vec<MetadataDef>,
    pub struct_defs: Vec<StructDefinitionDef>,
    pub function_defs: Vec<FunctionDefinitionDef>,
    pub struct_variant_handles: Vec<StructVariantHandleDef>,
    pub struct_variant_instantiations: Vec<StructVariantInstantiationDef>,
    pub variant_field_handles: Vec<VariantFieldHandleDef>,
    pub variant_field_instantiations: Vec<VariantFieldInstantiationDef>,
}

} // verus!
