//! Assembly listings: a module or script whose instructions are lines of text.
//!
//! Disassembling writes each instruction as its text
//! ([`BytecodeDef::to_text`]); assembling reads each line back
//! ([`BytecodeDef::from_text`]) and stops at the first line that is not an
//! instruction. One further difference between a module and its listing comes
//! from the listing format itself: the instantiation index of an address
//! parameter is read as a 32-bit number and cut down to 16 bits.
use crate::bytecode::{BytecodeDef, BytecodeError, bytecode_of_text, instruction_text, lemma_text_roundtrip};
use crate::model::{
    AccessKindDef, AccessSpecifierDef, AddressSpecifierDef, CodeUnitDef, CompiledModuleDef,
    CompiledScriptDef, ConstantDef, FieldHandleDef, FieldInstantiationDef, FunctionDefinitionDef,
    FunctionHandleDef, FunctionInstantiationDef, MetadataDef, ModuleHandleDef,
    ResourceSpecifierDef, SignatureTokenDef, StructDefInstantiationDef, StructDefinitionDef,
    StructHandleDef, StructVariantHandleDef, StructVariantInstantiationDef, VariantFieldHandleDef,
    VariantFieldInstantiationDef, VisibilityDef,
};
use vstd::prelude::*;

verus! {

// ---------------------------------------------------------------------------
// Listing types

#[derive(Clone, Copy, Debug, PartialEq, Eq)]
pub enum AddressSpecifierListing {
    Any,
    Literal(u16),
    Parameter(u8, Option<u32>),
}

#[derive(Clone, Copy, Debug, PartialEq, Eq)]
pub struct AccessSpecifierListing {
    pub kind: AccessKindDef,
    pub negated: bool,
    pub resource: ResourceSpecifierDef,
    pub address: AddressSpecifierListing,
}

#[derive(Clone, Debug, PartialEq, Eq)]
pub struct FunctionHandleListing {
    pub module: u16,
    pub name: u16,
    pub parameters: u16,
    pub return_: u16,
    pub type_parameters: Vec<u8>,
    pub access_specifiers: Option<Vec<AccessSpecifierListing>>,
}

/// A code unit whose instructions are lines of text.
#[derive(Clone, Debug, PartialEq, Eq)]
pub struct CodeUnitListing {
    pub locals: u16,
    pub code: Vec<String>,
}

#[derive(Clone, Debug, PartialEq, Eq)]
pub struct FunctionDefinitionListing {
    pub function: u16,
    pub visibility: VisibilityDef,
    pub is_entry: bool,
    pub acquires_global_resources: Vec<u16>,
    pub code: Option<CodeUnitListing>,
}

/// The listing of a compiled script.
#[derive(Debug, PartialEq, Eq)]
pub struct CompiledScriptListing {
    pub version: u32,
    pub module_handles: Vec<ModuleHandleDef>,
    pub struct_handles: Vec<StructHandleDef>,
    pub function_handles: Vec<FunctionHandleListing>,
    pub function_instantiations: Vec<FunctionInstantiationDef>,
    pub signatures: Vec<Vec<SignatureTokenDef>>,
    pub identifiers: Vec<String>,
    pub address_identifiers: Vec<[u8; 32]>,
    pub constant_pool: Vec<ConstantDef>,
    pub metadata: Vec<MetadataDef>,
    pub code: CodeUnitListing,
    pub type_parameters: Vec<u8>,
    pub parameters: u16,
}

/// The listing of a compiled module.
#[derive(Debug, PartialEq, Eq)]
pub struct CompiledModuleListing {
    pub version: u32,
    pub self_module_handle_idx: u16,
    pub module_handles: Vec<ModuleHandleDef>,
    pub struct_handles: Vec<StructHandleDef>,
    pub function_handles: Vec<FunctionHandleListing>,
    pub field_handles: Vec<FieldHandleDef>,
    pub friend_decls: Vec<ModuleHandleDef>,
    pub struct_def_instantiations: Vec<StructDefInstantiationDef>,
    pub function_instantiations: Vec<FunctionInstantiationDef>,
    pub field_instantiations: Vec<FieldInstantiationDef>,
    pub signatures: Vec<Vec<SignatureTokenDef>>,
    pub identifiers: Vec<String>,
    pub address_identifiers: Vec<[u8; 32]>,
    pub constant_pool: Vec<ConstantDef>,
    pub metadata: Vec<MetadataDef>,
    pub struct_defs: Vec<StructDefinitionDef>,
    pub function_defs: Vec<FunctionDefinitionListing>,
    pub struct_variant_handles: Vec<StructVariantHandleDef>,
    pub struct_variant_instantiations: Vec<StructVariantInstantiationDef>,
    pub variant_field_handles: Vec<VariantFieldHandleDef>,
    pub variant_field_instantiations: Vec<VariantFieldInstantiationDef>,
}

/// The first line of a listing that is not an instruction, and why.
#[derive(Clone, Debug, PartialEq, Eq)]
pub struct AssembleError {
    pub instruction: String,
    pub reason: BytecodeError,
}

// ---------------------------------------------------------------------------
// Access specifiers

pub open spec fn address_specifier_listed(a: AddressSpecifierDef) -> AddressSpecifierListing {
    match a {
        AddressSpecifierDef::Any => AddressSpecifierListing::Any,
        AddressSpecifierDef::Literal(i) => AddressSpecifierListing::Literal(i),
        AddressSpecifierDef::Parameter(p, f) => AddressSpecifierListing::Parameter(
            p,
            match f {
                Some(v) => Some(v as u32),
                None => None,
            },
        ),
    }
}

/// Reading an address specifier cuts the instantiation index down to 16 bits.
pub open spec fn address_specifier_read(a: AddressSpecifierListing) -> AddressSpecifierDef {
    match a {
        AddressSpecifierListing::Any => AddressSpecifierDef::Any,
        AddressSpecifierListing::Literal(i) => AddressSpecifierDef::Literal(i),
        AddressSpecifierListing::Parameter(p, f) => AddressSpecifierDef::Parameter(
            p,
            match f {
                Some(v) => Some(v as u16),
                None => None,
            },
        ),
    }
}

pub open spec fn access_specifier_listed(a: AccessSpecifierDef) -> AccessSpecifierListing {
    AccessSpecifierListing {
        kind: a.kind,
        negated: a.negated,
        resource: a.resource,
        address: address_specifier_listed(a.address),
    }
}

pub open spec fn access_specifier_read(a: AccessSpecifierListing) -> AccessSpecifierDef {
    AccessSpecifierDef {
        kind: a.kind,
        negated: a.negated,
        resource: a.resource,
        address: address_specifier_read(a.address),
    }
}

pub fn list_address_specifier(a: AddressSpecifierDef) -> (r: AddressSpecifierListing)
    ensures
        r == address_specifier_listed(a),
{
    match a {
        AddressSpecifierDef::Any => AddressSpecifierListing::Any,
        AddressSpecifierDef::Literal(i) => AddressSpecifierListing::Literal(i),
        AddressSpecifierDef::Parameter(p, f) => AddressSpecifierListing::Parameter(
            p,
            match f {
                Some(v) => Some(v as u32),
                None => None,
            },
        ),
    }
}

pub fn read_address_specifier(a: AddressSpecifierListing) -> (r: AddressSpecifierDef)
    ensures
        r == address_specifier_read(a),
{
    match a {
        AddressSpecifierListing::Any => AddressSpecifierDef::Any,
        AddressSpecifierListing::Literal(i) => AddressSpecifierDef::Literal(i),
        AddressSpecifierListing::Parameter(p, f) => AddressSpecifierDef::Parameter(
            p,
            match f {
                Some(v) => Some(v as u16),
                None => None,
            },
        ),
    }
}

/// `l` lists the access specifiers `a`, one for one.
pub open spec fn access_specifiers_listed(
    a: Option<Vec<AccessSpecifierDef>>,
    l: Option<Vec<AccessSpecifierListing>>,
) -> bool {
    match (a, l) {
        (None, None) => true,
        (Some(a), Some(l)) => l@.len() == a@.len() && forall|i: int|
            0 <= i < a@.len() ==> l@[i] == access_specifier_listed(#[trigger] a@[i]),
        _ => false,
    }
}

/// `a` reads the listed access specifiers `l`, one for one.
pub open spec fn access_specifiers_read(
    l: Option<Vec<AccessSpecifierListing>>,
    a: Option<Vec<AccessSpecifierDef>>,
) -> bool {
    match (l, a) {
        (None, None) => true,
        (Some(l), Some(a)) => a@.len() == l@.len() && forall|i: int|
            0 <= i < l@.len() ==> a@[i] == access_specifier_read(#[trigger] l@[i]),
        _ => false,
    }
}

fn list_access_specifiers(a: &Option<Vec<AccessSpecifierDef>>) -> (r: Option<
    Vec<AccessSpecifierListing>,
>)
    ensures
        access_specifiers_listed(*a, r),
{
    match a {
        None => None,
        Some(v) => {
            let mut out: Vec<AccessSpecifierListing> = Vec::new();
            for i in 0..v.len()
                invariant
                    out@.len() == i,
                    forall|t: int| 0 <= t < i ==> out@[t] == access_specifier_listed(#[trigger] v@[t]),
            {
                let s = v[i];
                out.push(
                    AccessSpecifierListing {
                        kind: s.kind,
                        negated: s.negated,
                        resource: s.resource,
                        address: list_address_specifier(s.address),
                    },
                );
            }
            Some(out)
        },
    }
}

fn read_access_specifiers(l: &Option<Vec<AccessSpecifierListing>>) -> (r: Option<
    Vec<AccessSpecifierDef>,
>)
    ensures
        access_specifiers_read(*l, r),
{
    match l {
        None => None,
        Some(v) => {
            let mut out: Vec<AccessSpecifierDef> = Vec::new();
            for i in 0..v.len()
                invariant
                    out@.len() == i,
                    forall|t: int| 0 <= t < i ==> out@[t] == access_specifier_read(#[trigger] v@[t]),
            {
                let s = v[i];
                out.push(
                    AccessSpecifierDef {
                        kind: s.kind,
                        negated: s.negated,
                        resource: s.resource,
                        address: read_address_specifier(s.address),
                    },
                );
            }
            Some(out)
        },
    }
}

// ---------------------------------------------------------------------------
// Function handles

pub open spec fn function_handle_listed(h: FunctionHandleDef, l: FunctionHandleListing) -> bool {
    &&& l.module == h.module
    &&& l.name == h.name
    &&& l.parameters == h.parameters
    &&& l.return_ == h.return_
    &&& l.type_parameters@ == h.type_parameters@
    &&& access_specifiers_listed(h.access_specifiers, l.access_specifiers)
}

pub open spec fn function_handle_read(l: FunctionHandleListing, h: FunctionHandleDef) -> bool {
    &&& h.module == l.module
    &&& h.name == l.name
    &&& h.parameters == l.parameters
    &&& h.return_ == l.return_
    &&& h.type_parameters@ == l.type_parameters@
    &&& access_specifiers_read(l.access_specifiers, h.access_specifiers)
}

pub open spec fn function_handles_listed(
    hs: Seq<FunctionHandleDef>,
    ls: Seq<FunctionHandleListing>,
) -> bool {
    ls.len() == hs.len() && forall|i: int|
        0 <= i < hs.len() ==> function_handle_listed(#[trigger] hs[i], ls[i])
}

pub open spec fn function_handles_read(
    ls: Seq<FunctionHandleListing>,
    hs: Seq<FunctionHandleDef>,
) -> bool {
    hs.len() == ls.len() && forall|i: int|
        0 <= i < ls.len() ==> function_handle_read(#[trigger] ls[i], hs[i])
}

fn copy_bytes(v: &Vec<u8>) -> (r: Vec<u8>)
    ensures
        r@ == v@,
{
    let r = v.clone();
    assert(r@ =~= v@);
    r
}

fn copy_indexes(v: &Vec<u16>) -> (r: Vec<u16>)
    ensures
        r@ == v@,
{
    let r = v.clone();
    assert(r@ =~= v@);
    r
}

pub fn list_function_handles(hs: &Vec<FunctionHandleDef>) -> (r: Vec<FunctionHandleListing>)
    ensures
        function_handles_listed(hs@, r@),
{
    let mut out: Vec<FunctionHandleListing> = Vec::new();
    for i in 0..hs.len()
        invariant
            out@.len() == i,
            forall|t: int| 0 <= t < i ==> function_handle_listed(#[trigger] hs@[t], out@[t]),
    {
        let h = &hs[i];
        out.push(
            FunctionHandleListing {
                module: h.module,
                name: h.name,
                parameters: h.parameters,
                return_: h.return_,
                type_parameters: copy_bytes(&h.type_parameters),
                access_specifiers: list_access_specifiers(&h.access_specifiers),
            },
        );
    }
    out
}

pub fn read_function_handles(ls: &Vec<FunctionHandleListing>) -> (r: Vec<FunctionHandleDef>)
    ensures
        function_handles_read(ls@, r@),
{
    let mut out: Vec<FunctionHandleDef> = Vec::new();
    for i in 0..ls.len()
        invariant
            out@.len() == i,
            forall|t: int| 0 <= t < i ==> function_handle_read(#[trigger] ls@[t], out@[t]),
    {
        let l = &ls[i];
        out.push(
            FunctionHandleDef {
                module: l.module,
                name: l.name,
                parameters: l.parameters,
                return_: l.return_,
                type_parameters: copy_bytes(&l.type_parameters),
                access_specifiers: read_access_specifiers(&l.access_specifiers),
            },
        );
    }
    out
}

// ---------------------------------------------------------------------------
// Code

/// `texts` lists the instructions `code`, one line for each.
pub open spec fn code_listed(code: Seq<BytecodeDef>, texts: Seq<String>) -> bool {
    texts.len() == code.len() && forall|i: int|
        0 <= i < code.len() ==> (#[trigger] texts[i])@ == instruction_text(code[i])
}

/// `code` holds the instructions that the lines `texts` denote.
pub open spec fn code_read(texts: Seq<String>, code: Seq<BytecodeDef>) -> bool {
    code.len() == texts.len() && forall|i: int|
        0 <= i < texts.len() ==> bytecode_of_text((#[trigger] texts[i])@) == Ok::<
            BytecodeDef,
            BytecodeError,
        >(code[i])
}

/// The first line of `texts`, from line `i` on, that is not an instruction, and why.
pub open spec fn first_bad_line(texts: Seq<String>, i: int) -> Option<(int, BytecodeError)>
    decreases texts.len() - i,
{
    if i < 0 || i >= texts.len() {
        None
    } else {
        match bytecode_of_text(texts[i]@) {
            Err(e) => Some((i, e)),
            Ok(_) => first_bad_line(texts, i + 1),
        }
    }
}

/// Lines that are all instructions do not move the first bad line.
pub proof fn lemma_first_bad_line_skip(texts: Seq<String>, a: int, b: int)
    requires
        0 <= a <= b <= texts.len(),
        forall|t: int| a <= t < b ==> bytecode_of_text((#[trigger] texts[t])@) is Ok,
    ensures
        first_bad_line(texts, a) == first_bad_line(texts, b),
    decreases b - a,
{
    if a < b {
        lemma_first_bad_line_skip(texts, a + 1, b);
    }
}

/// Assembling stops at the first bad line: the line it reports is not an
/// instruction, and every line before it is; when it reports none, every line
/// is an instruction.
pub proof fn lemma_first_bad_line(texts: Seq<String>, i: int)
    requires
        0 <= i <= texts.len(),
    ensures
        first_bad_line(texts, i) is None ==> forall|t: int|
            i <= t < texts.len() ==> bytecode_of_text((#[trigger] texts[t])@) is Ok,
        first_bad_line(texts, i) matches Some((j, e)) ==> i <= j < texts.len()
            && bytecode_of_text(texts[j]@) == Err::<BytecodeDef, BytecodeError>(e)
            && forall|t: int| i <= t < j ==> bytecode_of_text((#[trigger] texts[t])@) is Ok,
    decreases texts.len() - i,
{
    if i < texts.len() {
        lemma_first_bad_line(texts, i + 1);
    }
}

pub fn list_code(code: &Vec<BytecodeDef>) -> (r: Vec<String>)
    ensures
        code_listed(code@, r@),
{
    let mut out: Vec<String> = Vec::new();
    for i in 0..code.len()
        invariant
            out@.len() == i,
            forall|t: int| 0 <= t < i ==> (#[trigger] out@[t])@ == instruction_text(code@[t]),
    {
        out.push(code[i].to_text());
    }
    out
}

pub fn read_code(texts: &Vec<String>) -> (r: Result<Vec<BytecodeDef>, AssembleError>)
    ensures
        r is Ok <==> first_bad_line(texts@, 0) is None,
        r matches Ok(code) ==> code_read(texts@, code@),
        r matches Err(e) ==> (first_bad_line(texts@, 0) matches Some((j, reason)) && e.reason
            == reason && e.instruction@ == texts@[j]@),
{
    let mut out: Vec<BytecodeDef> = Vec::new();
    for i in 0..texts.len()
        invariant
            out@.len() == i,
            forall|t: int|
                0 <= t < i ==> bytecode_of_text((#[trigger] texts@[t])@) == Ok::<
                    BytecodeDef,
                    BytecodeError,
                >(out@[t]),
    {
        match BytecodeDef::from_text(texts[i].as_str()) {
            Ok(b) => {
                out.push(b);
            },
            Err(e) => {
                proof {
                    lemma_first_bad_line_skip(texts@, 0, i as int);
                }
                return Err(AssembleError { instruction: texts[i].clone(), reason: e });
            },
        }
    }
    proof {
        lemma_first_bad_line_skip(texts@, 0, texts@.len() as int);
    }
    Ok(out)
}

// ---------------------------------------------------------------------------
// Code units and function definitions

pub open spec fn code_unit_listed(c: CodeUnitDef, l: CodeUnitListing) -> bool {
    l.locals == c.locals && code_listed(c.code@, l.code@)
}

pub open spec fn code_unit_read(l: CodeUnitListing, c: CodeUnitDef) -> bool {
    c.locals == l.locals && code_read(l.code@, c.code@)
}

pub fn list_code_unit(c: &CodeUnitDef) -> (r: CodeUnitListing)
    ensures
        code_unit_listed(*c, r),
{
    CodeUnitListing { locals: c.locals, code: list_code(&c.code) }
}

pub fn read_code_unit(l: &CodeUnitListing) -> (r: Result<CodeUnitDef, AssembleError>)
    ensures
        r is Ok <==> first_bad_line(l.code@, 0) is None,
        r matches Ok(c) ==> code_unit_read(*l, c),
        r matches Err(e) ==> (first_bad_line(l.code@, 0) matches Some((j, reason)) && e.reason
            == reason && e.instruction@ == l.code@[j]@),
{
    match read_code(&l.code) {
        Ok(code) => Ok(CodeUnitDef { locals: l.locals, code }),
        Err(e) => Err(e),
    }
}

pub open spec fn function_def_listed(d: FunctionDefinitionDef, l: FunctionDefinitionListing) -> bool {
    &&& l.function == d.function
    &&& l.visibility == d.visibility
    &&& l.is_entry == d.is_entry
    &&& l.acquires_global_resources@ == d.acquires_global_resources@
    &&& match (d.code, l.code) {
        (None, None) => true,
        (Some(c), Some(u)) => code_unit_listed(c, u),
        _ => false,
    }
}

pub open spec fn function_def_read(l: FunctionDefinitionListing, d: FunctionDefinitionDef) -> bool {
    &&& d.function == l.function
    &&& d.visibility == l.visibility
    &&& d.is_entry == l.is_entry
    &&& d.acquires_global_resources@ == l.acquires_global_resources@
    &&& match (l.code, d.code) {
        (None, None) => true,
        (Some(u), Some(c)) => code_unit_read(u, c),
        _ => false,
    }
}

pub open spec fn function_defs_listed(
    ds: Seq<FunctionDefinitionDef>,
    ls: Seq<FunctionDefinitionListing>,
) -> bool {
    ls.len() == ds.len() && forall|i: int|
        0 <= i < ds.len() ==> function_def_listed(#[trigger] ds[i], ls[i])
}

pub open spec fn function_defs_read(
    ls: Seq<FunctionDefinitionListing>,
    ds: Seq<FunctionDefinitionDef>,
) -> bool {
    ds.len() == ls.len() && forall|i: int|
        0 <= i < ls.len() ==> function_def_read(#[trigger] ls[i], ds[i])
}

/// The first bad line of the function definitions from the `i`-th on: the
/// index of the function, of the line in its code, and why.
pub open spec fn first_bad_function(ls: Seq<FunctionDefinitionListing>, i: int) -> Option<
    (int, int, BytecodeError),
>
    decreases ls.len() - i,
{
    if i < 0 || i >= ls.len() {
        None
    } else {
        match ls[i].code {
            Some(u) => match first_bad_line(u.code@, 0) {
                Some((j, e)) => Some((i, j, e)),
                None => first_bad_function(ls, i + 1),
            },
            None => first_bad_function(ls, i + 1),
        }
    }
}

/// Every line of the code of `l`, if it has code, is an instruction.
pub open spec fn code_lines_are_instructions(l: FunctionDefinitionListing) -> bool {
    match l.code {
        Some(u) => first_bad_line(u.code@, 0) is None,
        None => true,
    }
}

pub proof fn lemma_first_bad_function_skip(ls: Seq<FunctionDefinitionListing>, a: int, b: int)
    requires
        0 <= a <= b <= ls.len(),
        forall|t: int|
            a <= t < b ==> code_lines_are_instructions(#[trigger] ls[t]),
    ensures
        first_bad_function(ls, a) == first_bad_function(ls, b),
    decreases b - a,
{
    if a < b {
        lemma_first_bad_function_skip(ls, a + 1, b);
    }
}

/// Assembling function definitions stops at the first bad line of the first
/// function whose code has one: the function and line it reports hold a line
/// that is not an instruction, every earlier line of that function's code is
/// an instruction, and so is every line of every function before it; when it
/// reports none, every line of every function's code is an instruction.
pub proof fn lemma_first_bad_function(ls: Seq<FunctionDefinitionListing>, i: int)
    requires
        0 <= i <= ls.len(),
    ensures
        first_bad_function(ls, i) is None ==> forall|t: int, k: int|
            #![trigger ls[t].code.unwrap().code@[k]]
            i <= t < ls.len() && ls[t].code is Some && 0 <= k < ls[t].code.unwrap().code@.len()
                ==> bytecode_of_text(ls[t].code.unwrap().code@[k]@) is Ok,
        first_bad_function(ls, i) matches Some((f, j, e)) ==> {
            &&& i <= f < ls.len()
            &&& ls[f].code is Some
            &&& 0 <= j < ls[f].code.unwrap().code@.len()
            &&& bytecode_of_text(ls[f].code.unwrap().code@[j]@) == Err::<BytecodeDef, BytecodeError>(
                e,
            )
            &&& forall|k: int|
                #![trigger ls[f].code.unwrap().code@[k]]
                0 <= k < j ==> bytecode_of_text(ls[f].code.unwrap().code@[k]@) is Ok
            &&& forall|t: int, k: int|
                #![trigger ls[t].code.unwrap().code@[k]]
                i <= t < f && ls[t].code is Some && 0 <= k < ls[t].code.unwrap().code@.len()
                    ==> bytecode_of_text(ls[t].code.unwrap().code@[k]@) is Ok
        },
    decreases ls.len() - i,
{
    if i < ls.len() {
        lemma_first_bad_function(ls, i + 1);
        match ls[i].code {
            Some(u) => {
                lemma_first_bad_line(u.code@, 0);
            },
            None => {},
        }
    }
}

pub fn list_function_defs(ds: &Vec<FunctionDefinitionDef>) -> (r: Vec<FunctionDefinitionListing>)
    ensures
        function_defs_listed(ds@, r@),
{
    let mut out: Vec<FunctionDefinitionListing> = Vec::new();
    for i in 0..ds.len()
        invariant
            out@.len() == i,
            forall|t: int| 0 <= t < i ==> function_def_listed(#[trigger] ds@[t], out@[t]),
    {
        let d = &ds[i];
        let code = match &d.code {
            Some(c) => Some(list_code_unit(c)),
            None => None,
        };
        out.push(
            FunctionDefinitionListing {
                function: d.function,
                visibility: d.visibility,
                is_entry: d.is_entry,
                acquires_global_resources: copy_indexes(&d.acquires_global_resources),
                code,
            },
        );
    }
    out
}

pub fn read_function_defs(ls: &Vec<FunctionDefinitionListing>) -> (r: Result<
    Vec<FunctionDefinitionDef>,
    AssembleError,
>)
    ensures
        r is Ok <==> first_bad_function(ls@, 0) is None,
        r matches Ok(ds) ==> function_defs_read(ls@, ds@),
        r matches Err(e) ==> (first_bad_function(ls@, 0) matches Some((i, j, reason)) && e.reason
            == reason && e.instruction@ == ls@[i].code.unwrap().code@[j]@),
{
    let mut out: Vec<FunctionDefinitionDef> = Vec::new();
    for i in 0..ls.len()
        invariant
            out@.len() == i,
            forall|t: int| 0 <= t < i ==> function_def_read(#[trigger] ls@[t], out@[t]),
            forall|t: int|
                0 <= t < i ==> code_lines_are_instructions(#[trigger] ls@[t]),
    {
        let l = &ls[i];
        let code = match &l.code {
            Some(u) => match read_code_unit(u) {
                Ok(c) => Some(c),
                Err(e) => {
                    proof {
                        lemma_first_bad_function_skip(ls@, 0, i as int);
                    }
                    return Err(e);
                },
            },
            None => None,
        };
        out.push(
            FunctionDefinitionDef {
                function: l.function,
                visibility: l.visibility,
                is_entry: l.is_entry,
                acquires_global_resources: copy_indexes(&l.acquires_global_resources),
                code,
            },
        );
    }
    proof {
        lemma_first_bad_function_skip(ls@, 0, ls@.len() as int);
    }
    Ok(out)
}

// ---------------------------------------------------------------------------
// Metadata

/// A listing copies every metadata entry, key and value.
pub open spec fn metadata_listed(md: Seq<MetadataDef>, l: Seq<MetadataDef>) -> bool {
    l.len() == md.len() && forall|i: int|
        0 <= i < md.len() ==> (#[trigger] l[i]).key@ == md[i].key@ && l[i].value@ == md[i].value@
}

pub fn list_metadata(md: &Vec<MetadataDef>) -> (r: Vec<MetadataDef>)
    ensures
        metadata_listed(md@, r@),
{
    let mut out: Vec<MetadataDef> = Vec::new();
    for i in 0..md.len()
        invariant
            out@.len() == i,
            forall|t: int|
                0 <= t < i ==> (#[trigger] out@[t]).key@ == md@[t].key@ && out@[t].value@
                    == md@[t].value@,
    {
        let entry = &md[i];
        out.push(MetadataDef { key: copy_bytes(&entry.key), value: copy_bytes(&entry.value) });
    }
    out
}

// ---------------------------------------------------------------------------
// Modules

/// `l` is the listing of the module `m`: the tables are the same, the
/// function handles, function definitions and metadata are listed.
pub open spec fn module_listed(m: CompiledModuleDef, l: CompiledModuleListing) -> bool {
    &&& l.version == m.version
    &&& l.self_module_handle_idx == m.self_module_handle_idx
    &&& l.module_handles == m.module_handles
    &&& l.struct_handles == m.struct_handles
    &&& l.field_handles == m.field_handles
    &&& l.friend_decls == m.friend_decls
    &&& l.struct_def_instantiations == m.struct_def_instantiations
    &&& l.function_instantiations == m.function_instantiations
    &&& l.field_instantiations == m.field_instantiations
    &&& l.signatures == m.signatures
    &&& l.identifiers == m.identifiers
    &&& l.address_identifiers == m.address_identifiers
    &&& l.constant_pool == m.constant_pool
    &&& l.struct_defs == m.struct_defs
    &&& l.struct_variant_handles == m.struct_variant_handles
    &&& l.struct_variant_instantiations == m.struct_variant_instantiations
    &&& l.variant_field_handles == m.variant_field_handles
    &&& l.variant_field_instantiations == m.variant_field_instantiations
    &&& function_handles_listed(m.function_handles@, l.function_handles@)
    &&& metadata_listed(m.metadata@, l.metadata@)
    &&& function_defs_listed(m.function_defs@, l.function_defs@)
}

/// `m` is the module that the listing `l` denotes.
pub open spec fn module_read(l: CompiledModuleListing, m: CompiledModuleDef) -> bool {
    &&& m.version == l.version
    &&& m.self_module_handle_idx == l.self_module_handle_idx
    &&& m.module_handles == l.module_handles
    &&& m.struct_handles == l.struct_handles
    &&& m.field_handles == l.field_handles
    &&& m.friend_decls == l.friend_decls
    &&& m.struct_def_instantiations == l.struct_def_instantiations
    &&& m.function_instantiations == l.function_instantiations
    &&& m.field_instantiations == l.field_instantiations
    &&& m.signatures == l.signatures
    &&& m.identifiers == l.identifiers
    &&& m.address_identifiers == l.address_identifiers
    &&& m.constant_pool == l.constant_pool
    &&& m.struct_defs == l.struct_defs
    &&& m.struct_variant_handles == l.struct_variant_handles
    &&& m.struct_variant_instantiations == l.struct_variant_instantiations
    &&& m.variant_field_handles == l.variant_field_handles
    &&& m.variant_field_instantiations == l.variant_field_instantiations
    &&& m.metadata == l.metadata
    &&& function_handles_read(l.function_handles@, m.function_handles@)
    &&& function_defs_read(l.function_defs@, m.function_defs@)
}

/// Writes the listing of a module.
pub fn disassemble_module(m: CompiledModuleDef) -> (l: CompiledModuleListing)
    ensures
        module_listed(m, l),
{
    let function_handles = list_function_handles(&m.function_handles);
    let metadata = list_metadata(&m.metadata);
    let function_defs = list_function_defs(&m.function_defs);
    let CompiledModuleDef {
        version,
        self_module_handle_idx,
        module_handles,
        struct_handles,
        field_handles,
        friend_decls,
        struct_def_instantiations,
        function_instantiations,
        field_instantiations,
        signatures,
        identifiers,
        address_identifiers,
        constant_pool,
        struct_defs,
        struct_variant_handles,
        struct_variant_instantiations,
        variant_field_handles,
        variant_field_instantiations,
        ..
    } = m;
    CompiledModuleListing {
        version,
        self_module_handle_idx,
        module_handles,
        struct_handles,
        function_handles,
        field_handles,
        friend_decls,
        struct_def_instantiations,
        function_instantiations,
        field_instantiations,
        signatures,
        identifiers,
        address_identifiers,
        constant_pool,
        metadata,
        struct_defs,
        function_defs,
        struct_variant_handles,
        struct_variant_instantiations,
        variant_field_handles,
        variant_field_instantiations,
    }
}

/// Reads a module from its listing; fails at the first line of code that is
/// not an instruction.
pub fn assemble_module(l: CompiledModuleListing) -> (r: Result<CompiledModuleDef, AssembleError>)
    ensures
        r is Ok <==> first_bad_function(l.function_defs@, 0) is None,
        r matches Ok(m) ==> module_read(l, m),
        r matches Err(e) ==> (first_bad_function(l.function_defs@, 0) matches Some((i, j, reason))
            && e.reason == reason && e.instruction@ == l.function_defs@[i].code.unwrap().code@[j]@),
{
    let function_defs = match read_function_defs(&l.function_defs) {
        Ok(ds) => ds,
        Err(e) => {
            return Err(e);
        },
    };
    let function_handles = read_function_handles(&l.function_handles);
    let CompiledModuleListing {
        version,
        self_module_handle_idx,
        module_handles,
        struct_handles,
        field_handles,
        friend_decls,
        struct_def_instantiations,
        function_instantiations,
        field_instantiations,
        signatures,
        identifiers,
        address_identifiers,
        constant_pool,
        metadata,
        struct_defs,
        struct_variant_handles,
        struct_variant_instantiations,
        variant_field_handles,
        variant_field_instantiations,
        ..
    } = l;
    Ok(
        CompiledModuleDef {
            version,
            self_module_handle_idx,
            module_handles,
            struct_handles,
            function_handles,
            field_handles,
            friend_decls,
            struct_def_instantiations,
            function_instantiations,
            field_instantiations,
            signatures,
            identifiers,
            address_identifiers,
            constant_pool,
            metadata,
            struct_defs,
            function_defs,
            struct_variant_handles,
            struct_variant_instantiations,
            variant_field_handles,
            variant_field_instantiations,
        },
    )
}

// ---------------------------------------------------------------------------
// Scripts

/// `l` is the listing of the script `s`.
pub open spec fn script_listed(s: CompiledScriptDef, l: CompiledScriptListing) -> bool {
    &&& l.version == s.version
    &&& l.parameters == s.parameters
    &&& l.module_handles == s.module_handles
    &&& l.struct_handles == s.struct_handles
    &&& l.function_instantiations == s.function_instantiations
    &&& l.signatures == s.signatures
    &&& l.identifiers == s.identifiers
    &&& l.address_identifiers == s.address_identifiers
    &&& l.constant_pool == s.constant_pool
    &&& l.type_parameters == s.type_parameters
    &&& function_handles_listed(s.function_handles@, l.function_handles@)
    &&& metadata_listed(s.metadata@, l.metadata@)
    &&& code_unit_listed(s.code, l.code)
}

/// `s` is the script that the listing `l` denotes.
pub open spec fn script_read(l: CompiledScriptListing, s: CompiledScriptDef) -> bool {
    &&& s.version == l.version
    &&& s.parameters == l.parameters
    &&& s.module_handles == l.module_handles
    &&& s.struct_handles == l.struct_handles
    &&& s.function_instantiations == l.function_instantiations
    &&& s.signatures == l.signatures
    &&& s.identifiers == l.identifiers
    &&& s.address_identifiers == l.address_identifiers
    &&& s.constant_pool == l.constant_pool
    &&& s.type_parameters == l.type_parameters
    &&& s.metadata == l.metadata
    &&& function_handles_read(l.function_handles@, s.function_handles@)
    &&& code_unit_read(l.code, s.code)
}

/// Writes the listing of a script.
pub fn disassemble_script(s: CompiledScriptDef) -> (l: CompiledScriptListing)
    ensures
        script_listed(s, l),
{
    let function_handles = list_function_handles(&s.function_handles);
    let metadata = list_metadata(&s.metadata);
    let code = list_code_unit(&s.code);
    let CompiledScriptDef {
        version,
        module_handles,
        struct_handles,
        function_instantiations,
        signatures,
        identifiers,
        address_identifiers,
        constant_pool,
        type_parameters,
        parameters,
        ..
    } = s;
    CompiledScriptListing {
        version,
        module_handles,
        struct_handles,
        function_handles,
        function_instantiations,
        signatures,
        identifiers,
        address_identifiers,
        constant_pool,
        metadata,
        code,
        type_parameters,
        parameters,
    }
}

/// Reads a script from its listing; fails at the first line of code that is
/// not an instruction.
pub fn assemble_script(l: CompiledScriptListing) -> (r: Result<CompiledScriptDef, AssembleError>)
    ensures
        r is Ok <==> first_bad_line(l.code.code@, 0) is None,
        r matches Ok(s) ==> script_read(l, s),
        r matches Err(e) ==> (first_bad_line(l.code.code@, 0) matches Some((j, reason)) && e.reason
            == reason && e.instruction@ == l.code.code@[j]@),
{
    let code = match read_code_unit(&l.code) {
        Ok(c) => c,
        Err(e) => {
            return Err(e);
        },
    };
    let function_handles = read_function_handles(&l.function_handles);
    let CompiledScriptListing {
        version,
        module_handles,
        struct_handles,
        function_instantiations,
        signatures,
        identifiers,
        address_identifiers,
        constant_pool,
        metadata,
        type_parameters,
        parameters,
        ..
    } = l;
    Ok(
        CompiledScriptDef {
            version,
            module_handles,
            struct_handles,
            function_handles,
            function_instantiations,
            signatures,
            identifiers,
            address_identifiers,
            constant_pool,
            metadata,
            code,
            type_parameters,
            parameters,
        },
    )
}

// ---------------------------------------------------------------------------
// What disassembling and assembling keep, table by table

/// Disassembling a module keeps every table under its own name. The
/// function handles keep their module, name, parameter and return
/// signatures, type parameters and access specifiers (an address parameter's
/// instantiation index widened to 32 bits); the metadata keeps every key and
/// value; each function definition keeps its function, visibility, entry
/// flag, acquired resources and locals, and each instruction of its code
/// becomes that instruction's text.
pub proof fn lemma_module_listing_keeps_tables(m: CompiledModuleDef, l: CompiledModuleListing)
    requires
        module_listed(m, l),
    ensures
        l.version == m.version,
        l.self_module_handle_idx == m.self_module_handle_idx,
        l.module_handles == m.module_handles,
        l.struct_handles == m.struct_handles,
        l.field_handles == m.field_handles,
        l.friend_decls == m.friend_decls,
        l.struct_def_instantiations == m.struct_def_instantiations,
        l.function_instantiations == m.function_instantiations,
        l.field_instantiations == m.field_instantiations,
        l.signatures == m.signatures,
        l.identifiers == m.identifiers,
        l.address_identifiers == m.address_identifiers,
        l.constant_pool == m.constant_pool,
        l.struct_defs == m.struct_defs,
        l.struct_variant_handles == m.struct_variant_handles,
        l.struct_variant_instantiations == m.struct_variant_instantiations,
        l.variant_field_handles == m.variant_field_handles,
        l.variant_field_instantiations == m.variant_field_instantiations,
        l.function_handles@.len() == m.function_handles@.len(),
        forall|i: int|
            #![trigger l.function_handles@[i]]
            0 <= i < m.function_handles@.len() ==> {
                let h = m.function_handles@[i];
                let g = l.function_handles@[i];
                &&& g.module == h.module
                &&& g.name == h.name
                &&& g.parameters == h.parameters
                &&& g.return_ == h.return_
                &&& g.type_parameters@ == h.type_parameters@
                &&& (g.access_specifiers is Some <==> h.access_specifiers is Some)
                &&& (h.access_specifiers matches Some(a) ==> g.access_specifiers.unwrap()@.len()
                    == a@.len())
            },
        forall|i: int, k: int|
            #![trigger l.function_handles@[i].access_specifiers.unwrap()@[k]]
            0 <= i < m.function_handles@.len() && m.function_handles@[i].access_specifiers is Some
                && 0 <= k < m.function_handles@[i].access_specifiers.unwrap()@.len() ==> {
                let a = m.function_handles@[i].access_specifiers.unwrap()@[k];
                let b = l.function_handles@[i].access_specifiers.unwrap()@[k];
                &&& b.kind == a.kind
                &&& b.negated == a.negated
                &&& b.resource == a.resource
                &&& match a.address {
                    AddressSpecifierDef::Any => b.address == AddressSpecifierListing::Any,
                    AddressSpecifierDef::Literal(x) => b.address == AddressSpecifierListing::Literal(x),
                    AddressSpecifierDef::Parameter(p, None) => b.address == AddressSpecifierListing::Parameter(p, None),
                    AddressSpecifierDef::Parameter(p, Some(x)) => b.address == AddressSpecifierListing::Parameter(
                        p,
                        Some(x as u32),
                    ),
                }
            },
        l.metadata@.len() == m.metadata@.len(),
        forall|i: int|
            #![trigger l.metadata@[i]]
            0 <= i < m.metadata@.len() ==> l.metadata@[i].key@ == m.metadata@[i].key@
                && l.metadata@[i].value@ == m.metadata@[i].value@,
        l.function_defs@.len() == m.function_defs@.len(),
        forall|i: int|
            #![trigger l.function_defs@[i]]
            0 <= i < m.function_defs@.len() ==> {
                let d = m.function_defs@[i];
                let f = l.function_defs@[i];
                &&& f.function == d.function
                &&& f.visibility == d.visibility
                &&& f.is_entry == d.is_entry
                &&& f.acquires_global_resources@ == d.acquires_global_resources@
                &&& (f.code is Some <==> d.code is Some)
                &&& (d.code matches Some(c) ==> f.code.unwrap().locals == c.locals
                    && f.code.unwrap().code@.len() == c.code@.len())
            },
        forall|i: int, j: int|
            #![trigger l.function_defs@[i].code.unwrap().code@[j]]
            0 <= i < m.function_defs@.len() && m.function_defs@[i].code is Some && 0 <= j
                < m.function_defs@[i].code.unwrap().code@.len() ==> l.function_defs@[i].code.unwrap().code@[j]@ == instruction_text(
                m.function_defs@[i].code.unwrap().code@[j],
            ),
{
}

/// Assembling a module keeps every table of the listing under its own name.
/// The function handles keep their module, name, parameter and return
/// signatures, type parameters and access specifiers (an address parameter's
/// instantiation index cut down to 16 bits); the metadata is the listing's;
/// each function definition keeps its function, visibility, entry flag,
/// acquired resources and locals, and each line of its code becomes the
/// instruction it denotes.
pub proof fn lemma_module_read_keeps_tables(l: CompiledModuleListing, m: CompiledModuleDef)
    requires
        module_read(l, m),
    ensures
        m.version == l.version,
        m.self_module_handle_idx == l.self_module_handle_idx,
        m.module_handles == l.module_handles,
        m.struct_handles == l.struct_handles,
        m.field_handles == l.field_handles,
        m.friend_decls == l.friend_decls,
        m.struct_def_instantiations == l.struct_def_instantiations,
        m.function_instantiations == l.function_instantiations,
        m.field_instantiations == l.field_instantiations,
        m.signatures == l.signatures,
        m.identifiers == l.identifiers,
        m.address_identifiers == l.address_identifiers,
        m.constant_pool == l.constant_pool,
        m.struct_defs == l.struct_defs,
        m.struct_variant_handles == l.struct_variant_handles,
        m.struct_variant_instantiations == l.struct_variant_instantiations,
        m.variant_field_handles == l.variant_field_handles,
        m.variant_field_instantiations == l.variant_field_instantiations,
        m.metadata == l.metadata,
        m.function_handles@.len() == l.function_handles@.len(),
        forall|i: int|
            #![trigger m.function_handles@[i]]
            0 <= i < l.function_handles@.len() ==> {
                let h = l.function_handles@[i];
                let g = m.function_handles@[i];
                &&& g.module == h.module
                &&& g.name == h.name
                &&& g.parameters == h.parameters
                &&& g.return_ == h.return_
                &&& g.type_parameters@ == h.type_parameters@
                &&& (g.access_specifiers is Some <==> h.access_specifiers is Some)
                &&& (h.access_specifiers matches Some(a) ==> g.access_specifiers.unwrap()@.len()
                    == a@.len())
            },
        forall|i: int, k: int|
            #![trigger m.function_handles@[i].access_specifiers.unwrap()@[k]]
            0 <= i < l.function_handles@.len() && l.function_handles@[i].access_specifiers is Some
                && 0 <= k < l.function_handles@[i].access_specifiers.unwrap()@.len() ==> {
                let a = l.function_handles@[i].access_specifiers.unwrap()@[k];
                let b = m.function_handles@[i].access_specifiers.unwrap()@[k];
                &&& b.kind == a.kind
                &&& b.negated == a.negated
                &&& b.resource == a.resource
                &&& match a.address {
                    AddressSpecifierListing::Any => b.address == AddressSpecifierDef::Any,
                    AddressSpecifierListing::Literal(x) => b.address == AddressSpecifierDef::Literal(x),
                    AddressSpecifierListing::Parameter(p, None) => b.address == AddressSpecifierDef::Parameter(p, None),
                    AddressSpecifierListing::Parameter(p, Some(x)) => b.address == AddressSpecifierDef::Parameter(
                        p,
                        Some(x as u16),
                    ),
                }
            },
        m.function_defs@.len() == l.function_defs@.len(),
        forall|i: int|
            #![trigger m.function_defs@[i]]
            0 <= i < l.function_defs@.len() ==> {
                let d = l.function_defs@[i];
                let f = m.function_defs@[i];
                &&& f.function == d.function
                &&& f.visibility == d.visibility
                &&& f.is_entry == d.is_entry
                &&& f.acquires_global_resources@ == d.acquires_global_resources@
                &&& (f.code is Some <==> d.code is Some)
                &&& (d.code matches Some(c) ==> f.code.unwrap().locals == c.locals
                    && f.code.unwrap().code@.len() == c.code@.len())
            },
        forall|i: int, j: int|
            #![trigger m.function_defs@[i].code.unwrap().code@[j]]
            0 <= i < l.function_defs@.len() && l.function_defs@[i].code is Some && 0 <= j
                < l.function_defs@[i].code.unwrap().code@.len() ==> bytecode_of_text(l.function_defs@[i].code.unwrap().code@[j]@) == Ok::<
                BytecodeDef,
                BytecodeError,
            >(m.function_defs@[i].code.unwrap().code@[j]),
{
}

/// Disassembling a script keeps every table under its own name: its
/// parameters signature, its type parameters, its function handles (as for a
/// module), its metadata, and its code unit, whose locals stay and whose
/// instructions become their texts.
pub proof fn lemma_script_listing_keeps_tables(s: CompiledScriptDef, l: CompiledScriptListing)
    requires
        script_listed(s, l),
    ensures
        l.version == s.version,
        l.parameters == s.parameters,
        l.module_handles == s.module_handles,
        l.struct_handles == s.struct_handles,
        l.function_instantiations == s.function_instantiations,
        l.signatures == s.signatures,
        l.identifiers == s.identifiers,
        l.address_identifiers == s.address_identifiers,
        l.constant_pool == s.constant_pool,
        l.type_parameters == s.type_parameters,
        l.function_handles@.len() == s.function_handles@.len(),
        forall|i: int|
            #![trigger l.function_handles@[i]]
            0 <= i < s.function_handles@.len() ==> {
                let h = s.function_handles@[i];
                let g = l.function_handles@[i];
                &&& g.module == h.module
                &&& g.name == h.name
                &&& g.parameters == h.parameters
                &&& g.return_ == h.return_
                &&& g.type_parameters@ == h.type_parameters@
                &&& (g.access_specifiers is Some <==> h.access_specifiers is Some)
                &&& (h.access_specifiers matches Some(a) ==> g.access_specifiers.unwrap()@.len()
                    == a@.len())
            },
        forall|i: int, k: int|
            #![trigger l.function_handles@[i].access_specifiers.unwrap()@[k]]
            0 <= i < s.function_handles@.len() && s.function_handles@[i].access_specifiers is Some
                && 0 <= k < s.function_handles@[i].access_specifiers.unwrap()@.len() ==> {
                let a = s.function_handles@[i].access_specifiers.unwrap()@[k];
                let b = l.function_handles@[i].access_specifiers.unwrap()@[k];
                &&& b.kind == a.kind
                &&& b.negated == a.negated
                &&& b.resource == a.resource
                &&& match a.address {
                    AddressSpecifierDef::Any => b.address == AddressSpecifierListing::Any,
                    AddressSpecifierDef::Literal(x) => b.address == AddressSpecifierListing::Literal(x),
                    AddressSpecifierDef::Parameter(p, None) => b.address == AddressSpecifierListing::Parameter(p, None),
                    AddressSpecifierDef::Parameter(p, Some(x)) => b.address == AddressSpecifierListing::Parameter(
                        p,
                        Some(x as u32),
                    ),
                }
            },
        l.metadata@.len() == s.metadata@.len(),
        forall|i: int|
            #![trigger l.metadata@[i]]
            0 <= i < s.metadata@.len() ==> l.metadata@[i].key@ == s.metadata@[i].key@
                && l.metadata@[i].value@ == s.metadata@[i].value@,
        l.code.locals == s.code.locals,
        l.code.code@.len() == s.code.code@.len(),
        forall|j: int|
            #![trigger l.code.code@[j]]
            0 <= j < s.code.code@.len() ==> l.code.code@[j]@ == instruction_text(s.code.code@[j]),
{
}

/// Assembling a script keeps every table of the listing under its own name:
/// its parameters signature, its type parameters, its function handles (as
/// for a module), its metadata, and its code unit, whose locals stay and
/// whose lines become the instructions they denote.
pub proof fn lemma_script_read_keeps_tables(l: CompiledScriptListing, s: CompiledScriptDef)
    requires
        script_read(l, s),
    ensures
        s.version == l.version,
        s.parameters == l.parameters,
        s.module_handles == l.module_handles,
        s.struct_handles == l.struct_handles,
        s.function_instantiations == l.function_instantiations,
        s.signatures == l.signatures,
        s.identifiers == l.identifiers,
        s.address_identifiers == l.address_identifiers,
        s.constant_pool == l.constant_pool,
        s.type_parameters == l.type_parameters,
        s.metadata == l.metadata,
        s.function_handles@.len() == l.function_handles@.len(),
        forall|i: int|
            #![trigger s.function_handles@[i]]
            0 <= i < l.function_handles@.len() ==> {
                let h = l.function_handles@[i];
                let g = s.function_handles@[i];
                &&& g.module == h.module
                &&& g.name == h.name
                &&& g.parameters == h.parameters
                &&& g.return_ == h.return_
                &&& g.type_parameters@ == h.type_parameters@
                &&& (g.access_specifiers is Some <==> h.access_specifiers is Some)
                &&& (h.access_specifiers matches Some(a) ==> g.access_specifiers.unwrap()@.len()
                    == a@.len())
            },
        forall|i: int, k: int|
            #![trigger s.function_handles@[i].access_specifiers.unwrap()@[k]]
            0 <= i < l.function_handles@.len() && l.function_handles@[i].access_specifiers is Some
                && 0 <= k < l.function_handles@[i].access_specifiers.unwrap()@.len() ==> {
                let a = l.function_handles@[i].access_specifiers.unwrap()@[k];
                let b = s.function_handles@[i].access_specifiers.unwrap()@[k];
                &&& b.kind == a.kind
                &&& b.negated == a.negated
                &&& b.resource == a.resource
                &&& match a.address {
                    AddressSpecifierListing::Any => b.address == AddressSpecifierDef::Any,
                    AddressSpecifierListing::Literal(x) => b.address == AddressSpecifierDef::Literal(x),
                    AddressSpecifierListing::Parameter(p, None) => b.address == AddressSpecifierDef::Parameter(p, None),
                    AddressSpecifierListing::Parameter(p, Some(x)) => b.address == AddressSpecifierDef::Parameter(
                        p,
                        Some(x as u16),
                    ),
                }
            },
        s.code.locals == l.code.locals,
        s.code.code@.len() == l.code.code@.len(),
        forall|j: int|
            #![trigger s.code.code@[j]]
            0 <= j < l.code.code@.len() ==> bytecode_of_text(l.code.code@[j]@) == Ok::<BytecodeDef, BytecodeError>(
                s.code.code@[j],
            ),
{
}

// ---------------------------------------------------------------------------
// What assembling gives back of disassembling

pub open spec fn same_access_specifiers(
    a: Option<Vec<AccessSpecifierDef>>,
    b: Option<Vec<AccessSpecifierDef>>,
) -> bool {
    match (a, b) {
        (None, None) => true,
        (Some(a), Some(b)) => a@ == b@,
        _ => false,
    }
}

pub open spec fn same_function_handle(a: FunctionHandleDef, b: FunctionHandleDef) -> bool {
    &&& a.module == b.module
    &&& a.name == b.name
    &&& a.parameters == b.parameters
    &&& a.return_ == b.return_
    &&& a.type_parameters@ == b.type_parameters@
    &&& same_access_specifiers(a.access_specifiers, b.access_specifiers)
}

pub open spec fn same_function_handles(a: Seq<FunctionHandleDef>, b: Seq<FunctionHandleDef>) -> bool {
    a.len() == b.len() && forall|i: int| 0 <= i < a.len() ==> same_function_handle(#[trigger] a[i], b[i])
}

pub open spec fn same_code_unit(a: CodeUnitDef, b: CodeUnitDef) -> bool {
    a.locals == b.locals && a.code@ == b.code@
}

pub open spec fn same_function_def(a: FunctionDefinitionDef, b: FunctionDefinitionDef) -> bool {
    &&& a.function == b.function
    &&& a.visibility == b.visibility
    &&& a.is_entry == b.is_entry
    &&& a.acquires_global_resources@ == b.acquires_global_resources@
    &&& match (a.code, b.code) {
        (None, None) => true,
        (Some(x), Some(y)) => same_code_unit(x, y),
        _ => false,
    }
}

pub open spec fn same_function_defs(
    a: Seq<FunctionDefinitionDef>,
    b: Seq<FunctionDefinitionDef>,
) -> bool {
    a.len() == b.len() && forall|i: int| 0 <= i < a.len() ==> same_function_def(#[trigger] a[i], b[i])
}

pub open spec fn same_metadata(a: Seq<MetadataDef>, b: Seq<MetadataDef>) -> bool {
    a.len() == b.len() && forall|i: int|
        0 <= i < a.len() ==> (#[trigger] a[i]).key@ == b[i].key@ && a[i].value@ == b[i].value@
}

/// The two modules hold the same tables, element for element.
pub open spec fn same_module(a: CompiledModuleDef, b: CompiledModuleDef) -> bool {
    &&& a.version == b.version
    &&& a.self_module_handle_idx == b.self_module_handle_idx
    &&& a.module_handles == b.module_handles
    &&& a.struct_handles == b.struct_handles
    &&& a.field_handles == b.field_handles
    &&& a.friend_decls == b.friend_decls
    &&& a.struct_def_instantiations == b.struct_def_instantiations
    &&& a.function_instantiations == b.function_instantiations
    &&& a.field_instantiations == b.field_instantiations
    &&& a.signatures == b.signatures
    &&& a.identifiers == b.identifiers
    &&& a.address_identifiers == b.address_identifiers
    &&& a.constant_pool == b.constant_pool
    &&& a.struct_defs == b.struct_defs
    &&& a.struct_variant_handles == b.struct_variant_handles
    &&& a.struct_variant_instantiations == b.struct_variant_instantiations
    &&& a.variant_field_handles == b.variant_field_handles
    &&& a.variant_field_instantiations == b.variant_field_instantiations
    &&& same_function_handles(a.function_handles@, b.function_handles@)
    &&& same_metadata(a.metadata@, b.metadata@)
    &&& same_function_defs(a.function_defs@, b.function_defs@)
}

/// The two scripts hold the same tables, element for element.
pub open spec fn same_script(a: CompiledScriptDef, b: CompiledScriptDef) -> bool {
    &&& a.version == b.version
    &&& a.parameters == b.parameters
    &&& a.module_handles == b.module_handles
    &&& a.struct_handles == b.struct_handles
    &&& a.function_instantiations == b.function_instantiations
    &&& a.signatures == b.signatures
    &&& a.identifiers == b.identifiers
    &&& a.address_identifiers == b.address_identifiers
    &&& a.constant_pool == b.constant_pool
    &&& a.type_parameters == b.type_parameters
    &&& same_function_handles(a.function_handles@, b.function_handles@)
    &&& same_metadata(a.metadata@, b.metadata@)
    &&& same_code_unit(a.code, b.code)
}

/// Reading back a listed address specifier gives it back: a 16-bit
/// instantiation index survives the 32-bit listing.
pub proof fn lemma_address_specifier_roundtrip(a: AddressSpecifierDef)
    ensures
        address_specifier_read(address_specifier_listed(a)) == a,
{
}

proof fn lemma_access_specifiers_roundtrip(
    a: Option<Vec<AccessSpecifierDef>>,
    l: Option<Vec<AccessSpecifierListing>>,
    b: Option<Vec<AccessSpecifierDef>>,
)
    requires
        access_specifiers_listed(a, l),
        access_specifiers_read(l, b),
    ensures
        same_access_specifiers(a, b),
{
    match (a, l, b) {
        (Some(a), Some(l), Some(b)) => {
            assert forall|t: int| 0 <= t < a@.len() implies b@[t] == a@[t] by {
                lemma_address_specifier_roundtrip(a@[t].address);
                assert(l@[t] == access_specifier_listed(a@[t]));
            }
            assert(b@ =~= a@);
        },
        _ => {},
    }
}

proof fn lemma_function_handles_roundtrip(
    a: Seq<FunctionHandleDef>,
    l: Seq<FunctionHandleListing>,
    b: Seq<FunctionHandleDef>,
)
    requires
        function_handles_listed(a, l),
        function_handles_read(l, b),
    ensures
        same_function_handles(a, b),
{
    assert forall|i: int| 0 <= i < a.len() implies same_function_handle(#[trigger] a[i], b[i]) by {
        assert(function_handle_listed(a[i], l[i]));
        assert(function_handle_read(l[i], b[i]));
        lemma_access_specifiers_roundtrip(a[i].access_specifiers, l[i].access_specifiers, b[i].access_specifiers);
    }
}

/// Every line of a listed piece of code is an instruction, and reading the
/// lines back gives the code back.
pub proof fn lemma_code_roundtrip(code: Seq<BytecodeDef>, texts: Seq<String>, back: Seq<BytecodeDef>)
    requires
        code_listed(code, texts),
    ensures
        first_bad_line(texts, 0) is None,
        code_read(texts, back) ==> back == code,
{
    assert forall|t: int| 0 <= t < texts.len() implies bytecode_of_text((#[trigger] texts[t])@)
        == Ok::<BytecodeDef, BytecodeError>(code[t]) by {
        lemma_text_roundtrip(code[t]);
    }
    lemma_first_bad_line_skip(texts, 0, texts.len() as int);
    if code_read(texts, back) {
        assert forall|t: int| 0 <= t < code.len() implies back[t] == code[t] by {
            assert(bytecode_of_text(texts[t]@) == Ok::<BytecodeDef, BytecodeError>(back[t]));
        }
        assert(back =~= code);
    }
}

proof fn lemma_function_defs_roundtrip(
    a: Seq<FunctionDefinitionDef>,
    l: Seq<FunctionDefinitionListing>,
)
    requires
        function_defs_listed(a, l),
    ensures
        first_bad_function(l, 0) is None,
        forall|b: Seq<FunctionDefinitionDef>| function_defs_read(l, b) ==> same_function_defs(a, b),
{
    assert forall|t: int| 0 <= t < l.len() implies code_lines_are_instructions(#[trigger] l[t]) by {
        assert(function_def_listed(a[t], l[t]));
        match (a[t].code, l[t].code) {
            (Some(c), Some(u)) => {
                lemma_code_roundtrip(c.code@, u.code@, c.code@);
            },
            _ => {},
        }
    }
    lemma_first_bad_function_skip(l, 0, l.len() as int);
    assert forall|b: Seq<FunctionDefinitionDef>| function_defs_read(l, b) implies same_function_defs(a, b) by {
        assert forall|i: int| 0 <= i < a.len() implies same_function_def(#[trigger] a[i], b[i]) by {
            assert(function_def_listed(a[i], l[i]));
            assert(function_def_read(l[i], b[i]));
            match (a[i].code, l[i].code, b[i].code) {
                (Some(c), Some(u), Some(d)) => {
                    lemma_code_roundtrip(c.code@, u.code@, d.code@);
                },
                _ => {},
            }
        }
    }
}

/// Every line of code in the listing of a module is an instruction, so
/// assembling the listing succeeds.
pub proof fn lemma_module_listing_assembles(m: CompiledModuleDef, l: CompiledModuleListing)
    requires
        module_listed(m, l),
    ensures
        first_bad_function(l.function_defs@, 0) is None,
{
    lemma_function_defs_roundtrip(m.function_defs@, l.function_defs@);
}

/// Assembling the listing of a module gives the module back.
pub proof fn lemma_module_roundtrip(m: CompiledModuleDef, l: CompiledModuleListing, back: CompiledModuleDef)
    requires
        module_listed(m, l),
        module_read(l, back),
    ensures
        same_module(m, back),
{
    lemma_function_handles_roundtrip(m.function_handles@, l.function_handles@, back.function_handles@);
    lemma_function_defs_roundtrip(m.function_defs@, l.function_defs@);
}

/// Every line of code in the listing of a script is an instruction, so
/// assembling the listing succeeds.
pub proof fn lemma_script_listing_assembles(s: CompiledScriptDef, l: CompiledScriptListing)
    requires
        script_listed(s, l),
    ensures
        first_bad_line(l.code.code@, 0) is None,
{
    lemma_code_roundtrip(s.code.code@, l.code.code@, s.code.code@);
}

/// Assembling the listing of a script gives the script back.
pub proof fn lemma_script_roundtrip(s: CompiledScriptDef, l: CompiledScriptListing, back: CompiledScriptDef)
    requires
        script_listed(s, l),
        script_read(l, back),
    ensures
        same_script(s, back),
{
    lemma_function_handles_roundtrip(s.function_handles@, l.function_handles@, back.function_handles@);
    lemma_code_roundtrip(s.code.code@, l.code.code@, back.code.code@);
}

} // verus!
