//! The extension manifest: what an extension declares, and its mathematical model.

use vstd::prelude::*;

verus! {

/// The only ABI version this generator understands.
pub const ABI_VERSION: u32 = 1;

/// The ABI version a manifest has when it does not name one.
pub fn default_abi_version() -> (v: u32)
    ensures
        v == ABI_VERSION,
{
    ABI_VERSION
}

/// A value type that crosses the host boundary.
#[derive(Clone, Copy, Debug, PartialEq, Eq, Structural)]
pub enum Type {
    String,
    Int,
    Float,
    Bytes,
}

/// A named, typed parameter of a host function.
#[derive(Clone, Debug, PartialEq)]
pub struct Param {
    pub name: String,
    pub ty: Type,
}

/// A host function that the extension imports from its runtime host.
#[derive(Clone, Debug, PartialEq)]
pub struct Function {
    pub name: String,
    pub params: Vec<Param>,
    pub returns: Option<Type>,
    pub is_async: bool,
}

/// The extension's identity: its Python module name, its WASM import module and the
/// Python modules imported ahead of time.
#[derive(Clone, Debug, PartialEq)]
pub struct Extension {
    pub name: String,
    pub wasm_module: Option<String>,
    pub prewarm: Vec<String>,
}

/// A whole extension contract, as written to and read from ABI JSON.
#[derive(Clone, Debug, PartialEq)]
pub struct Manifest {
    pub abi_version: u32,
    pub extension: Extension,
    pub functions: Vec<Function>,
}

/// Model of a [`Param`].
pub struct ParamModel {
    pub name: Seq<char>,
    pub ty: Type,
}

/// Model of a [`Function`].
pub struct FunctionModel {
    pub name: Seq<char>,
    pub params: Seq<ParamModel>,
    pub returns: Option<Type>,
    pub is_async: bool,
}

/// Model of an [`Extension`].
pub struct ExtensionModel {
    pub name: Seq<char>,
    pub wasm_module: Option<Seq<char>>,
    pub prewarm: Seq<Seq<char>>,
}

/// Model of a [`Manifest`].
pub struct ManifestModel {
    pub abi_version: u32,
    pub extension: ExtensionModel,
    pub functions: Seq<FunctionModel>,
}

impl View for Param {
    type V = ParamModel;

    open spec fn view(&self) -> ParamModel {
        ParamModel { name: self.name@, ty: self.ty }
    }
}

impl View for Function {
    type V = FunctionModel;

    open spec fn view(&self) -> FunctionModel {
        FunctionModel {
            name: self.name@,
            params: self.params@.map_values(|p: Param| p@),
            returns: self.returns,
            is_async: self.is_async,
        }
    }
}

pub open spec fn option_string_view(o: Option<String>) -> Option<Seq<char>> {
    match o {
        Some(s) => Some(s@),
        None => None,
    }
}

pub open spec fn strings_view(v: Seq<String>) -> Seq<Seq<char>> {
    v.map_values(|s: String| s@)
}

impl View for Extension {
    type V = ExtensionModel;

    open spec fn view(&self) -> ExtensionModel {
        ExtensionModel {
            name: self.name@,
            wasm_module: option_string_view(self.wasm_module),
            prewarm: strings_view(self.prewarm@),
        }
    }
}

impl View for Manifest {
    type V = ManifestModel;

    open spec fn view(&self) -> ManifestModel {
        ManifestModel {
            abi_version: self.abi_version,
            extension: self.extension@,
            functions: self.functions@.map_values(|f: Function| f@),
        }
    }
}

/// The module name that the WASM imports come from: the declared one, else the extension name.
pub open spec fn wasm_module_of(e: ExtensionModel) -> Seq<char> {
    match e.wasm_module {
        Some(w) => w,
        None => e.name,
    }
}

/// The import module of a manifest.
pub fn wasm_module_name(m: &Manifest) -> (r: &str)
    ensures
        r@ == wasm_module_of(m@.extension),
{
    match &m.extension.wasm_module {
        Some(w) => w.as_str(),
        None => m.extension.name.as_str(),
    }
}

/// Whether a return type is handed back through a caller-provided buffer.
pub open spec fn is_buffer_return_spec(ty: Option<Type>) -> bool {
    ty == Some(Type::String) || ty == Some(Type::Bytes)
}

/// Whether a return type is handed back through a caller-provided buffer
/// (`string` and `bytes` returns are).
pub fn is_buffer_return(ty: Option<Type>) -> (r: bool)
    ensures
        r == is_buffer_return_spec(ty),
{
    match ty {
        Some(Type::String) | Some(Type::Bytes) => true,
        _ => false,
    }
}

/// A function whose generated bindings can be written at all: asynchronous host functions
/// currently complete with a string, and nothing else.
pub open spec fn function_is_generatable(f: FunctionModel) -> bool {
    f.is_async ==> f.returns == Some(Type::String)
}

/// Every function of the manifest can be generated.
pub open spec fn manifest_is_generatable(m: ManifestModel) -> bool {
    forall|i: int| 0 <= i < m.functions.len() ==> #[trigger] function_is_generatable(m.functions[i])
}

/// Whether a generated host body touches WASM linear memory: it reads a string or bytes
/// argument, or writes a string or bytes result into a caller-provided buffer.
pub open spec fn needs_memory_spec(f: FunctionModel) -> bool {
    (exists|i: int|
        0 <= i < f.params.len() && (#[trigger] f.params[i].ty == Type::String || f.params[i].ty
            == Type::Bytes)) || (!f.is_async && is_buffer_return_spec(f.returns))
}

/// Whether a generated host body touches WASM linear memory.
pub fn needs_memory(f: &Function) -> (r: bool)
    ensures
        r == needs_memory_spec(f@),
{
    let n = f.params.len();
    let mut i: usize = 0;
    while i < n
        invariant
            n == f.params@.len(),
            0 <= i <= n,
            forall|j: int| 0 <= j < i ==> f.params@[j].ty != Type::String && f.params@[j].ty != Type::Bytes,
        decreases n - i,
    {
        let ty = f.params[i].ty;
        if ty == Type::String || ty == Type::Bytes {
            assert(f@.params[i as int].ty == ty);
            return true;
        }
        i = i + 1;
    }
    let writes = !f.is_async && is_buffer_return(f.returns);
    proof {
        if !writes {
            assert forall|j: int|
                0 <= j < f@.params.len() implies !(f@.params[j].ty == Type::String || f@.params[j].ty
                == Type::Bytes) by {
                assert(f@.params[j] == f.params@[j]@);
            }
        }
    }
    writes
}

} // verus!
