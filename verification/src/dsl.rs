//! The builder through which an extension declares its contract.

use vstd::prelude::*;

use crate::model::{
    ABI_VERSION, Extension, ExtensionModel, Function, FunctionModel, Manifest, ManifestModel,
    Param, ParamModel, Type, strings_view,
};

verus! {

/// An extension contract under construction.
#[derive(Clone, Debug)]
pub struct ExtensionSpec {
    manifest: Manifest,
}

impl View for ExtensionSpec {
    type V = ManifestModel;

    closed spec fn view(&self) -> ManifestModel {
        self.manifest@
    }
}

/// The contract of an extension that declares only its name.
pub open spec fn fresh_manifest(name: Seq<char>) -> ManifestModel {
    ManifestModel {
        abi_version: ABI_VERSION,
        extension: ExtensionModel { name: name, wasm_module: None, prewarm: Seq::empty() },
        functions: Seq::empty(),
    }
}

/// A host function that declares only its name: no parameters, no result, synchronous.
pub open spec fn fresh_function(name: Seq<char>) -> FunctionModel {
    FunctionModel { name: name, params: Seq::empty(), returns: None, is_async: false }
}

impl ExtensionSpec {
    /// Starts the contract of the extension with this Python module name.
    pub fn new(name: &str) -> (r: Self)
        ensures
            r@ == fresh_manifest(name@),
    {
        let r = ExtensionSpec {
            manifest: Manifest {
                abi_version: ABI_VERSION,
                extension: Extension {
                    name: name.to_owned(),
                    wasm_module: None,
                    prewarm: Vec::new(),
                },
                functions: Vec::new(),
            },
        };
        assert(r@.extension.prewarm =~= Seq::<Seq<char>>::empty());
        assert(r@.functions =~= Seq::<FunctionModel>::empty());
        r
    }

    /// Names the WASM module that the imports come from.
    pub fn wasm_module(self, wasm_module: &str) -> (r: Self)
        ensures
            r@ == (ManifestModel {
                extension: ExtensionModel { wasm_module: Some(wasm_module@), ..self@.extension },
                ..self@
            }),
    {
        let mut s = self;
        s.manifest.extension.wasm_module = Some(wasm_module.to_owned());
        s
    }

    /// Sets the Python modules to import ahead of time, replacing any set before.
    pub fn prewarm<const N: usize>(self, modules: [&str; N]) -> (r: Self)
        ensures
            r@ == (ManifestModel {
                extension: ExtensionModel {
                    prewarm: modules@.map_values(|m: &str| m@),
                    ..self@.extension
                },
                ..self@
            }),
    {
        let mut names: Vec<String> = Vec::new();
        let mut i: usize = 0;
        while i < N
            invariant
                0 <= i <= N,
                N == modules@.len(),
                strings_view(names@) =~= modules@.take(i as int).map_values(|m: &str| m@),
            decreases N - i,
        {
            let name = modules[i].to_owned();
            let ghost before = strings_view(names@);
            names.push(name);
            assert(strings_view(names@) =~= before.push(modules@[i as int]@));
            assert(modules@.take(i + 1) =~= modules@.take(i as int).push(modules@[i as int]));
            i = i + 1;
        }
        assert(modules@.take(N as int) =~= modules@);
        let mut s = self;
        s.manifest.extension.prewarm = names;
        s
    }

    /// Adds a host function: `configure` receives the function with only its name declared,
    /// and what it returns is appended after the functions declared so far.
    pub fn function<F: FnOnce(FunctionSpec) -> FunctionSpec>(self, name: &str, configure: F) -> (r: Self)
        requires
            forall|s: FunctionSpec| configure.requires((s,)),
        ensures
            exists|input: FunctionSpec, output: FunctionSpec|
                input@ == fresh_function(name@) && configure.ensures((input,), output) && r@
                    == (ManifestModel { functions: self@.functions.push(output@), ..self@ }),
    {
        let input = FunctionSpec::new(name);
        let output = configure(input);
        let ghost output_copy = output;
        let f = output.build();
        let mut s = self;
        s.manifest.functions.push(f);
        assert(s@.functions =~= self@.functions.push(output_copy@));
        s
    }

    /// The contract declared so far.
    pub fn manifest(&self) -> (r: &Manifest)
        ensures
            r@ == self@,
    {
        &self.manifest
    }

    /// The contract declared.
    pub fn into_manifest(self) -> (r: Manifest)
        ensures
            r@ == self@,
    {
        self.manifest
    }
}

/// A host function under construction.
#[derive(Clone, Debug)]
pub struct FunctionSpec {
    function: Function,
}

impl View for FunctionSpec {
    type V = FunctionModel;

    closed spec fn view(&self) -> FunctionModel {
        self.function@
    }
}

impl FunctionSpec {
    fn new(name: &str) -> (r: Self)
        ensures
            r@ == fresh_function(name@),
    {
        let r = FunctionSpec {
            function: Function {
                name: name.to_owned(),
                params: Vec::new(),
                returns: None,
                is_async: false,
            },
        };
        assert(r@.params =~= Seq::<ParamModel>::empty());
        r
    }

    /// Appends a parameter.
    pub fn param(self, name: &str, ty: Type) -> (r: Self)
        ensures
            r@ == (FunctionModel {
                params: self@.params.push(ParamModel { name: name@, ty: ty }),
                ..self@
            }),
    {
        let mut s = self;
        s.function.params.push(Param { name: name.to_owned(), ty });
        assert(s@.params =~= self@.params.push(ParamModel { name: name@, ty: ty }));
        s
    }

    /// Sets the result type.
    pub fn returns_(self, ty: Type) -> (r: Self)
        ensures
            r@ == (FunctionModel { returns: Some(ty), ..self@ }),
    {
        let mut s = self;
        s.function.returns = Some(ty);
        s
    }

    /// Makes the function asynchronous: the host starts the work and Python awaits it.
    pub fn async_(self) -> (r: Self)
        ensures
            r@ == (FunctionModel { is_async: true, ..self@ }),
    {
        let mut s = self;
        s.function.is_async = true;
        s
    }

    fn build(self) -> (r: Function)
        ensures
            r@ == self@,
    {
        self.function
    }
}

} // verus!
