//! What makes a manifest acceptable, and the first reason one is refused.

use vstd::prelude::*;

use crate::model::{ABI_VERSION, Function, FunctionModel, Manifest, ManifestModel, Type};
use crate::text::{append_decimal, decimal, is_blank, str_equal, str_is_blank};

verus! {

/// Why a manifest is refused.
#[derive(Clone, Debug, PartialEq)]
pub enum ManifestError {
    /// The manifest declares an ABI version other than the supported one.
    UnsupportedAbiVersion(u32),
    /// The extension name is empty or blank.
    MissingExtensionName,
    /// A function name is empty or blank.
    MissingFunctionName,
    /// A function uses a name of the reserved async control namespace.
    ReservedFunctionName(String),
    /// An async function that does not return a string.
    AsyncMustReturnString(String),
    /// A parameter of the named function has an empty or blank name.
    MissingParamName(String),
}

/// Model of a [`ManifestError`].
pub enum ManifestErrorModel {
    UnsupportedAbiVersion(u32),
    MissingExtensionName,
    MissingFunctionName,
    ReservedFunctionName(Seq<char>),
    AsyncMustReturnString(Seq<char>),
    MissingParamName(Seq<char>),
}

impl View for ManifestError {
    type V = ManifestErrorModel;

    open spec fn view(&self) -> ManifestErrorModel {
        match self {
            ManifestError::UnsupportedAbiVersion(v) => ManifestErrorModel::UnsupportedAbiVersion(*v),
            ManifestError::MissingExtensionName => ManifestErrorModel::MissingExtensionName,
            ManifestError::MissingFunctionName => ManifestErrorModel::MissingFunctionName,
            ManifestError::ReservedFunctionName(n) => ManifestErrorModel::ReservedFunctionName(n@),
            ManifestError::AsyncMustReturnString(n) => ManifestErrorModel::AsyncMustReturnString(n@),
            ManifestError::MissingParamName(n) => ManifestErrorModel::MissingParamName(n@),
        }
    }
}

/// The names of the async control protocol, which no extension function may take.
pub open spec fn is_reserved_name(name: Seq<char>) -> bool {
    name == "__async_protocol__"@ || name == "__async_start__"@ || name == "__async_poll__"@ || name
        == "__async_result__"@ || name == "__async_cancel__"@
}

/// Whether `name` belongs to the reserved async control namespace.
pub fn is_reserved_async_control_name(name: &str) -> (r: bool)
    ensures
        r == is_reserved_name(name@),
{
    str_equal(name, "__async_protocol__") || str_equal(name, "__async_start__") || str_equal(
        name,
        "__async_poll__",
    ) || str_equal(name, "__async_result__") || str_equal(name, "__async_cancel__")
}

/// Some parameter of `f` has a blank name.
pub open spec fn has_blank_param(f: FunctionModel) -> bool {
    exists|i: int| 0 <= i < f.params.len() && is_blank(#[trigger] f.params[i].name)
}

/// The first problem with one function, checked in the order: name, reserved name, async
/// return type, parameter names.
pub open spec fn function_error(f: FunctionModel) -> Option<ManifestErrorModel> {
    if is_blank(f.name) {
        Some(ManifestErrorModel::MissingFunctionName)
    } else if is_reserved_name(f.name) {
        Some(ManifestErrorModel::ReservedFunctionName(f.name))
    } else if f.is_async && f.returns != Some(Type::String) {
        Some(ManifestErrorModel::AsyncMustReturnString(f.name))
    } else if has_blank_param(f) {
        Some(ManifestErrorModel::MissingParamName(f.name))
    } else {
        None
    }
}

/// The first problem among functions, in declaration order.
pub open spec fn functions_error(fs: Seq<FunctionModel>) -> Option<ManifestErrorModel>
    decreases fs.len(),
{
    if fs.len() == 0 {
        None
    } else {
        match functions_error(fs.drop_last()) {
            Some(e) => Some(e),
            None => function_error(fs.last()),
        }
    }
}

/// The first problem of a manifest: its ABI version, then its extension name, then its
/// functions in order. `None` when it is acceptable.
pub open spec fn manifest_error(m: ManifestModel) -> Option<ManifestErrorModel> {
    if m.abi_version != ABI_VERSION {
        Some(ManifestErrorModel::UnsupportedAbiVersion(m.abi_version))
    } else if is_blank(m.extension.name) {
        Some(ManifestErrorModel::MissingExtensionName)
    } else {
        functions_error(m.functions)
    }
}

/// An acceptable manifest.
pub open spec fn manifest_is_valid(m: ManifestModel) -> bool {
    manifest_error(m) is None
}

/// Once a prefix of the functions has a problem, the whole sequence has that same first problem.
proof fn lemma_first_error_persists(fs: Seq<FunctionModel>, k: int)
    requires
        0 <= k <= fs.len(),
        functions_error(fs.take(k)) is Some,
    ensures
        functions_error(fs) == functions_error(fs.take(k)),
    decreases fs.len() - k,
{
    if k < fs.len() {
        assert(fs.take(k + 1).drop_last() =~= fs.take(k));
        lemma_first_error_persists(fs, k + 1);
    } else {
        assert(fs.take(k) =~= fs);
    }
}

fn check_function(f: &Function) -> (r: Result<(), ManifestError>)
    ensures
        match r {
            Ok(()) => function_error(f@) is None,
            Err(e) => function_error(f@) == Some(e@),
        },
{
    if str_is_blank(f.name.as_str()) {
        return Err(ManifestError::MissingFunctionName);
    }
    if is_reserved_async_control_name(f.name.as_str()) {
        return Err(ManifestError::ReservedFunctionName(f.name.clone()));
    }
    let returns_string = match f.returns {
        Some(Type::String) => true,
        _ => false,
    };
    if f.is_async && !returns_string {
        return Err(ManifestError::AsyncMustReturnString(f.name.clone()));
    }
    let n = f.params.len();
    let mut i: usize = 0;
    while i < n
        invariant
            n == f.params@.len(),
            0 <= i <= n,
            !is_blank(f@.name),
            !is_reserved_name(f@.name),
            !(f@.is_async && f@.returns != Some(Type::String)),
            forall|j: int| 0 <= j < i ==> !is_blank(#[trigger] f@.params[j].name),
        decreases n - i,
    {
        if str_is_blank(f.params[i].name.as_str()) {
            assert(f@.params[i as int].name == f.params@[i as int].name@);
            assert(is_blank(f@.params[i as int].name));
            return Err(ManifestError::MissingParamName(f.name.clone()));
        }
        assert(f@.params[i as int].name == f.params@[i as int].name@);
        i = i + 1;
    }
    Ok(())
}

/// Checks a manifest before anything is generated from it. `Ok` exactly when the manifest is
/// acceptable; otherwise the first problem, in the order that [`manifest_error`] checks.
pub fn validate_manifest(manifest: &Manifest) -> (r: Result<(), ManifestError>)
    ensures
        match r {
            Ok(()) => manifest_is_valid(manifest@),
            Err(e) => manifest_error(manifest@) == Some(e@),
        },
{
    if manifest.abi_version != ABI_VERSION {
        return Err(ManifestError::UnsupportedAbiVersion(manifest.abi_version));
    }
    if str_is_blank(manifest.extension.name.as_str()) {
        return Err(ManifestError::MissingExtensionName);
    }
    let ghost fs = manifest@.functions;
    let n = manifest.functions.len();
    let mut i: usize = 0;
    while i < n
        invariant
            n == manifest.functions@.len(),
            fs == manifest@.functions,
            manifest@.abi_version == ABI_VERSION,
            !is_blank(manifest@.extension.name),
            0 <= i <= n,
            functions_error(fs.take(i as int)) is None,
        decreases n - i,
    {
        assert(fs.take(i + 1).drop_last() =~= fs.take(i as int));
        assert(fs[i as int] == manifest.functions@[i as int]@);
        match check_function(&manifest.functions[i]) {
            Ok(()) => {},
            Err(e) => {
                proof {
                    lemma_first_error_persists(fs, i as int + 1);
                }
                return Err(e);
            },
        }
        i = i + 1;
    }
    assert(fs.take(n as int) =~= fs);
    Ok(())
}

impl ManifestError {
    /// The message that tells a user what is wrong.
    pub open spec fn message_spec(self) -> Seq<char> {
        match self {
            ManifestError::UnsupportedAbiVersion(v) => "unsupported ABI version "@ + decimal(
                v as nat,
            ) + "; expected "@ + decimal(ABI_VERSION as nat),
            ManifestError::MissingExtensionName => "extension name is required"@,
            ManifestError::MissingFunctionName => "function name is required"@,
            ManifestError::ReservedFunctionName(n) => "function name '"@ + n@ + "' is reserved"@,
            ManifestError::AsyncMustReturnString(n) => "async function '"@ + n@
                + "' must currently return string"@,
            ManifestError::MissingParamName(n) => "parameter name is required for "@ + n@,
        }
    }

    /// The message that tells a user what is wrong.
    pub fn message(&self) -> (r: String)
        ensures
            r@ == self.message_spec(),
    {
        let mut out = String::new();
        match self {
            ManifestError::UnsupportedAbiVersion(v) => {
                out.append("unsupported ABI version ");
                append_decimal(&mut out, *v as u128);
                out.append("; expected ");
                append_decimal(&mut out, ABI_VERSION as u128);
            },
            ManifestError::MissingExtensionName => {
                out.append("extension name is required");
            },
            ManifestError::MissingFunctionName => {
                out.append("function name is required");
            },
            ManifestError::ReservedFunctionName(n) => {
                out.append("function name '");
                out.append(n.as_str());
                out.append("' is reserved");
            },
            ManifestError::AsyncMustReturnString(n) => {
                out.append("async function '");
                out.append(n.as_str());
                out.append("' must currently return string");
            },
            ManifestError::MissingParamName(n) => {
                out.append("parameter name is required for ");
                out.append(n.as_str());
            },
        }
        out
    }
}


proof fn lemma_no_first_error_means_none(fs: Seq<FunctionModel>, k: int)
    requires
        functions_error(fs) is None,
        0 <= k < fs.len(),
    ensures
        function_error(fs[k]) is None,
    decreases fs.len(),
{
    if k < fs.len() - 1 {
        assert(fs.drop_last()[k] == fs[k]);
        lemma_no_first_error_means_none(fs.drop_last(), k);
    }
}

/// An accepted manifest names every parameter: in every function, the parameter at every
/// position, the first one included, has a name that is not blank.
pub proof fn lemma_accepted_manifest_names_every_param(m: ManifestModel)
    requires
        manifest_is_valid(m),
    ensures
        forall|k: int, i: int|
            0 <= k < m.functions.len() && 0 <= i < m.functions[k].params.len() ==> !is_blank(
                #[trigger] m.functions[k].params[i].name,
            ),
{
    assert forall|k: int, i: int|
        0 <= k < m.functions.len() && 0 <= i < m.functions[k].params.len() implies !is_blank(
        #[trigger] m.functions[k].params[i].name,
    ) by {
        lemma_no_first_error_means_none(m.functions, k);
        let f = m.functions[k];
        if is_blank(f.params[i].name) {
            assert(has_blank_param(f));
        }
    }
}

} // verus!
