//! Properties that hold across the generators: they lower every host function to the same
//! WASM signature, and an accepted manifest is one they can all generate.

use vstd::prelude::*;

use crate::java::{
    java_arg_count, java_create_method, java_function_model, java_params_value_types,
    java_wasm_params_spec, java_wasm_returns_spec,
};
use crate::model::{
    FunctionModel, ManifestModel, ParamModel, Type, function_is_generatable, is_buffer_return_spec,
    manifest_is_generatable, needs_memory_spec,
};
use crate::text::{contains_text, starts_with_text};
use crate::validate::{function_error, functions_error, manifest_is_valid};
use crate::rust_guest::{guest_import_pairs, guest_param_pairs, wasm_return_type_spec};
use crate::rust_host::{
    host_import_params, host_import_results, host_params_val_types, host_registration_body,
};

verus! {

/// A WASM value type.
pub enum WasmType {
    I32,
    I64,
    F64,
}

/// The WASM values that one parameter crosses the boundary as: strings and bytes as a
/// pointer and a length (`i32`, `i32`), integers as `i32`, floats as `f64`.
pub open spec fn lowered_param(ty: Type) -> Seq<WasmType> {
    match ty {
        Type::String | Type::Bytes => seq![WasmType::I32, WasmType::I32],
        Type::Int => seq![WasmType::I32],
        Type::Float => seq![WasmType::F64],
    }
}

/// The WASM values of all parameters, in order.
pub open spec fn lowered_params_of(ps: Seq<ParamModel>) -> Seq<WasmType>
    decreases ps.len(),
{
    if ps.len() == 0 {
        Seq::empty()
    } else {
        lowered_params_of(ps.drop_last()) + lowered_param(ps.last().ty)
    }
}

/// The WASM parameters of a host function's import: its parameters, then, for a synchronous
/// function that returns a string or bytes, the caller's result buffer as a pointer and a
/// capacity (`i32`, `i32`).
pub open spec fn lowered_params(f: FunctionModel) -> Seq<WasmType> {
    lowered_params_of(f.params) + if !f.is_async && is_buffer_return_spec(f.returns) {
        seq![WasmType::I32, WasmType::I32]
    } else {
        Seq::empty()
    }
}

/// The WASM results of a host function's import: an `i64` token for an async function, the
/// written length (`i32`) for a string or bytes, `i32` for an integer, `f64` for a float.
pub open spec fn lowered_results(f: FunctionModel) -> Seq<WasmType> {
    if f.is_async {
        seq![WasmType::I64]
    } else {
        match f.returns {
            Some(Type::String) | Some(Type::Bytes) | Some(Type::Int) => seq![WasmType::I32],
            Some(Type::Float) => seq![WasmType::F64],
            None => Seq::empty(),
        }
    }
}

/// The WASM value type of a Rust type in a guest import declaration (pointers are `i32`
/// on wasm32).
pub open spec fn guest_type_lowering(t: Seq<char>) -> WasmType {
    if t == "f64"@ {
        WasmType::F64
    } else if t == "i64"@ {
        WasmType::I64
    } else {
        WasmType::I32
    }
}

/// The WASM results that a guest import declares by its Rust result type.
pub open spec fn guest_results(t: Seq<char>) -> Seq<WasmType> {
    if t == "()"@ {
        Seq::empty()
    } else {
        seq![guest_type_lowering(t)]
    }
}

/// The Chicory name of a WASM value type.
pub open spec fn java_value_type_name(w: WasmType) -> Seq<char> {
    match w {
        WasmType::I32 => "ValueType.I32"@,
        WasmType::I64 => "ValueType.I64"@,
        WasmType::F64 => "ValueType.F64"@,
    }
}

/// The Wasmtime name of a WASM value type.
pub open spec fn host_val_type_name(w: WasmType) -> Seq<char> {
    match w {
        WasmType::I32 => "ValType::I32"@,
        WasmType::I64 => "ValType::I64"@,
        WasmType::F64 => "ValType::F64"@,
    }
}

/// The Rust type names of guest declarations lower as their WASM types.
proof fn lemma_guest_type_names()
    ensures
        guest_type_lowering("f64"@) == WasmType::F64,
        guest_type_lowering("i64"@) == WasmType::I64,
        guest_type_lowering("i32"@) == WasmType::I32,
        guest_type_lowering("*const u8"@) == WasmType::I32,
        guest_type_lowering("*mut u8"@) == WasmType::I32,
        guest_results("()"@) == Seq::<WasmType>::empty(),
        guest_results("i32"@) == seq![WasmType::I32],
        guest_results("i64"@) == seq![WasmType::I64],
        guest_results("f64"@) == seq![WasmType::F64],
{
    reveal_strlit("f64");
    reveal_strlit("i64");
    reveal_strlit("i32");
    reveal_strlit("()");
    reveal_strlit("*const u8");
    reveal_strlit("*mut u8");
    assert("i64"@[0] != "f64"@[0]);
    assert("i32"@[0] != "f64"@[0]);
    assert("i32"@[1] != "i64"@[1]);
    assert("*const u8"@.len() != "f64"@.len());
    assert("*const u8"@.len() != "i64"@.len());
    assert("*mut u8"@.len() != "f64"@.len());
    assert("*mut u8"@.len() != "i64"@.len());
    assert("()"@.len() != "i32"@.len());
    assert("()"@.len() != "i64"@.len());
    assert("()"@.len() != "f64"@.len());
}

proof fn lemma_params_agree(ps: Seq<ParamModel>)
    ensures
        guest_param_pairs(ps).map_values(|p: (Seq<char>, Seq<char>)| guest_type_lowering(p.1))
            == lowered_params_of(ps),
        java_params_value_types(ps) == lowered_params_of(ps).map_values(
            |w: WasmType| java_value_type_name(w),
        ),
        host_params_val_types(ps) == lowered_params_of(ps).map_values(
            |w: WasmType| host_val_type_name(w),
        ),
        java_arg_count(ps) == lowered_params_of(ps).len(),
    decreases ps.len(),
{
    lemma_guest_type_names();
    if ps.len() == 0 {
        assert(guest_param_pairs(ps).map_values(|p: (Seq<char>, Seq<char>)| guest_type_lowering(p.1))
            =~= lowered_params_of(ps));
        assert(java_params_value_types(ps) =~= lowered_params_of(ps).map_values(
            |w: WasmType| java_value_type_name(w),
        ));
        assert(host_params_val_types(ps) =~= lowered_params_of(ps).map_values(
            |w: WasmType| host_val_type_name(w),
        ));
    } else {
        let rest = ps.drop_last();
        let p = ps.last();
        lemma_params_agree(rest);
        let gp = guest_param_pairs(rest);
        let lp = lowered_params_of(rest);
        assert(guest_param_pairs(ps) == gp + crate::rust_guest::wasm_params_spec(p.name, p.ty));
        assert(guest_param_pairs(ps).map_values(|q: (Seq<char>, Seq<char>)| guest_type_lowering(q.1))
            =~= gp.map_values(|q: (Seq<char>, Seq<char>)| guest_type_lowering(q.1))
            + lowered_param(p.ty));
        assert(java_params_value_types(ps) =~= lp.map_values(|w: WasmType| java_value_type_name(w))
            + lowered_param(p.ty).map_values(|w: WasmType| java_value_type_name(w)));
        assert(lowered_params_of(ps).map_values(|w: WasmType| java_value_type_name(w))
            =~= lp.map_values(|w: WasmType| java_value_type_name(w)) + lowered_param(
            p.ty,
        ).map_values(|w: WasmType| java_value_type_name(w)));
        assert(host_params_val_types(ps) =~= lp.map_values(|w: WasmType| host_val_type_name(w))
            + lowered_param(p.ty).map_values(|w: WasmType| host_val_type_name(w)));
        assert(lowered_params_of(ps).map_values(|w: WasmType| host_val_type_name(w))
            =~= lp.map_values(|w: WasmType| host_val_type_name(w)) + lowered_param(
            p.ty,
        ).map_values(|w: WasmType| host_val_type_name(w)));
    }
}

/// The Rust guest, the Java host and the Rust host lower every host function to the same
/// WASM signature: the guest's import declaration, the Chicory host function and the
/// Wasmtime import agree on every parameter type and on the result types, and the argument
/// at which the hosts find the result buffer is the one after the lowered parameters.
pub proof fn lemma_generators_agree_on_signature(f: FunctionModel)
    ensures
        guest_import_pairs(f).map_values(|p: (Seq<char>, Seq<char>)| guest_type_lowering(p.1))
            == lowered_params(f),
        guest_results(wasm_return_type_spec(f)) == lowered_results(f),
        java_wasm_params_spec(f) == lowered_params(f).map_values(
            |w: WasmType| java_value_type_name(w),
        ),
        java_wasm_returns_spec(f) == lowered_results(f).map_values(
            |w: WasmType| java_value_type_name(w),
        ),
        host_import_params(f) == lowered_params(f).map_values(|w: WasmType| host_val_type_name(w)),
        host_import_results(f) == lowered_results(f).map_values(
            |w: WasmType| host_val_type_name(w),
        ),
        java_arg_count(f.params) == lowered_params_of(f.params).len(),
{
    lemma_guest_type_names();
    lemma_params_agree(f.params);
    let tail_guest: Seq<(Seq<char>, Seq<char>)> = if !f.is_async && is_buffer_return_spec(
        f.returns,
    ) {
        seq![("result_ptr"@, "*mut u8"@), ("result_max_len"@, "i32"@)]
    } else {
        Seq::empty()
    };
    let tail: Seq<WasmType> = if !f.is_async && is_buffer_return_spec(f.returns) {
        seq![WasmType::I32, WasmType::I32]
    } else {
        Seq::empty()
    };
    let gp = guest_param_pairs(f.params);
    let lp = lowered_params_of(f.params);
    assert(guest_import_pairs(f).map_values(|p: (Seq<char>, Seq<char>)| guest_type_lowering(p.1))
        =~= gp.map_values(|p: (Seq<char>, Seq<char>)| guest_type_lowering(p.1)) + tail_guest.map_values(
        |p: (Seq<char>, Seq<char>)| guest_type_lowering(p.1),
    ));
    assert(tail_guest.map_values(|p: (Seq<char>, Seq<char>)| guest_type_lowering(p.1)) =~= tail);
    assert(java_wasm_params_spec(f) =~= lp.map_values(|w: WasmType| java_value_type_name(w))
        + tail.map_values(|w: WasmType| java_value_type_name(w)));
    assert(lowered_params(f).map_values(|w: WasmType| java_value_type_name(w)) =~= lp.map_values(
        |w: WasmType| java_value_type_name(w),
    ) + tail.map_values(|w: WasmType| java_value_type_name(w)));
    assert(host_import_params(f) =~= lp.map_values(|w: WasmType| host_val_type_name(w))
        + tail.map_values(|w: WasmType| host_val_type_name(w)));
    assert(lowered_params(f).map_values(|w: WasmType| host_val_type_name(w)) =~= lp.map_values(
        |w: WasmType| host_val_type_name(w),
    ) + tail.map_values(|w: WasmType| host_val_type_name(w)));
    assert(java_wasm_returns_spec(f) =~= lowered_results(f).map_values(
        |w: WasmType| java_value_type_name(w),
    ));
    assert(host_import_results(f) =~= lowered_results(f).map_values(
        |w: WasmType| host_val_type_name(w),
    ));
    assert(guest_results(wasm_return_type_spec(f)) =~= lowered_results(f));
}

/// Every function of an accepted manifest can be generated: validation refuses each async
/// function that does not return a string, the one shape that the generators cannot write.
pub proof fn lemma_valid_manifest_is_generatable(m: ManifestModel)
    requires
        manifest_is_valid(m),
    ensures
        manifest_is_generatable(m),
{
    lemma_functions_without_error_are_generatable(m.functions);
}

proof fn lemma_functions_without_error_are_generatable(fs: Seq<FunctionModel>)
    requires
        functions_error(fs) is None,
    ensures
        forall|i: int| 0 <= i < fs.len() ==> #[trigger] function_is_generatable(fs[i]),
    decreases fs.len(),
{
    if fs.len() > 0 {
        lemma_functions_without_error_are_generatable(fs.drop_last());
        assert forall|i: int| 0 <= i < fs.len() implies #[trigger] function_is_generatable(fs[i]) by {
            if i < fs.len() - 1 {
                assert(fs[i] == fs.drop_last()[i]);
            } else {
                assert(function_error(fs.last()) is None);
            }
        }
    }
}


/// The generators can write a manifest's bindings exactly when none of its functions is
/// async without returning a string: those are the manifests that `generate_rust_code` and
/// `generate_java_code` take (`manifest_is_generatable`), and every accepted manifest is one.
pub proof fn lemma_generatable_iff_no_async_non_string(m: ManifestModel)
    ensures
        manifest_is_generatable(m) <==> !(exists|i: int|
            0 <= i < m.functions.len() && (#[trigger] m.functions[i]).is_async
                && m.functions[i].returns != Some(Type::String)),
        manifest_is_valid(m) ==> manifest_is_generatable(m),
{
    if manifest_is_valid(m) {
        lemma_valid_manifest_is_generatable(m);
    }
    if manifest_is_generatable(m) {
        assert forall|i: int| 0 <= i < m.functions.len() implies !((#[trigger] m.functions[i]).is_async
            && m.functions[i].returns != Some(Type::String)) by {
            assert(function_is_generatable(m.functions[i]));
        }
    } else {
        let i = choose|i: int|
            0 <= i < m.functions.len() && !#[trigger] function_is_generatable(m.functions[i]);
        assert(m.functions[i].is_async && m.functions[i].returns != Some(Type::String));
    }
}


/// A host body that touches WASM memory declares the memory handle first. A host function
/// reads memory when it takes a string or bytes argument and writes it when it is
/// synchronous and returns a string or bytes (through the caller's result buffer); then the
/// Chicory host function declares `Memory memory = instance.memory();` and the Wasmtime
/// import begins with `let memory = guest_memory(&mut caller)?;`.
pub proof fn lemma_hosts_declare_memory_they_use(f: FunctionModel)
    requires
        (exists|i: int|
            0 <= i < f.params.len() && (#[trigger] f.params[i].ty == Type::String
                || f.params[i].ty == Type::Bytes)) || (!f.is_async && (f.returns == Some(
            Type::String,
        ) || f.returns == Some(Type::Bytes))),
    ensures
        contains_text(
            java_create_method(java_function_model(f)),
            "          Memory memory = instance.memory();\n"@,
        ),
        starts_with_text(
            host_registration_body(f),
            "            let memory = guest_memory(&mut caller)?;\n"@,
        ),
{
    if !(!f.is_async && (f.returns == Some(Type::String) || f.returns == Some(Type::Bytes))) {
        let i = choose|i: int|
            0 <= i < f.params.len() && (#[trigger] f.params[i].ty == Type::String
                || f.params[i].ty == Type::Bytes);
        assert(0 <= i < f.params.len() && (f.params[i].ty == Type::String || f.params[i].ty
            == Type::Bytes));
    }
    assert(needs_memory_spec(f));
    let t = java_function_model(f);
    let line = "          Memory memory = instance.memory();\n"@;
    let a = "    private HostFunction create"@ + t.upper_name + "Function() {\n      "@ + t.handler_type
        + " "@ + t.field + " = this."@ + t.field
        + ";\n      return new HostFunction(\n        MODULE,\n        \""@ + t.name
        + "\",\n        "@ + t.wasm_params + ",\n        "@ + t.wasm_returns
        + ",\n        (Instance instance, long... wasmArgs) -> {\n"@;
    let b1 = t.param_reads;
    let b2 = "          try {\n"@;
    let b3 = t.return_handling;
    let b4 = "\n          } catch (RuntimeException e) {\n"@;
    let b5 = t.error_handling;
    let b6 = "\n          }\n        }\n      );\n    }\n\n"@;
    assert(java_create_method(t) == a + line + b1 + b2 + b3 + b4 + b5 + b6);
    lemma_regroup_tail6(a, line, b1, b2, b3, b4, b5, b6);
    let hline = "            let memory = guest_memory(&mut caller)?;\n"@;
    let r = crate::rust_host::host_reads(f);
    let h = crate::rust_host::host_result_handling(f);
    let o = "            Ok(())\n        })?;\n"@;
    assert(host_registration_body(f) == hline + r + h + o);
    lemma_regroup_tail3(hline, r, h, o);
}

proof fn lemma_regroup_tail6(
    a: Seq<char>,
    l: Seq<char>,
    b1: Seq<char>,
    b2: Seq<char>,
    b3: Seq<char>,
    b4: Seq<char>,
    b5: Seq<char>,
    b6: Seq<char>,
)
    ensures
        a + l + b1 + b2 + b3 + b4 + b5 + b6 == a + l + (b1 + b2 + b3 + b4 + b5 + b6),
{
    assert(a + l + b1 + b2 + b3 + b4 + b5 + b6 =~= a + l + (b1 + b2 + b3 + b4 + b5 + b6));
}

proof fn lemma_regroup_tail3(l: Seq<char>, b1: Seq<char>, b2: Seq<char>, b3: Seq<char>)
    ensures
        l + b1 + b2 + b3 == l + (b1 + b2 + b3),
{
    assert(l + b1 + b2 + b3 =~= l + (b1 + b2 + b3));
}

} // verus!
