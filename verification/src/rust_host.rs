//! The Rust host adapter: typed Wasmtime bindings for the imports of an extension, with a
//! builder that takes one handler per host function.

use vstd::prelude::*;

use crate::case::{to_upper_camel_case, upper_camel};
use crate::java::{java_arg_count, java_local, java_locals};
use crate::model::{
    Function, FunctionModel, Manifest, ManifestModel, ParamModel, Type, is_buffer_return,
    is_buffer_return_spec, needs_memory, needs_memory_spec, wasm_module_name, wasm_module_of,
};
use crate::rust_guest::{guest_import_pairs, guest_param_pairs, wasm_params_spec};
use crate::text::{
    append_decimal, concat_all, contains_text, decimal, join_with, lemma_concat_all_contains,
    lemma_contains_middle, lemma_contains_trans, lemma_join_push,
};

verus! {

// ── Handler signatures ──────────────

/// The Rust type in which a handler receives a value.
pub open spec fn host_arg_type(ty: Type) -> Seq<char> {
    match ty {
        Type::String => "String"@,
        Type::Int => "i32"@,
        Type::Float => "f64"@,
        Type::Bytes => "Vec<u8>"@,
    }
}

fn host_arg_type_str(ty: Type) -> (r: &'static str)
    ensures
        r@ == host_arg_type(ty),
{
    match ty {
        Type::String => "String",
        Type::Int => "i32",
        Type::Float => "f64",
        Type::Bytes => "Vec<u8>",
    }
}

/// The Rust type of a handler's successful result: the host token for async functions.
pub open spec fn host_result_type(f: FunctionModel) -> Seq<char> {
    if f.is_async {
        "i64"@
    } else {
        match f.returns {
            Some(t) => host_arg_type(t),
            None => "()"@,
        }
    }
}

fn host_result_type_str(f: &Function) -> (r: &'static str)
    ensures
        r@ == host_result_type(f@),
{
    if f.is_async {
        return "i64";
    }
    match f.returns {
        Some(t) => host_arg_type_str(t),
        None => "()",
    }
}

/// The handler argument types, in order.
pub open spec fn host_arg_types(ps: Seq<ParamModel>) -> Seq<Seq<char>>
    decreases ps.len(),
{
    if ps.len() == 0 {
        Seq::empty()
    } else {
        host_arg_types(ps.drop_last()).push(host_arg_type(ps.last().ty))
    }
}

/// The closure type of a handler.
pub open spec fn handler_signature(f: FunctionModel) -> Seq<char> {
    "Fn("@ + join_with(host_arg_types(f.params), ", "@) + ") -> Result<"@ + host_result_type(f)
        + "> + Send + Sync + 'static"@
}

fn append_handler_signature(out: &mut String, f: &Function)
    ensures
        final(out)@ == old(out)@ + handler_signature(f@),
{
    let ghost ps = f@.params;
    out.append("Fn(");
    let ghost start = out@;
    let n = f.params.len();
    let mut i: usize = 0;
    while i < n
        invariant
            n == f.params@.len(),
            ps == f@.params,
            0 <= i <= n,
            host_arg_types(ps.take(i as int)).len() == i,
            out@ == start + join_with(host_arg_types(ps.take(i as int)), ", "@),
        decreases n - i,
    {
        let ty = f.params[i].ty;
        assert(ps.take(i + 1).drop_last() =~= ps.take(i as int));
        assert(ps[i as int].ty == ty);
        proof {
            lemma_join_push(host_arg_types(ps.take(i as int)), ", "@, host_arg_type(ty));
        }
        if i > 0 {
            out.append(", ");
        }
        out.append(host_arg_type_str(ty));
        i = i + 1;
    }
    assert(ps.take(n as int) =~= ps);
    out.append(") -> Result<");
    out.append(host_result_type_str(f));
    out.append("> + Send + Sync + 'static");
}

// ── Wasmtime value types ──────────────

/// The Wasmtime value types that one parameter lowers to.
pub open spec fn host_param_val_types(ty: Type) -> Seq<Seq<char>> {
    match ty {
        Type::String | Type::Bytes => seq!["ValType::I32"@, "ValType::I32"@],
        Type::Int => seq!["ValType::I32"@],
        Type::Float => seq!["ValType::F64"@],
    }
}

/// The Wasmtime value types of all parameters, in order.
pub open spec fn host_params_val_types(ps: Seq<ParamModel>) -> Seq<Seq<char>>
    decreases ps.len(),
{
    if ps.len() == 0 {
        Seq::empty()
    } else {
        host_params_val_types(ps.drop_last()) + host_param_val_types(ps.last().ty)
    }
}

/// The Wasmtime parameter types of an import: those of the parameters, then the result
/// buffer's pointer and capacity when a synchronous function returns a string or bytes.
pub open spec fn host_import_params(f: FunctionModel) -> Seq<Seq<char>> {
    host_params_val_types(f.params) + if !f.is_async && is_buffer_return_spec(f.returns) {
        seq!["ValType::I32"@, "ValType::I32"@]
    } else {
        Seq::empty()
    }
}

/// The Wasmtime result types of an import.
pub open spec fn host_import_results(f: FunctionModel) -> Seq<Seq<char>> {
    if f.is_async {
        seq!["ValType::I64"@]
    } else {
        match f.returns {
            Some(Type::String) | Some(Type::Bytes) | Some(Type::Int) => seq!["ValType::I32"@],
            Some(Type::Float) => seq!["ValType::F64"@],
            None => Seq::empty(),
        }
    }
}

/// A `vec![..]` of value types.
pub open spec fn val_type_vec(types: Seq<Seq<char>>) -> Seq<char> {
    "vec!["@ + join_with(types, ", "@) + "]"@
}

/// Appends `vec![..]` of the given value types.
fn append_val_type_vec(out: &mut String, types: &Vec<&'static str>)
    ensures
        final(out)@ == old(out)@ + val_type_vec(types@.map_values(|s: &'static str| s@)),
{
    let ghost sv = types@.map_values(|s: &'static str| s@);
    out.append("vec![");
    let ghost start = out@;
    let n = types.len();
    let mut i: usize = 0;
    while i < n
        invariant
            n == types@.len(),
            sv == types@.map_values(|s: &'static str| s@),
            0 <= i <= n,
            out@ == start + join_with(sv.take(i as int), ", "@),
        decreases n - i,
    {
        proof {
            lemma_join_push(sv.take(i as int), ", "@, types@[i as int]@);
            assert(sv.take(i + 1) =~= sv.take(i as int).push(types@[i as int]@));
        }
        if i > 0 {
            out.append(", ");
        }
        out.append(types[i]);
        i = i + 1;
    }
    assert(sv.take(n as int) =~= sv);
    out.append("]");
}

fn push_val(v: &mut Vec<&'static str>, s: &'static str)
    ensures
        final(v)@.map_values(|x: &'static str| x@) == old(v)@.map_values(|x: &'static str| x@).push(
            s@,
        ),
{
    v.push(s);
    assert(v@.map_values(|x: &'static str| x@) =~= old(v)@.map_values(|x: &'static str| x@).push(
        s@,
    ));
}

/// The Wasmtime parameter types of an import.
pub fn host_val_params(f: &Function) -> (r: Vec<&'static str>)
    ensures
        r@.map_values(|s: &'static str| s@) == host_import_params(f@),
{
    let ghost ps = f@.params;
    let mut v: Vec<&'static str> = Vec::new();
    let n = f.params.len();
    let mut i: usize = 0;
    assert(v@.map_values(|s: &'static str| s@) =~= host_params_val_types(ps.take(0)));
    while i < n
        invariant
            n == f.params@.len(),
            ps == f@.params,
            0 <= i <= n,
            v@.map_values(|s: &'static str| s@) == host_params_val_types(ps.take(i as int)),
        decreases n - i,
    {
        let ghost before = v@.map_values(|s: &'static str| s@);
        match f.params[i].ty {
            Type::String | Type::Bytes => {
                push_val(&mut v, "ValType::I32");
                push_val(&mut v, "ValType::I32");
            },
            Type::Int => push_val(&mut v, "ValType::I32"),
            Type::Float => push_val(&mut v, "ValType::F64"),
        }
        assert(ps.take(i + 1).drop_last() =~= ps.take(i as int));
        assert(ps[i as int].ty == f.params@[i as int].ty);
        assert(v@.map_values(|s: &'static str| s@) =~= before + host_param_val_types(
            ps[i as int].ty,
        ));
        i = i + 1;
    }
    assert(ps.take(n as int) =~= ps);
    if !f.is_async && is_buffer_return(f.returns) {
        let ghost before = v@.map_values(|s: &'static str| s@);
        push_val(&mut v, "ValType::I32");
        push_val(&mut v, "ValType::I32");
        assert(v@.map_values(|s: &'static str| s@) =~= before + seq!["ValType::I32"@, "ValType::I32"@]);
    } else {
        assert(v@.map_values(|s: &'static str| s@) =~= host_import_params(f@));
    }
    v
}

/// The Wasmtime result types of an import.
pub fn host_val_results(f: &Function) -> (r: Vec<&'static str>)
    ensures
        r@.map_values(|s: &'static str| s@) == host_import_results(f@),
{
    let mut v: Vec<&'static str> = Vec::new();
    if f.is_async {
        push_val(&mut v, "ValType::I64");
    } else {
        match f.returns {
            Some(Type::String) | Some(Type::Bytes) | Some(Type::Int) => push_val(&mut v, "ValType::I32"),
            Some(Type::Float) => push_val(&mut v, "ValType::F64"),
            None => {},
        }
    }
    assert(v@.map_values(|s: &'static str| s@) =~= host_import_results(f@));
    v
}

// ── Import bodies ──────────────

/// Reading parameter `k` of type `ty`, whose first WASM argument is `i`, into `param{k}`.
pub open spec fn host_param_read(k: nat, ty: Type, i: nat) -> Seq<char> {
    let n = java_local(k);
    match ty {
        Type::String => "            let "@ + n + " = read_string(&caller, memory, params["@ + decimal(
            i,
        ) + "].unwrap_i32(), params["@ + decimal(i + 1) + "].unwrap_i32())?;\n"@,
        Type::Bytes => "            let "@ + n + " = read_bytes(&caller, memory, params["@ + decimal(
            i,
        ) + "].unwrap_i32(), params["@ + decimal(i + 1) + "].unwrap_i32())?;\n"@,
        Type::Int => "            let "@ + n + " = params["@ + decimal(i) + "].unwrap_i32();\n"@,
        Type::Float => "            let "@ + n + " = params["@ + decimal(i) + "].unwrap_f64();\n"@,
    }
}

/// Reading all parameters, in order.
pub open spec fn host_params_reads(ps: Seq<ParamModel>) -> Seq<char>
    decreases ps.len(),
{
    if ps.len() == 0 {
        Seq::empty()
    } else {
        host_params_reads(ps.drop_last()) + host_param_read(
            (ps.len() - 1) as nat,
            ps.last().ty,
            java_arg_count(ps.drop_last()),
        )
    }
}

/// The reads of an import's arguments: the parameters, then the result buffer's pointer and
/// capacity when a synchronous function returns a string or bytes.
pub open spec fn host_reads(f: FunctionModel) -> Seq<char> {
    let i = java_arg_count(f.params);
    host_params_reads(f.params) + if !f.is_async && is_buffer_return_spec(f.returns) {
        "            let result_ptr = params["@ + decimal(i)
            + "].unwrap_i32();\n            let result_max_len = params["@ + decimal(i + 1)
            + "].unwrap_i32();\n"@
    } else {
        Seq::empty()
    }
}

/// The handler call with all argument locals.
pub open spec fn host_handler_call(f: FunctionModel) -> Seq<char> {
    "handler("@ + join_with(java_locals(f.params.len()), ", "@) + ")"@
}

/// How an import hands the handler's result back to WASM: async tokens as `i64` (-1 on
/// failure), strings and bytes through the result buffer (-1 on failure, -2 when the buffer
/// is too small), numbers directly, handler errors of the others as traps.
pub open spec fn host_result_handling(f: FunctionModel) -> Seq<char> {
    let call = host_handler_call(f);
    if f.is_async {
        "            results[0] = Val::I64(match "@ + call
            + " {\n                Ok(token) => token,\n                Err(_) => -1,\n            });\n"@
    } else {
        match f.returns {
            Some(Type::String) => "            match "@ + call
                + " {\n                Ok(result) => {\n                    write_buffer_result(&mut caller, memory, result_ptr, result_max_len, result.as_bytes(), results)?;\n                }\n                Err(_) => results[0] = Val::I32(-1),\n            }\n"@,
            Some(Type::Bytes) => "            match "@ + call
                + " {\n                Ok(result) => {\n                    write_buffer_result(&mut caller, memory, result_ptr, result_max_len, &result, results)?;\n                }\n                Err(_) => results[0] = Val::I32(-1),\n            }\n"@,
            Some(Type::Int) => "            results[0] = Val::I32("@ + call + "?);\n"@,
            Some(Type::Float) => "            results[0] = Val::F64("@ + call + "?.to_bits());\n"@,
            None => "            "@ + call + "?;\n"@,
        }
    }
}

/// The start of an import's registration: the linker call with the import's signature,
/// and the handler lookup that traps when no handler was set.
pub open spec fn host_registration_head(f: FunctionModel, module: Seq<char>) -> Seq<char> {
    "\n        let handler = self."@ + f.name + ".clone();\n"@
        + "        linker.func_new(Self::MODULE, \""@ + f.name + "\", FuncType::new(&engine, "@
        + val_type_vec(host_import_params(f)) + ", "@ + val_type_vec(host_import_results(f))
        + "), move |mut caller: Caller<'_, T>, params: &[Val], results: &mut [Val]| -> Result<()> {\n"@
        + "            let handler = handler.as_ref().ok_or_else(|| anyhow!(\"No handler registered for host function "@
        + module + "::"@ + f.name + "\"))?;\n"@
}

/// The body of an import after the handler lookup.
pub open spec fn host_registration_body(f: FunctionModel) -> Seq<char> {
    (if needs_memory_spec(f) {
        "            let memory = guest_memory(&mut caller)?;\n"@
    } else {
        Seq::empty()
    }) + host_reads(f) + host_result_handling(f) + "            Ok(())\n        })?;\n"@
}

/// The registration of one import in the linker.
pub open spec fn host_registration(f: FunctionModel, module: Seq<char>) -> Seq<char> {
    host_registration_head(f, module) + host_registration_body(f)
}

fn append_host_param_read(out: &mut String, k: u128, ty: Type, i: u128)
    requires
        i < u128::MAX,
    ensures
        final(out)@ == old(out)@ + host_param_read(k as nat, ty, i as nat),
{
    out.append("            let ");
    out.append("param");
    append_decimal(out, k);
    match ty {
        Type::String => {
            out.append(" = read_string(&caller, memory, params[");
            append_decimal(out, i);
            out.append("].unwrap_i32(), params[");
            append_decimal(out, i + 1);
            out.append("].unwrap_i32())?;\n");
        },
        Type::Bytes => {
            out.append(" = read_bytes(&caller, memory, params[");
            append_decimal(out, i);
            out.append("].unwrap_i32(), params[");
            append_decimal(out, i + 1);
            out.append("].unwrap_i32())?;\n");
        },
        Type::Int => {
            out.append(" = params[");
            append_decimal(out, i);
            out.append("].unwrap_i32();\n");
        },
        Type::Float => {
            out.append(" = params[");
            append_decimal(out, i);
            out.append("].unwrap_f64();\n");
        },
    }
}

fn append_host_reads(out: &mut String, f: &Function)
    ensures
        final(out)@ == old(out)@ + host_reads(f@),
{
    let ghost ps = f@.params;
    let ghost start = out@;
    let mut arg_idx: u128 = 0;
    let n = f.params.len();
    let mut i: usize = 0;
    while i < n
        invariant
            n == f.params@.len(),
            ps == f@.params,
            0 <= i <= n,
            arg_idx == java_arg_count(ps.take(i as int)),
            arg_idx <= 2 * i,
            out@ == start + host_params_reads(ps.take(i as int)),
        decreases n - i,
    {
        let ty = f.params[i].ty;
        assert(ps.take(i + 1).drop_last() =~= ps.take(i as int));
        assert(ps[i as int].ty == ty);
        append_host_param_read(out, i as u128, ty, arg_idx);
        match ty {
            Type::String | Type::Bytes => {
                arg_idx = arg_idx + 2;
            },
            Type::Int | Type::Float => {
                arg_idx = arg_idx + 1;
            },
        }
        i = i + 1;
    }
    assert(ps.take(n as int) =~= ps);
    if !f.is_async && is_buffer_return(f.returns) {
        out.append("            let result_ptr = params[");
        append_decimal(out, arg_idx);
        out.append("].unwrap_i32();\n            let result_max_len = params[");
        append_decimal(out, arg_idx + 1);
        out.append("].unwrap_i32();\n");
    }
}

fn append_host_handler_call(out: &mut String, f: &Function)
    ensures
        final(out)@ == old(out)@ + host_handler_call(f@),
{
    out.append("handler(");
    let ghost start = out@;
    let n = f.params.len();
    let mut i: usize = 0;
    while i < n
        invariant
            n == f@.params.len(),
            0 <= i <= n,
            java_locals(i as nat).len() == i,
            out@ == start + join_with(java_locals(i as nat), ", "@),
        decreases n - i,
    {
        proof {
            lemma_join_push(java_locals(i as nat), ", "@, java_local(i as nat));
        }
        if i > 0 {
            out.append(", ");
        }
        out.append("param");
        append_decimal(out, i as u128);
        i = i + 1;
    }
    out.append(")");
}

fn append_host_result_handling(out: &mut String, f: &Function)
    ensures
        final(out)@ == old(out)@ + host_result_handling(f@),
{
    if f.is_async {
        out.append("            results[0] = Val::I64(match ");
        append_host_handler_call(out, f);
        out.append(" {\n                Ok(token) => token,\n                Err(_) => -1,\n            });\n");
        return;
    }
    match f.returns {
        Some(Type::String) => {
            out.append("            match ");
            append_host_handler_call(out, f);
            out.append(
                " {\n                Ok(result) => {\n                    write_buffer_result(&mut caller, memory, result_ptr, result_max_len, result.as_bytes(), results)?;\n                }\n                Err(_) => results[0] = Val::I32(-1),\n            }\n",
            );
        },
        Some(Type::Bytes) => {
            out.append("            match ");
            append_host_handler_call(out, f);
            out.append(
                " {\n                Ok(result) => {\n                    write_buffer_result(&mut caller, memory, result_ptr, result_max_len, &result, results)?;\n                }\n                Err(_) => results[0] = Val::I32(-1),\n            }\n",
            );
        },
        Some(Type::Int) => {
            out.append("            results[0] = Val::I32(");
            append_host_handler_call(out, f);
            out.append("?);\n");
        },
        Some(Type::Float) => {
            out.append("            results[0] = Val::F64(");
            append_host_handler_call(out, f);
            out.append("?.to_bits());\n");
        },
        None => {
            out.append("            ");
            append_host_handler_call(out, f);
            out.append("?;\n");
        },
    }
}

fn append_host_registration_head(out: &mut String, f: &Function, module: &str)
    ensures
        final(out)@ == old(out)@ + host_registration_head(f@, module@),
{
    out.append("\n        let handler = self.");
    out.append(f.name.as_str());
    out.append(".clone();\n");
    out.append("        linker.func_new(Self::MODULE, \"");
    out.append(f.name.as_str());
    out.append("\", FuncType::new(&engine, ");
    append_val_type_vec(out, &host_val_params(f));
    out.append(", ");
    append_val_type_vec(out, &host_val_results(f));
    out.append(
        "), move |mut caller: Caller<'_, T>, params: &[Val], results: &mut [Val]| -> Result<()> {\n",
    );
    out.append(
        "            let handler = handler.as_ref().ok_or_else(|| anyhow!(\"No handler registered for host function ",
    );
    out.append(module);
    out.append("::");
    out.append(f.name.as_str());
    out.append("\"))?;\n");
}

fn append_host_registration_body(out: &mut String, f: &Function)
    ensures
        final(out)@ == old(out)@ + host_registration_body(f@),
{
    if needs_memory(f) {
        out.append("            let memory = guest_memory(&mut caller)?;\n");
    }
    append_host_reads(out, f);
    append_host_result_handling(out, f);
    out.append("            Ok(())\n        })?;\n");
}

fn append_host_registration(out: &mut String, f: &Function, module: &str)
    ensures
        final(out)@ == old(out)@ + host_registration(f@, module@),
{
    append_host_registration_head(out, f, module);
    append_host_registration_body(out, f);
}

// ── The whole adapter ──────────────

/// The handler field of each host function.
pub open spec fn host_handler_fields(fs: Seq<FunctionModel>) -> Seq<char>
    decreases fs.len(),
{
    if fs.len() == 0 {
        Seq::empty()
    } else {
        host_handler_fields(fs.drop_last()) + "    "@ + fs.last().name + ": Option<Arc<dyn "@
            + handler_signature(fs.last()) + ">>,\n"@
    }
}

/// The builder method that sets each host function's handler.
pub open spec fn host_with_methods(fs: Seq<FunctionModel>) -> Seq<char>
    decreases fs.len(),
{
    if fs.len() == 0 {
        Seq::empty()
    } else {
        let f = fs.last();
        host_with_methods(fs.drop_last()) + "    pub fn with_"@ + f.name
            + "<F>(mut self, handler: F) -> Self\n    where\n        F: "@ + handler_signature(f)
            + ",\n    {\n        self.functions."@ + f.name
            + " = Some(Arc::new(handler));\n        self\n    }\n\n"@
    }
}

/// The registration of each import.
pub open spec fn host_registrations(fs: Seq<FunctionModel>, module: Seq<char>) -> Seq<char>
    decreases fs.len(),
{
    if fs.len() == 0 {
        Seq::empty()
    } else {
        host_registrations(fs.drop_last(), module) + host_registration(fs.last(), module)
    }
}

/// The import names `module::name`, quoted.
pub open spec fn host_import_names(fs: Seq<FunctionModel>, module: Seq<char>) -> Seq<Seq<char>>
    decreases fs.len(),
{
    if fs.len() == 0 {
        Seq::empty()
    } else {
        host_import_names(fs.drop_last(), module).push(
            "\""@ + module + "::"@ + fs.last().name + "\""@,
        )
    }
}

/// The functions of a Rust host adapter that find the guest's memory, read arguments out of
/// it and write buffer results into it: a result longer than the caller's buffer is not
/// written, and `-2` is returned in its place.
pub const HOST_SUPPORT_FUNCTIONS: &'static str = "#[allow(dead_code)]\nfn guest_memory<T>(caller: &mut Caller<'_, T>) -> Result<Memory> {\n    caller\n        .get_export(\"memory\")\n        .and_then(|export| export.into_memory())\n        .ok_or_else(|| anyhow!(\"guest module does not export memory\"))\n}\n\n#[allow(dead_code)]\nfn read_bytes<T>(caller: &Caller<'_, T>, memory: Memory, ptr: i32, len: i32) -> Result<Vec<u8>> {\n    let mut buffer = vec![0u8; usize::try_from(len)?];\n    memory.read(caller, usize::try_from(ptr)?, &mut buffer)?;\n    Ok(buffer)\n}\n\n#[allow(dead_code)]\nfn read_string<T>(caller: &Caller<'_, T>, memory: Memory, ptr: i32, len: i32) -> Result<String> {\n    Ok(String::from_utf8(read_bytes(caller, memory, ptr, len)?)?)\n}\n\n#[allow(dead_code)]\nfn write_buffer_result<T>(\n    caller: &mut Caller<'_, T>,\n    memory: Memory,\n    ptr: i32,\n    max_len: i32,\n    bytes: &[u8],\n    results: &mut [Val],\n) -> Result<()> {\n    if bytes.len() > usize::try_from(max_len)? {\n        results[0] = Val::I32(-2);\n        return Ok(());\n    }\n    memory.write(&mut *caller, usize::try_from(ptr)?, bytes)?;\n    results[0] = Val::I32(i32::try_from(bytes.len())?);\n    Ok(())\n}\n";

/// The functions that read guest memory and write result buffers.
pub open spec fn host_support_functions() -> Seq<char> {
    HOST_SUPPORT_FUNCTIONS@
}

/// The Rust host adapter of an extension, given the name of its struct.
pub open spec fn rust_host_text(m: ManifestModel, s: Seq<char>) -> Seq<char> {
    let module = wasm_module_of(m.extension);
    "use anyhow::{anyhow, Result};\nuse std::sync::Arc;\nuse wasmtime::{Caller, FuncType, Linker, Memory, Val, ValType};\n\n"@
        + "#[derive(Clone, Default)]\npub struct "@ + s + " {\n"@ + host_handler_fields(m.functions)
        + "}\n\n"@ + "#[derive(Default)]\npub struct "@ + s + "Builder {\n    functions: "@ + s
        + ",\n}\n\n"@ + "impl "@ + s + "Builder {\n"@ + host_with_methods(m.functions)
        + "    pub fn build(self) -> "@ + s + " {\n        self.functions\n    }\n}\n\n"@ + "impl "@
        + s + " {\n    pub const EXTENSION_NAME: &'static str = \""@ + m.extension.name
        + "\";\n    pub const MODULE: &'static str = \""@ + module + "\";\n\n"@
        + "    pub fn builder() -> "@ + s + "Builder {\n        "@ + s
        + "Builder::default()\n    }\n\n"@
        + "    pub fn register<T: 'static>(&self, linker: &mut Linker<T>) -> Result<Vec<&'static str>> {\n        let engine = linker.engine().clone();\n"@
        + host_registrations(m.functions, module) + "\n        Ok(vec!["@ + join_with(
        host_import_names(m.functions, module),
        ", "@,
    ) + "])\n    }\n}\n\n"@ + host_support_functions()
}

/// The name of the adapter struct of an extension.
pub open spec fn rust_host_struct_name(m: ManifestModel) -> Seq<char> {
    upper_camel(m.extension.name) + "HostFunctions"@
}

/// The Rust host adapter of an extension.
pub open spec fn rust_host_code(m: ManifestModel) -> Seq<char> {
    rust_host_text(m, rust_host_struct_name(m))
}

fn append_handler_fields(out: &mut String, m: &Manifest)
    ensures
        final(out)@ == old(out)@ + host_handler_fields(m@.functions),
{
    let ghost fs = m@.functions;
    let ghost start = out@;
    let n = m.functions.len();
    let mut i: usize = 0;
    while i < n
        invariant
            n == m.functions@.len(),
            fs == m@.functions,
            0 <= i <= n,
            out@ == start + host_handler_fields(fs.take(i as int)),
        decreases n - i,
    {
        let f = &m.functions[i];
        assert(fs[i as int] == f@);
        out.append("    ");
        out.append(f.name.as_str());
        out.append(": Option<Arc<dyn ");
        append_handler_signature(out, f);
        out.append(">>,\n");
        assert(fs.take(i + 1).drop_last() =~= fs.take(i as int));
        i = i + 1;
    }
    assert(fs.take(n as int) =~= fs);
}

fn append_with_methods(out: &mut String, m: &Manifest)
    ensures
        final(out)@ == old(out)@ + host_with_methods(m@.functions),
{
    let ghost fs = m@.functions;
    let ghost start = out@;
    let n = m.functions.len();
    let mut i: usize = 0;
    while i < n
        invariant
            n == m.functions@.len(),
            fs == m@.functions,
            0 <= i <= n,
            out@ == start + host_with_methods(fs.take(i as int)),
        decreases n - i,
    {
        let f = &m.functions[i];
        assert(fs[i as int] == f@);
        out.append("    pub fn with_");
        out.append(f.name.as_str());
        out.append("<F>(mut self, handler: F) -> Self\n    where\n        F: ");
        append_handler_signature(out, f);
        out.append(",\n    {\n        self.functions.");
        out.append(f.name.as_str());
        out.append(" = Some(Arc::new(handler));\n        self\n    }\n\n");
        assert(fs.take(i + 1).drop_last() =~= fs.take(i as int));
        i = i + 1;
    }
    assert(fs.take(n as int) =~= fs);
}

fn append_registrations(out: &mut String, m: &Manifest, module: &str)
    ensures
        final(out)@ == old(out)@ + host_registrations(m@.functions, module@),
{
    let ghost fs = m@.functions;
    let ghost start = out@;
    let n = m.functions.len();
    let mut i: usize = 0;
    while i < n
        invariant
            n == m.functions@.len(),
            fs == m@.functions,
            0 <= i <= n,
            out@ == start + host_registrations(fs.take(i as int), module@),
        decreases n - i,
    {
        let f = &m.functions[i];
        assert(fs[i as int] == f@);
        append_host_registration(out, f, module);
        assert(fs.take(i + 1).drop_last() =~= fs.take(i as int));
        i = i + 1;
    }
    assert(fs.take(n as int) =~= fs);
}

fn append_import_names(out: &mut String, m: &Manifest, module: &str)
    ensures
        final(out)@ == old(out)@ + join_with(host_import_names(m@.functions, module@), ", "@),
{
    let ghost fs = m@.functions;
    let ghost start = out@;
    let n = m.functions.len();
    let mut i: usize = 0;
    while i < n
        invariant
            n == m.functions@.len(),
            fs == m@.functions,
            0 <= i <= n,
            host_import_names(fs.take(i as int), module@).len() == i,
            out@ == start + join_with(host_import_names(fs.take(i as int), module@), ", "@),
        decreases n - i,
    {
        let f = &m.functions[i];
        assert(fs[i as int] == f@);
        assert(fs.take(i + 1).drop_last() =~= fs.take(i as int));
        proof {
            lemma_join_push(
                host_import_names(fs.take(i as int), module@),
                ", "@,
                "\""@ + module@ + "::"@ + f@.name + "\""@,
            );
        }
        if i > 0 {
            out.append(", ");
        }
        out.append("\"");
        out.append(module);
        out.append("::");
        out.append(f.name.as_str());
        out.append("\"");
        i = i + 1;
    }
    assert(fs.take(n as int) =~= fs);
}

/// The Rust host adapter of an extension, given the name of its struct: a struct with one
/// optional handler per host function, its builder, and `register`, which adds every import
/// to a Wasmtime linker and returns their `module::name`s.
pub fn render_rust_host(m: &Manifest, struct_name: &str) -> (r: String)
    ensures
        r@ == rust_host_text(m@, struct_name@),
{
    let module = wasm_module_name(m);
    let s = struct_name;
    let mut out = String::new();
    out.append(
        "use anyhow::{anyhow, Result};\nuse std::sync::Arc;\nuse wasmtime::{Caller, FuncType, Linker, Memory, Val, ValType};\n\n",
    );
    out.append("#[derive(Clone, Default)]\npub struct ");
    out.append(s);
    out.append(" {\n");
    append_handler_fields(&mut out, m);
    out.append("}\n\n");
    out.append("#[derive(Default)]\npub struct ");
    out.append(s);
    out.append("Builder {\n    functions: ");
    out.append(s);
    out.append(",\n}\n\n");
    out.append("impl ");
    out.append(s);
    out.append("Builder {\n");
    append_with_methods(&mut out, m);
    out.append("    pub fn build(self) -> ");
    out.append(s);
    out.append(" {\n        self.functions\n    }\n}\n\n");
    out.append("impl ");
    out.append(s);
    out.append(" {\n    pub const EXTENSION_NAME: &'static str = \"");
    out.append(m.extension.name.as_str());
    out.append("\";\n    pub const MODULE: &'static str = \"");
    out.append(module);
    out.append("\";\n\n");
    out.append("    pub fn builder() -> ");
    out.append(s);
    out.append("Builder {\n        ");
    out.append(s);
    out.append("Builder::default()\n    }\n\n");
    out.append(
        "    pub fn register<T: 'static>(&self, linker: &mut Linker<T>) -> Result<Vec<&'static str>> {\n        let engine = linker.engine().clone();\n",
    );
    append_registrations(&mut out, m, module);
    out.append("\n        Ok(vec![");
    append_import_names(&mut out, m, module);
    out.append("])\n    }\n}\n\n");
    out.append(HOST_SUPPORT_FUNCTIONS);
    out
}

/// The Rust host adapter of an extension: its struct is named after the extension in
/// UpperCamelCase, followed by `HostFunctions`.
pub fn generate_rust_host_code(m: &Manifest) -> (r: String)
    ensures
        r@ == rust_host_code(m@),
{
    let upper = to_upper_camel_case(m.extension.name.as_str());
    let mut name = upper;
    name.append("HostFunctions");
    render_rust_host(m, name.as_str())
}


// ── What the host reads agrees with what the guest passes ──────────────

/// The read of parameter `k`: its first WASM argument is the one after those of the
/// parameters before it.
pub open spec fn host_read_of(ps: Seq<ParamModel>, k: int) -> Seq<char> {
    host_param_read(k as nat, ps[k].ty, java_arg_count(ps.take(k)))
}

proof fn lemma_host_reads_in_order(ps: Seq<ParamModel>)
    ensures
        host_params_reads(ps) == concat_all(Seq::new(ps.len(), |k: int| host_read_of(ps, k))),
    decreases ps.len(),
{
    let reads = Seq::new(ps.len(), |k: int| host_read_of(ps, k));
    if ps.len() == 0 {
        assert(reads =~= Seq::<Seq<char>>::empty());
    } else {
        let rest = ps.drop_last();
        lemma_host_reads_in_order(rest);
        assert forall|k: int| 0 <= k < rest.len() implies host_read_of(rest, k) == host_read_of(ps, k) by {
            assert(rest.take(k) =~= ps.take(k));
            assert(rest[k] == ps[k]);
        }
        assert(reads.drop_last() =~= Seq::new(rest.len(), |k: int| host_read_of(rest, k)));
        assert(ps.take(ps.len() - 1) =~= rest);
        assert(reads.last() == host_read_of(ps, ps.len() - 1));
    }
}

proof fn lemma_guest_pairs_count(ps: Seq<ParamModel>)
    ensures
        guest_param_pairs(ps).len() == java_arg_count(ps),
    decreases ps.len(),
{
    if ps.len() > 0 {
        lemma_guest_pairs_count(ps.drop_last());
    }
}

proof fn lemma_guest_pairs_prefix(ps: Seq<ParamModel>, j: int)
    requires
        0 <= j <= ps.len(),
    ensures
        guest_param_pairs(ps.take(j)).len() <= guest_param_pairs(ps).len(),
        forall|x: int|
            0 <= x < guest_param_pairs(ps.take(j)).len() ==> #[trigger] guest_param_pairs(ps)[x]
                == guest_param_pairs(ps.take(j))[x],
    decreases ps.len(),
{
    if j == ps.len() {
        assert(ps.take(j) =~= ps);
    } else {
        lemma_guest_pairs_prefix(ps.drop_last(), j);
        assert(ps.drop_last().take(j) =~= ps.take(j));
    }
}

/// The Wasmtime host reads each string or bytes parameter from the two WASM arguments where
/// the guest passes it: the pointer from the one that the guest's import declares as
/// `<name>_ptr` and the length from the next one, `<name>_len`.
pub proof fn lemma_host_reads_pointer_then_length(f: FunctionModel, k: int)
    requires
        0 <= k < f.params.len(),
        f.params[k].ty == Type::String || f.params[k].ty == Type::Bytes,
    ensures
        guest_import_pairs(f)[java_arg_count(f.params.take(k)) as int] == (
            f.params[k].name + "_ptr"@,
            "*const u8"@,
        ),
        guest_import_pairs(f)[java_arg_count(f.params.take(k)) + 1int] == (
            f.params[k].name + "_len"@,
            "i32"@,
        ),
        f.params[k].ty == Type::String ==> contains_text(
            host_reads(f),
            " = read_string(&caller, memory, params["@ + decimal(java_arg_count(f.params.take(k)))
                + "].unwrap_i32(), params["@ + decimal(java_arg_count(f.params.take(k)) + 1)
                + "].unwrap_i32())?;\n"@,
        ),
        f.params[k].ty == Type::Bytes ==> contains_text(
            host_reads(f),
            " = read_bytes(&caller, memory, params["@ + decimal(java_arg_count(f.params.take(k)))
                + "].unwrap_i32(), params["@ + decimal(java_arg_count(f.params.take(k)) + 1)
                + "].unwrap_i32())?;\n"@,
        ),
{
    let ps = f.params;
    let p = ps[k];
    let i = java_arg_count(ps.take(k));
    // the guest side
    let front = ps.take(k + 1);
    assert(front.drop_last() =~= ps.take(k));
    assert(front.last() == p);
    let gf = guest_param_pairs(front);
    assert(gf == guest_param_pairs(ps.take(k)) + wasm_params_spec(p.name, p.ty));
    lemma_guest_pairs_count(ps.take(k));
    lemma_guest_pairs_prefix(ps, k + 1);
    assert(gf[i as int] == wasm_params_spec(p.name, p.ty)[0]);
    assert(gf[i + 1int] == wasm_params_spec(p.name, p.ty)[1]);
    assert(guest_param_pairs(ps)[i as int] == gf[i as int]);
    assert(guest_param_pairs(ps)[i + 1int] == gf[i + 1int]);
    let gp = guest_param_pairs(ps);
    let tail: Seq<(Seq<char>, Seq<char>)> = if !f.is_async && is_buffer_return_spec(f.returns) {
        seq![("result_ptr"@, "*mut u8"@), ("result_max_len"@, "i32"@)]
    } else {
        Seq::empty()
    };
    assert(guest_import_pairs(f) == gp + tail);
    assert((gp + tail)[i as int] == gp[i as int]);
    assert((gp + tail)[i + 1int] == gp[i + 1int]);
    // the host side
    lemma_host_reads_in_order(ps);
    let parts = Seq::new(ps.len(), |j: int| host_read_of(ps, j));
    lemma_concat_all_contains(parts, k);
    let read = host_read_of(ps, k);
    let n = java_local(k as nat);
    let mid = if p.ty == Type::String {
        " = read_string(&caller, memory, params["@
    } else {
        " = read_bytes(&caller, memory, params["@
    };
    let t = mid + decimal(i) + "].unwrap_i32(), params["@ + decimal(i + 1) + "].unwrap_i32())?;\n"@;
    assert(read =~= ("            let "@ + n) + t + Seq::<char>::empty());
    lemma_contains_middle("            let "@ + n, t, Seq::<char>::empty());
    lemma_contains_trans(host_params_reads(ps), read, t);
    let extra = if !f.is_async && is_buffer_return_spec(f.returns) {
        "            let result_ptr = params["@ + decimal(java_arg_count(ps))
            + "].unwrap_i32();\n            let result_max_len = params["@ + decimal(
            java_arg_count(ps) + 1,
        ) + "].unwrap_i32();\n"@
    } else {
        Seq::empty()
    };
    assert(host_reads(f) =~= Seq::<char>::empty() + host_params_reads(ps) + extra);
    lemma_contains_middle(Seq::<char>::empty(), host_params_reads(ps), extra);
    lemma_contains_trans(host_reads(f), host_params_reads(ps), t);
}

} // verus!
