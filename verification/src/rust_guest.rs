//! The Rust guest module: PyO3 functions that call the WASM imports of an extension, and
//! the registration of the Python module that holds them.

use vstd::prelude::*;

use crate::model::{
    Function, FunctionModel, Manifest, ManifestModel, Param, ParamModel, Type,
    function_is_generatable, is_buffer_return, is_buffer_return_spec, manifest_is_generatable,
    wasm_module_name, wasm_module_of,
};
use crate::text::{
    append_debug_list, str_debug, concat_all, contains_text, debug_list, ends_with_text, join_with,
    lacks_pair, lemma_concat_all_contains, lemma_contains_middle, lemma_contains_trans,
    lemma_join_push, lemma_lacks_pair_add, lemma_lacks_pair_excludes,
    lemma_lacks_pair_seal, sealed_text, starts_with_text,
};

verus! {

// ── Lowering of parameters to WASM import parameters ──────────────

/// The Rust type that a PyO3 function takes for a parameter type.
pub open spec fn rust_py_type_spec(ty: Type) -> Seq<char> {
    match ty {
        Type::String => "&str"@,
        Type::Int => "i32"@,
        Type::Float => "f64"@,
        Type::Bytes => "&[u8]"@,
    }
}

/// The Rust type that a PyO3 function takes for a parameter type.
pub fn rust_py_type(ty: Type) -> (r: &'static str)
    ensures
        r@ == rust_py_type_spec(ty),
{
    match ty {
        Type::String => "&str",
        Type::Int => "i32",
        Type::Float => "f64",
        Type::Bytes => "&[u8]",
    }
}

/// The WASM import parameters, with their Rust types, that one parameter lowers to:
/// strings and bytes to a pointer and a length, integers to `i32`, floats to `f64`.
pub open spec fn wasm_params_spec(name: Seq<char>, ty: Type) -> Seq<(Seq<char>, Seq<char>)> {
    match ty {
        Type::String | Type::Bytes => seq![(name + "_ptr"@, "*const u8"@), (name + "_len"@, "i32"@)],
        Type::Int => seq![(name, "i32"@)],
        Type::Float => seq![(name, "f64"@)],
    }
}

/// Model of a list of named import parameters.
pub open spec fn pairs_view(v: Seq<(String, &'static str)>) -> Seq<(Seq<char>, Seq<char>)> {
    v.map_values(|w: (String, &'static str)| (w.0@, w.1@))
}

fn suffixed(name: &str, suffix: &str) -> (r: String)
    ensures
        r@ == name@ + suffix@,
{
    let mut s = name.to_owned();
    s.append(suffix);
    s
}

/// The WASM import parameters that one parameter lowers to.
pub fn wasm_params(name: &str, ty: Type) -> (r: Vec<(String, &'static str)>)
    ensures
        pairs_view(r@) == wasm_params_spec(name@, ty),
{
    let mut v: Vec<(String, &'static str)> = Vec::new();
    match ty {
        Type::String | Type::Bytes => {
            v.push((suffixed(name, "_ptr"), "*const u8"));
            v.push((suffixed(name, "_len"), "i32"));
        },
        Type::Int => {
            v.push((name.to_owned(), "i32"));
        },
        Type::Float => {
            v.push((name.to_owned(), "f64"));
        },
    }
    assert(pairs_view(v@) =~= wasm_params_spec(name@, ty));
    v
}

/// The import parameters of all parameters, in order.
pub open spec fn guest_param_pairs(ps: Seq<ParamModel>) -> Seq<(Seq<char>, Seq<char>)>
    decreases ps.len(),
{
    if ps.len() == 0 {
        Seq::empty()
    } else {
        guest_param_pairs(ps.drop_last()) + wasm_params_spec(ps.last().name, ps.last().ty)
    }
}

/// The import parameters of a function: those of its parameters, then the result buffer's
/// pointer and capacity when a synchronous function returns a string or bytes.
pub open spec fn guest_import_pairs(f: FunctionModel) -> Seq<(Seq<char>, Seq<char>)> {
    guest_param_pairs(f.params) + if !f.is_async && is_buffer_return_spec(f.returns) {
        seq![("result_ptr"@, "*mut u8"@), ("result_max_len"@, "i32"@)]
    } else {
        Seq::empty()
    }
}

fn push_pairs(v: &mut Vec<(String, &'static str)>, w: &Vec<(String, &'static str)>)
    ensures
        pairs_view(final(v)@) == pairs_view(old(v)@) + pairs_view(w@),
{
    let ghost start = pairs_view(v@);
    let n = w.len();
    let mut j: usize = 0;
    while j < n
        invariant
            n == w@.len(),
            0 <= j <= n,
            pairs_view(v@) == start + pairs_view(w@.take(j as int)),
        decreases n - j,
    {
        let item = (w[j].0.clone(), w[j].1);
        let ghost before = v@;
        v.push(item);
        assert(pairs_view(v@) =~= pairs_view(before).push((item.0@, item.1@)));
        assert(pairs_view(w@.take(j + 1)) =~= pairs_view(w@.take(j as int)).push(
            (w@[j as int].0@, w@[j as int].1@),
        ));
        j = j + 1;
    }
    assert(w@.take(n as int) =~= w@);
}

/// The import parameters of a function, with their Rust types.
pub fn guest_import_params(f: &Function) -> (r: Vec<(String, &'static str)>)
    ensures
        pairs_view(r@) == guest_import_pairs(f@),
{
    let ghost ps = f@.params;
    let mut v: Vec<(String, &'static str)> = Vec::new();
    let n = f.params.len();
    let mut i: usize = 0;
    assert(pairs_view(v@) =~= guest_param_pairs(ps.take(0)));
    while i < n
        invariant
            n == f.params@.len(),
            ps == f@.params,
            0 <= i <= n,
            pairs_view(v@) == guest_param_pairs(ps.take(i as int)),
        decreases n - i,
    {
        let p: &Param = &f.params[i];
        let w = wasm_params(p.name.as_str(), p.ty);
        push_pairs(&mut v, &w);
        assert(ps.take(i + 1).drop_last() =~= ps.take(i as int));
        assert(ps[i as int] == p@);
        i = i + 1;
    }
    assert(ps.take(n as int) =~= ps);
    if !f.is_async && is_buffer_return(f.returns) {
        let ghost before = pairs_view(v@);
        v.push(("result_ptr".to_owned(), "*mut u8"));
        v.push(("result_max_len".to_owned(), "i32"));
        assert(pairs_view(v@) =~= before + seq![("result_ptr"@, "*mut u8"@), ("result_max_len"@, "i32"@)]);
    } else {
        assert(pairs_view(v@) =~= guest_import_pairs(f@));
    }
    v
}

/// The WASM result type of an import: an `i64` token for async functions, `i32` for a
/// buffer length or an integer, `f64` for a float, `()` for none.
pub open spec fn wasm_return_type_spec(f: FunctionModel) -> Seq<char> {
    if f.is_async {
        "i64"@
    } else {
        match f.returns {
            Some(Type::String) | Some(Type::Bytes) | Some(Type::Int) => "i32"@,
            Some(Type::Float) => "f64"@,
            None => "()"@,
        }
    }
}

/// The WASM result type of an import: `i64` for an async function, else by the result
/// type. It is defined for the functions that can be generated; an async function that
/// does not return a string has no import type.
pub fn wasm_return_type(f: &Function) -> (r: &'static str)
    requires
        function_is_generatable(f@),
    ensures
        r@ == wasm_return_type_spec(f@),
{
    if f.is_async {
        return "i64";
    }
    match f.returns {
        Some(Type::String) | Some(Type::Bytes) | Some(Type::Int) => "i32",
        Some(Type::Float) => "f64",
        None => "()",
    }
}

/// The name under which a function is imported.
pub fn wasm_import_name(f: &Function) -> (r: String)
    ensures
        r@ == f@.name,
{
    f.name.clone()
}

// ── Import declarations ──────────────

/// One declared import parameter per line.
pub open spec fn pair_lines(pairs: Seq<(Seq<char>, Seq<char>)>) -> Seq<char>
    decreases pairs.len(),
{
    if pairs.len() == 0 {
        Seq::empty()
    } else {
        pair_lines(pairs.drop_last()) + "        "@ + pairs.last().0 + ": "@ + pairs.last().1
            + ",\n"@
    }
}

/// The declaration of one WASM import.
pub open spec fn guest_import_decl(f: FunctionModel) -> Seq<char> {
    "    fn "@ + f.name + "(\n"@ + pair_lines(guest_import_pairs(f)) + "    ) -> "@
        + wasm_return_type_spec(f) + ";\n"@
}

/// The declarations of all imports, in order.
pub open spec fn guest_import_decls(fs: Seq<FunctionModel>) -> Seq<char>
    decreases fs.len(),
{
    if fs.len() == 0 {
        Seq::empty()
    } else {
        guest_import_decls(fs.drop_last()) + guest_import_decl(fs.last())
    }
}

fn append_import_decl(out: &mut String, f: &Function)
    requires
        function_is_generatable(f@),
    ensures
        final(out)@ == old(out)@ + guest_import_decl(f@),
{
    out.append("    fn ");
    out.append(f.name.as_str());
    out.append("(\n");
    let pairs = guest_import_params(f);
    let ghost pv = pairs_view(pairs@);
    let ghost mid = out@;
    let n = pairs.len();
    let mut j: usize = 0;
    while j < n
        invariant
            n == pairs@.len(),
            pv == pairs_view(pairs@),
            0 <= j <= n,
            out@ == mid + pair_lines(pv.take(j as int)),
        decreases n - j,
    {
        out.append("        ");
        out.append(pairs[j].0.as_str());
        out.append(": ");
        out.append(pairs[j].1);
        out.append(",\n");
        assert(pv.take(j + 1).drop_last() =~= pv.take(j as int));
        assert(pv[j as int] == (pairs@[j as int].0@, pairs@[j as int].1@));
        j = j + 1;
    }
    assert(pv.take(n as int) =~= pv);
    out.append("    ) -> ");
    out.append(wasm_return_type(f));
    out.append(";\n");
}

// ── PyO3 wrappers ──────────────

/// The PyO3 result type of a synchronous function.
pub open spec fn py_result_type(ret: Option<Type>) -> Seq<char> {
    match ret {
        Some(Type::String) => "PyResult<String>"@,
        Some(Type::Int) => "PyResult<i32>"@,
        Some(Type::Float) => "PyResult<f64>"@,
        Some(Type::Bytes) => "PyResult<Vec<u8>>"@,
        None => "PyResult<()>"@,
    }
}

fn py_result_type_str(ret: Option<Type>) -> (r: &'static str)
    ensures
        r@ == py_result_type(ret),
{
    match ret {
        Some(Type::String) => "PyResult<String>",
        Some(Type::Int) => "PyResult<i32>",
        Some(Type::Float) => "PyResult<f64>",
        Some(Type::Bytes) => "PyResult<Vec<u8>>",
        None => "PyResult<()>",
    }
}

/// A Python-facing parameter: `name: type`.
pub open spec fn py_param(p: ParamModel) -> Seq<char> {
    p.name + ": "@ + rust_py_type_spec(p.ty)
}

/// The Python-facing parameters, in order.
pub open spec fn py_params(ps: Seq<ParamModel>) -> Seq<Seq<char>>
    decreases ps.len(),
{
    if ps.len() == 0 {
        Seq::empty()
    } else {
        py_params(ps.drop_last()).push(py_param(ps.last()))
    }
}

/// The Python-facing parameters, each after `, ` (they follow `py: Python`).
pub open spec fn py_params_after_py(ps: Seq<ParamModel>) -> Seq<char>
    decreases ps.len(),
{
    if ps.len() == 0 {
        Seq::empty()
    } else {
        py_params_after_py(ps.drop_last()) + ", "@ + py_param(ps.last())
    }
}

/// The byte view that a string or bytes parameter is passed through.
pub open spec fn bytes_binding(p: ParamModel) -> Seq<char> {
    match p.ty {
        Type::String => "        let "@ + p.name + "_bytes = "@ + p.name + ".as_bytes();\n"@,
        Type::Bytes => "        let "@ + p.name + "_bytes = "@ + p.name + ";\n"@,
        _ => Seq::empty(),
    }
}

/// The byte views of all parameters.
pub open spec fn bytes_bindings(ps: Seq<ParamModel>) -> Seq<char>
    decreases ps.len(),
{
    if ps.len() == 0 {
        Seq::empty()
    } else {
        bytes_bindings(ps.drop_last()) + bytes_binding(ps.last())
    }
}

/// One argument of an import call, on a line of its own.
pub open spec fn call_line(arg: Seq<char>) -> Seq<char> {
    "            "@ + arg + ",\n"@
}

/// The import-call arguments that one parameter lowers to: the pointer and the length of its
/// bytes for a string or bytes, the value itself otherwise.
pub open spec fn call_arg(p: ParamModel) -> Seq<char> {
    match p.ty {
        Type::String | Type::Bytes => call_line(p.name + "_bytes.as_ptr()"@) + call_line(
            p.name + "_bytes.len() as i32"@,
        ),
        Type::Int | Type::Float => call_line(p.name),
    }
}

/// The import-call arguments of all parameters.
pub open spec fn call_args(ps: Seq<ParamModel>) -> Seq<char>
    decreases ps.len(),
{
    if ps.len() == 0 {
        Seq::empty()
    } else {
        call_args(ps.drop_last()) + call_arg(ps.last())
    }
}

pub open spec fn host_call_failed_check() -> Seq<char> {
    "        if ret < 0 {\n"@
        + "            return Err(PyErr::new::<pyo3::exceptions::PyRuntimeError, _>(\"host call failed\"));\n"@
        + "        }\n"@
}

/// How a synchronous wrapper hands the import's result to Python.
pub open spec fn sync_return_tail(ret: Option<Type>) -> Seq<char> {
    match ret {
        Some(Type::String) => host_call_failed_check()
            + "        Ok(String::from_utf8_lossy(&result_buf[..ret as usize]).into_owned())\n"@,
        Some(Type::Bytes) => host_call_failed_check() + "        Ok(result_buf[..ret as usize].to_vec())\n"@,
        Some(Type::Int) => "        Ok(ret)\n"@,
        None => "        Ok(())\n"@,
        Some(Type::Float) => "        Ok(ret)\n"@,
    }
}

/// The PyO3 function for a synchronous host function.
pub open spec fn sync_wrapper(f: FunctionModel) -> Seq<char> {
    let buffer = is_buffer_return_spec(f.returns);
    "#[pyfunction]\n#[pyo3(name = \""@ + f.name + "\")]\n"@ + "fn py_"@ + f.name + "("@ + join_with(
        py_params(f.params),
        ", "@,
    ) + ") -> "@ + py_result_type(f.returns) + " {\n"@ + "    unsafe {\n"@ + bytes_bindings(
        f.params,
    ) + (if buffer {
        "        "@ + "let mut result_buf = vec![0u8; MAX_RESULT as usize];"@ + "\n"@
    } else {
        Seq::empty()
    }) + (if f.returns is Some {
        "        let ret = "@
    } else {
        "        "@
    }) + f.name + "(\n"@ + call_args(f.params) + (if buffer {
        call_line("result_buf.as_mut_ptr()"@) + call_line("MAX_RESULT"@)
    } else {
        Seq::empty()
    }) + "        );\n"@ + sync_return_tail(f.returns) + "    }\n}\n"@
}

/// The PyO3 function for an async host function: it starts the host call and hands the
/// token to the asyncio integration, which returns an awaitable.
pub open spec fn async_wrapper(f: FunctionModel) -> Seq<char> {
    "#[pyfunction]\n#[pyo3(name = \""@ + f.name + "\")]\n"@ + "fn py_"@ + f.name + "(py: Python"@
        + py_params_after_py(f.params) + ") -> PyResult<Py<PyAny>> {\n"@ + "    unsafe {\n"@
        + bytes_bindings(f.params) + "        let token = "@ + f.name + "(\n"@ + call_args(f.params)
        + "        );\n"@ + "        if token < 0 {\n"@
        + "            return Err(PyErr::new::<pyo3::exceptions::PyRuntimeError, _>(\"async host call failed\"));\n"@
        + "        }\n"@ + "        let asyncio = py.import(\"boomslang_host.asyncio\")?;\n"@
        + "        let from_host_token = asyncio.getattr(\"from_host_token\")?;\n"@
        + "        let future = from_host_token.call1((token,))?;\n"@
        + "        Ok(future.unbind())\n"@ + "    }\n}\n"@
}

/// The PyO3 function of a host function.
pub open spec fn pyo3_wrapper(f: FunctionModel) -> Seq<char> {
    if f.is_async {
        async_wrapper(f)
    } else {
        sync_wrapper(f)
    }
}

/// The PyO3 functions of all host functions, each followed by a blank line.
pub open spec fn pyo3_wrappers(fs: Seq<FunctionModel>) -> Seq<char>
    decreases fs.len(),
{
    if fs.len() == 0 {
        Seq::empty()
    } else {
        pyo3_wrappers(fs.drop_last()) + pyo3_wrapper(fs.last()) + "\n"@
    }
}

fn append_bytes_bindings(out: &mut String, f: &Function)
    ensures
        final(out)@ == old(out)@ + bytes_bindings(f@.params),
{
    let ghost ps = f@.params;
    let ghost start = out@;
    let n = f.params.len();
    let mut i: usize = 0;
    while i < n
        invariant
            n == f.params@.len(),
            ps == f@.params,
            0 <= i <= n,
            out@ == start + bytes_bindings(ps.take(i as int)),
        decreases n - i,
    {
        let p = &f.params[i];
        if p.ty == Type::String {
            out.append("        let ");
            out.append(p.name.as_str());
            out.append("_bytes = ");
            out.append(p.name.as_str());
            out.append(".as_bytes();\n");
        } else if p.ty == Type::Bytes {
            out.append("        let ");
            out.append(p.name.as_str());
            out.append("_bytes = ");
            out.append(p.name.as_str());
            out.append(";\n");
        }
        assert(ps.take(i + 1).drop_last() =~= ps.take(i as int));
        assert(ps[i as int] == p@);
        i = i + 1;
    }
    assert(ps.take(n as int) =~= ps);
}

fn append_call_args(out: &mut String, f: &Function)
    ensures
        final(out)@ == old(out)@ + call_args(f@.params),
{
    let ghost ps = f@.params;
    let ghost start = out@;
    let n = f.params.len();
    let mut i: usize = 0;
    while i < n
        invariant
            n == f.params@.len(),
            ps == f@.params,
            0 <= i <= n,
            out@ == start + call_args(ps.take(i as int)),
        decreases n - i,
    {
        let p = &f.params[i];
        match p.ty {
            Type::String | Type::Bytes => {
                out.append("            ");
                out.append(p.name.as_str());
                out.append("_bytes.as_ptr()");
                out.append(",\n");
                out.append("            ");
                out.append(p.name.as_str());
                out.append("_bytes.len() as i32");
                out.append(",\n");
            },
            Type::Int | Type::Float => {
                out.append("            ");
                out.append(p.name.as_str());
                out.append(",\n");
            },
        }
        assert(ps.take(i + 1).drop_last() =~= ps.take(i as int));
        assert(ps[i as int] == p@);
        i = i + 1;
    }
    assert(ps.take(n as int) =~= ps);
}

fn append_py_params(out: &mut String, f: &Function)
    ensures
        final(out)@ == old(out)@ + join_with(py_params(f@.params), ", "@),
{
    let ghost ps = f@.params;
    let ghost start = out@;
    let n = f.params.len();
    let mut i: usize = 0;
    while i < n
        invariant
            n == f.params@.len(),
            ps == f@.params,
            0 <= i <= n,
            py_params(ps.take(i as int)).len() == i,
            out@ == start + join_with(py_params(ps.take(i as int)), ", "@),
        decreases n - i,
    {
        let p = &f.params[i];
        assert(ps.take(i + 1).drop_last() =~= ps.take(i as int));
        assert(ps[i as int] == p@);
        proof {
            lemma_join_push(py_params(ps.take(i as int)), ", "@, py_param(p@));
        }
        if i > 0 {
            out.append(", ");
        }
        out.append(p.name.as_str());
        out.append(": ");
        out.append(rust_py_type(p.ty));
        i = i + 1;
    }
    assert(ps.take(n as int) =~= ps);
}

fn append_py_params_after_py(out: &mut String, f: &Function)
    ensures
        final(out)@ == old(out)@ + py_params_after_py(f@.params),
{
    let ghost ps = f@.params;
    let ghost start = out@;
    let n = f.params.len();
    let mut i: usize = 0;
    while i < n
        invariant
            n == f.params@.len(),
            ps == f@.params,
            0 <= i <= n,
            out@ == start + py_params_after_py(ps.take(i as int)),
        decreases n - i,
    {
        let p = &f.params[i];
        out.append(", ");
        out.append(p.name.as_str());
        out.append(": ");
        out.append(rust_py_type(p.ty));
        assert(ps.take(i + 1).drop_last() =~= ps.take(i as int));
        assert(ps[i as int] == p@);
        i = i + 1;
    }
    assert(ps.take(n as int) =~= ps);
}

fn append_sync_return_tail(out: &mut String, ret: Option<Type>)
    ensures
        final(out)@ == old(out)@ + sync_return_tail(ret),
{
    match ret {
        Some(Type::String) => {
            out.append("        if ret < 0 {\n");
            out.append(
                "            return Err(PyErr::new::<pyo3::exceptions::PyRuntimeError, _>(\"host call failed\"));\n",
            );
            out.append("        }\n");
            out.append(
                "        Ok(String::from_utf8_lossy(&result_buf[..ret as usize]).into_owned())\n",
            );
        },
        Some(Type::Bytes) => {
            out.append("        if ret < 0 {\n");
            out.append(
                "            return Err(PyErr::new::<pyo3::exceptions::PyRuntimeError, _>(\"host call failed\"));\n",
            );
            out.append("        }\n");
            out.append("        Ok(result_buf[..ret as usize].to_vec())\n");
        },
        Some(Type::Int) => {
            out.append("        Ok(ret)\n");
        },
        None => {
            out.append("        Ok(())\n");
        },
        Some(Type::Float) => {
            out.append("        Ok(ret)\n");
        },
    }
}

/// The PyO3 function for an async host function.
pub fn generate_rust_async_pyo3_wrapper(f: &Function) -> (r: String)
    requires
        f@.returns == Some(Type::String),
    ensures
        r@ == async_wrapper(f@),
{
    let mut out = String::new();
    out.append("#[pyfunction]\n#[pyo3(name = \"");
    out.append(f.name.as_str());
    out.append("\")]\n");
    out.append("fn py_");
    out.append(f.name.as_str());
    out.append("(py: Python");
    append_py_params_after_py(&mut out, f);
    out.append(") -> PyResult<Py<PyAny>> {\n");
    out.append("    unsafe {\n");
    append_bytes_bindings(&mut out, f);
    let import = wasm_import_name(f);
    out.append("        let token = ");
    out.append(import.as_str());
    out.append("(\n");
    append_call_args(&mut out, f);
    out.append("        );\n");
    out.append("        if token < 0 {\n");
    out.append(
        "            return Err(PyErr::new::<pyo3::exceptions::PyRuntimeError, _>(\"async host call failed\"));\n",
    );
    out.append("        }\n");
    out.append("        let asyncio = py.import(\"boomslang_host.asyncio\")?;\n");
    out.append("        let from_host_token = asyncio.getattr(\"from_host_token\")?;\n");
    out.append("        let future = from_host_token.call1((token,))?;\n");
    out.append("        Ok(future.unbind())\n");
    out.append("    }\n}\n");
    out
}

/// The PyO3 function of a host function: it lowers the Python arguments, calls the WASM
/// import and lifts its result.
pub fn generate_rust_pyo3_wrapper(f: &Function) -> (r: String)
    requires
        function_is_generatable(f@),
    ensures
        r@ == pyo3_wrapper(f@),
{
    if f.is_async {
        return generate_rust_async_pyo3_wrapper(f);
    }
    let buffer = is_buffer_return(f.returns);
    let mut out = String::new();
    out.append("#[pyfunction]\n#[pyo3(name = \"");
    out.append(f.name.as_str());
    out.append("\")]\n");
    out.append("fn py_");
    out.append(f.name.as_str());
    out.append("(");
    append_py_params(&mut out, f);
    out.append(") -> ");
    out.append(py_result_type_str(f.returns));
    out.append(" {\n");
    out.append("    unsafe {\n");
    append_bytes_bindings(&mut out, f);
    if buffer {
        out.append("        ");
        out.append("let mut result_buf = vec![0u8; MAX_RESULT as usize];");
        out.append("\n");
    }
    let import = wasm_import_name(f);
    if f.returns.is_some() {
        out.append("        let ret = ");
    } else {
        out.append("        ");
    }
    out.append(import.as_str());
    out.append("(\n");
    append_call_args(&mut out, f);
    if buffer {
        out.append("            ");
        out.append("result_buf.as_mut_ptr()");
        out.append(",\n");
        out.append("            ");
        out.append("MAX_RESULT");
        out.append(",\n");
    }
    out.append("        );\n");
    append_sync_return_tail(&mut out, f.returns);
    out.append("    }\n}\n");
    out
}

// ── The whole module ──────────────

/// The Python module name that the extension registers.
pub open spec fn py_module_name(m: ManifestModel) -> Seq<char> {
    "_"@ + m.extension.name
}

/// The block of WASM import declarations, present when the extension has functions.
pub open spec fn guest_import_block(m: ManifestModel) -> Seq<char> {
    if m.functions.len() == 0 {
        Seq::empty()
    } else {
        "#[link(wasm_import_module = \""@ + wasm_module_of(m.extension) + "\")]\n"@
            + "unsafe extern \"C\" {\n"@ + guest_import_decls(m.functions) + "}\n\n"@
    }
}

/// The module registration and prewarm functions, given the Rust array literal of the
/// modules to prewarm.
pub open spec fn guest_registration(m: ManifestModel, modules: Seq<char>) -> Seq<char> {
    let py = py_module_name(m);
    "unsafe extern \"C\" {\n    #[allow(non_snake_case)]\n    fn PyInit_"@ + py
        + "() -> *mut pyo3::ffi::PyObject;\n}\n\n"@
        + "pub fn register() {\n    unsafe {\n        pyo3::ffi::PyImport_AppendInittab(\n            b\""@
        + py + "\\0\".as_ptr() as *const i8,\n            Some(PyInit_"@ + py
        + "),\n        );\n    }\n}\n\n"@ + "pub fn prewarm(py: Python) {\n"@ + "    let modules = "@
        + modules + ";\n"@
        + "    for name in modules {\n        match py.import(name) {\n            Ok(_) => eprintln!(\"[prewarm] OK: {}\", name),\n            Err(e) => eprintln!(\"[prewarm] FAILED: {} - {:?}\", name, e),\n        }\n    }\n}\n\n"@
}

/// The line that adds the PyO3 function of the host function `name` to the Python module.
pub open spec fn add_function_line(name: Seq<char>) -> Seq<char> {
    "    m.add_function(wrap_pyfunction!(py_"@ + name + ", m)?)?;\n"@
}

/// One `add_function` line per host function.
pub open spec fn module_function_lines(fs: Seq<FunctionModel>) -> Seq<char>
    decreases fs.len(),
{
    if fs.len() == 0 {
        Seq::empty()
    } else {
        module_function_lines(fs.drop_last()) + add_function_line(fs.last().name)
    }
}

/// The `#[pymodule]` function that adds every PyO3 function to the Python module.
pub open spec fn guest_pymodule(m: ManifestModel) -> Seq<char> {
    "#[pymodule]\nfn "@ + py_module_name(m) + "(m: &Bound<'_, PyModule>) -> PyResult<()> {\n"@
        + module_function_lines(m.functions) + "    Ok(())\n}\n"@
}

/// The Rust guest module of an extension, given the Rust array literal of the modules to
/// prewarm.
pub open spec fn rust_guest_text(m: ManifestModel, modules: Seq<char>) -> Seq<char> {
    "use pyo3::prelude::*;\n\n"@ + guest_import_block(m)
        + "const MAX_RESULT: i32 = 1024 * 1024;\n\n"@ + pyo3_wrappers(m.functions)
        + guest_registration(m, modules) + guest_pymodule(m)
}

/// The whole Rust guest module of an extension: the modules to prewarm are written as the
/// debug notation of their list.
pub open spec fn rust_guest_code(m: ManifestModel) -> Seq<char> {
    rust_guest_text(m, debug_list(m.extension.prewarm))
}

fn append_import_block(out: &mut String, m: &Manifest)
    requires
        manifest_is_generatable(m@),
    ensures
        final(out)@ == old(out)@ + guest_import_block(m@),
{
    if m.functions.len() == 0 {
        return;
    }
    let ghost fs = m@.functions;
    out.append("#[link(wasm_import_module = \"");
    out.append(wasm_module_name(m));
    out.append("\")]\n");
    out.append("unsafe extern \"C\" {\n");
    let ghost start = out@;
    let n = m.functions.len();
    let mut i: usize = 0;
    while i < n
        invariant
            n == m.functions@.len(),
            fs == m@.functions,
            manifest_is_generatable(m@),
            0 <= i <= n,
            out@ == start + guest_import_decls(fs.take(i as int)),
        decreases n - i,
    {
        assert(fs[i as int] == m.functions@[i as int]@);
        assert(function_is_generatable(fs[i as int]));
        append_import_decl(out, &m.functions[i]);
        assert(fs.take(i + 1).drop_last() =~= fs.take(i as int));
        i = i + 1;
    }
    assert(fs.take(n as int) =~= fs);
    out.append("}\n\n");
}

fn append_wrappers(out: &mut String, m: &Manifest)
    requires
        manifest_is_generatable(m@),
    ensures
        final(out)@ == old(out)@ + pyo3_wrappers(m@.functions),
{
    let ghost fs = m@.functions;
    let ghost start = out@;
    let n = m.functions.len();
    let mut i: usize = 0;
    while i < n
        invariant
            n == m.functions@.len(),
            fs == m@.functions,
            manifest_is_generatable(m@),
            0 <= i <= n,
            out@ == start + pyo3_wrappers(fs.take(i as int)),
        decreases n - i,
    {
        assert(fs[i as int] == m.functions@[i as int]@);
        assert(function_is_generatable(fs[i as int]));
        let w = generate_rust_pyo3_wrapper(&m.functions[i]);
        out.append(w.as_str());
        out.append("\n");
        assert(fs.take(i + 1).drop_last() =~= fs.take(i as int));
        i = i + 1;
    }
    assert(fs.take(n as int) =~= fs);
}

fn append_module_function_lines(out: &mut String, m: &Manifest)
    ensures
        final(out)@ == old(out)@ + module_function_lines(m@.functions),
{
    let ghost fs = m@.functions;
    let ghost start = out@;
    let n = m.functions.len();
    let mut i: usize = 0;
    while i < n
        invariant
            n == m.functions@.len(),
            fs == m@.functions,
            0 <= i <= n,
            out@ == start + module_function_lines(fs.take(i as int)),
        decreases n - i,
    {
        assert(fs[i as int] == m.functions@[i as int]@);
        out.append("    m.add_function(wrap_pyfunction!(py_");
        out.append(m.functions[i].name.as_str());
        out.append(", m)?)?;\n");
        assert(fs.take(i + 1).drop_last() =~= fs.take(i as int));
        i = i + 1;
    }
    assert(fs.take(n as int) =~= fs);
}

fn append_registration(out: &mut String, m: &Manifest, modules: &str)
    ensures
        final(out)@ == old(out)@ + guest_registration(m@, modules@),
{
    let mut py = "_".to_owned();
    py.append(m.extension.name.as_str());
    out.append("unsafe extern \"C\" {\n    #[allow(non_snake_case)]\n    fn PyInit_");
    out.append(py.as_str());
    out.append("() -> *mut pyo3::ffi::PyObject;\n}\n\n");
    out.append(
        "pub fn register() {\n    unsafe {\n        pyo3::ffi::PyImport_AppendInittab(\n            b\"",
    );
    out.append(py.as_str());
    out.append("\\0\".as_ptr() as *const i8,\n            Some(PyInit_");
    out.append(py.as_str());
    out.append("),\n        );\n    }\n}\n\n");
    out.append("pub fn prewarm(py: Python) {\n");
    out.append("    let modules = ");
    out.append(modules);
    out.append(";\n");
    out.append(
        "    for name in modules {\n        match py.import(name) {\n            Ok(_) => eprintln!(\"[prewarm] OK: {}\", name),\n            Err(e) => eprintln!(\"[prewarm] FAILED: {} - {:?}\", name, e),\n        }\n    }\n}\n\n",
    );
}

/// The Rust guest module of an extension: the WASM import declarations, a PyO3 function per
/// host function, the `register` and `prewarm` functions and the `#[pymodule]`.
pub fn generate_rust_code(m: &Manifest) -> (r: String)
    requires
        manifest_is_generatable(m@),
    ensures
        r@ == rust_guest_code(m@),
{
    let mut modules = String::new();
    append_debug_list(&mut modules, &m.extension.prewarm);
    render_rust_guest(m, modules.as_str())
}

/// The Rust guest module of an extension, given the Rust array literal of the modules that
/// `prewarm` imports.
pub fn render_rust_guest(m: &Manifest, modules: &str) -> (r: String)
    requires
        manifest_is_generatable(m@),
    ensures
        r@ == rust_guest_text(m@, modules@),
{
    let mut out = String::new();
    out.append("use pyo3::prelude::*;\n\n");
    append_import_block(&mut out, m);
    out.append("const MAX_RESULT: i32 = 1024 * 1024;\n\n");
    append_wrappers(&mut out, m);
    append_registration(&mut out, m, modules);
    out.append("#[pymodule]\nfn ");
    out.append("_");
    out.append(m.extension.name.as_str());
    out.append("(m: &Bound<'_, PyModule>) -> PyResult<()> {\n");
    append_module_function_lines(&mut out, m);
    out.append("    Ok(())\n}\n");
    out
}


// ── What the guest module promises ──────────────

/// A slot of a WASM import: the name and Rust type that the import declares for it, and
/// the argument that the PyO3 function passes in it.
pub struct ImportSlot {
    pub name: Seq<char>,
    pub rust_type: Seq<char>,
    pub arg: Seq<char>,
}

/// The slots that one parameter takes: the pointer and length of its bytes for a string or
/// bytes, the value itself for an integer or a float.
pub open spec fn param_slots(p: ParamModel) -> Seq<ImportSlot> {
    match p.ty {
        Type::String | Type::Bytes => seq![
            ImportSlot {
                name: p.name + "_ptr"@,
                rust_type: "*const u8"@,
                arg: p.name + "_bytes.as_ptr()"@,
            },
            ImportSlot {
                name: p.name + "_len"@,
                rust_type: "i32"@,
                arg: p.name + "_bytes.len() as i32"@,
            },
        ],
        Type::Int => seq![ImportSlot { name: p.name, rust_type: "i32"@, arg: p.name }],
        Type::Float => seq![ImportSlot { name: p.name, rust_type: "f64"@, arg: p.name }],
    }
}

/// The slots of all parameters, in order.
pub open spec fn params_slots(ps: Seq<ParamModel>) -> Seq<ImportSlot>
    decreases ps.len(),
{
    if ps.len() == 0 {
        Seq::empty()
    } else {
        params_slots(ps.drop_last()) + param_slots(ps.last())
    }
}

/// The slots of a host function's import: those of its parameters, then the result buffer's
/// pointer and capacity when a synchronous function returns a string or bytes.
pub open spec fn import_slots(f: FunctionModel) -> Seq<ImportSlot> {
    params_slots(f.params) + if !f.is_async && is_buffer_return_spec(f.returns) {
        seq![
            ImportSlot {
                name: "result_ptr"@,
                rust_type: "*mut u8"@,
                arg: "result_buf.as_mut_ptr()"@,
            },
            ImportSlot { name: "result_max_len"@, rust_type: "i32"@, arg: "MAX_RESULT"@ },
        ]
    } else {
        Seq::empty()
    }
}

/// What the import declares of each slot.
pub open spec fn slot_decls(slots: Seq<ImportSlot>) -> Seq<(Seq<char>, Seq<char>)> {
    slots.map_values(|s: ImportSlot| (s.name, s.rust_type))
}

/// What the call passes in each slot.
pub open spec fn slot_args(slots: Seq<ImportSlot>) -> Seq<Seq<char>> {
    slots.map_values(|s: ImportSlot| s.arg)
}

/// The argument lines of a call, one per argument, in order.
pub open spec fn call_lines(args: Seq<Seq<char>>) -> Seq<char>
    decreases args.len(),
{
    if args.len() == 0 {
        Seq::empty()
    } else {
        call_lines(args.drop_last()) + call_line(args.last())
    }
}

proof fn lemma_call_lines_add(x: Seq<Seq<char>>, y: Seq<Seq<char>>)
    ensures
        call_lines(x + y) == call_lines(x) + call_lines(y),
    decreases y.len(),
{
    if y.len() == 0 {
        assert(x + y =~= x);
    } else {
        lemma_call_lines_add(x, y.drop_last());
        assert((x + y).drop_last() =~= x + y.drop_last());
        assert((x + y).last() == y.last());
    }
}

proof fn lemma_call_lines_one(x: Seq<char>)
    ensures
        call_lines(seq![x]) == call_line(x),
{
    let e = Seq::<Seq<char>>::empty();
    assert(seq![x].drop_last() =~= e);
    assert(call_lines(e) == Seq::<char>::empty());
    assert(seq![x].last() == x);
    assert(call_lines(seq![x]) == call_lines(e) + call_line(x));
    assert(Seq::<char>::empty() + call_line(x) =~= call_line(x));
}

proof fn lemma_call_lines_two(x: Seq<char>, y: Seq<char>)
    ensures
        call_lines(seq![x, y]) == call_line(x) + call_line(y),
{
    lemma_call_lines_one(x);
    assert(seq![x, y].drop_last() =~= seq![x]);
}

proof fn lemma_params_slots(ps: Seq<ParamModel>)
    ensures
        guest_param_pairs(ps) == slot_decls(params_slots(ps)),
        call_args(ps) == call_lines(slot_args(params_slots(ps))),
    decreases ps.len(),
{
    if ps.len() == 0 {
        assert(slot_decls(params_slots(ps)) =~= Seq::<(Seq<char>, Seq<char>)>::empty());
        assert(slot_args(params_slots(ps)) =~= Seq::<Seq<char>>::empty());
    } else {
        let rest = ps.drop_last();
        let p = ps.last();
        lemma_params_slots(rest);
        assert(slot_decls(params_slots(ps)) =~= slot_decls(params_slots(rest)) + slot_decls(
            param_slots(p),
        ));
        assert(slot_decls(param_slots(p)) =~= wasm_params_spec(p.name, p.ty));
        assert(slot_args(params_slots(ps)) =~= slot_args(params_slots(rest)) + slot_args(
            param_slots(p),
        ));
        lemma_call_lines_add(slot_args(params_slots(rest)), slot_args(param_slots(p)));
        let a = slot_args(param_slots(p));
        if p.ty == Type::String || p.ty == Type::Bytes {
            assert(a =~= seq![p.name + "_bytes.as_ptr()"@, p.name + "_bytes.len() as i32"@]);
            lemma_call_lines_two(p.name + "_bytes.as_ptr()"@, p.name + "_bytes.len() as i32"@);
        } else {
            assert(a =~= seq![p.name]);
            lemma_call_lines_one(p.name);
        }
    }
}

/// Each WASM import and the call of it in its PyO3 function agree slot by slot: the
/// import declares one parameter per slot and the call passes one argument per slot, in the
/// same order, so the two have as many of them.
pub proof fn lemma_import_call_matches_declaration(f: FunctionModel)
    ensures
        guest_import_pairs(f) == slot_decls(import_slots(f)),
        guest_import_decl(f) == "    fn "@ + f.name + "(\n"@ + pair_lines(slot_decls(import_slots(f)))
            + "    ) -> "@ + wasm_return_type_spec(f) + ";\n"@,
        contains_text(
            pyo3_wrapper(f),
            f.name + "(\n"@ + call_lines(slot_args(import_slots(f))) + "        );\n"@,
        ),
        slot_decls(import_slots(f)).len() == slot_args(import_slots(f)).len(),
{
    lemma_params_slots(f.params);
    let ps = params_slots(f.params);
    let buffer = !f.is_async && is_buffer_return_spec(f.returns);
    let tail: Seq<ImportSlot> = if buffer {
        seq![
            ImportSlot {
                name: "result_ptr"@,
                rust_type: "*mut u8"@,
                arg: "result_buf.as_mut_ptr()"@,
            },
            ImportSlot { name: "result_max_len"@, rust_type: "i32"@, arg: "MAX_RESULT"@ },
        ]
    } else {
        Seq::empty()
    };
    assert(slot_decls(import_slots(f)) =~= slot_decls(ps) + slot_decls(tail));
    assert(slot_args(import_slots(f)) =~= slot_args(ps) + slot_args(tail));
    lemma_call_lines_add(slot_args(ps), slot_args(tail));
    let lines = call_lines(slot_args(import_slots(f)));
    if buffer {
        assert(slot_decls(tail) =~= seq![("result_ptr"@, "*mut u8"@), ("result_max_len"@, "i32"@)]);
        assert(slot_args(tail) =~= seq!["result_buf.as_mut_ptr()"@, "MAX_RESULT"@]);
        lemma_call_lines_two("result_buf.as_mut_ptr()"@, "MAX_RESULT"@);
    } else {
        assert(slot_decls(tail) =~= Seq::<(Seq<char>, Seq<char>)>::empty());
        assert(slot_args(tail) =~= Seq::<Seq<char>>::empty());
    }
    lemma_wrapper_holds_call(f, lines);
}

proof fn lemma_wrapper_holds_call(f: FunctionModel, lines: Seq<char>)
    requires
        lines == call_args(f.params) + (if !f.is_async && is_buffer_return_spec(f.returns) {
            call_line("result_buf.as_mut_ptr()"@) + call_line("MAX_RESULT"@)
        } else {
            Seq::empty()
        }),
    ensures
        contains_text(pyo3_wrapper(f), f.name + "(\n"@ + lines + "        );\n"@),
{
    let buffer = !f.is_async && is_buffer_return_spec(f.returns);
    let t = f.name + "(\n"@ + lines + "        );\n"@;
    if f.is_async {
        let w = async_wrapper(f);
        let a = "#[pyfunction]\n#[pyo3(name = \""@ + f.name + "\")]\n"@ + "fn py_"@ + f.name
            + "(py: Python"@ + py_params_after_py(f.params) + ") -> PyResult<Py<PyAny>> {\n"@
            + "    unsafe {\n"@ + bytes_bindings(f.params) + "        let token = "@;
        let b = "        if token < 0 {\n"@
            + "            return Err(PyErr::new::<pyo3::exceptions::PyRuntimeError, _>(\"async host call failed\"));\n"@
            + "        }\n"@ + "        let asyncio = py.import(\"boomslang_host.asyncio\")?;\n"@
            + "        let from_host_token = asyncio.getattr(\"from_host_token\")?;\n"@
            + "        let future = from_host_token.call1((token,))?;\n"@
            + "        Ok(future.unbind())\n"@ + "    }\n}\n"@;
        assert(w =~= a + t + b);
    } else {
        let w = sync_wrapper(f);
        let a = "#[pyfunction]\n#[pyo3(name = \""@ + f.name + "\")]\n"@ + "fn py_"@ + f.name + "("@
            + join_with(py_params(f.params), ", "@) + ") -> "@ + py_result_type(f.returns)
            + " {\n"@ + "    unsafe {\n"@ + bytes_bindings(f.params) + (if buffer {
            "        "@ + "let mut result_buf = vec![0u8; MAX_RESULT as usize];"@ + "\n"@
        } else {
            Seq::empty()
        }) + (if f.returns is Some {
            "        let ret = "@
        } else {
            "        "@
        });
        let b = sync_return_tail(f.returns) + "    }\n}\n"@;
        assert(w =~= a + t + b);
    }
}

/// A synchronous PyO3 function that returns a string or bytes allocates the result buffer,
/// passes its pointer and capacity as the last arguments of the import call and checks the
/// call's status right after it; one that returns bytes hands back the written part of the
/// buffer as its last statement.
pub proof fn lemma_sync_wrapper_result_buffer(f: FunctionModel)
    requires
        !f.is_async,
    ensures
        is_buffer_return_spec(f.returns) ==> contains_text(
            pyo3_wrapper(f),
            "let mut result_buf = vec![0u8; MAX_RESULT as usize];"@,
        ),
        is_buffer_return_spec(f.returns) ==> contains_text(
            pyo3_wrapper(f),
            call_line("result_buf.as_mut_ptr()"@) + call_line("MAX_RESULT"@) + "        );\n"@
                + "        if ret < 0 {\n"@,
        ),
        f.returns == Some(Type::Bytes) ==> ends_with_text(
            pyo3_wrapper(f),
            "        Ok(result_buf[..ret as usize].to_vec())\n"@ + "    }\n}\n"@,
        ),
{
    if is_buffer_return_spec(f.returns) {
        let w = sync_wrapper(f);
        let head = "#[pyfunction]\n#[pyo3(name = \""@ + f.name + "\")]\n"@ + "fn py_"@ + f.name
            + "("@ + join_with(py_params(f.params), ", "@) + ") -> "@ + py_result_type(f.returns)
            + " {\n"@ + "    unsafe {\n"@ + bytes_bindings(f.params);
        let alloc = "let mut result_buf = vec![0u8; MAX_RESULT as usize];"@;
        let call = "\n"@ + "        let ret = "@ + f.name + "(\n"@ + call_args(f.params);
        let buf = call_line("result_buf.as_mut_ptr()"@) + call_line("MAX_RESULT"@) + "        );\n"@
            + "        if ret < 0 {\n"@;
        let rest = "            return Err(PyErr::new::<pyo3::exceptions::PyRuntimeError, _>(\"host call failed\"));\n"@
            + "        }\n"@;
        let ok = if f.returns == Some(Type::Bytes) {
            "        Ok(result_buf[..ret as usize].to_vec())\n"@
        } else {
            "        Ok(String::from_utf8_lossy(&result_buf[..ret as usize]).into_owned())\n"@
        };
        let end = "    }\n}\n"@;
        assert(w =~= head + "        "@ + alloc + call + buf + rest + ok + end);
        assert(w =~= (head + "        "@) + alloc + (call + buf + rest + ok + end));
        assert(w =~= (head + "        "@ + alloc + call) + buf + (rest + ok + end));
        assert(w =~= (head + "        "@ + alloc + call + buf + rest) + (ok + end));
    }
}


/// No parameter name holds `!` directly followed by `[`.
pub open spec fn param_names_lack_pair(ps: Seq<ParamModel>, c1: char, c2: char) -> bool {
    forall|i: int| 0 <= i < ps.len() ==> lacks_pair(#[trigger] ps[i].name, c1, c2)
}

proof fn lemma_fixed_wrapper_text_is_sealed()
    ensures
        sealed_text("#[pyfunction]\n#[pyo3(name = \""@, '!', '['),
        sealed_text("\")]\n"@, '!', '['),
        sealed_text("fn py_"@, '!', '['),
        sealed_text("("@, '!', '['),
        sealed_text(", "@, '!', '['),
        sealed_text(": "@, '!', '['),
        sealed_text(") -> "@, '!', '['),
        sealed_text(" {\n"@, '!', '['),
        sealed_text("    unsafe {\n"@, '!', '['),
        sealed_text("        let "@, '!', '['),
        sealed_text("_bytes = "@, '!', '['),
        sealed_text(".as_bytes();\n"@, '!', '['),
        sealed_text(";\n"@, '!', '['),
        sealed_text("        let ret = "@, '!', '['),
        sealed_text("        "@, '!', '['),
        sealed_text("(\n"@, '!', '['),
        sealed_text("            "@, '!', '['),
        sealed_text(",\n"@, '!', '['),
        sealed_text("_bytes.as_ptr()"@, '!', '['),
        sealed_text("_bytes.len() as i32"@, '!', '['),
        sealed_text("        );\n"@, '!', '['),
        sealed_text("        Ok(ret)\n"@, '!', '['),
        sealed_text("        Ok(())\n"@, '!', '['),
        sealed_text("    }\n}\n"@, '!', '['),
        sealed_text("PyResult<i32>"@, '!', '['),
        sealed_text("PyResult<f64>"@, '!', '['),
        sealed_text("PyResult<()>"@, '!', '['),
        sealed_text("&str"@, '!', '['),
        sealed_text("i32"@, '!', '['),
        sealed_text("f64"@, '!', '['),
        sealed_text("&[u8]"@, '!', '['),
{
    reveal_strlit("#[pyfunction]\n#[pyo3(name = \"");
    reveal_strlit("\")]\n");
    reveal_strlit("fn py_");
    reveal_strlit("(");
    reveal_strlit(", ");
    reveal_strlit(": ");
    reveal_strlit(") -> ");
    reveal_strlit(" {\n");
    reveal_strlit("    unsafe {\n");
    reveal_strlit("        let ");
    reveal_strlit("_bytes = ");
    reveal_strlit(".as_bytes();\n");
    reveal_strlit(";\n");
    reveal_strlit("        let ret = ");
    reveal_strlit("        ");
    reveal_strlit("(\n");
    reveal_strlit("            ");
    reveal_strlit(",\n");
    reveal_strlit("_bytes.as_ptr()");
    reveal_strlit("_bytes.len() as i32");
    reveal_strlit("        );\n");
    reveal_strlit("        Ok(ret)\n");
    reveal_strlit("        Ok(())\n");
    reveal_strlit("    }\n}\n");
    reveal_strlit("PyResult<i32>");
    reveal_strlit("PyResult<f64>");
    reveal_strlit("PyResult<()>");
    reveal_strlit("&str");
    reveal_strlit("i32");
    reveal_strlit("f64");
    reveal_strlit("&[u8]");
}

proof fn lemma_param_texts_lack_bang_bracket(ps: Seq<ParamModel>)
    requires
        param_names_lack_pair(ps, '!', '['),
    ensures
        lacks_pair(join_with(py_params(ps), ", "@), '!', '['),
        lacks_pair(bytes_bindings(ps), '!', '['),
        lacks_pair(call_args(ps), '!', '['),
        bytes_bindings(ps).len() == 0 || bytes_bindings(ps)[bytes_bindings(ps).len() - 1] != '!',
        call_args(ps).len() == 0 || call_args(ps)[call_args(ps).len() - 1] != '!',
        py_params(ps).len() == ps.len(),
    decreases ps.len(),
{
    lemma_fixed_wrapper_text_is_sealed();
    if ps.len() == 0 {
        assert(lacks_pair(Seq::<char>::empty(), '!', '['));
    } else {
        let rest = ps.drop_last();
        let p = ps.last();
        assert(param_names_lack_pair(rest, '!', '[')) by {
            assert forall|i: int| 0 <= i < rest.len() implies lacks_pair(#[trigger] rest[i].name, '!', '[') by {
                assert(rest[i] == ps[i]);
            }
        }
        lemma_param_texts_lack_bang_bracket(rest);
        assert(lacks_pair(p.name, '!', '[')) by {
            assert(ps[ps.len() - 1] == p);
        }
        let n = p.name;
        // the parameter's Python-facing declaration
        lemma_lacks_pair_seal(n, ": "@, '!', '[');
        lemma_lacks_pair_seal(n + ": "@, rust_py_type_spec(p.ty), '!', '[');
        lemma_join_push(py_params(rest), ", "@, py_param(p));
        if rest.len() > 0 {
            lemma_lacks_pair_seal(join_with(py_params(rest), ", "@), ", "@, '!', '[');
            lemma_lacks_pair_add(join_with(py_params(rest), ", "@) + ", "@, py_param(p), '!', '[');
        }
        // its byte view
        let e = Seq::<char>::empty();
        lemma_lacks_pair_seal(e, "        let "@, '!', '[');
        assert(e + "        let "@ =~= "        let "@);
        lemma_lacks_pair_add("        let "@, n, '!', '[');
        lemma_lacks_pair_seal("        let "@ + n, "_bytes = "@, '!', '[');
        lemma_lacks_pair_add("        let "@ + n + "_bytes = "@, n, '!', '[');
        lemma_lacks_pair_seal("        let "@ + n + "_bytes = "@ + n, ".as_bytes();\n"@, '!', '[');
        lemma_lacks_pair_seal("        let "@ + n + "_bytes = "@ + n, ";\n"@, '!', '[');
        assert(lacks_pair(bytes_binding(p), '!', '['));
        let b = bytes_binding(p);
        lemma_lacks_pair_add(bytes_bindings(rest), b, '!', '[');
        if b.len() == 0 {
            assert(bytes_bindings(ps) =~= bytes_bindings(rest));
        } else {
            assert(bytes_bindings(ps)[bytes_bindings(ps).len() - 1] == b[b.len() - 1]);
        }
        // its call arguments
        assert forall|x: Seq<char>| lacks_pair(x, '!', '[') implies lacks_pair(#[trigger] call_line(x), '!', '[')
            && call_line(x)[call_line(x).len() - 1] != '!' by {
            lemma_lacks_pair_add("            "@, x, '!', '[');
            lemma_lacks_pair_seal("            "@ + x, ",\n"@, '!', '[');
        }
        lemma_lacks_pair_seal(n, "_bytes.as_ptr()"@, '!', '[');
        lemma_lacks_pair_seal(n, "_bytes.len() as i32"@, '!', '[');
        lemma_lacks_pair_add(
            call_line(n + "_bytes.as_ptr()"@),
            call_line(n + "_bytes.len() as i32"@),
            '!',
            '[',
        );
        lemma_lacks_pair_add(call_args(rest), call_arg(p), '!', '[');
        let c = call_arg(p);
        assert(c.len() > 0);
        assert(call_args(ps)[call_args(ps).len() - 1] == c[c.len() - 1]);
    }
}

/// A synchronous PyO3 function whose host function returns no string and no bytes allocates
/// no result buffer, as long as no name in the function holds `![` (names are written into
/// the function as they are, so a name such as `mut result_buf = vec![0u8; MAX_RESULT as usize];`
/// for a string parameter spells the allocation line after `let `).
pub proof fn lemma_sync_wrapper_without_buffer(f: FunctionModel)
    requires
        !f.is_async,
        !is_buffer_return_spec(f.returns),
        lacks_pair(f.name, '!', '['),
        param_names_lack_pair(f.params, '!', '['),
    ensures
        !contains_text(pyo3_wrapper(f), "let mut result_buf = vec![0u8; MAX_RESULT as usize];"@),
{
    lemma_fixed_wrapper_text_is_sealed();
    lemma_param_texts_lack_bang_bracket(f.params);
    let n = f.name;
    let l0 = "#[pyfunction]\n#[pyo3(name = \""@;
    let s1 = l0 + n;
    lemma_lacks_pair_add(l0, n, '!', '[');
    lemma_lacks_pair_seal(s1, "\")]\n"@, '!', '[');
    lemma_lacks_pair_seal(s1 + "\")]\n"@, "fn py_"@, '!', '[');
    let s2 = s1 + "\")]\n"@ + "fn py_"@;
    lemma_lacks_pair_add(s2, n, '!', '[');
    lemma_lacks_pair_seal(s2 + n, "("@, '!', '[');
    let pp = join_with(py_params(f.params), ", "@);
    lemma_lacks_pair_add(s2 + n + "("@, pp, '!', '[');
    let s3 = s2 + n + "("@ + pp;
    lemma_lacks_pair_seal(s3, ") -> "@, '!', '[');
    let rt = py_result_type(f.returns);
    assert(sealed_text(rt, '!', '['));
    lemma_lacks_pair_seal(s3 + ") -> "@, rt, '!', '[');
    lemma_lacks_pair_seal(s3 + ") -> "@ + rt, " {\n"@, '!', '[');
    let s4 = s3 + ") -> "@ + rt + " {\n"@;
    lemma_lacks_pair_seal(s4, "    unsafe {\n"@, '!', '[');
    let bb = bytes_bindings(f.params);
    lemma_lacks_pair_add(s4 + "    unsafe {\n"@, bb, '!', '[');
    let e = Seq::<char>::empty();
    lemma_lacks_pair_add(s4 + "    unsafe {\n"@ + bb, e, '!', '[');
    let s5 = s4 + "    unsafe {\n"@ + bb + e;
    let ret = if f.returns is Some {
        "        let ret = "@
    } else {
        "        "@
    };
    lemma_lacks_pair_seal(s5, ret, '!', '[');
    lemma_lacks_pair_add(s5 + ret, n, '!', '[');
    lemma_lacks_pair_seal(s5 + ret + n, "(\n"@, '!', '[');
    let ca = call_args(f.params);
    lemma_lacks_pair_add(s5 + ret + n + "(\n"@, ca, '!', '[');
    lemma_lacks_pair_add(s5 + ret + n + "(\n"@ + ca, e, '!', '[');
    let s6 = s5 + ret + n + "(\n"@ + ca + e;
    lemma_lacks_pair_seal(s6, "        );\n"@, '!', '[');
    let tail = sync_return_tail(f.returns);
    assert(sealed_text(tail, '!', '['));
    lemma_lacks_pair_seal(s6 + "        );\n"@, tail, '!', '[');
    lemma_lacks_pair_seal(s6 + "        );\n"@ + tail, "    }\n}\n"@, '!', '[');
    assert(pyo3_wrapper(f) == s6 + "        );\n"@ + tail + "    }\n}\n"@);
    reveal_strlit("let mut result_buf = vec![0u8; MAX_RESULT as usize];");
    lemma_lacks_pair_excludes(
        pyo3_wrapper(f),
        "let mut result_buf = vec![0u8; MAX_RESULT as usize];"@,
        '!',
        '[',
        24,
    );
}

/// The PyO3 functions, each followed by a blank line, are those of the host functions, one
/// each, in declaration order.
pub proof fn lemma_pyo3_wrappers_in_order(fs: Seq<FunctionModel>)
    ensures
        pyo3_wrappers(fs) == concat_all(fs.map_values(|f: FunctionModel| pyo3_wrapper(f) + "\n"@)),
    decreases fs.len(),
{
    if fs.len() > 0 {
        lemma_pyo3_wrappers_in_order(fs.drop_last());
        assert(fs.map_values(|f: FunctionModel| pyo3_wrapper(f) + "\n"@).drop_last()
            =~= fs.drop_last().map_values(|f: FunctionModel| pyo3_wrapper(f) + "\n"@));
    } else {
        assert(fs.map_values(|f: FunctionModel| pyo3_wrapper(f) + "\n"@) =~= Seq::<Seq<char>>::empty());
    }
}

/// The `add_function` lines are those of the host functions, one each, in declaration order.
pub proof fn lemma_module_function_lines_in_order(fs: Seq<FunctionModel>)
    ensures
        module_function_lines(fs) == concat_all(
            fs.map_values(|f: FunctionModel| add_function_line(f.name)),
        ),
    decreases fs.len(),
{
    if fs.len() > 0 {
        lemma_module_function_lines_in_order(fs.drop_last());
        assert(fs.map_values(|f: FunctionModel| add_function_line(f.name)).drop_last()
            =~= fs.drop_last().map_values(|f: FunctionModel| add_function_line(f.name)));
    } else {
        assert(fs.map_values(|f: FunctionModel| add_function_line(f.name)) =~= Seq::<Seq<char>>::empty());
    }
}

proof fn lemma_regroup_empty_block(a: Seq<char>, e: Seq<char>, k: Seq<char>, w: Seq<char>, r: Seq<char>, p: Seq<char>)
    requires
        e.len() == 0,
    ensures
        a + e + k + w + r + p == (a + k) + (w + r + p),
{
    assert(a + e + k + w + r + p =~= (a + k) + (w + r + p));
}

proof fn lemma_regroup_block(
    a: Seq<char>,
    b: Seq<char>,
    c: Seq<char>,
    d: Seq<char>,
    e: Seq<char>,
    k: Seq<char>,
    w: Seq<char>,
    r: Seq<char>,
    p: Seq<char>,
)
    ensures
        a + (b + c + d + e) + k + w + r + p == (a + b + c + d) + (e + k + w + r + p),
{
    assert(a + (b + c + d + e) + k + w + r + p =~= (a + b + c + d) + (e + k + w + r + p));
}

proof fn lemma_guest_module_start(m: ManifestModel)
    ensures
        m.functions.len() == 0 ==> starts_with_text(
            rust_guest_code(m),
            "use pyo3::prelude::*;\n\n"@ + "const MAX_RESULT: i32 = 1024 * 1024;\n\n"@,
        ),
        m.functions.len() > 0 ==> starts_with_text(
            rust_guest_code(m),
            "use pyo3::prelude::*;\n\n"@ + "#[link(wasm_import_module = \""@ + wasm_module_of(
                m.extension,
            ) + "\")]\n"@,
        ),
{
    let code = rust_guest_code(m);
    let modules = debug_list(m.extension.prewarm);
    let head = "use pyo3::prelude::*;\n\n"@;
    let konst = "const MAX_RESULT: i32 = 1024 * 1024;\n\n"@;
    let w = pyo3_wrappers(m.functions);
    let r = guest_registration(m, modules);
    let p = guest_pymodule(m);
    assert(code == head + guest_import_block(m) + konst + w + r + p);
    if m.functions.len() == 0 {
        lemma_regroup_empty_block(head, guest_import_block(m), konst, w, r, p);
        assert(code == (head + konst) + (w + r + p));
    } else {
        let l1 = "#[link(wasm_import_module = \""@;
        let l2 = "\")]\n"@;
        let decls = "unsafe extern \"C\" {\n"@ + guest_import_decls(m.functions) + "}\n\n"@;
        let wm = wasm_module_of(m.extension);
        assert(guest_import_block(m) == l1 + wm + l2 + decls);
        lemma_regroup_block(head, l1, wm, l2, decls, konst, w, r, p);
        assert(code == (head + l1 + wm + l2) + (decls + konst + w + r + p));
    }
}

proof fn lemma_guest_module_end(m: ManifestModel)
    ensures
        ends_with_text(rust_guest_code(m), guest_pymodule(m)),
{
    let modules = debug_list(m.extension.prewarm);
    let a = "use pyo3::prelude::*;\n\n"@ + guest_import_block(m)
        + "const MAX_RESULT: i32 = 1024 * 1024;\n\n"@ + pyo3_wrappers(m.functions)
        + guest_registration(m, modules);
    assert(rust_guest_code(m) == a + guest_pymodule(m));
}

proof fn lemma_guest_registration_prewarm(m: ManifestModel, modules: Seq<char>)
    ensures
        exists|a: Seq<char>, b: Seq<char>|
            guest_registration(m, modules) == a + ("    let modules = "@ + modules + ";\n"@) + b,
{
    let py = py_module_name(m);
    let reg_head = "unsafe extern \"C\" {\n    #[allow(non_snake_case)]\n    fn PyInit_"@ + py
        + "() -> *mut pyo3::ffi::PyObject;\n}\n\n"@
        + "pub fn register() {\n    unsafe {\n        pyo3::ffi::PyImport_AppendInittab(\n            b\""@
        + py + "\\0\".as_ptr() as *const i8,\n            Some(PyInit_"@ + py
        + "),\n        );\n    }\n}\n\n"@ + "pub fn prewarm(py: Python) {\n"@;
    let reg_tail = "    for name in modules {\n        match py.import(name) {\n            Ok(_) => eprintln!(\"[prewarm] OK: {}\", name),\n            Err(e) => eprintln!(\"[prewarm] FAILED: {} - {:?}\", name, e),\n        }\n    }\n}\n\n"@;
    let t = "    let modules = "@ + modules + ";\n"@;
    assert(guest_registration(m, modules) =~= reg_head + t + reg_tail);
}

proof fn lemma_guest_module_prewarm(m: ManifestModel)
    ensures
        contains_text(
            rust_guest_code(m),
            "    let modules = "@ + debug_list(m.extension.prewarm) + ";\n"@,
        ),
{
    let modules = debug_list(m.extension.prewarm);
    let t = "    let modules = "@ + modules + ";\n"@;
    lemma_guest_registration_prewarm(m, modules);
    let (ra, rb) = choose|a: Seq<char>, b: Seq<char>|
        guest_registration(m, modules) == a + t + b;
    let a = "use pyo3::prelude::*;\n\n"@ + guest_import_block(m)
        + "const MAX_RESULT: i32 = 1024 * 1024;\n\n"@ + pyo3_wrappers(m.functions);
    assert(rust_guest_code(m) == a + guest_registration(m, modules) + guest_pymodule(m));
    assert(rust_guest_code(m) =~= (a + ra) + t + (rb + guest_pymodule(m)));
}

/// The layout of the Rust guest module: it begins with the PyO3 prelude; the WASM import
/// block, under the link line of the import module, follows right after it when the
/// extension has functions, and is left out when it has none; the module ends with the
/// `#[pymodule]` function, which adds one PyO3 function per host function, in declaration
/// order; and `prewarm` imports the modules of the extension's prewarm list, in order.
pub proof fn lemma_guest_module_layout(m: ManifestModel)
    ensures
        starts_with_text(rust_guest_code(m), "use pyo3::prelude::*;\n\n"@),
        m.functions.len() == 0 ==> starts_with_text(
            rust_guest_code(m),
            "use pyo3::prelude::*;\n\n"@ + "const MAX_RESULT: i32 = 1024 * 1024;\n\n"@,
        ),
        m.functions.len() > 0 ==> starts_with_text(
            rust_guest_code(m),
            "use pyo3::prelude::*;\n\n"@ + "#[link(wasm_import_module = \""@ + wasm_module_of(
                m.extension,
            ) + "\")]\n"@,
        ),
        ends_with_text(
            rust_guest_code(m),
            "#[pymodule]\nfn "@ + py_module_name(m) + "(m: &Bound<'_, PyModule>) -> PyResult<()> {\n"@
                + concat_all(m.functions.map_values(|f: FunctionModel| add_function_line(f.name)))
                + "    Ok(())\n}\n"@,
        ),
        contains_text(
            rust_guest_code(m),
            "    let modules = "@ + debug_list(m.extension.prewarm) + ";\n"@,
        ),
{
    lemma_module_function_lines_in_order(m.functions);
    lemma_guest_module_start(m);
    lemma_guest_module_end(m);
    lemma_guest_module_prewarm(m);
    let head = "use pyo3::prelude::*;\n\n"@;
    let code = rust_guest_code(m);
    assert(code =~= head + (guest_import_block(m) + "const MAX_RESULT: i32 = 1024 * 1024;\n\n"@
        + pyo3_wrappers(m.functions) + guest_registration(m, debug_list(m.extension.prewarm))
        + guest_pymodule(m)));
}


/// The import declarations are those of the host functions, one each, in declaration order.
pub proof fn lemma_import_decls_in_order(fs: Seq<FunctionModel>)
    ensures
        guest_import_decls(fs) == concat_all(fs.map_values(|f: FunctionModel| guest_import_decl(f))),
    decreases fs.len(),
{
    if fs.len() > 0 {
        lemma_import_decls_in_order(fs.drop_last());
        assert(fs.map_values(|f: FunctionModel| guest_import_decl(f)).drop_last()
            =~= fs.drop_last().map_values(|f: FunctionModel| guest_import_decl(f)));
    } else {
        assert(fs.map_values(|f: FunctionModel| guest_import_decl(f)) =~= Seq::<Seq<char>>::empty());
    }
}

/// Across the whole Rust guest module, every host function's WASM import and the call of it
/// agree: the module declares the import with one parameter per slot of the function, in
/// order, and holds the function's PyO3 function, whose import call passes one argument per
/// slot, in the same order.
pub proof fn lemma_module_imports_match_calls(m: ManifestModel, i: int)
    requires
        0 <= i < m.functions.len(),
    ensures
        contains_text(rust_guest_code(m), guest_import_decl(m.functions[i])),
        guest_import_decl(m.functions[i]) == "    fn "@ + m.functions[i].name + "(\n"@ + pair_lines(
            slot_decls(import_slots(m.functions[i])),
        ) + "    ) -> "@ + wasm_return_type_spec(m.functions[i]) + ";\n"@,
        contains_text(rust_guest_code(m), pyo3_wrapper(m.functions[i])),
        contains_text(
            pyo3_wrapper(m.functions[i]),
            m.functions[i].name + "(\n"@ + call_lines(slot_args(import_slots(m.functions[i])))
                + "        );\n"@,
        ),
        slot_decls(import_slots(m.functions[i])).len() == slot_args(
            import_slots(m.functions[i]),
        ).len(),
{
    let f = m.functions[i];
    let fs = m.functions;
    lemma_import_call_matches_declaration(f);
    let code = rust_guest_code(m);
    let modules = debug_list(m.extension.prewarm);
    let head = "use pyo3::prelude::*;\n\n"@;
    let konst = "const MAX_RESULT: i32 = 1024 * 1024;\n\n"@;
    let w = pyo3_wrappers(fs);
    let r = guest_registration(m, modules);
    let p = guest_pymodule(m);
    assert(code == head + guest_import_block(m) + konst + w + r + p);
    // the declaration
    lemma_import_decls_in_order(fs);
    let decl_parts = fs.map_values(|g: FunctionModel| guest_import_decl(g));
    lemma_concat_all_contains(decl_parts, i);
    let link = "#[link(wasm_import_module = \""@ + wasm_module_of(m.extension) + "\")]\n"@
        + "unsafe extern \"C\" {\n"@;
    let decls = guest_import_decls(fs);
    assert(guest_import_block(m) == link + decls + "}\n\n"@);
    lemma_contains_middle(link, decls, "}\n\n"@);
    assert(code =~= head + guest_import_block(m) + (konst + w + r + p));
    lemma_contains_middle(head, guest_import_block(m), konst + w + r + p);
    lemma_contains_trans(code, guest_import_block(m), decls);
    lemma_contains_trans(code, decls, guest_import_decl(f));
    // the PyO3 function
    lemma_pyo3_wrappers_in_order(fs);
    let wrapper_parts = fs.map_values(|g: FunctionModel| pyo3_wrapper(g) + "\n"@);
    lemma_concat_all_contains(wrapper_parts, i);
    lemma_contains_middle(Seq::<char>::empty(), pyo3_wrapper(f), "\n"@);
    assert(Seq::<char>::empty() + pyo3_wrapper(f) + "\n"@ =~= pyo3_wrapper(f) + "\n"@);
    assert(code =~= (head + guest_import_block(m) + konst) + w + (r + p));
    lemma_contains_middle(head + guest_import_block(m) + konst, w, r + p);
    lemma_contains_trans(code, w, pyo3_wrapper(f) + "\n"@);
    lemma_contains_trans(code, pyo3_wrapper(f) + "\n"@, pyo3_wrapper(f));
}


proof fn lemma_fixed_module_text_is_sealed()
    ensures
        sealed_text("use pyo3::prelude::*;\n\n"@, '[', 'l'),
        sealed_text("const MAX_RESULT: i32 = 1024 * 1024;\n\n"@, '[', 'l'),
        sealed_text("unsafe extern \"C\" {\n    #[allow(non_snake_case)]\n    fn PyInit_"@, '[', 'l'),
        sealed_text("() -> *mut pyo3::ffi::PyObject;\n}\n\n"@, '[', 'l'),
        sealed_text("pub fn register() {\n    unsafe {\n        pyo3::ffi::PyImport_AppendInittab(\n            b\""@, '[', 'l'),
        sealed_text("\\0\".as_ptr() as *const i8,\n            Some(PyInit_"@, '[', 'l'),
        sealed_text("),\n        );\n    }\n}\n\n"@, '[', 'l'),
        sealed_text("pub fn prewarm(py: Python) {\n"@, '[', 'l'),
        sealed_text("    let modules = "@, '[', 'l'),
        sealed_text("[]"@, '[', 'l'),
        sealed_text(";\n"@, '[', 'l'),
        sealed_text("    for name in modules {\n        match py.import(name) {\n            Ok(_) => eprintln!(\"[prewarm] OK: {}\", name),\n            Err(e) => eprintln!(\"[prewarm] FAILED: {} - {:?}\", name, e),\n        }\n    }\n}\n\n"@, '[', 'l'),
        sealed_text("#[pymodule]\nfn "@, '[', 'l'),
        sealed_text("(m: &Bound<'_, PyModule>) -> PyResult<()> {\n"@, '[', 'l'),
        sealed_text("    Ok(())\n}\n"@, '[', 'l'),
        sealed_text("_"@, '[', 'l'),
{
    reveal_strlit("use pyo3::prelude::*;\n\n");
    reveal_strlit("const MAX_RESULT: i32 = 1024 * 1024;\n\n");
    reveal_strlit("unsafe extern \"C\" {\n    #[allow(non_snake_case)]\n    fn PyInit_");
    reveal_strlit("() -> *mut pyo3::ffi::PyObject;\n}\n\n");
    reveal_strlit("pub fn register() {\n    unsafe {\n        pyo3::ffi::PyImport_AppendInittab(\n            b\"");
    reveal_strlit("\\0\".as_ptr() as *const i8,\n            Some(PyInit_");
    reveal_strlit("),\n        );\n    }\n}\n\n");
    reveal_strlit("pub fn prewarm(py: Python) {\n");
    reveal_strlit("    let modules = ");
    reveal_strlit("[]");
    reveal_strlit(";\n");
    reveal_strlit("    for name in modules {\n        match py.import(name) {\n            Ok(_) => eprintln!(\"[prewarm] OK: {}\", name),\n            Err(e) => eprintln!(\"[prewarm] FAILED: {} - {:?}\", name, e),\n        }\n    }\n}\n\n");
    reveal_strlit("#[pymodule]\nfn ");
    reveal_strlit("(m: &Bound<'_, PyModule>) -> PyResult<()> {\n");
    reveal_strlit("    Ok(())\n}\n");
    reveal_strlit("_");
}

/// With no host functions, the Rust guest module declares no WASM imports: the link
/// attribute appears nowhere in it, as long as the extension name holds no `[l` and the
/// prewarm list is empty (names are written into the module as they are, and prewarm
/// names in their debug notation, which nothing here spells out).
pub proof fn lemma_guest_module_without_functions_has_no_link(m: ManifestModel)
    requires
        m.functions.len() == 0,
        m.extension.prewarm.len() == 0,
        lacks_pair(m.extension.name, '[', 'l'),
    ensures
        !contains_text(rust_guest_code(m), "#[link(wasm_import_module = \""@),
{
    lemma_fixed_module_text_is_sealed();
    let e = Seq::<char>::empty();
    // the module name and the prewarm list
    let py = py_module_name(m);
    lemma_lacks_pair_add("_"@, m.extension.name, '[', 'l');
    reveal_strlit("[");
    reveal_strlit("]");
    reveal_strlit("[]");
    let quoted = m.extension.prewarm.map_values(|s: Seq<char>| str_debug(s));
    assert(quoted =~= Seq::<Seq<char>>::empty());
    assert(join_with(quoted, ", "@) == e);
    let modules = debug_list(m.extension.prewarm);
    assert(modules == "["@ + e + "]"@);
    assert(modules =~= "[]"@);
    // the registration
    lemma_lacks_pair_add("unsafe extern \"C\" {\n    #[allow(non_snake_case)]\n    fn PyInit_"@, py, '[', 'l');
    let r1 = "unsafe extern \"C\" {\n    #[allow(non_snake_case)]\n    fn PyInit_"@ + py;
    lemma_lacks_pair_seal(r1, "() -> *mut pyo3::ffi::PyObject;\n}\n\n"@, '[', 'l');
    lemma_lacks_pair_seal(r1 + "() -> *mut pyo3::ffi::PyObject;\n}\n\n"@, "pub fn register() {\n    unsafe {\n        pyo3::ffi::PyImport_AppendInittab(\n            b\""@, '[', 'l');
    let r2 = r1 + "() -> *mut pyo3::ffi::PyObject;\n}\n\n"@ + "pub fn register() {\n    unsafe {\n        pyo3::ffi::PyImport_AppendInittab(\n            b\""@;
    lemma_lacks_pair_add(r2, py, '[', 'l');
    lemma_lacks_pair_seal(r2 + py, "\\0\".as_ptr() as *const i8,\n            Some(PyInit_"@, '[', 'l');
    let r3 = r2 + py + "\\0\".as_ptr() as *const i8,\n            Some(PyInit_"@;
    lemma_lacks_pair_add(r3, py, '[', 'l');
    lemma_lacks_pair_seal(r3 + py, "),\n        );\n    }\n}\n\n"@, '[', 'l');
    lemma_lacks_pair_seal(r3 + py + "),\n        );\n    }\n}\n\n"@, "pub fn prewarm(py: Python) {\n"@, '[', 'l');
    lemma_lacks_pair_seal(r3 + py + "),\n        );\n    }\n}\n\n"@ + "pub fn prewarm(py: Python) {\n"@, "    let modules = "@, '[', 'l');
    let r4 = r3 + py + "),\n        );\n    }\n}\n\n"@ + "pub fn prewarm(py: Python) {\n"@ + "    let modules = "@;
    lemma_lacks_pair_seal(r4, modules, '[', 'l');
    lemma_lacks_pair_seal(r4 + modules, ";\n"@, '[', 'l');
    lemma_lacks_pair_seal(r4 + modules + ";\n"@, "    for name in modules {\n        match py.import(name) {\n            Ok(_) => eprintln!(\"[prewarm] OK: {}\", name),\n            Err(e) => eprintln!(\"[prewarm] FAILED: {} - {:?}\", name, e),\n        }\n    }\n}\n\n"@, '[', 'l');
    let reg = r4 + modules + ";\n"@ + "    for name in modules {\n        match py.import(name) {\n            Ok(_) => eprintln!(\"[prewarm] OK: {}\", name),\n            Err(e) => eprintln!(\"[prewarm] FAILED: {} - {:?}\", name, e),\n        }\n    }\n}\n\n"@;
    assert(guest_registration(m, modules) == reg);
    // the module function
    lemma_lacks_pair_seal(e, "#[pymodule]\nfn "@, '[', 'l');
    assert(e + "#[pymodule]\nfn "@ =~= "#[pymodule]\nfn "@);
    lemma_lacks_pair_add("#[pymodule]\nfn "@, py, '[', 'l');
    lemma_lacks_pair_seal("#[pymodule]\nfn "@ + py, "(m: &Bound<'_, PyModule>) -> PyResult<()> {\n"@, '[', 'l');
    let p1 = "#[pymodule]\nfn "@ + py + "(m: &Bound<'_, PyModule>) -> PyResult<()> {\n"@;
    assert(module_function_lines(m.functions) == e);
    lemma_lacks_pair_add(p1, e, '[', 'l');
    lemma_lacks_pair_seal(p1 + e, "    Ok(())\n}\n"@, '[', 'l');
    let pm = p1 + e + "    Ok(())\n}\n"@;
    assert(guest_pymodule(m) == pm);
    // the whole module
    assert(guest_import_block(m) == e);
    assert(pyo3_wrappers(m.functions) == e);
    lemma_lacks_pair_add("use pyo3::prelude::*;\n\n"@, e, '[', 'l');
    lemma_lacks_pair_seal("use pyo3::prelude::*;\n\n"@ + e, "const MAX_RESULT: i32 = 1024 * 1024;\n\n"@, '[', 'l');
    let c1 = "use pyo3::prelude::*;\n\n"@ + e + "const MAX_RESULT: i32 = 1024 * 1024;\n\n"@;
    lemma_lacks_pair_add(c1, e, '[', 'l');
    lemma_lacks_pair_add(c1 + e, reg, '[', 'l');
    lemma_lacks_pair_add(c1 + e + reg, pm, '[', 'l');
    assert(rust_guest_code(m) == c1 + e + reg + pm);
    reveal_strlit("#[link(wasm_import_module = \"");
    lemma_lacks_pair_excludes(rust_guest_code(m), "#[link(wasm_import_module = \""@, '[', 'l', 1);
}


/// A synchronous PyO3 function whose host function returns an integer, a float or nothing
/// hands the import's result to Python as it is: right after the import call it returns
/// `Ok(ret)` (or `Ok(())`) and ends, with no status check on the value, so negative
/// integers reach Python unchanged. Only string and bytes results are checked.
pub proof fn lemma_sync_plain_result_is_passed_through(f: FunctionModel)
    requires
        !f.is_async,
    ensures
        f.returns == Some(Type::Int) || f.returns == Some(Type::Float) ==> ends_with_text(
            pyo3_wrapper(f),
            "        );\n"@ + "        Ok(ret)\n"@ + "    }\n}\n"@,
        ),
        f.returns is None ==> ends_with_text(
            pyo3_wrapper(f),
            "        );\n"@ + "        Ok(())\n"@ + "    }\n}\n"@,
        ),
{
    let w = sync_wrapper(f);
    let head = "#[pyfunction]\n#[pyo3(name = \""@ + f.name + "\")]\n"@ + "fn py_"@ + f.name
        + "("@ + join_with(py_params(f.params), ", "@) + ") -> "@ + py_result_type(f.returns)
        + " {\n"@ + "    unsafe {\n"@ + bytes_bindings(f.params) + Seq::<char>::empty() + (
    if f.returns is Some {
        "        let ret = "@
    } else {
        "        "@
    }) + f.name + "(\n"@ + call_args(f.params) + Seq::<char>::empty();
    if f.returns == Some(Type::Int) || f.returns == Some(Type::Float) {
        assert(w == head + "        );\n"@ + "        Ok(ret)\n"@ + "    }\n}\n"@);
        assert(w =~= head + ("        );\n"@ + "        Ok(ret)\n"@ + "    }\n}\n"@));
    } else if f.returns is None {
        assert(w == head + "        );\n"@ + "        Ok(())\n"@ + "    }\n}\n"@);
        assert(w =~= head + ("        );\n"@ + "        Ok(())\n"@ + "    }\n}\n"@));
    }
}

} // verus!
