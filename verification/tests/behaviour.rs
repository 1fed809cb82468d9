use boomslang_hostgen::dsl::ExtensionSpec;
use boomslang_hostgen::java::{
    generate_java_code, java_error_handling, java_param_reads, java_value_type_list,
    java_wasm_params, java_wasm_returns,
};
use boomslang_hostgen::model::{needs_memory, default_abi_version};
use boomslang_hostgen::normalize::normalize_java_code;
use boomslang_hostgen::plan::{Build, GenerateError, OutputContents};
use boomslang_hostgen::rust_guest::{
    generate_rust_code, generate_rust_pyo3_wrapper, guest_import_params, wasm_params,
};
use boomslang_hostgen::rust_host::{generate_rust_host_code, host_val_params, host_val_results};
use boomslang_hostgen::text::{decimal_string, str_is_blank};
use boomslang_hostgen::validate::{is_reserved_async_control_name, validate_manifest, ManifestError};
use boomslang_hostgen::{Function, Manifest, Param, Type};

fn one_function(f: Function) -> Manifest {
    let mut m = ExtensionSpec::new("ext").into_manifest();
    m.functions.push(f);
    m
}

fn function(name: &str, params: Vec<(&str, Type)>, returns: Option<Type>, is_async: bool) -> Function {
    Function {
        name: name.to_string(),
        params: params
            .into_iter()
            .map(|(n, ty)| Param { name: n.to_string(), ty })
            .collect(),
        returns,
        is_async,
    }
}

// ── validation ──────────────

#[test]
fn a_declared_extension_is_valid() {
    let m = ExtensionSpec::new("demo")
        .function("do_thing", |f| f.param("input", Type::String).returns_(Type::String))
        .into_manifest();
    assert_eq!(validate_manifest(&m), Ok(()));
    assert_eq!(m.abi_version, default_abi_version());
}

#[test]
fn unsupported_abi_version_is_refused_first() {
    let mut m = ExtensionSpec::new("  ").into_manifest();
    m.abi_version = 2;
    let e = validate_manifest(&m).unwrap_err();
    assert_eq!(e, ManifestError::UnsupportedAbiVersion(2));
    assert_eq!(e.message(), "unsupported ABI version 2; expected 1");
}

#[test]
fn blank_extension_name_is_refused() {
    let m = ExtensionSpec::new(" \t\u{3000}").into_manifest();
    let e = validate_manifest(&m).unwrap_err();
    assert_eq!(e, ManifestError::MissingExtensionName);
    assert_eq!(e.message(), "extension name is required");
}

#[test]
fn blank_function_name_is_refused() {
    let m = one_function(function(" ", vec![], None, false));
    let e = validate_manifest(&m).unwrap_err();
    assert_eq!(e, ManifestError::MissingFunctionName);
    assert_eq!(e.message(), "function name is required");
}

#[test]
fn reserved_function_names_are_refused() {
    for name in [
        "__async_protocol__",
        "__async_start__",
        "__async_poll__",
        "__async_result__",
        "__async_cancel__",
    ] {
        assert!(is_reserved_async_control_name(name));
        let m = one_function(function(name, vec![], None, false));
        let e = validate_manifest(&m).unwrap_err();
        assert_eq!(e, ManifestError::ReservedFunctionName(name.to_string()));
        assert_eq!(e.message(), format!("function name '{}' is reserved", name));
    }
    assert!(!is_reserved_async_control_name("__async_other__"));
    assert!(!is_reserved_async_control_name("__async_start"));
}

#[test]
fn async_function_must_return_string() {
    let m = one_function(function("fetch", vec![], Some(Type::Bytes), true));
    let e = validate_manifest(&m).unwrap_err();
    assert_eq!(e, ManifestError::AsyncMustReturnString("fetch".to_string()));
    assert_eq!(e.message(), "async function 'fetch' must currently return string");
    let m = one_function(function("fetch", vec![], None, true));
    assert!(validate_manifest(&m).is_err());
}

#[test]
fn blank_parameter_name_is_refused() {
    let m = one_function(function("f", vec![("ok", Type::Int), ("", Type::Int)], None, false));
    let e = validate_manifest(&m).unwrap_err();
    assert_eq!(e, ManifestError::MissingParamName("f".to_string()));
    assert_eq!(e.message(), "parameter name is required for f");
}

#[test]
fn the_first_problem_is_reported() {
    let mut m = ExtensionSpec::new("ext").into_manifest();
    m.functions.push(function("ok", vec![], None, false));
    m.functions.push(function("__async_poll__", vec![], None, false));
    m.functions.push(function("", vec![], None, false));
    assert_eq!(
        validate_manifest(&m),
        Err(ManifestError::ReservedFunctionName("__async_poll__".to_string()))
    );
}

#[test]
fn blank_means_only_white_space() {
    assert!(str_is_blank(""));
    assert!(str_is_blank(" \n\r\t\u{a0}\u{2028}"));
    assert!(!str_is_blank(" x "));
}

// ── the builder ──────────────

#[test]
fn functions_keep_their_declaration_order() {
    let m = ExtensionSpec::new("ext")
        .function("b", |f| f)
        .function("a", |f| f.param("x", Type::Float).async_().returns_(Type::String))
        .into_manifest();
    assert_eq!(m.functions.len(), 2);
    assert_eq!(m.functions[0].name, "b");
    assert!(m.functions[0].params.is_empty());
    assert_eq!(m.functions[0].returns, None);
    assert!(!m.functions[0].is_async);
    assert_eq!(m.functions[1].name, "a");
    assert_eq!(m.functions[1].params, vec![Param { name: "x".to_string(), ty: Type::Float }]);
    assert_eq!(m.functions[1].returns, Some(Type::String));
    assert!(m.functions[1].is_async);
}

#[test]
fn prewarm_replaces_the_module_list() {
    let spec = ExtensionSpec::new("ext").prewarm(["a", "b"]).prewarm(["c"]);
    assert_eq!(spec.manifest().extension.prewarm, vec!["c".to_string()]);
    assert_eq!(spec.manifest().extension.wasm_module, None);
    let spec = spec.wasm_module("mod");
    assert_eq!(spec.manifest().extension.wasm_module, Some("mod".to_string()));
}

#[test]
fn build_starts_with_nothing_and_accumulates() {
    let b = Build::new(ExtensionSpec::new("demo"));
    assert!(!b.rust_guest && !b.abi_json);
    assert!(b.abi_json_to.is_none() && b.java_host.is_none() && b.rust_host.is_none());
    let b = b
        .emit_rust_guest()
        .emit_abi_json_to("out/demo.json")
        .emit_java_host("java", "com.example.gen")
        .emit_rust_host("host");
    assert!(b.rust_guest);
    assert!(!b.abi_json);
    assert_eq!(b.abi_json_to, Some("out/demo.json".to_string()));
    assert_eq!(b.java_host, Some(("java".to_string(), "com.example.gen".to_string())));
    assert_eq!(b.rust_host, Some("host".to_string()));
}

// ── what a build writes ──────────────

fn text_of(c: &OutputContents) -> &str {
    match c {
        OutputContents::Text(s) => s.as_str(),
        OutputContents::AbiJson => "<abi json>",
    }
}

#[test]
fn generate_plans_every_output_in_order() {
    let spec = ExtensionSpec::new("my_ext")
        .function("do_thing", |f| f.param("input", Type::String).returns_(Type::String));
    let m = spec.manifest().clone();
    let b = Build::new(spec)
        .emit()
        .emit_abi_json_to("abi/my_ext.json")
        .emit_java_host("src/main/java", "com.example.gen")
        .emit_rust_host("gen");
    let files = b.generate(Some("/out")).ok().unwrap();
    assert_eq!(files.len(), 5);
    assert_eq!(files[0].path, vec!["/out".to_string(), "ext_my_ext.rs".to_string()]);
    assert!(!files[0].create_parent);
    assert_eq!(text_of(&files[0].contents), generate_rust_code(&m));
    assert_eq!(files[1].path, vec!["/out".to_string(), "my_ext.abi.json".to_string()]);
    assert!(matches!(files[1].contents, OutputContents::AbiJson));
    assert_eq!(files[2].path, vec!["abi/my_ext.json".to_string()]);
    assert!(matches!(files[2].contents, OutputContents::AbiJson));
    assert_eq!(
        files[3].path,
        vec![
            "src/main/java".to_string(),
            "com/example/gen".to_string(),
            "MyExtHostFunctions.java".to_string()
        ]
    );
    assert_eq!(text_of(&files[3].contents), generate_java_code(&m, "com.example.gen"));
    assert_eq!(files[4].path, vec!["gen".to_string(), "host_my_ext.rs".to_string()]);
    assert_eq!(text_of(&files[4].contents), generate_rust_host_code(&m));
}

#[test]
fn generate_without_out_dir() {
    let b = Build::new(ExtensionSpec::new("demo")).emit_rust_guest();
    assert!(matches!(b.generate(None), Err(GenerateError::MissingOutDir)));
    let b = Build::new(ExtensionSpec::new("demo")).emit_abi_json();
    assert!(matches!(b.generate(None), Err(GenerateError::MissingOutDir)));
    let b = Build::new(ExtensionSpec::new("demo")).emit_java_host("j", "p");
    let files = b.generate(None).ok().unwrap();
    assert_eq!(files.len(), 1);
    let b = Build::new(ExtensionSpec::new("demo"));
    assert_eq!(b.generate(None).ok().unwrap().len(), 0);
}

#[test]
fn generate_refuses_an_invalid_manifest_before_anything_else() {
    let b = Build::new(ExtensionSpec::new("demo").function("__async_start__", |f| f)).emit();
    match b.generate(None) {
        Err(GenerateError::InvalidManifest(e)) => {
            assert_eq!(e, ManifestError::ReservedFunctionName("__async_start__".to_string()))
        }
        _ => panic!("expected the manifest to be refused"),
    }
}

// ── lowering ──────────────

#[test]
fn every_generator_lowers_the_same_signature() {
    let f = function(
        "mix",
        vec![("x", Type::Float), ("data", Type::Bytes), ("n", Type::Int), ("s", Type::String)],
        Some(Type::Bytes),
        false,
    );
    let guest: Vec<&str> = guest_import_params(&f).iter().map(|p| p.1).collect();
    assert_eq!(
        guest,
        vec!["f64", "*const u8", "i32", "i32", "*const u8", "i32", "*mut u8", "i32"]
    );
    assert_eq!(
        java_wasm_params(&f),
        vec![
            "ValueType.F64",
            "ValueType.I32",
            "ValueType.I32",
            "ValueType.I32",
            "ValueType.I32",
            "ValueType.I32",
            "ValueType.I32",
            "ValueType.I32"
        ]
    );
    assert_eq!(
        host_val_params(&f),
        vec![
            "ValType::F64",
            "ValType::I32",
            "ValType::I32",
            "ValType::I32",
            "ValType::I32",
            "ValType::I32",
            "ValType::I32",
            "ValType::I32"
        ]
    );
    assert_eq!(java_wasm_returns(&f), vec!["ValueType.I32"]);
    assert_eq!(host_val_results(&f), vec!["ValType::I32"]);
    let a = function("later", vec![("s", Type::String)], Some(Type::String), true);
    assert_eq!(java_wasm_params(&a), vec!["ValueType.I32", "ValueType.I32"]);
    assert_eq!(java_wasm_returns(&a), vec!["ValueType.I64"]);
    assert_eq!(host_val_results(&a), vec!["ValType::I64"]);
    let v = function("v", vec![], None, false);
    assert!(java_wasm_returns(&v).is_empty());
    assert!(host_val_results(&v).is_empty());
}

#[test]
fn wasm_params_name_pointer_and_length() {
    assert_eq!(
        wasm_params("blob", Type::Bytes),
        vec![("blob_ptr".to_string(), "*const u8"), ("blob_len".to_string(), "i32")]
    );
    assert_eq!(wasm_params("n", Type::Int), vec![("n".to_string(), "i32")]);
    assert_eq!(wasm_params("x", Type::Float), vec![("x".to_string(), "f64")]);
}

#[test]
fn memory_is_needed_only_for_buffers() {
    assert!(!needs_memory(&function("add", vec![("a", Type::Int), ("b", Type::Int)], Some(Type::Int), false)));
    assert!(needs_memory(&function("f", vec![("s", Type::String)], None, false)));
    assert!(needs_memory(&function("f", vec![("b", Type::Bytes)], None, false)));
    assert!(needs_memory(&function("f", vec![], Some(Type::Bytes), false)));
    assert!(!needs_memory(&function("f", vec![("n", Type::Int)], Some(Type::String), true)));
}

#[test]
fn java_error_handling_per_kind() {
    assert!(java_error_handling(&function("a", vec![], Some(Type::String), true)).contains("asyncRegistry.startFailed(e)"));
    assert_eq!(java_error_handling(&function("b", vec![], Some(Type::Bytes), false)), "            return new long[] { -1 };");
    assert_eq!(java_error_handling(&function("c", vec![], Some(Type::Int), false)), "            throw e;");
}

#[test]
fn java_value_type_lists() {
    assert_eq!(java_value_type_list(vec![]), "List.of()");
    assert_eq!(
        java_value_type_list(vec!["ValueType.I32", "ValueType.I32", "ValueType.F64"]),
        "List.of(ValueType.I32, ValueType.I32, ValueType.F64)"
    );
    assert_eq!(
        java_value_type_list(vec!["A", "B", "C", "D"]),
        "List.of(\n          A,\n          B,\n          C,\n          D\n        )"
    );
}

// ── text ──────────────

#[test]
fn decimal_numbers() {
    assert_eq!(decimal_string(0), "0");
    assert_eq!(decimal_string(7), "7");
    assert_eq!(decimal_string(10), "10");
    assert_eq!(decimal_string(12345), "12345");
}

#[test]
fn normalization_tidies_blank_lines_and_trailing_space() {
    let code = "class A {  \n\n\n  int x;\t\n\n  }\r\n\n\n\n}\n";
    assert_eq!(normalize_java_code(code.to_string()), "class A {\n\n  int x;\n  }\n}\n");
    assert_eq!(normalize_java_code(String::new()), "\n");
    assert_eq!(normalize_java_code("a".to_string()), "a\n");
    assert_eq!(normalize_java_code("a\n \n".to_string()), "a\n\n");
    assert_eq!(normalize_java_code("  x\n\n\t} \n".to_string()), "  x\n\t}\n");
}

#[test]
fn normalized_output_is_a_fixed_point() {
    let code = generate_java_code(
        &ExtensionSpec::new("ext")
            .function("f", |f| f.param("s", Type::String))
            .into_manifest(),
        "p",
    );
    assert_eq!(normalize_java_code(code.clone()), code);
}

// ── case conversion, through the generators ──────────────

#[test]
fn names_take_java_case() {
    let m = ExtensionSpec::new("my_ext")
        .function("do_thing", |f| f.param("input_text", Type::String).returns_(Type::String))
        .into_manifest();
    let code = generate_java_code(&m, "com.example");
    assert!(code.contains("public final class MyExtHostFunctions {"));
    assert!(code.contains("public interface DoThingHandler {"));
    assert!(code.contains("String handle(String inputText);"));
    assert!(code.contains("public Builder withDoThing(DoThingHandler doThing) {"));
    assert!(code.contains("DoThingHandler doThing = this.doThing;"));
    assert!(code.contains("String result = doThing.handle(param0);"));
    assert!(!code.contains("AsyncHostRegistry"));
    assert!(code.ends_with("  }\n}\n"));
    let host = generate_rust_host_code(&m);
    assert!(host.contains("pub struct MyExtHostFunctions {"));
    assert!(host.contains("pub const MODULE: &'static str = \"my_ext\";"));
}

#[test]
fn an_extension_without_functions_has_no_imports() {
    let m = ExtensionSpec::new("empty").into_manifest();
    let code = generate_rust_code(&m);
    assert!(!code.contains("wasm_import_module"));
    assert!(code.contains("let modules = [];"));
    assert!(code.contains("fn _empty(m: &Bound<'_, PyModule>) -> PyResult<()> {\n    Ok(())\n}\n"));
    let host = generate_rust_host_code(&m);
    assert!(host.contains("Ok(vec![])"));
}

#[test]
fn prewarm_names_are_quoted_as_debug_strings() {
    let m = ExtensionSpec::new("e").prewarm(["a\"b", "c\\d"]).into_manifest();
    let code = generate_rust_code(&m);
    assert!(code.contains("let modules = [\"a\\\"b\", \"c\\\\d\"];"));
}

#[test]
fn float_and_bytes_wrappers() {
    let m = ExtensionSpec::new("e")
        .function("scale", |f| f.param("x", Type::Float).param("b", Type::Bytes).returns_(Type::Bytes))
        .function("ratio", |f| f.returns_(Type::Float))
        .into_manifest();
    let code = generate_rust_code(&m);
    assert!(code.contains("fn py_scale(x: f64, b: &[u8]) -> PyResult<Vec<u8>> {"));
    assert!(code.contains("        let b_bytes = b;\n"));
    assert!(code.contains("        Ok(result_buf[..ret as usize].to_vec())\n"));
    assert!(code.contains("    fn ratio(\n    ) -> f64;\n"));
    assert!(code.contains("fn py_ratio() -> PyResult<f64> {"));
    let java = generate_java_code(&m, "p");
    assert!(java.contains("double param0 = Double.longBitsToDouble(wasmArgs[0]);"));
    assert!(java.contains("byte[] param1 = memory.readBytes(param1Ptr, param1Len);"));
    assert!(java.contains("int resultPtr = Math.toIntExact(wasmArgs[3]);"));
    assert!(java.contains("return new long[] { Double.doubleToRawLongBits(result) };"));
}

// ── properties of the generated text, on examples ──────────────

#[test]
fn only_string_and_bytes_wrappers_use_the_result_buffer() {
    let alloc = "let mut result_buf = vec![0u8; MAX_RESULT as usize];";
    let text = generate_rust_pyo3_wrapper(&function("t", vec![("s", Type::String)], Some(Type::String), false));
    assert!(text.contains(alloc));
    assert!(text.contains(
        "            result_buf.as_mut_ptr(),\n            MAX_RESULT,\n        );\n        if ret < 0 {\n"
    ));
    let bytes = generate_rust_pyo3_wrapper(&function("b", vec![], Some(Type::Bytes), false));
    assert!(bytes.contains(alloc));
    assert!(bytes.ends_with("        Ok(result_buf[..ret as usize].to_vec())\n    }\n}\n"));
    for ret in [Some(Type::Int), Some(Type::Float), None] {
        let plain = generate_rust_pyo3_wrapper(&function("p", vec![("s", Type::String)], ret, false));
        assert!(!plain.contains(alloc));
        assert!(!plain.contains("result_buf"));
    }
}

#[test]
fn import_call_passes_one_argument_per_declared_slot() {
    let f = function(
        "mix",
        vec![("s", Type::String), ("n", Type::Int), ("x", Type::Float), ("b", Type::Bytes)],
        Some(Type::String),
        false,
    );
    let code = generate_rust_code(&one_function(f));
    assert!(code.contains(
        "    fn mix(\n        s_ptr: *const u8,\n        s_len: i32,\n        n: i32,\n        x: f64,\n        b_ptr: *const u8,\n        b_len: i32,\n        result_ptr: *mut u8,\n        result_max_len: i32,\n    ) -> i32;\n"
    ));
    assert!(code.contains(
        "        let ret = mix(\n            s_bytes.as_ptr(),\n            s_bytes.len() as i32,\n            n,\n            x,\n            b_bytes.as_ptr(),\n            b_bytes.len() as i32,\n            result_buf.as_mut_ptr(),\n            MAX_RESULT,\n        );\n"
    ));
    let a = function("later", vec![("n", Type::Int)], Some(Type::String), true);
    let code = generate_rust_code(&one_function(a));
    assert!(code.contains("    fn later(\n        n: i32,\n    ) -> i64;\n"));
    assert!(code.contains("        let token = later(\n            n,\n        );\n"));
}

#[test]
fn guest_module_layout_follows_the_manifest() {
    let m = ExtensionSpec::new("ext")
        .wasm_module("host_mod")
        .function("first", |f| f.returns_(Type::Int))
        .function("second", |f| f.param("s", Type::String))
        .prewarm(["json", "re"])
        .into_manifest();
    let code = generate_rust_code(&m);
    assert!(code.starts_with("use pyo3::prelude::*;\n\n#[link(wasm_import_module = \"host_mod\")]\n"));
    assert!(code.ends_with(
        "#[pymodule]\nfn _ext(m: &Bound<'_, PyModule>) -> PyResult<()> {\n    m.add_function(wrap_pyfunction!(py_first, m)?)?;\n    m.add_function(wrap_pyfunction!(py_second, m)?)?;\n    Ok(())\n}\n"
    ));
    assert!(code.contains("    let modules = [\"json\", \"re\"];\n"));
    assert_eq!(code.matches("m.add_function(").count(), 2);
    let empty = generate_rust_code(&ExtensionSpec::new("ext").into_manifest());
    assert!(empty.starts_with("use pyo3::prelude::*;\n\nconst MAX_RESULT: i32 = 1024 * 1024;\n\n"));
}

#[test]
fn java_reads_stay_within_the_wasm_arguments() {
    let f = function("f", vec![("s", Type::String), ("n", Type::Int)], Some(Type::String), false);
    assert_eq!(
        java_param_reads(&f),
        "          int param0Ptr = Math.toIntExact(wasmArgs[0]);\n          int param0Len = Math.toIntExact(wasmArgs[1]);\n          String param0 = memory.readString(param0Ptr, param0Len, StandardCharsets.UTF_8);\n          int param1 = Math.toIntExact(wasmArgs[2]);\n          int resultPtr = Math.toIntExact(wasmArgs[3]);\n          int resultMaxLen = Math.toIntExact(wasmArgs[4]);\n"
    );
    assert_eq!(java_wasm_params(&f).len(), 5);
}

#[test]
fn normalization_keeps_the_non_blank_lines_in_order() {
    let code = "a  \n\n\n  b\t\n\n}\nc";
    let out = normalize_java_code(code.to_string());
    assert_eq!(out, "a\n\n  b\n}\nc\n");
    let kept: Vec<&str> = out.lines().filter(|l| !l.is_empty()).collect();
    let input: Vec<&str> = code.lines().map(|l| l.trim_end()).filter(|l| !l.is_empty()).collect();
    assert_eq!(kept, input);
}

#[test]
fn valid_manifests_are_generatable() {
    let ok = ExtensionSpec::new("e")
        .function("later", |f| f.returns_(Type::String).async_())
        .into_manifest();
    assert_eq!(validate_manifest(&ok), Ok(()));
    assert!(generate_rust_code(&ok).contains("fn later(\n    ) -> i64;"));
    assert!(generate_java_code(&ok, "p").contains("AsyncHostRegistry"));
    let bad = one_function(function("later", vec![], Some(Type::Int), true));
    assert!(validate_manifest(&bad).is_err());
}

#[test]
fn names_are_written_into_the_wrapper_as_they_are() {
    let alloc = "let mut result_buf = vec![0u8; MAX_RESULT as usize];";
    let odd = function(
        "n",
        vec![("mut result_buf = vec![0u8; MAX_RESULT as usize];", Type::String)],
        Some(Type::Int),
        false,
    );
    assert!(generate_rust_pyo3_wrapper(&odd).contains(alloc));
    let bang = function("n!", vec![("a!b", Type::Int)], Some(Type::Int), false);
    assert!(!generate_rust_pyo3_wrapper(&bang).contains(alloc));
}

#[test]
fn every_function_of_a_module_has_matching_import_and_call() {
    let m = ExtensionSpec::new("ext")
        .function("one", |f| f.param("s", Type::String).returns_(Type::Bytes))
        .function("two", |f| f.param("x", Type::Float))
        .into_manifest();
    let code = generate_rust_code(&m);
    assert!(code.contains(
        "    fn one(\n        s_ptr: *const u8,\n        s_len: i32,\n        result_ptr: *mut u8,\n        result_max_len: i32,\n    ) -> i32;\n"
    ));
    assert!(code.contains(
        "one(\n            s_bytes.as_ptr(),\n            s_bytes.len() as i32,\n            result_buf.as_mut_ptr(),\n            MAX_RESULT,\n        );\n"
    ));
    assert!(code.contains("    fn two(\n        x: f64,\n    ) -> ();\n"));
    assert!(code.contains("        two(\n            x,\n        );\n"));
    let empty = generate_rust_code(&ExtensionSpec::new("ext").into_manifest());
    assert!(!empty.contains("#[link(wasm_import_module = \""));
}
