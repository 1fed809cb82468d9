//! The Java host adapter: a class with a typed handler interface per host function, a
//! builder for the handlers, and the Chicory host functions that lower and lift values.

use vstd::prelude::*;

use crate::case::{lower_camel, to_lower_camel_case, to_upper_camel_case, upper_camel};
use crate::model::{
    Function, FunctionModel, Manifest, ManifestModel, ParamModel, Type, function_is_generatable,
    is_buffer_return, is_buffer_return_spec, manifest_is_generatable, needs_memory,
    needs_memory_spec, wasm_module_name, wasm_module_of,
};
use crate::normalize::{normalize_java_code, normalized_text};
use crate::text::{append_decimal, concat_all, decimal, join_with, lemma_join_push};

verus! {

// ── Types ──────────────

/// The Java type of a value.
pub open spec fn java_type_spec(ty: Type) -> Seq<char> {
    match ty {
        Type::String => "String"@,
        Type::Int => "int"@,
        Type::Float => "double"@,
        Type::Bytes => "byte[]"@,
    }
}

/// The Java type of a value.
pub fn java_type(ty: Type) -> (r: &'static str)
    ensures
        r@ == java_type_spec(ty),
{
    match ty {
        Type::String => "String",
        Type::Int => "int",
        Type::Float => "double",
        Type::Bytes => "byte[]",
    }
}

/// The Java type of a synchronous handler's result.
pub open spec fn java_return_type_spec(ty: Option<Type>) -> Seq<char> {
    match ty {
        Some(t) => java_type_spec(t),
        None => "void"@,
    }
}

/// The Java type of a synchronous handler's result.
pub fn java_return_type(ty: Option<Type>) -> (r: &'static str)
    ensures
        r@ == java_return_type_spec(ty),
{
    match ty {
        Some(Type::String) => "String",
        Some(Type::Int) => "int",
        Some(Type::Float) => "double",
        Some(Type::Bytes) => "byte[]",
        None => "void",
    }
}

/// The Java type of a handler's result: a `CompletionStage<String>` for async functions.
pub open spec fn java_handler_return_type_spec(f: FunctionModel) -> Seq<char> {
    if f.is_async {
        "CompletionStage<String>"@
    } else {
        java_return_type_spec(f.returns)
    }
}

/// The Java type of a handler's result.
pub fn java_handler_return_type(f: &Function) -> (r: String)
    requires
        function_is_generatable(f@),
    ensures
        r@ == java_handler_return_type_spec(f@),
{
    if f.is_async {
        "CompletionStage<String>".to_owned()
    } else {
        java_return_type(f.returns).to_owned()
    }
}

// ── Handler interface parameters ──────────────

/// A handler parameter: its Java type and its name in lowerCamelCase.
pub open spec fn java_interface_param(p: ParamModel) -> Seq<char> {
    java_type_spec(p.ty) + " "@ + lower_camel(p.name)
}

/// The handler parameters, in order.
pub open spec fn java_interface_param_list(ps: Seq<ParamModel>) -> Seq<Seq<char>>
    decreases ps.len(),
{
    if ps.len() == 0 {
        Seq::empty()
    } else {
        java_interface_param_list(ps.drop_last()).push(java_interface_param(ps.last()))
    }
}

/// The parameter list of a handler's `handle` method.
pub open spec fn java_interface_params_spec(f: FunctionModel) -> Seq<char> {
    join_with(java_interface_param_list(f.params), ", "@)
}

/// The parameter list of a handler's `handle` method.
pub fn java_interface_params(f: &Function) -> (r: String)
    ensures
        r@ == java_interface_params_spec(f@),
{
    let ghost ps = f@.params;
    let mut out = String::new();
    let n = f.params.len();
    let mut i: usize = 0;
    while i < n
        invariant
            n == f.params@.len(),
            ps == f@.params,
            0 <= i <= n,
            java_interface_param_list(ps.take(i as int)).len() == i,
            out@ == join_with(java_interface_param_list(ps.take(i as int)), ", "@),
        decreases n - i,
    {
        let p = &f.params[i];
        assert(ps.take(i + 1).drop_last() =~= ps.take(i as int));
        assert(ps[i as int] == p@);
        proof {
            lemma_join_push(java_interface_param_list(ps.take(i as int)), ", "@, java_interface_param(p@));
        }
        if i > 0 {
            out.append(", ");
        }
        out.append(java_type(p.ty));
        out.append(" ");
        let name = to_lower_camel_case(p.name.as_str());
        out.append(name.as_str());
        i = i + 1;
    }
    assert(ps.take(n as int) =~= ps);
    out
}

// ── WASM value types ──────────────

/// Model of a list of static texts.
pub open spec fn strs_view(v: Seq<&'static str>) -> Seq<Seq<char>> {
    v.map_values(|s: &'static str| s@)
}

/// The Chicory value types that one parameter lowers to.
pub open spec fn java_param_value_types(ty: Type) -> Seq<Seq<char>> {
    match ty {
        Type::String | Type::Bytes => seq!["ValueType.I32"@, "ValueType.I32"@],
        Type::Int => seq!["ValueType.I32"@],
        Type::Float => seq!["ValueType.F64"@],
    }
}

/// The Chicory value types of all parameters, in order.
pub open spec fn java_params_value_types(ps: Seq<ParamModel>) -> Seq<Seq<char>>
    decreases ps.len(),
{
    if ps.len() == 0 {
        Seq::empty()
    } else {
        java_params_value_types(ps.drop_last()) + java_param_value_types(ps.last().ty)
    }
}

/// The Chicory parameter types of a host function: those of its parameters, then the result
/// buffer's pointer and capacity when a synchronous function returns a string or bytes.
pub open spec fn java_wasm_params_spec(f: FunctionModel) -> Seq<Seq<char>> {
    java_params_value_types(f.params) + if !f.is_async && is_buffer_return_spec(f.returns) {
        seq!["ValueType.I32"@, "ValueType.I32"@]
    } else {
        Seq::empty()
    }
}

fn push_str(v: &mut Vec<&'static str>, s: &'static str)
    ensures
        strs_view(final(v)@) == strs_view(old(v)@).push(s@),
{
    v.push(s);
    assert(strs_view(v@) =~= strs_view(old(v)@).push(s@));
}

/// The Chicory parameter types of a host function.
pub fn java_wasm_params(f: &Function) -> (r: Vec<&'static str>)
    ensures
        strs_view(r@) == java_wasm_params_spec(f@),
{
    let ghost ps = f@.params;
    let mut params: Vec<&'static str> = Vec::new();
    let n = f.params.len();
    let mut i: usize = 0;
    assert(strs_view(params@) =~= java_params_value_types(ps.take(0)));
    while i < n
        invariant
            n == f.params@.len(),
            ps == f@.params,
            0 <= i <= n,
            strs_view(params@) == java_params_value_types(ps.take(i as int)),
        decreases n - i,
    {
        let ghost before = strs_view(params@);
        match f.params[i].ty {
            Type::String | Type::Bytes => {
                push_str(&mut params, "ValueType.I32");
                push_str(&mut params, "ValueType.I32");
            },
            Type::Int => push_str(&mut params, "ValueType.I32"),
            Type::Float => push_str(&mut params, "ValueType.F64"),
        }
        assert(ps.take(i + 1).drop_last() =~= ps.take(i as int));
        assert(ps[i as int].ty == f.params@[i as int].ty);
        assert(strs_view(params@) =~= before + java_param_value_types(ps[i as int].ty));
        i = i + 1;
    }
    assert(ps.take(n as int) =~= ps);
    if !f.is_async && is_buffer_return(f.returns) {
        let ghost before = strs_view(params@);
        push_str(&mut params, "ValueType.I32");
        push_str(&mut params, "ValueType.I32");
        assert(strs_view(params@) =~= before + seq!["ValueType.I32"@, "ValueType.I32"@]);
    } else {
        assert(strs_view(params@) =~= java_wasm_params_spec(f@));
    }
    params
}

/// The Chicory result types of a host function.
pub open spec fn java_wasm_returns_spec(f: FunctionModel) -> Seq<Seq<char>> {
    if f.is_async {
        seq!["ValueType.I64"@]
    } else {
        match f.returns {
            Some(Type::String) | Some(Type::Bytes) | Some(Type::Int) => seq!["ValueType.I32"@],
            Some(Type::Float) => seq!["ValueType.F64"@],
            None => Seq::empty(),
        }
    }
}

/// The Chicory result types of a host function: `I64` for an async function, else by the
/// result type. It is defined for the functions that can be generated; an async function
/// that does not return a string has no result types.
pub fn java_wasm_returns(f: &Function) -> (r: Vec<&'static str>)
    requires
        function_is_generatable(f@),
    ensures
        strs_view(r@) == java_wasm_returns_spec(f@),
{
    let mut v: Vec<&'static str> = Vec::new();
    if f.is_async {
        push_str(&mut v, "ValueType.I64");
    } else {
        match f.returns {
            Some(Type::String) | Some(Type::Bytes) | Some(Type::Int) => push_str(&mut v, "ValueType.I32"),
            Some(Type::Float) => push_str(&mut v, "ValueType.F64"),
            None => {},
        }
    }
    assert(strs_view(v@) =~= java_wasm_returns_spec(f@));
    v
}

/// A Java `List.of(..)` of value types: on one line up to three items, one per line beyond.
pub open spec fn java_value_type_list_spec(types: Seq<Seq<char>>) -> Seq<char> {
    if types.len() == 0 {
        "List.of()"@
    } else if types.len() <= 3 {
        "List.of("@ + join_with(types, ", "@) + ")"@
    } else {
        "List.of(\n          "@ + join_with(types, ",\n          "@) + "\n        )"@
    }
}

fn append_joined(out: &mut String, items: &Vec<&'static str>, sep: &str)
    ensures
        final(out)@ == old(out)@ + join_with(strs_view(items@), sep@),
{
    let ghost start = out@;
    let ghost sv = strs_view(items@);
    let n = items.len();
    let mut i: usize = 0;
    while i < n
        invariant
            n == items@.len(),
            sv == strs_view(items@),
            0 <= i <= n,
            out@ == start + join_with(sv.take(i as int), sep@),
        decreases n - i,
    {
        proof {
            lemma_join_push(sv.take(i as int), sep@, items@[i as int]@);
            assert(sv.take(i + 1) =~= sv.take(i as int).push(items@[i as int]@));
        }
        if i > 0 {
            out.append(sep);
        }
        out.append(items[i]);
        i = i + 1;
    }
    assert(sv.take(n as int) =~= sv);
}

/// A Java `List.of(..)` of value types.
pub fn java_value_type_list(types: Vec<&'static str>) -> (r: String)
    ensures
        r@ == java_value_type_list_spec(strs_view(types@)),
{
    let mut out = String::new();
    if types.len() == 0 {
        out.append("List.of()");
        return out;
    }
    if types.len() <= 3 {
        out.append("List.of(");
        append_joined(&mut out, &types, ", ");
        out.append(")");
        return out;
    }
    out.append("List.of(\n          ");
    append_joined(&mut out, &types, ",\n          ");
    out.append("\n        )");
    out
}

// ── Reading arguments ──────────────

/// How many WASM arguments a parameter of this type takes.
pub open spec fn java_arg_width(ty: Type) -> nat {
    match ty {
        Type::String | Type::Bytes => 2,
        Type::Int | Type::Float => 1,
    }
}

/// How many WASM arguments the parameters take, together.
pub open spec fn java_arg_count(ps: Seq<ParamModel>) -> nat
    decreases ps.len(),
{
    if ps.len() == 0 {
        0
    } else {
        java_arg_count(ps.drop_last()) + java_arg_width(ps.last().ty)
    }
}

/// The Java local that holds parameter `k`.
pub open spec fn java_local(k: nat) -> Seq<char> {
    "param"@ + decimal(k)
}

/// Reading parameter `k` of type `ty`, whose first WASM argument is `i`.
pub open spec fn java_param_read(k: nat, ty: Type, i: nat) -> Seq<char> {
    let n = java_local(k);
    match ty {
        Type::String => "          int "@ + n + "Ptr = Math.toIntExact(wasmArgs["@ + decimal(i)
            + "]);\n          int "@ + n + "Len = Math.toIntExact(wasmArgs["@ + decimal(i + 1)
            + "]);\n          String "@ + n + " = memory.readString("@ + n + "Ptr, "@ + n
            + "Len, StandardCharsets.UTF_8);\n"@,
        Type::Bytes => "          int "@ + n + "Ptr = Math.toIntExact(wasmArgs["@ + decimal(i)
            + "]);\n          int "@ + n + "Len = Math.toIntExact(wasmArgs["@ + decimal(i + 1)
            + "]);\n          byte[] "@ + n + " = memory.readBytes("@ + n + "Ptr, "@ + n
            + "Len);\n"@,
        Type::Int => "          int "@ + n + " = Math.toIntExact(wasmArgs["@ + decimal(i) + "]);\n"@,
        Type::Float => "          double "@ + n + " = Double.longBitsToDouble(wasmArgs["@ + decimal(
            i,
        ) + "]);\n"@,
    }
}

/// Reading all parameters, in order.
pub open spec fn java_params_reads(ps: Seq<ParamModel>) -> Seq<char>
    decreases ps.len(),
{
    if ps.len() == 0 {
        Seq::empty()
    } else {
        java_params_reads(ps.drop_last()) + java_param_read(
            (ps.len() - 1) as nat,
            ps.last().ty,
            java_arg_count(ps.drop_last()),
        )
    }
}

/// The argument reads of a host function: its parameters, then the result buffer's pointer
/// and capacity when a synchronous function returns a string or bytes.
pub open spec fn java_param_reads_spec(f: FunctionModel) -> Seq<char> {
    let i = java_arg_count(f.params);
    java_params_reads(f.params) + if !f.is_async && is_buffer_return_spec(f.returns) {
        "          int resultPtr = Math.toIntExact(wasmArgs["@ + decimal(i)
            + "]);\n          int resultMaxLen = Math.toIntExact(wasmArgs["@ + decimal(i + 1)
            + "]);\n"@
    } else {
        Seq::empty()
    }
}

fn append_local(out: &mut String, k: u128)
    ensures
        final(out)@ == old(out)@ + java_local(k as nat),
{
    out.append("param");
    append_decimal(out, k);
}

fn append_param_read(out: &mut String, k: u128, ty: Type, i: u128)
    requires
        i < u128::MAX,
    ensures
        final(out)@ == old(out)@ + java_param_read(k as nat, ty, i as nat),
{
    let n = {
        let mut s = String::new();
        append_local(&mut s, k);
        s
    };
    match ty {
        Type::String => {
            out.append("          int ");
            out.append(n.as_str());
            out.append("Ptr = Math.toIntExact(wasmArgs[");
            append_decimal(out, i);
            out.append("]);\n          int ");
            out.append(n.as_str());
            out.append("Len = Math.toIntExact(wasmArgs[");
            append_decimal(out, i + 1);
            out.append("]);\n          String ");
            out.append(n.as_str());
            out.append(" = memory.readString(");
            out.append(n.as_str());
            out.append("Ptr, ");
            out.append(n.as_str());
            out.append("Len, StandardCharsets.UTF_8);\n");
        },
        Type::Bytes => {
            out.append("          int ");
            out.append(n.as_str());
            out.append("Ptr = Math.toIntExact(wasmArgs[");
            append_decimal(out, i);
            out.append("]);\n          int ");
            out.append(n.as_str());
            out.append("Len = Math.toIntExact(wasmArgs[");
            append_decimal(out, i + 1);
            out.append("]);\n          byte[] ");
            out.append(n.as_str());
            out.append(" = memory.readBytes(");
            out.append(n.as_str());
            out.append("Ptr, ");
            out.append(n.as_str());
            out.append("Len);\n");
        },
        Type::Int => {
            out.append("          int ");
            out.append(n.as_str());
            out.append(" = Math.toIntExact(wasmArgs[");
            append_decimal(out, i);
            out.append("]);\n");
        },
        Type::Float => {
            out.append("          double ");
            out.append(n.as_str());
            out.append(" = Double.longBitsToDouble(wasmArgs[");
            append_decimal(out, i);
            out.append("]);\n");
        },
    }
}

/// The statements of a Java host function that read its WASM arguments into locals.
pub fn java_param_reads(f: &Function) -> (r: String)
    ensures
        r@ == java_param_reads_spec(f@),
{
    let ghost ps = f@.params;
    let mut out = String::new();
    let mut arg_idx: u128 = 0;
    let n = f.params.len();
    let mut i: usize = 0;
    while i < n
        invariant
            n == f.params@.len(),
            ps == f@.params,
            0 <= i <= n,
            arg_idx == java_arg_count(ps.take(i as int)),
            arg_idx <= 2 * i,
            out@ == java_params_reads(ps.take(i as int)),
        decreases n - i,
    {
        let ty = f.params[i].ty;
        assert(ps.take(i + 1).drop_last() =~= ps.take(i as int));
        assert(ps[i as int].ty == ty);
        append_param_read(&mut out, i as u128, ty, arg_idx);
        match ty {
            Type::String | Type::Bytes => {
                arg_idx = arg_idx + 2;
            },
            Type::Int | Type::Float => {
                arg_idx = arg_idx + 1;
            },
        }
        i = i + 1;
    }
    assert(ps.take(n as int) =~= ps);
    if !f.is_async && is_buffer_return(f.returns) {
        out.append("          int resultPtr = Math.toIntExact(wasmArgs[");
        append_decimal(&mut out, arg_idx);
        out.append("]);\n          int resultMaxLen = Math.toIntExact(wasmArgs[");
        append_decimal(&mut out, arg_idx + 1);
        out.append("]);\n");
    }
    out
}

/// The read of parameter `k`: its first WASM argument is the one after those of the
/// parameters before it.
pub open spec fn java_read_of(ps: Seq<ParamModel>, k: int) -> Seq<char> {
    java_param_read(k as nat, ps[k].ty, java_arg_count(ps.take(k)))
}

proof fn lemma_arg_count_of_prefix(ps: Seq<ParamModel>, j: int)
    requires
        0 <= j <= ps.len(),
    ensures
        java_arg_count(ps.take(j)) <= java_arg_count(ps),
    decreases ps.len(),
{
    if j < ps.len() {
        lemma_arg_count_of_prefix(ps.drop_last(), j);
        assert(ps.drop_last().take(j) =~= ps.take(j));
    } else {
        assert(ps.take(j) =~= ps);
    }
}

proof fn lemma_value_types_count(ps: Seq<ParamModel>)
    ensures
        java_params_value_types(ps).len() == java_arg_count(ps),
    decreases ps.len(),
{
    if ps.len() > 0 {
        lemma_value_types_count(ps.drop_last());
    }
}

proof fn lemma_reads_in_order(ps: Seq<ParamModel>)
    ensures
        java_params_reads(ps) == concat_all(Seq::new(ps.len(), |k: int| java_read_of(ps, k))),
    decreases ps.len(),
{
    let reads = Seq::new(ps.len(), |k: int| java_read_of(ps, k));
    if ps.len() == 0 {
        assert(reads =~= Seq::<Seq<char>>::empty());
    } else {
        let rest = ps.drop_last();
        lemma_reads_in_order(rest);
        assert forall|k: int| 0 <= k < rest.len() implies java_read_of(rest, k) == java_read_of(ps, k) by {
            assert(rest.take(k) =~= ps.take(k));
            assert(rest[k] == ps[k]);
        }
        assert(reads.drop_last() =~= Seq::new(rest.len(), |k: int| java_read_of(rest, k)));
        assert(ps.take(ps.len() - 1) =~= rest);
        assert(reads.last() == java_read_of(ps, ps.len() - 1));
    }
}

/// The Java host reads the parameters in order, each from the WASM arguments that follow
/// those of the parameters before it (parameter `k` starts at the count of theirs), and
/// the result buffer's pointer and capacity from the two after all of them; so every
/// `wasmArgs` index that it reads is below the number of the host function's WASM
/// parameters.
pub proof fn lemma_java_reads_in_bounds(f: FunctionModel)
    ensures
        java_params_reads(f.params) == concat_all(
            Seq::new(f.params.len(), |k: int| java_read_of(f.params, k)),
        ),
        forall|k: int|
            0 <= k < f.params.len() ==> java_arg_count(#[trigger] f.params.take(k)) + java_arg_width(
                f.params[k].ty,
            ) <= java_wasm_params_spec(f).len(),
        java_arg_count(f.params) + (if !f.is_async && is_buffer_return_spec(f.returns) {
            2int
        } else {
            0int
        }) == java_wasm_params_spec(f).len(),
{
    let ps = f.params;
    lemma_reads_in_order(ps);
    lemma_value_types_count(ps);
    assert forall|k: int|
        0 <= k < ps.len() implies java_arg_count(#[trigger] ps.take(k)) + java_arg_width(ps[k].ty)
        <= java_wasm_params_spec(f).len() by {
        assert(ps.take(k + 1).drop_last() =~= ps.take(k));
        assert(ps.take(k + 1).last() == ps[k]);
        lemma_arg_count_of_prefix(ps, k + 1);
    }
}

// ── Calling the handler ──────────────

/// The locals `param0`, `param1`, .. of the first `n` parameters.
pub open spec fn java_locals(n: nat) -> Seq<Seq<char>>
    decreases n,
{
    if n == 0 {
        Seq::empty()
    } else {
        java_locals((n - 1) as nat).push(java_local((n - 1) as nat))
    }
}

/// The call of a handler with all argument locals.
pub open spec fn java_handler_call_spec(f: FunctionModel, field: Seq<char>) -> Seq<char> {
    field + ".handle("@ + join_with(java_locals(f.params.len()), ", "@) + ")"@
}

/// The call of a handler with all argument locals.
pub fn java_handler_call(f: &Function, field: &str) -> (r: String)
    ensures
        r@ == java_handler_call_spec(f@, field@),
{
    let mut out = field.to_owned();
    out.append(".handle(");
    let ghost start = out@;
    let n = f.params.len();
    let mut i: usize = 0;
    while i < n
        invariant
            n == f@.params.len(),
            0 <= i <= n,
            java_locals(i as nat).len() == i,
            out@ == start + join_with(java_locals(i as nat), ", "@),
        decreases n - i,
    {
        proof {
            lemma_join_push(java_locals(i as nat), ", "@, java_local(i as nat));
        }
        if i > 0 {
            out.append(", ");
        }
        append_local(&mut out, i as u128);
        i = i + 1;
    }
    out.append(")");
    out
}

pub open spec fn null_check(var: Seq<char>, name: Seq<char>) -> Seq<char> {
    "            if ("@ + var
        + " == null) {\n              throw new IllegalStateException(\n                \"Host function returned null: \" + MODULE + \"::"@
        + name + "\"\n              );\n            }\n"@
}

/// How a Java host function hands the handler's result back to WASM.
pub open spec fn java_return_handling_spec(f: FunctionModel, field: Seq<char>) -> Seq<char> {
    let call = java_handler_call_spec(f, field);
    if f.is_async {
        "            if (asyncRegistry == null) {\n              throw new IllegalStateException(\n                \"AsyncHostRegistry is required for async host function \" + MODULE + \"::"@
            + f.name + "\"\n              );\n            }\n            CompletionStage<String> stage = "@
            + call + ";\n"@ + null_check("stage"@, f.name)
            + "            return new long[] { asyncRegistry.start(stage) };"@
    } else {
        match f.returns {
            Some(Type::String) => "            String result = "@ + call + ";\n"@ + null_check(
                "result"@,
                f.name,
            )
                + "            byte[] resultBytes = result.getBytes(StandardCharsets.UTF_8);\n            if (resultBytes.length > resultMaxLen) {\n              return new long[] { -2 };\n            }\n            memory.write(resultPtr, resultBytes);\n            return new long[] { resultBytes.length };"@,
            Some(Type::Bytes) => "            byte[] resultBytes = "@ + call + ";\n"@ + null_check(
                "resultBytes"@,
                f.name,
            )
                + "            if (resultBytes.length > resultMaxLen) {\n              return new long[] { -2 };\n            }\n            memory.write(resultPtr, resultBytes);\n            return new long[] { resultBytes.length };"@,
            Some(Type::Int) => "            int result = "@ + call + ";\n            return new long[] { result };"@,
            Some(Type::Float) => "            double result = "@ + call
                + ";\n            return new long[] { Double.doubleToRawLongBits(result) };"@,
            None => "            "@ + call + ";\n            return null;"@,
        }
    }
}

fn append_null_check(out: &mut String, var: &str, name: &str)
    ensures
        final(out)@ == old(out)@ + null_check(var@, name@),
{
    out.append("            if (");
    out.append(var);
    out.append(
        " == null) {\n              throw new IllegalStateException(\n                \"Host function returned null: \" + MODULE + \"::",
    );
    out.append(name);
    out.append("\"\n              );\n            }\n");
}

/// How a Java host function hands the handler's result back to WASM.
pub fn java_return_handling(f: &Function, field: &str) -> (r: String)
    requires
        function_is_generatable(f@),
    ensures
        r@ == java_return_handling_spec(f@, field@),
{
    let call = java_handler_call(f, field);
    let name = f.name.as_str();
    let mut out = String::new();
    if f.is_async {
        out.append(
            "            if (asyncRegistry == null) {\n              throw new IllegalStateException(\n                \"AsyncHostRegistry is required for async host function \" + MODULE + \"::",
        );
        out.append(name);
        out.append("\"\n              );\n            }\n            CompletionStage<String> stage = ");
        out.append(call.as_str());
        out.append(";\n");
        append_null_check(&mut out, "stage", name);
        out.append("            return new long[] { asyncRegistry.start(stage) };");
        return out;
    }
    match f.returns {
        Some(Type::String) => {
            out.append("            String result = ");
            out.append(call.as_str());
            out.append(";\n");
            append_null_check(&mut out, "result", name);
            out.append(
                "            byte[] resultBytes = result.getBytes(StandardCharsets.UTF_8);\n            if (resultBytes.length > resultMaxLen) {\n              return new long[] { -2 };\n            }\n            memory.write(resultPtr, resultBytes);\n            return new long[] { resultBytes.length };",
            );
        },
        Some(Type::Bytes) => {
            out.append("            byte[] resultBytes = ");
            out.append(call.as_str());
            out.append(";\n");
            append_null_check(&mut out, "resultBytes", name);
            out.append(
                "            if (resultBytes.length > resultMaxLen) {\n              return new long[] { -2 };\n            }\n            memory.write(resultPtr, resultBytes);\n            return new long[] { resultBytes.length };",
            );
        },
        Some(Type::Int) => {
            out.append("            int result = ");
            out.append(call.as_str());
            out.append(";\n            return new long[] { result };");
        },
        Some(Type::Float) => {
            out.append("            double result = ");
            out.append(call.as_str());
            out.append(";\n            return new long[] { Double.doubleToRawLongBits(result) };");
        },
        None => {
            out.append("            ");
            out.append(call.as_str());
            out.append(";\n            return null;");
        },
    }
    out
}

/// How a Java host function reports a handler failure: async functions record it as a
/// failed completion (or return the rejected token -1 without a registry), functions with a
/// buffer result return -1, the others rethrow.
pub open spec fn java_error_handling_spec(f: FunctionModel) -> Seq<char> {
    if f.is_async {
        "            if (asyncRegistry == null) {\n              return new long[] { -1 };\n            }\n            return new long[] { asyncRegistry.startFailed(e) };"@
    } else if is_buffer_return_spec(f.returns) {
        "            return new long[] { -1 };"@
    } else {
        "            throw e;"@
    }
}

/// How a Java host function reports a handler failure.
pub fn java_error_handling(f: &Function) -> (r: &'static str)
    ensures
        r@ == java_error_handling_spec(f@),
{
    if f.is_async {
        "            if (asyncRegistry == null) {\n              return new long[] { -1 };\n            }\n            return new long[] { asyncRegistry.startFailed(e) };"
    } else if is_buffer_return(f.returns) {
        "            return new long[] { -1 };"
    } else {
        "            throw e;"
    }
}

// ── Templates ──────────────

/// The values that the Java class text is made of, for one host function.
pub struct JavaFunctionTemplate {
    pub name: String,
    pub upper_name: String,
    pub field: String,
    pub handler_type: String,
    pub with_method: String,
    pub return_type: String,
    pub interface_params: String,
    pub wasm_params: String,
    pub wasm_returns: String,
    pub param_reads: String,
    pub return_handling: String,
    pub error_handling: &'static str,
    pub is_async: bool,
    pub needs_memory: bool,
}

/// The values that the Java class text is made of.
pub struct JavaHostFunctionsTemplate {
    pub package: String,
    pub class_name: String,
    pub extension_name: String,
    pub wasm_module: String,
    pub has_async: bool,
    pub functions: Vec<JavaFunctionTemplate>,
}

/// Model of a [`JavaFunctionTemplate`].
pub struct JavaFunctionModel {
    pub name: Seq<char>,
    pub upper_name: Seq<char>,
    pub field: Seq<char>,
    pub handler_type: Seq<char>,
    pub with_method: Seq<char>,
    pub return_type: Seq<char>,
    pub interface_params: Seq<char>,
    pub wasm_params: Seq<char>,
    pub wasm_returns: Seq<char>,
    pub param_reads: Seq<char>,
    pub return_handling: Seq<char>,
    pub error_handling: Seq<char>,
    pub is_async: bool,
    pub needs_memory: bool,
}

/// Model of a [`JavaHostFunctionsTemplate`].
pub struct JavaHostModel {
    pub package: Seq<char>,
    pub class_name: Seq<char>,
    pub extension_name: Seq<char>,
    pub wasm_module: Seq<char>,
    pub has_async: bool,
    pub functions: Seq<JavaFunctionModel>,
}

impl View for JavaFunctionTemplate {
    type V = JavaFunctionModel;

    open spec fn view(&self) -> JavaFunctionModel {
        JavaFunctionModel {
            name: self.name@,
            upper_name: self.upper_name@,
            field: self.field@,
            handler_type: self.handler_type@,
            with_method: self.with_method@,
            return_type: self.return_type@,
            interface_params: self.interface_params@,
            wasm_params: self.wasm_params@,
            wasm_returns: self.wasm_returns@,
            param_reads: self.param_reads@,
            return_handling: self.return_handling@,
            error_handling: self.error_handling@,
            is_async: self.is_async,
            needs_memory: self.needs_memory,
        }
    }
}

impl View for JavaHostFunctionsTemplate {
    type V = JavaHostModel;

    open spec fn view(&self) -> JavaHostModel {
        JavaHostModel {
            package: self.package@,
            class_name: self.class_name@,
            extension_name: self.extension_name@,
            wasm_module: self.wasm_module@,
            has_async: self.has_async,
            functions: self.functions@.map_values(|t: JavaFunctionTemplate| t@),
        }
    }
}

/// The template values of one host function.
pub open spec fn java_function_model(f: FunctionModel) -> JavaFunctionModel {
    let upper = upper_camel(f.name);
    let field = lower_camel(f.name);
    JavaFunctionModel {
        name: f.name,
        upper_name: upper,
        field: field,
        handler_type: upper + "Handler"@,
        with_method: "with"@ + upper,
        return_type: java_handler_return_type_spec(f),
        interface_params: java_interface_params_spec(f),
        wasm_params: java_value_type_list_spec(java_wasm_params_spec(f)),
        wasm_returns: java_value_type_list_spec(java_wasm_returns_spec(f)),
        param_reads: java_param_reads_spec(f),
        return_handling: java_return_handling_spec(f, field),
        error_handling: java_error_handling_spec(f),
        is_async: f.is_async,
        needs_memory: needs_memory_spec(f),
    }
}

/// Some function of the manifest is async.
pub open spec fn has_async_function(fs: Seq<FunctionModel>) -> bool {
    exists|i: int| 0 <= i < fs.len() && (#[trigger] fs[i]).is_async
}

/// The template values of a whole manifest.
pub open spec fn java_host_model(m: ManifestModel, package: Seq<char>) -> JavaHostModel {
    JavaHostModel {
        package: package,
        class_name: upper_camel(m.extension.name) + "HostFunctions"@,
        extension_name: m.extension.name,
        wasm_module: wasm_module_of(m.extension),
        has_async: has_async_function(m.functions),
        functions: m.functions.map_values(|f: FunctionModel| java_function_model(f)),
    }
}

fn concat2(a: &str, b: &str) -> (r: String)
    ensures
        r@ == a@ + b@,
{
    let mut s = a.to_owned();
    s.append(b);
    s
}

/// The template values of one host function.
pub fn java_function_template(f: &Function) -> (r: JavaFunctionTemplate)
    requires
        function_is_generatable(f@),
    ensures
        r@ == java_function_model(f@),
{
    let field = to_lower_camel_case(f.name.as_str());
    let upper = to_upper_camel_case(f.name.as_str());
    let handler_type = concat2(upper.as_str(), "Handler");
    let with_method = concat2("with", upper.as_str());
    let return_handling = java_return_handling(f, field.as_str());
    JavaFunctionTemplate {
        name: f.name.clone(),
        upper_name: upper,
        field: field,
        handler_type: handler_type,
        with_method: with_method,
        return_type: java_handler_return_type(f),
        interface_params: java_interface_params(f),
        wasm_params: java_value_type_list(java_wasm_params(f)),
        wasm_returns: java_value_type_list(java_wasm_returns(f)),
        param_reads: java_param_reads(f),
        return_handling: return_handling,
        error_handling: java_error_handling(f),
        is_async: f.is_async,
        needs_memory: needs_memory(f),
    }
}

/// The template values of a whole manifest.
pub fn java_host_template(m: &Manifest, package: &str) -> (r: JavaHostFunctionsTemplate)
    requires
        manifest_is_generatable(m@),
    ensures
        r@ == java_host_model(m@, package@),
{
    let ghost fs = m@.functions;
    let ext_name = m.extension.name.as_str();
    let upper = to_upper_camel_case(ext_name);
    let mut functions: Vec<JavaFunctionTemplate> = Vec::new();
    let mut has_async = false;
    let n = m.functions.len();
    let mut i: usize = 0;
    while i < n
        invariant
            n == m.functions@.len(),
            fs == m@.functions,
            manifest_is_generatable(m@),
            0 <= i <= n,
            functions@.len() == i,
            forall|j: int| 0 <= j < i ==> (#[trigger] functions@[j])@ == java_function_model(fs[j]),
            has_async == exists|j: int| 0 <= j < i && (#[trigger] fs[j]).is_async,
        decreases n - i,
    {
        let f = &m.functions[i];
        assert(fs[i as int] == f@);
        assert(function_is_generatable(fs[i as int]));
        functions.push(java_function_template(f));
        if f.is_async {
            has_async = true;
        }
        i = i + 1;
    }
    let t = JavaHostFunctionsTemplate {
        package: package.to_owned(),
        class_name: concat2(upper.as_str(), "HostFunctions"),
        extension_name: m.extension.name.clone(),
        wasm_module: wasm_module_name(m).to_owned(),
        has_async: has_async,
        functions: functions,
    };
    assert(t@.functions =~= java_host_model(m@, package@).functions);
    t
}

// ── Rendering ──────────────

/// The handler interface of each host function.
pub open spec fn java_interfaces(fs: Seq<JavaFunctionModel>) -> Seq<char>
    decreases fs.len(),
{
    if fs.len() == 0 {
        Seq::empty()
    } else {
        let f = fs.last();
        java_interfaces(fs.drop_last()) + "  @FunctionalInterface\n  public interface "@
            + f.handler_type + " {\n    "@ + f.return_type + " handle("@ + f.interface_params
            + ");\n  }\n\n"@
    }
}

/// The builder field of each host function's handler.
pub open spec fn java_builder_fields(fs: Seq<JavaFunctionModel>) -> Seq<char>
    decreases fs.len(),
{
    if fs.len() == 0 {
        Seq::empty()
    } else {
        let f = fs.last();
        java_builder_fields(fs.drop_last()) + "    private "@ + f.handler_type + " "@ + f.field
            + ";\n"@
    }
}

/// The builder method that sets each host function's handler.
pub open spec fn java_with_methods(fs: Seq<JavaFunctionModel>) -> Seq<char>
    decreases fs.len(),
{
    if fs.len() == 0 {
        Seq::empty()
    } else {
        let f = fs.last();
        java_with_methods(fs.drop_last()) + "    public Builder "@ + f.with_method + "("@
            + f.handler_type + " "@ + f.field + ") {\n      this."@ + f.field + " = "@ + f.field
            + ";\n      return this;\n    }\n\n"@
    }
}

/// The registration of each host function whose handler is set.
pub open spec fn java_function_adds(fs: Seq<JavaFunctionModel>) -> Seq<char>
    decreases fs.len(),
{
    if fs.len() == 0 {
        Seq::empty()
    } else {
        let f = fs.last();
        java_function_adds(fs.drop_last()) + "      if ("@ + f.field
            + " != null) {\n        functions.add(create"@ + f.upper_name
            + "Function());\n      }\n"@
    }
}

/// The Chicory host function of one host function.
pub open spec fn java_create_method(f: JavaFunctionModel) -> Seq<char> {
    "    private HostFunction create"@ + f.upper_name + "Function() {\n      "@ + f.handler_type
        + " "@ + f.field + " = this."@ + f.field
        + ";\n      return new HostFunction(\n        MODULE,\n        \""@ + f.name
        + "\",\n        "@ + f.wasm_params + ",\n        "@ + f.wasm_returns
        + ",\n        (Instance instance, long... wasmArgs) -> {\n"@ + (if f.needs_memory {
        "          Memory memory = instance.memory();\n"@
    } else {
        Seq::empty()
    }) + f.param_reads + "          try {\n"@ + f.return_handling
        + "\n          } catch (RuntimeException e) {\n"@ + f.error_handling
        + "\n          }\n        }\n      );\n    }\n\n"@
}

/// The Chicory host function of each host function.
pub open spec fn java_create_methods(fs: Seq<JavaFunctionModel>) -> Seq<char>
    decreases fs.len(),
{
    if fs.len() == 0 {
        Seq::empty()
    } else {
        java_create_methods(fs.drop_last()) + java_create_method(fs.last())
    }
}

/// The imports of the Java class.
pub open spec fn java_imports(t: JavaHostModel) -> Seq<char> {
    "import com.dylibso.chicory.runtime.HostFunction;\nimport com.dylibso.chicory.runtime.Instance;\nimport com.dylibso.chicory.runtime.Memory;\nimport com.dylibso.chicory.wasm.types.ValueType;\n"@
        + (if t.has_async {
        "import com.hubspot.boomslang.AsyncHostRegistry;\n"@
    } else {
        Seq::empty()
    })
        + "import com.hubspot.boomslang.PythonExtension;\nimport java.nio.charset.StandardCharsets;\nimport java.util.ArrayList;\nimport java.util.List;\n"@
        + (if t.has_async {
        "import java.util.concurrent.CompletionStage;\n"@
    } else {
        Seq::empty()
    })
}

/// The first part of the builder class: its fields, its constructor and its setters.
pub open spec fn java_builder_setters(t: JavaHostModel) -> Seq<char> {
    "  public static final class Builder {\n\n"@ + (if t.has_async {
        "    private AsyncHostRegistry asyncRegistry;\n"@
    } else {
        Seq::empty()
    }) + java_builder_fields(t.functions) + "\n    private Builder() {}\n\n"@ + (if t.has_async {
        "    public Builder withAsyncRegistry(AsyncHostRegistry asyncRegistry) {\n      this.asyncRegistry = asyncRegistry;\n      return this;\n    }\n\n"@
    } else {
        Seq::empty()
    }) + java_with_methods(t.functions)
}

/// The second part of the builder class: the methods that build the host functions.
pub open spec fn java_builder_functions(t: JavaHostModel) -> Seq<char> {
    "    public List<HostFunction> buildFunctions() {\n      List<HostFunction> functions = new ArrayList<>();\n"@
        + java_function_adds(t.functions) + "      return functions;\n    }\n\n"@
        + "    public PythonExtension buildExtension() {\n      return new PythonExtension(EXTENSION_NAME, buildFunctions());\n    }\n\n"@
        + java_create_methods(t.functions) + "  }\n"@
}

/// The builder class, its handler fields and its methods.
pub open spec fn java_builder(t: JavaHostModel) -> Seq<char> {
    java_builder_setters(t) + java_builder_functions(t)
}

/// The Java class text, before blank lines are tidied.
pub open spec fn java_render(t: JavaHostModel) -> Seq<char> {
    "package "@ + t.package + ";\n\n"@ + java_imports(t) + "\n"@ + "public final class "@
        + t.class_name + " {\n\n"@ + "  public static final String EXTENSION_NAME = \""@
        + t.extension_name + "\";\n"@ + "  public static final String MODULE = \""@ + t.wasm_module
        + "\";\n\n"@ + "  private "@ + t.class_name + "() {}\n\n"@ + java_interfaces(t.functions)
        + "  public static Builder builder() {\n    return new Builder();\n  }\n\n"@ + java_builder(t)
        + "}\n"@
}

fn append_interfaces(out: &mut String, fs: &Vec<JavaFunctionTemplate>)
    ensures
        final(out)@ == old(out)@ + java_interfaces(fs@.map_values(|t: JavaFunctionTemplate| t@)),
{
    let ghost ms = fs@.map_values(|t: JavaFunctionTemplate| t@);
    let ghost start = out@;
    let n = fs.len();
    let mut i: usize = 0;
    while i < n
        invariant
            n == fs@.len(),
            ms == fs@.map_values(|t: JavaFunctionTemplate| t@),
            0 <= i <= n,
            out@ == start + java_interfaces(ms.take(i as int)),
        decreases n - i,
    {
        let f = &fs[i];
        out.append("  @FunctionalInterface\n  public interface ");
        out.append(f.handler_type.as_str());
        out.append(" {\n    ");
        out.append(f.return_type.as_str());
        out.append(" handle(");
        out.append(f.interface_params.as_str());
        out.append(");\n  }\n\n");
        assert(ms.take(i + 1).drop_last() =~= ms.take(i as int));
        assert(ms[i as int] == f@);
        i = i + 1;
    }
    assert(ms.take(n as int) =~= ms);
}

fn append_builder_fields(out: &mut String, fs: &Vec<JavaFunctionTemplate>)
    ensures
        final(out)@ == old(out)@ + java_builder_fields(fs@.map_values(|t: JavaFunctionTemplate| t@)),
{
    let ghost ms = fs@.map_values(|t: JavaFunctionTemplate| t@);
    let ghost start = out@;
    let n = fs.len();
    let mut i: usize = 0;
    while i < n
        invariant
            n == fs@.len(),
            ms == fs@.map_values(|t: JavaFunctionTemplate| t@),
            0 <= i <= n,
            out@ == start + java_builder_fields(ms.take(i as int)),
        decreases n - i,
    {
        let f = &fs[i];
        out.append("    private ");
        out.append(f.handler_type.as_str());
        out.append(" ");
        out.append(f.field.as_str());
        out.append(";\n");
        assert(ms.take(i + 1).drop_last() =~= ms.take(i as int));
        assert(ms[i as int] == f@);
        i = i + 1;
    }
    assert(ms.take(n as int) =~= ms);
}

fn append_with_methods(out: &mut String, fs: &Vec<JavaFunctionTemplate>)
    ensures
        final(out)@ == old(out)@ + java_with_methods(fs@.map_values(|t: JavaFunctionTemplate| t@)),
{
    let ghost ms = fs@.map_values(|t: JavaFunctionTemplate| t@);
    let ghost start = out@;
    let n = fs.len();
    let mut i: usize = 0;
    while i < n
        invariant
            n == fs@.len(),
            ms == fs@.map_values(|t: JavaFunctionTemplate| t@),
            0 <= i <= n,
            out@ == start + java_with_methods(ms.take(i as int)),
        decreases n - i,
    {
        let f = &fs[i];
        out.append("    public Builder ");
        out.append(f.with_method.as_str());
        out.append("(");
        out.append(f.handler_type.as_str());
        out.append(" ");
        out.append(f.field.as_str());
        out.append(") {\n      this.");
        out.append(f.field.as_str());
        out.append(" = ");
        out.append(f.field.as_str());
        out.append(";\n      return this;\n    }\n\n");
        assert(ms.take(i + 1).drop_last() =~= ms.take(i as int));
        assert(ms[i as int] == f@);
        i = i + 1;
    }
    assert(ms.take(n as int) =~= ms);
}

fn append_function_adds(out: &mut String, fs: &Vec<JavaFunctionTemplate>)
    ensures
        final(out)@ == old(out)@ + java_function_adds(fs@.map_values(|t: JavaFunctionTemplate| t@)),
{
    let ghost ms = fs@.map_values(|t: JavaFunctionTemplate| t@);
    let ghost start = out@;
    let n = fs.len();
    let mut i: usize = 0;
    while i < n
        invariant
            n == fs@.len(),
            ms == fs@.map_values(|t: JavaFunctionTemplate| t@),
            0 <= i <= n,
            out@ == start + java_function_adds(ms.take(i as int)),
        decreases n - i,
    {
        let f = &fs[i];
        out.append("      if (");
        out.append(f.field.as_str());
        out.append(" != null) {\n        functions.add(create");
        out.append(f.upper_name.as_str());
        out.append("Function());\n      }\n");
        assert(ms.take(i + 1).drop_last() =~= ms.take(i as int));
        assert(ms[i as int] == f@);
        i = i + 1;
    }
    assert(ms.take(n as int) =~= ms);
}

fn append_create_method(out: &mut String, f: &JavaFunctionTemplate)
    ensures
        final(out)@ == old(out)@ + java_create_method(f@),
{
    out.append("    private HostFunction create");
    out.append(f.upper_name.as_str());
    out.append("Function() {\n      ");
    out.append(f.handler_type.as_str());
    out.append(" ");
    out.append(f.field.as_str());
    out.append(" = this.");
    out.append(f.field.as_str());
    out.append(";\n      return new HostFunction(\n        MODULE,\n        \"");
    out.append(f.name.as_str());
    out.append("\",\n        ");
    out.append(f.wasm_params.as_str());
    out.append(",\n        ");
    out.append(f.wasm_returns.as_str());
    out.append(",\n        (Instance instance, long... wasmArgs) -> {\n");
    if f.needs_memory {
        out.append("          Memory memory = instance.memory();\n");
    }
    out.append(f.param_reads.as_str());
    out.append("          try {\n");
    out.append(f.return_handling.as_str());
    out.append("\n          } catch (RuntimeException e) {\n");
    out.append(f.error_handling);
    out.append("\n          }\n        }\n      );\n    }\n\n");
}

fn append_create_methods(out: &mut String, fs: &Vec<JavaFunctionTemplate>)
    ensures
        final(out)@ == old(out)@ + java_create_methods(fs@.map_values(|t: JavaFunctionTemplate| t@)),
{
    let ghost ms = fs@.map_values(|t: JavaFunctionTemplate| t@);
    let ghost start = out@;
    let n = fs.len();
    let mut i: usize = 0;
    while i < n
        invariant
            n == fs@.len(),
            ms == fs@.map_values(|t: JavaFunctionTemplate| t@),
            0 <= i <= n,
            out@ == start + java_create_methods(ms.take(i as int)),
        decreases n - i,
    {
        append_create_method(out, &fs[i]);
        assert(ms.take(i + 1).drop_last() =~= ms.take(i as int));
        assert(ms[i as int] == fs@[i as int]@);
        i = i + 1;
    }
    assert(ms.take(n as int) =~= ms);
}

fn append_imports(out: &mut String, t: &JavaHostFunctionsTemplate)
    ensures
        final(out)@ == old(out)@ + java_imports(t@),
{
    out.append(
        "import com.dylibso.chicory.runtime.HostFunction;\nimport com.dylibso.chicory.runtime.Instance;\nimport com.dylibso.chicory.runtime.Memory;\nimport com.dylibso.chicory.wasm.types.ValueType;\n",
    );
    if t.has_async {
        out.append("import com.hubspot.boomslang.AsyncHostRegistry;\n");
    }
    out.append(
        "import com.hubspot.boomslang.PythonExtension;\nimport java.nio.charset.StandardCharsets;\nimport java.util.ArrayList;\nimport java.util.List;\n",
    );
    if t.has_async {
        out.append("import java.util.concurrent.CompletionStage;\n");
    }
}

fn append_builder_setters(out: &mut String, t: &JavaHostFunctionsTemplate)
    ensures
        final(out)@ == old(out)@ + java_builder_setters(t@),
{
    out.append("  public static final class Builder {\n\n");
    if t.has_async {
        out.append("    private AsyncHostRegistry asyncRegistry;\n");
    }
    append_builder_fields(out, &t.functions);
    out.append("\n    private Builder() {}\n\n");
    if t.has_async {
        out.append(
            "    public Builder withAsyncRegistry(AsyncHostRegistry asyncRegistry) {\n      this.asyncRegistry = asyncRegistry;\n      return this;\n    }\n\n",
        );
    }
    append_with_methods(out, &t.functions);
}

fn append_builder_functions(out: &mut String, t: &JavaHostFunctionsTemplate)
    ensures
        final(out)@ == old(out)@ + java_builder_functions(t@),
{
    out.append(
        "    public List<HostFunction> buildFunctions() {\n      List<HostFunction> functions = new ArrayList<>();\n",
    );
    append_function_adds(out, &t.functions);
    out.append("      return functions;\n    }\n\n");
    out.append(
        "    public PythonExtension buildExtension() {\n      return new PythonExtension(EXTENSION_NAME, buildFunctions());\n    }\n\n",
    );
    append_create_methods(out, &t.functions);
    out.append("  }\n");
}

fn append_builder(out: &mut String, t: &JavaHostFunctionsTemplate)
    ensures
        final(out)@ == old(out)@ + java_builder(t@),
{
    append_builder_setters(out, t);
    append_builder_functions(out, t);
}

/// The Java class text of a template, before blank lines are tidied.
pub fn render_java_host(t: &JavaHostFunctionsTemplate) -> (r: String)
    ensures
        r@ == java_render(t@),
{
    let mut out = String::new();
    out.append("package ");
    out.append(t.package.as_str());
    out.append(";\n\n");
    append_imports(&mut out, t);
    out.append("\n");
    out.append("public final class ");
    out.append(t.class_name.as_str());
    out.append(" {\n\n");
    out.append("  public static final String EXTENSION_NAME = \"");
    out.append(t.extension_name.as_str());
    out.append("\";\n");
    out.append("  public static final String MODULE = \"");
    out.append(t.wasm_module.as_str());
    out.append("\";\n\n");
    out.append("  private ");
    out.append(t.class_name.as_str());
    out.append("() {}\n\n");
    append_interfaces(&mut out, &t.functions);
    out.append("  public static Builder builder() {\n    return new Builder();\n  }\n\n");
    append_builder(&mut out, t);
    out.append("}\n");
    out
}

/// The Java host adapter class of an extension, in the given package.
pub open spec fn java_code(m: ManifestModel, package: Seq<char>) -> Seq<char> {
    normalized_text(java_render(java_host_model(m, package)))
}

/// The Java host adapter class of an extension, in the given package: blank lines tidied as
/// [`normalize_java_code`] does.
pub fn generate_java_code(m: &Manifest, package: &str) -> (r: String)
    requires
        manifest_is_generatable(m@),
    ensures
        r@ == java_code(m@, package@),
{
    let t = java_host_template(m, package);
    let text = render_java_host(&t);
    normalize_java_code(text)
}

} // verus!
