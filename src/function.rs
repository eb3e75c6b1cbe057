use vstd::prelude::*;
use crate::model::{Function, Type, TypeKind, is_static_spec, has_return_type_spec};
use crate::names::{emit, mixed_case_of, str_eq, to_mixed_case};
use crate::types::{get_hl_type_with_null, get_hl_type_without_null, host_type, host_type_nullable};

verus! {

/// A named parameter of an exported function.
pub type Param = (String, Type);

/// Index of the first parameter that the host-facing method takes.
pub open spec fn first_param(f: Function) -> int {
    if is_static_spec(f) {
        0
    } else {
        1
    }
}

/// The parameters of the host-facing method: all inputs but a leading `this`.
pub open spec fn method_params(f: Function) -> Seq<Param> {
    f.inputs@.subrange(first_param(f), f.inputs@.len() as int)
}

/// The views of a sequence of strings.
pub open spec fn views(v: Seq<String>) -> Seq<Seq<char>> {
    Seq::new(v.len(), |i: int| v[i]@)
}

/// The host-facing names of the inputs of `f`, in mixed case.
pub open spec fn display_names(f: Function) -> Seq<Seq<char>> {
    Seq::new(f.inputs@.len(), |i: int| mixed_case_of(f.inputs@[i].0@))
}

/// The host-facing names of the parameters of the host-facing method.
pub open spec fn method_names(f: Function, names: Seq<Seq<char>>) -> Seq<Seq<char>> {
    names.subrange(first_param(f), names.len() as int)
}

pub open spec fn doc_param(p: Param, shown: Seq<char>) -> Seq<char> {
    "\n     * @param {"@ + host_type_nullable(p.1) + "} "@ + shown
}

pub open spec fn doc_params(s: Seq<Param>, names: Seq<Seq<char>>) -> Seq<char>
    decreases s.len(),
{
    if s.len() == 0 || names.len() == 0 {
        Seq::empty()
    } else {
        doc_params(s.drop_last(), names.drop_last()) + doc_param(s.last(), names.last())
    }
}

pub open spec fn doc_return(f: Function) -> Seq<char> {
    if has_return_type_spec(f) {
        "\n     * @return {"@ + host_type_nullable(f.output) + "}"@
    } else {
        Seq::empty()
    }
}

/// The documentation comment of a method in documented (untyped) mode.
#[verifier::opaque]
pub open spec fn doc_block(f: Function, names: Seq<Seq<char>>) -> Seq<char> {
    "\n    /**"@ + doc_params(method_params(f), method_names(f, names)) + doc_return(f) + "\n     */"@
}

pub open spec fn signature_param(p: Param, shown: Seq<char>, type_script: bool) -> Seq<char> {
    if type_script {
        shown + ": "@ + host_type_nullable(p.1)
    } else {
        shown
    }
}

/// Comma-separated parameter list of a method signature.
pub open spec fn signature_params(s: Seq<Param>, names: Seq<Seq<char>>, type_script: bool) -> Seq<char>
    decreases s.len(),
{
    if s.len() == 0 || names.len() == 0 {
        Seq::empty()
    } else {
        signature_params(s.drop_last(), names.drop_last(), type_script) + (if s.len() == 1 {
            Seq::empty()
        } else {
            ", "@
        }) + signature_param(s.last(), names.last(), type_script)
    }
}

pub open spec fn signature_end(f: Function, type_script: bool) -> Seq<char> {
    if type_script && has_return_type_spec(f) {
        "): "@ + host_type_nullable(f.output) + " {\n        "@
    } else {
        ") {\n        "@
    }
}

/// The method's head, up to and including its opening brace.
#[verifier::opaque]
pub open spec fn signature(f: Function, method: Seq<char>, names: Seq<Seq<char>>, type_script: bool) -> Seq<char> {
    "\n    "@ + (if is_static_spec(f) {
        "static "@
    } else {
        Seq::empty()
    }) + method + "("@ + signature_params(method_params(f), method_names(f, names), type_script)
        + signature_end(f, type_script)
}

/// The check that a custom-typed argument has not been disposed of.
pub open spec fn disposal_check(p: Param, shown: Seq<char>) -> Seq<char> {
    if p.1.is_custom {
        "if (ref.isNull("@ + shown + ".ptr)) {\n            throw \""@ + shown
            + " is disposed\";\n        }\n        "@
    } else {
        Seq::empty()
    }
}

pub open spec fn disposal_checks(s: Seq<Param>, names: Seq<Seq<char>>) -> Seq<char>
    decreases s.len(),
{
    if s.len() == 0 || names.len() == 0 {
        Seq::empty()
    } else {
        disposal_checks(s.drop_last(), names.drop_last()) + disposal_check(s.last(), names.last())
    }
}

/// How an argument is handed to the native function.
pub open spec fn call_argument(p: Param, shown: Seq<char>) -> Seq<char> {
    if p.0@ == "this"@ {
        "this.ptr"@
    } else if p.1.name@ == "Json"@ {
        "JSON.stringify("@ + shown + ")"@
    } else if p.1.is_custom {
        shown + ".ptr"@
    } else {
        shown
    }
}

pub open spec fn call_arguments(s: Seq<Param>, names: Seq<Seq<char>>) -> Seq<char>
    decreases s.len(),
{
    if s.len() == 0 || names.len() == 0 {
        Seq::empty()
    } else {
        call_arguments(s.drop_last(), names.drop_last()) + (if s.len() == 1 {
            Seq::empty()
        } else {
            ", "@
        }) + call_argument(s.last(), names.last())
    }
}

/// Whether the function returns a custom type, to be wrapped in its owning class.
pub open spec fn wraps_result(f: Function) -> bool {
    has_return_type_spec(f) && f.output.is_custom
}

pub open spec fn call_start(f: Function) -> Seq<char> {
    if has_return_type_spec(f) {
        if f.output.is_custom {
            "var result = new "@ + host_type(f.output) + "("@
        } else {
            "var result = "@
        }
    } else {
        Seq::empty()
    }
}

/// The statement that calls the native function.
#[verifier::opaque]
pub open spec fn call(f: Function, names: Seq<Seq<char>>) -> Seq<char> {
    call_start(f) + "liveSplitCoreNative."@ + f.name@ + "("@ + call_arguments(f.inputs@, names) + ")"@
        + (if wraps_result(f) {
        ")"@
    } else {
        Seq::empty()
    }) + ";"@
}

/// Whether an argument's ownership moves into the native function.
pub open spec fn transfers_ownership(p: Param) -> bool {
    p.1.is_custom && p.1.kind == TypeKind::Value
}

/// The statement that forgets the handle of an argument given away.
pub open spec fn handle_release_line(shown: Seq<char>) -> Seq<char> {
    "\n        "@ + shown + ".ptr = ref.NULL;"@
}

pub open spec fn handle_release(p: Param, shown: Seq<char>) -> Seq<char> {
    if transfers_ownership(p) {
        handle_release_line(shown)
    } else {
        Seq::empty()
    }
}

pub open spec fn handle_releases(s: Seq<Param>, names: Seq<Seq<char>>) -> Seq<char>
    decreases s.len(),
{
    if s.len() == 0 || names.len() == 0 {
        Seq::empty()
    } else {
        handle_releases(s.drop_last(), names.drop_last()) + handle_release(s.last(), names.last())
    }
}

/// The early return of `null` for a nullable wrapped result.
pub open spec fn null_result_check() -> Seq<char> {
    "\n        if (ref.isNull(result.ptr)) {\n            return null;\n        }"@
}

pub open spec fn returns_nullable_custom(f: Function) -> bool {
    f.output.is_nullable && f.output.is_custom
}

pub open spec fn returns_json(f: Function) -> bool {
    has_return_type_spec(f) && f.output.name@ == "Json"@
}

pub open spec fn return_line(f: Function) -> Seq<char> {
    if returns_json(f) {
        "\n        return JSON.parse(result);"@
    } else {
        "\n        return result;"@
    }
}

/// The statements that hand the result back.
#[verifier::opaque]
pub open spec fn result_return(f: Function) -> Seq<char> {
    if has_return_type_spec(f) {
        (if returns_nullable_custom(f) {
            null_result_check()
        } else {
            Seq::empty()
        }) + return_line(f)
    } else {
        Seq::empty()
    }
}

/// The method's body after its head.
#[verifier::opaque]
pub open spec fn method_body(f: Function, names: Seq<Seq<char>>) -> Seq<char> {
    disposal_checks(f.inputs@, names) + call(f, names) + handle_releases(f.inputs@, names)
        + result_return(f) + "\n    }"@
}

/// The complete text of the wrapper method of `f`, with `method` as the
/// method's name and `names[i]` as the name of its `i`-th input.
#[verifier::opaque]
pub open spec fn fn_text_named(f: Function, method: Seq<char>, names: Seq<Seq<char>>, type_script: bool) -> Seq<char> {
    (if type_script {
        Seq::empty()
    } else {
        doc_block(f, names)
    }) + signature(f, method, names, type_script) + method_body(f, names)
}

/// The complete text of the wrapper method of `f`, its names in mixed case.
#[verifier::opaque]
pub open spec fn fn_text(f: Function, type_script: bool) -> Seq<char> {
    fn_text_named(f, mixed_case_of(f.method@), display_names(f), type_script)
}

fn write_doc_block(out: &mut String, function: &Function, names: &Vec<String>, is_static: bool, has_return_type: bool)
    requires
        names@.len() == function.inputs@.len(),
        is_static == is_static_spec(*function),
        has_return_type == has_return_type_spec(*function),
    ensures
        final(out)@ == old(out)@ + doc_block(*function, views(names@)),
{
    emit(out, "\n    /**");
    let ghost base = out@;
    let n = function.inputs.len();
    let start: usize = if is_static { 0 } else { 1 };
    let ghost s = function.inputs@;
    let ghost nm = views(names@);
    let mut i: usize = start;
    while i < n
        invariant
            n == s.len(),
            n == names@.len(),
            s == function.inputs@,
            nm == views(names@),
            start == first_param(*function),
            start <= i <= n,
            out@ == base + doc_params(s.subrange(start as int, i as int), nm.subrange(start as int, i as int)),
        decreases n - i,
    {
        emit(out, "\n     * @param {");
        let t = get_hl_type_with_null(&function.inputs[i].1);
        emit(out, t.as_str());
        emit(out, "} ");
        emit(out, names[i].as_str());
        assert(s.subrange(start as int, i + 1).drop_last() == s.subrange(start as int, i as int));
        assert(nm.subrange(start as int, i + 1).drop_last() == nm.subrange(start as int, i as int));
        i = i + 1;
    }
    if has_return_type {
        emit(out, "\n     * @return {");
        let t = get_hl_type_with_null(&function.output);
        emit(out, t.as_str());
        emit(out, "}");
    }
    emit(out, "\n     */");
    reveal(doc_block);
}

fn write_signature(
    out: &mut String,
    function: &Function,
    method: &str,
    names: &Vec<String>,
    type_script: bool,
    is_static: bool,
    has_return_type: bool,
)
    requires
        names@.len() == function.inputs@.len(),
        is_static == is_static_spec(*function),
        has_return_type == has_return_type_spec(*function),
    ensures
        final(out)@ == old(out)@ + signature(*function, method@, views(names@), type_script),
{
    let ghost base = out@;
    emit(out, "\n    ");
    if is_static {
        emit(out, "static ");
    }
    emit(out, method);
    emit(out, "(");
    let ghost head = out@;
    let n = function.inputs.len();
    let start: usize = if is_static { 0 } else { 1 };
    let ghost s = function.inputs@;
    let ghost nm = views(names@);
    let mut i: usize = start;
    while i < n
        invariant
            n == s.len(),
            n == names@.len(),
            s == function.inputs@,
            nm == views(names@),
            start == first_param(*function),
            start <= i <= n,
            out@ == head + signature_params(
                s.subrange(start as int, i as int),
                nm.subrange(start as int, i as int),
                type_script,
            ),
        decreases n - i,
    {
        if i != start {
            emit(out, ", ");
        }
        emit(out, names[i].as_str());
        if type_script {
            emit(out, ": ");
            let t = get_hl_type_with_null(&function.inputs[i].1);
            emit(out, t.as_str());
        }
        assert(s.subrange(start as int, i + 1).drop_last() == s.subrange(start as int, i as int));
        assert(nm.subrange(start as int, i + 1).drop_last() == nm.subrange(start as int, i as int));
        i = i + 1;
    }
    if type_script && has_return_type {
        emit(out, "): ");
        let t = get_hl_type_with_null(&function.output);
        emit(out, t.as_str());
        emit(out, " {\n        ");
    } else {
        emit(out, ") {\n        ");
    }
    reveal(signature);
}

fn write_disposal_checks(out: &mut String, function: &Function, names: &Vec<String>)
    requires
        names@.len() == function.inputs@.len(),
    ensures
        final(out)@ == old(out)@ + disposal_checks(function.inputs@, views(names@)),
{
    let ghost base = out@;
    let ghost s = function.inputs@;
    let ghost nm = views(names@);
    let n = function.inputs.len();
    let mut i: usize = 0;
    while i < n
        invariant
            n == s.len(),
            n == names@.len(),
            s == function.inputs@,
            nm == views(names@),
            i <= n,
            out@ == base + disposal_checks(s.subrange(0, i as int), nm.subrange(0, i as int)),
        decreases n - i,
    {
        if function.inputs[i].1.is_custom {
            let m = names[i].as_str();
            emit(out, "if (ref.isNull(");
            emit(out, m);
            emit(out, ".ptr)) {\n            throw \"");
            emit(out, m);
            emit(out, " is disposed\";\n        }\n        ");
        }
        assert(s.subrange(0, i + 1).drop_last() == s.subrange(0, i as int));
        assert(nm.subrange(0, i + 1).drop_last() == nm.subrange(0, i as int));
        i = i + 1;
    }
    assert(s.subrange(0, n as int) == s);
    assert(nm.subrange(0, n as int) == nm);
}

fn write_call(out: &mut String, function: &Function, names: &Vec<String>, has_return_type: bool)
    requires
        names@.len() == function.inputs@.len(),
        has_return_type == has_return_type_spec(*function),
    ensures
        final(out)@ == old(out)@ + call(*function, views(names@)),
{
    let ghost base = out@;
    if has_return_type {
        if function.output.is_custom {
            emit(out, "var result = new ");
            let t = get_hl_type_without_null(&function.output);
            emit(out, t.as_str());
            emit(out, "(");
        } else {
            emit(out, "var result = ");
        }
    }
    emit(out, "liveSplitCoreNative.");
    emit(out, function.name.as_str());
    emit(out, "(");
    let ghost head = out@;
    let ghost s = function.inputs@;
    let ghost nm = views(names@);
    let n = function.inputs.len();
    let mut i: usize = 0;
    while i < n
        invariant
            n == s.len(),
            n == names@.len(),
            s == function.inputs@,
            nm == views(names@),
            i <= n,
            out@ == head + call_arguments(s.subrange(0, i as int), nm.subrange(0, i as int)),
        decreases n - i,
    {
        let p = &function.inputs[i];
        let m = names[i].as_str();
        if i != 0 {
            emit(out, ", ");
        }
        if str_eq(p.0.as_str(), "this") {
            emit(out, "this.ptr");
        } else if str_eq(p.1.name.as_str(), "Json") {
            emit(out, "JSON.stringify(");
            emit(out, m);
            emit(out, ")");
        } else if p.1.is_custom {
            emit(out, m);
            emit(out, ".ptr");
        } else {
            emit(out, m);
        }
        assert(s.subrange(0, i + 1).drop_last() == s.subrange(0, i as int));
        assert(nm.subrange(0, i + 1).drop_last() == nm.subrange(0, i as int));
        i = i + 1;
    }
    assert(s.subrange(0, n as int) == s);
    assert(nm.subrange(0, n as int) == nm);
    emit(out, ")");
    if has_return_type && function.output.is_custom {
        emit(out, ")");
    }
    emit(out, ";");
    reveal(call);
}

fn write_handle_releases(out: &mut String, function: &Function, names: &Vec<String>)
    requires
        names@.len() == function.inputs@.len(),
    ensures
        final(out)@ == old(out)@ + handle_releases(function.inputs@, views(names@)),
{
    let ghost base = out@;
    let ghost s = function.inputs@;
    let ghost nm = views(names@);
    let n = function.inputs.len();
    let mut i: usize = 0;
    while i < n
        invariant
            n == s.len(),
            n == names@.len(),
            s == function.inputs@,
            nm == views(names@),
            i <= n,
            out@ == base + handle_releases(s.subrange(0, i as int), nm.subrange(0, i as int)),
        decreases n - i,
    {
        let p = &function.inputs[i];
        let by_value = match p.1.kind {
            TypeKind::Value => true,
            _ => false,
        };
        if p.1.is_custom && by_value {
            emit(out, "\n        ");
            emit(out, names[i].as_str());
            emit(out, ".ptr = ref.NULL;");
        }
        assert(s.subrange(0, i + 1).drop_last() == s.subrange(0, i as int));
        assert(nm.subrange(0, i + 1).drop_last() == nm.subrange(0, i as int));
        i = i + 1;
    }
    assert(s.subrange(0, n as int) == s);
    assert(nm.subrange(0, n as int) == nm);
}

fn write_result_return(out: &mut String, function: &Function, has_return_type: bool)
    requires
        has_return_type == has_return_type_spec(*function),
    ensures
        final(out)@ == old(out)@ + result_return(*function),
{
    if has_return_type {
        if function.output.is_nullable && function.output.is_custom {
            emit(out, "\n        if (ref.isNull(result.ptr)) {\n            return null;\n        }");
        }
        if str_eq(function.output.name.as_str(), "Json") {
            emit(out, "\n        return JSON.parse(result);");
        } else {
            emit(out, "\n        return result;");
        }
    }
    reveal(result_return);
}

/// Appends the wrapper method of `function` to `out`, naming the method
/// `method` and its `i`-th input `names[i]`: a documentation comment in
/// documented mode, the head with type annotations in typed mode, then the
/// disposal checks, the native call, the release of handles given away,
/// and the return of the result.
pub fn write_fn_named(out: &mut String, function: &Function, method: &str, names: &Vec<String>, type_script: bool)
    requires
        names@.len() == function.inputs@.len(),
    ensures
        final(out)@ == old(out)@ + fn_text_named(*function, method@, views(names@), type_script),
{
    let ghost base = out@;
    let ghost f = *function;
    let ghost nm = views(names@);
    let is_static = function.is_static();
    let has_return_type = function.has_return_type();
    if !type_script {
        write_doc_block(out, function, names, is_static, has_return_type);
    }
    let ghost o1 = out@;
    write_signature(out, function, method, names, type_script, is_static, has_return_type);
    let ghost o2 = out@;
    write_disposal_checks(out, function, names);
    let ghost o3 = out@;
    write_call(out, function, names, has_return_type);
    let ghost o4 = out@;
    write_handle_releases(out, function, names);
    let ghost o5 = out@;
    write_result_return(out, function, has_return_type);
    let ghost o6 = out@;
    emit(out, "\n    }");
    proof {
        let head = if type_script {
            Seq::empty()
        } else {
            doc_block(f, nm)
        };
        let d = disposal_checks(f.inputs@, nm);
        let c = call(f, nm);
        let h = handle_releases(f.inputs@, nm);
        let r = result_return(f);
        let e = "\n    }"@;
        assert(o1 == base + head);
        assert(out@ == o6 + e);
        assert(o6 == o5 + r);
        assert(o5 == o4 + h);
        assert(o4 == o3 + c);
        assert(o3 == o2 + d);
        assert(out@ =~= o2 + (d + c + h + r + e));
        reveal(method_body);
        reveal(fn_text_named);
        assert(out@ =~= base + fn_text_named(f, method@, nm, type_script));
    }
}

/// The mixed-case names of the inputs of `function`.
fn input_names(function: &Function) -> (r: Vec<String>)
    ensures
        r@.len() == function.inputs@.len(),
        views(r@) == display_names(*function),
{
    let ghost s = function.inputs@;
    let n = function.inputs.len();
    let mut r: Vec<String> = Vec::new();
    let mut i: usize = 0;
    while i < n
        invariant
            n == s.len(),
            s == function.inputs@,
            i <= n,
            r@.len() == i,
            forall|j: int| 0 <= j < i ==> #[trigger] r@[j]@ == mixed_case_of(s[j].0@),
        decreases n - i,
    {
        r.push(to_mixed_case(function.inputs[i].0.as_str()));
        i = i + 1;
    }
    assert(views(r@) =~= display_names(*function));
    r
}

/// Appends the wrapper method of `function` to `out`, its method and
/// parameter names converted to mixed case (`set_name` becomes `setName`).
pub fn write_fn(out: &mut String, function: &Function, type_script: bool)
    ensures
        final(out)@ == old(out)@ + fn_text(*function, type_script),
{
    let method = to_mixed_case(function.method.as_str());
    let names = input_names(function);
    write_fn_named(out, function, method.as_str(), &names, type_script);
    reveal(fn_text);
}

} // verus!
