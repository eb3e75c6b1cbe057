use bind_gen::names::str_less;
use bind_gen::node::class_names_ascend;
use bind_gen::class::write_class;
use bind_gen::extensions::default_extensions;
use bind_gen::function::{write_fn, write_fn_named};
use bind_gen::model::{Class, Extension, Function, Tier, Type, TypeKind};
use bind_gen::types::{get_hl_type_with_null, get_hl_type_without_null, get_ll_type};

fn ty(name: &str, kind: TypeKind, is_custom: bool, is_nullable: bool) -> Type {
    Type { kind, is_custom, is_nullable, name: name.to_string() }
}

fn prim(name: &str) -> Type {
    ty(name, TypeKind::Value, false, false)
}

fn this(class: &str, kind: TypeKind) -> (String, Type) {
    ("this".to_string(), ty(class, kind, true, false))
}

fn func(name: &str, method: &str, inputs: Vec<(String, Type)>, output: Type) -> Function {
    Function { name: name.to_string(), method: method.to_string(), inputs, output }
}

fn empty_class() -> Class {
    Class { static_fns: vec![], shared_fns: vec![], mut_fns: vec![], own_fns: vec![] }
}

fn foo_class() -> Class {
    let mut c = empty_class();
    c.own_fns.push(func("Foo_drop", "drop", vec![this("Foo", TypeKind::Value)], prim("()")));
    c.shared_fns.push(func("Foo_bar", "bar", vec![this("Foo", TypeKind::Ref)], prim("i32")));
    c
}

fn fn_text(f: &Function, type_script: bool) -> String {
    let mut out = String::new();
    write_fn(&mut out, f, type_script);
    out
}

#[test]
fn primitive_abi_tags() {
    let table = [
        ("i8", "'int8'"),
        ("i16", "'int16'"),
        ("i32", "'int32'"),
        ("i64", "'int64'"),
        ("u8", "'uint8'"),
        ("u16", "'uint16'"),
        ("u32", "'uint32'"),
        ("u64", "'uint64'"),
        ("usize", "'size_t'"),
        ("f32", "'float'"),
        ("f64", "'double'"),
        ("bool", "'bool'"),
        ("()", "'void'"),
        ("c_char", "'char'"),
    ];
    for (name, tag) in table.iter() {
        assert_eq!(get_ll_type(&prim(name)), *tag);
        assert_eq!(get_ll_type(&prim(name)), get_ll_type(&prim(name)));
    }
    assert_eq!(get_ll_type(&prim("Json")), "'CString'");
    assert_eq!(get_ll_type(&ty("Json", TypeKind::Ref, false, false)), "'CString'");
}

#[test]
fn pointer_abi_tags() {
    assert_eq!(get_ll_type(&ty("c_char", TypeKind::Ref, false, false)), "'CString'");
    assert_eq!(get_ll_type(&ty("u8", TypeKind::Ref, false, false)), "'pointer'");
    assert_eq!(get_ll_type(&ty("Timer", TypeKind::RefMut, true, false)), "'pointer'");
    assert_eq!(get_ll_type(&ty("Timer", TypeKind::Value, true, false)), "'pointer'");
}

#[test]
fn host_types() {
    assert_eq!(get_hl_type_without_null(&ty("Timer", TypeKind::Ref, true, false)), "TimerRef");
    assert_eq!(get_hl_type_without_null(&ty("Timer", TypeKind::RefMut, true, false)), "TimerRefMut");
    assert_eq!(get_hl_type_without_null(&ty("Timer", TypeKind::Value, true, false)), "Timer");
    assert_eq!(get_hl_type_without_null(&ty("c_char", TypeKind::Ref, false, false)), "string");
    assert_eq!(get_hl_type_without_null(&ty("u8", TypeKind::Ref, false, false)), "Buffer");
    assert_eq!(get_hl_type_without_null(&ty("u8", TypeKind::RefMut, false, false)), "Buffer");
    assert_eq!(get_hl_type_without_null(&prim("f64")), "number");
    assert_eq!(get_hl_type_without_null(&prim("usize")), "number");
    assert_eq!(get_hl_type_without_null(&prim("bool")), "boolean");
    assert_eq!(get_hl_type_without_null(&prim("()")), "void");
    assert_eq!(get_hl_type_without_null(&prim("Json")), "any");
    assert_eq!(get_hl_type_without_null(&prim("Other")), "Other");
}

#[test]
fn nullable_host_types() {
    assert_eq!(get_hl_type_with_null(&ty("Run", TypeKind::Value, true, true)), "Run | null");
    assert_eq!(get_hl_type_with_null(&ty("Run", TypeKind::Ref, true, false)), "RunRef");
    assert_eq!(get_hl_type_with_null(&ty("u32", TypeKind::Value, false, true)), "number | null");
}

#[test]
fn shared_method_typed() {
    let f = func("Foo_bar", "bar", vec![this("Foo", TypeKind::Ref)], prim("i32"));
    assert_eq!(
        fn_text(&f, true),
        "\n    bar(): number {\n        if (ref.isNull(this.ptr)) {\n            throw \"this is disposed\";\n        }\n        var result = liveSplitCoreNative.Foo_bar(this.ptr);\n        return result;\n    }"
    );
}

#[test]
fn static_method_documented() {
    let f = func(
        "Timer_new",
        "new_with_run",
        vec![("main_run".to_string(), ty("Run", TypeKind::Value, true, false))],
        ty("Timer", TypeKind::Value, true, true),
    );
    assert_eq!(
        fn_text(&f, false),
        "\n    /**\n     * @param {Run} mainRun\n     * @return {Timer | null}\n     */\n    static newWithRun(mainRun) {\n        if (ref.isNull(mainRun.ptr)) {\n            throw \"mainRun is disposed\";\n        }\n        var result = new Timer(liveSplitCoreNative.Timer_new(mainRun.ptr));\n        mainRun.ptr = ref.NULL;\n        if (ref.isNull(result.ptr)) {\n            return null;\n        }\n        return result;\n    }"
    );
}

#[test]
fn method_names_are_mixed_case() {
    let f = func("Run_set_game_name", "set_game_name", vec![this("Run", TypeKind::RefMut)], prim("()"));
    let text = fn_text(&f, true);
    assert!(text.starts_with("\n    setGameName() {"));
    assert!(!text.contains("set_game_name()"));
    assert!(text.contains("liveSplitCoreNative.Run_set_game_name(this.ptr);"));
}

#[test]
fn value_parameter_handle_is_nulled() {
    let f = func(
        "Editor_close",
        "close",
        vec![this("Editor", TypeKind::Value), ("other".to_string(), ty("Run", TypeKind::Value, true, false))],
        prim("()"),
    );
    let text = fn_text(&f, true);
    assert!(text.contains("\n        this.ptr = ref.NULL;"));
    assert!(text.contains("\n        other.ptr = ref.NULL;"));
    assert!(text.contains("liveSplitCoreNative.Editor_close(this.ptr, other.ptr);"));
}

#[test]
fn borrowed_parameter_handle_is_kept() {
    let f = func(
        "Timer_replace",
        "replace",
        vec![
            this("Timer", TypeKind::RefMut),
            ("shared".to_string(), ty("Run", TypeKind::Ref, true, false)),
            ("unique".to_string(), ty("Run", TypeKind::RefMut, true, false)),
        ],
        prim("bool"),
    );
    let text = fn_text(&f, true);
    assert!(!text.contains("ref.NULL"));
    assert!(text.contains("if (ref.isNull(shared.ptr))"));
    assert!(text.contains("if (ref.isNull(unique.ptr))"));
    assert!(text.contains("replace(shared: RunRef, unique: RunRefMut): boolean {"));
}

#[test]
fn nullable_custom_result_is_checked() {
    let f = func("Bar_find", "find", vec![("key".to_string(), prim("u32"))], ty("Bar", TypeKind::Value, true, true));
    let text = fn_text(&f, true);
    let wrap = text.find("var result = new Bar(liveSplitCoreNative.Bar_find(key));").unwrap();
    let check = text.find("if (ref.isNull(result.ptr)) {\n            return null;\n        }").unwrap();
    let ret = text.find("return result;").unwrap();
    assert!(wrap < check && check < ret);
    assert!(text.starts_with("\n    static find(key: number): Bar | null {"));
}

#[test]
fn non_nullable_custom_result_is_not_checked() {
    let f = func("Bar_make", "make", vec![], ty("Bar", TypeKind::Value, true, false));
    let text = fn_text(&f, true);
    assert!(text.contains("var result = new Bar(liveSplitCoreNative.Bar_make());"));
    assert!(!text.contains("return null;"));
}

#[test]
fn json_values_are_serialized() {
    let f = func(
        "Layout_update",
        "update_with",
        vec![this("Layout", TypeKind::RefMut), ("settings".to_string(), prim("Json"))],
        ty("Json", TypeKind::Value, false, false),
    );
    let text = fn_text(&f, true);
    assert!(text.contains("updateWith(settings: any): any {"));
    assert!(text.contains("var result = liveSplitCoreNative.Layout_update(this.ptr, JSON.stringify(settings));"));
    assert!(text.contains("\n        return JSON.parse(result);\n    }"));
}

#[test]
fn foo_class_typed() {
    let mut out = String::new();
    write_class(&mut out, "Foo", &foo_class(), &default_extensions(), true);
    let expected = "\nexport class FooRef {\n    ptr: Buffer;\n    bar(): number {\n        if (ref.isNull(this.ptr)) {\n            throw \"this is disposed\";\n        }\n        var result = liveSplitCoreNative.Foo_bar(this.ptr);\n        return result;\n    }\n    constructor(ptr: Buffer) {\n        this.ptr = ptr;\n    }\n}\n\nexport class FooRefMut extends FooRef {\n}\n\nexport class Foo extends FooRefMut {\n    with(closure: (obj: Foo) => void) {\n        try {\n            closure(this);\n        } finally {\n            this.dispose();\n        }\n    }\n    dispose() {\n        if (!ref.isNull(this.ptr)) {\n            liveSplitCoreNative.Foo_drop(this.ptr);\n            this.ptr = ref.NULL;\n        }\n    }\n}\n";
    assert_eq!(out, expected);
    assert!(!out.contains("readWith"));
    assert!(!out.contains("parseArray"));
}

#[test]
fn foo_class_documented() {
    let mut out = String::new();
    write_class(&mut out, "Foo", &foo_class(), &default_extensions(), false);
    assert!(out.starts_with("\nclass FooRef {\n    /**\n     * @return {number}\n     */\n    bar() {"));
    assert!(out.contains("exports.FooRef = FooRef;\n\nclass FooRefMut extends FooRef {\n}\n"));
    assert!(out.contains("exports.FooRefMut = FooRefMut;\n\nclass Foo extends FooRefMut {"));
    assert!(out.contains("    with(closure) {"));
    assert!(out.ends_with("    }\n}\nexports.Foo = Foo;\n"));
    assert!(!out.contains("readWith"));
    assert!(!out.contains("parseString"));
}

#[test]
fn class_without_destructor_disposes_by_nulling() {
    let mut out = String::new();
    write_class(&mut out, "Plain", &empty_class(), &vec![], true);
    assert!(out.contains("if (!ref.isNull(this.ptr)) {\n            this.ptr = ref.NULL;\n        }"));
    assert!(!out.contains("liveSplitCoreNative"));
}

fn full_class() -> Class {
    let mut c = empty_class();
    c.static_fns.push(func("Thing_new", "new", vec![], ty("Thing", TypeKind::Value, true, false)));
    c.own_fns.push(func("Thing_drop", "drop", vec![this("Thing", TypeKind::Value)], prim("()")));
    c.own_fns.push(func("Thing_into_list", "into_list", vec![this("Thing", TypeKind::Value)], prim("u8")));
    c.shared_fns.push(func("Thing_len", "len", vec![this("Thing", TypeKind::Ref)], prim("usize")));
    c.mut_fns.push(func("Thing_clear", "clear", vec![this("Thing", TypeKind::RefMut)], prim("()")));
    c
}

#[test]
fn each_method_in_its_tier() {
    let mut out = String::new();
    write_class(&mut out, "Thing", &full_class(), &vec![], true);
    let ref_mut = out.find("class ThingRefMut extends ThingRef {").unwrap();
    let owning = out.find("class Thing extends ThingRefMut {").unwrap();
    let len = out.find("    len(): number {").unwrap();
    let clear = out.find("    clear() {").unwrap();
    let new = out.find("    static new(): Thing {").unwrap();
    let into_list = out.find("    intoList(): number {").unwrap();
    assert!(len < ref_mut);
    assert!(ref_mut < clear && clear < owning);
    assert!(owning < new && new < into_list);
    assert_eq!(out.matches("class ThingRef ").count(), 1);
    assert_eq!(out.matches("class ThingRefMut ").count(), 1);
    assert_eq!(out.matches("class Thing ").count(), 1);
    assert_eq!(out.matches("liveSplitCoreNative.Thing_drop(this.ptr);").count(), 1);
    assert!(!out.contains("    drop("));
}

#[test]
fn lock_holder_extension() {
    let mut out = String::new();
    write_class(&mut out, "SharedTimer", &empty_class(), &default_extensions(), true);
    let read_with = out.find("    readWith(action: (timer: TimerRef) => void) {").unwrap();
    let ref_mut = out.find("class SharedTimerRefMut").unwrap();
    assert!(read_with < ref_mut);
    assert!(out.contains("    writeWith(action: (timer: TimerRefMut) => void) {"));
    assert!(!out.contains("parseArray"));
}

#[test]
fn byte_parser_extension() {
    let mut out = String::new();
    write_class(&mut out, "Run", &empty_class(), &default_extensions(), false);
    let owning = out.find("class Run extends RunRefMut {").unwrap();
    let parse = out.find("    static parseArray(data) {").unwrap();
    assert!(owning < parse);
    assert!(out.contains("        var data = fs.readFileSync(file);"));
    assert!(out.contains("     * @param {string} text"));
    assert!(!out.contains("readWith"));
}

#[test]
fn custom_extension_table() {
    let ext = Extension {
        class_name: "Foo".to_string(),
        tier: Tier::Owning,
        typed: "\n    extra() {}".to_string(),
        documented: "\n    documentedExtra() {}".to_string(),
    };
    let mut out = String::new();
    write_class(&mut out, "Foo", &foo_class(), &vec![ext], true);
    assert!(out.ends_with("    }\n    extra() {}\n}\n"));
}

fn model() -> Vec<(String, Class)> {
    vec![("Foo".to_string(), foo_class()), ("Thing".to_string(), full_class())]
}

#[test]
fn module_documented() {
    let out = bind_gen::node::write(&model(), &default_extensions(), false, "");
    assert!(out.starts_with("\"use strict\";\nvar ffi = require('ffi');\nvar fs = require('fs');\nvar ref = require('ref');\n\nvar liveSplitCoreNative = ffi.Library('livesplit_core', {\n    'Foo_drop': ['void', ['pointer']],\n    'Foo_bar': ['int32', ['pointer']],\n    'Thing_new': ['pointer', []],\n    'Thing_drop': ['void', ['pointer']],\n    'Thing_into_list': ['uint8', ['pointer']],\n    'Thing_len': ['size_t', ['pointer']],\n    'Thing_clear': ['void', ['pointer']],\n});\n\nclass FooRef {"));
    let foo = out.find("class Foo extends").unwrap();
    let thing = out.find("class ThingRef {").unwrap();
    assert!(foo < thing);
}

#[test]
fn module_typed() {
    let out = bind_gen::node::write(&model(), &default_extensions(), true, "// header");
    assert!(out.starts_with("\"use strict\";\nimport ffi = require('ffi');\nimport fs = require('fs');\nimport ref = require('ref');\n\n// header\n\nvar liveSplitCoreNative = ffi.Library('livesplit_core', {\n    'Foo_drop'"));
    assert!(out.contains("\n});\n\nexport class FooRef {"));
    assert!(!out.contains("exports."));
}

#[test]
fn binding_entry_lists_parameter_tags() {
    let mut c = empty_class();
    c.mut_fns.push(func(
        "Run_push",
        "push",
        vec![this("Run", TypeKind::RefMut), ("name".to_string(), ty("c_char", TypeKind::Ref, false, false)), ("n".to_string(), prim("i64"))],
        prim("f64"),
    ));
    let out = bind_gen::node::write(&vec![("Run".to_string(), c)], &vec![], false, "");
    assert!(out.contains("\n    'Run_push': ['double', ['pointer', 'CString', 'int64']],\n});\n"));
}

#[test]
fn generation_is_deterministic() {
    let m = model();
    let e = default_extensions();
    assert_eq!(bind_gen::node::write(&m, &e, true, "h"), bind_gen::node::write(&m, &e, true, "h"));
    assert_eq!(bind_gen::node::write(&m, &e, false, ""), bind_gen::node::write(&m, &e, false, ""));
}

#[test]
fn empty_model() {
    let out = bind_gen::node::write(&vec![], &vec![], false, "");
    assert_eq!(out, "\"use strict\";\nvar ffi = require('ffi');\nvar fs = require('fs');\nvar ref = require('ref');\n\nvar liveSplitCoreNative = ffi.Library('livesplit_core', {\n});\n");
}

#[test]
fn method_with_given_names() {
    let f = func(
        "Run_push_segment",
        "push_segment",
        vec![this("Run", TypeKind::RefMut), ("segment".to_string(), ty("Segment", TypeKind::Value, true, false))],
        prim("()"),
    );
    let mut out = String::new();
    write_fn_named(&mut out, &f, "append", &vec!["this".to_string(), "seg".to_string()], false);
    assert_eq!(
        out,
        "\n    /**\n     * @param {Segment} seg\n     */\n    append(seg) {\n        if (ref.isNull(this.ptr)) {\n            throw \"this is disposed\";\n        }\n        if (ref.isNull(seg.ptr)) {\n            throw \"seg is disposed\";\n        }\n        liveSplitCoreNative.Run_push_segment(this.ptr, seg.ptr);\n        seg.ptr = ref.NULL;\n    }"
    );
}

#[test]
fn parameter_names_are_mixed_case() {
    let f = func(
        "Run_push_segment",
        "push_segment",
        vec![this("Run", TypeKind::RefMut), ("new_segment".to_string(), ty("Segment", TypeKind::Value, true, false))],
        prim("()"),
    );
    let text = fn_text(&f, true);
    assert!(text.starts_with("\n    pushSegment(newSegment: Segment) {"));
    assert!(text.contains("\n        newSegment.ptr = ref.NULL;"));
}

#[test]
fn json_is_any_whatever_its_kind() {
    assert_eq!(get_hl_type_without_null(&ty("Json", TypeKind::Ref, false, false)), "any");
    assert_eq!(get_hl_type_without_null(&ty("Json", TypeKind::RefMut, false, false)), "any");
    assert_eq!(get_hl_type_with_null(&ty("Json", TypeKind::Ref, false, true)), "any | null");
}

#[test]
fn documented_factories_have_no_annotations() {
    let mut out = String::new();
    write_class(&mut out, "Run", &empty_class(), &default_extensions(), false);
    assert!(out.contains("    static parseFile(file) {"));
    assert!(out.contains("    static parseString(text) {"));
    assert!(!out.contains("file: any"));
    assert!(!out.contains("): Run"));
}

#[test]
fn string_order() {
    assert!(str_less("Atomic", "AtomicDateTime"));
    assert!(str_less("Run", "SharedTimer"));
    assert!(str_less("", "a"));
    assert!(!str_less("Timer", "Timer"));
    assert!(!str_less("b", "a"));
    assert!(!str_less("Runs", "Run"));
    assert!(str_less("Z", "a"));
}

#[test]
fn class_names_must_ascend() {
    assert!(class_names_ascend(&model()));
    assert!(class_names_ascend(&vec![]));
    assert!(!class_names_ascend(&vec![("Thing".to_string(), empty_class()), ("Foo".to_string(), empty_class())]));
    assert!(!class_names_ascend(&vec![("Foo".to_string(), empty_class()), ("Foo".to_string(), empty_class())]));
}
