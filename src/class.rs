use vstd::prelude::*;
use crate::function::{fn_text, write_fn};
use crate::model::{Class, Extension, Function, Tier};
use crate::names::{emit, str_eq};

verus! {

/// The methods of the extensions for class `name` and tier `tier`, in table order.
pub open spec fn extension_text(exts: Seq<Extension>, name: Seq<char>, tier: Tier, type_script: bool) -> Seq<char>
    decreases exts.len(),
{
    if exts.len() == 0 {
        Seq::empty()
    } else {
        let e = exts.last();
        extension_text(exts.drop_last(), name, tier, type_script) + (if e.class_name@ == name
            && e.tier == tier {
            if type_script {
                e.typed@
            } else {
                e.documented@
            }
        } else {
            Seq::empty()
        })
    }
}

/// Whether `f` is a class's destructor.
pub open spec fn is_drop(f: Function) -> bool {
    f.method@ == "drop"@
}

/// The wrapper methods of `fns` in order, leaving out the destructor when `skip_drop`.
pub open spec fn fns_text(fns: Seq<Function>, type_script: bool, skip_drop: bool) -> Seq<char>
    decreases fns.len(),
{
    if fns.len() == 0 {
        Seq::empty()
    } else {
        fns_text(fns.drop_last(), type_script, skip_drop) + (if skip_drop && is_drop(fns.last()) {
            Seq::empty()
        } else {
            fn_text(fns.last(), type_script)
        })
    }
}

/// Index of the first destructor in `fns` at or after `i`.
pub open spec fn find_drop(fns: Seq<Function>, i: int) -> Option<int>
    decreases fns.len() - i,
{
    if i < 0 || i >= fns.len() {
        None
    } else if is_drop(fns[i]) {
        Some(i)
    } else {
        find_drop(fns, i + 1)
    }
}

/// The native destructor call inside `dispose`, if the class has a destructor.
pub open spec fn drop_call(own_fns: Seq<Function>) -> Seq<char> {
    match find_drop(own_fns, 0) {
        Some(i) => "\n            liveSplitCoreNative."@ + own_fns[i].name@ + "(this.ptr);"@,
        None => Seq::empty(),
    }
}

pub open spec fn constructor_text(type_script: bool) -> Seq<char> {
    if type_script {
        "\n    constructor(ptr: Buffer) {"@
    } else {
        "\n    /**\n     * @param {Buffer} ptr\n     */\n    constructor(ptr) {"@
    }
}

/// The shared-view class `<name>Ref`: the handle and the methods of `shared_fns`.
#[verifier::opaque]
pub open spec fn ref_tier(name: Seq<char>, shared_fns: Seq<Function>, exts: Seq<Extension>, type_script: bool) -> Seq<char> {
    "\n"@ + (if type_script {
        "export "@
    } else {
        Seq::empty()
    }) + "class "@ + name + "Ref {"@ + (if type_script {
        "\n    ptr: Buffer;"@
    } else {
        Seq::empty()
    }) + fns_text(shared_fns, type_script, false) + extension_text(
        exts,
        name,
        Tier::SharedView,
        type_script,
    ) + constructor_text(type_script) + "\n        this.ptr = ptr;\n    }\n}\n"@
}

/// What exports class `class` in documented mode, or opens the next export in typed mode.
pub open spec fn export_text(class: Seq<char>, type_script: bool) -> Seq<char> {
    if type_script {
        "\nexport "@
    } else {
        "exports."@ + class + " = "@ + class + ";\n\n"@
    }
}

/// The mutable-view class `<name>RefMut`, extending `<name>Ref` with `mut_fns`.
#[verifier::opaque]
pub open spec fn ref_mut_tier(name: Seq<char>, mut_fns: Seq<Function>, type_script: bool) -> Seq<char> {
    export_text(name + "Ref"@, type_script) + "class "@ + name + "RefMut extends "@ + name
        + "Ref {"@ + fns_text(mut_fns, type_script, false) + "\n}\n"@
}

pub open spec fn with_head(name: Seq<char>, type_script: bool) -> Seq<char> {
    if type_script {
        "\n    with(closure: (obj: "@ + name + ") => void) {"@
    } else {
        "\n    /**\n     * @param {function("@ + name + ")} closure\n     */\n    with(closure) {"@
    }
}

/// The scoped use `with` and the head of `dispose`, up to its destructor call.
pub open spec fn with_and_dispose_head() -> Seq<char> {
    "\n        try {\n            closure(this);\n        } finally {\n            this.dispose();\n        }\n    }\n    dispose() {\n        if (!ref.isNull(this.ptr)) {"@
}

pub open spec fn dispose_tail() -> Seq<char> {
    "\n            this.ptr = ref.NULL;\n        }\n    }"@
}

/// The scoped use `with` and the idempotent `dispose` of the owning class.
#[verifier::opaque]
pub open spec fn lifecycle_text(name: Seq<char>, own_fns: Seq<Function>, type_script: bool) -> Seq<char> {
    with_head(name, type_script) + with_and_dispose_head() + drop_call(own_fns) + dispose_tail()
}

pub open spec fn final_export(name: Seq<char>, type_script: bool) -> Seq<char> {
    if type_script {
        Seq::empty()
    } else {
        "\nexports."@ + name + " = "@ + name + ";"@
    }
}

/// The owning class `<name>`, extending `<name>RefMut` with `with`, `dispose`,
/// and the methods of `static_fns` and `own_fns` but the destructor.
#[verifier::opaque]
pub open spec fn owning_tier(
    name: Seq<char>,
    static_fns: Seq<Function>,
    own_fns: Seq<Function>,
    exts: Seq<Extension>,
    type_script: bool,
) -> Seq<char> {
    export_text(name + "RefMut"@, type_script) + "class "@ + name + " extends "@ + name
        + "RefMut {"@ + lifecycle_text(name, own_fns, type_script) + fns_text(static_fns, type_script, true) + fns_text(
        own_fns,
        type_script,
        true,
    ) + extension_text(exts, name, Tier::Owning, type_script) + "\n}"@ + final_export(
        name,
        type_script,
    ) + "\n"@
}

/// The three-tier hierarchy of class `name`.
pub open spec fn class_text(name: Seq<char>, c: Class, exts: Seq<Extension>, type_script: bool) -> Seq<char> {
    ref_tier(name, c.shared_fns@, exts, type_script) + ref_mut_tier(name, c.mut_fns@, type_script)
        + owning_tier(name, c.static_fns@, c.own_fns@, exts, type_script)
}

fn write_extensions(out: &mut String, exts: &Vec<Extension>, name: &str, tier: Tier, type_script: bool)
    ensures
        final(out)@ == old(out)@ + extension_text(exts@, name@, tier, type_script),
{
    let ghost base = out@;
    let ghost s = exts@;
    let n = exts.len();
    let mut i: usize = 0;
    while i < n
        invariant
            n == s.len(),
            s == exts@,
            i <= n,
            out@ == base + extension_text(s.subrange(0, i as int), name@, tier, type_script),
        decreases n - i,
    {
        let e = &exts[i];
        if str_eq(e.class_name.as_str(), name) && e.tier == tier {
            if type_script {
                emit(out, e.typed.as_str());
            } else {
                emit(out, e.documented.as_str());
            }
        }
        assert(s.subrange(0, i + 1).drop_last() == s.subrange(0, i as int));
        i = i + 1;
    }
    assert(s.subrange(0, n as int) == s);
}

fn write_fns(out: &mut String, fns: &Vec<Function>, type_script: bool, skip_drop: bool)
    ensures
        final(out)@ == old(out)@ + fns_text(fns@, type_script, skip_drop),
{
    let ghost base = out@;
    let ghost s = fns@;
    let n = fns.len();
    let mut i: usize = 0;
    while i < n
        invariant
            n == s.len(),
            s == fns@,
            i <= n,
            out@ == base + fns_text(s.subrange(0, i as int), type_script, skip_drop),
        decreases n - i,
    {
        let f = &fns[i];
        if !(skip_drop && str_eq(f.method.as_str(), "drop")) {
            write_fn(out, f, type_script);
        }
        assert(s.subrange(0, i + 1).drop_last() == s.subrange(0, i as int));
        i = i + 1;
    }
    assert(s.subrange(0, n as int) == s);
}

fn write_drop_call(out: &mut String, own_fns: &Vec<Function>)
    ensures
        final(out)@ == old(out)@ + drop_call(own_fns@),
{
    let ghost s = own_fns@;
    let n = own_fns.len();
    let mut i: usize = 0;
    while i < n
        invariant
            n == s.len(),
            s == own_fns@,
            i <= n,
            find_drop(s, 0) == find_drop(s, i as int),
            out@ == old(out)@,
        decreases n - i,
    {
        if str_eq(own_fns[i].method.as_str(), "drop") {
            emit(out, "\n            liveSplitCoreNative.");
            emit(out, own_fns[i].name.as_str());
            emit(out, "(this.ptr);");
            return;
        }
        i = i + 1;
    }
}

fn write_ref_tier(out: &mut String, name: &str, class: &Class, exts: &Vec<Extension>, type_script: bool)
    ensures
        final(out)@ == old(out)@ + ref_tier(name@, class.shared_fns@, exts@, type_script),
{
    let ghost base = out@;
    emit(out, "\n");
    if type_script {
        emit(out, "export ");
    }
    emit(out, "class ");
    emit(out, name);
    emit(out, "Ref {");
    if type_script {
        emit(out, "\n    ptr: Buffer;");
    }
    let ghost o1 = out@;
    write_fns(out, &class.shared_fns, type_script, false);
    let ghost o2 = out@;
    write_extensions(out, exts, name, Tier::SharedView, type_script);
    let ghost o3 = out@;
    if type_script {
        emit(out, "\n    constructor(ptr: Buffer) {");
    } else {
        emit(out, "\n    /**\n     * @param {Buffer} ptr\n     */\n    constructor(ptr) {");
    }
    let ghost o4 = out@;
    emit(out, "\n        this.ptr = ptr;\n    }\n}\n");
    proof {
        reveal(ref_tier);
        assert(o4 == o3 + constructor_text(type_script));
        assert(out@ =~= base + ref_tier(name@, class.shared_fns@, exts@, type_script));
    }
}

fn write_export(out: &mut String, class: &str, type_script: bool)
    ensures
        final(out)@ == old(out)@ + export_text(class@, type_script),
{
    if type_script {
        emit(out, "\nexport ");
    } else {
        emit(out, "exports.");
        emit(out, class);
        emit(out, " = ");
        emit(out, class);
        emit(out, ";\n\n");
    }
    proof {
        assert(out@ =~= old(out)@ + export_text(class@, type_script));
    }
}

fn write_ref_mut_tier(out: &mut String, name: &str, class: &Class, type_script: bool)
    ensures
        final(out)@ == old(out)@ + ref_mut_tier(name@, class.mut_fns@, type_script),
{
    let ghost base = out@;
    let mut ref_name = String::from_str(name);
    emit(&mut ref_name, "Ref");
    write_export(out, ref_name.as_str(), type_script);
    emit(out, "class ");
    emit(out, name);
    emit(out, "RefMut extends ");
    emit(out, name);
    emit(out, "Ref {");
    let ghost o1 = out@;
    write_fns(out, &class.mut_fns, type_script, false);
    emit(out, "\n}\n");
    proof {
        reveal(ref_mut_tier);
        assert(out@ =~= base + ref_mut_tier(name@, class.mut_fns@, type_script));
    }
}

fn write_lifecycle(out: &mut String, name: &str, own_fns: &Vec<Function>, type_script: bool)
    ensures
        final(out)@ == old(out)@ + lifecycle_text(name@, own_fns@, type_script),
{
    let ghost base = out@;
    if type_script {
        emit(out, "\n    with(closure: (obj: ");
        emit(out, name);
        emit(out, ") => void) {");
    } else {
        emit(out, "\n    /**\n     * @param {function(");
        emit(out, name);
        emit(out, ")} closure\n     */\n    with(closure) {");
    }
    let ghost o1 = out@;
    emit(
        out,
        "\n        try {\n            closure(this);\n        } finally {\n            this.dispose();\n        }\n    }\n    dispose() {\n        if (!ref.isNull(this.ptr)) {",
    );
    write_drop_call(out, own_fns);
    emit(out, "\n            this.ptr = ref.NULL;\n        }\n    }");
    proof {
        reveal(lifecycle_text);
        assert(o1 =~= base + with_head(name@, type_script));
        assert(out@ =~= base + lifecycle_text(name@, own_fns@, type_script));
    }
}

fn write_owning_tier(out: &mut String, name: &str, class: &Class, exts: &Vec<Extension>, type_script: bool)
    ensures
        final(out)@ == old(out)@ + owning_tier(
            name@,
            class.static_fns@,
            class.own_fns@,
            exts@,
            type_script,
        ),
{
    let ghost base = out@;
    let mut ref_mut_name = String::from_str(name);
    emit(&mut ref_mut_name, "RefMut");
    write_export(out, ref_mut_name.as_str(), type_script);
    emit(out, "class ");
    emit(out, name);
    emit(out, " extends ");
    emit(out, name);
    emit(out, "RefMut {");
    let ghost o1 = out@;
    write_lifecycle(out, name, &class.own_fns, type_script);
    let ghost o5 = out@;
    write_fns(out, &class.static_fns, type_script, true);
    let ghost o6 = out@;
    write_fns(out, &class.own_fns, type_script, true);
    let ghost o7 = out@;
    write_extensions(out, exts, name, Tier::Owning, type_script);
    let ghost o8 = out@;
    emit(out, "\n}");
    let ghost o9 = out@;
    if !type_script {
        emit(out, "\nexports.");
        emit(out, name);
        emit(out, " = ");
        emit(out, name);
        emit(out, ";");
    }
    let ghost o10 = out@;
    emit(out, "\n");
    proof {
        reveal(owning_tier);
        assert(o10 =~= o9 + final_export(name@, type_script));
        assert(out@ =~= base + owning_tier(
            name@,
            class.static_fns@,
            class.own_fns@,
            exts@,
            type_script,
        ));
    }
}

/// Appends the three-tier hierarchy of class `name` to `out`: the shared
/// view `<name>Ref`, the mutable view `<name>RefMut`, and the owning class
/// `<name>`, each tier extending the one before.
pub fn write_class(out: &mut String, name: &str, class: &Class, exts: &Vec<Extension>, type_script: bool)
    ensures
        final(out)@ == old(out)@ + class_text(name@, *class, exts@, type_script),
{
    let ghost base = out@;
    write_ref_tier(out, name, class, exts, type_script);
    let ghost o1 = out@;
    write_ref_mut_tier(out, name, class, type_script);
    let ghost o2 = out@;
    write_owning_tier(out, name, class, exts, type_script);
    proof {
        assert(out@ =~= base + class_text(name@, *class, exts@, type_script));
    }
}

} // verus!
