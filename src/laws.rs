use vstd::prelude::*;
use crate::class::{
    class_text, export_text, fns_text, is_drop, lifecycle_text, owning_tier, ref_mut_tier,
    ref_tier, extension_text, constructor_text, final_export,
};
use crate::function::{
    Param, call, call_arguments, disposal_checks, doc_block, fn_text_named, handle_release,
    handle_release_line, handle_releases, method_body, null_result_check, result_return,
    return_line, signature, transfers_ownership,
};
use crate::model::{Class, Extension, Function, Tier, Type, TypeKind, has_return_type_spec};
use crate::names::{lt_at, str_lt};
use crate::node::{classes_text, module_text, names_ascend};
use crate::types::{abi_tag, host_type, is_numeric_name, primitive_abi_tag};

verus! {

/// The closed set of primitive type names.
pub open spec fn is_primitive_name(n: Seq<char>) -> bool {
    is_numeric_name(n) || n == "bool"@ || n == "()"@ || n == "c_char"@
}

/// The tags of the fixed primitive table.
pub open spec fn is_primitive_tag(tag: Seq<char>) -> bool {
    tag == "'int8'"@ || tag == "'int16'"@ || tag == "'int32'"@ || tag == "'int64'"@ || tag
        == "'uint8'"@ || tag == "'uint16'"@ || tag == "'uint32'"@ || tag == "'uint64'"@ || tag
        == "'size_t'"@ || tag == "'float'"@ || tag == "'double'"@ || tag == "'bool'"@ || tag
        == "'void'"@ || tag == "'char'"@
}

/// The ABI tag mapping is total and single-valued on the primitives: each
/// primitive passed by value gets exactly one tag, always one of the fixed
/// table and never a fall-through, and `Json` always gets the owned C string
/// tag.
pub proof fn lemma_primitive_abi_tags(t: Type)
    ensures
        t.name@ == "Json"@ ==> abi_tag(t) == "'CString'"@,
        !t.is_custom && t.kind == TypeKind::Value && is_primitive_name(t.name@) ==> abi_tag(t) == primitive_abi_tag(t.name@) && is_primitive_tag(abi_tag(t)),
{
    reveal_strlit("i8");
    reveal_strlit("i16");
    reveal_strlit("i32");
    reveal_strlit("i64");
    reveal_strlit("u8");
    reveal_strlit("u16");
    reveal_strlit("u32");
    reveal_strlit("u64");
    reveal_strlit("usize");
    reveal_strlit("f32");
    reveal_strlit("f64");
    reveal_strlit("bool");
    reveal_strlit("()");
    reveal_strlit("c_char");
    reveal_strlit("Json");
    assert("bool"@[0] != "Json"@[0]);
    assert(is_primitive_name(t.name@) ==> t.name@ != "Json"@);
}

/// The functions of `fns` that are not destructors.
pub open spec fn without_drop(fns: Seq<Function>) -> Seq<Function> {
    fns.filter(|f: Function| !is_drop(f))
}

/// Leaving out the destructor while emitting is emitting the other functions.
pub proof fn lemma_skip_drop(fns: Seq<Function>, type_script: bool, keep: spec_fn(Function) -> bool)
    requires
        forall|f: Function| #[trigger] keep(f) == !is_drop(f),
    ensures
        fns_text(fns, type_script, true) == fns_text(fns.filter(keep), type_script, false),
    decreases fns.len(),
{
    reveal(Seq::filter);
    if fns.len() > 0 {
        lemma_skip_drop(fns.drop_last(), type_script, keep);
        let sub = fns.drop_last().filter(keep);
        assert(sub.push(fns.last()).drop_last() =~= sub);
    }
}

/// Each class yields its three tiers in order, each holding the methods of
/// its own category only: the shared view `<name>Ref` those of `shared_fns`;
/// the mutable view `<name>RefMut`, extending it, those of `mut_fns`; the
/// owning class `<name>`, extending that, `with`, `dispose`, and those of
/// `static_fns` and `own_fns` but the destructor.
pub proof fn lemma_three_tiers(name: Seq<char>, c: Class, exts: Seq<Extension>, type_script: bool)
    ensures
        class_text(name, c, exts, type_script) == ref_tier(name, c.shared_fns@, exts, type_script)
            + ref_mut_tier(name, c.mut_fns@, type_script) + owning_tier(
            name,
            c.static_fns@,
            c.own_fns@,
            exts,
            type_script,
        ),
        ref_tier(name, c.shared_fns@, exts, type_script) == "\n"@ + (if type_script {
            "export "@
        } else {
            Seq::empty()
        }) + "class "@ + name + "Ref {"@ + (if type_script {
            "\n    ptr: Buffer;"@
        } else {
            Seq::empty()
        }) + fns_text(c.shared_fns@, type_script, false) + extension_text(
            exts,
            name,
            Tier::SharedView,
            type_script,
        ) + constructor_text(type_script) + "\n        this.ptr = ptr;\n    }\n}\n"@,
        ref_mut_tier(name, c.mut_fns@, type_script) == export_text(name + "Ref"@, type_script)
            + "class "@ + name + "RefMut extends "@ + name + "Ref {"@ + fns_text(
            c.mut_fns@,
            type_script,
            false,
        ) + "\n}\n"@,
        owning_tier(name, c.static_fns@, c.own_fns@, exts, type_script) == export_text(
            name + "RefMut"@,
            type_script,
        ) + "class "@ + name + " extends "@ + name + "RefMut {"@ + lifecycle_text(
            name,
            c.own_fns@,
            type_script,
        ) + fns_text(without_drop(c.static_fns@), type_script, false) + fns_text(
            without_drop(c.own_fns@),
            type_script,
            false,
        ) + extension_text(exts, name, Tier::Owning, type_script) + "\n}"@ + final_export(
            name,
            type_script,
        ) + "\n"@,
{
    reveal(ref_tier);
    reveal(ref_mut_tier);
    reveal(owning_tier);
    let keep = |f: Function| !is_drop(f);
    lemma_skip_drop(c.static_fns@, type_script, keep);
    lemma_skip_drop(c.own_fns@, type_script, keep);
}

/// Generation is deterministic: two runs of `node::write` on the same model,
/// extensions, mode and header produce the same text.
pub proof fn lemma_generation_deterministic(
    classes: Seq<(String, Class)>,
    exts: Seq<Extension>,
    type_script: bool,
    header: Seq<char>,
    first: Seq<char>,
    second: Seq<char>,
)
    requires
        first == module_text(classes, exts, type_script, header),
        second == module_text(classes, exts, type_script, header),
    ensures
        first == second,
{
}

pub proof fn lemma_handle_releases_append(a: Seq<Param>, b: Seq<Param>, na: Seq<Seq<char>>, nb: Seq<Seq<char>>)
    requires
        a.len() == na.len(),
        b.len() == nb.len(),
    ensures
        handle_releases(a + b, na + nb) == handle_releases(a, na) + handle_releases(b, nb),
    decreases b.len(),
{
    if b.len() == 0 {
        assert(a + b =~= a);
        assert(na + nb =~= na);
        assert(handle_releases(a, na) + handle_releases(b, nb) =~= handle_releases(a, na));
    } else {
        lemma_handle_releases_append(a, b.drop_last(), na, nb.drop_last());
        assert((a + b).drop_last() =~= a + b.drop_last());
        assert((na + nb).drop_last() =~= na + nb.drop_last());
        assert(handle_releases(a + b, na + nb) =~= handle_releases(a, na) + handle_releases(b, nb));
    }
}

/// The text of a method up to the release of the handles given away.
pub open spec fn before_releases(f: Function, method: Seq<char>, names: Seq<Seq<char>>, type_script: bool) -> Seq<char> {
    (if type_script {
        Seq::empty()
    } else {
        doc_block(f, names)
    }) + signature(f, method, names, type_script) + disposal_checks(f.inputs@, names) + call(f, names)
}

/// The handles of the arguments are released right after the native call:
/// an argument that gives up ownership (custom type, by value) has its
/// handle nulled there, and a borrowed argument adds nothing to the
/// releases.
pub proof fn lemma_transfer_nulls_handle(
    f: Function,
    method: Seq<char>,
    names: Seq<Seq<char>>,
    type_script: bool,
    i: int,
)
    requires
        names.len() == f.inputs@.len(),
        0 <= i < f.inputs@.len(),
    ensures
        fn_text_named(f, method, names, type_script) == before_releases(f, method, names, type_script)
            + handle_releases(f.inputs@, names) + result_return(f) + "\n    }"@,
        transfers_ownership(f.inputs@[i]) ==> exists|a: Seq<char>, b: Seq<char>|
            handle_releases(f.inputs@, names) == a + handle_release_line(names[i]) + b,
        !transfers_ownership(f.inputs@[i]) ==> handle_releases(f.inputs@, names) == handle_releases(
            f.inputs@.remove(i),
            names.remove(i),
        ),
{
    reveal(fn_text_named);
    reveal(method_body);
    assert(fn_text_named(f, method, names, type_script) =~= before_releases(f, method, names, type_script)
        + handle_releases(f.inputs@, names) + result_return(f) + "\n    }"@);
    let s = f.inputs@;
    let a = s.subrange(0, i);
    let x = seq![s[i]];
    let b = s.subrange(i + 1, s.len() as int);
    let na = names.subrange(0, i);
    let nx = seq![names[i]];
    let nb = names.subrange(i + 1, names.len() as int);
    assert(s =~= a + x + b);
    assert(names =~= na + nx + nb);
    assert(s.remove(i) =~= a + b);
    assert(names.remove(i) =~= na + nb);
    lemma_handle_releases_append(a + x, b, na + nx, nb);
    lemma_handle_releases_append(a, x, na, nx);
    lemma_handle_releases_append(a, b, na, nb);
    assert(x.drop_last() =~= Seq::<Param>::empty());
    assert(nx.drop_last() =~= Seq::<Seq<char>>::empty());
    assert(x.last() == s[i]);
    assert(nx.last() == names[i]);
    assert(handle_releases(x.drop_last(), nx.drop_last()) =~= Seq::<char>::empty());
    assert(handle_releases(x, nx) =~= handle_release(s[i], names[i]));
    if transfers_ownership(s[i]) {
        assert(handle_releases(s, names) == handle_releases(a, na) + handle_release_line(names[i])
            + handle_releases(b, nb));
    } else {
        assert(handle_releases(s, names) =~= handle_releases(a, na) + handle_releases(b, nb));
    }
}

/// A nullable custom result is wrapped in its owning class, then checked for
/// a null handle, with `null` returned in that case before the result.
pub proof fn lemma_nullable_result_checked(
    f: Function,
    method: Seq<char>,
    names: Seq<Seq<char>>,
    type_script: bool,
)
    requires
        has_return_type_spec(f),
        f.output.is_custom,
        f.output.is_nullable,
    ensures
        call(f, names) == "var result = new "@ + host_type(f.output) + "("@ + "liveSplitCoreNative."@
            + f.name@ + "("@ + call_arguments(f.inputs@, names) + ")"@ + ")"@ + ";"@,
        fn_text_named(f, method, names, type_script) == before_releases(f, method, names, type_script)
            + handle_releases(f.inputs@, names) + null_result_check() + return_line(f) + "\n    }"@,
{
    reveal(fn_text_named);
    reveal(method_body);
    reveal(call);
    reveal(result_return);
    assert(fn_text_named(f, method, names, type_script) =~= before_releases(f, method, names, type_script)
        + handle_releases(f.inputs@, names) + null_result_check() + return_line(f) + "\n    }"@);
}

/// No string comes strictly before itself.
pub proof fn lemma_str_lt_irreflexive(a: Seq<char>)
    ensures
        !str_lt(a, a),
{
}

/// Lexicographic order is transitive.
pub proof fn lemma_str_lt_transitive(a: Seq<char>, b: Seq<char>, c: Seq<char>)
    requires
        str_lt(a, b),
        str_lt(b, c),
    ensures
        str_lt(a, c),
{
    let k1 = choose|k: int| lt_at(a, b, k);
    let k2 = choose|k: int| lt_at(b, c, k);
    let k = if k1 < k2 {
        k1
    } else {
        k2
    };
    assert(a.subrange(0, k) =~= a.subrange(0, k1).subrange(0, k));
    assert(b.subrange(0, k) =~= b.subrange(0, k1).subrange(0, k));
    assert(b.subrange(0, k) =~= b.subrange(0, k2).subrange(0, k));
    assert(c.subrange(0, k) =~= c.subrange(0, k2).subrange(0, k));
    if k1 < k2 {
        assert(b.subrange(0, k2)[k1] == c.subrange(0, k2)[k1]);
    } else if k2 < k1 {
        assert(a.subrange(0, k1)[k2] == b.subrange(0, k1)[k2]);
    }
    assert(lt_at(a, c, k));
}

/// Where the class names strictly ascend, any two classes at different
/// positions have different names.
pub proof fn lemma_ascending_names_unique(classes: Seq<(String, Class)>, i: int, j: int)
    requires
        names_ascend(classes),
        0 <= i < j < classes.len(),
    ensures
        str_lt(classes[i].0@, classes[j].0@),
        classes[i].0@ != classes[j].0@,
    decreases j - i,
{
    if j > i + 1 {
        lemma_ascending_names_unique(classes, i, j - 1);
        assert(str_lt(classes[j - 1].0@, classes[j].0@));
        lemma_str_lt_transitive(classes[i].0@, classes[j - 1].0@, classes[j].0@);
    } else {
        assert(str_lt(classes[i].0@, classes[i + 1].0@));
    }
    lemma_str_lt_irreflexive(classes[i].0@);
}

/// Where the class names strictly ascend, the classes part of the module
/// holds one three-tier hierarchy per class, in order, and no other class
/// bears the same name.
pub proof fn lemma_one_hierarchy_per_class(
    classes: Seq<(String, Class)>,
    exts: Seq<Extension>,
    type_script: bool,
    i: int,
)
    requires
        names_ascend(classes),
        0 <= i < classes.len(),
    ensures
        classes_text(classes, exts, type_script) == classes_text(classes.subrange(0, i), exts, type_script)
            + class_text(classes[i].0@, classes[i].1, exts, type_script) + classes_text(
            classes.subrange(i + 1, classes.len() as int),
            exts,
            type_script,
        ),
        forall|j: int| 0 <= j < classes.len() && j != i ==> #[trigger] classes[j].0@ != classes[i].0@,
{
    assert forall|j: int| 0 <= j < classes.len() && j != i implies #[trigger] classes[j].0@ != classes[i].0@ by {
        if j < i {
            lemma_ascending_names_unique(classes, j, i);
        } else {
            lemma_ascending_names_unique(classes, i, j);
        }
    }
    let a = classes.subrange(0, i + 1);
    let b = classes.subrange(i + 1, classes.len() as int);
    assert(classes =~= a + b);
    lemma_classes_text_append(a, b, exts, type_script);
    assert(a.drop_last() =~= classes.subrange(0, i));
}

pub proof fn lemma_classes_text_append(
    a: Seq<(String, Class)>,
    b: Seq<(String, Class)>,
    exts: Seq<Extension>,
    type_script: bool,
)
    ensures
        classes_text(a + b, exts, type_script) == classes_text(a, exts, type_script) + classes_text(
            b,
            exts,
            type_script,
        ),
    decreases b.len(),
{
    if b.len() == 0 {
        assert(a + b =~= a);
        assert(classes_text(a, exts, type_script) + classes_text(b, exts, type_script) =~= classes_text(a, exts, type_script));
    } else {
        lemma_classes_text_append(a, b.drop_last(), exts, type_script);
        assert((a + b).drop_last() =~= a + b.drop_last());
        assert(classes_text(a + b, exts, type_script) =~= classes_text(a, exts, type_script)
            + classes_text(b, exts, type_script));
    }
}

} // verus!
