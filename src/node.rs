use vstd::prelude::*;
use crate::class::{class_text, write_class};
use crate::function::Param;
use crate::model::{Class, Extension, Function};
use crate::names::{emit, str_less, str_lt};
use crate::types::{abi_tag, get_ll_type};

verus! {

/// Comma-separated ABI tags of the parameters `s`.
pub open spec fn abi_tags(s: Seq<Param>) -> Seq<char>
    decreases s.len(),
{
    if s.len() == 0 {
        Seq::empty()
    } else {
        abi_tags(s.drop_last()) + (if s.len() == 1 {
            Seq::empty()
        } else {
            ", "@
        }) + abi_tag(s.last().1)
    }
}

/// The entry of `f` in the native binding table: `'name': [ret, [params]],`.
pub open spec fn binding_entry(f: Function) -> Seq<char> {
    "\n    '"@ + f.name@ + "': ["@ + abi_tag(f.output) + ", ["@ + abi_tags(f.inputs@) + "]],"@
}

pub open spec fn binding_entries(fns: Seq<Function>) -> Seq<char>
    decreases fns.len(),
{
    if fns.len() == 0 {
        Seq::empty()
    } else {
        binding_entries(fns.drop_last()) + binding_entry(fns.last())
    }
}

/// The binding entries of a class: static, own, shared, then mut functions.
pub open spec fn class_bindings(c: Class) -> Seq<char> {
    binding_entries(c.static_fns@) + binding_entries(c.own_fns@) + binding_entries(c.shared_fns@)
        + binding_entries(c.mut_fns@)
}

pub open spec fn bindings(classes: Seq<(String, Class)>) -> Seq<char>
    decreases classes.len(),
{
    if classes.len() == 0 {
        Seq::empty()
    } else {
        bindings(classes.drop_last()) + class_bindings(classes.last().1)
    }
}

pub open spec fn classes_text(classes: Seq<(String, Class)>, exts: Seq<Extension>, type_script: bool) -> Seq<char>
    decreases classes.len(),
{
    if classes.len() == 0 {
        Seq::empty()
    } else {
        classes_text(classes.drop_last(), exts, type_script) + class_text(
            classes.last().0@,
            classes.last().1,
            exts,
            type_script,
        )
    }
}

/// Whether the class names strictly ascend, so that each name occurs once and
/// the classes come in sorted order.
pub open spec fn names_ascend(classes: Seq<(String, Class)>) -> bool {
    forall|i: int| 0 <= i < classes.len() - 1 ==> str_lt(#[trigger] classes[i].0@, classes[i + 1].0@)
}

/// Checks that the class names strictly ascend.
pub fn class_names_ascend(classes: &Vec<(String, Class)>) -> (r: bool)
    ensures
        r == names_ascend(classes@),
{
    let n = classes.len();
    let mut i: usize = 1;
    while i < n
        invariant
            n == classes@.len(),
            1 <= i,
            forall|j: int| 0 <= j < i - 1 && j < n - 1 ==> str_lt(#[trigger] classes@[j].0@, classes@[j + 1].0@),
        decreases n - i,
    {
        if !str_less(classes[i - 1].0.as_str(), classes[i].0.as_str()) {
            return false;
        }
        i = i + 1;
    }
    true
}

/// The module's imports and the opening of the native binding table.
pub open spec fn module_header(type_script: bool, header: Seq<char>) -> Seq<char> {
    if type_script {
        "\"use strict\";\nimport ffi = require('ffi');\nimport fs = require('fs');\nimport ref = require('ref');\n\n"@
            + header + "\n\nvar liveSplitCoreNative = ffi.Library('livesplit_core', {"@
    } else {
        "\"use strict\";\nvar ffi = require('ffi');\nvar fs = require('fs');\nvar ref = require('ref');\n\nvar liveSplitCoreNative = ffi.Library('livesplit_core', {"@
    }
}

/// The whole generated module.
pub open spec fn module_text(
    classes: Seq<(String, Class)>,
    exts: Seq<Extension>,
    type_script: bool,
    header: Seq<char>,
) -> Seq<char> {
    module_header(type_script, header) + bindings(classes) + "\n});\n"@ + classes_text(
        classes,
        exts,
        type_script,
    )
}

fn write_binding_entry(out: &mut String, f: &Function)
    ensures
        final(out)@ == old(out)@ + binding_entry(*f),
{
    let ghost base = out@;
    emit(out, "\n    '");
    emit(out, f.name.as_str());
    emit(out, "': [");
    let t = get_ll_type(&f.output);
    emit(out, t.as_str());
    emit(out, ", [");
    let ghost head = out@;
    let ghost s = f.inputs@;
    let n = f.inputs.len();
    let mut i: usize = 0;
    while i < n
        invariant
            n == s.len(),
            s == f.inputs@,
            i <= n,
            out@ == head + abi_tags(s.subrange(0, i as int)),
        decreases n - i,
    {
        if i != 0 {
            emit(out, ", ");
        }
        let t = get_ll_type(&f.inputs[i].1);
        emit(out, t.as_str());
        assert(s.subrange(0, i + 1).drop_last() == s.subrange(0, i as int));
        i = i + 1;
    }
    assert(s.subrange(0, n as int) == s);
    emit(out, "]],");
    assert(out@ =~= base + binding_entry(*f));
}

fn write_binding_entries(out: &mut String, fns: &Vec<Function>)
    ensures
        final(out)@ == old(out)@ + binding_entries(fns@),
{
    let ghost base = out@;
    let ghost s = fns@;
    let n = fns.len();
    let mut i: usize = 0;
    while i < n
        invariant
            n == s.len(),
            s == fns@,
            i <= n,
            out@ == base + binding_entries(s.subrange(0, i as int)),
        decreases n - i,
    {
        write_binding_entry(out, &fns[i]);
        assert(s.subrange(0, i + 1).drop_last() == s.subrange(0, i as int));
        i = i + 1;
    }
    assert(s.subrange(0, n as int) == s);
}

fn write_bindings(out: &mut String, classes: &Vec<(String, Class)>)
    ensures
        final(out)@ == old(out)@ + bindings(classes@),
{
    let ghost base = out@;
    let ghost s = classes@;
    let n = classes.len();
    let mut i: usize = 0;
    while i < n
        invariant
            n == s.len(),
            s == classes@,
            i <= n,
            out@ == base + bindings(s.subrange(0, i as int)),
        decreases n - i,
    {
        let c = &classes[i].1;
        let ghost o0 = out@;
        write_binding_entries(out, &c.static_fns);
        write_binding_entries(out, &c.own_fns);
        write_binding_entries(out, &c.shared_fns);
        write_binding_entries(out, &c.mut_fns);
        assert(out@ =~= o0 + class_bindings(*c));
        assert(s.subrange(0, i + 1).drop_last() == s.subrange(0, i as int));
        i = i + 1;
    }
    assert(s.subrange(0, n as int) == s);
}

/// Generates the wrapper module for `classes`, whose names strictly ascend:
/// the imports, the native
/// binding table with one entry per exported function, and the three-tier
/// class hierarchy of each class. `extensions` holds the hand-written
/// methods that particular classes receive; `header` is the text placed
/// after the imports in typed mode.
pub fn write(classes: &Vec<(String, Class)>, extensions: &Vec<Extension>, type_script: bool, header: &str) -> (r: String)
    requires
        names_ascend(classes@),
    ensures
        r@ == module_text(classes@, extensions@, type_script, header@),
{
    let mut out = String::new();
    if type_script {
        emit(&mut out, "\"use strict\";\nimport ffi = require('ffi');\nimport fs = require('fs');\nimport ref = require('ref');\n\n");
        emit(&mut out, header);
        emit(&mut out, "\n\nvar liveSplitCoreNative = ffi.Library('livesplit_core', {");
    } else {
        emit(&mut out, "\"use strict\";\nvar ffi = require('ffi');\nvar fs = require('fs');\nvar ref = require('ref');\n\nvar liveSplitCoreNative = ffi.Library('livesplit_core', {");
    }
    assert(out@ =~= module_header(type_script, header@));
    write_bindings(&mut out, classes);
    emit(&mut out, "\n});\n");
    let ghost head = out@;
    let ghost s = classes@;
    let n = classes.len();
    let mut i: usize = 0;
    while i < n
        invariant
            n == s.len(),
            s == classes@,
            i <= n,
            out@ == head + classes_text(s.subrange(0, i as int), extensions@, type_script),
        decreases n - i,
    {
        let entry = &classes[i];
        write_class(&mut out, entry.0.as_str(), &entry.1, extensions, type_script);
        assert(s.subrange(0, i + 1).drop_last() == s.subrange(0, i as int));
        i = i + 1;
    }
    assert(s.subrange(0, n as int) == s);
    assert(out@ =~= module_text(classes@, extensions@, type_script, header@));
    out
}

} // verus!
