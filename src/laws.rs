//! Properties of the generated header as a whole.

use vstd::prelude::*;
use crate::bookkeeping::{header_set, lemma_sets_finite, lemma_sets_have, slice_set};
use crate::c_types::{element_c, type_c, type_include};
use crate::emit::{
    entity_decl, entity_types, field_decls, field_label, fn_decl, fn_types, link_prefix,
    param_decls, param_list, return_c,
};
use crate::header::{
    c_header, entities_text, entities_types, fns_text, fns_types, module_types, notice,
    required_headers, required_slices,
};
use crate::model::{BridgedEntity, BridgedFn, BridgedType, FieldName, Owner, SwiftBridgeModule};
use crate::ordering::{lemma_listed_once, lemma_sorted_listing_exists, lemma_sorted_listing_of};
use crate::text::{decimal, join};

verus! {

proof fn lemma_no_requirements_no_preamble(m: SwiftBridgeModule)
    requires
        module_types(m) == Seq::<BridgedType>::empty(),
    ensures
        required_headers(m) == Seq::<Seq<char>>::empty(),
        required_slices(m) == Seq::<Seq<char>>::empty(),
{
    let l = Seq::<Seq<char>>::empty();
    assert(l.to_set() =~= Set::<Seq<char>>::empty());
    assert(header_set(module_types(m)) == Set::<Seq<char>>::empty());
    assert(slice_set(module_types(m)) == Set::<Seq<char>>::empty());
    lemma_sorted_listing_of(l, Set::empty());
}

/// A module with nothing in it yields the notice line alone.
pub proof fn lemma_empty_module_header(m: SwiftBridgeModule)
    requires
        m.types@.len() == 0,
        m.functions@.len() == 0,
    ensures
        c_header(m) == notice() + "\n"@,
{
    assert(module_types(m) =~= Seq::<BridgedType>::empty());
    lemma_no_requirements_no_preamble(m);
    assert(c_header(m) =~= notice() + "\n"@);
}

proof fn lemma_foreign_entities_silent(es: Seq<BridgedEntity>)
    requires
        forall|i: int| 0 <= i < es.len() ==> (#[trigger] es[i] matches BridgedEntity::Opaque {
            owner,
            ..
        } && owner == Owner::Foreign),
    ensures
        entities_text(es) == Seq::<char>::empty(),
        entities_types(es) == Seq::<BridgedType>::empty(),
    decreases es.len(),
{
    if es.len() > 0 {
        assert(es[es.len() - 1] == es.last());
        lemma_foreign_entities_silent(es.drop_last());
        assert(entities_text(es) =~= Seq::<char>::empty());
        assert(entities_types(es) =~= Seq::<BridgedType>::empty());
    }
}

proof fn lemma_foreign_fns_silent(fs: Seq<BridgedFn>)
    requires
        forall|i: int| 0 <= i < fs.len() ==> (#[trigger] fs[i]).owner == Owner::Foreign,
    ensures
        fns_text(fs) == Seq::<char>::empty(),
        fns_types(fs) == Seq::<BridgedType>::empty(),
    decreases fs.len(),
{
    if fs.len() > 0 {
        assert(fs[fs.len() - 1] == fs.last());
        lemma_foreign_fns_silent(fs.drop_last());
        assert(fns_text(fs) =~= Seq::<char>::empty());
        assert(fns_types(fs) =~= Seq::<BridgedType>::empty());
    }
}

/// A module whose entities and functions all belong to the Swift side yields
/// the notice line alone.
pub proof fn lemma_foreign_only_module_header(m: SwiftBridgeModule)
    requires
        forall|i: int| 0 <= i < m.types@.len() ==> (#[trigger] m.types@[i] matches BridgedEntity::Opaque {
            owner,
            ..
        } && owner == Owner::Foreign),
        forall|i: int| 0 <= i < m.functions@.len() ==> (#[trigger] m.functions@[i]).owner == Owner::Foreign,
    ensures
        c_header(m) == notice() + "\n"@,
{
    lemma_foreign_entities_silent(m.types@);
    lemma_foreign_fns_silent(m.functions@);
    assert(module_types(m) =~= Seq::<BridgedType>::empty());
    lemma_no_requirements_no_preamble(m);
    assert(c_header(m) =~= notice() + "\n"@);
}

/// A value type without fields is declared without a brace body.
pub proof fn lemma_struct_without_fields(e: BridgedEntity)
    requires
        e matches BridgedEntity::Value { fields, .. } && fields@.len() == 0,
    ensures
        e matches BridgedEntity::Value { display_name, .. } && entity_decl(e) == "typedef struct "@
            + display_name@ + " "@ + display_name@ + ";\n"@,
{
    if let BridgedEntity::Value { display_name, fields } = e {
        assert(entity_decl(e) =~= "typedef struct "@ + display_name@ + " "@ + display_name@
            + ";\n"@);
    }
}

/// A value type with fields declares each of them once, in order, joined by
/// `; `; an unnamed field is numbered by its position among all fields.
pub proof fn lemma_struct_with_fields(e: BridgedEntity)
    requires
        e matches BridgedEntity::Value { fields, .. } && fields@.len() > 0,
    ensures
        e matches BridgedEntity::Value { display_name, fields } && {
            let decls = field_decls(fields@);
            &&& entity_decl(e) == "typedef struct "@ + display_name@ + " { "@ + join(decls, "; "@)
                + "; }"@ + " "@ + display_name@ + ";\n"@
            &&& decls.len() == fields@.len()
            &&& forall|i: int|
                0 <= i < decls.len() ==> #[trigger] decls[i] == type_c(fields@[i].ty) + " "@
                    + field_label(fields@[i], i)
            &&& forall|i: int|
                0 <= i < decls.len() && fields@[i].name is Positional ==> #[trigger] field_label(
                    fields@[i],
                    i,
                ) == "_"@ + decimal(i as nat)
        },
{
}

proof fn lemma_fns_types_hold(fs: Seq<BridgedFn>, a: int, k: int) -> (idx: int)
    requires
        0 <= a < fs.len(),
        0 <= k < fn_types(fs[a]).len(),
    ensures
        0 <= idx < fns_types(fs).len(),
        fns_types(fs)[idx] == fn_types(fs[a])[k],
    decreases fs.len(),
{
    let p = fs.drop_last();
    if a == fs.len() - 1 {
        fns_types(p).len() + k
    } else {
        assert(p[a] == fs[a]);
        lemma_fns_types_hold(p, a, k)
    }
}

/// The position in `module_types(m)` of the `k`-th type mapped for function `a`.
proof fn lemma_module_types_hold(m: SwiftBridgeModule, a: int, k: int) -> (idx: int)
    requires
        0 <= a < m.functions@.len(),
        0 <= k < fn_types(m.functions@[a]).len(),
    ensures
        0 <= idx < module_types(m).len(),
        module_types(m)[idx] == fn_types(m.functions@[a])[k],
{
    let j = lemma_fns_types_hold(m.functions@, a, k);
    entities_types(m.types@).len() + j
}

/// A standard header needed by types of two functions is pulled in once.
pub proof fn lemma_shared_std_header_once(
    m: SwiftBridgeModule,
    a: int,
    b: int,
    t: BridgedType,
    h: Seq<char>,
)
    requires
        0 <= a < m.functions@.len(),
        0 <= b < m.functions@.len(),
        a != b,
        fn_types(m.functions@[a]).contains(t),
        fn_types(m.functions@[b]).contains(t),
        type_include(t) == Some(h),
    ensures
        exists|i: int| 0 <= i < required_headers(m).len() && required_headers(m)[i] == h,
        forall|i: int, j: int|
            0 <= i < required_headers(m).len() && 0 <= j < required_headers(m).len()
                && required_headers(m)[i] == h && required_headers(m)[j] == h ==> i == j,
{
    let k = choose|k: int| 0 <= k < fn_types(m.functions@[a]).len() && fn_types(m.functions@[a])[k] == t;
    let idx = lemma_module_types_hold(m, a, k);
    lemma_sets_have(module_types(m), idx);
    lemma_sets_finite(module_types(m));
    lemma_sorted_listing_exists(header_set(module_types(m)));
    lemma_listed_once(required_headers(m), h);
}

/// Two functions returning slices of one element type share one wrapper
/// definition.
pub proof fn lemma_shared_slice_wrapper_once(m: SwiftBridgeModule, a: int, b: int)
    requires
        0 <= a < m.functions@.len(),
        0 <= b < m.functions@.len(),
        a != b,
        m.functions@[a].owner == Owner::Native,
        m.functions@[b].owner == Owner::Native,
        m.functions@[a].ret matches Some(BridgedType::RefSlice(ea)),
        m.functions@[b].ret matches Some(BridgedType::RefSlice(eb)),
        m.functions@[a].ret->0 == m.functions@[b].ret->0,
    ensures
        m.functions@[a].ret matches Some(BridgedType::RefSlice(e)) && {
            let l = required_slices(m);
            &&& exists|i: int| 0 <= i < l.len() && l[i] == element_c(e)
            &&& forall|i: int, j: int|
                0 <= i < l.len() && 0 <= j < l.len() && l[i] == element_c(e) && l[j] == element_c(
                    e,
                ) ==> i == j
        },
{
    let f = m.functions@[a];
    let k = f.params@.len() as int;
    assert(fn_types(f)[k] == f.ret->0);
    let idx = lemma_module_types_hold(m, a, k);
    lemma_sets_have(module_types(m), idx);
    lemma_sets_finite(module_types(m));
    lemma_sorted_listing_exists(slice_set(module_types(m)));
    if let Some(BridgedType::RefSlice(e)) = f.ret {
        lemma_listed_once(required_slices(m), element_c(e));
    }
}

/// Methods of one handle that differ only in how they take `self` (by value,
/// by reference or by mutable reference, bare or typed) and in their names
/// get one `void* self` first parameter each and the same parameter list;
/// their prototypes differ in the method name alone.
pub proof fn lemma_receiver_shape(f: BridgedFn, g: BridgedFn)
    requires
        f.owner == Owner::Native,
        g.owner == Owner::Native,
        f.receiver matches Some(rf),
        g.receiver matches Some(rg),
        f.receiver->0.entity@ == g.receiver->0.entity@,
        f.params@ == g.params@,
        f.ret == g.ret,
    ensures
        param_decls(f).len() == f.params@.len() + 1,
        param_decls(f)[0] == "void* self"@,
        param_list(f) == param_list(g),
        return_c(f) == return_c(g),
        fn_decl(f) == return_c(f) + " "@ + link_prefix() + "$"@ + f.receiver->0.entity@ + "$"@
            + f.name@ + "("@ + param_list(f) + ");\n"@,
        fn_decl(g) == return_c(f) + " "@ + link_prefix() + "$"@ + f.receiver->0.entity@ + "$"@
            + g.name@ + "("@ + param_list(f) + ");\n"@,
{
    assert(param_decls(f) =~= param_decls(g));
}

/// Generating twice from one model gives the same text: the header is a
/// function of the model, and its standard headers and slice wrappers depend
/// only on which are required, not on the order they were met in.
pub proof fn lemma_generation_deterministic(m1: SwiftBridgeModule, m2: SwiftBridgeModule)
    requires
        m1.types@ == m2.types@,
        m1.functions@ == m2.functions@,
    ensures
        c_header(m1) == c_header(m2),
{
}

/// Two walks that require the same standard headers and slice elements, met
/// in any order, emit them in the same order.
pub proof fn lemma_preamble_order_canonical(m1: SwiftBridgeModule, m2: SwiftBridgeModule)
    requires
        header_set(module_types(m1)) == header_set(module_types(m2)),
        slice_set(module_types(m1)) == slice_set(module_types(m2)),
    ensures
        required_headers(m1) == required_headers(m2),
        required_slices(m1) == required_slices(m2),
{
}

} // verus!
