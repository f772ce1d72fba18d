//! The declaration of each entity and function, one line per C declaration.

use vstd::prelude::*;
use crate::bookkeeping::Bookkeeping;
use crate::c_types::type_c;
use crate::model::{BridgedEntity, BridgedFn, BridgedType, FieldName, FnParam, Owner, StructField};
use crate::text::{decimal, decimal_text, join, lemma_join_take_next};

verus! {

/// The prefix shared by every symbol of the bridge.
pub open spec fn link_prefix() -> Seq<char> {
    "__swift_bridge__"@
}

/// The name a field is declared under: its own, or `_` and its position
/// among all fields.
pub open spec fn field_label(f: StructField, idx: int) -> Seq<char> {
    match f.name {
        FieldName::Named(n) => n@,
        FieldName::Positional => "_"@ + decimal(idx as nat),
    }
}

pub open spec fn field_decl(f: StructField, idx: int) -> Seq<char> {
    type_c(f.ty) + " "@ + field_label(f, idx)
}

pub open spec fn field_decls(fields: Seq<StructField>) -> Seq<Seq<char>> {
    Seq::new(fields.len(), |i: int| field_decl(fields[i], i))
}

/// Empty for a struct without fields, else ` { f0; f1; ...; }`.
pub open spec fn struct_body(fields: Seq<StructField>) -> Seq<char> {
    if fields.len() == 0 {
        Seq::empty()
    } else {
        " { "@ + join(field_decls(fields), "; "@) + "; }"@
    }
}

pub open spec fn struct_decl(name: Seq<char>, fields: Seq<StructField>) -> Seq<char> {
    "typedef struct "@ + name + struct_body(fields) + " "@ + name + ";\n"@
}

/// A native handle gets its typedef and its destructor; a foreign one nothing.
pub open spec fn opaque_decl(name: Seq<char>, owner: Owner) -> Seq<char> {
    match owner {
        Owner::Foreign => Seq::empty(),
        Owner::Native => "typedef struct "@ + name + " "@ + name + ";\n"@ + "void "@ + link_prefix()
            + "$"@ + name + "$_free(void* self);\n"@,
    }
}

pub open spec fn entity_decl(e: BridgedEntity) -> Seq<char> {
    match e {
        BridgedEntity::Value { display_name, fields } => struct_decl(display_name@, fields@),
        BridgedEntity::Opaque { name, owner } => opaque_decl(name@, owner),
    }
}

/// The types that declaring `e` maps, in order.
pub open spec fn entity_types(e: BridgedEntity) -> Seq<BridgedType> {
    match e {
        BridgedEntity::Value { fields, .. } => Seq::new(fields.len() as nat, |i: int| fields@[i].ty),
        BridgedEntity::Opaque { .. } => Seq::empty(),
    }
}

pub open spec fn link_name(f: BridgedFn) -> Seq<char> {
    match f.receiver {
        None => link_prefix() + "$"@ + f.name@,
        Some(r) => link_prefix() + "$"@ + r.entity@ + "$"@ + f.name@,
    }
}

pub open spec fn param_decl(p: FnParam) -> Seq<char> {
    type_c(p.ty) + " "@ + p.name@
}

/// Every receiver, whatever its mode or form, is passed as one pointer.
pub open spec fn self_params(f: BridgedFn) -> Seq<Seq<char>> {
    if f.receiver is Some {
        seq!["void* self"@]
    } else {
        Seq::empty()
    }
}

pub open spec fn param_decls(f: BridgedFn) -> Seq<Seq<char>> {
    self_params(f) + Seq::new(f.params.len() as nat, |i: int| param_decl(f.params@[i]))
}

pub open spec fn param_list(f: BridgedFn) -> Seq<char> {
    if param_decls(f).len() == 0 {
        "void"@
    } else {
        join(param_decls(f), ", "@)
    }
}

pub open spec fn return_c(f: BridgedFn) -> Seq<char> {
    match f.ret {
        None => "void"@,
        Some(t) => type_c(t),
    }
}

/// One prototype for a native function; nothing for a foreign one.
pub open spec fn fn_decl(f: BridgedFn) -> Seq<char> {
    match f.owner {
        Owner::Foreign => Seq::empty(),
        Owner::Native => return_c(f) + " "@ + link_name(f) + "("@ + param_list(f) + ");\n"@,
    }
}

pub open spec fn ret_types(ret: Option<BridgedType>) -> Seq<BridgedType> {
    match ret {
        Some(t) => seq![t],
        None => Seq::empty(),
    }
}

/// The types that declaring `f` maps, in order: parameters, then the result.
pub open spec fn fn_types(f: BridgedFn) -> Seq<BridgedType> {
    match f.owner {
        Owner::Foreign => Seq::empty(),
        Owner::Native => Seq::new(f.params.len() as nat, |i: int| f.params@[i].ty) + ret_types(
            f.ret,
        ),
    }
}

fn declare_struct(name: &String, fields: &Vec<StructField>, bk: &mut Bookkeeping) -> (r: String)
    requires
        old(bk).wf(),
    ensures
        final(bk).wf(),
        final(bk).seen@ == old(bk).seen@ + Seq::new(
            fields.len() as nat,
            |i: int| fields@[i].ty,
        ),
        r@ == struct_decl(name@, fields@),
{
    let ghost decls = field_decls(fields@);
    let ghost seen0 = bk.seen@;
    let mut joined = String::new();
    let mut idx: usize = 0;
    while idx < fields.len()
        invariant
            idx <= fields.len(),
            decls == field_decls(fields@),
            bk.wf(),
            bk.seen@ == seen0 + Seq::new(idx as nat, |i: int| fields@[i].ty),
            joined@ == join(decls.take(idx as int), "; "@),
        decreases fields.len() - idx,
    {
        let field = &fields[idx];
        let c = bk.map(&field.ty);
        let label = match &field.name {
            FieldName::Named(n) => n.clone(),
            FieldName::Positional => String::from_str("_").concat(decimal_text(idx).as_str()),
        };
        let decl = c.concat(" ").concat(label.as_str());
        assert(decl@ == decls[idx as int]);
        proof {
            lemma_join_take_next(decls, idx as int, "; "@);
        }
        if idx > 0 {
            joined.append("; ");
        }
        joined.append(decl.as_str());
        assert(Seq::new((idx + 1) as nat, |i: int| fields@[i].ty) =~= Seq::new(
            idx as nat,
            |i: int| fields@[i].ty,
        ).push(field.ty));
        idx = idx + 1;
    }
    assert(decls.take(idx as int) =~= decls);
    let body = if fields.len() == 0 {
        String::new()
    } else {
        String::from_str(" { ").concat(joined.as_str()).concat("; }")
    };
    String::from_str("typedef struct ").concat(name.as_str()).concat(body.as_str()).concat(
        " ",
    ).concat(name.as_str()).concat(";\n")
}

fn declare_opaque(name: &String, owner: Owner) -> (r: String)
    ensures
        r@ == opaque_decl(name@, owner),
{
    match owner {
        Owner::Foreign => String::new(),
        Owner::Native => String::from_str("typedef struct ").concat(name.as_str()).concat(
            " ",
        ).concat(name.as_str()).concat(";\n").concat("void ").concat("__swift_bridge__").concat(
            "$",
        ).concat(name.as_str()).concat("$_free(void* self);\n"),
    }
}

/// The declaration of one entity, noting in `bk` what its field types need.
pub fn declare_entity(e: &BridgedEntity, bk: &mut Bookkeeping) -> (r: String)
    requires
        old(bk).wf(),
    ensures
        final(bk).wf(),
        final(bk).seen@ == old(bk).seen@ + entity_types(*e),
        r@ == entity_decl(*e),
{
    match e {
        BridgedEntity::Value { display_name, fields } => declare_struct(display_name, fields, bk),
        BridgedEntity::Opaque { name, owner } => {
            assert(bk.seen@ + entity_types(*e) =~= bk.seen@);
            declare_opaque(name, *owner)
        },
    }
}

fn link_name_text(f: &BridgedFn) -> (r: String)
    ensures
        r@ == link_name(*f),
{
    match &f.receiver {
        None => String::from_str("__swift_bridge__").concat("$").concat(f.name.as_str()),
        Some(recv) => String::from_str("__swift_bridge__").concat("$").concat(
            recv.entity.as_str(),
        ).concat("$").concat(f.name.as_str()),
    }
}

/// The prototype of one function, noting in `bk` what its types need.
pub fn declare_func(f: &BridgedFn, bk: &mut Bookkeeping) -> (r: String)
    requires
        old(bk).wf(),
    ensures
        final(bk).wf(),
        final(bk).seen@ == old(bk).seen@ + fn_types(*f),
        r@ == fn_decl(*f),
{
    if f.owner == Owner::Foreign {
        assert(bk.seen@ + fn_types(*f) =~= bk.seen@);
        return String::new();
    }
    let ghost decls = param_decls(*f);
    let ghost seen0 = bk.seen@;
    let ghost n_self = self_params(*f).len();
    let has_self = f.receiver.is_some();
    let mut joined = String::new();
    if has_self {
        proof {
            lemma_join_take_next(decls, 0, ", "@);
        }
        joined.append("void* self");
    }
    let mut idx: usize = 0;
    while idx < f.params.len()
        invariant
            idx <= f.params.len(),
            n_self == self_params(*f).len(),
            has_self == (n_self == 1),
            decls == param_decls(*f),
            decls.len() == n_self + f.params.len(),
            bk.wf(),
            bk.seen@ == seen0 + Seq::new(idx as nat, |i: int| f.params@[i].ty),
            joined@ == join(decls.take(n_self + idx), ", "@),
        decreases f.params.len() - idx,
    {
        let ghost n = n_self + idx;
        let param = &f.params[idx];
        let c = bk.map(&param.ty);
        let decl = c.concat(" ").concat(param.name.as_str());
        assert(decl@ == decls[n as int]);
        proof {
            lemma_join_take_next(decls, n as int, ", "@);
        }
        if has_self || idx > 0 {
            joined.append(", ");
        }
        joined.append(decl.as_str());
        assert(Seq::new((idx + 1) as nat, |i: int| f.params@[i].ty) =~= Seq::new(
            idx as nat,
            |i: int| f.params@[i].ty,
        ).push(param.ty));
        idx = idx + 1;
    }
    assert(decls.take(n_self + idx) =~= decls);
    let ret = match &f.ret {
        None => String::from_str("void"),
        Some(t) => bk.map(t),
    };
    assert(bk.seen@ =~= seen0 + fn_types(*f));
    let params = if !has_self && f.params.len() == 0 {
        String::from_str("void")
    } else {
        joined
    };
    ret.concat(" ").concat(link_name_text(f).as_str()).concat("(").concat(params.as_str()).concat(
        ");\n",
    )
}

} // verus!
