//! Assembles the header: notice, standard headers, slice wrappers, entity
//! declarations, then function prototypes.

use vstd::prelude::*;
use crate::bookkeeping::{header_set, slice_set, Bookkeeping};
use crate::emit::{declare_entity, declare_func, entity_decl, entity_types, fn_decl, fn_types};
use crate::model::{BridgedEntity, BridgedFn, BridgedType, SwiftBridgeModule};
use crate::ordering::{lemma_sorted_listing_of, sorted_listing};

verus! {

/// The line that opens every generated header.
pub open spec fn notice() -> Seq<char> {
    "// File automatically generated by swift-bridge."@
}

pub open spec fn entities_text(es: Seq<BridgedEntity>) -> Seq<char>
    decreases es.len(),
{
    if es.len() == 0 {
        Seq::empty()
    } else {
        entities_text(es.drop_last()) + entity_decl(es.last())
    }
}

pub open spec fn entities_types(es: Seq<BridgedEntity>) -> Seq<BridgedType>
    decreases es.len(),
{
    if es.len() == 0 {
        Seq::empty()
    } else {
        entities_types(es.drop_last()) + entity_types(es.last())
    }
}

pub open spec fn fns_text(fs: Seq<BridgedFn>) -> Seq<char>
    decreases fs.len(),
{
    if fs.len() == 0 {
        Seq::empty()
    } else {
        fns_text(fs.drop_last()) + fn_decl(fs.last())
    }
}

pub open spec fn fns_types(fs: Seq<BridgedFn>) -> Seq<BridgedType>
    decreases fs.len(),
{
    if fs.len() == 0 {
        Seq::empty()
    } else {
        fns_types(fs.drop_last()) + fn_types(fs.last())
    }
}

/// Every type that generating the module maps, in walk order.
pub open spec fn module_types(m: SwiftBridgeModule) -> Seq<BridgedType> {
    entities_types(m.types@) + fns_types(m.functions@)
}

pub open spec fn std_header_line(h: Seq<char>) -> Seq<char> {
    "#include <"@ + h + ">\n"@
}

pub open spec fn std_header_lines(l: Seq<Seq<char>>) -> Seq<char>
    decreases l.len(),
{
    if l.len() == 0 {
        Seq::empty()
    } else {
        std_header_lines(l.drop_last()) + std_header_line(l.last())
    }
}

/// The definition of the slice wrapper for elements written `t`.
pub open spec fn wrapper_def(t: Seq<char>) -> Seq<char> {
    "typedef struct FfiSlice_"@ + t + " { "@ + t + "* start; uintptr_t len; } FfiSlice_"@ + t
        + ";\n"@
}

pub open spec fn wrapper_defs(l: Seq<Seq<char>>) -> Seq<char>
    decreases l.len(),
{
    if l.len() == 0 {
        Seq::empty()
    } else {
        wrapper_defs(l.drop_last()) + wrapper_def(l.last())
    }
}

/// The standard headers the module needs, ascending, each once.
pub open spec fn required_headers(m: SwiftBridgeModule) -> Seq<Seq<char>> {
    sorted_listing(header_set(module_types(m)))
}

/// The slice elements whose wrappers the module needs, ascending, each once.
pub open spec fn required_slices(m: SwiftBridgeModule) -> Seq<Seq<char>> {
    sorted_listing(slice_set(module_types(m)))
}

pub open spec fn c_header_body(m: SwiftBridgeModule) -> Seq<char> {
    std_header_lines(required_headers(m)) + wrapper_defs(required_slices(m)) + entities_text(
        m.types@,
    ) + fns_text(m.functions@)
}

pub open spec fn c_header(m: SwiftBridgeModule) -> Seq<char> {
    notice() + "\n"@ + c_header_body(m)
}

impl SwiftBridgeModule {
    /// The contents of the C header for this module.
    pub fn generate_c_header(&self) -> (r: String)
        ensures
            r@ == c_header(*self),
    {
        let body = self.generate_c_header_inner();
        String::from_str("// File automatically generated by swift-bridge.").concat("\n").concat(
            body.as_str(),
        )
    }

    /// The header without its opening notice line.
    pub fn generate_c_header_inner(&self) -> (r: String)
        ensures
            r@ == c_header_body(*self),
    {
        let mut bk = Bookkeeping::new();
        let mut decls = String::new();
        let mut i: usize = 0;
        while i < self.types.len()
            invariant
                i <= self.types.len(),
                bk.wf(),
                bk.seen@ == entities_types(self.types@.take(i as int)),
                decls@ == entities_text(self.types@.take(i as int)),
            decreases self.types.len() - i,
        {
            let d = declare_entity(&self.types[i], &mut bk);
            decls.append(d.as_str());
            assert(self.types@.take(i + 1).drop_last() =~= self.types@.take(i as int));
            i = i + 1;
        }
        assert(self.types@.take(i as int) =~= self.types@);
        let ghost ents = entities_types(self.types@);
        let mut j: usize = 0;
        while j < self.functions.len()
            invariant
                j <= self.functions.len(),
                bk.wf(),
                bk.seen@ == ents + fns_types(self.functions@.take(j as int)),
                decls@ == entities_text(self.types@) + fns_text(self.functions@.take(j as int)),
            decreases self.functions.len() - j,
        {
            let ghost prev = fns_types(self.functions@.take(j as int));
            let d = declare_func(&self.functions[j], &mut bk);
            decls.append(d.as_str());
            assert(self.functions@.take(j + 1).drop_last() =~= self.functions@.take(j as int));
            assert(ents + prev + fn_types(self.functions@[j as int]) =~= ents + (prev + fn_types(
                self.functions@[j as int],
            )));
            j = j + 1;
        }
        assert(self.functions@.take(j as int) =~= self.functions@);
        proof {
            lemma_sorted_listing_of(bk.headers.listing(), header_set(bk.seen@));
            lemma_sorted_listing_of(bk.slice_types.listing(), slice_set(bk.seen@));
        }
        let ghost headers = bk.headers.listing();
        let ghost slices = bk.slice_types.listing();
        let mut out = String::new();
        let mut k: usize = 0;
        while k < bk.headers.items.len()
            invariant
                k <= bk.headers.items.len(),
                headers == bk.headers.listing(),
                out@ == std_header_lines(headers.take(k as int)),
            decreases bk.headers.items.len() - k,
        {
            out.append("#include <");
            out.append(bk.headers.items[k].as_str());
            out.append(">\n");
            assert(headers.take(k + 1).drop_last() =~= headers.take(k as int));
            k = k + 1;
        }
        assert(headers.take(k as int) =~= headers);
        let ghost before = out@;
        let mut k: usize = 0;
        while k < bk.slice_types.items.len()
            invariant
                k <= bk.slice_types.items.len(),
                slices == bk.slice_types.listing(),
                out@ == before + wrapper_defs(slices.take(k as int)),
            decreases bk.slice_types.items.len() - k,
        {
            let t = bk.slice_types.items[k].as_str();
            out.append("typedef struct FfiSlice_");
            out.append(t);
            out.append(" { ");
            out.append(t);
            out.append("* start; uintptr_t len; } FfiSlice_");
            out.append(t);
            out.append(";\n");
            assert(slices.take(k + 1).drop_last() =~= slices.take(k as int));
            k = k + 1;
        }
        assert(slices.take(k as int) =~= slices);
        out.append(decls.as_str());
        out
    }
}

} // verus!
