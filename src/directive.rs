//! Directives to the outer build: where to find the kernel library, what to
//! link, and what must trigger a rebuild.
use vstd::prelude::*;
use crate::text::{ascii, views, lit, concat};

verus! {

/// What a directive tells the outer build.
#[derive(PartialEq, Eq, Structural, Debug, Clone, Copy)]
pub enum DirectiveKind {
    /// Search a directory for native libraries.
    LinkSearchNative,
    /// Link a static library by name.
    LinkStatic,
    /// Rebuild when a file or directory changes.
    RerunIfChanged,
    /// Rebuild when an environment variable changes.
    RerunIfEnvChanged,
}

/// One directive: its kind and the path or name it is about.
pub struct Directive {
    pub kind: DirectiveKind,
    pub value: Vec<u8>,
}

/// A directive as its kind and the bytes of its value.
pub open spec fn dview(d: Directive) -> (DirectiveKind, Seq<u8>) {
    (d.kind, d.value@)
}

pub open spec fn dviews(s: Seq<Directive>) -> Seq<(DirectiveKind, Seq<u8>)> {
    s.map_values(|d: Directive| dview(d))
}

/// Rebuild triggers for each of `paths`, in order.
pub open spec fn reruns(paths: Seq<Seq<u8>>) -> Seq<(DirectiveKind, Seq<u8>)> {
    paths.map_values(|p: Seq<u8>| (DirectiveKind::RerunIfChanged, p))
}

/// The text that opens a directive of kind `k`.
pub open spec fn opening(k: DirectiveKind) -> Seq<u8> {
    match k {
        DirectiveKind::LinkSearchNative => ascii("cargo:rustc-link-search=native="@),
        DirectiveKind::LinkStatic => ascii("cargo:rustc-link-lib=static="@),
        DirectiveKind::RerunIfChanged => ascii("cargo:rerun-if-changed="@),
        DirectiveKind::RerunIfEnvChanged => ascii("cargo:rerun-if-env-changed="@),
    }
}

impl Directive {
    /// A directive of kind `kind` about `value`.
    pub fn new(kind: DirectiveKind, value: Vec<u8>) -> (r: Directive)
        ensures
            dview(r) == (kind, value@),
    {
        Directive { kind, value }
    }

    /// The directive as the line that the outer build reads.
    pub fn render(&self) -> (r: Vec<u8>)
        ensures
            r@ == opening(self.kind) + self.value@,
    {
        proof {
            reveal_strlit("cargo:rustc-link-search=native=");
            reveal_strlit("cargo:rustc-link-lib=static=");
            reveal_strlit("cargo:rerun-if-changed=");
            reveal_strlit("cargo:rerun-if-env-changed=");
        }
        let head = match self.kind {
            DirectiveKind::LinkSearchNative => lit("cargo:rustc-link-search=native="),
            DirectiveKind::LinkStatic => lit("cargo:rustc-link-lib=static="),
            DirectiveKind::RerunIfChanged => lit("cargo:rerun-if-changed="),
            DirectiveKind::RerunIfEnvChanged => lit("cargo:rerun-if-env-changed="),
        };
        concat(head.as_slice(), self.value.as_slice())
    }
}

/// Appends a rebuild trigger for each of `paths` to `out`.
pub fn push_reruns(out: &mut Vec<Directive>, paths: &Vec<Vec<u8>>)
    ensures
        dviews(final(out)@) == dviews(old(out)@) + reruns(views(paths@)),
{
    let ghost all = views(paths@);
    let mut j: usize = 0;
    while j < paths.len()
        invariant
            all == views(paths@),
            j <= paths@.len(),
            dviews(out@) == dviews(old(out)@) + reruns(all.subrange(0, j as int)),
        decreases paths@.len() - j,
    {
        let p = concat(paths[j].as_slice(), &[]);
        let ghost before = dviews(out@);
        out.push(Directive::new(DirectiveKind::RerunIfChanged, p));
        j += 1;
        assert(reruns(all.subrange(0, j as int)) =~= reruns(all.subrange(0, j as int - 1)).push(
            (DirectiveKind::RerunIfChanged, all[j as int - 1]),
        ));
        assert(dviews(out@) =~= before.push((DirectiveKind::RerunIfChanged, all[j as int - 1])));
    }
    assert(all.subrange(0, paths@.len() as int) =~= all);
}

} // verus!
