//! Feature translator: which of this build's features reach the kernel
//! build, and under which profile name.
use vstd::prelude::*;
use crate::text::{ascii, views, lit, append, concat, bytes_eq};

verus! {

/// The features that the kernel build knows, in the order it is handed them.
pub open spec fn kernel_features() -> Seq<Seq<u8>> {
    seq![
        ascii("acpi"@),
        ascii("dhcpv4"@),
        ascii("fsgsbase"@),
        ascii("pci"@),
        ascii("pci-ids"@),
        ascii("smp"@),
        ascii("tcp"@),
        ascii("udp"@),
        ascii("trace"@),
        ascii("vga"@),
        ascii("rtl8139"@),
        ascii("fs"@),
    ]
}

/// A feature-name byte as it appears in the feature's environment variable:
/// `-` becomes `_`, ASCII lower case becomes upper case.
pub open spec fn env_byte(c: u8) -> u8 {
    if c == 45u8 {
        95u8
    } else if 97u8 <= c && c <= 122u8 {
        (c - 32) as u8
    } else {
        c
    }
}

/// The environment variable whose presence says that feature `f` is enabled.
pub open spec fn feature_var(f: Seq<u8>) -> Seq<u8> {
    ascii("CARGO_FEATURE_"@) + f.map_values(|c: u8| env_byte(c))
}

/// Whether feature `f` is enabled, given the names of the variables set in
/// the build's environment.
pub open spec fn enabled(env_names: Seq<Seq<u8>>, f: Seq<u8>) -> bool {
    env_names.contains(feature_var(f))
}

/// The names of `s` that are enabled, in the order of `s`.
pub open spec fn select(env_names: Seq<Seq<u8>>, s: Seq<Seq<u8>>) -> Seq<Seq<u8>>
    decreases s.len(),
{
    if s.len() == 0 {
        seq![]
    } else {
        let rest = select(env_names, s.drop_last());
        if enabled(env_names, s.last()) {
            rest.push(s.last())
        } else {
            rest
        }
    }
}

/// The profile name that the kernel build uses for this build's profile:
/// `debug` is called `dev` there, every other name is the same.
pub open spec fn profile_token(p: Seq<u8>) -> Seq<u8> {
    if p == ascii("debug"@) {
        ascii("dev"@)
    } else {
        p
    }
}

/// Names joined with one space between each two.
pub open spec fn space_joined(s: Seq<Seq<u8>>) -> Seq<u8>
    decreases s.len(),
{
    if s.len() == 0 {
        seq![]
    } else if s.len() == 1 {
        s[0]
    } else {
        space_joined(s.drop_last()) + seq![32u8] + s.last()
    }
}

/// The name of the environment variable that tells whether `f` is enabled.
pub fn feature_var_name(f: &[u8]) -> (r: Vec<u8>)
    ensures
        r@ == feature_var(f@),
{
    proof {
        reveal_strlit("CARGO_FEATURE_");
    }
    let mut out = lit("CARGO_FEATURE_");
    let ghost start = out@;
    let mut i: usize = 0;
    while i < f.len()
        invariant
            start == ascii("CARGO_FEATURE_"@),
            i <= f@.len(),
            out@ == start + f@.subrange(0, i as int).map_values(|c: u8| env_byte(c)),
        decreases f@.len() - i,
    {
        let c = f[i];
        let m: u8 = if c == 45u8 {
            95u8
        } else if 97u8 <= c && c <= 122u8 {
            c - 32
        } else {
            c
        };
        out.push(m);
        i += 1;
        assert(out@ =~= start + f@.subrange(0, i as int).map_values(|c: u8| env_byte(c)));
    }
    assert(f@.subrange(0, f@.len() as int) =~= f@);
    out
}

/// Whether `name` is among `names`.
pub fn contains_name(names: &Vec<Vec<u8>>, name: &[u8]) -> (r: bool)
    ensures
        r == views(names@).contains(name@),
{
    let mut i: usize = 0;
    while i < names.len()
        invariant
            i <= names@.len(),
            forall|k: int| 0 <= k < i ==> names@[k]@ != name@,
        decreases names@.len() - i,
    {
        if bytes_eq(names[i].as_slice(), name) {
            assert(views(names@)[i as int] == name@);
            return true;
        }
        i += 1;
    }
    assert forall|k: int| 0 <= k < views(names@).len() implies views(names@)[k] != name@ by {
        assert(views(names@)[k] == names@[k]@);
    }
    false
}

/// Whether feature `f` is enabled, given the names of the variables set in
/// the build's environment.
pub fn has_feature(env_names: &Vec<Vec<u8>>, f: &[u8]) -> (r: bool)
    ensures
        r == enabled(views(env_names@), f@),
{
    let var = feature_var_name(f);
    contains_name(env_names, var.as_slice())
}

/// The kernel's known features, in their order.
pub fn kernel_feature_list() -> (r: Vec<Vec<u8>>)
    ensures
        views(r@) == kernel_features(),
{
    proof {
        reveal_strlit("acpi");
        reveal_strlit("dhcpv4");
        reveal_strlit("fsgsbase");
        reveal_strlit("pci");
        reveal_strlit("pci-ids");
        reveal_strlit("smp");
        reveal_strlit("tcp");
        reveal_strlit("udp");
        reveal_strlit("trace");
        reveal_strlit("vga");
        reveal_strlit("rtl8139");
        reveal_strlit("fs");
    }
    let mut v: Vec<Vec<u8>> = Vec::new();
    v.push(lit("acpi"));
    v.push(lit("dhcpv4"));
    v.push(lit("fsgsbase"));
    v.push(lit("pci"));
    v.push(lit("pci-ids"));
    v.push(lit("smp"));
    v.push(lit("tcp"));
    v.push(lit("udp"));
    v.push(lit("trace"));
    v.push(lit("vga"));
    v.push(lit("rtl8139"));
    v.push(lit("fs"));
    assert(views(v@) =~= kernel_features());
    v
}

/// The kernel features that are enabled in this build, in the kernel's order.
pub fn forwarded_features(env_names: &Vec<Vec<u8>>) -> (r: Vec<Vec<u8>>)
    ensures
        views(r@) == select(views(env_names@), kernel_features()),
{
    let known = kernel_feature_list();
    let ghost env = views(env_names@);
    let mut out: Vec<Vec<u8>> = Vec::new();
    let mut i: usize = 0;
    while i < known.len()
        invariant
            env == views(env_names@),
            views(known@) == kernel_features(),
            i <= known@.len(),
            views(out@) == select(env, views(known@).subrange(0, i as int)),
        decreases known@.len() - i,
    {
        let ghost s = views(known@).subrange(0, i as int + 1);
        assert(s.drop_last() =~= views(known@).subrange(0, i as int));
        assert(s.last() == known@[i as int]@);
        if has_feature(env_names, known[i].as_slice()) {
            out.push(known[i].clone());
            assert(views(out@) =~= select(env, s));
        }
        i += 1;
    }
    assert(views(known@).subrange(0, known@.len() as int) =~= views(known@));
    out
}

/// The kernel build's name for `profile`.
pub fn translate_profile(profile: &[u8]) -> (r: Vec<u8>)
    ensures
        r@ == profile_token(profile@),
        profile@ == ascii("debug"@) ==> r@ == ascii("dev"@),
        profile@ != ascii("debug"@) ==> r@ == profile@,
{
    proof {
        reveal_strlit("debug");
        reveal_strlit("dev");
    }
    let debug = lit("debug");
    if bytes_eq(profile, debug.as_slice()) {
        lit("dev")
    } else {
        concat(profile, &[])
    }
}

/// `names` joined with one space between each two.
pub fn join_with_spaces(names: &Vec<Vec<u8>>) -> (r: Vec<u8>)
    ensures
        r@ == space_joined(views(names@)),
{
    let mut out: Vec<u8> = Vec::new();
    let mut i: usize = 0;
    while i < names.len()
        invariant
            i <= names@.len(),
            out@ == space_joined(views(names@).subrange(0, i as int)),
        decreases names@.len() - i,
    {
        let ghost s = views(names@).subrange(0, i as int + 1);
        assert(s.drop_last() =~= views(names@).subrange(0, i as int));
        if i > 0 {
            out.push(32u8);
        }
        append(&mut out, names[i].as_slice());
        assert(out@ =~= space_joined(s));
        i += 1;
    }
    assert(views(names@).subrange(0, names@.len() as int) =~= views(names@));
    out
}

/// Every name that the translator forwards is one of the names it chose
/// from, and is enabled.
pub proof fn lemma_select_within(env_names: Seq<Seq<u8>>, s: Seq<Seq<u8>>)
    ensures
        forall|k: int|
            0 <= k < select(env_names, s).len() ==> s.contains(#[trigger] select(env_names, s)[k])
                && enabled(env_names, select(env_names, s)[k]),
    decreases s.len(),
{
    if s.len() > 0 {
        lemma_select_within(env_names, s.drop_last());
        let rest = select(env_names, s.drop_last());
        assert forall|k: int| 0 <= k < select(env_names, s).len() implies s.contains(
            #[trigger] select(env_names, s)[k],
        ) && enabled(env_names, select(env_names, s)[k]) by {
            if k < rest.len() {
                assert(select(env_names, s)[k] == rest[k]);
                let j = choose|j: int| 0 <= j < s.drop_last().len() && s.drop_last()[j] == rest[k];
                assert(s[j] == rest[k]);
            } else {
                assert(s[s.len() - 1] == s.last());
            }
        }
    }
}

/// Any two forwarded names keep the order that they have among the names
/// chosen from.
pub proof fn lemma_select_ordered(env_names: Seq<Seq<u8>>, s: Seq<Seq<u8>>)
    ensures
        forall|i: int, j: int|
            0 <= i < j < select(env_names, s).len() ==> exists|a: int, b: int|
                0 <= a < b < s.len() && s[a] == #[trigger] select(env_names, s)[i] && s[b]
                    == #[trigger] select(env_names, s)[j],
    decreases s.len(),
{
    if s.len() > 0 {
        let d = s.drop_last();
        lemma_select_ordered(env_names, d);
        lemma_select_within(env_names, d);
        let rest = select(env_names, d);
        let r = select(env_names, s);
        assert forall|i: int, j: int| 0 <= i < j < r.len() implies exists|a: int, b: int|
            0 <= a < b < s.len() && s[a] == #[trigger] r[i] && s[b] == #[trigger] r[j] by {
            if j < rest.len() {
                assert(r[i] == rest[i] && r[j] == rest[j]);
                let (a, b) = choose|a: int, b: int|
                    0 <= a < b < d.len() && d[a] == rest[i] && d[b] == rest[j];
                assert(s[a] == r[i] && s[b] == r[j]);
            } else {
                assert(r[i] == rest[i]);
                assert(d.contains(rest[i]));
                let a = choose|a: int| 0 <= a < d.len() && d[a] == rest[i];
                assert(s[a] == r[i]);
                assert(s[s.len() - 1] == r[j]);
            }
        }
    }
}

/// Choosing from names without repeats gives names without repeats.
pub proof fn lemma_select_no_duplicates(env_names: Seq<Seq<u8>>, s: Seq<Seq<u8>>)
    requires
        s.no_duplicates(),
    ensures
        select(env_names, s).no_duplicates(),
    decreases s.len(),
{
    if s.len() > 0 {
        let d = s.drop_last();
        assert(d.no_duplicates());
        lemma_select_no_duplicates(env_names, d);
        lemma_select_within(env_names, d);
        let rest = select(env_names, d);
        if enabled(env_names, s.last()) {
            assert forall|k: int| 0 <= k < rest.len() implies rest[k] != s.last() by {
                assert(d.contains(rest[k]));
                let a = choose|a: int| 0 <= a < d.len() && d[a] == rest[k];
                assert(s[a] == rest[k]);
                assert(s[s.len() - 1] == s.last());
            }
            let r = rest.push(s.last());
            assert forall|i: int, j: int| 0 <= i < r.len() && 0 <= j < r.len() && i != j implies r[i]
                != r[j] by {
                if i < rest.len() && j < rest.len() {
                    assert(r[i] == rest[i] && r[j] == rest[j]);
                } else if i < rest.len() {
                    assert(r[i] == rest[i]);
                } else {
                    assert(r[j] == rest[j]);
                }
            }
        }
    }
}

/// What is chosen depends only on which variables are set, not on the
/// order or repetition in which their names were listed.
pub proof fn lemma_select_depends_on_set(a: Seq<Seq<u8>>, b: Seq<Seq<u8>>, s: Seq<Seq<u8>>)
    requires
        a.to_set() == b.to_set(),
    ensures
        select(a, s) == select(b, s),
    decreases s.len(),
{
    if s.len() > 0 {
        lemma_select_depends_on_set(a, b, s.drop_last());
        let v = feature_var(s.last());
        assert(a.contains(v) <==> a.to_set().contains(v));
        assert(b.contains(v) <==> b.to_set().contains(v));
    }
}

/// The kernel's known features are listed without repeats.
pub proof fn lemma_kernel_features_distinct()
    ensures
        kernel_features().no_duplicates(),
{
    reveal_strlit("acpi");
    reveal_strlit("dhcpv4");
    reveal_strlit("fsgsbase");
    reveal_strlit("pci");
    reveal_strlit("pci-ids");
    reveal_strlit("smp");
    reveal_strlit("tcp");
    reveal_strlit("udp");
    reveal_strlit("trace");
    reveal_strlit("vga");
    reveal_strlit("rtl8139");
    reveal_strlit("fs");
    let k = kernel_features();
    assert forall|i: int, j: int| 0 <= i < k.len() && 0 <= j < k.len() && i != j implies k[i]
        != k[j] by {
        if k[i] == k[j] {
            assert(k[i].len() == k[j].len());
            assert(k[i][0] == k[j][0]);
            assert(k[i][k[i].len() - 1] == k[j][k[j].len() - 1]);
        }
    }
}

/// The forwarded features are kernel features that are enabled, each at
/// most once, in the kernel's order, whatever order the build's environment
/// lists its variables in.
pub proof fn law_forwarded_features(env_names: Seq<Seq<u8>>, other: Seq<Seq<u8>>)
    requires
        env_names.to_set() == other.to_set(),
    ensures
        forall|k: int|
            0 <= k < select(env_names, kernel_features()).len() ==> kernel_features().contains(
                #[trigger] select(env_names, kernel_features())[k],
            ) && enabled(env_names, select(env_names, kernel_features())[k]),
        select(env_names, kernel_features()).no_duplicates(),
        forall|i: int, j: int|
            0 <= i < j < select(env_names, kernel_features()).len() ==> exists|a: int, b: int|
                0 <= a < b < kernel_features().len() && kernel_features()[a]
                    == #[trigger] select(env_names, kernel_features())[i] && kernel_features()[b]
                    == #[trigger] select(env_names, kernel_features())[j],
        select(env_names, kernel_features()) == select(other, kernel_features()),
{
    lemma_select_within(env_names, kernel_features());
    lemma_kernel_features_distinct();
    lemma_select_no_duplicates(env_names, kernel_features());
    lemma_select_ordered(env_names, kernel_features());
    lemma_select_depends_on_set(env_names, other, kernel_features());
}

} // verus!
