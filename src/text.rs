//! Byte-string helpers: literals, path joining and line splitting.
use vstd::prelude::*;
use vstd::string::StringSliceAdditionalSpecFns;
use vstd::utf8::{
    valid_utf8, valid_first_scalar, length_of_first_scalar, decode_first_codepoint,
    partial_valid_utf8, partial_valid_utf8_extend, partial_valid_partial_invalid_utf8,
};

verus! {

/// The bytes of an ASCII string.
pub open spec fn ascii(s: Seq<char>) -> Seq<u8> {
    s.map_values(|c: char| c as u8)
}

/// The views of a sequence of byte vectors.
pub open spec fn views(v: Seq<Vec<u8>>) -> Seq<Seq<u8>> {
    v.map_values(|b: Vec<u8>| b@)
}

/// The path separator, `/`.
pub open spec fn slash() -> u8 {
    47u8
}

/// A line feed.
pub open spec fn newline() -> u8 {
    10u8
}

/// A carriage return.
pub open spec fn carriage_return() -> u8 {
    13u8
}

/// `base` joined with the relative component `comp`, with one separator
/// between them unless `base` is empty or already ends in one.
pub open spec fn join(base: Seq<u8>, comp: Seq<u8>) -> Seq<u8> {
    if base.len() == 0 || base.last() == slash() {
        base + comp
    } else {
        base + seq![slash()] + comp
    }
}

/// Copies an ASCII string literal into a byte vector.
pub fn lit(s: &str) -> (r: Vec<u8>)
    requires
        vstd::utf8::is_ascii_chars(s@),
    ensures
        r@ == ascii(s@),
{
    proof {
        vstd::string::is_ascii_spec_bytes(s);
    }
    let b = s.as_bytes();
    let mut v: Vec<u8> = Vec::new();
    let mut i: usize = 0;
    while i < b.len()
        invariant
            b@ == s.spec_bytes(),
            b@ == ascii(s@),
            i <= b@.len(),
            v@ == b@.subrange(0, i as int),
        decreases b@.len() - i,
    {
        v.push(b[i]);
        i += 1;
        assert(v@ =~= b@.subrange(0, i as int));
    }
    assert(v@ =~= b@);
    v
}

/// Appends all of `tail` to `out`.
pub fn append(out: &mut Vec<u8>, tail: &[u8])
    ensures
        final(out)@ == old(out)@ + tail@,
{
    let mut i: usize = 0;
    while i < tail.len()
        invariant
            i <= tail@.len(),
            out@ == old(out)@ + tail@.subrange(0, i as int),
        decreases tail@.len() - i,
    {
        out.push(tail[i]);
        i += 1;
        assert(out@ =~= old(out)@ + tail@.subrange(0, i as int));
    }
    assert(tail@.subrange(0, tail@.len() as int) =~= tail@);
}

/// A new vector holding `a` followed by `b`.
pub fn concat(a: &[u8], b: &[u8]) -> (r: Vec<u8>)
    ensures
        r@ == a@ + b@,
{
    let mut out: Vec<u8> = Vec::new();
    append(&mut out, a);
    append(&mut out, b);
    assert(out@ =~= a@ + b@);
    out
}

/// `base` joined with the relative path component `comp`.
pub fn join_path(base: &[u8], comp: &[u8]) -> (r: Vec<u8>)
    ensures
        r@ == join(base@, comp@),
{
    let mut out: Vec<u8> = Vec::new();
    append(&mut out, base);
    if base.len() != 0 && base[base.len() - 1] != 47u8 {
        out.push(47u8);
    }
    append(&mut out, comp);
    assert(out@ =~= join(base@, comp@));
    out
}

/// Whether `s` begins with `prefix`.
pub open spec fn has_prefix(s: Seq<u8>, prefix: Seq<u8>) -> bool {
    prefix.len() <= s.len() && s.subrange(0, prefix.len() as int) == prefix
}

/// Whether `s` begins with `prefix`.
pub fn starts_with(s: &[u8], prefix: &[u8]) -> (r: bool)
    ensures
        r == has_prefix(s@, prefix@),
{
    if prefix.len() > s.len() {
        return false;
    }
    let mut i: usize = 0;
    while i < prefix.len()
        invariant
            prefix@.len() <= s@.len(),
            i <= prefix@.len(),
            forall|k: int| 0 <= k < i ==> s@[k] == prefix@[k],
        decreases prefix@.len() - i,
    {
        if s[i] != prefix[i] {
            assert(s@.subrange(0, prefix@.len() as int)[i as int] != prefix@[i as int]);
            return false;
        }
        i += 1;
    }
    assert(s@.subrange(0, prefix@.len() as int) =~= prefix@);
    true
}

/// Whether `a` and `b` hold the same bytes.
pub fn bytes_eq(a: &[u8], b: &[u8]) -> (r: bool)
    ensures
        r == (a@ == b@),
{
    if a.len() != b.len() {
        return false;
    }
    let r = starts_with(a, b);
    proof {
        if r {
            assert(a@ =~= a@.subrange(0, b@.len() as int));
        } else {
            assert(a@.subrange(0, b@.len() as int) =~= a@);
        }
    }
    r
}

/// A line without the carriage return that ended it, if one did.
pub open spec fn strip_cr(line: Seq<u8>) -> Seq<u8> {
    if line.len() > 0 && line.last() == carriage_return() {
        line.drop_last()
    } else {
        line
    }
}

/// The lines finished within the first `i` bytes of `t`, and the bytes of
/// the line still open after them.
pub open spec fn scan_lines(t: Seq<u8>, i: nat) -> (Seq<Seq<u8>>, Seq<u8>)
    decreases i,
{
    if i == 0 || i > t.len() {
        (seq![], seq![])
    } else {
        let (done, cur) = scan_lines(t, (i - 1) as nat);
        let c = t[i - 1];
        if c == newline() {
            (done.push(strip_cr(cur)), seq![])
        } else {
            (done, cur.push(c))
        }
    }
}

/// The lines of `t`: split at each newline, a carriage return before the
/// newline dropped, and a last line kept only when it is not empty.
pub open spec fn lines(t: Seq<u8>) -> Seq<Seq<u8>> {
    let (done, cur) = scan_lines(t, t.len());
    if cur.len() == 0 {
        done
    } else {
        done.push(cur)
    }
}

/// `line` without a carriage return at its end.
fn without_cr(line: Vec<u8>) -> (r: Vec<u8>)
    ensures
        r@ == strip_cr(line@),
{
    let mut line = line;
    if line.len() > 0 && line[line.len() - 1] == 13u8 {
        line.pop();
    }
    line
}

/// Splits `t` into its lines.
pub fn split_lines(t: &[u8]) -> (r: Vec<Vec<u8>>)
    ensures
        views(r@) == lines(t@),
{
    let mut done: Vec<Vec<u8>> = Vec::new();
    let mut cur: Vec<u8> = Vec::new();
    let mut i: usize = 0;
    while i < t.len()
        invariant
            i <= t@.len(),
            (views(done@), cur@) == scan_lines(t@, i as nat),
        decreases t@.len() - i,
    {
        if t[i] == 10u8 {
            let line = without_cr(cur);
            done.push(line);
            cur = Vec::new();
            assert(views(done@) =~= scan_lines(t@, (i + 1) as nat).0);
            assert(cur@ =~= scan_lines(t@, (i + 1) as nat).1);
        } else {
            cur.push(t[i]);
        }
        i += 1;
    }
    if cur.len() != 0 {
        done.push(cur);
        assert(views(done@) =~= lines(t@));
    }
    done
}

/// A new vector holding `s[from..to]`.
pub fn copy_range(s: &[u8], from: usize, to: usize) -> (r: Vec<u8>)
    requires
        from <= to <= s@.len(),
    ensures
        r@ == s@.subrange(from as int, to as int),
{
    let mut out: Vec<u8> = Vec::new();
    let mut i: usize = from;
    while i < to
        invariant
            from <= i <= to <= s@.len(),
            out@ == s@.subrange(from as int, i as int),
        decreases to - i,
    {
        out.push(s[i]);
        i += 1;
        assert(out@ =~= s@.subrange(from as int, i as int));
    }
    out
}

/// The view of an optional byte vector.
pub open spec fn opt_view(o: Option<Vec<u8>>) -> Option<Seq<u8>> {
    match o {
        Some(v) => Some(v@),
        None => None,
    }
}

/// The length of the well-formed scalar encoding that begins `b` at `i`, or
/// 0 when none begins there.
fn first_scalar_len(b: &[u8], i: usize) -> (r: usize)
    requires
        i < b@.len(),
    ensures
        r == 0 <==> !valid_first_scalar(b@.subrange(i as int, b@.len() as int)),
        r != 0 ==> r == length_of_first_scalar(b@.subrange(i as int, b@.len() as int)),
        r <= b@.len() - i,
{
    let ghost rest = b@.subrange(i as int, b@.len() as int);
    let n = b.len() - i;
    let b0 = b[i];
    assert(rest[0] == b0);
    if b0 <= 0x7f {
        assert((b0 & 0x7f) as u32 <= 0x7f) by (bit_vector);
        return 1;
    }
    if 0xc0 <= b0 && b0 <= 0xdf {
        if n < 2 {
            return 0;
        }
        let b1 = b[i + 1];
        assert(rest[1] == b1);
        if !(0x80 <= b1 && b1 <= 0xbf) {
            return 0;
        }
        let cp: u32 = (((b0 & 0x1f) as u32) << 6u32) | ((b1 & 0x3f) as u32);
        assert(cp == decode_first_codepoint(rest));
        if cp >= 0x80 && !(0xd800 <= cp && cp <= 0xdfff) {
            return 2;
        }
        return 0;
    }
    if 0xe0 <= b0 && b0 <= 0xef {
        if n < 3 {
            return 0;
        }
        let b1 = b[i + 1];
        let b2 = b[i + 2];
        assert(rest[1] == b1 && rest[2] == b2);
        if !(0x80 <= b1 && b1 <= 0xbf && 0x80 <= b2 && b2 <= 0xbf) {
            return 0;
        }
        let cp: u32 = (((b0 & 0x0f) as u32) << 12u32) | (((b1 & 0x3f) as u32) << 6u32) | ((b2
            & 0x3f) as u32);
        assert(cp == decode_first_codepoint(rest));
        if cp >= 0x800 && !(0xd800 <= cp && cp <= 0xdfff) {
            return 3;
        }
        return 0;
    }
    if 0xf0 <= b0 && b0 <= 0xf7 {
        if n < 4 {
            return 0;
        }
        let b1 = b[i + 1];
        let b2 = b[i + 2];
        let b3 = b[i + 3];
        assert(rest[1] == b1 && rest[2] == b2 && rest[3] == b3);
        if !(0x80 <= b1 && b1 <= 0xbf && 0x80 <= b2 && b2 <= 0xbf && 0x80 <= b3 && b3 <= 0xbf) {
            return 0;
        }
        let cp: u32 = (((b0 & 0x07) as u32) << 18u32) | (((b1 & 0x3f) as u32) << 12u32) | (((b2
            & 0x3f) as u32) << 6u32) | ((b3 & 0x3f) as u32);
        assert(cp == decode_first_codepoint(rest));
        if 0x10000 <= cp && cp <= 0x10ffff && !(0xd800 <= cp && cp <= 0xdfff) {
            return 4;
        }
        return 0;
    }
    0
}

/// Whether `b` is well-formed UTF-8.
pub fn is_utf8(b: &[u8]) -> (r: bool)
    ensures
        r == valid_utf8(b@),
{
    let mut i: usize = 0;
    assert(b@.subrange(0, 0) =~= Seq::<u8>::empty());
    while i < b.len()
        invariant
            i <= b@.len(),
            partial_valid_utf8(b@, i as int),
        decreases b@.len() - i,
    {
        let k = first_scalar_len(b, i);
        if k == 0 {
            proof {
                let rest = b@.subrange(i as int, b@.len() as int);
                assert(!valid_utf8(rest));
                partial_valid_partial_invalid_utf8(b@, i as int);
            }
            return false;
        }
        proof {
            partial_valid_utf8_extend(b@, i as int);
        }
        i += k;
    }
    assert(b@.subrange(0, b@.len() as int) =~= b@);
    true
}

} // verus!
