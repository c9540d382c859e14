//! Base64 encoding of raw bytes, for image captures carried as text.

use vstd::prelude::*;

verus! {

broadcast use vstd::std_specs::vec::group_vec_axioms, vstd::seq::group_seq_axioms;

/// The base64 alphabet, indexed by a six-bit value.
pub open spec fn b64_char(v: int) -> char {
    "ABCDEFGHIJKLMNOPQRSTUVWXYZabcdefghijklmnopqrstuvwxyz0123456789+/"@[v]
}

/// The 24-bit group packed from up to three bytes starting at `i`, missing
/// bytes as zero.
pub open spec fn b64_group(input: Seq<u8>, i: int) -> int {
    (input[i] as int) * 0x10000 + (if i + 1 < input.len() {
        input[i + 1] as int
    } else {
        0
    }) * 0x100 + (if i + 2 < input.len() {
        input[i + 2] as int
    } else {
        0
    })
}

/// The four output characters for a 24-bit group: six bits each, with `=`
/// padding where the second or third byte is missing.
pub open spec fn quad_of(g: int, has2: bool, has3: bool) -> Seq<char> {
    seq![
        b64_char(g / 0x40000),
        b64_char((g / 0x1000) % 64),
        if has2 {
            b64_char((g / 64) % 64)
        } else {
            '='
        },
        if has3 {
            b64_char(g % 64)
        } else {
            '='
        },
    ]
}

/// The four output characters for the group starting at byte `i`.
pub open spec fn b64_quad(input: Seq<u8>, i: int) -> Seq<char> {
    quad_of(b64_group(input, i), i + 1 < input.len(), i + 2 < input.len())
}

/// The base64 text of the bytes from position `i` on, in three-byte groups.
pub open spec fn b64_from(input: Seq<u8>, i: int) -> Seq<char>
    decreases input.len() + 3 - i,
{
    if i >= input.len() {
        Seq::empty()
    } else {
        b64_quad(input, i) + b64_from(input, i + 3)
    }
}

/// The base64 text of a byte string.
pub open spec fn b64_of(input: Seq<u8>) -> Seq<char> {
    b64_from(input, 0)
}

fn b64_char_at(v: u32) -> (c: char)
    requires
        v < 64,
    ensures
        c == b64_char(v as int),
{
    let table = "ABCDEFGHIJKLMNOPQRSTUVWXYZabcdefghijklmnopqrstuvwxyz0123456789+/";
    proof {
        reveal_strlit("ABCDEFGHIJKLMNOPQRSTUVWXYZabcdefghijklmnopqrstuvwxyz0123456789+/");
    }
    table.get_char(v as usize)
}

/// Appends the four characters of one 24-bit group.
fn push_quad(g: u32, has2: bool, has3: bool, out: &mut String)
    requires
        g < 0x1000000,
    ensures
        final(out)@ == old(out)@ + quad_of(g as int, has2, has3),
{
    let ghost prev = out@;
    crate::text::push_char(out, b64_char_at(g / 0x40000));
    crate::text::push_char(out, b64_char_at((g / 0x1000) % 64));
    if has2 {
        crate::text::push_char(out, b64_char_at((g / 64) % 64));
    } else {
        crate::text::push_char(out, '=');
    }
    if has3 {
        crate::text::push_char(out, b64_char_at(g % 64));
    } else {
        crate::text::push_char(out, '=');
    }
    proof {
        assert(out@ =~= prev + quad_of(g as int, has2, has3));
    }
}

/// Encodes bytes as base64 text: four characters for every three bytes,
/// `=`-padded at the end.
#[verifier::loop_isolation(false)]
#[verifier::rlimit(100)]
pub fn encode(input: &[u8]) -> (r: String)
    ensures
        r@ == b64_of(input@),
{
    let n = input.len();
    let mut out = String::new();
    let mut i: usize = 0;
    while i < n
        invariant
            n == input@.len(),
            i <= n,
            b64_of(input@) == out@ + b64_from(input@, i as int),
        decreases n - i,
    {
        let ghost prev = out@;
        let b1 = input[i];
        let b2: u8 = if n - i > 1 { input[i + 1] } else { 0 };
        let b3: u8 = if n - i > 2 { input[i + 2] } else { 0 };
        let group: u32 = (b1 as u32) * 0x10000 + (b2 as u32) * 0x100 + (b3 as u32);
        proof {
            assert(group as int == b64_group(input@, i as int));
        }
        push_quad(group, n - i > 1, n - i > 2, &mut out);
        let step: usize = if n - i >= 3 {
            3
        } else {
            n - i
        };
        proof {
            assert(out@ == prev + b64_quad(input@, i as int));
            assert(b64_from(input@, i as int) == b64_quad(input@, i as int) + b64_from(
                input@, i + 3));
            assert(prev + b64_from(input@, i as int) =~= (prev + b64_quad(input@, i as int))
                + b64_from(input@, i + 3));
            assert(b64_from(input@, i + 3) == b64_from(input@, i + step));
        }
        i += step;
    }
    proof {
        assert(b64_from(input@, i as int) =~= Seq::empty());
        assert(out@ =~= b64_of(input@));
    }
    out
}

} // verus!
