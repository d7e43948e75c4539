//! Shader-source templating.
//!
//! The renderer loads its shader text from files and performs one textual
//! substitution before compiling: every occurrence of the placeholder
//! token `{WINDOW_HEIGHT}` is replaced with the decimal string of the
//! configured window height. No other templating exists. The work is done
//! on the raw bytes of the text; the shell decodes and encodes at its
//! file edge.

use vstd::prelude::*;

verus! {

/// The decimal digits of a number, most significant first.
pub open spec fn spec_decimal(n: nat) -> Seq<u8>
    decreases n,
{
    if n < 10 {
        seq![(48 + n) as u8]
    } else {
        spec_decimal(n / 10).push((48 + n % 10) as u8)
    }
}

/// The decimal string of a number, as bytes.
pub fn format_u32(n: u32) -> (out: Vec<u8>)
    ensures
        out@ == spec_decimal(n as nat),
    decreases n,
{
    if n < 10 {
        let mut out: Vec<u8> = Vec::new();
        out.push(48 + n as u8);
        proof {
            assert(out@ =~= spec_decimal(n as nat));
        }
        out
    } else {
        let mut out = format_u32(n / 10);
        out.push(48 + (n % 10) as u8);
        proof {
            assert(out@ =~= spec_decimal(n as nat));
        }
        out
    }
}

/// The placeholder token the shader text may carry: the bytes of
/// `{WINDOW_HEIGHT}`.
pub open spec fn spec_token() -> Seq<u8> {
    seq![
        123u8,
        87u8,
        73u8,
        78u8,
        68u8,
        79u8,
        87u8,
        95u8,
        72u8,
        69u8,
        73u8,
        71u8,
        72u8,
        84u8,
        125u8,
    ]
}

/// The placeholder token, as bytes.
fn token_bytes() -> (out: Vec<u8>)
    ensures
        out@ == spec_token(),
{
    let mut out: Vec<u8> = Vec::new();
    out.push(123);
    out.push(87);
    out.push(73);
    out.push(78);
    out.push(68);
    out.push(79);
    out.push(87);
    out.push(95);
    out.push(72);
    out.push(69);
    out.push(73);
    out.push(71);
    out.push(72);
    out.push(84);
    out.push(125);
    proof {
        assert(out@ =~= spec_token());
    }
    out
}

/// A text with every occurrence of `token` replaced by `rep`, scanning
/// left to right without rescanning what was substituted in.
pub open spec fn spec_substitute(s: Seq<u8>, token: Seq<u8>, rep: Seq<u8>) -> Seq<u8>
    decreases s.len(),
{
    if token.len() == 0 || s.len() < token.len() {
        s
    } else if s.take(token.len() as int) == token {
        rep + spec_substitute(s.skip(token.len() as int), token, rep)
    } else {
        seq![s[0]] + spec_substitute(s.skip(1), token, rep)
    }
}

/// Whether `token` occurs in `source` starting at position `i`.
fn matches_at(source: &[u8], i: usize, token: &Vec<u8>) -> (r: bool)
    requires
        i + token@.len() <= source@.len(),
    ensures
        r <==> source@.subrange(i as int, i as int + token@.len() as int) == token@,
{
    let n: usize = source.len();
    let ghost sub = source@.subrange(i as int, i as int + token@.len() as int);
    let mut j: usize = 0;
    while j < token.len()
        invariant
            source@.len() == n,
            i + token@.len() <= source@.len(),
            j <= token@.len(),
            sub == source@.subrange(i as int, i as int + token@.len() as int),
            forall|k: int| 0 <= k < j ==> source@[i + k] == token@[k],
        decreases token@.len() - j,
    {
        if source[i + j] != token[j] {
            proof {
                assert(sub[j as int] != token@[j as int]);
            }
            return false;
        }
        j += 1;
    }
    proof {
        assert(sub =~= token@);
    }
    true
}

/// Append a copy of `extra` to `out`.
fn append_bytes(out: &mut Vec<u8>, extra: &Vec<u8>)
    ensures
        final(out)@ == old(out)@ + extra@,
{
    let mut j: usize = 0;
    while j < extra.len()
        invariant
            j <= extra@.len(),
            out@ == old(out)@ + extra@.take(j as int),
        decreases extra@.len() - j,
    {
        out.push(extra[j]);
        proof {
            assert(old(out)@ + extra@.take(j as int) + seq![extra@[j as int]] =~= old(out)@
                + extra@.take(j as int + 1));
        }
        j += 1;
    }
    proof {
        assert(extra@.take(extra@.len() as int) =~= extra@);
    }
}

/// `source` with every occurrence of `token` replaced by `rep`.
fn substitute(source: &[u8], token: &Vec<u8>, rep: &Vec<u8>) -> (out: Vec<u8>)
    requires
        token@.len() > 0,
    ensures
        out@ == spec_substitute(source@, token@, rep@),
{
    let mut out: Vec<u8> = Vec::new();
    let mut i: usize = 0;
    proof {
        assert(source@.skip(0) =~= source@);
        assert(out@ + spec_substitute(source@, token@, rep@) =~= spec_substitute(
            source@,
            token@,
            rep@,
        ));
    }
    while i < source.len()
        invariant
            token@.len() > 0,
            i <= source@.len(),
            spec_substitute(source@, token@, rep@) == out@ + spec_substitute(
                source@.skip(i as int),
                token@,
                rep@,
            ),
        decreases source@.len() - i,
    {
        let ghost rest = source@.skip(i as int);
        if token.len() <= source.len() - i && matches_at(source, i, token) {
            proof {
                assert(rest.take(token@.len() as int) =~= source@.subrange(
                    i as int,
                    i as int + token@.len() as int,
                ));
                assert(rest.skip(token@.len() as int) =~= source@.skip(
                    i as int + token@.len() as int,
                ));
            }
            append_bytes(&mut out, rep);
            i += token.len();
        } else {
            proof {
                if rest.len() >= token@.len() {
                    assert(rest.take(token@.len() as int) =~= source@.subrange(
                        i as int,
                        i as int + token@.len() as int,
                    ));
                }
                assert(rest.skip(1) =~= source@.skip(i as int + 1));
                assert(rest[0] == source@[i as int]);
            }
            out.push(source[i]);
            i += 1;
        }
    }
    proof {
        assert(source@.skip(source@.len() as int) =~= Seq::<u8>::empty());
    }
    out
}

/// The shader text with every `{WINDOW_HEIGHT}` token replaced by the
/// decimal string of the configured window height.
pub fn substitute_window_height(source: &[u8], window_height: u32) -> (out: Vec<u8>)
    ensures
        out@ == spec_substitute(source@, spec_token(), spec_decimal(window_height as nat)),
{
    let token = token_bytes();
    let rep = format_u32(window_height);
    substitute(source, &token, &rep)
}

/// A text in which the token does not occur is left unchanged.
pub proof fn lemma_substitute_absent(s: Seq<u8>, token: Seq<u8>, rep: Seq<u8>)
    requires
        token.len() > 0,
        forall|i: int|
            0 <= i <= s.len() - token.len() ==> #[trigger] s.subrange(i, i + token.len() as int)
                != token,
    ensures
        spec_substitute(s, token, rep) == s,
    decreases s.len(),
{
    if s.len() < token.len() {
    } else {
        assert(s.subrange(0, 0 + token.len() as int) != token);
        assert(s.take(token.len() as int) =~= s.subrange(0, 0 + token.len() as int));
        assert forall|i: int| 0 <= i <= s.skip(1).len() - token.len() implies #[trigger] s.skip(
            1,
        ).subrange(i, i + token.len() as int) != token by {
            assert(s.skip(1).subrange(i, i + token.len() as int) =~= s.subrange(
                i + 1,
                i + 1 + token.len() as int,
            ));
        }
        lemma_substitute_absent(s.skip(1), token, rep);
        assert(spec_substitute(s, token, rep) =~= s);
    }
}

} // verus!
