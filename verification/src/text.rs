//! Textual building blocks: fixed-width lowercase hexadecimal codes and
//! length-prefixed framing over character sequences. The cache fingerprint
//! and the cache-file format are both built from these.

use vstd::prelude::*;

verus! {

/// The lowercase hexadecimal digit for a nibble value (only values below 16
/// are ever used).
pub open spec fn hex_digit(n: u64) -> char {
    if n == 0 {
        '0'
    } else if n == 1 {
        '1'
    } else if n == 2 {
        '2'
    } else if n == 3 {
        '3'
    } else if n == 4 {
        '4'
    } else if n == 5 {
        '5'
    } else if n == 6 {
        '6'
    } else if n == 7 {
        '7'
    } else if n == 8 {
        '8'
    } else if n == 9 {
        '9'
    } else if n == 10 {
        'a'
    } else if n == 11 {
        'b'
    } else if n == 12 {
        'c'
    } else if n == 13 {
        'd'
    } else if n == 14 {
        'e'
    } else {
        'f'
    }
}

/// The value of a lowercase hexadecimal digit; `None` for every other
/// character.
pub open spec fn hex_val(c: char) -> Option<u64> {
    if c == '0' {
        Some(0u64)
    } else if c == '1' {
        Some(1u64)
    } else if c == '2' {
        Some(2u64)
    } else if c == '3' {
        Some(3u64)
    } else if c == '4' {
        Some(4u64)
    } else if c == '5' {
        Some(5u64)
    } else if c == '6' {
        Some(6u64)
    } else if c == '7' {
        Some(7u64)
    } else if c == '8' {
        Some(8u64)
    } else if c == '9' {
        Some(9u64)
    } else if c == 'a' {
        Some(10u64)
    } else if c == 'b' {
        Some(11u64)
    } else if c == 'c' {
        Some(12u64)
    } else if c == 'd' {
        Some(13u64)
    } else if c == 'e' {
        Some(14u64)
    } else if c == 'f' {
        Some(15u64)
    } else {
        None
    }
}

pub proof fn lemma_hex_digit_val(n: u64)
    requires
        n < 16,
    ensures
        hex_val(hex_digit(n)) == Some(n),
{
}

pub proof fn lemma_hex_val_digit(c: char, n: u64)
    requires
        hex_val(c) == Some(n),
    ensures
        n < 16,
        hex_digit(n) == c,
{
}

/// Nibble `i` of `v`, counting from the most significant.
pub open spec fn nibble(v: u64, i: u64) -> u64
    recommends
        i < 16,
{
    (v >> (((15 - i) * 4) as u64)) & 0xf
}

pub proof fn lemma_nibble_small(v: u64, i: u64)
    requires
        i < 16,
    ensures
        nibble(v, i) < 16,
{
    let sh: u64 = ((15 - i) * 4) as u64;
    assert((v >> sh) & 0xf < 16) by (bit_vector);
}

/// The 16-character, fixed-width, lowercase hexadecimal code of `v`.
pub open spec fn hex16(v: u64) -> Seq<char> {
    Seq::new(16, |i: int| hex_digit(nibble(v, i as u64)))
}

pub proof fn lemma_hex16_injective(a: u64, b: u64)
    requires
        hex16(a) == hex16(b),
    ensures
        a == b,
{
    assert forall|i: u64| i < 16 implies nibble(a, i) == nibble(b, i) by {
        assert(hex16(a)[i as int] == hex16(b)[i as int]);
        assert(hex16(a)[i as int] == hex_digit(nibble(a, i)));
        assert(hex16(b)[i as int] == hex_digit(nibble(b, i)));
        lemma_nibble_small(a, i);
        lemma_nibble_small(b, i);
        lemma_hex_digit_val(nibble(a, i));
        lemma_hex_digit_val(nibble(b, i));
    }
    assert(nibble(a, 0) == nibble(b, 0));
    assert(nibble(a, 1) == nibble(b, 1));
    assert(nibble(a, 2) == nibble(b, 2));
    assert(nibble(a, 3) == nibble(b, 3));
    assert(nibble(a, 4) == nibble(b, 4));
    assert(nibble(a, 5) == nibble(b, 5));
    assert(nibble(a, 6) == nibble(b, 6));
    assert(nibble(a, 7) == nibble(b, 7));
    assert(nibble(a, 8) == nibble(b, 8));
    assert(nibble(a, 9) == nibble(b, 9));
    assert(nibble(a, 10) == nibble(b, 10));
    assert(nibble(a, 11) == nibble(b, 11));
    assert(nibble(a, 12) == nibble(b, 12));
    assert(nibble(a, 13) == nibble(b, 13));
    assert(nibble(a, 14) == nibble(b, 14));
    assert(nibble(a, 15) == nibble(b, 15));
    assert((a >> 60u64) & 0xf == (b >> 60u64) & 0xf && (a >> 56u64) & 0xf == (b >> 56u64) & 0xf
        && (a >> 52u64) & 0xf == (b >> 52u64) & 0xf && (a >> 48u64) & 0xf == (b >> 48u64) & 0xf
        && (a >> 44u64) & 0xf == (b >> 44u64) & 0xf && (a >> 40u64) & 0xf == (b >> 40u64) & 0xf
        && (a >> 36u64) & 0xf == (b >> 36u64) & 0xf && (a >> 32u64) & 0xf == (b >> 32u64) & 0xf
        && (a >> 28u64) & 0xf == (b >> 28u64) & 0xf && (a >> 24u64) & 0xf == (b >> 24u64) & 0xf
        && (a >> 20u64) & 0xf == (b >> 20u64) & 0xf && (a >> 16u64) & 0xf == (b >> 16u64) & 0xf
        && (a >> 12u64) & 0xf == (b >> 12u64) & 0xf && (a >> 8u64) & 0xf == (b >> 8u64) & 0xf
        && (a >> 4u64) & 0xf == (b >> 4u64) & 0xf && (a >> 0u64) & 0xf == (b >> 0u64) & 0xf ==> a
        == b) by (bit_vector);
}

/// The lowercase hexadecimal digit character for `n`.
pub fn hex_digit_of(n: u64) -> (r: char)
    requires
        n < 16,
    ensures
        r == hex_digit(n),
{
    if n == 0 {
        '0'
    } else if n == 1 {
        '1'
    } else if n == 2 {
        '2'
    } else if n == 3 {
        '3'
    } else if n == 4 {
        '4'
    } else if n == 5 {
        '5'
    } else if n == 6 {
        '6'
    } else if n == 7 {
        '7'
    } else if n == 8 {
        '8'
    } else if n == 9 {
        '9'
    } else if n == 10 {
        'a'
    } else if n == 11 {
        'b'
    } else if n == 12 {
        'c'
    } else if n == 13 {
        'd'
    } else if n == 14 {
        'e'
    } else {
        'f'
    }
}

/// The value of a lowercase hexadecimal digit character, `None` otherwise.
pub fn hex_val_of(c: char) -> (r: Option<u64>)
    ensures
        r == hex_val(c),
{
    if c == '0' {
        Some(0u64)
    } else if c == '1' {
        Some(1u64)
    } else if c == '2' {
        Some(2u64)
    } else if c == '3' {
        Some(3u64)
    } else if c == '4' {
        Some(4u64)
    } else if c == '5' {
        Some(5u64)
    } else if c == '6' {
        Some(6u64)
    } else if c == '7' {
        Some(7u64)
    } else if c == '8' {
        Some(8u64)
    } else if c == '9' {
        Some(9u64)
    } else if c == 'a' {
        Some(10u64)
    } else if c == 'b' {
        Some(11u64)
    } else if c == 'c' {
        Some(12u64)
    } else if c == 'd' {
        Some(13u64)
    } else if c == 'e' {
        Some(14u64)
    } else if c == 'f' {
        Some(15u64)
    } else {
        None
    }
}

/// Appends the 16-character hexadecimal code of `v` to `out`.
pub fn push_hex16(out: &mut Vec<char>, v: u64)
    ensures
        final(out)@ == old(out)@ + hex16(v),
{
    let mut i: u64 = 0;
    while i < 16
        invariant
            i <= 16,
            out@ == old(out)@ + hex16(v).take(i as int),
        decreases 16 - i,
    {
        let sh: u64 = (15 - i) * 4;
        let d: u64 = (v >> sh) & 0xf;
        proof {
            assert(d == nibble(v, i));
            lemma_nibble_small(v, i);
        }
        out.push(hex_digit_of(d));
        i = i + 1;
        proof {
            assert(hex16(v).take(i as int) =~= hex16(v).take(i - 1).push(hex16(v)[i - 1]));
        }
    }
    proof {
        assert(hex16(v).take(16) =~= hex16(v));
    }
}

proof fn lemma_or_nibble_same(v: u64, d: u64, sh: u64)
    requires
        d < 16,
        sh <= 60,
        (v >> sh) & 0xf == 0,
    ensures
        ((v | (d << sh)) >> sh) & 0xf == d,
{
    assert(d < 16 && sh <= 60 && (v >> sh) & 0xf == 0 ==> ((v | (d << sh)) >> sh) & 0xf == d)
        by (bit_vector);
}

proof fn lemma_or_nibble_other(v: u64, d: u64, sh1: u64, sh2: u64)
    requires
        d < 16,
        sh1 <= 60,
        sh2 <= 60,
        sh1 != sh2,
        sh1 % 4 == 0,
        sh2 % 4 == 0,
    ensures
        ((v | (d << sh1)) >> sh2) & 0xf == (v >> sh2) & 0xf,
{
    assert(d < 16 && sh1 <= 60 && sh2 <= 60 && sh1 != sh2 && sh1 % 4 == 0 && sh2 % 4 == 0 ==> ((v
        | (d << sh1)) >> sh2) & 0xf == (v >> sh2) & 0xf) by (bit_vector);
}

proof fn lemma_zero_nibble(sh: u64)
    ensures
        (0u64 >> sh) & 0xf == 0,
{
    assert((0u64 >> sh) & 0xf == 0) by (bit_vector);
}

/// Reads the 16 characters of `v` starting at `at` as a fixed-width
/// hexadecimal code. Succeeds with the encoded value exactly when those
/// characters are such a code; no value matches otherwise.
pub fn scan_hex16(v: &Vec<char>, at: usize) -> (r: Option<u64>)
    requires
        at + 16 <= v@.len(),
    ensures
        match r {
            Some(w) => hex16(w) == v@.subrange(at as int, at as int + 16),
            None => forall|w: u64| hex16(w) != v@.subrange(at as int, at as int + 16),
        },
{
    let ghost s = v@.subrange(at as int, at as int + 16);
    let n: usize = v.len();
    let mut acc: u64 = 0;
    let mut j: usize = 0;
    proof {
        assert forall|k: u64| k < 16 implies nibble(acc, k) == 0 by {
            lemma_zero_nibble(((15 - k) * 4) as u64);
        }
    }
    while j < 16
        invariant
            at + 16 <= n,
            n == v@.len(),
            j <= 16,
            s == v@.subrange(at as int, at as int + 16),
            forall|k: u64| k < j ==> hex_val(s[k as int]) is Some,
            forall|k: u64| k < j ==> #[trigger] nibble(acc, k) == hex_val(s[k as int])->Some_0,
            forall|k: u64| j <= k < 16 ==> #[trigger] nibble(acc, k) == 0,
        decreases 16 - j,
    {
        let c: char = v[at + j];
        proof {
            assert(c == s[j as int]);
        }
        match hex_val_of(c) {
            None => {
                proof {
                    assert forall|w: u64| hex16(w) != s by {
                        if hex16(w) == s {
                            lemma_nibble_small(w, j as u64);
                            lemma_hex_digit_val(nibble(w, j as u64));
                            assert(s[j as int] == hex_digit(nibble(w, j as u64)));
                        }
                    }
                }
                return None;
            },
            Some(d) => {
                let sh: u64 = (15 - j as u64) * 4;
                proof {
                    lemma_hex_val_digit(c, d);
                    assert(sh == ((15 - (j as u64)) * 4) as u64);
                    assert(nibble(acc, j as u64) == 0);
                    lemma_or_nibble_same(acc, d, sh);
                    assert forall|k: u64| k < 16 && k != j implies #[trigger] nibble(
                        acc | (d << sh),
                        k,
                    ) == nibble(acc, k) by {
                        lemma_or_nibble_other(acc, d, sh, ((15 - k) * 4) as u64);
                        assert(((15 - (j as u64)) * 4) != ((15 - k) * 4));
                    }
                }
                acc = acc | (d << sh);
                j = j + 1;
            },
        }
    }
    proof {
        assert forall|i: int| 0 <= i < 16 implies hex16(acc)[i] == s[i] by {
            lemma_nibble_small(acc, i as u64);
            assert(nibble(acc, i as u64) == hex_val(s[i])->Some_0);
            lemma_hex_val_digit(s[i], hex_val(s[i])->Some_0);
        }
        assert(hex16(acc) =~= s);
    }
    Some(acc)
}

/// A chunk framed for the cache-file format: its character count as a
/// fixed-width hexadecimal code, then its characters.
pub open spec fn len_prefixed(s: Seq<char>) -> Seq<char> {
    hex16(s.len() as u64) + s
}

/// The concatenation of the framed chunks, the shape of every cache file.
pub open spec fn render_chunks(cs: Seq<Seq<char>>) -> Seq<char>
    decreases cs.len(),
{
    if cs.len() == 0 {
        Seq::empty()
    } else {
        len_prefixed(cs[0]) + render_chunks(cs.drop_first())
    }
}

/// Every chunk's length fits the fixed-width code.
pub open spec fn chunks_valid(cs: Seq<Seq<char>>) -> bool {
    forall|i: int| 0 <= i < cs.len() ==> (#[trigger] cs[i]).len() <= u64::MAX
}

pub proof fn lemma_render_chunks_len(cs: Seq<Seq<char>>)
    ensures
        render_chunks(cs).len() >= 16 * cs.len(),
        cs.len() > 0 ==> render_chunks(cs).len() >= 16 + cs[0].len(),
    decreases cs.len(),
{
    if cs.len() > 0 {
        lemma_render_chunks_len(cs.drop_first());
    }
}

/// Peeling one framed chunk off the front of a rendering.
pub proof fn lemma_render_chunks_peel(cs: Seq<Seq<char>>, v: Seq<char>)
    requires
        cs.len() > 0,
        cs[0].len() <= u64::MAX,
        render_chunks(cs) == v,
    ensures
        v.len() >= 16 + cs[0].len(),
        v.subrange(0, 16) == hex16(cs[0].len() as u64),
        v.subrange(16, 16 + cs[0].len() as int) == cs[0],
        render_chunks(cs.drop_first()) == v.subrange(16 + cs[0].len() as int, v.len() as int),
{
    lemma_render_chunks_len(cs);
    lemma_render_chunks_len(cs.drop_first());
    let l = cs[0].len() as int;
    assert(v == hex16(cs[0].len() as u64) + cs[0] + render_chunks(cs.drop_first()));
    assert(v.subrange(0, 16) =~= hex16(cs[0].len() as u64));
    assert(v.subrange(16, 16 + l) =~= cs[0]);
    assert(v.subrange(16 + l, v.len() as int) =~= render_chunks(cs.drop_first()));
}

/// Framed chunks render injectively: equal renderings come from equal chunk
/// sequences, even across different chunk counts.
pub proof fn lemma_render_chunks_injective(cs1: Seq<Seq<char>>, cs2: Seq<Seq<char>>)
    requires
        chunks_valid(cs1),
        chunks_valid(cs2),
        render_chunks(cs1) == render_chunks(cs2),
    ensures
        cs1 == cs2,
    decreases cs1.len(),
{
    if cs1.len() == 0 || cs2.len() == 0 {
        if cs1.len() == 0 && cs2.len() > 0 {
            lemma_render_chunks_len(cs2);
        } else if cs2.len() == 0 && cs1.len() > 0 {
            lemma_render_chunks_len(cs1);
        }
        assert(cs1 =~= cs2);
    } else {
        let v = render_chunks(cs1);
        lemma_render_chunks_peel(cs1, v);
        lemma_render_chunks_peel(cs2, v);
        lemma_hex16_injective(cs1[0].len() as u64, cs2[0].len() as u64);
        assert(cs1[0] == cs2[0]);
        assert forall|i: int| 0 <= i < cs1.drop_first().len() implies (#[trigger] cs1.drop_first()[i]).len()
            <= u64::MAX by {
            assert(cs1.drop_first()[i] == cs1[i + 1]);
        }
        assert forall|i: int| 0 <= i < cs2.drop_first().len() implies (#[trigger] cs2.drop_first()[i]).len()
            <= u64::MAX by {
            assert(cs2.drop_first()[i] == cs2[i + 1]);
        }
        lemma_render_chunks_injective(cs1.drop_first(), cs2.drop_first());
        assert forall|i: int| 0 <= i < cs1.len() implies cs1[i] == cs2[i] by {
            if i > 0 {
                assert(cs1[i] == cs1.drop_first()[i - 1]);
                assert(cs2[i] == cs2.drop_first()[i - 1]);
            }
        }
        assert(cs1 =~= cs2);
    }
}

pub proof fn lemma_render_chunks_push(cs: Seq<Seq<char>>, c: Seq<char>)
    ensures
        render_chunks(cs.push(c)) == render_chunks(cs) + len_prefixed(c),
    decreases cs.len(),
{
    if cs.len() == 0 {
        assert(cs.push(c)[0] == c);
        assert(cs.push(c).drop_first() =~= Seq::<Seq<char>>::empty());
        assert(render_chunks(cs.push(c)) == len_prefixed(c) + render_chunks(
            Seq::<Seq<char>>::empty(),
        ));
        assert(render_chunks(cs.push(c)) =~= render_chunks(cs) + len_prefixed(c));
    } else {
        assert(cs.push(c)[0] == cs[0]);
        assert(cs.push(c).drop_first() =~= cs.drop_first().push(c));
        lemma_render_chunks_push(cs.drop_first(), c);
        assert(render_chunks(cs.push(c)) == len_prefixed(cs[0]) + (render_chunks(cs.drop_first())
            + len_prefixed(c)));
        assert(render_chunks(cs.push(c)) =~= render_chunks(cs) + len_prefixed(c));
    }
}

/// Splits `v` into exactly `n` framed chunks. Succeeds exactly when `v` is
/// the rendering of some `n` chunks, and then returns those chunks: the
/// framing is injective, so they are unique.
pub fn parse_chunks(v: &Vec<char>, n: usize) -> (r: Option<Vec<String>>)
    ensures
        match r {
            Some(out) => {
                &&& out@.len() == n
                &&& chunks_valid(out.deep_view())
                &&& render_chunks(out.deep_view()) == v@
            },
            None => forall|cs: Seq<Seq<char>>|
                cs.len() == n && chunks_valid(cs) ==> render_chunks(cs) != v@,
        },
{
    let len: usize = v.len();
    let mut out: Vec<String> = Vec::new();
    let mut p: usize = 0;
    let mut k: usize = 0;
    proof {
        assert(out.deep_view() =~= Seq::<Seq<char>>::empty());
        assert(v@.subrange(0, 0) =~= Seq::<char>::empty());
        assert forall|cs: Seq<Seq<char>>|
            cs.len() == n && chunks_valid(cs) && #[trigger] render_chunks(cs) == v@ implies {
            &&& cs.take(0) == out.deep_view()
            &&& render_chunks(cs.skip(0)) == v@.subrange(0, len as int)
        } by {
            assert(cs.take(0) =~= Seq::<Seq<char>>::empty());
            assert(cs.skip(0) =~= cs);
            assert(v@.subrange(0, len as int) =~= v@);
        }
    }
    while k < n
        invariant
            len == v@.len(),
            k <= n,
            p <= len,
            out@.len() == k,
            chunks_valid(out.deep_view()),
            render_chunks(out.deep_view()) == v@.subrange(0, p as int),
            forall|cs: Seq<Seq<char>>|
                cs.len() == n && chunks_valid(cs) && #[trigger] render_chunks(cs) == v@ ==> {
                    &&& cs.take(k as int) == out.deep_view()
                    &&& render_chunks(cs.skip(k as int)) == v@.subrange(p as int, len as int)
                },
        decreases n - k,
    {
        let ghost rest = v@.subrange(p as int, len as int);
        proof {
            assert forall|cs: Seq<Seq<char>>|
                cs.len() == n && chunks_valid(cs) && #[trigger] render_chunks(cs) == v@ implies {
                &&& cs.skip(k as int).len() > 0
                &&& render_chunks(cs.skip(k as int)).len() >= 16 + cs.skip(k as int)[0].len()
            } by {
                lemma_render_chunks_len(cs.skip(k as int));
            }
        }
        if len - p < 16 {
            return None;
        }
        let got = scan_hex16(v, p);
        proof {
            assert(v@.subrange(p as int, p as int + 16) =~= rest.subrange(0, 16));
        }
        match got {
            None => {
                proof {
                    assert forall|cs: Seq<Seq<char>>|
                        cs.len() == n && chunks_valid(cs) implies #[trigger] render_chunks(cs)
                        != v@ by {
                        if render_chunks(cs) == v@ {
                            lemma_render_chunks_peel(cs.skip(k as int), rest);
                        }
                    }
                }
                return None;
            },
            Some(l) => {
                let avail: usize = len - p - 16;
                if l > avail as u64 {
                    proof {
                        assert forall|cs: Seq<Seq<char>>|
                            cs.len() == n && chunks_valid(cs) implies #[trigger] render_chunks(cs)
                            != v@ by {
                            if render_chunks(cs) == v@ {
                                lemma_render_chunks_peel(cs.skip(k as int), rest);
                                lemma_hex16_injective(l, cs.skip(k as int)[0].len() as u64);
                            }
                        }
                    }
                    return None;
                }
                let lu: usize = l as usize;
                let chunk = char_range(v, p + 16, p + 16 + lu);
                let s = chars_to_string(&chunk);
                let ghost pre_dv = out.deep_view();
                let ghost pre_p = p as int;
                let ghost pre_k = k as int;
                out.push(s);
                p = p + 16 + lu;
                k = k + 1;
                proof {
                    assert(s@ =~= rest.subrange(16, 16 + lu as int));
                    assert(out.deep_view() =~= pre_dv.push(s@));
                    lemma_render_chunks_push(pre_dv, s@);
                    assert(hex16(l) =~= rest.subrange(0, 16));
                    assert(len_prefixed(s@) =~= rest.subrange(0, 16 + lu as int));
                    assert(render_chunks(out.deep_view()) =~= v@.subrange(0, p as int));
                    assert forall|i: int| 0 <= i < out.deep_view().len() implies (#[trigger] out.deep_view()[i]).len()
                        <= u64::MAX by {
                        if i < pre_k {
                            assert(out.deep_view()[i] == pre_dv[i]);
                        } else {
                            assert(out.deep_view()[i] == s@);
                        }
                    }
                    assert forall|cs: Seq<Seq<char>>|
                        cs.len() == n && chunks_valid(cs) && #[trigger] render_chunks(cs)
                            == v@ implies {
                        &&& cs.take(k as int) == out.deep_view()
                        &&& render_chunks(cs.skip(k as int)) == v@.subrange(p as int, len as int)
                    } by {
                        assert(cs.take(pre_k) == pre_dv);
                        assert(render_chunks(cs.skip(pre_k)) == rest);
                        lemma_render_chunks_peel(cs.skip(pre_k), rest);
                        lemma_hex16_injective(l, cs.skip(pre_k)[0].len() as u64);
                        assert(cs.skip(pre_k)[0] =~= s@);
                        assert(cs.skip(pre_k)[0] == cs[pre_k]);
                        assert(cs.take(pre_k + 1) =~= cs.take(pre_k).push(cs[pre_k]));
                        assert(cs.skip(pre_k).drop_first() =~= cs.skip(pre_k + 1));
                        assert(rest.subrange(16 + lu as int, rest.len() as int) =~= v@.subrange(
                            p as int,
                            len as int,
                        ));
                    }
                }
            },
        }
    }
    if p != len {
        proof {
            assert forall|cs: Seq<Seq<char>>|
                cs.len() == n && chunks_valid(cs) implies #[trigger] render_chunks(cs) != v@ by {
                if render_chunks(cs) == v@ {
                    assert(cs.skip(n as int) =~= Seq::<Seq<char>>::empty());
                    assert(v@.subrange(p as int, len as int).len() > 0);
                }
            }
        }
        return None;
    }
    proof {
        assert(v@.subrange(0, p as int) =~= v@);
    }
    Some(out)
}

/// The characters of `s`, as a vector.
pub fn to_char_vec(s: &str) -> (r: Vec<char>)
    ensures
        r@ == s@,
{
    let n: usize = s.unicode_len();
    let mut out: Vec<char> = Vec::new();
    let mut i: usize = 0;
    while i < n
        invariant
            n == s@.len(),
            i <= n,
            out@ == s@.take(i as int),
        decreases n - i,
    {
        out.push(s.get_char(i));
        i = i + 1;
        proof {
            assert(s@.take(i as int) =~= s@.take(i - 1).push(s@[i - 1]));
        }
    }
    proof {
        assert(s@.take(n as int) =~= s@);
    }
    out
}

/// The characters of `v` between `from` and `to`, as a fresh vector.
pub fn char_range(v: &Vec<char>, from: usize, to: usize) -> (r: Vec<char>)
    requires
        from <= to <= v@.len(),
    ensures
        r@ == v@.subrange(from as int, to as int),
{
    let mut out: Vec<char> = Vec::new();
    let mut i: usize = from;
    while i < to
        invariant
            from <= i <= to <= v@.len(),
            out@ == v@.subrange(from as int, i as int),
        decreases to - i,
    {
        out.push(v[i]);
        i = i + 1;
        proof {
            assert(v@.subrange(from as int, i as int) =~= v@.subrange(from as int, i - 1).push(
                v@[i - 1],
            ));
        }
    }
    out
}

/// Appends the characters of `s` to `out`.
pub fn push_chars(out: &mut Vec<char>, s: &str)
    ensures
        final(out)@ == old(out)@ + s@,
{
    let mut more = to_char_vec(s);
    let mut i: usize = 0;
    let n: usize = more.len();
    while i < n
        invariant
            n == more@.len(),
            more@ == s@,
            i <= n,
            out@ == old(out)@ + s@.take(i as int),
        decreases n - i,
    {
        out.push(more[i]);
        i = i + 1;
        proof {
            assert(old(out)@ + s@.take(i as int) =~= (old(out)@ + s@.take(i - 1)).push(s@[i - 1]));
        }
    }
    proof {
        assert(old(out)@ + s@.take(n as int) =~= old(out)@ + s@);
    }
}

/// Appends a framed chunk: the character count of `s` as a fixed-width code,
/// then `s` itself.
pub fn push_len_prefixed(out: &mut Vec<char>, s: &str)
    ensures
        final(out)@ == old(out)@ + len_prefixed(s@),
{
    let n: usize = s.unicode_len();
    push_hex16(out, n as u64);
    push_chars(out, s);
    proof {
        assert(old(out)@ + hex16(s@.len() as u64) + s@ =~= old(out)@ + len_prefixed(s@));
    }
}

/// The rendering of a record: each string field as a framed chunk, then the
/// expiry timestamp's fixed-width code as a final framed chunk.
pub open spec fn render_record(fields: Seq<Seq<char>>, ts: int) -> Seq<char> {
    render_chunks(fields.push(hex16(ts as u64)))
}

/// Renders the record with the given string fields and expiry timestamp.
pub fn render_fields_ts(fs: &Vec<String>, ts: i64) -> (r: String)
    requires
        0 <= ts,
    ensures
        r@ == render_record(fs.deep_view(), ts as int),
{
    let mut out: Vec<char> = Vec::new();
    let n: usize = fs.len();
    let mut i: usize = 0;
    while i < n
        invariant
            n == fs@.len(),
            i <= n,
            out@ == render_chunks(fs.deep_view().take(i as int)),
        decreases n - i,
    {
        let ghost pre = fs.deep_view().take(i as int);
        push_len_prefixed(&mut out, fs[i].as_str());
        i = i + 1;
        proof {
            assert(fs.deep_view().take(i as int) =~= pre.push(fs.deep_view()[i - 1]));
            lemma_render_chunks_push(pre, fs.deep_view()[i - 1]);
        }
    }
    proof {
        assert(fs.deep_view().take(n as int) =~= fs.deep_view());
    }
    let ghost before_ts = out@;
    push_hex16(&mut out, 16);
    push_hex16(&mut out, ts as u64);
    proof {
        lemma_render_chunks_push(fs.deep_view(), hex16(ts as u64));
        assert(len_prefixed(hex16(ts as u64)) =~= hex16(16) + hex16(ts as u64));
        assert(out@ =~= render_chunks(fs.deep_view()) + len_prefixed(hex16(ts as u64)));
    }
    chars_to_string(&out)
}

/// Splits `s` into `m` string fields and an expiry timestamp. Succeeds
/// exactly when `s` is the rendering of such a record; the framing is
/// injective, so the record is unique.
pub fn parse_fields_ts(s: &str, m: usize) -> (r: Option<(Vec<String>, i64)>)
    requires
        m <= 16,
    ensures
        match r {
            Some(p) => {
                &&& p.0@.len() == m
                &&& chunks_valid(p.0.deep_view())
                &&& 0 <= p.1
                &&& render_record(p.0.deep_view(), p.1 as int) == s@
            },
            None => forall|cs: Seq<Seq<char>>, ts: int|
                cs.len() == m && chunks_valid(cs) && 0 <= ts <= i64::MAX ==> #[trigger] render_record(
                    cs,
                    ts,
                ) != s@,
        },
{
    let v = to_char_vec(s);
    let parsed = parse_chunks(&v, m + 1);
    match parsed {
        None => {
            proof {
                assert forall|cs: Seq<Seq<char>>, ts: int|
                    cs.len() == m && chunks_valid(cs) && 0 <= ts
                        <= i64::MAX implies #[trigger] render_record(cs, ts) != s@ by {
                    let cs1 = cs.push(hex16(ts as u64));
                    assert forall|i: int| 0 <= i < cs1.len() implies (#[trigger] cs1[i]).len()
                        <= u64::MAX by {
                        if i < cs.len() {
                            assert(cs1[i] == cs[i]);
                        } else {
                            assert(cs1[i] == hex16(ts as u64));
                        }
                    }
                }
            }
            None
        },
        Some(out) => {
            let tsv = to_char_vec(out[m].as_str());
            let ghost odv = out.deep_view();
            proof {
                assert(odv[m as int] == out@[m as int]@);
            }
            if tsv.len() != 16 {
                proof {
                    lemma_no_record(odv, v@, m as int, s@);
                }
                return None;
            }
            let got = scan_hex16(&tsv, 0);
            proof {
                assert(tsv@.subrange(0, 16) =~= tsv@);
            }
            match got {
                None => {
                    proof {
                        lemma_no_record(odv, v@, m as int, s@);
                    }
                    None
                },
                Some(w) => {
                    if w > i64::MAX as u64 {
                        proof {
                            assert forall|w2: u64| !(odv[m as int] == hex16(w2) && w2
                                <= i64::MAX) by {
                                if odv[m as int] == hex16(w2) {
                                    assert(hex16(w2) =~= tsv@.subrange(0, 16));
                                    lemma_hex16_injective(w2, w);
                                }
                            }
                            lemma_no_record(odv, v@, m as int, s@);
                        }
                        return None;
                    }
                    let ts: i64 = w as i64;
                    let mut fs: Vec<String> = Vec::new();
                    let mut i: usize = 0;
                    while i < m
                        invariant
                            i <= m,
                            m < out@.len(),
                            odv == out.deep_view(),
                            fs.deep_view() == odv.take(i as int),
                        decreases m - i,
                    {
                        let ghost pre = fs.deep_view();
                        fs.push(out[i].clone());
                        i = i + 1;
                        proof {
                            assert(fs.deep_view() =~= pre.push(odv[i - 1]));
                            assert(odv.take(i as int) =~= odv.take(i - 1).push(odv[i - 1]));
                        }
                    }
                    proof {
                        assert(odv =~= odv.take(m as int).push(odv[m as int]));
                        assert(odv[m as int] =~= hex16(w));
                        assert(render_record(fs.deep_view(), ts as int) == render_chunks(odv));
                        assert forall|i: int| 0 <= i < fs.deep_view().len() implies (#[trigger] fs.deep_view()[i]).len()
                            <= u64::MAX by {
                            assert(fs.deep_view()[i] == odv[i]);
                        }
                    }
                    Some((fs, ts))
                },
            }
        },
    }
}

/// If `m + 1` chunks render to `v`, the last of them pins every candidate
/// record: when that chunk is not the code of a representable timestamp, no
/// record renders to `v` at all.
proof fn lemma_no_record(odv: Seq<Seq<char>>, v: Seq<char>, m: int, s: Seq<char>)
    requires
        0 <= m,
        odv.len() == m + 1,
        chunks_valid(odv),
        render_chunks(odv) == v,
        s == v,
        forall|w: u64| #![auto] !(odv[m] == hex16(w) && w <= i64::MAX),
    ensures
        forall|cs: Seq<Seq<char>>, ts: int|
            cs.len() == m && chunks_valid(cs) && 0 <= ts <= i64::MAX ==> #[trigger] render_record(
                cs,
                ts,
            ) != s,
{
    assert forall|cs: Seq<Seq<char>>, ts: int|
        cs.len() == m && chunks_valid(cs) && 0 <= ts <= i64::MAX implies #[trigger] render_record(
        cs,
        ts,
    ) != s by {
        if render_record(cs, ts) == s {
            let cs1 = cs.push(hex16(ts as u64));
            assert forall|i: int| 0 <= i < cs1.len() implies (#[trigger] cs1[i]).len()
                <= u64::MAX by {
                if i < cs.len() {
                    assert(cs1[i] == cs[i]);
                } else {
                    assert(cs1[i] == hex16(ts as u64));
                }
            }
            lemma_render_chunks_injective(cs1, odv);
            assert(odv[m] == hex16(ts as u64));
            assert(ts as u64 <= i64::MAX);
        }
    }
}

/// Whether two character vectors hold the same characters.
pub fn chars_eq(a: &Vec<char>, b: &Vec<char>) -> (r: bool)
    ensures
        r == (a@ == b@),
{
    let n: usize = a.len();
    if n != b.len() {
        return false;
    }
    let mut i: usize = 0;
    while i < n
        invariant
            n == a@.len(),
            n == b@.len(),
            i <= n,
            forall|j: int| 0 <= j < i ==> a@[j] == b@[j],
        decreases n - i,
    {
        if a[i] != b[i] {
            return false;
        }
        i = i + 1;
    }
    proof {
        assert(a@ =~= b@);
    }
    true
}

/// Relies on `String`'s `FromIterator<char>` implementation: collecting
/// characters yields the string of exactly those characters, in order.
#[verifier::external_body]
pub fn chars_to_string(v: &Vec<char>) -> (r: String)
    ensures
        r@ == v@,
{
    v.iter().collect()
}

} // verus!
