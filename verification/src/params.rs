use vstd::prelude::*;

use crate::codec::{spec_hex_val, spec_is_hex_digit};

verus! {

/// The decoding applied to each form token: `+` becomes a space, `%` with
/// two base-16 digits becomes that byte, everything else stays itself.
pub open spec fn spec_form_decode(s: Seq<u8>) -> Seq<u8>
    decreases s.len(),
{
    if s.len() == 0 {
        Seq::empty()
    } else if s[0] == 37 && s.len() >= 3 && spec_is_hex_digit(s[1]) && spec_is_hex_digit(s[2]) {
        seq![((16 * spec_hex_val(s[1]) + spec_hex_val(s[2])) as u8)] + spec_form_decode(s.skip(3))
    } else if s[0] == 43 {
        seq![32u8] + spec_form_decode(s.skip(1))
    } else {
        seq![s[0]] + spec_form_decode(s.skip(1))
    }
}

/// Decodes one form token.
pub fn form_decode(s: &[u8]) -> (r: Vec<u8>)
    ensures
        r@ == spec_form_decode(s@),
{
    let mut out: Vec<u8> = Vec::new();
    let mut i: usize = 0;
    proof {
        assert(s@.skip(0) =~= s@);
        assert(out@ + spec_form_decode(s@) =~= spec_form_decode(s@));
    }
    while i < s.len()
        invariant
            i <= s@.len(),
            spec_form_decode(s@) == out@ + spec_form_decode(s@.skip(i as int)),
        decreases s@.len() - i,
    {
        let ghost tail = s@.skip(i as int);
        proof {
            assert(tail[0] == s@[i as int]);
        }
        let b = s[i];
        if b == 37 && s.len() - i > 2 && is_hex(s[i + 1]) && is_hex(s[i + 2]) {
            proof {
                assert(tail[1] == s@[i as int + 1] && tail[2] == s@[i as int + 2]);
                assert(tail.skip(3) =~= s@.skip(i as int + 3));
            }
            let hi = hex_val_unchecked(s[i + 1]);
            let lo = hex_val_unchecked(s[i + 2]);
            out.push(16 * hi + lo);
            proof {
                assert(out@ + spec_form_decode(s@.skip(i as int + 3)) =~= spec_form_decode(s@));
            }
            i = i + 3;
        } else if b == 43 {
            proof {
                assert(tail.skip(1) =~= s@.skip(i as int + 1));
            }
            out.push(32);
            proof {
                assert(out@ + spec_form_decode(s@.skip(i as int + 1)) =~= spec_form_decode(s@));
            }
            i = i + 1;
        } else {
            proof {
                assert(tail.skip(1) =~= s@.skip(i as int + 1));
            }
            out.push(b);
            proof {
                assert(out@ + spec_form_decode(s@.skip(i as int + 1)) =~= spec_form_decode(s@));
            }
            i = i + 1;
        }
    }
    proof {
        assert(s@.skip(i as int) =~= Seq::<u8>::empty());
        assert(out@ + spec_form_decode(s@.skip(i as int)) =~= out@);
    }
    out
}

fn is_hex(b: u8) -> (r: bool)
    ensures
        r == spec_is_hex_digit(b),
{
    (48 <= b && b <= 57) || (97 <= b && b <= 102) || (65 <= b && b <= 70)
}

fn hex_val_unchecked(b: u8) -> (r: u8)
    requires
        spec_is_hex_digit(b),
    ensures
        r == spec_hex_val(b),
        r < 16,
{
    if 48 <= b && b <= 57 {
        b - 48
    } else if 65 <= b && b <= 70 {
        b - 55
    } else {
        b - 87
    }
}

/// One token's key and value: the bytes before the first `=`, and everything
/// after it; a token without `=` is all key with an empty value.
pub open spec fn spec_key_value(tok: Seq<u8>) -> (Seq<u8>, Seq<u8>)
    decreases tok.len(),
{
    if tok.len() == 0 {
        (Seq::empty(), Seq::empty())
    } else if tok[0] == 61 {
        (Seq::empty(), tok.skip(1))
    } else {
        let rest = spec_key_value(tok.skip(1));
        (seq![tok[0]] + rest.0, rest.1)
    }
}

/// Splits one token at its first `=`.
pub fn key_value(tok: &[u8]) -> (r: (Vec<u8>, Vec<u8>))
    ensures
        r.0@ == spec_key_value(tok@).0,
        r.1@ == spec_key_value(tok@).1,
{
    let mut i: usize = 0;
    while i < tok.len() && tok[i] != 61
        invariant
            i <= tok@.len(),
            forall|j: int| 0 <= j < i ==> (#[trigger] tok@[j]) != 61,
        decreases tok@.len() - i,
    {
        i = i + 1;
    }
    let key = vstd::slice::slice_subrange(tok, 0, i);
    let value = if i < tok.len() {
        vstd::slice::slice_subrange(tok, i + 1, tok.len())
    } else {
        vstd::slice::slice_subrange(tok, i, i)
    };
    proof {
        lemma_key_value_at(tok@, i as int);
    }
    (vstd::slice::slice_to_vec(key), vstd::slice::slice_to_vec(value))
}

/// Where the first `i` bytes of `tok` are not `=`, the key is those bytes
/// and the value is what follows an `=` at `i`, if any.
proof fn lemma_key_value_at(tok: Seq<u8>, i: int)
    requires
        0 <= i <= tok.len(),
        forall|j: int| 0 <= j < i ==> (#[trigger] tok[j]) != 61,
        i < tok.len() ==> tok[i] == 61,
    ensures
        spec_key_value(tok).0 == tok.take(i),
        spec_key_value(tok).1 == (if i < tok.len() {
            tok.skip(i + 1)
        } else {
            Seq::<u8>::empty()
        }),
    decreases i,
{
    if i == 0 {
        if tok.len() == 0 {
            assert(spec_key_value(tok).0 =~= tok.take(0));
            assert(spec_key_value(tok).1 =~= Seq::<u8>::empty());
        } else {
            assert(tok[0] == 61);
            assert(spec_key_value(tok).0 =~= tok.take(0));
        }
    } else {
        assert(tok[0] != 61);
        let rest = tok.skip(1);
        assert(forall|j: int| 0 <= j < i - 1 ==> (#[trigger] rest[j]) == tok[j + 1] && rest[j]
            != 61);
        assert(i - 1 < rest.len() ==> rest[i - 1] == 61);
        lemma_key_value_at(rest, i - 1);
        assert(spec_key_value(tok).0 =~= tok.take(i));
        if i < tok.len() {
            assert(rest.skip(i) =~= tok.skip(i + 1));
        }
    }
}

/// The position of the first `&` of `s`; the length of `s` if there is none.
pub open spec fn spec_first_sep(s: Seq<u8>) -> nat
    decreases s.len(),
{
    if s.len() == 0 {
        0
    } else if s[0] == 38 {
        0
    } else {
        1 + spec_first_sep(s.skip(1))
    }
}

/// Where the first `i` bytes of `s` are not `&`, and the byte at `i` is one
/// unless `i` is the length, `i` is the first separator position.
proof fn lemma_first_sep_at(s: Seq<u8>, i: int)
    requires
        0 <= i <= s.len(),
        forall|j: int| 0 <= j < i ==> (#[trigger] s[j]) != 38,
        i < s.len() ==> s[i] == 38,
    ensures
        spec_first_sep(s) == i,
    decreases i,
{
    if i == 0 {
    } else {
        assert(s[0] != 38);
        let rest = s.skip(1);
        assert(forall|j: int| 0 <= j < i - 1 ==> (#[trigger] rest[j]) == s[j + 1] && rest[j]
            != 38);
        assert(i - 1 < rest.len() ==> rest[i - 1] == 38);
        lemma_first_sep_at(rest, i - 1);
    }
}

/// One decoded key-value pair.
pub open spec fn spec_pair_of(tok: Seq<u8>) -> (Seq<u8>, Seq<u8>) {
    (spec_form_decode(spec_key_value(tok).0), spec_form_decode(spec_key_value(tok).1))
}

/// The decoded key-value pairs of a form-encoded body: tokens split on `&`,
/// each split at its first `=`, each half decoded.
pub open spec fn spec_form_pairs(body: Seq<u8>) -> Seq<(Seq<u8>, Seq<u8>)>
    decreases body.len(),
{
    let i = spec_first_sep(body);
    if i >= body.len() {
        seq![spec_pair_of(body)]
    } else {
        seq![spec_pair_of(body.take(i as int))] + spec_form_pairs(body.skip(i as int + 1))
    }
}

/// Parses a form-encoded body into its decoded key-value pairs, in order.
pub fn parse_form(body: &[u8]) -> (r: Vec<(Vec<u8>, Vec<u8>)>)
    ensures
        r@.map_values(|p: (Vec<u8>, Vec<u8>)| (p.0@, p.1@)) == spec_form_pairs(body@),
{
    let mut out: Vec<(Vec<u8>, Vec<u8>)> = Vec::new();
    let mut start: usize = 0;
    proof {
        assert(body@.skip(0) =~= body@);
        assert(out@.map_values(|p: (Vec<u8>, Vec<u8>)| (p.0@, p.1@)) + spec_form_pairs(body@)
            =~= spec_form_pairs(body@));
    }
    loop
        invariant
            start <= body@.len(),
            spec_form_pairs(body@) == out@.map_values(
                |p: (Vec<u8>, Vec<u8>)| (p.0@, p.1@),
            ) + spec_form_pairs(body@.skip(start as int)),
        decreases body@.len() - start,
    {
        let ghost tail = body@.skip(start as int);
        // find the next separator
        let mut i: usize = start;
        while i < body.len() && body[i] != 38
            invariant
                start <= i <= body@.len(),
                forall|j: int| start <= j < i ==> (#[trigger] body@[j]) != 38,
            decreases body@.len() - i,
        {
            i = i + 1;
        }
        proof {
            assert(forall|j: int| 0 <= j < i - start ==> (#[trigger] tail[j]) == body@[j + start]
                && tail[j] != 38);
            if i < body@.len() {
                assert(tail[i - start] == body@[i as int]);
            }
            lemma_first_sep_at(tail, i - start as int);
        }
        let token = vstd::slice::slice_subrange(body, start, i);
        let pair = key_value(token);
        let decoded = (form_decode(pair.0.as_slice()), form_decode(pair.1.as_slice()));
        let ghost old_view = out@.map_values(|p: (Vec<u8>, Vec<u8>)| (p.0@, p.1@));
        out.push(decoded);
        proof {
            assert(out@.map_values(|p: (Vec<u8>, Vec<u8>)| (p.0@, p.1@)) =~= old_view.push(
                (decoded.0@, decoded.1@),
            ));
        }
        if i < body.len() {
            proof {
                assert(tail.take(i - start as int) =~= token@);
                assert(tail.skip(i - start + 1) =~= body@.skip(i as int + 1));
                assert(spec_form_pairs(tail) =~= seq![spec_pair_of(token@)] + spec_form_pairs(
                    body@.skip(i as int + 1),
                ));
                assert(old_view.push((decoded.0@, decoded.1@)) + spec_form_pairs(
                    body@.skip(i as int + 1),
                ) =~= spec_form_pairs(body@));
            }
            start = i + 1;
        } else {
            proof {
                assert(tail =~= token@);
                assert(spec_form_pairs(tail) =~= seq![spec_pair_of(token@)]);
                assert(old_view.push((decoded.0@, decoded.1@)) =~= spec_form_pairs(body@));
            }
            return out;
        }
    }
}

/// The first value carried under `name`, if the body carries one.
pub fn get_param(pairs: &Vec<(Vec<u8>, Vec<u8>)>, name: &[u8]) -> (r: Option<Vec<u8>>)
    ensures
        ({
            let views = pairs@.map_values(|p: (Vec<u8>, Vec<u8>)| (p.0@, p.1@));
            match r {
                Some(v) => exists|k: int|
                    {
                        &&& 0 <= k < views.len()
                        &&& (#[trigger] views[k]).0 == name@
                        &&& views[k].1 == v@
                        &&& forall|j: int| 0 <= j < k ==> (#[trigger] views[j]).0 != name@
                    },
                None => forall|k: int| 0 <= k < views.len() ==> (#[trigger] views[k]).0 != name@,
            }
        }),
{
    let ghost views = pairs@.map_values(|p: (Vec<u8>, Vec<u8>)| (p.0@, p.1@));
    let mut k: usize = 0;
    while k < pairs.len()
        invariant
            k <= pairs@.len(),
            views == pairs@.map_values(|p: (Vec<u8>, Vec<u8>)| (p.0@, p.1@)),
            forall|j: int| 0 <= j < k ==> (#[trigger] views[j]).0 != name@,
        decreases pairs@.len() - k,
    {
        if bytes_eq(pairs[k].0.as_slice(), name) {
            let v = vstd::slice::slice_to_vec(pairs[k].1.as_slice());
            proof {
                assert(views[k as int].0 == name@ && views[k as int].1 == v@);
            }
            return Some(v);
        }
        k = k + 1;
    }
    None
}

fn bytes_eq(a: &[u8], b: &[u8]) -> (r: bool)
    ensures
        r == (a@ == b@),
{
    if a.len() != b.len() {
        return false;
    }
    let mut i: usize = 0;
    while i < a.len()
        invariant
            a@.len() == b@.len(),
            i <= a@.len(),
            forall|j: int| 0 <= j < i ==> (#[trigger] a@[j]) == b@[j],
        decreases a@.len() - i,
    {
        if a[i] != b[i] {
            return false;
        }
        i = i + 1;
    }
    proof {
        assert(a@ =~= b@);
    }
    true
}

} // verus!
