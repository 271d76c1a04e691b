//! The OAuth callback fragment: after the provider redirects back,
//! the location hash carries `key=value` parameters holding the
//! session's token pair. This module parses that grammar: segments
//! split on `&`, each split at its first `=`, keys and values
//! percent-decoded (ASCII escapes, `+` as space), the last
//! occurrence of a key winning.

use vstd::prelude::*;

use crate::text::{find_char, str_eq};

verus! {

/// A hexadecimal digit.
pub open spec fn spec_is_hex(c: char) -> bool {
    ('0' as int <= c as int && c as int <= '9' as int) || ('a' as int <= c as int && c as int
        <= 'f' as int) || ('A' as int <= c as int && c as int <= 'F' as int)
}

/// Its value.
pub open spec fn spec_hex_val(c: char) -> int {
    if '0' as int <= c as int && c as int <= '9' as int {
        c as int - '0' as int
    } else if 'a' as int <= c as int && c as int <= 'f' as int {
        c as int - 'a' as int + 10
    } else {
        c as int - 'A' as int + 10
    }
}

fn is_hex(c: char) -> (r: bool)
    ensures
        r == spec_is_hex(c),
{
    let v = c as u32;
    (48 <= v && v <= 57) || (97 <= v && v <= 102) || (65 <= v && v <= 70)
}

fn hex_val(c: char) -> (v: u8)
    requires
        spec_is_hex(c),
    ensures
        v as int == spec_hex_val(c),
        v <= 15,
{
    let u = c as u32;
    if 48 <= u && u <= 57 {
        (u - 48) as u8
    } else if 97 <= u && u <= 102 {
        (u - 97 + 10) as u8
    } else {
        (u - 65 + 10) as u8
    }
}

/// Percent-decoding over characters: `%XX` becomes the ASCII
/// character it names, `+` becomes a space, everything else stands
/// for itself. A truncated or non-hexadecimal escape, or one naming
/// a byte beyond ASCII, fails the decode.
pub open spec fn spec_pct_decode(s: Seq<char>) -> Option<Seq<char>>
    decreases s.len(),
{
    if s.len() == 0 {
        Some(Seq::empty())
    } else if s[0] == '%' {
        if s.len() >= 3 && spec_is_hex(s[1]) && spec_is_hex(s[2]) && 16 * spec_hex_val(s[1])
            + spec_hex_val(s[2]) < 128 {
            match spec_pct_decode(s.skip(3)) {
                Some(rest) => Some(
                    seq![(((16 * spec_hex_val(s[1]) + spec_hex_val(s[2])) as u8) as char)] + rest,
                ),
                None => None,
            }
        } else {
            None
        }
    } else {
        let decoded = if s[0] == '+' {
            ' '
        } else {
            s[0]
        };
        match spec_pct_decode(s.skip(1)) {
            Some(rest) => Some(seq![decoded] + rest),
            None => None,
        }
    }
}

/// Relies on `String::push` appending one character.
#[verifier::external_body]
fn push_char(s: &mut String, c: char)
    ensures
        final(s)@ == old(s)@ + seq![c],
{
    s.push(c);
}

fn decode_from(s: &str, i: usize) -> (r: Option<String>)
    requires
        i <= s@.len(),
    ensures
        match r {
            Some(out) => spec_pct_decode(s@.skip(i as int)) == Some(out@),
            None => spec_pct_decode(s@.skip(i as int)) is None,
        },
    decreases s@.len() - i,
{
    let len = s.unicode_len();
    if i == len {
        proof {
            assert(s@.skip(i as int) =~= Seq::<char>::empty());
        }
        return Some(String::new());
    }
    let c = s.get_char(i);
    proof {
        assert(s@.skip(i as int)[0] == s@[i as int]);
    }
    if c == '%' {
        if len - i >= 3 {
            let h1 = s.get_char(i + 1);
            let h2 = s.get_char(i + 2);
            proof {
                assert(s@.skip(i as int)[1] == s@[i as int + 1]);
                assert(s@.skip(i as int)[2] == s@[i as int + 2]);
            }
            if is_hex(h1) && is_hex(h2) {
                let v: u8 = 16 * hex_val(h1) + hex_val(h2);
                if v < 128 {
                    proof {
                        assert(s@.skip(i as int).skip(3) =~= s@.skip(i as int + 3));
                    }
                    match decode_from(s, i + 3) {
                        Some(rest) => {
                            let mut out = String::new();
                            push_char(&mut out, v as char);
                            out.append(rest.as_str());
                            proof {
                                assert(out@ =~= seq![(v as char)] + rest@);
                            }
                            Some(out)
                        },
                        None => None,
                    }
                } else {
                    None
                }
            } else {
                None
            }
        } else {
            None
        }
    } else {
        let decoded = if c == '+' {
            ' '
        } else {
            c
        };
        proof {
            assert(s@.skip(i as int).skip(1) =~= s@.skip(i as int + 1));
        }
        match decode_from(s, i + 1) {
            Some(rest) => {
                let mut out = String::new();
                push_char(&mut out, decoded);
                out.append(rest.as_str());
                proof {
                    assert(out@ =~= seq![decoded] + rest@);
                }
                Some(out)
            },
            None => None,
        }
    }
}

/// Percent-decode a string.
pub fn pct_decode(s: &str) -> (r: Option<String>)
    ensures
        match r {
            Some(out) => spec_pct_decode(s@) == Some(out@),
            None => spec_pct_decode(s@) is None,
        },
{
    proof {
        assert(s@.skip(0) =~= s@);
    }
    decode_from(s, 0)
}

/// A segment split at its first `=`: the part before it and the
/// part after it. A segment without one is all key, with an empty
/// value.
pub open spec fn spec_split_eq(seg: Seq<char>) -> (Seq<char>, Seq<char>)
    decreases seg.len(),
{
    if seg.len() == 0 {
        (Seq::empty(), Seq::empty())
    } else if seg[0] == '=' {
        (Seq::empty(), seg.skip(1))
    } else {
        let rest = spec_split_eq(seg.skip(1));
        (seq![seg[0]] + rest.0, rest.1)
    }
}

proof fn lemma_split_eq_no_sep(seg: Seq<char>)
    requires
        forall|k: int| 0 <= k < seg.len() ==> seg[k] != '=',
    ensures
        spec_split_eq(seg).0 =~= seg,
        spec_split_eq(seg).1 =~= Seq::<char>::empty(),
    decreases seg.len(),
{
    if seg.len() > 0 {
        lemma_split_eq_no_sep(seg.skip(1));
        assert(seq![seg[0]] + seg.skip(1) =~= seg);
    }
}

proof fn lemma_split_eq_at(seg: Seq<char>, j: int)
    requires
        0 <= j < seg.len(),
        seg[j] == '=',
        forall|k: int| 0 <= k < j ==> seg[k] != '=',
    ensures
        spec_split_eq(seg).0 =~= seg.take(j),
        spec_split_eq(seg).1 =~= seg.skip(j + 1),
    decreases j,
{
    if j == 0 {
        assert(seg.take(0) =~= Seq::<char>::empty());
    } else {
        assert(forall|k: int| 0 <= k < j - 1 ==> seg.skip(1)[k] == seg[k + 1]);
        lemma_split_eq_at(seg.skip(1), j - 1);
        assert(seq![seg[0]] + seg.skip(1).take(j - 1) =~= seg.take(j));
        assert(seg.skip(1).skip(j) =~= seg.skip(j + 1));
    }
}

/// Split a segment at its first `=`.
fn split_eq(seg: &str) -> (r: (String, String))
    ensures
        r.0@ == spec_split_eq(seg@).0,
        r.1@ == spec_split_eq(seg@).1,
{
    match find_char(seg, '=') {
        None => {
            proof {
                lemma_split_eq_no_sep(seg@);
            }
            (String::from_str(seg), String::new())
        },
        Some(j) => {
            let len = seg.unicode_len();
            let key_part = seg.substring_char(0, j);
            let value_part = seg.substring_char(j + 1, len);
            proof {
                lemma_split_eq_at(seg@, j as int);
                assert(key_part@ =~= seg@.take(j as int));
                assert(value_part@ =~= seg@.skip(j as int + 1));
            }
            (String::from_str(key_part), String::from_str(value_part))
        },
    }
}

/// A string split on `&` into segments; the empty string yields one
/// empty segment.
pub open spec fn spec_segments(s: Seq<char>) -> Seq<Seq<char>>
    decreases s.len(),
{
    if s.len() == 0 {
        seq![Seq::<char>::empty()]
    } else if s[0] == '&' {
        seq![Seq::<char>::empty()] + spec_segments(s.skip(1))
    } else {
        let rest = spec_segments(s.skip(1));
        seq![seq![s[0]] + rest[0]] + rest.skip(1)
    }
}

proof fn lemma_segments_len(s: Seq<char>)
    ensures
        spec_segments(s).len() >= 1,
    decreases s.len(),
{
    if s.len() > 0 {
        lemma_segments_len(s.skip(1));
    }
}

proof fn lemma_segments_no_sep(s: Seq<char>)
    requires
        forall|k: int| 0 <= k < s.len() ==> s[k] != '&',
    ensures
        spec_segments(s) =~~= seq![s],
    decreases s.len(),
{
    if s.len() == 0 {
        assert(s =~= Seq::<char>::empty());
    } else {
        assert(forall|k: int| 0 <= k < s.skip(1).len() ==> s.skip(1)[k] == s[k + 1]);
        lemma_segments_no_sep(s.skip(1));
        assert(seq![s[0]] + s.skip(1) =~= s);
        assert(seq![s.skip(1)].skip(1) =~~= Seq::<Seq<char>>::empty());
    }
}

proof fn lemma_segments_split_at(s: Seq<char>, j: int)
    requires
        0 <= j < s.len(),
        s[j] == '&',
        forall|k: int| 0 <= k < j ==> s[k] != '&',
    ensures
        spec_segments(s) =~~= seq![s.take(j)] + spec_segments(s.skip(j + 1)),
    decreases j,
{
    if j == 0 {
        assert(s.take(0) =~= Seq::<char>::empty());
        assert(s.skip(1) =~= s.skip(0int + 1));
    } else {
        assert(forall|k: int| 0 <= k < j - 1 ==> s.skip(1)[k] == s[k + 1]);
        lemma_segments_split_at(s.skip(1), j - 1);
        lemma_segments_len(s.skip(1).skip(j));
        assert(seq![s[0]] + s.skip(1).take(j - 1) =~= s.take(j));
        assert(s.skip(1).skip(j) =~= s.skip(j + 1));
    }
}

/// Split a string on `&`.
fn split_segments(s: &str) -> (r: Vec<String>)
    ensures
        r.deep_view() =~~= spec_segments(s@),
    decreases s@.len(),
{
    match find_char(s, '&') {
        None => {
            proof {
                lemma_segments_no_sep(s@);
            }
            let mut r: Vec<String> = Vec::new();
            r.push(String::from_str(s));
            proof {
                assert(r.deep_view() =~~= seq![s@]);
            }
            r
        },
        Some(j) => {
            let len = s.unicode_len();
            let head = s.substring_char(0, j);
            let tail = s.substring_char(j + 1, len);
            let mut rest = split_segments(tail);
            let ghost rest_dv: Seq<Seq<char>> = rest.deep_view();
            rest.insert(0, String::from_str(head));
            proof {
                lemma_segments_split_at(s@, j as int);
                assert(head@ =~= s@.take(j as int));
                assert(tail@ =~= s@.skip(j as int + 1));
                assert(rest.deep_view() =~~= seq![s@.take(j as int)] + rest_dv);
            }
            rest
        },
    }
}

/// What one segment contributes: its key and value, both decoded;
/// nothing when a decode fails.
pub open spec fn spec_pair_of_segment(seg: Seq<char>) -> Option<(Seq<char>, Seq<char>)> {
    match (spec_pct_decode(spec_split_eq(seg).0), spec_pct_decode(spec_split_eq(seg).1)) {
        (Some(k), Some(v)) => Some((k, v)),
        _ => None,
    }
}

fn pair_of_segment(seg: &str) -> (r: Option<(String, String)>)
    ensures
        match r {
            Some(p) => spec_pair_of_segment(seg@) == Some((p.0@, p.1@)),
            None => spec_pair_of_segment(seg@) is None,
        },
{
    let (raw_key, raw_value) = split_eq(seg);
    let key = match pct_decode(raw_key.as_str()) {
        Some(k) => k,
        None => {
            return None;
        },
    };
    let value = match pct_decode(raw_value.as_str()) {
        Some(v) => v,
        None => {
            return None;
        },
    };
    Some((key, value))
}

/// What all segments contribute, in order; nothing when any decode
/// fails.
pub open spec fn spec_pairs_of(segs: Seq<Seq<char>>) -> Option<Seq<(Seq<char>, Seq<char>)>>
    decreases segs.len(),
{
    if segs.len() == 0 {
        Some(Seq::empty())
    } else {
        match (spec_pairs_of(segs.drop_last()), spec_pair_of_segment(segs.last())) {
            (Some(ps), Some(p)) => Some(ps.push(p)),
            _ => None,
        }
    }
}

proof fn lemma_segment_failure_fails_all(segs: Seq<Seq<char>>, i: int)
    requires
        0 <= i < segs.len(),
        spec_pair_of_segment(segs[i]) is None,
    ensures
        spec_pairs_of(segs) is None,
    decreases segs.len(),
{
    if i == segs.len() - 1 {
        assert(segs.last() == segs[i]);
    } else {
        assert(segs.drop_last()[i] == segs[i]);
        lemma_segment_failure_fails_all(segs.drop_last(), i);
    }
}

#[verifier::loop_isolation(false)]
fn pairs_of(segs: &Vec<String>) -> (r: Option<Vec<(String, String)>>)
    ensures
        match r {
            Some(ps) => spec_pairs_of(segs.deep_view()) == Some(ps.deep_view()),
            None => spec_pairs_of(segs.deep_view()) is None,
        },
{
    let mut ps: Vec<(String, String)> = Vec::new();
    let mut i: usize = 0;
    proof {
        assert(segs.deep_view().take(0) =~~= Seq::<Seq<char>>::empty());
        assert(ps.deep_view() =~~= Seq::<(Seq<char>, Seq<char>)>::empty());
    }
    while i < segs.len()
        invariant
            i <= segs@.len(),
            spec_pairs_of(segs.deep_view().take(i as int)) == Some(ps.deep_view()),
        decreases segs@.len() - i,
    {
        proof {
            assert(segs.deep_view()[i as int] == segs@[i as int]@);
        }
        match pair_of_segment(segs[i].as_str()) {
            Some(p) => {
                let ghost prev: Seq<(Seq<char>, Seq<char>)> = ps.deep_view();
                let ghost pv: (Seq<char>, Seq<char>) = (p.0@, p.1@);
                ps.push(p);
                proof {
                    assert(ps.deep_view() =~~= prev.push(pv));
                    assert(segs.deep_view().take(i as int + 1).drop_last() =~~= segs.deep_view()
                        .take(i as int));
                    assert(segs.deep_view().take(i as int + 1).last() == segs.deep_view()[
                        i as int]);
                }
            },
            None => {
                proof {
                    lemma_segment_failure_fails_all(segs.deep_view(), i as int);
                }
                return None;
            },
        }
        i += 1;
    }
    proof {
        assert(segs.deep_view().take(segs.deep_view().len() as int) =~~= segs.deep_view());
    }
    Some(ps)
}

/// The value of the last occurrence of a key, as a map built by
/// insertions would hold it.
pub open spec fn spec_lookup_last(ps: Seq<(Seq<char>, Seq<char>)>, key: Seq<char>) -> Option<
    Seq<char>,
>
    decreases ps.len(),
{
    if ps.len() == 0 {
        None
    } else if ps.last().0 == key {
        Some(ps.last().1)
    } else {
        spec_lookup_last(ps.drop_last(), key)
    }
}

#[verifier::loop_isolation(false)]
fn lookup_last(ps: &Vec<(String, String)>, key: &str) -> (r: Option<String>)
    ensures
        match r {
            Some(v) => spec_lookup_last(ps.deep_view(), key@) == Some(v@),
            None => spec_lookup_last(ps.deep_view(), key@) is None,
        },
{
    let mut j: usize = ps.len();
    proof {
        assert(ps.deep_view().take(j as int) =~~= ps.deep_view());
    }
    while j > 0
        invariant
            j <= ps@.len(),
            spec_lookup_last(ps.deep_view(), key@) == spec_lookup_last(
                ps.deep_view().take(j as int),
                key@,
            ),
        decreases j,
    {
        j -= 1;
        proof {
            assert(ps.deep_view().take(j as int + 1).drop_last() =~~= ps.deep_view().take(
                j as int,
            ));
            assert(ps.deep_view().take(j as int + 1).last() == ps.deep_view()[j as int]);
            assert(ps.deep_view()[j as int] == (ps@[j as int].0@, ps@[j as int].1@));
        }
        if str_eq(ps[j].0.as_str(), key) {
            return Some(ps[j].1.clone());
        }
    }
    proof {
        assert(ps.deep_view().take(0) =~~= Seq::<(Seq<char>, Seq<char>)>::empty());
    }
    None
}

/// The value a callback fragment carries for a key: a leading `#`
/// is ignored, segments are split on `&` and at their first `=`,
/// keys and values are percent-decoded, and the last occurrence
/// wins. Nothing when the key is absent or a decode fails.
pub open spec fn spec_fragment_param(s: Seq<char>, key: Seq<char>) -> Option<Seq<char>> {
    let stripped = if s.len() > 0 && s[0] == '#' {
        s.skip(1)
    } else {
        s
    };
    match spec_pairs_of(spec_segments(stripped)) {
        Some(ps) => spec_lookup_last(ps, key),
        None => None,
    }
}

/// Look one parameter up in a callback fragment.
pub fn fragment_param(fragment: &str, key: &str) -> (r: Option<String>)
    ensures
        match r {
            Some(v) => spec_fragment_param(fragment@, key@) == Some(v@),
            None => spec_fragment_param(fragment@, key@) is None,
        },
{
    let len = fragment.unicode_len();
    let stripped: &str = if len > 0 && fragment.get_char(0) == '#' {
        let rest = fragment.substring_char(1, len);
        proof {
            assert(rest@ =~= fragment@.skip(1));
        }
        rest
    } else {
        fragment
    };
    let segs = split_segments(stripped);
    let pairs = match pairs_of(&segs) {
        Some(ps) => ps,
        None => {
            return None;
        },
    };
    lookup_last(&pairs, key)
}

/// The token pair delivered in the OAuth callback fragment, when
/// both tokens are present: the access token and the refresh token,
/// in that order.
pub fn parse_session_fragment(fragment: &str) -> (r: Option<(String, String)>)
    ensures
        r matches Some(t) ==> (spec_fragment_param(fragment@, "access_token"@) == Some(t.0@)
            && spec_fragment_param(fragment@, "refresh_token"@) == Some(t.1@)),
        r is None ==> (spec_fragment_param(fragment@, "access_token"@) is None
            || spec_fragment_param(fragment@, "refresh_token"@) is None),
{
    let access = match fragment_param(fragment, "access_token") {
        Some(v) => v,
        None => {
            return None;
        },
    };
    let refresh = match fragment_param(fragment, "refresh_token") {
        Some(v) => v,
        None => {
            return None;
        },
    };
    Some((access, refresh))
}

} // verus!
