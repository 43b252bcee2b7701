//! Fixed service hostnames and parsing of the egress configuration lists.

use vstd::prelude::*;

verus! {

/// Hostname of the certificate provisioner service.
pub fn get_cert_provisioner_host() -> (host: String)
    ensures
        host@ == "provisioner.cages.internal"@,
{
    "provisioner.cages.internal".to_owned()
}

/// Hostname of the E3 crypto service; every E3 connection is made to this name.
pub fn get_e3_host() -> (host: String)
    ensures
        host@ == "e3.cages-e3.internal"@,
{
    "e3.cages-e3.internal".to_owned()
}

/// The length of the prefix of `s` before its first comma, or `s.len()` when
/// there is none.
pub open spec fn find_comma(s: Seq<u8>) -> int
    decreases s.len(),
{
    if s.len() == 0 {
        0
    } else if s[0] == 44 {
        0
    } else {
        1 + find_comma(s.drop_first())
    }
}

proof fn lemma_find_comma(s: Seq<u8>)
    ensures
        0 <= find_comma(s) <= s.len(),
        forall|j: int| 0 <= j < find_comma(s) ==> s[j] != 44,
        find_comma(s) < s.len() ==> s[find_comma(s)] == 44,
    decreases s.len(),
{
    if s.len() > 0 && s[0] != 44 {
        lemma_find_comma(s.drop_first());
        assert(forall|j: int| 0 <= j < find_comma(s.drop_first()) ==> s.drop_first()[j] != 44);
        assert(forall|j: int| 1 <= j < find_comma(s) ==> s[j] == s.drop_first()[j - 1]);
    }
}

/// `s` split at every comma; an empty input is one empty piece, as splitting
/// a string is everywhere else.
pub open spec fn split_commas(s: Seq<u8>) -> Seq<Seq<u8>>
    decreases s.len(),
{
    let k = find_comma(s);
    if 0 <= k < s.len() {
        seq![s.take(k)] + split_commas(s.skip(k + 1))
    } else {
        seq![s]
    }
}

/// The value of a string of ASCII digits, most significant first.
pub open spec fn digits_value(s: Seq<u8>) -> int
    decreases s.len(),
{
    if s.len() == 0 {
        0
    } else {
        digits_value(s.drop_last()) * 10 + (s.last() - 48)
    }
}

/// A valid port literal: one or more ASCII digits whose value fits a `u16`.
pub open spec fn is_port_literal(s: Seq<u8>) -> bool {
    &&& s.len() > 0
    &&& forall|j: int| 0 <= j < s.len() ==> 48 <= #[trigger] s[j] <= 57
    &&& digits_value(s) <= u16::MAX
}

/// What parsing an `EGRESS_PORTS` value yields: the port of each
/// comma-separated piece, or nothing when any piece is not a valid port
/// literal (the caller treats that as fatal at startup).
pub open spec fn spec_parse_ports(s: Seq<u8>) -> Option<Seq<u16>> {
    let pieces = split_commas(s);
    if forall|i: int| 0 <= i < pieces.len() ==> is_port_literal(#[trigger] pieces[i]) {
        Some(pieces.map_values(|p: Seq<u8>| digits_value(p) as u16))
    } else {
        None
    }
}

/// Find the first comma of `s`, as `find_comma` counts it.
fn scan_comma(s: &[u8]) -> (k: usize)
    ensures
        k == find_comma(s@),
{
    let mut i: usize = 0;
    while i < s.len()
        invariant
            i <= s@.len(),
            forall|j: int| 0 <= j < i ==> s@[j] != 44,
        decreases s@.len() - i,
    {
        if s[i] == 44 {
            proof {
                lemma_find_comma(s@);
            }
            return i;
        }
        i += 1;
    }
    proof {
        lemma_find_comma(s@);
    }
    i
}

/// Parse one piece as a port literal.
fn parse_port(s: &[u8]) -> (r: Option<u16>)
    ensures
        match r {
            Some(port) => is_port_literal(s@) && port == digits_value(s@),
            None => !is_port_literal(s@),
        },
{
    if s.len() == 0 {
        return None;
    }
    let mut value: u32 = 0;
    let mut too_big = false;
    let mut i: usize = 0;
    while i < s.len()
        invariant
            i <= s@.len(),
            forall|j: int| 0 <= j < i ==> 48 <= #[trigger] s@[j] <= 57,
            !too_big ==> value == digits_value(s@.take(i as int)) && value <= u16::MAX,
            too_big ==> digits_value(s@.take(i as int)) > u16::MAX,
        decreases s@.len() - i,
    {
        let b = s[i];
        if b < 48 || b > 57 {
            return None;
        }
        proof {
            assert(s@.take(i + 1).drop_last() =~= s@.take(i as int));
            assert(s@.take(i + 1).last() == s@[i as int]);
        }
        if too_big {
            proof {
                assert(digits_value(s@.take(i + 1)) > u16::MAX);
            }
        } else {
            let next = value * 10 + (b - 48) as u32;
            if next > 65535 {
                too_big = true;
            } else {
                value = next;
            }
        }
        i += 1;
    }
    proof {
        assert(s@.take(s@.len() as int) =~= s@);
    }
    if too_big {
        None
    } else {
        Some(value as u16)
    }
}

/// Parse the comma-separated `EGRESS_PORTS` value into the list of allowed
/// egress destination ports. `None` on any non-numeric or out-of-range piece
/// (including the empty string): the caller treats that as fatal at startup.
pub fn parse_egress_ports(input: &[u8]) -> (r: Option<Vec<u16>>)
    ensures
        match r {
            Some(ports) => spec_parse_ports(input@) == Some(ports@),
            None => spec_parse_ports(input@) is None,
        },
    decreases input@.len(),
{
    let k = scan_comma(input);
    proof {
        lemma_find_comma(input@);
    }
    let piece = vstd::slice::slice_subrange(input, 0, k);
    if k == input.len() {
        proof {
            assert(input@.take(k as int) =~= input@);
            assert(split_commas(input@) =~= seq![input@]);
        }
        match parse_port(piece) {
            Some(port) => {
                let mut out: Vec<u16> = Vec::new();
                out.push(port);
                proof {
                    assert(split_commas(input@)[0] == input@);
                    assert(out@ =~= split_commas(input@).map_values(
                        |p: Seq<u8>| digits_value(p) as u16,
                    ));
                }
                Some(out)
            },
            None => {
                proof {
                    assert(split_commas(input@)[0] == input@);
                }
                None
            },
        }
    } else {
        let ghost pieces = split_commas(input@);
        let ghost sub_pieces = split_commas(input@.skip(k + 1));
        proof {
            assert(pieces =~= seq![input@.take(k as int)] + sub_pieces);
        }
        match parse_port(piece) {
            Some(port) => {
                let rest = vstd::slice::slice_subrange(input, k + 1, input.len());
                match parse_egress_ports(rest) {
                    Some(mut ports) => {
                        let mut out: Vec<u16> = Vec::new();
                        out.push(port);
                        out.append(&mut ports);
                        proof {
                            assert(forall|i: int|
                                0 <= i < pieces.len() ==> is_port_literal(#[trigger] pieces[i]))
                                by {
                                assert(forall|i: int|
                                    1 <= i < pieces.len() ==> pieces[i] == sub_pieces[i - 1]);
                            }
                            assert(out@ =~= pieces.map_values(|p: Seq<u8>| digits_value(p) as u16));
                        }
                        Some(out)
                    },
                    None => {
                        proof {
                            let j = choose|j: int|
                                0 <= j < sub_pieces.len() && !is_port_literal(
                                    #[trigger] sub_pieces[j],
                                );
                            assert(pieces[j + 1] == sub_pieces[j]);
                        }
                        None
                    },
                }
            },
            None => {
                proof {
                    assert(pieces[0] == input@.take(k as int));
                }
                None
            },
        }
    }
}

/// Split the comma-separated `EGRESS_ALLOW_LIST` value into the allowed
/// egress hostnames. An empty value yields one empty name, which matches
/// nothing: empty means no egress is permitted.
pub fn parse_egress_allow_list(input: &[u8]) -> (r: Vec<Vec<u8>>)
    ensures
        r.deep_view() == split_commas(input@),
    decreases input@.len(),
{
    let k = scan_comma(input);
    proof {
        lemma_find_comma(input@);
    }
    let piece = vstd::slice::slice_to_vec(vstd::slice::slice_subrange(input, 0, k));
    if k == input.len() {
        let mut out: Vec<Vec<u8>> = Vec::new();
        proof {
            assert(input@.take(k as int) =~= input@);
        }
        out.push(piece);
        proof {
            assert(out@[0].deep_view() =~= input@);
            assert(out.deep_view() =~= split_commas(input@));
        }
        out
    } else {
        let rest = vstd::slice::slice_subrange(input, k + 1, input.len());
        let mut tail = parse_egress_allow_list(rest);
        let ghost tail_view = tail.deep_view();
        let mut out: Vec<Vec<u8>> = Vec::new();
        out.push(piece);
        out.append(&mut tail);
        proof {
            assert(out@[0].deep_view() =~= input@.take(k as int));
            assert(forall|i: int|
                1 <= i < out@.len() ==> (#[trigger] out.deep_view()[i]) == tail_view[i - 1]);
            assert(out.deep_view() =~= split_commas(input@));
        }
        out
    }
}

} // verus!
