//! JSON at the trust boundary. Parsing and re-encoding of whole documents is
//! the JSON codec's job and stays behind trusted wrappers around `serde_json`;
//! the string escaping used when this library builds a JSON body itself is
//! verified here.

use vstd::prelude::*;

verus! {

/// What `serde_json::from_slice::<Value>` followed by `serde_json::to_vec`
/// yields on a byte string: the canonical re-encoding of the JSON document it
/// holds, or nothing when the bytes are not JSON.
pub uninterp spec fn json_canon(b: Seq<u8>) -> Option<Seq<u8>>;

/// What extracting the `data` field of a JSON document and re-encoding that
/// field yields: nothing when the bytes are not JSON or carry no `data`
/// field.
pub uninterp spec fn json_data_field(b: Seq<u8>) -> Option<Seq<u8>>;

/// What reading an attestation request body yields: its optional `nonce` and
/// `challenge` strings; nothing when the bytes are not a JSON object or a
/// present field is neither a string nor null.
pub uninterp spec fn attestation_fields(b: Seq<u8>) -> Option<(Option<Seq<char>>, Option<Seq<char>>)>;

/// Relies on `serde_json::from_slice::<Value>` and `serde_json::to_vec`:
/// parsing succeeds exactly on the byte strings that are JSON, and both
/// results depend on the bytes alone.
#[verifier::external_body]
pub(crate) fn json_canonicalize(b: &Vec<u8>) -> (r: Option<Vec<u8>>)
    ensures
        match r {
            Some(v) => json_canon(b@) == Some(v@),
            None => json_canon(b@) is None,
        },
{
    match serde_json::from_slice::<serde_json::Value>(b) {
        Ok(value) => match serde_json::to_vec(&value) {
            Ok(v) => Some(v),
            Err(_) => None,
        },
        Err(_) => None,
    }
}

/// Relies on `serde_json::from_slice::<Value>`, `Value::get` and
/// `serde_json::to_vec`: the `data` field of a JSON document, re-encoded,
/// depends on the bytes alone.
#[verifier::external_body]
pub(crate) fn extract_data_field(b: &Vec<u8>) -> (r: Option<Vec<u8>>)
    ensures
        match r {
            Some(v) => json_data_field(b@) == Some(v@),
            None => json_data_field(b@) is None,
        },
{
    let value: serde_json::Value = match serde_json::from_slice(b) {
        Ok(v) => v,
        Err(_) => return None,
    };
    match value.get("data") {
        Some(data) => match serde_json::to_vec(data) {
            Ok(v) => Some(v),
            Err(_) => None,
        },
        None => None,
    }
}

/// Relies on `serde_json::from_slice::<Value>` and `Value::get`: the `nonce`
/// and `challenge` fields of a JSON object depend on the bytes alone. A
/// missing or null field is `None`; a field of any other non-string shape
/// rejects the body.
#[verifier::external_body]
pub(crate) fn parse_attestation_fields(b: &Vec<u8>) -> (r: Option<(Option<String>, Option<String>)>)
    ensures
        match r {
            Some(f) => attestation_fields(b@) == Some((f.0.deep_view(), f.1.deep_view())),
            None => attestation_fields(b@) is None,
        },
{
    let value: serde_json::Value = serde_json::from_slice(b).ok()?;
    if !value.is_object() {
        return None;
    }
    let field = |key: &str| match value.get(key) {
        None | Some(serde_json::Value::Null) => Some(None),
        Some(serde_json::Value::String(s)) => Some(Some(s.clone())),
        Some(_) => None,
    };
    Some((field("nonce")?, field("challenge")?))
}

/// The hex digit for a value below sixteen, lower case.
pub open spec fn hex_digit(n: u8) -> u8 {
    if n < 10 {
        (48 + n) as u8
    } else {
        (87 + n) as u8
    }
}

/// How one byte appears inside a JSON string: quote and backslash get a
/// backslash escape, the named control bytes their short escapes, the rest of
/// the control range the `\u00XX` form, and every other byte stands as is.
pub open spec fn json_escape_byte(b: u8) -> Seq<u8> {
    if b == 34 {
        seq![92u8, 34u8]
    } else if b == 92 {
        seq![92u8, 92u8]
    } else if b == 8 {
        seq![92u8, 98u8]
    } else if b == 9 {
        seq![92u8, 116u8]
    } else if b == 10 {
        seq![92u8, 110u8]
    } else if b == 12 {
        seq![92u8, 102u8]
    } else if b == 13 {
        seq![92u8, 114u8]
    } else if b < 32 {
        seq![92u8, 117u8, 48u8, 48u8, hex_digit(b / 16), hex_digit(b % 16)]
    } else {
        seq![b]
    }
}

/// A byte string escaped for inclusion inside a JSON string literal.
pub open spec fn json_escape(s: Seq<u8>) -> Seq<u8>
    decreases s.len(),
{
    if s.len() == 0 {
        Seq::empty()
    } else {
        json_escape(s.drop_last()) + json_escape_byte(s.last())
    }
}

/// A byte string that JSON escaping leaves alone: no quote, no backslash, no
/// control byte. UUIDs and hostnames are such strings.
pub open spec fn plain_json_bytes(s: Seq<u8>) -> bool {
    forall|i: int| 0 <= i < s.len() ==> (#[trigger] s[i]) != 34 && s[i] != 92 && s[i] >= 32
}

/// Escaping is the identity on plain byte strings.
pub proof fn lemma_escape_identity(s: Seq<u8>)
    requires
        plain_json_bytes(s),
    ensures
        json_escape(s) == s,
    decreases s.len(),
{
    if s.len() > 0 {
        assert(plain_json_bytes(s.drop_last()));
        lemma_escape_identity(s.drop_last());
        assert(json_escape(s) =~= s);
    } else {
        assert(json_escape(s) =~= s);
    }
}

/// Escape a byte string for inclusion inside a JSON string literal.
pub fn escape_json_bytes(s: &[u8]) -> (out: Vec<u8>)
    ensures
        out@ == json_escape(s@),
{
    let mut out: Vec<u8> = Vec::new();
    proof {
        assert(s@.take(0) =~= Seq::<u8>::empty());
    }
    let mut i: usize = 0;
    while i < s.len()
        invariant
            i <= s@.len(),
            out@ == json_escape(s@.take(i as int)),
        decreases s@.len() - i,
    {
        proof {
            assert(s@.take(i + 1).drop_last() =~= s@.take(i as int));
            assert(s@.take(i + 1).last() == s@[i as int]);
        }
        let b = s[i];
        if b == 34 {
            out.push(92);
            out.push(34);
        } else if b == 92 {
            out.push(92);
            out.push(92);
        } else if b == 8 {
            out.push(92);
            out.push(98);
        } else if b == 9 {
            out.push(92);
            out.push(116);
        } else if b == 10 {
            out.push(92);
            out.push(110);
        } else if b == 12 {
            out.push(92);
            out.push(102);
        } else if b == 13 {
            out.push(92);
            out.push(114);
        } else if b < 32 {
            out.push(92);
            out.push(117);
            out.push(48);
            out.push(48);
            let hi = b / 16;
            let lo = b % 16;
            out.push(if hi < 10 { 48 + hi } else { 87 + hi });
            out.push(if lo < 10 { 48 + lo } else { 87 + lo });
        } else {
            out.push(b);
        }
        proof {
            assert(out@ =~= json_escape(s@.take(i + 1)));
        }
        i += 1;
    }
    proof {
        assert(s@.take(s@.len() as int) =~= s@);
    }
    out
}

} // verus!
