//! SNI extraction from a captured TLS ClientHello. The record and extension
//! grammars are parsed by the `tls_parser` crate behind trusted wrappers; the
//! selection of the hostname from the parsed entries is verified here. The
//! last SNI entry that is valid UTF-8 wins, mirroring the broker's documented
//! tie-break; an empty result counts as no hostname.

use vstd::prelude::*;
use vstd::slice::slice_to_vec;
use vstd::utf8::valid_utf8;

verus! {

/// What `tls_parser::parse_tls_plaintext` yields on a captured buffer, reduced
/// to what the broker reads: `None` when the buffer does not parse as one TLS
/// plaintext record; `Some(None)` when it parses but its first message is not
/// a ClientHello or the ClientHello carries no extensions block;
/// `Some(Some(ext))` with the raw extensions bytes otherwise.
pub uninterp spec fn client_hello_ext_bytes(data: Seq<u8>) -> Option<Option<Seq<u8>>>;

/// What `tls_parser::parse_tls_extensions` yields on an extensions block:
/// `None` when the block does not parse, otherwise every SNI entry's hostname
/// bytes, in order of appearance across all SNI extensions.
pub uninterp spec fn sni_entries(ext: Seq<u8>) -> Option<Seq<Seq<u8>>>;

/// Relies on `tls_parser::parse_tls_plaintext`: it parses one TLS plaintext
/// record from the front of the buffer, and its result depends on the bytes
/// alone. A leading Handshake/ClientHello message exposes its raw extensions
/// block in the `ext` field; any other leading message yields no hostname.
#[verifier::external_body]
fn parse_client_hello_ext(data: &Vec<u8>) -> (r: Result<Option<Vec<u8>>, String>)
    ensures
        match r {
            Ok(Some(ext)) => client_hello_ext_bytes(data@) == Some(Some(ext@)),
            Ok(None) => client_hello_ext_bytes(data@) == Some(None::<Seq<u8>>),
            Err(_) => client_hello_ext_bytes(data@) is None,
        },
{
    match tls_parser::parse_tls_plaintext(data) {
        Ok((_, record)) => match record.msg.first() {
            Some(tls_parser::TlsMessage::Handshake(
                tls_parser::TlsMessageHandshake::ClientHello(hello),
            )) => match hello.ext {
                Some(ext) => Ok(Some(ext.to_vec())),
                None => Ok(None),
            },
            _ => Ok(None),
        },
        Err(e) => Err(format!("{:?}", e)),
    }
}

/// Relies on `tls_parser::parse_tls_extensions`: it parses the extensions
/// block of a ClientHello, and its result depends on the bytes alone. Each
/// SNI extension carries a list of (name type, hostname bytes) entries; the
/// hostname bytes are handed out in order.
#[verifier::external_body]
fn parse_sni_entries(ext: &Vec<u8>) -> (r: Result<Vec<Vec<u8>>, String>)
    ensures
        match r {
            Ok(entries) => sni_entries(ext@) == Some(entries.deep_view()),
            Err(_) => sni_entries(ext@) is None,
        },
{
    let (_, extensions) = match tls_parser::parse_tls_extensions(ext) {
        Ok(parsed) => parsed,
        Err(e) => return Err(format!("{:?}", e)),
    };
    let mut out: Vec<Vec<u8>> = Vec::new();
    for extension in extensions {
        if let tls_parser::TlsExtension::SNI(list) = extension {
            out.extend(list.iter().map(|(_, name)| name.to_vec()));
        }
    }
    Ok(out)
}

/// Relies on `str::from_utf8`: it accepts exactly the valid UTF-8 byte
/// strings, as `vstd::utf8::valid_utf8` defines them.
#[verifier::external_body]
fn is_utf8(bytes: &Vec<u8>) -> (r: bool)
    ensures
        r == valid_utf8(bytes@),
{
    core::str::from_utf8(bytes.as_slice()).is_ok()
}

/// The hostname the broker extracts from a parsed SNI entry list: the last
/// entry that is valid UTF-8, or empty when there is none.
pub open spec fn last_valid_sni(entries: Seq<Seq<u8>>) -> Seq<u8>
    decreases entries.len(),
{
    if entries.len() == 0 {
        Seq::empty()
    } else if valid_utf8(entries.last()) {
        entries.last()
    } else {
        last_valid_sni(entries.drop_last())
    }
}

/// The outcome of hostname extraction on a captured buffer: `Err` when either
/// parse fails, `Ok(None)` when the record yields no (or an empty) hostname,
/// `Ok(Some(host))` otherwise.
pub open spec fn spec_hostname(data: Seq<u8>) -> Result<Option<Seq<u8>>, ()> {
    match client_hello_ext_bytes(data) {
        None => Err(()),
        Some(None) => Ok(None),
        Some(Some(ext)) => match sni_entries(ext) {
            None => Err(()),
            Some(entries) => {
                let host = last_valid_sni(entries);
                if host.len() == 0 {
                    Ok(None)
                } else {
                    Ok(Some(host))
                }
            },
        },
    }
}

/// Pick the hostname out of the parsed SNI entries: the last valid UTF-8
/// entry wins.
fn select_hostname(entries: &Vec<Vec<u8>>) -> (host: Vec<u8>)
    ensures
        host@ == last_valid_sni(entries.deep_view()),
{
    let mut host: Vec<u8> = Vec::new();
    proof {
        assert(entries.deep_view().take(0) =~= Seq::<Seq<u8>>::empty());
    }
    let mut i: usize = 0;
    while i < entries.len()
        invariant
            i <= entries@.len(),
            host@ == last_valid_sni(entries.deep_view().take(i as int)),
        decreases entries@.len() - i,
    {
        proof {
            assert(entries.deep_view().take(i + 1).last() == entries@[i as int]@);
            assert(entries.deep_view().take(i + 1).drop_last() =~= entries.deep_view().take(
                i as int,
            ));
        }
        if is_utf8(&entries[i]) {
            host = slice_to_vec(entries[i].as_slice());
        }
        i += 1;
    }
    proof {
        assert(entries.deep_view().take(entries@.len() as int) =~= entries.deep_view());
    }
    host
}

/// Extract the SNI hostname from a captured ClientHello buffer. `Ok(None)`
/// stands for "no usable hostname" (not a ClientHello, no extensions, no SNI,
/// or an empty name); the caller rejects the connection in that case.
pub fn extract_sni_hostname(data: &Vec<u8>) -> (r: Result<Option<Vec<u8>>, String>)
    ensures
        match r {
            Ok(Some(host)) => spec_hostname(data@) == Ok::<Option<Seq<u8>>, ()>(Some(host@))
                && host@.len() > 0,
            Ok(None) => spec_hostname(data@) == Ok::<Option<Seq<u8>>, ()>(None),
            Err(_) => spec_hostname(data@) is Err,
        },
{
    let ext = match parse_client_hello_ext(data) {
        Ok(Some(ext)) => ext,
        Ok(None) => {
            return Ok(None);
        },
        Err(e) => {
            return Err(e);
        },
    };
    let entries = match parse_sni_entries(&ext) {
        Ok(entries) => entries,
        Err(e) => {
            return Err(e);
        },
    };
    let host = select_hostname(&entries);
    if host.len() == 0 {
        Ok(None)
    } else {
        Ok(Some(host))
    }
}

} // verus!
