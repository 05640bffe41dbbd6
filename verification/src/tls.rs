//! TLS settings: whether TLS is asked for, and which protocol versions the
//! `TLS_VERSIONS` setting names.

use vstd::prelude::*;
use crate::config::is_internal_log;
use crate::error::ApiError;
use crate::text::text_equals;
use crate::text::{trim, trim_text};

verus! {

/// A TLS protocol version the server can offer.
#[derive(Debug, Clone, Copy, PartialEq, Eq, Structural)]
pub enum TlsVersion {
    Tls12,
    Tls13,
}

/// A protocol version named by the older `SSL_PROTOCOL_MIN_VERSION` and
/// `SSL_PROTOCOL_MAX_VERSION` settings.
#[derive(Debug, Clone, Copy, PartialEq, Eq, Structural)]
pub enum SslProtocol {
    Ssl3,
    Tls1,
    Tls1_1,
    Tls1_2,
    Tls1_3,
}

/// The versions offered when `TLS_VERSIONS` is unset.
pub const DEFAULT_TLS_VERSIONS: &'static str = "TLS13,TLS12";

/// What `str::to_lowercase` makes of `s`.
pub uninterp spec fn lowercase(s: Seq<char>) -> Seq<char>;

/// `str::to_lowercase` of std: the text with every character replaced by its
/// Unicode lower-case mapping. Named, not spelled out.
#[verifier::external_body]
fn to_lowercase(s: &str) -> (r: String)
    ensures
        r@ == lowercase(s@),
{
    s.to_lowercase()
}

/// TLS is wanted unless both the private key path and the certificate chain
/// path are empty.
pub fn tls_requested(private_key: &str, certificate_chain: &str) -> (b: bool)
    ensures
        b == !(private_key@.len() == 0 && certificate_chain@.len() == 0),
{
    !(private_key.is_empty() && certificate_chain.is_empty())
}

/// The pieces of `s` between its commas, as `str::split(',')` gives them
/// (an empty piece where two commas meet; one empty piece for the empty text).
pub open spec fn split_commas(s: Seq<char>) -> Seq<Seq<char>>
    decreases s.len(),
{
    if s.len() == 0 {
        seq![Seq::empty()]
    } else {
        let pieces = split_commas(s.drop_last());
        if s.last() == ',' {
            pieces.push(Seq::empty())
        } else {
            pieces.update(pieces.len() - 1, pieces.last().push(s.last()))
        }
    }
}

proof fn lemma_split_nonempty(s: Seq<char>)
    ensures
        split_commas(s).len() >= 1,
    decreases s.len(),
{
    if s.len() > 0 {
        lemma_split_nonempty(s.drop_last());
    }
}

/// The version one piece of `TLS_VERSIONS` names, lower-cased and trimmed.
pub open spec fn tls_version_of(piece: Seq<char>) -> Option<TlsVersion> {
    let t = trim(lowercase(piece));
    if t == "tls13"@ || t == "tls1.3"@ {
        Some(TlsVersion::Tls13)
    } else if t == "tls12"@ || t == "tls1.2"@ {
        Some(TlsVersion::Tls12)
    } else {
        None
    }
}

/// The versions the pieces name, in order; pieces that name none are skipped.
pub open spec fn tls_versions_of(pieces: Seq<Seq<char>>) -> Seq<TlsVersion>
    decreases pieces.len(),
{
    if pieces.len() == 0 {
        Seq::empty()
    } else {
        let rest = tls_versions_of(pieces.drop_last());
        match tls_version_of(pieces.last()) {
            Some(v) => rest.push(v),
            None => rest,
        }
    }
}

/// The version one piece of `TLS_VERSIONS` names.
pub fn parse_tls_version(piece: &str) -> (r: Option<TlsVersion>)
    ensures
        r == tls_version_of(piece@),
{
    let lowered = to_lowercase(piece);
    let t = trim_text(lowered.as_str());
    if text_equals(t.as_str(), "tls13") || text_equals(t.as_str(), "tls1.3") {
        Some(TlsVersion::Tls13)
    } else if text_equals(t.as_str(), "tls12") || text_equals(t.as_str(), "tls1.2") {
        Some(TlsVersion::Tls12)
    } else {
        None
    }
}

/// The versions that a `TLS_VERSIONS` setting names: its comma-separated
/// pieces, each lower-cased and trimmed, `tls13`/`tls1.3` and
/// `tls12`/`tls1.2` recognised, in order, others skipped.
pub fn parse_tls_versions(setting: &str) -> (r: Vec<TlsVersion>)
    ensures
        r@ == tls_versions_of(split_commas(setting@)),
{
    let chars = crate::text::chars_of(setting);
    let mut versions: Vec<TlsVersion> = Vec::new();
    let mut piece = String::new();
    let mut i: usize = 0;
    assert(setting@.take(0) =~= Seq::<char>::empty());
    while i < chars.len()
        invariant
            chars@ == setting@,
            i <= chars.len(),
            split_commas(setting@.take(i as int)).len() >= 1,
            split_commas(setting@.take(i as int)).last() == piece@,
            versions@ == tls_versions_of(split_commas(setting@.take(i as int)).drop_last()),
        decreases chars.len() - i,
    {
        let ghost before = setting@.take(i as int);
        let ghost after = setting@.take(i + 1);
        assert(after.drop_last() =~= before);
        assert(after.last() == chars@[i as int]);
        proof {
            lemma_split_nonempty(before);
        }
        if chars[i] == ',' {
            let found = parse_tls_version(piece.as_str());
            match found {
                Some(v) => versions.push(v),
                None => {},
            }
            assert(split_commas(after).drop_last() =~= split_commas(before));
            piece = String::new();
        } else {
            crate::text::string_push(&mut piece, chars[i]);
            assert(split_commas(after).drop_last() =~= split_commas(before).drop_last());
        }
        i = i + 1;
    }
    assert(setting@.take(chars.len() as int) =~= setting@);
    let ghost pieces = split_commas(setting@);
    let found = parse_tls_version(piece.as_str());
    match found {
        Some(v) => versions.push(v),
        None => {},
    }
    assert(pieces.drop_last() == pieces.take(pieces.len() - 1));
    versions
}

/// The protocol version a `SSL_PROTOCOL_*_VERSION` setting names, if any.
pub fn map_to_ssl_version(ssl_version: &str) -> (r: Option<SslProtocol>)
    ensures
        r == (if ssl_version@ == "ssl3"@ {
            Some(SslProtocol::Ssl3)
        } else if ssl_version@ == "tls1"@ {
            Some(SslProtocol::Tls1)
        } else if ssl_version@ == "tls1.1"@ {
            Some(SslProtocol::Tls1_1)
        } else if ssl_version@ == "tls1.2"@ {
            Some(SslProtocol::Tls1_2)
        } else if ssl_version@ == "tls1.3"@ {
            Some(SslProtocol::Tls1_3)
        } else {
            None
        }),
{
    if text_equals(ssl_version, "ssl3") {
        Some(SslProtocol::Ssl3)
    } else if text_equals(ssl_version, "tls1") {
        Some(SslProtocol::Tls1)
    } else if text_equals(ssl_version, "tls1.1") {
        Some(SslProtocol::Tls1_1)
    } else if text_equals(ssl_version, "tls1.2") {
        Some(SslProtocol::Tls1_2)
    } else if text_equals(ssl_version, "tls1.3") {
        Some(SslProtocol::Tls1_3)
    } else {
        None
    }
}

/// What `rustls_pemfile::pkcs8_private_keys` yields first from the PEM text
/// `pem`: the DER bytes of a PKCS#8 key, the text of a read error, or nothing.
pub uninterp spec fn first_pkcs8_key(pem: Seq<u8>) -> Option<Result<Seq<u8>, Seq<char>>>;

/// What collecting `rustls_pemfile::certs` over the PEM text `pem` gives: the
/// DER bytes of each certificate in order, or the text of the first read error.
pub uninterp spec fn pem_certificates(pem: Seq<u8>) -> Result<Seq<Seq<u8>>, Seq<char>>;

/// The view of a key read from PEM.
pub open spec fn key_outcome(o: Option<Result<Vec<u8>, String>>) -> Option<Result<Seq<u8>, Seq<char>>> {
    match o {
        Some(Ok(k)) => Some(Ok(k@)),
        Some(Err(m)) => Some(Err(m@)),
        None => None,
    }
}

/// The view of the certificates read from PEM.
pub open spec fn certs_outcome(o: Result<Vec<Vec<u8>>, String>) -> Result<Seq<Seq<u8>>, Seq<char>> {
    match o {
        Ok(c) => Ok(c.deep_view()),
        Err(m) => Err(m@),
    }
}

/// `rustls_pemfile::pkcs8_private_keys` over the bytes `pem`, first item:
/// the key's DER bytes, the `Display` of the read error, or nothing when the
/// text holds no PKCS#8 key. It reads only `pem`, so the outcome is named.
#[verifier::external_body]
fn pkcs8_first_key(pem: &[u8]) -> (r: Option<Result<Vec<u8>, String>>)
    ensures
        key_outcome(r) == first_pkcs8_key(pem@),
{
    let mut reader: &[u8] = pem;
    let first = rustls_pemfile::pkcs8_private_keys(&mut reader).next();
    match first {
        Some(Ok(key)) => Some(Ok(key.secret_pkcs8_der().to_vec())),
        Some(Err(error)) => Some(Err(error.to_string())),
        None => None,
    }
}

/// `rustls_pemfile::certs` over the bytes `pem`, collected into a `Result`:
/// each certificate's DER bytes in order, or the `Display` of the first read
/// error. It reads only `pem`, so the outcome is named.
#[verifier::external_body]
fn pem_certs(pem: &[u8]) -> (r: Result<Vec<Vec<u8>>, String>)
    ensures
        certs_outcome(r) == pem_certificates(pem@),
{
    let mut reader: &[u8] = pem;
    let collected = rustls_pemfile::certs(&mut reader).collect::<Result<Vec<_>, _>>();
    match collected {
        Ok(certs) => Ok(certs.iter().map(|cert| cert.to_vec()).collect()),
        Err(error) => Err(error.to_string()),
    }
}

/// The message logged when the key file holds no PKCS#8 key.
pub open spec fn no_key_message(path: Seq<char>) -> Seq<char> {
    "No private key found in '"@ + path + "' file."@
}

/// The message logged when the key cannot be read.
pub open spec fn key_error_message(path: Seq<char>, m: Seq<char>) -> Seq<char> {
    "An error occurred while retrieving the private key ("@ + path + "): "@ + m
}

/// The message logged when the certificates cannot be read.
pub open spec fn certificate_error_message(m: Seq<char>) -> Seq<char> {
    "An error occurred while retrieving the certificate: "@ + m
}

/// The message logged when a TLS file given by `variable` does not exist.
pub open spec fn missing_file_message(variable: Seq<char>, path: Seq<char>) -> Seq<char> {
    "The file in variable '"@ + variable + "' does not exist ("@ + path + ")."@
}

/// The message logged when a TLS file given by `variable` cannot be opened.
pub open spec fn open_error_message(variable: Seq<char>, error: Seq<char>) -> Seq<char> {
    "Error opening the '"@ + variable + "' file: "@ + error
}

/// Whether the service may go on, given whether the private key file and the
/// certificate chain file exist: the key is checked first.
pub fn tls_files_exist(private_key: &str, key_exists: bool, certificate_chain: &str, chain_exists: bool) -> (r: Result<(), ApiError>)
    ensures
        !key_exists ==> (r matches Err(e) && is_internal_log(e, missing_file_message("HTTP_PRIVATE_KEY"@, private_key@))),
        key_exists && !chain_exists ==> (r matches Err(e) && is_internal_log(
            e,
            missing_file_message("HTTP_CERTIFICATE_CHAIN"@, certificate_chain@),
        )),
        key_exists && chain_exists ==> r is Ok,
{
    if !key_exists {
        let mut m = String::from_str("The file in variable '");
        m.append("HTTP_PRIVATE_KEY");
        m.append("' does not exist (");
        m.append(private_key);
        m.append(").");
        return Err(ApiError::new_log_internal(m));
    }
    if !chain_exists {
        let mut m = String::from_str("The file in variable '");
        m.append("HTTP_CERTIFICATE_CHAIN");
        m.append("' does not exist (");
        m.append(certificate_chain);
        m.append(").");
        return Err(ApiError::new_log_internal(m));
    }
    Ok(())
}

/// The error for a TLS file, given by `variable`, that could not be opened
/// (`error`: the reason).
pub fn tls_file_open_error(variable: &str, error: &str) -> (e: ApiError)
    ensures
        is_internal_log(e, open_error_message(variable@, error@)),
{
    let mut m = String::from_str("Error opening the '");
    m.append(variable);
    m.append("' file: ");
    m.append(error);
    ApiError::new_log_internal(m)
}

/// How the private key file is encoded, as the `SSL_FILE_TYPE` setting says.
#[derive(Debug, Clone, Copy, PartialEq, Eq, Structural)]
pub enum KeyFileType {
    /// PEM text holding a PKCS#8 key (the default).
    Pem,
    /// The DER (ASN.1) bytes of the key themselves.
    Asn1,
}

/// The key file type the setting names: `ASN1`, or PEM for anything else.
pub fn key_file_type(setting: &str) -> (r: KeyFileType)
    ensures
        r == (if setting@ == "ASN1"@ { KeyFileType::Asn1 } else { KeyFileType::Pem }),
{
    if text_equals(setting, "ASN1") {
        KeyFileType::Asn1
    } else {
        KeyFileType::Pem
    }
}

/// What the server is set up with once its key is known: that key and every
/// certificate of the PEM chain `certs_pem`, or the error for unreadable ones.
pub open spec fn material_with_key(
    r: Result<(Vec<u8>, Vec<Vec<u8>>), ApiError>,
    key: Seq<u8>,
    certs_pem: Seq<u8>,
) -> bool {
    match pem_certificates(certs_pem) {
        Err(m) => r matches Err(e) && is_internal_log(e, certificate_error_message(m)),
        Ok(c) => r matches Ok(p) && p.0@ == key && p.1.deep_view() == c,
    }
}

/// The key and certificates the server is set up with, read from the key
/// file (at `private_key_path`, encoded as `file_type` says) and from the PEM
/// text of the certificate chain file. A PEM key file gives its first PKCS#8
/// key; an ASN.1 one is the key's DER bytes as they stand. A missing or
/// unreadable PEM key, or unreadable certificates, is an internal error,
/// checked in that order.
pub fn tls_material(
    private_key_path: &str,
    file_type: KeyFileType,
    key_file: Vec<u8>,
    certs_pem: &[u8],
) -> (r: Result<(Vec<u8>, Vec<Vec<u8>>), ApiError>)
    ensures
        file_type == KeyFileType::Asn1 ==> material_with_key(r, key_file@, certs_pem@),
        file_type == KeyFileType::Pem ==> match first_pkcs8_key(key_file@) {
            None => r matches Err(e) && is_internal_log(e, no_key_message(private_key_path@)),
            Some(Err(m)) => r matches Err(e) && is_internal_log(e, key_error_message(private_key_path@, m)),
            Some(Ok(k)) => material_with_key(r, k, certs_pem@),
        },
{
    let key = match file_type {
        KeyFileType::Asn1 => key_file,
        KeyFileType::Pem => match pkcs8_first_key(key_file.as_slice()) {
            None => {
                let mut m = String::from_str("No private key found in '");
                m.append(private_key_path);
                m.append("' file.");
                return Err(ApiError::new_log_internal(m));
            },
            Some(Err(error)) => {
                let mut m = String::from_str("An error occurred while retrieving the private key (");
                m.append(private_key_path);
                m.append("): ");
                m.append(error.as_str());
                return Err(ApiError::new_log_internal(m));
            },
            Some(Ok(key)) => key,
        },
    };
    match pem_certs(certs_pem) {
        Err(error) => {
            let mut m = String::from_str("An error occurred while retrieving the certificate: ");
            m.append(error.as_str());
            Err(ApiError::new_log_internal(m))
        },
        Ok(certs) => Ok((key, certs)),
    }
}

} // verus!
