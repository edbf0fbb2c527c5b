//! Certificates and keys in PEM form, and the names of servers that certificates carry.

use vstd::prelude::*;

use crate::text::cat;

verus! {

/// The encoding of a private key.
#[derive(Clone, Copy, Debug, PartialEq, Eq, Structural)]
pub enum KeyForm {
    Pkcs1,
    Sec1,
    Pkcs8,
}

/// A private key: its encoding and its bytes.
pub struct TlsKey {
    pub form: KeyForm,
    pub der: Vec<u8>,
}

/// The certificates that `rustls_pemfile::certs` finds in a text in PEM form, each as its bytes,
/// or the error that it ends with.
pub uninterp spec fn pem_certs(pem: Seq<u8>) -> Result<Seq<Seq<u8>>, Seq<char>>;

/// The first private key that `rustls_pemfile::private_key` finds in a text in PEM form, if
/// there is one, or the error that it ends with.
pub uninterp spec fn pem_key(pem: Seq<u8>) -> Result<Option<(KeyForm, Seq<u8>)>, Seq<char>>;

/// What `rustls::pki_types::ServerName` has against a text as the name of a server.
pub uninterp spec fn server_name_error(name: Seq<char>) -> Option<Seq<char>>;

/// The contents of a list of byte strings.
pub open spec fn byte_views(list: Seq<Vec<u8>>) -> Seq<Seq<u8>> {
    list.map_values(|v: Vec<u8>| v@)
}

/// The contents of certificates, or of why there are none.
pub open spec fn certs_view(r: Result<Vec<Vec<u8>>, String>) -> Result<Seq<Seq<u8>>, Seq<char>> {
    match r {
        Ok(list) => Ok(byte_views(list@)),
        Err(e) => Err(e@),
    }
}

/// The contents of a key, if there is one, or of why there is none.
pub open spec fn key_view(r: Result<Option<TlsKey>, String>) -> Result<
    Option<(KeyForm, Seq<u8>)>,
    Seq<char>,
> {
    match r {
        Ok(Some(key)) => Ok(Some((key.form, key.der@))),
        Ok(None) => Ok(None),
        Err(e) => Err(e@),
    }
}

/// Calls `rustls_pemfile::certs` on the text and gathers what it yields: the bytes of each
/// certificate in order, or the first error as text. Both depend on the text alone.
#[verifier::external_body]
fn find_certs(pem: &[u8]) -> (r: Result<Vec<Vec<u8>>, String>)
    ensures
        certs_view(r) == pem_certs(pem@),
{
    let mut reader: &[u8] = pem;
    rustls_pemfile::certs(&mut reader)
        .map(|cert| cert.map(|cert| cert.to_vec()).map_err(|err| err.to_string()))
        .collect()
}

/// Calls `rustls_pemfile::private_key` on the text: the encoding and the bytes of the first
/// private key, nothing where there is none, or the error as text. They depend on the text
/// alone.
#[verifier::external_body]
fn find_key(pem: &[u8]) -> (r: Result<Option<TlsKey>, String>)
    ensures
        key_view(r) == pem_key(pem@),
{
    let mut reader: &[u8] = pem;
    let key = rustls_pemfile::private_key(&mut reader).map_err(|err| err.to_string())?;
    Ok(key.map(|key| match &key {
        rustls::pki_types::PrivateKeyDer::Pkcs1(_) => {
            TlsKey { form: KeyForm::Pkcs1, der: key.secret_der().to_vec() }
        },
        rustls::pki_types::PrivateKeyDer::Sec1(_) => {
            TlsKey { form: KeyForm::Sec1, der: key.secret_der().to_vec() }
        },
        _ => TlsKey { form: KeyForm::Pkcs8, der: key.secret_der().to_vec() },
    }))
}

/// Makes a `rustls::pki_types::ServerName` of the text and tells the error, if there is one. It
/// depends on the text alone.
#[verifier::external_body]
fn find_server_name_error(name: &str) -> (r: Option<String>)
    ensures
        server_name_error(name@) == (match r {
            Some(e) => Some(e@),
            None => None,
        }),
{
    rustls::pki_types::ServerName::try_from(name.to_string()).err().map(|err| err.to_string())
}

/// Reads the certificates in a file that a listener was given.
pub fn read_certs(pem: &[u8]) -> (r: Result<Vec<Vec<u8>>, String>)
    ensures
        certs_view(r) == pem_certs(pem@),
{
    find_certs(pem)
}

/// The certificates of the replication, as they were found or with what went wrong.
pub open spec fn replication_certs_found(found: Result<Seq<Seq<u8>>, Seq<char>>) -> Result<
    Seq<Seq<u8>>,
    Seq<char>,
> {
    match found {
        Ok(list) => Ok(list),
        Err(e) => Err("read TLS certificate: "@ + e),
    }
}

/// Takes the certificates of the replication as they were found.
pub fn take_replication_certs(found: Result<Vec<Vec<u8>>, String>) -> (r: Result<
    Vec<Vec<u8>>,
    String,
>)
    ensures
        certs_view(r) == replication_certs_found(certs_view(found)),
{
    match found {
        Ok(list) => Ok(list),
        Err(e) => Err(cat("read TLS certificate: ", e.as_str())),
    }
}

/// Reads the certificates in a file that the replication was given.
pub fn read_replication_certs(pem: &[u8]) -> (r: Result<Vec<Vec<u8>>, String>)
    ensures
        certs_view(r) == replication_certs_found(pem_certs(pem@)),
{
    take_replication_certs(find_certs(pem))
}

/// The key in a file, as it was found; a file without a key is an error.
pub open spec fn key_in_file(
    found: Result<Option<(KeyForm, Seq<u8>)>, Seq<char>>,
    path: Seq<char>,
    complaint: Seq<char>,
) -> Result<(KeyForm, Seq<u8>), Seq<char>> {
    match found {
        Err(e) => Err(complaint + e),
        Ok(None) => Err("no private key found in "@ + path),
        Ok(Some(key)) => Ok(key),
    }
}

/// The contents of the key in a file, or of why there is none.
pub open spec fn taken_key(r: Result<TlsKey, String>) -> Result<(KeyForm, Seq<u8>), Seq<char>> {
    match r {
        Ok(key) => Ok((key.form, key.der@)),
        Err(e) => Err(e@),
    }
}

/// Takes the key in a file as it was found. The complaint stands before an error.
pub fn take_key(found: Result<Option<TlsKey>, String>, path: &str, complaint: &str) -> (r: Result<
    TlsKey,
    String,
>)
    ensures
        taken_key(r) == key_in_file(key_view(found), path@, complaint@),
{
    match found {
        Err(e) => Err(cat(complaint, e.as_str())),
        Ok(None) => Err(cat("no private key found in ", path)),
        Ok(Some(key)) => Ok(key),
    }
}

/// Reads the private key in a file that a listener was given.
pub fn read_private_key(pem: &[u8], path: &str) -> (r: Result<TlsKey, String>)
    ensures
        taken_key(r) == key_in_file(pem_key(pem@), path@, Seq::empty()),
{
    proof {
        reveal_strlit("");
        assert(""@ =~= Seq::<char>::empty());
    }
    take_key(find_key(pem), path, "")
}

/// Reads the private key in a file that the replication was given.
pub fn read_replication_private_key(pem: &[u8], path: &str) -> (r: Result<TlsKey, String>)
    ensures
        taken_key(r) == key_in_file(pem_key(pem@), path@, "read TLS private key: "@),
{
    take_key(find_key(pem), path, "read TLS private key: ")
}

/// What is said of a name that no server can have.
pub fn server_name_complaint(problem: Option<String>) -> (r: Result<(), String>)
    ensures
        match problem {
            None => r is Ok,
            Some(e) => r is Err && r->Err_0@ == "invalid TLS server name: "@ + e@,
        },
{
    match problem {
        None => Ok(()),
        Some(e) => Err(cat("invalid TLS server name: ", e.as_str())),
    }
}

/// Checks the name that a server's certificate has to carry.
pub fn check_server_name(name: &str) -> (r: Result<(), String>)
    ensures
        match server_name_error(name@) {
            None => r is Ok,
            Some(e) => r is Err && r->Err_0@ == "invalid TLS server name: "@ + e,
        },
{
    server_name_complaint(find_server_name_error(name))
}

} // verus!
