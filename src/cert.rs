//! Reading the server name out of a peer's certificate, and preparing a
//! dial that trusts that certificate alone.
use vstd::prelude::*;

use x509_parser::certificate::X509Certificate;
use x509_parser::extensions::{GeneralName, ParsedExtension};
use x509_parser::prelude::FromDer;

use rustls::pki_types::CertificateDer;
use rustls::RootCertStore;

use crate::address::SocketAddress;
use crate::protocol::{NodeAddrAndCert, NodeError};

verus! {

/// The extensions of a certificate as far as names go: for a subject
/// alternative name extension, its general names, each a DNS name or `None`
/// for another kind; `None` for an extension of another kind.
pub type NameExtensions = Vec<Option<Vec<Option<String>>>>;

/// What the certificate encoded as `der` holds of names, in the form of
/// `NameExtensions`; `None` when `der` is no certificate.
pub uninterp spec fn certificate_names(der: Seq<u8>) -> Option<Seq<Option<Seq<Option<Seq<char>>>>>>;

pub open spec fn name_view(n: Option<String>) -> Option<Seq<char>> {
    match n {
        Some(s) => Some(s@),
        None => None,
    }
}

pub open spec fn extension_view(e: Option<Vec<Option<String>>>) -> Option<Seq<Option<Seq<char>>>> {
    match e {
        Some(v) => Some(v@.map_values(|n: Option<String>| name_view(n))),
        None => None,
    }
}

pub open spec fn extensions_view(es: NameExtensions) -> Seq<Option<Seq<Option<Seq<char>>>>> {
    es@.map_values(|e: Option<Vec<Option<String>>>| extension_view(e))
}

/// Relies on x509_parser's `X509Certificate::from_der`, `extensions` and
/// `parsed_extension`: the certificate's extensions in order, with the general
/// names of each subject alternative name extension in order.
#[verifier::external_body]
fn parse_certificate_names(der: &[u8]) -> (r: Option<NameExtensions>)
    ensures
        match r {
            Some(es) => certificate_names(der@) == Some(extensions_view(es)),
            None => certificate_names(der@) is None,
        },
{
    let (_, cert) = X509Certificate::from_der(der).ok()?;
    Some(cert.tbs_certificate.extensions().iter().map(|e| match e.parsed_extension() {
        ParsedExtension::SubjectAlternativeName(san) => Some(
            san.general_names.iter().map(|n| match n {
                GeneralName::DNSName(d) => Some(d.to_string()),
                _ => None,
            }).collect(),
        ),
        _ => None,
    }).collect())
}

/// The first DNS name among `ns`.
pub open spec fn first_dns_in_names(ns: Seq<Option<Seq<char>>>) -> Option<Seq<char>>
    decreases ns.len(),
{
    if ns.len() == 0 {
        None
    } else if ns[0] is Some {
        ns[0]
    } else {
        first_dns_in_names(ns.drop_first())
    }
}

/// The first DNS name of the first subject alternative name extension that
/// has one.
pub open spec fn first_dns_name(es: Seq<Option<Seq<Option<Seq<char>>>>>) -> Option<Seq<char>>
    decreases es.len(),
{
    if es.len() == 0 {
        None
    } else {
        match es[0] {
            Some(ns) => match first_dns_in_names(ns) {
                Some(d) => Some(d),
                None => first_dns_name(es.drop_first()),
            },
            None => first_dns_name(es.drop_first()),
        }
    }
}

/// Why no server name could be read from a certificate.
#[derive(Clone, Copy, Debug, PartialEq, Eq, Structural)]
pub enum CertificateError {
    /// The bytes are no DER certificate.
    Malformed,
    /// The certificate names no DNS name.
    NoDnsName,
}

/// The first DNS name among the subject alternative names of `names`.
pub fn dns_name_from_names(names: &Vec<Option<String>>) -> (r: Option<String>)
    ensures
        name_view(r) == first_dns_in_names(names@.map_values(|n: Option<String>| name_view(n))),
{
    let ghost all = names@.map_values(|n: Option<String>| name_view(n));
    assert(all.subrange(0, all.len() as int) == all);
    let mut i: usize = 0;
    while i < names.len()
        invariant
            i <= names@.len(),
            all == names@.map_values(|n: Option<String>| name_view(n)),
            first_dns_in_names(all) == first_dns_in_names(all.subrange(i as int, all.len() as int)),
        decreases names@.len() - i,
    {
        let ghost rest = all.subrange(i as int, all.len() as int);
        assert(rest.drop_first() == all.subrange(i + 1, all.len() as int));
        match &names[i] {
            Some(d) => {
                return Some(d.clone());
            },
            None => {},
        }
        i = i + 1;
    }
    None
}

/// The server name that a certificate with these extensions answers to: the
/// first DNS name of the first subject alternative name extension that has
/// one.
pub fn dns_name_from_extensions(es: &NameExtensions) -> (r: Option<String>)
    ensures
        name_view(r) == first_dns_name(extensions_view(*es)),
{
    let ghost all = extensions_view(*es);
    assert(all.subrange(0, all.len() as int) == all);
    let mut i: usize = 0;
    while i < es.len()
        invariant
            i <= es@.len(),
            all == extensions_view(*es),
            first_dns_name(all) == first_dns_name(all.subrange(i as int, all.len() as int)),
        decreases es@.len() - i,
    {
        let ghost rest = all.subrange(i as int, all.len() as int);
        assert(rest.drop_first() == all.subrange(i + 1, all.len() as int));
        match &es[i] {
            Some(names) => {
                match dns_name_from_names(names) {
                    Some(d) => {
                        return Some(d);
                    },
                    None => {},
                }
            },
            None => {},
        }
        i = i + 1;
    }
    None
}

/// The server name of the certificate `cert_bytes`: the first DNS name among
/// its subject alternative names.
pub fn x509_dns_name_from_der(cert_bytes: &[u8]) -> (r: Result<String, CertificateError>)
    ensures
        match certificate_names(cert_bytes@) {
            None => r == Err::<String, CertificateError>(CertificateError::Malformed),
            Some(es) => match first_dns_name(es) {
                Some(d) => r is Ok && r->Ok_0@ == d,
                None => r == Err::<String, CertificateError>(CertificateError::NoDnsName),
            },
        },
{
    match parse_certificate_names(cert_bytes) {
        None => Err(CertificateError::Malformed),
        Some(es) => match dns_name_from_extensions(&es) {
            Some(d) => Ok(d),
            None => Err(CertificateError::NoDnsName),
        },
    }
}

/// `x509_dns_name_from_der` on a certificate held in a `Vec`.
pub fn x509_dns_name_from_cert_der(cert_der: Vec<u8>) -> (r: Result<String, CertificateError>)
    ensures
        match certificate_names(cert_der@) {
            None => r == Err::<String, CertificateError>(CertificateError::Malformed),
            Some(es) => match first_dns_name(es) {
                Some(d) => r is Ok && r->Ok_0@ == d,
                None => r == Err::<String, CertificateError>(CertificateError::NoDnsName),
            },
        },
{
    x509_dns_name_from_der(cert_der.as_slice())
}

/// rustls' trust store, carried whole to the dial; what it holds is known
/// through `store_anchors`.
#[verifier::external_type_specification]
#[verifier::external_body]
pub struct ExRootCertStore(rustls::RootCertStore);

/// rustls' error, returned by `add_anchor` and mapped to `HandshakeFailed`.
#[verifier::external_type_specification]
#[verifier::external_body]
pub struct ExRustlsError(rustls::Error);

/// The trust anchors that `store` holds, in the order they were added.
pub uninterp spec fn store_anchors(store: RootCertStore) -> Seq<Seq<u8>>;

/// The trust anchor (subject, public key, name constraints) that rustls makes
/// of the certificate encoded as `der`; `None` when it cannot make one.
pub uninterp spec fn anchor_of(der: Seq<u8>) -> Option<Seq<u8>>;

/// rustls' `RootCertStore::empty`: a store with no anchor.
pub assume_specification[ rustls::RootCertStore::empty ]() -> (r: RootCertStore)
    ensures
        store_anchors(r) == Seq::<Seq<u8>>::empty(),
;

/// Relies on rustls' `RootCertStore::add`: appends the anchor made of the
/// certificate `der` to `store`, or, when no anchor can be made of it, leaves
/// the store as it was and returns rustls' error.
#[verifier::external_body]
fn add_anchor(store: &mut RootCertStore, der: &Vec<u8>) -> (r: Result<(), rustls::Error>)
    ensures
        (r is Ok) == (anchor_of(der@) is Some),
        r is Ok ==> store_anchors(*final(store)) == store_anchors(*old(store)).push(
            anchor_of(der@)->Some_0,
        ),
        r is Err ==> store_anchors(*final(store)) == store_anchors(*old(store)),
{
    store.add(CertificateDer::from(der.clone()))
}

/// Everything a direct dial needs: where to, the server name to expect, and a
/// trust store whose one anchor is the peer's certificate, with no other
/// authority.
pub struct DialPlan {
    pub addr: SocketAddress,
    pub server_name: String,
    pub roots: RootCertStore,
}

/// The server name of the certificate `der`, when it can be pinned: it gives
/// a DNS name and rustls makes an anchor of it.
pub open spec fn pinnable_name(der: Seq<u8>) -> Option<Seq<char>> {
    match certificate_names(der) {
        Some(es) => if anchor_of(der) is Some {
            first_dns_name(es)
        } else {
            None
        },
        None => None,
    }
}

/// The dial toward `target`, pinned to its certificate: the server name is
/// the one the certificate gives, and the anchor made of the certificate is
/// the store's only one. `HandshakeFailed` exactly when the certificate gives
/// no name or no anchor can be made of it.
pub fn plan_dial(target: &NodeAddrAndCert) -> (r: Result<DialPlan, NodeError>)
    ensures
        (r is Ok) == (pinnable_name(target.cert@) is Some),
        r is Ok ==> {
            &&& r->Ok_0.addr == target.addr
            &&& Some(r->Ok_0.server_name@) == pinnable_name(target.cert@)
            &&& store_anchors(r->Ok_0.roots) == seq![anchor_of(target.cert@)->Some_0]
        },
        r is Err ==> r == Err::<DialPlan, NodeError>(NodeError::HandshakeFailed),
{
    match x509_dns_name_from_der(target.cert.as_slice()) {
        Ok(server_name) => {
            let mut roots = RootCertStore::empty();
            match add_anchor(&mut roots, &target.cert) {
                Ok(()) => {
                    assert(Seq::<Seq<u8>>::empty().push(anchor_of(target.cert@)->Some_0) == seq![
                        anchor_of(target.cert@)->Some_0,
                    ]);
                    Ok(DialPlan { addr: target.addr, server_name, roots })
                },
                Err(_) => Err(NodeError::HandshakeFailed),
            }
        },
        Err(_) => Err(NodeError::HandshakeFailed),
    }
}

} // verus!
