//! A node's identity and credential, made once per process.
use vstd::prelude::*;

use crate::cert::{certificate_names, first_dns_name};

verus! {

/// The version field of a 128-bit identifier, in its big-endian reading.
pub open spec fn uuid_version(u: u128) -> u128 {
    (u >> 76u128) & 0xfu128
}

/// The variant field of a 128-bit identifier, in its big-endian reading.
pub open spec fn uuid_variant(u: u128) -> u128 {
    (u >> 62u128) & 0x3u128
}

/// Relies on uuid's `Uuid::new_v4` and `Uuid::as_u128`: a random identifier
/// with version 4 and the RFC 4122 variant (bits `10`).
#[verifier::external_body]
fn random_uuid() -> (r: u128)
    ensures
        uuid_version(r) == 4,
        uuid_variant(r) == 2,
{
    uuid::Uuid::new_v4().as_u128()
}

/// The lowercase hexadecimal digit for `n`, which is below 16.
pub open spec fn hex_digit(n: u128) -> char {
    seq!['0', '1', '2', '3', '4', '5', '6', '7', '8', '9', 'a', 'b', 'c', 'd', 'e', 'f'][n as int]
}

/// Where the hyphens stand in the text form of an identifier.
pub open spec fn is_hyphen_position(i: int) -> bool {
    i == 8 || i == 13 || i == 18 || i == 23
}

/// How many of the text form's first `i` characters are hyphens.
pub open spec fn hyphens_before(i: int) -> int {
    if i <= 8 {
        0
    } else if i <= 13 {
        1
    } else if i <= 18 {
        2
    } else if i <= 23 {
        3
    } else {
        4
    }
}

/// The hyphenated text form of identifier `u`: its 32 hexadecimal digits,
/// most significant first, lowercase, in groups of 8-4-4-4-12.
pub open spec fn uuid_text(u: u128) -> Seq<char> {
    Seq::new(
        36,
        |i: int|
            if is_hyphen_position(i) {
                '-'
            } else {
                hex_digit((u >> ((4 * (31 - (i - hyphens_before(i)))) as u128)) & 0xfu128)
            },
    )
}

/// Relies on uuid's `Uuid::from_u128` and its `Display`: the hyphenated form,
/// 32 hexadecimal digits in groups of 8-4-4-4-12.
#[verifier::external_body]
fn hyphenated(u: u128) -> (r: String)
    ensures
        r@ == uuid_text(u),
{
    uuid::Uuid::from_u128(u).to_string()
}

/// What a node tells others about itself.
///
/// `uuid` is fixed for the life of the process; `name` and `description` are
/// the user's to change.
pub struct NodeInfo {
    pub uuid: u128,
    pub name: String,
    pub description: String,
}

/// What the user gives a new node beyond its name.
pub struct NewNodeInfo {
    pub description: String,
}

impl NodeInfo {
    /// The identity of a new node: a fresh random identifier, and the name
    /// and description given.
    pub fn new(name: String, info: NewNodeInfo) -> (r: NodeInfo)
        ensures
            r.name == name,
            r.description == info.description,
            uuid_version(r.uuid) == 4,
            uuid_variant(r.uuid) == 2,
    {
        NodeInfo { uuid: random_uuid(), name, description: info.description }
    }

    /// A copy of this information, equal to it field by field.
    pub fn snapshot(&self) -> (r: NodeInfo)
        ensures
            r == *self,
    {
        NodeInfo { uuid: self.uuid, name: self.name.clone(), description: self.description.clone() }
    }

    pub fn set_name(&mut self, name: String)
        ensures
            final(self).name == name,
            final(self).uuid == old(self).uuid,
            final(self).description == old(self).description,
    {
        self.name = name;
    }

    pub fn set_description(&mut self, description: String)
        ensures
            final(self).description == description,
            final(self).uuid == old(self).uuid,
            final(self).name == old(self).name,
    {
        self.description = description;
    }

    /// The identifier in its hyphenated text form.
    pub fn uuid_string(&self) -> (r: String)
        ensures
            r@ == uuid_text(self.uuid),
    {
        hyphenated(self.uuid)
    }
}

/// rcgen's error, returned by `self_signed` and mapped to `CredentialError`.
#[verifier::external_type_specification]
#[verifier::external_body]
pub struct ExRcgenError(rcgen::Error);

/// Relies on rcgen's `generate_simple_self_signed`, `Certificate::der` and
/// `KeyPair::serialize_der`: a fresh key pair and a self-signed certificate,
/// both in DER, or rcgen's error when it cannot make them. A name that does
/// not read as an IP address (no IP address has a `-`) becomes the
/// certificate's one subject alternative name, a DNS name.
#[verifier::external_body]
fn self_signed(server_name: String) -> (r: Result<(Vec<u8>, Vec<u8>), rcgen::Error>)
    requires
        server_name@.contains('-'),
    ensures
        r is Ok ==> (certificate_names(r->Ok_0.0@) matches Some(es) && first_dns_name(es)
            == Some(server_name@)),
{
    let rcgen::CertifiedKey { cert, key_pair } = rcgen::generate_simple_self_signed(
        vec![server_name],
    )?;
    Ok((cert.der().to_vec(), key_pair.serialize_der()))
}

/// A node's own certificate, the one datum it shares with peers, and the
/// private key behind it, which never leaves the process.
pub struct Credential {
    pub certificate_der: Vec<u8>,
    pub private_key_der: Vec<u8>,
}

/// Why no credential could be made.
#[derive(Clone, Copy, Debug, PartialEq, Eq, Structural)]
pub enum CredentialError {
    Generation,
}

impl Credential {
    /// A fresh self-signed credential whose server name is a random
    /// identifier in text form, so that it names nothing about the node.
    pub fn generate() -> (r: Result<Credential, CredentialError>)
        ensures
            r is Err ==> r == Err::<Credential, CredentialError>(CredentialError::Generation),
            r is Ok ==> exists|u: u128|
                {
                    &&& uuid_version(u) == 4
                    &&& uuid_variant(u) == 2
                    &&& certificate_names(r->Ok_0.certificate_der@) matches Some(es)
                        && first_dns_name(es) == Some(uuid_text(u))
                },
    {
        let u = random_uuid();
        let server_name = hyphenated(u);
        assert(server_name@[8] == '-');
        match self_signed(server_name) {
            Ok((certificate_der, private_key_der)) => Ok(Credential { certificate_der, private_key_der }),
            Err(_) => Err(CredentialError::Generation),
        }
    }
}

} // verus!
