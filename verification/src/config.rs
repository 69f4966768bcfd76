//! The configuration loader: from PEM text to the TLS server configuration
//! that every connection of a worker shares.
//!
//! A configuration needs at least one certificate and a private key that the
//! TLS library can use.  Without them none is built.

use crate::engine::chain_of;
use crate::engine::key_of;
use crate::engine::opens;
use crate::engine::share;
use std::sync::Arc;
use vstd::prelude::*;

verus! {

/// One recognised section of a PEM file, with its DER bytes.
#[derive(Debug)]
pub enum PemItem {
    /// An X.509 certificate.
    Certificate(Vec<u8>),
    /// An RSA private key (PKCS#1).
    RsaKey(Vec<u8>),
    /// A private key in PKCS#8.
    Pkcs8Key(Vec<u8>),
}

/// A PEM section as a value: its kind and its DER bytes.
pub enum PemSection {
    /// An X.509 certificate.
    Certificate(Seq<u8>),
    /// An RSA private key (PKCS#1).
    RsaKey(Seq<u8>),
    /// A private key in PKCS#8.
    Pkcs8Key(Seq<u8>),
}

impl View for PemItem {
    type V = PemSection;

    open spec fn view(&self) -> PemSection {
        match self {
            PemItem::Certificate(der) => PemSection::Certificate(der@),
            PemItem::RsaKey(der) => PemSection::RsaKey(der@),
            PemItem::Pkcs8Key(der) => PemSection::Pkcs8Key(der@),
        }
    }
}

/// The certificate chain and the private key that a configuration is built from.
#[derive(Debug)]
pub struct KeyMaterial {
    /// The certificates, in the order of the file.
    pub certificates: Vec<Vec<u8>>,
    /// The private key.
    pub private_key: Vec<u8>,
}

/// Key material as a value.
pub struct Material {
    /// The certificates, in the order of the file.
    pub certificates: Seq<Seq<u8>>,
    /// The private key.
    pub private_key: Seq<u8>,
}

impl View for KeyMaterial {
    type V = Material;

    open spec fn view(&self) -> Material {
        Material {
            certificates: self.certificates@.map_values(|der: Vec<u8>| der@),
            private_key: self.private_key@,
        }
    }
}

/// Why no configuration was built.
#[derive(Clone, Copy, Debug, PartialEq, Eq, Structural)]
pub enum ConfigError {
    /// The text is not well-formed PEM.
    Malformed,
    /// The text holds no certificate.
    NoCertificate,
    /// The text holds no private key.
    NoPrivateKey,
    /// The TLS library cannot use the private key.
    UnusableKey,
}

/// The TLS server configuration of a worker.  It is built once and then only
/// read; clones share it.
pub struct TlsConfig {
    shared: Arc<rustls::ServerConfig>,
}

impl TlsConfig {
    /// A TLS session can be opened with the configuration.
    #[verifier::type_invariant]
    spec fn inv(self) -> bool {
        opens(*self.shared)
    }

    /// The certificate chain of the configuration, as DER, in order.
    pub closed spec fn certificates(&self) -> Seq<Seq<u8>> {
        chain_of(*self.shared)
    }

    /// The DER of the private key of the configuration.
    pub closed spec fn private_key(&self) -> Seq<u8> {
        key_of(*self.shared)
    }

    /// The key material that the configuration was built from.
    pub open spec fn material(&self) -> Material {
        Material { certificates: self.certificates(), private_key: self.private_key() }
    }

    /// The shared configuration, with which a session can be opened.
    pub(crate) fn shared(&self) -> (shared: &Arc<rustls::ServerConfig>)
        ensures
            opens(**shared),
    {
        proof {
            use_type_invariant(self);
        }
        &self.shared
    }
}

impl Clone for TlsConfig {
    /// Another handle on the same configuration.
    fn clone(&self) -> (other: TlsConfig)
        ensures
            other.material() == self.material(),
    {
        proof {
            use_type_invariant(self);
        }
        TlsConfig { shared: share(&self.shared) }
    }
}

/// The views of `items`, in order.
pub open spec fn sections_of(items: Seq<PemItem>) -> Seq<PemSection> {
    items.map_values(|item: PemItem| item@)
}

/// The certificates among `sections`, in order.
pub open spec fn certificates_of(sections: Seq<PemSection>) -> Seq<Seq<u8>>
    decreases sections.len(),
{
    if sections.len() == 0 {
        Seq::empty()
    } else {
        let front = certificates_of(sections.drop_last());
        match sections.last() {
            PemSection::Certificate(der) => front.push(der),
            _ => front,
        }
    }
}

/// The private keys among `sections`, of either kind, in order.
pub open spec fn keys_of(sections: Seq<PemSection>) -> Seq<Seq<u8>>
    decreases sections.len(),
{
    if sections.len() == 0 {
        Seq::empty()
    } else {
        let front = keys_of(sections.drop_last());
        match sections.last() {
            PemSection::Certificate(_) => front,
            PemSection::RsaKey(der) => front.push(der),
            PemSection::Pkcs8Key(der) => front.push(der),
        }
    }
}

/// The key material in `sections`: all the certificates, and the first
/// private key.  Without a certificate, or without a key, there is none.
pub open spec fn selection(sections: Seq<PemSection>) -> Result<Material, ConfigError> {
    if certificates_of(sections).len() == 0 {
        Err(ConfigError::NoCertificate)
    } else if keys_of(sections).len() == 0 {
        Err(ConfigError::NoPrivateKey)
    } else {
        Ok(
            Material {
                certificates: certificates_of(sections),
                private_key: keys_of(sections)[0],
            },
        )
    }
}

/// Picks the key material out of the sections of a PEM file.
pub fn select_material(items: Vec<PemItem>) -> (r: Result<KeyMaterial, ConfigError>)
    ensures
        match r {
            Ok(material) => selection(sections_of(items@)) == Ok::<Material, ConfigError>(
                material@,
            ),
            Err(e) => selection(sections_of(items@)) == Err::<Material, ConfigError>(e),
        },
{
    let ghost all = sections_of(items@);
    let mut certificates: Vec<Vec<u8>> = Vec::new();
    let mut private_key: Option<Vec<u8>> = None;
    for item in it: items
        invariant
            it.seq() == items@,
            certificates@.map_values(|der: Vec<u8>| der@) == certificates_of(
                all.take(it.index() as int),
            ),
            all == sections_of(items@),
            match private_key {
                Some(key) => keys_of(all.take(it.index() as int)).len() > 0 && keys_of(
                    all.take(it.index() as int),
                )[0] == key@,
                None => keys_of(all.take(it.index() as int)).len() == 0,
            },
    {
        proof {
            let n = it.index() as int;
            assert(all.take(n + 1).drop_last() =~= all.take(n));
            assert(all.take(n + 1).last() == item@);
        }
        let ghost before = certificates@;
        match item {
            PemItem::Certificate(der) => {
                certificates.push(der);
                assert(certificates@.map_values(|der: Vec<u8>| der@) =~= before.map_values(
                    |der: Vec<u8>| der@,
                ).push(der@));
            },
            PemItem::RsaKey(der) => {
                if private_key.is_none() {
                    private_key = Some(der);
                }
            },
            PemItem::Pkcs8Key(der) => {
                if private_key.is_none() {
                    private_key = Some(der);
                }
            },
        }
    }
    assert(all.take(items@.len() as int) =~= all);
    if certificates.len() == 0 {
        Err(ConfigError::NoCertificate)
    } else {
        match private_key {
            None => Err(ConfigError::NoPrivateKey),
            Some(key) => Ok(KeyMaterial { certificates, private_key: key }),
        }
    }
}

/// What stands at the head of a PEM text.
pub enum Head {
    /// The text is not well-formed PEM.
    Malformed,
    /// No recognised section is left in the text.
    End,
    /// A recognised section, and the number of bytes of the text behind it.
    Section { section: PemSection, left: nat },
}

/// The head of `pem`, as `rustls_pemfile` reads it.
pub uninterp spec fn head_of(pem: Seq<u8>) -> Head;

/// Whether the TLS library can use `key` as a private key.
pub uninterp spec fn usable_key(key: Seq<u8>) -> bool;

/// The recognised sections of `pem` in order, or `None` where the text is not
/// well-formed PEM.
pub open spec fn sections(pem: Seq<u8>) -> Option<Seq<PemSection>>
    decreases pem.len(),
{
    match head_of(pem) {
        Head::Malformed => None,
        Head::End => Some(Seq::empty()),
        Head::Section { section, left } => if left < pem.len() {
            match sections(pem.skip(pem.len() - left)) {
                Some(others) => Some(seq![section] + others),
                None => None,
            }
        } else {
            None
        },
    }
}

/// Why no configuration is built from `pem`, or `None` where one is.
pub open spec fn config_error(pem: Seq<u8>) -> Option<ConfigError> {
    match sections(pem) {
        None => Some(ConfigError::Malformed),
        Some(found) => match selection(found) {
            Err(e) => Some(e),
            Ok(material) => if usable_key(material.private_key) {
                None
            } else {
                Some(ConfigError::UnusableKey)
            },
        },
    }
}

/// `rustls_pemfile::read_one`, reading from `pem`.  What it returns depends on
/// the text alone.  Where it returns a section, it has read that section from
/// the front of the text: what it hands back as the rest is the end of `pem`,
/// and shorter than `pem`.  In an empty text it finds no section.
#[verifier::external_body]
fn read_section<'a>(pem: &'a [u8]) -> (r: Result<Option<(PemItem, &'a [u8])>, std::io::Error>)
    ensures
        pem@.len() == 0 ==> (r matches Ok(None)),
        match r {
            Err(_) => head_of(pem@) is Malformed,
            Ok(None) => head_of(pem@) is End,
            Ok(Some((item, rest))) => {
                &&& head_of(pem@) == (Head::Section { section: item@, left: rest@.len() })
                &&& rest@.len() < pem@.len()
                &&& rest@ == pem@.skip(pem@.len() - rest@.len())
            },
        },
{
    let mut rest: &[u8] = pem;
    let item = rustls_pemfile::read_one(&mut rest)?;
    Ok(
        item.map(
            |item| match item {
                rustls_pemfile::Item::X509Certificate(der) => (PemItem::Certificate(der), rest),
                rustls_pemfile::Item::RSAKey(der) => (PemItem::RsaKey(der), rest),
                rustls_pemfile::Item::PKCS8Key(der) => (PemItem::Pkcs8Key(der), rest),
            },
        ),
    )
}

/// `rustls::ServerConfig::builder` with the safe defaults, no client
/// authentication, and `with_single_cert` on the chain and the key.  It fails
/// exactly where rustls cannot use the key, which depends on the key alone.
/// The configuration that it builds holds the chain as it was given, was made
/// with the key that was given, and sets no limit on the size of fragments,
/// so that sessions can be opened with it.
#[verifier::external_body]
fn build_server_config(material: KeyMaterial) -> (r: Result<rustls::ServerConfig, rustls::Error>)
    ensures
        r is Ok <==> usable_key(material@.private_key),
        r matches Ok(config) ==> {
            &&& opens(config)
            &&& chain_of(config) == material@.certificates
            &&& key_of(config) == material@.private_key
        },
{
    let chain = material.certificates.into_iter().map(rustls::Certificate).collect();
    rustls::ServerConfig::builder()
        .with_safe_defaults()
        .with_no_client_auth()
        .with_single_cert(chain, rustls::PrivateKey(material.private_key))
}

/// Reads the recognised sections of a PEM text, in order.  An empty text
/// has none.
pub fn read_items(pem: &[u8]) -> (r: Result<Vec<PemItem>, ConfigError>)
    ensures
        match r {
            Ok(items) => sections(pem@) == Some(sections_of(items@)),
            Err(e) => e == ConfigError::Malformed && sections(pem@) is None,
        },
        pem@.len() == 0 ==> sections(pem@) == Some(Seq::<PemSection>::empty()),
{
    let mut items: Vec<PemItem> = Vec::new();
    let mut rest: &[u8] = pem;
    loop
        invariant
            sections(pem@) == match sections(rest@) {
                Some(others) => Some(sections_of(items@) + others),
                None => None,
            },
            pem@.len() == 0 ==> rest@.len() == 0 && items@.len() == 0,
        decreases rest@.len(),
    {
        match read_section(rest) {
            Err(_) => {
                return Err(ConfigError::Malformed);
            },
            Ok(None) => {
                assert(sections_of(items@) + Seq::<PemSection>::empty() =~= sections_of(items@));
                return Ok(items);
            },
            Ok(Some((item, behind))) => {
                let ghost before = sections_of(items@);
                let ghost section = item@;
                items.push(item);
                proof {
                    assert(sections_of(items@) =~= before.push(section));
                    match sections(behind@) {
                        Some(others) => {
                            assert(before + (seq![section] + others) =~= before.push(section)
                                + others);
                        },
                        None => {},
                    }
                }
                rest = behind;
            },
        }
    }
}

/// The key material in `pem`, or `None` where the text is not well-formed
/// PEM or lacks a certificate or a key.
pub open spec fn material_of(pem: Seq<u8>) -> Option<Material> {
    match sections(pem) {
        None => None,
        Some(found) => match selection(found) {
            Err(_) => None,
            Ok(material) => Some(material),
        },
    }
}

/// Builds the TLS server configuration of a worker from PEM text that holds
/// its certificate chain and its private key.  Of several private keys the
/// first one counts.  From an empty text nothing is built, for want of a
/// certificate.  The configuration is built from all the certificates of the
/// text, in order, and from its first private key.
pub fn create_tls_config(pem: &[u8]) -> (r: Result<TlsConfig, ConfigError>)
    ensures
        match r {
            Ok(config) => config_error(pem@) is None && material_of(pem@) == Some(
                config.material(),
            ),
            Err(e) => config_error(pem@) == Some(e),
        },
        pem@.len() == 0 ==> config_error(pem@) == Some(ConfigError::NoCertificate),
{
    let items = match read_items(pem) {
        Ok(items) => items,
        Err(e) => {
            return Err(e);
        },
    };
    let material = match select_material(items) {
        Ok(material) => material,
        Err(e) => {
            return Err(e);
        },
    };
    match build_server_config(material) {
        Ok(config) => Ok(TlsConfig { shared: Arc::new(config) }),
        Err(_) => Err(ConfigError::UnusableKey),
    }
}

} // verus!
