use vstd::prelude::*;

use rustls::ServerConfig;

use crate::error::ErrorCode;

verus! {

/// The TLS server configuration built by rustls.
#[verifier::external_type_specification]
#[verifier::external_body]
pub struct ExServerConfig(rustls::ServerConfig);

/// The DER certificates that PEM text holds, in order, or the message of
/// the read error.
pub uninterp spec fn pem_certificates(pem: Seq<u8>) -> Result<Seq<Seq<u8>>, Seq<char>>;

/// The DER PKCS#8 private keys that PEM text holds, in order, or the message
/// of the read error.
pub uninterp spec fn pem_pkcs8_private_keys(pem: Seq<u8>) -> Result<Seq<Seq<u8>>, Seq<char>>;

/// The DER PKCS#1 RSA private keys that PEM text holds, in order, or the
/// message of the read error.
pub uninterp spec fn pem_rsa_private_keys(pem: Seq<u8>) -> Result<Seq<Seq<u8>>, Seq<char>>;

/// Calls `rustls_pemfile::certs` on the bytes of `pem`: the contract claims
/// that it returns the certificates that `pem_certificates` names, or the
/// message of its error.
#[verifier::external_body]
fn read_pem_certificates(pem: &[u8]) -> (r: Result<Vec<Vec<u8>>, String>)
    ensures
        match r {
            Ok(v) => pem_certificates(pem@) == Ok::<Seq<Seq<u8>>, Seq<char>>(v.deep_view()),
            Err(m) => pem_certificates(pem@) == Err::<Seq<Seq<u8>>, Seq<char>>(m@),
        },
{
    let mut reader: &[u8] = pem;
    rustls_pemfile::certs(&mut reader).map_err(|e| e.to_string())
}

/// Calls `rustls_pemfile::pkcs8_private_keys` on the bytes of `pem`: the
/// contract claims that it returns the keys that `pem_pkcs8_private_keys`
/// names, or the message of its error.
#[verifier::external_body]
fn read_pem_pkcs8_private_keys(pem: &[u8]) -> (r: Result<Vec<Vec<u8>>, String>)
    ensures
        match r {
            Ok(v) => pem_pkcs8_private_keys(pem@) == Ok::<Seq<Seq<u8>>, Seq<char>>(v.deep_view()),
            Err(m) => pem_pkcs8_private_keys(pem@) == Err::<Seq<Seq<u8>>, Seq<char>>(m@),
        },
{
    let mut reader: &[u8] = pem;
    rustls_pemfile::pkcs8_private_keys(&mut reader).map_err(|e| e.to_string())
}

/// Calls `rustls_pemfile::rsa_private_keys` on the bytes of `pem`: the
/// contract claims that it returns the keys that `pem_rsa_private_keys`
/// names, or the message of its error.
#[verifier::external_body]
fn read_pem_rsa_private_keys(pem: &[u8]) -> (r: Result<Vec<Vec<u8>>, String>)
    ensures
        match r {
            Ok(v) => pem_rsa_private_keys(pem@) == Ok::<Seq<Seq<u8>>, Seq<char>>(v.deep_view()),
            Err(m) => pem_rsa_private_keys(pem@) == Err::<Seq<Seq<u8>>, Seq<char>>(m@),
        },
{
    let mut reader: &[u8] = pem;
    rustls_pemfile::rsa_private_keys(&mut reader).map_err(|e| e.to_string())
}

/// The one message with which rustls refuses a certificate chain and key:
/// the key cannot be loaded as a signing key.
pub open spec fn invalid_private_key_message() -> Seq<char> {
    "unexpected error: invalid private key"@
}

/// Calls rustls's `ServerConfig::builder().with_safe_defaults()
/// .with_no_client_auth().with_single_cert(..)` on the DER certificates and
/// key. The contract claims only that a refusal carries the message of an
/// unusable private key, the one error this call makes. Whether it refuses is
/// left unsaid: loading an ECDSA key draws on the system's random generator,
/// so the outcome is not a function of the certificates and key alone. Nothing
/// is stated of the configuration it builds.
#[verifier::external_body]
fn build_single_cert_config(certs: Vec<Vec<u8>>, key: Vec<u8>) -> (r: Result<ServerConfig, String>)
    ensures
        r matches Err(m) ==> m@ == invalid_private_key_message(),
{
    ServerConfig::builder().with_safe_defaults().with_no_client_auth().with_single_cert(
        certs.into_iter().map(rustls::Certificate).collect(),
        rustls::PrivateKey(key),
    ).map_err(|e| e.to_string())
}

/// The private key that key PEM text provides: its first PKCS#8 key, else
/// its first RSA key, or the message of why there is none.
pub open spec fn spec_private_key(key_pem: Seq<u8>) -> Result<Seq<u8>, Seq<char>> {
    match pem_pkcs8_private_keys(key_pem) {
        Err(m) => Err(m),
        Ok(pkcs8) => if pkcs8.len() > 0 {
            Ok(pkcs8[0])
        } else {
            match pem_rsa_private_keys(key_pem) {
                Err(m) => Err(m),
                Ok(rsa) => if rsa.len() > 0 {
                    Ok(rsa[0])
                } else {
                    Err("invalid key"@)
                },
            }
        },
    }
}

/// What setting up TLS comes to before rustls is asked to build the
/// configuration.
pub enum TlsSetupOutcome {
    /// TLS is not configured.
    Disabled,
    /// The certificates and the chosen key go to rustls.
    Ready { certs: Seq<Seq<u8>>, key: Seq<u8> },
    /// The certificate or key text cannot be used, for the reason given.
    Failed(Seq<char>),
}

/// What setting up TLS comes to, up to the call of rustls, for a
/// configuration that is `enabled`, with the given certificate and key PEM
/// text.
pub open spec fn spec_setup_outcome(enabled: bool, cert_pem: Seq<u8>, key_pem: Seq<u8>) -> TlsSetupOutcome {
    if !enabled {
        TlsSetupOutcome::Disabled
    } else {
        match pem_certificates(cert_pem) {
            Err(m) => TlsSetupOutcome::Failed(m),
            Ok(certs) => match spec_private_key(key_pem) {
                Err(m) => TlsSetupOutcome::Failed(m),
                Ok(key) => TlsSetupOutcome::Ready { certs, key },
            },
        }
    }
}

/// Where the MySQL handler finds its TLS certificate and key.
pub struct MySQLTlsConfig {
    cert_path: String,
    key_path: String,
}

impl MySQLTlsConfig {
    /// The certificate path.
    pub closed spec fn spec_cert_path(&self) -> Seq<char> {
        self.cert_path@
    }

    /// The key path.
    pub closed spec fn spec_key_path(&self) -> Seq<char> {
        self.key_path@
    }

    /// TLS is configured when both paths are given.
    pub open spec fn spec_enabled(&self) -> bool {
        self.spec_cert_path().len() > 0 && self.spec_key_path().len() > 0
    }

    /// A configuration with the given certificate and key paths.
    pub fn new(cert_path: String, key_path: String) -> (r: Self)
        ensures
            r.spec_cert_path() == cert_path@,
            r.spec_key_path() == key_path@,
    {
        MySQLTlsConfig { cert_path, key_path }
    }

    /// The certificate path.
    pub fn cert_path(&self) -> (r: &str)
        ensures
            r@ == self.spec_cert_path(),
    {
        self.cert_path.as_str()
    }

    /// The key path.
    pub fn key_path(&self) -> (r: &str)
        ensures
            r@ == self.spec_key_path(),
    {
        self.key_path.as_str()
    }

    /// Whether both a certificate path and a key path are given.
    pub fn enabled(&self) -> (r: bool)
        ensures
            r == self.spec_enabled(),
    {
        !self.cert_path.as_str().is_empty() && !self.key_path.as_str().is_empty()
    }

    /// The certificate chain and the private key for rustls, read from the
    /// PEM text of the certificate file and of the key file; `None` where TLS
    /// is not configured, in which case neither text is read.
    pub fn tls_material(&self, cert_pem: &[u8], key_pem: &[u8]) -> (r: Result<
        Option<(Vec<Vec<u8>>, Vec<u8>)>,
        ErrorCode,
    >)
        ensures
            r matches Ok(None) <==> !self.spec_enabled(),
            r matches Ok(Some((c, k))) ==> spec_setup_outcome(
                self.spec_enabled(),
                cert_pem@,
                key_pem@,
            ) == (TlsSetupOutcome::Ready { certs: c.deep_view(), key: k@ }),
            r matches Err(e) ==> e is TLSConfigurationFailure && spec_setup_outcome(
                self.spec_enabled(),
                cert_pem@,
                key_pem@,
            ) == TlsSetupOutcome::Failed(e.spec_message()),
    {
        if !self.enabled() {
            return Ok(None);
        }
        let certs = certificates_from_pem(cert_pem)?;
        let key = private_key_from_pem(key_pem)?;
        Ok(Some((certs, key)))
    }

    /// Builds the TLS server configuration from the PEM text of the
    /// certificate file and of the key file; `None` where TLS is not
    /// configured, in which case neither text is read. The certificate chain
    /// and key that `tls_material` finds go to rustls unchanged, which either
    /// builds the configuration or refuses the key.
    pub fn setup(&self, cert_pem: &[u8], key_pem: &[u8]) -> (r: Result<Option<ServerConfig>, ErrorCode>)
        ensures
            match r {
                Ok(None) => spec_setup_outcome(self.spec_enabled(), cert_pem@, key_pem@)
                    == TlsSetupOutcome::Disabled,
                Ok(Some(_)) => spec_setup_outcome(self.spec_enabled(), cert_pem@, key_pem@) is Ready,
                Err(e) => e is TLSConfigurationFailure && (spec_setup_outcome(
                    self.spec_enabled(),
                    cert_pem@,
                    key_pem@,
                ) == TlsSetupOutcome::Failed(e.spec_message()) || (spec_setup_outcome(
                    self.spec_enabled(),
                    cert_pem@,
                    key_pem@,
                ) is Ready && e.spec_message() == invalid_private_key_message())),
            },
    {
        match self.tls_material(cert_pem, key_pem)? {
            None => Ok(None),
            Some((certs, key)) => {
                let config = server_config_from_material(certs, key)?;
                Ok(Some(config))
            },
        }
    }
}

/// The certificate chain that certificate PEM text holds, in order.
pub fn certificates_from_pem(cert_pem: &[u8]) -> (r: Result<Vec<Vec<u8>>, ErrorCode>)
    ensures
        match r {
            Ok(c) => pem_certificates(cert_pem@) == Ok::<Seq<Seq<u8>>, Seq<char>>(c.deep_view()),
            Err(e) => e is TLSConfigurationFailure && pem_certificates(cert_pem@)
                == Err::<Seq<Seq<u8>>, Seq<char>>(e.spec_message()),
        },
{
    match read_pem_certificates(cert_pem) {
        Ok(c) => Ok(c),
        Err(m) => Err(ErrorCode::TLSConfigurationFailure(m)),
    }
}

/// The private key that key PEM text provides: its first PKCS#8 key, else
/// its first RSA key; an error where it holds neither.
pub fn private_key_from_pem(key_pem: &[u8]) -> (r: Result<Vec<u8>, ErrorCode>)
    ensures
        match r {
            Ok(k) => spec_private_key(key_pem@) == Ok::<Seq<u8>, Seq<char>>(k@),
            Err(e) => e is TLSConfigurationFailure && spec_private_key(key_pem@)
                == Err::<Seq<u8>, Seq<char>>(e.spec_message()),
        },
{
    let mut pkcs8 = match read_pem_pkcs8_private_keys(key_pem) {
        Ok(k) => k,
        Err(m) => return Err(ErrorCode::TLSConfigurationFailure(m)),
    };
    if pkcs8.len() > 0 {
        assert(pkcs8.deep_view()[0] == pkcs8@[0]@);
        return Ok(pkcs8.remove(0));
    }
    let mut rsa = match read_pem_rsa_private_keys(key_pem) {
        Ok(k) => k,
        Err(m) => return Err(ErrorCode::TLSConfigurationFailure(m)),
    };
    if rsa.len() > 0 {
        assert(rsa.deep_view()[0] == rsa@[0]@);
        Ok(rsa.remove(0))
    } else {
        Err(ErrorCode::TLSConfigurationFailure(String::from_str("invalid key")))
    }
}

/// Asks rustls for a server configuration with the safe defaults, no client
/// authentication and the given certificate chain and key; a refusal is a
/// TLS configuration failure with rustls's message.
pub fn server_config_from_material(certs: Vec<Vec<u8>>, key: Vec<u8>) -> (r: Result<ServerConfig, ErrorCode>)
    ensures
        r matches Err(e) ==> e is TLSConfigurationFailure && e.spec_message()
            == invalid_private_key_message(),
{
    match build_single_cert_config(certs, key) {
        Ok(config) => Ok(config),
        Err(m) => Err(ErrorCode::TLSConfigurationFailure(m)),
    }
}

impl Default for MySQLTlsConfig {
    fn default() -> (r: Self)
        ensures
            r.spec_cert_path() == Seq::<char>::empty(),
            r.spec_key_path() == Seq::<char>::empty(),
    {
        MySQLTlsConfig { cert_path: String::new(), key_path: String::new() }
    }
}

/// TLS is configured exactly when both a certificate path and a key path
/// are given, whatever they are; in particular one file may hold both the
/// certificate and the key.
pub proof fn law_tls_enabled(config: MySQLTlsConfig)
    ensures
        config.spec_enabled() <==> (config.spec_cert_path().len() > 0
            && config.spec_key_path().len() > 0),
        config.spec_cert_path() == config.spec_key_path() && config.spec_cert_path().len() > 0
            ==> config.spec_enabled(),
        config.spec_cert_path().len() == 0 ==> !config.spec_enabled(),
        config.spec_key_path().len() == 0 ==> !config.spec_enabled(),
{
}

} // verus!
