//! Loading the server's TLS credential from PEM data.

use vstd::prelude::*;

verus! {

/// The server-side configuration of the TLS library. Its contents are not
/// visible here: it is carried to the listener as it is.
#[verifier::external_type_specification]
#[verifier::external_body]
pub struct ExServerConfig(rustls::ServerConfig);

/// The TLS library's error. Its contents are not visible here.
#[verifier::external_type_specification]
#[verifier::external_body]
pub struct ExTlsError(rustls::Error);

/// The DER contents of the certificate sections of a PEM text, in the order of
/// the text, as `rustls_pemfile::certs` extracts them; `None` where it reports
/// an error.
pub uninterp spec fn pem_certificates(pem: Seq<u8>) -> Option<Seq<Seq<u8>>>;

/// The DER contents of the PKCS#8 private key sections of a PEM text, in the
/// order of the text, as `rustls_pemfile::pkcs8_private_keys` extracts them;
/// `None` where it reports an error.
pub uninterp spec fn pem_pkcs8_keys(pem: Seq<u8>) -> Option<Seq<Seq<u8>>>;

/// Whether the TLS library's server configuration builder accepts a
/// certificate chain and a private key as its single certificate.
pub uninterp spec fn single_cert_accepted(chain: Seq<Seq<u8>>, key: Seq<u8>) -> bool;

/// Calls `rustls_pemfile::certs` on an in-memory PEM text. The contract names
/// what it returns, with `None` for its error, and states that an empty text
/// holds no certificate and is no error.
#[verifier::external_body]
fn parse_certificates(pem: &[u8]) -> (r: Option<Vec<Vec<u8>>>)
    ensures
        r.deep_view() == pem_certificates(pem@),
        pem@.len() == 0 ==> r.deep_view() == Some(Seq::<Seq<u8>>::empty()),
{
    let mut reader = pem;
    rustls_pemfile::certs(&mut reader).ok()
}

/// Calls `rustls_pemfile::pkcs8_private_keys` on an in-memory PEM text. The
/// contract names what it returns, with `None` for its error, and states that
/// an empty text holds no key and is no error.
#[verifier::external_body]
fn parse_pkcs8_keys(pem: &[u8]) -> (r: Option<Vec<Vec<u8>>>)
    ensures
        r.deep_view() == pem_pkcs8_keys(pem@),
        pem@.len() == 0 ==> r.deep_view() == Some(Seq::<Seq<u8>>::empty()),
{
    let mut reader = pem;
    rustls_pemfile::pkcs8_private_keys(&mut reader).ok()
}

/// Calls the builder of `rustls::ServerConfig` with the library's safe default
/// cipher suites, key exchange groups and protocol versions, without client
/// authentication, and `with_single_cert` on the chain and the key. The
/// contract names whether the builder accepts the pair.
#[verifier::external_body]
fn build_server_config(chain: &Vec<Vec<u8>>, key: &Vec<u8>) -> (r: Result<
    rustls::ServerConfig,
    rustls::Error,
>)
    ensures
        r is Ok <==> single_cert_accepted(chain.deep_view(), key@),
{
    let certs: Vec<rustls::Certificate> = chain.iter().map(|c| rustls::Certificate(c.clone())).collect();
    rustls::ServerConfig::builder()
        .with_safe_defaults()
        .with_no_client_auth()
        .with_single_cert(certs, rustls::PrivateKey(key.clone()))
}

/// Calls `to_string` on a `rustls::Error`: the library's own wording of its
/// complaint. Nothing is claimed of the text.
#[verifier::external_body]
fn tls_error_text(e: &rustls::Error) -> (r: String) {
    e.to_string()
}

/// Why no credential could be loaded.
#[derive(Debug)]
pub enum TlsLoadError {
    /// The certificate file could not be read.
    CertificateRead,
    /// The certificate file is no valid PEM text, or holds no certificate.
    CertificateParse,
    /// The key file could not be read.
    KeyRead,
    /// The key file is no valid PEM text.
    KeyParse,
    /// The key file holds no PKCS#8 private key.
    NoPrivateKeyFound,
    /// The TLS library refused the chain and the key, with its complaint.
    TlsConfiguration(rustls::Error),
}

/// What kind of error a `TlsLoadError` is, without the TLS library's complaint.
#[derive(Debug, Clone, Copy, PartialEq, Eq, Structural)]
pub enum TlsLoadErrorKind {
    CertificateRead,
    CertificateParse,
    KeyRead,
    KeyParse,
    NoPrivateKeyFound,
    TlsConfiguration,
}

impl TlsLoadError {
    /// The kind of this error.
    pub open spec fn spec_kind(&self) -> TlsLoadErrorKind {
        match self {
            TlsLoadError::CertificateRead => TlsLoadErrorKind::CertificateRead,
            TlsLoadError::CertificateParse => TlsLoadErrorKind::CertificateParse,
            TlsLoadError::KeyRead => TlsLoadErrorKind::KeyRead,
            TlsLoadError::KeyParse => TlsLoadErrorKind::KeyParse,
            TlsLoadError::NoPrivateKeyFound => TlsLoadErrorKind::NoPrivateKeyFound,
            TlsLoadError::TlsConfiguration(_) => TlsLoadErrorKind::TlsConfiguration,
        }
    }

    /// The kind of this error.
    #[verifier::when_used_as_spec(spec_kind)]
    pub fn kind(&self) -> (k: TlsLoadErrorKind)
        ensures
            k == self.spec_kind(),
    {
        match self {
            TlsLoadError::CertificateRead => TlsLoadErrorKind::CertificateRead,
            TlsLoadError::CertificateParse => TlsLoadErrorKind::CertificateParse,
            TlsLoadError::KeyRead => TlsLoadErrorKind::KeyRead,
            TlsLoadError::KeyParse => TlsLoadErrorKind::KeyParse,
            TlsLoadError::NoPrivateKeyFound => TlsLoadErrorKind::NoPrivateKeyFound,
            TlsLoadError::TlsConfiguration(_) => TlsLoadErrorKind::TlsConfiguration,
        }
    }

    /// A description of this error that names the input that failed. For a
    /// refusal by the TLS library it is `TLS error: ` and the library's
    /// complaint.
    pub fn message(&self) -> (r: String)
        ensures
            self.kind() == TlsLoadErrorKind::CertificateRead ==> r@
                == "cannot read the certificate file"@,
            self.kind() == TlsLoadErrorKind::CertificateParse ==> r@
                == "no certificate found"@,
            self.kind() == TlsLoadErrorKind::KeyRead ==> r@ == "cannot read the key file"@,
            self.kind() == TlsLoadErrorKind::KeyParse ==> r@ == "cannot parse the key file"@,
            self.kind() == TlsLoadErrorKind::NoPrivateKeyFound ==> r@ == "no private key found"@,
            self.kind() == TlsLoadErrorKind::TlsConfiguration ==> "TLS error: "@.is_prefix_of(r@),
    {
        match self {
            TlsLoadError::CertificateRead => "cannot read the certificate file".to_owned(),
            TlsLoadError::CertificateParse => "no certificate found".to_owned(),
            TlsLoadError::KeyRead => "cannot read the key file".to_owned(),
            TlsLoadError::KeyParse => "cannot parse the key file".to_owned(),
            TlsLoadError::NoPrivateKeyFound => "no private key found".to_owned(),
            TlsLoadError::TlsConfiguration(e) => {
                let text = tls_error_text(e);
                let r = "TLS error: ".to_owned().concat(text.as_str());
                assert("TLS error: "@ =~= r@.subrange(0, "TLS error: "@.len() as int));
                r
            },
        }
    }
}

/// A server's TLS credential: its certificate chain, leaf first, its private
/// key, and the TLS library's configuration that was built from the two.
pub struct TlsServerCredential {
    /// The DER-encoded certificates, in the order of the certificate file.
    pub certificate_chain: Vec<Vec<u8>>,
    /// The DER-encoded private key.
    pub private_key: Vec<u8>,
    /// The configuration to terminate connections with.
    pub server_config: rustls::ServerConfig,
}

impl TlsServerCredential {
    /// A credential has at least one certificate, and the TLS library has
    /// accepted its chain and key.
    pub open spec fn wf(&self) -> bool {
        &&& self.certificate_chain@.len() > 0
        &&& single_cert_accepted(self.certificate_chain.deep_view(), self.private_key@)
    }
}

/// What loading comes to, for given contents of the two files.
pub enum LoadOutcome {
    /// A credential of this chain and key.
    Loaded { chain: Seq<Seq<u8>>, key: Seq<u8> },
    /// An error of this kind.
    Failed(TlsLoadErrorKind),
}

/// What becomes of the certificates that were parsed from the certificate
/// file: the chain in the order of the file, where the text was valid and held
/// at least one.
pub open spec fn chain_selection(parsed: Option<Seq<Seq<u8>>>) -> Result<
    Seq<Seq<u8>>,
    TlsLoadErrorKind,
> {
    match parsed {
        Some(certs) if certs.len() > 0 => Ok(certs),
        _ => Err(TlsLoadErrorKind::CertificateParse),
    }
}

/// What becomes of the keys that were parsed from the key file: the last of
/// them, where the text was valid and held at least one.
pub open spec fn key_selection(parsed: Option<Seq<Seq<u8>>>) -> Result<Seq<u8>, TlsLoadErrorKind> {
    match parsed {
        None => Err(TlsLoadErrorKind::KeyParse),
        Some(keys) => if keys.len() == 0 {
            Err(TlsLoadErrorKind::NoPrivateKeyFound)
        } else {
            Ok(keys.last())
        },
    }
}

/// What loading comes to, given what the files hold (`None` for a file that
/// could not be read). The first step that fails decides: reading the
/// certificate file, parsing it, reading the key file, parsing it, selecting
/// the key, building the configuration.
pub open spec fn load_outcome(cert_file: Option<Seq<u8>>, key_file: Option<Seq<u8>>) -> LoadOutcome {
    match cert_file {
        None => LoadOutcome::Failed(TlsLoadErrorKind::CertificateRead),
        Some(cert_pem) => match chain_selection(pem_certificates(cert_pem)) {
            Err(kind) => LoadOutcome::Failed(kind),
            Ok(chain) => match key_file {
                None => LoadOutcome::Failed(TlsLoadErrorKind::KeyRead),
                Some(key_pem) => match key_selection(pem_pkcs8_keys(key_pem)) {
                    Err(kind) => LoadOutcome::Failed(kind),
                    Ok(key) => if single_cert_accepted(chain, key) {
                        LoadOutcome::Loaded { chain, key }
                    } else {
                        LoadOutcome::Failed(TlsLoadErrorKind::TlsConfiguration)
                    },
                },
            },
        },
    }
}

/// Whether a certificate file was read and holds a valid PEM text with at
/// least one certificate.
pub open spec fn holds_chain(cert_file: Option<Seq<u8>>) -> bool {
    cert_file matches Some(cert_pem) && chain_selection(pem_certificates(cert_pem)) is Ok
}

/// The bytes of a file that was read, `None` for one that could not be read.
pub open spec fn file_view(file: Option<&[u8]>) -> Option<Seq<u8>> {
    match file {
        Some(bytes) => Some(bytes@),
        None => None,
    }
}

/// The outcome that a result of loading stands for.
pub open spec fn outcome_of(r: Result<TlsServerCredential, TlsLoadError>) -> LoadOutcome {
    match r {
        Ok(credential) => LoadOutcome::Loaded {
            chain: credential.certificate_chain.deep_view(),
            key: credential.private_key@,
        },
        Err(e) => LoadOutcome::Failed(e.kind()),
    }
}

/// Takes the certificate chain from what was parsed from the certificate file
/// (`None` for a text that is no valid PEM): all certificates, in their order.
/// A text without a certificate is a parse error.
pub fn select_chain(parsed: Option<Vec<Vec<u8>>>) -> (r: Result<Vec<Vec<u8>>, TlsLoadError>)
    ensures
        match chain_selection(parsed.deep_view()) {
            Ok(chain) => r is Ok && r->Ok_0.deep_view() == chain,
            Err(kind) => r is Err && r->Err_0.kind() == kind,
        },
        r is Ok ==> Some(r->Ok_0) == parsed,
{
    match parsed {
        Some(certs) => {
            if certs.len() > 0 {
                Ok(certs)
            } else {
                Err(TlsLoadError::CertificateParse)
            }
        },
        None => Err(TlsLoadError::CertificateParse),
    }
}

/// Takes the private key from what was parsed from the key file (`None` for a
/// text that is no valid PEM): the last key of the file.
pub fn select_key(parsed: Option<Vec<Vec<u8>>>) -> (r: Result<Vec<u8>, TlsLoadError>)
    ensures
        match key_selection(parsed.deep_view()) {
            Ok(key) => r is Ok && r->Ok_0@ == key,
            Err(kind) => r is Err && r->Err_0.kind() == kind,
        },
{
    match parsed {
        Some(mut keys) => {
            match keys.pop() {
                Some(key) => Ok(key),
                None => Err(TlsLoadError::NoPrivateKeyFound),
            }
        },
        None => Err(TlsLoadError::KeyParse),
    }
}

/// Loads the server's credential from the contents of the certificate file and
/// of the key file, each `None` where the file could not be read.
///
/// The chain is every certificate of the certificate file, in file order; the
/// key is the last PKCS#8 key of the key file.
pub fn load_tls(cert_file: Option<&[u8]>, key_file: Option<&[u8]>) -> (r: Result<
    TlsServerCredential,
    TlsLoadError,
>)
    ensures
        outcome_of(r) == load_outcome(file_view(cert_file), file_view(key_file)),
        r is Ok ==> r->Ok_0.wf(),
        holds_chain(file_view(cert_file)) && file_view(key_file) == Some(Seq::<u8>::empty())
            ==> r is Err && r->Err_0.kind() == TlsLoadErrorKind::NoPrivateKeyFound,
{
    let cert_pem = match cert_file {
        Some(bytes) => bytes,
        None => {
            return Err(TlsLoadError::CertificateRead);
        },
    };
    let certificate_chain = match select_chain(parse_certificates(cert_pem)) {
        Ok(chain) => chain,
        Err(e) => {
            return Err(e);
        },
    };
    let key_pem = match key_file {
        Some(bytes) => bytes,
        None => {
            return Err(TlsLoadError::KeyRead);
        },
    };
    let private_key = match select_key(parse_pkcs8_keys(key_pem)) {
        Ok(key) => key,
        Err(e) => {
            return Err(e);
        },
    };
    match build_server_config(&certificate_chain, &private_key) {
        Ok(server_config) => Ok(TlsServerCredential { certificate_chain, private_key, server_config }),
        Err(e) => Err(TlsLoadError::TlsConfiguration(e)),
    }
}

/// Where the certificate file holds a valid PEM text with at least one
/// certificate, the key file a valid PEM text with at least one PKCS#8 key, and
/// the TLS library accepts the chain with the last key, loading succeeds: the
/// credential's chain is every certificate of the file, in file order, and has
/// as many entries as the file has certificate sections.
pub proof fn law_valid_files_load(cert_pem: Seq<u8>, key_pem: Seq<u8>)
    requires
        pem_certificates(cert_pem) is Some,
        pem_certificates(cert_pem)->Some_0.len() > 0,
        pem_pkcs8_keys(key_pem) is Some,
        pem_pkcs8_keys(key_pem)->Some_0.len() > 0,
        single_cert_accepted(
            pem_certificates(cert_pem)->Some_0,
            pem_pkcs8_keys(key_pem)->Some_0.last(),
        ),
    ensures
        load_outcome(Some(cert_pem), Some(key_pem)) == (LoadOutcome::Loaded {
            chain: pem_certificates(cert_pem)->Some_0,
            key: pem_pkcs8_keys(key_pem)->Some_0.last(),
        }),
{
}

/// Of several keys in the key file the last one alone decides: loading
/// succeeds exactly if the TLS library accepts the chain with the last key,
/// whatever the keys before it are, and the credential then holds that key.
pub proof fn law_last_key_decides(cert_pem: Seq<u8>, key_pem: Seq<u8>)
    requires
        holds_chain(Some(cert_pem)),
        pem_pkcs8_keys(key_pem) is Some,
        pem_pkcs8_keys(key_pem)->Some_0.len() > 0,
    ensures
        load_outcome(Some(cert_pem), Some(key_pem)) is Loaded <==> single_cert_accepted(
            pem_certificates(cert_pem)->Some_0,
            pem_pkcs8_keys(key_pem)->Some_0.last(),
        ),
        load_outcome(Some(cert_pem), Some(key_pem)) matches LoadOutcome::Loaded { chain, key }
            ==> key == pem_pkcs8_keys(key_pem)->Some_0.last(),
        !(load_outcome(Some(cert_pem), Some(key_pem)) is Loaded) ==> load_outcome(
            Some(cert_pem),
            Some(key_pem),
        ) == LoadOutcome::Failed(TlsLoadErrorKind::TlsConfiguration),
{
}

/// Where the certificate file holds a chain and the key file is a valid PEM
/// text without a PKCS#8 key, loading fails for want of a private key.
pub proof fn law_no_key_found(cert_pem: Seq<u8>, key_pem: Seq<u8>)
    requires
        holds_chain(Some(cert_pem)),
        pem_pkcs8_keys(key_pem) == Some(Seq::<Seq<u8>>::empty()),
    ensures
        load_outcome(Some(cert_pem), Some(key_pem)) == LoadOutcome::Failed(
            TlsLoadErrorKind::NoPrivateKeyFound,
        ),
{
}

/// A certificate file that could not be read and one that holds no certificate
/// fail in two different ways, whatever the key file is.
pub proof fn law_certificate_errors_differ(cert_pem: Seq<u8>, key_file: Option<Seq<u8>>)
    requires
        pem_certificates(cert_pem) == Some(Seq::<Seq<u8>>::empty()),
    ensures
        load_outcome(None, key_file) == LoadOutcome::Failed(TlsLoadErrorKind::CertificateRead),
        load_outcome(Some(cert_pem), key_file) == LoadOutcome::Failed(
            TlsLoadErrorKind::CertificateParse,
        ),
        load_outcome(None, key_file) != load_outcome(Some(cert_pem), key_file),
{
}

} // verus!
