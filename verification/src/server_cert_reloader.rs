//! Reloading a server's TLS certificate when asked to.

use vstd::prelude::*;
use vstd::string::{StrSliceExecFns, StringSliceAdditionalSpecFns};

verus! {

/// The error type of std's input and output. Nothing is known of a value of
/// it; it is carried to the caller as it came.
#[verifier::external_type_specification]
#[verifier::external_body]
pub struct ExIoError(std::io::Error);

/// Why a certificate could not be reloaded.
#[derive(Debug)]
pub enum ServerCertReloaderError {
    /// Reading the certificate or the key failed.
    IO(std::io::Error),
}

impl From<std::io::Error> for ServerCertReloaderError {
    fn from(src: std::io::Error) -> (e: ServerCertReloaderError) {
        ServerCertReloaderError::IO(src)
    }
}

impl vstd::std_specs::convert::FromSpecImpl<std::io::Error> for ServerCertReloaderError {
    open spec fn obeys_from_spec() -> bool {
        true
    }

    open spec fn from_spec(src: std::io::Error) -> ServerCertReloaderError {
        ServerCertReloaderError::IO(src)
    }
}

/// A root certificate for checking the certificates of clients.
///
/// The server asks no client for a certificate, yet its credentials must
/// name a root to check them against; this certificate, made for the
/// purpose, is that root.
pub const HARDCODED_CLIENT_ROOT_CERT: &'static str = "\
-----BEGIN CERTIFICATE-----\n\
MIIFMjCCAxoCCQCQduVhGiJHZjANBgkqhkiG9w0BAQsFADBbMQswCQYDVQQGEwJV\n\
UzESMBAGA1UECAwJTmV2ZXJsYW5kMRMwEQYDVQQHDApDYWxpZm9ybmlhMRUwEwYD\n\
VQQKDAxDb21wYW55IE5hbWUxDDAKBgNVBAsMA09yZzAeFw0yMTAyMjIyMDQ0NTFa\n\
Fw0zMTAyMjAyMDQ0NTFaMFsxCzAJBgNVBAYTAlVTMRIwEAYDVQQIDAlOZXZlcmxh\n\
bmQxEzARBgNVBAcMCkNhbGlmb3JuaWExFTATBgNVBAoMDENvbXBhbnkgTmFtZTEM\n\
MAoGA1UECwwDT3JnMIICIjANBgkqhkiG9w0BAQEFAAOCAg8AMIICCgKCAgEA1mkN\n\
OoKwvT2JBGUCVE//C2JGLqxN+5QB2qtvM70qzal1DTNATMM5edOYxIx5hqXk6ivY\n\
Jo3jVrVpgm/h01rBbuq8JhnEub8+UKRnbu7IKFTOE2UzExNPKvd7fMjKqdHM/b/m\n\
ZpTz3TINLBx0veTrtXzN3xblq+Wa/tEKTBnMxvBJ0vdcB7kFsV+giNArmZeDAW+S\n\
qhW+GAK783LAeSrrnVh4H+ZfYuxt+O3DzciRy5zafUTUALUJllWFGkcbA/GRC/9y\n\
rOpEucpRCwvH3NuvqIvHTpWP4mRKFWmN1w9vftJ+g1JpipNsP2veUhPHvM/aCDRT\n\
mAtkL37/i0SPAExDhVBh595e27nG49pyLQxDrj+d1TRGXDbc+nRQjvaTtyGs4DEg\n\
V1Fm96Ltu1vX1x9gYMci3cXwzNrs0vfX2qwXgm25w6+5OJRBV3B02sPo44dN0oUO\n\
Oybqtx6jUMzoudjcyBSwEqtKOhRw0lZV9TOo+vnBzQpymv49t1PezlK2WMqu/3Fi\n\
6qVTHZwuPJNqojAyAWxink8w+7TewjCbqYenQI8qqJHcVVzilbhe1qOaT+Cjnnq+\n\
xvN3tJIZKbzgVnpB3MKdqF6KKcBQWF3bHRoChv7zs7EvytUYwimqIAwOxDHLaHUg\n\
J9swE4M3jgoY+6ZfGzj1Muyk9GJ5yNUjbjsQCMsCAwEAATANBgkqhkiG9w0BAQsF\n\
AAOCAgEAHqaedXS09ZDzUh3LVimOwf/eg98ksSEN/5ANgTaFWDNBTT6go5YHKJXY\n\
vDfyklxRLbi17IX3MDJRQw6GN5RUIhTZKKKhUiRE/sOJ7l4uXjcmYwV/iVqZgDL9\n\
S1JMhQtytWxKDj/oaw4W9hK8xMIAQuRLrK9IzvvhJLFB8p8vvWabXtLEzVr9v2x8\n\
Hf4zbHNW7W7eNOiLM7x/uyrWKfecO9LLjtk/rRyFr+enn3VWL4FmY2xyWsGGevXE\n\
djwjdnZOCKOgsXMx8lHLeyItiSTuJFrjSyRjgzPudVJIjf2TV/ymvZHcY/IpRBOR\n\
EUoqB0CtWYX15o+rVpXpRIjr0htmz7lbVDXHpNs+4oTBrc7VgoFbUTtsMJ5Kh42C\n\
ioRMdWcs2D/7OOYZCZ7PAGClUwN0SxJ+lI1j6a9Fx5a42XFr4shVSrcgA7nsZBKq\n\
VL/BUoJzU76GcrZAeDgyHLqgXARTVK8d4Gv63EIopAjfg8iS3JwSivpraQPW+IVN\n\
G72MtHe8GLWAZIK/xvN9rVxnljPGGE6haIYWX2TBQDj+38gqfmckXVy72Vo1e1oV\n\
Ot9sOqRdWgMdWsiqJpUVKE2ziZ7+Y1KWgK+qCEv2GD3GL6uR+LNChGPzyp1NHZmo\n\
3xvG2wKtArm3GD5jm0Mx/Z1ej6FdXFrjtaXE5X+gZ9wTJfqsp4I=\n\
-----END CERTIFICATE-----";

/// Whether a server asks its clients for a certificate.
#[derive(Clone, Copy, Debug, PartialEq, Eq, Structural)]
pub enum CertificateRequestType {
    DontRequestClientCertificate,
}

/// What a server shows to prove who it is.
#[derive(Clone, Debug, PartialEq, Eq)]
pub struct ServerCredentials {
    pub root_cert: Vec<u8>,
    pub request_type: CertificateRequestType,
    pub cert: Vec<u8>,
    pub private_key: Vec<u8>,
}

/// Hands a server new credentials whenever a reload was asked for.
///
/// The caller asks for a reload when it is signalled to, reads the two
/// files when the reloader needs them, and hands it what came of reading.
#[derive(Clone, Debug, PartialEq, Eq)]
pub struct ServerCertReloader {
    /// The certificate file.
    pub cert_file: String,
    /// The private key file.
    pub key_file: String,
    /// Whether the files are to be read again.
    pub load_needed: bool,
}

/// What `fetch` makes of what came of reading the files.
pub open spec fn credentials_of(certificate: Seq<u8>, private_key: Seq<u8>) -> ServerCredentialsView {
    ServerCredentialsView {
        root_cert: HARDCODED_CLIENT_ROOT_CERT.spec_bytes(),
        cert: certificate,
        private_key,
    }
}

/// The bytes of credentials.
pub struct ServerCredentialsView {
    pub root_cert: Seq<u8>,
    pub cert: Seq<u8>,
    pub private_key: Seq<u8>,
}

impl View for ServerCredentials {
    type V = ServerCredentialsView;

    open spec fn view(&self) -> ServerCredentialsView {
        ServerCredentialsView {
            root_cert: self.root_cert@,
            cert: self.cert@,
            private_key: self.private_key@,
        }
    }
}

impl ServerCertReloader {
    /// A reloader for two files, which are to be read at once.
    pub fn new(cert_file: String, key_file: String) -> (reloader: ServerCertReloader)
        ensures
            reloader == (ServerCertReloader { cert_file, key_file, load_needed: true }),
    {
        ServerCertReloader { cert_file, key_file, load_needed: true }
    }

    /// Asks for the files to be read again.
    pub fn request_reload(&mut self)
        ensures
            *final(self) == (ServerCertReloader { load_needed: true, ..*old(self) }),
    {
        self.load_needed = true;
    }

    /// New credentials, if a reload was asked for and both files were read.
    ///
    /// With no reload asked for there are none, whatever came of reading.
    /// Where the certificate was not read, or else the key was not, the
    /// error is handed on and the reload stays asked for.
    pub fn fetch(
        &mut self,
        certificate: Result<Vec<u8>, std::io::Error>,
        private_key: Result<Vec<u8>, std::io::Error>,
    ) -> (r: Result<Option<ServerCredentials>, ServerCertReloaderError>)
        ensures
            final(self).cert_file == old(self).cert_file,
            final(self).key_file == old(self).key_file,
            !old(self).load_needed ==> (r matches Ok(None)) && !final(self).load_needed,
            old(self).load_needed ==> match (certificate, private_key) {
                (Ok(c), Ok(k)) => !final(self).load_needed && (r matches Ok(Some(credentials))
                    && credentials@ == credentials_of(c@, k@)),
                (Err(e), _) => final(self).load_needed && (r matches Err(
                    ServerCertReloaderError::IO(io),
                ) && io == e),
                (Ok(_), Err(e)) => final(self).load_needed && (r matches Err(
                    ServerCertReloaderError::IO(io),
                ) && io == e),
            },
    {
        if !self.load_needed {
            return Ok(None);
        }
        let crt: Vec<u8> = match certificate {
            Ok(crt) => crt,
            Err(e) => {
                return Err(ServerCertReloaderError::IO(e));
            },
        };
        let key: Vec<u8> = match private_key {
            Ok(key) => key,
            Err(e) => {
                return Err(ServerCertReloaderError::IO(e));
            },
        };
        let new_cred = ServerCredentials {
            root_cert: HARDCODED_CLIENT_ROOT_CERT.as_bytes_vec(),
            request_type: CertificateRequestType::DontRequestClientCertificate,
            cert: crt,
            private_key: key,
        };
        self.load_needed = false;
        Ok(Some(new_cred))
    }
}

} // verus!
