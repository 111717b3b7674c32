//! The client identity for mutual TLS: a PKCS#12 file, its passphrase, and the
//! identity that the two give.

use crate::notification::{Message, Notification, NotificationKind};
use crate::text::contains_char;
use vstd::prelude::*;
use vstd::string::StringExecFns;

verus! {

/// How far the certificate has come.
#[allow(clippy::upper_case_acronyms)]
#[derive(Clone, Copy, Debug, PartialEq, Eq, Structural)]
pub enum CertificateStatus {
    /// Nothing has been loaded.
    UNCONFIRMED,
    /// The identity was loaded.
    OK,
    /// Loading failed.
    ERROR,
}

impl Default for CertificateStatus {
    fn default() -> (status: Self)
        ensures
            status == CertificateStatus::UNCONFIRMED,
    {
        CertificateStatus::UNCONFIRMED
    }
}

/// The identity that `reqwest` presents to a server. Nothing of it can be read;
/// it is kept and handed on.
#[verifier::external_type_specification]
#[verifier::external_body]
pub struct ExIdentity(reqwest::Identity);

/// Calls `reqwest::Identity::from_pkcs12_der` on the bytes of a PKCS#12 archive and
/// its passphrase, and writes an error as its display text. Whether an archive is
/// accepted rests with the TLS library of the machine, so nothing is claimed of
/// the result. The call aborts on a passphrase that holds a NUL character, which
/// is why such a passphrase is left out.
#[verifier::external_body]
fn parse_pkcs12(der: &[u8], passphrase: &str) -> (outcome: Result<reqwest::Identity, String>)
    requires
        !passphrase@.contains('\0'),
{
    match reqwest::Identity::from_pkcs12_der(der, passphrase) {
        Ok(identity) => Ok(identity),
        Err(error) => Err(error.to_string()),
    }
}

/// Calls `clone` on a `reqwest::Identity`, which copies the handle.
#[verifier::external_body]
fn copy_identity(identity: &reqwest::Identity) -> (copy: reqwest::Identity) {
    identity.clone()
}

/// What is said of a passphrase that cannot be handed to the TLS library.
pub open spec fn nul_in_passphrase() -> Seq<char> {
    "The passphrase must not contain a NUL character."@
}

/// Whether an attempt to make an identity failed for the reason `words`.
pub open spec fn failed_with(outcome: Result<reqwest::Identity, String>, words: Seq<char>) -> bool {
    outcome matches Err(reason) && reason@ == words
}

/// Makes an identity of what was read from the file and of the passphrase. A
/// failed read comes back as it is, and a passphrase with a NUL character is
/// refused here; every other answer is that of the TLS library.
pub fn load_certificates(file: Result<Vec<u8>, String>, passphrase: &str) -> (outcome: Result<
    reqwest::Identity,
    String,
>)
    ensures
        file matches Err(reason) ==> failed_with(outcome, reason@),
        file is Ok && passphrase@.contains('\0') ==> failed_with(outcome, nul_in_passphrase()),
{
    match file {
        Ok(file_bytes) => {
            if contains_char(passphrase, '\0') {
                Err(String::from_str("The passphrase must not contain a NUL character."))
            } else {
                parse_pkcs12(file_bytes.as_slice(), passphrase)
            }
        },
        Err(reason) => Err(reason),
    }
}

/// The model of a [`Certificate`]. Of the identity it says only whether there is
/// one.
pub struct CertificateView {
    pub required: bool,
    pub file_path: Seq<char>,
    pub passphrase: Seq<char>,
    pub status: CertificateStatus,
    pub notification: Option<Message>,
    pub has_identity: bool,
}

impl CertificateView {
    /// The certificate of a program that uses none.
    pub open spec fn unset() -> CertificateView {
        CertificateView {
            required: false,
            file_path: Seq::empty(),
            passphrase: Seq::empty(),
            status: CertificateStatus::UNCONFIRMED,
            notification: None,
            has_identity: false,
        }
    }

    /// The certificate after its use was switched on or off. Switched off, it is
    /// the certificate of a program that uses none.
    pub open spec fn with_required(self, required: bool) -> CertificateView {
        if required {
            CertificateView { required: true, ..self }
        } else {
            CertificateView::unset()
        }
    }

    /// An identity is held exactly while the status says that it was loaded.
    pub open spec fn valid(self) -> bool {
        self.has_identity <==> self.status == CertificateStatus::OK
    }

    /// Whether there is a file and a passphrase to load an identity from.
    pub open spec fn loadable(self) -> bool {
        self.file_path.len() > 0 && self.passphrase.len() > 0
    }

    /// Whether sending has to load the identity first: it is required, it can be
    /// loaded, and none is held.
    pub open spec fn load_is_due(self) -> bool {
        self.required && self.loadable() && !self.has_identity
    }

    /// The certificate after an attempt to load the identity, of which `failure`
    /// holds the reason if it failed.
    pub open spec fn loaded(self, failure: Option<Seq<char>>) -> CertificateView {
        match failure {
            None => CertificateView {
                status: CertificateStatus::OK,
                notification: Some(
                    Message {
                        kind: NotificationKind::INFO,
                        text: "Certificate loaded successfully!"@,
                    },
                ),
                has_identity: true,
                ..self
            },
            Some(reason) => CertificateView {
                status: CertificateStatus::ERROR,
                notification: Some(Message { kind: NotificationKind::ERROR, text: reason }),
                has_identity: false,
                ..self
            },
        }
    }
}

/// What is kept of a loaded identity: the handle together with the status that
/// only a loaded identity has, or no handle and another status.
struct Loaded {
    status: CertificateStatus,
    identity: Option<reqwest::Identity>,
}

impl Loaded {
    #[verifier::type_invariant]
    spec fn kept_valid(self) -> bool {
        self.identity is Some <==> self.status == CertificateStatus::OK
    }

    fn without(status: CertificateStatus) -> (loaded: Self)
        requires
            status != CertificateStatus::OK,
        ensures
            loaded.status == status,
            loaded.identity is None,
    {
        Loaded { status, identity: None }
    }

    fn with(identity: reqwest::Identity) -> (loaded: Self)
        ensures
            loaded.status == CertificateStatus::OK,
            loaded.identity is Some,
    {
        Loaded { status: CertificateStatus::OK, identity: Some(identity) }
    }

    fn copy(&self) -> (loaded: Self)
        ensures
            loaded.status == self.status,
            loaded.identity is Some == self.identity is Some,
            self.identity is Some <==> self.status == CertificateStatus::OK,
    {
        proof {
            use_type_invariant(self);
        }
        match &self.identity {
            Some(identity) => Loaded::with(copy_identity(identity)),
            None => Loaded::without(self.status),
        }
    }
}

/// The client certificate of the program.
pub struct Certificate {
    required: bool,
    file_path: String,
    passphrase: String,
    notification: Notification,
    loaded: Loaded,
}

impl View for Certificate {
    type V = CertificateView;

    closed spec fn view(&self) -> CertificateView {
        CertificateView {
            required: self.required,
            file_path: self.file_path@,
            passphrase: self.passphrase@,
            status: self.loaded.status,
            notification: self.notification@,
            has_identity: self.loaded.identity is Some,
        }
    }
}

impl Default for Certificate {
    fn default() -> (certificate: Self)
        ensures
            certificate@ == CertificateView::unset(),
    {
        Certificate {
            required: false,
            file_path: String::new(),
            passphrase: String::new(),
            notification: Notification::default(),
            loaded: Loaded::without(CertificateStatus::UNCONFIRMED),
        }
    }
}

impl Clone for Certificate {
    fn clone(&self) -> (copy: Self)
        ensures
            copy@ == self@,
    {
        Certificate {
            required: self.required,
            file_path: self.file_path.clone(),
            passphrase: self.passphrase.clone(),
            notification: self.notification.clone(),
            loaded: self.loaded.copy(),
        }
    }
}

impl Certificate {
    /// Whether requests are to present a client certificate.
    pub fn required(&self) -> (required: bool)
        ensures
            required == self@.required,
    {
        self.required
    }

    /// The path of the PKCS#12 file; empty while none is chosen.
    pub fn file_path(&self) -> (file_path: &str)
        ensures
            file_path@ == self@.file_path,
    {
        self.file_path.as_str()
    }

    /// The passphrase of the file.
    pub fn passphrase(&self) -> (passphrase: &str)
        ensures
            passphrase@ == self@.passphrase,
    {
        self.passphrase.as_str()
    }

    /// How far the certificate has come. Every certificate is valid.
    pub fn status(&self) -> (status: CertificateStatus)
        ensures
            status == self@.status,
            self@.valid(),
    {
        proof {
            use_type_invariant(&self.loaded);
        }
        self.loaded.status
    }

    /// What the last attempt to load the identity said.
    pub fn notification(&self) -> (notification: &Notification)
        ensures
            notification@ == self@.notification,
    {
        &self.notification
    }

    /// The identity, if one is held.
    pub fn identity(&self) -> (identity: Option<&reqwest::Identity>)
        ensures
            identity is Some == self@.has_identity,
    {
        self.loaded.identity.as_ref()
    }

    /// A copy of the identity, if one is held.
    pub fn identity_copy(&self) -> (identity: Option<reqwest::Identity>)
        ensures
            identity is Some == self@.has_identity,
    {
        match &self.loaded.identity {
            Some(identity) => Some(copy_identity(identity)),
            None => None,
        }
    }

    /// Switches the use of a client certificate on or off. Switching it off
    /// discards the file path, the passphrase, the identity and the notification,
    /// so that no secret stays behind.
    pub fn set_required(&mut self, required: bool)
        ensures
            final(self)@ == old(self)@.with_required(required),
    {
        if required {
            self.required = true;
        } else {
            *self = Certificate::default();
        }
    }

    /// Takes the file at `file_path` as the certificate. All that was known of an
    /// earlier file is discarded.
    pub fn select_file(&mut self, file_path: &str)
        ensures
            final(self)@ == (CertificateView {
                required: old(self)@.required,
                file_path: file_path@,
                ..CertificateView::unset()
            }),
    {
        let required = self.required;
        *self = Certificate::default();
        self.required = required;
        self.file_path = String::from_str(file_path);
    }

    /// Replaces the passphrase.
    pub fn set_passphrase(&mut self, passphrase: &str)
        ensures
            final(self)@ == (CertificateView { passphrase: passphrase@, ..old(self)@ }),
    {
        self.passphrase = String::from_str(passphrase);
    }

    /// Empties the notification.
    pub fn dismiss_notification(&mut self)
        ensures
            final(self)@ == (CertificateView { notification: None, ..old(self)@ }),
    {
        self.notification = Notification::default();
    }

    /// Whether there is a file and a passphrase to load an identity from.
    pub fn can_load(&self) -> (loadable: bool)
        ensures
            loadable == self@.loadable(),
    {
        !self.file_path.as_str().is_empty() && !self.passphrase.as_str().is_empty()
    }

    /// Whether sending has to load the identity first. Every certificate is
    /// valid.
    pub fn load_is_due(&self) -> (due: bool)
        ensures
            due == self@.load_is_due(),
            self@.valid(),
    {
        proof {
            use_type_invariant(&self.loaded);
        }
        self.required && self.can_load() && self.loaded.identity.is_none()
    }

    /// Makes an identity of what was read from the file, with the passphrase of
    /// this certificate; see [`load_certificates`].
    pub fn import(&self, file: Result<Vec<u8>, String>) -> (outcome: Result<
        reqwest::Identity,
        String,
    >)
        ensures
            file matches Err(reason) ==> failed_with(outcome, reason@),
            file is Ok && self@.passphrase.contains('\0') ==> failed_with(
                outcome,
                nul_in_passphrase(),
            ),
    {
        load_certificates(file, self.passphrase.as_str())
    }

    /// Records the outcome of an attempt to load the identity. A loaded identity
    /// is kept and the status is `OK`; a failure discards the identity that was
    /// held, sets the status to `ERROR` and shows the reason.
    pub fn confirm(&mut self, outcome: Result<reqwest::Identity, String>)
        ensures
            final(self)@ == old(self)@.loaded(
                match outcome {
                    Ok(_) => None,
                    Err(reason) => Some(reason@),
                },
            ),
    {
        match outcome {
            Ok(identity) => {
                self.loaded = Loaded::with(identity);
                self.notification = Notification::new(
                    "Certificate loaded successfully!",
                    NotificationKind::INFO,
                );
            },
            Err(reason) => {
                self.loaded = Loaded::without(CertificateStatus::ERROR);
                self.notification = Notification::new(reason.as_str(), NotificationKind::ERROR);
            },
        }
    }

    /// Loads the identity from what was read from the file and records the
    /// outcome. Returns whether an identity is held afterwards.
    pub fn load(&mut self, file: Result<Vec<u8>, String>) -> (held: bool)
        ensures
            held == final(self)@.has_identity,
            exists|failure: Option<Seq<char>>|
                {
                    &&& final(self)@ == old(self)@.loaded(failure)
                    &&& file matches Err(reason) ==> failure == Some(reason@)
                    &&& file is Ok && old(self)@.passphrase.contains('\0') ==> failure == Some(
                        nul_in_passphrase(),
                    )
                },
    {
        let outcome = self.import(file);
        let held = outcome.is_ok();
        self.confirm(outcome);
        held
    }
}

/// Whatever is done to a certificate, it holds an identity exactly while its
/// status says so: that is so of a certificate that was never set, after every
/// attempt to load the identity, and after its use was switched on or off.
pub proof fn certificate_stays_valid(
    certificate: CertificateView,
    failure: Option<Seq<char>>,
    required: bool,
)
    ensures
        CertificateView::unset().valid(),
        certificate.loaded(failure).valid(),
        certificate.valid() ==> certificate.with_required(required).valid(),
        !certificate.with_required(false).has_identity,
        certificate.with_required(false).passphrase.len() == 0,
{
}

} // verus!
