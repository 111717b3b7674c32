//! The rule that says whether a request may be sent.

use crate::address::is_url;
use crate::certificates::{Certificate, CertificateStatus, CertificateView};
use crate::notification::is_error;
use crate::request::{Request, RequestView};
use vstd::prelude::*;

verus! {

/// Whether the certificate stands in the way of no request: it is not required,
/// or it was loaded.
pub open spec fn certificate_ready(certificate: CertificateView) -> bool {
    !certificate.required || certificate.status == CertificateStatus::OK
}

/// The rule, over what has been found of the address: a request can be sent when
/// its address is a URL, the certificate is ready, and neither the certificate
/// nor the address shows an error.
pub open spec fn judged(uri_ok: bool, address_error: bool, certificate: CertificateView) -> bool {
    &&& uri_ok
    &&& certificate_ready(certificate)
    &&& !is_error(certificate.notification)
    &&& !address_error
}

/// Whether a request can be sent with a certificate.
pub open spec fn sendable(request: RequestView, certificate: CertificateView) -> bool {
    judged(is_url(request.address.uri), is_error(request.address.notification), certificate)
}

/// Computes [`judged`].
pub fn judge(uri_ok: bool, address_error: bool, certificate: &Certificate) -> (fit: bool)
    ensures
        fit == judged(uri_ok, address_error, certificate@),
{
    let status = certificate.status();
    let ready = !certificate.required() || status == CertificateStatus::OK;
    uri_ok && ready && !certificate.notification().is_error() && !address_error
}

/// Whether `request` can be sent with `certificate`, see [`sendable`].
pub fn check_sendable(request: &Request, certificate: &Certificate) -> (fit: bool)
    ensures
        fit == sendable(request@, certificate@),
{
    let uri_ok = request.has_url();
    let address_error = request.address().notification().is_error();
    judge(uri_ok, address_error, certificate)
}

/// A request whose address is a URL can be sent whenever nothing shows an error
/// and the certificate is not required or was loaded.
pub proof fn well_formed_requests_can_be_sent(request: RequestView, certificate: CertificateView)
    requires
        is_url(request.address.uri),
        !is_error(request.address.notification),
        !is_error(certificate.notification),
        !certificate.required || certificate.status == CertificateStatus::OK,
    ensures
        sendable(request, certificate),
{
}

/// A request whose address is no URL cannot be sent, whatever the certificate,
/// and its address shows an error.
pub proof fn malformed_addresses_block_sending(request: RequestView, certificate: CertificateView)
    requires
        request.valid(),
        !is_url(request.address.uri),
    ensures
        !sendable(request, certificate),
        is_error(request.address.notification),
{
}

/// A valid request shows an error on its address exactly while the address is no
/// URL, so that the two tests of the rule on the address agree.
pub proof fn address_error_follows_the_text(request: RequestView)
    requires
        request.valid(),
    ensures
        is_error(request.address.notification) <==> !is_url(request.address.uri),
{
}

} // verus!
