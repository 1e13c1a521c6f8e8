//! The certificate lifecycle manager: the identity bundle's six
//! artifact files, the staleness decision that schedules the next
//! check, and generation of a fresh self-signed bundle.
//!
//! The bundle counts as present only when all six files exist; presence
//! does not imply validity, which is re-judged against the certificate's
//! not-before/not-after window each pass. A certificate is renewed
//! proactively: once its expiry comes within a three-day margin it is
//! regenerated at once, as is one already outside its window, one that
//! cannot be parsed, or a bundle with missing artifacts. Only a
//! certificate with more than the margin left schedules a later check —
//! at expiry minus the margin — so a returned delay is always positive.

use vstd::prelude::*;
use vstd::string::{StrSliceExecFns, StringExecFns};
use vstd::utf8::encode_utf8;
use x509_parser::prelude::FromDer;
use crate::host_config::HostConfig;

verus! {

/// Seconds of the renewal margin: a certificate is renewed this long
/// before it expires (three days).
pub const RENEWAL_MARGIN_SECS: i64 = 259200;

/// Seconds of the validity window given to a fresh bundle (ten years
/// of 365 days).
pub const VALIDITY_WINDOW_SECS: i64 = 315360000;

/// The last Unix second a certificate's validity field can encode: the
/// end of year 9999, the largest year the DER time types carry.
pub const MAX_ENCODABLE_UNIX_SECS: i64 = 253402300799;

/// Which of the six expected artifact files exist on disk.
#[derive(Debug, Clone, Copy, PartialEq, Eq, Structural)]
pub struct BundlePresence {
    pub request_pem: bool,
    pub request_der: bool,
    pub certificate_pem: bool,
    pub certificate_der: bool,
    pub private_key_pem: bool,
    pub private_key_der: bool,
}

impl BundlePresence {
    /// The bundle counts as present only when every artifact exists.
    pub open spec fn spec_all_present(self) -> bool {
        self.request_pem && self.request_der && self.certificate_pem && self.certificate_der
            && self.private_key_pem && self.private_key_der
    }

    /// Whether all six artifact files exist.
    pub fn all_present(&self) -> (r: bool)
        ensures
            r == self.spec_all_present(),
    {
        self.request_pem && self.request_der && self.certificate_pem && self.certificate_der
            && self.private_key_pem && self.private_key_der
    }
}

/// Why the bundle must be regenerated.
#[derive(Debug, Clone, Copy, PartialEq, Eq, Structural)]
pub enum RegenerateReason {
    /// At least one of the six artifact files is absent.
    MissingArtifacts,
    /// The stored certificate could not be parsed.
    Unparsable,
    /// The current time lies outside the certificate's validity window.
    OutsideValidityWindow,
    /// The certificate is still valid but expires within the renewal
    /// margin.
    ExpiringSoon,
}

/// What one check pass decides.
#[derive(Debug, Clone, Copy, PartialEq, Eq, Structural)]
pub enum CertOutcome {
    /// Regenerate now and re-check immediately (zero delay).
    Regenerate(RegenerateReason),
    /// The certificate is valid with more than the renewal margin left;
    /// seconds until the next check.
    ValidFor(u64),
}

impl CertOutcome {
    /// Seconds to sleep before the next check: zero whenever the
    /// bundle is being regenerated.
    pub fn delay_secs(&self) -> (r: u64)
        ensures
            self is Regenerate ==> r == 0,
            self matches CertOutcome::ValidFor(d) ==> r == d,
    {
        match self {
            CertOutcome::Regenerate(_) => 0,
            CertOutcome::ValidFor(d) => *d,
        }
    }
}

/// The decision on a parsed certificate: unparsable, outside its
/// validity window, or expiring within the renewal margin all
/// regenerate; only a certificate with more than the margin left
/// schedules the next check, at expiry minus the margin.
pub open spec fn spec_certificate_outcome(window: Option<(i64, i64)>, now: i64) -> CertOutcome {
    match window {
        None => CertOutcome::Regenerate(RegenerateReason::Unparsable),
        Some((not_before, not_after)) => if !(not_before <= now && now <= not_after) {
            CertOutcome::Regenerate(RegenerateReason::OutsideValidityWindow)
        } else if not_after - now <= RENEWAL_MARGIN_SECS {
            CertOutcome::Regenerate(RegenerateReason::ExpiringSoon)
        } else {
            CertOutcome::ValidFor((not_after - now - RENEWAL_MARGIN_SECS) as u64)
        },
    }
}

/// The decision of one whole check pass, given whether all artifacts
/// exist and what the stored certificate's window is.
pub open spec fn spec_ensure_valid(
    all_present: bool,
    window: Option<(i64, i64)>,
    now: i64,
) -> CertOutcome {
    if !all_present {
        CertOutcome::Regenerate(RegenerateReason::MissingArtifacts)
    } else {
        spec_certificate_outcome(window, now)
    }
}

/// Judge a parsed validity window against the current time.
pub fn staleness_decision(window: Option<(i64, i64)>, now_unix: i64) -> (r: CertOutcome)
    ensures
        r == spec_certificate_outcome(window, now_unix),
{
    match window {
        None => CertOutcome::Regenerate(RegenerateReason::Unparsable),
        Some((not_before, not_after)) => {
            if not_before <= now_unix && now_unix <= not_after {
                let remaining: i128 = not_after as i128 - now_unix as i128;
                let past_margin: i128 = remaining - RENEWAL_MARGIN_SECS as i128;
                if past_margin > 0 {
                    CertOutcome::ValidFor(past_margin as u64)
                } else {
                    CertOutcome::Regenerate(RegenerateReason::ExpiringSoon)
                }
            } else {
                CertOutcome::Regenerate(RegenerateReason::OutsideValidityWindow)
            }
        },
    }
}

/// The not-before/not-after window stored in a DER certificate, as Unix
/// seconds; it is a function of the bytes alone.
pub uninterp spec fn validity_window_of(der: Seq<u8>) -> Option<(i64, i64)>;

/// Relies on x509_parser's `X509Certificate::from_der` and the
/// `timestamp` accessors of its validity field: parsing either fails or
/// yields the certificate's not-before/not-after instants, determined
/// by the DER bytes alone.
#[verifier::external_body]
fn parse_validity_window(der: &Vec<u8>) -> (r: Option<(i64, i64)>)
    ensures
        r == validity_window_of(der@),
{
    match x509_parser::certificate::X509Certificate::from_der(der.as_slice()) {
        Ok((_, cert)) => Some(
            (cert.validity().not_before.timestamp(), cert.validity().not_after.timestamp()),
        ),
        Err(_) => None,
    }
}

/// Parse the stored DER certificate and judge it against the current
/// time.
pub fn evaluate_certificate(der: &Vec<u8>, now_unix: i64) -> (r: CertOutcome)
    ensures
        r == spec_certificate_outcome(validity_window_of(der@), now_unix),
{
    staleness_decision(parse_validity_window(der), now_unix)
}

/// One whole check pass on plain values: which artifacts exist, the
/// stored certificate's DER bytes where all six exist, and the current
/// time. Missing artifacts regenerate without looking at the bytes.
pub fn ensure_valid(presence: &BundlePresence, der: Option<&Vec<u8>>, now_unix: i64) -> (r:
    CertOutcome)
    requires
        presence.spec_all_present() ==> der is Some,
    ensures
        r == spec_ensure_valid(
            presence.spec_all_present(),
            match der {
                Some(d) => validity_window_of(d@),
                None => None,
            },
            now_unix,
        ),
{
    if !presence.all_present() {
        CertOutcome::Regenerate(RegenerateReason::MissingArtifacts)
    } else {
        match der {
            Some(d) => evaluate_certificate(d, now_unix),
            None => CertOutcome::Regenerate(RegenerateReason::Unparsable),
        }
    }
}

/// Certificate staleness, in both directions. A certificate whose
/// expiry lies more than the renewal margin past the current time (and
/// whose window has begun) yields a positive delay of exactly the time
/// to expiry less the margin; one expiring within the margin, one
/// already expired or not yet valid, one that cannot be parsed, and a
/// bundle with missing artifacts all regenerate now — and every
/// regeneration outcome carries a zero delay, while a scheduled delay
/// is never zero.
pub proof fn lemma_certificate_staleness(
    all_present: bool,
    window: Option<(i64, i64)>,
    now: i64,
)
    ensures
        ({
            let outcome = spec_ensure_valid(all_present, window, now);
            match window {
                Some((nb, na)) => {
                    &&& (all_present && nb <= now && na - now > RENEWAL_MARGIN_SECS ==> outcome
                        == CertOutcome::ValidFor((na - now - RENEWAL_MARGIN_SECS) as u64) && na
                        - now - RENEWAL_MARGIN_SECS > 0)
                    &&& (all_present && nb <= now && now <= na && na - now <= RENEWAL_MARGIN_SECS
                        ==> outcome == CertOutcome::Regenerate(RegenerateReason::ExpiringSoon))
                    &&& (all_present && (now > na || now < nb) ==> outcome
                        == CertOutcome::Regenerate(RegenerateReason::OutsideValidityWindow))
                },
                None => all_present ==> outcome == CertOutcome::Regenerate(
                    RegenerateReason::Unparsable,
                ),
            }
        }),
        !all_present ==> spec_ensure_valid(all_present, window, now) == CertOutcome::Regenerate(
            RegenerateReason::MissingArtifacts,
        ),
        spec_ensure_valid(all_present, window, now) matches CertOutcome::ValidFor(d) ==> d > 0,
{
}

/// Every artifact of one freshly generated identity: the signing
/// request, the certificate and the private key, each in PEM and DER
/// form.
#[derive(Debug, Clone)]
pub struct IdentityArtifacts {
    pub request_pem: String,
    pub request_der: Vec<u8>,
    pub certificate_pem: String,
    pub certificate_der: Vec<u8>,
    pub private_key_pem: String,
    pub private_key_der: Vec<u8>,
}

/// Relies on rcgen: `CertificateParams::new`, `Certificate::from_params`
/// (which generates the key pair locally, so the private-key
/// serializers cannot hit their remote-key panic), and the six
/// `serialize_*` methods, all on one certificate. rcgen writes exactly
/// the params' validity instants, at second precision, into the
/// certificate's DER, which is what `validity_window_of` reads back;
/// its date writer asserts a year between 0 and 9999, which the bounds
/// on the instants rule out. The key is random, so nothing else is
/// promised of the artifacts.
#[verifier::external_body]
fn generate_identity(names: &Vec<String>, not_before_unix: i64, not_after_unix: i64) -> (r: Option<
    IdentityArtifacts,
>)
    requires
        0 <= not_before_unix <= not_after_unix <= MAX_ENCODABLE_UNIX_SECS,
    ensures
        r matches Some(a) ==> validity_window_of(a.certificate_der@) == Some(
            (not_before_unix, not_after_unix),
        ),
{
    let mut params = rcgen::CertificateParams::new(names.clone());
    params.not_before = time::OffsetDateTime::from_unix_timestamp(not_before_unix).ok()?;
    params.not_after = time::OffsetDateTime::from_unix_timestamp(not_after_unix).ok()?;
    let cert = rcgen::Certificate::from_params(params).ok()?;
    Some(IdentityArtifacts {
        request_pem: cert.serialize_request_pem().ok()?,
        request_der: cert.serialize_request_der().ok()?,
        certificate_pem: cert.serialize_pem().ok()?,
        certificate_der: cert.serialize_der().ok()?,
        private_key_pem: cert.serialize_private_key_pem(),
        private_key_der: cert.serialize_private_key_der(),
    })
}

/// The six artifact file names of one identity bundle, in the order
/// the write plan lays them out; the bundle counts as present only
/// when every one of them exists.
pub fn bundle_file_names() -> (r: Vec<String>)
    ensures
        r@.len() == 6,
        r@[0]@ == "request.pem"@,
        r@[1]@ == "request.der"@,
        r@[2]@ == "certificate.pem"@,
        r@[3]@ == "certificate.der"@,
        r@[4]@ == "private_key.pem"@,
        r@[5]@ == "private_key.der"@,
{
    let mut names: Vec<String> = Vec::new();
    names.push(String::from_str("request.pem"));
    names.push(String::from_str("request.der"));
    names.push(String::from_str("certificate.pem"));
    names.push(String::from_str("certificate.der"));
    names.push(String::from_str("private_key.pem"));
    names.push(String::from_str("private_key.der"));
    names
}

/// The write plan for a generated bundle: the six expected file names,
/// each with its artifact's bytes, in a fixed order. Writing every
/// entry — and treating any write failure as fatal — is what keeps the
/// on-disk set complete; no partial set is ever planned.
pub fn plan_bundle_writes(artifacts: IdentityArtifacts) -> (r: Vec<(String, Vec<u8>)>)
    ensures
        r@.len() == 6,
        r@[0].0@ == "request.pem"@ && r@[0].1@ == encode_utf8(artifacts.request_pem@),
        r@[1].0@ == "request.der"@ && r@[1].1@ == artifacts.request_der@,
        r@[2].0@ == "certificate.pem"@ && r@[2].1@ == encode_utf8(artifacts.certificate_pem@),
        r@[3].0@ == "certificate.der"@ && r@[3].1@ == artifacts.certificate_der@,
        r@[4].0@ == "private_key.pem"@ && r@[4].1@ == encode_utf8(artifacts.private_key_pem@),
        r@[5].0@ == "private_key.der"@ && r@[5].1@ == artifacts.private_key_der@,
{
    let mut plan: Vec<(String, Vec<u8>)> = Vec::new();
    plan.push((String::from_str("request.pem"), artifacts.request_pem.as_str().as_bytes_vec()));
    plan.push((String::from_str("request.der"), artifacts.request_der));
    plan.push(
        (String::from_str("certificate.pem"), artifacts.certificate_pem.as_str().as_bytes_vec()),
    );
    plan.push((String::from_str("certificate.der"), artifacts.certificate_der));
    plan.push(
        (String::from_str("private_key.pem"), artifacts.private_key_pem.as_str().as_bytes_vec()),
    );
    plan.push((String::from_str("private_key.der"), artifacts.private_key_der));
    plan
}

/// The background check service: owns the host configuration it reads
/// the certificate directory and subject names from.
pub struct CertificateCheckService {
    pub config: HostConfig,
}

impl CertificateCheckService {
    /// A service over the given configuration.
    pub fn new(config: HostConfig) -> (r: CertificateCheckService)
        ensures
            r.config == config,
    {
        CertificateCheckService { config }
    }

    /// Generate a fresh self-signed identity for this host's subject
    /// names, valid from now for the ten-year window, and lay out the
    /// write plan for all six artifact files. On success the plan holds
    /// exactly the six expected files, and the planned certificate's
    /// DER carries the window now to now plus ten years. `None` means
    /// the toolkit failed and nothing must be written: a partial set is
    /// never produced.
    pub fn generate(&self, now_unix: i64) -> (r: Option<Vec<(String, Vec<u8>)>>)
        requires
            0 <= now_unix,
            now_unix + VALIDITY_WINDOW_SECS <= MAX_ENCODABLE_UNIX_SECS,
        ensures
            r matches Some(plan) ==> plan@.len() == 6 && plan@[0].0@ == "request.pem"@
                && plan@[1].0@ == "request.der"@ && plan@[2].0@ == "certificate.pem"@
                && plan@[3].0@ == "certificate.der"@ && plan@[4].0@ == "private_key.pem"@
                && plan@[5].0@ == "private_key.der"@ && validity_window_of(plan@[3].1@) == Some(
                (now_unix, (now_unix + VALIDITY_WINDOW_SECS) as i64),
            ),
    {
        match generate_identity(&self.config.cert_names, now_unix, now_unix
            + VALIDITY_WINDOW_SECS) {
            Some(artifacts) => Some(plan_bundle_writes(artifacts)),
            None => None,
        }
    }
}

} // verus!
