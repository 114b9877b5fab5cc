//! Verifying a quote against its collateral, and binding the verified report
//! to the identity of the caller.

use crate::error::{IdentityMismatch, VerificationError};
use crate::quote::QuoteBytes;
use vstd::prelude::*;
use vstd::utf8::{decode_utf8, valid_utf8};

verus! {

/// What is needed to validate a quote: certificate chains, revocation lists,
/// and the signed TCB and quoting-enclave descriptors. The library does not
/// look inside; it hands the bundle to the verifier as it came.
pub struct Collateral {
    pub pck_crl_issuer_chain: String,
    pub root_ca_crl: Vec<u8>,
    pub pck_crl: Vec<u8>,
    pub tcb_info_issuer_chain: String,
    pub tcb_info: String,
    pub tcb_info_signature: Vec<u8>,
    pub qe_identity_issuer_chain: String,
    pub qe_identity: String,
    pub qe_identity_signature: Vec<u8>,
    pub pck_certificate_chain: Option<String>,
}

/// A collateral bundle as a mathematical value.
pub struct CollateralView {
    pub pck_crl_issuer_chain: Seq<char>,
    pub root_ca_crl: Seq<u8>,
    pub pck_crl: Seq<u8>,
    pub tcb_info_issuer_chain: Seq<char>,
    pub tcb_info: Seq<char>,
    pub tcb_info_signature: Seq<u8>,
    pub qe_identity_issuer_chain: Seq<char>,
    pub qe_identity: Seq<char>,
    pub qe_identity_signature: Seq<u8>,
    pub pck_certificate_chain: Option<Seq<char>>,
}

impl View for Collateral {
    type V = CollateralView;

    open spec fn view(&self) -> CollateralView {
        CollateralView {
            pck_crl_issuer_chain: self.pck_crl_issuer_chain@,
            root_ca_crl: self.root_ca_crl@,
            pck_crl: self.pck_crl@,
            tcb_info_issuer_chain: self.tcb_info_issuer_chain@,
            tcb_info: self.tcb_info@,
            tcb_info_signature: self.tcb_info_signature@,
            qe_identity_issuer_chain: self.qe_identity_issuer_chain@,
            qe_identity: self.qe_identity@,
            qe_identity_signature: self.qe_identity_signature@,
            pck_certificate_chain: match self.pck_certificate_chain {
                Some(chain) => Some(chain@),
                None => None,
            },
        }
    }
}

/// The part of a verified TD report that registration reads: the report
/// data, which binds the report to an identity, and the fourth runtime
/// measurement register, which measures the code that was loaded.
#[derive(Debug, PartialEq, Eq)]
pub struct AttestationReport {
    pub report_data: Vec<u8>,
    pub rt_mr3: Vec<u8>,
}

/// A report as a mathematical value.
pub struct AttestationReportView {
    pub report_data: Seq<u8>,
    pub rt_mr3: Seq<u8>,
}

impl View for AttestationReport {
    type V = AttestationReportView;

    open spec fn view(&self) -> AttestationReportView {
        AttestationReportView { report_data: self.report_data@, rt_mr3: self.rt_mr3@ }
    }
}

/// What the quote verifier makes of a quote, a collateral bundle and a time
/// in seconds: the report data and fourth runtime measurement register of
/// the TD report 1.0 data that the quote carries, where the quote verifies,
/// and nothing where it does not.
pub uninterp spec fn quote_verdict(
    quote: Seq<u8>,
    collateral: CollateralView,
    now: u64,
) -> Option<AttestationReportView>;

/// Calls `dcap_qvl::verify::verify` on the quote, on the collateral copied
/// field by field, and on `now`, and then `Report::as_td10` on the report of
/// a quote that verified. The result is `quote_verdict` of the arguments; a
/// report that comes back has 64 bytes of report data and a 48-byte
/// register, which are the widths of those fields in `TDReport10`.
#[verifier::external_body]
fn run_quote_verifier(quote: &[u8], collateral: &Collateral, now: u64) -> (r: Option<
    AttestationReport,
>)
    ensures
        r is Some <==> quote_verdict(quote@, collateral@, now) is Some,
        r matches Some(report) ==> {
            &&& report@ == quote_verdict(quote@, collateral@, now)->0
            &&& report.report_data@.len() == 64
            &&& report.rt_mr3@.len() == 48
        },
{
    let outside = dcap_qvl::QuoteCollateralV3 {
        pck_crl_issuer_chain: collateral.pck_crl_issuer_chain.clone(),
        root_ca_crl: collateral.root_ca_crl.clone(),
        pck_crl: collateral.pck_crl.clone(),
        tcb_info_issuer_chain: collateral.tcb_info_issuer_chain.clone(),
        tcb_info: collateral.tcb_info.clone(),
        tcb_info_signature: collateral.tcb_info_signature.clone(),
        qe_identity_issuer_chain: collateral.qe_identity_issuer_chain.clone(),
        qe_identity: collateral.qe_identity.clone(),
        qe_identity_signature: collateral.qe_identity_signature.clone(),
        pck_certificate_chain: collateral.pck_certificate_chain.clone(),
    };
    let verified = dcap_qvl::verify::verify(quote, &outside, now).ok()?;
    let td = verified.report.as_td10()?;
    Some(AttestationReport { report_data: td.report_data.to_vec(), rt_mr3: td.rt_mr3.to_vec() })
}

/// Verifies `quote` against `collateral` at `reference_time`, in whole
/// seconds since the Unix epoch. The outcome is that of the quote verifier:
/// a quote that verifies and carries TD report 1.0 data yields its report,
/// anything else is a verification error.
pub fn verify(quote: &QuoteBytes, collateral: &Collateral, reference_time: u64) -> (r: Result<
    AttestationReport,
    VerificationError,
>)
    ensures
        r is Ok <==> quote_verdict(quote@, collateral@, reference_time) is Some,
        r matches Ok(report) ==> {
            &&& report@ == quote_verdict(quote@, collateral@, reference_time)->0
            &&& report.report_data@.len() == 64
            &&& report.rt_mr3@.len() == 48
        },
{
    match run_quote_verifier(quote.as_slice(), collateral, reference_time) {
        Some(report) => Ok(report),
        None => Err(VerificationError),
    }
}

/// The text that a lossy UTF-8 decoding makes of `bytes`: the text that
/// `bytes` encode where they are well-formed UTF-8, and otherwise that text
/// with a replacement character for each ill-formed part.
pub uninterp spec fn utf8_lossy(bytes: Seq<u8>) -> Seq<char>;

/// Calls `String::from_utf8_lossy`. The result is `utf8_lossy` of the bytes;
/// on well-formed UTF-8 it is the text that the bytes encode.
#[verifier::external_body]
fn lossy_text(bytes: &[u8]) -> (r: String)
    ensures
        r@ == utf8_lossy(bytes@),
        valid_utf8(bytes@) ==> r@ == decode_utf8(bytes@),
{
    String::from_utf8_lossy(bytes).into_owned()
}

/// The identity that `report` is bound to: its report data read as text,
/// ill-formed bytes becoming replacement characters.
pub fn reported_identity(report: &AttestationReport) -> (r: String)
    ensures
        r@ == utf8_lossy(report@.report_data),
        valid_utf8(report@.report_data) ==> r@ == decode_utf8(report@.report_data),
{
    lossy_text(report.report_data.as_slice())
}

/// Accepts `reported` as the identity of `caller` exactly where the two
/// texts are equal.
pub fn check_identity(reported: &String, caller: &String) -> (r: Result<(), IdentityMismatch>)
    ensures
        r is Ok <==> reported@ == caller@,
{
    if *reported == *caller {
        Ok(())
    } else {
        Err(IdentityMismatch)
    }
}

/// Binds `report` to `caller`: succeeds exactly where the identity in the
/// report is the caller's. A report made for one caller is thereby of no use
/// to another.
pub fn bind(report: &AttestationReport, caller: &String) -> (r: Result<(), IdentityMismatch>)
    ensures
        r is Ok <==> utf8_lossy(report@.report_data) == caller@,
        valid_utf8(report@.report_data) ==> (r is Ok <==> decode_utf8(report@.report_data)
            == caller@),
{
    let reported = reported_identity(report);
    check_identity(&reported, caller)
}

} // verus!
