//! The evidence bundle and its serialization into the exchange format.
//!
//! A successful collection yields exactly one bundle: the vTPM quote over the
//! caller's report data, the raw host report it started from, and the
//! hardware quote fetched for that report. The bundle is exchanged as JSON
//! text with exactly these three fields, in this order, and remote verifiers
//! parse that text independently of this crate — so the encoding is pinned
//! down to the character by [`evidence_json`], and [`serialize_evidence`] is
//! proved to produce it. Serialization is total: it cannot fail.

use vstd::prelude::*;
use vstd::string::StringExecFns;

use crate::json::append_byte_array;
use crate::json::append_byte_matrix;
use crate::json::byte_array_json;
use crate::json::byte_matrix_json;

verus! {

/// A vTPM-issued quote, as the plain values of the quoting capability's own
/// schema: the signature, the signed attestation message binding the caller's
/// report data, and the PCR values the quote covers. This crate never looks
/// inside any of them; they pass through to the bundle untouched.
pub struct TpmQuote {
    pub signature: Vec<u8>,
    pub message: Vec<u8>,
    pub pcrs: Vec<Vec<u8>>,
}

/// The mathematical value of a [`TpmQuote`].
pub struct TpmQuoteView {
    pub signature: Seq<u8>,
    pub message: Seq<u8>,
    pub pcrs: Seq<Seq<u8>>,
}

impl View for TpmQuote {
    type V = TpmQuoteView;

    closed spec fn view(&self) -> TpmQuoteView {
        TpmQuoteView {
            signature: self.signature@,
            message: self.message@,
            pcrs: self.pcrs.deep_view(),
        }
    }
}

/// The aggregate evidence of one collection. All three fields originate from
/// the same collection run, and the bundle never changes once built.
pub struct Evidence {
    /// The vTPM quote binding the caller's report data.
    pub tpm_quote: TpmQuote,
    /// The raw host report, exactly as read.
    pub hcl_report: Vec<u8>,
    /// The hardware quote, exactly as the quote service returned it.
    pub tdx_quote: Vec<u8>,
}

/// The exchange encoding of the vTPM quote: a JSON object with the fields
/// `signature`, `message` and `pcrs`, in that order.
pub open spec fn tpm_quote_json(q: TpmQuoteView) -> Seq<char> {
    "{\"signature\":"@ + byte_array_json(q.signature) + ",\"message\":"@ + byte_array_json(
        q.message,
    ) + ",\"pcrs\":"@ + byte_matrix_json(q.pcrs) + "}"@
}

/// The exchange encoding of the whole bundle: a JSON object with the fields
/// `tpm_quote`, `hcl_report` and `tdx_quote`, in that order.
pub open spec fn evidence_json(
    tpm_quote: TpmQuoteView,
    hcl_report: Seq<u8>,
    tdx_quote: Seq<u8>,
) -> Seq<char> {
    "{\"tpm_quote\":"@ + tpm_quote_json(tpm_quote) + ",\"hcl_report\":"@ + byte_array_json(
        hcl_report,
    ) + ",\"tdx_quote\":"@ + byte_array_json(tdx_quote) + "}"@
}

/// Appends the exchange encoding of the vTPM quote to `out`.
fn append_tpm_quote(out: &mut String, q: &TpmQuote)
    ensures
        final(out)@ == old(out)@ + tpm_quote_json(q@),
{
    out.append("{\"signature\":");
    append_byte_array(out, q.signature.as_slice());
    out.append(",\"message\":");
    append_byte_array(out, q.message.as_slice());
    out.append(",\"pcrs\":");
    append_byte_matrix(out, &q.pcrs);
    out.append("}");
    assert(out@ =~= old(out)@ + tpm_quote_json(q@));
}

/// Serializes the bundle into the exchange format. Total, and exact: the
/// returned text is precisely [`evidence_json`] of the bundle's values.
pub fn serialize_evidence(ev: &Evidence) -> (out: String)
    ensures
        out@ == evidence_json(ev.tpm_quote@, ev.hcl_report@, ev.tdx_quote@),
{
    let mut out = String::new();
    out.append("{\"tpm_quote\":");
    append_tpm_quote(&mut out, &ev.tpm_quote);
    out.append(",\"hcl_report\":");
    append_byte_array(&mut out, ev.hcl_report.as_slice());
    out.append(",\"tdx_quote\":");
    append_byte_array(&mut out, ev.tdx_quote.as_slice());
    out.append("}");
    assert(out@ =~= evidence_json(ev.tpm_quote@, ev.hcl_report@, ev.tdx_quote@));
    out
}

} // verus!
