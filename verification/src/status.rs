//! The outbound status mapper.
//!
//! A remote rejection at the RCPT or final-DATA stage is never echoed to the
//! local MTA as-is: the proxy has no queue of its own, so every remote
//! failure — transient or permanent — becomes a local transient defer, with
//! the stage, the remote failure class, and the remote code recorded in the
//! reply text. The local MTA's retry queue then owns the retry decision.

use vstd::prelude::*;

use crate::text::{code_digits, code_to_digits};

verus! {

/// The relay stage at which a remote reply is being mapped.
#[derive(Clone, Copy, Debug, PartialEq, Eq, Structural)]
pub enum RelayStage {
    /// A remote reply to a forwarded RCPT command.
    Rcpt,
    /// The remote's final reply after the DATA body.
    DataFinal,
}

/// The stage tag embedded in the mapped reply.
pub open spec fn stage_text(stage: RelayStage) -> Seq<char> {
    match stage {
        RelayStage::Rcpt => "rcpt"@,
        RelayStage::DataFinal => "data-final"@,
    }
}

/// The remote failure class: 4xx is transient, anything else permanent.
pub open spec fn status_class_text(code: int) -> Seq<char> {
    if 400 <= code <= 499 {
        "remote-transient"@
    } else {
        "remote-permanent"@
    }
}

/// The retry-safe local reply for a remote rejection: always a 451 defer
/// that names the stage, the remote class, and the remote code.
pub open spec fn deferred_line(stage: RelayStage, code: int) -> Seq<char> {
    "451 4.4.0 Delivery deferred for retry (stage="@ + stage_text(stage) + ", class="@
        + status_class_text(code) + ", upstream="@ + code_digits(code) + ")"@
}

/// Rewrites a non-2xx remote reply code into the local defer line.
pub fn map_remote_status(stage: RelayStage, code: u16) -> (r: String)
    requires
        code <= 999,
    ensures
        r@ == deferred_line(stage, code as int),
{
    let mut out = String::from_str("451 4.4.0 Delivery deferred for retry (stage=");
    match stage {
        RelayStage::Rcpt => out.append("rcpt"),
        RelayStage::DataFinal => out.append("data-final"),
    }
    out.append(", class=");
    if 400 <= code && code <= 499 {
        out.append("remote-transient");
    } else {
        out.append("remote-permanent");
    }
    out.append(", upstream=");
    let digits = code_to_digits(code);
    out.append(digits.as_str());
    out.append(")");
    out
}

} // verus!
