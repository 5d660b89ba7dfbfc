//! Aggregation of the health probes.
//!
//! The three probes — database, node service, liquidity provider — are run
//! by the unverified boundary with bounded timeouts; each outcome arrives
//! here as a plain `Result` (latency on success, message on failure).
//! What is verified is the aggregation: per-service reports and the overall
//! verdict, which degrades exactly when some probe failed.
use vstd::prelude::*;
use vstd::string::StringExecFns;

use crate::breez::LspStatus;
use crate::models::HealthCheckResponse;
use crate::models::ServiceHealth;

verus! {

fn probe_health(outcome: Result<u64, String>) -> (r: ServiceHealth)
    ensures
        outcome matches Ok(ms) ==> r.status@ == "healthy"@ && r.message is None && r.latency_ms
            == Some(ms),
        outcome matches Err(m) ==> r.status@ == "unhealthy"@ && (r.message matches Some(rm) && rm@
            == m@) && r.latency_ms is None,
{
    match outcome {
        Ok(ms) => ServiceHealth {
            status: String::from_str("healthy"),
            message: None,
            latency_ms: Some(ms),
        },
        Err(m) => ServiceHealth {
            status: String::from_str("unhealthy"),
            message: Some(m),
            latency_ms: None,
        },
    }
}

/// Assemble the health report from the three probe outcomes and a
/// preformatted timestamp.
///
/// The overall status is `healthy` exactly when every probe answered; a
/// probe failure degrades it. An LSP that answers but reports itself
/// offline is shown as `degraded` for that service without degrading the
/// overall status.
pub fn health_check(
    db: Result<u64, String>,
    breez: Result<u64, String>,
    lsp: Result<(LspStatus, u64), String>,
    timestamp: String,
) -> (r: HealthCheckResponse)
    ensures
        r.timestamp@ == timestamp@,
        r.status@ == (if db is Ok && breez is Ok && lsp is Ok {
            "healthy"@
        } else {
            "degraded"@
        }),
        db matches Ok(ms) ==> r.database.status@ == "healthy"@ && r.database.latency_ms == Some(
            ms,
        ),
        db matches Err(m) ==> r.database.status@ == "unhealthy"@ && (r.database.message matches
            Some(rm) && rm@ == m@),
        breez matches Ok(ms) ==> r.breez_service.status@ == "healthy"@
            && r.breez_service.latency_ms == Some(ms),
        breez matches Err(m) ==> r.breez_service.status@ == "unhealthy"@ && (
        r.breez_service.message matches Some(rm) && rm@ == m@),
        lsp matches Ok(s) ==> {
            &&& r.lsp.status@ == (if s.0.is_online {
                "healthy"@
            } else {
                "degraded"@
            })
            &&& r.lsp.message matches Some(rm) && rm@ == "LSP: "@ + s.0.lsp_id@
            &&& r.lsp.latency_ms == Some(s.1)
        },
        lsp matches Err(m) ==> r.lsp.status@ == "unhealthy"@ && (r.lsp.message matches Some(rm)
            && rm@ == m@) && r.lsp.latency_ms is None,
{
    let all_ok: bool = db.is_ok() && breez.is_ok() && lsp.is_ok();
    let database = probe_health(db);
    let breez_service = probe_health(breez);
    let lsp_report: ServiceHealth = match lsp {
        Ok((status, ms)) => {
            let mut message = String::from_str("LSP: ");
            message.append(status.lsp_id.as_str());
            ServiceHealth {
                status: if status.is_online {
                    String::from_str("healthy")
                } else {
                    String::from_str("degraded")
                },
                message: Some(message),
                latency_ms: Some(ms),
            }
        },
        Err(m) => ServiceHealth {
            status: String::from_str("unhealthy"),
            message: Some(m),
            latency_ms: None,
        },
    };
    HealthCheckResponse {
        status: if all_ok {
            String::from_str("healthy")
        } else {
            String::from_str("degraded")
        },
        timestamp,
        database,
        breez_service,
        lsp: lsp_report,
    }
}

} // verus!
