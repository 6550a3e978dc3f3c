//! Upstream-proxy detection and provider probes: the decisions, taken on
//! plain values. Reading environment settings, OS proxy settings and the
//! network itself happens outside and is handed in.

use vstd::prelude::*;
use vstd::string::StringExecFns;

use crate::json::{dec_str_nat, push_u64_dec};
use crate::strutil::{contains_seq, str_contains};
use crate::types::models::ProviderTestResult;

verus! {

/// The scheme under which a detected system proxy is reported: hosts that
/// mention `socks` speak SOCKS5, the rest plain HTTP.
pub open spec fn scheme_of(host: Seq<char>) -> Seq<char> {
    if contains_seq(host, "socks"@) {
        "socks5"@
    } else {
        "http"@
    }
}

/// `scheme://host:port`.
pub fn format_proxy_url(scheme: &str, host: &str, port: u16) -> (r: String)
    ensures
        r@ == scheme@ + "://"@ + host@ + ":"@ + dec_str_nat(port as nat),
{
    let mut s = String::from_str(scheme);
    s.append("://");
    s.append(host);
    s.append(":");
    push_u64_dec(port as u64, &mut s);
    s
}

/// The proxy-detection command, on what the two probes returned. The
/// environment wins when it names a proxy; otherwise an enabled OS-level
/// proxy is reported under the scheme its host suggests; a disabled one is
/// no proxy; and a failed OS probe is non-fatal: it degrades to no proxy
/// detected. The error channel of the signature is never used.
pub fn get_system_proxy(
    env_proxy: Option<(String, u16)>,
    system: Result<(bool, String, u16), String>,
) -> (r: Result<Option<String>, String>)
    ensures
        r is Ok,
        env_proxy matches Some(hp) ==> (r matches Ok(Some(u)) && u@ == "http"@ + "://"@ + hp.0@
            + ":"@ + dec_str_nat(hp.1 as nat)),
        system matches Ok(s) ==> ((env_proxy is None && s.0) ==> (r matches Ok(Some(u)) && u@
            == scheme_of(s.1@) + "://"@ + s.1@ + ":"@ + dec_str_nat(s.2 as nat))),
        system matches Ok(s) ==> ((env_proxy is None && !s.0) ==> r == Ok::<
            Option<String>,
            String,
        >(None)),
        system is Err ==> (env_proxy is None ==> r == Ok::<Option<String>, String>(None)),
{
    match env_proxy {
        Some((host, port)) => Ok(Some(format_proxy_url("http", &host, port))),
        None => {
            match system {
                Ok((enabled, host, port)) => {
                    if enabled {
                        let scheme = if str_contains(host.as_str(), "socks") {
                            "socks5"
                        } else {
                            "http"
                        };
                        Ok(Some(format_proxy_url(scheme, &host, port)))
                    } else {
                        Ok(None)
                    }
                },
                Err(_) => Ok(None),
            }
        },
    }
}

/// What a connection probe to a provider endpoint found: either the
/// endpoint answered a model listing, or it could not be reached.
#[derive(Debug, Clone, PartialEq, Eq)]
pub enum ConnectionOutcome {
    Reached { latency_ms: u64, models_found: u32 },
    Unreachable { error: String },
}

/// The probe command, on what the network attempt returned: success
/// carries the latency and model count; failure carries a message that is
/// never empty, and no fault escapes.
pub fn test_provider_connection(outcome: ConnectionOutcome) -> (r: ProviderTestResult)
    ensures
        r.success <==> outcome is Reached,
        outcome matches ConnectionOutcome::Reached { latency_ms, models_found } ==> r.latency_ms
            == Some(latency_ms) && r.models_found == Some(models_found),
        outcome is Unreachable ==> r.latency_ms is None && r.models_found is None,
        r.message@.len() > 0,
        outcome matches ConnectionOutcome::Unreachable { error } ==> (error@.len() > 0
            ==> r.message@ == error@),
{
    match outcome {
        ConnectionOutcome::Reached { latency_ms, models_found } => {
            let message = String::from_str("Connection successful");
            proof {
                reveal_strlit("Connection successful");
            }
            ProviderTestResult {
                success: true,
                message,
                latency_ms: Some(latency_ms),
                models_found: Some(models_found),
            }
        },
        ConnectionOutcome::Unreachable { error } => {
            let message = if error.as_str().is_empty() {
                proof {
                    reveal_strlit("Connection failed");
                }
                String::from_str("Connection failed")
            } else {
                error
            };
            ProviderTestResult { success: false, message, latency_ms: None, models_found: None }
        },
    }
}

} // verus!
