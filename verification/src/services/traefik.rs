//! The reverse proxy in front of the services.

use crate::text;
use vstd::prelude::*;
use vstd::string::*;

verus! {

/// The reverse proxy.
#[derive(Debug, Clone, Copy, PartialEq, Eq, Structural)]
pub struct TraefikService;

/// The labels that route the host `domain` to the port `port` of a
/// service.
pub open spec fn host_entry(domain: Seq<char>, port: nat) -> Seq<Seq<char>> {
    seq!["traefik.frontend.rule=Host:"@ + domain, "traefik.port="@ + text::decimal(port)]
}

impl TraefikService {
    /// The labels that route the host `domain` to the port `port`.
    pub fn host_entry_label(domain: &str, port: u32) -> (labels: Vec<String>)
        ensures
            labels.deep_view() == host_entry(domain@, port as nat),
    {
        let mut rule = String::from_str("traefik.frontend.rule=Host:");
        rule.append(domain);
        let mut target = String::from_str("traefik.port=");
        target.append(text::decimal_string(port).as_str());
        let mut labels: Vec<String> = Vec::new();
        labels.push(rule);
        labels.push(target);
        labels
    }
}

} // verus!
