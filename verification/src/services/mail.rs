//! The mail catcher.

use crate::context::{Context, ContextView};
use crate::dc_service::{bare_service, DcService, DcServiceView};
use crate::services::traefik::{host_entry, TraefikService};
use vstd::prelude::*;
use vstd::string::*;

verus! {

/// The mail catcher of a project.
#[derive(Debug, Clone, Copy, PartialEq, Eq, Structural)]
pub struct MailService;

/// The definition of the mail catcher of a project.
pub open spec fn mail_service(ctx: ContextView) -> DcServiceView {
    DcServiceView {
        ports: seq!["1025"@],
        labels: host_entry(MailService::DOMAIN@, 8025),
        ..bare_service(ctx.name, MailService::NAME@, MailService::IMAGE@)
    }
}

impl MailService {
    /// The host under which the caught mail is shown.
    pub const DOMAIN: &'static str = "mail.jh";

    /// The name of the service.
    pub const NAME: &'static str = "mail";

    /// The image that the service runs.
    pub const IMAGE: &'static str = "mailhog/mailhog";

    /// What the service is and where it is reached.
    pub fn to_string(&self) -> (text: String)
        ensures
            text@ == "MailHog: https://"@ + MailService::DOMAIN@,
    {
        let mut text = String::from_str("MailHog: https://");
        text.append(MailService::DOMAIN);
        text
    }

    /// The definition of the service for the project of `ctx`.
    pub fn dc_service(&self, ctx: &Context) -> (service: DcService)
        ensures
            service.deep_view() == mail_service(ctx@),
    {
        let mut ports: Vec<String> = Vec::new();
        ports.push(String::from_str("1025"));
        proof {
            assert(ports.deep_view() =~= seq!["1025"@]);
        }
        DcService::new(ctx.name.as_str(), MailService::NAME, MailService::IMAGE).set_ports(
            ports,
        ).set_labels(TraefikService::host_entry_label(MailService::DOMAIN, 8025))
    }
}

} // verus!
