use wf2_core::context::{Context, Term};
use wf2_core::dc_service::DcService;
use wf2_core::recipes::m2::m2_env::M2Env;
use wf2_core::recipes::m2::services::mail::MailService as M2MailService;
use wf2_core::services::mail::MailService;
use wf2_core::services::traefik::TraefikService;
use wf2_core::subcommands::stop::DcStop;
use wf2_core::task::Task;

fn context() -> Context {
    Context {
        cwd: "/users/shane".to_string(),
        name: "shane".to_string(),
        term: Term { height: 30, width: 50 },
        pv: None,
    }
}

fn expected_mail() -> DcService {
    DcService {
        name: "mail".to_string(),
        container_name: "wf2__shane__mail".to_string(),
        image: "mailhog/mailhog".to_string(),
        ports: vec!["1025".to_string()],
        labels: vec![
            "traefik.frontend.rule=Host:mail.jh".to_string(),
            "traefik.port=8025".to_string(),
        ],
    }
}

#[test]
fn mail_service_is_shown_with_its_address() {
    assert_eq!(MailService::DOMAIN, "mail.jh");
    assert_eq!(MailService.to_string(), "MailHog: https://mail.jh");
    assert_eq!(M2MailService::DOMAIN, "mail.jh");
    assert_eq!(M2MailService.to_string(), "MailHog: https://mail.jh");
}

#[test]
fn mail_service_definition() {
    assert_eq!(MailService.dc_service(&context()), expected_mail());
}

#[test]
fn recipe_mail_service_definition() {
    assert_eq!(M2MailService.dc_service(&context()), expected_mail());
}

#[test]
fn host_entry_labels_name_host_and_port() {
    assert_eq!(
        TraefikService::host_entry_label("example.test", 80),
        vec!["traefik.frontend.rule=Host:example.test".to_string(), "traefik.port=80".to_string()]
    );
}

#[test]
fn a_new_service_has_nothing_set() {
    let service = DcService::new("shane", "db", "mysql:5.6");
    assert_eq!(
        service,
        DcService {
            name: "db".to_string(),
            container_name: "wf2__shane__db".to_string(),
            image: "mysql:5.6".to_string(),
            ports: vec![],
            labels: vec![],
        }
    );
    let service = service.set_ports(vec!["3306".to_string()]);
    assert_eq!(service.ports, vec!["3306".to_string()]);
    let service = service.set_labels(vec!["a=b".to_string()]);
    assert_eq!(service.labels, vec!["a=b".to_string()]);
    assert_eq!(service.ports, vec!["3306".to_string()]);
    assert_eq!(service.name, "db");
}

#[test]
fn stop_plans_the_orchestrators_stop() {
    let env = M2Env { content: vec![] };
    assert_eq!(DcStop::NAME, "stop");
    assert_eq!(DcStop::ABOUT, "Take down containers & retain data");
    assert_eq!(DcStop.name(), "stop");
    assert_eq!(
        DcStop.cmd(&context(), Ok(env)),
        Ok(vec![Task::simple_command(
            "docker-compose -f /users/shane/.wf2_m2_shane/docker-compose.yml stop"
        )])
    );
}

#[test]
fn stop_without_environment_is_an_error_and_then_a_notice() {
    assert_eq!(DcStop.cmd(&context(), Err("no env".to_string())), Err("no env".to_string()));
    assert_eq!(
        DcStop.exec(&context(), Err("no env".to_string())),
        vec![Task::notify("no env")]
    );
    assert_eq!(
        DcStop.exec(&context(), Ok(M2Env { content: vec![] })),
        vec![Task::simple_command(
            "docker-compose -f /users/shane/.wf2_m2_shane/docker-compose.yml stop"
        )]
    );
}
