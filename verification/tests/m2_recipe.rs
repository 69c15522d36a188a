use wf2_core::cmd::Cmd;
use wf2_core::context::{Context, Term};
use wf2_core::docker_compose::DockerCompose;
use wf2_core::recipes::m2::m2_env::{M2Env, DB_NAME, DB_PASS, DB_USER};
use wf2_core::recipes::m2::php_container::{container_name_of, PhpContainer};
use wf2_core::recipes::m2::{M2Recipe, M2Templates};
use wf2_core::recipes::{Recipe, RecipeTemplate, SubMatches};
use wf2_core::snapshot::Snapshot;
use wf2_core::task::Task;

fn context() -> Context {
    Context {
        cwd: "/users/shane".to_string(),
        name: "wf2_default".to_string(),
        term: Term { height: 30, width: 50 },
        pv: None,
    }
}

fn context_with_pv() -> Context {
    Context { pv: Some("/usr/pv".to_string()), ..context() }
}

fn env() -> M2Env {
    M2Env { content: vec![1, 2, 3] }
}

fn words(items: &[&str]) -> Vec<String> {
    items.iter().map(|s| s.to_string()).collect()
}

#[test]
fn context_new_keeps_what_it_is_given() {
    let ctx = Context::new("/users/shane", "wf2_default", Term { height: 30, width: 50 }, None);
    assert_eq!(ctx, context());
}

#[test]
fn container_names_are_made_of_project_and_service() {
    assert_eq!(container_name_of("wf2_default", "db"), "wf2__wf2_default__db");
    assert_eq!(PhpContainer::from_ctx(&context()).name, "wf2__wf2_default__php");
}

#[test]
fn database_values_are_fixed() {
    assert_eq!(DB_USER, "docker");
    assert_eq!(DB_PASS, "docker");
    assert_eq!(DB_NAME, "docker");
}

#[test]
fn env_hands_out_its_bytes() {
    assert_eq!(env().content(), &vec![1, 2, 3]);
}

#[test]
fn compose_file_lies_below_the_working_directory() {
    let dc = DockerCompose::from_ctx(&context());
    assert_eq!(dc.file, "/users/shane/.wf2_m2_wf2_default/docker-compose.yml");
}

#[test]
fn compose_command_joins_its_words() {
    let dc = DockerCompose::from_ctx(&context());
    assert_eq!(
        dc.cmd_string(&words(&["logs", "unison", "-vv"])),
        "docker-compose -f /users/shane/.wf2_m2_wf2_default/docker-compose.yml logs unison -vv"
    );
    assert_eq!(
        dc.cmd_task(words(&["down"])),
        Task::simple_command(
            "docker-compose -f /users/shane/.wf2_m2_wf2_default/docker-compose.yml down"
        )
    );
}

#[test]
fn exec_embeds_user_terminal_and_arguments() {
    let plan = M2Recipe::new().exec(&context(), words(&["ls", "-la"]), "www-data".to_string());
    assert_eq!(
        plan,
        vec![Task::simple_command(
            "docker exec -it -u www-data -e COLUMNS=\"50\" -e LINES=\"30\" wf2__wf2_default__php ls -la"
        )]
    );
}

#[test]
fn exec_without_arguments_ends_in_a_space() {
    let plan = M2Recipe::new().exec(&context(), vec![], "root".to_string());
    assert_eq!(
        plan,
        vec![Task::simple_command(
            "docker exec -it -u root -e COLUMNS=\"50\" -e LINES=\"30\" wf2__wf2_default__php "
        )]
    );
}

#[test]
fn down_is_the_orchestrators_down() {
    let plan = M2Recipe::new().down(&context(), &env());
    assert_eq!(
        plan,
        vec![Task::simple_command(
            "docker-compose -f /users/shane/.wf2_m2_wf2_default/docker-compose.yml down"
        )]
    );
}

#[test]
fn stop_is_the_orchestrators_stop() {
    let plan = M2Recipe::new().stop(&context(), &env());
    assert_eq!(
        plan,
        vec![Task::simple_command(
            "docker-compose -f /users/shane/.wf2_m2_wf2_default/docker-compose.yml stop"
        )]
    );
}

#[test]
fn up_adds_the_flag_when_detached() {
    let recipe = M2Recipe::new();
    assert_eq!(
        recipe.up(&context(), &env(), false),
        vec![Task::simple_command(
            "docker-compose -f /users/shane/.wf2_m2_wf2_default/docker-compose.yml up"
        )]
    );
    assert_eq!(
        recipe.up(&context(), &env(), true),
        vec![Task::simple_command(
            "docker-compose -f /users/shane/.wf2_m2_wf2_default/docker-compose.yml up -d"
        )]
    );
}

#[test]
fn doctor_repairs_and_tells() {
    let plan = M2Recipe::new().doctor(&context());
    assert_eq!(
        plan,
        vec![
            Task::simple_command(
                "docker exec -it wf2__wf2_default__unison chown -R docker:docker /volumes/internal"
            ),
            Task::notify("Fixed a known permissions error in the unison container"),
        ]
    );
}

#[test]
fn db_import_with_progress_viewer() {
    let plan = M2Recipe::new().db_import(&context_with_pv(), "~/Downloads/dump.sql");
    assert_eq!(
        plan,
        vec![
            Task::file_exists("~/Downloads/dump.sql", "Ensure that the given DB file exists"),
            Task::simple_command(
                "pv -f ~/Downloads/dump.sql | docker exec -i wf2__wf2_default__db mysql -udocker -pdocker -D docker"
            ),
        ]
    );
}

#[test]
fn db_import_without_progress_viewer() {
    let plan = M2Recipe::new().db_import(&context(), "~/Downloads/dump.sql");
    assert_eq!(
        plan,
        vec![
            Task::file_exists("~/Downloads/dump.sql", "Ensure that the given DB file exists"),
            Task::simple_command(
                "docker exec -i wf2__wf2_default__db mysql -udocker -pdocker docker < ~/Downloads/dump.sql"
            ),
        ]
    );
}

#[test]
fn db_import_checks_the_file_first() {
    let plan = M2Recipe::new().db_import(&context_with_pv(), "dump.sql");
    assert_eq!(plan.len(), 2);
    assert!(matches!(plan[0], Task::FileExists { .. }));
    assert!(matches!(plan[1], Task::SimpleCommand { .. }));
}

#[test]
fn db_dump_writes_to_the_fixed_file() {
    let plan = M2Recipe::new().db_dump(&context());
    assert_eq!(
        plan,
        vec![
            Task::simple_command(
                "docker exec -i wf2__wf2_default__db mysqldump -udocker -pdocker docker > dump.sql"
            ),
            Task::notify("Written to file dump.sql"),
        ]
    );
}

#[test]
fn pass_through_joins_with_single_spaces_and_quotes_nothing() {
    let plan = M2Recipe::new().pass_through(words(&["composer", "require", "a b", "\"c\""]));
    assert_eq!(plan, vec![Task::simple_command("composer require a b \"c\"")]);
}

#[test]
fn new_recipe_has_empty_templates() {
    let recipe = M2Recipe::new();
    assert_eq!(recipe.templates, M2Templates::default());
    assert!(recipe.templates.unison.bytes.is_empty());
    assert!(recipe.templates.traefik.bytes.is_empty());
    assert!(recipe.templates.nginx.bytes.is_empty());
    assert!(recipe.templates.env.bytes.is_empty());
}

#[test]
fn with_templates_replaces_the_templates() {
    let mut recipe = M2Recipe::new();
    let templates = M2Templates {
        unison: RecipeTemplate { bytes: vec![1] },
        traefik: RecipeTemplate { bytes: vec![2, 2] },
        nginx: RecipeTemplate { bytes: vec![3] },
        env: RecipeTemplate { bytes: vec![] },
    };
    let same = recipe.with_templates(templates);
    assert_eq!(same.templates.unison.bytes, vec![1]);
    assert_eq!(recipe.templates.traefik.bytes, vec![2, 2]);
    assert_eq!(recipe.templates.nginx.bytes, vec![3]);
    assert!(recipe.templates.env.bytes.is_empty());
}

#[test]
fn resolve_without_environment_is_one_notice() {
    let recipe = M2Recipe::new();
    let requests = vec![
        Cmd::Up { detached: true },
        Cmd::Down,
        Cmd::Stop,
        Cmd::Exec { trailing: words(&["ls"]), user: "root".to_string() },
        Cmd::DBImport { path: "dump.sql".to_string() },
        Cmd::DBDump,
        Cmd::Doctor,
        Cmd::Pull { trailing: words(&["a"]) },
        Cmd::Push { trailing: words(&["/"]) },
        Cmd::PassThrough { cmd: "npm".to_string(), trailing: words(&["npm", "i"]) },
    ];
    for request in requests {
        let plan = recipe.resolve_cmd(
            &context(),
            request,
            Err("missing required configuration".to_string()),
            &Snapshot::new(),
        );
        assert_eq!(plan, vec![Task::notify("missing required configuration")]);
    }
}

#[test]
fn resolve_hands_each_request_to_its_planner() {
    let recipe = M2Recipe::new();
    let ctx = context_with_pv();
    let snapshot = Snapshot::new();
    assert_eq!(
        recipe.resolve_cmd(&ctx, Cmd::Up { detached: true }, Ok(env()), &snapshot),
        recipe.up(&ctx, &env(), true)
    );
    assert_eq!(
        recipe.resolve_cmd(&ctx, Cmd::Down, Ok(env()), &snapshot),
        recipe.down(&ctx, &env())
    );
    assert_eq!(
        recipe.resolve_cmd(&ctx, Cmd::Stop, Ok(env()), &snapshot),
        recipe.stop(&ctx, &env())
    );
    assert_eq!(
        recipe.resolve_cmd(
            &ctx,
            Cmd::Exec { trailing: words(&["ls"]), user: "root".to_string() },
            Ok(env()),
            &snapshot
        ),
        recipe.exec(&ctx, words(&["ls"]), "root".to_string())
    );
    assert_eq!(
        recipe.resolve_cmd(
            &ctx,
            Cmd::DBImport { path: "dump.sql".to_string() },
            Ok(env()),
            &snapshot
        ),
        recipe.db_import(&ctx, "dump.sql")
    );
    assert_eq!(
        recipe.resolve_cmd(&ctx, Cmd::DBDump, Ok(env()), &snapshot),
        recipe.db_dump(&ctx)
    );
    assert_eq!(
        recipe.resolve_cmd(&ctx, Cmd::Doctor, Ok(env()), &snapshot),
        recipe.doctor(&ctx)
    );
    assert_eq!(
        recipe.resolve_cmd(&ctx, Cmd::Push { trailing: words(&["a/b.txt"]) }, Ok(env()), &snapshot),
        recipe.push(&ctx, words(&["a/b.txt"]))
    );
    assert_eq!(
        recipe.resolve_cmd(&ctx, Cmd::Pull { trailing: words(&["a/b.txt"]) }, Ok(env()), &snapshot),
        recipe.pull(&ctx, words(&["a/b.txt"]), &snapshot)
    );
}

#[test]
fn resolve_passes_a_command_line_through() {
    let plan = M2Recipe::new().resolve_cmd(
        &context(),
        Cmd::PassThrough { cmd: "logs".to_string(), trailing: words(&["logs", "unison", "-vv"]) },
        Ok(env()),
        &Snapshot::new(),
    );
    assert_eq!(plan, vec![Task::simple_command("logs unison -vv")]);
}

#[test]
fn select_command_puts_the_name_before_the_words() {
    let matches = SubMatches { values: Some(words(&["unison", "-vv"])) };
    let picked = M2Recipe::new().select_command("logs", Some(&matches));
    assert_eq!(
        picked,
        Some(Cmd::PassThrough {
            cmd: "logs".to_string(),
            trailing: words(&["logs", "unison", "-vv"]),
        })
    );
}

#[test]
fn select_command_without_words_keeps_the_name_alone() {
    let matches = SubMatches { values: None };
    let picked = M2Recipe::new().select_command("logs", Some(&matches));
    assert_eq!(
        picked,
        Some(Cmd::PassThrough { cmd: "logs".to_string(), trailing: words(&["logs"]) })
    );
}

#[test]
fn select_command_without_matches_picks_nothing() {
    assert_eq!(M2Recipe::new().select_command("logs", None), None);
}

#[test]
fn task_err_vec_is_one_notice() {
    assert_eq!(Task::task_err_vec("boom".to_string()), vec![Task::notify_error("boom")]);
    assert_eq!(Task::task_err_vec("".to_string()), vec![Task::notify("")]);
}

#[test]
fn plan_or_notice_keeps_a_plan_and_reports_a_failure() {
    let plan = vec![Task::notify("a"), Task::simple_command("b")];
    assert_eq!(
        Task::plan_or_notice(Ok(vec![Task::notify("a"), Task::simple_command("b")])),
        plan
    );
    assert_eq!(Task::plan_or_notice(Err("no".to_string())), vec![Task::notify("no")]);
}

#[test]
fn task_constructors_own_their_texts() {
    assert_eq!(
        Task::simple_command("ls"),
        Task::SimpleCommand { command: "ls".to_string() }
    );
    assert_eq!(Task::notify("hi"), Task::Notify { message: "hi".to_string() });
    assert_eq!(
        Task::file_exists("/a", "d"),
        Task::FileExists { path: "/a".to_string(), description: "d".to_string() }
    );
    assert_eq!(
        Task::dir_create("/a", "d"),
        Task::DirCreate { path: "/a".to_string(), description: "d".to_string() }
    );
    assert_eq!(
        Task::dir_remove("/a", "d"),
        Task::DirRemove { path: "/a".to_string(), description: "d".to_string() }
    );
    assert_eq!(
        Task::sequence(vec![Task::notify("x")]),
        Task::Sequence(vec![Task::Notify { message: "x".to_string() }])
    );
}
