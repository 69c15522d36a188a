//! The recipe for PHP environments that run Magento 2.

use crate::cmd::{Cmd, CmdView};
use crate::context::{Context, ContextView};
use crate::docker_compose::{compose_command, compose_file, DockerCompose};
use crate::recipes::{given_words, Recipe, RecipeTemplate, SubMatches};
use crate::snapshot::{LocalEntryView, Snapshot};
use crate::task::{failure_plan, put, Task, TaskView};
use crate::text;
use vstd::prelude::*;
use vstd::string::*;

pub mod m2_env;
pub mod php_container;
pub mod services;
pub mod sync;
pub mod sync_order;

use m2_env::{M2Env, DB_NAME, DB_PASS, DB_USER};
use php_container::{container_name, container_name_of, PhpContainer};
use sync::{pull_plan, pullable, push_plan, pushable};

verus! {

/// The templates of the files that go with the recipe. The planners carry
/// them and never look inside.
#[derive(Debug, Clone, PartialEq, Eq)]
pub struct M2Templates {
    pub unison: RecipeTemplate,
    pub traefik: RecipeTemplate,
    pub nginx: RecipeTemplate,
    pub env: RecipeTemplate,
}

/// The recipe: a set of templates and the planners that go with it.
#[derive(Debug, Clone, PartialEq, Eq)]
pub struct M2Recipe {
    pub templates: M2Templates,
}

/// The command line that runs `trailing` in the PHP container as `user`,
/// with the terminal's size as a hint.
pub open spec fn exec_command(ctx: ContextView, trailing: Seq<Seq<char>>, user: Seq<char>) -> Seq<
    char,
> {
    "docker exec -it -u "@ + user + " -e COLUMNS=\""@ + text::decimal(ctx.term.width as nat)
        + "\" -e LINES=\""@ + text::decimal(ctx.term.height as nat) + "\" "@ + container_name(
        ctx.name,
        "php"@,
    ) + " "@ + text::joined(trailing, " "@)
}

/// The plan of `exec`.
pub open spec fn exec_plan(ctx: ContextView, trailing: Seq<Seq<char>>, user: Seq<char>) -> Seq<
    TaskView,
> {
    seq![TaskView::SimpleCommand { command: exec_command(ctx, trailing, user) }]
}

/// The plan that hands the one word `word` to the orchestrator.
pub open spec fn compose_plan(ctx: ContextView, word: Seq<char>) -> Seq<TaskView> {
    seq![TaskView::SimpleCommand { command: compose_command(compose_file(ctx), seq![word]) }]
}

/// The command line that repairs the ownership of the synced volume.
pub open spec fn doctor_command(ctx: ContextView) -> Seq<char> {
    "docker exec -it wf2__"@ + ctx.name + "__unison chown -R docker:docker /volumes/internal"@
}

/// The plan of `doctor`.
pub open spec fn doctor_plan(ctx: ContextView) -> Seq<TaskView> {
    seq![
        TaskView::SimpleCommand { command: doctor_command(ctx) },
        TaskView::Notify { message: "Fixed a known permissions error in the unison container"@ },
    ]
}

/// The command line that feeds the dump `file` to the database: through
/// the progress viewer when the context has one, by redirection when not.
pub open spec fn db_import_command(ctx: ContextView, file: Seq<char>) -> Seq<char> {
    let container = container_name(ctx.name, "db"@);
    if ctx.pv is Some {
        "pv -f "@ + file + " | docker exec -i "@ + container + " mysql -u"@ + DB_USER@ + " -p"@
            + DB_PASS@ + " -D "@ + DB_NAME@
    } else {
        "docker exec -i "@ + container + " mysql -u"@ + DB_USER@ + " -p"@ + DB_PASS@ + " "@
            + DB_NAME@ + " < "@ + file
    }
}

/// The plan of `db_import`: the check that the dump is there, then the
/// import.
pub open spec fn db_import_plan(ctx: ContextView, file: Seq<char>) -> Seq<TaskView> {
    seq![
        TaskView::FileExists { path: file, description: "Ensure that the given DB file exists"@ },
        TaskView::SimpleCommand { command: db_import_command(ctx, file) },
    ]
}

/// The command line that dumps the database to `dump.sql`.
pub open spec fn db_dump_command(ctx: ContextView) -> Seq<char> {
    "docker exec -i "@ + container_name(ctx.name, "db"@) + " mysqldump -u"@ + DB_USER@ + " -p"@
        + DB_PASS@ + " "@ + DB_NAME@ + " > dump.sql"@
}

/// The plan of `db_dump`: the dump, then the notice of where it went.
pub open spec fn db_dump_plan(ctx: ContextView) -> Seq<TaskView> {
    seq![
        TaskView::SimpleCommand { command: db_dump_command(ctx) },
        TaskView::Notify { message: "Written to file dump.sql"@ },
    ]
}

/// The words that bring the environment up.
pub open spec fn up_words(detached: bool) -> Seq<Seq<char>> {
    if detached {
        seq!["up"@, "-d"@]
    } else {
        seq!["up"@]
    }
}

/// The plan of `up`.
pub open spec fn up_plan(ctx: ContextView, detached: bool) -> Seq<TaskView> {
    seq![
        TaskView::SimpleCommand {
            command: compose_command(compose_file(ctx), up_words(detached)),
        },
    ]
}

/// The plan of a request that is passed through: its words as one
/// command line, joined by single spaces, without quoting.
pub open spec fn pass_through_plan(trailing: Seq<Seq<char>>) -> Seq<TaskView> {
    seq![TaskView::SimpleCommand { command: text::joined(trailing, " "@) }]
}

/// The plan of a request in a resolved environment.
pub open spec fn request_plan(
    ctx: ContextView,
    cmd: CmdView,
    snapshot: Seq<LocalEntryView>,
) -> Seq<TaskView> {
    match cmd {
        CmdView::Up { detached } => up_plan(ctx, detached),
        CmdView::Down => compose_plan(ctx, "down"@),
        CmdView::Stop => compose_plan(ctx, "stop"@),
        CmdView::Exec { trailing, user } => exec_plan(ctx, trailing, user),
        CmdView::DBImport { path } => db_import_plan(ctx, path),
        CmdView::DBDump => db_dump_plan(ctx),
        CmdView::Doctor => doctor_plan(ctx),
        CmdView::Pull { trailing } => pull_plan(ctx, snapshot, trailing),
        CmdView::Push { trailing } => push_plan(ctx, trailing),
        CmdView::PassThrough { cmd, trailing } => pass_through_plan(trailing),
    }
}

impl Default for M2Templates {
    /// Empty templates. An application that brings its own files installs
    /// them with `with_templates`.
    fn default() -> (templates: M2Templates)
        ensures
            templates.unison.bytes@ == Seq::<u8>::empty(),
            templates.traefik.bytes@ == Seq::<u8>::empty(),
            templates.nginx.bytes@ == Seq::<u8>::empty(),
            templates.env.bytes@ == Seq::<u8>::empty(),
    {
        M2Templates {
            unison: RecipeTemplate { bytes: Vec::new() },
            traefik: RecipeTemplate { bytes: Vec::new() },
            nginx: RecipeTemplate { bytes: Vec::new() },
            env: RecipeTemplate { bytes: Vec::new() },
        }
    }
}

impl Recipe for M2Recipe {
    open spec fn plannable(&self, ctx: ContextView, cmd: CmdView) -> bool {
        match cmd {
            CmdView::Push { trailing } => pushable(trailing),
            CmdView::Pull { trailing } => pullable(ctx, trailing),
            _ => true,
        }
    }

    open spec fn plan_of(
        &self,
        ctx: ContextView,
        cmd: CmdView,
        env: Result<(), Seq<char>>,
        snapshot: Seq<LocalEntryView>,
    ) -> Seq<TaskView> {
        match env {
            Err(message) => failure_plan(message),
            Ok(_) => request_plan(ctx, cmd, snapshot),
        }
    }

    open spec fn selected(&self, cmd: Seq<char>, sub_matches: Option<SubMatches>) -> Option<
        CmdView,
    > {
        match sub_matches {
            Some(matches) => Some(
                CmdView::PassThrough { cmd, trailing: seq![cmd] + given_words(matches) },
            ),
            None => None,
        }
    }

    fn resolve_cmd(
        &self,
        ctx: &Context,
        cmd: Cmd,
        env: Result<M2Env, String>,
        snapshot: &Snapshot,
    ) -> (plan: Vec<Task>) {
        let env = match env {
            Err(message) => {
                return Task::task_err_vec(message);
            },
            Ok(env) => env,
        };
        match cmd {
            Cmd::Up { detached } => self.up(ctx, &env, detached),
            Cmd::Down => self.down(ctx, &env),
            Cmd::Stop => self.stop(ctx, &env),
            Cmd::Exec { trailing, user } => self.exec(ctx, trailing, user),
            Cmd::DBImport { path } => self.db_import(ctx, path.as_str()),
            Cmd::DBDump => self.db_dump(ctx),
            Cmd::Doctor => self.doctor(ctx),
            Cmd::Pull { trailing } => self.pull(ctx, trailing, snapshot),
            Cmd::Push { trailing } => self.push(ctx, trailing),
            Cmd::PassThrough { cmd, trailing } => self.pass_through(trailing),
        }
    }

    fn select_command(&self, cmd: &str, sub_matches: Option<&SubMatches>) -> (picked: Option<
        Cmd,
    >) {
        match sub_matches {
            Some(matches) => {
                let mut trailing: Vec<String> = Vec::new();
                trailing.push(cmd.to_owned());
                proof {
                    assert(trailing.deep_view() =~= seq![cmd@]);
                }
                match &matches.values {
                    Some(words) => {
                        let mut i: usize = 0;
                        while i < words.len()
                            invariant
                                i <= words.len(),
                                trailing.deep_view() == seq![cmd@] + words.deep_view().take(
                                    i as int,
                                ),
                            decreases words.len() - i,
                        {
                            let ghost before = trailing.deep_view();
                            trailing.push(words[i].clone());
                            proof {
                                assert(trailing.deep_view() =~= before.push(words[i as int]@));
                            }
                            i += 1;
                        }
                        proof {
                            assert(words.deep_view().take(words.len() as int)
                                == words.deep_view());
                        }
                    },
                    None => {},
                }
                Some(Cmd::PassThrough { cmd: cmd.to_owned(), trailing })
            },
            None => None,
        }
    }
}

impl M2Recipe {
    /// The recipe with its default templates.
    pub fn new() -> (recipe: M2Recipe)
        ensures
            recipe.templates.unison.bytes@ == Seq::<u8>::empty(),
            recipe.templates.traefik.bytes@ == Seq::<u8>::empty(),
            recipe.templates.nginx.bytes@ == Seq::<u8>::empty(),
            recipe.templates.env.bytes@ == Seq::<u8>::empty(),
    {
        M2Recipe { templates: M2Templates::default() }
    }

    /// Puts `templates` in the place of the recipe's templates.
    pub fn with_templates(&mut self, templates: M2Templates) -> (recipe: &mut M2Recipe)
        ensures
            recipe.templates == templates,
            *final(self) == *final(recipe),
    {
        self.templates = templates;
        self
    }

    /// Brings the containers up, in the background when `detached`.
    pub fn up(&self, ctx: &Context, env: &M2Env, detached: bool) -> (plan: Vec<Task>)
        ensures
            plan.deep_view() == up_plan(ctx@, detached),
    {
        let mut trailing: Vec<String> = Vec::new();
        trailing.push(String::from_str("up"));
        if detached {
            trailing.push(String::from_str("-d"));
        }
        proof {
            assert(trailing.deep_view() =~= up_words(detached));
        }
        let task = DockerCompose::from_ctx(ctx).cmd_task(trailing);
        let mut plan: Vec<Task> = Vec::new();
        put(&mut plan, task);
        plan
    }

    /// Hands a command line on as it stands. `trailing` holds the words
    /// of the whole line, the command's name first; they are joined by
    /// single spaces and nothing is quoted or escaped.
    pub fn pass_through(&self, trailing: Vec<String>) -> (plan: Vec<Task>)
        ensures
            plan.deep_view() == pass_through_plan(trailing.deep_view()),
    {
        let line = text::join(&trailing, " ");
        let mut plan: Vec<Task> = Vec::new();
        put(&mut plan, Task::simple_command(line.as_str()));
        plan
    }

    /// Runs a command in the PHP container, as `user`. The arguments are
    /// joined by single spaces, without quoting.
    pub fn exec(&self, ctx: &Context, trailing: Vec<String>, user: String) -> (plan: Vec<Task>)
        ensures
            plan.deep_view() == exec_plan(ctx@, trailing.deep_view(), user@),
    {
        let container = PhpContainer::from_ctx(ctx);
        let mut line = String::from_str("docker exec -it -u ");
        line.append(user.as_str());
        line.append(" -e COLUMNS=\"");
        line.append(text::decimal_string(ctx.term.width as u32).as_str());
        line.append("\" -e LINES=\"");
        line.append(text::decimal_string(ctx.term.height as u32).as_str());
        line.append("\" ");
        line.append(container.name.as_str());
        line.append(" ");
        line.append(text::join(&trailing, " ").as_str());
        let mut plan: Vec<Task> = Vec::new();
        put(&mut plan, Task::simple_command(line.as_str()));
        plan
    }

    /// Stops the containers and removes them.
    pub fn down(&self, ctx: &Context, env: &M2Env) -> (plan: Vec<Task>)
        ensures
            plan.deep_view() == compose_plan(ctx@, "down"@),
    {
        compose_word(ctx, "down")
    }

    /// Stops the containers and keeps them.
    pub fn stop(&self, ctx: &Context, env: &M2Env) -> (plan: Vec<Task>)
        ensures
            plan.deep_view() == compose_plan(ctx@, "stop"@),
    {
        compose_word(ctx, "stop")
    }

    /// Repairs a known permissions problem in the sync container.
    pub fn doctor(&self, ctx: &Context) -> (plan: Vec<Task>)
        ensures
            plan.deep_view() == doctor_plan(ctx@),
    {
        let mut line = String::from_str("docker exec -it wf2__");
        line.append(ctx.name.as_str());
        line.append("__unison chown -R docker:docker /volumes/internal");
        let mut plan: Vec<Task> = Vec::new();
        put(&mut plan, Task::simple_command(line.as_str()));
        put(&mut plan, Task::notify("Fixed a known permissions error in the unison container"));
        plan
    }

    /// Imports a database dump. The progress viewer is used when the
    /// context has one.
    pub fn db_import(&self, ctx: &Context, path: &str) -> (plan: Vec<Task>)
        ensures
            plan.deep_view() == db_import_plan(ctx@, path@),
    {
        let container = container_name_of(ctx.name.as_str(), "db");
        let line = match ctx.pv {
            Some(_) => {
                let mut line = String::from_str("pv -f ");
                line.append(path);
                line.append(" | docker exec -i ");
                line.append(container.as_str());
                line.append(" mysql -u");
                line.append(DB_USER);
                line.append(" -p");
                line.append(DB_PASS);
                line.append(" -D ");
                line.append(DB_NAME);
                line
            },
            None => {
                let mut line = String::from_str("docker exec -i ");
                line.append(container.as_str());
                line.append(" mysql -u");
                line.append(DB_USER);
                line.append(" -p");
                line.append(DB_PASS);
                line.append(" ");
                line.append(DB_NAME);
                line.append(" < ");
                line.append(path);
                line
            },
        };
        let mut plan: Vec<Task> = Vec::new();
        put(&mut plan, Task::file_exists(path, "Ensure that the given DB file exists"));
        put(&mut plan, Task::simple_command(line.as_str()));
        plan
    }

    /// Dumps the database to `dump.sql` in the project root. The file's
    /// name cannot be chosen.
    pub fn db_dump(&self, ctx: &Context) -> (plan: Vec<Task>)
        ensures
            plan.deep_view() == db_dump_plan(ctx@),
    {
        let container = container_name_of(ctx.name.as_str(), "db");
        let mut line = String::from_str("docker exec -i ");
        line.append(container.as_str());
        line.append(" mysqldump -u");
        line.append(DB_USER);
        line.append(" -p");
        line.append(DB_PASS);
        line.append(" ");
        line.append(DB_NAME);
        line.append(" > dump.sql");
        let mut plan: Vec<Task> = Vec::new();
        put(&mut plan, Task::simple_command(line.as_str()));
        put(&mut plan, Task::notify("Written to file dump.sql"));
        plan
    }
}

/// The plan that hands one word to the orchestrator of the project.
fn compose_word(ctx: &Context, word: &str) -> (plan: Vec<Task>)
    ensures
        plan.deep_view() == compose_plan(ctx@, word@),
{
    let mut trailing: Vec<String> = Vec::new();
    trailing.push(String::from_str(word));
    let task = DockerCompose::from_ctx(ctx).cmd_task(trailing);
    let mut plan: Vec<Task> = Vec::new();
    put(&mut plan, task);
    plan
}

} // verus!
