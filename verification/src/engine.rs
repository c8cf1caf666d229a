//! Engine configuration, the steps that open, bootstrap and reset a store
//! connection, and the schedule on which a failed connection is tried again.

use vstd::prelude::*;
use crate::backoff::{first_delay, next_delay, Backoff, Turn};
use crate::error::{SystemActorError, SystemActorErrorView};
use crate::identity::{texts_of, ActorTagRegistry};
use crate::schema::{bootstrap_script, bootstrap_text, Database};
use crate::text::copy_text;

verus! {

/// What `std::path::Path::join` makes of the path `base` and the path
/// `child` on the platform the library was built for, as text.
pub uninterp spec fn joined_path(base: Seq<char>, child: Seq<char>) -> Seq<char>;

/// `std::path::Path::join` on two paths given as text: `child` adjoined to
/// `base`. The result is named, not spelled out; both paths are valid
/// UTF-8, so their join is too and the conversion back to text loses nothing.
#[verifier::external_body]
fn join_path(base: &str, child: &str) -> (joined: String)
    ensures
        joined@ == joined_path(base@, child@),
{
    std::path::Path::new(base).join(child).to_string_lossy().into_owned()
}

/// The endpoint used when none is given: the in-process store.
pub fn default_endpoint() -> (endpoint: String)
    ensures
        endpoint@ == "memory"@,
{
    "memory".to_owned()
}

/// The namespace used when none is given.
pub fn default_namespace() -> (namespace: String)
    ensures
        namespace@ == "dev"@,
{
    "dev".to_owned()
}

/// The database used when none is given.
pub fn default_database() -> (database: String)
    ensures
        database@ == "bioma"@,
{
    "bioma".to_owned()
}

/// The user name used when none is given.
pub fn default_username() -> (username: String)
    ensures
        username@ == "root"@,
{
    "root".to_owned()
}

/// The password used when none is given.
pub fn default_password() -> (password: String)
    ensures
        password@ == "root"@,
{
    "root".to_owned()
}

/// The default output directory as a function of the project root.
pub open spec fn output_dir_under(project_root: Seq<char>) -> Seq<char> {
    joined_path(project_root, ".output"@)
}

/// The default blob store directory as a function of the project root.
pub open spec fn local_store_dir_under(project_root: Seq<char>) -> Seq<char> {
    joined_path(output_dir_under(project_root), "store"@)
}

/// The default model cache directory as a function of the project root.
pub open spec fn hf_cache_dir_under(project_root: Seq<char>) -> Seq<char> {
    joined_path(
        joined_path(joined_path(output_dir_under(project_root), "cache"@), "huggingface"@),
        "hub"@,
    )
}

/// The output directory used when none is given: `.output` under the
/// project root.
pub fn default_output_dir(project_root: &str) -> (dir: String)
    ensures
        dir@ == output_dir_under(project_root@),
{
    join_path(project_root, ".output")
}

/// The blob store directory used when none is given: `store` under the
/// default output directory.
pub fn default_local_store_dir(project_root: &str) -> (dir: String)
    ensures
        dir@ == local_store_dir_under(project_root@),
{
    let output_dir = default_output_dir(project_root);
    join_path(output_dir.as_str(), "store")
}

/// The model cache directory used when none is given:
/// `cache/huggingface/hub` under the default output directory.
pub fn default_hf_cache_dir(project_root: &str) -> (dir: String)
    ensures
        dir@ == hf_cache_dir_under(project_root@),
{
    let output_dir = default_output_dir(project_root);
    let cache = join_path(output_dir.as_str(), "cache");
    let vendor = join_path(cache.as_str(), "huggingface");
    join_path(vendor.as_str(), "hub")
}

/// Configuration options for the engine.
#[derive(Clone, Debug)]
pub struct EngineOptions {
    /// Store endpoint: `memory`, or the address of a remote store.
    pub endpoint: String,
    /// The namespace to use in the store.
    pub namespace: String,
    /// The name of the database to connect to.
    pub database: String,
    /// The user name for store authentication.
    pub username: String,
    /// The password for store authentication.
    pub password: String,
    /// Output directory for artifacts.
    pub output_dir: String,
    /// The local file system path of the blob store.
    pub local_store_dir: String,
    /// The model cache directory.
    pub hf_cache_dir: String,
}

/// The text of an option that may have been left out, or of its default.
pub open spec fn text_or(given: Option<String>, default: Seq<char>) -> Seq<char> {
    match given {
        Some(text) => text@,
        None => default,
    }
}

/// Collects the options that were given; `build` fills in the rest.
#[derive(Clone, Debug)]
pub struct EngineOptionsBuilder {
    pub endpoint: Option<String>,
    pub namespace: Option<String>,
    pub database: Option<String>,
    pub username: Option<String>,
    pub password: Option<String>,
    pub output_dir: Option<String>,
    pub local_store_dir: Option<String>,
    pub hf_cache_dir: Option<String>,
}

impl EngineOptionsBuilder {
    /// Sets the store endpoint.
    pub fn endpoint(self, endpoint: String) -> (builder: EngineOptionsBuilder)
        ensures
            builder == (EngineOptionsBuilder { endpoint: Some(endpoint), ..self }),
    {
        EngineOptionsBuilder { endpoint: Some(endpoint), ..self }
    }

    /// Sets the namespace.
    pub fn namespace(self, namespace: String) -> (builder: EngineOptionsBuilder)
        ensures
            builder == (EngineOptionsBuilder { namespace: Some(namespace), ..self }),
    {
        EngineOptionsBuilder { namespace: Some(namespace), ..self }
    }

    /// Sets the database.
    pub fn database(self, database: String) -> (builder: EngineOptionsBuilder)
        ensures
            builder == (EngineOptionsBuilder { database: Some(database), ..self }),
    {
        EngineOptionsBuilder { database: Some(database), ..self }
    }

    /// Sets the user name.
    pub fn username(self, username: String) -> (builder: EngineOptionsBuilder)
        ensures
            builder == (EngineOptionsBuilder { username: Some(username), ..self }),
    {
        EngineOptionsBuilder { username: Some(username), ..self }
    }

    /// Sets the password.
    pub fn password(self, password: String) -> (builder: EngineOptionsBuilder)
        ensures
            builder == (EngineOptionsBuilder { password: Some(password), ..self }),
    {
        EngineOptionsBuilder { password: Some(password), ..self }
    }

    /// Sets the output directory.
    pub fn output_dir(self, output_dir: String) -> (builder: EngineOptionsBuilder)
        ensures
            builder == (EngineOptionsBuilder { output_dir: Some(output_dir), ..self }),
    {
        EngineOptionsBuilder { output_dir: Some(output_dir), ..self }
    }

    /// Sets the blob store directory.
    pub fn local_store_dir(self, local_store_dir: String) -> (builder: EngineOptionsBuilder)
        ensures
            builder == (EngineOptionsBuilder { local_store_dir: Some(local_store_dir), ..self }),
    {
        EngineOptionsBuilder { local_store_dir: Some(local_store_dir), ..self }
    }

    /// Sets the model cache directory.
    pub fn hf_cache_dir(self, hf_cache_dir: String) -> (builder: EngineOptionsBuilder)
        ensures
            builder == (EngineOptionsBuilder { hf_cache_dir: Some(hf_cache_dir), ..self }),
    {
        EngineOptionsBuilder { hf_cache_dir: Some(hf_cache_dir), ..self }
    }

    /// The options: each one as given, or else its default. The default
    /// directories lie under `project_root`, whatever output directory was
    /// given.
    pub fn build(self, project_root: &str) -> (options: EngineOptions)
        ensures
            options.endpoint@ == text_or(self.endpoint, "memory"@),
            options.namespace@ == text_or(self.namespace, "dev"@),
            options.database@ == text_or(self.database, "bioma"@),
            options.username@ == text_or(self.username, "root"@),
            options.password@ == text_or(self.password, "root"@),
            options.output_dir@ == text_or(self.output_dir, output_dir_under(project_root@)),
            options.local_store_dir@ == text_or(
                self.local_store_dir,
                local_store_dir_under(project_root@),
            ),
            options.hf_cache_dir@ == text_or(self.hf_cache_dir, hf_cache_dir_under(project_root@)),
    {
        let endpoint = match self.endpoint {
            Some(text) => text,
            None => default_endpoint(),
        };
        let namespace = match self.namespace {
            Some(text) => text,
            None => default_namespace(),
        };
        let database = match self.database {
            Some(text) => text,
            None => default_database(),
        };
        let username = match self.username {
            Some(text) => text,
            None => default_username(),
        };
        let password = match self.password {
            Some(text) => text,
            None => default_password(),
        };
        let output_dir = match self.output_dir {
            Some(text) => text,
            None => default_output_dir(project_root),
        };
        let local_store_dir = match self.local_store_dir {
            Some(text) => text,
            None => default_local_store_dir(project_root),
        };
        let hf_cache_dir = match self.hf_cache_dir {
            Some(text) => text,
            None => default_hf_cache_dir(project_root),
        };
        EngineOptions {
            endpoint,
            namespace,
            database,
            username,
            password,
            output_dir,
            local_store_dir,
            hf_cache_dir,
        }
    }
}

impl EngineOptions {
    /// A builder in which no option is set yet.
    pub fn builder() -> (builder: EngineOptionsBuilder)
        ensures
            builder.endpoint.is_none(),
            builder.namespace.is_none(),
            builder.database.is_none(),
            builder.username.is_none(),
            builder.password.is_none(),
            builder.output_dir.is_none(),
            builder.local_store_dir.is_none(),
            builder.hf_cache_dir.is_none(),
    {
        EngineOptionsBuilder {
            endpoint: None,
            namespace: None,
            database: None,
            username: None,
            password: None,
            output_dir: None,
            local_store_dir: None,
            hf_cache_dir: None,
        }
    }

    /// The options in which everything is left at its default.
    pub fn with_defaults(project_root: &str) -> (options: EngineOptions)
        ensures
            options.endpoint@ == "memory"@,
            options.namespace@ == "dev"@,
            options.database@ == "bioma"@,
            options.username@ == "root"@,
            options.password@ == "root"@,
            options.output_dir@ == output_dir_under(project_root@),
            options.local_store_dir@ == local_store_dir_under(project_root@),
            options.hf_cache_dir@ == hf_cache_dir_under(project_root@),
    {
        EngineOptions::builder().build(project_root)
    }

    /// The line that describes the options where they are logged.
    pub open spec fn info_line(&self) -> Seq<char> {
        "Engine: "@ + self.endpoint@ + ", ns: "@ + self.namespace@ + ", db: "@ + self.database@
            + ", user: "@ + self.username@
    }

    /// The line to log for these options: endpoint, namespace, database and
    /// user name. The password is left out.
    pub fn info(&self) -> (line: String)
        ensures
            line@ == self.info_line(),
    {
        let mut line = String::from_str("Engine: ");
        line.append(self.endpoint.as_str());
        line.append(", ns: ");
        line.append(self.namespace.as_str());
        line.append(", db: ");
        line.append(self.database.as_str());
        line.append(", user: ");
        line.append(self.username.as_str());
        line
    }
}

/// One call on the store connection, as plain values.
pub enum StepView {
    Open { address: Seq<char> },
    SignIn { username: Seq<char>, password: Seq<char> },
    Select { namespace: Seq<char>, database: Seq<char> },
    Remove { database: Seq<char> },
    Define { script: Seq<char> },
}

/// One call on the store connection. The program performs the steps of a
/// plan in order and stops at the first that fails.
#[derive(Debug)]
pub enum Step {
    /// Open the store at `address`.
    Open { address: String },
    /// Authenticate as the root user.
    SignIn { username: String, password: String },
    /// Select the namespace and the database.
    Select { namespace: String, database: String },
    /// Drop the database `database`.
    Remove { database: String },
    /// Run the schema bootstrap script. The step fails if the store
    /// rejects a statement of the script.
    Define { script: String },
}

impl View for Step {
    type V = StepView;

    open spec fn view(&self) -> StepView {
        match self {
            Step::Open { address } => StepView::Open { address: address@ },
            Step::SignIn { username, password } => StepView::SignIn {
                username: username@,
                password: password@,
            },
            Step::Select { namespace, database } => StepView::Select {
                namespace: namespace@,
                database: database@,
            },
            Step::Remove { database } => StepView::Remove { database: database@ },
            Step::Define { script } => StepView::Define { script: script@ },
        }
    }
}

/// The statement that drops the database `database`.
pub open spec fn remove_database_statement(database: Seq<char>) -> Seq<char> {
    "REMOVE DATABASE `"@ + database + "`;"@
}

impl StepView {
    /// The text that the step sends to the store as a query, if it is one
    /// that does.
    pub open spec fn statement(self) -> Option<Seq<char>> {
        match self {
            StepView::Remove { database } => Some(remove_database_statement(database)),
            StepView::Define { script } => Some(script),
            _ => None,
        }
    }

    /// The selected database after the step succeeded. Only the bootstrap
    /// script defines the schema: a step that runs any other script is
    /// taken to leave the database as it is.
    pub open spec fn effect(self, database: Database) -> Database {
        match self {
            StepView::Remove { .. } => database.removed(),
            StepView::Define { script } => if script == bootstrap_text() {
                database.bootstrapped()
            } else {
                database
            },
            _ => database,
        }
    }
}

impl Step {
    /// The text that the step sends to the store as a query, if it is one
    /// that does: the statement that drops the database, or the bootstrap
    /// script.
    pub fn statement(&self) -> (text: Option<String>)
        ensures
            match self@.statement() {
                Some(statement) => text.is_some() && text.unwrap()@ == statement,
                None => text.is_none(),
            },
    {
        match self {
            Step::Remove { database } => {
                let mut statement = String::from_str("REMOVE DATABASE `");
                statement.append(database.as_str());
                statement.append("`;");
                Some(statement)
            },
            Step::Define { script } => Some(copy_text(script)),
            _ => None,
        }
    }
}

/// The steps of a plan as plain values.
pub open spec fn plan_view(steps: Seq<Step>) -> Seq<StepView> {
    steps.map_values(|step: Step| step@)
}

/// The selected database after the steps of `plan`, performed in order
/// and all with success.
pub open spec fn database_after(plan: Seq<StepView>, database: Database) -> Database
    decreases plan.len(),
{
    if plan.len() == 0 {
        database
    } else {
        plan.last().effect(database_after(plan.drop_last(), database))
    }
}

/// The steps of one attempt to connect with authentication.
pub open spec fn connect_plan(address: Seq<char>, options: EngineOptions) -> Seq<StepView> {
    seq![
        StepView::Open { address },
        StepView::SignIn { username: options.username@, password: options.password@ },
        StepView::Select { namespace: options.namespace@, database: options.database@ },
        StepView::Define { script: bootstrap_text() },
    ]
}

/// The steps that open the in-process store.
pub open spec fn test_plan(options: EngineOptions) -> Seq<StepView> {
    seq![
        StepView::Open { address: "memory"@ },
        StepView::Select { namespace: options.namespace@, database: options.database@ },
        StepView::Define { script: bootstrap_text() },
    ]
}

/// The steps of a reset.
pub open spec fn reset_plan(options: EngineOptions) -> Seq<StepView> {
    seq![
        StepView::Remove { database: options.database@ },
        StepView::Select { namespace: options.namespace@, database: options.database@ },
        StepView::Define { script: bootstrap_text() },
    ]
}

/// What makes the bootstrap fail, given what the store reported for each
/// statement of the script that it rejected, in order: the report of the
/// first of them. Every statement of the script leaves alone what is
/// defined already, so a statement that the store rejects once it rejects
/// again: no rejection is one that a later run recovers from.
pub open spec fn bootstrap_failure(rejected: Seq<Seq<char>>) -> Option<Seq<char>> {
    if rejected.len() == 0 {
        None
    } else {
        Some(rejected[0])
    }
}

/// What the bootstrap step comes to, given what the store reported for each
/// statement of the script that it rejected, in order. With no rejected
/// statement the step succeeded; with one or more it failed, and the error
/// is the store's report of the first.
pub fn define_outcome(rejected: Vec<String>) -> (outcome: Result<(), SystemActorError>)
    ensures
        match bootstrap_failure(texts_of(rejected@)) {
            None => outcome is Ok,
            Some(report) => outcome is Err && outcome->Err_0@ == SystemActorErrorView::StoreError(
                report,
            ),
        },
        rejected@.len() == 0 ==> outcome is Ok,
        rejected@.len() > 0 ==> outcome is Err && outcome->Err_0@
            == SystemActorErrorView::StoreError(rejected@[0]@),
{
    if rejected.len() == 0 {
        Ok(())
    } else {
        Err(SystemActorError::StoreError(copy_text(&rejected[0])))
    }
}

/// Why a step failed.
#[derive(Debug)]
pub enum StepFailure<E> {
    /// The call on the store failed, with the store's error: the store
    /// was not reached, or it refused the call.
    Call(E),
    /// The store took the call and rejected a statement of the bootstrap
    /// script: a schema error that no later attempt gets around.
    Schema(SystemActorError),
}

impl<E> StepFailure<E> {
    /// Whether the failure is a schema error.
    pub fn is_schema(&self) -> (schema: bool)
        ensures
            schema == (self is Schema),
    {
        match self {
            StepFailure::Schema(_) => true,
            StepFailure::Call(_) => false,
        }
    }
}

/// Whether a step whose call the store took fails all the same: it is the
/// bootstrap, and the store rejected a statement of it. What the store
/// rejects of any other step does not fail that step.
pub open spec fn fails_on_schema(step: StepView, rejected: Seq<Seq<char>>) -> bool {
    step is Define && bootstrap_failure(rejected) is Some
}

/// How a step ended, given how its call on the store ended: with the
/// store's error, or with the store's reports of the statements that it
/// rejected, in order. A call that failed fails the step, with the store's
/// error. The bootstrap also fails if a statement of it was rejected, with
/// a schema error that holds the report of the first.
pub fn step_outcome<E>(step: &Step, call: Result<Vec<String>, E>) -> (outcome: Result<
    (),
    StepFailure<E>,
>)
    ensures
        match call {
            Err(error) => outcome == Err::<(), StepFailure<E>>(StepFailure::Call(error)),
            Ok(rejected) => if fails_on_schema(step@, texts_of(rejected@)) {
                &&& outcome is Err
                &&& outcome->Err_0 matches StepFailure::Schema(error)
                &&& error@ == SystemActorErrorView::StoreError(rejected@[0]@)
            } else {
                outcome is Ok
            },
        },
{
    match call {
        Err(error) => Err(StepFailure::Call(error)),
        Ok(rejected) => {
            match step {
                Step::Define { .. } => {
                    match define_outcome(rejected) {
                        Ok(_) => Ok(()),
                        Err(error) => Err(StepFailure::Schema(error)),
                    }
                },
                _ => Ok(()),
            }
        },
    }
}

/// Where a plan stands after one of its steps was performed.
#[derive(Clone, Copy, Debug, PartialEq, Eq, Structural)]
pub enum Progress {
    /// The step succeeded: perform the step with this index next.
    Perform(usize),
    /// The last step succeeded: the plan is done.
    Complete,
    /// The step with this index failed: its error is the plan's, and no
    /// later step is performed.
    Abort(usize),
}

/// Where a plan of `steps` steps stands once the step with index
/// `performed` ended, well (`ok`) or not.
pub fn after_step(steps: usize, performed: usize, ok: bool) -> (progress: Progress)
    requires
        performed < steps,
    ensures
        !ok ==> progress == Progress::Abort(performed),
        ok && performed + 1 < steps ==> progress == Progress::Perform((performed + 1) as usize),
        ok && performed + 1 == steps ==> progress == Progress::Complete,
{
    if !ok {
        Progress::Abort(performed)
    } else if performed + 1 < steps {
        Progress::Perform(performed + 1)
    } else {
        Progress::Complete
    }
}

/// How to connect: the steps of each attempt, and where the retry
/// schedule starts.
#[derive(Debug)]
pub struct ConnectPlan {
    /// The steps of one attempt, in order.
    pub steps: Vec<Step>,
    /// The schedule on which a failed attempt is tried again.
    pub backoff: Backoff,
}

/// What an engine is made of besides its store connection: the options it
/// was opened with and the registry of actor tags.
pub struct Engine {
    options: EngineOptions,
    registry: ActorTagRegistry,
}

impl Engine {
    /// The options the engine was opened with.
    pub closed spec fn options_view(&self) -> EngineOptions {
        self.options
    }

    /// The engine's registry of actor tags.
    pub closed spec fn registry_view(&self) -> ActorTagRegistry {
        self.registry
    }

    /// The schema bootstrap as a step.
    pub fn define() -> (step: Step)
        ensures
            step@ == (StepView::Define { script: bootstrap_text() }),
    {
        Step::Define { script: bootstrap_script() }
    }

    /// How to connect under `options`: each attempt goes to the endpoint of
    /// the options, and the retry schedule starts with a wait of one
    /// second. `connect_turn` says after each attempt how the loop goes on.
    pub fn connect(options: &EngineOptions) -> (plan: ConnectPlan)
        ensures
            plan_view(plan.steps@) == connect_plan(options.endpoint@, *options),
            plan.backoff@ == first_delay(),
    {
        ConnectPlan {
            steps: Engine::attempt_connect(copy_text(&options.endpoint), options),
            backoff: Backoff::new(),
        }
    }

    /// One turn of the loop in which `connect` makes its attempts. An
    /// attempt that succeeded ends the loop with its result. An attempt in
    /// which the bootstrap failed on a schema error ends the loop with that
    /// failure: the next attempt would meet the same error. An attempt that
    /// failed in any other way is made again after the current wait of the
    /// schedule, however often that happens.
    pub fn connect_turn<T, E>(backoff: &mut Backoff, attempt: Result<T, StepFailure<E>>) -> (turn:
        Turn<T, StepFailure<E>>)
        ensures
            match attempt {
                Ok(value) => turn == Turn::<T, StepFailure<E>>::Return(value) && final(backoff)@
                    == old(backoff)@,
                Err(failure) => if failure is Schema {
                    turn == Turn::<T, StepFailure<E>>::Fail(failure) && final(backoff)@ == old(
                        backoff,
                    )@
                } else {
                    &&& turn matches Turn::SleepThenRetry { wait, error }
                    &&& error == failure
                    &&& wait@ == old(backoff)@
                    &&& final(backoff)@ == next_delay(old(backoff)@)
                },
            },
    {
        let fatal = match &attempt {
            Ok(_) => false,
            Err(failure) => failure.is_schema(),
        };
        backoff.turn(attempt, fatal)
    }

    /// The steps of one attempt to connect to the store at `address`: open
    /// it, sign in as root, select namespace and database, run the schema
    /// bootstrap.
    pub fn attempt_connect(address: String, options: &EngineOptions) -> (steps: Vec<Step>)
        ensures
            plan_view(steps@) == connect_plan(address@, *options),
    {
        let mut steps: Vec<Step> = Vec::new();
        steps.push(Step::Open { address });
        steps.push(
            Step::SignIn {
                username: copy_text(&options.username),
                password: copy_text(&options.password),
            },
        );
        steps.push(
            Step::Select {
                namespace: copy_text(&options.namespace),
                database: copy_text(&options.database),
            },
        );
        steps.push(Engine::define());
        assert(plan_view(steps@) =~= connect_plan(address@, *options));
        steps
    }

    /// The options and the steps with which the in-process store is opened:
    /// every option at its default, and the steps open `memory`, select
    /// namespace and database, run the schema bootstrap. There is no
    /// sign-in, and a failed step is not tried again.
    pub fn test(project_root: &str) -> (opened: (EngineOptions, Vec<Step>))
        ensures
            opened.0.endpoint@ == "memory"@,
            opened.0.namespace@ == "dev"@,
            opened.0.database@ == "bioma"@,
            opened.0.username@ == "root"@,
            opened.0.password@ == "root"@,
            opened.0.output_dir@ == output_dir_under(project_root@),
            opened.0.local_store_dir@ == local_store_dir_under(project_root@),
            opened.0.hf_cache_dir@ == hf_cache_dir_under(project_root@),
            plan_view(opened.1@) == test_plan(opened.0),
    {
        let options = EngineOptions::with_defaults(project_root);
        let mut steps: Vec<Step> = Vec::new();
        steps.push(Step::Open { address: "memory".to_owned() });
        steps.push(
            Step::Select {
                namespace: copy_text(&options.namespace),
                database: copy_text(&options.database),
            },
        );
        steps.push(Engine::define());
        assert(plan_view(steps@) =~= test_plan(options));
        (options, steps)
    }

    /// The engine that a completed plan leaves: it keeps the options, and
    /// its registry is empty.
    pub fn connected(options: EngineOptions) -> (engine: Engine)
        ensures
            engine.options_view() == options,
            engine.registry_view().wf(),
            engine.registry_view()@ == Seq::<Seq<char>>::empty(),
    {
        Engine { options, registry: ActorTagRegistry::new() }
    }

    /// The steps of a reset: drop the database, select namespace and
    /// database again, run the schema bootstrap. Nothing of the old
    /// database is kept.
    pub fn reset(&self) -> (steps: Vec<Step>)
        ensures
            plan_view(steps@) == reset_plan(self.options_view()),
    {
        let mut steps: Vec<Step> = Vec::new();
        steps.push(Step::Remove { database: copy_text(&self.options.database) });
        steps.push(
            Step::Select {
                namespace: copy_text(&self.options.namespace),
                database: copy_text(&self.options.database),
            },
        );
        steps.push(Engine::define());
        assert(plan_view(steps@) =~= reset_plan(self.options));
        steps
    }

    /// Whether the store is reachable, given how a ping of it ended.
    pub fn health<T, E>(ping: &Result<T, E>) -> (healthy: bool)
        ensures
            healthy == ping.is_ok(),
    {
        ping.is_ok()
    }

    /// The blob store directory.
    pub fn local_store_dir(&self) -> (dir: &String)
        ensures
            dir == self.options_view().local_store_dir,
    {
        &self.options.local_store_dir
    }

    /// The output directory.
    pub fn output_dir(&self) -> (dir: &String)
        ensures
            dir == self.options_view().output_dir,
    {
        &self.options.output_dir
    }

    /// The model cache directory.
    pub fn huggingface_cache_dir(&self) -> (dir: &String)
        ensures
            dir == self.options_view().hf_cache_dir,
    {
        &self.options.hf_cache_dir
    }

    /// The options the engine was opened with.
    pub fn options(&self) -> (options: &EngineOptions)
        ensures
            options == self.options_view(),
    {
        &self.options
    }

    /// The line that describes the engine where it is logged.
    pub open spec fn info_line(&self) -> Seq<char> {
        "ns: "@ + self.options_view().namespace@ + ", db: "@ + self.options_view().database@
            + ", user: "@ + self.options_view().username@
    }

    /// The line to log for this engine: namespace, database and user name.
    pub fn info(&self) -> (line: String)
        ensures
            line@ == self.info_line(),
    {
        let mut line = String::from_str("ns: ");
        line.append(self.options.namespace.as_str());
        line.append(", db: ");
        line.append(self.options.database.as_str());
        line.append(", user: ");
        line.append(self.options.username.as_str());
        line
    }

    /// The file to which a debug export under the label `label` goes:
    /// `debug/<label>.surql` under the output directory.
    pub open spec fn debug_export_file(&self, label: Seq<char>) -> Seq<char> {
        joined_path(joined_path(self.options_view().output_dir@, "debug"@), label + ".surql"@)
    }

    /// The file to which a dump of the database under the label `label`
    /// goes.
    pub fn debug_export_path(&self, label: &str) -> (path: String)
        ensures
            path@ == self.debug_export_file(label@),
    {
        let dir = join_path(self.options.output_dir.as_str(), "debug");
        let mut name = String::from_str(label);
        name.append(".surql");
        join_path(dir.as_str(), name.as_str())
    }

    /// The registry of actor tags.
    pub fn registry(&self) -> (registry: &ActorTagRegistry)
        ensures
            registry == self.registry_view(),
    {
        &self.registry
    }

    /// Registers the tag of an actor type with this engine and returns its
    /// slot. Nothing else of the engine changes.
    pub fn register(&mut self, tag: &str) -> (slot: usize)
        requires
            old(self).registry_view().wf(),
        ensures
            final(self).options_view() == old(self).options_view(),
            final(self).registry_view().wf(),
            old(self).registry_view()@.contains(tag@) ==> final(self).registry_view()@ == old(
                self,
            ).registry_view()@,
            !old(self).registry_view()@.contains(tag@) ==> final(self).registry_view()@ == old(
                self,
            ).registry_view()@.push(tag@),
            slot < final(self).registry_view()@.len(),
            final(self).registry_view()@[slot as int] == tag@,
    {
        self.registry.register(tag)
    }
}

/// Every plan ends with the bootstrap, so a database on which a plan was
/// performed defines the schema.
pub proof fn lemma_plans_define_schema(
    address: Seq<char>,
    options: EngineOptions,
    database: Database,
)
    ensures
        database_after(connect_plan(address, options), database).has_schema(),
        database_after(test_plan(options), database).has_schema(),
        database_after(reset_plan(options), database).has_schema(),
{
    reveal_with_fuel(database_after, 5);
}

/// A reset leaves the database as the bootstrap makes it from nothing:
/// the schema and no row, whatever the database held before.
pub proof fn lemma_reset_starts_afresh(options: EngineOptions, database: Database)
    ensures
        database_after(reset_plan(options), database) == Database::empty().bootstrapped(),
{
    reveal_with_fuel(database_after, 4);
}

/// Reset and bootstrap are idempotent: after a reset, neither the
/// bootstrap nor a second reset changes anything.
pub proof fn lemma_reset_then_bootstrap_idempotent(options: EngineOptions, database: Database)
    ensures
        database_after(reset_plan(options), database).bootstrapped() == database_after(
            reset_plan(options),
            database,
        ),
        database_after(reset_plan(options), database_after(reset_plan(options), database))
            == database_after(reset_plan(options), database),
{
    lemma_reset_starts_afresh(options, database);
    lemma_reset_starts_afresh(options, database_after(reset_plan(options), database));
    crate::schema::lemma_bootstrap_idempotent(Database::empty());
}

} // verus!
