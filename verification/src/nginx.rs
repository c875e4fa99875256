//! The gateway's configuration directory: where each rule's file lives.

use crate::proxy::ProxyRule;
use crate::text::same_text;
use vstd::prelude::*;
use vstd::string::*;

verus! {

/// The two kinds of configuration file, one per kind of rule.
#[derive(Debug, Clone, Copy, PartialEq, Eq, Structural)]
pub enum NginxConfKind {
    Site,
    Stream,
}

impl NginxConfKind {
    /// The directory, below the configuration root, that holds the files of this kind.
    pub open spec fn dir(self) -> Seq<char> {
        match self {
            NginxConfKind::Site => "/sites-enabled/"@,
            NginxConfKind::Stream => "/streams-enabled/"@,
        }
    }

    /// The kind's name.
    pub open spec fn spec_text(self) -> Seq<char> {
        match self {
            NginxConfKind::Site => "Site"@,
            NginxConfKind::Stream => "Stream"@,
        }
    }

    /// The kind of file that holds `rule`.
    pub open spec fn of_rule(rule: ProxyRule) -> NginxConfKind {
        match rule {
            ProxyRule::Http(_) => NginxConfKind::Site,
            ProxyRule::Stream(_) => NginxConfKind::Stream,
        }
    }

    /// The kind that `text` names, if it names one.
    pub open spec fn parse(text: Seq<char>) -> Option<NginxConfKind> {
        if text == "Site"@ || text == "site"@ {
            Some(NginxConfKind::Site)
        } else if text == "Stream"@ || text == "stream"@ {
            Some(NginxConfKind::Stream)
        } else {
            None
        }
    }

    /// The other kind.
    pub open spec fn spec_other(self) -> NginxConfKind {
        match self {
            NginxConfKind::Site => NginxConfKind::Stream,
            NginxConfKind::Stream => NginxConfKind::Site,
        }
    }

    /// The other kind.
    pub fn other(&self) -> (kind: NginxConfKind)
        ensures
            kind == self.spec_other(),
    {
        match self {
            NginxConfKind::Site => NginxConfKind::Stream,
            NginxConfKind::Stream => NginxConfKind::Site,
        }
    }

    /// The kind that `text` names: `Site` or `site`, `Stream` or `stream`.
    /// Any other text is refused with an error of code 1 that quotes it.
    pub fn from_str(text: &str) -> (result: Result<NginxConfKind, ErrorHint>)
        ensures
            match NginxConfKind::parse(text@) {
                Some(kind) => result.is_ok() && result.unwrap() == kind,
                None => result.is_err() && result.unwrap_err().level == HintLevel::Error
                    && result.unwrap_err().code == 1 && result.unwrap_err().msg@
                    == "Invalid NginxConfKind: "@ + text@,
            },
    {
        if same_text(text, "Site") || same_text(text, "site") {
            Ok(NginxConfKind::Site)
        } else if same_text(text, "Stream") || same_text(text, "stream") {
            Ok(NginxConfKind::Stream)
        } else {
            let mut msg = String::from_str("Invalid NginxConfKind: ");
            msg.append(text);
            Err(ErrorHint::error(1, msg))
        }
    }

    /// The kind's name.
    pub fn to_string(&self) -> (text: String)
        ensures
            text@ == self.spec_text(),
    {
        match self {
            NginxConfKind::Site => String::from_str("Site"),
            NginxConfKind::Stream => String::from_str("Stream"),
        }
    }

    /// The kind of file that holds `rule`: a site for an http rule, a stream for a stream rule.
    pub fn from(rule: &ProxyRule) -> (kind: NginxConfKind)
        ensures
            kind == NginxConfKind::of_rule(*rule),
    {
        match rule {
            ProxyRule::Http(_) => NginxConfKind::Site,
            ProxyRule::Stream(_) => NginxConfKind::Stream,
        }
    }
}

/// How grave a failure is.
#[derive(Debug, Clone, Copy, PartialEq, Eq, Structural)]
pub enum HintLevel {
    Error,
    Warning,
}

/// A failure, as it is reported: how grave it is, the exit code that goes
/// with it, and a message.
#[derive(Debug, PartialEq, Eq)]
pub struct ErrorHint {
    pub level: HintLevel,
    pub code: i32,
    pub msg: String,
}

impl ErrorHint {
    /// A failure that stops the operation.
    pub fn error(code: i32, msg: String) -> (hint: ErrorHint)
        ensures
            hint.level == HintLevel::Error,
            hint.code == code,
            hint.msg == msg,
    {
        ErrorHint { level: HintLevel::Error, code, msg }
    }

    /// A failure that the operation survives.
    pub fn warning(code: i32, msg: String) -> (hint: ErrorHint)
        ensures
            hint.level == HintLevel::Warning,
            hint.code == code,
            hint.msg == msg,
    {
        ErrorHint { level: HintLevel::Warning, code, msg }
    }
}

/// What is reported when a step fails: the message lacks only the cause.
#[derive(Debug, PartialEq, Eq)]
pub struct Failure {
    pub level: HintLevel,
    pub code: i32,
    /// The message up to the cause.
    pub text: String,
}

/// A [`Failure`] as a value.
pub struct FailureModel {
    pub level: HintLevel,
    pub code: i32,
    pub text: Seq<char>,
}

impl View for Failure {
    type V = FailureModel;

    open spec fn view(&self) -> FailureModel {
        FailureModel { level: self.level, code: self.code, text: self.text@ }
    }
}

impl Failure {
    /// The failure as it is reported when `cause` made the step fail: the
    /// message ends with the cause.
    pub fn hint(&self, cause: &str) -> (hint: ErrorHint)
        ensures
            hint.level == self.level,
            hint.code == self.code,
            hint.msg@ == self.text@ + cause@,
    {
        let mut msg = self.text.clone();
        msg.append(cause);
        ErrorHint { level: self.level, code: self.code, msg }
    }
}

/// One change to the file system, or the signal to the gateway.
#[derive(Debug, PartialEq, Eq)]
pub enum FsAction {
    /// Create the directory and its parents. One that exists is left as it is.
    CreateDirAll { path: String },
    /// Remove the directory and all that is in it.
    RemoveDirAll { path: String },
    /// Write the file anew with this content.
    Write { path: String, data: String },
    /// Move the file `from` to `to`, in place of what is there, in one step.
    Rename { from: String, to: String },
    /// Remove the file. One that is not there counts as removed.
    RemoveFile { path: String },
    /// Tell the gateway to load its configuration again.
    Reload,
}

/// An [`FsAction`] as a value.
pub enum ActionModel {
    CreateDirAll { path: Seq<char> },
    RemoveDirAll { path: Seq<char> },
    Write { path: Seq<char>, data: Seq<char> },
    Rename { from: Seq<char>, to: Seq<char> },
    RemoveFile { path: Seq<char> },
    Reload,
}

impl View for FsAction {
    type V = ActionModel;

    open spec fn view(&self) -> ActionModel {
        match self {
            FsAction::CreateDirAll { path } => ActionModel::CreateDirAll { path: path@ },
            FsAction::RemoveDirAll { path } => ActionModel::RemoveDirAll { path: path@ },
            FsAction::Write { path, data } => ActionModel::Write { path: path@, data: data@ },
            FsAction::Rename { from, to } => ActionModel::Rename { from: from@, to: to@ },
            FsAction::RemoveFile { path } => ActionModel::RemoveFile { path: path@ },
            FsAction::Reload => ActionModel::Reload,
        }
    }
}

/// One step of a plan: what to do, and what to report if it fails.
#[derive(Debug, PartialEq, Eq)]
pub struct FsStep {
    pub action: FsAction,
    pub failure: Failure,
}

/// An [`FsStep`] as a value.
pub struct StepModel {
    pub action: ActionModel,
    pub failure: FailureModel,
}

impl View for FsStep {
    type V = StepModel;

    open spec fn view(&self) -> StepModel {
        StepModel { action: self.action@, failure: self.failure@ }
    }
}

/// The views of a sequence of steps.
pub open spec fn step_models(steps: Seq<FsStep>) -> Seq<StepModel> {
    Seq::new(steps.len(), |i: int| steps[i]@)
}

/// The step that creates the directory `path`, reported with `code` if it fails.
pub open spec fn create_dir_step(path: Seq<char>, named: Seq<char>, code: i32) -> StepModel {
    StepModel {
        action: ActionModel::CreateDirAll { path },
        failure: FailureModel {
            level: HintLevel::Error,
            code,
            text: "Cannot create directory "@ + named + " got error : "@,
        },
    }
}

/// The step that removes the directory `path`.
pub open spec fn remove_dir_step(path: Seq<char>) -> StepModel {
    StepModel {
        action: ActionModel::RemoveDirAll { path },
        failure: FailureModel {
            level: HintLevel::Error,
            code: 3,
            text: "Cannot remove directory "@ + path + " got error : "@,
        },
    }
}

/// What is reported when a rule's file cannot be written.
pub open spec fn write_failure(path: Seq<char>) -> FailureModel {
    FailureModel {
        level: HintLevel::Error,
        code: 1,
        text: "Unable to create new site file "@ + path + " got error: "@,
    }
}

/// The step that tells the gateway to load its configuration again. A
/// gateway that does not do so is reported, and the files stay as written.
pub open spec fn reload_step() -> StepModel {
    StepModel {
        action: ActionModel::Reload,
        failure: FailureModel {
            level: HintLevel::Warning,
            code: 4,
            text: "Unable to reload the gateway got error: "@,
        },
    }
}

/// The content of the fallback site that is always there.
pub open spec fn default_conf() -> Seq<char> {
    "server {\n  listen 80 default_server;\n  listen [::]:80 default_server ipv6only=on;\n  server_name _ default_server;\n\n  root /usr/share/nginx/html;\n  try_files $uri $uri/ /index.html;\n  error_page 502 /502.html;\n  error_page 403 /403.html;\n}"@
}

/// The gateway's configuration root.
#[derive(Debug, Clone)]
pub struct Nginx {
    pub conf_dir: String,
}

impl Nginx {
    /// The path of the file that holds the rule `name` of kind `kind`.
    pub open spec fn conf_path(&self, name: Seq<char>, kind: NginxConfKind) -> Seq<char> {
        self.conf_dir@ + kind.dir() + name + ".conf"@
    }

    /// The directory of the files of kind `kind`.
    pub open spec fn kind_dir(&self, kind: NginxConfKind) -> Seq<char> {
        match kind {
            NginxConfKind::Site => self.conf_dir@ + "/sites-enabled"@,
            NginxConfKind::Stream => self.conf_dir@ + "/streams-enabled"@,
        }
    }

    /// The directory of the fallback site.
    pub open spec fn default_dir(&self) -> Seq<char> {
        self.conf_dir@ + "/conf.d"@
    }

    /// The path of the fallback site.
    pub open spec fn default_path(&self) -> Seq<char> {
        self.conf_dir@ + "/conf.d/default.conf"@
    }

    /// The steps that make sure the three directories exist.
    pub open spec fn ensure_plan(&self) -> Seq<StepModel> {
        seq![
            create_dir_step(
                self.kind_dir(NginxConfKind::Site),
                self.kind_dir(NginxConfKind::Site),
                2,
            ),
            create_dir_step(
                self.kind_dir(NginxConfKind::Stream),
                self.kind_dir(NginxConfKind::Stream),
                2,
            ),
            create_dir_step(self.default_dir(), self.kind_dir(NginxConfKind::Stream), 2),
        ]
    }

    /// The step that writes the fallback site.
    pub open spec fn default_conf_step(&self) -> StepModel {
        StepModel {
            action: ActionModel::Write { path: self.default_path(), data: default_conf() },
            failure: FailureModel {
                level: HintLevel::Error,
                code: 1,
                text: "Unable to create "@ + self.default_path() + " file got error: "@,
            },
        }
    }

    /// The steps that put `data` in the place of the file of the rule `name`:
    /// the content is written beside the file and then moved over it, so
    /// that the gateway never reads a file that is half written.
    pub open spec fn write_plan(&self, name: Seq<char>, data: Seq<char>, kind: NginxConfKind) -> Seq<
        StepModel,
    > {
        let path = self.conf_path(name, kind);
        seq![
            StepModel {
                action: ActionModel::Write { path: path + ".tmp"@, data },
                failure: write_failure(path),
            },
            StepModel {
                action: ActionModel::Rename { from: path + ".tmp"@, to: path },
                failure: write_failure(path),
            },
        ]
    }

    /// The step that removes the file of the rule `name`.
    pub open spec fn delete_step(&self, name: Seq<char>, kind: NginxConfKind) -> StepModel {
        let path = self.conf_path(name, kind);
        StepModel {
            action: ActionModel::RemoveFile { path },
            failure: FailureModel {
                level: HintLevel::Warning,
                code: 3,
                text: "Unable to delete site file "@ + path + " got error: "@,
            },
        }
    }

    /// The steps that empty the two directories of rule files: both are
    /// removed with all that is in them, then both are created again.
    pub open spec fn clear_plan(&self) -> Seq<StepModel> {
        seq![
            remove_dir_step(self.kind_dir(NginxConfKind::Site)),
            remove_dir_step(self.kind_dir(NginxConfKind::Stream)),
            create_dir_step(
                self.kind_dir(NginxConfKind::Site),
                self.kind_dir(NginxConfKind::Site),
                3,
            ),
            create_dir_step(
                self.kind_dir(NginxConfKind::Stream),
                self.kind_dir(NginxConfKind::Stream),
                3,
            ),
        ]
    }

    /// The directory of the files of kind `kind`.
    fn dir_of(&self, kind: NginxConfKind) -> (path: String)
        ensures
            path@ == self.kind_dir(kind),
    {
        let mut path = self.conf_dir.clone();
        match kind {
            NginxConfKind::Site => path.append("/sites-enabled"),
            NginxConfKind::Stream => path.append("/streams-enabled"),
        }
        path
    }

    /// The step that creates `path`; a failure names `named`.
    fn create_dir(path: String, named: &str, code: i32) -> (step: FsStep)
        ensures
            step@ == create_dir_step(path@, named@, code),
    {
        let mut text = String::from_str("Cannot create directory ");
        text.append(named);
        text.append(" got error : ");
        FsStep {
            action: FsAction::CreateDirAll { path },
            failure: Failure { level: HintLevel::Error, code, text },
        }
    }

    /// The step that removes `path`.
    fn remove_dir(path: String) -> (step: FsStep)
        ensures
            step@ == remove_dir_step(path@),
    {
        let mut text = String::from_str("Cannot remove directory ");
        text.append(path.as_str());
        text.append(" got error : ");
        FsStep {
            action: FsAction::RemoveDirAll { path },
            failure: Failure { level: HintLevel::Error, code: 3, text },
        }
    }

    /// What is reported when the file `path` cannot be written.
    fn cannot_write(path: &str) -> (failure: Failure)
        ensures
            failure@ == write_failure(path@),
    {
        let mut text = String::from_str("Unable to create new site file ");
        text.append(path);
        text.append(" got error: ");
        Failure { level: HintLevel::Error, code: 1, text }
    }

    /// The steps that make sure that the directories of the sites, of the
    /// streams and of the fallback site exist, in this order. A step that
    /// fails is reported as an error of code 2.
    pub fn ensure(&self) -> (steps: Vec<FsStep>)
        ensures
            step_models(steps@) == self.ensure_plan(),
    {
        let sites = self.dir_of(NginxConfKind::Site);
        let streams = self.dir_of(NginxConfKind::Stream);
        let mut conf_d = self.conf_dir.clone();
        conf_d.append("/conf.d");
        let mut steps: Vec<FsStep> = Vec::new();
        let first = Self::create_dir(sites.clone(), sites.as_str(), 2);
        let second = Self::create_dir(streams.clone(), streams.as_str(), 2);
        let third = Self::create_dir(conf_d, streams.as_str(), 2);
        steps.push(first);
        steps.push(second);
        steps.push(third);
        steps
    }

    /// The step that writes the fallback site to `<root>/conf.d/default.conf`.
    /// If it fails, that is reported as an error of code 1.
    pub fn write_default_conf(&self) -> (step: FsStep)
        ensures
            step@ == self.default_conf_step(),
    {
        let mut path = self.conf_dir.clone();
        path.append("/conf.d/default.conf");
        let mut text = String::from_str("Unable to create ");
        text.append(path.as_str());
        text.append(" file got error: ");
        let data = String::from_str(
            "server {\n  listen 80 default_server;\n  listen [::]:80 default_server ipv6only=on;\n  server_name _ default_server;\n\n  root /usr/share/nginx/html;\n  try_files $uri $uri/ /index.html;\n  error_page 502 /502.html;\n  error_page 403 /403.html;\n}",
        );
        FsStep {
            action: FsAction::Write { path, data },
            failure: Failure { level: HintLevel::Error, code: 1, text },
        }
    }

    /// The steps that replace the file of the rule `name` by `data`: see
    /// [`Nginx::write_plan`]. A step that fails is reported as an error of code 1.
    pub fn write_conf_file(&self, name: &str, data: &str, kind: &NginxConfKind) -> (steps: Vec<
        FsStep,
    >)
        ensures
            step_models(steps@) == self.write_plan(name@, data@, *kind),
    {
        let path = self.gen_conf_path(name, kind);
        let mut beside = path.clone();
        beside.append(".tmp");
        let mut steps: Vec<FsStep> = Vec::new();
        let write = FsStep {
            action: FsAction::Write { path: beside.clone(), data: String::from_str(data) },
            failure: Self::cannot_write(path.as_str()),
        };
        let failure = Self::cannot_write(path.as_str());
        let rename = FsStep { action: FsAction::Rename { from: beside, to: path }, failure };
        steps.push(write);
        steps.push(rename);
        steps
    }

    /// The step that removes the file of the rule `name`. A file that is not
    /// there counts as removed; any other failure is reported as a warning of code 3.
    pub fn delete_conf_file(&self, name: &str, kind: &NginxConfKind) -> (step: FsStep)
        ensures
            step@ == self.delete_step(name@, *kind),
    {
        let path = self.gen_conf_path(name, kind);
        let mut text = String::from_str("Unable to delete site file ");
        text.append(path.as_str());
        text.append(" got error: ");
        FsStep {
            action: FsAction::RemoveFile { path },
            failure: Failure { level: HintLevel::Warning, code: 3, text },
        }
    }

    /// The steps that empty the directories of the sites and of the streams:
    /// see [`Nginx::clear_plan`]. A step that fails is reported as an error of code 3.
    pub fn clear_conf(&self) -> (steps: Vec<FsStep>)
        ensures
            step_models(steps@) == self.clear_plan(),
    {
        let sites = self.dir_of(NginxConfKind::Site);
        let streams = self.dir_of(NginxConfKind::Stream);
        let mut steps: Vec<FsStep> = Vec::new();
        let first = Self::remove_dir(sites.clone());
        let second = Self::remove_dir(streams.clone());
        let third = Self::create_dir(sites.clone(), sites.as_str(), 3);
        let fourth = Self::create_dir(streams.clone(), streams.as_str(), 3);
        steps.push(first);
        steps.push(second);
        steps.push(third);
        steps.push(fourth);
        steps
    }

    /// The step that tells the gateway to load its configuration again.
    pub fn reload() -> (step: FsStep)
        ensures
            step@ == reload_step(),
    {
        FsStep {
            action: FsAction::Reload,
            failure: Failure {
                level: HintLevel::Warning,
                code: 4,
                text: String::from_str("Unable to reload the gateway got error: "),
            },
        }
    }

    /// A gateway rooted at `conf_dir`.
    pub fn new(conf_dir: &str) -> (nginx: Nginx)
        ensures
            nginx.conf_dir@ == conf_dir@,
    {
        Nginx { conf_dir: String::from_str(conf_dir) }
    }

    /// The path of the file that holds the rule `name` of kind `kind`:
    /// `<root>/sites-enabled/<name>.conf` or `<root>/streams-enabled/<name>.conf`.
    pub fn gen_conf_path(&self, name: &str, kind: &NginxConfKind) -> (path: String)
        ensures
            path@ == self.conf_path(name@, *kind),
    {
        let mut path = self.conf_dir.clone();
        match kind {
            NginxConfKind::Site => path.append("/sites-enabled/"),
            NginxConfKind::Stream => path.append("/streams-enabled/"),
        }
        path.append(name);
        path.append(".conf");
        path
    }
}

/// One file for one rule: under one root, two rules have the same path only
/// if they have the same name and are of the same kind.
pub proof fn law_conf_path_is_injective(
    nginx: Nginx,
    name_a: Seq<char>,
    kind_a: NginxConfKind,
    name_b: Seq<char>,
    kind_b: NginxConfKind,
)
    requires
        nginx.conf_path(name_a, kind_a) == nginx.conf_path(name_b, kind_b),
    ensures
        name_a == name_b,
        kind_a == kind_b,
{
    reveal_strlit("/sites-enabled/");
    reveal_strlit("/streams-enabled/");
    let root = nginx.conf_dir@;
    let b = nginx.conf_path(name_b, kind_b);
    if kind_a != kind_b {
        assert(b[root.len() as int + 2] == kind_b.dir()[2]);
    }
    let from = (root.len() + kind_a.dir().len()) as int;
    assert(b.len() == from + name_b.len() + ".conf"@.len());
    assert(name_b =~= b.subrange(from, from + name_b.len() as int));
}

/// A gateway rooted at `config_path`.
pub fn new(config_path: &str) -> (nginx: Nginx)
    ensures
        nginx.conf_dir@ == config_path@,
{
    Nginx::new(config_path)
}

} // verus!
