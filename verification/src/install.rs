//! The installation of the service: what to ask, what to write and run, and
//! what to do when a step fails. The decisions are made here; whoever drives
//! an [`Install`] performs each [`Action`] and reports back with an [`Event`].

use vstd::prelude::*;
use crate::config::{Config, ConfigView, Setting};
use crate::text::{concat_all, join, views};

verus! {

/// A character counts as white space: the code points that Unicode marks
/// as `White_Space`.
pub open spec fn is_white_space(c: char) -> bool {
    let code = c as u32;
    ||| 0x09 <= code <= 0x0d
    ||| code == 0x20
    ||| code == 0x85
    ||| code == 0xa0
    ||| code == 0x1680
    ||| 0x2000 <= code <= 0x200a
    ||| code == 0x2028
    ||| code == 0x2029
    ||| code == 0x202f
    ||| code == 0x205f
    ||| code == 0x3000
}

/// A text without the white space at its start.
pub open spec fn strip_front(s: Seq<char>) -> Seq<char>
    decreases s.len(),
{
    if s.len() > 0 && is_white_space(s.first()) {
        strip_front(s.drop_first())
    } else {
        s
    }
}

/// A text without the white space at its end.
pub open spec fn strip_back(s: Seq<char>) -> Seq<char>
    decreases s.len(),
{
    if s.len() > 0 && is_white_space(s.last()) {
        strip_back(s.drop_last())
    } else {
        s
    }
}

/// A text without the white space at its start and at its end.
pub open spec fn trimmed(s: Seq<char>) -> Seq<char> {
    strip_back(strip_front(s))
}

/// `str::trim` of the standard library: the slice that is left when the
/// white space at both ends is taken away, white space being the code
/// points that Unicode marks as `White_Space`. This contract is taken on
/// trust, not proved.
#[verifier::external_body]
fn trim(s: &str) -> (t: &str)
    ensures
        t@ == trimmed(s@),
{
    s.trim()
}

/// The text in front of a setting's prompt.
pub open spec fn label_of(setting: Setting) -> Seq<char> {
    match setting {
        Setting::ListenAddr => "HTTP Listen Address"@,
        Setting::Asn => "AS number"@,
        Setting::AsName => "AS name"@,
        Setting::RouterDomain => "Router domain (router IDs are subdomains of this domain)"@,
        Setting::RouterId => "Router ID (hostname of router)"@,
        Setting::AddressV4 => "Router IPv4 address"@,
        Setting::AddressV6 => "Router IPv6 address"@,
    }
}

/// The text in front of a setting's prompt.
pub fn label(setting: Setting) -> (text: &'static str)
    ensures
        text@ == label_of(setting),
{
    match setting {
        Setting::ListenAddr => "HTTP Listen Address",
        Setting::Asn => "AS number",
        Setting::AsName => "AS name",
        Setting::RouterDomain => "Router domain (router IDs are subdomains of this domain)",
        Setting::RouterId => "Router ID (hostname of router)",
        Setting::AddressV4 => "Router IPv4 address",
        Setting::AddressV6 => "Router IPv6 address",
    }
}

/// A prompt: the label, then the default in square brackets, a colon and a
/// space.
pub open spec fn prompt_of(label: Seq<char>, default: Seq<char>) -> Seq<char> {
    label + " ["@ + default + "]: "@
}

/// The prompt that shows a label and the default.
pub fn prompt_text(label: &str, default: &str) -> (text: String)
    ensures
        text@ == prompt_of(label@, default@),
{
    let mut text = String::from_str(label);
    text.append(" [");
    text.append(default);
    text.append("]: ");
    text
}

/// What a line of input stands for: the line without the white space
/// around it, or the default where nothing else is left.
pub open spec fn answer_of(line: Seq<char>, default: Seq<char>) -> Seq<char> {
    if trimmed(line).len() == 0 {
        default
    } else {
        trimmed(line)
    }
}

/// Reads a line of input as an answer: the line without the white space
/// around it, or the default where nothing else is left.
pub fn answer(line: &str, default: &str) -> (value: String)
    ensures
        value@ == answer_of(line@, default@),
{
    let line = trim(line);
    if line.is_empty() {
        String::from_str(default)
    } else {
        String::from_str(line)
    }
}

/// The environment file in pieces: an empty line, then for each setting its
/// key, an equals sign, its value and a line end.
pub open spec fn env_file_parts(config: ConfigView) -> Seq<Seq<char>> {
    seq![
        "\nLISTEN_ADDR="@,
        config.listen_address,
        "\nASN="@,
        config.asn,
        "\nAS_NAME="@,
        config.as_name,
        "\nROUTER_DOMAIN="@,
        config.router_domain,
        "\nROUTER_ID="@,
        config.router_id,
        "\nADDRESS_V4="@,
        config.address_v4,
        "\nADDRESS_V6="@,
        config.address_v6,
        "\n"@,
    ]
}

/// The text of the environment file for a configuration.
pub open spec fn env_file_of(config: ConfigView) -> Seq<char> {
    concat_all(env_file_parts(config))
}

/// Writes a configuration down as an environment file.
pub fn env_file(config: &Config) -> (content: String)
    ensures
        content@ == env_file_of(config@),
{
    let mut parts: Vec<&str> = Vec::new();
    parts.push("\nLISTEN_ADDR=");
    parts.push(config.listen_address.as_str());
    parts.push("\nASN=");
    parts.push(config.asn.as_str());
    parts.push("\nAS_NAME=");
    parts.push(config.as_name.as_str());
    parts.push("\nROUTER_DOMAIN=");
    parts.push(config.router_domain.as_str());
    parts.push("\nROUTER_ID=");
    parts.push(config.router_id.as_str());
    parts.push("\nADDRESS_V4=");
    parts.push(config.address_v4.as_str());
    parts.push("\nADDRESS_V6=");
    parts.push(config.address_v6.as_str());
    parts.push("\n");
    assert(views(parts@) =~= env_file_parts(config@));
    join(&parts)
}

/// A step of the installation, in the order in which they are taken.
#[derive(Debug, Clone, Copy, PartialEq, Eq, Structural)]
pub enum Step {
    Ask(Setting),
    WriteEnvFile,
    ResolveBinary,
    StopService,
    CreateBinDir,
    CopyBinary,
    CreateUnitDir,
    WriteUnitFile,
    RemoveOldLink,
    LinkUnit,
    ReloadSupervisor,
    RestartService,
}

/// Why an installation was given up.
#[derive(Debug, Clone, Copy, PartialEq, Eq, Structural)]
pub enum AbortReason {
    Interrupted,
    EndOfInput,
    InputError,
    StepFailed(Step),
}

/// Where an installation stands.
#[derive(Debug, Clone, Copy, PartialEq, Eq, Structural)]
pub enum Status {
    Running(Step),
    Finished,
    Aborted(AbortReason),
}

/// What came of the last action.
#[derive(Debug, Clone, PartialEq, Eq)]
pub enum Event {
    /// A line was read.
    Line(String),
    /// The operator cancelled the prompt.
    Interrupted,
    /// The input ended.
    EndOfInput,
    /// The prompt failed in another way.
    InputError,
    /// The action was done; for a command: it ran and left with status zero.
    Succeeded,
    /// The action could not be done; for a command: it did not run, or left
    /// with another status.
    Failed,
    /// The canonical path of the running executable.
    Resolved(String),
}

/// What an [`Event`] stands for.
pub ghost enum EventView {
    Line(Seq<char>),
    Interrupted,
    EndOfInput,
    InputError,
    Succeeded,
    Failed,
    Resolved(Seq<char>),
}

impl View for Event {
    type V = EventView;

    open spec fn view(&self) -> EventView {
        match self {
            Event::Line(line) => EventView::Line(line@),
            Event::Interrupted => EventView::Interrupted,
            Event::EndOfInput => EventView::EndOfInput,
            Event::InputError => EventView::InputError,
            Event::Succeeded => EventView::Succeeded,
            Event::Failed => EventView::Failed,
            Event::Resolved(path) => EventView::Resolved(path@),
        }
    }
}

/// What is to be done next.
#[derive(Debug, Clone, PartialEq, Eq)]
pub enum Action {
    /// Show the prompt and read a line.
    Prompt { text: String },
    /// Write the content to the file, in place of what it held.
    WriteFile { path: String, content: String },
    /// Find the canonical path of the running executable.
    ResolveBinary,
    /// Run the program with the arguments and wait for it.
    Run { program: String, args: Vec<String> },
    /// Create the directory and those above it.
    CreateDirAll { path: String },
    /// Copy a file, in place of what is at the destination.
    CopyFile { source: String, destination: String },
    /// Remove the file.
    RemoveFile { path: String },
    /// Create a symbolic link at `link` that points to `target`.
    Symlink { target: String, link: String },
    /// Nothing is left to do.
    Finish,
    /// Give up, with the message.
    Abort { message: String },
}

/// What an [`Action`] stands for.
pub ghost enum ActionView {
    Prompt { text: Seq<char> },
    WriteFile { path: Seq<char>, content: Seq<char> },
    ResolveBinary,
    Run { program: Seq<char>, args: Seq<Seq<char>> },
    CreateDirAll { path: Seq<char> },
    CopyFile { source: Seq<char>, destination: Seq<char> },
    RemoveFile { path: Seq<char> },
    Symlink { target: Seq<char>, link: Seq<char> },
    Finish,
    Abort { message: Seq<char> },
}

/// The characters of each string of a list.
pub open spec fn texts(list: Seq<String>) -> Seq<Seq<char>> {
    Seq::new(list.len(), |i: int| list[i]@)
}

impl View for Action {
    type V = ActionView;

    open spec fn view(&self) -> ActionView {
        match self {
            Action::Prompt { text } => ActionView::Prompt { text: text@ },
            Action::WriteFile { path, content } => ActionView::WriteFile {
                path: path@,
                content: content@,
            },
            Action::ResolveBinary => ActionView::ResolveBinary,
            Action::Run { program, args } => ActionView::Run {
                program: program@,
                args: texts(args@),
            },
            Action::CreateDirAll { path } => ActionView::CreateDirAll { path: path@ },
            Action::CopyFile { source, destination } => ActionView::CopyFile {
                source: source@,
                destination: destination@,
            },
            Action::RemoveFile { path } => ActionView::RemoveFile { path: path@ },
            Action::Symlink { target, link } => ActionView::Symlink {
                target: target@,
                link: link@,
            },
            Action::Finish => ActionView::Finish,
            Action::Abort { message } => ActionView::Abort { message: message@ },
        }
    }
}

/// An installation under way: where it stands, the configuration as far as
/// it has been answered, the path of the running executable once it is
/// known, and the text of the service unit.
#[derive(Debug, Clone, PartialEq, Eq)]
pub struct Install {
    pub status: Status,
    pub config: Config,
    pub binary_path: String,
    pub unit_text: String,
}

/// What an [`Install`] stands for.
pub ghost struct InstallView {
    pub status: Status,
    pub config: ConfigView,
    pub binary_path: Seq<char>,
    pub unit_text: Seq<char>,
}

impl View for Install {
    type V = InstallView;

    open spec fn view(&self) -> InstallView {
        InstallView {
            status: self.status,
            config: self.config@,
            binary_path: self.binary_path@,
            unit_text: self.unit_text@,
        }
    }
}

/// Where the installation stands once a step is behind it.
pub open spec fn after(step: Step) -> Status {
    match step {
        Step::Ask(Setting::ListenAddr) => Status::Running(Step::Ask(Setting::Asn)),
        Step::Ask(Setting::Asn) => Status::Running(Step::Ask(Setting::AsName)),
        Step::Ask(Setting::AsName) => Status::Running(Step::Ask(Setting::RouterDomain)),
        Step::Ask(Setting::RouterDomain) => Status::Running(Step::Ask(Setting::RouterId)),
        Step::Ask(Setting::RouterId) => Status::Running(Step::Ask(Setting::AddressV4)),
        Step::Ask(Setting::AddressV4) => Status::Running(Step::Ask(Setting::AddressV6)),
        Step::Ask(Setting::AddressV6) => Status::Running(Step::WriteEnvFile),
        Step::WriteEnvFile => Status::Running(Step::ResolveBinary),
        Step::ResolveBinary => Status::Running(Step::StopService),
        Step::StopService => Status::Running(Step::CreateBinDir),
        Step::CreateBinDir => Status::Running(Step::CopyBinary),
        Step::CopyBinary => Status::Running(Step::CreateUnitDir),
        Step::CreateUnitDir => Status::Running(Step::WriteUnitFile),
        Step::WriteUnitFile => Status::Running(Step::RemoveOldLink),
        Step::RemoveOldLink => Status::Running(Step::LinkUnit),
        Step::LinkUnit => Status::Running(Step::ReloadSupervisor),
        Step::ReloadSupervisor => Status::Running(Step::RestartService),
        Step::RestartService => Status::Finished,
    }
}

/// A step whose failure is passed over: stopping the service, which may
/// not be running, and removing the old link, which may not be there.
pub open spec fn tolerated(step: Step) -> bool {
    step == Step::StopService || step == Step::RemoveOldLink
}

/// Where the installation stands after an event. A terminal status stays.
/// A prompt goes on with a line and gives up without one; the path of the
/// executable is needed; any other step goes on when it succeeded or its
/// failure is passed over, and gives up otherwise.
pub open spec fn next_status(status: Status, event: EventView) -> Status {
    match status {
        Status::Finished => Status::Finished,
        Status::Aborted(reason) => Status::Aborted(reason),
        Status::Running(step) => match step {
            Step::Ask(_) => match event {
                EventView::Line(_) => after(step),
                EventView::Interrupted => Status::Aborted(AbortReason::Interrupted),
                EventView::EndOfInput => Status::Aborted(AbortReason::EndOfInput),
                _ => Status::Aborted(AbortReason::InputError),
            },
            Step::ResolveBinary => match event {
                EventView::Resolved(_) => after(step),
                _ => Status::Aborted(AbortReason::StepFailed(step)),
            },
            _ => if event is Succeeded || tolerated(step) {
                after(step)
            } else {
                Status::Aborted(AbortReason::StepFailed(step))
            },
        },
    }
}

/// The installation after an event: its next status; an answered prompt
/// sets its setting, and the resolved path is kept.
pub open spec fn next(state: InstallView, event: EventView) -> InstallView {
    InstallView {
        status: next_status(state.status, event),
        config: match (state.status, event) {
            (Status::Running(Step::Ask(setting)), EventView::Line(line)) => state.config.with(
                setting,
                answer_of(line, state.config.get(setting)),
            ),
            _ => state.config,
        },
        binary_path: match (state.status, event) {
            (Status::Running(Step::ResolveBinary), EventView::Resolved(path)) => path,
            _ => state.binary_path,
        },
        unit_text: state.unit_text,
    }
}

/// The message with which an installation is given up.
pub open spec fn message_of(reason: AbortReason) -> Seq<char> {
    match reason {
        AbortReason::Interrupted => "Aborting."@,
        AbortReason::EndOfInput => "EOF reached. Aborting."@,
        AbortReason::InputError => "Error: the prompt failed"@,
        AbortReason::StepFailed(step) => match step {
            Step::Ask(_) => "Error: the prompt failed"@,
            Step::WriteEnvFile => "writing the configuration failed"@,
            Step::ResolveBinary => "getting the current binary path failed"@,
            Step::StopService => "systemctl stop router-hello failed"@,
            Step::CreateBinDir => "creating the binary directory failed"@,
            Step::CopyBinary => "installing the binary failed"@,
            Step::CreateUnitDir => "creating the service directory failed"@,
            Step::WriteUnitFile => "writing the service file failed"@,
            Step::RemoveOldLink => "removing the previous service file failed"@,
            Step::LinkUnit => "installing the service file failed"@,
            Step::ReloadSupervisor => "systemctl daemon-reload failed"@,
            Step::RestartService => "systemctl restart router-hello failed"@,
        },
    }
}

/// The message with which an installation is given up.
pub fn message(reason: AbortReason) -> (text: &'static str)
    ensures
        text@ == message_of(reason),
{
    match reason {
        AbortReason::Interrupted => "Aborting.",
        AbortReason::EndOfInput => "EOF reached. Aborting.",
        AbortReason::InputError => "Error: the prompt failed",
        AbortReason::StepFailed(step) => match step {
            Step::Ask(_) => "Error: the prompt failed",
            Step::WriteEnvFile => "writing the configuration failed",
            Step::ResolveBinary => "getting the current binary path failed",
            Step::StopService => "systemctl stop router-hello failed",
            Step::CreateBinDir => "creating the binary directory failed",
            Step::CopyBinary => "installing the binary failed",
            Step::CreateUnitDir => "creating the service directory failed",
            Step::WriteUnitFile => "writing the service file failed",
            Step::RemoveOldLink => "removing the previous service file failed",
            Step::LinkUnit => "installing the service file failed",
            Step::ReloadSupervisor => "systemctl daemon-reload failed",
            Step::RestartService => "systemctl restart router-hello failed",
        },
    }
}

/// What a step does, with the fixed paths and commands of the installation.
pub open spec fn action_of_step(step: Step, state: InstallView) -> ActionView {
    match step {
        Step::Ask(setting) => ActionView::Prompt {
            text: prompt_of(label_of(setting), state.config.get(setting)),
        },
        Step::WriteEnvFile => ActionView::WriteFile {
            path: "/etc/default/router-hello"@,
            content: env_file_of(state.config),
        },
        Step::ResolveBinary => ActionView::ResolveBinary,
        Step::StopService => ActionView::Run {
            program: "systemctl"@,
            args: seq!["stop"@, "router-hello"@],
        },
        Step::CreateBinDir => ActionView::CreateDirAll { path: "/opt/router-hello/bin"@ },
        Step::CopyBinary => ActionView::CopyFile {
            source: state.binary_path,
            destination: "/opt/router-hello/bin/router-hello"@,
        },
        Step::CreateUnitDir => ActionView::CreateDirAll {
            path: "/opt/router-hello/lib/systemd/system"@,
        },
        Step::WriteUnitFile => ActionView::WriteFile {
            path: "/opt/router-hello/lib/systemd/system/router-hello.service"@,
            content: state.unit_text,
        },
        Step::RemoveOldLink => ActionView::RemoveFile {
            path: "/etc/systemd/system/router-hello.service"@,
        },
        Step::LinkUnit => ActionView::Symlink {
            target: "/opt/router-hello/lib/systemd/system/router-hello.service"@,
            link: "/etc/systemd/system/router-hello.service"@,
        },
        Step::ReloadSupervisor => ActionView::Run {
            program: "systemctl"@,
            args: seq!["daemon-reload"@],
        },
        Step::RestartService => ActionView::Run {
            program: "systemctl"@,
            args: seq!["restart"@, "router-hello"@],
        },
    }
}

/// What is to be done where an installation stands.
pub open spec fn action_of(state: InstallView) -> ActionView {
    match state.status {
        Status::Running(step) => action_of_step(step, state),
        Status::Finished => ActionView::Finish,
        Status::Aborted(reason) => ActionView::Abort { message: message_of(reason) },
    }
}

fn systemctl(verb: &str, unit: Option<&str>) -> (action: Action)
    ensures
        action@ == (ActionView::Run {
            program: "systemctl"@,
            args: match unit {
                Some(name) => seq![verb@, name@],
                None => seq![verb@],
            },
        }),
{
    let mut args: Vec<String> = Vec::new();
    args.push(String::from_str(verb));
    match unit {
        Some(name) => {
            args.push(String::from_str(name));
            assert(texts(args@) =~= seq![verb@, name@]);
        },
        None => {
            assert(texts(args@) =~= seq![verb@]);
        },
    }
    Action::Run { program: String::from_str("systemctl"), args }
}

impl Install {
    /// An installation at its start: the first prompt is next, and every
    /// setting holds the value that its prompt will offer as the default.
    pub fn start(defaults: Config, unit_text: String) -> (state: Install)
        ensures
            state@ == (InstallView {
                status: Status::Running(Step::Ask(Setting::ListenAddr)),
                config: defaults@,
                binary_path: Seq::<char>::empty(),
                unit_text: unit_text@,
            }),
    {
        Install {
            status: Status::Running(Step::Ask(Setting::ListenAddr)),
            config: defaults,
            binary_path: String::new(),
            unit_text,
        }
    }

    /// What is to be done next.
    pub fn action(&self) -> (action: Action)
        ensures
            action@ == action_of(self@),
    {
        match self.status {
            Status::Finished => Action::Finish,
            Status::Aborted(reason) => Action::Abort { message: String::from_str(message(reason)) },
            Status::Running(step) => match step {
                Step::Ask(setting) => Action::Prompt {
                    text: prompt_text(label(setting), self.config.get(setting)),
                },
                Step::WriteEnvFile => Action::WriteFile {
                    path: String::from_str("/etc/default/router-hello"),
                    content: env_file(&self.config),
                },
                Step::ResolveBinary => Action::ResolveBinary,
                Step::StopService => systemctl("stop", Some("router-hello")),
                Step::CreateBinDir => Action::CreateDirAll {
                    path: String::from_str("/opt/router-hello/bin"),
                },
                Step::CopyBinary => Action::CopyFile {
                    source: self.binary_path.clone(),
                    destination: String::from_str("/opt/router-hello/bin/router-hello"),
                },
                Step::CreateUnitDir => Action::CreateDirAll {
                    path: String::from_str("/opt/router-hello/lib/systemd/system"),
                },
                Step::WriteUnitFile => Action::WriteFile {
                    path: String::from_str(
                        "/opt/router-hello/lib/systemd/system/router-hello.service",
                    ),
                    content: self.unit_text.clone(),
                },
                Step::RemoveOldLink => Action::RemoveFile {
                    path: String::from_str("/etc/systemd/system/router-hello.service"),
                },
                Step::LinkUnit => Action::Symlink {
                    target: String::from_str(
                        "/opt/router-hello/lib/systemd/system/router-hello.service",
                    ),
                    link: String::from_str("/etc/systemd/system/router-hello.service"),
                },
                Step::ReloadSupervisor => systemctl("daemon-reload", None),
                Step::RestartService => systemctl("restart", Some("router-hello")),
            },
        }
    }

    /// Takes in what came of the last action and moves on.
    pub fn advance(self, event: Event) -> (state: Install)
        ensures
            state@ == next(self@, event@),
    {
        let mut state = self;
        match state.status {
            Status::Finished => {},
            Status::Aborted(_) => {},
            Status::Running(step) => match step {
                Step::Ask(setting) => match event {
                    Event::Line(line) => {
                        let value = answer(line.as_str(), state.config.get(setting));
                        state.config = state.config.with(setting, value);
                        state.status = step_after(step);
                    },
                    Event::Interrupted => {
                        state.status = Status::Aborted(AbortReason::Interrupted);
                    },
                    Event::EndOfInput => {
                        state.status = Status::Aborted(AbortReason::EndOfInput);
                    },
                    _ => {
                        state.status = Status::Aborted(AbortReason::InputError);
                    },
                },
                Step::ResolveBinary => match event {
                    Event::Resolved(path) => {
                        state.binary_path = path;
                        state.status = step_after(step);
                    },
                    _ => {
                        state.status = Status::Aborted(AbortReason::StepFailed(step));
                    },
                },
                _ => {
                    let succeeded = match event {
                        Event::Succeeded => true,
                        _ => false,
                    };
                    if succeeded || tolerates(step) {
                        state.status = step_after(step);
                    } else {
                        state.status = Status::Aborted(AbortReason::StepFailed(step));
                    }
                },
            },
        }
        state
    }

    /// Nothing is left to do: the installation is finished or given up.
    pub fn is_over(&self) -> (over: bool)
        ensures
            over == !(self@.status is Running),
    {
        match self.status {
            Status::Running(_) => false,
            _ => true,
        }
    }
}

/// Where the installation stands once a step is behind it.
pub fn step_after(step: Step) -> (status: Status)
    ensures
        status == after(step),
{
    match step {
        Step::Ask(Setting::ListenAddr) => Status::Running(Step::Ask(Setting::Asn)),
        Step::Ask(Setting::Asn) => Status::Running(Step::Ask(Setting::AsName)),
        Step::Ask(Setting::AsName) => Status::Running(Step::Ask(Setting::RouterDomain)),
        Step::Ask(Setting::RouterDomain) => Status::Running(Step::Ask(Setting::RouterId)),
        Step::Ask(Setting::RouterId) => Status::Running(Step::Ask(Setting::AddressV4)),
        Step::Ask(Setting::AddressV4) => Status::Running(Step::Ask(Setting::AddressV6)),
        Step::Ask(Setting::AddressV6) => Status::Running(Step::WriteEnvFile),
        Step::WriteEnvFile => Status::Running(Step::ResolveBinary),
        Step::ResolveBinary => Status::Running(Step::StopService),
        Step::StopService => Status::Running(Step::CreateBinDir),
        Step::CreateBinDir => Status::Running(Step::CopyBinary),
        Step::CopyBinary => Status::Running(Step::CreateUnitDir),
        Step::CreateUnitDir => Status::Running(Step::WriteUnitFile),
        Step::WriteUnitFile => Status::Running(Step::RemoveOldLink),
        Step::RemoveOldLink => Status::Running(Step::LinkUnit),
        Step::LinkUnit => Status::Running(Step::ReloadSupervisor),
        Step::ReloadSupervisor => Status::Running(Step::RestartService),
        Step::RestartService => Status::Finished,
    }
}

/// Whether the failure of a step is passed over.
pub fn tolerates(step: Step) -> (yes: bool)
    ensures
        yes == tolerated(step),
{
    match step {
        Step::StopService => true,
        Step::RemoveOldLink => true,
        _ => false,
    }
}

/// A failure to stop the service is passed over: whatever came of the
/// attempt, the installation goes on to create the directory of the binary.
pub proof fn lemma_stop_failure_is_passed_over(state: InstallView, event: EventView)
    requires
        state.status == Status::Running(Step::StopService),
    ensures
        next(state, event).status == Status::Running(Step::CreateBinDir),
        next(state, event).config == state.config,
{
}

/// A step goes on after success. Its failure is passed over where the step
/// tolerates it, and ends the installation with that step as the reason
/// where it does not.
pub proof fn lemma_failure_policy(state: InstallView, step: Step)
    requires
        state.status == Status::Running(step),
        !(step is Ask),
        step != Step::ResolveBinary,
    ensures
        next(state, EventView::Succeeded).status == after(step),
        tolerated(step) ==> next(state, EventView::Failed).status == after(step),
        !tolerated(step) ==> next(state, EventView::Failed).status == Status::Aborted(
            AbortReason::StepFailed(step),
        ),
{
}

/// An installation that is finished or given up stays as it is.
pub proof fn lemma_over_stays_over(state: InstallView, event: EventView)
    requires
        !(state.status is Running),
    ensures
        next(state, event) == state,
{
}

/// A prompt that is answered with nothing but white space leaves its
/// setting at the default that it offered, and the next step follows.
pub proof fn lemma_blank_answer_keeps_default(
    state: InstallView,
    setting: Setting,
    line: Seq<char>,
)
    requires
        state.status == Status::Running(Step::Ask(setting)),
        trimmed(line).len() == 0,
    ensures
        next(state, EventView::Line(line)).config == state.config,
        next(state, EventView::Line(line)).status == after(Step::Ask(setting)),
{
}

/// A prompt that is cancelled, or that meets the end of the input, ends the
/// installation before anything is written.
pub proof fn lemma_interrupted_prompt_aborts(state: InstallView, setting: Setting)
    requires
        state.status == Status::Running(Step::Ask(setting)),
    ensures
        next(state, EventView::Interrupted).status == Status::Aborted(AbortReason::Interrupted),
        next(state, EventView::EndOfInput).status == Status::Aborted(AbortReason::EndOfInput),
{
}

/// The installation after a run of lines, each read as the answer to the
/// prompt that is open when it comes.
pub open spec fn after_lines(state: InstallView, lines: Seq<Seq<char>>) -> InstallView
    decreases lines.len(),
{
    if lines.len() == 0 {
        state
    } else {
        next(after_lines(state, lines.drop_last()), EventView::Line(lines.last()))
    }
}

/// One more line is one more answer.
proof fn lemma_one_more_line(state: InstallView, lines: Seq<Seq<char>>, k: int)
    requires
        0 <= k < lines.len(),
    ensures
        after_lines(state, lines.take(k + 1)) == next(
            after_lines(state, lines.take(k)),
            EventView::Line(lines[k]),
        ),
{
    assert(lines.take(k + 1).drop_last() =~= lines.take(k));
    assert(lines.take(k + 1).last() == lines[k]);
}

/// Where the installation stands when so many prompts have been answered.
pub open spec fn status_after_answers(count: int) -> Status {
    if count <= 0 {
        Status::Running(Step::Ask(Setting::ListenAddr))
    } else if count == 1 {
        Status::Running(Step::Ask(Setting::Asn))
    } else if count == 2 {
        Status::Running(Step::Ask(Setting::AsName))
    } else if count == 3 {
        Status::Running(Step::Ask(Setting::RouterDomain))
    } else if count == 4 {
        Status::Running(Step::Ask(Setting::RouterId))
    } else if count == 5 {
        Status::Running(Step::Ask(Setting::AddressV4))
    } else if count == 6 {
        Status::Running(Step::Ask(Setting::AddressV6))
    } else {
        Status::Running(Step::WriteEnvFile)
    }
}

/// Blank answers leave the configuration as it was, prompt after prompt.
proof fn lemma_blank_lines_keep_defaults(state: InstallView, lines: Seq<Seq<char>>, k: int)
    requires
        state.status == Status::Running(Step::Ask(Setting::ListenAddr)),
        lines.len() == 7,
        forall|i: int| 0 <= i < 7 ==> (#[trigger] trimmed(lines[i])).len() == 0,
        0 <= k <= 7,
    ensures
        after_lines(state, lines.take(k)).config == state.config,
        after_lines(state, lines.take(k)).status == status_after_answers(k),
    decreases k,
{
    if k > 0 {
        lemma_blank_lines_keep_defaults(state, lines, k - 1);
        lemma_one_more_line(state, lines, k - 1);
        assert(trimmed(lines[k - 1]).len() == 0);
    }
}

/// Seven answers of nothing but white space accept every default: the
/// configuration is as it was at the start, and what is written next is the
/// environment file of exactly that configuration.
pub proof fn lemma_accepting_defaults_writes_them(state: InstallView, lines: Seq<Seq<char>>)
    requires
        state.status == Status::Running(Step::Ask(Setting::ListenAddr)),
        lines.len() == 7,
        forall|i: int| 0 <= i < 7 ==> (#[trigger] trimmed(lines[i])).len() == 0,
    ensures
        after_lines(state, lines).status == Status::Running(Step::WriteEnvFile),
        after_lines(state, lines).config == state.config,
        action_of(after_lines(state, lines)) == (ActionView::WriteFile {
            path: "/etc/default/router-hello"@,
            content: env_file_of(state.config),
        }),
{
    lemma_blank_lines_keep_defaults(state, lines, 7);
    assert(lines.take(7) =~= lines);
}

} // verus!
