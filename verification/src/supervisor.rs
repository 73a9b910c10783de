//! The supervisor's single child slot, and the decisions of a start and of a
//! stop.
//!
//! The supervisor performs no outside work itself. A start is a short
//! exchange with the caller, who holds the supervisor exclusively for its
//! whole length: `begin_start` admits or refuses the request and says what to
//! write, `plan_launch` turns the outcome of the write into the command to
//! launch, and `finish_start` takes the outcome of the launch. A stop hands
//! back the child that is to be terminated.

use vstd::prelude::*;
use vstd::string::*;

verus! {

/// Process-creation flag that keeps the child from opening a console window.
pub const CREATE_NO_WINDOW: u32 = 0x0800_0000;

/// Name of the configuration file inside the temporary directory.
pub open spec fn config_file_name() -> Seq<char> {
    "frpc_temp.ini"@
}

/// Path of the client binary, relative to the application.
pub open spec fn client_program() -> Seq<char> {
    "bin/frpc.exe"@
}

/// The client's option that announces a configuration file.
pub open spec fn config_option() -> Seq<char> {
    "-c"@
}

/// Text that answers a start that went through.
pub open spec fn started_text() -> Seq<char> {
    "已启动"@
}

/// Text that answers every stop.
pub open spec fn stopped_text() -> Seq<char> {
    "已停止"@
}

/// Text that answers a start while a child is held.
pub open spec fn already_running_text() -> Seq<char> {
    "FRPC 正在运行中"@
}

/// What precedes the operating system's words when the launch failed: the
/// failure, and the hint to look for the client binary.
pub open spec fn spawn_failure_prefix() -> Seq<char> {
    "启动失败 (请检查 bin/frpc.exe 是否存在): "@
}

/// Why a start did not go through.
#[derive(Debug)]
pub enum StartError {
    /// A child is already held; nothing was written or launched.
    AlreadyRunning,
    /// The configuration file could not be written; `reason` is the
    /// operating system's description.
    ConfigWrite { reason: String },
    /// The client could not be launched; `reason` is the operating system's
    /// description.
    Spawn { reason: String },
}

impl StartError {
    /// The text shown to the user for this error. A failed write is reported
    /// in the operating system's words alone.
    pub open spec fn text(self) -> Seq<char> {
        match self {
            StartError::AlreadyRunning => already_running_text(),
            StartError::ConfigWrite { reason } => reason@,
            StartError::Spawn { reason } => spawn_failure_prefix() + reason@,
        }
    }

    /// Whether this is the failure of the configuration write, in the words
    /// `reason`.
    pub open spec fn is_write_failure(self, reason: Seq<char>) -> bool {
        self matches StartError::ConfigWrite { reason: told } && told@ == reason
    }

    /// Whether this is the failure of the launch, in the words `reason`.
    pub open spec fn is_spawn_failure(self, reason: Seq<char>) -> bool {
        self matches StartError::Spawn { reason: told } && told@ == reason
    }

    /// Returns the text shown to the user for this error.
    pub fn message(&self) -> (text: String)
        ensures
            text@ == self.text(),
    {
        match self {
            StartError::AlreadyRunning => "FRPC 正在运行中".to_owned(),
            StartError::ConfigWrite { reason } => reason.clone(),
            StartError::Spawn { reason } => {
                let mut text = "启动失败 (请检查 bin/frpc.exe 是否存在): ".to_owned();
                text.append(reason.as_str());
                text
            },
        }
    }
}

/// The request to materialise the configuration: `content` is to replace
/// whatever the file `file_name` in the temporary directory holds.
#[derive(Debug)]
pub struct ConfigWrite {
    pub file_name: String,
    pub content: String,
}

impl ConfigWrite {
    /// The request that puts exactly `content` into the fixed file.
    pub open spec fn carries(self, content: Seq<char>) -> bool {
        &&& self.file_name@ == config_file_name()
        &&& self.content@ == content
    }
}

/// The command that launches the client.
#[derive(Debug)]
pub struct LaunchPlan {
    pub program: String,
    pub args: Vec<String>,
    /// Creation flags for the platform that has a console subsystem.
    pub creation_flags: u32,
    /// Whether the child's standard output is redirected into a pipe.
    pub pipe_stdout: bool,
    /// Whether the child's standard error is redirected into a pipe.
    pub pipe_stderr: bool,
}

impl LaunchPlan {
    /// The plan that launches the client on the configuration at
    /// `config_path`: the fixed binary with `-c <config_path>`, both output
    /// streams piped, no console window.
    pub open spec fn launches(self, config_path: Seq<char>) -> bool {
        &&& self.program@ == client_program()
        &&& self.args@.len() == 2
        &&& self.args@[0]@ == config_option()
        &&& self.args@[1]@ == config_path
        &&& self.creation_flags == CREATE_NO_WINDOW
        &&& self.pipe_stdout
        &&& self.pipe_stderr
    }
}

/// Turns the outcome of the configuration write into the next step: the
/// command to launch on the file at the path that was written, or the
/// failure of the start.
pub fn plan_launch(written: Result<String, String>) -> (step: Result<LaunchPlan, StartError>)
    ensures
        written is Ok ==> step is Ok && step->Ok_0.launches(written->Ok_0@),
        written is Err ==> step is Err && step->Err_0.is_write_failure(written->Err_0@),
{
    match written {
        Ok(path) => {
            let mut args: Vec<String> = Vec::new();
            args.push("-c".to_owned());
            args.push(path);
            Ok(
                LaunchPlan {
                    program: "bin/frpc.exe".to_owned(),
                    args,
                    creation_flags: CREATE_NO_WINDOW,
                    pipe_stdout: true,
                    pipe_stderr: true,
                },
            )
        },
        Err(reason) => Err(StartError::ConfigWrite { reason }),
    }
}

/// What a stop hands back: the child to terminate, if one was held, and the
/// text that answers the request.
#[derive(Debug)]
pub struct Stopped<H> {
    pub child: Option<H>,
    pub message: String,
}

/// Whether a request to start is admitted when the slot holds `slot`: only
/// while no child is held.
pub open spec fn admits<H>(slot: Option<H>) -> bool {
    slot is None
}

/// What the slot holds once a start has seen the outcome of its launch: the
/// child that was launched, or nothing.
pub open spec fn slot_after_launch<H>(spawned: Result<H, String>) -> Option<H> {
    match spawned {
        Ok(child) => Some(child),
        Err(_) => None,
    }
}

/// The supervisor's state: the handle of the running child, if there is one.
#[derive(Debug)]
pub struct FrpState<H> {
    child: Option<H>,
}

impl<H> View for FrpState<H> {
    type V = Option<H>;

    closed spec fn view(&self) -> Option<H> {
        self.child
    }
}

impl<H> FrpState<H> {
    /// A supervisor that holds no child.
    pub fn new() -> (state: Self)
        ensures
            state@ is None,
    {
        FrpState { child: None }
    }

    /// Whether a child is held.
    pub fn is_running(&self) -> (running: bool)
        ensures
            running == (self@ is Some),
    {
        self.child.is_some()
    }

    /// Decides on a request to start with the configuration `config_content`.
    ///
    /// While a child is held the request is refused and nothing is to be
    /// done. Otherwise the configuration is to be written, verbatim, to the
    /// fixed file name. The state is not touched either way.
    pub fn begin_start(&self, config_content: String) -> (step: Result<ConfigWrite, StartError>)
        ensures
            step is Ok <==> admits(self@),
            step is Ok ==> step->Ok_0.carries(config_content@),
            step is Err ==> step->Err_0 is AlreadyRunning,
    {
        if self.child.is_some() {
            Err(StartError::AlreadyRunning)
        } else {
            Ok(ConfigWrite { file_name: "frpc_temp.ini".to_owned(), content: config_content })
        }
    }

    /// Takes the outcome of the launch and ends the start.
    ///
    /// A launched child becomes the held child. A failed launch leaves the
    /// slot empty and is reported with the hint about the client binary.
    /// The slot is empty on entry: the caller has held the supervisor since
    /// `begin_start` admitted the request.
    pub fn finish_start(&mut self, spawned: Result<H, String>) -> (reply: Result<String, StartError>)
        requires
            admits(old(self)@),
        ensures
            final(self)@ == slot_after_launch(spawned),
            spawned is Ok ==> reply is Ok && reply->Ok_0@ == started_text(),
            spawned is Err ==> reply is Err && reply->Err_0.is_spawn_failure(spawned->Err_0@),
    {
        match spawned {
            Ok(child) => {
                self.child = Some(child);
                Ok("已启动".to_owned())
            },
            Err(reason) => Err(StartError::Spawn { reason }),
        }
    }

    /// Empties the slot and hands back the child that was held, which the
    /// caller terminates. With no child held nothing changes. The answer is
    /// the same in both cases.
    pub fn stop(&mut self) -> (stopped: Stopped<H>)
        ensures
            final(self)@ is None,
            stopped.child == old(self)@,
            stopped.message@ == stopped_text(),
    {
        let child = self.child.take();
        Stopped { child, message: "已停止".to_owned() }
    }
}

} // verus!
