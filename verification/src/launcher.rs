//! What a launcher decides around the check: whether to show its banner,
//! whether to forward the call, and the status it ends with.

use crate::denylist::{
    all_allowed, answer_text, check_dangerous_options, verdict, FD_DANGEROUS_OPTIONS,
    FIND_DANGEROUS_OPTIONS,
};
use crate::text::{is_listed, same_text, texts_of, token_set};
use vstd::prelude::*;
use vstd::string::*;

verus! {

/// Arguments that ask for help or for the version, wherever they stand.
pub const INFO_TRIGGERS: [&'static str; 4] = ["--help", "-h", "--version", "-V"];

/// The status of a launcher that did not forward the call, or whose tool
/// left no code.
pub const FAILURE_EXIT_CODE: i32 = 1;

/// How a forwarded invocation ended.
#[derive(Clone, Copy, Debug, PartialEq, Eq)]
pub enum InvocationOutcome {
    /// The tool exited with this code.
    Exited(i32),
    /// The tool was ended by a signal, and left no code.
    Signaled,
}

/// The tool that a launcher stands in front of.
#[derive(Clone, Copy, Debug, PartialEq, Eq)]
pub enum Tool {
    Find,
    Fd,
}

/// What a launcher does before it forwards anything.
pub struct Plan {
    /// Print the banner first.
    pub show_info: bool,
    /// Forward the call on `Ok`; on `Err` print the message and end with
    /// `FAILURE_EXIT_CODE`, without starting the tool.
    pub verdict: Result<(), String>,
}

/// How a launcher ends after it tried to forward the call.
pub struct Conclusion {
    /// The status to exit with.
    pub code: i32,
    /// What to print to standard error first, if anything.
    pub diagnostic: Option<String>,
}

/// Some argument is an info trigger.
pub open spec fn wants_info(args: Seq<Seq<char>>) -> bool {
    !all_allowed(args, token_set(INFO_TRIGGERS@))
}

/// The status that stands for an outcome: the tool's own code, or
/// `FAILURE_EXIT_CODE` where a signal left none.
pub open spec fn exit_code_of(outcome: InvocationOutcome) -> i32 {
    match outcome {
        InvocationOutcome::Exited(code) => code,
        InvocationOutcome::Signaled => FAILURE_EXIT_CODE,
    }
}

/// Whether the arguments ask for help or for the version.
pub fn is_info_request(args: &[String]) -> (asked: bool)
    ensures
        asked == wants_info(texts_of(args@)),
{
    let ghost texts = texts_of(args@);
    let ghost triggers = token_set(INFO_TRIGGERS@);
    let mut i: usize = 0;
    while i < args.len()
        invariant
            i <= args.len(),
            texts == texts_of(args@),
            triggers == token_set(INFO_TRIGGERS@),
            forall|k: int| 0 <= k < i ==> !triggers.contains(#[trigger] texts[k]),
        decreases args.len() - i,
    {
        assert(texts[i as int] == args@[i as int]@);
        if is_listed(args[i].as_str(), &INFO_TRIGGERS) {
            return true;
        }
        i += 1;
    }
    false
}

/// The status that a launcher exits with once its tool has ended.
pub fn exit_code(outcome: InvocationOutcome) -> (code: i32)
    ensures
        code == exit_code_of(outcome),
        outcome matches InvocationOutcome::Exited(n) ==> code == n,
{
    match outcome {
        InvocationOutcome::Exited(code) => code,
        InvocationOutcome::Signaled => FAILURE_EXIT_CODE,
    }
}

impl Tool {
    /// The name under which the tool is found on the search path.
    pub open spec fn executable_text(self) -> Seq<char> {
        match self {
            Tool::Find => "find"@,
            Tool::Fd => "fd"@,
        }
    }

    /// The name of the launcher that stands in front of this tool.
    pub open spec fn launcher_text(self) -> Seq<char> {
        match self {
            Tool::Find => "safe-find"@,
            Tool::Fd => "safe-fd"@,
        }
    }

    /// The tool whose launcher goes by `name`, if there is one.
    pub open spec fn launcher_named(name: Seq<char>) -> Option<Tool> {
        if name == Tool::Find.launcher_text() {
            Some(Tool::Find)
        } else if name == Tool::Fd.launcher_text() {
            Some(Tool::Fd)
        } else {
            None
        }
    }

    /// The tokens that the launcher of this tool refuses.
    pub open spec fn forbidden(self) -> Set<Seq<char>> {
        match self {
            Tool::Find => token_set(FIND_DANGEROUS_OPTIONS@),
            Tool::Fd => token_set(FD_DANGEROUS_OPTIONS@),
        }
    }

    /// The banner of this tool's launcher in the given version, line by line.
    pub open spec fn banner_text(self, version: Seq<char>) -> Seq<Seq<char>> {
        match self {
            Tool::Find => seq![
                "safe-find "@ + version + " - A secure wrapper for the find command"@,
                "Blocks dangerous execution options: -exec, -execdir, -ok, -okdir, -delete"@,
                "Repository: https://github.com/masinc/safe-find"@,
                ""@,
            ],
            Tool::Fd => seq![
                "safe-fd "@ + version + " - A secure wrapper for the fd command"@,
                "Blocks dangerous execution options: -x/--exec, -X/--exec-batch, -l/--list-details"@,
                "Repository: https://github.com/masinc/safe-find"@,
                ""@,
            ],
        }
    }

    /// The message for a tool that could not be started, with the system's
    /// description of the failure.
    pub open spec fn spawn_failure_text(self, description: Seq<char>) -> Seq<char> {
        "Error executing "@ + self.executable_text() + " command: "@ + description
    }

    /// The name under which the tool is found on the search path.
    pub fn executable(self) -> (name: &'static str)
        ensures
            name@ == self.executable_text(),
    {
        match self {
            Tool::Find => "find",
            Tool::Fd => "fd",
        }
    }

    /// The name of the launcher that stands in front of this tool.
    pub fn launcher_name(self) -> (name: &'static str)
        ensures
            name@ == self.launcher_text(),
    {
        match self {
            Tool::Find => "safe-find",
            Tool::Fd => "safe-fd",
        }
    }

    /// The tool whose launcher goes by `name`, if there is one.
    pub fn from_launcher_name(name: &str) -> (tool: Option<Tool>)
        ensures
            tool == Tool::launcher_named(name@),
    {
        if same_text(name, Tool::Find.launcher_name()) {
            Some(Tool::Find)
        } else if same_text(name, Tool::Fd.launcher_name()) {
            Some(Tool::Fd)
        } else {
            None
        }
    }

    /// Checks the arguments against this tool's forbidden tokens.
    pub fn check(self, args: &[String]) -> (answer: Result<(), String>)
        ensures
            answer_text(answer) == verdict(texts_of(args@), self.forbidden()),
    {
        match self {
            Tool::Find => check_dangerous_options(args, &FIND_DANGEROUS_OPTIONS),
            Tool::Fd => check_dangerous_options(args, &FD_DANGEROUS_OPTIONS),
        }
    }

    /// The banner that identifies this tool's launcher, line by line.
    pub fn banner(self, version: &str) -> (lines: Vec<String>)
        ensures
            texts_of(lines@) == self.banner_text(version@),
    {
        let mut first = match self {
            Tool::Find => String::from_str("safe-find "),
            Tool::Fd => String::from_str("safe-fd "),
        };
        first.append(version);
        match self {
            Tool::Find => first.append(" - A secure wrapper for the find command"),
            Tool::Fd => first.append(" - A secure wrapper for the fd command"),
        }
        let second = match self {
            Tool::Find => String::from_str(
                "Blocks dangerous execution options: -exec, -execdir, -ok, -okdir, -delete",
            ),
            Tool::Fd => String::from_str(
                "Blocks dangerous execution options: -x/--exec, -X/--exec-batch, -l/--list-details",
            ),
        };
        let mut lines: Vec<String> = Vec::new();
        lines.push(first);
        lines.push(second);
        lines.push(String::from_str("Repository: https://github.com/masinc/safe-find"));
        lines.push(String::from_str(""));
        assert(texts_of(lines@) =~= self.banner_text(version@));
        lines
    }

    /// The message for a tool that could not be started.
    pub fn spawn_failure_message(self, description: &str) -> (message: String)
        ensures
            message@ == self.spawn_failure_text(description@),
    {
        let mut message = String::from_str("Error executing ");
        message.append(self.executable());
        message.append(" command: ");
        message.append(description);
        message
    }

    /// Decides what happens before anything is forwarded. The banner is shown
    /// whenever an info trigger is present, and changes nothing else: the
    /// arguments are checked all the same, and forwarded if they pass.
    pub fn plan(self, args: &[String]) -> (plan: Plan)
        ensures
            plan.show_info == wants_info(texts_of(args@)),
            answer_text(plan.verdict) == verdict(texts_of(args@), self.forbidden()),
    {
        Plan { show_info: is_info_request(args), verdict: self.check(args) }
    }

    /// Decides how the launcher ends: with the tool's outcome as its status,
    /// or, where the tool could not be started, with `FAILURE_EXIT_CODE` and
    /// a message that carries the failure's description.
    pub fn conclude(self, forwarded: Result<InvocationOutcome, String>) -> (end: Conclusion)
        ensures
            forwarded is Ok ==> end.code == exit_code_of(forwarded->Ok_0),
            forwarded matches Ok(InvocationOutcome::Exited(n)) ==> end.code == n,
            forwarded is Ok ==> end.diagnostic is None,
            forwarded is Err ==> end.code == FAILURE_EXIT_CODE,
            forwarded is Err ==> end.diagnostic is Some,
            forwarded is Err ==> end.diagnostic->Some_0@ == self.spawn_failure_text(
                forwarded->Err_0@,
            ),
    {
        match forwarded {
            Ok(outcome) => Conclusion { code: exit_code(outcome), diagnostic: None },
            Err(description) => Conclusion {
                code: FAILURE_EXIT_CODE,
                diagnostic: Some(self.spawn_failure_message(description.as_str())),
            },
        }
    }
}

} // verus!
