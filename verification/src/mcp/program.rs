//! Creating a program with its source: create, write under a lock,
//! unlock, activate.
use vstd::prelude::*;

use crate::errors::NeuroMcpError;
use crate::json::JsonValue;
use crate::mcp::create::{invalid_arguments, CreateObjectArgs};
use crate::mcp::flow::{lock_handle_of, take_lock_handle, FlowAction, FlowEvent};
use crate::mcp::paths::{build_object_url, canon, spec_object_url};
use crate::text::{concat, owned, to_upper, trim, trim_seq};
use crate::xml::opt_text;

verus! {

/// The arguments of a new program, each possibly missing.
#[derive(Clone, Debug, Default)]
pub struct CreateAndActivateProgramArgs {
    pub program_name: Option<String>,
    pub description: Option<String>,
    pub package_name: Option<String>,
    pub source: Option<String>,
    pub transport: Option<String>,
}

/// Where the creation stands.
#[derive(Clone, Copy, Debug, PartialEq, Eq, Structural)]
pub enum ProgramStage {
    AwaitCreate,
    AwaitLock,
    AwaitWrite,
    AwaitUnlock,
    AwaitActivation,
}

/// A program creation in progress.
#[derive(Debug)]
pub struct CreateProgramFlow {
    pub tool: String,
    pub program_name: String,
    pub source: String,
    pub transport: String,
    pub object_url: String,
    pub lock_handle: String,
    pub stage: ProgramStage,
}

/// What a finished creation reports.
#[derive(Debug)]
pub struct ProgramOutcome {
    pub program_name: String,
    pub object_url: String,
    pub activation: JsonValue,
}

/// The next step of the creation, or its end.
#[derive(Debug)]
pub enum ProgramStep {
    Next(CreateProgramFlow, FlowAction),
    Finish(Result<ProgramOutcome, NeuroMcpError>),
}

/// `r` refuses the call for `tool` with `message`.
pub open spec fn program_refuses(r: ProgramStep, tool: Seq<char>, message: Seq<char>) -> bool {
    r matches ProgramStep::Finish(Err(NeuroMcpError::InvalidArguments { tool: t, message: m })) && t@
        == tool && m@ == message
}

/// How the creation starts: name, description, package and source must
/// be given; the program (upper-cased name) is created in the upper-cased
/// package, under the transport request when not blank.
pub open spec fn program_start_ok(args: CreateAndActivateProgramArgs, tool: Seq<char>, r: ProgramStep) -> bool {
    match (args.program_name, args.description, args.package_name, args.source) {
        (None, _, _, _) => program_refuses(r, tool, "program_name is required"@),
        (Some(_), None, _, _) => program_refuses(r, tool, "description is required"@),
        (Some(_), Some(_), None, _) => program_refuses(r, tool, "package_name is required"@),
        (Some(_), Some(_), Some(_), None) => program_refuses(r, tool, "source is required"@),
        (Some(n), Some(d), Some(p), Some(s)) => {
            let transport = match args.transport {
                Some(t) => t@,
                None => Seq::empty(),
            };
            r matches ProgramStep::Next(g, FlowAction::CreateObject(a)) && g.tool@ == tool
                && g.program_name@ == canon(n@) && g.source@ == s@ && g.transport@ == transport
                && g.stage == ProgramStage::AwaitCreate && opt_text(a.object_type) == Some("PROG/P"@)
                && opt_text(a.name) == Some(canon(n@)) && opt_text(a.description) == Some(d@)
                && opt_text(a.package_name) == Some(canon(p@)) && opt_text(a.transport) == (if trim_seq(
                transport,
            ).len() == 0 {
                None
            } else {
                Some(transport)
            }) && a.parent_name is None && a.responsible is None && a.software_component is None
                && a.service_definition is None && a.binding_type is None && a.binding_version is None
                && a.binding_category is None
        },
    }
}

/// What the creation does with `event` at its stage; a failed step ends
/// it with that failure.
pub open spec fn program_step_ok(f: CreateProgramFlow, event: FlowEvent, r: ProgramStep) -> bool {
    match (f.stage, event) {
        (_, FlowEvent::Failed(e)) => r matches ProgramStep::Finish(Err(x)) && x == e,
        (ProgramStage::AwaitCreate, FlowEvent::Value(_)) => r matches ProgramStep::Next(
            g,
            FlowAction::Lock { object_url },
        ) && g.tool == f.tool && g.program_name == f.program_name && g.source == f.source
            && g.transport == f.transport && g.stage == ProgramStage::AwaitLock && g.object_url@
            == spec_object_url("PROG/P"@, f.program_name@, None) && object_url@ == g.object_url@,
        (ProgramStage::AwaitLock, FlowEvent::Value(lock)) => match lock_handle_of(lock) {
            None => program_refuses(r, f.tool@, "LockObject did not return lockHandle"@),
            Some(h) => r matches ProgramStep::Next(
                g,
                FlowAction::WriteSource { uri, source, lock_handle, transport },
            ) && g.tool == f.tool && g.program_name == f.program_name && g.object_url == f.object_url
                && g.lock_handle@ == h && g.stage == ProgramStage::AwaitWrite && uri@ == f.object_url@
                + "/source/main"@ && source@ == f.source@ && lock_handle@ == h && opt_text(transport)
                == Some(f.transport@),
        },
        (ProgramStage::AwaitWrite, FlowEvent::Text(_)) => r matches ProgramStep::Next(
            g,
            FlowAction::Unlock { object_url, lock_handle },
        ) && g.tool == f.tool && g.program_name == f.program_name && g.object_url == f.object_url
            && g.stage == ProgramStage::AwaitUnlock && object_url@ == f.object_url@ && lock_handle@
            == f.lock_handle@,
        (ProgramStage::AwaitUnlock, FlowEvent::Value(_)) => r matches ProgramStep::Next(
            g,
            FlowAction::Activate { object_url, object_name },
        ) && g.tool == f.tool && g.program_name == f.program_name && g.object_url == f.object_url
            && g.stage == ProgramStage::AwaitActivation && object_url@ == f.object_url@ && object_name@
            == f.program_name@,
        (ProgramStage::AwaitActivation, FlowEvent::Value(v)) => r matches ProgramStep::Finish(Ok(o))
            && o.program_name == f.program_name && o.object_url == f.object_url && o.activation == v,
        _ => true,
    }
}

impl CreateProgramFlow {
    /// Starts the creation.
    pub fn start(args: CreateAndActivateProgramArgs, tool_name: &str) -> (r: ProgramStep)
        ensures
            program_start_ok(args, tool_name@, r),
    {
        let program_name = match args.program_name {
            Some(n) => n,
            None => {
                return ProgramStep::Finish(Err(invalid_arguments(tool_name, "program_name is required")));
            },
        };
        let description = match args.description {
            Some(d) => d,
            None => {
                return ProgramStep::Finish(Err(invalid_arguments(tool_name, "description is required")));
            },
        };
        let package_name = match args.package_name {
            Some(p) => p,
            None => {
                return ProgramStep::Finish(Err(invalid_arguments(tool_name, "package_name is required")));
            },
        };
        let source = match args.source {
            Some(s) => s,
            None => {
                return ProgramStep::Finish(Err(invalid_arguments(tool_name, "source is required")));
            },
        };
        let transport = match args.transport {
            Some(t) => t,
            None => String::new(),
        };
        let program_name = to_upper(trim(program_name.as_str()).as_str());
        let create = CreateObjectArgs {
            object_type: Some(owned("PROG/P")),
            name: Some(program_name.clone()),
            description: Some(description),
            package_name: Some(to_upper(trim(package_name.as_str()).as_str())),
            transport: if trim(transport.as_str()).as_str().is_empty() {
                None
            } else {
                Some(transport.clone())
            },
            parent_name: None,
            responsible: None,
            software_component: None,
            service_definition: None,
            binding_type: None,
            binding_version: None,
            binding_category: None,
        };
        let flow = CreateProgramFlow {
            tool: owned(tool_name),
            program_name,
            source,
            transport,
            object_url: String::new(),
            lock_handle: String::new(),
            stage: ProgramStage::AwaitCreate,
        };
        ProgramStep::Next(flow, FlowAction::CreateObject(create))
    }

    /// Takes the outcome of the awaited step and says what comes next.
    pub fn resume(self, event: FlowEvent) -> (r: ProgramStep)
        requires
            event is Failed || ((self.stage == ProgramStage::AwaitWrite) <==> event is Text),
        ensures
            program_step_ok(self, event, r),
    {
        match (self.stage, event) {
            (_, FlowEvent::Failed(e)) => ProgramStep::Finish(Err(e)),
            (ProgramStage::AwaitCreate, FlowEvent::Value(_)) => {
                let url = build_object_url("PROG/P", self.program_name.as_str(), None);
                let target = url.clone();
                ProgramStep::Next(
                    CreateProgramFlow { object_url: url, stage: ProgramStage::AwaitLock, ..self },
                    FlowAction::Lock { object_url: target },
                )
            },
            (ProgramStage::AwaitLock, FlowEvent::Value(lock)) => {
                let handle = match take_lock_handle(&lock, self.tool.as_str()) {
                    Ok(h) => h,
                    Err(e) => {
                        return ProgramStep::Finish(Err(e));
                    },
                };
                let action = FlowAction::WriteSource {
                    uri: concat(self.object_url.as_str(), "/source/main"),
                    source: self.source.clone(),
                    lock_handle: handle.clone(),
                    transport: Some(self.transport.clone()),
                };
                ProgramStep::Next(CreateProgramFlow { lock_handle: handle, stage: ProgramStage::AwaitWrite, ..self }, action)
            },
            (ProgramStage::AwaitWrite, FlowEvent::Text(_)) => {
                let action = FlowAction::Unlock {
                    object_url: self.object_url.clone(),
                    lock_handle: self.lock_handle.clone(),
                };
                ProgramStep::Next(CreateProgramFlow { stage: ProgramStage::AwaitUnlock, ..self }, action)
            },
            (ProgramStage::AwaitUnlock, FlowEvent::Value(_)) => {
                let action = FlowAction::Activate {
                    object_url: self.object_url.clone(),
                    object_name: self.program_name.clone(),
                };
                ProgramStep::Next(CreateProgramFlow { stage: ProgramStage::AwaitActivation, ..self }, action)
            },
            (ProgramStage::AwaitActivation, FlowEvent::Value(v)) => ProgramStep::Finish(
                Ok(ProgramOutcome { program_name: self.program_name, object_url: self.object_url, activation: v }),
            ),
            _ => vstd::pervasive::unreached(),
        }
    }
}

} // verus!
