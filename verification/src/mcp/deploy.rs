//! Deploying an ABAP file: what its name says decides the object; the
//! object is created when missing, then written under a lock and
//! activated. A class section goes into its class.
use vstd::prelude::*;

use crate::errors::NeuroMcpError;
use crate::mcp::abapfile::{parse_abap_file_info, spec_parse_abap_file_info};
use crate::mcp::create::{invalid_arguments, CreateObjectArgs};
use crate::mcp::flow::{lock_handle_of, take_lock_handle, FlowAction, FlowEvent};
use crate::mcp::paths::{build_object_url, spec_object_url};
use crate::text::{append, concat, eq_ignore_case, lower_seq, owned, to_upper, trim, trim_seq, upper_seq};
use crate::xml::opt_text;

verus! {

/// The arguments of a deployment, each possibly missing.
#[derive(Clone, Debug, Default)]
pub struct DeployFromFileArgs {
    pub file_path: Option<String>,
    pub package_name: Option<String>,
    pub transport: Option<String>,
}

/// Where a deployment stands.
#[derive(Clone, Copy, Debug, PartialEq, Eq, Structural)]
pub enum DeployStage {
    /// Reading the file.
    AwaitFile,
    /// Locking the class that the section belongs to.
    AwaitClassLock,
    /// Creating the test-class section (its failure is ignored).
    AwaitTestSection,
    /// Writing the section.
    AwaitSectionWrite,
    /// Checking whether the object exists.
    AwaitExists,
    /// Creating the object.
    AwaitCreate,
    /// Locking the object.
    AwaitLock,
    /// Writing the source.
    AwaitWrite,
    /// Releasing the lock.
    AwaitUnlock,
    /// Activating.
    AwaitActivation,
}

/// A deployment in progress: the file, what its name says, the source
/// read from it, the object's URL, the lock handle, whether the object was
/// created, and the stage.
#[derive(Clone, Debug)]
pub struct DeployFromFileFlow {
    pub tool: String,
    pub file_path: String,
    pub package_name: Option<String>,
    pub transport: String,
    pub object_type: String,
    pub object_name: String,
    pub parent_name: Option<String>,
    pub include_type: Option<String>,
    pub source: String,
    pub object_url: String,
    pub lock_handle: String,
    pub created: bool,
    pub stage: DeployStage,
}

/// How a deployment ended, when it did not fail.
#[derive(Clone, Debug)]
pub struct DeployOutcome {
    pub file_path: String,
    pub object_name: String,
    pub object_type: String,
    /// The class section deployed, for a section file.
    pub include_type: Option<String>,
    /// The object's URL, for a whole-object file.
    pub object_url: Option<String>,
    pub created: bool,
}

/// The next step of a deployment, or its end.
#[derive(Debug)]
pub enum DeployStep {
    Next(DeployFromFileFlow, FlowAction),
    Finish(Result<DeployOutcome, NeuroMcpError>),
}

/// The error of a file that cannot be read.
pub fn file_read_error(tool_name: &str, file_path: &str, error: &str) -> (r: NeuroMcpError)
    ensures
        r matches NeuroMcpError::InvalidArguments { tool, message } && tool@ == tool_name@
            && message@ == "failed to read file `"@ + file_path@ + "`: "@ + error@,
{
    let mut message = concat("failed to read file `", file_path);
    append(&mut message, "`: ");
    append(&mut message, error);
    invalid_arguments(tool_name, message.as_str())
}

/// `g` is the deployment `f` with possibly another stage, URL, lock
/// handle and creation flag.
pub open spec fn same_deploy(f: DeployFromFileFlow, g: DeployFromFileFlow) -> bool {
    &&& g.tool == f.tool
    &&& g.file_path == f.file_path
    &&& g.package_name == f.package_name
    &&& g.transport == f.transport
    &&& g.object_type == f.object_type
    &&& g.object_name == f.object_name
    &&& g.parent_name == f.parent_name
    &&& g.include_type == f.include_type
    &&& g.source == f.source
}

/// `r` moves on to `stage` with `action`, all else kept.
pub open spec fn moves(f: DeployFromFileFlow, r: DeployStep, stage: DeployStage) -> bool {
    r matches DeployStep::Next(g, _) && same_deploy(f, g) && g.stage == stage && g.object_url
        == f.object_url && g.lock_handle == f.lock_handle && g.created == f.created
}

/// How a deployment starts: the file must be given and its name must say
/// what it holds; the file is read first.
pub open spec fn deploy_start_ok(args: DeployFromFileArgs, tool: Seq<char>, r: DeployStep) -> bool {
    match args.file_path {
        None => r matches DeployStep::Finish(Err(NeuroMcpError::InvalidArguments { tool: t, message: m }))
            && t@ == tool && m@ == "file_path is required"@,
        Some(p) => match spec_parse_abap_file_info(p@) {
            Err(m) => r matches DeployStep::Finish(Err(NeuroMcpError::InvalidArguments { tool: t, message: x }))
                && t@ == tool && x@ == m,
            Ok(info) => r matches DeployStep::Next(g, FlowAction::ReadFile { path }) && path@ == p@
                && g.tool@ == tool && g.file_path@ == p@ && opt_text(g.package_name) == opt_text(
                args.package_name,
            ) && g.transport@ == match args.transport {
                Some(t) => t@,
                None => Seq::empty(),
            } && (g.object_type@, g.object_name@, opt_text(g.parent_name), opt_text(g.include_type))
                == info && !g.created && g.stage == DeployStage::AwaitFile,
        },
    }
}

/// The arguments that create the object of a deployment: its type, name
/// and group, a description naming the file, the package (`$TMP` by
/// default, upper-cased) and the transport request when not blank.
pub open spec fn creation_args_ok(f: DeployFromFileFlow, a: CreateObjectArgs) -> bool {
    &&& opt_text(a.object_type) == Some(f.object_type@)
    &&& opt_text(a.name) == Some(f.object_name@)
    &&& opt_text(a.description) == Some("Created from file "@ + f.file_path@)
    &&& opt_text(a.package_name) == Some(upper_seq(match f.package_name {
        Some(p) => p@,
        None => "$TMP"@,
    }))
    &&& opt_text(a.transport) == (if trim_seq(f.transport@).len() == 0 {
        None
    } else {
        Some(f.transport@)
    })
    &&& opt_text(a.parent_name) == opt_text(f.parent_name)
    &&& a.responsible is None
    &&& a.software_component is None
    &&& a.service_definition is None
    &&& a.binding_type is None
    &&& a.binding_version is None
    &&& a.binding_category is None
}

/// What a deployment does with `event` at its stage. A failed step ends it
/// with that failure, except the existence check (a failure means the
/// object is missing) and the creation of a test-class section (ignored).
pub open spec fn deploy_step_ok(f: DeployFromFileFlow, event: FlowEvent, r: DeployStep) -> bool {
    match (f.stage, event) {
        (DeployStage::AwaitExists, FlowEvent::Failed(_)) => moves(f, r, DeployStage::AwaitCreate) && (r matches DeployStep::Next(_, FlowAction::CreateObject(a)) && creation_args_ok(f, a)),
        (DeployStage::AwaitTestSection, FlowEvent::Failed(_)) => moves(f, r, DeployStage::AwaitSectionWrite) && (r matches DeployStep::Next(_, FlowAction::UpdateClassInclude { class_name, include_type, source, lock_handle, transport })
            && class_name@ == f.object_name@ && include_type@ == crate::mcp::xmltext::or_empty(opt_text(f.include_type))
            && source@ == f.source@ && lock_handle@ == f.lock_handle@ && transport@ == f.transport@),
        (_, FlowEvent::Failed(e)) => r matches DeployStep::Finish(Err(x)) && x == e,
        (DeployStage::AwaitFile, FlowEvent::Text(source)) => match f.include_type {
            Some(_) => r matches DeployStep::Next(g, FlowAction::Lock { object_url: u }) && same_deploy(
                DeployFromFileFlow { source, ..f },
                g,
            ) && g.stage == DeployStage::AwaitClassLock && g.object_url@ == spec_object_url(
                "CLAS/OC"@,
                f.object_name@,
                None,
            ) && u@ == g.object_url@,
            None => r matches DeployStep::Next(g, FlowAction::ReadText { uri, accept }) && same_deploy(
                DeployFromFileFlow { source, ..f },
                g,
            ) && g.stage == DeployStage::AwaitExists && g.object_url@ == spec_object_url(
                f.object_type@,
                f.object_name@,
                opt_text(f.parent_name),
            ) && uri@ == g.object_url@ && accept@ == "application/xml"@,
        },
        (DeployStage::AwaitClassLock, FlowEvent::Value(lock)) => match lock_handle_of(lock) {
            None => r matches DeployStep::Finish(Err(NeuroMcpError::InvalidArguments { tool, message }))
                && tool@ == f.tool@ && message@ == "LockObject did not return lockHandle"@,
            Some(h) => r matches DeployStep::Next(g, action) && same_deploy(f, g) && g.object_url
                == f.object_url && g.lock_handle@ == h && if f.include_type matches Some(i) && lower_seq(
                i@,
            ) == lower_seq("testclasses"@) {
                g.stage == DeployStage::AwaitTestSection && (action matches FlowAction::CreateTestInclude {
                    class_name,
                    lock_handle,
                    transport,
                } && class_name@ == f.object_name@ && lock_handle@ == h && transport@ == f.transport@)
            } else {
                g.stage == DeployStage::AwaitSectionWrite && (action matches FlowAction::UpdateClassInclude {
                    class_name,
                    include_type,
                    source,
                    lock_handle,
                    transport,
                } && class_name@ == f.object_name@ && include_type@ == crate::mcp::xmltext::or_empty(opt_text(f.include_type))
                    && source@ == f.source@ && lock_handle@ == h && transport@ == f.transport@)
            },
        },
        (DeployStage::AwaitTestSection, FlowEvent::Value(_)) => moves(f, r, DeployStage::AwaitSectionWrite) && (r matches DeployStep::Next(_, FlowAction::UpdateClassInclude { class_name, include_type, source, lock_handle, transport })
            && class_name@ == f.object_name@ && include_type@ == crate::mcp::xmltext::or_empty(opt_text(f.include_type))
            && source@ == f.source@ && lock_handle@ == f.lock_handle@ && transport@ == f.transport@),
        (DeployStage::AwaitSectionWrite, FlowEvent::Value(_)) => moves(f, r, DeployStage::AwaitUnlock) && (r matches DeployStep::Next(_, FlowAction::Unlock { object_url, lock_handle })
            && object_url@ == f.object_url@ && lock_handle@ == f.lock_handle@),
        (DeployStage::AwaitExists, FlowEvent::Text(_)) => moves(f, r, DeployStage::AwaitLock) && (r matches DeployStep::Next(_, FlowAction::Lock { object_url }) && object_url@
            == f.object_url@),
        (DeployStage::AwaitCreate, FlowEvent::Value(_)) => r matches DeployStep::Next(
            g,
            FlowAction::Lock { object_url },
        ) && same_deploy(f, g) && g.stage == DeployStage::AwaitLock && g.object_url == f.object_url
            && g.created && object_url@ == f.object_url@,
        (DeployStage::AwaitLock, FlowEvent::Value(lock)) => match lock_handle_of(lock) {
            None => r matches DeployStep::Finish(Err(NeuroMcpError::InvalidArguments { tool, message }))
                && tool@ == f.tool@ && message@ == "LockObject did not return lockHandle"@,
            Some(h) => r matches DeployStep::Next(g, FlowAction::WriteSource { uri, source, lock_handle, transport })
                && same_deploy(f, g) && g.stage == DeployStage::AwaitWrite && g.object_url
                == f.object_url && g.created == f.created && g.lock_handle@ == h && uri@
                == f.object_url@ + "/source/main"@ && source@ == f.source@ && lock_handle@ == h
                && opt_text(transport) == Some(f.transport@),
        },
        (DeployStage::AwaitWrite, FlowEvent::Text(_)) => moves(f, r, DeployStage::AwaitUnlock) && (r matches DeployStep::Next(_, FlowAction::Unlock { object_url, lock_handle })
            && object_url@ == f.object_url@ && lock_handle@ == f.lock_handle@),
        (DeployStage::AwaitUnlock, FlowEvent::Value(_)) => moves(f, r, DeployStage::AwaitActivation) && (r matches DeployStep::Next(_, FlowAction::Activate { object_url, object_name })
            && object_url@ == f.object_url@ && object_name@ == f.object_name@),
        (DeployStage::AwaitActivation, FlowEvent::Value(_)) => r matches DeployStep::Finish(Ok(o))
            && o.file_path@ == f.file_path@ && o.object_name@ == f.object_name@ && o.object_type@
            == f.object_type@ && opt_text(o.include_type) == opt_text(f.include_type) && match f.include_type {
            Some(_) => o.object_url is None && !o.created,
            None => opt_text(o.object_url) == Some(f.object_url@) && o.created == f.created,
        },
        _ => true,
    }
}

/// The events each stage waits on: a text from the file read, the
/// existence check and the write; a tool result otherwise.
pub open spec fn deploy_awaits_text(stage: DeployStage) -> bool {
    stage == DeployStage::AwaitFile || stage == DeployStage::AwaitExists || stage
        == DeployStage::AwaitWrite
}

impl DeployFromFileFlow {
    /// Starts a deployment.
    pub fn start(args: DeployFromFileArgs, tool_name: &str) -> (r: DeployStep)
        ensures
            deploy_start_ok(args, tool_name@, r),
    {
        let file_path = match args.file_path {
            Some(p) => p,
            None => {
                return DeployStep::Finish(Err(invalid_arguments(tool_name, "file_path is required")));
            },
        };
        let info = match parse_abap_file_info(file_path.as_str(), tool_name) {
            Ok(i) => i,
            Err(e) => {
                return DeployStep::Finish(Err(e));
            },
        };
        let transport = match args.transport {
            Some(t) => t,
            None => String::new(),
        };
        let path = file_path.clone();
        let flow = DeployFromFileFlow {
            tool: owned(tool_name),
            file_path,
            package_name: args.package_name,
            transport,
            object_type: info.object_type,
            object_name: info.object_name,
            parent_name: info.parent_name,
            include_type: info.include_type,
            source: String::new(),
            object_url: String::new(),
            lock_handle: String::new(),
            created: false,
            stage: DeployStage::AwaitFile,
        };
        DeployStep::Next(flow, FlowAction::ReadFile { path })
    }

    /// The step that writes the class section.
    fn section_write(self) -> (r: DeployStep)
        ensures
            moves(self, r, DeployStage::AwaitSectionWrite),
            r matches DeployStep::Next(_, FlowAction::UpdateClassInclude { class_name, include_type, source, lock_handle, transport })
                && class_name@ == self.object_name@ && include_type@ == crate::mcp::xmltext::or_empty(opt_text(self.include_type))
                && source@ == self.source@ && lock_handle@ == self.lock_handle@ && transport@ == self.transport@,
    {
        let include_type = match &self.include_type {
            Some(i) => i.clone(),
            None => String::new(),
        };
        let action = FlowAction::UpdateClassInclude {
            class_name: self.object_name.clone(),
            include_type,
            source: self.source.clone(),
            lock_handle: self.lock_handle.clone(),
            transport: self.transport.clone(),
        };
        DeployStep::Next(DeployFromFileFlow { stage: DeployStage::AwaitSectionWrite, ..self }, action)
    }

    /// The step that releases the lock.
    fn unlock(self) -> (r: DeployStep)
        ensures
            moves(self, r, DeployStage::AwaitUnlock),
            r matches DeployStep::Next(_, FlowAction::Unlock { object_url, lock_handle })
                && object_url@ == self.object_url@ && lock_handle@ == self.lock_handle@,
    {
        let action = FlowAction::Unlock {
            object_url: self.object_url.clone(),
            lock_handle: self.lock_handle.clone(),
        };
        DeployStep::Next(DeployFromFileFlow { stage: DeployStage::AwaitUnlock, ..self }, action)
    }

    /// Takes the outcome of the awaited step and says what comes next.
    pub fn resume(self, event: FlowEvent) -> (r: DeployStep)
        requires
            event is Failed || (deploy_awaits_text(self.stage) <==> event is Text),
        ensures
            deploy_step_ok(self, event, r),
    {
        match (self.stage, event) {
            (DeployStage::AwaitExists, FlowEvent::Failed(_)) => {
                let transport = if trim(self.transport.as_str()).as_str().is_empty() {
                    None
                } else {
                    Some(self.transport.clone())
                };
                let package = match &self.package_name {
                    Some(p) => to_upper(p.as_str()),
                    None => to_upper("$TMP"),
                };
                let args = CreateObjectArgs {
                    object_type: Some(self.object_type.clone()),
                    name: Some(self.object_name.clone()),
                    description: Some(concat("Created from file ", self.file_path.as_str())),
                    package_name: Some(package),
                    transport,
                    parent_name: self.parent_name.clone(),
                    responsible: None,
                    software_component: None,
                    service_definition: None,
                    binding_type: None,
                    binding_version: None,
                    binding_category: None,
                };
                DeployStep::Next(DeployFromFileFlow { stage: DeployStage::AwaitCreate, ..self }, FlowAction::CreateObject(args))
            },
            (DeployStage::AwaitTestSection, FlowEvent::Failed(_)) => self.section_write(),
            (_, FlowEvent::Failed(e)) => DeployStep::Finish(Err(e)),
            (DeployStage::AwaitFile, FlowEvent::Text(source)) => match &self.include_type {
                Some(_) => {
                    let url = build_object_url("CLAS/OC", self.object_name.as_str(), None);
                    let target = url.clone();
                    let flow = DeployFromFileFlow {
                        source,
                        object_url: url,
                        stage: DeployStage::AwaitClassLock,
                        ..self
                    };
                    DeployStep::Next(flow, FlowAction::Lock { object_url: target })
                },
                None => {
                    let parent: Option<&str> = match &self.parent_name {
                        Some(p) => Some(p.as_str()),
                        None => None,
                    };
                    let url = build_object_url(self.object_type.as_str(), self.object_name.as_str(), parent);
                    let target = url.clone();
                    let flow = DeployFromFileFlow {
                        source,
                        object_url: url,
                        stage: DeployStage::AwaitExists,
                        ..self
                    };
                    DeployStep::Next(flow, FlowAction::ReadText { uri: target, accept: owned("application/xml") })
                },
            },
            (DeployStage::AwaitClassLock, FlowEvent::Value(lock)) => {
                let handle = match take_lock_handle(&lock, self.tool.as_str()) {
                    Ok(h) => h,
                    Err(e) => {
                        return DeployStep::Finish(Err(e));
                    },
                };
                let testclasses = match &self.include_type {
                    Some(i) => eq_ignore_case(i.as_str(), "testclasses"),
                    None => false,
                };
                let flow = DeployFromFileFlow { lock_handle: handle, ..self };
                if testclasses {
                    let action = FlowAction::CreateTestInclude {
                        class_name: flow.object_name.clone(),
                        lock_handle: flow.lock_handle.clone(),
                        transport: flow.transport.clone(),
                    };
                    DeployStep::Next(DeployFromFileFlow { stage: DeployStage::AwaitTestSection, ..flow }, action)
                } else {
                    flow.section_write()
                }
            },
            (DeployStage::AwaitTestSection, FlowEvent::Value(_)) => self.section_write(),
            (DeployStage::AwaitSectionWrite, FlowEvent::Value(_)) => self.unlock(),
            (DeployStage::AwaitExists, FlowEvent::Text(_)) => {
                let target = self.object_url.clone();
                DeployStep::Next(DeployFromFileFlow { stage: DeployStage::AwaitLock, ..self }, FlowAction::Lock { object_url: target })
            },
            (DeployStage::AwaitCreate, FlowEvent::Value(_)) => {
                let target = self.object_url.clone();
                DeployStep::Next(
                    DeployFromFileFlow { stage: DeployStage::AwaitLock, created: true, ..self },
                    FlowAction::Lock { object_url: target },
                )
            },
            (DeployStage::AwaitLock, FlowEvent::Value(lock)) => {
                let handle = match take_lock_handle(&lock, self.tool.as_str()) {
                    Ok(h) => h,
                    Err(e) => {
                        return DeployStep::Finish(Err(e));
                    },
                };
                let action = FlowAction::WriteSource {
                    uri: concat(self.object_url.as_str(), "/source/main"),
                    source: self.source.clone(),
                    lock_handle: handle.clone(),
                    transport: Some(self.transport.clone()),
                };
                DeployStep::Next(DeployFromFileFlow { lock_handle: handle, stage: DeployStage::AwaitWrite, ..self }, action)
            },
            (DeployStage::AwaitWrite, FlowEvent::Text(_)) => self.unlock(),
            (DeployStage::AwaitUnlock, FlowEvent::Value(_)) => {
                let action = FlowAction::Activate {
                    object_url: self.object_url.clone(),
                    object_name: self.object_name.clone(),
                };
                DeployStep::Next(DeployFromFileFlow { stage: DeployStage::AwaitActivation, ..self }, action)
            },
            (DeployStage::AwaitActivation, FlowEvent::Value(_)) => {
                let (object_url, created) = match &self.include_type {
                    Some(_) => (None, false),
                    None => (Some(self.object_url), self.created),
                };
                DeployStep::Finish(
                    Ok(
                        DeployOutcome {
                            file_path: self.file_path,
                            object_name: self.object_name,
                            object_type: self.object_type,
                            include_type: self.include_type,
                            object_url,
                            created,
                        },
                    ),
                )
            },
            _ => vstd::pervasive::unreached(),
        }
    }
}

} // verus!
