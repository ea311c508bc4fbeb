//! Creating a class together with its unit tests: create, write the class
//! and its test section under one lock, activate, then run the tests.
use vstd::prelude::*;

use crate::errors::{mcp_error_message, NeuroMcpError};
use crate::json::JsonValue;
use crate::mcp::create::{invalid_arguments, CreateObjectArgs};
use crate::mcp::flow::{lock_handle_of, take_lock_handle, FlowAction, FlowEvent};
use crate::mcp::paths::{build_object_url, canon, spec_object_url};
use crate::text::{concat, owned, to_upper, trim, trim_seq};
use crate::xml::opt_text;

verus! {

/// The arguments of a class with tests, each possibly missing.
#[derive(Clone, Debug, Default)]
pub struct CreateClassWithTestsArgs {
    pub class_name: Option<String>,
    pub description: Option<String>,
    pub package_name: Option<String>,
    pub class_source: Option<String>,
    pub test_source: Option<String>,
    pub transport: Option<String>,
}

/// Where the creation stands.
#[derive(Clone, Copy, Debug, PartialEq, Eq, Structural)]
pub enum ClassTestsStage {
    AwaitCreate,
    AwaitLock,
    AwaitClassWrite,
    AwaitTestSection,
    AwaitTestWrite,
    AwaitUnlock,
    AwaitActivation,
    AwaitTests,
}

/// A class creation in progress: the upper-cased class name, its sources,
/// the transport request, the class URL, the lock handle and the
/// activation result.
#[derive(Debug)]
pub struct CreateClassWithTestsFlow {
    pub tool: String,
    pub class_name: String,
    pub class_source: String,
    pub test_source: String,
    pub transport: String,
    pub object_url: String,
    pub lock_handle: String,
    pub activation: JsonValue,
    pub stage: ClassTestsStage,
}

/// What a finished creation reports; the tests' failure is reported by
/// its message rather than failing the call.
#[derive(Debug)]
pub struct ClassTestsOutcome {
    pub class_name: String,
    pub object_url: String,
    pub activation: JsonValue,
    pub unit_tests: Result<JsonValue, String>,
}

/// The next step of the creation, or its end.
#[derive(Debug)]
pub enum ClassTestsStep {
    Next(CreateClassWithTestsFlow, FlowAction),
    Finish(Result<ClassTestsOutcome, NeuroMcpError>),
}

/// `r` refuses the call for `tool` with `message`.
pub open spec fn class_refuses(r: ClassTestsStep, tool: Seq<char>, message: Seq<char>) -> bool {
    r matches ClassTestsStep::Finish(Err(NeuroMcpError::InvalidArguments { tool: t, message: m }))
        && t@ == tool && m@ == message
}

/// How the creation starts: name, description, package, class source and
/// test source must be given; the class (upper-cased name) is created in
/// the upper-cased package, under the transport request when not blank.
pub open spec fn class_start_ok(args: CreateClassWithTestsArgs, tool: Seq<char>, r: ClassTestsStep) -> bool {
    match (args.class_name, args.description, args.package_name, args.class_source, args.test_source) {
        (None, _, _, _, _) => class_refuses(r, tool, "class_name is required"@),
        (Some(_), None, _, _, _) => class_refuses(r, tool, "description is required"@),
        (Some(_), Some(_), None, _, _) => class_refuses(r, tool, "package_name is required"@),
        (Some(_), Some(_), Some(_), None, _) => class_refuses(r, tool, "class_source is required"@),
        (Some(_), Some(_), Some(_), Some(_), None) => class_refuses(r, tool, "test_source is required"@),
        (Some(n), Some(d), Some(p), Some(cs), Some(ts)) => {
            let transport = match args.transport {
                Some(t) => t@,
                None => Seq::empty(),
            };
            r matches ClassTestsStep::Next(g, FlowAction::CreateObject(a)) && g.tool@ == tool
                && g.class_name@ == canon(n@) && g.class_source@ == cs@ && g.test_source@ == ts@
                && g.transport@ == transport && g.stage == ClassTestsStage::AwaitCreate && opt_text(
                a.object_type,
            ) == Some("CLAS/OC"@) && opt_text(a.name) == Some(canon(n@)) && opt_text(a.description)
                == Some(d@) && opt_text(a.package_name) == Some(canon(p@)) && opt_text(a.transport)
                == (if trim_seq(transport).len() == 0 {
                None
            } else {
                Some(transport)
            }) && a.parent_name is None && a.responsible is None && a.software_component is None
                && a.service_definition is None && a.binding_type is None && a.binding_version is None
                && a.binding_category is None
        },
    }
}

/// `g` is the creation `f` at another stage.
pub open spec fn same_class(f: CreateClassWithTestsFlow, g: CreateClassWithTestsFlow) -> bool {
    &&& g.tool == f.tool
    &&& g.class_name == f.class_name
    &&& g.class_source == f.class_source
    &&& g.test_source == f.test_source
    &&& g.transport == f.transport
    &&& g.object_url == f.object_url
}

/// `r` moves on to `stage` with everything else kept.
pub open spec fn class_moves(f: CreateClassWithTestsFlow, r: ClassTestsStep, stage: ClassTestsStage) -> bool {
    r matches ClassTestsStep::Next(g, _) && same_class(f, g) && g.lock_handle == f.lock_handle
        && g.activation == f.activation && g.stage == stage
}

/// What the creation does with `event` at its stage: a failed step ends it
/// with that failure, but for the test run, whose failure is reported.
pub open spec fn class_step_ok(f: CreateClassWithTestsFlow, event: FlowEvent, r: ClassTestsStep) -> bool {
    match (f.stage, event) {
        (ClassTestsStage::AwaitTests, FlowEvent::Failed(e)) => r matches ClassTestsStep::Finish(Ok(o))
            && o.class_name == f.class_name && o.object_url == f.object_url && o.activation
            == f.activation && (o.unit_tests matches Err(m) && (mcp_error_message(e) matches Some(x)
            ==> m@ == x)),
        (_, FlowEvent::Failed(e)) => r matches ClassTestsStep::Finish(Err(x)) && x == e,
        (ClassTestsStage::AwaitCreate, FlowEvent::Value(_)) => r matches ClassTestsStep::Next(
            g,
            FlowAction::Lock { object_url },
        ) && g.tool == f.tool && g.class_name == f.class_name && g.class_source == f.class_source
            && g.test_source == f.test_source && g.transport == f.transport && g.stage
            == ClassTestsStage::AwaitLock && g.object_url@ == spec_object_url(
            "CLAS/OC"@,
            f.class_name@,
            None,
        ) && object_url@ == g.object_url@,
        (ClassTestsStage::AwaitLock, FlowEvent::Value(lock)) => match lock_handle_of(lock) {
            None => class_refuses(r, f.tool@, "LockObject did not return lockHandle"@),
            Some(h) => r matches ClassTestsStep::Next(
                g,
                FlowAction::WriteSource { uri, source, lock_handle, transport },
            ) && same_class(f, g) && g.lock_handle@ == h && g.stage == ClassTestsStage::AwaitClassWrite
                && uri@ == f.object_url@ + "/source/main"@ && source@ == f.class_source@
                && lock_handle@ == h && opt_text(transport) == Some(f.transport@),
        },
        (ClassTestsStage::AwaitClassWrite, FlowEvent::Text(_)) => class_moves(
            f,
            r,
            ClassTestsStage::AwaitTestSection,
        ) && (r matches ClassTestsStep::Next(_, FlowAction::CreateTestInclude { class_name, lock_handle, transport })
            && class_name@ == f.class_name@ && lock_handle@ == f.lock_handle@ && transport@
            == f.transport@),
        (ClassTestsStage::AwaitTestSection, FlowEvent::Value(_)) => class_moves(
            f,
            r,
            ClassTestsStage::AwaitTestWrite,
        ) && (r matches ClassTestsStep::Next(
            _,
            FlowAction::UpdateClassInclude { class_name, include_type, source, lock_handle, transport },
        ) && class_name@ == f.class_name@ && include_type@ == "testclasses"@ && source@
            == f.test_source@ && lock_handle@ == f.lock_handle@ && transport@ == f.transport@),
        (ClassTestsStage::AwaitTestWrite, FlowEvent::Value(_)) => class_moves(
            f,
            r,
            ClassTestsStage::AwaitUnlock,
        ) && (r matches ClassTestsStep::Next(_, FlowAction::Unlock { object_url, lock_handle })
            && object_url@ == f.object_url@ && lock_handle@ == f.lock_handle@),
        (ClassTestsStage::AwaitUnlock, FlowEvent::Value(_)) => class_moves(
            f,
            r,
            ClassTestsStage::AwaitActivation,
        ) && (r matches ClassTestsStep::Next(_, FlowAction::Activate { object_url, object_name })
            && object_url@ == f.object_url@ && object_name@ == f.class_name@),
        (ClassTestsStage::AwaitActivation, FlowEvent::Value(v)) => r matches ClassTestsStep::Next(
            g,
            FlowAction::RunUnitTests { object_url },
        ) && same_class(f, g) && g.lock_handle == f.lock_handle && g.activation == v && g.stage
            == ClassTestsStage::AwaitTests && object_url@ == f.object_url@,
        (ClassTestsStage::AwaitTests, FlowEvent::Value(v)) => r matches ClassTestsStep::Finish(Ok(o))
            && o.class_name == f.class_name && o.object_url == f.object_url && o.activation
            == f.activation && o.unit_tests == Ok::<JsonValue, String>(v),
        _ => true,
    }
}

impl CreateClassWithTestsFlow {
    /// Starts the creation.
    pub fn start(args: CreateClassWithTestsArgs, tool_name: &str) -> (r: ClassTestsStep)
        ensures
            class_start_ok(args, tool_name@, r),
    {
        let class_name = match args.class_name {
            Some(n) => n,
            None => {
                return ClassTestsStep::Finish(Err(invalid_arguments(tool_name, "class_name is required")));
            },
        };
        let description = match args.description {
            Some(d) => d,
            None => {
                return ClassTestsStep::Finish(Err(invalid_arguments(tool_name, "description is required")));
            },
        };
        let package_name = match args.package_name {
            Some(p) => p,
            None => {
                return ClassTestsStep::Finish(Err(invalid_arguments(tool_name, "package_name is required")));
            },
        };
        let class_source = match args.class_source {
            Some(s) => s,
            None => {
                return ClassTestsStep::Finish(Err(invalid_arguments(tool_name, "class_source is required")));
            },
        };
        let test_source = match args.test_source {
            Some(s) => s,
            None => {
                return ClassTestsStep::Finish(Err(invalid_arguments(tool_name, "test_source is required")));
            },
        };
        let transport = match args.transport {
            Some(t) => t,
            None => String::new(),
        };
        let class_name = to_upper(trim(class_name.as_str()).as_str());
        let create = CreateObjectArgs {
            object_type: Some(owned("CLAS/OC")),
            name: Some(class_name.clone()),
            description: Some(description),
            package_name: Some(to_upper(trim(package_name.as_str()).as_str())),
            transport: if trim(transport.as_str()).as_str().is_empty() {
                None
            } else {
                Some(transport.clone())
            },
            parent_name: None,
            responsible: None,
            software_component: None,
            service_definition: None,
            binding_type: None,
            binding_version: None,
            binding_category: None,
        };
        let flow = CreateClassWithTestsFlow {
            tool: owned(tool_name),
            class_name,
            class_source,
            test_source,
            transport,
            object_url: String::new(),
            lock_handle: String::new(),
            activation: JsonValue::Null,
            stage: ClassTestsStage::AwaitCreate,
        };
        ClassTestsStep::Next(flow, FlowAction::CreateObject(create))
    }

    /// Takes the outcome of the awaited step and says what comes next.
    pub fn resume(self, event: FlowEvent) -> (r: ClassTestsStep)
        requires
            event is Failed || ((self.stage == ClassTestsStage::AwaitClassWrite) <==> event is Text),
        ensures
            class_step_ok(self, event, r),
    {
        match (self.stage, event) {
            (ClassTestsStage::AwaitTests, FlowEvent::Failed(e)) => ClassTestsStep::Finish(
                Ok(
                    ClassTestsOutcome {
                        class_name: self.class_name,
                        object_url: self.object_url,
                        activation: self.activation,
                        unit_tests: Err(e.message()),
                    },
                ),
            ),
            (_, FlowEvent::Failed(e)) => ClassTestsStep::Finish(Err(e)),
            (ClassTestsStage::AwaitCreate, FlowEvent::Value(_)) => {
                let url = build_object_url("CLAS/OC", self.class_name.as_str(), None);
                let target = url.clone();
                ClassTestsStep::Next(
                    CreateClassWithTestsFlow { object_url: url, stage: ClassTestsStage::AwaitLock, ..self },
                    FlowAction::Lock { object_url: target },
                )
            },
            (ClassTestsStage::AwaitLock, FlowEvent::Value(lock)) => {
                let handle = match take_lock_handle(&lock, self.tool.as_str()) {
                    Ok(h) => h,
                    Err(e) => {
                        return ClassTestsStep::Finish(Err(e));
                    },
                };
                let action = FlowAction::WriteSource {
                    uri: concat(self.object_url.as_str(), "/source/main"),
                    source: self.class_source.clone(),
                    lock_handle: handle.clone(),
                    transport: Some(self.transport.clone()),
                };
                ClassTestsStep::Next(
                    CreateClassWithTestsFlow { lock_handle: handle, stage: ClassTestsStage::AwaitClassWrite, ..self },
                    action,
                )
            },
            (ClassTestsStage::AwaitClassWrite, FlowEvent::Text(_)) => {
                let action = FlowAction::CreateTestInclude {
                    class_name: self.class_name.clone(),
                    lock_handle: self.lock_handle.clone(),
                    transport: self.transport.clone(),
                };
                ClassTestsStep::Next(CreateClassWithTestsFlow { stage: ClassTestsStage::AwaitTestSection, ..self }, action)
            },
            (ClassTestsStage::AwaitTestSection, FlowEvent::Value(_)) => {
                let action = FlowAction::UpdateClassInclude {
                    class_name: self.class_name.clone(),
                    include_type: owned("testclasses"),
                    source: self.test_source.clone(),
                    lock_handle: self.lock_handle.clone(),
                    transport: self.transport.clone(),
                };
                ClassTestsStep::Next(CreateClassWithTestsFlow { stage: ClassTestsStage::AwaitTestWrite, ..self }, action)
            },
            (ClassTestsStage::AwaitTestWrite, FlowEvent::Value(_)) => {
                let action = FlowAction::Unlock {
                    object_url: self.object_url.clone(),
                    lock_handle: self.lock_handle.clone(),
                };
                ClassTestsStep::Next(CreateClassWithTestsFlow { stage: ClassTestsStage::AwaitUnlock, ..self }, action)
            },
            (ClassTestsStage::AwaitUnlock, FlowEvent::Value(_)) => {
                let action = FlowAction::Activate {
                    object_url: self.object_url.clone(),
                    object_name: self.class_name.clone(),
                };
                ClassTestsStep::Next(CreateClassWithTestsFlow { stage: ClassTestsStage::AwaitActivation, ..self }, action)
            },
            (ClassTestsStage::AwaitActivation, FlowEvent::Value(v)) => {
                let action = FlowAction::RunUnitTests { object_url: self.object_url.clone() };
                ClassTestsStep::Next(
                    CreateClassWithTestsFlow { activation: v, stage: ClassTestsStage::AwaitTests, ..self },
                    action,
                )
            },
            (ClassTestsStage::AwaitTests, FlowEvent::Value(v)) => ClassTestsStep::Finish(
                Ok(
                    ClassTestsOutcome {
                        class_name: self.class_name,
                        object_url: self.object_url,
                        activation: self.activation,
                        unit_tests: Ok(v),
                    },
                ),
            ),
            _ => vstd::pervasive::unreached(),
        }
    }
}

} // verus!
