//! Copying an object under a new name, and renaming one by copying it and
//! deleting the old one.
use vstd::prelude::*;

use crate::errors::NeuroMcpError;
use crate::json::JsonValue;
use crate::mcp::create::{invalid_arguments, CreateObjectArgs};
use crate::mcp::flow::{lock_handle_of, take_lock_handle, FlowAction, FlowEvent};
use crate::mcp::paths::{
    build_object_url, canon, normalize_creatable_type, resolve_source_uri, spec_normalize_creatable_type,
    spec_object_url, spec_resolve_source_uri,
};
use crate::mcp::pattern::{build_error, escape, regex_build_error, regex_escaped, regex_replacement, replace};
use crate::text::{append, concat, owned, str_eq, to_upper, trim, upper_seq};
use crate::xml::opt_text;

verus! {

/// The arguments of a copy, each possibly missing.
#[derive(Clone, Debug, Default)]
pub struct CloneObjectArgs {
    pub object_type: Option<String>,
    pub source_name: Option<String>,
    pub target_name: Option<String>,
    pub package: Option<String>,
}

/// Where a copy stands.
#[derive(Clone, Copy, Debug, PartialEq, Eq, Structural)]
pub enum CloneStage {
    AwaitSource,
    AwaitCreate,
    AwaitLock,
    AwaitWrite,
    AwaitUnlock,
    AwaitActivation,
}

/// A copy in progress: the arguments as given, the source and target
/// names (trimmed, upper-cased), the long type to create, the copied
/// source, the new object's URL and lock handle.
#[derive(Clone, Debug)]
pub struct CloneObjectFlow {
    pub tool: String,
    pub object_type: String,
    pub package: String,
    pub source_upper: String,
    pub target_upper: String,
    pub create_type: String,
    pub cloned_source: String,
    pub object_url: String,
    pub lock_handle: String,
    pub stage: CloneStage,
}

/// What a finished copy reports.
#[derive(Clone, Debug)]
pub struct CloneOutcome {
    pub source_name: String,
    pub target_name: String,
    pub object_type: String,
    pub package: String,
}

/// The next step of a copy, or its end.
#[derive(Debug)]
pub enum CloneStep {
    Next(CloneObjectFlow, FlowAction),
    Finish(Result<CloneOutcome, NeuroMcpError>),
}

/// `r` refuses the call for `tool` with `message`.
pub open spec fn clone_refuses(r: CloneStep, tool: Seq<char>, message: Seq<char>) -> bool {
    r matches CloneStep::Finish(Err(NeuroMcpError::InvalidArguments { tool: t, message: m })) && t@
        == tool && m@ == message
}

/// The pattern that finds the declaration of the copied object in its
/// source: the keyword that opens it for a program, class or interface,
/// then the old name; `None` for other types.
pub open spec fn declaration_pattern(object_type: Seq<char>, source_upper: Seq<char>) -> Option<Seq<char>> {
    let t = canon(object_type);
    if t == "PROG"@ || t == "PROG/P"@ {
        Some("(?i)(REPORT\\s+)"@ + regex_escaped(source_upper))
    } else if t == "CLAS"@ || t == "CLAS/OC"@ {
        Some("(?i)(CLASS\\s+)"@ + regex_escaped(source_upper))
    } else if t == "INTF"@ || t == "INTF/OI"@ {
        Some("(?i)(INTERFACE\\s+)"@ + regex_escaped(source_upper))
    } else {
        None
    }
}

/// How a copy starts: type, source name, target name and package must be
/// given, and the type must have a source; the source is read first.
pub open spec fn clone_start_ok(args: CloneObjectArgs, tool: Seq<char>, r: CloneStep) -> bool {
    match (args.object_type, args.source_name, args.target_name, args.package) {
        (None, _, _, _) => clone_refuses(r, tool, "object_type is required"@),
        (Some(_), None, _, _) => clone_refuses(r, tool, "source_name is required"@),
        (Some(_), Some(_), None, _) => clone_refuses(r, tool, "target_name is required"@),
        (Some(_), Some(_), Some(_), None) => clone_refuses(r, tool, "package is required"@),
        (Some(t), Some(s), Some(n), Some(p)) => match spec_resolve_source_uri(t@, s@, None, None) {
            None => clone_refuses(r, tool, "unsupported object_type `"@ + t@ + "`"@),
            Some(uri) => r matches CloneStep::Next(g, FlowAction::ReadText { uri: u, accept })
                && u@ == uri && accept@ == "text/plain"@ && g.tool@ == tool && g.object_type@ == t@
                && g.package@ == p@ && g.source_upper@ == canon(s@) && g.target_upper@ == canon(n@)
                && g.stage == CloneStage::AwaitSource,
        },
    }
}

/// `g` is the copy `f`, possibly at another stage with another URL and
/// lock handle.
pub open spec fn same_clone(f: CloneObjectFlow, g: CloneObjectFlow) -> bool {
    &&& g.tool == f.tool
    &&& g.object_type == f.object_type
    &&& g.package == f.package
    &&& g.source_upper == f.source_upper
    &&& g.target_upper == f.target_upper
    &&& g.create_type == f.create_type
    &&& g.cloned_source == f.cloned_source
}

/// What a copy does with `event` at its stage; a failed step ends it with
/// that failure.
pub open spec fn clone_step_ok(f: CloneObjectFlow, event: FlowEvent, r: CloneStep) -> bool {
    match event {
        FlowEvent::Failed(e) => r matches CloneStep::Finish(Err(x)) && x == e,
        FlowEvent::Text(source) => match f.stage {
            CloneStage::AwaitSource => match declaration_pattern(f.object_type@, f.source_upper@) {
                None => clone_refuses(r, f.tool@, "CloneObject currently supports PROG, CLAS, INTF"@),
                Some(pattern) => match regex_build_error(pattern, false) {
                    Some(m) => clone_refuses(r, f.tool@, "failed to build clone regex: "@ + m),
                    None => match spec_normalize_creatable_type(f.object_type@) {
                        None => clone_refuses(
                            r,
                            f.tool@,
                            "unsupported object_type `"@ + f.object_type@ + "`"@,
                        ),
                        Some(create_type) => r matches CloneStep::Next(g, FlowAction::CreateObject(a))
                            && g.tool == f.tool && g.object_type == f.object_type && g.package
                            == f.package && g.source_upper == f.source_upper && g.target_upper
                            == f.target_upper && g.create_type@ == create_type && g.cloned_source@
                            == regex_replacement(
                            pattern,
                            false,
                            source@,
                            "${1}"@ + f.target_upper@,
                            true,
                        ) && g.stage == CloneStage::AwaitCreate && opt_text(a.object_type) == Some(
                            create_type,
                        ) && opt_text(a.name) == Some(f.target_upper@) && opt_text(a.description)
                            == Some("Copy of "@ + f.source_upper@) && opt_text(a.package_name) == Some(
                            canon(f.package@),
                        ) && a.transport is None && a.parent_name is None && a.responsible is None
                            && a.software_component is None && a.service_definition is None
                            && a.binding_type is None && a.binding_version is None
                            && a.binding_category is None,
                    },
                },
            },
            CloneStage::AwaitWrite => r matches CloneStep::Next(g, FlowAction::Unlock { object_url, lock_handle })
                && same_clone(f, g) && g.object_url == f.object_url && g.lock_handle == f.lock_handle
                && g.stage == CloneStage::AwaitUnlock && object_url@ == f.object_url@ && lock_handle@
                == f.lock_handle@,
            _ => true,
        },
        FlowEvent::Value(v) => match f.stage {
            CloneStage::AwaitCreate => r matches CloneStep::Next(g, FlowAction::Lock { object_url })
                && same_clone(f, g) && g.stage == CloneStage::AwaitLock && g.object_url@
                == spec_object_url(f.create_type@, f.target_upper@, None) && object_url@
                == g.object_url@,
            CloneStage::AwaitLock => match lock_handle_of(v) {
                None => clone_refuses(r, f.tool@, "LockObject did not return lockHandle"@),
                Some(h) => r matches CloneStep::Next(
                    g,
                    FlowAction::WriteSource { uri, source, lock_handle, transport },
                ) && same_clone(f, g) && g.object_url == f.object_url && g.lock_handle@ == h
                    && g.stage == CloneStage::AwaitWrite && uri@ == f.object_url@ + "/source/main"@
                    && source@ == f.cloned_source@ && lock_handle@ == h && transport is None,
            },
            CloneStage::AwaitUnlock => r matches CloneStep::Next(
                g,
                FlowAction::Activate { object_url, object_name },
            ) && same_clone(f, g) && g.object_url == f.object_url && g.lock_handle == f.lock_handle
                && g.stage == CloneStage::AwaitActivation && object_url@ == f.object_url@ && object_name@
                == f.target_upper@,
            CloneStage::AwaitActivation => r matches CloneStep::Finish(Ok(o)) && o.source_name@
                == f.source_upper@ && o.target_name@ == f.target_upper@ && o.object_type@
                == f.object_type@ && o.package@ == f.package@,
            _ => true,
        },
    }
}

/// The stages that wait on a text: the source read and the write.
pub open spec fn clone_awaits_text(stage: CloneStage) -> bool {
    stage == CloneStage::AwaitSource || stage == CloneStage::AwaitWrite
}

impl CloneObjectFlow {
    /// Starts a copy.
    pub fn start(args: CloneObjectArgs, tool_name: &str) -> (r: CloneStep)
        ensures
            clone_start_ok(args, tool_name@, r),
    {
        let object_type = match args.object_type {
            Some(t) => t,
            None => {
                return CloneStep::Finish(Err(invalid_arguments(tool_name, "object_type is required")));
            },
        };
        let source_name = match args.source_name {
            Some(s) => s,
            None => {
                return CloneStep::Finish(Err(invalid_arguments(tool_name, "source_name is required")));
            },
        };
        let target_name = match args.target_name {
            Some(n) => n,
            None => {
                return CloneStep::Finish(Err(invalid_arguments(tool_name, "target_name is required")));
            },
        };
        let package = match args.package {
            Some(p) => p,
            None => {
                return CloneStep::Finish(Err(invalid_arguments(tool_name, "package is required")));
            },
        };
        let uri = match resolve_source_uri(object_type.as_str(), source_name.as_str(), None, None) {
            Some(u) => u,
            None => {
                let mut message = concat("unsupported object_type `", object_type.as_str());
                append(&mut message, "`");
                return CloneStep::Finish(Err(invalid_arguments(tool_name, message.as_str())));
            },
        };
        let flow = CloneObjectFlow {
            tool: owned(tool_name),
            object_type,
            package,
            source_upper: to_upper(trim(source_name.as_str()).as_str()),
            target_upper: to_upper(trim(target_name.as_str()).as_str()),
            create_type: String::new(),
            cloned_source: String::new(),
            object_url: String::new(),
            lock_handle: String::new(),
            stage: CloneStage::AwaitSource,
        };
        CloneStep::Next(flow, FlowAction::ReadText { uri, accept: owned("text/plain") })
    }

    /// Takes the outcome of the awaited step and says what comes next.
    pub fn resume(self, event: FlowEvent) -> (r: CloneStep)
        requires
            event is Failed || (clone_awaits_text(self.stage) <==> event is Text),
        ensures
            clone_step_ok(self, event, r),
    {
        match (self.stage, event) {
            (_, FlowEvent::Failed(e)) => CloneStep::Finish(Err(e)),
            (CloneStage::AwaitSource, FlowEvent::Text(source)) => {
                let t = to_upper(trim(self.object_type.as_str()).as_str());
                let t = t.as_str();
                let keyword = if str_eq(t, "PROG") || str_eq(t, "PROG/P") {
                    "(?i)(REPORT\\s+)"
                } else if str_eq(t, "CLAS") || str_eq(t, "CLAS/OC") {
                    "(?i)(CLASS\\s+)"
                } else if str_eq(t, "INTF") || str_eq(t, "INTF/OI") {
                    "(?i)(INTERFACE\\s+)"
                } else {
                    return CloneStep::Finish(
                        Err(invalid_arguments(self.tool.as_str(), "CloneObject currently supports PROG, CLAS, INTF")),
                    );
                };
                let pattern = concat(keyword, escape(self.source_upper.as_str()).as_str());
                match build_error(pattern.as_str(), false) {
                    Some(e) => {
                        let message = concat("failed to build clone regex: ", e.as_str());
                        return CloneStep::Finish(Err(invalid_arguments(self.tool.as_str(), message.as_str())));
                    },
                    None => {},
                }
                let replacement = concat("${1}", self.target_upper.as_str());
                let cloned_source = replace(pattern.as_str(), false, source.as_str(), replacement.as_str(), true);
                let create_type = match normalize_creatable_type(self.object_type.as_str()) {
                    Some(c) => c,
                    None => {
                        let mut message = concat("unsupported object_type `", self.object_type.as_str());
                        append(&mut message, "`");
                        return CloneStep::Finish(Err(invalid_arguments(self.tool.as_str(), message.as_str())));
                    },
                };
                let args = CreateObjectArgs {
                    object_type: Some(owned(create_type)),
                    name: Some(self.target_upper.clone()),
                    description: Some(concat("Copy of ", self.source_upper.as_str())),
                    package_name: Some(to_upper(trim(self.package.as_str()).as_str())),
                    transport: None,
                    parent_name: None,
                    responsible: None,
                    software_component: None,
                    service_definition: None,
                    binding_type: None,
                    binding_version: None,
                    binding_category: None,
                };
                let flow = CloneObjectFlow {
                    create_type: owned(create_type),
                    cloned_source,
                    stage: CloneStage::AwaitCreate,
                    ..self
                };
                CloneStep::Next(flow, FlowAction::CreateObject(args))
            },
            (CloneStage::AwaitCreate, FlowEvent::Value(_)) => {
                let url = build_object_url(self.create_type.as_str(), self.target_upper.as_str(), None);
                let target = url.clone();
                CloneStep::Next(
                    CloneObjectFlow { object_url: url, stage: CloneStage::AwaitLock, ..self },
                    FlowAction::Lock { object_url: target },
                )
            },
            (CloneStage::AwaitLock, FlowEvent::Value(lock)) => {
                let handle = match take_lock_handle(&lock, self.tool.as_str()) {
                    Ok(h) => h,
                    Err(e) => {
                        return CloneStep::Finish(Err(e));
                    },
                };
                let action = FlowAction::WriteSource {
                    uri: concat(self.object_url.as_str(), "/source/main"),
                    source: self.cloned_source.clone(),
                    lock_handle: handle.clone(),
                    transport: None,
                };
                CloneStep::Next(CloneObjectFlow { lock_handle: handle, stage: CloneStage::AwaitWrite, ..self }, action)
            },
            (CloneStage::AwaitWrite, FlowEvent::Text(_)) => {
                let action = FlowAction::Unlock {
                    object_url: self.object_url.clone(),
                    lock_handle: self.lock_handle.clone(),
                };
                CloneStep::Next(CloneObjectFlow { stage: CloneStage::AwaitUnlock, ..self }, action)
            },
            (CloneStage::AwaitUnlock, FlowEvent::Value(_)) => {
                let action = FlowAction::Activate {
                    object_url: self.object_url.clone(),
                    object_name: self.target_upper.clone(),
                };
                CloneStep::Next(CloneObjectFlow { stage: CloneStage::AwaitActivation, ..self }, action)
            },
            (CloneStage::AwaitActivation, FlowEvent::Value(_)) => CloneStep::Finish(
                Ok(
                    CloneOutcome {
                        source_name: self.source_upper,
                        target_name: self.target_upper,
                        object_type: self.object_type,
                        package: self.package,
                    },
                ),
            ),
            _ => vstd::pervasive::unreached(),
        }
    }
}

/// The arguments of a rename, each possibly missing.
#[derive(Clone, Debug, Default)]
pub struct RenameObjectArgs {
    pub obj_type: Option<String>,
    pub old_name: Option<String>,
    pub new_name: Option<String>,
    pub package_name: Option<String>,
    pub transport: Option<String>,
}

/// Where a rename stands.
#[derive(Clone, Copy, Debug, PartialEq, Eq, Structural)]
pub enum RenameStage {
    /// Copying the object under the new name.
    AwaitClone,
    /// Locking the old object.
    AwaitLock,
    /// Deleting the old object.
    AwaitDelete,
}

/// A rename in progress: the arguments, the old object's URL, and the
/// result of the copy.
#[derive(Debug)]
pub struct RenameObjectFlow {
    pub tool: String,
    pub obj_type: String,
    pub old_name: String,
    pub transport: String,
    pub old_object_url: String,
    pub clone: JsonValue,
    pub stage: RenameStage,
}

/// What a finished rename reports: the copy's result and the deletion's.
#[derive(Debug)]
pub struct RenameOutcome {
    pub clone: JsonValue,
    pub delete_old: JsonValue,
}

/// The next step of a rename, or its end.
#[derive(Debug)]
pub enum RenameStep {
    Next(RenameObjectFlow, FlowAction),
    Finish(Result<RenameOutcome, NeuroMcpError>),
}

/// `r` refuses the call for `tool` with `message`.
pub open spec fn rename_refuses(r: RenameStep, tool: Seq<char>, message: Seq<char>) -> bool {
    r matches RenameStep::Finish(Err(NeuroMcpError::InvalidArguments { tool: t, message: m })) && t@
        == tool && m@ == message
}

/// How a rename starts: type, old name, new name and package must be
/// given; the object is copied under the new name first.
pub open spec fn rename_start_ok(args: RenameObjectArgs, tool: Seq<char>, r: RenameStep) -> bool {
    match (args.obj_type, args.old_name, args.new_name, args.package_name) {
        (None, _, _, _) => rename_refuses(r, tool, "objType is required"@),
        (Some(_), None, _, _) => rename_refuses(r, tool, "oldName is required"@),
        (Some(_), Some(_), None, _) => rename_refuses(r, tool, "newName is required"@),
        (Some(_), Some(_), Some(_), None) => rename_refuses(r, tool, "packageName is required"@),
        (Some(t), Some(o), Some(n), Some(p)) => r matches RenameStep::Next(
            g,
            FlowAction::CloneObject { object_type, source_name, target_name, package },
        ) && object_type@ == t@ && source_name@ == o@ && target_name@ == n@ && package@ == p@
            && g.tool@ == tool && g.obj_type@ == t@ && g.old_name@ == o@ && g.transport@ == match args.transport {
            Some(x) => x@,
            None => Seq::empty(),
        } && g.stage == RenameStage::AwaitClone,
    }
}

/// What a rename does with `event` at its stage; a failed step ends it
/// with that failure.
pub open spec fn rename_step_ok(f: RenameObjectFlow, event: FlowEvent, r: RenameStep) -> bool {
    match event {
        FlowEvent::Failed(e) => r matches RenameStep::Finish(Err(x)) && x == e,
        FlowEvent::Text(_) => true,
        FlowEvent::Value(v) => match f.stage {
            RenameStage::AwaitClone => match spec_normalize_creatable_type(f.obj_type@) {
                None => rename_refuses(r, f.tool@, "unsupported objType `"@ + f.obj_type@ + "`"@),
                Some(create_type) => r matches RenameStep::Next(g, FlowAction::Lock { object_url })
                    && g.tool == f.tool && g.obj_type == f.obj_type && g.old_name == f.old_name
                    && g.transport == f.transport && g.clone == v && g.stage == RenameStage::AwaitLock
                    && g.old_object_url@ == spec_object_url(create_type, upper_seq(f.old_name@), None)
                    && object_url@ == g.old_object_url@,
            },
            RenameStage::AwaitLock => match lock_handle_of(v) {
                None => rename_refuses(r, f.tool@, "LockObject did not return lockHandle for old object"@),
                Some(h) => r matches RenameStep::Next(
                    g,
                    FlowAction::DeleteObject { object_url, lock_handle, transport },
                ) && g.tool == f.tool && g.clone == f.clone && g.stage == RenameStage::AwaitDelete
                    && object_url@ == f.old_object_url@ && lock_handle@ == h && opt_text(transport)
                    == Some(f.transport@),
            },
            RenameStage::AwaitDelete => r matches RenameStep::Finish(Ok(o)) && o.clone == f.clone
                && o.delete_old == v,
        },
    }
}

impl RenameObjectFlow {
    /// Starts a rename.
    pub fn start(args: RenameObjectArgs, tool_name: &str) -> (r: RenameStep)
        ensures
            rename_start_ok(args, tool_name@, r),
    {
        let obj_type = match args.obj_type {
            Some(t) => t,
            None => {
                return RenameStep::Finish(Err(invalid_arguments(tool_name, "objType is required")));
            },
        };
        let old_name = match args.old_name {
            Some(o) => o,
            None => {
                return RenameStep::Finish(Err(invalid_arguments(tool_name, "oldName is required")));
            },
        };
        let new_name = match args.new_name {
            Some(n) => n,
            None => {
                return RenameStep::Finish(Err(invalid_arguments(tool_name, "newName is required")));
            },
        };
        let package = match args.package_name {
            Some(p) => p,
            None => {
                return RenameStep::Finish(Err(invalid_arguments(tool_name, "packageName is required")));
            },
        };
        let transport = match args.transport {
            Some(t) => t,
            None => String::new(),
        };
        let action = FlowAction::CloneObject {
            object_type: obj_type.clone(),
            source_name: old_name.clone(),
            target_name: new_name,
            package,
        };
        let flow = RenameObjectFlow {
            tool: owned(tool_name),
            obj_type,
            old_name,
            transport,
            old_object_url: String::new(),
            clone: JsonValue::Null,
            stage: RenameStage::AwaitClone,
        };
        RenameStep::Next(flow, action)
    }

    /// Takes the outcome of the awaited step and says what comes next.
    pub fn resume(self, event: FlowEvent) -> (r: RenameStep)
        requires
            event is Failed || event is Value,
        ensures
            rename_step_ok(self, event, r),
    {
        let value = match event {
            FlowEvent::Failed(e) => {
                return RenameStep::Finish(Err(e));
            },
            FlowEvent::Value(v) => v,
            FlowEvent::Text(_) => vstd::pervasive::unreached(),
        };
        match self.stage {
            RenameStage::AwaitClone => {
                let create_type = match normalize_creatable_type(self.obj_type.as_str()) {
                    Some(c) => c,
                    None => {
                        let mut message = concat("unsupported objType `", self.obj_type.as_str());
                        append(&mut message, "`");
                        return RenameStep::Finish(Err(invalid_arguments(self.tool.as_str(), message.as_str())));
                    },
                };
                let url = build_object_url(create_type, to_upper(self.old_name.as_str()).as_str(), None);
                let target = url.clone();
                RenameStep::Next(
                    RenameObjectFlow { old_object_url: url, clone: value, stage: RenameStage::AwaitLock, ..self },
                    FlowAction::Lock { object_url: target },
                )
            },
            RenameStage::AwaitLock => {
                let keys = ["lockHandle"];
                assert(crate::mcp::jsonx::keys_view(keys@) =~= seq!["lockHandle"@]);
                let handle = match crate::mcp::jsonx::extract_json_string(&value, &keys) {
                    Some(h) => h,
                    None => {
                        return RenameStep::Finish(
                            Err(invalid_arguments(self.tool.as_str(), "LockObject did not return lockHandle for old object")),
                        );
                    },
                };
                let action = FlowAction::DeleteObject {
                    object_url: self.old_object_url.clone(),
                    lock_handle: handle,
                    transport: Some(self.transport.clone()),
                };
                RenameStep::Next(RenameObjectFlow { stage: RenameStage::AwaitDelete, ..self }, action)
            },
            RenameStage::AwaitDelete => RenameStep::Finish(Ok(RenameOutcome { clone: self.clone, delete_old: value })),
        }
    }
}

} // verus!
