//! Editing an object's source by replacing a literal text: find it, make
//! sure the edit is unambiguous and compiles, then write, unlock and
//! activate.
use vstd::prelude::*;

use crate::errors::NeuroMcpError;
use crate::json::JsonValue;
use crate::mcp::create::invalid_arguments;
use crate::mcp::flow::{lock_handle_of, object_name_of, owning_object, raw_text, raw_text_of, source_url_of, spec_object_name_of, spec_owning_object, spec_source_url, take_lock_handle, FlowAction, FlowEvent};
use crate::mcp::pattern::{
    build_error, captures, escape, regex_build_error, regex_capture_list, regex_escaped,
    regex_replacement, replace,
};
use crate::text::{concat, contains_str, decimal, decimal_string, find_seq, owned};
use crate::xml::opt_text;

verus! {

/// The arguments of a source edit, each possibly missing.
#[derive(Clone, Debug, Default)]
pub struct EditSourceArgs {
    pub object_url: Option<String>,
    pub old_string: Option<String>,
    pub new_string: Option<String>,
    pub replace_all: Option<bool>,
    pub case_insensitive: Option<bool>,
    pub syntax_check: Option<bool>,
    pub transport: Option<String>,
}

/// How an edit ended, when it did not fail.
#[derive(Debug)]
pub enum EditOutcome {
    /// The old text does not occur.
    NotFound,
    /// The old text occurs `count` times and only one edit was asked for.
    Ambiguous { count: usize },
    /// The edited source would not compile; nothing was written.
    SyntaxErrors { count: usize, syntax: JsonValue },
    /// The source was written and activated.
    Edited { count: usize, activation: JsonValue, message: String },
}

/// Where an edit stands.
#[derive(Debug)]
pub enum EditStage {
    AwaitSource,
    AwaitSyntax { count: usize, new_source: String },
    AwaitLock { count: usize, new_source: String },
    AwaitWrite { count: usize, lock_handle: String },
    AwaitUnlock { count: usize },
    AwaitActivation { count: usize },
}

/// A source edit in progress.
#[derive(Debug)]
pub struct EditSourceFlow {
    tool: String,
    object_url: String,
    new_string: String,
    pattern: String,
    replace_all: bool,
    case_insensitive: bool,
    syntax_check: bool,
    transport: Option<String>,
    source_url: String,
    stage: EditStage,
}

/// The next step of an edit, or its end.
#[derive(Debug)]
pub enum EditStep {
    Next(EditSourceFlow, FlowAction),
    Finish(Result<EditOutcome, NeuroMcpError>),
}

/// A compiler answer that reports an error: a message of severity `E`,
/// `A` or `X`.
pub open spec fn reports_syntax_error(raw: Seq<char>) -> bool {
    find_seq(raw, "severity=\"E\""@) is Some || find_seq(raw, "severity=\"A\""@) is Some
        || find_seq(raw, "severity=\"X\""@) is Some
}

/// The message of a successful edit.
pub open spec fn edited_message(replace_all: bool, count: nat) -> Seq<char> {
    if replace_all {
        "Successfully replaced "@ + decimal(count) + " occurrences"@
    } else {
        "Successfully edited source"@
    }
}

impl EditSourceFlow {
    /// The tool that runs the edit.
    pub closed spec fn tool(&self) -> Seq<char> {
        self.tool@
    }

    /// The object edited.
    pub closed spec fn object_url(&self) -> Seq<char> {
        self.object_url@
    }

    /// The replacement text.
    pub closed spec fn new_string(&self) -> Seq<char> {
        self.new_string@
    }

    /// The pattern that matches the old text literally.
    pub closed spec fn pattern(&self) -> Seq<char> {
        self.pattern@
    }

    /// Whether every occurrence is replaced.
    pub closed spec fn replace_all(&self) -> bool {
        self.replace_all
    }

    /// Whether the old text is matched in any letter case.
    pub closed spec fn case_insensitive(&self) -> bool {
        self.case_insensitive
    }

    /// Whether the edited source is checked before it is written.
    pub closed spec fn syntax_check(&self) -> bool {
        self.syntax_check
    }

    /// The transport request of the write.
    pub closed spec fn transport(&self) -> Option<Seq<char>> {
        opt_text(self.transport)
    }

    /// The URL the source is read from and written to.
    pub closed spec fn source_url(&self) -> Seq<char> {
        self.source_url@
    }

    /// Where the edit stands.
    pub closed spec fn stage(&self) -> EditStage {
        self.stage
    }

}

/// Whether the stage waits on a text (the source read or written) rather
/// than a tool result.
pub open spec fn awaits_text(stage: EditStage) -> bool {
    stage is AwaitSource || stage is AwaitWrite
}

/// `g` is the edit `f` at another stage.
pub open spec fn same_edit(f: EditSourceFlow, g: EditSourceFlow) -> bool {
    &&& g.tool() == f.tool()
    &&& g.object_url() == f.object_url()
    &&& g.new_string() == f.new_string()
    &&& g.pattern() == f.pattern()
    &&& g.replace_all() == f.replace_all()
    &&& g.case_insensitive() == f.case_insensitive()
    &&& g.syntax_check() == f.syntax_check()
    &&& g.transport() == f.transport()
    &&& g.source_url() == f.source_url()
}

/// `r` refuses the call for `tool` with `message`.
pub open spec fn refuses(r: EditStep, tool: Seq<char>, message: Seq<char>) -> bool {
    r matches EditStep::Finish(Err(NeuroMcpError::InvalidArguments { tool: t, message: m }))
        && t@ == tool && m@ == message
}

/// `r` locks the object that owns the edited source, with the new source
/// and match count kept.
pub open spec fn goes_to_lock(f: EditSourceFlow, r: EditStep, count: nat, new_source: Seq<char>) -> bool {
    r matches EditStep::Next(g, FlowAction::Lock { object_url: u }) && same_edit(f, g) && u@
        == spec_owning_object(f.object_url()) && (g.stage() matches EditStage::AwaitLock { count: k, new_source: n } && k == count && n@
        == new_source)
}

/// What the edit does once the source has arrived: the pattern must
/// compile; no match ends it, as does more than one when only one edit is
/// asked for; else the source is edited, then checked or locked.
pub open spec fn after_source(f: EditSourceFlow, source: Seq<char>, r: EditStep) -> bool {
    match regex_build_error(f.pattern(), f.case_insensitive()) {
        Some(m) => refuses(r, f.tool(), "invalid old_string pattern: "@ + m),
        None => {
            let count = regex_capture_list(f.pattern(), f.case_insensitive(), source).len();
            if count == 0 {
                r matches EditStep::Finish(Ok(EditOutcome::NotFound))
            } else if !f.replace_all() && count > 1 {
                r matches EditStep::Finish(Ok(EditOutcome::Ambiguous { count: c })) && c == count
            } else {
                let new_source = regex_replacement(
                    f.pattern(),
                    f.case_insensitive(),
                    source,
                    f.new_string(),
                    f.replace_all(),
                );
                if f.syntax_check() {
                    r matches EditStep::Next(g, FlowAction::SyntaxCheck { object_url: u, content: c })
                        && same_edit(f, g) && u@ == f.object_url() && c@ == new_source
                        && (g.stage() matches EditStage::AwaitSyntax { count: k, new_source: n } && k
                        == count && n@ == new_source)
                } else {
                    goes_to_lock(f, r, count, new_source)
                }
            }
        },
    }
}

/// What the edit does with `event` at its stage; a failed step ends it
/// with that failure.
pub open spec fn edit_step_ok(f: EditSourceFlow, event: FlowEvent, r: EditStep) -> bool {
    match event {
        FlowEvent::Failed(e) => r matches EditStep::Finish(Err(x)) && x == e,
        FlowEvent::Text(t) => match f.stage() {
            EditStage::AwaitSource => after_source(f, t@, r),
            EditStage::AwaitWrite { count, lock_handle } => r matches EditStep::Next(
                g,
                FlowAction::Unlock { object_url: u, lock_handle: h },
            ) && same_edit(f, g) && u@ == spec_owning_object(f.object_url()) && h@ == lock_handle@
                && (g.stage() matches EditStage::AwaitUnlock { count: k } && k == count),
            _ => true,
        },
        FlowEvent::Value(v) => match f.stage() {
            EditStage::AwaitSyntax { count, new_source } => if reports_syntax_error(raw_text_of(v)) {
                r matches EditStep::Finish(Ok(EditOutcome::SyntaxErrors { count: k, syntax })) && k
                    == count && syntax == v
            } else {
                goes_to_lock(f, r, count as nat, new_source@)
            },
            EditStage::AwaitLock { count, new_source } => match lock_handle_of(v) {
                None => refuses(r, f.tool(), "LockObject did not return lockHandle"@),
                Some(h) => r matches EditStep::Next(
                    g,
                    FlowAction::WriteSource { uri, source, lock_handle, transport },
                ) && same_edit(f, g) && uri@ == f.source_url() && source@ == new_source@
                    && lock_handle@ == h && opt_text(transport) == f.transport()
                    && (g.stage() matches EditStage::AwaitWrite { count: k, lock_handle: gh } && k
                    == count && gh@ == h),
            },
            EditStage::AwaitUnlock { count } => r matches EditStep::Next(
                g,
                FlowAction::Activate { object_url: u, object_name: n },
            ) && same_edit(f, g) && u@ == spec_owning_object(f.object_url()) && n@
                == spec_object_name_of(spec_owning_object(f.object_url()))
                && (g.stage() matches EditStage::AwaitActivation { count: k } && k == count),
            EditStage::AwaitActivation { count } => r matches EditStep::Finish(
                Ok(EditOutcome::Edited { count: k, activation, message }),
            ) && k == count && activation == v && message@ == edited_message(
                f.replace_all(),
                count as nat,
            ),
            _ => true,
        },
    }
}

/// How an edit starts: the object, the old text and the new text must be
/// given; the source is read first. One edit, matched in exact case, and a
/// syntax check are the defaults.
pub open spec fn edit_start_ok(args: EditSourceArgs, tool: Seq<char>, r: EditStep) -> bool {
    match (args.object_url, args.old_string, args.new_string) {
        (None, _, _) => refuses(r, tool, "object_url is required"@),
        (Some(_), None, _) => refuses(r, tool, "old_string is required"@),
        (Some(_), Some(_), None) => refuses(r, tool, "new_string is required"@),
        (Some(u), Some(o), Some(n)) => r matches EditStep::Next(
            f,
            FlowAction::ReadText { uri, accept },
        ) && f.tool() == tool && f.object_url() == u@ && f.new_string() == n@ && f.pattern()
            == regex_escaped(o@) && f.replace_all() == (args.replace_all == Some(true))
            && f.case_insensitive() == (args.case_insensitive == Some(true)) && f.syntax_check()
            == (args.syntax_check != Some(false)) && f.transport() == opt_text(args.transport)
            && f.source_url() == spec_source_url(u@) && f.stage() is AwaitSource && uri@
            == spec_source_url(u@) && accept@ == "text/plain"@,
    }
}

impl EditSourceFlow {
    /// Starts an edit.
    pub fn start(args: EditSourceArgs, tool_name: &str) -> (r: EditStep)
        ensures
            edit_start_ok(args, tool_name@, r),
    {
        let ghost a = args;
        let object_url = match args.object_url {
            Some(u) => u,
            None => {
                return EditStep::Finish(Err(invalid_arguments(tool_name, "object_url is required")));
            },
        };
        let old_string = match args.old_string {
            Some(o) => o,
            None => {
                return EditStep::Finish(Err(invalid_arguments(tool_name, "old_string is required")));
            },
        };
        let new_string = match args.new_string {
            Some(n) => n,
            None => {
                return EditStep::Finish(Err(invalid_arguments(tool_name, "new_string is required")));
            },
        };
        let replace_all = match args.replace_all {
            Some(b) => b,
            None => false,
        };
        let case_insensitive = match args.case_insensitive {
            Some(b) => b,
            None => false,
        };
        let syntax_check = match args.syntax_check {
            Some(b) => b,
            None => true,
        };
        let source_url = source_url_of(object_url.as_str());
        let uri = source_url.clone();
        let flow = EditSourceFlow {
            tool: owned(tool_name),
            object_url,
            new_string,
            pattern: escape(old_string.as_str()),
            replace_all,
            case_insensitive,
            syntax_check,
            transport: args.transport,
            source_url,
            stage: EditStage::AwaitSource,
        };
        EditStep::Next(flow, FlowAction::ReadText { uri, accept: owned("text/plain") })
    }

    /// The same edit at another stage.
    fn at(self, stage: EditStage) -> (r: EditSourceFlow)
        ensures
            same_edit(self, r),
            r.stage() == stage,
    {
        EditSourceFlow { stage, ..self }
    }

    /// The lock step, with the count and new source kept.
    fn lock_step(self, count: usize, new_source: String) -> (r: EditStep)
        ensures
            goes_to_lock(self, r, count as nat, new_source@),
    {
        let target = owning_object(self.object_url.as_str());
        let flow = self.at(EditStage::AwaitLock { count, new_source });
        EditStep::Next(flow, FlowAction::Lock { object_url: target })
    }

    /// Takes the outcome of the awaited step and says what comes next.
    pub fn resume(self, event: FlowEvent) -> (r: EditStep)
        requires
            event is Failed || (awaits_text(self.stage()) <==> event is Text),
        ensures
            edit_step_ok(self, event, r),
    {
        let event = match event {
            FlowEvent::Failed(e) => {
                return EditStep::Finish(Err(e));
            },
            other => other,
        };
        let ghost f = self;
        match self.stage {
            EditStage::AwaitSource => {
                let source = match event {
                    FlowEvent::Text(t) => t,
                    _ => vstd::pervasive::unreached(),
                };
                match build_error(self.pattern.as_str(), self.case_insensitive) {
                    Some(e) => {
                        let message = concat("invalid old_string pattern: ", e.as_str());
                        return EditStep::Finish(Err(invalid_arguments(self.tool.as_str(), message.as_str())));
                    },
                    None => {},
                }
                let found = captures(self.pattern.as_str(), self.case_insensitive, source.as_str());
                let count = found.len();
                proof {
                    assert(found@.map_values(|m: Vec<Option<String>>| m@.map_values(|g: Option<String>| opt_text(g))).len() == count);
                }
                if count == 0 {
                    return EditStep::Finish(Ok(EditOutcome::NotFound));
                }
                if !self.replace_all && count > 1 {
                    return EditStep::Finish(Ok(EditOutcome::Ambiguous { count }));
                }
                let new_source = replace(
                    self.pattern.as_str(),
                    self.case_insensitive,
                    source.as_str(),
                    self.new_string.as_str(),
                    self.replace_all,
                );
                if self.syntax_check {
                    let object_url = self.object_url.clone();
                    let content = new_source.clone();
                    let flow = self.at(EditStage::AwaitSyntax { count, new_source });
                    EditStep::Next(flow, FlowAction::SyntaxCheck { object_url, content })
                } else {
                    self.lock_step(count, new_source)
                }
            },
            EditStage::AwaitSyntax { count, new_source } => {
                let syntax = match event {
                    FlowEvent::Value(v) => v,
                    _ => vstd::pervasive::unreached(),
                };
                let raw = raw_text(&syntax);
                if contains_str(raw.as_str(), "severity=\"E\"") || contains_str(raw.as_str(), "severity=\"A\"")
                    || contains_str(raw.as_str(), "severity=\"X\"") {
                    return EditStep::Finish(Ok(EditOutcome::SyntaxErrors { count, syntax }));
                }
                let flow = EditSourceFlow { stage: EditStage::AwaitSource, ..self };
                proof {
                    assert(same_edit(f, flow));
                }
                flow.lock_step(count, new_source)
            },
            EditStage::AwaitLock { count, new_source } => {
                let lock = match event {
                    FlowEvent::Value(v) => v,
                    _ => vstd::pervasive::unreached(),
                };
                let lock_handle = match take_lock_handle(&lock, self.tool.as_str()) {
                    Ok(h) => h,
                    Err(e) => {
                        return EditStep::Finish(Err(e));
                    },
                };
                let uri = self.source_url.clone();
                let transport = self.transport.clone();
                let handle = lock_handle.clone();
                let flow = EditSourceFlow { stage: EditStage::AwaitWrite { count, lock_handle }, ..self };
                EditStep::Next(flow, FlowAction::WriteSource { uri, source: new_source, lock_handle: handle, transport })
            },
            EditStage::AwaitWrite { count, lock_handle } => {
                let target = owning_object(self.object_url.as_str());
                let flow = EditSourceFlow { stage: EditStage::AwaitUnlock { count }, ..self };
                EditStep::Next(flow, FlowAction::Unlock { object_url: target, lock_handle })
            },
            EditStage::AwaitUnlock { count } => {
                let target = owning_object(self.object_url.as_str());
                let name = object_name_of(target.as_str());
                let flow = EditSourceFlow { stage: EditStage::AwaitActivation { count }, ..self };
                EditStep::Next(flow, FlowAction::Activate { object_url: target, object_name: name })
            },
            EditStage::AwaitActivation { count } => {
                let activation = match event {
                    FlowEvent::Value(v) => v,
                    _ => vstd::pervasive::unreached(),
                };
                let message = if self.replace_all {
                    let mut m = concat("Successfully replaced ", decimal_string(count as u64).as_str());
                    crate::text::append(&mut m, " occurrences");
                    m
                } else {
                    owned("Successfully edited source")
                };
                EditStep::Finish(Ok(EditOutcome::Edited { count, activation, message }))
            },
        }
    }
}


/// An edit writes the source only in the step right after the object was
/// locked, under the handle that the lock gave; and once written, the next
/// step releases that same lock.
pub proof fn law_edit_writes_only_under_its_lock(f: EditSourceFlow, event: FlowEvent, r: EditStep)
    requires
        event is Failed || (awaits_text(f.stage()) <==> event is Text),
        edit_step_ok(f, event, r),
    ensures
        r matches EditStep::Next(_, FlowAction::WriteSource { lock_handle, .. }) ==> f.stage() is AwaitLock
            && (event matches FlowEvent::Value(v) && lock_handle_of(v) == Some(lock_handle@)),
        f.stage() matches EditStage::AwaitWrite { lock_handle: h, .. } ==> (event is Text ==> (r matches EditStep::Next(
            _,
            FlowAction::Unlock { lock_handle, .. },
        ) && lock_handle@ == h@)),
{
}

} // verus!
