//! An ATC check of one object: resolve the check variant, open a
//! worklist, run the check and read the findings.
use vstd::prelude::*;

use crate::errors::NeuroMcpError;
use crate::mcp::create::{invalid_arguments, with_query};
use crate::mcp::flow::{FlowAction, FlowEvent};
use crate::mcp::paths::build_path_with_query;
use crate::mcp::xmltext::{
    escape_xml, extract_system_check_variant, extract_xml_tag_value, spec_escape_xml,
    spec_system_check_variant, spec_tag_value,
};
use crate::text::{append, concat, decimal, decimal_string, owned, trim, trim_seq};
use crate::xml::opt_text;

verus! {

/// The arguments of an ATC check, each possibly missing.
#[derive(Clone, Debug, Default)]
pub struct RunAtcCheckArgs {
    pub object_url: Option<String>,
    pub variant: Option<String>,
    pub max_results: Option<u32>,
}

/// What an ATC check found.
#[derive(Clone, Debug)]
pub struct AtcOutcome {
    pub object_url: String,
    pub variant: String,
    pub worklist_id: String,
    pub run: String,
    pub worklist: String,
}

/// Where an ATC check stands.
#[derive(Clone, Debug)]
pub enum AtcStage {
    /// Reading the customizing, to find the default variant.
    AwaitCustomizing,
    /// Opening a worklist for the variant.
    AwaitWorklist { variant: String },
    /// Running the check into the worklist.
    AwaitRun { variant: String, worklist_id: String },
    /// Reading the findings.
    AwaitFindings { variant: String, worklist_id: String, run: String },
}

/// An ATC check in progress.
#[derive(Clone, Debug)]
pub struct RunAtcCheckFlow {
    pub tool: String,
    pub object_url: String,
    pub max_results: u32,
    pub stage: AtcStage,
}

/// The next step of an ATC check, or its end.
#[derive(Debug)]
pub enum AtcStep {
    Next(RunAtcCheckFlow, FlowAction),
    Finish(Result<AtcOutcome, NeuroMcpError>),
}

/// `r` refuses the call for `tool` with `message`.
pub open spec fn atc_refuses(r: AtcStep, tool: Seq<char>, message: Seq<char>) -> bool {
    r matches AtcStep::Finish(Err(NeuroMcpError::InvalidArguments { tool: t, message: m })) && t@
        == tool && m@ == message
}

/// The body that runs the check on one object, with a limit on verdicts.
pub open spec fn spec_atc_run_body(max_results: u32, object_url: Seq<char>) -> Seq<char> {
    "<?xml version=\"1.0\" encoding=\"UTF-8\"?>\n<atc:run maximumVerdicts=\""@ + decimal(
        max_results as nat,
    )
        + "\" xmlns:atc=\"http://www.sap.com/adt/atc\">\n\t<objectSets xmlns:adtcore=\"http://www.sap.com/adt/core\">\n\t\t<objectSet kind=\"inclusive\">\n\t\t\t<adtcore:objectReferences>\n\t\t\t\t<adtcore:objectReference adtcore:uri=\""@
        + spec_escape_xml(object_url)
        + "\"/>\n\t\t\t</adtcore:objectReferences>\n\t\t</objectSet>\n\t</objectSets>\n</atc:run>"@
}

/// The body that runs the check on one object.
fn atc_run_body(max_results: u32, object_url: &str) -> (r: String)
    ensures
        r@ == spec_atc_run_body(max_results, object_url@),
{
    let mut r = owned("<?xml version=\"1.0\" encoding=\"UTF-8\"?>\n<atc:run maximumVerdicts=\"");
    append(&mut r, decimal_string(max_results as u64).as_str());
    append(
        &mut r,
        "\" xmlns:atc=\"http://www.sap.com/adt/atc\">\n\t<objectSets xmlns:adtcore=\"http://www.sap.com/adt/core\">\n\t\t<objectSet kind=\"inclusive\">\n\t\t\t<adtcore:objectReferences>\n\t\t\t\t<adtcore:objectReference adtcore:uri=\"",
    );
    append(&mut r, escape_xml(object_url).as_str());
    append(&mut r, "\"/>\n\t\t\t</adtcore:objectReferences>\n\t\t</objectSet>\n\t</objectSets>\n</atc:run>");
    assert(r@ =~= spec_atc_run_body(max_results, object_url@));
    r
}

/// `r` opens a worklist for `variant`.
pub open spec fn opens_worklist(f: RunAtcCheckFlow, r: AtcStep, variant: Seq<char>) -> bool {
    r matches AtcStep::Next(g, FlowAction::PostText { uri, body, content_type, accept }) && g.tool
        == f.tool && g.object_url == f.object_url && g.max_results == f.max_results && (
    g.stage matches AtcStage::AwaitWorklist { variant: v } && v@ == variant) && uri@ == with_query(
        "/sap/bc/adt/atc/worklists"@,
        seq![("checkVariant"@, variant)],
    ) && body is None && content_type is None && opt_text(accept) == Some("text/plain"@)
}

/// The default and floor of the verdict limit.
pub open spec fn verdict_limit(max_results: Option<u32>) -> u32 {
    match max_results {
        Some(m) => if m < 1 {
            1
        } else {
            m
        },
        None => 100,
    }
}

/// How a check starts: the object must be given; a non-blank variant
/// (trimmed) is used as it is, else the default variant is read from the
/// customizing. At most 100 verdicts by default, and at least one.
pub open spec fn atc_start_ok(args: RunAtcCheckArgs, tool: Seq<char>, r: AtcStep) -> bool {
    match args.object_url {
        None => atc_refuses(r, tool, "objectUrl/object_url is required"@),
        Some(u) => r matches AtcStep::Next(g, action) && g.tool@ == tool && g.object_url@ == u@
            && g.max_results == verdict_limit(args.max_results) && match args.variant {
            Some(v) if trim_seq(v@).len() > 0 => opens_worklist(g, r, trim_seq(v@)),
            _ => g.stage is AwaitCustomizing && (action matches FlowAction::ReadText { uri, accept }
                && uri@ == "/sap/bc/adt/atc/customizing"@ && accept@
                == "application/xml, application/vnd.sap.atc.customizing-v1+xml"@),
        },
    }
}

/// The worklist that the run reports, when it names a non-blank one; else
/// the one opened.
pub open spec fn run_worklist(run: Seq<char>, opened: Seq<char>) -> Seq<char> {
    match spec_tag_value(run, "worklistId"@) {
        Some(v) if trim_seq(v).len() > 0 => v,
        _ => opened,
    }
}

/// What a check does with `event` at its stage; a failed step ends it with
/// that failure.
pub open spec fn atc_step_ok(f: RunAtcCheckFlow, event: FlowEvent, r: AtcStep) -> bool {
    match event {
        FlowEvent::Failed(e) => r matches AtcStep::Finish(Err(x)) && x == e,
        FlowEvent::Value(_) => true,
        FlowEvent::Text(t) => match f.stage {
            AtcStage::AwaitCustomizing => match spec_system_check_variant(t@) {
                None => atc_refuses(
                    r,
                    f.tool@,
                    "unable to resolve default ATC check variant from customizing"@,
                ),
                Some(v) => opens_worklist(f, r, v),
            },
            AtcStage::AwaitWorklist { variant } => if trim_seq(t@).len() == 0 {
                atc_refuses(r, f.tool@, "ATC worklist id was empty"@)
            } else {
                r matches AtcStep::Next(g, FlowAction::PostText { uri, body, content_type, accept })
                    && g.tool == f.tool && g.object_url == f.object_url && g.max_results
                    == f.max_results && (g.stage matches AtcStage::AwaitRun { variant: v, worklist_id }
                    && v@ == variant@ && worklist_id@ == trim_seq(t@)) && uri@ == with_query(
                    "/sap/bc/adt/atc/runs"@,
                    seq![("worklistId"@, trim_seq(t@))],
                ) && opt_text(body) == Some(spec_atc_run_body(f.max_results, f.object_url@))
                    && opt_text(content_type) == Some("application/xml"@) && opt_text(accept) == Some(
                    "application/xml"@,
                )
            },
            AtcStage::AwaitRun { variant, worklist_id } => r matches AtcStep::Next(
                g,
                FlowAction::ReadText { uri, accept },
            ) && g.tool == f.tool && g.object_url == f.object_url && g.max_results == f.max_results
                && (g.stage matches AtcStage::AwaitFindings { variant: v, worklist_id: w, run }
                && v@ == variant@ && w@ == run_worklist(t@, worklist_id@) && run@ == t@) && uri@
                == with_query(
                "/sap/bc/adt/atc/worklists/"@ + run_worklist(t@, worklist_id@),
                seq![("includeExemptedFindings"@, "false"@)],
            ) && accept@ == "application/atc.worklist.v1+xml"@,
            AtcStage::AwaitFindings { variant, worklist_id, run } => r matches AtcStep::Finish(
                Ok(o),
            ) && o.object_url@ == f.object_url@ && o.variant@ == variant@ && o.worklist_id@
                == worklist_id@ && o.run@ == run@ && o.worklist@ == t@,
        },
    }
}

/// A query of one pair.
fn one_pair(key: &str, value: String) -> (r: Vec<(String, String)>)
    ensures
        r@.map_values(|p: (String, String)| (p.0@, p.1@)) == seq![(key@, value@)],
{
    let mut q: Vec<(String, String)> = Vec::new();
    let ghost v = value@;
    q.push((owned(key), value));
    assert(q@.map_values(|p: (String, String)| (p.0@, p.1@)) =~= seq![(key@, v)]);
    q
}

impl RunAtcCheckFlow {
    /// The step that opens a worklist for `variant`.
    fn worklist_step(self, variant: String) -> (r: AtcStep)
        ensures
            opens_worklist(self, r, variant@),
    {
        let query = one_pair("checkVariant", variant.clone());
        let uri = build_path_with_query("/sap/bc/adt/atc/worklists", &query);
        let flow = RunAtcCheckFlow { stage: AtcStage::AwaitWorklist { variant }, ..self };
        AtcStep::Next(flow, FlowAction::PostText { uri, body: None, content_type: None, accept: Some(owned("text/plain")) })
    }

    /// Starts a check.
    pub fn start(args: RunAtcCheckArgs, tool_name: &str) -> (r: AtcStep)
        ensures
            atc_start_ok(args, tool_name@, r),
    {
        let object_url = match args.object_url {
            Some(u) => u,
            None => {
                return AtcStep::Finish(Err(invalid_arguments(tool_name, "objectUrl/object_url is required")));
            },
        };
        let max_results = match args.max_results {
            Some(m) => if m < 1 {
                1
            } else {
                m
            },
            None => 100,
        };
        let flow = RunAtcCheckFlow {
            tool: owned(tool_name),
            object_url,
            max_results,
            stage: AtcStage::AwaitCustomizing,
        };
        match args.variant {
            Some(v) => {
                let trimmed = trim(v.as_str());
                if !trimmed.as_str().is_empty() {
                    return flow.worklist_step(trimmed);
                }
            },
            None => {},
        }
        AtcStep::Next(
            flow,
            FlowAction::ReadText {
                uri: owned("/sap/bc/adt/atc/customizing"),
                accept: owned("application/xml, application/vnd.sap.atc.customizing-v1+xml"),
            },
        )
    }

    /// Takes the outcome of the awaited step and says what comes next.
    pub fn resume(self, event: FlowEvent) -> (r: AtcStep)
        requires
            event is Failed || event is Text,
        ensures
            atc_step_ok(self, event, r),
    {
        let text = match event {
            FlowEvent::Failed(e) => {
                return AtcStep::Finish(Err(e));
            },
            FlowEvent::Text(t) => t,
            FlowEvent::Value(_) => vstd::pervasive::unreached(),
        };
        match self.stage {
            AtcStage::AwaitCustomizing => match extract_system_check_variant(text.as_str()) {
                None => AtcStep::Finish(
                    Err(
                        invalid_arguments(
                            self.tool.as_str(),
                            "unable to resolve default ATC check variant from customizing",
                        ),
                    ),
                ),
                Some(v) => self.worklist_step(v),
            },
            AtcStage::AwaitWorklist { variant } => {
                let worklist_id = trim(text.as_str());
                if worklist_id.as_str().is_empty() {
                    return AtcStep::Finish(Err(invalid_arguments(self.tool.as_str(), "ATC worklist id was empty")));
                }
                let query = one_pair("worklistId", worklist_id.clone());
                let uri = build_path_with_query("/sap/bc/adt/atc/runs", &query);
                let body = atc_run_body(self.max_results, self.object_url.as_str());
                let flow = RunAtcCheckFlow { stage: AtcStage::AwaitRun { variant, worklist_id }, ..self };
                AtcStep::Next(
                    flow,
                    FlowAction::PostText {
                        uri,
                        body: Some(body),
                        content_type: Some(owned("application/xml")),
                        accept: Some(owned("application/xml")),
                    },
                )
            },
            AtcStage::AwaitRun { variant, worklist_id } => {
                let run_id = match extract_xml_tag_value(text.as_str(), "worklistId") {
                    Some(v) => if !trim(v.as_str()).as_str().is_empty() {
                        v
                    } else {
                        worklist_id
                    },
                    None => worklist_id,
                };
                let path = concat("/sap/bc/adt/atc/worklists/", run_id.as_str());
                let query = one_pair("includeExemptedFindings", owned("false"));
                let uri = build_path_with_query(path.as_str(), &query);
                let flow = RunAtcCheckFlow {
                    stage: AtcStage::AwaitFindings { variant, worklist_id: run_id, run: text },
                    ..self
                };
                AtcStep::Next(flow, FlowAction::ReadText { uri, accept: owned("application/atc.worklist.v1+xml") })
            },
            AtcStage::AwaitFindings { variant, worklist_id, run } => AtcStep::Finish(
                Ok(AtcOutcome { object_url: self.object_url, variant, worklist_id, run, worklist: text }),
            ),
        }
    }
}

} // verus!
