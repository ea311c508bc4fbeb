//! Running a snippet of ABAP: wrap it in a temporary test program, run the
//! program's unit test and read what it reports, then remove the program.
use vstd::prelude::*;

use crate::errors::{mcp_error_message, NeuroMcpError};
use crate::json::JsonValue;
use crate::mcp::create::invalid_arguments;
use crate::mcp::flow::{lock_handle_of, raw_text, raw_text_of, FlowAction, FlowEvent};
use crate::mcp::paths::enc;
use crate::mcp::pattern::{build_error, captures, regex_build_error, regex_capture_list};
use crate::text::{append, concat, decimal, decimal_string, lower_seq, owned, str_eq, to_lower, to_upper, trim, trim_seq, upper_seq};
use crate::xml::opt_text;

verus! {

/// The arguments of a run, each possibly missing.
#[derive(Clone, Debug, Default)]
pub struct ExecuteAbapArgs {
    pub code: Option<String>,
    pub risk_level: Option<String>,
    pub return_variable: Option<String>,
    pub keep_program: Option<bool>,
    pub program_prefix: Option<String>,
}

/// What became of the temporary program.
#[derive(Debug)]
pub enum Cleanup {
    /// It was kept, as asked.
    Skipped,
    /// It was deleted; the deletion's result.
    Deleted(JsonValue),
    /// Deleting it failed, with this message.
    Failed(String),
}

/// What a finished run reports.
#[derive(Debug)]
pub struct ExecOutcome {
    pub program_name: String,
    pub output: Vec<String>,
    pub tests: JsonValue,
    pub create: JsonValue,
    pub cleanup: Cleanup,
    pub message: String,
}

/// Where a run stands.
#[derive(Clone, Copy, Debug, PartialEq, Eq, Structural)]
pub enum ExecStage {
    AwaitCreate,
    AwaitTests,
    AwaitCleanupLock,
    AwaitCleanupDelete,
}

/// A run in progress.
#[derive(Debug)]
pub struct ExecuteAbapFlow {
    pub tool: String,
    pub program_name: String,
    pub keep_program: bool,
    pub object_url: String,
    pub create: JsonValue,
    pub tests: JsonValue,
    pub output: Vec<String>,
    pub stage: ExecStage,
}

/// The next step of a run, or its end.
#[derive(Debug)]
pub enum ExecStep {
    Next(ExecuteAbapFlow, FlowAction),
    Finish(Result<ExecOutcome, NeuroMcpError>),
}

/// `s` padded on the left with zeros to `width` characters.
pub open spec fn zero_padded(s: Seq<char>, width: nat) -> Seq<char> {
    if s.len() >= width {
        s
    } else {
        Seq::new((width - s.len()) as nat, |i: int| '0') + s
    }
}

/// The name of the temporary program: the upper-cased prefix
/// (`ZTEMP_EXEC_` by default) and the last eight decimal digits of the
/// clock in milliseconds.
pub open spec fn spec_program_name(prefix: Option<Seq<char>>, millis: u64) -> Seq<char> {
    upper_seq(match prefix {
        Some(p) => p,
        None => "ZTEMP_EXEC_"@,
    }) + zero_padded(decimal((millis % 100_000_000) as nat), 8)
}

/// The risk level clause of the test class: dangerous or critical when
/// asked (in any letter case), harmless otherwise.
pub open spec fn spec_risk_clause(risk_level: Option<Seq<char>>) -> Seq<char> {
    let l = lower_seq(match risk_level {
        Some(r) => r,
        None => "harmless"@,
    });
    if l == "dangerous"@ {
        "RISK LEVEL DANGEROUS"@
    } else if l == "critical"@ {
        "RISK LEVEL CRITICAL"@
    } else {
        "RISK LEVEL HARMLESS"@
    }
}

/// The source of the temporary program: a report whose local test class
/// runs the snippet and fails with the value of the result variable, so
/// that the test report carries it.
pub open spec fn spec_exec_source(program_name: Seq<char>, risk: Seq<char>, return_variable: Seq<char>, code: Seq<char>) -> Seq<char> {
    "REPORT "@ + program_name + ".\n\nCLASS ltc_executor DEFINITION FOR TESTING "@ + risk
        + " DURATION SHORT.\n  PUBLIC SECTION.\n    METHODS execute_payload FOR TESTING.\nENDCLASS.\n\nCLASS ltc_executor IMPLEMENTATION.\n  METHOD execute_payload.\n    DATA "@
        + return_variable + " TYPE string.\n    "@ + code
        + "\n    cl_abap_unit_assert=>fail( msg = |EXEC_RESULT:{ "@ + return_variable
        + " }| ).\n  ENDMETHOD.\nENDCLASS.\n"@
}

/// `millis % 10^8`, zero-padded to eight digits.
fn clock_suffix(millis: u64) -> (r: String)
    ensures
        r@ == zero_padded(decimal((millis % 100_000_000) as nat), 8),
{
    let digits = decimal_string(millis % 100_000_000);
    let n = crate::text::to_chars(digits.as_str()).len();
    let mut r = String::new();
    if n < 8 {
        let mut k: usize = 0;
        while k < 8 - n
            invariant
                k <= 8 - n,
                n < 8,
                r@ == Seq::new(k as nat, |i: int| '0'),
            decreases 8 - n - k,
        {
            crate::text::push_char(&mut r, '0');
            assert(r@ =~= Seq::new((k + 1) as nat, |i: int| '0'));
            k += 1;
        }
    }
    append(&mut r, digits.as_str());
    assert(r@ =~= zero_padded(decimal((millis % 100_000_000) as nat), 8));
    r
}

/// `r` refuses the call for `tool` with `message`.
pub open spec fn exec_refuses(r: ExecStep, tool: Seq<char>, message: Seq<char>) -> bool {
    r matches ExecStep::Finish(Err(NeuroMcpError::InvalidArguments { tool: t, message: m })) && t@
        == tool && m@ == message
}

/// How a run starts, at `millis` on the clock: the code must be given; the
/// temporary program (`lv_result` as result variable by default) is
/// created in `$TMP` and activated.
pub open spec fn exec_start_ok(args: ExecuteAbapArgs, tool: Seq<char>, millis: u64, r: ExecStep) -> bool {
    match args.code {
        None => exec_refuses(r, tool, "code is required"@),
        Some(code) => {
            let name = spec_program_name(opt_text(args.program_prefix), millis);
            r matches ExecStep::Next(g, FlowAction::CreateAndActivateProgram { program_name, description, package_name, source })
                && g.tool@ == tool && g.program_name@ == name && g.keep_program == (args.keep_program
                == Some(true)) && g.stage == ExecStage::AwaitCreate && program_name@ == name
                && description@ == "Temp program for ExecuteABAP"@ && package_name@ == "$TMP"@
                && source@ == spec_exec_source(
                name,
                spec_risk_clause(opt_text(args.risk_level)),
                match args.return_variable {
                    Some(v) => v@,
                    None => "lv_result"@,
                },
                code@,
            )
        },
    }
}

/// The pattern of a reported result in the test report.
pub open spec fn exec_result_pattern() -> Seq<char> {
    "EXEC_RESULT:([^<\\r\\n]+)"@
}

/// The reported results among the matches of the result pattern, each
/// trimmed, in order.
pub open spec fn exec_output(matches: Seq<Seq<Option<Seq<char>>>>) -> Seq<Seq<char>>
    decreases matches.len(),
{
    if matches.len() == 0 {
        Seq::empty()
    } else {
        let rest = exec_output(matches.drop_last());
        let m = matches.last();
        if m.len() > 1 {
            match m[1] {
                Some(v) => rest.push(trim_seq(v)),
                None => rest,
            }
        } else {
            rest
        }
    }
}

/// The message of a finished run.
pub open spec fn exec_message(output_empty: bool) -> Seq<char> {
    if output_empty {
        "Executed successfully (no EXEC_RESULT output captured)"@
    } else {
        "Executed successfully"@
    }
}

/// `o` reports the run `f` with the given cleanup.
pub open spec fn reports(f: ExecuteAbapFlow, o: ExecOutcome) -> bool {
    &&& o.program_name == f.program_name
    &&& o.output == f.output
    &&& o.tests == f.tests
    &&& o.create == f.create
    &&& o.message@ == exec_message(f.output@.len() == 0)
}

/// What a run does with `event` at its stage: a failed step ends it with
/// that failure, but for the removal of the program, whose failure is
/// reported by its message.
pub open spec fn exec_step_ok(f: ExecuteAbapFlow, event: FlowEvent, r: ExecStep) -> bool {
    match (f.stage, event) {
        (ExecStage::AwaitCleanupLock, FlowEvent::Failed(e)) | (
            ExecStage::AwaitCleanupDelete,
            FlowEvent::Failed(e),
        ) => r matches ExecStep::Finish(Ok(o)) && reports(f, o) && (o.cleanup matches Cleanup::Failed(m)
            && (mcp_error_message(e) matches Some(x) ==> m@ == x)),
        (_, FlowEvent::Failed(e)) => r matches ExecStep::Finish(Err(x)) && x == e,
        (ExecStage::AwaitCreate, FlowEvent::Value(v)) => r matches ExecStep::Next(
            g,
            FlowAction::RunUnitTests { object_url },
        ) && g.tool == f.tool && g.program_name == f.program_name && g.keep_program
            == f.keep_program && g.create == v && g.stage == ExecStage::AwaitTests && g.object_url@
            == "/sap/bc/adt/programs/programs/"@ + enc(upper_seq(f.program_name@)) && object_url@
            == g.object_url@,
        (ExecStage::AwaitTests, FlowEvent::Value(v)) => match regex_build_error(exec_result_pattern(), false) {
            Some(m) => exec_refuses(r, f.tool@, "failed to compile execution output regex: "@ + m),
            None => {
                let output = exec_output(regex_capture_list(exec_result_pattern(), false, raw_text_of(v)));
                if f.keep_program {
                    r matches ExecStep::Finish(Ok(o)) && o.program_name == f.program_name
                        && o.output@.map_values(|s: String| s@) == output && o.tests == v && o.create
                        == f.create && o.cleanup is Skipped && o.message@ == exec_message(output.len() == 0)
                } else {
                    r matches ExecStep::Next(g, FlowAction::Lock { object_url }) && g.tool == f.tool
                        && g.program_name == f.program_name && g.create == f.create && g.tests == v
                        && g.output@.map_values(|s: String| s@) == output && g.object_url == f.object_url
                        && g.stage == ExecStage::AwaitCleanupLock && object_url@ == f.object_url@
                }
            },
        },
        (ExecStage::AwaitCleanupLock, FlowEvent::Value(lock)) => match lock_handle_of(lock) {
            None => r matches ExecStep::Finish(Ok(o)) && reports(f, o) && (o.cleanup matches Cleanup::Failed(m)
                && m@ == "missing lockHandle"@),
            Some(h) => r matches ExecStep::Next(g, FlowAction::DeleteObject { object_url, lock_handle, transport })
                && g.tool == f.tool && g.program_name == f.program_name && g.create == f.create
                && g.tests == f.tests && g.output == f.output && g.object_url == f.object_url
                && g.stage == ExecStage::AwaitCleanupDelete && object_url@ == f.object_url@
                && lock_handle@ == h && transport is None,
        },
        (ExecStage::AwaitCleanupDelete, FlowEvent::Value(d)) => r matches ExecStep::Finish(Ok(o))
            && reports(f, o) && o.cleanup == Cleanup::Deleted(d),
        _ => true,
    }
}

impl ExecuteAbapFlow {
    /// Starts a run at `millis` on the clock.
    pub fn start(args: ExecuteAbapArgs, tool_name: &str, millis: u64) -> (r: ExecStep)
        ensures
            exec_start_ok(args, tool_name@, millis, r),
    {
        let code = match args.code {
            Some(c) => c,
            None => {
                return ExecStep::Finish(Err(invalid_arguments(tool_name, "code is required")));
            },
        };
        let prefix = match &args.program_prefix {
            Some(p) => to_upper(p.as_str()),
            None => to_upper("ZTEMP_EXEC_"),
        };
        let return_variable = match args.return_variable {
            Some(v) => v,
            None => owned("lv_result"),
        };
        let program_name = concat(prefix.as_str(), clock_suffix(millis).as_str());
        let risk = match &args.risk_level {
            Some(r) => to_lower(r.as_str()),
            None => to_lower("harmless"),
        };
        let risk_clause = if str_eq(risk.as_str(), "dangerous") {
            "RISK LEVEL DANGEROUS"
        } else if str_eq(risk.as_str(), "critical") {
            "RISK LEVEL CRITICAL"
        } else {
            "RISK LEVEL HARMLESS"
        };
        let mut source = concat("REPORT ", program_name.as_str());
        append(&mut source, ".\n\nCLASS ltc_executor DEFINITION FOR TESTING ");
        append(&mut source, risk_clause);
        append(
            &mut source,
            " DURATION SHORT.\n  PUBLIC SECTION.\n    METHODS execute_payload FOR TESTING.\nENDCLASS.\n\nCLASS ltc_executor IMPLEMENTATION.\n  METHOD execute_payload.\n    DATA ",
        );
        append(&mut source, return_variable.as_str());
        append(&mut source, " TYPE string.\n    ");
        append(&mut source, code.as_str());
        append(&mut source, "\n    cl_abap_unit_assert=>fail( msg = |EXEC_RESULT:{ ");
        append(&mut source, return_variable.as_str());
        append(&mut source, " }| ).\n  ENDMETHOD.\nENDCLASS.\n");
        let keep_program = match args.keep_program {
            Some(b) => b,
            None => false,
        };
        let action = FlowAction::CreateAndActivateProgram {
            program_name: program_name.clone(),
            description: owned("Temp program for ExecuteABAP"),
            package_name: owned("$TMP"),
            source,
        };
        let flow = ExecuteAbapFlow {
            tool: owned(tool_name),
            program_name,
            keep_program,
            object_url: String::new(),
            create: JsonValue::Null,
            tests: JsonValue::Null,
            output: Vec::new(),
            stage: ExecStage::AwaitCreate,
        };
        ExecStep::Next(flow, action)
    }

    /// The report of the finished run, with this cleanup.
    fn finish(self, cleanup: Cleanup) -> (r: ExecStep)
        ensures
            r matches ExecStep::Finish(Ok(o)) && reports(self, o) && o.cleanup == cleanup,
    {
        let message = if self.output.len() == 0 {
            owned("Executed successfully (no EXEC_RESULT output captured)")
        } else {
            owned("Executed successfully")
        };
        ExecStep::Finish(
            Ok(
                ExecOutcome {
                    program_name: self.program_name,
                    output: self.output,
                    tests: self.tests,
                    create: self.create,
                    cleanup,
                    message,
                },
            ),
        )
    }

    /// Takes the outcome of the awaited step and says what comes next.
    pub fn resume(self, event: FlowEvent) -> (r: ExecStep)
        requires
            event is Failed || event is Value,
        ensures
            exec_step_ok(self, event, r),
    {
        match (self.stage, event) {
            (ExecStage::AwaitCleanupLock, FlowEvent::Failed(e)) => {
                let m = e.message();
                self.finish(Cleanup::Failed(m))
            },
            (ExecStage::AwaitCleanupDelete, FlowEvent::Failed(e)) => {
                let m = e.message();
                self.finish(Cleanup::Failed(m))
            },
            (_, FlowEvent::Failed(e)) => ExecStep::Finish(Err(e)),
            (ExecStage::AwaitCreate, FlowEvent::Value(v)) => {
                let mut url = owned("/sap/bc/adt/programs/programs/");
                let encoded = crate::mcp::encode::encode_path_segment(to_upper(self.program_name.as_str()).as_str());
                append(&mut url, encoded.as_str());
                let target = url.clone();
                ExecStep::Next(
                    ExecuteAbapFlow { object_url: url, create: v, stage: ExecStage::AwaitTests, ..self },
                    FlowAction::RunUnitTests { object_url: target },
                )
            },
            (ExecStage::AwaitTests, FlowEvent::Value(v)) => {
                let pattern = "EXEC_RESULT:([^<\\r\\n]+)";
                match build_error(pattern, false) {
                    Some(e) => {
                        let message = concat("failed to compile execution output regex: ", e.as_str());
                        return ExecStep::Finish(Err(invalid_arguments(self.tool.as_str(), message.as_str())));
                    },
                    None => {},
                }
                let raw = raw_text(&v);
                let found = captures(pattern, false, raw.as_str());
                let ghost all = found@.map_values(|m: Vec<Option<String>>| m@.map_values(|g: Option<String>| opt_text(g)));
                let mut output: Vec<String> = Vec::new();
                let mut i: usize = 0;
                while i < found.len()
                    invariant
                        i <= found@.len(),
                        all == found@.map_values(|m: Vec<Option<String>>| m@.map_values(|g: Option<String>| opt_text(g))),
                        output@.map_values(|s: String| s@) == exec_output(all.take(i as int)),
                    decreases found@.len() - i,
                {
                    assert(all.take(i + 1).drop_last() =~= all.take(i as int));
                    assert(all[i as int] == found@[i as int]@.map_values(|g: Option<String>| opt_text(g)));
                    let groups = &found[i];
                    if groups.len() > 1 {
                        match &groups[1] {
                            Some(value) => {
                                let ghost before = output@;
                                let t = trim(value.as_str());
                                let ghost tv = t@;
                                output.push(t);
                                assert(output@.map_values(|s: String| s@) =~= before.map_values(|s: String| s@).push(tv));
                            },
                            None => {},
                        }
                    }
                    i += 1;
                }
                assert(all.take(found@.len() as int) =~= all);
                let keep = self.keep_program;
                let flow = ExecuteAbapFlow { tests: v, output, ..self };
                if keep {
                    flow.finish(Cleanup::Skipped)
                } else {
                    let target = flow.object_url.clone();
                    ExecStep::Next(
                        ExecuteAbapFlow { stage: ExecStage::AwaitCleanupLock, ..flow },
                        FlowAction::Lock { object_url: target },
                    )
                }
            },
            (ExecStage::AwaitCleanupLock, FlowEvent::Value(lock)) => {
                let keys = ["lockHandle"];
                assert(crate::mcp::jsonx::keys_view(keys@) =~= seq!["lockHandle"@]);
                match crate::mcp::jsonx::extract_json_string(&lock, &keys) {
                    Some(h) => {
                        let target = self.object_url.clone();
                        ExecStep::Next(
                            ExecuteAbapFlow { stage: ExecStage::AwaitCleanupDelete, ..self },
                            FlowAction::DeleteObject { object_url: target, lock_handle: h, transport: None },
                        )
                    },
                    None => self.finish(Cleanup::Failed(owned("missing lockHandle"))),
                }
            },
            (ExecStage::AwaitCleanupDelete, FlowEvent::Value(d)) => self.finish(Cleanup::Deleted(d)),
            _ => vstd::pervasive::unreached(),
        }
    }
}

} // verus!
