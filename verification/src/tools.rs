//! The tool catalog: which tool names exist, which are implemented, how a
//! call is routed to its handler, and the sorted registry of tool specs.
use vstd::prelude::*;

use crate::errors::NeuroMcpError;
use crate::text::{append, str_eq};

verus! {

/// A source path family, with the argument names that may carry the
/// object's name.
#[derive(Clone, Copy, Debug, PartialEq, Eq, Structural)]
pub enum SourcePattern {
    Program,
    Class,
    Interface,
    Include,
    FunctionGroup,
    Table,
    Structure,
}

/// The path pattern of a source family; `{name}` stands for the object's
/// (encoded) name.
pub open spec fn spec_path_pattern(p: SourcePattern) -> Seq<char> {
    match p {
        SourcePattern::Program => "/sap/bc/adt/programs/programs/{name}/source/main"@,
        SourcePattern::Class => "/sap/bc/adt/oo/classes/{name}/source/main"@,
        SourcePattern::Interface => "/sap/bc/adt/oo/interfaces/{name}/source/main"@,
        SourcePattern::Include => "/sap/bc/adt/programs/includes/{name}/source/main"@,
        SourcePattern::FunctionGroup => "/sap/bc/adt/functions/groups/{name}"@,
        SourcePattern::Table => "/sap/bc/adt/ddic/tables/{name}/source/main"@,
        SourcePattern::Structure => "/sap/bc/adt/ddic/structures/{name}/source/main"@,
    }
}

/// The argument names that may carry the object's name, in order of
/// preference.
pub open spec fn spec_name_keys(p: SourcePattern) -> Seq<Seq<char>> {
    match p {
        SourcePattern::Program => seq!["programName"@, "program_name"@, "name"@],
        SourcePattern::Class => seq!["className"@, "class_name"@, "name"@],
        SourcePattern::Interface => seq!["interfaceName"@, "interface_name"@, "name"@],
        SourcePattern::Include => seq!["includeName"@, "include_name"@, "name"@],
        SourcePattern::FunctionGroup => seq!["groupName"@, "group_name"@, "name"@],
        SourcePattern::Table => seq!["tableName"@, "table_name"@, "name"@],
        SourcePattern::Structure => seq!["structureName"@, "structure_name"@, "name"@],
    }
}

impl SourcePattern {
    /// The path pattern of this family.
    pub fn path_pattern(&self) -> (r: &'static str)
        ensures
            r@ == spec_path_pattern(*self),
    {
        match self {
            SourcePattern::Program => "/sap/bc/adt/programs/programs/{name}/source/main",
            SourcePattern::Class => "/sap/bc/adt/oo/classes/{name}/source/main",
            SourcePattern::Interface => "/sap/bc/adt/oo/interfaces/{name}/source/main",
            SourcePattern::Include => "/sap/bc/adt/programs/includes/{name}/source/main",
            SourcePattern::FunctionGroup => "/sap/bc/adt/functions/groups/{name}",
            SourcePattern::Table => "/sap/bc/adt/ddic/tables/{name}/source/main",
            SourcePattern::Structure => "/sap/bc/adt/ddic/structures/{name}/source/main",
        }
    }

    /// The argument names that may carry the object's name.
    pub fn name_keys(&self) -> (r: Vec<&'static str>)
        ensures
            r@.map_values(|k: &str| k@) == spec_name_keys(*self),
    {
        let r: Vec<&'static str> = match self {
            SourcePattern::Program => vec!["programName", "program_name", "name"],
            SourcePattern::Class => vec!["className", "class_name", "name"],
            SourcePattern::Interface => vec!["interfaceName", "interface_name", "name"],
            SourcePattern::Include => vec!["includeName", "include_name", "name"],
            SourcePattern::FunctionGroup => vec!["groupName", "group_name", "name"],
            SourcePattern::Table => vec!["tableName", "table_name", "name"],
            SourcePattern::Structure => vec!["structureName", "structure_name", "name"],
        };
        assert(r@.map_values(|k: &str| k@) =~= spec_name_keys(*self));
        r
    }
}

/// The handler that serves a tool call.
#[derive(Clone, Copy, Debug, PartialEq, Eq, Structural)]
pub enum ToolRoute {
    Diagnose,
    Search,
    GetSource,
    SourceByPattern(SourcePattern),
    GetFunction,
    RawByPattern(SourcePattern),
    GetMessages,
    GetPackage,
    GetTableContents,
    GetTransaction,
    GetTypeInfo,
    GetCdsDependencies,
    GetClassInfo,
    GetClassInclude,
    UpdateClassInclude,
    CreateTestInclude,
    GetObjectStructure,
    GetClassComponents,
    GetCallGraph,
    GetCallersOf,
    GetCalleesOf,
    AnalyzeCallGraph,
    CompareCallGraphs,
    TraceExecution,
    GetInactiveObjects,
    GetInstalledComponents,
    GetAtcCustomizing,
    GetSystemInfo,
    GetConnectionInfo,
    GetFeatures,
    PrettyPrint,
    GetPrettyPrinterSettings,
    SetPrettyPrinterSettings,
    FindDefinition,
    FindReferences,
    CodeCompletion,
    GrepObject,
    GrepObjects,
    GrepPackage,
    GrepPackages,
    RunUnitTests,
    RunAtcCheck,
    ActivatePackage,
    GetUserTransports,
    GetTransportInfo,
    ListTransports,
    GetTransport,
    CreateTransport,
    ReleaseTransport,
    DeleteTransport,
    ListDumps,
    GetDump,
    ListTraces,
    GetTrace,
    GetSqlTraceState,
    ListSqlTraces,
    RunReport,
    RunReportAsync,
    GetAsyncResult,
    GetVariants,
    GetTextElements,
    SetTextElements,
    SetBreakpoint,
    GetBreakpoints,
    DeleteBreakpoint,
    DebuggerListen,
    DebuggerAttach,
    DebuggerDetach,
    DebuggerStep,
    DebuggerGetStack,
    DebuggerGetVariables,
    AmdpStart,
    AmdpResume,
    AmdpStop,
    AmdpStep,
    AmdpGetVariables,
    AmdpSetBreakpoint,
    AmdpGetBreakpoints,
    Ui5ListApps,
    Ui5GetApp,
    Ui5GetFileContent,
    Ui5UploadFile,
    Ui5DeleteFile,
    Ui5CreateApp,
    Ui5DeleteApp,
    CallRfc,
    ExecuteAbap,
    MoveObject,
    GetTypeHierarchy,
    GitTypes,
    GitExport,
    InstallZadtvsp,
    InstallAbapGit,
    ListDependencies,
    InstallDummyTest,
    CreateObject,
    CreatePackage,
    CreateTable,
    CreateAndActivateProgram,
    CreateClassWithTests,
    DeleteObject,
    CloneObject,
    RenameObject,
    CompareSource,
    EditSource,
    SaveToFile,
    DeployFromFile,
    PublishServiceBinding(bool),
    LockObject,
    UnlockObject,
    Activate,
    SyntaxCheck,
    UpdateSource,
    UpdateSourceByPattern(SourcePattern),
    WsRequest,
}

/// The handler of the tool named `name`, `None` for an unknown name.
pub open spec fn spec_route(name: Seq<char>) -> Option<ToolRoute> {
    if name == "diagnose"@ {
        Some(ToolRoute::Diagnose)
    } else if name == "search"@ {
        Some(ToolRoute::Search)
    } else if name == "SearchObject"@ {
        Some(ToolRoute::Search)
    } else if name == "get_source"@ {
        Some(ToolRoute::GetSource)
    } else if name == "GetSource"@ {
        Some(ToolRoute::GetSource)
    } else if name == "GetProgram"@ {
        Some(ToolRoute::SourceByPattern(SourcePattern::Program))
    } else if name == "GetClass"@ {
        Some(ToolRoute::SourceByPattern(SourcePattern::Class))
    } else if name == "GetInterface"@ {
        Some(ToolRoute::SourceByPattern(SourcePattern::Interface))
    } else if name == "GetInclude"@ {
        Some(ToolRoute::SourceByPattern(SourcePattern::Include))
    } else if name == "GetFunction"@ {
        Some(ToolRoute::GetFunction)
    } else if name == "GetFunctionGroup"@ {
        Some(ToolRoute::RawByPattern(SourcePattern::FunctionGroup))
    } else if name == "GetMessages"@ {
        Some(ToolRoute::GetMessages)
    } else if name == "GetPackage"@ {
        Some(ToolRoute::GetPackage)
    } else if name == "GetTable"@ {
        Some(ToolRoute::SourceByPattern(SourcePattern::Table))
    } else if name == "GetTableContents"@ {
        Some(ToolRoute::GetTableContents)
    } else if name == "GetStructure"@ {
        Some(ToolRoute::SourceByPattern(SourcePattern::Structure))
    } else if name == "GetTransaction"@ {
        Some(ToolRoute::GetTransaction)
    } else if name == "GetTypeInfo"@ {
        Some(ToolRoute::GetTypeInfo)
    } else if name == "GetCDSDependencies"@ {
        Some(ToolRoute::GetCdsDependencies)
    } else if name == "GetClassInfo"@ {
        Some(ToolRoute::GetClassInfo)
    } else if name == "GetClassInclude"@ {
        Some(ToolRoute::GetClassInclude)
    } else if name == "UpdateClassInclude"@ {
        Some(ToolRoute::UpdateClassInclude)
    } else if name == "CreateTestInclude"@ {
        Some(ToolRoute::CreateTestInclude)
    } else if name == "GetObjectStructure"@ {
        Some(ToolRoute::GetObjectStructure)
    } else if name == "GetClassComponents"@ {
        Some(ToolRoute::GetClassComponents)
    } else if name == "GetCallGraph"@ {
        Some(ToolRoute::GetCallGraph)
    } else if name == "GetCallersOf"@ {
        Some(ToolRoute::GetCallersOf)
    } else if name == "GetCalleesOf"@ {
        Some(ToolRoute::GetCalleesOf)
    } else if name == "AnalyzeCallGraph"@ {
        Some(ToolRoute::AnalyzeCallGraph)
    } else if name == "CompareCallGraphs"@ {
        Some(ToolRoute::CompareCallGraphs)
    } else if name == "TraceExecution"@ {
        Some(ToolRoute::TraceExecution)
    } else if name == "GetInactiveObjects"@ {
        Some(ToolRoute::GetInactiveObjects)
    } else if name == "GetInstalledComponents"@ {
        Some(ToolRoute::GetInstalledComponents)
    } else if name == "GetATCCustomizing"@ {
        Some(ToolRoute::GetAtcCustomizing)
    } else if name == "GetSystemInfo"@ {
        Some(ToolRoute::GetSystemInfo)
    } else if name == "GetConnectionInfo"@ {
        Some(ToolRoute::GetConnectionInfo)
    } else if name == "GetFeatures"@ {
        Some(ToolRoute::GetFeatures)
    } else if name == "PrettyPrint"@ {
        Some(ToolRoute::PrettyPrint)
    } else if name == "GetPrettyPrinterSettings"@ {
        Some(ToolRoute::GetPrettyPrinterSettings)
    } else if name == "SetPrettyPrinterSettings"@ {
        Some(ToolRoute::SetPrettyPrinterSettings)
    } else if name == "FindDefinition"@ {
        Some(ToolRoute::FindDefinition)
    } else if name == "FindReferences"@ {
        Some(ToolRoute::FindReferences)
    } else if name == "CodeCompletion"@ {
        Some(ToolRoute::CodeCompletion)
    } else if name == "GrepObject"@ {
        Some(ToolRoute::GrepObject)
    } else if name == "GrepObjects"@ {
        Some(ToolRoute::GrepObjects)
    } else if name == "GrepPackage"@ {
        Some(ToolRoute::GrepPackage)
    } else if name == "GrepPackages"@ {
        Some(ToolRoute::GrepPackages)
    } else if name == "RunUnitTests"@ {
        Some(ToolRoute::RunUnitTests)
    } else if name == "RunATCCheck"@ {
        Some(ToolRoute::RunAtcCheck)
    } else if name == "ActivatePackage"@ {
        Some(ToolRoute::ActivatePackage)
    } else if name == "GetUserTransports"@ {
        Some(ToolRoute::GetUserTransports)
    } else if name == "GetTransportInfo"@ {
        Some(ToolRoute::GetTransportInfo)
    } else if name == "ListTransports"@ {
        Some(ToolRoute::ListTransports)
    } else if name == "GetTransport"@ {
        Some(ToolRoute::GetTransport)
    } else if name == "CreateTransport"@ {
        Some(ToolRoute::CreateTransport)
    } else if name == "ReleaseTransport"@ {
        Some(ToolRoute::ReleaseTransport)
    } else if name == "DeleteTransport"@ {
        Some(ToolRoute::DeleteTransport)
    } else if name == "ListDumps"@ {
        Some(ToolRoute::ListDumps)
    } else if name == "GetDump"@ {
        Some(ToolRoute::GetDump)
    } else if name == "ListTraces"@ {
        Some(ToolRoute::ListTraces)
    } else if name == "GetTrace"@ {
        Some(ToolRoute::GetTrace)
    } else if name == "GetSQLTraceState"@ {
        Some(ToolRoute::GetSqlTraceState)
    } else if name == "ListSQLTraces"@ {
        Some(ToolRoute::ListSqlTraces)
    } else if name == "RunReport"@ {
        Some(ToolRoute::RunReport)
    } else if name == "RunReportAsync"@ {
        Some(ToolRoute::RunReportAsync)
    } else if name == "GetAsyncResult"@ {
        Some(ToolRoute::GetAsyncResult)
    } else if name == "GetVariants"@ {
        Some(ToolRoute::GetVariants)
    } else if name == "GetTextElements"@ {
        Some(ToolRoute::GetTextElements)
    } else if name == "SetTextElements"@ {
        Some(ToolRoute::SetTextElements)
    } else if name == "SetBreakpoint"@ {
        Some(ToolRoute::SetBreakpoint)
    } else if name == "GetBreakpoints"@ {
        Some(ToolRoute::GetBreakpoints)
    } else if name == "DeleteBreakpoint"@ {
        Some(ToolRoute::DeleteBreakpoint)
    } else if name == "DebuggerListen"@ {
        Some(ToolRoute::DebuggerListen)
    } else if name == "DebuggerAttach"@ {
        Some(ToolRoute::DebuggerAttach)
    } else if name == "DebuggerDetach"@ {
        Some(ToolRoute::DebuggerDetach)
    } else if name == "DebuggerStep"@ {
        Some(ToolRoute::DebuggerStep)
    } else if name == "DebuggerGetStack"@ {
        Some(ToolRoute::DebuggerGetStack)
    } else if name == "DebuggerGetVariables"@ {
        Some(ToolRoute::DebuggerGetVariables)
    } else if name == "AMDPDebuggerStart"@ {
        Some(ToolRoute::AmdpStart)
    } else if name == "AMDPDebuggerResume"@ {
        Some(ToolRoute::AmdpResume)
    } else if name == "AMDPDebuggerStop"@ {
        Some(ToolRoute::AmdpStop)
    } else if name == "AMDPDebuggerStep"@ {
        Some(ToolRoute::AmdpStep)
    } else if name == "AMDPGetVariables"@ {
        Some(ToolRoute::AmdpGetVariables)
    } else if name == "AMDPSetBreakpoint"@ {
        Some(ToolRoute::AmdpSetBreakpoint)
    } else if name == "AMDPGetBreakpoints"@ {
        Some(ToolRoute::AmdpGetBreakpoints)
    } else if name == "UI5ListApps"@ {
        Some(ToolRoute::Ui5ListApps)
    } else if name == "UI5GetApp"@ {
        Some(ToolRoute::Ui5GetApp)
    } else if name == "UI5GetFileContent"@ {
        Some(ToolRoute::Ui5GetFileContent)
    } else if name == "UI5UploadFile"@ {
        Some(ToolRoute::Ui5UploadFile)
    } else if name == "UI5DeleteFile"@ {
        Some(ToolRoute::Ui5DeleteFile)
    } else if name == "UI5CreateApp"@ {
        Some(ToolRoute::Ui5CreateApp)
    } else if name == "UI5DeleteApp"@ {
        Some(ToolRoute::Ui5DeleteApp)
    } else if name == "CallRFC"@ {
        Some(ToolRoute::CallRfc)
    } else if name == "ExecuteABAP"@ {
        Some(ToolRoute::ExecuteAbap)
    } else if name == "MoveObject"@ {
        Some(ToolRoute::MoveObject)
    } else if name == "GetTypeHierarchy"@ {
        Some(ToolRoute::GetTypeHierarchy)
    } else if name == "GitTypes"@ {
        Some(ToolRoute::GitTypes)
    } else if name == "GitExport"@ {
        Some(ToolRoute::GitExport)
    } else if name == "InstallZADTVSP"@ {
        Some(ToolRoute::InstallZadtvsp)
    } else if name == "InstallAbapGit"@ {
        Some(ToolRoute::InstallAbapGit)
    } else if name == "ListDependencies"@ {
        Some(ToolRoute::ListDependencies)
    } else if name == "InstallDummyTest"@ {
        Some(ToolRoute::InstallDummyTest)
    } else if name == "CreateObject"@ {
        Some(ToolRoute::CreateObject)
    } else if name == "CreatePackage"@ {
        Some(ToolRoute::CreatePackage)
    } else if name == "CreateTable"@ {
        Some(ToolRoute::CreateTable)
    } else if name == "CreateAndActivateProgram"@ {
        Some(ToolRoute::CreateAndActivateProgram)
    } else if name == "CreateClassWithTests"@ {
        Some(ToolRoute::CreateClassWithTests)
    } else if name == "DeleteObject"@ {
        Some(ToolRoute::DeleteObject)
    } else if name == "CloneObject"@ {
        Some(ToolRoute::CloneObject)
    } else if name == "RenameObject"@ {
        Some(ToolRoute::RenameObject)
    } else if name == "CompareSource"@ {
        Some(ToolRoute::CompareSource)
    } else if name == "EditSource"@ {
        Some(ToolRoute::EditSource)
    } else if name == "SaveToFile"@ {
        Some(ToolRoute::SaveToFile)
    } else if name == "ExportToFile"@ {
        Some(ToolRoute::SaveToFile)
    } else if name == "DeployFromFile"@ {
        Some(ToolRoute::DeployFromFile)
    } else if name == "ImportFromFile"@ {
        Some(ToolRoute::DeployFromFile)
    } else if name == "PublishServiceBinding"@ {
        Some(ToolRoute::PublishServiceBinding(true))
    } else if name == "UnpublishServiceBinding"@ {
        Some(ToolRoute::PublishServiceBinding(false))
    } else if name == "LockObject"@ {
        Some(ToolRoute::LockObject)
    } else if name == "UnlockObject"@ {
        Some(ToolRoute::UnlockObject)
    } else if name == "Activate"@ {
        Some(ToolRoute::Activate)
    } else if name == "SyntaxCheck"@ {
        Some(ToolRoute::SyntaxCheck)
    } else if name == "update_source"@ {
        Some(ToolRoute::UpdateSource)
    } else if name == "UpdateSource"@ {
        Some(ToolRoute::UpdateSource)
    } else if name == "WriteSource"@ {
        Some(ToolRoute::UpdateSource)
    } else if name == "WriteProgram"@ {
        Some(ToolRoute::UpdateSourceByPattern(SourcePattern::Program))
    } else if name == "WriteClass"@ {
        Some(ToolRoute::UpdateSourceByPattern(SourcePattern::Class))
    } else if name == "ws_request"@ {
        Some(ToolRoute::WsRequest)
    } else {
        None
    }
}

/// Routes a tool call to its handler by the tool's name.
pub fn route_tool(name: &str) -> (r: Option<ToolRoute>)
    ensures
        r == spec_route(name@),
{
    if str_eq(name, "diagnose") {
        Some(ToolRoute::Diagnose)
    } else if str_eq(name, "search") {
        Some(ToolRoute::Search)
    } else if str_eq(name, "SearchObject") {
        Some(ToolRoute::Search)
    } else if str_eq(name, "get_source") {
        Some(ToolRoute::GetSource)
    } else if str_eq(name, "GetSource") {
        Some(ToolRoute::GetSource)
    } else if str_eq(name, "GetProgram") {
        Some(ToolRoute::SourceByPattern(SourcePattern::Program))
    } else if str_eq(name, "GetClass") {
        Some(ToolRoute::SourceByPattern(SourcePattern::Class))
    } else if str_eq(name, "GetInterface") {
        Some(ToolRoute::SourceByPattern(SourcePattern::Interface))
    } else if str_eq(name, "GetInclude") {
        Some(ToolRoute::SourceByPattern(SourcePattern::Include))
    } else if str_eq(name, "GetFunction") {
        Some(ToolRoute::GetFunction)
    } else if str_eq(name, "GetFunctionGroup") {
        Some(ToolRoute::RawByPattern(SourcePattern::FunctionGroup))
    } else if str_eq(name, "GetMessages") {
        Some(ToolRoute::GetMessages)
    } else if str_eq(name, "GetPackage") {
        Some(ToolRoute::GetPackage)
    } else if str_eq(name, "GetTable") {
        Some(ToolRoute::SourceByPattern(SourcePattern::Table))
    } else if str_eq(name, "GetTableContents") {
        Some(ToolRoute::GetTableContents)
    } else if str_eq(name, "GetStructure") {
        Some(ToolRoute::SourceByPattern(SourcePattern::Structure))
    } else if str_eq(name, "GetTransaction") {
        Some(ToolRoute::GetTransaction)
    } else if str_eq(name, "GetTypeInfo") {
        Some(ToolRoute::GetTypeInfo)
    } else if str_eq(name, "GetCDSDependencies") {
        Some(ToolRoute::GetCdsDependencies)
    } else if str_eq(name, "GetClassInfo") {
        Some(ToolRoute::GetClassInfo)
    } else if str_eq(name, "GetClassInclude") {
        Some(ToolRoute::GetClassInclude)
    } else if str_eq(name, "UpdateClassInclude") {
        Some(ToolRoute::UpdateClassInclude)
    } else if str_eq(name, "CreateTestInclude") {
        Some(ToolRoute::CreateTestInclude)
    } else if str_eq(name, "GetObjectStructure") {
        Some(ToolRoute::GetObjectStructure)
    } else if str_eq(name, "GetClassComponents") {
        Some(ToolRoute::GetClassComponents)
    } else if str_eq(name, "GetCallGraph") {
        Some(ToolRoute::GetCallGraph)
    } else if str_eq(name, "GetCallersOf") {
        Some(ToolRoute::GetCallersOf)
    } else if str_eq(name, "GetCalleesOf") {
        Some(ToolRoute::GetCalleesOf)
    } else if str_eq(name, "AnalyzeCallGraph") {
        Some(ToolRoute::AnalyzeCallGraph)
    } else if str_eq(name, "CompareCallGraphs") {
        Some(ToolRoute::CompareCallGraphs)
    } else if str_eq(name, "TraceExecution") {
        Some(ToolRoute::TraceExecution)
    } else if str_eq(name, "GetInactiveObjects") {
        Some(ToolRoute::GetInactiveObjects)
    } else if str_eq(name, "GetInstalledComponents") {
        Some(ToolRoute::GetInstalledComponents)
    } else if str_eq(name, "GetATCCustomizing") {
        Some(ToolRoute::GetAtcCustomizing)
    } else if str_eq(name, "GetSystemInfo") {
        Some(ToolRoute::GetSystemInfo)
    } else if str_eq(name, "GetConnectionInfo") {
        Some(ToolRoute::GetConnectionInfo)
    } else if str_eq(name, "GetFeatures") {
        Some(ToolRoute::GetFeatures)
    } else if str_eq(name, "PrettyPrint") {
        Some(ToolRoute::PrettyPrint)
    } else if str_eq(name, "GetPrettyPrinterSettings") {
        Some(ToolRoute::GetPrettyPrinterSettings)
    } else if str_eq(name, "SetPrettyPrinterSettings") {
        Some(ToolRoute::SetPrettyPrinterSettings)
    } else if str_eq(name, "FindDefinition") {
        Some(ToolRoute::FindDefinition)
    } else if str_eq(name, "FindReferences") {
        Some(ToolRoute::FindReferences)
    } else if str_eq(name, "CodeCompletion") {
        Some(ToolRoute::CodeCompletion)
    } else if str_eq(name, "GrepObject") {
        Some(ToolRoute::GrepObject)
    } else if str_eq(name, "GrepObjects") {
        Some(ToolRoute::GrepObjects)
    } else if str_eq(name, "GrepPackage") {
        Some(ToolRoute::GrepPackage)
    } else if str_eq(name, "GrepPackages") {
        Some(ToolRoute::GrepPackages)
    } else if str_eq(name, "RunUnitTests") {
        Some(ToolRoute::RunUnitTests)
    } else if str_eq(name, "RunATCCheck") {
        Some(ToolRoute::RunAtcCheck)
    } else if str_eq(name, "ActivatePackage") {
        Some(ToolRoute::ActivatePackage)
    } else if str_eq(name, "GetUserTransports") {
        Some(ToolRoute::GetUserTransports)
    } else if str_eq(name, "GetTransportInfo") {
        Some(ToolRoute::GetTransportInfo)
    } else if str_eq(name, "ListTransports") {
        Some(ToolRoute::ListTransports)
    } else if str_eq(name, "GetTransport") {
        Some(ToolRoute::GetTransport)
    } else if str_eq(name, "CreateTransport") {
        Some(ToolRoute::CreateTransport)
    } else if str_eq(name, "ReleaseTransport") {
        Some(ToolRoute::ReleaseTransport)
    } else if str_eq(name, "DeleteTransport") {
        Some(ToolRoute::DeleteTransport)
    } else if str_eq(name, "ListDumps") {
        Some(ToolRoute::ListDumps)
    } else if str_eq(name, "GetDump") {
        Some(ToolRoute::GetDump)
    } else if str_eq(name, "ListTraces") {
        Some(ToolRoute::ListTraces)
    } else if str_eq(name, "GetTrace") {
        Some(ToolRoute::GetTrace)
    } else if str_eq(name, "GetSQLTraceState") {
        Some(ToolRoute::GetSqlTraceState)
    } else if str_eq(name, "ListSQLTraces") {
        Some(ToolRoute::ListSqlTraces)
    } else if str_eq(name, "RunReport") {
        Some(ToolRoute::RunReport)
    } else if str_eq(name, "RunReportAsync") {
        Some(ToolRoute::RunReportAsync)
    } else if str_eq(name, "GetAsyncResult") {
        Some(ToolRoute::GetAsyncResult)
    } else if str_eq(name, "GetVariants") {
        Some(ToolRoute::GetVariants)
    } else if str_eq(name, "GetTextElements") {
        Some(ToolRoute::GetTextElements)
    } else if str_eq(name, "SetTextElements") {
        Some(ToolRoute::SetTextElements)
    } else if str_eq(name, "SetBreakpoint") {
        Some(ToolRoute::SetBreakpoint)
    } else if str_eq(name, "GetBreakpoints") {
        Some(ToolRoute::GetBreakpoints)
    } else if str_eq(name, "DeleteBreakpoint") {
        Some(ToolRoute::DeleteBreakpoint)
    } else if str_eq(name, "DebuggerListen") {
        Some(ToolRoute::DebuggerListen)
    } else if str_eq(name, "DebuggerAttach") {
        Some(ToolRoute::DebuggerAttach)
    } else if str_eq(name, "DebuggerDetach") {
        Some(ToolRoute::DebuggerDetach)
    } else if str_eq(name, "DebuggerStep") {
        Some(ToolRoute::DebuggerStep)
    } else if str_eq(name, "DebuggerGetStack") {
        Some(ToolRoute::DebuggerGetStack)
    } else if str_eq(name, "DebuggerGetVariables") {
        Some(ToolRoute::DebuggerGetVariables)
    } else if str_eq(name, "AMDPDebuggerStart") {
        Some(ToolRoute::AmdpStart)
    } else if str_eq(name, "AMDPDebuggerResume") {
        Some(ToolRoute::AmdpResume)
    } else if str_eq(name, "AMDPDebuggerStop") {
        Some(ToolRoute::AmdpStop)
    } else if str_eq(name, "AMDPDebuggerStep") {
        Some(ToolRoute::AmdpStep)
    } else if str_eq(name, "AMDPGetVariables") {
        Some(ToolRoute::AmdpGetVariables)
    } else if str_eq(name, "AMDPSetBreakpoint") {
        Some(ToolRoute::AmdpSetBreakpoint)
    } else if str_eq(name, "AMDPGetBreakpoints") {
        Some(ToolRoute::AmdpGetBreakpoints)
    } else if str_eq(name, "UI5ListApps") {
        Some(ToolRoute::Ui5ListApps)
    } else if str_eq(name, "UI5GetApp") {
        Some(ToolRoute::Ui5GetApp)
    } else if str_eq(name, "UI5GetFileContent") {
        Some(ToolRoute::Ui5GetFileContent)
    } else if str_eq(name, "UI5UploadFile") {
        Some(ToolRoute::Ui5UploadFile)
    } else if str_eq(name, "UI5DeleteFile") {
        Some(ToolRoute::Ui5DeleteFile)
    } else if str_eq(name, "UI5CreateApp") {
        Some(ToolRoute::Ui5CreateApp)
    } else if str_eq(name, "UI5DeleteApp") {
        Some(ToolRoute::Ui5DeleteApp)
    } else if str_eq(name, "CallRFC") {
        Some(ToolRoute::CallRfc)
    } else if str_eq(name, "ExecuteABAP") {
        Some(ToolRoute::ExecuteAbap)
    } else if str_eq(name, "MoveObject") {
        Some(ToolRoute::MoveObject)
    } else if str_eq(name, "GetTypeHierarchy") {
        Some(ToolRoute::GetTypeHierarchy)
    } else if str_eq(name, "GitTypes") {
        Some(ToolRoute::GitTypes)
    } else if str_eq(name, "GitExport") {
        Some(ToolRoute::GitExport)
    } else if str_eq(name, "InstallZADTVSP") {
        Some(ToolRoute::InstallZadtvsp)
    } else if str_eq(name, "InstallAbapGit") {
        Some(ToolRoute::InstallAbapGit)
    } else if str_eq(name, "ListDependencies") {
        Some(ToolRoute::ListDependencies)
    } else if str_eq(name, "InstallDummyTest") {
        Some(ToolRoute::InstallDummyTest)
    } else if str_eq(name, "CreateObject") {
        Some(ToolRoute::CreateObject)
    } else if str_eq(name, "CreatePackage") {
        Some(ToolRoute::CreatePackage)
    } else if str_eq(name, "CreateTable") {
        Some(ToolRoute::CreateTable)
    } else if str_eq(name, "CreateAndActivateProgram") {
        Some(ToolRoute::CreateAndActivateProgram)
    } else if str_eq(name, "CreateClassWithTests") {
        Some(ToolRoute::CreateClassWithTests)
    } else if str_eq(name, "DeleteObject") {
        Some(ToolRoute::DeleteObject)
    } else if str_eq(name, "CloneObject") {
        Some(ToolRoute::CloneObject)
    } else if str_eq(name, "RenameObject") {
        Some(ToolRoute::RenameObject)
    } else if str_eq(name, "CompareSource") {
        Some(ToolRoute::CompareSource)
    } else if str_eq(name, "EditSource") {
        Some(ToolRoute::EditSource)
    } else if str_eq(name, "SaveToFile") {
        Some(ToolRoute::SaveToFile)
    } else if str_eq(name, "ExportToFile") {
        Some(ToolRoute::SaveToFile)
    } else if str_eq(name, "DeployFromFile") {
        Some(ToolRoute::DeployFromFile)
    } else if str_eq(name, "ImportFromFile") {
        Some(ToolRoute::DeployFromFile)
    } else if str_eq(name, "PublishServiceBinding") {
        Some(ToolRoute::PublishServiceBinding(true))
    } else if str_eq(name, "UnpublishServiceBinding") {
        Some(ToolRoute::PublishServiceBinding(false))
    } else if str_eq(name, "LockObject") {
        Some(ToolRoute::LockObject)
    } else if str_eq(name, "UnlockObject") {
        Some(ToolRoute::UnlockObject)
    } else if str_eq(name, "Activate") {
        Some(ToolRoute::Activate)
    } else if str_eq(name, "SyntaxCheck") {
        Some(ToolRoute::SyntaxCheck)
    } else if str_eq(name, "update_source") {
        Some(ToolRoute::UpdateSource)
    } else if str_eq(name, "UpdateSource") {
        Some(ToolRoute::UpdateSource)
    } else if str_eq(name, "WriteSource") {
        Some(ToolRoute::UpdateSource)
    } else if str_eq(name, "WriteProgram") {
        Some(ToolRoute::UpdateSourceByPattern(SourcePattern::Program))
    } else if str_eq(name, "WriteClass") {
        Some(ToolRoute::UpdateSourceByPattern(SourcePattern::Class))
    } else if str_eq(name, "ws_request") {
        Some(ToolRoute::WsRequest)
    } else {
        None
    }
}

/// The tool names of the parity catalog, in catalog order (one name is
/// listed twice).
pub open spec fn vbs_tool_names() -> Seq<Seq<char>> {
    seq![
        "GetSource"@,
        "GetProgram"@,
        "GetClass"@,
        "GetInterface"@,
        "GetFunction"@,
        "GetFunctionGroup"@,
        "GetInclude"@,
        "GetTable"@,
        "GetTableContents"@,
        "GetStructure"@,
        "GetPackage"@,
        "GetMessages"@,
        "GetTransaction"@,
        "GetTypeInfo"@,
        "GetClassInfo"@,
        "GetClassComponents"@,
        "GetClassInclude"@,
        "GetCDSDependencies"@,
        "WriteSource"@,
        "WriteClass"@,
        "WriteProgram"@,
        "EditSource"@,
        "UpdateSource"@,
        "CreateObject"@,
        "DeleteObject"@,
        "CloneObject"@,
        "RenameObject"@,
        "MoveObject"@,
        "LockObject"@,
        "UnlockObject"@,
        "SearchObject"@,
        "GrepObjects"@,
        "GrepPackages"@,
        "GrepObject"@,
        "GrepPackage"@,
        "SyntaxCheck"@,
        "Activate"@,
        "ActivatePackage"@,
        "PrettyPrint"@,
        "GetPrettyPrinterSettings"@,
        "SetPrettyPrinterSettings"@,
        "RunUnitTests"@,
        "RunATCCheck"@,
        "GetATCCustomizing"@,
        "GetInactiveObjects"@,
        "CreatePackage"@,
        "CreateTable"@,
        "CompareSource"@,
        "CreateClassWithTests"@,
        "CreateTestInclude"@,
        "CreateAndActivateProgram"@,
        "UpdateClassInclude"@,
        "FindDefinition"@,
        "FindReferences"@,
        "CodeCompletion"@,
        "GetTypeHierarchy"@,
        "GetCallGraph"@,
        "GetCallersOf"@,
        "GetCalleesOf"@,
        "GetObjectStructure"@,
        "AnalyzeCallGraph"@,
        "CompareCallGraphs"@,
        "TraceExecution"@,
        "GetSystemInfo"@,
        "GetInstalledComponents"@,
        "GetATCCustomizing"@,
        "GetConnectionInfo"@,
        "GetFeatures"@,
        "ListDumps"@,
        "GetDump"@,
        "ListTraces"@,
        "GetTrace"@,
        "GetSQLTraceState"@,
        "ListSQLTraces"@,
        "ImportFromFile"@,
        "ExportToFile"@,
        "DeployFromFile"@,
        "SaveToFile"@,
        "ListTransports"@,
        "GetTransport"@,
        "GetTransportInfo"@,
        "GetUserTransports"@,
        "CreateTransport"@,
        "ReleaseTransport"@,
        "DeleteTransport"@,
        "RunReport"@,
        "RunReportAsync"@,
        "GetAsyncResult"@,
        "GetVariants"@,
        "GetTextElements"@,
        "SetTextElements"@,
        "SetBreakpoint"@,
        "GetBreakpoints"@,
        "DeleteBreakpoint"@,
        "DebuggerListen"@,
        "DebuggerAttach"@,
        "DebuggerDetach"@,
        "DebuggerStep"@,
        "DebuggerGetStack"@,
        "DebuggerGetVariables"@,
        "AMDPDebuggerStart"@,
        "AMDPDebuggerResume"@,
        "AMDPDebuggerStop"@,
        "AMDPDebuggerStep"@,
        "AMDPGetVariables"@,
        "AMDPSetBreakpoint"@,
        "AMDPGetBreakpoints"@,
        "CallRFC"@,
        "ExecuteABAP"@,
        "GitTypes"@,
        "GitExport"@,
        "InstallZADTVSP"@,
        "InstallAbapGit"@,
        "ListDependencies"@,
        "InstallDummyTest"@,
        "UI5ListApps"@,
        "UI5GetApp"@,
        "UI5GetFileContent"@,
        "UI5CreateApp"@,
        "UI5DeleteApp"@,
        "UI5DeleteFile"@,
        "UI5UploadFile"@,
        "PublishServiceBinding"@,
        "UnpublishServiceBinding"@,
    ]
}

/// The runtime's own tool names.
pub open spec fn internal_tool_names() -> Seq<Seq<char>> {
    seq![
        "diagnose"@,
        "search"@,
        "get_source"@,
        "update_source"@,
        "ws_request"@,
    ]
}

/// The tool names that have a handler.
pub open spec fn implemented_tool_names() -> Seq<Seq<char>> {
    seq![
        "diagnose"@,
        "search"@,
        "get_source"@,
        "update_source"@,
        "ws_request"@,
        "GetSource"@,
        "GetProgram"@,
        "GetClass"@,
        "GetInterface"@,
        "GetFunction"@,
        "GetFunctionGroup"@,
        "GetInclude"@,
        "GetTable"@,
        "GetTableContents"@,
        "GetStructure"@,
        "GetPackage"@,
        "GetMessages"@,
        "GetTransaction"@,
        "GetTypeInfo"@,
        "GetClassInfo"@,
        "GetClassComponents"@,
        "GetClassInclude"@,
        "GetCDSDependencies"@,
        "WriteSource"@,
        "WriteClass"@,
        "WriteProgram"@,
        "EditSource"@,
        "UpdateSource"@,
        "CreateObject"@,
        "DeleteObject"@,
        "CloneObject"@,
        "RenameObject"@,
        "MoveObject"@,
        "LockObject"@,
        "UnlockObject"@,
        "SearchObject"@,
        "GrepObjects"@,
        "GrepPackages"@,
        "GrepObject"@,
        "GrepPackage"@,
        "SyntaxCheck"@,
        "Activate"@,
        "ActivatePackage"@,
        "PrettyPrint"@,
        "GetPrettyPrinterSettings"@,
        "SetPrettyPrinterSettings"@,
        "RunUnitTests"@,
        "RunATCCheck"@,
        "GetATCCustomizing"@,
        "GetInactiveObjects"@,
        "CreatePackage"@,
        "CreateTable"@,
        "CompareSource"@,
        "CreateClassWithTests"@,
        "CreateTestInclude"@,
        "CreateAndActivateProgram"@,
        "UpdateClassInclude"@,
        "FindDefinition"@,
        "FindReferences"@,
        "CodeCompletion"@,
        "GetTypeHierarchy"@,
        "GetCallGraph"@,
        "GetCallersOf"@,
        "GetCalleesOf"@,
        "GetObjectStructure"@,
        "AnalyzeCallGraph"@,
        "CompareCallGraphs"@,
        "TraceExecution"@,
        "GetSystemInfo"@,
        "GetInstalledComponents"@,
        "GetConnectionInfo"@,
        "GetFeatures"@,
        "ListDumps"@,
        "GetDump"@,
        "ListTraces"@,
        "GetTrace"@,
        "GetSQLTraceState"@,
        "ListSQLTraces"@,
        "ImportFromFile"@,
        "ExportToFile"@,
        "DeployFromFile"@,
        "SaveToFile"@,
        "ListTransports"@,
        "GetTransport"@,
        "GetTransportInfo"@,
        "GetUserTransports"@,
        "CreateTransport"@,
        "ReleaseTransport"@,
        "DeleteTransport"@,
        "RunReport"@,
        "RunReportAsync"@,
        "GetAsyncResult"@,
        "GetVariants"@,
        "GetTextElements"@,
        "SetTextElements"@,
        "SetBreakpoint"@,
        "GetBreakpoints"@,
        "DeleteBreakpoint"@,
        "DebuggerListen"@,
        "DebuggerAttach"@,
        "DebuggerDetach"@,
        "DebuggerStep"@,
        "DebuggerGetStack"@,
        "DebuggerGetVariables"@,
        "AMDPDebuggerStart"@,
        "AMDPDebuggerResume"@,
        "AMDPDebuggerStop"@,
        "AMDPDebuggerStep"@,
        "AMDPGetVariables"@,
        "AMDPSetBreakpoint"@,
        "AMDPGetBreakpoints"@,
        "CallRFC"@,
        "ExecuteABAP"@,
        "GitTypes"@,
        "GitExport"@,
        "InstallZADTVSP"@,
        "InstallAbapGit"@,
        "ListDependencies"@,
        "InstallDummyTest"@,
        "UI5ListApps"@,
        "UI5GetApp"@,
        "UI5GetFileContent"@,
        "UI5CreateApp"@,
        "UI5DeleteApp"@,
        "UI5DeleteFile"@,
        "UI5UploadFile"@,
        "PublishServiceBinding"@,
        "UnpublishServiceBinding"@,
    ]
}

/// The tool names of the parity catalog.
pub fn vbs_tool_name_list() -> (r: Vec<&'static str>)
    ensures
        r@.map_values(|k: &str| k@) == vbs_tool_names(),
{
    let r: Vec<&'static str> = vec![
        "GetSource",
        "GetProgram",
        "GetClass",
        "GetInterface",
        "GetFunction",
        "GetFunctionGroup",
        "GetInclude",
        "GetTable",
        "GetTableContents",
        "GetStructure",
        "GetPackage",
        "GetMessages",
        "GetTransaction",
        "GetTypeInfo",
        "GetClassInfo",
        "GetClassComponents",
        "GetClassInclude",
        "GetCDSDependencies",
        "WriteSource",
        "WriteClass",
        "WriteProgram",
        "EditSource",
        "UpdateSource",
        "CreateObject",
        "DeleteObject",
        "CloneObject",
        "RenameObject",
        "MoveObject",
        "LockObject",
        "UnlockObject",
        "SearchObject",
        "GrepObjects",
        "GrepPackages",
        "GrepObject",
        "GrepPackage",
        "SyntaxCheck",
        "Activate",
        "ActivatePackage",
        "PrettyPrint",
        "GetPrettyPrinterSettings",
        "SetPrettyPrinterSettings",
        "RunUnitTests",
        "RunATCCheck",
        "GetATCCustomizing",
        "GetInactiveObjects",
        "CreatePackage",
        "CreateTable",
        "CompareSource",
        "CreateClassWithTests",
        "CreateTestInclude",
        "CreateAndActivateProgram",
        "UpdateClassInclude",
        "FindDefinition",
        "FindReferences",
        "CodeCompletion",
        "GetTypeHierarchy",
        "GetCallGraph",
        "GetCallersOf",
        "GetCalleesOf",
        "GetObjectStructure",
        "AnalyzeCallGraph",
        "CompareCallGraphs",
        "TraceExecution",
        "GetSystemInfo",
        "GetInstalledComponents",
        "GetATCCustomizing",
        "GetConnectionInfo",
        "GetFeatures",
        "ListDumps",
        "GetDump",
        "ListTraces",
        "GetTrace",
        "GetSQLTraceState",
        "ListSQLTraces",
        "ImportFromFile",
        "ExportToFile",
        "DeployFromFile",
        "SaveToFile",
        "ListTransports",
        "GetTransport",
        "GetTransportInfo",
        "GetUserTransports",
        "CreateTransport",
        "ReleaseTransport",
        "DeleteTransport",
        "RunReport",
        "RunReportAsync",
        "GetAsyncResult",
        "GetVariants",
        "GetTextElements",
        "SetTextElements",
        "SetBreakpoint",
        "GetBreakpoints",
        "DeleteBreakpoint",
        "DebuggerListen",
        "DebuggerAttach",
        "DebuggerDetach",
        "DebuggerStep",
        "DebuggerGetStack",
        "DebuggerGetVariables",
        "AMDPDebuggerStart",
        "AMDPDebuggerResume",
        "AMDPDebuggerStop",
        "AMDPDebuggerStep",
        "AMDPGetVariables",
        "AMDPSetBreakpoint",
        "AMDPGetBreakpoints",
        "CallRFC",
        "ExecuteABAP",
        "GitTypes",
        "GitExport",
        "InstallZADTVSP",
        "InstallAbapGit",
        "ListDependencies",
        "InstallDummyTest",
        "UI5ListApps",
        "UI5GetApp",
        "UI5GetFileContent",
        "UI5CreateApp",
        "UI5DeleteApp",
        "UI5DeleteFile",
        "UI5UploadFile",
        "PublishServiceBinding",
        "UnpublishServiceBinding",
    ];
    assert(r@.map_values(|k: &str| k@) =~= vbs_tool_names());
    r
}

/// The runtime's own tool names.
pub fn internal_tool_name_list() -> (r: Vec<&'static str>)
    ensures
        r@.map_values(|k: &str| k@) == internal_tool_names(),
{
    let r: Vec<&'static str> = vec![
        "diagnose",
        "search",
        "get_source",
        "update_source",
        "ws_request",
    ];
    assert(r@.map_values(|k: &str| k@) =~= internal_tool_names());
    r
}

/// The tool names that have a handler.
pub fn implemented_tool_name_list() -> (r: Vec<&'static str>)
    ensures
        r@.map_values(|k: &str| k@) == implemented_tool_names(),
{
    let r: Vec<&'static str> = vec![
        "diagnose",
        "search",
        "get_source",
        "update_source",
        "ws_request",
        "GetSource",
        "GetProgram",
        "GetClass",
        "GetInterface",
        "GetFunction",
        "GetFunctionGroup",
        "GetInclude",
        "GetTable",
        "GetTableContents",
        "GetStructure",
        "GetPackage",
        "GetMessages",
        "GetTransaction",
        "GetTypeInfo",
        "GetClassInfo",
        "GetClassComponents",
        "GetClassInclude",
        "GetCDSDependencies",
        "WriteSource",
        "WriteClass",
        "WriteProgram",
        "EditSource",
        "UpdateSource",
        "CreateObject",
        "DeleteObject",
        "CloneObject",
        "RenameObject",
        "MoveObject",
        "LockObject",
        "UnlockObject",
        "SearchObject",
        "GrepObjects",
        "GrepPackages",
        "GrepObject",
        "GrepPackage",
        "SyntaxCheck",
        "Activate",
        "ActivatePackage",
        "PrettyPrint",
        "GetPrettyPrinterSettings",
        "SetPrettyPrinterSettings",
        "RunUnitTests",
        "RunATCCheck",
        "GetATCCustomizing",
        "GetInactiveObjects",
        "CreatePackage",
        "CreateTable",
        "CompareSource",
        "CreateClassWithTests",
        "CreateTestInclude",
        "CreateAndActivateProgram",
        "UpdateClassInclude",
        "FindDefinition",
        "FindReferences",
        "CodeCompletion",
        "GetTypeHierarchy",
        "GetCallGraph",
        "GetCallersOf",
        "GetCalleesOf",
        "GetObjectStructure",
        "AnalyzeCallGraph",
        "CompareCallGraphs",
        "TraceExecution",
        "GetSystemInfo",
        "GetInstalledComponents",
        "GetConnectionInfo",
        "GetFeatures",
        "ListDumps",
        "GetDump",
        "ListTraces",
        "GetTrace",
        "GetSQLTraceState",
        "ListSQLTraces",
        "ImportFromFile",
        "ExportToFile",
        "DeployFromFile",
        "SaveToFile",
        "ListTransports",
        "GetTransport",
        "GetTransportInfo",
        "GetUserTransports",
        "CreateTransport",
        "ReleaseTransport",
        "DeleteTransport",
        "RunReport",
        "RunReportAsync",
        "GetAsyncResult",
        "GetVariants",
        "GetTextElements",
        "SetTextElements",
        "SetBreakpoint",
        "GetBreakpoints",
        "DeleteBreakpoint",
        "DebuggerListen",
        "DebuggerAttach",
        "DebuggerDetach",
        "DebuggerStep",
        "DebuggerGetStack",
        "DebuggerGetVariables",
        "AMDPDebuggerStart",
        "AMDPDebuggerResume",
        "AMDPDebuggerStop",
        "AMDPDebuggerStep",
        "AMDPGetVariables",
        "AMDPSetBreakpoint",
        "AMDPGetBreakpoints",
        "CallRFC",
        "ExecuteABAP",
        "GitTypes",
        "GitExport",
        "InstallZADTVSP",
        "InstallAbapGit",
        "ListDependencies",
        "InstallDummyTest",
        "UI5ListApps",
        "UI5GetApp",
        "UI5GetFileContent",
        "UI5CreateApp",
        "UI5DeleteApp",
        "UI5DeleteFile",
        "UI5UploadFile",
        "PublishServiceBinding",
        "UnpublishServiceBinding",
    ];
    assert(r@.map_values(|k: &str| k@) =~= implemented_tool_names());
    r
}

proof fn lemma_vbs_tool_names_routed_0()
    ensures
        forall|i: int| 0 <= i < 8 ==> #[trigger] spec_route(vbs_tool_names()[i]) is Some,
{
    assert(vbs_tool_names()[0] == "GetSource"@);
    assert(spec_route("GetSource"@) is Some);
    assert(vbs_tool_names()[1] == "GetProgram"@);
    assert(spec_route("GetProgram"@) is Some);
    assert(vbs_tool_names()[2] == "GetClass"@);
    assert(spec_route("GetClass"@) is Some);
    assert(vbs_tool_names()[3] == "GetInterface"@);
    assert(spec_route("GetInterface"@) is Some);
    assert(vbs_tool_names()[4] == "GetFunction"@);
    assert(spec_route("GetFunction"@) is Some);
    assert(vbs_tool_names()[5] == "GetFunctionGroup"@);
    assert(spec_route("GetFunctionGroup"@) is Some);
    assert(vbs_tool_names()[6] == "GetInclude"@);
    assert(spec_route("GetInclude"@) is Some);
    assert(vbs_tool_names()[7] == "GetTable"@);
    assert(spec_route("GetTable"@) is Some);
}

proof fn lemma_vbs_tool_names_routed_8()
    ensures
        forall|i: int| 8 <= i < 16 ==> #[trigger] spec_route(vbs_tool_names()[i]) is Some,
{
    assert(vbs_tool_names()[8] == "GetTableContents"@);
    assert(spec_route("GetTableContents"@) is Some);
    assert(vbs_tool_names()[9] == "GetStructure"@);
    assert(spec_route("GetStructure"@) is Some);
    assert(vbs_tool_names()[10] == "GetPackage"@);
    assert(spec_route("GetPackage"@) is Some);
    assert(vbs_tool_names()[11] == "GetMessages"@);
    assert(spec_route("GetMessages"@) is Some);
    assert(vbs_tool_names()[12] == "GetTransaction"@);
    assert(spec_route("GetTransaction"@) is Some);
    assert(vbs_tool_names()[13] == "GetTypeInfo"@);
    assert(spec_route("GetTypeInfo"@) is Some);
    assert(vbs_tool_names()[14] == "GetClassInfo"@);
    assert(spec_route("GetClassInfo"@) is Some);
    assert(vbs_tool_names()[15] == "GetClassComponents"@);
    assert(spec_route("GetClassComponents"@) is Some);
}

proof fn lemma_vbs_tool_names_routed_16()
    ensures
        forall|i: int| 16 <= i < 24 ==> #[trigger] spec_route(vbs_tool_names()[i]) is Some,
{
    assert(vbs_tool_names()[16] == "GetClassInclude"@);
    assert(spec_route("GetClassInclude"@) is Some);
    assert(vbs_tool_names()[17] == "GetCDSDependencies"@);
    assert(spec_route("GetCDSDependencies"@) is Some);
    assert(vbs_tool_names()[18] == "WriteSource"@);
    assert(spec_route("WriteSource"@) is Some);
    assert(vbs_tool_names()[19] == "WriteClass"@);
    assert(spec_route("WriteClass"@) is Some);
    assert(vbs_tool_names()[20] == "WriteProgram"@);
    assert(spec_route("WriteProgram"@) is Some);
    assert(vbs_tool_names()[21] == "EditSource"@);
    assert(spec_route("EditSource"@) is Some);
    assert(vbs_tool_names()[22] == "UpdateSource"@);
    assert(spec_route("UpdateSource"@) is Some);
    assert(vbs_tool_names()[23] == "CreateObject"@);
    assert(spec_route("CreateObject"@) is Some);
}

proof fn lemma_vbs_tool_names_routed_24()
    ensures
        forall|i: int| 24 <= i < 32 ==> #[trigger] spec_route(vbs_tool_names()[i]) is Some,
{
    assert(vbs_tool_names()[24] == "DeleteObject"@);
    assert(spec_route("DeleteObject"@) is Some);
    assert(vbs_tool_names()[25] == "CloneObject"@);
    assert(spec_route("CloneObject"@) is Some);
    assert(vbs_tool_names()[26] == "RenameObject"@);
    assert(spec_route("RenameObject"@) is Some);
    assert(vbs_tool_names()[27] == "MoveObject"@);
    assert(spec_route("MoveObject"@) is Some);
    assert(vbs_tool_names()[28] == "LockObject"@);
    assert(spec_route("LockObject"@) is Some);
    assert(vbs_tool_names()[29] == "UnlockObject"@);
    assert(spec_route("UnlockObject"@) is Some);
    assert(vbs_tool_names()[30] == "SearchObject"@);
    assert(spec_route("SearchObject"@) is Some);
    assert(vbs_tool_names()[31] == "GrepObjects"@);
    assert(spec_route("GrepObjects"@) is Some);
}

proof fn lemma_vbs_tool_names_routed_32()
    ensures
        forall|i: int| 32 <= i < 40 ==> #[trigger] spec_route(vbs_tool_names()[i]) is Some,
{
    assert(vbs_tool_names()[32] == "GrepPackages"@);
    assert(spec_route("GrepPackages"@) is Some);
    assert(vbs_tool_names()[33] == "GrepObject"@);
    assert(spec_route("GrepObject"@) is Some);
    assert(vbs_tool_names()[34] == "GrepPackage"@);
    assert(spec_route("GrepPackage"@) is Some);
    assert(vbs_tool_names()[35] == "SyntaxCheck"@);
    assert(spec_route("SyntaxCheck"@) is Some);
    assert(vbs_tool_names()[36] == "Activate"@);
    assert(spec_route("Activate"@) is Some);
    assert(vbs_tool_names()[37] == "ActivatePackage"@);
    assert(spec_route("ActivatePackage"@) is Some);
    assert(vbs_tool_names()[38] == "PrettyPrint"@);
    assert(spec_route("PrettyPrint"@) is Some);
    assert(vbs_tool_names()[39] == "GetPrettyPrinterSettings"@);
    assert(spec_route("GetPrettyPrinterSettings"@) is Some);
}

proof fn lemma_vbs_tool_names_routed_40()
    ensures
        forall|i: int| 40 <= i < 48 ==> #[trigger] spec_route(vbs_tool_names()[i]) is Some,
{
    assert(vbs_tool_names()[40] == "SetPrettyPrinterSettings"@);
    assert(spec_route("SetPrettyPrinterSettings"@) is Some);
    assert(vbs_tool_names()[41] == "RunUnitTests"@);
    assert(spec_route("RunUnitTests"@) is Some);
    assert(vbs_tool_names()[42] == "RunATCCheck"@);
    assert(spec_route("RunATCCheck"@) is Some);
    assert(vbs_tool_names()[43] == "GetATCCustomizing"@);
    assert(spec_route("GetATCCustomizing"@) is Some);
    assert(vbs_tool_names()[44] == "GetInactiveObjects"@);
    assert(spec_route("GetInactiveObjects"@) is Some);
    assert(vbs_tool_names()[45] == "CreatePackage"@);
    assert(spec_route("CreatePackage"@) is Some);
    assert(vbs_tool_names()[46] == "CreateTable"@);
    assert(spec_route("CreateTable"@) is Some);
    assert(vbs_tool_names()[47] == "CompareSource"@);
    assert(spec_route("CompareSource"@) is Some);
}

proof fn lemma_vbs_tool_names_routed_48()
    ensures
        forall|i: int| 48 <= i < 56 ==> #[trigger] spec_route(vbs_tool_names()[i]) is Some,
{
    assert(vbs_tool_names()[48] == "CreateClassWithTests"@);
    assert(spec_route("CreateClassWithTests"@) is Some);
    assert(vbs_tool_names()[49] == "CreateTestInclude"@);
    assert(spec_route("CreateTestInclude"@) is Some);
    assert(vbs_tool_names()[50] == "CreateAndActivateProgram"@);
    assert(spec_route("CreateAndActivateProgram"@) is Some);
    assert(vbs_tool_names()[51] == "UpdateClassInclude"@);
    assert(spec_route("UpdateClassInclude"@) is Some);
    assert(vbs_tool_names()[52] == "FindDefinition"@);
    assert(spec_route("FindDefinition"@) is Some);
    assert(vbs_tool_names()[53] == "FindReferences"@);
    assert(spec_route("FindReferences"@) is Some);
    assert(vbs_tool_names()[54] == "CodeCompletion"@);
    assert(spec_route("CodeCompletion"@) is Some);
    assert(vbs_tool_names()[55] == "GetTypeHierarchy"@);
    assert(spec_route("GetTypeHierarchy"@) is Some);
}

proof fn lemma_vbs_tool_names_routed_56()
    ensures
        forall|i: int| 56 <= i < 64 ==> #[trigger] spec_route(vbs_tool_names()[i]) is Some,
{
    assert(vbs_tool_names()[56] == "GetCallGraph"@);
    assert(spec_route("GetCallGraph"@) is Some);
    assert(vbs_tool_names()[57] == "GetCallersOf"@);
    assert(spec_route("GetCallersOf"@) is Some);
    assert(vbs_tool_names()[58] == "GetCalleesOf"@);
    assert(spec_route("GetCalleesOf"@) is Some);
    assert(vbs_tool_names()[59] == "GetObjectStructure"@);
    assert(spec_route("GetObjectStructure"@) is Some);
    assert(vbs_tool_names()[60] == "AnalyzeCallGraph"@);
    assert(spec_route("AnalyzeCallGraph"@) is Some);
    assert(vbs_tool_names()[61] == "CompareCallGraphs"@);
    assert(spec_route("CompareCallGraphs"@) is Some);
    assert(vbs_tool_names()[62] == "TraceExecution"@);
    assert(spec_route("TraceExecution"@) is Some);
    assert(vbs_tool_names()[63] == "GetSystemInfo"@);
    assert(spec_route("GetSystemInfo"@) is Some);
}

proof fn lemma_vbs_tool_names_routed_64()
    ensures
        forall|i: int| 64 <= i < 72 ==> #[trigger] spec_route(vbs_tool_names()[i]) is Some,
{
    assert(vbs_tool_names()[64] == "GetInstalledComponents"@);
    assert(spec_route("GetInstalledComponents"@) is Some);
    assert(vbs_tool_names()[65] == "GetATCCustomizing"@);
    assert(spec_route("GetATCCustomizing"@) is Some);
    assert(vbs_tool_names()[66] == "GetConnectionInfo"@);
    assert(spec_route("GetConnectionInfo"@) is Some);
    assert(vbs_tool_names()[67] == "GetFeatures"@);
    assert(spec_route("GetFeatures"@) is Some);
    assert(vbs_tool_names()[68] == "ListDumps"@);
    assert(spec_route("ListDumps"@) is Some);
    assert(vbs_tool_names()[69] == "GetDump"@);
    assert(spec_route("GetDump"@) is Some);
    assert(vbs_tool_names()[70] == "ListTraces"@);
    assert(spec_route("ListTraces"@) is Some);
    assert(vbs_tool_names()[71] == "GetTrace"@);
    assert(spec_route("GetTrace"@) is Some);
}

proof fn lemma_vbs_tool_names_routed_72()
    ensures
        forall|i: int| 72 <= i < 80 ==> #[trigger] spec_route(vbs_tool_names()[i]) is Some,
{
    assert(vbs_tool_names()[72] == "GetSQLTraceState"@);
    assert(spec_route("GetSQLTraceState"@) is Some);
    assert(vbs_tool_names()[73] == "ListSQLTraces"@);
    assert(spec_route("ListSQLTraces"@) is Some);
    assert(vbs_tool_names()[74] == "ImportFromFile"@);
    assert(spec_route("ImportFromFile"@) is Some);
    assert(vbs_tool_names()[75] == "ExportToFile"@);
    assert(spec_route("ExportToFile"@) is Some);
    assert(vbs_tool_names()[76] == "DeployFromFile"@);
    assert(spec_route("DeployFromFile"@) is Some);
    assert(vbs_tool_names()[77] == "SaveToFile"@);
    assert(spec_route("SaveToFile"@) is Some);
    assert(vbs_tool_names()[78] == "ListTransports"@);
    assert(spec_route("ListTransports"@) is Some);
    assert(vbs_tool_names()[79] == "GetTransport"@);
    assert(spec_route("GetTransport"@) is Some);
}

proof fn lemma_vbs_tool_names_routed_80()
    ensures
        forall|i: int| 80 <= i < 88 ==> #[trigger] spec_route(vbs_tool_names()[i]) is Some,
{
    assert(vbs_tool_names()[80] == "GetTransportInfo"@);
    assert(spec_route("GetTransportInfo"@) is Some);
    assert(vbs_tool_names()[81] == "GetUserTransports"@);
    assert(spec_route("GetUserTransports"@) is Some);
    assert(vbs_tool_names()[82] == "CreateTransport"@);
    assert(spec_route("CreateTransport"@) is Some);
    assert(vbs_tool_names()[83] == "ReleaseTransport"@);
    assert(spec_route("ReleaseTransport"@) is Some);
    assert(vbs_tool_names()[84] == "DeleteTransport"@);
    assert(spec_route("DeleteTransport"@) is Some);
    assert(vbs_tool_names()[85] == "RunReport"@);
    assert(spec_route("RunReport"@) is Some);
    assert(vbs_tool_names()[86] == "RunReportAsync"@);
    assert(spec_route("RunReportAsync"@) is Some);
    assert(vbs_tool_names()[87] == "GetAsyncResult"@);
    assert(spec_route("GetAsyncResult"@) is Some);
}

proof fn lemma_vbs_tool_names_routed_88()
    ensures
        forall|i: int| 88 <= i < 96 ==> #[trigger] spec_route(vbs_tool_names()[i]) is Some,
{
    assert(vbs_tool_names()[88] == "GetVariants"@);
    assert(spec_route("GetVariants"@) is Some);
    assert(vbs_tool_names()[89] == "GetTextElements"@);
    assert(spec_route("GetTextElements"@) is Some);
    assert(vbs_tool_names()[90] == "SetTextElements"@);
    assert(spec_route("SetTextElements"@) is Some);
    assert(vbs_tool_names()[91] == "SetBreakpoint"@);
    assert(spec_route("SetBreakpoint"@) is Some);
    assert(vbs_tool_names()[92] == "GetBreakpoints"@);
    assert(spec_route("GetBreakpoints"@) is Some);
    assert(vbs_tool_names()[93] == "DeleteBreakpoint"@);
    assert(spec_route("DeleteBreakpoint"@) is Some);
    assert(vbs_tool_names()[94] == "DebuggerListen"@);
    assert(spec_route("DebuggerListen"@) is Some);
    assert(vbs_tool_names()[95] == "DebuggerAttach"@);
    assert(spec_route("DebuggerAttach"@) is Some);
}

proof fn lemma_vbs_tool_names_routed_96()
    ensures
        forall|i: int| 96 <= i < 104 ==> #[trigger] spec_route(vbs_tool_names()[i]) is Some,
{
    assert(vbs_tool_names()[96] == "DebuggerDetach"@);
    assert(spec_route("DebuggerDetach"@) is Some);
    assert(vbs_tool_names()[97] == "DebuggerStep"@);
    assert(spec_route("DebuggerStep"@) is Some);
    assert(vbs_tool_names()[98] == "DebuggerGetStack"@);
    assert(spec_route("DebuggerGetStack"@) is Some);
    assert(vbs_tool_names()[99] == "DebuggerGetVariables"@);
    assert(spec_route("DebuggerGetVariables"@) is Some);
    assert(vbs_tool_names()[100] == "AMDPDebuggerStart"@);
    assert(spec_route("AMDPDebuggerStart"@) is Some);
    assert(vbs_tool_names()[101] == "AMDPDebuggerResume"@);
    assert(spec_route("AMDPDebuggerResume"@) is Some);
    assert(vbs_tool_names()[102] == "AMDPDebuggerStop"@);
    assert(spec_route("AMDPDebuggerStop"@) is Some);
    assert(vbs_tool_names()[103] == "AMDPDebuggerStep"@);
    assert(spec_route("AMDPDebuggerStep"@) is Some);
}

proof fn lemma_vbs_tool_names_routed_104()
    ensures
        forall|i: int| 104 <= i < 112 ==> #[trigger] spec_route(vbs_tool_names()[i]) is Some,
{
    assert(vbs_tool_names()[104] == "AMDPGetVariables"@);
    assert(spec_route("AMDPGetVariables"@) is Some);
    assert(vbs_tool_names()[105] == "AMDPSetBreakpoint"@);
    assert(spec_route("AMDPSetBreakpoint"@) is Some);
    assert(vbs_tool_names()[106] == "AMDPGetBreakpoints"@);
    assert(spec_route("AMDPGetBreakpoints"@) is Some);
    assert(vbs_tool_names()[107] == "CallRFC"@);
    assert(spec_route("CallRFC"@) is Some);
    assert(vbs_tool_names()[108] == "ExecuteABAP"@);
    assert(spec_route("ExecuteABAP"@) is Some);
    assert(vbs_tool_names()[109] == "GitTypes"@);
    assert(spec_route("GitTypes"@) is Some);
    assert(vbs_tool_names()[110] == "GitExport"@);
    assert(spec_route("GitExport"@) is Some);
    assert(vbs_tool_names()[111] == "InstallZADTVSP"@);
    assert(spec_route("InstallZADTVSP"@) is Some);
}

proof fn lemma_vbs_tool_names_routed_112()
    ensures
        forall|i: int| 112 <= i < 120 ==> #[trigger] spec_route(vbs_tool_names()[i]) is Some,
{
    assert(vbs_tool_names()[112] == "InstallAbapGit"@);
    assert(spec_route("InstallAbapGit"@) is Some);
    assert(vbs_tool_names()[113] == "ListDependencies"@);
    assert(spec_route("ListDependencies"@) is Some);
    assert(vbs_tool_names()[114] == "InstallDummyTest"@);
    assert(spec_route("InstallDummyTest"@) is Some);
    assert(vbs_tool_names()[115] == "UI5ListApps"@);
    assert(spec_route("UI5ListApps"@) is Some);
    assert(vbs_tool_names()[116] == "UI5GetApp"@);
    assert(spec_route("UI5GetApp"@) is Some);
    assert(vbs_tool_names()[117] == "UI5GetFileContent"@);
    assert(spec_route("UI5GetFileContent"@) is Some);
    assert(vbs_tool_names()[118] == "UI5CreateApp"@);
    assert(spec_route("UI5CreateApp"@) is Some);
    assert(vbs_tool_names()[119] == "UI5DeleteApp"@);
    assert(spec_route("UI5DeleteApp"@) is Some);
}

proof fn lemma_vbs_tool_names_routed_120()
    ensures
        forall|i: int| 120 <= i < 124 ==> #[trigger] spec_route(vbs_tool_names()[i]) is Some,
{
    assert(vbs_tool_names()[120] == "UI5DeleteFile"@);
    assert(spec_route("UI5DeleteFile"@) is Some);
    assert(vbs_tool_names()[121] == "UI5UploadFile"@);
    assert(spec_route("UI5UploadFile"@) is Some);
    assert(vbs_tool_names()[122] == "PublishServiceBinding"@);
    assert(spec_route("PublishServiceBinding"@) is Some);
    assert(vbs_tool_names()[123] == "UnpublishServiceBinding"@);
    assert(spec_route("UnpublishServiceBinding"@) is Some);
}

proof fn lemma_internal_tool_names_routed_0()
    ensures
        forall|i: int| 0 <= i < 5 ==> #[trigger] spec_route(internal_tool_names()[i]) is Some,
{
    assert(internal_tool_names()[0] == "diagnose"@);
    assert(spec_route("diagnose"@) is Some);
    assert(internal_tool_names()[1] == "search"@);
    assert(spec_route("search"@) is Some);
    assert(internal_tool_names()[2] == "get_source"@);
    assert(spec_route("get_source"@) is Some);
    assert(internal_tool_names()[3] == "update_source"@);
    assert(spec_route("update_source"@) is Some);
    assert(internal_tool_names()[4] == "ws_request"@);
    assert(spec_route("ws_request"@) is Some);
}

/// Every tool of the catalog and every tool of the runtime has a handler.
pub proof fn law_every_registered_tool_is_routed()
    ensures
        forall|i: int|
            0 <= i < vbs_tool_names().len() ==> #[trigger] spec_route(vbs_tool_names()[i]) is Some,
        forall|i: int|
            0 <= i < internal_tool_names().len() ==> #[trigger] spec_route(internal_tool_names()[i]) is Some,
{
    lemma_vbs_tool_names_routed_0();
    lemma_vbs_tool_names_routed_8();
    lemma_vbs_tool_names_routed_16();
    lemma_vbs_tool_names_routed_24();
    lemma_vbs_tool_names_routed_32();
    lemma_vbs_tool_names_routed_40();
    lemma_vbs_tool_names_routed_48();
    lemma_vbs_tool_names_routed_56();
    lemma_vbs_tool_names_routed_64();
    lemma_vbs_tool_names_routed_72();
    lemma_vbs_tool_names_routed_80();
    lemma_vbs_tool_names_routed_88();
    lemma_vbs_tool_names_routed_96();
    lemma_vbs_tool_names_routed_104();
    lemma_vbs_tool_names_routed_112();
    lemma_vbs_tool_names_routed_120();
    lemma_internal_tool_names_routed_0();
    assert(vbs_tool_names().len() == 124);
    assert(internal_tool_names().len() == 5);
}

/// Every tool of the catalog and every tool of the runtime is listed as
/// implemented.
pub proof fn law_every_registered_tool_is_implemented()
    ensures
        forall|i: int|
            0 <= i < vbs_tool_names().len() ==> implemented_tool_names().contains(
                #[trigger] vbs_tool_names()[i],
            ),
        forall|i: int|
            0 <= i < internal_tool_names().len() ==> implemented_tool_names().contains(
                #[trigger] internal_tool_names()[i],
            ),
{
    assert(implemented_tool_names()[5] == vbs_tool_names()[0]);
    assert(implemented_tool_names()[6] == vbs_tool_names()[1]);
    assert(implemented_tool_names()[7] == vbs_tool_names()[2]);
    assert(implemented_tool_names()[8] == vbs_tool_names()[3]);
    assert(implemented_tool_names()[9] == vbs_tool_names()[4]);
    assert(implemented_tool_names()[10] == vbs_tool_names()[5]);
    assert(implemented_tool_names()[11] == vbs_tool_names()[6]);
    assert(implemented_tool_names()[12] == vbs_tool_names()[7]);
    assert(implemented_tool_names()[13] == vbs_tool_names()[8]);
    assert(implemented_tool_names()[14] == vbs_tool_names()[9]);
    assert(implemented_tool_names()[15] == vbs_tool_names()[10]);
    assert(implemented_tool_names()[16] == vbs_tool_names()[11]);
    assert(implemented_tool_names()[17] == vbs_tool_names()[12]);
    assert(implemented_tool_names()[18] == vbs_tool_names()[13]);
    assert(implemented_tool_names()[19] == vbs_tool_names()[14]);
    assert(implemented_tool_names()[20] == vbs_tool_names()[15]);
    assert(implemented_tool_names()[21] == vbs_tool_names()[16]);
    assert(implemented_tool_names()[22] == vbs_tool_names()[17]);
    assert(implemented_tool_names()[23] == vbs_tool_names()[18]);
    assert(implemented_tool_names()[24] == vbs_tool_names()[19]);
    assert(implemented_tool_names()[25] == vbs_tool_names()[20]);
    assert(implemented_tool_names()[26] == vbs_tool_names()[21]);
    assert(implemented_tool_names()[27] == vbs_tool_names()[22]);
    assert(implemented_tool_names()[28] == vbs_tool_names()[23]);
    assert(implemented_tool_names()[29] == vbs_tool_names()[24]);
    assert(implemented_tool_names()[30] == vbs_tool_names()[25]);
    assert(implemented_tool_names()[31] == vbs_tool_names()[26]);
    assert(implemented_tool_names()[32] == vbs_tool_names()[27]);
    assert(implemented_tool_names()[33] == vbs_tool_names()[28]);
    assert(implemented_tool_names()[34] == vbs_tool_names()[29]);
    assert(implemented_tool_names()[35] == vbs_tool_names()[30]);
    assert(implemented_tool_names()[36] == vbs_tool_names()[31]);
    assert(implemented_tool_names()[37] == vbs_tool_names()[32]);
    assert(implemented_tool_names()[38] == vbs_tool_names()[33]);
    assert(implemented_tool_names()[39] == vbs_tool_names()[34]);
    assert(implemented_tool_names()[40] == vbs_tool_names()[35]);
    assert(implemented_tool_names()[41] == vbs_tool_names()[36]);
    assert(implemented_tool_names()[42] == vbs_tool_names()[37]);
    assert(implemented_tool_names()[43] == vbs_tool_names()[38]);
    assert(implemented_tool_names()[44] == vbs_tool_names()[39]);
    assert(implemented_tool_names()[45] == vbs_tool_names()[40]);
    assert(implemented_tool_names()[46] == vbs_tool_names()[41]);
    assert(implemented_tool_names()[47] == vbs_tool_names()[42]);
    assert(implemented_tool_names()[48] == vbs_tool_names()[43]);
    assert(implemented_tool_names()[49] == vbs_tool_names()[44]);
    assert(implemented_tool_names()[50] == vbs_tool_names()[45]);
    assert(implemented_tool_names()[51] == vbs_tool_names()[46]);
    assert(implemented_tool_names()[52] == vbs_tool_names()[47]);
    assert(implemented_tool_names()[53] == vbs_tool_names()[48]);
    assert(implemented_tool_names()[54] == vbs_tool_names()[49]);
    assert(implemented_tool_names()[55] == vbs_tool_names()[50]);
    assert(implemented_tool_names()[56] == vbs_tool_names()[51]);
    assert(implemented_tool_names()[57] == vbs_tool_names()[52]);
    assert(implemented_tool_names()[58] == vbs_tool_names()[53]);
    assert(implemented_tool_names()[59] == vbs_tool_names()[54]);
    assert(implemented_tool_names()[60] == vbs_tool_names()[55]);
    assert(implemented_tool_names()[61] == vbs_tool_names()[56]);
    assert(implemented_tool_names()[62] == vbs_tool_names()[57]);
    assert(implemented_tool_names()[63] == vbs_tool_names()[58]);
    assert(implemented_tool_names()[64] == vbs_tool_names()[59]);
    assert(implemented_tool_names()[65] == vbs_tool_names()[60]);
    assert(implemented_tool_names()[66] == vbs_tool_names()[61]);
    assert(implemented_tool_names()[67] == vbs_tool_names()[62]);
    assert(implemented_tool_names()[68] == vbs_tool_names()[63]);
    assert(implemented_tool_names()[69] == vbs_tool_names()[64]);
    assert(implemented_tool_names()[48] == vbs_tool_names()[65]);
    assert(implemented_tool_names()[70] == vbs_tool_names()[66]);
    assert(implemented_tool_names()[71] == vbs_tool_names()[67]);
    assert(implemented_tool_names()[72] == vbs_tool_names()[68]);
    assert(implemented_tool_names()[73] == vbs_tool_names()[69]);
    assert(implemented_tool_names()[74] == vbs_tool_names()[70]);
    assert(implemented_tool_names()[75] == vbs_tool_names()[71]);
    assert(implemented_tool_names()[76] == vbs_tool_names()[72]);
    assert(implemented_tool_names()[77] == vbs_tool_names()[73]);
    assert(implemented_tool_names()[78] == vbs_tool_names()[74]);
    assert(implemented_tool_names()[79] == vbs_tool_names()[75]);
    assert(implemented_tool_names()[80] == vbs_tool_names()[76]);
    assert(implemented_tool_names()[81] == vbs_tool_names()[77]);
    assert(implemented_tool_names()[82] == vbs_tool_names()[78]);
    assert(implemented_tool_names()[83] == vbs_tool_names()[79]);
    assert(implemented_tool_names()[84] == vbs_tool_names()[80]);
    assert(implemented_tool_names()[85] == vbs_tool_names()[81]);
    assert(implemented_tool_names()[86] == vbs_tool_names()[82]);
    assert(implemented_tool_names()[87] == vbs_tool_names()[83]);
    assert(implemented_tool_names()[88] == vbs_tool_names()[84]);
    assert(implemented_tool_names()[89] == vbs_tool_names()[85]);
    assert(implemented_tool_names()[90] == vbs_tool_names()[86]);
    assert(implemented_tool_names()[91] == vbs_tool_names()[87]);
    assert(implemented_tool_names()[92] == vbs_tool_names()[88]);
    assert(implemented_tool_names()[93] == vbs_tool_names()[89]);
    assert(implemented_tool_names()[94] == vbs_tool_names()[90]);
    assert(implemented_tool_names()[95] == vbs_tool_names()[91]);
    assert(implemented_tool_names()[96] == vbs_tool_names()[92]);
    assert(implemented_tool_names()[97] == vbs_tool_names()[93]);
    assert(implemented_tool_names()[98] == vbs_tool_names()[94]);
    assert(implemented_tool_names()[99] == vbs_tool_names()[95]);
    assert(implemented_tool_names()[100] == vbs_tool_names()[96]);
    assert(implemented_tool_names()[101] == vbs_tool_names()[97]);
    assert(implemented_tool_names()[102] == vbs_tool_names()[98]);
    assert(implemented_tool_names()[103] == vbs_tool_names()[99]);
    assert(implemented_tool_names()[104] == vbs_tool_names()[100]);
    assert(implemented_tool_names()[105] == vbs_tool_names()[101]);
    assert(implemented_tool_names()[106] == vbs_tool_names()[102]);
    assert(implemented_tool_names()[107] == vbs_tool_names()[103]);
    assert(implemented_tool_names()[108] == vbs_tool_names()[104]);
    assert(implemented_tool_names()[109] == vbs_tool_names()[105]);
    assert(implemented_tool_names()[110] == vbs_tool_names()[106]);
    assert(implemented_tool_names()[111] == vbs_tool_names()[107]);
    assert(implemented_tool_names()[112] == vbs_tool_names()[108]);
    assert(implemented_tool_names()[113] == vbs_tool_names()[109]);
    assert(implemented_tool_names()[114] == vbs_tool_names()[110]);
    assert(implemented_tool_names()[115] == vbs_tool_names()[111]);
    assert(implemented_tool_names()[116] == vbs_tool_names()[112]);
    assert(implemented_tool_names()[117] == vbs_tool_names()[113]);
    assert(implemented_tool_names()[118] == vbs_tool_names()[114]);
    assert(implemented_tool_names()[119] == vbs_tool_names()[115]);
    assert(implemented_tool_names()[120] == vbs_tool_names()[116]);
    assert(implemented_tool_names()[121] == vbs_tool_names()[117]);
    assert(implemented_tool_names()[122] == vbs_tool_names()[118]);
    assert(implemented_tool_names()[123] == vbs_tool_names()[119]);
    assert(implemented_tool_names()[124] == vbs_tool_names()[120]);
    assert(implemented_tool_names()[125] == vbs_tool_names()[121]);
    assert(implemented_tool_names()[126] == vbs_tool_names()[122]);
    assert(implemented_tool_names()[127] == vbs_tool_names()[123]);
    assert(implemented_tool_names()[0] == internal_tool_names()[0]);
    assert(implemented_tool_names()[1] == internal_tool_names()[1]);
    assert(implemented_tool_names()[2] == internal_tool_names()[2]);
    assert(implemented_tool_names()[3] == internal_tool_names()[3]);
    assert(implemented_tool_names()[4] == internal_tool_names()[4]);
}

/// A tool as listed to callers.
#[derive(Clone, Debug, PartialEq, Eq)]
pub struct NeuroToolSpec {
    pub name: String,
    pub description: String,
}

/// Lexicographic order of character sequences (the order of `String`).
pub open spec fn text_lt(a: Seq<char>, b: Seq<char>) -> bool
    decreases a.len(),
{
    if a.len() == 0 {
        b.len() > 0
    } else if b.len() == 0 {
        false
    } else if a[0] != b[0] {
        a[0] < b[0]
    } else {
        text_lt(a.drop_first(), b.drop_first())
    }
}

/// The order is irreflexive and any two distinct sequences are ordered one
/// way or the other, never both.
pub proof fn lemma_text_lt_total(a: Seq<char>, b: Seq<char>)
    ensures
        !text_lt(a, a),
        a != b ==> (text_lt(a, b) || text_lt(b, a)),
        !(text_lt(a, b) && text_lt(b, a)),
    decreases a.len(),
{
    if a.len() > 0 && b.len() > 0 {
        lemma_text_lt_total(a.drop_first(), b.drop_first());
        if a[0] == b[0] && a.drop_first() == b.drop_first() {
            assert(a == seq![a[0]] + a.drop_first());
            assert(b == seq![b[0]] + b.drop_first());
        }
    } else if a.len() > 0 {
        lemma_text_lt_total(a.drop_first(), a.drop_first());
    } else if b.len() > 0 {
    } else {
        assert(a == b);
    }
}

/// The order is transitive.
pub proof fn lemma_text_lt_trans(a: Seq<char>, b: Seq<char>, c: Seq<char>)
    requires
        text_lt(a, b),
        text_lt(b, c),
    ensures
        text_lt(a, c),
    decreases a.len(),
{
    if a.len() > 0 && b.len() > 0 && c.len() > 0 && a[0] == b[0] && b[0] == c[0] {
        lemma_text_lt_trans(a.drop_first(), b.drop_first(), c.drop_first());
    }
}

/// Compares two strings in lexicographic order: negative, zero or positive
/// as `a` sorts before, equals or sorts after `b`.
pub fn compare_text(a: &str, b: &str) -> (r: i8)
    ensures
        r < 0 <==> text_lt(a@, b@),
        r == 0 <==> a@ == b@,
        r > 0 <==> text_lt(b@, a@),
{
    proof {
        lemma_text_lt_total(a@, b@);
    }
    let x = crate::text::to_chars(a);
    let y = crate::text::to_chars(b);
    let mut i: usize = 0;
    assert(x@.skip(0) == x@);
    assert(y@.skip(0) == y@);
    while i < x.len() && i < y.len() && x[i] == y[i]
        invariant
            i <= x@.len(),
            i <= y@.len(),
            x@.take(i as int) == y@.take(i as int),
            text_lt(a@, b@) == text_lt(x@.skip(i as int), y@.skip(i as int)),
            text_lt(b@, a@) == text_lt(y@.skip(i as int), x@.skip(i as int)),
            x@ == a@,
            y@ == b@,
        decreases x@.len() - i,
    {
        assert(x@.skip(i as int).drop_first() == x@.skip(i + 1));
        assert(y@.skip(i as int).drop_first() == y@.skip(i + 1));
        assert(x@.take(i + 1) == x@.take(i as int).push(x@[i as int]));
        assert(y@.take(i + 1) == y@.take(i as int).push(y@[i as int]));
        i += 1;
    }
    if i < x.len() && i < y.len() {
        assert(x@.skip(i as int)[0] == x@[i as int]);
        assert(y@.skip(i as int)[0] == y@[i as int]);
        assert(x@[i as int] != y@[i as int]);
        assert(x@ != y@);
        if x[i] < y[i] {
            -1
        } else {
            1
        }
    } else if x.len() == y.len() {
        assert(x@ == x@.take(i as int));
        assert(y@ == y@.take(i as int));
        0
    } else if i == x.len() {
        assert(x@.skip(i as int).len() == 0);
        assert(x@ == x@.take(i as int));
        assert(y@.take(i as int) != y@);
        -1
    } else {
        assert(y@.skip(i as int).len() == 0);
        assert(y@ == y@.take(i as int));
        assert(x@.take(i as int) != x@);
        1
    }
}

/// Entries sorted by name, strictly ascending (so each name once).
pub open spec fn sorted_by_name(entries: Seq<NeuroToolSpec>) -> bool {
    forall|i: int, j: int|
        0 <= i < j < entries.len() ==> text_lt(#[trigger] entries[i].name@, #[trigger] entries[j].name@)
}

/// Puts `spec` into the sorted `entries`, replacing the entry of the same
/// name if there is one.
fn upsert(entries: &mut Vec<NeuroToolSpec>, spec: NeuroToolSpec)
    requires
        sorted_by_name(old(entries)@),
    ensures
        sorted_by_name(final(entries)@),
        exists|i: int| 0 <= i < final(entries)@.len() && #[trigger] final(entries)@[i] == spec,
        forall|i: int|
            0 <= i < final(entries)@.len() ==> #[trigger] final(entries)@[i] == spec || exists|j: int|
                0 <= j < old(entries)@.len() && old(entries)@[j] == final(entries)@[i],
        forall|j: int|
            0 <= j < old(entries)@.len() ==> exists|i: int|
                0 <= i < final(entries)@.len() && #[trigger] final(entries)@[i].name@
                    == #[trigger] old(entries)@[j].name@,
{
    let mut pos: usize = 0;
    let mut found = false;
    while pos < entries.len()
        invariant_except_break
            !found,
        invariant
            pos <= entries@.len(),
            entries@ == old(entries)@,
            sorted_by_name(entries@),
            forall|k: int| 0 <= k < pos ==> text_lt(#[trigger] entries@[k].name@, spec.name@),
        ensures
            pos <= entries@.len(),
            entries@ == old(entries)@,
            forall|k: int| 0 <= k < pos ==> text_lt(#[trigger] entries@[k].name@, spec.name@),
            found ==> pos < entries@.len() && entries@[pos as int].name@ == spec.name@,
            !found && pos < entries@.len() ==> text_lt(spec.name@, entries@[pos as int].name@),
        decreases entries@.len() - pos,
    {
        let c = compare_text(entries[pos].name.as_str(), spec.name.as_str());
        if c == 0 {
            found = true;
            break;
        } else if c > 0 {
            break;
        }
        pos += 1;
    }
    let ghost before = entries@;
    let ghost sname = spec.name@;
    if found {
        proof {
            assert forall|k: int| 0 <= k < before.len() && k != pos implies before[k].name@
                != sname by {
                lemma_text_lt_total(before[k].name@, sname);
                if k > pos {
                    assert(text_lt(before[pos as int].name@, before[k].name@));
                }
            }
        }
        entries.set(pos, spec);
        proof {
            assert forall|i: int, j: int| 0 <= i < j < entries@.len() implies text_lt(
                #[trigger] entries@[i].name@,
                #[trigger] entries@[j].name@,
            ) by {
                assert(before[i].name@ == entries@[i].name@);
                assert(before[j].name@ == entries@[j].name@);
            }
            assert forall|i: int| 0 <= i < entries@.len() implies #[trigger] entries@[i] == spec
                || exists|j: int| 0 <= j < before.len() && before[j] == entries@[i] by {
                if i != pos {
                    assert(before[i] == entries@[i]);
                }
            }
            assert forall|j: int| 0 <= j < before.len() implies exists|i: int|
                0 <= i < entries@.len() && #[trigger] entries@[i].name@ == #[trigger] before[j].name@ by {
                if j == pos {
                    assert(entries@[j].name@ == sname);
                } else {
                    assert(entries@[j] == before[j]);
                }
                assert(entries@[j].name@ == before[j].name@);
            }
            assert(entries@[pos as int] == spec);
        }
    } else {
        entries.insert(pos, spec);
        proof {
            assert forall|i: int, j: int| 0 <= i < j < entries@.len() implies text_lt(
                #[trigger] entries@[i].name@,
                #[trigger] entries@[j].name@,
            ) by {
                if j < pos {
                    assert(entries@[i] == before[i] && entries@[j] == before[j]);
                } else if j == pos {
                    assert(entries@[i] == before[i]);
                } else if i < pos {
                    assert(entries@[i] == before[i] && entries@[j] == before[j - 1]);
                    if j - 1 > pos {
                        lemma_text_lt_trans(sname, before[pos as int].name@, before[j - 1].name@);
                    }
                    lemma_text_lt_trans(before[i].name@, sname, before[j - 1].name@);
                } else if i == pos {
                    assert(entries@[j] == before[j - 1]);
                    if j - 1 > pos {
                        lemma_text_lt_trans(sname, before[pos as int].name@, before[j - 1].name@);
                    }
                } else {
                    assert(entries@[i] == before[i - 1] && entries@[j] == before[j - 1]);
                }
            }
            assert forall|i: int| 0 <= i < entries@.len() implies #[trigger] entries@[i] == spec
                || exists|j: int| 0 <= j < before.len() && before[j] == entries@[i] by {
                if i < pos {
                    assert(before[i] == entries@[i]);
                } else if i > pos {
                    assert(before[i - 1] == entries@[i]);
                }
            }
            assert forall|j: int| 0 <= j < before.len() implies exists|i: int|
                0 <= i < entries@.len() && #[trigger] entries@[i].name@ == #[trigger] before[j].name@ by {
                if j < pos {
                    assert(entries@[j] == before[j]);
                    assert(entries@[j].name@ == before[j].name@);
                } else {
                    assert(entries@[j + 1] == before[j]);
                    assert(entries@[j + 1].name@ == before[j].name@);
                }
            }
            assert(entries@[pos as int] == spec);
        }
    }
}

/// The description a registry gives the tool `name`.
pub open spec fn registry_description(name: Seq<char>) -> Seq<char> {
    if internal_tool_names().contains(name) {
        "Neuro internal tool `"@ + name + "`"@
    } else {
        "VBS parity tool `"@ + name + "`"@
    }
}

/// The tools a registry holds: those of the catalog and those of the runtime.
pub open spec fn registered(name: Seq<char>) -> bool {
    vbs_tool_names().contains(name) || internal_tool_names().contains(name)
}

/// `e` describes a registered tool as the registry does.
pub open spec fn entry_ok(e: NeuroToolSpec) -> bool {
    registered(e.name@) && e.description@ == registry_description(e.name@)
}

/// Whether `name` is one of `names`.
fn listed(names: &Vec<&'static str>, name: &str) -> (r: bool)
    ensures
        r == names@.map_values(|k: &str| k@).contains(name@),
{
    let ghost views = names@.map_values(|k: &str| k@);
    let mut i: usize = 0;
    while i < names.len()
        invariant
            i <= names@.len(),
            views == names@.map_values(|k: &str| k@),
            forall|k: int| 0 <= k < i ==> views[k] != name@,
        decreases names@.len() - i,
    {
        if str_eq(names[i], name) {
            assert(views[i as int] == name@);
            return true;
        }
        i += 1;
    }
    false
}

/// The tool `name` is implemented (has a handler).
pub fn is_implemented_tool(tool_name: &str) -> (r: bool)
    ensures
        r == implemented_tool_names().contains(tool_name@),
{
    listed(&implemented_tool_name_list(), tool_name)
}

/// The registry of tools: one entry per tool name, sorted by name.
#[derive(Clone, Debug)]
pub struct ToolRegistry {
    entries: Vec<NeuroToolSpec>,
}

impl ToolRegistry {
    /// The entries of this registry, in order.
    pub closed spec fn spec_entries(&self) -> Seq<NeuroToolSpec> {
        self.entries@
    }

    /// The registry's invariant: sorted by name, each registered tool once,
    /// each described as the registry describes it.
    pub open spec fn well_formed(&self) -> bool {
        &&& sorted_by_name(self.spec_entries())
        &&& forall|i: int| 0 <= i < self.spec_entries().len() ==> entry_ok(#[trigger] self.spec_entries()[i])
        &&& forall|n: Seq<char>| #[trigger] registered(n) ==> exists|i: int|
            0 <= i < self.spec_entries().len() && #[trigger] self.spec_entries()[i].name@ == n
    }

    /// The registry of every catalog tool and every runtime tool, sorted by
    /// name; a runtime tool is described as an internal one, any other as a
    /// parity tool.
    pub fn new() -> (r: Self)
        ensures
            r.well_formed(),
    {
        let vbs = vbs_tool_name_list();
        let internal = internal_tool_name_list();
        let mut all = vbs.clone();
        let mut extra = internal.clone();
        all.append(&mut extra);
        let ghost names = vbs_tool_names() + internal_tool_names();
        assert(all@.map_values(|k: &str| k@) =~= names);
        let mut entries: Vec<NeuroToolSpec> = Vec::new();
        let mut i: usize = 0;
        while i < all.len()
            invariant
                i <= all@.len(),
                all@.map_values(|k: &str| k@) == names,
                names == vbs_tool_names() + internal_tool_names(),
                internal@.map_values(|k: &str| k@) == internal_tool_names(),
                sorted_by_name(entries@),
                forall|k: int| 0 <= k < entries@.len() ==> entry_ok(#[trigger] entries@[k]),
                forall|m: int|
                    0 <= m < i ==> exists|k: int|
                        0 <= k < entries@.len() && #[trigger] entries@[k].name@ == #[trigger] names[m],
            decreases all@.len() - i,
        {
            let name = all[i];
            assert(names[i as int] == name@);
            let mut description = if listed(&internal, name) {
                "Neuro internal tool `".to_owned()
            } else {
                "VBS parity tool `".to_owned()
            };
            append(&mut description, name);
            append(&mut description, "`");
            let spec = NeuroToolSpec { name: name.to_owned(), description };
            proof {
                assert(names.contains(name@));
                if (i as int) < vbs_tool_names().len() {
                    assert(vbs_tool_names()[i as int] == name@);
                } else {
                    assert(internal_tool_names()[i - vbs_tool_names().len()] == name@);
                }
                assert(registered(name@));
            }
            let ghost old_entries = entries@;
            upsert(&mut entries, spec);
            proof {
                assert forall|k: int| 0 <= k < entries@.len() implies entry_ok(#[trigger] entries@[k]) by {
                    if entries@[k] != spec {
                        let j = choose|j: int| 0 <= j < old_entries.len() && old_entries[j] == entries@[k];
                        assert(entry_ok(old_entries[j]));
                    }
                }
                assert forall|m: int| 0 <= m < i + 1 implies exists|k: int|
                    0 <= k < entries@.len() && #[trigger] entries@[k].name@ == #[trigger] names[m] by {
                    if m < i {
                        let k0 = choose|k: int|
                            0 <= k < old_entries.len() && #[trigger] old_entries[k].name@ == #[trigger] names[m];
                        assert(exists|k1: int| 0 <= k1 < entries@.len() && #[trigger] entries@[k1].name@ == old_entries[k0].name@);
                    } else {
                        let w = choose|w: int| 0 <= w < entries@.len() && #[trigger] entries@[w] == spec;
                        assert(entries@[w].name@ == names[m]);
                    }
                }
            }
            i += 1;
        }
        proof {
            assert forall|n: Seq<char>| #[trigger] registered(n) implies exists|k: int|
                0 <= k < entries@.len() && #[trigger] entries@[k].name@ == n by {
                let m = if vbs_tool_names().contains(n) {
                    let a = choose|a: int| 0 <= a < vbs_tool_names().len() && vbs_tool_names()[a] == n;
                    assert(names[a] == n);
                    a
                } else {
                    let b = choose|b: int| 0 <= b < internal_tool_names().len() && internal_tool_names()[b] == n;
                    assert(names[vbs_tool_names().len() + b] == n);
                    vbs_tool_names().len() + b
                };
                assert(0 <= m < names.len());
            }
        }
        ToolRegistry { entries }
    }

    /// Every tool of this registry, sorted by name.
    pub fn list_tools(&self) -> (r: Vec<NeuroToolSpec>)
        ensures
            r@ == self.spec_entries(),
    {
        let mut out: Vec<NeuroToolSpec> = Vec::new();
        let mut i: usize = 0;
        while i < self.entries.len()
            invariant
                i <= self.entries@.len(),
                out@ == self.entries@.take(i as int),
            decreases self.entries@.len() - i,
        {
            let e = NeuroToolSpec {
                name: self.entries[i].name.clone(),
                description: self.entries[i].description.clone(),
            };
            out.push(e);
            assert(self.entries@.take(i + 1) == self.entries@.take(i as int).push(self.entries@[i as int]));
            i += 1;
        }
        assert(self.entries@.take(i as int) == self.entries@);
        out
    }

    /// Whether this registry holds a tool named `name`.
    pub fn contains(&self, name: &str) -> (r: bool)
        ensures
            r == exists|i: int|
                0 <= i < self.spec_entries().len() && #[trigger] self.spec_entries()[i].name@ == name@,
    {
        let mut i: usize = 0;
        while i < self.entries.len()
            invariant
                i <= self.entries@.len(),
                forall|k: int| 0 <= k < i ==> self.entries@[k].name@ != name@,
            decreases self.entries@.len() - i,
        {
            if str_eq(self.entries[i].name.as_str(), name) {
                assert(self.spec_entries()[i as int].name@ == name@);
                return true;
            }
            i += 1;
        }
        false
    }
}

/// The error of a call to a tool that has no handler: a registered tool
/// that is not implemented is unsupported, any other name unknown.
pub fn unmatched_tool_error(registry: &ToolRegistry, tool_name: &str) -> (r: NeuroMcpError)
    ensures
        ((exists|i: int|
            0 <= i < registry.spec_entries().len() && #[trigger] registry.spec_entries()[i].name@
                == tool_name@) && !implemented_tool_names().contains(tool_name@)) ==> (r matches NeuroMcpError::UnsupportedTool { tool } && tool@ == tool_name@),
        !((exists|i: int|
            0 <= i < registry.spec_entries().len() && #[trigger] registry.spec_entries()[i].name@
                == tool_name@) && !implemented_tool_names().contains(tool_name@)) ==> (r matches NeuroMcpError::UnknownTool(tool) && tool@ == tool_name@),
{
    if registry.contains(tool_name) && !is_implemented_tool(tool_name) {
        NeuroMcpError::UnsupportedTool { tool: tool_name.to_owned() }
    } else {
        NeuroMcpError::UnknownTool(tool_name.to_owned())
    }
}

/// A name without a handler is not in a well-formed registry, so a call to
/// it is always answered as unknown, never as unsupported.
pub proof fn law_unrouted_tool_is_unknown(registry: ToolRegistry, tool_name: Seq<char>)
    requires
        registry.well_formed(),
        spec_route(tool_name) is None,
    ensures
        !exists|i: int|
            0 <= i < registry.spec_entries().len() && #[trigger] registry.spec_entries()[i].name@
                == tool_name,
{
    law_every_registered_tool_is_routed();
    if exists|i: int|
        0 <= i < registry.spec_entries().len() && #[trigger] registry.spec_entries()[i].name@
            == tool_name {
        let i = choose|i: int|
            0 <= i < registry.spec_entries().len() && #[trigger] registry.spec_entries()[i].name@
                == tool_name;
        assert(entry_ok(registry.spec_entries()[i]));
        if vbs_tool_names().contains(tool_name) {
            let k = choose|k: int| 0 <= k < vbs_tool_names().len() && vbs_tool_names()[k] == tool_name;
            assert(spec_route(vbs_tool_names()[k]) is Some);
        } else {
            let k = choose|k: int| 0 <= k < internal_tool_names().len() && internal_tool_names()[k] == tool_name;
            assert(spec_route(internal_tool_names()[k]) is Some);
        }
    }
}

} // verus!
