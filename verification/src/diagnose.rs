//! Health reports: the naming guard on component names, the overall status
//! and the report that the engine assembles from its probes.
use vstd::prelude::*;

use crate::json::JsonValue;
use crate::text::{contains_str, decimal, decimal_string, find_seq, lemma_find_from, occurs_at};
use crate::types::{
    status_rank, DiagnoseStatus, RuntimeDiagnoseComponent, RuntimeDiagnoseResponse,
    SafetyPolicy,
};

verus! {

/// The token that component names must not contain.
pub open spec fn legacy_token() -> Seq<char> {
    "vsp"@
}

/// `name` contains the legacy token.
pub open spec fn has_legacy_token(name: Seq<char>) -> bool {
    find_seq(name, legacy_token()) is Some
}

/// A component name refused by the naming guard.
#[derive(Clone, Debug, PartialEq, Eq)]
pub struct DiagnoseNamingError {
    pub component: String,
}

/// The message of a naming-guard refusal of `component`.
pub open spec fn naming_error_message(component: Seq<char>) -> Seq<char> {
    "diagnose component `"@ + component + "` contains blocked legacy token `vsp`"@
}

impl DiagnoseNamingError {
    /// The human-readable message of this refusal.
    pub fn message(&self) -> (r: String)
        ensures
            r@ == naming_error_message(self.component@),
    {
        let mut r = "diagnose component `".to_owned();
        r.append(self.component.as_str());
        r.append("` contains blocked legacy token `vsp`");
        r
    }
}

impl RuntimeDiagnoseComponent {
    /// A component record, refused when its name contains the legacy token.
    pub fn try_new(
        component: &str,
        status: DiagnoseStatus,
        detail: String,
        latency_ms: Option<u64>,
    ) -> (r: Result<Self, DiagnoseNamingError>)
        ensures
            r is Ok <==> !has_legacy_token(component@),
            r matches Ok(c) ==> c.component@ == component@ && c.status == status && c.detail@
                == detail@ && c.latency_ms == latency_ms,
            r matches Err(e) ==> e.component@ == component@,
    {
        if contains_str(component, "vsp") {
            Err(DiagnoseNamingError { component: component.to_owned() })
        } else {
            Ok(RuntimeDiagnoseComponent {
                component: component.to_owned(),
                status,
                detail,
                latency_ms,
            })
        }
    }
}

/// The index of the first component whose name the guard refuses.
pub open spec fn first_bad_name(components: Seq<RuntimeDiagnoseComponent>, from: int) -> Option<int>
    decreases components.len() - from,
{
    if from < 0 || from >= components.len() {
        None
    } else if has_legacy_token(components[from].component@) {
        Some(from)
    } else {
        first_bad_name(components, from + 1)
    }
}

proof fn lemma_first_bad_name(components: Seq<RuntimeDiagnoseComponent>, from: int)
    requires
        0 <= from,
    ensures
        first_bad_name(components, from) matches Some(i) ==> from <= i < components.len()
            && has_legacy_token(components[i].component@),
        first_bad_name(components, from) is None ==> forall|j: int|
            from <= j < components.len() ==> !has_legacy_token(
                #[trigger] components[j].component@,
            ),
    decreases components.len() - from,
{
    if from < components.len() && !has_legacy_token(components[from].component@) {
        lemma_first_bad_name(components, from + 1);
    }
}

impl RuntimeDiagnoseResponse {
    /// Checks every component name against the naming guard; the first
    /// refused name is reported.
    pub fn validate_component_names(&self) -> (r: Result<(), DiagnoseNamingError>)
        ensures
            r is Ok <==> forall|i: int|
                0 <= i < self.components@.len() ==> !has_legacy_token(
                    #[trigger] self.components@[i].component@,
                ),
            r matches Err(e) ==> (first_bad_name(self.components@, 0) matches Some(i)
                && e.component@ == self.components@[i].component@),
    {
        proof {
            lemma_first_bad_name(self.components@, 0);
        }
        let mut i: usize = 0;
        while i < self.components.len()
            invariant
                i <= self.components@.len(),
                first_bad_name(self.components@, 0) == first_bad_name(
                    self.components@,
                    i as int,
                ),
            decreases self.components@.len() - i,
        {
            let name = self.components[i].component.as_str();
            if contains_str(name, "vsp") {
                return Err(DiagnoseNamingError { component: name.to_owned() });
            }
            i += 1;
        }
        Ok(())
    }
}

/// A component record whose name passed the guard, or else the guard's own
/// record that reports the refusal.
pub open spec fn guarded_component_ok(
    c: RuntimeDiagnoseComponent,
    component: Seq<char>,
    status: DiagnoseStatus,
    detail: Seq<char>,
    latency_ms: Option<u64>,
) -> bool {
    if has_legacy_token(component) {
        &&& c.component@ == "diagnose_naming_guard"@
        &&& c.status == DiagnoseStatus::Unavailable
        &&& c.detail@ == naming_error_message(component)
        &&& c.latency_ms is None
    } else {
        &&& c.component@ == component
        &&& c.status == status
        &&& c.detail@ == detail
        &&& c.latency_ms == latency_ms
    }
}

/// Builds a component record; a name holding the legacy token is replaced
/// by the guard's own record, `Unavailable`, that names the refusal.
pub fn guarded_runtime_diagnose_component(
    component: &str,
    status: DiagnoseStatus,
    detail: String,
    latency_ms: Option<u64>,
) -> (r: RuntimeDiagnoseComponent)
    ensures
        guarded_component_ok(r, component@, status, detail@, latency_ms),
{
    let ghost d = detail@;
    match RuntimeDiagnoseComponent::try_new(component, status, detail, latency_ms) {
        Ok(c) => c,
        Err(error) => RuntimeDiagnoseComponent {
            component: "diagnose_naming_guard".to_owned(),
            status: DiagnoseStatus::Unavailable,
            detail: error.message(),
            latency_ms: None,
        },
    }
}

/// The worst of `Healthy` and the statuses of `components`.
pub open spec fn worst_status(components: Seq<RuntimeDiagnoseComponent>) -> DiagnoseStatus
    decreases components.len(),
{
    if components.len() == 0 {
        DiagnoseStatus::Healthy
    } else {
        let rest = worst_status(components.drop_last());
        if status_rank(components.last().status) > status_rank(rest) {
            components.last().status
        } else {
            rest
        }
    }
}

/// The overall status of a report: the worst status of its components,
/// `Healthy` when there is none.
pub fn overall_status(components: &Vec<RuntimeDiagnoseComponent>) -> (r: DiagnoseStatus)
    ensures
        r == worst_status(components@),
{
    let mut current = DiagnoseStatus::Healthy;
    let mut i: usize = 0;
    while i < components.len()
        invariant
            i <= components@.len(),
            current == worst_status(components@.take(i as int)),
        decreases components@.len() - i,
    {
        assert(components@.take(i + 1).drop_last() == components@.take(i as int));
        let status = components[i].status;
        if status.rank() > current.rank() {
            current = status;
        }
        i += 1;
    }
    assert(components@.take(i as int) == components@);
    current
}

/// The worst status is at least as bad as every component's, and it is
/// `Healthy` or the status of some component.
pub proof fn law_overall_status_is_worst(components: Seq<RuntimeDiagnoseComponent>)
    ensures
        forall|i: int|
            0 <= i < components.len() ==> status_rank(#[trigger] components[i].status)
                <= status_rank(worst_status(components)),
        worst_status(components) == DiagnoseStatus::Healthy || exists|i: int|
            0 <= i < components.len() && #[trigger] components[i].status == worst_status(
                components,
            ),
    decreases components.len(),
{
    if components.len() > 0 {
        let rest = components.drop_last();
        law_overall_status_is_worst(rest);
        assert forall|i: int| 0 <= i < components.len() implies status_rank(
            #[trigger] components[i].status,
        ) <= status_rank(worst_status(components)) by {
            if i < components.len() - 1 {
                assert(components[i] == rest[i]);
            }
        }
        if worst_status(components) != DiagnoseStatus::Healthy && worst_status(components)
            != components.last().status {
            let i = choose|i: int|
                0 <= i < rest.len() && #[trigger] rest[i].status == worst_status(rest);
            assert(components[i] == rest[i]);
        }
    }
}

/// The state of the WebSocket channel as the engine sees it.
#[derive(Clone, Copy, Debug, PartialEq, Eq, Structural)]
pub enum WsChannelState {
    Connected,
    Disconnected,
    NotConfigured,
}

/// The text of a boolean (`bool::to_string`).
pub open spec fn bool_text(b: bool) -> Seq<char> {
    if b {
        "true"@
    } else {
        "false"@
    }
}

fn bool_string(b: bool) -> (r: String)
    ensures
        r@ == bool_text(b),
{
    if b {
        "true".to_owned()
    } else {
        "false".to_owned()
    }
}

/// The detail line of the safety-policy component.
pub open spec fn safety_detail(safety: SafetyPolicy) -> Seq<char> {
    "read_only="@ + bool_text(safety.read_only) + ", blocked_patterns="@ + decimal(
        safety.blocked_source_patterns@.len(),
    ) + ", domain_whitelist="@ + decimal(safety.allowed_ws_domains@.len())
        + ", require_etag_for_updates="@ + bool_text(safety.require_etag_for_updates)
}

fn safety_detail_string(safety: &SafetyPolicy) -> (r: String)
    ensures
        r@ == safety_detail(*safety),
{
    let mut r = "read_only=".to_owned();
    r.append(bool_string(safety.read_only).as_str());
    r.append(", blocked_patterns=");
    r.append(decimal_string(safety.blocked_source_patterns.len() as u64).as_str());
    r.append(", domain_whitelist=");
    r.append(decimal_string(safety.allowed_ws_domains.len() as u64).as_str());
    r.append(", require_etag_for_updates=");
    r.append(bool_string(safety.require_etag_for_updates).as_str());
    r
}

/// `v` is a JSON array of the strings `items`, in order.
pub open spec fn is_string_array(v: JsonValue, items: Seq<String>) -> bool {
    v matches JsonValue::Array(a) && a@.len() == items.len() && forall|i: int|
        0 <= i < items.len() ==> (#[trigger] a@[i] matches JsonValue::Str(s) && s@
            == items[i]@)
}

fn string_array(items: &Vec<String>) -> (r: JsonValue)
    ensures
        is_string_array(r, items@),
{
    let mut out: Vec<JsonValue> = Vec::new();
    let mut i: usize = 0;
    while i < items.len()
        invariant
            i <= items@.len(),
            out@.len() == i,
            forall|k: int|
                0 <= k < i ==> (#[trigger] out@[k] matches JsonValue::Str(s) && s@
                    == items@[k]@),
        decreases items@.len() - i,
    {
        out.push(JsonValue::Str(items[i].clone()));
        i += 1;
    }
    JsonValue::Array(out)
}

/// The metadata of a report: the safety policy's settings, in ascending
/// key order.
pub open spec fn metadata_ok(metadata: Seq<(String, JsonValue)>, safety: SafetyPolicy) -> bool {
    &&& metadata.len() == 4
    &&& metadata[0].0@ == "allowed_ws_domains"@
    &&& is_string_array(metadata[0].1, safety.allowed_ws_domains@)
    &&& metadata[1].0@ == "blocked_patterns"@
    &&& is_string_array(metadata[1].1, safety.blocked_source_patterns@)
    &&& metadata[2].0@ == "policy_read_only"@
    &&& metadata[2].1 == JsonValue::Bool(safety.read_only)
    &&& metadata[3].0@ == "require_etag_for_updates"@
    &&& metadata[3].1 == JsonValue::Bool(safety.require_etag_for_updates)
}

/// The component that reports the ADT HTTP probe.
pub open spec fn adt_component_ok(
    c: RuntimeDiagnoseComponent,
    adt_ping: Result<(), String>,
    adt_latency_ms: Option<u64>,
) -> bool {
    match adt_ping {
        Ok(()) => guarded_component_ok(
            c,
            "adt_http"@,
            DiagnoseStatus::Healthy,
            "ADT HTTP endpoint reachable"@,
            adt_latency_ms,
        ),
        Err(message) => guarded_component_ok(
            c,
            "adt_http"@,
            DiagnoseStatus::Degraded,
            message@,
            adt_latency_ms,
        ),
    }
}

/// The component that reports the WebSocket channel.
pub open spec fn ws_component_ok(c: RuntimeDiagnoseComponent, ws: WsChannelState) -> bool {
    match ws {
        WsChannelState::Connected => guarded_component_ok(
            c,
            "neuro_ws"@,
            DiagnoseStatus::Healthy,
            "WebSocket channel is connected"@,
            None,
        ),
        WsChannelState::Disconnected => guarded_component_ok(
            c,
            "neuro_ws"@,
            DiagnoseStatus::Degraded,
            "WebSocket channel exists but is disconnected"@,
            None,
        ),
        WsChannelState::NotConfigured => guarded_component_ok(
            c,
            "neuro_ws"@,
            DiagnoseStatus::Unavailable,
            "WebSocket is not configured"@,
            None,
        ),
    }
}

/// Assembles the runtime health report from the outcome of the ADT probe
/// (its error message on failure), the probe's latency, the state of the
/// WebSocket channel, the safety policy and the report's time stamp.
pub fn diagnose_report(
    adt_ping: Result<(), String>,
    adt_latency_ms: Option<u64>,
    ws: WsChannelState,
    safety: &SafetyPolicy,
    timestamp_epoch_secs: u64,
) -> (r: RuntimeDiagnoseResponse)
    ensures
        r.timestamp_epoch_secs == timestamp_epoch_secs,
        r.components@.len() == 3,
        adt_component_ok(r.components@[0], adt_ping, adt_latency_ms),
        ws_component_ok(r.components@[1], ws),
        guarded_component_ok(
            r.components@[2],
            "safety_policy"@,
            DiagnoseStatus::Healthy,
            safety_detail(*safety),
            None,
        ),
        r.overall_status == worst_status(r.components@),
        metadata_ok(r.metadata@, *safety),
{
    let ghost ping = adt_ping;
    let adt = match adt_ping {
        Ok(()) => guarded_runtime_diagnose_component(
            "adt_http",
            DiagnoseStatus::Healthy,
            "ADT HTTP endpoint reachable".to_owned(),
            adt_latency_ms,
        ),
        Err(message) => guarded_runtime_diagnose_component(
            "adt_http",
            DiagnoseStatus::Degraded,
            message,
            adt_latency_ms,
        ),
    };
    let ws_component = match ws {
        WsChannelState::Connected => guarded_runtime_diagnose_component(
            "neuro_ws",
            DiagnoseStatus::Healthy,
            "WebSocket channel is connected".to_owned(),
            None,
        ),
        WsChannelState::Disconnected => guarded_runtime_diagnose_component(
            "neuro_ws",
            DiagnoseStatus::Degraded,
            "WebSocket channel exists but is disconnected".to_owned(),
            None,
        ),
        WsChannelState::NotConfigured => guarded_runtime_diagnose_component(
            "neuro_ws",
            DiagnoseStatus::Unavailable,
            "WebSocket is not configured".to_owned(),
            None,
        ),
    };
    let safety_component = guarded_runtime_diagnose_component(
        "safety_policy",
        DiagnoseStatus::Healthy,
        safety_detail_string(safety),
        None,
    );
    let mut components: Vec<RuntimeDiagnoseComponent> = Vec::new();
    components.push(adt);
    components.push(ws_component);
    components.push(safety_component);
    let overall = overall_status(&components);
    let mut metadata: Vec<(String, JsonValue)> = Vec::new();
    metadata.push(("allowed_ws_domains".to_owned(), string_array(&safety.allowed_ws_domains)));
    metadata.push(("blocked_patterns".to_owned(), string_array(&safety.blocked_source_patterns)));
    metadata.push(("policy_read_only".to_owned(), JsonValue::Bool(safety.read_only)));
    metadata.push(
        ("require_etag_for_updates".to_owned(), JsonValue::Bool(safety.require_etag_for_updates)),
    );
    RuntimeDiagnoseResponse {
        timestamp_epoch_secs,
        overall_status: overall,
        components,
        metadata,
    }
}

/// A name in which the first letter of the legacy token never occurs holds
/// no legacy token.
pub proof fn lemma_no_v_no_legacy(name: Seq<char>)
    requires
        forall|k: int| 0 <= k < name.len() ==> name[k] != 'v',
    ensures
        !has_legacy_token(name),
{
    reveal_strlit("vsp");
    lemma_find_from(name, legacy_token(), 0);
    if let Some(j) = find_seq(name, legacy_token()) {
        assert(occurs_at(name, legacy_token(), j as int));
        assert(name.subrange(j as int, (j + 3) as int)[0] == name[j as int]);
    }
}

/// The names of every diagnose report's components pass the naming guard,
/// whatever the probes found: the engine never reports a legacy name.
pub proof fn law_report_names_pass_guard(
    adt_ping: Result<(), String>,
    adt_latency_ms: Option<u64>,
    ws: WsChannelState,
    safety: SafetyPolicy,
    r: RuntimeDiagnoseResponse,
)
    requires
        r.components@.len() == 3,
        adt_component_ok(r.components@[0], adt_ping, adt_latency_ms),
        ws_component_ok(r.components@[1], ws),
        guarded_component_ok(
            r.components@[2],
            "safety_policy"@,
            DiagnoseStatus::Healthy,
            safety_detail(safety),
            None,
        ),
    ensures
        forall|i: int|
            0 <= i < r.components@.len() ==> !has_legacy_token(
                #[trigger] r.components@[i].component@,
            ),
        r.components@[0].component@ == "adt_http"@,
        r.components@[1].component@ == "neuro_ws"@,
        r.components@[2].component@ == "safety_policy"@,
{
    reveal_strlit("adt_http");
    reveal_strlit("neuro_ws");
    reveal_strlit("safety_policy");
    lemma_no_v_no_legacy("adt_http"@);
    lemma_no_v_no_legacy("neuro_ws"@);
    lemma_no_v_no_legacy("safety_policy"@);
    assert forall|i: int| 0 <= i < r.components@.len() implies !has_legacy_token(
        #[trigger] r.components@[i].component@,
    ) by {
        if i == 0 {
        } else if i == 1 {
        } else {
        }
    }
}

/// The guard's own record holds no legacy token either, so a guarded
/// component never carries one.
pub proof fn law_guarded_component_has_clean_name(
    c: RuntimeDiagnoseComponent,
    component: Seq<char>,
    status: DiagnoseStatus,
    detail: Seq<char>,
    latency_ms: Option<u64>,
)
    requires
        guarded_component_ok(c, component, status, detail, latency_ms),
    ensures
        !has_legacy_token(c.component@),
{
    reveal_strlit("diagnose_naming_guard");
    lemma_no_v_no_legacy("diagnose_naming_guard"@);
}

/// The status a report gives the WebSocket channel: `Healthy` only when it
/// is connected, `Degraded` when it exists but is disconnected,
/// `Unavailable` when it is not configured; the ADT probe is `Healthy`
/// only when it succeeded and the policy is always `Healthy`. The overall
/// status is then `Unavailable` without a WebSocket channel, else
/// `Degraded` when the probe failed or the channel is disconnected, and
/// `Healthy` only when everything is.
pub proof fn law_report_status_follows_the_probes(
    adt_ping: Result<(), String>,
    adt_latency_ms: Option<u64>,
    ws: WsChannelState,
    safety: SafetyPolicy,
    r: RuntimeDiagnoseResponse,
)
    requires
        r.components@.len() == 3,
        adt_component_ok(r.components@[0], adt_ping, adt_latency_ms),
        ws_component_ok(r.components@[1], ws),
        guarded_component_ok(
            r.components@[2],
            "safety_policy"@,
            DiagnoseStatus::Healthy,
            safety_detail(safety),
            None,
        ),
        r.overall_status == worst_status(r.components@),
    ensures
        r.components@[0].status == (if adt_ping is Ok {
            DiagnoseStatus::Healthy
        } else {
            DiagnoseStatus::Degraded
        }),
        ws == WsChannelState::Connected ==> r.components@[1].status == DiagnoseStatus::Healthy,
        ws == WsChannelState::Disconnected ==> r.components@[1].status == DiagnoseStatus::Degraded,
        ws == WsChannelState::NotConfigured ==> r.components@[1].status == DiagnoseStatus::Unavailable,
        r.components@[2].status == DiagnoseStatus::Healthy,
        ws == WsChannelState::NotConfigured ==> r.overall_status == DiagnoseStatus::Unavailable,
        ws != WsChannelState::NotConfigured ==> (r.overall_status == if adt_ping is Ok && ws
            == WsChannelState::Connected {
            DiagnoseStatus::Healthy
        } else {
            DiagnoseStatus::Degraded
        }),
{
    reveal_strlit("adt_http");
    reveal_strlit("neuro_ws");
    reveal_strlit("safety_policy");
    lemma_no_v_no_legacy("adt_http"@);
    lemma_no_v_no_legacy("neuro_ws"@);
    lemma_no_v_no_legacy("safety_policy"@);
    let c = r.components@;
    reveal_with_fuel(worst_status, 4);
    assert(c.drop_last().drop_last().drop_last() =~= Seq::<RuntimeDiagnoseComponent>::empty());
    assert(c.drop_last().last() == c[1]);
    assert(c.drop_last().drop_last().last() == c[0]);
}

} // verus!
