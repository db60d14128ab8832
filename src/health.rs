//! One verification cycle of an endpoint, as a sequence of decisions:
//! which call to make first, what to send once the dependency answered,
//! and how to classify and report the outcome.

use vstd::prelude::*;
use crate::app::{describes, ApiInformation};
use crate::config::{request_wf, same_request, Api, Request};
use crate::json::Json;
use crate::substitute::{
    extracted, lemma_same_request_wf, resolve_fields, strings_read_back, substitute_request, substituted_request,
};
use crate::text::{chars_of, decimal, push_decimal, string_of};

verus! {

/// The health of an endpoint after a cycle.
#[derive(PartialEq, Eq, Structural, Clone, Copy, Debug)]
pub enum HealthStatus {
    Pending,
    Success,
    Failure,
}

impl HealthStatus {
    /// The status as shown to the user.
    pub fn as_text(&self) -> (r: String)
        ensures
            r@ == status_text(*self),
    {
        match self {
            HealthStatus::Pending => "PENDING".to_owned(),
            HealthStatus::Success => "OK".to_owned(),
            HealthStatus::Failure => "ERROR".to_owned(),
        }
    }
}

/// The status as shown to the user.
pub open spec fn status_text(s: HealthStatus) -> Seq<char> {
    match s {
        HealthStatus::Pending => "PENDING"@,
        HealthStatus::Success => "OK"@,
        HealthStatus::Failure => "ERROR"@,
    }
}

/// How urgent a notification is.
#[derive(PartialEq, Eq, Structural, Clone, Copy, Debug)]
pub enum Severity {
    Info,
    Error,
}

/// A message for the notification sink.
#[derive(Debug)]
pub struct Notification {
    pub subject: String,
    pub severity: Severity,
    pub message: String,
}

/// What came of the dependency call.
#[derive(Debug)]
pub enum DependencyOutcome {
    /// No response: connection, DNS, TLS or timeout failure.
    TransportFailed,
    /// A response whose body is not JSON.
    Unparsable,
    /// The parsed JSON body of the response.
    Response(Json),
}

/// What came of the primary call.
#[derive(PartialEq, Eq, Structural, Clone, Copy, Debug)]
pub enum CallOutcome {
    /// A response arrived with this status code, whatever it is.
    Status(u16),
    /// No response arrived.
    TransportError,
}

/// The first call of a cycle.
#[derive(Debug)]
pub enum FirstCall {
    /// Call the dependency with this request, as declared.
    Dependency(Request),
    /// No dependency: send the primary request as declared.
    Primary(Request),
}

/// The primary request to send, and a notification to fire first.
#[derive(Debug)]
pub struct PrimaryPlan {
    pub request: Request,
    pub notification: Option<Notification>,
}

/// The end of a cycle: the row to record and a notification to fire.
#[derive(Debug)]
pub struct CycleReport {
    pub info: ApiInformation,
    pub notification: Option<Notification>,
}

/// The classification of a primary call's outcome against `expected`.
pub open spec fn classification(outcome: CallOutcome, expected: u16) -> HealthStatus {
    match outcome {
        CallOutcome::Status(s) => if s == expected {
            HealthStatus::Success
        } else {
            HealthStatus::Failure
        },
        CallOutcome::TransportError => HealthStatus::Failure,
    }
}

/// The endpoint only ever notifies on failure.
pub open spec fn error_only(api: Api) -> bool {
    api.notify_type@ == "ERROR"@
}

/// The message of a success notification.
pub open spec fn success_message(s: u16) -> Seq<char> {
    "Request succeeded with status "@ + decimal(s as nat)
}

/// The message of a notification for an unexpected status.
pub open spec fn failure_message(s: u16) -> Seq<char> {
    "Request failed with status "@ + decimal(s as nat)
}

/// The message of a notification for a call that got no response.
pub open spec fn no_response_message() -> Seq<char> {
    "Request failed without a response"@
}

/// The message of a notification for a failed dependency call.
pub open spec fn dependency_failure_message() -> Seq<char> {
    "Dependency request failed"@
}

/// The severity and message a cycle's outcome warrants, if any.
pub open spec fn outcome_notice(api: Api, outcome: CallOutcome) -> Option<(Severity, Seq<char>)> {
    match outcome {
        CallOutcome::Status(s) => if s == api.expected_status {
            if api.system_notify && !error_only(api) {
                Some((Severity::Info, success_message(s)))
            } else {
                None
            }
        } else if api.system_notify {
            Some((Severity::Error, failure_message(s)))
        } else {
            None
        },
        CallOutcome::TransportError => if api.system_notify {
            Some((Severity::Error, no_response_message()))
        } else {
            None
        },
    }
}

/// `n` carries `subject` and the severity and message of `notice`.
pub open spec fn notifies(n: Option<Notification>, subject: Seq<char>, notice: Option<(Severity, Seq<char>)>) -> bool {
    match (n, notice) {
        (Some(x), Some((severity, message))) => {
            &&& x.subject@ == subject
            &&& x.severity == severity
            &&& x.message@ == message
        },
        (None, None) => true,
        _ => false,
    }
}

/// Whether two strings hold the same characters.
fn same_text(a: &str, b: &str) -> (r: bool)
    ensures
        r == (a@ == b@),
{
    let x = chars_of(a);
    let y = chars_of(b);
    if x.len() != y.len() {
        return false;
    }
    let mut i: usize = 0;
    while i < x.len()
        invariant
            x@ == a@,
            y@ == b@,
            x.len() == y.len(),
            i <= x.len(),
            forall|j: int| 0 <= j < i ==> x@[j] == y@[j],
        decreases x.len() - i,
    {
        if x[i] != y[i] {
            assert(x@[i as int] != y@[i as int]);
            return false;
        }
        i = i + 1;
    }
    assert(x@ =~= y@);
    true
}

/// `prefix` followed by `n` in decimal.
fn with_number(prefix: &str, n: u16) -> (r: String)
    ensures
        r@ == prefix@ + decimal(n as nat),
{
    let mut cs = chars_of(prefix);
    push_decimal(n as u64, &mut cs);
    string_of(&cs)
}

/// Classifies the outcome of the primary call: `Ok` exactly when a
/// response arrived with the expected status, `Error` otherwise, and
/// always `Error` when no response arrived.
pub fn classify(outcome: CallOutcome, expected: u16) -> (r: HealthStatus)
    ensures
        r == classification(outcome, expected),
        r == HealthStatus::Success <==> outcome == CallOutcome::Status(expected),
        outcome == CallOutcome::TransportError ==> r == HealthStatus::Failure,
{
    match outcome {
        CallOutcome::Status(s) => if s == expected {
            HealthStatus::Success
        } else {
            HealthStatus::Failure
        },
        CallOutcome::TransportError => HealthStatus::Failure,
    }
}

/// Starts a cycle: the dependency's request where `api` declares one,
/// else the primary request exactly as declared.
pub fn start_cycle(api: &Api) -> (r: FirstCall)
    ensures
        api.depends_on is Some ==> r is Dependency && same_request(
            r->Dependency_0,
            api.depends_on->0.request,
        ),
        api.depends_on is None ==> r is Primary && same_request(r->Primary_0, api.request),
{
    match &api.depends_on {
        Some(dep) => FirstCall::Dependency(dep.request.copy()),
        None => FirstCall::Primary(api.request.copy()),
    }
}

/// Plans the primary call once the dependency's outcome is known. A
/// parsed response fills the placeholders from the declared fields; a
/// failed or unparsable one leaves the request as declared, and a
/// transport failure is notified when the endpoint asks for it.
pub fn after_dependency(api: &Api, outcome: &DependencyOutcome) -> (r: PrimaryPlan)
    ensures
        match (api.depends_on, *outcome) {
            (Some(dep), DependencyOutcome::Response(doc)) => {
                &&& substituted_request(
                    api.request,
                    extracted(dep.header_fields@, doc, false),
                    extracted(dep.body_fields@, doc, true),
                    r.request,
                )
                &&& strings_read_back(extracted(dep.body_fields@, doc, true), doc)
                &&& r.notification is None
            },
            (Some(dep), DependencyOutcome::TransportFailed) => {
                &&& same_request(r.request, api.request)
                &&& notifies(
                    r.notification,
                    dep.name@,
                    if api.system_notify {
                        Some((Severity::Error, dependency_failure_message()))
                    } else {
                        None
                    },
                )
            },
            _ => same_request(r.request, api.request) && r.notification is None,
        },
        request_wf(api.request) ==> request_wf(r.request),
{
    match (&api.depends_on, outcome) {
        (Some(dep), DependencyOutcome::Response(doc)) => {
            let fields = resolve_fields(dep, doc);
            PrimaryPlan { request: substitute_request(&api.request, &fields), notification: None }
        },
        (Some(dep), DependencyOutcome::TransportFailed) => {
            let notification = if api.system_notify {
                Some(
                    Notification {
                        subject: dep.name.clone(),
                        severity: Severity::Error,
                        message: "Dependency request failed".to_owned(),
                    },
                )
            } else {
                None
            };
            let request = api.request.copy();
            proof {
                if request_wf(api.request) {
                    lemma_same_request_wf(request, api.request);
                }
            }
            PrimaryPlan { request, notification }
        },
        _ => {
            let request = api.request.copy();
            proof {
                if request_wf(api.request) {
                    lemma_same_request_wf(request, api.request);
                }
            }
            PrimaryPlan { request, notification: None }
        },
    }
}

/// Ends a cycle: the row for `api` with the classified status, and the
/// notification the outcome warrants. A failure is notified when
/// `system_notify` is set; a success too, unless the endpoint is
/// error-only.
pub fn finish_cycle(api: &Api, outcome: CallOutcome) -> (r: CycleReport)
    ensures
        describes(r.info, *api, classification(outcome, api.expected_status)),
        notifies(r.notification, api.name@, outcome_notice(*api, outcome)),
{
    let status = classify(outcome, api.expected_status);
    let info = ApiInformation::describe(api, status);
    let notification = match outcome {
        CallOutcome::Status(s) => {
            if s == api.expected_status {
                if api.system_notify && !same_text(api.notify_type.as_str(), "ERROR") {
                    Some(
                        Notification {
                            subject: api.name.clone(),
                            severity: Severity::Info,
                            message: with_number("Request succeeded with status ", s),
                        },
                    )
                } else {
                    None
                }
            } else if api.system_notify {
                Some(
                    Notification {
                        subject: api.name.clone(),
                        severity: Severity::Error,
                        message: with_number("Request failed with status ", s),
                    },
                )
            } else {
                None
            }
        },
        CallOutcome::TransportError => {
            if api.system_notify {
                Some(
                    Notification {
                        subject: api.name.clone(),
                        severity: Severity::Error,
                        message: "Request failed without a response".to_owned(),
                    },
                )
            } else {
                None
            }
        },
    };
    CycleReport { info, notification }
}

} // verus!
