//! The request-level decision: authenticate, extract, route, and either
//! hand back a job to start or just a status.

use vstd::prelude::*;
use crate::config::{AppConfig, RepoRule, opt_text, rules_view};
use crate::executor::{DeploymentJob, JobModel};
use crate::payload::{EventModel, ParseError, WebhookEvent, event_of, extract, json_doc_of, json_parses};
use crate::routing::{Decision, RouteOutcome, route, route_model};
use crate::signature::{signature_valid, verify_signature};

verus! {

pub const STATUS_OK: u16 = 200;

pub const STATUS_BAD_REQUEST: u16 = 400;

pub const STATUS_UNAUTHORIZED: u16 = 401;

/// The state shared by all request handlers: the configuration, read-only.
pub struct AppState {
    pub config: AppConfig,
}

/// A response as mathematical values.
pub ghost struct ResponseModel {
    pub status: u16,
    pub job: Option<JobModel>,
}

/// What the transport answers, and the job to start detached, if any.
pub struct WebhookResponse {
    pub status: u16,
    pub job: Option<DeploymentJob>,
}

impl View for WebhookResponse {
    type V = ResponseModel;

    open spec fn view(&self) -> ResponseModel {
        ResponseModel {
            status: self.status,
            job: match self.job {
                Some(j) => Some(j@),
                None => None,
            },
        }
    }
}

/// The answer to a request: 401 when unauthenticated, 400 when the body is
/// not JSON or names neither a repository nor a ref, otherwise 200, with a
/// job exactly when routing triggers.
pub open spec fn response_of(
    authenticated: bool,
    event: Option<EventModel>,
    rules: Seq<(Seq<char>, RepoRule)>,
    token: Option<Seq<char>>,
) -> ResponseModel {
    if !authenticated {
        ResponseModel { status: 401, job: None }
    } else {
        match event {
            None => ResponseModel { status: 400, job: None },
            Some(ev) => if ev.repository.len() == 0 && ev.git_ref.len() == 0 {
                ResponseModel { status: 400, job: None }
            } else {
                match route_model(ev, rules) {
                    RouteOutcome::Trigger(rule) => ResponseModel {
                        status: 200,
                        job: Some(JobModel { repository: ev.repository, rule, token }),
                    },
                    _ => ResponseModel { status: 200, job: None },
                }
            },
        }
    }
}

pub open spec fn parsed_view(p: Result<WebhookEvent, ParseError>) -> Option<EventModel> {
    match p {
        Ok(e) => Some(e@),
        Err(_) => None,
    }
}

/// Decides the response once the signature has been checked and the body read.
pub fn respond(
    config: &AppConfig,
    authenticated: bool,
    parsed: Result<WebhookEvent, ParseError>,
) -> (r: WebhookResponse)
    ensures
        r@ == response_of(
            authenticated,
            parsed_view(parsed),
            rules_view(config.repos@),
            opt_text(config.git_token),
        ),
{
    if !authenticated {
        return WebhookResponse { status: STATUS_UNAUTHORIZED, job: None };
    }
    let event = match parsed {
        Ok(e) => e,
        Err(_) => return WebhookResponse { status: STATUS_BAD_REQUEST, job: None },
    };
    if event.repository_full_name.as_str().is_empty() && event.git_ref.as_str().is_empty() {
        return WebhookResponse { status: STATUS_BAD_REQUEST, job: None };
    }
    match route(&event, &config.repos) {
        Decision::Trigger(rule) => {
            let token = match &config.git_token {
                Some(t) => Some(t.clone()),
                None => None,
            };
            let job = DeploymentJob { repository: event.repository_full_name, rule, token };
            WebhookResponse { status: STATUS_OK, job: Some(job) }
        },
        _ => WebhookResponse { status: STATUS_OK, job: None },
    }
}

/// Handles one delivery: the signature header and raw body in, the status
/// and the job to start out. An unauthenticated request is never read
/// further; an invalid JSON body gets 400.
pub fn github_webhook(state: &AppState, signature_header: &str, body: &[u8]) -> (r: WebhookResponse)
    ensures
        (r.status == STATUS_UNAUTHORIZED) == !signature_valid(
            state.config.secret@,
            body@,
            signature_header@,
        ),
        r.status == STATUS_UNAUTHORIZED ==> r.job is None,
        signature_valid(state.config.secret@, body@, signature_header@) && !json_parses(body@)
            ==> r.status == STATUS_BAD_REQUEST && r.job is None,
        signature_valid(state.config.secret@, body@, signature_header@) && json_parses(body@)
            ==> r@ == response_of(
            true,
            Some(event_of(json_doc_of(body@))),
            rules_view(state.config.repos@),
            opt_text(state.config.git_token),
        ),
{
    if !verify_signature(state.config.secret.as_str(), body, signature_header) {
        return respond(&state.config, false, Err(ParseError::InvalidJson));
    }
    let parsed = extract(body);
    respond(&state.config, true, parsed)
}

/// An event that routing does not trigger on never yields a job.
pub proof fn non_matching_never_dispatches(
    ev: EventModel,
    rules: Seq<(Seq<char>, RepoRule)>,
    token: Option<Seq<char>>,
)
    requires
        route_model(ev, rules) is NoSuchRepo || route_model(ev, rules) is BranchMismatch,
    ensures
        response_of(true, Some(ev), rules, token).job is None,
{
}

/// A job is only ever made for an event that names both a repository and
/// a ref: a payload missing either field never dispatches.
pub proof fn job_needs_repository_and_ref(
    authenticated: bool,
    ev: EventModel,
    rules: Seq<(Seq<char>, RepoRule)>,
    token: Option<Seq<char>>,
)
    ensures
        response_of(authenticated, Some(ev), rules, token).job is Some ==> ev.repository.len() > 0
            && ev.git_ref.len() > 0,
{
}

/// A request that fails authentication never yields a job, whatever it holds.
pub proof fn unauthenticated_never_dispatches(
    event: Option<EventModel>,
    rules: Seq<(Seq<char>, RepoRule)>,
    token: Option<Seq<char>>,
)
    ensures
        response_of(false, event, rules, token) == (ResponseModel { status: 401, job: None }),
{
}

} // verus!
