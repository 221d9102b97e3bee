//! The dispatch step machine.  One request's pipeline is driven as a
//! sequence of steps: the engine names the next filter whose predicate
//! selects the request, the driver runs that filter's handler and hands the
//! decision back; when no filter is left the engine resolves the route,
//! injects the path parameters and names the route handler; a rejection or a
//! missing route ends the pipeline with a terminal response.  The driver
//! performs no decision of its own: every choice is made here.

use vstd::prelude::*;
use vstd::string::*;
use crate::error::ReturnError;
use crate::pattern::spec_pattern_bindings;
use crate::predicate::spec_predicate_matches;
use crate::registry::{spec_route_matches, Registry};
use crate::request::HttpRequest;
use crate::response::{not_found_response, rejection_response, HttpResponse};
use crate::strutil::pairs_view;

verus! {

/// A filter handler's decision: hand the (possibly mutated) request on, or
/// end the pipeline with a typed error.
pub enum Chain {
    Continune(HttpRequest),
    Reject(ReturnError),
}

/// One step of the pipeline, handed to the driver: invoke the named filter
/// handler on the request, invoke the named route handler, or write the
/// terminal response.
pub enum PipelineStep {
    InvokeFilter { index: usize, handler: usize, req: HttpRequest },
    InvokeRoute { index: usize, handler: usize, req: HttpRequest },
    Respond { response: HttpResponse },
}

/// What a dispatch step from filter position `start` returns.
///
/// - `InvokeFilter`: the first filter at or after `start` whose predicate
///   selects the path; every skipped filter's predicate does not, and the
///   request is handed over unchanged.
/// - `InvokeRoute`: no remaining filter matches, and the route is the first
///   registered one whose method and pattern both match; the request carries
///   the pattern's parameter bindings, every other field unchanged.
/// - `Respond`: no remaining filter and no route matches; the response is
///   the minimal not-found answer.
pub open spec fn dispatch_post(reg: Registry, req: HttpRequest, start: int, r: PipelineStep) -> bool {
    match r {
        PipelineStep::InvokeFilter { index, handler, req: q } => {
            &&& start <= index < reg.spec_filters().len()
            &&& spec_predicate_matches(reg.spec_filters()[index as int].predicate, req@.path)
            &&& forall|k: int|
                start <= k < index ==> !spec_predicate_matches(
                    reg.spec_filters()[k].predicate,
                    req@.path,
                )
            &&& handler == reg.spec_filters()[index as int].handler
            &&& q == req
        },
        PipelineStep::InvokeRoute { index, handler, req: q } => {
            &&& forall|k: int|
                start <= k < reg.spec_filters().len() ==> !spec_predicate_matches(
                    reg.spec_filters()[k].predicate,
                    req@.path,
                )
            &&& 0 <= index < reg.spec_routes().len()
            &&& spec_route_matches(reg.spec_routes()[index as int], req@.method, req@.path)
            &&& forall|k: int|
                0 <= k < index ==> !spec_route_matches(reg.spec_routes()[k], req@.method, req@.path)
            &&& handler == reg.spec_routes()[index as int].handler
            &&& q.method == req.method
            &&& q.path == req.path
            &&& q.query == req.query
            &&& q.headers == req.headers
            &&& q.attributes == req.attributes
            &&& pairs_view(q.path_params@) == spec_pattern_bindings(
                reg.spec_routes()[index as int].path@,
                req@.path,
            )
        },
        PipelineStep::Respond { response } => {
            &&& forall|k: int|
                start <= k < reg.spec_filters().len() ==> !spec_predicate_matches(
                    reg.spec_filters()[k].predicate,
                    req@.path,
                )
            &&& forall|k: int|
                0 <= k < reg.spec_routes().len() ==> !spec_route_matches(
                    reg.spec_routes()[k],
                    req@.method,
                    req@.path,
                )
            &&& response.status == 404
            &&& response@.headers.len() == 0
            &&& response@.body == "not found!"@
        },
    }
}

/// What the step after a filter rejection is: the terminal response carrying
/// the rejection's status, body and headers, rendered by the plain-text rule.
pub open spec fn rejection_post(e: ReturnError, r: PipelineStep) -> bool {
    match r {
        PipelineStep::Respond { response } => {
            &&& response.status == e.response_code
            &&& response@.headers == e@.headers
            &&& response@.body == e@.response_body
        },
        _ => false,
    }
}

impl Registry {
    fn dispatch_from(&self, req: HttpRequest, start: usize) -> (r: PipelineStep)
        requires
            start <= self.spec_filters().len(),
        ensures
            dispatch_post(*self, req, start as int, r),
    {
        let filters = self.all_filters();
        let n: usize = filters.len();
        let mut i: usize = start;
        while i < n
            invariant
                filters@ == self.spec_filters(),
                n == self.spec_filters().len(),
                start <= i <= n,
                forall|k: int|
                    start <= k < i ==> !spec_predicate_matches(
                        self.spec_filters()[k].predicate,
                        req@.path,
                    ),
            decreases n - i,
        {
            let f = &filters[i];
            if f.predicate.matches_path(req.path.as_str()) {
                let handler: usize = f.handler;
                return PipelineStep::InvokeFilter { index: i, handler, req };
            }
            i = i + 1;
        }
        match self.resolve(req.method.as_str(), &req.path) {
            Some(idx) => {
                let routes = self.all_routes();
                let params_opt = routes[idx].path.pattern_match(&req.path);
                match params_opt {
                    Some(params) => {
                        let handler: usize = routes[idx].handler;
                        let mut q = req;
                        q.set_path_params(params);
                        PipelineStep::InvokeRoute { index: idx, handler, req: q }
                    },
                    None => {
                        // unreachable: the resolved route's pattern matches
                        proof {
                            assert(false);
                        }
                        PipelineStep::Respond { response: not_found_response() }
                    },
                }
            },
            None => PipelineStep::Respond { response: not_found_response() },
        }
    }

    /// Start one request's pipeline: the first step, considering every
    /// registered filter.
    pub fn dispatch_begin(&self, req: HttpRequest) -> (r: PipelineStep)
        ensures
            dispatch_post(*self, req, 0, r),
    {
        self.dispatch_from(req, 0)
    }

    /// Continue the pipeline after the filter at `index` resolved its
    /// decision: a continue moves on to the filters after `index` with the
    /// request the filter handed back; a rejection is terminal and becomes
    /// the response, so no later filter and no route handler can run.
    pub fn dispatch_resume(&self, index: usize, decision: Chain) -> (r: PipelineStep)
        requires
            index < self.spec_filters().len(),
        ensures
            (decision matches Chain::Continune(q) ==> dispatch_post(*self, q, index + 1, r)),
            (decision matches Chain::Reject(e) ==> rejection_post(e, r)),
    {
        match decision {
            Chain::Continune(q) => {
                // the filter index is in range, so the next position fits
                let n: usize = self.all_filters().len();
                proof {
                    assert(index < n);
                }
                self.dispatch_from(q, index + 1)
            },
            Chain::Reject(e) => PipelineStep::Respond { response: rejection_response(e) },
        }
    }
}

/// Law: a rejection short-circuits the pipeline.  The step after a filter
/// rejects is the terminal response built from that rejection; it invokes no
/// filter and no route handler.
pub proof fn lemma_reject_terminal(e: ReturnError, r: PipelineStep)
    requires
        rejection_post(e, r),
    ensures
        !(r is InvokeFilter),
        !(r is InvokeRoute),
        r matches PipelineStep::Respond { response } && response.status == e.response_code
            && response@.headers == e@.headers && response@.body == e@.response_body,
{
}

/// Law: filters run in ascending order.  A step invokes only a filter at or
/// after its start position, every filter skipped on the way does not match
/// (so it is never invoked and never sees the request), and in a well-formed
/// registry a filter invoked later in the chain never has a smaller order
/// key than one invoked before it.
pub proof fn lemma_chain_ascending(
    reg: Registry,
    req1: HttpRequest,
    req2: HttpRequest,
    start: int,
    r1: PipelineStep,
    r2: PipelineStep,
    i1: usize,
    i2: usize,
)
    requires
        reg.wf(),
        dispatch_post(reg, req1, start, r1),
        r1 matches PipelineStep::InvokeFilter { index, .. } && index == i1,
        dispatch_post(reg, req2, i1 + 1, r2),
        r2 matches PipelineStep::InvokeFilter { index, .. } && index == i2,
    ensures
        i1 < i2,
        reg.spec_filters()[i1 as int].order <= reg.spec_filters()[i2 as int].order,
{
}

/// Law: route resolution takes the first registered route whose method and
/// pattern both match, and a request no route matches ends in the minimal
/// not-found response rather than an error.
pub proof fn lemma_first_route_wins(reg: Registry, req: HttpRequest, start: int, r: PipelineStep)
    requires
        dispatch_post(reg, req, start, r),
    ensures
        r matches PipelineStep::InvokeRoute { index, .. } ==> spec_route_matches(
            reg.spec_routes()[index as int],
            req@.method,
            req@.path,
        ) && forall|k: int|
            0 <= k < index ==> !spec_route_matches(reg.spec_routes()[k], req@.method, req@.path),
        r matches PipelineStep::Respond { response } ==> response.status == 404 && forall|k: int|
            0 <= k < reg.spec_routes().len() ==> !spec_route_matches(
                reg.spec_routes()[k],
                req@.method,
                req@.path,
            ),
{
}

} // verus!
