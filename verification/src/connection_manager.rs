//! The connection manager: one worker per `(host, connector)` pair.
//!
//! A worker holds that pair's request queue and serves it strictly
//! first-in, first-out. For each message of the front request it decides,
//! by the request's cache policy, whether the cache answers or the
//! transport must be asked; the embedding application performs the
//! transport calls and hands the outcomes back, and the worker merges
//! them into one ordered result sequence and writes successes through
//! the cache.

use vstd::prelude::*;

use crate::cache::{
    spec_lookup, spec_written, CacheEntryView, CacheKey, CacheKeyView, ResponseCache,
};
use crate::configuration::CacheSettings;
use crate::data_point::{DataPoint, DataPointView};
use crate::enums::{CachePolicy, RequestType};
use crate::host::{Host, HostView};
use crate::command::Command;
use crate::module_spec::{ModuleSpecification, ModuleSpecificationView};
use crate::monitoring::Monitor;
use crate::response::{
    spec_not_found_response, spec_result_view, spec_results_view, ResponseMessage,
    ResponseMessageView,
};
use crate::string_map::StringMap;

verus! {

/// What a monitor-chain response handler needs: the remaining modules
/// (the first of them is the one whose messages are in flight), the
/// invocation id, the parent data point, the errors accumulated by the
/// earlier steps, and the cache policy carried through the chain.
pub struct MonitorRequestContext {
    pub chain: Vec<Monitor>,
    pub invocation_id: u64,
    pub parent: DataPoint,
    pub errors: Vec<crate::data_point::ErrorMessage>,
    pub cache_policy: CachePolicy,
}

/// Spec-level contents of a [`MonitorRequestContext`].
#[verifier::ext_equal]
pub struct MonitorRequestContextView {
    pub chain: Seq<Monitor>,
    pub invocation_id: u64,
    pub parent: DataPointView,
    pub errors: Seq<crate::data_point::ErrorMessageView>,
    pub cache_policy: CachePolicy,
}

impl View for MonitorRequestContext {
    type V = MonitorRequestContextView;

    open spec fn view(&self) -> MonitorRequestContextView {
        MonitorRequestContextView {
            chain: self.chain@,
            invocation_id: self.invocation_id,
            parent: self.parent@,
            errors: self.errors.deep_view(),
            cache_policy: self.cache_policy,
        }
    }
}

/// What a command response handler needs.
#[derive(Clone, Copy, PartialEq, Eq, Structural)]
pub struct CommandRequestContext {
    pub command: Command,
    pub invocation_id: u64,
}

/// The context a request carries for its response handler.
pub enum RequestContext {
    Monitor(MonitorRequestContext),
    Command(CommandRequestContext),
}

/// Spec-level contents of a [`RequestContext`].
#[verifier::ext_equal]
pub enum RequestContextView {
    Monitor(MonitorRequestContextView),
    Command(CommandRequestContext),
}

impl View for RequestContext {
    type V = RequestContextView;

    open spec fn view(&self) -> RequestContextView {
        match self {
            RequestContext::Monitor(m) => RequestContextView::Monitor(m@),
            RequestContext::Command(c) => RequestContextView::Command(*c),
        }
    }
}

/// One request to a connector: an ordered sequence of messages for one
/// host, with the context its response handler needs.
pub struct ConnectorRequest {
    pub connector_spec: Option<ModuleSpecification>,
    pub source_id: String,
    pub host: Host,
    pub messages: Vec<String>,
    pub request_type: RequestType,
    pub response_context: RequestContext,
    pub cache_policy: CachePolicy,
}

/// Spec-level contents of a [`ConnectorRequest`].
#[verifier::ext_equal]
pub struct ConnectorRequestView {
    pub connector_spec: Option<ModuleSpecificationView>,
    pub source_id: Seq<char>,
    pub host: HostView,
    pub messages: Seq<Seq<char>>,
    pub request_type: RequestType,
    pub response_context: RequestContextView,
    pub cache_policy: CachePolicy,
}

impl DeepView for ConnectorRequest {
    type V = ConnectorRequestView;

    open spec fn deep_view(&self) -> ConnectorRequestView {
        self.view()
    }
}

impl View for ConnectorRequest {
    type V = ConnectorRequestView;

    open spec fn view(&self) -> ConnectorRequestView {
        ConnectorRequestView {
            connector_spec: self.connector_spec.deep_view(),
            source_id: self.source_id@,
            host: self.host@,
            messages: self.messages.deep_view(),
            request_type: self.request_type,
            response_context: self.response_context@,
            cache_policy: self.cache_policy,
        }
    }
}

/// How one message of a request is answered: by the cache, by the
/// transport, or - under a policy that forbids forwarding - not at all.
pub enum MessageStep {
    Cached(ResponseMessage),
    Forward(String),
    Miss,
}

/// Spec-level contents of a [`MessageStep`].
#[verifier::ext_equal]
pub enum MessageStepView {
    Cached(ResponseMessageView),
    Forward(Seq<char>),
    Miss,
}

impl View for MessageStep {
    type V = MessageStepView;

    open spec fn view(&self) -> MessageStepView {
        match self {
            MessageStep::Cached(m) => MessageStepView::Cached(m@),
            MessageStep::Forward(s) => MessageStepView::Forward(s@),
            MessageStep::Miss => MessageStepView::Miss,
        }
    }
}

impl DeepView for MessageStep {
    type V = MessageStepView;

    open spec fn deep_view(&self) -> MessageStepView {
        self.view()
    }
}

/// One queued request with its submission sequence number.
pub struct QueuedRequest {
    pub seq: u64,
    pub request: ConnectorRequest,
}

/// Spec-level contents of a [`QueuedRequest`].
#[verifier::ext_equal]
pub struct QueuedRequestView {
    pub seq: u64,
    pub request: ConnectorRequestView,
}

impl View for QueuedRequest {
    type V = QueuedRequestView;

    open spec fn view(&self) -> QueuedRequestView {
        QueuedRequestView { seq: self.seq, request: self.request@ }
    }
}

impl DeepView for QueuedRequest {
    type V = QueuedRequestView;

    open spec fn deep_view(&self) -> QueuedRequestView {
        self.view()
    }
}

/// The fingerprint of one message of a request.
pub open spec fn spec_request_key(
    host_name: Seq<char>,
    connector_id: Seq<char>,
    request_type: RequestType,
    message: Seq<char>,
) -> CacheKeyView {
    CacheKeyView { host_name, connector_id, request_type, message }
}

/// A cache entry served as a response, marked as coming from the cache.
pub open spec fn spec_cached_response(e: CacheEntryView) -> ResponseMessageView {
    ResponseMessageView {
        message: e.message,
        return_code: e.return_code,
        is_from_cache: true,
        not_found: false,
    }
}

/// The step for one message: `BypassCache` always forwards; `PreferCache`
/// serves a fresh entry and forwards otherwise; `OnlyCache` serves a
/// fresh entry and otherwise reports a silent miss.
pub open spec fn spec_plan_step(
    policy: CachePolicy,
    message: Seq<char>,
    hit: Option<CacheEntryView>,
) -> MessageStepView {
    match policy {
        CachePolicy::BypassCache => MessageStepView::Forward(message),
        CachePolicy::PreferCache => match hit {
            Some(e) => MessageStepView::Cached(spec_cached_response(e)),
            None => MessageStepView::Forward(message),
        },
        CachePolicy::OnlyCache => match hit {
            Some(e) => MessageStepView::Cached(spec_cached_response(e)),
            None => MessageStepView::Miss,
        },
    }
}

/// How many of the first `i` steps forward to the transport.
pub open spec fn spec_forward_count(plan: Seq<MessageStepView>, i: int) -> int
    decreases i,
{
    if i <= 0 {
        0
    } else {
        spec_forward_count(plan, i - 1) + (if plan[i - 1] is Forward {
            1int
        } else {
            0int
        })
    }
}

/// The result delivered for message `i`: the cached response, the
/// not-found sentinel, or the transport outcome for the corresponding
/// forwarded message, in order.
pub open spec fn spec_merged_result(
    plan: Seq<MessageStepView>,
    transport: Seq<Result<ResponseMessageView, Seq<char>>>,
    i: int,
) -> Result<ResponseMessageView, Seq<char>> {
    match plan[i] {
        MessageStepView::Cached(m) => Ok(m),
        MessageStepView::Miss => Ok(spec_not_found_response()),
        MessageStepView::Forward(_) => transport[spec_forward_count(plan, i)],
    }
}

/// The cache after the successful transport outcomes of the first `i`
/// steps have been written through.
pub open spec fn spec_writes_upto(
    cache: Map<CacheKeyView, CacheEntryView>,
    host_name: Seq<char>,
    connector_id: Seq<char>,
    request_type: RequestType,
    plan: Seq<MessageStepView>,
    transport: Seq<Result<ResponseMessageView, Seq<char>>>,
    now: u64,
    settings: CacheSettings,
    i: int,
) -> Map<CacheKeyView, CacheEntryView>
    decreases i,
{
    if i <= 0 {
        cache
    } else {
        let prev = spec_writes_upto(
            cache,
            host_name,
            connector_id,
            request_type,
            plan,
            transport,
            now,
            settings,
            i - 1,
        );
        match plan[i - 1] {
            MessageStepView::Forward(message) => match transport[spec_forward_count(plan, i - 1)] {
                Ok(rm) => spec_written(
                    prev,
                    spec_request_key(host_name, connector_id, request_type, message),
                    rm.message,
                    rm.return_code,
                    now,
                    settings,
                ),
                Err(_) => prev,
            },
            _ => prev,
        }
    }
}

/// The worker of one `(host, connector)` pair: its connection state and
/// its FIFO request queue. Submission order is recorded in sequence
/// numbers, and completion always takes the front of the queue, so
/// response callbacks run in submission order.
pub struct Worker {
    connected: bool,
    queue: Vec<QueuedRequest>,
    next_submit_seq: u64,
    next_complete_seq: u64,
}

/// Spec-level contents of a [`Worker`].
#[verifier::ext_equal]
pub struct WorkerView {
    pub connected: bool,
    pub queue: Seq<QueuedRequestView>,
    pub next_submit_seq: u64,
    pub next_complete_seq: u64,
}

impl View for Worker {
    type V = WorkerView;

    closed spec fn view(&self) -> WorkerView {
        WorkerView {
            connected: self.connected,
            queue: self.queue.deep_view(),
            next_submit_seq: self.next_submit_seq,
            next_complete_seq: self.next_complete_seq,
        }
    }
}

impl WorkerView {
    /// An idle worker that has seen no requests.
    pub open spec fn spec_new() -> WorkerView {
        WorkerView {
            connected: false,
            queue: Seq::empty(),
            next_submit_seq: 0,
            next_complete_seq: 0,
        }
    }

    /// The worker after one submission: the request is appended with the
    /// next submission sequence number.
    pub open spec fn spec_after_submit(self, request: ConnectorRequestView) -> WorkerView {
        WorkerView {
            connected: self.connected,
            queue: self.queue.push(
                QueuedRequestView { seq: self.next_submit_seq, request },
            ),
            next_submit_seq: (self.next_submit_seq + 1) as u64,
            next_complete_seq: self.next_complete_seq,
        }
    }
}

impl Worker {
    /// Queued sequence numbers are contiguous from the next number to
    /// complete up to the next number to assign.
    #[verifier::type_invariant]
    pub closed spec fn wf(&self) -> bool {
        &&& self.next_complete_seq + self.queue@.len() == self.next_submit_seq
        &&& forall|i: int|
            0 <= i < self.queue@.len() ==> self.queue@[i].seq == self.next_complete_seq + i
    }

    pub fn new() -> (r: Worker)
        ensures
            r@ == WorkerView::spec_new(),
    {
        let r = Worker { connected: false, queue: Vec::new(), next_submit_seq: 0, next_complete_seq: 0 };
        proof {
            assert(r@ =~= WorkerView::spec_new());
        }
        r
    }

    /// First-in, first-out: the front of the queue is always the oldest
    /// outstanding submission, and the queue ascends in submission order.
    pub proof fn lemma_fifo_order(&self)
        requires
            self.wf(),
        ensures
            self@.next_complete_seq + self@.queue.len() == self@.next_submit_seq,
            forall|i: int|
                0 <= i < self@.queue.len() ==> self@.queue[i].seq == self@.next_complete_seq + i,
            forall|i: int, j: int|
                0 <= i < j < self@.queue.len() ==> self@.queue[i].seq < self@.queue[j].seq,
    {
    }

    pub fn is_connected(&self) -> (r: bool)
        ensures
            r == self@.connected,
    {
        self.connected
    }

    /// Whether this worker's sequence numbers still have room for a
    /// submission.
    pub fn has_submit_capacity(&self) -> (r: bool)
        ensures
            r == (self@.next_submit_seq < u64::MAX),
    {
        self.next_submit_seq < u64::MAX
    }

    /// Records that the embedding application established the transport.
    pub fn mark_connected(&mut self, connected: bool)
        ensures
            final(self)@ == (WorkerView { connected, ..old(self)@ }),
    {
        proof {
            use_type_invariant(&*self);
        }
        self.connected = connected;
        proof {
            assert(self@ =~= (WorkerView { connected, ..old(self)@ }));
        }
    }

    pub fn queue_len(&self) -> (r: usize)
        ensures
            r == self@.queue.len(),
    {
        self.queue.len()
    }

    /// Appends a request to this worker's queue.
    pub fn submit(&mut self, request: ConnectorRequest)
        requires
            old(self)@.next_submit_seq < u64::MAX,
        ensures
            final(self)@ == old(self)@.spec_after_submit(request@),
    {
        proof {
            use_type_invariant(&*self);
        }
        let mut taken = Worker::new();
        core::mem::swap(self, &mut taken);
        let Worker { connected, queue: mut queue, next_submit_seq, next_complete_seq } = taken;
        let entry = QueuedRequest { seq: next_submit_seq, request };
        queue.push(entry);
        let replacement = Worker {
            connected,
            queue,
            next_submit_seq: next_submit_seq + 1,
            next_complete_seq,
        };
        proof {
            assert(replacement@.queue =~= old(self)@.queue.push(
                QueuedRequestView { seq: old(self)@.next_submit_seq, request: request@ },
            ));
            assert(replacement@ =~= old(self)@.spec_after_submit(request@));
        }
        *self = replacement;
    }

    /// Decides, message by message, how the front request is served: per
    /// its cache policy, each message is answered from the cache, marked
    /// for the transport, or reported as a silent miss. Under
    /// `OnlyCache` nothing is forwarded; under `BypassCache` everything
    /// is.
    pub fn plan_front(&self, cache: &ResponseCache, now: u64) -> (r: Vec<MessageStep>)
        requires
            self@.queue.len() > 0,
            self@.queue[0].request.connector_spec is Some,
        ensures
            r.deep_view().len() == self@.queue[0].request.messages.len(),
            forall|i: int|
                0 <= i < r.deep_view().len() ==> r.deep_view()[i] == spec_plan_step(
                    self@.queue[0].request.cache_policy,
                    self@.queue[0].request.messages[i],
                    spec_lookup(
                        cache.contents(),
                        spec_request_key(
                            self@.queue[0].request.host.name,
                            self@.queue[0].request.connector_spec.unwrap().id,
                            self@.queue[0].request.request_type,
                            self@.queue[0].request.messages[i],
                        ),
                        now,
                        cache.spec_process_start(),
                        cache.spec_settings(),
                    ),
                ),
            self@.queue[0].request.cache_policy == CachePolicy::OnlyCache ==> forall|i: int|
                0 <= i < r.deep_view().len() ==> !(r.deep_view()[i] is Forward),
            self@.queue[0].request.cache_policy == CachePolicy::BypassCache ==> forall|i: int|
                0 <= i < r.deep_view().len() ==> r.deep_view()[i] is Forward,
    {
        proof {
            use_type_invariant(&*self);
        }
        let front = &self.queue[0].request;
        let ghost frontv = self@.queue[0].request;
        proof {
            assert(frontv == front@);
        }
        let n = front.messages.len();
        let mut plan: Vec<MessageStep> = Vec::new();
        let mut i: usize = 0;
        while i < n
            invariant
                0 <= i <= n,
                n == frontv.messages.len(),
                frontv == front@,
                front.connector_spec is Some,
                plan.deep_view().len() == i,
                forall|j: int|
                    0 <= j < i ==> plan.deep_view()[j] == spec_plan_step(
                        frontv.cache_policy,
                        frontv.messages[j],
                        spec_lookup(
                            cache.contents(),
                            spec_request_key(
                                frontv.host.name,
                                frontv.connector_spec.unwrap().id,
                                frontv.request_type,
                                frontv.messages[j],
                            ),
                            now,
                            cache.spec_process_start(),
                            cache.spec_settings(),
                        ),
                    ),
            decreases n - i,
        {
            let ghost plan_before = plan.deep_view();
            let message = &front.messages[i];
            proof {
                assert(message@ == frontv.messages[i as int]);
            }
            let step: MessageStep = match front.cache_policy {
                CachePolicy::BypassCache => MessageStep::Forward(message.clone()),
                CachePolicy::PreferCache => {
                    let connector_id = match &front.connector_spec {
                        Some(c) => c.id.as_str(),
                        None => "",
                    };
                    let key = CacheKey::new(
                        front.host.name.as_str(),
                        connector_id,
                        front.request_type,
                        message.as_str(),
                    );
                    match cache.lookup(&key, now) {
                        Some(m) => MessageStep::Cached(m),
                        None => MessageStep::Forward(message.clone()),
                    }
                },
                CachePolicy::OnlyCache => {
                    let connector_id = match &front.connector_spec {
                        Some(c) => c.id.as_str(),
                        None => "",
                    };
                    let key = CacheKey::new(
                        front.host.name.as_str(),
                        connector_id,
                        front.request_type,
                        message.as_str(),
                    );
                    match cache.lookup(&key, now) {
                        Some(m) => MessageStep::Cached(m),
                        None => MessageStep::Miss,
                    }
                },
            };
            plan.push(step);
            proof {
                assert(plan.deep_view() =~= plan_before.push(step@));
            }
            i += 1;
        }
        plan
    }

    /// Pops the front request and merges the cache plan with the
    /// transport outcomes into one result sequence in message order,
    /// writing each successful transport response through the cache.
    /// Completion takes the oldest outstanding submission.
    pub fn complete_front(
        &mut self,
        cache: &mut ResponseCache,
        plan: &Vec<MessageStep>,
        transport: Vec<Result<ResponseMessage, String>>,
        now: u64,
    ) -> (r: (ConnectorRequest, Vec<Result<ResponseMessage, String>>))
        requires
            old(self)@.queue.len() > 0,
            old(self)@.queue[0].request.connector_spec is Some,
            plan.deep_view().len() == old(self)@.queue[0].request.messages.len(),
            forall|i: int|
                0 <= i < plan.deep_view().len() ==> (#[trigger] plan.deep_view()[i] matches
                    MessageStepView::Forward(m) ==> m == old(self)@.queue[0].request.messages[i]),
            transport@.len() == spec_forward_count(plan.deep_view(), plan.deep_view().len() as int),
        ensures
            final(self)@.queue == old(self)@.queue.drop_first(),
            final(self)@.next_complete_seq == old(self)@.next_complete_seq + 1,
            final(self)@.next_submit_seq == old(self)@.next_submit_seq,
            final(self)@.connected == old(self)@.connected,
            old(self)@.queue[0].seq == old(self)@.next_complete_seq,
            r.0@ == old(self)@.queue[0].request,
            spec_results_view(r.1@).len() == plan.deep_view().len(),
            forall|i: int|
                0 <= i < plan.deep_view().len() ==> spec_results_view(r.1@)[i]
                    == spec_merged_result(
                    plan.deep_view(),
                    spec_results_view(transport@),
                    i,
                ),
            final(cache).contents() == spec_writes_upto(
                old(cache).contents(),
                old(self)@.queue[0].request.host.name,
                old(self)@.queue[0].request.connector_spec.unwrap().id,
                old(self)@.queue[0].request.request_type,
                plan.deep_view(),
                spec_results_view(transport@),
                now,
                old(cache).spec_settings(),
                plan.deep_view().len() as int,
            ),
            final(cache).spec_settings() == old(cache).spec_settings(),
            final(cache).spec_process_start() == old(cache).spec_process_start(),
    {
        proof {
            use_type_invariant(&*self);
        }
        let mut taken = Worker::new();
        core::mem::swap(self, &mut taken);
        let Worker { connected, queue: mut queue, next_submit_seq, next_complete_seq } = taken;
        let front = queue.remove(0);
        let QueuedRequest { seq: _, request } = front;
        let ghost frontv = old(self)@.queue[0].request;
        let ghost planv = plan.deep_view();
        let ghost transportv = spec_results_view(transport@);
        let ghost cache0 = cache.contents();
        let ghost host_name = frontv.host.name;
        let ghost connector_id = frontv.connector_spec.unwrap().id;

        let connector_id_string = match &request.connector_spec {
            Some(c) => c.id.clone(),
            None => String::new(),
        };
        let n = plan.len();
        let mut results: Vec<Result<ResponseMessage, String>> = Vec::new();
        let mut rest = transport;
        let mut forwarded: usize = 0;
        let mut i: usize = 0;
        while i < n
            invariant
                0 <= i <= n,
                n == planv.len(),
                planv.len() == frontv.messages.len(),
                planv == plan.deep_view(),
                frontv == request@,
                request.connector_spec is Some,
                host_name == frontv.host.name,
                connector_id == frontv.connector_spec.unwrap().id,
                connector_id_string@ == connector_id,
                forall|j: int|
                    0 <= j < planv.len() ==> (#[trigger] planv[j] matches
                        MessageStepView::Forward(m) ==> m == frontv.messages[j]),
                transportv.len() == spec_forward_count(planv, planv.len() as int),
                forwarded == spec_forward_count(planv, i as int),
                forwarded <= transportv.len(),
                spec_results_view(rest@) =~= transportv.subrange(
                    forwarded as int,
                    transportv.len() as int,
                ),
                results@.len() == i,
                forall|j: int|
                    0 <= j < i ==> spec_result_view(results@[j]) == spec_merged_result(
                        planv,
                        transportv,
                        j,
                    ),
                cache.contents() == spec_writes_upto(
                    cache0,
                    host_name,
                    connector_id,
                    frontv.request_type,
                    planv,
                    transportv,
                    now,
                    old(cache).spec_settings(),
                    i as int,
                ),
                cache.spec_settings() == old(cache).spec_settings(),
                cache.spec_process_start() == old(cache).spec_process_start(),
            decreases n - i,
        {
            proof {
                assert(planv[i as int] == plan@[i as int]@);
                assert(spec_forward_count(planv, i as int + 1) == spec_forward_count(
                    planv,
                    i as int,
                ) + (if planv[i as int] is Forward {
                    1int
                } else {
                    0int
                }));
            }
            match &plan[i] {
                MessageStep::Cached(m) => {
                    let cloned = m.clone();
                    results.push(Ok(cloned));
                    proof {
                        assert(planv[i as int] == MessageStepView::Cached(m@));
                        assert(spec_result_view(results@[i as int]) == Ok::<
                            ResponseMessageView,
                            Seq<char>,
                        >(m@));
                    }
                },
                MessageStep::Miss => {
                    let not_found = ResponseMessage::new_not_found();
                    proof {
                        assert(not_found@ =~= spec_not_found_response());
                    }
                    results.push(Ok(not_found));
                },
                MessageStep::Forward(message) => {
                    let ghost rest_before = rest@;
                    let ghost fwd_before = forwarded as int;
                    proof {
                        assert(spec_forward_count(planv, i as int) < transportv.len()) by {
                            lemma_forward_count_monotone(planv, i as int + 1, planv.len() as int);
                        }
                        assert(spec_results_view(rest@).len() == rest@.len());
                        assert(spec_results_view(rest@)[0] == transportv[fwd_before]);
                    }
                    let outcome = rest.remove(0);
                    proof {
                        assert(outcome == rest_before[0]);
                        assert(spec_result_view(outcome) == spec_results_view(rest_before)[0]);
                        assert(spec_result_view(outcome) == transportv[fwd_before]);
                    }
                    match &outcome {
                        Ok(response) => {
                            let key = CacheKey::new(
                                request.host.name.as_str(),
                                connector_id_string.as_str(),
                                request.request_type,
                                message.as_str(),
                            );
                            proof {
                                assert(message@ == frontv.messages[i as int]);
                                assert(key@ =~= spec_request_key(
                                    host_name,
                                    connector_id,
                                    frontv.request_type,
                                    frontv.messages[i as int],
                                ));
                            }
                            cache.write(key, response, now);
                        },
                        Err(_) => {},
                    }
                    proof {
                        lemma_forward_count_bound(planv, i as int);
                    }
                    forwarded = forwarded + 1;
                    results.push(outcome);
                    proof {
                        assert forall|j: int| 0 <= j < rest@.len() implies spec_results_view(
                            rest@,
                        )[j] == transportv[forwarded + j] by {
                            assert(rest@[j] == rest_before[j + 1]);
                            assert(spec_results_view(rest_before)[j + 1] == transportv[fwd_before
                                + 1 + j]);
                        }
                        assert(spec_results_view(rest@) =~= transportv.subrange(
                            forwarded as int,
                            transportv.len() as int,
                        ));
                        assert(spec_result_view(results@[i as int]) == transportv[fwd_before]);
                        assert(spec_forward_count(planv, i as int) == fwd_before);
                    }
                },
            }
            proof {
                assert(spec_result_view(results@[i as int]) == spec_merged_result(
                    planv,
                    transportv,
                    i as int,
                ));
            }
            i += 1;
        }
        let replacement = Worker {
            connected,
            queue,
            next_submit_seq,
            next_complete_seq: next_complete_seq + 1,
        };
        proof {
            assert(replacement@.queue =~= old(self)@.queue.drop_first());
        }
        *self = replacement;
        (request, results)
    }
}

proof fn lemma_forward_count_bound(plan: Seq<MessageStepView>, i: int)
    requires
        0 <= i,
    ensures
        spec_forward_count(plan, i) <= i,
    decreases i,
{
    if i > 0 {
        lemma_forward_count_bound(plan, i - 1);
    }
}

proof fn lemma_forward_count_monotone(plan: Seq<MessageStepView>, i: int, j: int)
    requires
        i <= j,
    ensures
        spec_forward_count(plan, i) <= spec_forward_count(plan, j),
    decreases j - i,
{
    if i < j {
        lemma_forward_count_monotone(plan, i, j - 1);
    }
}

/// Routes requests to per-pair workers and owns the response cache.
pub struct ConnectionManager {
    pub cache: ResponseCache,
    pub workers: StringMap<StringMap<Worker>>,
}

impl ConnectionManager {
    /// The worker of a `(host, connector)` pair, when one exists.
    pub open spec fn spec_worker(&self, host: Seq<char>, connector_id: Seq<char>) -> Option<
        WorkerView,
    > {
        if self.workers@.contains_key(host) && self.workers@[host].contains_key(connector_id) {
            Some(self.workers@[host][connector_id])
        } else {
            None
        }
    }

    /// Submission is possible while the pair's sequence numbers have
    /// room; a fresh pair always has.
    pub open spec fn spec_can_submit(&self, host: Seq<char>, connector_id: Seq<char>) -> bool {
        match self.spec_worker(host, connector_id) {
            Some(w) => w.next_submit_seq < u64::MAX,
            None => true,
        }
    }

    /// The executable check of [`Self::spec_can_submit`], for callers
    /// that must test the submission precondition first.
    pub fn can_submit(&self, host: &str, connector_id: &str) -> (r: bool)
        ensures
            r == self.spec_can_submit(host@, connector_id@),
    {
        match self.workers.get(host) {
            Some(inner) => match inner.get(connector_id) {
                Some(worker) => worker.has_submit_capacity(),
                None => true,
            },
            None => true,
        }
    }

    pub fn new(settings: CacheSettings, process_start: u64) -> (r: ConnectionManager)
        ensures
            r.cache.contents() == Map::<CacheKeyView, CacheEntryView>::empty(),
            r.cache.spec_settings() == settings,
            r.cache.spec_process_start() == process_start,
            r.workers@ == Map::<Seq<char>, Map<Seq<char>, WorkerView>>::empty(),
    {
        ConnectionManager { cache: ResponseCache::new(settings, process_start), workers: StringMap::new() }
    }

    /// Appends a request to the queue of its `(host, connector)` pair,
    /// creating the pair's worker on first use. At most one worker ever
    /// exists per pair.
    pub fn submit(&mut self, request: ConnectorRequest)
        requires
            request.connector_spec is Some,
            old(self).spec_can_submit(request@.host.name, request@.connector_spec.unwrap().id),
        ensures
            final(self).cache == old(self).cache,
            ({
                let host = request@.host.name;
                let cid = request@.connector_spec.unwrap().id;
                let before = match old(self).spec_worker(host, cid) {
                    Some(w) => w,
                    None => WorkerView::spec_new(),
                };
                let inner = if old(self).workers@.contains_key(host) {
                    old(self).workers@[host]
                } else {
                    Map::empty()
                };
                final(self).workers@ == old(self).workers@.insert(
                    host,
                    inner.insert(cid, before.spec_after_submit(request@)),
                )
            }),
    {
        let host_key = request.host.name.clone();
        let connector_key = match &request.connector_spec {
            Some(c) => c.id.clone(),
            None => String::new(),
        };
        let mut inner = match self.workers.take(host_key.as_str()) {
            Some(m) => m,
            None => StringMap::new(),
        };
        let mut worker = match inner.take(connector_key.as_str()) {
            Some(w) => w,
            None => Worker::new(),
        };
        worker.submit(request);
        inner.insert(connector_key, worker);
        self.workers.insert(host_key, inner);
        proof {
            assert(self.workers@ =~~= old(self).workers@.insert(
                host_key@,
                (if old(self).workers@.contains_key(host_key@) {
                    old(self).workers@[host_key@]
                } else {
                    Map::empty()
                }).insert(
                    connector_key@,
                    (match old(self).spec_worker(host_key@, connector_key@) {
                        Some(w) => w,
                        None => WorkerView::spec_new(),
                    }).spec_after_submit(request@),
                ),
            ));
        }
    }

    /// Checks the worker of a pair out for processing; the embedding
    /// application drives its transport and puts it back.
    pub fn take_worker(&mut self, host: &str, connector_id: &str) -> (r: Option<Worker>)
        ensures
            final(self).cache == old(self).cache,
            match r {
                Some(w) => old(self).spec_worker(host@, connector_id@) == Some(w@)
                    && final(self).workers@ == old(self).workers@.insert(
                    host@,
                    old(self).workers@[host@].remove(connector_id@),
                ),
                None => old(self).spec_worker(host@, connector_id@) is None && final(self).workers@
                    == old(self).workers@,
            },
    {
        match self.workers.take(host) {
            Some(mut inner) => {
                let worker = inner.take(connector_id);
                let some = worker.is_some();
                self.workers.insert(host.to_owned(), inner);
                proof {
                    if !some {
                        assert(self.workers@ =~~= old(self).workers@);
                    }
                }
                worker
            },
            None => {
                proof {
                    assert(self.workers@ =~~= old(self).workers@);
                }
                None
            },
        }
    }

    /// Returns a checked-out worker to its pair.
    pub fn put_worker(&mut self, host: String, connector_id: String, worker: Worker)
        ensures
            final(self).cache == old(self).cache,
            ({
                let inner = if old(self).workers@.contains_key(host@) {
                    old(self).workers@[host@]
                } else {
                    Map::empty()
                };
                final(self).workers@ == old(self).workers@.insert(
                    host@,
                    inner.insert(connector_id@, worker@),
                )
            }),
    {
        let mut inner = match self.workers.take(host.as_str()) {
            Some(m) => m,
            None => StringMap::new(),
        };
        inner.insert(connector_id, worker);
        self.workers.insert(host, inner);
        proof {
            assert(self.workers@ =~~= old(self).workers@.insert(
                host@,
                (if old(self).workers@.contains_key(host@) {
                    old(self).workers@[host@]
                } else {
                    Map::empty()
                }).insert(connector_id@, worker@),
            ));
        }
    }
}

} // verus!
