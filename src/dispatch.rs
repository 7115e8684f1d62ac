//! The dispatch coordinator: one signed transaction, written once, posted to
//! every configured channel, and one terminal outcome decided by the
//! confirmation poller alone.
use vstd::prelude::*;
use crate::codec::{base64_of, encode_base64, json_string_literal};
use crate::error::TradeError;
use crate::confirm::{
    Commitment, ConfirmationStatus, Observation, ObservationView, PollConfig, Poller, StatusView,
    lemma_unseen_never_confirmed, status_of_run,
};
use vstd::string::*;
use crate::wire::{
    AuthScheme, AuthView, endpoint_well_formed, is_endpoint, Delivery, HttpRequest, WireError, build_request, request_view, send_body,
    send_body_for,
};

verus! {

/// The provider behind a channel.
#[derive(Clone, Copy, Debug, PartialEq, Eq, Structural, Hash)]
pub enum SwqosType {
    Jito,
    NextBlock,
    ZeroSlot,
    Temporal,
    Bloxroute,
    Node1,
    FlashBlock,
    /// The plain RPC network.
    Default,
}

/// A transaction after signing: its wire bytes and its signature.
#[derive(Debug)]
pub struct SignedTransaction {
    pub bytes: Vec<u8>,
    pub signature: String,
}

/// The text that channels receive for a transaction: its bytes in base64.
pub open spec fn payload_of(bytes: Seq<u8>) -> Seq<char> {
    base64_of(bytes)
}

/// The `sendTransaction` body that every channel receives for a transaction.
pub open spec fn dispatch_body(bytes: Seq<u8>) -> Seq<char> {
    send_body(json_string_literal(payload_of(bytes)))
}

impl SignedTransaction {
    /// The transaction's bytes in base64.
    pub fn encoded(&self) -> (r: Result<String, WireError>)
        ensures
            self.bytes@.len() <= usize::MAX / 2 <==> r is Ok,
            r matches Ok(t) ==> t@ == payload_of(self.bytes@),
            r is Err ==> r == Err::<String, WireError>(WireError::TooLarge),
    {
        if self.bytes.len() > usize::MAX / 2 {
            return Err(WireError::TooLarge);
        }
        Ok(encode_base64(self.bytes.as_slice()))
    }

    /// The `sendTransaction` body for this transaction.
    pub fn send_body(&self) -> (r: Result<String, WireError>)
        ensures
            self.bytes@.len() <= usize::MAX / 2 <==> r is Ok,
            r matches Ok(b) ==> b@ == dispatch_body(self.bytes@),
            r is Err ==> r == Err::<String, WireError>(WireError::TooLarge),
    {
        let content = self.encoded()?;
        Ok(send_body_for(content.as_str()))
    }
}

/// One configured channel: its provider, where it listens and how it takes
/// its credential.
#[derive(Clone, Debug)]
pub struct ChannelConfig {
    pub kind: SwqosType,
    pub endpoint: String,
    pub credential: String,
    pub auth: AuthScheme,
}

/// The request that posts `body` to a channel.
pub open spec fn channel_request(c: ChannelConfig, body: Seq<char>) -> crate::wire::HttpRequestView {
    request_view(c.endpoint@, c.auth@, c.credential@, body)
}

/// The requests that post one body to each channel, in the channels' order;
/// every one of them carries the same body.
pub fn channel_requests(channels: &Vec<ChannelConfig>, body: &String) -> (r: Vec<HttpRequest>)
    ensures
        r@.len() == channels@.len(),
        forall|i: int| 0 <= i < r@.len() ==> #[trigger] r@[i]@ == channel_request(channels@[i], body@),
        forall|i: int| 0 <= i < r@.len() ==> #[trigger] r@[i]@.body == body@,
{
    let mut out: Vec<HttpRequest> = Vec::new();
    let mut i: usize = 0;
    while i < channels.len()
        invariant
            i <= channels@.len(),
            out@.len() == i,
            forall|k: int| 0 <= k < i ==> #[trigger] out@[k]@ == channel_request(channels@[k], body@),
        decreases channels@.len() - i,
    {
        let c = &channels[i];
        let req = build_request(&c.endpoint, &c.auth, &c.credential, body.clone());
        out.push(req);
        i = i + 1;
    }
    out
}

/// The requests of one dispatch: the transaction written once and posted to
/// every channel, so that all of them carry byte-identical bodies.
pub fn dispatch_requests(channels: &Vec<ChannelConfig>, tx: &SignedTransaction) -> (r: Result<Vec<HttpRequest>, WireError>)
    ensures
        tx.bytes@.len() <= usize::MAX / 2 <==> r is Ok,
        r is Err ==> r == Err::<Vec<HttpRequest>, WireError>(WireError::TooLarge),
        r is Ok ==> {
            let reqs = r->Ok_0@;
            &&& reqs.len() == channels@.len()
            &&& forall|i: int| 0 <= i < reqs.len() ==>
                #[trigger] reqs[i]@ == channel_request(channels@[i], dispatch_body(tx.bytes@))
            &&& forall|i: int| 0 <= i < reqs.len() ==> #[trigger] reqs[i]@.body == dispatch_body(tx.bytes@)
        },
{
    let body = tx.send_body()?;
    Ok(channel_requests(channels, &body))
}

/// Whether a channel's configuration can be used: its endpoint is an HTTP
/// URL, and a credential header or parameter has a name.
pub open spec fn channel_well_formed(c: ChannelConfig) -> bool {
    &&& endpoint_well_formed(c.endpoint@)
    &&& match c.auth@ {
        AuthView::Header { name } => name.len() > 0,
        AuthView::UrlParam { name } => name.len() > 0,
        _ => true,
    }
}

/// Checks every channel's configuration before anything is sent: a
/// configuration error exactly when one of them is malformed.
pub fn check_channels(channels: &Vec<ChannelConfig>) -> (r: Result<(), TradeError>)
    ensures
        r is Ok <==> forall|i: int| 0 <= i < channels@.len() ==> channel_well_formed(#[trigger] channels@[i]),
        r is Err ==> r matches Err(TradeError::Config),
{
    let mut i: usize = 0;
    while i < channels.len()
        invariant
            i <= channels@.len(),
            forall|k: int| 0 <= k < i ==> channel_well_formed(#[trigger] channels@[k]),
        decreases channels@.len() - i,
    {
        let c = &channels[i];
        let named = match &c.auth {
            AuthScheme::Header { name } => name.as_str().unicode_len() > 0,
            AuthScheme::UrlParam { name } => name.as_str().unicode_len() > 0,
            _ => true,
        };
        if !is_endpoint(c.endpoint.as_str()) || !named {
            assert(!channel_well_formed(channels@[i as int]));
            return Err(TradeError::Config);
        }
        i = i + 1;
    }
    Ok(())
}

/// What one channel made of one submission.
#[derive(Debug)]
pub struct SubmissionOutcome {
    pub kind: SwqosType,
    pub delivery: Delivery,
    /// Time from sending to the reply, in milliseconds.
    pub latency_ms: u64,
    /// The provider's reply, or what went wrong.
    pub message: String,
}

impl SubmissionOutcome {
    /// The channel error that this outcome records: none for an accepted
    /// submission, a network error when no reply came, and a provider error
    /// carrying the reply otherwise.
    pub fn failure(&self) -> (r: Option<TradeError>)
        ensures
            self.delivery == Delivery::Accepted <==> r is None,
            self.delivery == Delivery::NetworkError ==> (r matches Some(
                TradeError::ChannelNetwork { message },
            ) && message@ == self.message@),
            (self.delivery == Delivery::Rejected || self.delivery == Delivery::Unrecognized) ==> (r matches Some(
                TradeError::ChannelProvider { message },
            ) && message@ == self.message@),
    {
        match self.delivery {
            Delivery::Accepted => None,
            Delivery::NetworkError => Some(TradeError::ChannelNetwork { message: self.message.clone() }),
            _ => Some(TradeError::ChannelProvider { message: self.message.clone() }),
        }
    }
}

/// The terminal result of a dispatch.
#[derive(Debug)]
pub enum ExecutionResult {
    Confirmed { slot: u64, commitment: Commitment },
    Failed { error: String },
    TimedOut,
}

pub enum ExecutionResultView {
    Confirmed { slot: u64, commitment: Commitment },
    Failed { error: Seq<char> },
    TimedOut,
}

impl View for ExecutionResult {
    type V = ExecutionResultView;

    open spec fn view(&self) -> ExecutionResultView {
        match self {
            ExecutionResult::Confirmed { slot, commitment } => ExecutionResultView::Confirmed {
                slot: *slot,
                commitment: *commitment,
            },
            ExecutionResult::Failed { error } => ExecutionResultView::Failed { error: error@ },
            ExecutionResult::TimedOut => ExecutionResultView::TimedOut,
        }
    }
}

impl ExecutionResult {
    /// The slot and level of a confirmed trade, or why it did not confirm.
    pub fn into_result(self) -> (r: Result<(u64, Commitment), TradeError>)
        ensures
            self@ matches ExecutionResultView::Confirmed { slot, commitment } ==> r == Ok::<
                (u64, Commitment),
                TradeError,
            >((slot, commitment)),
            self@ matches ExecutionResultView::Failed { error } ==> (r matches Err(
                TradeError::OnChainProgram { error: e },
            ) && e@ == error),
            self@ is TimedOut ==> r matches Err(TradeError::ConfirmationTimeout),
    {
        match self {
            ExecutionResult::Confirmed { slot, commitment } => Ok((slot, commitment)),
            ExecutionResult::Failed { error } => Err(TradeError::OnChainProgram { error }),
            ExecutionResult::TimedOut => Err(TradeError::ConfirmationTimeout),
        }
    }
}

/// The result that a poller status stands for, once it is terminal.
pub open spec fn result_of_status(s: StatusView) -> Option<ExecutionResultView> {
    match s {
        StatusView::Pending => None,
        StatusView::Confirmed { slot, commitment } => Some(
            ExecutionResultView::Confirmed { slot, commitment },
        ),
        StatusView::Failed { error } => Some(ExecutionResultView::Failed { error }),
        StatusView::TimedOut => Some(ExecutionResultView::TimedOut),
    }
}

/// The result of a dispatch whose channels reported `deliveries` and whose
/// poller saw `history`: the poller alone decides it; what the channels
/// said is recorded, not consulted.
pub open spec fn dispatch_outcome(
    deliveries: Seq<Delivery>,
    config: PollConfig,
    history: Seq<ObservationView>,
) -> Option<ExecutionResultView> {
    result_of_status(status_of_run(config, history))
}

/// The number of accepted deliveries.
pub open spec fn accepted_count(deliveries: Seq<Delivery>) -> nat
    decreases deliveries.len(),
{
    if deliveries.len() == 0 {
        0
    } else {
        accepted_count(deliveries.drop_last()) + if deliveries.last() == Delivery::Accepted {
            1nat
        } else {
            0nat
        }
    }
}

/// One dispatch in flight: the channel outcomes gathered so far and the
/// poller of the transaction's signature.
pub struct Dispatch {
    signature: String,
    outcomes: Vec<SubmissionOutcome>,
    poller: Poller,
}

impl Dispatch {
    pub closed spec fn spec_signature(&self) -> Seq<char> {
        self.signature@
    }

    /// The deliveries reported before the outcome was decided, in arrival order.
    pub closed spec fn spec_deliveries(&self) -> Seq<Delivery> {
        self.outcomes@.map_values(|o: SubmissionOutcome| o.delivery)
    }

    pub closed spec fn spec_config(&self) -> PollConfig {
        self.poller.spec_config()
    }

    /// The observations handed to the poller, in order.
    pub closed spec fn spec_history(&self) -> Seq<ObservationView> {
        self.poller.spec_history()
    }

    pub open spec fn spec_result(&self) -> Option<ExecutionResultView> {
        dispatch_outcome(self.spec_deliveries(), self.spec_config(), self.spec_history())
    }

    pub closed spec fn wf(&self) -> bool {
        self.poller.wf()
    }

    /// A dispatch of the transaction with `signature`, before any channel
    /// reported and before any query.
    pub fn new(signature: String, config: PollConfig) -> (r: Dispatch)
        ensures
            r.wf(),
            r.spec_signature() == signature@,
            r.spec_config() == config,
            r.spec_deliveries() == Seq::<Delivery>::empty(),
            r.spec_history() == Seq::<ObservationView>::empty(),
    {
        let r = Dispatch { signature, outcomes: Vec::new(), poller: Poller::new(config) };
        assert(r.spec_deliveries() =~= Seq::<Delivery>::empty());
        r
    }

    /// Starts the dispatch of `tx` over `channels`: checks the channels,
    /// writes the transaction once, and returns the requests to post together
    /// with the dispatch that gathers their outcomes and the poller's
    /// observations. A malformed channel or a transaction that cannot be
    /// written stops everything before any request exists.
    pub fn start(channels: &Vec<ChannelConfig>, tx: &SignedTransaction, config: PollConfig) -> (r: Result<(Dispatch, Vec<HttpRequest>), TradeError>)
        ensures
            !(forall|i: int| 0 <= i < channels@.len() ==> channel_well_formed(#[trigger] channels@[i]))
                ==> r matches Err(TradeError::Config),
            (forall|i: int| 0 <= i < channels@.len() ==> channel_well_formed(#[trigger] channels@[i]))
                && tx.bytes@.len() > usize::MAX / 2 ==> r matches Err(TradeError::Build),
            (forall|i: int| 0 <= i < channels@.len() ==> channel_well_formed(#[trigger] channels@[i]))
                && tx.bytes@.len() <= usize::MAX / 2 ==> r is Ok,
            r matches Err(e) ==> (e is Config || e is Build),
            r matches Ok((d, reqs)) ==> {
                &&& d.wf()
                &&& d.spec_signature() == tx.signature@
                &&& d.spec_config() == config
                &&& d.spec_deliveries() == Seq::<Delivery>::empty()
                &&& d.spec_history() == Seq::<ObservationView>::empty()
                &&& reqs@.len() == channels@.len()
                &&& forall|i: int| 0 <= i < reqs@.len() ==>
                    #[trigger] reqs@[i]@ == channel_request(channels@[i], dispatch_body(tx.bytes@))
            },
    {
        check_channels(channels)?;
        let reqs = match dispatch_requests(channels, tx) {
            Ok(reqs) => reqs,
            Err(_) => return Err(TradeError::Build),
        };
        let d = Dispatch::new(tx.signature.clone(), config);
        Ok((d, reqs))
    }

    pub fn signature(&self) -> (r: &String)
        ensures
            r@ == self.spec_signature(),
    {
        &self.signature
    }

    /// The outcomes reported so far.
    pub fn outcomes(&self) -> (r: &Vec<SubmissionOutcome>)
        ensures
            r@.map_values(|o: SubmissionOutcome| o.delivery) == self.spec_deliveries(),
    {
        &self.outcomes
    }

    /// Records what a channel reported. A report that comes after the
    /// outcome was decided is discarded.
    pub fn record_outcome(&mut self, outcome: SubmissionOutcome)
        requires
            old(self).wf(),
        ensures
            final(self).wf(),
            final(self).spec_signature() == old(self).spec_signature(),
            final(self).spec_config() == old(self).spec_config(),
            final(self).spec_history() == old(self).spec_history(),
            old(self).spec_result() is Some ==> final(self).spec_deliveries()
                == old(self).spec_deliveries(),
            old(self).spec_result() is None ==> final(self).spec_deliveries()
                == old(self).spec_deliveries().push(outcome.delivery),
    {
        proof {
            self.poller.lemma_status_of_history();
        }
        if self.poller.is_done() {
            return;
        }
        let ghost before = self.outcomes@;
        let d = outcome.delivery;
        self.outcomes.push(outcome);
        proof {
            assert(self.outcomes@.map_values(|o: SubmissionOutcome| o.delivery) =~= before.map_values(
                |o: SubmissionOutcome| o.delivery,
            ).push(d));
        }
    }

    /// Records what the next signature-status query reported, and returns
    /// the result once it is decided.
    pub fn record_observation(&mut self, obs: &Observation) -> (r: Option<ExecutionResult>)
        requires
            old(self).wf(),
        ensures
            final(self).wf(),
            final(self).spec_signature() == old(self).spec_signature(),
            final(self).spec_config() == old(self).spec_config(),
            final(self).spec_deliveries() == old(self).spec_deliveries(),
            final(self).spec_history() == old(self).spec_history().push(obs@),
            option_result_view(r) == final(self).spec_result(),
    {
        self.poller.record(obs);
        self.result()
    }

    /// Whether the outcome is decided.
    pub fn is_decided(&self) -> (r: bool)
        requires
            self.wf(),
        ensures
            r == self.spec_result() is Some,
    {
        proof {
            self.poller.lemma_status_of_history();
        }
        self.poller.is_done()
    }

    /// The result, once the poller has decided it.
    pub fn result(&self) -> (r: Option<ExecutionResult>)
        requires
            self.wf(),
        ensures
            option_result_view(r) == self.spec_result(),
    {
        proof {
            self.poller.lemma_status_of_history();
        }
        match self.poller.status() {
            ConfirmationStatus::Pending => None,
            ConfirmationStatus::Confirmed { slot, commitment } => Some(
                ExecutionResult::Confirmed { slot: *slot, commitment: *commitment },
            ),
            ConfirmationStatus::Failed { error } => Some(ExecutionResult::Failed { error: error.clone() }),
            ConfirmationStatus::TimedOut => Some(ExecutionResult::TimedOut),
        }
    }

    /// How many channels accepted the transaction so far.
    pub fn accepted(&self) -> (r: usize)
        ensures
            r == accepted_count(self.spec_deliveries()),
    {
        let mut n: usize = 0;
        let mut i: usize = 0;
        while i < self.outcomes.len()
            invariant
                i <= self.outcomes@.len(),
                n <= i,
                n == accepted_count(self.outcomes@.subrange(0, i as int).map_values(|o: SubmissionOutcome| o.delivery)),
            decreases self.outcomes@.len() - i,
        {
            proof {
                let s = self.outcomes@.subrange(0, i as int + 1).map_values(|o: SubmissionOutcome| o.delivery);
                assert(s.drop_last() =~= self.outcomes@.subrange(0, i as int).map_values(|o: SubmissionOutcome| o.delivery));
            }
            if self.outcomes[i].delivery == Delivery::Accepted {
                n = n + 1;
            }
            i = i + 1;
        }
        proof {
            assert(self.outcomes@.subrange(0, i as int) =~= self.outcomes@);
        }
        n
    }
}

pub open spec fn option_result_view(r: Option<ExecutionResult>) -> Option<ExecutionResultView> {
    match r {
        Some(x) => Some(x@),
        None => None,
    }
}

/// The outcome of a dispatch does not wait on any channel: the same result
/// is reached whatever the channels reported, and when none has reported yet.
pub proof fn lemma_outcome_needs_no_channel(
    deliveries: Seq<Delivery>,
    config: PollConfig,
    history: Seq<ObservationView>,
)
    ensures
        dispatch_outcome(deliveries, config, history) == dispatch_outcome(
            Seq::empty(),
            config,
            history,
        ),
{
}

/// When at least one channel accepted and the poller confirmed the
/// signature, the dispatch is confirmed at the poller's slot and level,
/// however many other channels reported errors.
pub proof fn lemma_confirmed_when_poller_confirms(
    deliveries: Seq<Delivery>,
    config: PollConfig,
    history: Seq<ObservationView>,
    slot: u64,
    commitment: Commitment,
)
    requires
        accepted_count(deliveries) >= 1,
        status_of_run(config, history) == (StatusView::Confirmed { slot, commitment }),
    ensures
        dispatch_outcome(deliveries, config, history) == Some(
            ExecutionResultView::Confirmed { slot, commitment },
        ),
{
}

/// When no channel accepted and no query saw the signature within the whole
/// query budget, the dispatch timed out.
pub proof fn lemma_timed_out_when_never_seen(
    deliveries: Seq<Delivery>,
    config: PollConfig,
    history: Seq<ObservationView>,
)
    requires
        accepted_count(deliveries) == 0,
        forall|i: int| 0 <= i < history.len() ==> #[trigger] history[i] is None,
        history.len() >= config.max_attempts,
    ensures
        dispatch_outcome(deliveries, config, history) == Some(ExecutionResultView::TimedOut),
{
    lemma_unseen_never_confirmed(config, history);
}

/// When the poller sees the signature carrying a program error, the dispatch
/// failed with that error, even if every channel accepted.
pub proof fn lemma_failed_on_program_error(
    deliveries: Seq<Delivery>,
    config: PollConfig,
    history: Seq<ObservationView>,
    slot: u64,
    commitment: Commitment,
    error: Seq<char>,
)
    requires
        status_of_run(config, history) is Pending,
    ensures
        dispatch_outcome(deliveries, config, history.push(Some((slot, commitment, Some(error)))))
            == Some(ExecutionResultView::Failed { error }),
{
    crate::confirm::lemma_program_error_fails(config, history, slot, commitment, error);
}

/// A transaction built on an expired freshness token never lands, so no
/// query sees it: its dispatch is never confirmed; it is undecided until it
/// times out.
pub proof fn lemma_expired_token_never_confirmed(
    deliveries: Seq<Delivery>,
    config: PollConfig,
    history: Seq<ObservationView>,
)
    requires
        forall|i: int| 0 <= i < history.len() ==> #[trigger] history[i] is None,
    ensures
        dispatch_outcome(deliveries, config, history) is None || dispatch_outcome(
            deliveries,
            config,
            history,
        ) == Some(ExecutionResultView::TimedOut),
{
    lemma_unseen_never_confirmed(config, history);
}

} // verus!
