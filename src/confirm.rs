//! The confirmation poller: it turns a sequence of ledger observations of one
//! signature into a single terminal status.
use vstd::prelude::*;

verus! {

/// Durability tier of an observation, weakest first.
#[derive(Clone, Copy, Debug, PartialEq, Eq, Structural)]
pub enum Commitment {
    Processed,
    Confirmed,
    Finalized,
}

/// The position of a commitment level in the order processed < confirmed < finalized.
pub open spec fn commitment_rank(c: Commitment) -> nat {
    match c {
        Commitment::Processed => 0,
        Commitment::Confirmed => 1,
        Commitment::Finalized => 2,
    }
}

/// Whether an observation at level `achieved` satisfies a request for `required`.
pub fn commitment_reaches(achieved: Commitment, required: Commitment) -> (r: bool)
    ensures
        r == (commitment_rank(achieved) >= commitment_rank(required)),
{
    let a: u8 = match achieved {
        Commitment::Processed => 0,
        Commitment::Confirmed => 1,
        Commitment::Finalized => 2,
    };
    let q: u8 = match required {
        Commitment::Processed => 0,
        Commitment::Confirmed => 1,
        Commitment::Finalized => 2,
    };
    a >= q
}

/// What one signature-status query reported.
#[derive(Debug)]
pub enum Observation {
    /// The signature is not known to the ledger yet.
    NotFound,
    /// The transaction landed in `slot`; `error` holds the program error, if any.
    Landed { slot: u64, commitment: Commitment, error: Option<String> },
}

/// The poller's view of the transaction.
#[derive(Debug)]
pub enum ConfirmationStatus {
    Pending,
    Confirmed { slot: u64, commitment: Commitment },
    Failed { error: String },
    TimedOut,
}

/// Observation as plain values: `None` for not found, else slot, level and error text.
pub type ObservationView = Option<(u64, Commitment, Option<Seq<char>>)>;

/// Status as plain values.
pub enum StatusView {
    Pending,
    Confirmed { slot: u64, commitment: Commitment },
    Failed { error: Seq<char> },
    TimedOut,
}

impl View for Observation {
    type V = ObservationView;

    open spec fn view(&self) -> ObservationView {
        match self {
            Observation::NotFound => None,
            Observation::Landed { slot, commitment, error } => Some(
                (
                    *slot,
                    *commitment,
                    match error {
                        Some(e) => Some(e@),
                        None => None,
                    },
                ),
            ),
        }
    }
}

impl View for ConfirmationStatus {
    type V = StatusView;

    open spec fn view(&self) -> StatusView {
        match self {
            ConfirmationStatus::Pending => StatusView::Pending,
            ConfirmationStatus::Confirmed { slot, commitment } => StatusView::Confirmed {
                slot: *slot,
                commitment: *commitment,
            },
            ConfirmationStatus::Failed { error } => StatusView::Failed { error: error@ },
            ConfirmationStatus::TimedOut => StatusView::TimedOut,
        }
    }
}

impl StatusView {
    pub open spec fn is_terminal(self) -> bool {
        !(self is Pending)
    }
}

/// How the poller queries the ledger.
#[derive(Clone, Copy, Debug, PartialEq, Eq, Structural)]
pub struct PollConfig {
    /// The level at which an observation counts as confirmation.
    pub commitment: Commitment,
    /// Pause between two queries, in milliseconds.
    pub interval_ms: u64,
    /// Number of queries after which the poller gives up.
    pub max_attempts: u32,
}

/// The status after the query numbered `attempt` (counting from one)
/// reported `obs`: a program error fails the transaction, an observation at
/// the requested level confirms it, and otherwise the poller waits for the
/// next query unless it has used all of them.
pub open spec fn status_after(config: PollConfig, attempt: nat, obs: ObservationView) -> StatusView {
    match obs {
        Some((slot, commitment, Some(error))) => StatusView::Failed { error },
        Some((slot, commitment, None)) if commitment_rank(commitment) >= commitment_rank(
            config.commitment,
        ) => StatusView::Confirmed { slot, commitment },
        _ => if attempt >= config.max_attempts {
            StatusView::TimedOut
        } else {
            StatusView::Pending
        },
    }
}

/// The status after the queries reported `obs` in order: the first terminal
/// status, or the status after the last query when none was terminal.
pub open spec fn status_of_run(config: PollConfig, obs: Seq<ObservationView>) -> StatusView
    decreases obs.len(),
{
    if obs.len() == 0 {
        if config.max_attempts == 0 {
            StatusView::TimedOut
        } else {
            StatusView::Pending
        }
    } else {
        let before = status_of_run(config, obs.drop_last());
        if before.is_terminal() {
            before
        } else {
            status_after(config, obs.len(), obs.last())
        }
    }
}

/// The confirmation poller of one signature.
pub struct Poller {
    config: PollConfig,
    attempts: u32,
    status: ConfirmationStatus,
    history: Ghost<Seq<ObservationView>>,
}

impl Poller {
    pub closed spec fn spec_config(&self) -> PollConfig {
        self.config
    }

    /// Every observation handed to the poller, in order.
    pub closed spec fn spec_history(&self) -> Seq<ObservationView> {
        self.history@
    }

    pub closed spec fn spec_status(&self) -> StatusView {
        self.status@
    }

    /// The status is the one of the run of queries recorded so far, and the
    /// query counter counts them while the status is pending.
    pub closed spec fn wf(&self) -> bool {
        &&& self.status@ == status_of_run(self.config, self.history@)
        &&& (self.status@ is Pending) ==> self.attempts as nat == self.history@.len()
    }

    /// A well-formed poller holds the status of the run it has recorded.
    pub proof fn lemma_status_of_history(&self)
        requires
            self.wf(),
        ensures
            self.spec_status() == status_of_run(self.spec_config(), self.spec_history()),
    {
    }

    /// A poller that has made no query yet.
    pub fn new(config: PollConfig) -> (r: Poller)
        ensures
            r.wf(),
            r.spec_config() == config,
            r.spec_history() == Seq::<ObservationView>::empty(),
    {
        let status = if config.max_attempts == 0 {
            ConfirmationStatus::TimedOut
        } else {
            ConfirmationStatus::Pending
        };
        Poller { config, attempts: 0, status, history: Ghost(Seq::empty()) }
    }

    pub fn config(&self) -> (r: PollConfig)
        ensures
            r == self.spec_config(),
    {
        self.config
    }

    pub fn status(&self) -> (r: &ConfirmationStatus)
        ensures
            r@ == self.spec_status(),
    {
        &self.status
    }

    /// Whether the poller has reached a terminal status.
    pub fn is_done(&self) -> (r: bool)
        ensures
            r == self.spec_status().is_terminal(),
    {
        match self.status {
            ConfirmationStatus::Pending => false,
            _ => true,
        }
    }

    /// Records what the next query reported and returns the new status.
    /// Once the status is terminal, later observations leave it as it is.
    pub fn record(&mut self, obs: &Observation) -> (r: ConfirmationStatus)
        requires
            old(self).wf(),
        ensures
            final(self).wf(),
            final(self).spec_config() == old(self).spec_config(),
            final(self).spec_history() == old(self).spec_history().push(obs@),
            final(self).spec_status() == status_of_run(
                final(self).spec_config(),
                final(self).spec_history(),
            ),
            r@ == final(self).spec_status(),
    {
        let ghost h = self.history@.push(obs@);
        proof {
            assert(h.drop_last() =~= self.history@);
        }
        if self.is_done() {
            self.history = Ghost(h);
            return self.status.clone_status();
        }
        proof {
            lemma_pending_run_bound(self.config, self.history@);
        }
        self.attempts = self.attempts + 1;
        let next = match obs {
            Observation::Landed { slot, commitment, error: Some(e) } => ConfirmationStatus::Failed {
                error: e.clone(),
            },
            Observation::Landed { slot, commitment, error: None } => {
                if commitment_reaches(*commitment, self.config.commitment) {
                    ConfirmationStatus::Confirmed { slot: *slot, commitment: *commitment }
                } else if self.attempts >= self.config.max_attempts {
                    ConfirmationStatus::TimedOut
                } else {
                    ConfirmationStatus::Pending
                }
            },
            Observation::NotFound => {
                if self.attempts >= self.config.max_attempts {
                    ConfirmationStatus::TimedOut
                } else {
                    ConfirmationStatus::Pending
                }
            },
        };
        self.status = next.clone_status();
        self.history = Ghost(h);
        next
    }
}

/// While the run is pending, fewer queries than the budget have been made.
proof fn lemma_pending_run_bound(config: PollConfig, obs: Seq<ObservationView>)
    ensures
        status_of_run(config, obs) is Pending ==> obs.len() < config.max_attempts,
    decreases obs.len(),
{
    if obs.len() > 0 {
        lemma_pending_run_bound(config, obs.drop_last());
    }
}

/// A signature that no query has seen is never confirmed: the run is pending
/// or timed out, and timed out once the whole query budget is spent.
pub proof fn lemma_unseen_never_confirmed(config: PollConfig, obs: Seq<ObservationView>)
    requires
        forall|i: int| 0 <= i < obs.len() ==> #[trigger] obs[i] is None,
    ensures
        status_of_run(config, obs) is Pending || status_of_run(config, obs) is TimedOut,
        obs.len() >= config.max_attempts ==> status_of_run(config, obs) is TimedOut,
    decreases obs.len(),
{
    if obs.len() > 0 {
        let before = obs.drop_last();
        assert forall|i: int| 0 <= i < before.len() implies #[trigger] before[i] is None by {
            assert(before[i] == obs[i]);
        }
        lemma_unseen_never_confirmed(config, before);
        assert(obs.last() is None);
    }
}

/// An observation that carries a program error ends a pending run as
/// failed, with that error.
pub proof fn lemma_program_error_fails(
    config: PollConfig,
    obs: Seq<ObservationView>,
    slot: u64,
    commitment: Commitment,
    error: Seq<char>,
)
    requires
        status_of_run(config, obs) is Pending,
    ensures
        status_of_run(config, obs.push(Some((slot, commitment, Some(error)))))
            == (StatusView::Failed { error }),
{
    assert(obs.push(Some((slot, commitment, Some(error)))).drop_last() =~= obs);
}

/// Once a run is terminal, further observations leave its status unchanged.
pub proof fn lemma_terminal_status_is_final(
    config: PollConfig,
    obs: Seq<ObservationView>,
    more: Seq<ObservationView>,
)
    requires
        status_of_run(config, obs).is_terminal(),
    ensures
        status_of_run(config, obs + more) == status_of_run(config, obs),
    decreases more.len(),
{
    if more.len() == 0 {
        assert(obs + more =~= obs);
    } else {
        lemma_terminal_status_is_final(config, obs, more.drop_last());
        assert((obs + more).drop_last() =~= obs + more.drop_last());
    }
}

impl ConfirmationStatus {
    /// A copy of the status.
    pub fn clone_status(&self) -> (r: ConfirmationStatus)
        ensures
            r@ == self@,
    {
        match self {
            ConfirmationStatus::Pending => ConfirmationStatus::Pending,
            ConfirmationStatus::Confirmed { slot, commitment } => ConfirmationStatus::Confirmed {
                slot: *slot,
                commitment: *commitment,
            },
            ConfirmationStatus::Failed { error } => ConfirmationStatus::Failed { error: error.clone() },
            ConfirmationStatus::TimedOut => ConfirmationStatus::TimedOut,
        }
    }
}

} // verus!
