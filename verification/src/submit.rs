//! The submission engine: display paths that never touch the network,
//! and the broadcast path that retries on the timeout error class and
//! aborts, reporting rather than crashing, on any other failure.

use vstd::prelude::*;

use crate::pipeline::Submit;
use crate::text::seq_contains;

verus! {

/// What one broadcast attempt came back with: the committed execution
/// result, or a failure with the transport's error data, when that data
/// was a plain string.
#[derive(Debug)]
pub enum BroadcastResponse {
    Success { outcome: String },
    Failure { data: Option<String> },
}

/// How a run of the submission engine ends.
#[derive(Debug)]
pub enum SubmissionOutcome {
    /// The network committed the transaction, with its final result.
    Committed { result: String },
    /// The rendered transaction was shown; the network was not touched.
    Displayed { rendered: String },
    /// A non-timeout failure was reported; the run completes without a
    /// result.
    Suppressed,
}

/// The error class that is retried: failure data that is a string
/// containing the timeout marker.
pub open spec fn spec_is_timeout(data: Option<Seq<char>>) -> bool {
    match data {
        Some(s) => seq_contains(s, "Timeout"@),
        None => false,
    }
}

/// Decides [`spec_is_timeout`] on a failure's error data.
pub fn is_timeout_data(data: &Option<String>) -> (r: bool)
    ensures
        r == spec_is_timeout(
            match data {
                Some(s) => Some(s@),
                None => None,
            },
        ),
{
    match data {
        Some(s) => crate::text::str_contains(s.as_str(), "Timeout"),
        None => false,
    }
}

/// What one response means for the broadcast loop.
#[derive(Debug)]
pub enum BroadcastStep {
    /// A terminal commit: stop with this result.
    Accept { outcome: String },
    /// A timeout: notify and try again.
    Retry,
    /// Any other failure: report it and stop with no result.
    Abort,
}

/// The step rule of the broadcast loop.
pub open spec fn spec_broadcast_step(resp: BroadcastResponse) -> BroadcastStep {
    match resp {
        BroadcastResponse::Success { outcome } => BroadcastStep::Accept { outcome },
        BroadcastResponse::Failure { data } => {
            if spec_is_timeout(
                match data {
                    Some(s) => Some(s@),
                    None => None,
                },
            ) {
                BroadcastStep::Retry
            } else {
                BroadcastStep::Abort
            }
        },
    }
}

/// Classifies one broadcast response, per [`spec_broadcast_step`].
pub fn broadcast_step(resp: BroadcastResponse) -> (r: BroadcastStep)
    ensures
        r == spec_broadcast_step(resp),
{
    match resp {
        BroadcastResponse::Success { outcome } => BroadcastStep::Accept { outcome },
        BroadcastResponse::Failure { data } => {
            if is_timeout_data(&data) {
                BroadcastStep::Retry
            } else {
                BroadcastStep::Abort
            }
        },
    }
}

/// What a broadcast that saw these responses, in order, concludes: the
/// outcome once a response is terminal (`None` while every response so
/// far timed out), and how many retry notices were shown.
pub open spec fn spec_submission(responses: Seq<BroadcastResponse>) -> (Option<
    SubmissionOutcome,
>, nat)
    decreases responses.len(),
{
    if responses.len() == 0 {
        (None, 0)
    } else {
        match spec_broadcast_step(responses[0]) {
            BroadcastStep::Accept { outcome } => (
                Some(SubmissionOutcome::Committed { result: outcome }),
                0,
            ),
            BroadcastStep::Abort => (Some(SubmissionOutcome::Suppressed), 0),
            BroadcastStep::Retry => {
                let rest = spec_submission(responses.drop_first());
                (rest.0, rest.1 + 1)
            },
        }
    }
}

impl Submit {
    /// The offline path: show the rendered transaction; the network is
    /// never touched.
    pub fn process_offline(self, serialize_to_base64: String) -> (r: SubmissionOutcome)
        ensures
            r == (SubmissionOutcome::Displayed { rendered: serialize_to_base64 }),
    {
        SubmissionOutcome::Displayed { rendered: serialize_to_base64 }
    }

    /// The online path.  Display shows the rendered transaction and stops;
    /// Send walks the broadcast responses, retrying on each timeout,
    /// until one is terminal.  Returns the outcome — `None` when every
    /// response timed out and the loop is still going — and the number of
    /// retry notices shown.
    pub fn process_online(
        self,
        responses: Vec<BroadcastResponse>,
        serialize_to_base64: String,
    ) -> (r: (Option<SubmissionOutcome>, usize))
        ensures
            self is Display ==> r == (
                Some(SubmissionOutcome::Displayed { rendered: serialize_to_base64 }),
                0usize,
            ),

            self is Send ==> (r.0, r.1 as nat) == spec_submission(responses@),
    {
        match self {
            Submit::Display => (
                Some(SubmissionOutcome::Displayed { rendered: serialize_to_base64 }),
                0,
            ),
            Submit::Send => {
                let ghost all = responses@;
                let n = responses.len();
                let mut i: usize = 0;
                proof {
                    assert(all.skip(0) =~= all);
                }
                while i < n
                    invariant
                        self is Send,
                        n == all.len(),
                        responses@ == all,
                        0 <= i <= n,
                        spec_submission(all) == (
                            spec_submission(all.skip(i as int)).0,
                            (spec_submission(all.skip(i as int)).1 + i) as nat,
                        ),
                    decreases n - i,
                {
                    proof {
                        assert(all.skip(i as int)[0] == all[i as int]);
                        assert(all.skip(i as int).drop_first() =~= all.skip(i + 1));
                    }
                    match &responses[i] {
                        BroadcastResponse::Success { outcome } => {
                            return (
                                Some(SubmissionOutcome::Committed { result: outcome.clone() }),
                                i,
                            );
                        },
                        BroadcastResponse::Failure { data } => {
                            if !is_timeout_data(data) {
                                return (Some(SubmissionOutcome::Suppressed), i);
                            }
                        },
                    }
                    i = i + 1;
                }
                proof {
                    assert(all.skip(n as int) =~= Seq::<BroadcastResponse>::empty());
                }
                (None, i)
            },
        }
    }
}

/// The notice shown on each timeout retry.
pub fn retry_notice() -> (r: &'static str)
    ensures
        r@ == "the broadcast timed out; trying again now"@,
{
    "the broadcast timed out; trying again now"
}


/// Carries a signing strategy's product to its end.  The manual
/// strategy's display-only product is shown and the run finishes with
/// `Displayed`, whatever the submit stage chose; a signed transaction is
/// shown when display was chosen or no endpoint exists, and broadcast
/// only when sending was chosen online.
pub fn conclude_transfer(
    signing: crate::sign::SigningOutcome,
    submit: Submit,
    connection_config: &Option<crate::endpoint::ConnectionConfig>,
    responses: Vec<BroadcastResponse>,
) -> (r: (Option<SubmissionOutcome>, usize))
    ensures
        r.0 == (match signing {
            crate::sign::SigningOutcome::DisplayOnly { unsigned_b64 } => Some(
                SubmissionOutcome::Displayed { rendered: unsigned_b64 },
            ),
            crate::sign::SigningOutcome::Signed { blob_b64 } => if submit is Display
                || connection_config is None {
                Some(SubmissionOutcome::Displayed { rendered: blob_b64 })
            } else {
                spec_submission(responses@).0
            },
        }),
        r.1 as nat == (match signing {
            crate::sign::SigningOutcome::DisplayOnly { .. } => 0nat,
            crate::sign::SigningOutcome::Signed { .. } => if submit is Display
                || connection_config is None {
                0nat
            } else {
                spec_submission(responses@).1
            },
        }),
{
    match signing {
        crate::sign::SigningOutcome::DisplayOnly { unsigned_b64 } => {
            (Some(Submit::Display.process_offline(unsigned_b64)), 0)
        },
        crate::sign::SigningOutcome::Signed { blob_b64 } => {
            match connection_config {
                None => (Some(submit.process_offline(blob_b64)), 0),
                Some(_) => submit.process_online(responses, blob_b64),
            }
        },
    }
}

} // verus!
