//! Route selection and the funds-transfer handshake.
//!
//! The selector picks the first candidate route that can carry a payment
//! together with its per-hop fees. The transfer itself is an explicit
//! state machine: each step consumes the outcome of one network call and
//! yields the next call to make, so that the sequencing and the error
//! taxonomy of a transfer are fixed here while all network traffic stays
//! with the caller.

use vstd::prelude::*;

use crate::invoice::{trivial_invoice_seq, InvoiceId};
use crate::keys::{decoded_key, is_valid_key_literal, string_to_public_key, PublicKey};
use crate::route::{FriendsRoute, RouteWithCapacity};
use crate::uid::{gen_uid, Uid};

verus! {

/// Everything that can go wrong during one funds-transfer attempt.
///
/// `SendFundsError` (the send request failed, no funds are assumed to
/// have moved) and `ReceiptAckError` (the receipt was obtained but its
/// acknowledgment failed, so the payment may have completed without
/// confirmation) are deliberately distinct variants.
#[derive(Clone, Copy, Debug, PartialEq, Eq)]
pub enum FundsError {
    GetReportError,
    NoFundsPermissions,
    NoRoutesPermissions,
    InvalidDestination,
    ParseAmountError,
    AppRoutesError,
    SendFundsError,
    NoSuitableRoute,
    ReceiptAckError,
}

/// Number of participants on the candidate's route.
pub open spec fn route_len(c: RouteWithCapacity) -> int {
    c.route.public_keys@.len() as int
}

/// Whether the candidate can carry `amount` credits plus one credit of
/// fee per intermediary hop.
///
/// Over unbounded integers a total that would overflow the `u128`
/// arithmetic of the transfer exceeds every representable capacity, so
/// such candidates do not fit.
pub open spec fn candidate_fits(c: RouteWithCapacity, amount: u128) -> bool {
    route_len(c) >= 2 && route_len(c) - 2 + amount <= c.capacity
}

/// Whether some candidate in `cs` fits.
pub open spec fn suitable_exists(cs: Seq<RouteWithCapacity>, amount: u128) -> bool {
    exists|i: int| 0 <= i < cs.len() && candidate_fits(#[trigger] cs[i], amount)
}

/// Whether `i` is the position of the first fitting candidate in `cs`.
pub open spec fn is_first_fit(cs: Seq<RouteWithCapacity>, amount: u128, i: int) -> bool {
    &&& 0 <= i < cs.len()
    &&& candidate_fits(cs[i], amount)
    &&& forall|j: int| 0 <= j < i ==> !candidate_fits(#[trigger] cs[j], amount)
}

/// Position of the first fitting candidate, if any fits.
fn first_fit_index(candidates: &Vec<RouteWithCapacity>, amount: u128) -> (r: Option<usize>)
    ensures
        match r {
            Some(i) => is_first_fit(candidates@, amount, i as int),
            None => !suitable_exists(candidates@, amount),
        },
{
    let mut i: usize = 0;
    while i < candidates.len()
        invariant
            i <= candidates@.len(),
            forall|j: int| 0 <= j < i ==> !candidate_fits(#[trigger] candidates@[j], amount),
        decreases candidates@.len() - i,
    {
        let length: u128 = candidates[i].route.public_keys.len() as u128;

        // A route visiting fewer than two participants cannot carry a
        // payment; a total beyond the range of `u128` exceeds every
        // capacity the oracle can report. Either way the candidate is
        // skipped, not fatal.
        if let Some(extra) = length.checked_sub(2) {
            if let Some(total) = extra.checked_add(amount) {
                if total <= candidates[i].capacity {
                    return Some(i);
                }
            }
        }
        proof {
            assert(!candidate_fits(candidates@[i as int], amount));
        }
        i += 1;
    }
    None
}

/// Choose a route able to carry `amount` credits plus its fees.
///
/// Candidates are examined in the order supplied by the caller and the
/// first fitting one wins. A candidate with fewer than two entries, or
/// whose fee-inclusive total overflows, is skipped, never fatal; only
/// exhaustion of all candidates fails the selection.
pub fn choose_route(routes_with_capacity: Vec<RouteWithCapacity>, amount: u128) -> (r: Result<
    FriendsRoute,
    FundsError,
>)
    ensures
        match r {
            Ok(route) => exists|i: int|
                #[trigger] is_first_fit(routes_with_capacity@, amount, i) && route
                    == routes_with_capacity@[i].route,
            Err(e) => e == FundsError::NoSuitableRoute && !suitable_exists(
                routes_with_capacity@,
                amount,
            ),
        },
{
    let mut candidates = routes_with_capacity;
    match first_fit_index(&candidates, amount) {
        Some(i) => {
            let chosen = candidates.remove(i);
            Ok(chosen.route)
        },
        None => Err(FundsError::NoSuitableRoute),
    }
}

/// Fee paid along a route: one credit per intermediary hop.
///
/// A direct route of two participants pays nothing; each further
/// participant adds one credit. The fee depends on the route alone, never
/// on the amount sent.
pub open spec fn route_fee(route: FriendsRoute) -> int {
    route.public_keys@.len() - 2
}

/// Compute the fee of a payable route.
pub fn route_fees(route: &FriendsRoute) -> (f: usize)
    requires
        route.public_keys@.len() >= 2,
    ensures
        f == route_fee(*route),
{
    route.len() - 2
}

/// A route of exactly two participants (a direct payment) pays fee 0 and
/// a route with one intermediary pays fee 1; `route_fee` takes no amount,
/// so the fee of a route is the same whatever amount it carries.
pub proof fn lemma_route_fee(route: FriendsRoute)
    requires
        route.public_keys@.len() >= 2,
    ensures
        route.public_keys@.len() == 2 ==> route_fee(route) == 0,
        route.public_keys@.len() == 3 ==> route_fee(route) == 1,
        route_fee(route) >= 0,
{
}

/// A route selected by first fit can carry the payment and its fees: the
/// fee-inclusive total stays within the candidate's reported capacity.
pub proof fn lemma_first_fit_fits(cs: Seq<RouteWithCapacity>, amount: u128, i: int)
    requires
        is_first_fit(cs, amount, i),
    ensures
        route_len(cs[i]) >= 2,
        route_len(cs[i]) - 2 + amount <= cs[i].capacity,
{
}

/// When every candidate is structurally invalid, numerically
/// unsatisfiable, or short of capacity, no candidate fits and the
/// selection must fail.
pub proof fn lemma_no_candidate_fits(cs: Seq<RouteWithCapacity>, amount: u128)
    requires
        forall|i: int|
            0 <= i < cs.len() ==> {
                ||| route_len(#[trigger] cs[i]) < 2
                ||| route_len(cs[i]) - 2 + amount > u128::MAX
                ||| route_len(cs[i]) - 2 + amount > cs[i].capacity
            },
    ensures
        !suitable_exists(cs, amount),
{
}

/// Selection is order-stable: the selected candidate is the earliest
/// fitting one, so no earlier candidate that also fits is ever passed
/// over for a later one.
pub proof fn lemma_first_fit_minimal(cs: Seq<RouteWithCapacity>, amount: u128, i: int, j: int)
    requires
        is_first_fit(cs, amount, i),
        0 <= j < cs.len(),
        candidate_fits(cs[j], amount),
    ensures
        i <= j,
{
}

/// Whether `b` is the ASCII code of a decimal digit.
pub open spec fn is_ascii_digit(b: u8) -> bool {
    48u8 <= b && b <= 57u8
}

/// Whether every byte of `s` is a decimal digit.
pub open spec fn all_digits(s: Seq<u8>) -> bool {
    forall|i: int| 0 <= i < s.len() ==> is_ascii_digit(#[trigger] s[i])
}

/// The number written by the decimal digits `s`.
pub open spec fn digits_value(s: Seq<u8>) -> int
    decreases s.len(),
{
    if s.len() == 0 {
        0
    } else {
        digits_value(s.drop_last()) * 10 + (s.last() - 48)
    }
}

/// The digits of an amount literal: everything after an optional leading
/// plus sign.
pub open spec fn amount_digits(s: Seq<u8>) -> Seq<u8> {
    if s.len() > 0 && s[0] == 43u8 {
        s.skip(1)
    } else {
        s
    }
}

/// Whether `s` is a well-formed amount literal: an optional plus sign,
/// then at least one decimal digit, denoting a number no larger than
/// `u128::MAX`.
pub open spec fn is_valid_amount_literal(s: Seq<u8>) -> bool {
    &&& amount_digits(s).len() > 0
    &&& all_digits(amount_digits(s))
    &&& digits_value(amount_digits(s)) <= u128::MAX
}

/// The number written by a sequence of digits is never negative.
proof fn lemma_digits_value_nonneg(s: Seq<u8>)
    requires
        all_digits(s),
    ensures
        digits_value(s) >= 0,
    decreases s.len(),
{
    if s.len() > 0 {
        assert(all_digits(s.drop_last()));
        lemma_digits_value_nonneg(s.drop_last());
    }
}

/// Extending a digit string never shrinks its value: the number written
/// by a prefix is at most the number written by the whole string.
proof fn lemma_digits_value_take_le(s: Seq<u8>, i: int)
    requires
        all_digits(s),
        0 <= i <= s.len(),
    ensures
        digits_value(s.take(i)) <= digits_value(s),
    decreases s.len() - i,
{
    if i == s.len() {
        assert(s.take(i) =~= s);
    } else {
        lemma_digits_value_take_le(s, i + 1);
        assert(s.take(i + 1).drop_last() =~= s.take(i));
        assert(all_digits(s.take(i)));
        lemma_digits_value_nonneg(s.take(i));
        assert(digits_value(s.take(i + 1)) == digits_value(s.take(i)) * 10 + (s[i] - 48));
    }
}

/// Parse a decimal amount literal into an amount of credits.
///
/// Succeeds exactly on literals of an optional leading plus sign followed
/// by decimal digits whose value fits in `u128`, and then returns that
/// value; every other input is rejected.
pub fn parse_amount(s: &Vec<u8>) -> (r: Result<u128, FundsError>)
    ensures
        match r {
            Ok(v) => is_valid_amount_literal(s@) && v == digits_value(amount_digits(s@)),
            Err(e) => e == FundsError::ParseAmountError && !is_valid_amount_literal(s@),
        },
{
    let start: usize = if s.len() > 0 && s[0] == 43u8 {
        1
    } else {
        0
    };
    if s.len() == start {
        return Err(FundsError::ParseAmountError);
    }
    let ghost ds = amount_digits(s@);
    proof {
        assert(ds =~= s@.subrange(start as int, s@.len() as int));
    }
    let mut acc: u128 = 0;
    let mut i: usize = start;
    while i < s.len()
        invariant
            start <= 1,
            start <= i <= s@.len(),
            start < s@.len(),
            ds == amount_digits(s@),
            ds =~= s@.subrange(start as int, s@.len() as int),
            forall|j: int| start <= j < i ==> is_ascii_digit(#[trigger] s@[j]),
            acc == digits_value(ds.take(i - start)),
        decreases s@.len() - i,
    {
        let b = s[i];
        if !(48u8 <= b && b <= 57u8) {
            // A non-digit makes the whole literal invalid.
            proof {
                assert(ds[i - start] == s@[i as int]);
                assert(!all_digits(ds));
            }
            return Err(FundsError::ParseAmountError);
        }
        let d: u8 = b - 48;
        let ghost prefix = ds.take(i - start);
        let ghost extended = ds.take(i + 1 - start);
        proof {
            assert(extended.drop_last() =~= prefix);
            assert(extended.last() == s@[i as int]);
            assert(digits_value(extended) == acc * 10 + d);
        }
        let next = match acc.checked_mul(10) {
            Some(m) => m.checked_add(d as u128),
            None => None,
        };
        match next {
            Some(n) => {
                acc = n;
            },
            None => {
                // The value written so far already exceeds the numeric
                // range, so the whole literal does too.
                proof {
                    if all_digits(ds) {
                        lemma_digits_value_take_le(ds, i + 1 - start);
                    }
                }
                return Err(FundsError::ParseAmountError);
            },
        }
        i += 1;
    }
    proof {
        assert(ds.take(i - start) =~= ds);
    }
    Ok(acc)
}

/// An opaque proof of payment, handed out by the network when a send
/// request succeeds and consumed by its acknowledgment.
#[derive(Clone, Debug, PartialEq, Eq)]
pub struct Receipt {
    pub bytes: Vec<u8>,
}

/// What a completed transfer reports back: the amount moved and the fee
/// paid along the chosen route.
#[derive(Clone, Copy, Debug, PartialEq, Eq)]
pub struct TransferSummary {
    pub amount: u128,
    pub fees: usize,
}

/// The phases of one funds-transfer attempt.
///
/// A transfer advances strictly forward: report snapshot, route query,
/// send request, receipt acknowledgment. Each waiting state holds exactly
/// what the remaining phases still need.
#[derive(Debug, PartialEq, Eq)]
pub enum TransferState {
    /// Waiting for the node-report snapshot that names the local key and
    /// the capabilities of the connected identity.
    AwaitReport { destination: PublicKey, amount: u128 },
    /// Waiting for the routing oracle's candidate routes.
    AwaitRoutes { amount: u128 },
    /// Waiting for the outcome of the send request.
    AwaitReceipt { request_id: Uid, fees: usize, amount: u128 },
    /// Waiting for the outcome of the receipt acknowledgment.
    AwaitAck { fees: usize, amount: u128 },
    /// The attempt is over, successfully or not.
    Done { result: Result<TransferSummary, FundsError> },
}

/// The outcome of one network call, fed back into the transfer.
#[derive(Clone, Debug, PartialEq, Eq)]
pub enum TransferEvent {
    /// The report snapshot arrived. Any stream of live report updates
    /// offered alongside it is discarded by the caller; the transfer works
    /// from this one snapshot.
    ReportFetched { local_public_key: PublicKey, has_send_funds: bool, has_routes: bool },
    /// The report snapshot could not be fetched.
    ReportFailed,
    /// The routing oracle answered with candidate routes.
    RoutesReceived { routes: Vec<RouteWithCapacity> },
    /// The routing oracle could not be queried.
    RoutesFailed,
    /// The send request succeeded and yielded a receipt.
    SendFundsSucceeded { receipt: Receipt },
    /// The send request failed; no funds are assumed to have moved.
    SendFundsFailed,
    /// The receipt acknowledgment succeeded.
    AckSucceeded,
    /// The receipt acknowledgment failed; the payment may have completed
    /// without confirmation.
    AckFailed,
}

/// The next network call the caller must make for the transfer.
#[derive(Clone, Debug, PartialEq, Eq)]
pub enum TransferAction {
    /// Fetch a node-report snapshot.
    FetchReport,
    /// Ask the routing oracle for routes able to carry `amount` credits
    /// from `source` to `destination`, excluding no edges.
    RequestRoutes { amount: u128, source: PublicKey, destination: PublicKey },
    /// Issue the funds-send request.
    RequestSendFunds { request_id: Uid, route: FriendsRoute, invoice_id: InvoiceId, amount: u128 },
    /// Acknowledge the receipt under the request identifier of the send.
    AckReceipt { request_id: Uid, receipt: Receipt },
    /// Nothing is left to do; the result stands in the state.
    Finish,
}

/// Whether `event` is an outcome the transfer in `state` is waiting for.
pub open spec fn step_enabled(state: TransferState, event: TransferEvent) -> bool {
    match state {
        TransferState::AwaitReport { .. } => event is ReportFetched || event is ReportFailed,
        TransferState::AwaitRoutes { .. } => event is RoutesReceived || event is RoutesFailed,
        TransferState::AwaitReceipt { .. } => event is SendFundsSucceeded
            || event is SendFundsFailed,
        TransferState::AwaitAck { .. } => event is AckSucceeded || event is AckFailed,
        TransferState::Done { .. } => false,
    }
}

/// The transition relation of a transfer: which successor state and which
/// action one step may yield.
///
/// Every transition is deterministic up to the request identifier, which
/// is drawn at random when the send request is issued.
pub open spec fn step_spec(
    pre: TransferState,
    event: TransferEvent,
    post: TransferState,
    action: TransferAction,
) -> bool {
    match (pre, event) {
        (
            TransferState::AwaitReport { destination, amount },
            TransferEvent::ReportFetched { local_public_key, has_send_funds, has_routes },
        ) => {
            if !has_send_funds {
                &&& post == (TransferState::Done {
                    result: Err::<TransferSummary, FundsError>(FundsError::NoFundsPermissions),
                })
                &&& action == TransferAction::Finish
            } else if !has_routes {
                &&& post == (TransferState::Done {
                    result: Err::<TransferSummary, FundsError>(FundsError::NoRoutesPermissions),
                })
                &&& action == TransferAction::Finish
            } else {
                &&& post == (TransferState::AwaitRoutes { amount })
                &&& action == (TransferAction::RequestRoutes {
                    amount,
                    source: local_public_key,
                    destination,
                })
            }
        },
        (TransferState::AwaitReport { .. }, TransferEvent::ReportFailed) => {
            &&& post == (TransferState::Done {
                result: Err::<TransferSummary, FundsError>(FundsError::GetReportError),
            })
            &&& action == TransferAction::Finish
        },
        (
            TransferState::AwaitRoutes { amount },
            TransferEvent::RoutesReceived { routes },
        ) => {
            if suitable_exists(routes@, amount) {
                match (post, action) {
                    (
                        TransferState::AwaitReceipt { request_id, fees, amount: state_amount },
                        TransferAction::RequestSendFunds {
                            request_id: action_request_id,
                            route,
                            invoice_id,
                            amount: action_amount,
                        },
                    ) => {
                        &&& request_id == action_request_id
                        &&& state_amount == amount
                        &&& action_amount == amount
                        &&& (exists|i: int|
                            #[trigger] is_first_fit(routes@, amount, i) && route == routes@[i].route)
                        &&& fees == route_fee(route)
                        &&& invoice_id@ == trivial_invoice_seq()
                    },
                    _ => false,
                }
            } else {
                &&& post == (TransferState::Done {
                    result: Err::<TransferSummary, FundsError>(FundsError::NoSuitableRoute),
                })
                &&& action == TransferAction::Finish
            }
        },
        (TransferState::AwaitRoutes { .. }, TransferEvent::RoutesFailed) => {
            &&& post == (TransferState::Done {
                result: Err::<TransferSummary, FundsError>(FundsError::AppRoutesError),
            })
            &&& action == TransferAction::Finish
        },
        (
            TransferState::AwaitReceipt { request_id, fees, amount },
            TransferEvent::SendFundsSucceeded { receipt },
        ) => {
            &&& post == (TransferState::AwaitAck { fees, amount })
            &&& action == (TransferAction::AckReceipt { request_id, receipt })
        },
        (TransferState::AwaitReceipt { .. }, TransferEvent::SendFundsFailed) => {
            &&& post == (TransferState::Done {
                result: Err::<TransferSummary, FundsError>(FundsError::SendFundsError),
            })
            &&& action == TransferAction::Finish
        },
        (TransferState::AwaitAck { fees, amount }, TransferEvent::AckSucceeded) => {
            &&& post == (TransferState::Done {
                result: Ok::<TransferSummary, FundsError>(TransferSummary { amount, fees }),
            })
            &&& action == TransferAction::Finish
        },
        (TransferState::AwaitAck { .. }, TransferEvent::AckFailed) => {
            &&& post == (TransferState::Done {
                result: Err::<TransferSummary, FundsError>(FundsError::ReceiptAckError),
            })
            &&& action == TransferAction::Finish
        },
        _ => false,
    }
}

/// Begin a transfer of `amount` credits to `destination`.
///
/// The caller performs the returned action and feeds its outcome into
/// `transfer_step`.
pub fn start_transfer(destination: PublicKey, amount: u128) -> (r: (TransferState, TransferAction))
    ensures
        r.0 == (TransferState::AwaitReport { destination, amount }),
        r.1 == TransferAction::FetchReport,
{
    (TransferState::AwaitReport { destination, amount }, TransferAction::FetchReport)
}

/// Advance a transfer by one step.
///
/// Consumes the outcome of the pending network call and yields the next
/// state together with the next call to make. The caller must feed in an
/// outcome the state is waiting for; within one transfer the steps are
/// strictly sequential.
pub fn transfer_step(state: TransferState, event: TransferEvent) -> (r: (
    TransferState,
    TransferAction,
))
    requires
        step_enabled(state, event),
    ensures
        step_spec(state, event, r.0, r.1),
{
    match (state, event) {
        (
            TransferState::AwaitReport { destination, amount },
            TransferEvent::ReportFetched { local_public_key, has_send_funds, has_routes },
        ) => {
            if !has_send_funds {
                (
                    TransferState::Done { result: Err(FundsError::NoFundsPermissions) },
                    TransferAction::Finish,
                )
            } else if !has_routes {
                (
                    TransferState::Done { result: Err(FundsError::NoRoutesPermissions) },
                    TransferAction::Finish,
                )
            } else {
                (
                    TransferState::AwaitRoutes { amount },
                    TransferAction::RequestRoutes { amount, source: local_public_key, destination },
                )
            }
        },
        (TransferState::AwaitReport { .. }, TransferEvent::ReportFailed) => (
            TransferState::Done { result: Err(FundsError::GetReportError) },
            TransferAction::Finish,
        ),
        (TransferState::AwaitRoutes { amount }, TransferEvent::RoutesReceived { routes }) => {
            match choose_route(routes, amount) {
                Ok(route) => {
                    let fees = route_fees(&route);
                    let request_id = gen_uid();
                    let invoice_id = InvoiceId::trivial();
                    (
                        TransferState::AwaitReceipt { request_id, fees, amount },
                        TransferAction::RequestSendFunds { request_id, route, invoice_id, amount },
                    )
                },
                Err(e) => (TransferState::Done { result: Err(e) }, TransferAction::Finish),
            }
        },
        (TransferState::AwaitRoutes { .. }, TransferEvent::RoutesFailed) => (
            TransferState::Done { result: Err(FundsError::AppRoutesError) },
            TransferAction::Finish,
        ),
        (
            TransferState::AwaitReceipt { request_id, fees, amount },
            TransferEvent::SendFundsSucceeded { receipt },
        ) => (
            TransferState::AwaitAck { fees, amount },
            TransferAction::AckReceipt { request_id, receipt },
        ),
        (TransferState::AwaitReceipt { .. }, TransferEvent::SendFundsFailed) => (
            TransferState::Done { result: Err(FundsError::SendFundsError) },
            TransferAction::Finish,
        ),
        (TransferState::AwaitAck { fees, amount }, TransferEvent::AckSucceeded) => (
            TransferState::Done { result: Ok(TransferSummary { amount, fees }) },
            TransferAction::Finish,
        ),
        (TransferState::AwaitAck { .. }, TransferEvent::AckFailed) => (
            TransferState::Done { result: Err(FundsError::ReceiptAckError) },
            TransferAction::Finish,
        ),
        _ => {
            proof {
                assert(false);
            }
            (TransferState::Done { result: Err(FundsError::GetReportError) }, TransferAction::Finish)
        },
    }
}

/// Turn the operator's send command into the opening step of a transfer.
///
/// The amount literal is parsed first, then the destination key; either
/// failure rejects the command before any network call. On success the
/// returned state and action open the transfer for the parsed values.
pub fn funds_send_start(destination_str: &Vec<u8>, amount_str: &Vec<u8>) -> (r: Result<
    (TransferState, TransferAction),
    FundsError,
>)
    ensures
        match r {
            Ok(sa) => {
                &&& is_valid_amount_literal(amount_str@)
                &&& is_valid_key_literal(destination_str@)
                &&& match sa.0 {
                    TransferState::AwaitReport { destination, amount } => {
                        &&& destination.wf()
                        &&& destination@ == decoded_key(destination_str@)
                        &&& amount == digits_value(amount_digits(amount_str@))
                    },
                    _ => false,
                }
                &&& sa.1 == TransferAction::FetchReport
            },
            Err(e) => {
                if !is_valid_amount_literal(amount_str@) {
                    e == FundsError::ParseAmountError
                } else {
                    &&& !is_valid_key_literal(destination_str@)
                    &&& e == FundsError::InvalidDestination
                }
            },
        },
{
    let amount = match parse_amount(amount_str) {
        Ok(v) => v,
        Err(e) => {
            return Err(e);
        },
    };
    let destination = match string_to_public_key(destination_str) {
        Some(pk) => pk,
        None => {
            return Err(FundsError::InvalidDestination);
        },
    };
    Ok(start_transfer(destination, amount))
}

} // verus!
