//! What the service answers to each request, and what it announces.
//!
//! The transport is the caller's. Each function here takes a request as plain
//! values, together with the row that the store found where one is needed, and
//! decides the answer: the status, the body, the row to write and the event to
//! announce to the subscribers.

use crate::address::base58_address;
use crate::address::base58_text;
use crate::address::Address;
use crate::auto_deposit::deposit_for_trades;
use crate::auto_deposit::AutoDepositCalculator;
use crate::auto_deposit::PriorityLevel;
use crate::custody::passphrase_usable;
use crate::session_manager::marked_active;
use crate::session_manager::may_mark_active;
use crate::session_manager::may_revoke;
use crate::session_manager::moved_to;
use crate::session_manager::always_fits;
use crate::session_manager::opened_session;
use crate::session_manager::seals_key_of;
use crate::session_manager::LATEST_CLOCK_SECONDS;
use crate::session_manager::row_unless_refused;
use crate::session_manager::transition_refusal;
use crate::session_manager::view_of;
use crate::session_manager::CreatedSession;
use crate::session_manager::MirrorError;
use crate::session_manager::Session;
use crate::session_manager::SessionManager;
use crate::session_manager::SessionRow;
use crate::session_manager::SessionStatus;
use crate::session_manager::SessionView;
use vstd::prelude::*;

verus! {

/// The status of an answer.
#[derive(Debug, Clone, Copy, PartialEq, Eq, Structural)]
pub enum StatusCode {
    Success,
    Accepted,
    BadRequest,
    NotFound,
    Conflict,
    InternalServerError,
}

/// Asks for a session of `session_duration_secs` seconds for the parent, with
/// a cap on what may be deposited.
#[derive(Debug, Clone, PartialEq, Eq)]
pub struct CreateSessionRequest {
    pub parent_wallet: String,
    pub session_duration_secs: i64,
    pub max_deposit_lamports: u64,
}

/// The session that was opened, and its ephemeral identity in base58.
#[derive(Debug, Clone, PartialEq, Eq)]
pub struct CreateSessionResponse {
    pub session: Session,
    pub ephemeral_wallet: String,
}

/// Tells the service at which address the ledger holds the session's vault.
#[derive(Debug, Clone, PartialEq, Eq)]
pub struct ApproveSessionRequest {
    pub session_id: u128,
    pub vault_pubkey: String,
}

/// Asks for a session to be marked revoked.
#[derive(Debug, Clone, Copy, PartialEq, Eq)]
pub struct RevokeSessionRequest {
    pub session_id: u128,
}

/// Asks where a session stands.
#[derive(Debug, Clone, Copy, PartialEq, Eq)]
pub struct SessionStatusQuery {
    pub session_id: u128,
}

/// Asks for a deposit that covers `min_trades_buffer` trades at a tier.
#[derive(Debug, Clone, Copy, PartialEq, Eq)]
pub struct SessionDepositRequest {
    pub session_id: u128,
    pub min_trades_buffer: u64,
    pub priority: PriorityLevel,
}

/// What the subscribers are told: one event for each step of a session's
/// life, with the row as it stands after the step.
#[derive(Debug, Clone, PartialEq, Eq)]
pub enum SessionEvent {
    Created(Session),
    Active(Session),
    Revoked(Session),
    Expired(Session),
}

/// What an event holds.
pub enum SessionEventView {
    Created(SessionView),
    Active(SessionView),
    Revoked(SessionView),
    Expired(SessionView),
}

impl View for SessionEvent {
    type V = SessionEventView;

    open spec fn view(&self) -> SessionEventView {
        match self {
            SessionEvent::Created(session) => SessionEventView::Created(session@),
            SessionEvent::Active(session) => SessionEventView::Active(session@),
            SessionEvent::Revoked(session) => SessionEventView::Revoked(session@),
            SessionEvent::Expired(session) => SessionEventView::Expired(session@),
        }
    }
}

/// What happens on a subscriber's feed.
#[derive(Debug, Clone, Copy, PartialEq, Eq, Structural)]
pub enum FeedEvent {
    /// An event arrived and was written out for the subscriber.
    Delivered,
    /// An event arrived and could not be put into words.
    Unwritable,
    /// The subscriber fell behind and events were dropped for it.
    Lagged,
    /// The subscriber could not be written to.
    Unreachable,
    /// No one will announce anything any more.
    Closed,
}

/// What the feed does next.
#[derive(Debug, Clone, Copy, PartialEq, Eq, Structural)]
pub enum FeedAction {
    /// Wait for the next event.
    Continue,
    /// Give the subscriber up.
    Stop,
}

/// What a feed does after each thing that happens on it. Events are
/// delivered at most once: nothing is sent again, and a subscriber that falls
/// behind or cannot be reached is given up.
pub open spec fn feed_action(event: FeedEvent) -> FeedAction {
    match event {
        FeedEvent::Delivered => FeedAction::Continue,
        FeedEvent::Unwritable => FeedAction::Continue,
        FeedEvent::Lagged => FeedAction::Stop,
        FeedEvent::Unreachable => FeedAction::Stop,
        FeedEvent::Closed => FeedAction::Stop,
    }
}

/// Decides what a subscriber's feed does next.
pub fn next_feed_action(event: FeedEvent) -> (action: FeedAction)
    ensures
        action == feed_action(event),
{
    match event {
        FeedEvent::Delivered => FeedAction::Continue,
        FeedEvent::Unwritable => FeedAction::Continue,
        FeedEvent::Lagged => FeedAction::Stop,
        FeedEvent::Unreachable => FeedAction::Stop,
        FeedEvent::Closed => FeedAction::Stop,
    }
}

/// The answer to a request that opened a session: the body, the sealed key
/// that the store keeps beside the row, and the event.
pub struct SessionOpened {
    pub response: CreateSessionResponse,
    pub encrypted_ephemeral_key: String,
    pub event: SessionEvent,
}

/// The answer to a request that moved a session: the row to write, which is
/// the body too, and the event.
pub struct SessionMoved {
    pub session: Session,
    pub event: SessionEvent,
}

/// The status that a refusal of the mirror is answered with.
pub open spec fn status_of_refusal(error: MirrorError) -> StatusCode {
    match error {
        MirrorError::NotFound => StatusCode::NotFound,
        MirrorError::ConflictingState => StatusCode::Conflict,
        MirrorError::ExpiryOverflow => StatusCode::InternalServerError,
        MirrorError::Codec(_) => StatusCode::InternalServerError,
    }
}

/// The number of a status.
pub open spec fn status_number(status: StatusCode) -> u16 {
    match status {
        StatusCode::Success => 200,
        StatusCode::Accepted => 202,
        StatusCode::BadRequest => 400,
        StatusCode::NotFound => 404,
        StatusCode::Conflict => 409,
        StatusCode::InternalServerError => 500,
    }
}

impl StatusCode {
    /// The number of the status.
    pub fn as_u16(&self) -> (number: u16)
        ensures
            number == status_number(*self),
    {
        match self {
            StatusCode::Success => 200,
            StatusCode::Accepted => 202,
            StatusCode::BadRequest => 400,
            StatusCode::NotFound => 404,
            StatusCode::Conflict => 409,
            StatusCode::InternalServerError => 500,
        }
    }

    /// The status that a refusal of the mirror is answered with.
    pub fn of_refusal(error: MirrorError) -> (status: StatusCode)
        ensures
            status == status_of_refusal(error),
    {
        match error {
            MirrorError::NotFound => StatusCode::NotFound,
            MirrorError::ConflictingState => StatusCode::Conflict,
            MirrorError::ExpiryOverflow => StatusCode::InternalServerError,
            MirrorError::Codec(_) => StatusCode::InternalServerError,
        }
    }
}

/// The service is up.
pub fn health() -> (status: StatusCode)
    ensures
        status == StatusCode::Success,
{
    StatusCode::Success
}

/// The answer to `create_session`, given what the mirror made of it: the row
/// and the ephemeral identity in base58, the sealed key, and the event
/// `Created`. The private key is in none of them but the sealed key.
pub fn session_opened(created: Result<CreatedSession, MirrorError>) -> (result: Result<
    SessionOpened,
    StatusCode,
>)
    ensures
        match result {
            Ok(opened) => created matches Ok(c) && opened.response.session@ == c.session@
                && opened.response.ephemeral_wallet@ == c.session@.ephemeral_wallet
                && opened.encrypted_ephemeral_key@ == c.encrypted_ephemeral_key@ && opened.event@
                == SessionEventView::Created(c.session@),
            Err(status) => created matches Err(e) && status == status_of_refusal(e),
        },
{
    match created {
        Ok(c) => {
            let event = SessionEvent::Created(c.session.snapshot());
            let ephemeral_wallet = c.session.ephemeral_wallet.clone();
            Ok(
                SessionOpened {
                    response: CreateSessionResponse { session: c.session, ephemeral_wallet },
                    encrypted_ephemeral_key: c.encrypted_ephemeral_key,
                    event,
                },
            )
        },
        Err(e) => Err(StatusCode::of_refusal(e)),
    }
}

/// Whether the answer serves the request of a parent: the `Created` row of
/// that parent, the event that announces it, and the sealed key of the
/// ephemeral identity that the answer names.
pub open spec fn answers_creation(
    opened: SessionOpened,
    parent: Seq<u8>,
    req: CreateSessionRequest,
    passphrase: Seq<u8>,
) -> bool {
    &&& 0 <= opened.response.session.session_start <= LATEST_CLOCK_SECONDS
    &&& opened.response.session@ == opened_session(
        opened.response.session.id,
        base58_text(parent),
        opened.response.ephemeral_wallet@,
        opened.response.session.session_start,
        req.session_duration_secs,
        req.max_deposit_lamports,
    )
    &&& opened.event@ == SessionEventView::Created(opened.response.session@)
    &&& exists|identity: Seq<u8>|
        opened.response.ephemeral_wallet@ == #[trigger] base58_text(identity) && seals_key_of(
            opened.encrypted_ephemeral_key@,
            identity,
            passphrase,
        )
}

/// Opens a session for the parent named in the request.
///
/// A parent that is no address in base58 is a bad request. Otherwise a
/// session whose length fits a timestamp at every time of the clock is opened
/// now, with a fresh key pair, unless the service's passphrase cannot be turned
/// into a cipher key; a longer one is opened or refused, as the clock decides.
/// The answer carries the `Created` row, which names no vault, and the
/// ephemeral identity, never the private key.
pub fn create_session(manager: &SessionManager, req: &CreateSessionRequest) -> (result: Result<
    SessionOpened,
    StatusCode,
>)
    ensures
        base58_address(req.parent_wallet@) is None ==> (result matches Err(status) && status
            == StatusCode::BadRequest),
        base58_address(req.parent_wallet@) is Some && always_fits(req.session_duration_secs)
            && passphrase_usable(manager.passphrase()) ==> result is Ok,
        base58_address(req.parent_wallet@) matches Some(parent) ==> match result {
            Ok(opened) => answers_creation(opened, parent, *req, manager.passphrase()),
            Err(status) => status == StatusCode::InternalServerError && (!always_fits(
                req.session_duration_secs,
            ) || !passphrase_usable(manager.passphrase())),
        },
{
    let parent = match Address::from_base58(req.parent_wallet.as_str()) {
        Some(parent) => parent,
        None => {
            return Err(StatusCode::BadRequest);
        },
    };
    let created = manager.create_session(
        &parent,
        req.session_duration_secs,
        req.max_deposit_lamports,
    );
    proof {
        if created is Ok {
            assert(created->Ok_0.session@.ephemeral_wallet == base58_text(
                created->Ok_0.ephemeral_wallet@,
            ));
        }
    }
    session_opened(created)
}

/// The answer to a request that moved a session, given the row that the
/// mirror made: the row and the event that `announce` makes of it.
pub open spec fn moved_answer(
    moved: Result<SessionView, MirrorError>,
    announce: spec_fn(SessionView) -> SessionEventView,
    result: Result<SessionMoved, StatusCode>,
) -> bool {
    match result {
        Ok(answer) => moved matches Ok(row) && answer.session@ == row && answer.event@
            == announce(row),
        Err(status) => moved matches Err(e) && status == status_of_refusal(e),
    }
}

/// Confirms the vault of a session.
///
/// A vault that is no address in base58 is a bad request. A session that the
/// store does not hold is not found. A session that is not `Created` is a
/// conflict and stays as it is. Otherwise the row becomes `Active`, names the
/// vault, and is announced.
pub fn approve_session(
    manager: &SessionManager,
    req: &ApproveSessionRequest,
    row: Option<Session>,
    now: i64,
) -> (result: Result<SessionMoved, StatusCode>)
    ensures
        base58_address(req.vault_pubkey@) is None ==> (result matches Err(status) && status
            == StatusCode::BadRequest),
        base58_address(req.vault_pubkey@) matches Some(vault) ==> moved_answer(
            row_unless_refused(
                transition_refusal(view_of(row), may_mark_active(view_of(row)->0)),
                marked_active(view_of(row)->0, base58_text(vault), now),
            ),
            |s: SessionView| SessionEventView::Active(s),
            result,
        ),
{
    let vault = match Address::from_base58(req.vault_pubkey.as_str()) {
        Some(vault) => vault,
        None => {
            return Err(StatusCode::BadRequest);
        },
    };
    match manager.mark_active(row, &vault, now) {
        Ok(session) => {
            let event = SessionEvent::Active(session.snapshot());
            Ok(SessionMoved { session, event })
        },
        Err(e) => Err(StatusCode::of_refusal(e)),
    }
}

/// Marks a session revoked.
///
/// A session that the store does not hold is not found; a cleaned one is a
/// conflict. Otherwise the row becomes `Revoked` and is announced. Nothing is
/// revoked on the ledger by this.
pub fn revoke_session(
    manager: &SessionManager,
    req: &RevokeSessionRequest,
    row: Option<Session>,
    now: i64,
) -> (result: Result<SessionMoved, StatusCode>)
    ensures
        moved_answer(
            row_unless_refused(
                transition_refusal(view_of(row), may_revoke(view_of(row)->0)),
                moved_to(view_of(row)->0, SessionStatus::Revoked, now),
            ),
            |s: SessionView| SessionEventView::Revoked(s),
            result,
        ),
{
    match manager.revoke(row, now) {
        Ok(session) => {
            let event = SessionEvent::Revoked(session.snapshot());
            Ok(SessionMoved { session, event })
        },
        Err(e) => Err(StatusCode::of_refusal(e)),
    }
}

/// The session of the row that the store found, or not found.
pub fn session_status(manager: &SessionManager, row: Option<SessionRow>) -> (result: Result<
    Session,
    StatusCode,
>)
    ensures
        match result {
            Ok(session) => row is Some && session@.well_formed() && manager.get_spec(row)
                == Some(session@),
            Err(status) => row is None && status == StatusCode::NotFound,
        },
{
    match manager.get(row) {
        Some(session) => Ok(session),
        None => Err(StatusCode::NotFound),
    }
}

/// The deposit that a request for a buffer of trades asks for:
/// `min_trades_buffer` times the fee of its tier. A product that leaves the
/// 64-bit range is a bad request.
pub fn session_deposit(req: &SessionDepositRequest) -> (result: Result<u64, StatusCode>)
    ensures
        deposit_for_trades(req.min_trades_buffer as nat, req.priority) <= u64::MAX ==> result
            == Ok::<u64, StatusCode>(
            deposit_for_trades(req.min_trades_buffer as nat, req.priority) as u64,
        ),
        deposit_for_trades(req.min_trades_buffer as nat, req.priority) > u64::MAX ==> result
            == Err::<u64, StatusCode>(StatusCode::BadRequest),
{
    match AutoDepositCalculator::compute_deposit_for_trades(req.min_trades_buffer, req.priority) {
        Ok(amount) => Ok(amount),
        Err(_) => Err(StatusCode::BadRequest),
    }
}

} // verus!
