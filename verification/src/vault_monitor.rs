//! The lifecycle sweeper's decisions.
//!
//! The sweeper walks the mirror at a fixed interval. For each session it asks
//! the ledger for the vault, decides here what to do, does it, and decides here
//! what the row becomes. A vault that someone else has cleaned up already is no
//! failure: the row is cleaned all the same.

use crate::api::SessionEvent;
use crate::api::SessionEventView;
use crate::config::Config;
use crate::session_manager::may_expire;
use crate::session_manager::may_clean;
use crate::session_manager::moved_to;
use crate::session_manager::Session;
use crate::session_manager::SessionStatus;
use crate::session_manager::SessionView;
use crate::vault::EphemeralVault;
use vstd::prelude::*;

verus! {

/// Seconds between two walks of the mirror.
pub const SWEEP_INTERVAL_SECS: u64 = 30;

/// What the sweeper does about one session.
#[derive(Debug, Clone, Copy, PartialEq, Eq, Structural)]
pub enum SweepAction {
    /// Leave the session alone.
    Nothing,
    /// The vault is there and not due: bring the row's totals up to date.
    Refresh,
    /// Send `cleanup_vault` for the session's vault.
    SubmitCleanup,
    /// The vault is gone from the ledger: mark the row cleaned.
    MarkCleaned,
}

/// How a `cleanup_vault` that the sweeper sent ended.
#[derive(Debug, Clone, Copy, PartialEq, Eq, Structural)]
pub enum CleanupOutcome {
    /// The ledger applied it.
    Applied,
    /// The ledger rejected it; `record_exists` says whether the ledger still
    /// holds the vault.
    Rejected { record_exists: bool },
}

/// What the sweeper does about a session, given the vault that the ledger
/// holds for it (`None` where it holds none) and the time.
pub open spec fn planned_action(
    session: SessionView,
    ledger_vault: Option<EphemeralVault>,
    now: i64,
) -> SweepAction {
    if session.status == SessionStatus::Cleaned || session.vault_pubkey is None {
        SweepAction::Nothing
    } else {
        match ledger_vault {
            None => SweepAction::MarkCleaned,
            Some(vault) => if now >= vault.session_expiry {
                SweepAction::SubmitCleanup
            } else {
                SweepAction::Refresh
            },
        }
    }
}

/// The row as a cleanup finds it: marked expired where it was `Active` and its
/// own expiry is reached, else as it was.
pub open spec fn expired_first(session: SessionView, now: i64) -> SessionView {
    if may_expire(session, now) {
        moved_to(session, SessionStatus::Expired, now)
    } else {
        session
    }
}

/// What the sweeper does next about one session.
pub enum SweepStep {
    /// Nothing.
    Leave,
    /// Write the row.
    Write(Session),
    /// Write the row, announce the event where there is one, and send
    /// `cleanup_vault`; then settle the row with how the cleanup ended.
    Cleanup { session: Session, event: Option<SessionEvent> },
}

/// What a step holds.
pub enum SweepStepView {
    Leave,
    Write(SessionView),
    Cleanup { session: SessionView, event: Option<SessionEventView> },
}

impl View for SweepStep {
    type V = SweepStepView;

    open spec fn view(&self) -> SweepStepView {
        match self {
            SweepStep::Leave => SweepStepView::Leave,
            SweepStep::Write(session) => SweepStepView::Write(session@),
            SweepStep::Cleanup { session, event } => SweepStepView::Cleanup {
                session: session@,
                event: match event {
                    Some(e) => Some(e@),
                    None => None,
                },
            },
        }
    }
}

/// The step that follows from what was planned: a refresh writes the ledger's
/// totals, a vault that is gone writes the cleaned row, and a cleanup first
/// marks an `Active` session expired and announces that.
pub open spec fn planned_step(
    session: SessionView,
    ledger_vault: Option<EphemeralVault>,
    now: i64,
) -> SweepStepView {
    match planned_action(session, ledger_vault, now) {
        SweepAction::Nothing => SweepStepView::Leave,
        SweepAction::Refresh => SweepStepView::Write(refreshed(session, ledger_vault->0)),
        SweepAction::MarkCleaned => SweepStepView::Write(
            settled(session, CleanupOutcome::Rejected { record_exists: false }, now),
        ),
        SweepAction::SubmitCleanup => SweepStepView::Cleanup {
            session: expired_first(session, now),
            event: if may_expire(session, now) {
                Some(SessionEventView::Expired(expired_first(session, now)))
            } else {
                None
            },
        },
    }
}

/// Whether the vault is gone from the ledger after a cleanup ended so.
pub open spec fn vault_is_gone(outcome: CleanupOutcome) -> bool {
    match outcome {
        CleanupOutcome::Applied => true,
        CleanupOutcome::Rejected { record_exists } => !record_exists,
    }
}

/// The row after a cleanup ended: cleaned where the vault is gone, else as it
/// was.
pub open spec fn settled(session: SessionView, outcome: CleanupOutcome, now: i64) -> SessionView {
    if vault_is_gone(outcome) && may_clean(session) {
        moved_to(session, SessionStatus::Cleaned, now)
    } else {
        session
    }
}

/// The row with the ledger's totals copied into it.
pub open spec fn refreshed(session: SessionView, vault: EphemeralVault) -> SessionView {
    SessionView {
        max_deposit: vault.max_deposit,
        total_deposited: vault.total_deposited,
        total_spent: vault.total_spent,
        ..session
    }
}

/// The sweeper, with the settings it runs under.
pub struct VaultMonitor {
    pub cfg: Config,
}

impl VaultMonitor {
    /// The sweeper's decisions under the given settings.
    pub fn new(cfg: Config) -> (monitor: VaultMonitor)
        ensures
            monitor.cfg == cfg,
    {
        VaultMonitor { cfg }
    }

    /// Decides what to do about one session.
    ///
    /// A cleaned session and one that names no vault are left alone. Where the
    /// ledger holds no vault, the row is to be cleaned. Where it holds one,
    /// `cleanup_vault` is sent once the vault's expiry is reached, never before;
    /// until then the row's totals are brought up to date.
    pub fn plan(&self, session: &Session, ledger_vault: &Option<EphemeralVault>, now: i64) -> (action:
        SweepAction)
        ensures
            action == planned_action(session@, *ledger_vault, now),
            action == SweepAction::SubmitCleanup ==> (ledger_vault matches Some(vault) && now
                >= vault.session_expiry),
    {
        if session.status.same_as(&SessionStatus::Cleaned) || session.vault_pubkey.is_none() {
            return SweepAction::Nothing;
        }
        match ledger_vault {
            None => SweepAction::MarkCleaned,
            Some(vault) => {
                if now >= vault.session_expiry {
                    SweepAction::SubmitCleanup
                } else {
                    SweepAction::Refresh
                }
            },
        }
    }

    /// Decides the sweeper's next step about one session, with the row to
    /// write and the event to announce.
    pub fn next_step(&self, session: Session, ledger_vault: &Option<EphemeralVault>, now: i64) -> (step:
        SweepStep)
        ensures
            step@ == planned_step(session@, *ledger_vault, now),
    {
        match self.plan(&session, ledger_vault, now) {
            SweepAction::Nothing => SweepStep::Leave,
            SweepAction::Refresh => match ledger_vault {
                Some(vault) => SweepStep::Write(self.refresh(session, vault)),
                None => SweepStep::Leave,
            },
            SweepAction::MarkCleaned => SweepStep::Write(
                self.settle(session, CleanupOutcome::Rejected { record_exists: false }, now),
            ),
            SweepAction::SubmitCleanup => {
                if session.status.same_as(&SessionStatus::Active) && now >= session.session_expiry {
                    let expired = Session {
                        id: session.id,
                        parent_wallet: session.parent_wallet,
                        ephemeral_wallet: session.ephemeral_wallet,
                        vault_pubkey: session.vault_pubkey,
                        status: SessionStatus::Expired,
                        session_start: session.session_start,
                        session_expiry: session.session_expiry,
                        last_activity: now,
                        max_deposit: session.max_deposit,
                        total_deposited: session.total_deposited,
                        total_spent: session.total_spent,
                    };
                    let event = SessionEvent::Expired(expired.snapshot());
                    SweepStep::Cleanup { session: expired, event: Some(event) }
                } else {
                    SweepStep::Cleanup { session, event: None }
                }
            },
        }
    }

    /// Decides what the row becomes after a cleanup ended.
    ///
    /// The row is cleaned where the ledger applied the cleanup, and also where
    /// it rejected it and holds the vault no more. Where the vault is still
    /// there, the row stays as it was.
    pub fn settle(&self, session: Session, outcome: CleanupOutcome, now: i64) -> (after: Session)
        ensures
            after@ == settled(session@, outcome, now),
            session@.well_formed() ==> after@.well_formed(),
    {
        let gone = match outcome {
            CleanupOutcome::Applied => true,
            CleanupOutcome::Rejected { record_exists } => !record_exists,
        };
        if gone && !session.status.same_as(&SessionStatus::Cleaned)
            && session.vault_pubkey.is_some() {
            Session {
                id: session.id,
                parent_wallet: session.parent_wallet,
                ephemeral_wallet: session.ephemeral_wallet,
                vault_pubkey: session.vault_pubkey,
                status: SessionStatus::Cleaned,
                session_start: session.session_start,
                session_expiry: session.session_expiry,
                last_activity: now,
                max_deposit: session.max_deposit,
                total_deposited: session.total_deposited,
                total_spent: session.total_spent,
            }
        } else {
            session
        }
    }

    /// Copies the ledger's totals into the row. The row's totals are a copy
    /// for display; this is how the copy is brought up to date.
    pub fn refresh(&self, session: Session, vault: &EphemeralVault) -> (after: Session)
        ensures
            after@ == refreshed(session@, *vault),
            session@.well_formed() ==> after@.well_formed(),
    {
        Session {
            id: session.id,
            parent_wallet: session.parent_wallet,
            ephemeral_wallet: session.ephemeral_wallet,
            vault_pubkey: session.vault_pubkey,
            status: session.status,
            session_start: session.session_start,
            session_expiry: session.session_expiry,
            last_activity: session.last_activity,
            max_deposit: vault.max_deposit,
            total_deposited: vault.total_deposited,
            total_spent: vault.total_spent,
        }
    }
}

/// A session whose vault is gone ends up cleaned or was never confirmed, and
/// a cleaned session is left alone from then on.
pub proof fn lemma_sweep_ends_in_cleaned(
    session: SessionView,
    outcome: CleanupOutcome,
    now: i64,
    ledger_vault: Option<EphemeralVault>,
    later: i64,
)
    requires
        vault_is_gone(outcome),
        session.vault_pubkey is Some,
    ensures
        settled(session, outcome, now).status == SessionStatus::Cleaned,
        planned_action(settled(session, outcome, now), ledger_vault, later)
            == SweepAction::Nothing,
{
}

} // verus!
