//! The session mirror: the service's own record of a delegation.
//!
//! A mirror row is written before the ledger knows the vault, and follows the
//! ledger from then on: `Created`, then `Active` once the vault's address is
//! confirmed, then `Revoked` or `Expired`, then `Cleaned`. The row's totals are
//! a copy of the ledger's and decide nothing. The store that keeps the rows is
//! the caller's: each transition takes the row that was read and gives the row
//! to write.

use crate::address::base58_text;
use crate::address::Address;
use crate::config::Config;
use crate::custody::encrypt_keypair;
use crate::custody::envelope_text;
use crate::custody::is_keypair_encoding;
use crate::custody::passphrase_usable;
use crate::custody::CodecError;
use crate::custody::EphemeralKeypair;
use vstd::prelude::*;
use vstd::utf8::encode_utf8;

verus! {

/// Where a session stands.
#[derive(Debug, Clone, Copy, PartialEq, Eq, Structural)]
pub enum SessionStatus {
    Created,
    Active,
    Revoked,
    Expired,
    Cleaned,
}

/// Why the mirror refused.
#[derive(Debug, Clone, Copy, PartialEq, Eq, Structural)]
pub enum MirrorError {
    /// The store holds no row of that session.
    NotFound,
    /// The row's status does not allow the transition.
    ConflictingState,
    /// The session's expiry does not fit a timestamp.
    ExpiryOverflow,
    /// The ephemeral key could not be sealed.
    Codec(CodecError),
}

/// A mirror row. Times are seconds since the Unix epoch; identities are in
/// base58.
#[derive(Debug, Clone, PartialEq, Eq)]
pub struct Session {
    pub id: u128,
    pub parent_wallet: String,
    pub ephemeral_wallet: String,
    pub vault_pubkey: Option<String>,
    pub status: SessionStatus,
    pub session_start: i64,
    pub session_expiry: i64,
    pub last_activity: i64,
    pub max_deposit: u64,
    pub total_deposited: u64,
    pub total_spent: u64,
}

/// What a mirror row holds.
pub struct SessionView {
    pub id: u128,
    pub parent_wallet: Seq<char>,
    pub ephemeral_wallet: Seq<char>,
    pub vault_pubkey: Option<Seq<char>>,
    pub status: SessionStatus,
    pub session_start: i64,
    pub session_expiry: i64,
    pub last_activity: i64,
    pub max_deposit: u64,
    pub total_deposited: u64,
    pub total_spent: u64,
}

/// The text of an optional string.
pub open spec fn text_of(text: Option<String>) -> Option<Seq<char>> {
    match text {
        Some(t) => Some(t@),
        None => None,
    }
}

impl View for Session {
    type V = SessionView;

    open spec fn view(&self) -> SessionView {
        SessionView {
            id: self.id,
            parent_wallet: self.parent_wallet@,
            ephemeral_wallet: self.ephemeral_wallet@,
            vault_pubkey: text_of(self.vault_pubkey),
            status: self.status,
            session_start: self.session_start,
            session_expiry: self.session_expiry,
            last_activity: self.last_activity,
            max_deposit: self.max_deposit,
            total_deposited: self.total_deposited,
            total_spent: self.total_spent,
        }
    }
}

impl SessionView {
    /// A row never claims `Active` while it knows no vault.
    pub open spec fn well_formed(self) -> bool {
        self.status == SessionStatus::Active ==> self.vault_pubkey is Some
    }
}

/// A row as the store keeps it: the status is text.
#[derive(Debug, Clone, PartialEq, Eq)]
pub struct SessionRow {
    pub id: u128,
    pub parent_wallet: String,
    pub ephemeral_wallet: String,
    pub vault_pubkey: Option<String>,
    pub status: String,
    pub session_start: i64,
    pub session_expiry: i64,
    pub last_activity: i64,
    pub max_deposit: u64,
    pub total_deposited: u64,
    pub total_spent: u64,
}

/// A session that was just opened: its row, the public identity of its
/// ephemeral key pair, and the sealed form of the key pair that the store keeps
/// beside the row. The key pair itself is not part of it: once sealed, the
/// private key exists only inside the sealed form.
pub struct CreatedSession {
    pub session: Session,
    pub ephemeral_wallet: Address,
    pub encrypted_ephemeral_key: String,
}

/// The latest time that the clock can give, in seconds since the Unix epoch:
/// the last second of the year 262142.
pub const LATEST_CLOCK_SECONDS: i64 = 8_210_266_876_799;

/// Whether a session of this length fits a timestamp whenever it is opened.
pub open spec fn always_fits(session_duration_secs: i64) -> bool {
    session_duration_secs <= i64::MAX - LATEST_CLOCK_SECONDS
}

/// Whether the sealed key belongs to the public identity: some key pair has
/// the identity as its public half and the text as its sealed form.
pub open spec fn seals_key_of(
    encrypted_ephemeral_key: Seq<char>,
    ephemeral_wallet: Seq<u8>,
    passphrase: Seq<u8>,
) -> bool {
    exists|keypair: Seq<u8>|
        is_keypair_encoding(keypair) && keypair.subrange(32, 64) == ephemeral_wallet
            && encrypted_ephemeral_key == #[trigger] envelope_text(keypair, passphrase)
}

/// The text that the store keeps for a status.
pub open spec fn status_text(status: SessionStatus) -> Seq<char> {
    match status {
        SessionStatus::Created => "CREATED"@,
        SessionStatus::Active => "ACTIVE"@,
        SessionStatus::Revoked => "REVOKED"@,
        SessionStatus::Expired => "EXPIRED"@,
        SessionStatus::Cleaned => "CLEANED"@,
    }
}

/// The status that a stored text stands for. A text that is none of the five
/// reads as `Created`.
pub open spec fn status_of_text(text: Seq<char>) -> SessionStatus {
    if text == "ACTIVE"@ {
        SessionStatus::Active
    } else if text == "REVOKED"@ {
        SessionStatus::Revoked
    } else if text == "EXPIRED"@ {
        SessionStatus::Expired
    } else if text == "CLEANED"@ {
        SessionStatus::Cleaned
    } else {
        SessionStatus::Created
    }
}

/// The status that a row is read with: its stored status, but `Created` where
/// the row claims `Active` and names no vault.
pub open spec fn status_read(text: Seq<char>, vault_pubkey: Option<Seq<char>>) -> SessionStatus {
    if status_of_text(text) == SessionStatus::Active && vault_pubkey is None {
        SessionStatus::Created
    } else {
        status_of_text(text)
    }
}

fn same_text(left: &str, right: &str) -> (same: bool)
    ensures
        same == (left@ == right@),
{
    let left_owned: String = left.to_owned();
    let right_owned: String = right.to_owned();
    left_owned == right_owned
}

impl SessionStatus {
    /// The text that the store keeps for the status.
    pub fn as_db_str(&self) -> (text: &'static str)
        ensures
            text@ == status_text(*self),
    {
        match self {
            SessionStatus::Created => "CREATED",
            SessionStatus::Active => "ACTIVE",
            SessionStatus::Revoked => "REVOKED",
            SessionStatus::Expired => "EXPIRED",
            SessionStatus::Cleaned => "CLEANED",
        }
    }

    /// The status that a stored text stands for.
    pub fn from_db_str(text: &str) -> (status: SessionStatus)
        ensures
            status == status_of_text(text@),
    {
        if same_text(text, "ACTIVE") {
            SessionStatus::Active
        } else if same_text(text, "REVOKED") {
            SessionStatus::Revoked
        } else if same_text(text, "EXPIRED") {
            SessionStatus::Expired
        } else if same_text(text, "CLEANED") {
            SessionStatus::Cleaned
        } else {
            SessionStatus::Created
        }
    }

    /// Whether two statuses are the same.
    pub fn same_as(&self, other: &SessionStatus) -> (same: bool)
        ensures
            same == (*self == *other),
    {
        match (self, other) {
            (SessionStatus::Created, SessionStatus::Created) => true,
            (SessionStatus::Active, SessionStatus::Active) => true,
            (SessionStatus::Revoked, SessionStatus::Revoked) => true,
            (SessionStatus::Expired, SessionStatus::Expired) => true,
            (SessionStatus::Cleaned, SessionStatus::Cleaned) => true,
            _ => false,
        }
    }
}

/// Every status is read back from its stored text.
pub proof fn lemma_status_text_round_trip(status: SessionStatus)
    ensures
        status_of_text(status_text(status)) == status,
{
    reveal_strlit("CREATED");
    reveal_strlit("ACTIVE");
    reveal_strlit("REVOKED");
    reveal_strlit("EXPIRED");
    reveal_strlit("CLEANED");
    assert("CREATED"@[0] == 'C' && "CREATED"@[1] == 'R');
    assert("ACTIVE"@[0] == 'A');
    assert("REVOKED"@[0] == 'R');
    assert("EXPIRED"@[0] == 'E');
    assert("CLEANED"@[0] == 'C' && "CLEANED"@[1] == 'L');
}

fn clone_text(text: &Option<String>) -> (copy: Option<String>)
    ensures
        text_of(copy) == text_of(*text),
{
    match text {
        Some(t) => Some(t.clone()),
        None => None,
    }
}

impl Session {
    /// A copy of the row.
    pub fn snapshot(&self) -> (copy: Session)
        ensures
            copy@ == self@,
    {
        Session {
            id: self.id,
            parent_wallet: self.parent_wallet.clone(),
            ephemeral_wallet: self.ephemeral_wallet.clone(),
            vault_pubkey: clone_text(&self.vault_pubkey),
            status: self.status,
            session_start: self.session_start,
            session_expiry: self.session_expiry,
            last_activity: self.last_activity,
            max_deposit: self.max_deposit,
            total_deposited: self.total_deposited,
            total_spent: self.total_spent,
        }
    }

    /// The session that a stored row stands for.
    ///
    /// A status text that is none of the five reads as `Created`, and so does
    /// `ACTIVE` on a row that names no vault: what is read is always well
    /// formed.
    pub fn from_row(row: SessionRow) -> (session: Session)
        ensures
            session@ == (SessionView {
                id: row.id,
                parent_wallet: row.parent_wallet@,
                ephemeral_wallet: row.ephemeral_wallet@,
                vault_pubkey: text_of(row.vault_pubkey),
                status: status_read(row.status@, text_of(row.vault_pubkey)),
                session_start: row.session_start,
                session_expiry: row.session_expiry,
                last_activity: row.last_activity,
                max_deposit: row.max_deposit,
                total_deposited: row.total_deposited,
                total_spent: row.total_spent,
            }),
            session@.well_formed(),
    {
        let stored = SessionStatus::from_db_str(row.status.as_str());
        let status = if stored.same_as(&SessionStatus::Active) && row.vault_pubkey.is_none() {
            SessionStatus::Created
        } else {
            stored
        };
        Session {
            id: row.id,
            parent_wallet: row.parent_wallet,
            ephemeral_wallet: row.ephemeral_wallet,
            vault_pubkey: row.vault_pubkey,
            status,
            session_start: row.session_start,
            session_expiry: row.session_expiry,
            last_activity: row.last_activity,
            max_deposit: row.max_deposit,
            total_deposited: row.total_deposited,
            total_spent: row.total_spent,
        }
    }

    /// The row that the store keeps for the session.
    pub fn into_row(self) -> (row: SessionRow)
        ensures
            row.id == self.id,
            row.parent_wallet@ == self.parent_wallet@,
            row.ephemeral_wallet@ == self.ephemeral_wallet@,
            text_of(row.vault_pubkey) == text_of(self.vault_pubkey),
            row.status@ == status_text(self.status),
            row.session_start == self.session_start,
            row.session_expiry == self.session_expiry,
            row.last_activity == self.last_activity,
            row.max_deposit == self.max_deposit,
            row.total_deposited == self.total_deposited,
            row.total_spent == self.total_spent,
    {
        SessionRow {
            id: self.id,
            parent_wallet: self.parent_wallet,
            ephemeral_wallet: self.ephemeral_wallet,
            vault_pubkey: self.vault_pubkey,
            status: self.status.as_db_str().to_owned(),
            session_start: self.session_start,
            session_expiry: self.session_expiry,
            last_activity: self.last_activity,
            max_deposit: self.max_deposit,
            total_deposited: self.total_deposited,
            total_spent: self.total_spent,
        }
    }
}

/// The row of a session that was just opened at `now`.
pub open spec fn opened_session(
    session_id: u128,
    parent_wallet: Seq<char>,
    ephemeral_wallet: Seq<char>,
    now: i64,
    session_duration_secs: i64,
    max_deposit: u64,
) -> SessionView {
    SessionView {
        id: session_id,
        parent_wallet,
        ephemeral_wallet,
        vault_pubkey: None,
        status: SessionStatus::Created,
        session_start: now,
        session_expiry: (now + session_duration_secs) as i64,
        last_activity: now,
        max_deposit,
        total_deposited: 0,
        total_spent: 0,
    }
}

/// Why a session cannot be opened, if it cannot: its expiry does not fit a
/// timestamp, or the passphrase cannot be turned into a cipher key.
pub open spec fn open_session_refusal(now: i64, session_duration_secs: i64, passphrase: Seq<u8>) -> Option<
    MirrorError,
> {
    if !(i64::MIN <= now + session_duration_secs <= i64::MAX) {
        Some(MirrorError::ExpiryOverflow)
    } else if !passphrase_usable(passphrase) {
        Some(MirrorError::Codec(CodecError::InvalidAeadKey))
    } else {
        None
    }
}

/// What the rows that were read hold.
pub open spec fn view_of(row: Option<Session>) -> Option<SessionView> {
    match row {
        Some(session) => Some(session@),
        None => None,
    }
}

/// Why a transition is refused, if it is: no row was found, or the row that
/// was found does not allow it.
pub open spec fn transition_refusal(row: Option<SessionView>, allowed: bool) -> Option<MirrorError> {
    if row is None {
        Some(MirrorError::NotFound)
    } else if !allowed {
        Some(MirrorError::ConflictingState)
    } else {
        None
    }
}

/// The row where the transition is not refused, else the refusal.
pub open spec fn row_unless_refused(refusal: Option<MirrorError>, row: SessionView) -> Result<
    SessionView,
    MirrorError,
> {
    match refusal {
        Some(e) => Err(e),
        None => Ok(row),
    }
}

/// What a transition gave, by the row's contents.
pub open spec fn result_view(result: Result<Session, MirrorError>) -> Result<SessionView, MirrorError> {
    match result {
        Ok(session) => Ok(session@),
        Err(e) => Err(e),
    }
}

/// `mark_active` starts from `Created` alone.
pub open spec fn may_mark_active(session: SessionView) -> bool {
    session.status == SessionStatus::Created
}

/// `revoke` starts from every status but `Cleaned`.
pub open spec fn may_revoke(session: SessionView) -> bool {
    session.status != SessionStatus::Cleaned
}

/// `mark_expired` starts from `Active`, once the expiry is reached.
pub open spec fn may_expire(session: SessionView, now: i64) -> bool {
    session.status == SessionStatus::Active && now >= session.session_expiry
}

/// `mark_cleaned` starts from every row that names a vault and is not
/// `Cleaned` yet.
pub open spec fn may_clean(session: SessionView) -> bool {
    session.status != SessionStatus::Cleaned && session.vault_pubkey is Some
}

/// The row after `mark_active`.
pub open spec fn marked_active(session: SessionView, vault_pubkey: Seq<char>, now: i64) -> SessionView {
    SessionView {
        status: SessionStatus::Active,
        vault_pubkey: Some(vault_pubkey),
        last_activity: now,
        ..session
    }
}

/// The row after a transition that changes the status alone.
pub open spec fn moved_to(session: SessionView, status: SessionStatus, now: i64) -> SessionView {
    SessionView { status, last_activity: now, ..session }
}

/// Calls `Utc::now` and `DateTime::timestamp` of `chrono`: the seconds since
/// the Unix epoch on the system's clock. `chrono` takes the time that has
/// passed since the epoch and keeps it only as a date that it can hold, so the
/// seconds are not negative and not past its largest date. Where the system's
/// clock stands before 1970 the call does not return.
#[verifier::external_body]
fn unix_now() -> (seconds: i64)
    ensures
        0 <= seconds <= LATEST_CLOCK_SECONDS,
{
    chrono::Utc::now().timestamp()
}

/// Calls `Uuid::new_v4` and `Uuid::as_u128` of `uuid`: a random identifier.
/// Nothing is promised of the value.
#[verifier::external_body]
fn new_session_id() -> (id: u128) {
    uuid::Uuid::new_v4().as_u128()
}

/// The session mirror's rules, with the settings they depend on.
pub struct SessionManager {
    pub cfg: Config,
}

impl SessionManager {
    /// The mirror's rules under the given settings.
    pub fn new(cfg: Config) -> (manager: SessionManager)
        ensures
            manager.cfg == cfg,
    {
        SessionManager { cfg }
    }

    /// The passphrase under which ephemeral keys are sealed, as bytes.
    pub open spec fn passphrase(&self) -> Seq<u8> {
        encode_utf8(self.cfg.security.key_encryption_key@)
    }

    /// Opens a session for `parent_wallet` with the key pair, identifier and
    /// time given: seals the key pair under the service's passphrase and makes
    /// the `Created` row, which names no vault yet.
    ///
    /// The key pair ends here. What comes back holds its public identity and
    /// its sealed form, never the private key.
    pub fn open_session(
        &self,
        parent_wallet: &Address,
        ephemeral: EphemeralKeypair,
        session_id: u128,
        now: i64,
        session_duration_secs: i64,
        max_deposit: u64,
    ) -> (result: Result<CreatedSession, MirrorError>)
        ensures
            match result {
                Ok(created) => {
                    &&& open_session_refusal(now, session_duration_secs, self.passphrase()) is None
                    &&& created.ephemeral_wallet@ == ephemeral@.subrange(32, 64)
                    &&& created.session@ == opened_session(
                        session_id,
                        base58_text(parent_wallet@),
                        base58_text(ephemeral@.subrange(32, 64)),
                        now,
                        session_duration_secs,
                        max_deposit,
                    )
                    &&& created.session@.well_formed()
                    &&& created.encrypted_ephemeral_key@ == envelope_text(
                        ephemeral@,
                        self.passphrase(),
                    )
                },
                Err(e) => open_session_refusal(now, session_duration_secs, self.passphrase())
                    == Some(e),
            },
    {
        let session_expiry: i64 = match now.checked_add(session_duration_secs) {
            Some(expiry) => expiry,
            None => {
                return Err(MirrorError::ExpiryOverflow);
            },
        };
        let encrypted_ephemeral_key = match encrypt_keypair(
            &ephemeral,
            self.cfg.security.key_encryption_key.as_str(),
        ) {
            Ok(text) => text,
            Err(e) => {
                return Err(MirrorError::Codec(e));
            },
        };
        let ephemeral_wallet = ephemeral.pubkey();
        let session = Session {
            id: session_id,
            parent_wallet: parent_wallet.to_base58(),
            ephemeral_wallet: ephemeral_wallet.to_base58(),
            vault_pubkey: None,
            status: SessionStatus::Created,
            session_start: now,
            session_expiry,
            last_activity: now,
            max_deposit,
            total_deposited: 0,
            total_spent: 0,
        };
        Ok(CreatedSession { session, ephemeral_wallet, encrypted_ephemeral_key })
    }

    /// Opens a session for `parent_wallet` now, with a fresh key pair and a
    /// fresh identifier.
    ///
    /// A session whose length fits a timestamp at every time of the clock is
    /// opened, unless the passphrase cannot be turned into a cipher key. A longer
    /// one is opened or refused with `ExpiryOverflow`, as the clock decides.
    ///
    /// Whatever the clock and the random source give: the row is `Created`,
    /// names no vault, starts with nothing deposited and nothing spent, expires
    /// `session_duration_secs` after it starts, and carries the public identity
    /// of the key pair whose sealed form comes with it. The private key is not
    /// handed out.
    pub fn create_session(
        &self,
        parent_wallet: &Address,
        session_duration_secs: i64,
        max_deposit: u64,
    ) -> (result: Result<CreatedSession, MirrorError>)
        ensures
            always_fits(session_duration_secs) && passphrase_usable(self.passphrase())
                ==> result is Ok,
            always_fits(session_duration_secs) && !passphrase_usable(self.passphrase()) ==> (
            result matches Err(e) && e == MirrorError::Codec(CodecError::InvalidAeadKey)),
            match result {
                Ok(created) => {
                    &&& 0 <= created.session.session_start <= LATEST_CLOCK_SECONDS
                    &&& created.session@ == opened_session(
                        created.session.id,
                        base58_text(parent_wallet@),
                        base58_text(created.ephemeral_wallet@),
                        created.session.session_start,
                        session_duration_secs,
                        max_deposit,
                    )
                    &&& open_session_refusal(
                        created.session.session_start,
                        session_duration_secs,
                        self.passphrase(),
                    ) is None
                    &&& seals_key_of(
                        created.encrypted_ephemeral_key@,
                        created.ephemeral_wallet@,
                        self.passphrase(),
                    )
                },
                Err(e) => (e == MirrorError::ExpiryOverflow && !always_fits(
                    session_duration_secs,
                )) || (e == MirrorError::Codec(CodecError::InvalidAeadKey) && !passphrase_usable(
                    self.passphrase(),
                )),
            },
    {
        let now: i64 = unix_now();
        let ephemeral = EphemeralKeypair::generate();
        let session_id: u128 = new_session_id();
        let ghost keypair = ephemeral@;
        let result = self.open_session(
            parent_wallet,
            ephemeral,
            session_id,
            now,
            session_duration_secs,
            max_deposit,
        );
        proof {
            if result is Ok {
                assert(result->Ok_0.encrypted_ephemeral_key@ == envelope_text(
                    keypair,
                    self.passphrase(),
                ));
            }
        }
        result
    }

    /// Confirms the vault of a session: `Created` becomes `Active` and the row
    /// names the vault.
    ///
    /// A row in any other status is refused, so a confirmation that arrives
    /// late or twice cannot bring a revoked session back.
    pub fn mark_active(&self, row: Option<Session>, vault_pubkey: &Address, now: i64) -> (result:
        Result<Session, MirrorError>)
        ensures
            result_view(result) == row_unless_refused(
                transition_refusal(view_of(row), may_mark_active(view_of(row)->0)),
                marked_active(view_of(row)->0, base58_text(vault_pubkey@), now),
            ),
            result matches Ok(session) ==> session@.well_formed(),
    {
        let session = match row {
            Some(session) => session,
            None => {
                return Err(MirrorError::NotFound);
            },
        };
        if !session.status.same_as(&SessionStatus::Created) {
            return Err(MirrorError::ConflictingState);
        }
        Ok(
            Session {
                id: session.id,
                parent_wallet: session.parent_wallet,
                ephemeral_wallet: session.ephemeral_wallet,
                vault_pubkey: Some(vault_pubkey.to_base58()),
                status: SessionStatus::Active,
                session_start: session.session_start,
                session_expiry: session.session_expiry,
                last_activity: now,
                max_deposit: session.max_deposit,
                total_deposited: session.total_deposited,
                total_spent: session.total_spent,
            },
        )
    }

    /// Marks a session revoked, from every status but `Cleaned`.
    ///
    /// This is bookkeeping: it authorises nothing and revokes nothing on the
    /// ledger, which the caller does by a transaction of its own.
    pub fn revoke(&self, row: Option<Session>, now: i64) -> (result: Result<Session, MirrorError>)
        ensures
            result_view(result) == row_unless_refused(
                transition_refusal(view_of(row), may_revoke(view_of(row)->0)),
                moved_to(view_of(row)->0, SessionStatus::Revoked, now),
            ),
            result matches Ok(session) ==> session@.well_formed(),
    {
        let session = match row {
            Some(session) => session,
            None => {
                return Err(MirrorError::NotFound);
            },
        };
        if session.status.same_as(&SessionStatus::Cleaned) {
            return Err(MirrorError::ConflictingState);
        }
        Ok(
            Session {
                id: session.id,
                parent_wallet: session.parent_wallet,
                ephemeral_wallet: session.ephemeral_wallet,
                vault_pubkey: session.vault_pubkey,
                status: SessionStatus::Revoked,
                session_start: session.session_start,
                session_expiry: session.session_expiry,
                last_activity: now,
                max_deposit: session.max_deposit,
                total_deposited: session.total_deposited,
                total_spent: session.total_spent,
            },
        )
    }

    /// Marks an `Active` session expired, once `now` has reached its expiry.
    pub fn mark_expired(&self, row: Option<Session>, now: i64) -> (result: Result<
        Session,
        MirrorError,
    >)
        ensures
            result_view(result) == row_unless_refused(
                transition_refusal(view_of(row), may_expire(view_of(row)->0, now)),
                moved_to(view_of(row)->0, SessionStatus::Expired, now),
            ),
            result matches Ok(session) ==> session@.well_formed(),
    {
        let session = match row {
            Some(session) => session,
            None => {
                return Err(MirrorError::NotFound);
            },
        };
        if !session.status.same_as(&SessionStatus::Active) || now < session.session_expiry {
            return Err(MirrorError::ConflictingState);
        }
        Ok(
            Session {
                id: session.id,
                parent_wallet: session.parent_wallet,
                ephemeral_wallet: session.ephemeral_wallet,
                vault_pubkey: session.vault_pubkey,
                status: SessionStatus::Expired,
                session_start: session.session_start,
                session_expiry: session.session_expiry,
                last_activity: now,
                max_deposit: session.max_deposit,
                total_deposited: session.total_deposited,
                total_spent: session.total_spent,
            },
        )
    }

    /// Marks a session cleaned: its vault is gone from the ledger. This is
    /// the last status of a row.
    pub fn mark_cleaned(&self, row: Option<Session>, now: i64) -> (result: Result<
        Session,
        MirrorError,
    >)
        ensures
            result_view(result) == row_unless_refused(
                transition_refusal(view_of(row), may_clean(view_of(row)->0)),
                moved_to(view_of(row)->0, SessionStatus::Cleaned, now),
            ),
            result matches Ok(session) ==> session@.well_formed(),
    {
        let session = match row {
            Some(session) => session,
            None => {
                return Err(MirrorError::NotFound);
            },
        };
        if session.status.same_as(&SessionStatus::Cleaned) || session.vault_pubkey.is_none() {
            return Err(MirrorError::ConflictingState);
        }
        Ok(
            Session {
                id: session.id,
                parent_wallet: session.parent_wallet,
                ephemeral_wallet: session.ephemeral_wallet,
                vault_pubkey: session.vault_pubkey,
                status: SessionStatus::Cleaned,
                session_start: session.session_start,
                session_expiry: session.session_expiry,
                last_activity: now,
                max_deposit: session.max_deposit,
                total_deposited: session.total_deposited,
                total_spent: session.total_spent,
            },
        )
    }

    /// What `get` reads from the row that the store found.
    pub open spec fn get_spec(&self, row: Option<SessionRow>) -> Option<SessionView> {
        match row {
            Some(r) => Some(
                SessionView {
                    id: r.id,
                    parent_wallet: r.parent_wallet@,
                    ephemeral_wallet: r.ephemeral_wallet@,
                    vault_pubkey: text_of(r.vault_pubkey),
                    status: status_read(r.status@, text_of(r.vault_pubkey)),
                    session_start: r.session_start,
                    session_expiry: r.session_expiry,
                    last_activity: r.last_activity,
                    max_deposit: r.max_deposit,
                    total_deposited: r.total_deposited,
                    total_spent: r.total_spent,
                },
            ),
            None => None,
        }
    }

    /// The session of the row that the store found, if it found one. Its
    /// totals are a copy of the ledger's as of the last refresh.
    pub fn get(&self, row: Option<SessionRow>) -> (session: Option<Session>)
        ensures
            view_of(session) == self.get_spec(row),
            session matches Some(s) ==> s@.well_formed(),
    {
        match row {
            Some(row) => Some(Session::from_row(row)),
            None => None,
        }
    }
}

/// One transition of a row, with what it is given.
pub enum MirrorCall {
    MarkActive { vault_pubkey: Seq<char>, now: i64 },
    Revoke { now: i64 },
    MarkExpired { now: i64 },
    MarkCleaned { now: i64 },
}

/// The row after one transition was asked for: moved where the transition is
/// allowed, untouched where it is refused.
pub open spec fn mirror_step(session: SessionView, call: MirrorCall) -> SessionView {
    match call {
        MirrorCall::MarkActive { vault_pubkey, now } => if may_mark_active(session) {
            marked_active(session, vault_pubkey, now)
        } else {
            session
        },
        MirrorCall::Revoke { now } => if may_revoke(session) {
            moved_to(session, SessionStatus::Revoked, now)
        } else {
            session
        },
        MirrorCall::MarkExpired { now } => if may_expire(session, now) {
            moved_to(session, SessionStatus::Expired, now)
        } else {
            session
        },
        MirrorCall::MarkCleaned { now } => if may_clean(session) {
            moved_to(session, SessionStatus::Cleaned, now)
        } else {
            session
        },
    }
}

/// The row after a history of transitions, asked for in order.
pub open spec fn mirror_run(session: SessionView, calls: Seq<MirrorCall>) -> SessionView
    decreases calls.len(),
{
    if calls.len() == 0 {
        session
    } else {
        mirror_step(mirror_run(session, calls.drop_last()), calls.last())
    }
}

/// Whether the session has left `Created` and `Active` behind.
pub open spec fn is_over(session: SessionView) -> bool {
    session.status == SessionStatus::Revoked || session.status == SessionStatus::Expired
        || session.status == SessionStatus::Cleaned
}

/// A well-formed row stays well formed: after no history does it claim
/// `Active` without naming a vault.
pub proof fn lemma_mirror_stays_well_formed(session: SessionView, calls: Seq<MirrorCall>)
    requires
        session.well_formed(),
    ensures
        mirror_run(session, calls).well_formed(),
    decreases calls.len(),
{
    if calls.len() > 0 {
        lemma_mirror_stays_well_formed(session, calls.drop_last());
    }
}

/// A session that was revoked, expired or cleaned never becomes `Active`
/// again, whatever confirmation arrives.
pub proof fn lemma_session_that_is_over_stays_over(session: SessionView, calls: Seq<MirrorCall>)
    requires
        is_over(session),
    ensures
        is_over(mirror_run(session, calls)),
    decreases calls.len(),
{
    if calls.len() > 0 {
        lemma_session_that_is_over_stays_over(session, calls.drop_last());
    }
}

/// Where a confirmation and a revocation of a `Created` session are both
/// asked for, the session ends up `Revoked` in whichever order they are
/// applied: the one that comes second sees what the first has done.
pub proof fn lemma_revocation_wins_over_confirmation(
    session: SessionView,
    vault_pubkey: Seq<char>,
    confirmed_at: i64,
    revoked_at: i64,
)
    requires
        session.status == SessionStatus::Created,
    ensures
        mirror_run(
            session,
            seq![
                MirrorCall::MarkActive { vault_pubkey, now: confirmed_at },
                MirrorCall::Revoke { now: revoked_at },
            ],
        ).status == SessionStatus::Revoked,
        mirror_run(
            session,
            seq![
                MirrorCall::Revoke { now: revoked_at },
                MirrorCall::MarkActive { vault_pubkey, now: confirmed_at },
            ],
        ) == moved_to(session, SessionStatus::Revoked, revoked_at),
{
    let confirm = MirrorCall::MarkActive { vault_pubkey, now: confirmed_at };
    let revoke = MirrorCall::Revoke { now: revoked_at };
    let first = seq![confirm, revoke];
    let second = seq![revoke, confirm];
    assert(first.drop_last() =~= seq![confirm]);
    assert(first.drop_last().drop_last() =~= Seq::<MirrorCall>::empty());
    assert(second.drop_last() =~= seq![revoke]);
    assert(second.drop_last().drop_last() =~= Seq::<MirrorCall>::empty());
    reveal_with_fuel(mirror_run, 3);
}

/// `Cleaned` is final: no transition changes a cleaned row.
pub proof fn lemma_cleaned_is_final(session: SessionView, calls: Seq<MirrorCall>)
    requires
        session.status == SessionStatus::Cleaned,
    ensures
        mirror_run(session, calls) == session,
    decreases calls.len(),
{
    if calls.len() > 0 {
        lemma_cleaned_is_final(session, calls.drop_last());
    }
}

} // verus!
