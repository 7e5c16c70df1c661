use ephemeral_vault::address::Address;
use ephemeral_vault::api::approve_session;
use ephemeral_vault::api::create_session;
use ephemeral_vault::api::health;
use ephemeral_vault::api::next_feed_action;
use ephemeral_vault::api::FeedAction;
use ephemeral_vault::api::FeedEvent;
use ephemeral_vault::api::revoke_session;
use ephemeral_vault::api::session_opened;
use ephemeral_vault::api::session_status;
use ephemeral_vault::api::ApproveSessionRequest;
use ephemeral_vault::api::CreateSessionRequest;
use ephemeral_vault::api::RevokeSessionRequest;
use ephemeral_vault::api::SessionEvent;
use ephemeral_vault::api::StatusCode;
use ephemeral_vault::config::Config;
use ephemeral_vault::config::Variables;
use ephemeral_vault::custody::decrypt_keypair;
use ephemeral_vault::session_manager::MirrorError;
use ephemeral_vault::session_manager::Session;
use ephemeral_vault::session_manager::SessionManager;
use ephemeral_vault::session_manager::SessionStatus;

const NOW: i64 = 1_700_000_000;

fn manager() -> SessionManager {
    let vars = Variables {
        listen_addr: None,
        database_url: Some("postgres://db/evs".to_string()),
        database_max_connections: None,
        solana_rpc_url: None,
        solana_ws_url: None,
        solana_commitment: None,
        key_encryption_key: Some("kek".to_string()),
        jwt_secret: Some("jwt".to_string()),
        rate_limit_sessions_per_minute: None,
    };
    SessionManager::new(Config::from_vars(vars).unwrap())
}

fn parent() -> Address {
    Address::new([1u8; 32])
}

fn vault() -> Address {
    Address::new([5u8; 32])
}

fn created() -> Session {
    let req = CreateSessionRequest {
        parent_wallet: parent().to_base58(),
        session_duration_secs: 3600,
        max_deposit_lamports: 100_000,
    };
    create_session(&manager(), &req).unwrap().response.session
}

#[test]
fn status_numbers() {
    assert_eq!(StatusCode::Success.as_u16(), 200);
    assert_eq!(StatusCode::Accepted.as_u16(), 202);
    assert_eq!(StatusCode::BadRequest.as_u16(), 400);
    assert_eq!(StatusCode::NotFound.as_u16(), 404);
    assert_eq!(StatusCode::Conflict.as_u16(), 409);
    assert_eq!(StatusCode::InternalServerError.as_u16(), 500);
    assert_eq!(health(), StatusCode::Success);
}

#[test]
fn refusals_and_their_statuses() {
    assert_eq!(StatusCode::of_refusal(MirrorError::NotFound), StatusCode::NotFound);
    assert_eq!(StatusCode::of_refusal(MirrorError::ConflictingState), StatusCode::Conflict);
    assert_eq!(StatusCode::of_refusal(MirrorError::ExpiryOverflow), StatusCode::InternalServerError);
    assert_eq!(session_opened(Err(MirrorError::ExpiryOverflow)).err(), Some(StatusCode::InternalServerError));
}

#[test]
fn create_session_answers_with_the_row_and_the_identity() {
    let req = CreateSessionRequest {
        parent_wallet: parent().to_base58(),
        session_duration_secs: 3600,
        max_deposit_lamports: 100_000,
    };
    let opened = create_session(&manager(), &req).unwrap();
    let session = &opened.response.session;
    assert_eq!(session.status, SessionStatus::Created);
    assert_eq!(session.vault_pubkey, None);
    assert_eq!(session.parent_wallet, parent().to_base58());
    assert_eq!(session.ephemeral_wallet, opened.response.ephemeral_wallet);
    assert_eq!(session.session_expiry, session.session_start + 3600);
    assert_eq!(session.max_deposit, 100_000);
    assert_eq!(opened.event, SessionEvent::Created(session.clone()));
    let keypair = decrypt_keypair(&opened.encrypted_ephemeral_key, "kek").unwrap();
    assert_eq!(keypair.pubkey().to_base58(), opened.response.ephemeral_wallet);
}

#[test]
fn create_session_with_a_bad_parent_is_a_bad_request() {
    let req = CreateSessionRequest {
        parent_wallet: "no address".to_string(),
        session_duration_secs: 3600,
        max_deposit_lamports: 100_000,
    };
    assert_eq!(create_session(&manager(), &req).err(), Some(StatusCode::BadRequest));
}

#[test]
fn approve_session_confirms_and_announces() {
    let req = ApproveSessionRequest { session_id: 1, vault_pubkey: vault().to_base58() };
    let before = created();
    let moved = approve_session(&manager(), &req, Some(before.clone()), NOW).unwrap();
    let mut expected = before;
    expected.status = SessionStatus::Active;
    expected.vault_pubkey = Some(vault().to_base58());
    expected.last_activity = NOW;
    assert_eq!(moved.session, expected);
    assert_eq!(moved.event, SessionEvent::Active(expected.clone()));

    assert_eq!(
        approve_session(&manager(), &req, Some(expected), NOW + 1).err(),
        Some(StatusCode::Conflict)
    );
    assert_eq!(approve_session(&manager(), &req, None, NOW).err(), Some(StatusCode::NotFound));
}

#[test]
fn approve_session_with_a_bad_vault_is_a_bad_request() {
    let req = ApproveSessionRequest { session_id: 1, vault_pubkey: "???".to_string() };
    assert_eq!(
        approve_session(&manager(), &req, Some(created()), NOW).err(),
        Some(StatusCode::BadRequest)
    );
    assert_eq!(approve_session(&manager(), &req, None, NOW).err(), Some(StatusCode::BadRequest));
}

#[test]
fn revoke_session_moves_and_announces() {
    let req = RevokeSessionRequest { session_id: 1 };
    let before = created();
    let moved = revoke_session(&manager(), &req, Some(before.clone()), NOW).unwrap();
    let mut expected = before;
    expected.status = SessionStatus::Revoked;
    expected.last_activity = NOW;
    assert_eq!(moved.session, expected);
    assert_eq!(moved.event, SessionEvent::Revoked(expected.clone()));
    assert_eq!(revoke_session(&manager(), &req, None, NOW).err(), Some(StatusCode::NotFound));
    let mut cleaned = expected;
    cleaned.status = SessionStatus::Cleaned;
    assert_eq!(
        revoke_session(&manager(), &req, Some(cleaned), NOW).err(),
        Some(StatusCode::Conflict)
    );
    let approve = ApproveSessionRequest { session_id: 1, vault_pubkey: vault().to_base58() };
    assert_eq!(
        approve_session(&manager(), &approve, Some(moved.session), NOW + 1).err(),
        Some(StatusCode::Conflict)
    );
}

#[test]
fn session_status_reads_the_row() {
    let session = created();
    assert_eq!(session_status(&manager(), Some(session.clone().into_row())), Ok(session));
    assert_eq!(session_status(&manager(), None), Err(StatusCode::NotFound));
}

#[test]
fn feed_goes_on_while_the_subscriber_keeps_up() {
    assert_eq!(next_feed_action(FeedEvent::Delivered), FeedAction::Continue);
    assert_eq!(next_feed_action(FeedEvent::Unwritable), FeedAction::Continue);
    assert_eq!(next_feed_action(FeedEvent::Lagged), FeedAction::Stop);
    assert_eq!(next_feed_action(FeedEvent::Unreachable), FeedAction::Stop);
    assert_eq!(next_feed_action(FeedEvent::Closed), FeedAction::Stop);
}
