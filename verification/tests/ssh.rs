use std::collections::HashMap;

use uuid::Uuid;
use warpgate_tunnel::span::Span;
use warpgate_tunnel::ssh_auth::{
    collect_all, first_key_query, hop_inactivity_timeout, host_key_needs_check, host_key_verdict,
    next_key_query, ssh_auth_step, HostKeyMode, HostKeyVerdict, KeyQuery, KnownHostCheck,
    SshAuthAction, SshAuthEvent, SshAuthMethod, SshAuthState,
};
use warpgate_tunnel::ssh_chain::{resolve_chain, resolve_chain_ids, ChainError, TargetSummary};
use warpgate_tunnel::ssh_config::{
    ssh_algorithm_policy, ssh_gex_bounds, CipherAlgorithm, KexAlgorithm, KeyAlgorithm, MacAlgorithm,
};

#[test]
fn resolve_chain_ids_returns_ordered_chain() {
    let (a, b, c) = (Uuid::new_v4().as_u128(), Uuid::new_v4().as_u128(), Uuid::new_v4().as_u128());
    // a -> b -> c -> (end)
    let jumps: HashMap<u128, Option<u128>> = HashMap::from([(a, Some(b)), (b, Some(c)), (c, None)]);
    let ids = resolve_chain_ids(a, |id| jumps.get(&id).copied()).unwrap();
    assert_eq!(ids, vec![a, b, c]);
}

#[test]
fn resolve_chain_ids_detects_cycle() {
    let (a, b) = (Uuid::new_v4().as_u128(), Uuid::new_v4().as_u128());
    let jumps: HashMap<u128, Option<u128>> = HashMap::from([(a, Some(b)), (b, Some(a))]);
    assert!(resolve_chain_ids(a, |id| jumps.get(&id).copied()).is_err());
}

#[test]
fn resolve_chain_ids_rejects_unresolvable_jump_host() {
    let (a, b) = (Uuid::new_v4().as_u128(), Uuid::new_v4().as_u128());
    // `a` jumps through `b`, but `b` resolves to no SSH target.
    let jumps: HashMap<u128, Option<u128>> = HashMap::from([(a, Some(b))]);
    assert!(resolve_chain_ids(a, |id| jumps.get(&id).copied()).is_err());
}

#[test]
fn resolve_chain_ids_names_the_failing_target() {
    let jumps: HashMap<u128, Option<u128>> = HashMap::from([(1, Some(2)), (2, Some(3)), (3, Some(2))]);
    assert_eq!(resolve_chain_ids(1, |id| jumps.get(&id).copied()), Err(ChainError::Cycle(2)));
    let jumps: HashMap<u128, Option<u128>> = HashMap::from([(1, Some(1))]);
    assert_eq!(resolve_chain_ids(1, |id| jumps.get(&id).copied()), Err(ChainError::Cycle(1)));
    let jumps: HashMap<u128, Option<u128>> = HashMap::from([(1, Some(2))]);
    assert_eq!(resolve_chain_ids(1, |id| jumps.get(&id).copied()), Err(ChainError::Unresolvable(2)));
    assert_eq!(resolve_chain_ids(7, |_| None), Err(ChainError::Unresolvable(7)));
    assert_eq!(resolve_chain_ids(7, |_| Some(None)), Ok(vec![7]));
}

fn ssh(id: u128, jump: Option<u128>) -> TargetSummary {
    TargetSummary { id, ssh_jump_host: Some(jump) }
}

#[test]
fn resolve_chain_orders_outermost_hop_first() {
    let targets = vec![
        ssh(10, Some(20)),
        TargetSummary { id: 99, ssh_jump_host: None },
        ssh(30, None),
        ssh(20, Some(30)),
    ];
    // 10 jumps through 20, which jumps through 30: dial 30, then 20, then 10.
    assert_eq!(resolve_chain(&targets, 10), Ok(vec![2, 3, 0]));
    assert_eq!(resolve_chain(&targets, 30), Ok(vec![2]));
    assert_eq!(resolve_chain(&targets, 99), Err(ChainError::Unresolvable(99)));
    assert_eq!(resolve_chain(&targets, 5), Err(ChainError::Unresolvable(5)));
}

#[test]
fn resolve_chain_uses_the_first_target_with_an_id() {
    let targets = vec![ssh(1, Some(2)), ssh(2, None), ssh(2, Some(1))];
    assert_eq!(resolve_chain(&targets, 1), Ok(vec![1, 0]));
    let cyclic = vec![ssh(1, Some(2)), ssh(2, Some(1))];
    assert_eq!(resolve_chain(&cyclic, 1), Err(ChainError::Cycle(1)));
    let dangling = vec![ssh(1, Some(2)), TargetSummary { id: 2, ssh_jump_host: None }];
    assert_eq!(resolve_chain(&dangling, 1), Err(ChainError::Unresolvable(2)));
}

#[test]
fn host_keys_are_checked_against_the_policy() {
    assert!(!host_key_needs_check(HostKeyMode::Ignore));
    assert!(host_key_needs_check(HostKeyMode::Prompt));
    assert_eq!(host_key_verdict(HostKeyMode::Ignore, KnownHostCheck::Invalid), HostKeyVerdict::Accept);
    for mode in [HostKeyMode::AutoAccept, HostKeyMode::AutoReject, HostKeyMode::Prompt] {
        assert_eq!(host_key_verdict(mode, KnownHostCheck::Valid), HostKeyVerdict::Accept);
        assert_eq!(host_key_verdict(mode, KnownHostCheck::Invalid), HostKeyVerdict::Mismatch);
    }
    assert_eq!(host_key_verdict(HostKeyMode::AutoAccept, KnownHostCheck::Unknown), HostKeyVerdict::TrustAndAccept);
    assert_eq!(host_key_verdict(HostKeyMode::AutoReject, KnownHostCheck::Unknown), HostKeyVerdict::Reject);
    assert_eq!(
        host_key_verdict(HostKeyMode::Prompt, KnownHostCheck::Unknown),
        HostKeyVerdict::UnknownRequiresPrompt
    );
}

#[test]
fn client_keys_fall_back_to_defaults_then_all() {
    assert_eq!(first_key_query(Some(5)), KeyQuery::ById(5));
    assert_eq!(first_key_query(None), KeyQuery::Defaults);
    assert_eq!(next_key_query(KeyQuery::ById(5), 1), None);
    assert_eq!(next_key_query(KeyQuery::ById(5), 0), Some(KeyQuery::Defaults));
    assert_eq!(next_key_query(KeyQuery::Defaults, 2), None);
    assert_eq!(next_key_query(KeyQuery::Defaults, 0), Some(KeyQuery::AllOrdered));
    assert_eq!(next_key_query(KeyQuery::AllOrdered, 0), None);
}

#[test]
fn password_authentication_steps() {
    let (s, a) = ssh_auth_step(SshAuthState::Start, SshAuthEvent::Begin(SshAuthMethod::Password), "db.internal", 22);
    assert_eq!((s, a), (SshAuthState::AwaitPassword, SshAuthAction::SendPassword));
    let (s2, a2) = ssh_auth_step(s, SshAuthEvent::PasswordAnswered { accepted: true }, "db.internal", 22);
    assert_eq!((s2, a2), (SshAuthState::Done, SshAuthAction::Authenticated));
    let (s3, a3) = ssh_auth_step(s, SshAuthEvent::PasswordAnswered { accepted: false }, "db.internal", 22);
    assert_eq!(s3, SshAuthState::Failed);
    assert_eq!(a3, SshAuthAction::Fail("password authentication to db.internal:22 was rejected".to_string()));
}

#[test]
fn public_key_authentication_tries_each_key() {
    let host = "10.0.0.5";
    let (s, a) = ssh_auth_step(SshAuthState::Start, SshAuthEvent::Begin(SshAuthMethod::PublicKey), host, 2222);
    assert_eq!((s, a), (SshAuthState::AwaitKeys, SshAuthAction::LoadKeys));
    let (none_state, none_action) = ssh_auth_step(s, SshAuthEvent::KeysLoaded(0), host, 2222);
    assert_eq!(none_state, SshAuthState::Failed);
    assert_eq!(none_action, SshAuthAction::Fail("no SSH client keys are configured".to_string()));
    let (s, a) = ssh_auth_step(s, SshAuthEvent::KeysLoaded(2), host, 2222);
    assert_eq!((s, a), (SshAuthState::AwaitKey { index: 0, count: 2 }, SshAuthAction::OfferKey(0)));
    let (s, a) = ssh_auth_step(s, SshAuthEvent::KeyAnswered { accepted: false }, host, 2222);
    assert_eq!((s, a), (SshAuthState::AwaitKey { index: 1, count: 2 }, SshAuthAction::OfferKey(1)));
    let (ok_state, ok_action) = ssh_auth_step(s, SshAuthEvent::KeyAnswered { accepted: true }, host, 2222);
    assert_eq!((ok_state, ok_action), (SshAuthState::Done, SshAuthAction::Authenticated));
    let (s, a) = ssh_auth_step(s, SshAuthEvent::KeyAnswered { accepted: false }, host, 2222);
    assert_eq!(s, SshAuthState::Failed);
    assert_eq!(a, SshAuthAction::Fail("public key authentication to 10.0.0.5:2222 was rejected".to_string()));
}

#[test]
fn iam_role_authentication_is_refused() {
    let (s, a) = ssh_auth_step(SshAuthState::Start, SshAuthEvent::Begin(SshAuthMethod::IamRole), "h", 0);
    assert_eq!(s, SshAuthState::Failed);
    assert_eq!(
        a,
        SshAuthAction::Fail(
            "IAM-role SSH authentication is not yet supported for connect_via tunnels (target h:0)".to_string()
        )
    );
}

#[test]
fn hop_inactivity_timeout_adds_ten_seconds() {
    assert_eq!(hop_inactivity_timeout(Span::from_secs(300)), Span::from_secs(310));
    assert_eq!(
        hop_inactivity_timeout(Span { secs: 1, nanos: 5 }),
        Span { secs: 11, nanos: 5 }
    );
}

#[test]
fn legacy_algorithms_are_allowed_only_on_request() {
    assert!(ssh_algorithm_policy(false).is_none());
    let lists = ssh_algorithm_policy(true).unwrap();
    assert_eq!(lists.kex.len(), 14);
    assert_eq!(lists.kex[0], KexAlgorithm::MlKem768X25519Sha256);
    assert!(lists.kex.contains(&KexAlgorithm::DhG1Sha1));
    assert_eq!(lists.key.last(), Some(&KeyAlgorithm::Dsa));
    assert_eq!(lists.cipher.last(), Some(&CipherAlgorithm::TripleDesCbc));
    assert_eq!(lists.mac, vec![
        MacAlgorithm::HmacSha512Etm,
        MacAlgorithm::HmacSha256Etm,
        MacAlgorithm::HmacSha512,
        MacAlgorithm::HmacSha256,
        MacAlgorithm::HmacSha1Etm,
        MacAlgorithm::HmacSha1,
    ]);
    assert_eq!(ssh_gex_bounds(true), Some((2048, 2048, 8192)));
    assert_eq!(ssh_gex_bounds(false), None);
}

#[test]
fn decoded_keys_are_collected_all_or_nothing() {
    let all: Vec<Result<u8, &str>> = vec![Ok(1), Ok(2), Ok(3)];
    assert_eq!(collect_all(all), Ok(vec![1, 2, 3]));
    let broken: Vec<Result<u8, &str>> = vec![Ok(1), Err("bad key"), Err("worse key")];
    assert_eq!(collect_all(broken), Err("bad key"));
    assert_eq!(collect_all(Vec::<Result<u8, &str>>::new()), Ok(vec![]));
}

#[test]
fn missing_chosen_key_falls_back_to_every_key_without_defaults() {
    // The chosen key is gone and no key is flagged default.
    let q0 = first_key_query(Some(7));
    assert_eq!(q0, KeyQuery::ById(7));
    let q1 = next_key_query(q0, 0).unwrap();
    assert_eq!(q1, KeyQuery::Defaults);
    let q2 = next_key_query(q1, 0).unwrap();
    assert_eq!(q2, KeyQuery::AllOrdered);
    assert_eq!(next_key_query(q2, 3), None);
    // A chosen key that exists is used alone.
    assert_eq!(next_key_query(first_key_query(Some(7)), 1), None);
}
