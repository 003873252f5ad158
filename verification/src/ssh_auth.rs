//! The decisions of a headless SSH tunnel hop: verifying the server's host
//! key against the known-hosts policy, choosing which client keys to offer,
//! and walking through password or public-key authentication.
use vstd::prelude::*;

use crate::span::Span;
use crate::text::{decimal, push_decimal, push_str};

verus! {

/// The configured host-key verification policy.
#[derive(Clone, Copy, Debug, PartialEq, Eq, Structural)]
pub enum HostKeyMode {
    Ignore,
    AutoAccept,
    AutoReject,
    Prompt,
}

/// What the known-hosts store says of the server's key.
#[derive(Clone, Copy, Debug, PartialEq, Eq, Structural)]
pub enum KnownHostCheck {
    Valid,
    Invalid,
    Unknown,
}

/// The outcome of host-key verification.
#[derive(Clone, Copy, Debug, PartialEq, Eq, Structural)]
pub enum HostKeyVerdict {
    /// Accept the key.
    Accept,
    /// Record the key as known, then accept it.
    TrustAndAccept,
    /// Refuse the key (the connection is rejected).
    Reject,
    /// Fail: the key differs from the one on record.
    Mismatch,
    /// Fail: the key is unknown and the policy asks a user, whom a tunnel
    /// dial does not have.
    UnknownRequiresPrompt,
}

/// Whether the known-hosts store must be consulted: every policy but
/// `Ignore` checks the key.
pub fn host_key_needs_check(mode: HostKeyMode) -> (r: bool)
    ensures
        r == (mode != HostKeyMode::Ignore),
{
    !matches!(mode, HostKeyMode::Ignore)
}

/// The verdict on a server key under `mode`, given what the known-hosts
/// store says of it.
pub open spec fn spec_host_key_verdict(mode: HostKeyMode, check: KnownHostCheck) -> HostKeyVerdict {
    if mode == HostKeyMode::Ignore {
        HostKeyVerdict::Accept
    } else {
        match check {
            KnownHostCheck::Valid => HostKeyVerdict::Accept,
            KnownHostCheck::Invalid => HostKeyVerdict::Mismatch,
            KnownHostCheck::Unknown => match mode {
                HostKeyMode::AutoAccept => HostKeyVerdict::TrustAndAccept,
                HostKeyMode::AutoReject => HostKeyVerdict::Reject,
                _ => HostKeyVerdict::UnknownRequiresPrompt,
            },
        }
    }
}

/// Verifies the server's host key against the same known-hosts store and
/// global verification policy interactive SSH sessions use, but - having no
/// user to prompt - fails closed instead of asking when the policy is
/// `Prompt` and the key is unknown.
pub fn host_key_verdict(mode: HostKeyMode, check: KnownHostCheck) -> (r: HostKeyVerdict)
    ensures
        r == spec_host_key_verdict(mode, check),
{
    if matches!(mode, HostKeyMode::Ignore) {
        return HostKeyVerdict::Accept;
    }
    match check {
        KnownHostCheck::Valid => HostKeyVerdict::Accept,
        KnownHostCheck::Invalid => HostKeyVerdict::Mismatch,
        KnownHostCheck::Unknown => match mode {
            HostKeyMode::AutoAccept => HostKeyVerdict::TrustAndAccept,
            HostKeyMode::AutoReject => HostKeyVerdict::Reject,
            _ => HostKeyVerdict::UnknownRequiresPrompt,
        },
    }
}

/// A key that differs from the one on record is never accepted unless
/// verification is off; an unknown key is recorded only under
/// `AutoAccept`, where it always is; an unknown key is refused exactly under
/// `AutoReject`; under `Prompt` an unknown key always fails the dial.
pub proof fn law_host_key_fails_closed(mode: HostKeyMode, check: KnownHostCheck)
    ensures
        mode != HostKeyMode::Ignore && check == KnownHostCheck::Invalid ==> spec_host_key_verdict(
            mode,
            check,
        ) == HostKeyVerdict::Mismatch,
        spec_host_key_verdict(mode, check) == HostKeyVerdict::TrustAndAccept ==> mode
            == HostKeyMode::AutoAccept && check == KnownHostCheck::Unknown,
        mode == HostKeyMode::Prompt && check == KnownHostCheck::Unknown ==> spec_host_key_verdict(
            mode,
            check,
        ) == HostKeyVerdict::UnknownRequiresPrompt,
        (spec_host_key_verdict(mode, check) == HostKeyVerdict::Accept) == (mode == HostKeyMode::Ignore
            || check == KnownHostCheck::Valid),
        spec_host_key_verdict(HostKeyMode::AutoAccept, KnownHostCheck::Unknown)
            == HostKeyVerdict::TrustAndAccept,
        spec_host_key_verdict(HostKeyMode::AutoReject, KnownHostCheck::Unknown)
            == HostKeyVerdict::Reject,
        spec_host_key_verdict(mode, check) == HostKeyVerdict::Reject ==> mode == HostKeyMode::AutoReject
            && check == KnownHostCheck::Unknown,
{
}

/// A query for stored SSH client keys.
#[derive(Clone, Copy, Debug, PartialEq, Eq, Structural)]
pub enum KeyQuery {
    /// The key with this id.
    ById(u128),
    /// The keys flagged as default.
    Defaults,
    /// Every key, in order.
    AllOrdered,
}

/// The first query for the keys to offer a target: its chosen key, or the
/// default set.
pub fn first_key_query(key_id: Option<u128>) -> (q: KeyQuery)
    ensures
        q == (match key_id {
            Some(id) => KeyQuery::ById(id),
            None => KeyQuery::Defaults,
        }),
{
    match key_id {
        Some(id) => KeyQuery::ById(id),
        None => KeyQuery::Defaults,
    }
}

/// What to do after a query found `found` keys: `None` to use what it
/// found, or the query to run instead. A chosen key that no longer exists
/// falls back to the default set; when no key is flagged default, every key
/// is offered, so clearing every default never locks targets out.
pub open spec fn spec_next_key_query(query: KeyQuery, found: nat) -> Option<KeyQuery> {
    if found > 0 {
        None
    } else {
        match query {
            KeyQuery::ById(_) => Some(KeyQuery::Defaults),
            KeyQuery::Defaults => Some(KeyQuery::AllOrdered),
            KeyQuery::AllOrdered => None,
        }
    }
}

/// The query to run after `query` found `found` keys, if any.
pub fn next_key_query(query: KeyQuery, found: usize) -> (r: Option<KeyQuery>)
    ensures
        r == spec_next_key_query(query, found as nat),
{
    if found > 0 {
        return None;
    }
    match query {
        KeyQuery::ById(_) => Some(KeyQuery::Defaults),
        KeyQuery::Defaults => Some(KeyQuery::AllOrdered),
        KeyQuery::AllOrdered => None,
    }
}

/// Key selection runs at most three queries and never queries the same
/// thing twice: by id, then defaults, then all keys.
pub proof fn law_key_queries_terminate(key_id: u128, found: nat)
    ensures
        spec_next_key_query(KeyQuery::AllOrdered, found) is None,
        spec_next_key_query(KeyQuery::Defaults, found) matches Some(q) ==> q == KeyQuery::AllOrdered,
        spec_next_key_query(KeyQuery::ById(key_id), found) matches Some(q) ==> q
            == KeyQuery::Defaults,
{
}

/// The number of keys `query` finds, given what each query finds: the
/// chosen key (`by_id`, 0 or 1), the default-flagged keys, every key.
pub open spec fn found_by(query: KeyQuery, by_id: nat, defaults: nat, all: nat) -> nat {
    match query {
        KeyQuery::ById(_) => by_id,
        KeyQuery::Defaults => defaults,
        KeyQuery::AllOrdered => all,
    }
}

/// The query whose keys a target is offered: the chosen key where it
/// exists, else the default-flagged keys where there are any, else every
/// key.
pub open spec fn spec_selected_key_query(key_id: Option<u128>, by_id: nat, defaults: nat) -> KeyQuery {
    if key_id is Some && by_id > 0 {
        KeyQuery::ById(key_id->0)
    } else if defaults > 0 {
        KeyQuery::Defaults
    } else {
        KeyQuery::AllOrdered
    }
}

/// The queries from `first_key_query` on, each run after the last found
/// nothing, stop within three queries at the selected one: a chosen key
/// that exists is used alone; otherwise the default set; and when no key is
/// flagged default, every key, so clearing every default never locks
/// targets out.
pub proof fn law_key_selection(key_id: Option<u128>, by_id: nat, defaults: nat, all: nat)
    ensures
        ({
            let q0 = match key_id {
                Some(id) => KeyQuery::ById(id),
                None => KeyQuery::Defaults,
            };
            let sel = spec_selected_key_query(key_id, by_id, defaults);
            match spec_next_key_query(q0, found_by(q0, by_id, defaults, all)) {
                None => q0 == sel,
                Some(q1) => match spec_next_key_query(q1, found_by(q1, by_id, defaults, all)) {
                    None => q1 == sel,
                    Some(q2) => q2 == sel && spec_next_key_query(q2, found_by(q2, by_id, defaults, all)) is None,
                },
            }
        }),
{
}

/// Collects decoded keys all or nothing: every value in order where every
/// decoding succeeded, else the first error (never a partial list).
pub fn collect_all<T, E>(results: Vec<Result<T, E>>) -> (r: Result<Vec<T>, E>)
    ensures
        r is Ok <==> forall|i: int| 0 <= i < results@.len() ==> results@[i] is Ok,
        r matches Ok(v) ==> v@.len() == results@.len() && forall|i: int|
            0 <= i < results@.len() ==> results@[i] == Ok::<T, E>(#[trigger] v@[i]),
        r matches Err(e) ==> exists|i: int|
            0 <= i < results@.len() && results@[i] == Err::<T, E>(e) && forall|j: int|
                0 <= j < i ==> #[trigger] results@[j] is Ok,
{
    let ghost all = results@;
    let mut rest = results;
    let mut out: Vec<T> = Vec::new();
    while rest.len() > 0
        invariant
            all == results@,
            out@.len() + rest@.len() == all.len(),
            rest@ == all.skip(out@.len() as int),
            forall|i: int| 0 <= i < out@.len() ==> all[i] == Ok::<T, E>(#[trigger] out@[i]),
        decreases rest@.len(),
    {
        let ghost k = out@.len() as int;
        assert(all[k] == rest@[0]);
        match rest.remove(0) {
            Ok(v) => {
                out.push(v);
                assert(rest@ == all.skip(out@.len() as int));
            },
            Err(e) => {
                assert(all[k] == Err::<T, E>(e));
                assert forall|j: int| 0 <= j < k implies #[trigger] all[j] is Ok by {
                    assert(all[j] == Ok::<T, E>(out@[j]));
                }
                return Err(e);
            },
        }
    }
    assert forall|i: int| 0 <= i < all.len() implies #[trigger] all[i] is Ok by {
        assert(all[i] == Ok::<T, E>(out@[i]));
    }
    Ok(out)
}

/// How a hop authenticates, as configured on its SSH target.
#[derive(Clone, Copy, Debug, PartialEq, Eq, Structural)]
pub enum SshAuthMethod {
    Password,
    PublicKey,
    IamRole,
}

/// Where authentication of a hop stands.
#[derive(Clone, Copy, Debug, PartialEq, Eq, Structural)]
pub enum SshAuthState {
    /// Nothing done yet.
    Start,
    /// The password was sent.
    AwaitPassword,
    /// The client keys are being loaded.
    AwaitKeys,
    /// Key `index` of `count` was offered.
    AwaitKey { index: usize, count: usize },
    /// Authenticated.
    Done,
    /// Authentication failed.
    Failed,
}

/// What happened since the last action.
#[derive(Clone, Copy, Debug, PartialEq, Eq, Structural)]
pub enum SshAuthEvent {
    /// Authentication begins with the configured method.
    Begin(SshAuthMethod),
    /// The server answered the password.
    PasswordAnswered { accepted: bool },
    /// This many client keys were loaded.
    KeysLoaded(usize),
    /// The server answered the last key offered.
    KeyAnswered { accepted: bool },
}

/// What to do next.
#[derive(Clone, Debug, PartialEq, Eq)]
pub enum SshAuthAction {
    SendPassword,
    LoadKeys,
    /// Offer the key at this position.
    OfferKey(usize),
    Authenticated,
    Fail(String),
}

/// An action as plain values.
pub enum SshAuthActionSpec {
    SendPassword,
    LoadKeys,
    OfferKey(usize),
    Authenticated,
    Fail(Seq<char>),
}

impl View for SshAuthAction {
    type V = SshAuthActionSpec;

    open spec fn view(&self) -> SshAuthActionSpec {
        match self {
            SshAuthAction::SendPassword => SshAuthActionSpec::SendPassword,
            SshAuthAction::LoadKeys => SshAuthActionSpec::LoadKeys,
            SshAuthAction::OfferKey(i) => SshAuthActionSpec::OfferKey(*i),
            SshAuthAction::Authenticated => SshAuthActionSpec::Authenticated,
            SshAuthAction::Fail(s) => SshAuthActionSpec::Fail(s@),
        }
    }
}

/// `host:port`.
pub open spec fn host_port(host: Seq<char>, port: u16) -> Seq<char> {
    host + ":"@ + decimal(port as nat)
}

/// The failure for a rejected password.
pub open spec fn password_rejected_text(host: Seq<char>, port: u16) -> Seq<char> {
    "password authentication to "@ + host_port(host, port) + " was rejected"@
}

/// The failure for every key rejected.
pub open spec fn publickey_rejected_text(host: Seq<char>, port: u16) -> Seq<char> {
    "public key authentication to "@ + host_port(host, port) + " was rejected"@
}

/// The failure for an IAM-role target.
pub open spec fn iam_role_text(host: Seq<char>, port: u16) -> Seq<char> {
    "IAM-role SSH authentication is not yet supported for connect_via tunnels (target "@
        + host_port(host, port) + ")"@
}

/// How authentication of the hop at `host:port` moves on an event.
pub open spec fn spec_ssh_auth_step(
    state: SshAuthState,
    event: SshAuthEvent,
    host: Seq<char>,
    port: u16,
) -> (SshAuthState, SshAuthActionSpec) {
    match (state, event) {
        (SshAuthState::Start, SshAuthEvent::Begin(method)) => match method {
            SshAuthMethod::Password => (SshAuthState::AwaitPassword, SshAuthActionSpec::SendPassword),
            SshAuthMethod::PublicKey => (SshAuthState::AwaitKeys, SshAuthActionSpec::LoadKeys),
            SshAuthMethod::IamRole => (
                SshAuthState::Failed,
                SshAuthActionSpec::Fail(iam_role_text(host, port)),
            ),
        },
        (SshAuthState::AwaitPassword, SshAuthEvent::PasswordAnswered { accepted }) => if accepted {
            (SshAuthState::Done, SshAuthActionSpec::Authenticated)
        } else {
            (SshAuthState::Failed, SshAuthActionSpec::Fail(password_rejected_text(host, port)))
        },
        (SshAuthState::AwaitKeys, SshAuthEvent::KeysLoaded(count)) => if count == 0 {
            (SshAuthState::Failed, SshAuthActionSpec::Fail("no SSH client keys are configured"@))
        } else {
            (SshAuthState::AwaitKey { index: 0, count }, SshAuthActionSpec::OfferKey(0))
        },
        (SshAuthState::AwaitKey { index, count }, SshAuthEvent::KeyAnswered { accepted }) => if accepted {
            (SshAuthState::Done, SshAuthActionSpec::Authenticated)
        } else if index + 1 < count {
            (
                SshAuthState::AwaitKey { index: (index + 1) as usize, count },
                SshAuthActionSpec::OfferKey((index + 1) as usize),
            )
        } else {
            (SshAuthState::Failed, SshAuthActionSpec::Fail(publickey_rejected_text(host, port)))
        },
        _ => (
            SshAuthState::Failed,
            SshAuthActionSpec::Fail("SSH authentication got an unexpected answer"@),
        ),
    }
}

fn fail_text(prefix: &str, host: &str, port: u16, suffix: &str) -> (s: String)
    ensures
        s@ == prefix@ + host_port(host@, port) + suffix@,
{
    let mut s = String::from_str(prefix);
    push_str(&mut s, host);
    push_str(&mut s, ":");
    push_decimal(&mut s, port as u64);
    push_str(&mut s, suffix);
    s
}

/// Advances authentication of the hop at `host:port` by one event.
pub fn ssh_auth_step(state: SshAuthState, event: SshAuthEvent, host: &str, port: u16) -> (r: (
    SshAuthState,
    SshAuthAction,
))
    requires
        state matches SshAuthState::AwaitKey { index, count } ==> index < count,
    ensures
        (r.0, r.1@) == spec_ssh_auth_step(state, event, host@, port),
        r.0 matches SshAuthState::AwaitKey { index, count } ==> index < count,
{
    match (state, event) {
        (SshAuthState::Start, SshAuthEvent::Begin(method)) => match method {
            SshAuthMethod::Password => (SshAuthState::AwaitPassword, SshAuthAction::SendPassword),
            SshAuthMethod::PublicKey => (SshAuthState::AwaitKeys, SshAuthAction::LoadKeys),
            SshAuthMethod::IamRole => (
                SshAuthState::Failed,
                SshAuthAction::Fail(
                    fail_text(
                        "IAM-role SSH authentication is not yet supported for connect_via tunnels (target ",
                        host,
                        port,
                        ")",
                    ),
                ),
            ),
        },
        (SshAuthState::AwaitPassword, SshAuthEvent::PasswordAnswered { accepted }) => if accepted {
            (SshAuthState::Done, SshAuthAction::Authenticated)
        } else {
            (
                SshAuthState::Failed,
                SshAuthAction::Fail(
                    fail_text("password authentication to ", host, port, " was rejected"),
                ),
            )
        },
        (SshAuthState::AwaitKeys, SshAuthEvent::KeysLoaded(count)) => if count == 0 {
            (
                SshAuthState::Failed,
                SshAuthAction::Fail(String::from_str("no SSH client keys are configured")),
            )
        } else {
            (SshAuthState::AwaitKey { index: 0, count }, SshAuthAction::OfferKey(0))
        },
        (SshAuthState::AwaitKey { index, count }, SshAuthEvent::KeyAnswered { accepted }) => if accepted {
            (SshAuthState::Done, SshAuthAction::Authenticated)
        } else if index + 1 < count {
            (SshAuthState::AwaitKey { index: index + 1, count }, SshAuthAction::OfferKey(index + 1))
        } else {
            (
                SshAuthState::Failed,
                SshAuthAction::Fail(
                    fail_text("public key authentication to ", host, port, " was rejected"),
                ),
            )
        },
        _ => (
            SshAuthState::Failed,
            SshAuthAction::Fail(String::from_str("SSH authentication got an unexpected answer")),
        ),
    }
}

/// A hop authenticates only on an answer that accepted its password or one
/// of its keys; keys are offered one after another, each once, in the order
/// they were loaded; and public-key authentication fails only after the last
/// key was refused.
pub proof fn law_ssh_auth_accepts_only_accepted_answers(
    state: SshAuthState,
    event: SshAuthEvent,
    host: Seq<char>,
    port: u16,
)
    ensures
        ({
            let (next, action) = spec_ssh_auth_step(state, event, host, port);
            &&& action is Authenticated ==> (event matches SshAuthEvent::PasswordAnswered {
                accepted,
            } && accepted) || (event matches SshAuthEvent::KeyAnswered { accepted } && accepted)
            &&& action matches SshAuthActionSpec::OfferKey(i) ==> (i == 0 && state
                == SshAuthState::AwaitKeys) || (state matches SshAuthState::AwaitKey { index, .. }
                && i == index + 1)
        }),
{
}

/// A refused key moves on to the next one; public-key authentication fails
/// only once the last key was refused.
pub proof fn law_ssh_auth_refused_key_moves_on(index: usize, count: usize, host: Seq<char>, port: u16)
    requires
        index < count,
    ensures
        spec_ssh_auth_step(
            SshAuthState::AwaitKey { index, count },
            SshAuthEvent::KeyAnswered { accepted: false },
            host,
            port,
        ) == if index + 1 < count {
            (
                SshAuthState::AwaitKey { index: (index + 1) as usize, count },
                SshAuthActionSpec::OfferKey((index + 1) as usize),
            )
        } else {
            (SshAuthState::Failed, SshAuthActionSpec::Fail(publickey_rejected_text(host, port)))
        },
{
}

/// Authentication goes through whenever the server accepts: the configured
/// password method sends the password and an accepted password
/// authenticates; the public-key method loads the keys, offers the first
/// of any it loaded, and any accepted key authenticates; a refused password
/// fails naming the hop, and no loaded key fails at once.
pub proof fn law_ssh_auth_accepts_every_accepted_answer(
    index: usize,
    count: usize,
    host: Seq<char>,
    port: u16,
)
    ensures
        spec_ssh_auth_step(SshAuthState::Start, SshAuthEvent::Begin(SshAuthMethod::Password), host, port)
            == (SshAuthState::AwaitPassword, SshAuthActionSpec::SendPassword),
        spec_ssh_auth_step(SshAuthState::Start, SshAuthEvent::Begin(SshAuthMethod::PublicKey), host, port)
            == (SshAuthState::AwaitKeys, SshAuthActionSpec::LoadKeys),
        spec_ssh_auth_step(
            SshAuthState::AwaitPassword,
            SshAuthEvent::PasswordAnswered { accepted: true },
            host,
            port,
        ) == (SshAuthState::Done, SshAuthActionSpec::Authenticated),
        spec_ssh_auth_step(
            SshAuthState::AwaitPassword,
            SshAuthEvent::PasswordAnswered { accepted: false },
            host,
            port,
        ) == (SshAuthState::Failed, SshAuthActionSpec::Fail(password_rejected_text(host, port))),
        count > 0 ==> spec_ssh_auth_step(SshAuthState::AwaitKeys, SshAuthEvent::KeysLoaded(count), host, port)
            == (SshAuthState::AwaitKey { index: 0, count }, SshAuthActionSpec::OfferKey(0)),
        spec_ssh_auth_step(SshAuthState::AwaitKeys, SshAuthEvent::KeysLoaded(0), host, port).0
            == SshAuthState::Failed,
        spec_ssh_auth_step(
            SshAuthState::AwaitKey { index, count },
            SshAuthEvent::KeyAnswered { accepted: true },
            host,
            port,
        ) == (SshAuthState::Done, SshAuthActionSpec::Authenticated),
{
}

/// The inactivity timeout a tunnel hop gets: the configured one plus ten
/// seconds, extra time for the "closing due to inactivity" message to be
/// sent.
pub fn hop_inactivity_timeout(configured: Span) -> (r: Span)
    requires
        configured.secs <= u64::MAX - 10,
    ensures
        r == (Span { secs: (configured.secs + 10) as u64, nanos: configured.nanos }),
        configured.wf() ==> r.wf() && r.as_nanos() == configured.as_nanos() + 10_000_000_000,
{
    Span { secs: configured.secs + 10, nanos: configured.nanos }
}

} // verus!
