//! The Mexico City enclave's side of the Nitro host protocol: which
//! operation each request from the host asks for, the reply each outcome
//! gives, and the steps of producing an attestation token.

use vstd::prelude::*;

use crate::codec::{sha256, sha256_digest};

verus! {

/// The status that the enclave reports for a request that carries no data
/// back.
#[derive(Debug, PartialEq, Eq, Clone, Copy)]
pub enum NitroStatus {
    /// The request was carried out.
    Success,
    /// The request failed.
    Fail,
    /// The request is not one the enclave serves.
    Unimplemented,
}

/// A message between the host and the Mexico City enclave.
#[derive(Debug, PartialEq, Eq)]
pub enum McMessage {
    /// Initialize the enclave with a policy (JSON text).
    Initialize(String),
    /// Ask for the enclave's certificate.
    GetEnclaveCert,
    /// The enclave's certificate, PEM-encoded.
    EnclaveCert(Vec<u8>),
    /// Ask for the enclave's name.
    GetEnclaveName,
    /// The enclave's name.
    EnclaveName(String),
    /// Ask for an attestation token for a challenge.
    GetPSAAttestationToken(Vec<u8>),
    /// An attestation token, the public key it binds, and the device id.
    PSAAttestationToken(Vec<u8>, Vec<u8>, i32),
    /// Reset the enclave.
    ResetEnclave,
    /// Open a TLS session.
    NewTLSSession,
    /// The identifier of a new TLS session.
    TLSSession(u32),
    /// Close a TLS session.
    CloseTLSSession(u32),
    /// Ask whether a TLS session needs data.
    GetTLSDataNeeded(u32),
    /// Whether the session needs data.
    TLSDataNeeded(bool),
    /// TLS data for a session.
    SendTLSData(u32, Vec<u8>),
    /// Ask for the TLS data a session has to send.
    GetTLSData(u32),
    /// TLS data from a session, and whether the session is still active.
    TLSData(Vec<u8>, bool),
    /// The status of a request.
    Status(NitroStatus),
}

/// A message between the Mexico City enclave and the Nitro root enclave,
/// relayed by the host.
#[derive(Debug, PartialEq, Eq)]
pub enum NitroRootEnclaveMessage {
    /// A challenge, the Nitro attestation document, and the enclave name.
    ProxyAttestation(Vec<u8>, Vec<u8>, String),
    /// The attestation token, the public key, and the device id.
    PSAToken(Vec<u8>, Vec<u8>, u32),
}

/// What the enclave does for a request.
#[derive(Debug, PartialEq, Eq)]
pub enum EnclaveOperation {
    /// Initialize the session manager with the policy.
    Initialize(String),
    /// Fetch the enclave certificate.
    GetEnclaveCert,
    /// Fetch the enclave name.
    GetEnclaveName,
    /// Open a TLS session.
    NewTLSSession,
    /// Close a TLS session.
    CloseTLSSession(u32),
    /// Ask whether a session needs data.
    GetTLSDataNeeded(u32),
    /// Hand data to a session.
    SendTLSData(u32, Vec<u8>),
    /// Fetch the data a session has to send.
    GetTLSData(u32),
    /// Produce an attestation token for the challenge.
    GetPSAAttestationToken(Vec<u8>),
    /// Nothing to do but send this reply.
    Reply(McMessage),
}

/// The operation that each request asks for: a reset is acknowledged at
/// once, and a message that is no request is answered `Unimplemented`.
pub open spec fn operation_for_spec(request: McMessage) -> EnclaveOperation {
    match request {
        McMessage::Initialize(policy) => EnclaveOperation::Initialize(policy),
        McMessage::GetEnclaveCert => EnclaveOperation::GetEnclaveCert,
        McMessage::GetEnclaveName => EnclaveOperation::GetEnclaveName,
        McMessage::NewTLSSession => EnclaveOperation::NewTLSSession,
        McMessage::CloseTLSSession(id) => EnclaveOperation::CloseTLSSession(id),
        McMessage::GetTLSDataNeeded(id) => EnclaveOperation::GetTLSDataNeeded(id),
        McMessage::SendTLSData(id, data) => EnclaveOperation::SendTLSData(id, data),
        McMessage::GetTLSData(id) => EnclaveOperation::GetTLSData(id),
        McMessage::GetPSAAttestationToken(challenge) => EnclaveOperation::GetPSAAttestationToken(
            challenge,
        ),
        McMessage::ResetEnclave => EnclaveOperation::Reply(McMessage::Status(NitroStatus::Success)),
        _ => EnclaveOperation::Reply(McMessage::Status(NitroStatus::Unimplemented)),
    }
}

/// Decides what the enclave does for a request from the host.
pub fn operation_for_request(request: McMessage) -> (op: EnclaveOperation)
    ensures
        op == operation_for_spec(request),
        request matches McMessage::Initialize(policy) ==> op == EnclaveOperation::Initialize(policy),
        request is GetEnclaveCert ==> op is GetEnclaveCert,
        request is GetEnclaveName ==> op is GetEnclaveName,
        request is NewTLSSession ==> op is NewTLSSession,
        request matches McMessage::CloseTLSSession(id) ==> op == EnclaveOperation::CloseTLSSession(id),
        request matches McMessage::GetTLSDataNeeded(id) ==> op == EnclaveOperation::GetTLSDataNeeded(
            id,
        ),
        request matches McMessage::SendTLSData(id, data) ==> op == EnclaveOperation::SendTLSData(
            id,
            data,
        ),
        request matches McMessage::GetTLSData(id) ==> op == EnclaveOperation::GetTLSData(id),
        request matches McMessage::GetPSAAttestationToken(challenge) ==> op
            == EnclaveOperation::GetPSAAttestationToken(challenge),
        request is ResetEnclave ==> op == EnclaveOperation::Reply(
            McMessage::Status(NitroStatus::Success),
        ),
        (request is EnclaveCert || request is EnclaveName || request is PSAAttestationToken
            || request is TLSSession || request is TLSDataNeeded || request is TLSData
            || request is Status) ==> op == EnclaveOperation::Reply(
            McMessage::Status(NitroStatus::Unimplemented),
        ),
{
    match request {
        McMessage::Initialize(policy) => EnclaveOperation::Initialize(policy),
        McMessage::GetEnclaveCert => EnclaveOperation::GetEnclaveCert,
        McMessage::GetEnclaveName => EnclaveOperation::GetEnclaveName,
        McMessage::NewTLSSession => EnclaveOperation::NewTLSSession,
        McMessage::CloseTLSSession(id) => EnclaveOperation::CloseTLSSession(id),
        McMessage::GetTLSDataNeeded(id) => EnclaveOperation::GetTLSDataNeeded(id),
        McMessage::SendTLSData(id, data) => EnclaveOperation::SendTLSData(id, data),
        McMessage::GetTLSData(id) => EnclaveOperation::GetTLSData(id),
        McMessage::GetPSAAttestationToken(challenge) => EnclaveOperation::GetPSAAttestationToken(
            challenge,
        ),
        McMessage::ResetEnclave => EnclaveOperation::Reply(McMessage::Status(NitroStatus::Success)),
        _ => EnclaveOperation::Reply(McMessage::Status(NitroStatus::Unimplemented)),
    }
}

/// How an operation turned out (`None` or `false` where it failed).
#[derive(Debug, PartialEq, Eq)]
pub enum OperationOutcome {
    /// Initialization succeeded or not.
    Initialized(bool),
    /// The enclave certificate.
    EnclaveCert(Option<Vec<u8>>),
    /// The enclave name.
    EnclaveName(Option<String>),
    /// The new session's identifier.
    NewTLSSession(Option<u32>),
    /// The session was closed or not.
    TLSSessionClosed(bool),
    /// Whether the session needs data.
    TLSDataNeeded(Option<bool>),
    /// The data was handed over or not.
    TLSDataSent(bool),
    /// Whether the session is active, and the data it has to send.
    TLSData(Option<(bool, Vec<u8>)>),
    /// The reply carrying the attestation token.
    PSAAttestationToken(Option<McMessage>),
}

/// Why the enclave's request loop stops.
#[derive(Debug, PartialEq, Eq, Clone, Copy)]
pub enum FatalError {
    /// Initialization failed.
    InitializeFailed,
    /// No attestation token could be produced.
    AttestationFailed,
}

/// The reply to the host for each outcome: a failed initialization or
/// attestation stops the loop; any other failure is answered `Fail`.
pub open spec fn reply_for_spec(outcome: OperationOutcome) -> Result<McMessage, FatalError> {
    match outcome {
        OperationOutcome::Initialized(ok) => if ok {
            Ok(McMessage::Status(NitroStatus::Success))
        } else {
            Err(FatalError::InitializeFailed)
        },
        OperationOutcome::EnclaveCert(cert) => match cert {
            Some(c) => Ok(McMessage::EnclaveCert(c)),
            None => Ok(McMessage::Status(NitroStatus::Fail)),
        },
        OperationOutcome::EnclaveName(name) => match name {
            Some(n) => Ok(McMessage::EnclaveName(n)),
            None => Ok(McMessage::Status(NitroStatus::Fail)),
        },
        OperationOutcome::NewTLSSession(id) => match id {
            Some(i) => Ok(McMessage::TLSSession(i)),
            None => Ok(McMessage::Status(NitroStatus::Fail)),
        },
        OperationOutcome::TLSSessionClosed(ok) => if ok {
            Ok(McMessage::Status(NitroStatus::Success))
        } else {
            Ok(McMessage::Status(NitroStatus::Fail))
        },
        OperationOutcome::TLSDataNeeded(needed) => match needed {
            Some(n) => Ok(McMessage::TLSDataNeeded(n)),
            None => Ok(McMessage::Status(NitroStatus::Fail)),
        },
        OperationOutcome::TLSDataSent(ok) => if ok {
            Ok(McMessage::Status(NitroStatus::Success))
        } else {
            Ok(McMessage::Status(NitroStatus::Fail))
        },
        OperationOutcome::TLSData(data) => match data {
            Some((active, output)) => Ok(McMessage::TLSData(output, active)),
            None => Ok(McMessage::Status(NitroStatus::Fail)),
        },
        OperationOutcome::PSAAttestationToken(reply) => match reply {
            Some(m) => Ok(m),
            None => Err(FatalError::AttestationFailed),
        },
    }
}

/// Decides the reply to the host once an operation is done.
pub fn reply_for_outcome(outcome: OperationOutcome) -> (r: Result<McMessage, FatalError>)
    ensures
        r == reply_for_spec(outcome),
        outcome == OperationOutcome::Initialized(true) ==> r == Ok::<McMessage, FatalError>(
            McMessage::Status(NitroStatus::Success),
        ),
        outcome == OperationOutcome::Initialized(false) ==> r == Err::<McMessage, FatalError>(
            FatalError::InitializeFailed,
        ),
        outcome matches OperationOutcome::EnclaveCert(Some(c)) ==> r == Ok::<McMessage, FatalError>(
            McMessage::EnclaveCert(c),
        ),
        outcome matches OperationOutcome::EnclaveName(Some(n)) ==> r == Ok::<McMessage, FatalError>(
            McMessage::EnclaveName(n),
        ),
        outcome matches OperationOutcome::NewTLSSession(Some(id)) ==> r == Ok::<McMessage, FatalError>(
            McMessage::TLSSession(id),
        ),
        outcome == OperationOutcome::TLSSessionClosed(true) ==> r == Ok::<McMessage, FatalError>(
            McMessage::Status(NitroStatus::Success),
        ),
        outcome matches OperationOutcome::TLSDataNeeded(Some(needed)) ==> r == Ok::<
            McMessage,
            FatalError,
        >(McMessage::TLSDataNeeded(needed)),
        outcome == OperationOutcome::TLSDataSent(true) ==> r == Ok::<McMessage, FatalError>(
            McMessage::Status(NitroStatus::Success),
        ),
        outcome matches OperationOutcome::TLSData(Some((active, data))) ==> r == Ok::<
            McMessage,
            FatalError,
        >(McMessage::TLSData(data, active)),
        outcome matches OperationOutcome::PSAAttestationToken(Some(m)) ==> r == Ok::<
            McMessage,
            FatalError,
        >(m),
        outcome == OperationOutcome::PSAAttestationToken(None) ==> r == Err::<McMessage, FatalError>(
            FatalError::AttestationFailed,
        ),
        (outcome == OperationOutcome::EnclaveCert(None) || outcome == OperationOutcome::EnclaveName(None)
            || outcome == OperationOutcome::NewTLSSession(None) || outcome
            == OperationOutcome::TLSSessionClosed(false) || outcome == OperationOutcome::TLSDataNeeded(None)
            || outcome == OperationOutcome::TLSDataSent(false) || outcome == OperationOutcome::TLSData(None))
            ==> r == Ok::<McMessage, FatalError>(McMessage::Status(NitroStatus::Fail)),
{
    match outcome {
        OperationOutcome::Initialized(ok) => if ok {
            Ok(McMessage::Status(NitroStatus::Success))
        } else {
            Err(FatalError::InitializeFailed)
        },
        OperationOutcome::EnclaveCert(cert) => match cert {
            Some(c) => Ok(McMessage::EnclaveCert(c)),
            None => Ok(McMessage::Status(NitroStatus::Fail)),
        },
        OperationOutcome::EnclaveName(name) => match name {
            Some(n) => Ok(McMessage::EnclaveName(n)),
            None => Ok(McMessage::Status(NitroStatus::Fail)),
        },
        OperationOutcome::NewTLSSession(id) => match id {
            Some(i) => Ok(McMessage::TLSSession(i)),
            None => Ok(McMessage::Status(NitroStatus::Fail)),
        },
        OperationOutcome::TLSSessionClosed(ok) => if ok {
            Ok(McMessage::Status(NitroStatus::Success))
        } else {
            Ok(McMessage::Status(NitroStatus::Fail))
        },
        OperationOutcome::TLSDataNeeded(needed) => match needed {
            Some(n) => Ok(McMessage::TLSDataNeeded(n)),
            None => Ok(McMessage::Status(NitroStatus::Fail)),
        },
        OperationOutcome::TLSDataSent(ok) => if ok {
            Ok(McMessage::Status(NitroStatus::Success))
        } else {
            Ok(McMessage::Status(NitroStatus::Fail))
        },
        OperationOutcome::TLSData(data) => match data {
            Some((active, output)) => Ok(McMessage::TLSData(output, active)),
            None => Ok(McMessage::Status(NitroStatus::Fail)),
        },
        OperationOutcome::PSAAttestationToken(reply) => match reply {
            Some(m) => Ok(m),
            None => Err(FatalError::AttestationFailed),
        },
    }
}

/// The size of the buffer handed to the Nitro Security Module for an
/// attestation document.
pub const NSM_MAX_ATTESTATION_DOC_SIZE: usize = 16384;

/// The user data that the attestation document binds: the SHA-256 hash of
/// the enclave's certificate.
pub fn attestation_user_data(enclave_cert: &[u8]) -> (user_data: Vec<u8>)
    ensures
        user_data@ == sha256_digest(enclave_cert@),
        user_data@.len() == 32,
{
    sha256(enclave_cert)
}

/// The attestation document: the first `doc_len` bytes of the buffer that
/// the security module wrote into.
pub fn attestation_document(buffer: Vec<u8>, doc_len: u32) -> (doc: Vec<u8>)
    requires
        doc_len <= buffer@.len(),
    ensures
        doc@ == buffer@.take(doc_len as int),
{
    let mut doc = buffer;
    doc.truncate(doc_len as usize);
    doc
}

/// The request relayed to the root enclave: the challenge, the Nitro
/// attestation document, and the enclave's name.
pub fn proxy_attestation_request(challenge: &[u8], document: Vec<u8>, enclave_name: String) -> (msg:
    NitroRootEnclaveMessage)
    ensures
        msg matches NitroRootEnclaveMessage::ProxyAttestation(c, d, n) && c@ == challenge@ && d
            == document && n == enclave_name,
{
    NitroRootEnclaveMessage::ProxyAttestation(
        vstd::slice::slice_to_vec(challenge),
        document,
        enclave_name,
    )
}

/// The reply to the host once the root enclave has answered: its token,
/// public key and device id, or `None` when it answered with anything else.
/// A device id beyond `i32` is left out (it is converted with an unwrap).
pub fn psa_token_reply(answer: NitroRootEnclaveMessage) -> (reply: Option<McMessage>)
    requires
        answer matches NitroRootEnclaveMessage::PSAToken(_, _, device_id) ==> device_id
            <= i32::MAX,
    ensures
        match answer {
            NitroRootEnclaveMessage::PSAToken(token, pubkey, device_id) => reply == Some(
                McMessage::PSAAttestationToken(token, pubkey, device_id as i32),
            ),
            _ => reply is None,
        },
{
    match answer {
        NitroRootEnclaveMessage::PSAToken(token, pubkey, device_id) => Some(
            McMessage::PSAAttestationToken(token, pubkey, device_id as i32),
        ),
        _ => None,
    }
}

/// Only a failed initialization and a failed attestation stop the
/// enclave's loop; every other outcome, failed or not, gets a reply.
pub proof fn lemma_fatal_outcomes(outcome: OperationOutcome)
    ensures
        reply_for_spec(outcome) is Err <==> (outcome == OperationOutcome::Initialized(false)
            || outcome == OperationOutcome::PSAAttestationToken(None)),
{
}

/// Every request that is not one the enclave serves is answered
/// `Unimplemented` without any work; a reset is acknowledged without any
/// work.
pub proof fn lemma_unserved_requests_answered(request: McMessage)
    ensures
        request is ResetEnclave ==> operation_for_spec(request) == EnclaveOperation::Reply(
            McMessage::Status(NitroStatus::Success),
        ),
        (request is EnclaveCert || request is EnclaveName || request is PSAAttestationToken
            || request is TLSSession || request is TLSDataNeeded || request is TLSData
            || request is Status) ==> operation_for_spec(request) == EnclaveOperation::Reply(
            McMessage::Status(NitroStatus::Unimplemented),
        ),
{
}

/// Each request asks for the operation of its own kind, carrying the
/// request's own data: a certificate request fetches the certificate, a
/// session request acts on that session, and so on.
pub proof fn lemma_requests_map_to_same_kind(request: McMessage)
    ensures
        request matches McMessage::Initialize(policy) ==> operation_for_spec(request) == EnclaveOperation::Initialize(policy),
        request is GetEnclaveCert ==> operation_for_spec(request) is GetEnclaveCert,
        request is GetEnclaveName ==> operation_for_spec(request) is GetEnclaveName,
        request is NewTLSSession ==> operation_for_spec(request) is NewTLSSession,
        request matches McMessage::CloseTLSSession(id) ==> operation_for_spec(request) == EnclaveOperation::CloseTLSSession(id),
        request matches McMessage::GetTLSDataNeeded(id) ==> operation_for_spec(request) == EnclaveOperation::GetTLSDataNeeded(
            id,
        ),
        request matches McMessage::SendTLSData(id, data) ==> operation_for_spec(request) == EnclaveOperation::SendTLSData(
            id,
            data,
        ),
        request matches McMessage::GetTLSData(id) ==> operation_for_spec(request) == EnclaveOperation::GetTLSData(id),
        request matches McMessage::GetPSAAttestationToken(challenge) ==> operation_for_spec(request)
            == EnclaveOperation::GetPSAAttestationToken(challenge),
        request is ResetEnclave ==> operation_for_spec(request) == EnclaveOperation::Reply(
            McMessage::Status(NitroStatus::Success),
        ),
        (request is EnclaveCert || request is EnclaveName || request is PSAAttestationToken
            || request is TLSSession || request is TLSDataNeeded || request is TLSData
            || request is Status) ==> operation_for_spec(request) == EnclaveOperation::Reply(
            McMessage::Status(NitroStatus::Unimplemented),
        ),
{
}

/// What an operation produced is handed to the host unchanged, a failed
/// operation is answered `Fail`, and only a failed initialization or
/// attestation stops the loop.
pub proof fn lemma_outcomes_passed_through(outcome: OperationOutcome)
    ensures
        outcome == OperationOutcome::Initialized(true) ==> reply_for_spec(outcome) == Ok::<McMessage, FatalError>(
            McMessage::Status(NitroStatus::Success),
        ),
        outcome == OperationOutcome::Initialized(false) ==> reply_for_spec(outcome) == Err::<McMessage, FatalError>(
            FatalError::InitializeFailed,
        ),
        outcome matches OperationOutcome::EnclaveCert(Some(c)) ==> reply_for_spec(outcome) == Ok::<McMessage, FatalError>(
            McMessage::EnclaveCert(c),
        ),
        outcome matches OperationOutcome::EnclaveName(Some(n)) ==> reply_for_spec(outcome) == Ok::<McMessage, FatalError>(
            McMessage::EnclaveName(n),
        ),
        outcome matches OperationOutcome::NewTLSSession(Some(id)) ==> reply_for_spec(outcome) == Ok::<McMessage, FatalError>(
            McMessage::TLSSession(id),
        ),
        outcome == OperationOutcome::TLSSessionClosed(true) ==> reply_for_spec(outcome) == Ok::<McMessage, FatalError>(
            McMessage::Status(NitroStatus::Success),
        ),
        outcome matches OperationOutcome::TLSDataNeeded(Some(needed)) ==> reply_for_spec(outcome) == Ok::<
            McMessage,
            FatalError,
        >(McMessage::TLSDataNeeded(needed)),
        outcome == OperationOutcome::TLSDataSent(true) ==> reply_for_spec(outcome) == Ok::<McMessage, FatalError>(
            McMessage::Status(NitroStatus::Success),
        ),
        outcome matches OperationOutcome::TLSData(Some((active, data))) ==> reply_for_spec(outcome) == Ok::<
            McMessage,
            FatalError,
        >(McMessage::TLSData(data, active)),
        outcome matches OperationOutcome::PSAAttestationToken(Some(m)) ==> reply_for_spec(outcome) == Ok::<
            McMessage,
            FatalError,
        >(m),
        outcome == OperationOutcome::PSAAttestationToken(None) ==> reply_for_spec(outcome) == Err::<McMessage, FatalError>(
            FatalError::AttestationFailed,
        ),
        (outcome == OperationOutcome::EnclaveCert(None) || outcome == OperationOutcome::EnclaveName(None)
            || outcome == OperationOutcome::NewTLSSession(None) || outcome
            == OperationOutcome::TLSSessionClosed(false) || outcome == OperationOutcome::TLSDataNeeded(None)
            || outcome == OperationOutcome::TLSDataSent(false) || outcome == OperationOutcome::TLSData(None))
            ==> reply_for_spec(outcome) == Ok::<McMessage, FatalError>(McMessage::Status(NitroStatus::Fail)),
{
}

} // verus!
