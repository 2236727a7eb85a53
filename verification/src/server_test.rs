//! The client-side checks that a Veracruz test client makes of the server:
//! the policy hash it reports, the runtime-manager hash in its certificate,
//! and the scheduling of provisioned data and streams.

use vstd::prelude::*;
use vstd::utf8::*;
use vstd::slice::slice_to_vec;

use crate::codec::{
    bytes_equal, hex_decode, hex_decode_spec, hex_digit_value, hex_encode, hex_encode_spec, sha256,
    sha256_digest, utf8_decode,
};

verus! {

broadcast use vstd::utf8::group_utf8_lib;

/// Whether the runtime-manager hash a server reports, `received`, is the one
/// the policy names in hexadecimal, `expected_hash` (`None` when the policy
/// names none for the platform).
pub open spec fn policy_hash_matches(received: Seq<u8>, expected_hash: Option<Seq<char>>) -> bool {
    match expected_hash {
        None => false,
        Some(h) => hex_decode_spec(encode_utf8(h)) == Some(received),
    }
}

/// Compares the runtime-manager hash received from the enclave with the
/// hexadecimal hash that the policy holds for the platform: false when the
/// policy holds none, when it is no valid hexadecimal, or when they differ.
/// In debug mode (`debug`, the test build's `debug` feature) every hash is
/// accepted: the enclave may then report a hash of zeros (as on Nitro).
pub fn compare_policy_hash(received: &[u8], expected_hash: Option<&str>, debug: bool) -> (r: bool)
    ensures
        r == (debug || policy_hash_matches(
            received@,
            match expected_hash {
                Some(h) => Some(h@),
                None => None,
            },
        )),
{
    if debug {
        return true;
    }
    match expected_hash {
        None => false,
        Some(h) => {
            let hex_bytes = h.as_bytes();
            match hex_decode(hex_bytes) {
                Err(_) => false,
                Ok(expected_bytes) => bytes_equal(received, expected_bytes.as_slice()),
            }
        },
    }
}

/// A hash and its own lower-case hexadecimal encoding always match:
/// `compare_policy_hash` accepts what `hex::encode` makes of the received
/// bytes.
pub proof fn lemma_hash_matches_own_hex(received: Seq<u8>)
    ensures
        policy_hash_matches(received, Some(hex_encode_spec(received))),
{
    let text = hex_encode_spec(received);
    assert forall|i: int| 0 <= i < text.len() implies '\0' <= #[trigger] text[i] <= '\u{7f}' by {
        let b = received[i / 2] as int;
        assert(0 <= b / 16 < 16 && 0 <= b % 16 < 16);
    }
    assert(is_ascii_chars(text));
    is_ascii_chars_encode_utf8(text);
    let bytes = encode_utf8(text);
    assert forall|i: int| 0 <= i < bytes.len() implies
        (#[trigger] hex_digit_value(bytes[i])) == Some(
            (if i % 2 == 0 { received[i / 2] as int / 16 } else { received[i / 2] as int % 16 }) as u8,
        ) by {
        assert(text[i] as u8 == bytes[i]);
    }
    let decoded = Seq::new(
        bytes.len() / 2,
        |k: int|
            (hex_digit_value(bytes[2 * k]).unwrap() * 16 + hex_digit_value(
                bytes[2 * k + 1],
            ).unwrap()) as u8,
    );
    assert forall|k: int| 0 <= k < received.len() implies decoded[k] == received[k] by {
        assert(hex_digit_value(bytes[2 * k]) == Some((received[k] as int / 16) as u8));
        assert(hex_digit_value(bytes[2 * k + 1]) == Some((received[k] as int % 16) as u8));
    }
    assert(decoded =~= received);
}


/// The hexadecimal SHA-256 hash of a policy's JSON text, as the client
/// expects the server to report it.
pub fn policy_hash_hex(policy_json: &str) -> (hash: String)
    ensures
        hash@ == hex_encode_spec(sha256_digest(encode_utf8(policy_json@))),
        hash@.len() == 64,
{
    let digest = sha256(policy_json.as_bytes());
    hex_encode(digest.as_slice())
}

/// Why the policy hash that a server reports was refused.
#[derive(Debug)]
pub enum PolicyHashError {
    /// The server's response did not have the status `SUCCESS`.
    ResponseError,
    /// The reported hash is no valid UTF-8.
    Utf8Error(std::str::Utf8Error),
    /// The reported hash differs from the expected one.
    MismatchError { received: Vec<u8>, expected: Vec<u8> },
}

/// Checks the policy hash that the server reports (`received`, in a
/// response whose status is success or not) against the hash the client
/// computed from its own copy of the policy.
pub fn check_policy_hash_response(status_is_success: bool, received: &[u8], expected: &str) -> (r:
    Result<(), PolicyHashError>)
    ensures
        !status_is_success ==> r matches Err(PolicyHashError::ResponseError),
        status_is_success && !valid_utf8(received@) ==> r matches Err(PolicyHashError::Utf8Error(_)),
        status_is_success && valid_utf8(received@) && decode_utf8(received@) == expected@ ==> r is Ok,
        status_is_success && valid_utf8(received@) && decode_utf8(received@) != expected@ ==> (
        r matches Err(PolicyHashError::MismatchError { received: rec, expected: exp }) && rec@
            == received@ && exp@ == encode_utf8(expected@)),
{
    if !status_is_success {
        return Err(PolicyHashError::ResponseError);
    }
    let received_hash = match utf8_decode(received) {
        Ok(s) => s,
        Err(e) => {
            return Err(PolicyHashError::Utf8Error(e));
        },
    };
    let received_owned = received_hash.to_owned();
    let expected_owned = expected.to_owned();
    if received_owned == expected_owned {
        Ok(())
    } else {
        Err(
            PolicyHashError::MismatchError {
                received: slice_to_vec(received_hash.as_bytes()),
                expected: slice_to_vec(expected.as_bytes()),
            },
        )
    }
}

/// The DER content bytes of the object identifier of the certificate
/// extension that carries the runtime-manager hash: the first two arcs
/// packed into one byte, then the third and fourth arc.
pub fn encode_extension_id(id: [u8; 4]) -> (encoded: [u8; 3])
    requires
        id@[0] * 40 + id@[1] <= 255,
    ensures
        encoded@ == seq![(id@[0] * 40 + id@[1]) as u8, id@[2], id@[3]],
{
    let encoded: [u8; 3] = [id[0] * 40 + id[1], id[2], id[3]];
    assert(encoded@ =~= seq![(id@[0] * 40 + id@[1]) as u8, id@[2], id@[3]]);
    encoded
}

/// Why the runtime-manager hash in the server's certificate was refused.
#[derive(Debug, PartialEq, Eq)]
pub enum RuntimeHashError {
    /// The TLS session holds no peer certificate.
    NoPeerCertificates,
    /// The certificate lacks the runtime-manager hash extension.
    MissingExtension,
    /// The hash in the extension is not the one the policy names.
    InvalidRuntimeManagerHash,
}

/// Checks the runtime-manager hash extension of the server's certificate:
/// `extension_data` is the extension's content, if the certificate has one,
/// and `expected_hash` the hexadecimal hash the policy names for the
/// platform; in debug mode the hash itself is not checked.
pub fn check_runtime_manager_hash(
    has_peer_certificates: bool,
    extension_data: Option<&[u8]>,
    expected_hash: Option<&str>,
    debug: bool,
) -> (r: Result<(), RuntimeHashError>)
    ensures
        !has_peer_certificates ==> r == Err::<(), RuntimeHashError>(
            RuntimeHashError::NoPeerCertificates,
        ),
        has_peer_certificates && extension_data is None ==> r == Err::<(), RuntimeHashError>(
            RuntimeHashError::MissingExtension,
        ),
        has_peer_certificates ==> (extension_data matches Some(data) ==> (r is Ok <==> (debug
            || policy_hash_matches(
            data@,
            match expected_hash {
                Some(h) => Some(h@),
                None => None,
            },
        )))),
        has_peer_certificates && extension_data is Some && r is Err ==> r == Err::<
            (),
            RuntimeHashError,
        >(RuntimeHashError::InvalidRuntimeManagerHash),
{
    if !has_peer_certificates {
        return Err(RuntimeHashError::NoPeerCertificates);
    }
    match extension_data {
        None => Err(RuntimeHashError::MissingExtension),
        Some(data) => {
            if !compare_policy_hash(data, expected_hash, debug) {
                Err(RuntimeHashError::InvalidRuntimeManagerHash)
            } else {
                Ok(())
            }
        },
    }
}

/// The server must hand out a non-zero TLS session identifier.
pub fn check_session_id(session_id: u32) -> (r: Option<u32>)
    ensures
        session_id == 0 ==> r is None,
        session_id != 0 ==> r == Some(session_id),
{
    if session_id == 0 {
        None
    } else {
        Some(session_id)
    }
}

/// Whether `a` and `b` are equal up to ASCII case, byte by byte, as
/// `str::eq_ignore_ascii_case` compares.
pub open spec fn eq_ignore_ascii_case_spec(a: Seq<u8>, b: Seq<u8>) -> bool {
    &&& a.len() == b.len()
    &&& forall|i: int| 0 <= i < a.len() ==> ascii_lower(#[trigger] a[i]) == ascii_lower(b[i])
}

/// The ASCII lower-case form of a byte.
pub open spec fn ascii_lower(b: u8) -> u8 {
    if 65 <= b <= 90 {
        (b + 32) as u8
    } else {
        b
    }
}

fn to_ascii_lower(b: u8) -> (r: u8)
    ensures
        r == ascii_lower(b),
        65 <= b <= 90 ==> r == b + 32,
        !(65 <= b <= 90) ==> r == b,
{
    if 65 <= b && b <= 90 {
        b + 32
    } else {
        b
    }
}

/// `str::eq_ignore_ascii_case`: the two strings have the same bytes up to
/// ASCII case.
pub fn eq_ignore_ascii_case(a: &str, b: &str) -> (r: bool)
    ensures
        r == eq_ignore_ascii_case_spec(encode_utf8(a@), encode_utf8(b@)),
{
    let x = a.as_bytes();
    let y = b.as_bytes();
    assert(x@ == encode_utf8(a@) && y@ == encode_utf8(b@));
    if x.len() != y.len() {
        return false;
    }
    let mut i: usize = 0;
    while i < x.len()
        invariant
            x@ == encode_utf8(a@),
            y@ == encode_utf8(b@),
            x@.len() == y@.len(),
            i <= x@.len(),
            forall|k: int| 0 <= k < i ==> ascii_lower(#[trigger] x@[k]) == ascii_lower(y@[k]),
        decreases x@.len() - i,
    {
        if to_ascii_lower(x[i]) != to_ascii_lower(y[i]) {
            assert(!eq_ignore_ascii_case_spec(x@, y@)) by {
                assert(ascii_lower(x@[i as int]) != ascii_lower(y@[i as int]));
            }
            return false;
        }
        i = i + 1;
    }
    true
}

/// Whether a directory entry with this file extension is a policy file:
/// its extension is `json`, in any ASCII case.
pub fn is_policy_file(extension: Option<&str>) -> (r: bool)
    ensures
        r == (extension matches Some(e) && eq_ignore_ascii_case_spec(
            encode_utf8(e@),
            encode_utf8("json"@),
        )),
{
    match extension {
        Some(e) => eq_ignore_ascii_case(e, "json"),
        None => false,
    }
}

/// Whether a directory entry with this file extension is a data file: its
/// extension is `dat`, in any ASCII case.
pub fn is_data_file(extension: Option<&str>) -> (r: bool)
    ensures
        r == (extension matches Some(e) && eq_ignore_ascii_case_spec(
            encode_utf8(e@),
            encode_utf8("dat"@),
        )),
{
    match extension {
        Some(e) => eq_ignore_ascii_case(e, "dat"),
        None => false,
    }
}

/// The length of the shortest of the streams.
pub open spec fn shortest_stream(streams: Seq<Seq<Seq<u8>>>) -> nat
    decreases streams.len(),
{
    if streams.len() <= 1 {
        if streams.len() == 0 {
            0
        } else {
            streams[0].len()
        }
    } else {
        let rest = shortest_stream(streams.drop_last());
        if streams.last().len() < rest {
            streams.last().len()
        } else {
            rest
        }
    }
}

/// The shortest stream is no longer than any stream, and is one of them.
pub proof fn lemma_shortest_stream(streams: Seq<Seq<Seq<u8>>>)
    requires
        streams.len() >= 1,
    ensures
        forall|j: int| 0 <= j < streams.len() ==> shortest_stream(streams) <= #[trigger] streams[j].len(),
        exists|j: int| 0 <= j < streams.len() && shortest_stream(streams) == #[trigger] streams[j].len(),
    decreases streams.len(),
{
    if streams.len() == 1 {
        assert(shortest_stream(streams) == streams[0].len());
    } else {
        let init = streams.drop_last();
        lemma_shortest_stream(init);
        assert forall|j: int| 0 <= j < streams.len() implies shortest_stream(streams) <= #[trigger] streams[j].len() by {
            if j < init.len() {
                assert(init[j] == streams[j]);
            }
        }
        let w = choose|j: int| 0 <= j < init.len() && shortest_stream(init) == #[trigger] init[j].len();
        let last = streams.len() - 1;
        if streams.last().len() < shortest_stream(init) {
            assert(shortest_stream(streams) == streams[last].len());
        } else {
            assert(init[w] == streams[w]);
            assert(shortest_stream(streams) == streams[w].len());
        }
    }
}

/// The view of one streaming round: a packet for each stream, tagged with
/// the stream's remote file name.
pub open spec fn round_view(round: Seq<(String, Vec<u8>)>) -> Seq<(Seq<char>, Seq<u8>)> {
    round.map_values(|e: (String, Vec<u8>)| (e.0@, e.1@))
}

/// Schedules the streaming phase: round `k` sends, for each stream in turn,
/// its `k`-th packet under the stream's remote file name; rounds go on
/// while every stream still has a packet.  `ids[j]` names `streams[j]`.
pub fn stream_rounds(ids: &Vec<String>, streams: &Vec<Vec<Vec<u8>>>) -> (rounds: Vec<
    Vec<(String, Vec<u8>)>,
>)
    requires
        streams.len() >= 1,
        ids.len() == streams.len(),
    ensures
        rounds.len() == shortest_stream(streams@.map_values(|s: Vec<Vec<u8>>| s@.map_values(|p: Vec<u8>| p@))),
        forall|k: int|
            0 <= k < rounds.len() ==> #[trigger] round_view(rounds@[k]@) == Seq::new(
                streams.len() as nat,
                |j: int| (ids@[j]@, streams@[j]@[k]@),
            ),
{
    let ghost sv = streams@.map_values(|s: Vec<Vec<u8>>| s@.map_values(|p: Vec<u8>| p@));
    let mut count: usize = streams[0].len();
    let mut j: usize = 1;
    while j < streams.len()
        invariant
            1 <= j <= streams.len(),
            sv == streams@.map_values(|s: Vec<Vec<u8>>| s@.map_values(|p: Vec<u8>| p@)),
            count == shortest_stream(sv.take(j as int)),
        decreases streams.len() - j,
    {
        assert(sv.take(j as int + 1).drop_last() =~= sv.take(j as int));
        if streams[j].len() < count {
            count = streams[j].len();
        }
        j = j + 1;
    }
    assert(sv.take(streams.len() as int) =~= sv);
    proof {
        lemma_shortest_stream(sv);
        assert forall|j: int| 0 <= j < streams.len() implies count <= #[trigger] streams@[j]@.len() by {
            assert(sv[j].len() == streams@[j]@.len());
        }
    }
    let mut rounds: Vec<Vec<(String, Vec<u8>)>> = Vec::new();
    let mut k: usize = 0;
    while k < count
        invariant
            k <= count,
            count == shortest_stream(sv),
            ids.len() == streams.len(),
            sv == streams@.map_values(|s: Vec<Vec<u8>>| s@.map_values(|p: Vec<u8>| p@)),
            forall|j: int| 0 <= j < streams.len() ==> count <= #[trigger] streams@[j]@.len(),
            rounds.len() == k,
            forall|r: int|
                0 <= r < k ==> #[trigger] round_view(rounds@[r]@) == Seq::new(
                    streams.len() as nat,
                    |j: int| (ids@[j]@, streams@[j]@[r]@),
                ),
        decreases count - k,
    {
        let mut round: Vec<(String, Vec<u8>)> = Vec::new();
        let mut j: usize = 0;
        while j < streams.len()
            invariant
                j <= streams.len(),
                k < count,
                ids.len() == streams.len(),
                sv == streams@.map_values(|s: Vec<Vec<u8>>| s@.map_values(|p: Vec<u8>| p@)),
                forall|j: int| 0 <= j < streams.len() ==> count <= #[trigger] streams@[j]@.len(),
                round.len() == j,
                forall|i: int| 0 <= i < j ==> #[trigger] round@[i].0@ == ids@[i]@ && round@[i].1@ == streams@[i]@[k as int]@,
            decreases streams.len() - j,
        {
            let packet = slice_to_vec(streams[j][k].as_slice());
            let name = ids[j].clone();
            assert(name@ == ids@[j as int]@);
            assert(packet@ == streams@[j as int]@[k as int]@);
            let ghost before = round@;
            round.push((name, packet));
            assert forall|i: int| 0 <= i < j + 1 implies #[trigger] round@[i].0@ == ids@[i]@
                && round@[i].1@ == streams@[i]@[k as int]@ by {
                if i < j {
                    assert(round@[i] == before[i]);
                }
            }
            j = j + 1;
        }
        assert(round_view(round@) =~= Seq::new(
            streams.len() as nat,
            |j: int| (ids@[j]@, streams@[j]@[k as int]@),
        ));
        rounds.push(round);
        k = k + 1;
    }
    rounds
}

/// The packets that `pinecone` decodes from a stream file, read as a
/// `Vec<Vec<u8>>`, or `None` where it fails.
pub uninterp spec fn stream_packets_of(data: Seq<u8>) -> Option<Seq<Seq<u8>>>;

/// Calls `pinecone::from_bytes::<Vec<Vec<u8>>>` on the file's contents.
/// Trusted: the outcome is a function of the bytes alone, named
/// `stream_packets_of`.
#[verifier::external_body]
fn decode_packets(data: &[u8]) -> (r: Option<Vec<Vec<u8>>>)
    ensures
        match stream_packets_of(data@) {
            Some(packets) => r matches Some(v) && v@.map_values(|p: Vec<u8>| p@) == packets,
            None => r is None,
        },
{
    pinecone::from_bytes::<Vec<Vec<u8>>>(data).ok()
}

/// Why a stream file was refused.
#[derive(Debug, PartialEq, Eq)]
pub enum StreamFileError {
    /// The file holds no `pinecone`-encoded list of packets.
    Malformed,
}

/// The packets of a stream file, in the order the stream provider sends
/// them.
pub fn stream_packets(data: &[u8]) -> (r: Result<Vec<Vec<u8>>, StreamFileError>)
    ensures
        match stream_packets_of(data@) {
            Some(packets) => r matches Ok(v) && v@.map_values(|p: Vec<u8>| p@) == packets,
            None => r == Err::<Vec<Vec<u8>>, StreamFileError>(StreamFileError::Malformed),
        },
{
    match decode_packets(data) {
        Some(packets) => Ok(packets),
        None => Err(StreamFileError::Malformed),
    }
}

/// The packets among `outputs` that are not empty, in order.
pub open spec fn nonempty_packets(outputs: Seq<Seq<u8>>) -> Seq<Seq<u8>>
    decreases outputs.len(),
{
    if outputs.len() == 0 {
        seq![]
    } else {
        let rest = nonempty_packets(outputs.drop_last());
        if outputs.last().len() > 0 {
            rest.push(outputs.last())
        } else {
            rest
        }
    }
}

/// The TLS output that the server loop forwards to the client after
/// handing it data: every non-empty packet of the output, in order, and
/// nothing when there was no output.
pub fn outputs_to_forward(output_data: Option<Vec<Vec<u8>>>) -> (forwarded: Vec<Vec<u8>>)
    ensures
        forwarded@.map_values(|p: Vec<u8>| p@) == match output_data {
            Some(outputs) => nonempty_packets(outputs@.map_values(|p: Vec<u8>| p@)),
            None => Seq::<Seq<u8>>::empty(),
        },
{
    let outputs = match output_data {
        Some(outputs) => outputs,
        None => Vec::new(),
    };
    let ghost ov = outputs@.map_values(|p: Vec<u8>| p@);
    let mut forwarded: Vec<Vec<u8>> = Vec::new();
    let mut i: usize = 0;
    while i < outputs.len()
        invariant
            i <= outputs.len(),
            ov == outputs@.map_values(|p: Vec<u8>| p@),
            forwarded@.map_values(|p: Vec<u8>| p@) == nonempty_packets(ov.take(i as int)),
        decreases outputs.len() - i,
    {
        assert(ov.take(i as int + 1).drop_last() =~= ov.take(i as int));
        if outputs[i].len() > 0 {
            let packet = slice_to_vec(outputs[i].as_slice());
            forwarded.push(packet);
            assert(forwarded@.map_values(|p: Vec<u8>| p@) =~= nonempty_packets(ov.take(i as int)).push(ov[i as int]));
        }
        i = i + 1;
    }
    assert(ov.take(outputs.len() as int) =~= ov);
    forwarded
}

/// What the client does next while it waits for the server's answer.
#[derive(Debug, PartialEq, Eq)]
pub enum ClientTlsAction {
    /// Feed the received TLS data to the session and read any plaintext.
    ProcessReceived,
    /// Send the TLS data that the session wants to write.
    FlushOutgoing,
    /// Nothing to do this round.
    Idle,
}

/// The client's step: received data is processed once the handshake is
/// over or the session wants to read; otherwise pending TLS output is sent.
pub fn client_tls_action(received: bool, is_handshaking: bool, wants_read: bool, wants_write: bool) -> (action: ClientTlsAction)
    ensures
        received && (!is_handshaking || wants_read) ==> action == ClientTlsAction::ProcessReceived,
        !(received && (!is_handshaking || wants_read)) && wants_write ==> action == ClientTlsAction::FlushOutgoing,
        !(received && (!is_handshaking || wants_read)) && !wants_write ==> action == ClientTlsAction::Idle,
{
    if received && (!is_handshaking || wants_read) {
        ClientTlsAction::ProcessReceived
    } else if wants_write {
        ClientTlsAction::FlushOutgoing
    } else {
        ClientTlsAction::Idle
    }
}

/// The DER certificates in the `CERTIFICATE` sections of a PEM text, as
/// `rustls::internal::pemfile::certs` extracts them, or `None` where it fails.
pub uninterp spec fn pem_certificate_ders(pem: Seq<u8>) -> Option<Seq<Seq<u8>>>;

/// The DER keys in the `RSA PRIVATE KEY` sections of a PEM text, as
/// `rustls::internal::pemfile::rsa_private_keys` extracts them, or `None`
/// where it fails.
pub uninterp spec fn pem_rsa_private_key_ders(pem: Seq<u8>) -> Option<Seq<Seq<u8>>>;

/// Whether `ders` holds exactly the DER blocks of `expected`.
pub open spec fn ders_match(ders: Seq<Vec<u8>>, expected: Seq<Seq<u8>>) -> bool {
    ders.map_values(|d: Vec<u8>| d@) == expected
}

/// Calls `rustls::internal::pemfile::certs` on the PEM text.  Trusted: the
/// outcome is a function of the text alone (the reader is an in-memory
/// cursor), named `pem_certificate_ders`.
#[verifier::external_body]
fn pem_certificates(pem: &[u8]) -> (r: Option<Vec<Vec<u8>>>)
    ensures
        match pem_certificate_ders(pem@) {
            Some(ders) => r matches Some(v) && ders_match(v@, ders),
            None => r is None,
        },
{
    rustls::internal::pemfile::certs(&mut std::io::Cursor::new(pem)).ok().map(
        |certs| certs.into_iter().map(|c| c.0).collect(),
    )
}

/// Calls `rustls::internal::pemfile::rsa_private_keys` on the PEM text.
/// Trusted: the outcome is a function of the text alone, named
/// `pem_rsa_private_key_ders`.
#[verifier::external_body]
fn pem_rsa_private_keys(pem: &[u8]) -> (r: Option<Vec<Vec<u8>>>)
    ensures
        match pem_rsa_private_key_ders(pem@) {
            Some(ders) => r matches Some(v) && ders_match(v@, ders),
            None => r is None,
        },
{
    rustls::internal::pemfile::rsa_private_keys(&mut std::io::Cursor::new(pem)).ok().map(
        |keys| keys.into_iter().map(|k| k.0).collect(),
    )
}

/// Why no credential could be taken from a PEM file.
#[derive(Debug, PartialEq, Eq)]
pub enum CredentialError {
    /// The PEM text could not be parsed.
    TLSUnspecifiedError,
    /// The PEM text holds no certificate.
    InvalidLengthError,
}

/// The client's certificate: the first certificate of its PEM file.
pub fn certificate_from_pem(pem: &[u8]) -> (r: Result<Vec<u8>, CredentialError>)
    ensures
        match pem_certificate_ders(pem@) {
            None => r == Err::<Vec<u8>, CredentialError>(CredentialError::TLSUnspecifiedError),
            Some(ders) => if ders.len() == 0 {
                r == Err::<Vec<u8>, CredentialError>(CredentialError::InvalidLengthError)
            } else {
                r matches Ok(c) && c@ == ders[0]
            },
        },
{
    match pem_certificates(pem) {
        None => Err(CredentialError::TLSUnspecifiedError),
        Some(certs) => {
            if certs.len() == 0 {
                Err(CredentialError::InvalidLengthError)
            } else {
                proof {
                    let ders = pem_certificate_ders(pem@).unwrap();
                    assert(certs@.map_values(|d: Vec<u8>| d@)[0] == ders[0]);
                }
                Ok(slice_to_vec(certs[0].as_slice()))
            }
        },
    }
}

/// The client's private key: the first RSA key of its PEM file.  A file
/// that parses but holds no RSA key is left out (the key is taken by index).
pub fn private_key_from_pem(pem: &[u8]) -> (r: Result<Vec<u8>, CredentialError>)
    requires
        pem_rsa_private_key_ders(pem@) matches Some(ders) ==> ders.len() > 0,
    ensures
        match pem_rsa_private_key_ders(pem@) {
            None => r == Err::<Vec<u8>, CredentialError>(CredentialError::TLSUnspecifiedError),
            Some(ders) => r matches Ok(k) && k@ == ders[0],
        },
{
    match pem_rsa_private_keys(pem) {
        None => Err(CredentialError::TLSUnspecifiedError),
        Some(keys) => {
            proof {
                let ders = pem_rsa_private_key_ders(pem@).unwrap();
                assert(keys@.map_values(|d: Vec<u8>| d@)[0] == ders[0]);
            }
            Ok(slice_to_vec(keys[0].as_slice()))
        },
    }
}

/// Takes the private key from a PEM file when it holds one: `None` when the
/// file parses but has no RSA key (where `private_key_from_pem` does not
/// apply), else what `private_key_from_pem` gives.
pub fn checked_private_key_from_pem(pem: &[u8]) -> (r: Option<Result<Vec<u8>, CredentialError>>)
    ensures
        match pem_rsa_private_key_ders(pem@) {
            None => r == Some(Err::<Vec<u8>, CredentialError>(CredentialError::TLSUnspecifiedError)),
            Some(ders) => if ders.len() == 0 {
                r is None
            } else {
                r matches Some(Ok(k)) && k@ == ders[0]
            },
        },
{
    match pem_rsa_private_keys(pem) {
        Some(keys) => {
            if keys.len() == 0 {
                return None;
            }
        },
        None => {},
    }
    Some(private_key_from_pem(pem))
}

/// A server that reports, with status success, the UTF-8 bytes of the hash
/// that the client expects is accepted: those bytes are valid UTF-8 and
/// decode to the expected hash.
pub proof fn lemma_expected_hash_accepted(expected: Seq<char>)
    ensures
        valid_utf8(encode_utf8(expected)),
        decode_utf8(encode_utf8(expected)) == expected,
{
}

/// ASCII lowering turns each upper-case letter `A`..`Z` into its lower-case
/// letter and leaves every other byte alone, so comparing up to ASCII case
/// takes `DAT` for `dat` and `JSON` for `json`.
pub proof fn lemma_ascii_lower(b: u8)
    ensures
        65 <= b <= 90 ==> ascii_lower(b) == b + 32,
        !(65 <= b <= 90) ==> ascii_lower(b) == b,
        97 <= ascii_lower(b) <= 122 <==> (65 <= b <= 90 || 97 <= b <= 122),
{
}

} // verus!
