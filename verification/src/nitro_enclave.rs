//! The host side of an AWS Nitro enclave: the `nitro-cli` command lines that
//! start and stop it, the reading of what `nitro-cli run-enclave` reports,
//! and the decisions of the loop that serves the enclave's outgoing calls.

use vstd::prelude::*;
use vstd::utf8::*;

use crate::codec::utf8_decode;

verus! {

#[verifier::external_type_specification]
#[verifier::external_body]
pub struct ExSerdeJsonError(serde_json::Error);

#[verifier::external_type_specification]
#[verifier::external_body]
pub struct ExNixError(nix::Error);

#[verifier::external_type_specification]
#[verifier::external_body]
pub struct ExIoError(std::io::Error);

/// What can go wrong with a Nitro enclave.
#[derive(Debug)]
pub enum NitroError {
    /// `nitro-cli` reported no numeric `EnclaveCID`.
    SerdeError,
    /// `nitro-cli` printed no valid JSON.
    SerdeJsonError(serde_json::Error),
    /// A socket call failed.
    NixError(nix::Error),
    /// Running `nitro-cli` failed.
    IOError(std::io::Error),
    /// Sending or receiving a buffer over the enclave's socket failed; the
    /// socket layer's description of the failure.
    VeracruzSocketError(String),
    /// `nitro-cli` printed no valid UTF-8.
    Utf8Error(std::str::Utf8Error),
    /// An EC2 call failed.
    EC2Error,
    /// A lock was poisoned.
    MutexError,
    /// A thread failed.
    ThreadError,
    /// The operation is not implemented.
    UnimplementedError,
}

/// The view of a list of strings.
pub open spec fn strings_view(v: Seq<String>) -> Seq<Seq<char>> {
    v.map_values(|s: String| s@)
}

/// The arguments of `nitro-cli` that start the enclave image at `eif_path`
/// with two CPUs and 256 MiB of memory, in debug mode when asked.
pub open spec fn run_enclave_args_spec(eif_path: Seq<char>, debug: bool) -> Seq<Seq<char>> {
    seq![
        "run-enclave"@,
        "--eif-path"@,
        eif_path,
        "--cpu-count"@,
        "2"@,
        "--memory"@,
        "256"@,
    ] + if debug {
        seq!["--debug-mode=true"@]
    } else {
        Seq::<Seq<char>>::empty()
    }
}

/// The `nitro-cli` arguments that start an enclave.
pub fn run_enclave_args(eif_path: &str, debug: bool) -> (args: Vec<String>)
    ensures
        strings_view(args@) == run_enclave_args_spec(eif_path@, debug),
{
    let mut args: Vec<String> = Vec::new();
    args.push(String::from_str("run-enclave"));
    args.push(String::from_str("--eif-path"));
    args.push(eif_path.to_owned());
    args.push(String::from_str("--cpu-count"));
    args.push(String::from_str("2"));
    args.push(String::from_str("--memory"));
    args.push(String::from_str("256"));
    if debug {
        args.push(String::from_str("--debug-mode=true"));
    }
    assert(strings_view(args@) =~= run_enclave_args_spec(eif_path@, debug));
    args
}

/// The `nitro-cli` arguments that terminate the enclave `enclave_id`.
pub fn terminate_enclave_args(enclave_id: &str) -> (args: Vec<String>)
    ensures
        strings_view(args@) == seq!["terminate-enclave"@, "--enclave-id"@, enclave_id@],
{
    let mut args: Vec<String> = Vec::new();
    args.push(String::from_str("terminate-enclave"));
    args.push(String::from_str("--enclave-id"));
    args.push(enclave_id.to_owned());
    assert(strings_view(args@) =~= seq!["terminate-enclave"@, "--enclave-id"@, enclave_id@]);
    args
}

/// What the `EnclaveCID` member of the report holds.
#[derive(Debug, PartialEq, Eq, Clone, Copy)]
pub enum EnclaveCidField {
    /// Something other than a number, or nothing.
    NotANumber,
    /// A non-negative integer.
    Unsigned(u64),
    /// A negative or fractional number.
    OtherNumber,
}

/// The two members of the `nitro-cli run-enclave` report that the host
/// reads.
#[derive(Debug)]
pub struct RunEnclaveReport {
    /// The `EnclaveCID` member.
    pub enclave_cid: EnclaveCidField,
    /// The `EnclaveID` member, written out as JSON text.
    pub enclave_id_json: String,
}

/// Whether `serde_json` parses `text` as a JSON document.
pub uninterp spec fn json_text_valid(text: Seq<char>) -> bool;

/// What the document that `serde_json` reads from `text` holds in the two
/// members the host reads: the kind of `EnclaveCID` (no number when absent),
/// and `EnclaveID` written back out as JSON text (`null` when absent).
pub uninterp spec fn run_enclave_report_of(text: Seq<char>) -> (EnclaveCidField, Seq<char>);

/// Calls `serde_json::from_str::<serde_json::Value>` and reads the two
/// members of the document: the variant of `EnclaveCID` (a number counts as
/// unsigned when `Number::as_u64` gives it, that is, when it is a
/// non-negative integer) and the `Display` text of `EnclaveID`.  Trusted:
/// parsing succeeds exactly when `json_text_valid` holds of the text, and the
/// members read are a function of the text alone, named
/// `run_enclave_report_of`.
#[verifier::external_body]
fn parse_run_enclave_report(text: &str) -> (r: Result<RunEnclaveReport, serde_json::Error>)
    ensures
        r is Ok <==> json_text_valid(text@),
        r matches Ok(report) ==> (report.enclave_cid, report.enclave_id_json@)
            == run_enclave_report_of(text@),
{
    serde_json::from_str::<serde_json::Value>(text).map(
        |doc| RunEnclaveReport {
            enclave_cid: match &doc["EnclaveCID"] {
                serde_json::Value::Number(n) => match n.as_u64() {
                    Some(u) => EnclaveCidField::Unsigned(u),
                    None => EnclaveCidField::OtherNumber,
                },
                _ => EnclaveCidField::NotANumber,
            },
            enclave_id_json: doc["EnclaveID"].to_string(),
        },
    )
}

/// Reads what `nitro-cli run-enclave` printed: UTF-8 text holding a JSON
/// document, of which the host reads `EnclaveCID` and `EnclaveID`.
pub fn parse_cli_output(stdout: &[u8]) -> (r: Result<RunEnclaveReport, NitroError>)
    ensures
        !valid_utf8(stdout@) ==> r matches Err(NitroError::Utf8Error(_)),
        valid_utf8(stdout@) && !json_text_valid(decode_utf8(stdout@)) ==> r matches Err(
            NitroError::SerdeJsonError(_),
        ),
        valid_utf8(stdout@) && json_text_valid(decode_utf8(stdout@)) ==> (r matches Ok(report)
            && (report.enclave_cid, report.enclave_id_json@) == run_enclave_report_of(
            decode_utf8(stdout@),
        )),
{
    let text = match utf8_decode(stdout) {
        Ok(text) => text,
        Err(e) => {
            return Err(NitroError::Utf8Error(e));
        },
    };
    match parse_run_enclave_report(text) {
        Ok(report) => Ok(report),
        Err(e) => Err(NitroError::SerdeJsonError(e)),
    }
}

/// Strips every leading `c` from `s`.
pub open spec fn strip_leading(s: Seq<char>, c: char) -> Seq<char>
    decreases s.len(),
{
    if s.len() > 0 && s[0] == c {
        strip_leading(s.drop_first(), c)
    } else {
        s
    }
}

/// Strips every trailing `c` from `s`.
pub open spec fn strip_trailing(s: Seq<char>, c: char) -> Seq<char>
    decreases s.len(),
{
    if s.len() > 0 && s.last() == c {
        strip_trailing(s.drop_last(), c)
    } else {
        s
    }
}

/// `str::trim_matches` with a single character: every leading and
/// trailing occurrence of `c` removed.
pub open spec fn trim_matches_spec(s: Seq<char>, c: char) -> Seq<char> {
    strip_trailing(strip_leading(s, c), c)
}

proof fn lemma_strip_leading_from(s: Seq<char>, c: char, i: int)
    requires
        0 <= i <= s.len(),
        forall|k: int| 0 <= k < i ==> s[k] == c,
    ensures
        strip_leading(s, c) == strip_leading(s.subrange(i, s.len() as int), c),
    decreases i,
{
    if i > 0 {
        assert(s.drop_first().subrange(i - 1, s.drop_first().len() as int) =~= s.subrange(
            i,
            s.len() as int,
        ));
        lemma_strip_leading_from(s.drop_first(), c, i - 1);
    } else {
        assert(s.subrange(0, s.len() as int) =~= s);
    }
}

proof fn lemma_strip_trailing_to(s: Seq<char>, c: char, j: int)
    requires
        0 <= j <= s.len(),
        forall|k: int| j <= k < s.len() ==> s[k] == c,
    ensures
        strip_trailing(s, c) == strip_trailing(s.subrange(0, j), c),
    decreases s.len() - j,
{
    if j < s.len() {
        assert(s.drop_last().subrange(0, j) =~= s.subrange(0, j));
        lemma_strip_trailing_to(s.drop_last(), c, j);
    } else {
        assert(s.subrange(0, s.len() as int) =~= s);
    }
}

/// Removes the double quotes from both ends of a string, as
/// `str::trim_matches('"')` does.
pub fn trim_double_quotes(s: &str) -> (trimmed: String)
    ensures
        trimmed@ == trim_matches_spec(s@, '"'),
{
    let chars = crate::codec::str_chars(s);
    let n = chars.len();
    let mut i: usize = 0;
    while i < n && chars[i] == '"'
        invariant
            n == chars@.len(),
            i <= n,
            forall|k: int| 0 <= k < i ==> chars@[k] == '"',
        decreases n - i,
    {
        i = i + 1;
    }
    let mut j: usize = n;
    while j > i && chars[j - 1] == '"'
        invariant
            n == chars@.len(),
            i <= j <= n,
            forall|k: int| j <= k < n ==> chars@[k] == '"',
        decreases j,
    {
        j = j - 1;
    }
    let mut kept: Vec<char> = Vec::new();
    let mut k: usize = i;
    while k < j
        invariant
            i <= k <= j <= n,
            n == chars@.len(),
            kept@ == chars@.subrange(i as int, k as int),
        decreases j - k,
    {
        kept.push(chars[k]);
        k = k + 1;
        assert(kept@ =~= chars@.subrange(i as int, k as int));
    }
    proof {
        let cs = chars@;
        lemma_strip_leading_from(cs, '"', i as int);
        let rest = cs.subrange(i as int, n as int);
        if i < n {
            assert(rest[0] != '"');
        }
        assert(strip_leading(rest, '"') == rest);
        assert forall|m: int| j - i <= m < rest.len() implies rest[m] == '"' by {
            assert(rest[m] == cs[i + m]);
        }
        lemma_strip_trailing_to(rest, '"', j - i);
        let core = rest.subrange(0, j - i);
        assert(core =~= cs.subrange(i as int, j as int));
        if j > i {
            assert(core.last() == cs[j - 1]);
            assert(cs[j - 1] != '"');
        }
        assert(strip_trailing(core, '"') == core);
    }
    crate::codec::string_from_chars(kept.as_slice())
}

/// Takes the enclave's identifier and context identifier out of the report
/// of `nitro-cli run-enclave`: `SerdeError` when `EnclaveCID` is no number;
/// else the CID, with the JSON text of `EnclaveID` stripped of its quotes.
/// A CID that is a number but no `u32` is left out (it is converted with an
/// unwrap).
pub fn enclave_identity(report: &RunEnclaveReport) -> (r: Result<(String, u32), NitroError>)
    requires
        report.enclave_cid !is OtherNumber,
        report.enclave_cid matches EnclaveCidField::Unsigned(cid) ==> cid <= u32::MAX,
    ensures
        report.enclave_cid is NotANumber ==> r matches Err(NitroError::SerdeError),
        report.enclave_cid matches EnclaveCidField::Unsigned(cid) ==> (r matches Ok((id, c)) && c
            == cid && id@ == trim_matches_spec(report.enclave_id_json@, '"')),
{
    match report.enclave_cid {
        EnclaveCidField::Unsigned(cid) => {
            let id = trim_double_quotes(report.enclave_id_json.as_str());
            Ok((id, cid as u32))
        },
        _ => Err(NitroError::SerdeError),
    }
}

/// What the outgoing-call loop does when the address it binds to is in
/// use.
#[derive(Debug, PartialEq, Eq, Clone, Copy)]
pub enum BindRetry {
    /// Try to bind again.
    Retry,
    /// The host asked the loop to stop: give up binding.
    Terminate,
}

/// The loop retries binding until the host sends `true` on its terminate
/// channel (`terminate_signal` is what the channel held, if anything).
pub fn after_address_in_use(terminate_signal: Option<bool>) -> (step: BindRetry)
    ensures
        step == BindRetry::Terminate <==> terminate_signal == Some(true),
{
    match terminate_signal {
        Some(true) => BindRetry::Terminate,
        _ => BindRetry::Retry,
    }
}

/// What the outgoing-call loop does when accepting a connection fails.
#[derive(Debug, PartialEq, Eq, Clone, Copy)]
pub enum AcceptFailureStep {
    /// Keep accepting.
    KeepListening,
    /// The host asked the loop to stop.
    Terminate,
    /// Report the error, then keep accepting.
    ReportAndKeepListening,
}

/// On a system error (such as no pending connection on the non-blocking
/// socket) the loop stops if the host has sent `true`; any other error is
/// reported and the loop goes on.
pub fn after_accept_failure(is_system_error: bool, terminate_signal: Option<bool>) -> (step:
    AcceptFailureStep)
    ensures
        !is_system_error ==> step == AcceptFailureStep::ReportAndKeepListening,
        is_system_error ==> (step == AcceptFailureStep::Terminate <==> terminate_signal == Some(
            true,
        )),
        is_system_error ==> step != AcceptFailureStep::ReportAndKeepListening,
{
    if !is_system_error {
        AcceptFailureStep::ReportAndKeepListening
    } else {
        match terminate_signal {
            Some(true) => AcceptFailureStep::Terminate,
            _ => AcceptFailureStep::KeepListening,
        }
    }
}

proof fn lemma_strip_leading_shape(s: Seq<char>, c: char)
    ensures
        strip_leading(s, c).len() > 0 ==> strip_leading(s, c)[0] != c,
        exists|i: int| 0 <= i <= s.len() && strip_leading(s, c) == s.subrange(i, s.len() as int),
    decreases s.len(),
{
    if s.len() > 0 && s[0] == c {
        lemma_strip_leading_shape(s.drop_first(), c);
        let i = choose|i: int|
            0 <= i <= s.drop_first().len() && strip_leading(s.drop_first(), c) == s.drop_first().subrange(
                i,
                s.drop_first().len() as int,
            );
        assert(s.drop_first().subrange(i, s.drop_first().len() as int) =~= s.subrange(
            i + 1,
            s.len() as int,
        ));
    } else {
        assert(s.subrange(0, s.len() as int) =~= s);
    }
}

proof fn lemma_strip_trailing_shape(s: Seq<char>, c: char)
    ensures
        strip_trailing(s, c).len() > 0 ==> strip_trailing(s, c).last() != c,
        exists|j: int| 0 <= j <= s.len() && strip_trailing(s, c) == s.subrange(0, j),
    decreases s.len(),
{
    if s.len() > 0 && s.last() == c {
        lemma_strip_trailing_shape(s.drop_last(), c);
        let j = choose|j: int|
            0 <= j <= s.drop_last().len() && strip_trailing(s.drop_last(), c) == s.drop_last().subrange(0, j);
        assert(s.drop_last().subrange(0, j) =~= s.subrange(0, j));
    } else {
        assert(s.subrange(0, s.len() as int) =~= s);
    }
}

/// Trimming quotes leaves no quote at either end, and trimming again
/// changes nothing.
pub proof fn lemma_trim_matches_idempotent(s: Seq<char>, c: char)
    ensures
        trim_matches_spec(s, c).len() > 0 ==> trim_matches_spec(s, c)[0] != c,
        trim_matches_spec(s, c).len() > 0 ==> trim_matches_spec(s, c).last() != c,
        trim_matches_spec(trim_matches_spec(s, c), c) == trim_matches_spec(s, c),
{
    let lead = strip_leading(s, c);
    let t = strip_trailing(lead, c);
    lemma_strip_leading_shape(s, c);
    lemma_strip_trailing_shape(lead, c);
    let j = choose|j: int| 0 <= j <= lead.len() && t == lead.subrange(0, j);
    if t.len() > 0 {
        assert(t[0] == lead[0]);
        assert(strip_leading(t, c) == t);
        assert(strip_trailing(t, c) == t);
    } else {
        assert(strip_leading(t, c) == t);
        assert(strip_trailing(t, c) == t);
    }
}

} // verus!
