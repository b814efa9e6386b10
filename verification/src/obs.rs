//! The OBS WebSocket protocol as the bridge speaks it: the endpoint, the
//! Hello/Identify handshake with its challenge-response authentication,
//! how a request's answer is read, which requests each operation needs, and
//! the OBS state the user interface shows. The socket itself is the
//! caller's.
use vstd::prelude::*;
use base64::Engine;
use sha2::Digest;
use crate::config::FitMode;
use crate::error::{BridgeError, ErrorKind};
use crate::state::ObsState;
use crate::text::{
    decimal, eq_str, lemma_less_irreflexive, lemma_less_total, lemma_less_transitive, opt_view,
    seq_less, str_less, trim, trim_str, u64_to_string,
};
use crate::mediamtx::join_with;
use crate::live::join;

verus! {

/// The SHA-256 digest of `data`.
pub uninterp spec fn sha256_digest(data: Seq<u8>) -> Seq<u8>;

/// The character of a 6-bit value in the standard Base64 alphabet
/// (RFC 4648, table 1): `A`-`Z`, `a`-`z`, `0`-`9`, `+`, `/`.
pub open spec fn base64_char(v: int) -> char {
    if v < 26 {
        ('A' as int + v) as char
    } else if v < 52 {
        ('a' as int + (v - 26)) as char
    } else if v < 62 {
        ('0' as int + (v - 52)) as char
    } else if v == 62 {
        '+'
    } else {
        '/'
    }
}

/// The standard (RFC 4648, padded) Base64 text of `data`: each group of
/// three bytes becomes four characters of six bits each, most significant
/// first; a final group of one or two bytes is filled with zero bits and
/// padded with `=` to four characters.
pub open spec fn base64_standard(data: Seq<u8>) -> Seq<char>
    decreases data.len(),
{
    if data.len() == 0 {
        seq![]
    } else if data.len() == 1 {
        let a = data[0] as int;
        seq![base64_char(a / 4), base64_char((a % 4) * 16), '=', '=']
    } else if data.len() == 2 {
        let a = data[0] as int;
        let b = data[1] as int;
        seq![base64_char(a / 4), base64_char((a % 4) * 16 + b / 16), base64_char((b % 16) * 4), '=']
    } else {
        let a = data[0] as int;
        let b = data[1] as int;
        let c = data[2] as int;
        seq![
            base64_char(a / 4),
            base64_char((a % 4) * 16 + b / 16),
            base64_char((b % 16) * 4 + c / 64),
            base64_char(c % 64),
        ] + base64_standard(data.subrange(3, data.len() as int))
    }
}

/// Calls `sha2::Sha256::digest`; the result is `sha256_digest` of the data,
/// 32 bytes long.
#[verifier::external_body]
fn sha256(data: &[u8]) -> (d: Vec<u8>)
    ensures
        d@ == sha256_digest(data@),
        d@.len() == 32,
{
    sha2::Sha256::digest(data).to_vec()
}

/// Calls `Engine::encode` of `base64::engine::general_purpose::STANDARD`
/// (the standard alphabet with padding); the result is `base64_standard` of
/// the data. The encoder panics when the
/// encoded length overflows `usize`, which the bound rules out.
#[verifier::external_body]
fn base64_encode(data: &[u8]) -> (s: String)
    requires
        data@.len() <= usize::MAX / 4,
    ensures
        s@ == base64_standard(data@),
{
    base64::engine::general_purpose::STANDARD.encode(data)
}

/// The UTF-8 bytes of a text.
pub open spec fn utf8(s: Seq<char>) -> Seq<u8> {
    vstd::utf8::encode_utf8(s)
}

/// OBS WebSocket 5 authentication: `base64(sha256(password + salt))` is the
/// secret, and `base64(sha256(secret + challenge))` the answer.
pub open spec fn obs_authentication(password: Seq<char>, salt: Seq<char>, challenge: Seq<char>) -> Seq<char> {
    let secret = base64_standard(sha256_digest(utf8(password + salt)));
    base64_standard(sha256_digest(utf8(secret + challenge)))
}

pub fn authentication_string(password: &str, salt: &str, challenge: &str) -> (r: String)
    ensures
        r@ == obs_authentication(password@, salt@, challenge@),
{
    let first = String::from_str(password).concat(salt);
    let first_digest = sha256(first.as_str().as_bytes());
    let secret = base64_encode(first_digest.as_slice());
    let second = secret.concat(challenge);
    let second_digest = sha256(second.as_str().as_bytes());
    base64_encode(second_digest.as_slice())
}

/// The WebSocket URL of OBS, once the endpoint is usable: a host that is
/// not blank and a port that is not 0.
pub fn obs_endpoint(host: &str, port: u16) -> (r: Result<String, BridgeError>)
    ensures
        trim(host@).len() == 0 || port == 0 ==> (r matches Err(e) && e@ == (
            ErrorKind::Validation,
            "OBS endpoint is invalid"@,
        )),
        !(trim(host@).len() == 0 || port == 0) ==> (r matches Ok(url) && url@ == "ws://"@ + host@
            + ":"@ + decimal(port as nat)),
{
    if trim_str(host).unicode_len() == 0 || port == 0 {
        return Err(BridgeError::Validation(String::from_str("OBS endpoint is invalid")));
    }
    Ok(String::from_str("ws://").concat(host).concat(":").concat(u64_to_string(port as u64).as_str()))
}

/// The salt and challenge of OBS's authentication request.
#[derive(Debug, Clone)]
pub struct AuthChallenge {
    pub salt: Option<String>,
    pub challenge: Option<String>,
}

/// What the bridge reads of OBS's Hello message: its op code, whether its
/// `d` payload is an object, the RPC version offered and the authentication
/// request.
#[derive(Debug, Clone)]
pub struct ObsHello {
    pub op: Option<u64>,
    pub has_data: bool,
    pub rpc_version: Option<u64>,
    pub authentication: Option<AuthChallenge>,
}

/// The Identify message to send: RPC version 1 (or lower when offered) and
/// the authentication answer where OBS asked for one.
#[derive(Debug, Clone)]
pub struct ObsIdentify {
    pub rpc_version: u64,
    pub authentication: Option<String>,
}

pub open spec fn obs_error(detail: Seq<char>) -> (ErrorKind, Seq<char>) {
    (ErrorKind::Obs, detail)
}

/// Why the handshake cannot go on after Hello, in this order.
pub open spec fn hello_problem(hello: ObsHello, password: Option<Seq<char>>) -> Option<(ErrorKind, Seq<char>)> {
    if hello.op != Some(0u64) {
        Some(obs_error("OBS did not send protocol Hello"@))
    } else if !hello.has_data {
        Some(obs_error("OBS Hello payload is invalid"@))
    } else {
        match hello.authentication {
            Some(auth) => if password is None {
                Some(obs_error("OBS WebSocket requires a password; save it to Keychain"@))
            } else if auth.salt is None {
                Some(obs_error("OBS auth salt missing"@))
            } else if auth.challenge is None {
                Some(obs_error("OBS auth challenge missing"@))
            } else {
                None
            },
            None => None,
        }
    }
}

/// The handshake goes on only after a well-formed Hello (op 0, with data);
/// when OBS asks for authentication it needs a stored password and both the
/// salt and the challenge, and without a password it is refused.
pub proof fn law_hello(hello: ObsHello, password: Option<Seq<char>>)
    ensures
        hello_problem(hello, password) is None <==> (hello.op == Some(0u64) && hello.has_data && (
        hello.authentication matches Some(auth) ==> (password is Some && auth.salt is Some
            && auth.challenge is Some))),
        hello_problem(hello, password) matches Some(e) ==> e.0 == ErrorKind::Obs,
        hello.op == Some(0u64) && hello.has_data && hello.authentication is Some && password is None
            ==> hello_problem(hello, password) == Some(
            obs_error("OBS WebSocket requires a password; save it to Keychain"@),
        ),
{
}

/// Answers OBS's Hello with the password stored for it, if any.
pub fn identify(hello: &ObsHello, password: Option<&str>) -> (r: Result<ObsIdentify, BridgeError>)
    ensures
        crate::error::result_matches(
            r,
            hello_problem(
                *hello,
                match password {
                    Some(p) => Some(p@),
                    None => None,
                },
            ),
        ),
        r matches Ok(id) ==> {
            &&& id.rpc_version == (match hello.rpc_version {
                Some(v) => if v < 1 {
                    v
                } else {
                    1u64
                },
                None => 1u64,
            })
            &&& match hello.authentication {
                Some(auth) => opt_view(id.authentication) == Some(
                    obs_authentication(password->0@, auth.salt->0@, auth.challenge->0@),
                ),
                None => id.authentication is None,
            }
        },
{
    if hello.op != Some(0) {
        return Err(BridgeError::Obs(String::from_str("OBS did not send protocol Hello")));
    }
    if !hello.has_data {
        return Err(BridgeError::Obs(String::from_str("OBS Hello payload is invalid")));
    }
    let offered = match hello.rpc_version {
        Some(v) => v,
        None => 1,
    };
    let rpc_version = if offered < 1 {
        offered
    } else {
        1
    };
    let authentication = match &hello.authentication {
        Some(auth) => {
            let password = match password {
                Some(p) => p,
                None => {
                    return Err(
                        BridgeError::Obs(
                            String::from_str(
                                "OBS WebSocket requires a password; save it to Keychain",
                            ),
                        ),
                    );
                },
            };
            let salt = match &auth.salt {
                Some(s) => s,
                None => {
                    return Err(BridgeError::Obs(String::from_str("OBS auth salt missing")));
                },
            };
            let challenge = match &auth.challenge {
                Some(c) => c,
                None => {
                    return Err(BridgeError::Obs(String::from_str("OBS auth challenge missing")));
                },
            };
            Some(authentication_string(password, salt.as_str(), challenge.as_str()))
        },
        None => None,
    };
    Ok(ObsIdentify { rpc_version, authentication })
}

/// OBS answers Identify with Identified (op 2), else it rejected the
/// authentication.
pub fn check_identified(op: Option<u64>) -> (r: Result<(), BridgeError>)
    ensures
        op == Some(2u64) <==> r is Ok,
        r matches Err(e) ==> e@ == obs_error("OBS authentication was rejected"@),
{
    if op != Some(2) {
        return Err(BridgeError::Obs(String::from_str("OBS authentication was rejected")));
    }
    Ok(())
}

/// The status block of a request's answer.
#[derive(Debug, Clone)]
pub struct RequestStatus {
    pub result: Option<bool>,
    pub code: Option<u64>,
    pub comment: Option<String>,
}

/// What the bridge reads of a message while it waits for an answer: its op
/// code, whether `d` is an object, its request ID and status.
#[derive(Debug, Clone)]
pub struct ObsMessage {
    pub op: Option<u64>,
    pub has_payload: bool,
    pub request_id: Option<String>,
    pub status: Option<RequestStatus>,
}

/// What a message means for the request waiting on it.
#[derive(Debug)]
pub enum ResponseOutcome {
    /// Not this request's answer: keep reading.
    Skip,
    /// The request failed.
    Failed(BridgeError),
    /// The request succeeded; its `responseData` is the answer.
    Done,
}

/// The request's answer: a RequestResponse (op 7) with the request's ID.
/// A malformed one, or one whose status is not a success, fails with the
/// request named.
pub fn response_outcome(request_type: &str, request_id: &str, message: &ObsMessage) -> (o: ResponseOutcome)
    ensures
        message.op != Some(7u64) ==> o is Skip,
        message.op == Some(7u64) && !message.has_payload ==> (o matches ResponseOutcome::Failed(e)
            && e@ == obs_error(request_type@ + ": invalid response payload"@)),
        message.op == Some(7u64) && message.has_payload && opt_view(message.request_id) != Some(
            request_id@,
        ) ==> o is Skip,
        message.op == Some(7u64) && message.has_payload && opt_view(message.request_id) == Some(
            request_id@,
        ) ==> match message.status {
            None => o matches ResponseOutcome::Failed(e) && e@ == obs_error(
                request_type@ + ": status missing"@,
            ),
            Some(status) => if status.result == Some(true) {
                o is Done
            } else {
                o matches ResponseOutcome::Failed(e) && e@ == obs_error(
                    request_type@ + " failed ("@ + decimal(
                        match status.code {
                            Some(c) => c,
                            None => 0u64,
                        } as nat,
                    ) + "): "@ + match status.comment {
                        Some(c) => c@,
                        None => "request failed"@,
                    },
                )
            },
        },
{
    if message.op != Some(7) {
        return ResponseOutcome::Skip;
    }
    if !message.has_payload {
        return ResponseOutcome::Failed(
            BridgeError::Obs(String::from_str(request_type).concat(": invalid response payload")),
        );
    }
    let same = match &message.request_id {
        Some(id) => eq_str(id.as_str(), request_id),
        None => false,
    };
    if !same {
        return ResponseOutcome::Skip;
    }
    let status = match &message.status {
        Some(s) => s,
        None => {
            return ResponseOutcome::Failed(
                BridgeError::Obs(String::from_str(request_type).concat(": status missing")),
            );
        },
    };
    let succeeded = match status.result {
        Some(b) => b,
        None => false,
    };
    if !succeeded {
        let code = match status.code {
            Some(c) => c,
            None => 0,
        };
        let comment = match &status.comment {
            Some(c) => c.as_str(),
            None => "request failed",
        };
        return ResponseOutcome::Failed(
            BridgeError::Obs(
                String::from_str(request_type).concat(" failed (").concat(
                    u64_to_string(code).as_str(),
                ).concat("): ").concat(comment),
            ),
        );
    }
    ResponseOutcome::Done
}

/// `name` is among `names`.
pub open spec fn has_name(names: Seq<String>, name: Seq<char>) -> bool {
    exists|i: int| 0 <= i < names.len() && #[trigger] names[i]@ == name
}

pub fn contains_name(names: &Vec<String>, name: &str) -> (b: bool)
    ensures
        b == has_name(names@, name@),
{
    let mut i: usize = 0;
    while i < names.len()
        invariant
            i <= names@.len(),
            forall|j: int| 0 <= j < i ==> #[trigger] names@[j]@ != name@,
        decreases names@.len() - i,
    {
        if eq_str(names[i].as_str(), name) {
            return true;
        }
        i = i + 1;
    }
    false
}

/// The required requests that OBS does not advertise, in the order
/// required.
pub open spec fn missing_requests(available: Seq<String>, required: Seq<&str>, n: int) -> Seq<Seq<char>>
    decreases n,
{
    if n <= 0 {
        seq![]
    } else if has_name(available, required[n - 1]@) {
        missing_requests(available, required, n - 1)
    } else {
        missing_requests(available, required, n - 1).push(required[n - 1]@)
    }
}

/// Every request an operation uses must be advertised by OBS; else the
/// missing ones are named.
pub fn require_requests(available: &Vec<String>, required: &Vec<&str>) -> (r: Result<(), BridgeError>)
    ensures
        ({
            let missing = missing_requests(available@, required@, required@.len() as int);
            &&& missing.len() == 0 <==> r is Ok
            &&& r matches Err(e) ==> e@ == (
                ErrorKind::UnsupportedAutomation,
                "OBS does not advertise required request(s): "@ + join(missing, ", "@),
            )
        }),
{
    let mut missing: Vec<String> = Vec::new();
    let mut i: usize = 0;
    while i < required.len()
        invariant
            i <= required@.len(),
            missing.deep_view() == missing_requests(available@, required@, i as int),
        decreases required@.len() - i,
    {
        if !contains_name(available, required[i]) {
            let ghost before = missing.deep_view();
            missing.push(String::from_str(required[i]));
            assert(missing.deep_view() =~= before.push(required@[i as int]@));
        }
        i = i + 1;
    }
    if missing.len() == 0 {
        Ok(())
    } else {
        Err(
            BridgeError::UnsupportedAutomation(
                String::from_str("OBS does not advertise required request(s): ").concat(
                    join_with(&missing, ", ").as_str(),
                ),
            ),
        )
    }
}

/// Names ordered strictly.
pub open spec fn sorted_names(names: Seq<String>) -> bool {
    forall|i: int, j: int| 0 <= i < j < names.len() ==> seq_less(#[trigger] names[i]@, #[trigger] names[j]@)
}

fn insert_name(names: &mut Vec<String>, name: String)
    requires
        sorted_names(old(names)@),
    ensures
        sorted_names(final(names)@),
        forall|x: Seq<char>| has_name(final(names)@, x) <==> (has_name(old(names)@, x) || x == name@),
{
    let ghost before = names@;
    let ghost n = name@;
    let mut p: usize = 0;
    while p < names.len() && str_less(names[p].as_str(), name.as_str())
        invariant
            names@ == before,
            n == name@,
            p <= names@.len(),
            forall|i: int| 0 <= i < p ==> seq_less(#[trigger] names@[i]@, n),
        decreases names@.len() - p,
    {
        p = p + 1;
    }
    if p < names.len() && eq_str(names[p].as_str(), name.as_str()) {
        assert(names@[p as int]@ == n);
        return;
    }
    proof {
        if p < names@.len() {
            lemma_less_total(names@[p as int]@, n);
        }
    }
    names.insert(p, name);
    assert(forall|j: int| p <= j < before.len() ==> seq_less(n, #[trigger] before[j]@)) by {
        assert forall|j: int| p <= j < before.len() implies seq_less(n, #[trigger] before[j]@) by {
            if j > p {
                assert(seq_less(before[p as int]@, before[j]@));
                lemma_less_transitive(n, before[p as int]@, before[j]@);
            }
        }
    }
    assert(sorted_names(names@)) by {
        assert forall|i: int, j: int| 0 <= i < j < names@.len() implies seq_less(
            #[trigger] names@[i]@,
            #[trigger] names@[j]@,
        ) by {
            if j < p {
                assert(names@[i] == before[i] && names@[j] == before[j]);
            } else if j == p {
                assert(names@[i] == before[i]);
            } else if i == p {
                assert(names@[j] == before[j - 1]);
            } else if i < p {
                assert(names@[i] == before[i] && names@[j] == before[j - 1]);
                lemma_less_transitive(before[i]@, n, before[j - 1]@);
            } else {
                assert(names@[i] == before[i - 1] && names@[j] == before[j - 1]);
            }
        }
    }
    assert forall|x: Seq<char>| has_name(names@, x) <==> (has_name(before, x) || x == n) by {
        if has_name(names@, x) {
            let i = choose|i: int| 0 <= i < names@.len() && #[trigger] names@[i]@ == x;
            if i < p {
                assert(before[i]@ == x);
            } else if i > p {
                assert(before[i - 1]@ == x);
            }
        }
        if has_name(before, x) {
            let i = choose|i: int| 0 <= i < before.len() && #[trigger] before[i]@ == x;
            if i < p {
                assert(names@[i]@ == x);
            } else {
                assert(names@[i + 1]@ == x);
            }
        }
        if x == n {
            assert(names@[p as int]@ == x);
        }
    }
    assert(forall|x: Seq<char>| has_name(names@, x) <==> (has_name(old(names)@, x) || x == n));
}

/// The advertised requests, each once, in order.
pub fn sorted_requests(requests: &Vec<String>) -> (r: Vec<String>)
    ensures
        sorted_names(r@),
        forall|x: Seq<char>| has_name(r@, x) <==> has_name(requests@, x),
{
    let mut r: Vec<String> = Vec::new();
    let mut i: usize = 0;
    while i < requests.len()
        invariant
            i <= requests@.len(),
            sorted_names(r@),
            forall|x: Seq<char>| has_name(r@, x) <==> has_name(requests@.subrange(0, i as int), x),
        decreases requests@.len() - i,
    {
        let c = requests[i].clone();
        assert(c@ == requests@[i as int]@);
        let ghost old_r = r@;
        insert_name(&mut r, c);
        assert forall|x: Seq<char>| has_name(requests@.subrange(0, i + 1), x) <==> (has_name(
            requests@.subrange(0, i as int),
            x,
        ) || x == requests@[i as int]@) by {
            if has_name(requests@.subrange(0, i + 1), x) {
                let k = choose|k: int| 0 <= k < i + 1 && #[trigger] requests@.subrange(0, i + 1)[k]@ == x;
                if k < i {
                    assert(requests@.subrange(0, i as int)[k] == requests@[k]);
                }
            }
            if has_name(requests@.subrange(0, i as int), x) {
                let k = choose|k: int| 0 <= k < i && #[trigger] requests@.subrange(0, i as int)[k]@ == x;
                assert(requests@.subrange(0, i + 1)[k] == requests@[k]);
            }
            if x == requests@[i as int]@ {
                assert(requests@.subrange(0, i + 1)[i as int]@ == x);
            }
        }
        assert forall|x: Seq<char>| has_name(r@, x) <==> has_name(requests@.subrange(0, i + 1), x) by {
            assert(has_name(r@, x) <==> (has_name(old_r, x) || x == requests@[i as int]@));
            assert(has_name(old_r, x) <==> has_name(requests@.subrange(0, i as int), x));
        }
        i = i + 1;
    }
    assert(requests@.subrange(0, i as int) =~= requests@);
    r
}

/// What OBS's `GetRecordStatus` reported.
#[derive(Debug, Clone)]
pub struct RecordStatus {
    pub active: Option<bool>,
    pub paused: Option<bool>,
    pub path: Option<String>,
}

/// The OBS state shown once connected: versions, the advertised requests
/// (sorted, each once), the outputs' states and what recording reported.
pub fn state_from_version(
    installed: bool,
    obs_version: Option<String>,
    websocket_version: Option<String>,
    requests: &Vec<String>,
    virtual_camera_active: Option<bool>,
    stream_active: Option<bool>,
    record_status: Option<RecordStatus>,
) -> (s: ObsState)
    ensures
        s.installed == installed,
        s.running && s.connected && !s.scene_ready,
        s.obs_version == obs_version,
        s.websocket_version == websocket_version,
        sorted_names(s.available_requests@),
        forall|x: Seq<char>| has_name(s.available_requests@, x) <==> has_name(requests@, x),
        s.virtual_camera_active == virtual_camera_active,
        s.stream_active == stream_active,
        s.recording_active == (match record_status {
            Some(r) => r.active,
            None => None,
        }),
        s.recording_paused == (match record_status {
            Some(r) => r.paused,
            None => None,
        }),
        s.last_recording_path == (match record_status {
            Some(r) => r.path,
            None => None,
        }),
        s.last_error is None,
{
    let (recording_active, recording_paused, last_recording_path) = match record_status {
        Some(r) => (r.active, r.paused, r.path),
        None => (None, None, None),
    };
    ObsState {
        installed,
        running: true,
        connected: true,
        obs_version,
        websocket_version,
        available_requests: sorted_requests(requests),
        scene_ready: false,
        virtual_camera_active,
        stream_active,
        recording_active,
        recording_paused,
        last_recording_path,
        last_error: None,
    }
}

/// How OBS scales the drone source into the canvas: inside it for `Fit`,
/// covering it for `Fill`.
pub fn bounds_type(fit_mode: FitMode) -> (t: &'static str)
    ensures
        fit_mode == FitMode::Fit ==> t@ == "OBS_BOUNDS_SCALE_INNER"@,
        fit_mode == FitMode::Fill ==> t@ == "OBS_BOUNDS_SCALE_OUTER"@,
{
    match fit_mode {
        FitMode::Fit => "OBS_BOUNDS_SCALE_INNER",
        FitMode::Fill => "OBS_BOUNDS_SCALE_OUTER",
    }
}

/// An output is switched only when it is not already as wanted (an unknown
/// state counts as off).
pub fn needs_switch(output_active: Option<bool>, wanted: bool) -> (b: bool)
    ensures
        b == ((output_active == Some(true)) != wanted),
{
    let active = match output_active {
        Some(a) => a,
        None => false,
    };
    active != wanted
}

/// OBS must not be streaming already when the bridge takes over its stream
/// settings.
pub fn stream_start_check(output_active: Option<bool>) -> (r: Result<(), BridgeError>)
    ensures
        output_active == Some(true) <==> r is Err,
        r matches Err(e) ==> e@ == obs_error(
            "OBS is already streaming; service settings were not changed"@,
        ),
{
    if output_active == Some(true) {
        return Err(
            BridgeError::Obs(
                String::from_str("OBS is already streaming; service settings were not changed"),
            ),
        );
    }
    Ok(())
}

/// The source needs the `ffmpeg_source` input kind.
pub fn media_source_check(kinds: &Vec<String>) -> (r: Result<(), BridgeError>)
    ensures
        has_name(kinds@, "ffmpeg_source"@) <==> r is Ok,
        r matches Err(e) ==> e@ == (
            ErrorKind::UnsupportedAutomation,
            "OBS does not advertise the ffmpeg_source input kind"@,
        ),
{
    if !contains_name(kinds, "ffmpeg_source") {
        return Err(
            BridgeError::UnsupportedAutomation(
                String::from_str("OBS does not advertise the ffmpeg_source input kind"),
            ),
        );
    }
    Ok(())
}

/// The requests preparing the scene uses.
pub fn scene_requests() -> (r: Vec<&'static str>)
    ensures
        r@.map_values(|q: &str| q@) == seq![
            "GetSceneList"@,
            "CreateScene"@,
            "GetInputKindList"@,
            "GetInputDefaultSettings"@,
            "GetInputList"@,
            "CreateInput"@,
            "CreateSceneItem"@,
            "SetInputSettings"@,
            "GetSceneItemId"@,
            "SetSceneItemTransform"@,
            "GetVideoSettings"@,
            "SetVideoSettings"@,
        ],
{
    let r = vec![
        "GetSceneList",
        "CreateScene",
        "GetInputKindList",
        "GetInputDefaultSettings",
        "GetInputList",
        "CreateInput",
        "CreateSceneItem",
        "SetInputSettings",
        "GetSceneItemId",
        "SetSceneItemTransform",
        "GetVideoSettings",
        "SetVideoSettings",
    ];
    assert(r@.map_values(|q: &str| q@) =~= seq![
        "GetSceneList"@,
        "CreateScene"@,
        "GetInputKindList"@,
        "GetInputDefaultSettings"@,
        "GetInputList"@,
        "CreateInput"@,
        "CreateSceneItem"@,
        "SetInputSettings"@,
        "GetSceneItemId"@,
        "SetSceneItemTransform"@,
        "GetVideoSettings"@,
        "SetVideoSettings"@,
    ]);
    r
}

/// The video settings restored after the bridge changed them.
pub fn restored_video_settings() -> (r: Vec<&'static str>)
    ensures
        r@.map_values(|k: &str| k@) == seq![
            "fpsNumerator"@,
            "fpsDenominator"@,
            "baseWidth"@,
            "baseHeight"@,
            "outputWidth"@,
            "outputHeight"@,
        ],
{
    let r = vec!["fpsNumerator", "fpsDenominator", "baseWidth", "baseHeight", "outputWidth", "outputHeight"];
    assert(r@.map_values(|k: &str| k@) =~= seq![
        "fpsNumerator"@,
        "fpsDenominator"@,
        "baseWidth"@,
        "baseHeight"@,
        "outputWidth"@,
        "outputHeight"@,
    ]);
    r
}

/// The request that starts or stops OBS's recording.
pub fn record_request(active: bool) -> (r: &'static str)
    ensures
        active ==> r@ == "StartRecord"@,
        !active ==> r@ == "StopRecord"@,
{
    if active {
        "StartRecord"
    } else {
        "StopRecord"
    }
}

/// The request that starts or stops OBS's virtual camera.
pub fn virtual_camera_request(active: bool) -> (r: &'static str)
    ensures
        active ==> r@ == "StartVirtualCam"@,
        !active ==> r@ == "StopVirtualCam"@,
{
    if active {
        "StartVirtualCam"
    } else {
        "StopVirtualCam"
    }
}


/// The bridge's scene is in place when OBS offers both listings, its scene
/// list holds `DJI LIVE` and its input list holds `DJI Drone`. A listing
/// that could not be fetched is `None`.
pub open spec fn scene_in_place(
    requests: Seq<String>,
    scenes: Option<Seq<String>>,
    inputs: Option<Seq<String>>,
) -> bool {
    &&& has_name(requests, "GetSceneList"@)
    &&& has_name(requests, "GetInputList"@)
    &&& scenes matches Some(s) && has_name(s, "DJI LIVE"@)
    &&& inputs matches Some(i) && has_name(i, "DJI Drone"@)
}

pub open spec fn opt_names(v: Option<Vec<String>>) -> Option<Seq<String>> {
    match v {
        Some(names) => Some(names@),
        None => None,
    }
}

pub fn scene_ready(
    requests: &Vec<String>,
    scenes: &Option<Vec<String>>,
    inputs: &Option<Vec<String>>,
) -> (b: bool)
    ensures
        b == scene_in_place(requests@, opt_names(*scenes), opt_names(*inputs)),
{
    if !contains_name(requests, "GetSceneList") || !contains_name(requests, "GetInputList") {
        return false;
    }
    let scene = match scenes {
        Some(s) => contains_name(s, "DJI LIVE"),
        None => false,
    };
    let input = match inputs {
        Some(i) => contains_name(i, "DJI Drone"),
        None => false,
    };
    scene && input
}


/// A value laid over OBS's default settings of the drone source.
#[derive(Debug, Clone)]
pub enum MediaSetting {
    Text(String),
    Flag(bool),
}

/// The settings of the drone source laid over `GetInputDefaultSettings`:
/// it reads MediaMTX's `/drone` over RTSP as a network stream, restarts when
/// it becomes active and stays open while hidden.
pub fn media_source_overrides() -> (r: Vec<(&'static str, MediaSetting)>)
    ensures
        r@.len() == 4,
        r@[0].0@ == "input"@ && (r@[0].1 matches MediaSetting::Text(t) && t@
            == "rtsp://127.0.0.1:8554/drone"@),
        r@[1].0@ == "is_local_file"@ && r@[1].1 == MediaSetting::Flag(false),
        r@[2].0@ == "restart_on_activate"@ && r@[2].1 == MediaSetting::Flag(true),
        r@[3].0@ == "close_when_inactive"@ && r@[3].1 == MediaSetting::Flag(false),
{
    vec![
        ("input", MediaSetting::Text(String::from_str("rtsp://127.0.0.1:8554/drone"))),
        ("is_local_file", MediaSetting::Flag(false)),
        ("restart_on_activate", MediaSetting::Flag(true)),
        ("close_when_inactive", MediaSetting::Flag(false)),
    ]
}

/// How the drone source is put in place.
#[derive(Debug, Clone, Copy, PartialEq, Eq, Structural)]
pub enum MediaSourceRequest {
    /// The input "DJI Drone" exists: its settings are replaced
    /// (`SetInputSettings`), and it is added to the scene where missing.
    UpdateExisting,
    /// It does not: `CreateInput` makes it, enabled, in scene "DJI LIVE".
    CreateInput,
}

/// The media-source step of preparing the scene, from the input kinds OBS
/// offers and the names of its `ffmpeg_source` inputs.
pub fn media_source_step(kinds: &Vec<String>, inputs: &Vec<String>) -> (r: Result<
    MediaSourceRequest,
    BridgeError,
>)
    ensures
        (r is Err) <==> !(exists|i: int| 0 <= i < kinds@.len() && #[trigger] kinds@[i]@ == "ffmpeg_source"@),
        r matches Err(e) ==> e@ == (
            ErrorKind::UnsupportedAutomation,
            "OBS does not advertise the ffmpeg_source input kind"@,
        ),
        r matches Ok(q) ==> q == (if exists|i: int| 0 <= i < inputs@.len() && #[trigger] inputs@[i]@ == "DJI Drone"@ {
            MediaSourceRequest::UpdateExisting
        } else {
            MediaSourceRequest::CreateInput
        }),
{
    match media_source_check(kinds) {
        Ok(()) => {},
        Err(e) => {
            return Err(e);
        },
    }
    if contains_name(inputs, "DJI Drone") {
        Ok(MediaSourceRequest::UpdateExisting)
    } else {
        Ok(MediaSourceRequest::CreateInput)
    }
}

/// An existing drone input is added to the scene only when OBS did not
/// find its scene item (`GetSceneItemId` failed).
pub fn scene_item_needed(item_found: bool) -> (b: bool)
    ensures
        b == !item_found,
{
    !item_found
}

/// The scene "DJI LIVE" is created only when OBS does not list it.
pub fn scene_creation_needed(scenes: &Vec<String>) -> (b: bool)
    ensures
        b == !has_name(scenes@, "DJI LIVE"@),
{
    !contains_name(scenes, "DJI LIVE")
}

/// Keeps the first value put in `slot`: the settings OBS had before the
/// bridge first changed them are what is restored later.
pub fn remember_first<T>(slot: &mut Option<T>, value: T)
    ensures
        *final(slot) == (match *old(slot) {
            Some(v) => Some(v),
            None => Some(value),
        }),
{
    if slot.is_none() {
        *slot = Some(value);
    }
}

/// What setting OBS's recording to a state does once its status is known.
#[derive(Debug, Clone)]
pub enum RecordStep {
    /// It already is in that state: no request, the status's output path is
    /// the answer.
    Done(Option<String>),
    /// This request switches it; the path of its reply is the answer.
    Send(&'static str),
}

pub open spec fn record_step_spec(active: bool, status_active: Option<bool>, status_path: Option<String>) -> RecordStep {
    if (status_active == Some(true)) == active {
        RecordStep::Done(status_path)
    } else {
        RecordStep::Send(if active { "StartRecord" } else { "StopRecord" })
    }
}

/// The step for `GetRecordStatus`'s `outputActive` (absent counts as off)
/// and `outputPath`, wanting the recording `active`.
pub fn record_step(active: bool, status_active: Option<bool>, status_path: Option<String>) -> (r: RecordStep)
    ensures
        match (r, record_step_spec(active, status_active, status_path)) {
            (RecordStep::Done(p), RecordStep::Done(q)) => p == q,
            (RecordStep::Send(a), RecordStep::Send(b)) => a@ == b@,
            _ => false,
        },
{
    if needs_switch(status_active, active) {
        RecordStep::Send(record_request(active))
    } else {
        RecordStep::Done(status_path)
    }
}

/// Setting the recording to the state OBS reports is idempotent: once the
/// status shows it, a second request sends nothing and answers the status's
/// path.
pub proof fn law_recording_idempotent(active: bool, path: Option<String>)
    ensures
        record_step_spec(active, Some(active), path) == RecordStep::Done(path),
{
}

} // verus!
