//! The persisted configuration, the RTMP destinations and their validation.
//! Stream keys are never part of the configuration: they are handed to the
//! key store separately, keyed by `rtmp_keychain_account`.
use vstd::prelude::*;
use crate::error::{BridgeError, ErrorKind, result_matches};
use crate::text::{
    trim, is_ws, chars_of, trim_str, eq_str, has_char, is_whitespace, string_from_range,
};

verus! {

pub const APP_DIR_NAME: &'static str = "DJI Live Bridge";

#[derive(Debug, Clone, Copy, PartialEq, Eq, Structural)]
pub enum OutputLayout {
    Landscape,
    Portrait,
}

#[derive(Debug, Clone, Copy, PartialEq, Eq, Structural)]
pub enum FitMode {
    Fit,
    Fill,
}

#[derive(Debug, Clone, Copy, PartialEq, Eq, Structural)]
pub enum DestinationMode {
    TikTokLiveStudio,
    TikTokRtmp,
    CustomRtmp,
}

#[derive(Debug, Clone, Copy, PartialEq, Eq, Structural)]
pub enum RtmpDestinationKind {
    TikTok,
    Instagram,
    YouTube,
    Facebook,
    Custom,
}

#[derive(Debug, Clone, Copy, PartialEq, Eq, Structural)]
pub enum ProductionEngine {
    NativeFfmpeg,
    Obs,
}

/// The output canvas in pixels (width, height).
pub open spec fn spec_canvas(layout: OutputLayout) -> (u32, u32) {
    match layout {
        OutputLayout::Landscape => (1920, 1080),
        OutputLayout::Portrait => (1080, 1920),
    }
}

/// Both canvases are 16:9 full HD; portrait is the landscape frame turned
/// upright.
pub proof fn law_canvas(layout: OutputLayout)
    ensures
        spec_canvas(OutputLayout::Portrait).0 == spec_canvas(OutputLayout::Landscape).1,
        spec_canvas(OutputLayout::Portrait).1 == spec_canvas(OutputLayout::Landscape).0,
        spec_canvas(OutputLayout::Landscape).0 * 9 == spec_canvas(OutputLayout::Landscape).1 * 16,
        spec_canvas(OutputLayout::Landscape).0 == 1920,
        layout == OutputLayout::Portrait <==> spec_canvas(layout).1 > spec_canvas(layout).0,
{
}

impl OutputLayout {
    /// Width and height of the canvas: 1920x1080 landscape, 1080x1920 portrait.
    pub fn canvas(self) -> (r: (u32, u32))
        ensures
            r == spec_canvas(self),
    {
        match self {
            OutputLayout::Landscape => (1920, 1080),
            OutputLayout::Portrait => (1080, 1920),
        }
    }
}

/// A stored destination: everything but its stream key.
#[derive(Debug, Clone)]
pub struct RtmpDestinationConfig {
    pub id: String,
    pub name: String,
    pub kind: RtmpDestinationKind,
    pub server: String,
    pub enabled: bool,
}

impl RtmpDestinationConfig {
    /// A copy of this destination.
    pub fn duplicate(&self) -> (c: Self)
        ensures
            c == *self,
    {
        RtmpDestinationConfig {
            id: self.id.clone(),
            name: self.name.clone(),
            kind: self.kind,
            server: self.server.clone(),
            enabled: self.enabled,
        }
    }
}

/// A destination as the user enters it; the key is optional when the
/// destination already exists.
#[derive(Debug, Clone)]
pub struct RtmpDestinationInput {
    pub id: Option<String>,
    pub name: String,
    pub kind: RtmpDestinationKind,
    pub server: String,
    pub key: Option<String>,
    pub enabled: bool,
}

#[derive(Debug, Clone)]
pub enum BroadcastDestination {
    TikTok { server: String, key: String },
    Instagram { server: String, key: String },
    YouTube { server: String, key: String },
    Facebook { server: String, key: String },
    Custom { server: String, key: String },
}

/// The parts of a parsed URL that the destination rules read.
pub struct UrlView {
    pub scheme: Seq<char>,
    pub host: Option<Seq<char>>,
    pub username: Seq<char>,
    pub password: Option<Seq<char>>,
    pub fragment: Option<Seq<char>>,
}

/// What `url::Url::parse` makes of a text: `None` when it is no URL.
pub uninterp spec fn url_parse(input: Seq<char>) -> Option<UrlView>;

pub struct UrlParts {
    pub scheme: String,
    pub host: Option<String>,
    pub username: String,
    pub password: Option<String>,
    pub fragment: Option<String>,
}

impl View for UrlParts {
    type V = UrlView;

    open spec fn view(&self) -> UrlView {
        UrlView {
            scheme: self.scheme@,
            host: crate::text::opt_view(self.host),
            username: self.username@,
            password: crate::text::opt_view(self.password),
            fragment: crate::text::opt_view(self.fragment),
        }
    }
}

/// Parses `input` with `url::Url::parse` and reads the scheme, host, user
/// name, password and fragment of the result. The contract only names the
/// result (`url_parse`); what the WHATWG URL rules make of a text is not
/// stated here.
#[verifier::external_body]
pub(crate) fn parse_url(input: &str) -> (r: Option<UrlParts>)
    ensures
        match r {
            Some(u) => url_parse(input@) == Some(u@),
            None => url_parse(input@) is None,
        },
{
    match url::Url::parse(input) {
        Ok(url) => Some(
            UrlParts {
                scheme: url.scheme().to_string(),
                host: url.host_str().map(str::to_string),
                username: url.username().to_string(),
                password: url.password().map(str::to_string),
                fragment: url.fragment().map(str::to_string),
            },
        ),
        Err(_) => None,
    }
}

pub open spec fn rtmp_scheme(s: Seq<char>) -> bool {
    s == "rtmp"@ || s == "rtmps"@
}

/// A stream key is refused when it is blank, or holds a line break, a `#` or
/// any whitespace.
pub open spec fn key_invalid(key: Seq<char>) -> bool {
    ||| trim(key).len() == 0
    ||| key.contains('\r')
    ||| key.contains('\n')
    ||| key.contains('#')
    ||| exists|i: int| 0 <= i < key.len() && is_ws(#[trigger] key[i])
}

/// Why a server/key pair is refused as an RTMP destination (`None`: it is accepted).
pub open spec fn destination_problem(server: Seq<char>, key: Seq<char>) -> Option<Seq<char>> {
    match url_parse(server) {
        None => Some("RTMP server URL is invalid"@),
        Some(u) => if !rtmp_scheme(u.scheme) {
            Some("RTMP destination must use rtmp:// or rtmps://"@)
        } else if u.host is None || u.username.len() != 0 || u.password is Some {
            Some("RTMP destination requires a host and must not contain credentials"@)
        } else if u.fragment is Some {
            Some("RTMP server URL must not contain a stream-key fragment"@)
        } else if key_invalid(key) {
            Some("Stream key is invalid"@)
        } else {
            None
        },
    }
}

/// A stream key that is blank, or holds a line break, a `#` (MediaMTX's
/// forward target is `server#key`) or any whitespace, is never accepted; on
/// a server that some key is accepted with, it is refused with "Stream key
/// is invalid".
pub proof fn law_bad_key_refused(server: Seq<char>, key: Seq<char>, other_key: Seq<char>)
    requires
        key.contains('#') || key.contains('\r') || key.contains('\n') || (exists|i: int|
            0 <= i < key.len() && is_ws(#[trigger] key[i])) || trim(key).len() == 0,
    ensures
        destination_problem(server, key) is Some,
        destination_problem(server, other_key) is None ==> destination_problem(server, key) == Some(
            "Stream key is invalid"@,
        ),
{
}

/// An accepted destination is an `rtmp://` or `rtmps://` URL with a host, no
/// credentials and no fragment, and a key that is not blank and holds no
/// whitespace, line break or `#`.
pub proof fn law_accepted_destination(server: Seq<char>, key: Seq<char>)
    requires
        destination_problem(server, key) is None,
    ensures
        url_parse(server) matches Some(u) && (u.scheme == "rtmp"@ || u.scheme == "rtmps"@)
            && u.host is Some && u.username.len() == 0 && u.password is None && u.fragment is None,
        !key.contains('#') && !key.contains('\r') && !key.contains('\n'),
        forall|i: int| 0 <= i < key.len() ==> !is_ws(#[trigger] key[i]),
        trim(key).len() > 0,
{
}

pub open spec fn validation(problem: Option<Seq<char>>) -> Option<(ErrorKind, Seq<char>)> {
    match problem {
        None => None,
        Some(m) => Some((ErrorKind::Validation, m)),
    }
}

fn validation_error(message: &str) -> (e: BridgeError)
    ensures
        e@ == (ErrorKind::Validation, message@),
{
    BridgeError::Validation(String::from_str(message))
}

fn is_rtmp_scheme(scheme: &String) -> (r: bool)
    ensures
        r == rtmp_scheme(scheme@),
{
    eq_str(scheme.as_str(), "rtmp") || eq_str(scheme.as_str(), "rtmps")
}

fn key_is_invalid(key: &str) -> (r: bool)
    ensures
        r == key_invalid(key@),
{
    let trimmed = trim_str(key);
    if trimmed.unicode_len() == 0 {
        return true;
    }
    let v = chars_of(key);
    if has_char(&v, '\r') || has_char(&v, '\n') || has_char(&v, '#') {
        return true;
    }
    let mut i: usize = 0;
    while i < v.len()
        invariant
            i <= v@.len(),
            v@ == key@,
            forall|j: int| 0 <= j < i ==> !is_ws(#[trigger] v@[j]),
        decreases v@.len() - i,
    {
        if is_whitespace(v[i]) {
            return true;
        }
        i = i + 1;
    }
    false
}

/// Checks a server URL and stream key before they are used for streaming.
pub fn validate_rtmp_destination(server: &str, key: &str) -> (r: Result<(), BridgeError>)
    ensures
        result_matches(r, validation(destination_problem(server@, key@))),
{
    let parsed = match parse_url(server) {
        Some(p) => p,
        None => {
            return Err(validation_error("RTMP server URL is invalid"));
        },
    };
    if !is_rtmp_scheme(&parsed.scheme) {
        return Err(validation_error("RTMP destination must use rtmp:// or rtmps://"));
    }
    if parsed.host.is_none() || parsed.username.unicode_len() != 0 || parsed.password.is_some() {
        return Err(
            validation_error("RTMP destination requires a host and must not contain credentials"),
        );
    }
    if parsed.fragment.is_some() {
        return Err(validation_error("RTMP server URL must not contain a stream-key fragment"));
    }
    if key_is_invalid(key) {
        return Err(validation_error("Stream key is invalid"));
    }
    Ok(())
}

/// `char::is_ascii_alphanumeric`, `-` or `_`.
pub open spec fn id_char(c: char) -> bool {
    ('a' <= c && c <= 'z') || ('A' <= c && c <= 'Z') || ('0' <= c && c <= '9') || c == '-' || c
        == '_'
}

/// Destination IDs are 1 to 96 characters from `[A-Za-z0-9_-]` (for such
/// ASCII text the character count is the byte count).
pub open spec fn id_valid(id: Seq<char>) -> bool {
    &&& id.len() > 0
    &&& id.len() <= 96
    &&& forall|i: int| 0 <= i < id.len() ==> id_char(#[trigger] id[i])
}

pub open spec fn name_valid(name: Seq<char>) -> bool {
    trim(name).len() > 0 && trim(name).len() <= 64
}

/// Why a stored destination is refused (`None`: it is accepted).
pub open spec fn destination_config_problem(d: RtmpDestinationConfig) -> Option<Seq<char>> {
    destination_fields_problem(d.id@, d.name@, d.server@)
}

pub open spec fn destination_fields_problem(id: Seq<char>, name: Seq<char>, server: Seq<char>) -> Option<Seq<char>> {
    if !name_valid(name) {
        Some("Destination name must contain 1 to 64 characters"@)
    } else if !id_valid(id) {
        Some("RTMP destination ID is invalid"@)
    } else {
        match url_parse(server) {
            None => Some("RTMP server URL is invalid"@),
            Some(u) => if !rtmp_scheme(u.scheme) || u.host is None || u.username.len() != 0
                || u.password is Some || u.fragment is Some {
                Some(
                    "RTMP server must be an rtmp:// or rtmps:// URL without credentials or a key fragment"@,
                )
            } else {
                None
            },
        }
    }
}

fn is_id_char(c: char) -> (r: bool)
    ensures
        r == id_char(c),
{
    ('a' <= c && c <= 'z') || ('A' <= c && c <= 'Z') || ('0' <= c && c <= '9') || c == '-' || c
        == '_'
}

fn id_is_valid(id: &str) -> (r: bool)
    ensures
        r == id_valid(id@),
{
    let v = chars_of(id);
    if v.len() == 0 {
        return false;
    }
    let mut i: usize = 0;
    while i < v.len()
        invariant
            i <= v@.len(),
            v@ == id@,
            forall|j: int| 0 <= j < i ==> id_char(#[trigger] v@[j]),
        decreases v@.len() - i,
    {
        if !is_id_char(v[i]) {
            return false;
        }
        i = i + 1;
    }
    v.len() <= 96
}

/// Checks a destination as it is stored in the configuration.
pub fn validate_rtmp_destination_config(destination: &RtmpDestinationConfig) -> (r: Result<
    (),
    BridgeError,
>)
    ensures
        result_matches(r, validation(destination_config_problem(*destination))),
{
    let name = trim_str(destination.name.as_str());
    let count = name.unicode_len();
    if count == 0 || count > 64 {
        return Err(validation_error("Destination name must contain 1 to 64 characters"));
    }
    if !id_is_valid(destination.id.as_str()) {
        return Err(validation_error("RTMP destination ID is invalid"));
    }
    let parsed = match parse_url(destination.server.as_str()) {
        Some(p) => p,
        None => {
            return Err(validation_error("RTMP server URL is invalid"));
        },
    };
    if !is_rtmp_scheme(&parsed.scheme) || parsed.host.is_none() || parsed.username.unicode_len()
        != 0 || parsed.password.is_some() || parsed.fragment.is_some() {
        return Err(
            validation_error(
                "RTMP server must be an rtmp:// or rtmps:// URL without credentials or a key fragment",
            ),
        );
    }
    Ok(())
}

/// The key-store account that holds the stream key of destination `id`.
pub fn rtmp_keychain_account(id: &str) -> (account: String)
    ensures
        account@ == "rtmp-stream-key:"@ + id@,
{
    String::from_str("rtmp-stream-key:").concat(id)
}

pub open spec fn broadcast_parts(d: BroadcastDestination) -> (Seq<char>, Seq<char>) {
    match d {
        BroadcastDestination::TikTok { server, key } => (server@, key@),
        BroadcastDestination::Instagram { server, key } => (server@, key@),
        BroadcastDestination::YouTube { server, key } => (server@, key@),
        BroadcastDestination::Facebook { server, key } => (server@, key@),
        BroadcastDestination::Custom { server, key } => (server@, key@),
    }
}

pub open spec fn broadcast_kind(d: BroadcastDestination) -> RtmpDestinationKind {
    match d {
        BroadcastDestination::TikTok { .. } => RtmpDestinationKind::TikTok,
        BroadcastDestination::Instagram { .. } => RtmpDestinationKind::Instagram,
        BroadcastDestination::YouTube { .. } => RtmpDestinationKind::YouTube,
        BroadcastDestination::Facebook { .. } => RtmpDestinationKind::Facebook,
        BroadcastDestination::Custom { .. } => RtmpDestinationKind::Custom,
    }
}

impl BroadcastDestination {
    /// The server and key, once they pass `validate_rtmp_destination`.
    pub fn rtmp_parts(&self) -> (r: Result<(&str, &str), BridgeError>)
        ensures
            result_matches(
                r,
                validation(destination_problem(broadcast_parts(*self).0, broadcast_parts(*self).1)),
            ),
            r matches Ok(p) ==> p.0@ == broadcast_parts(*self).0 && p.1@ == broadcast_parts(
                *self,
            ).1,
    {
        let (server, key) = match self {
            BroadcastDestination::TikTok { server, key } => (server, key),
            BroadcastDestination::Instagram { server, key } => (server, key),
            BroadcastDestination::YouTube { server, key } => (server, key),
            BroadcastDestination::Facebook { server, key } => (server, key),
            BroadcastDestination::Custom { server, key } => (server, key),
        };
        match validate_rtmp_destination(server.as_str(), key.as_str()) {
            Ok(()) => Ok((server.as_str(), key.as_str())),
            Err(e) => Err(e),
        }
    }

    /// The broadcast target for a stored destination and its key.
    pub fn from_rtmp(destination: &RtmpDestinationConfig, key: String) -> (d: Self)
        ensures
            broadcast_kind(d) == destination.kind,
            broadcast_parts(d) == (destination.server@, key@),
    {
        let server = destination.server.clone();
        match destination.kind {
            RtmpDestinationKind::TikTok => BroadcastDestination::TikTok { server, key },
            RtmpDestinationKind::Instagram => BroadcastDestination::Instagram { server, key },
            RtmpDestinationKind::YouTube => BroadcastDestination::YouTube { server, key },
            RtmpDestinationKind::Facebook => BroadcastDestination::Facebook { server, key },
            RtmpDestinationKind::Custom => BroadcastDestination::Custom { server, key },
        }
    }
}

/// The commentary microphone gain. The decibel value itself is a float, which
/// is kept by the caller: the library holds how it is written and whether it
/// lies within the accepted range of -60 dB to +12 dB.
#[derive(Debug, Clone)]
pub struct MicrophoneVolume {
    pub text: String,
    pub in_range: bool,
}

#[derive(Debug, Clone)]
pub struct AppConfig {
    pub selected_interface: Option<String>,
    pub obs_host: String,
    pub obs_port: u16,
    pub output_layout: OutputLayout,
    pub fit_mode: FitMode,
    pub rtmp_destinations: Vec<RtmpDestinationConfig>,
    /// Read from configurations of earlier versions, never written.
    pub destination_mode: Option<DestinationMode>,
    /// Read from configurations of earlier versions, never written.
    pub destination_server: Option<String>,
    pub production_engine: ProductionEngine,
    pub selected_microphone: Option<String>,
    pub microphone_muted: bool,
    pub microphone_volume: MicrophoneVolume,
    pub microphone_sync_ms: u32,
    pub noise_suppression: bool,
    pub compressor: bool,
    pub limiter: bool,
}

impl Default for AppConfig {
    fn default() -> (c: Self)
        ensures
            c.selected_interface is None,
            c.obs_host@ == "127.0.0.1"@,
            c.obs_port == 4455,
            c.output_layout == OutputLayout::Landscape,
            c.fit_mode == FitMode::Fit,
            c.rtmp_destinations@.len() == 0,
            c.destination_mode is None,
            c.destination_server is None,
            c.production_engine == ProductionEngine::NativeFfmpeg,
            c.selected_microphone is None,
            !c.microphone_muted,
            c.microphone_volume.text@ == "0"@,
            c.microphone_volume.in_range,
            c.microphone_sync_ms == 0,
            c.noise_suppression,
            c.compressor,
            c.limiter,
    {
        AppConfig {
            selected_interface: None,
            obs_host: String::from_str("127.0.0.1"),
            obs_port: 4455,
            output_layout: OutputLayout::Landscape,
            fit_mode: FitMode::Fit,
            rtmp_destinations: Vec::new(),
            destination_mode: None,
            destination_server: None,
            production_engine: ProductionEngine::NativeFfmpeg,
            selected_microphone: None,
            microphone_muted: false,
            microphone_volume: MicrophoneVolume { text: String::from_str("0"), in_range: true },
            microphone_sync_ms: 0,
            noise_suppression: true,
            compressor: true,
            limiter: true,
        }
    }
}

/// Where the configuration and the logs live.
#[derive(Debug, Clone)]
pub struct ConfigStore {
    pub app_support_dir: String,
    pub logs_dir: String,
}

impl ConfigStore {
    pub fn app_support_dir(&self) -> (d: &String)
        ensures
            d == &self.app_support_dir,
    {
        &self.app_support_dir
    }

    pub fn logs_dir(&self) -> (d: &String)
        ensures
            d == &self.logs_dir,
    {
        &self.logs_dir
    }
}

/// The first problem among `ds[0..n]`, in order: a refused destination, or an
/// ID that an earlier destination already uses.
pub open spec fn destinations_problem(ds: Seq<RtmpDestinationConfig>, n: int) -> Option<Seq<char>>
    decreases n,
{
    if n <= 0 {
        None
    } else {
        match destinations_problem(ds, n - 1) {
            Some(p) => Some(p),
            None => match destination_config_problem(ds[n - 1]) {
                Some(p) => Some(p),
                None => if exists|j: int| 0 <= j < n - 1 && #[trigger] ds[j].id@ == ds[n - 1].id@ {
                    Some("RTMP destination IDs must be unique"@)
                } else {
                    None
                },
            },
        }
    }
}

proof fn lemma_first_problem_sticks(ds: Seq<RtmpDestinationConfig>, k: int, n: int)
    requires
        0 <= k <= n,
        destinations_problem(ds, k) is Some,
    ensures
        destinations_problem(ds, n) == destinations_problem(ds, k),
    decreases n - k,
{
    if n > k {
        lemma_first_problem_sticks(ds, k, n - 1);
    }
}

/// Why a configuration may not be saved (`None`: it may).
pub open spec fn config_problem(c: AppConfig) -> Option<Seq<char>> {
    if trim(c.obs_host@).len() == 0 || c.obs_port == 0 {
        Some("OBS host and port must be valid"@)
    } else if !c.microphone_volume.in_range {
        Some("Microphone volume must be between -60 dB and +12 dB"@)
    } else {
        destinations_problem(c.rtmp_destinations@, c.rtmp_destinations@.len() as int)
    }
}

/// The checks a configuration passes before it is written.
pub fn validate_config(config: &AppConfig) -> (r: Result<(), BridgeError>)
    ensures
        result_matches(r, validation(config_problem(*config))),
{
    let host = trim_str(config.obs_host.as_str());
    if host.unicode_len() == 0 || config.obs_port == 0 {
        return Err(validation_error("OBS host and port must be valid"));
    }
    if !config.microphone_volume.in_range {
        return Err(validation_error("Microphone volume must be between -60 dB and +12 dB"));
    }
    let ds = &config.rtmp_destinations;
    let mut i: usize = 0;
    while i < ds.len()
        invariant
            i <= ds@.len(),
            ds@ == config.rtmp_destinations@,
            config_problem(*config) == destinations_problem(ds@, ds@.len() as int),
            destinations_problem(ds@, i as int) is None,
        decreases ds@.len() - i,
    {
        match validate_rtmp_destination_config(&ds[i]) {
            Ok(()) => {},
            Err(e) => {
                proof {
                    lemma_first_problem_sticks(ds@, i + 1, ds@.len() as int);
                }
                return Err(e);
            },
        }
        let mut j: usize = 0;
        while j < i
            invariant
                j <= i < ds@.len(),
                ds@ == config.rtmp_destinations@,
                config_problem(*config) == destinations_problem(ds@, ds@.len() as int),
                destinations_problem(ds@, i as int) is None,
                destination_config_problem(ds@[i as int]) is None,
                forall|k: int| 0 <= k < j ==> ds@[k].id@ != ds@[i as int].id@,
            decreases i - j,
        {
            if eq_str(ds[j].id.as_str(), ds[i].id.as_str()) {
                proof {
                    assert(ds@[j as int].id@ == ds@[i as int].id@);
                    assert(destinations_problem(ds@, i + 1) == Some("RTMP destination IDs must be unique"@));
                    lemma_first_problem_sticks(ds@, i + 1, ds@.len() as int);
                }
                return Err(validation_error("RTMP destination IDs must be unique"));
            }
            j = j + 1;
        }
        i = i + 1;
    }
    Ok(())
}

} // verus!

verus! {

/// `s` without its trailing `c` characters (`str::trim_end_matches(c)`).
pub open spec fn strip_trailing(s: Seq<char>, c: char) -> Seq<char>
    decreases s.len(),
{
    if s.len() > 0 && s.last() == c {
        strip_trailing(s.drop_last(), c)
    } else {
        s
    }
}

fn strip_trailing_exec(s: &str, c: char) -> (r: String)
    ensures
        r@ == strip_trailing(s@, c),
{
    let v = chars_of(s);
    let mut n = v.len();
    assert(v@.subrange(0, v@.len() as int) =~= v@);
    while n > 0 && v[n - 1] == c
        invariant
            n <= v@.len(),
            v@ == s@,
            strip_trailing(v@.subrange(0, n as int), c) == strip_trailing(s@, c),
        decreases n,
    {
        assert(v@.subrange(0, n as int).drop_last() =~= v@.subrange(0, n - 1));
        n = n - 1;
    }
    string_from_range(&v, 0, n)
}

/// Index of the first destination with `id`.
pub open spec fn find_id(ds: Seq<RtmpDestinationConfig>, id: Seq<char>) -> Option<int>
    decreases ds.len(),
{
    if ds.len() == 0 {
        None
    } else if ds[0].id@ == id {
        Some(0)
    } else {
        match find_id(ds.drop_first(), id) {
            Some(i) => Some(i + 1),
            None => None,
        }
    }
}

proof fn lemma_find_id(ds: Seq<RtmpDestinationConfig>, id: Seq<char>)
    ensures
        find_id(ds, id) matches Some(i) ==> 0 <= i < ds.len() && ds[i].id@ == id && forall|j: int|
            0 <= j < i ==> #[trigger] ds[j].id@ != id,
        find_id(ds, id) is None ==> forall|j: int| 0 <= j < ds.len() ==> #[trigger] ds[j].id@ != id,
    decreases ds.len(),
{
    if ds.len() > 0 && ds[0].id@ != id {
        lemma_find_id(ds.drop_first(), id);
        assert forall|j: int| 1 <= j < ds.len() implies #[trigger] ds[j].id@ == ds.drop_first()[j
            - 1].id@ by {}
    }
}

fn find_destination(ds: &Vec<RtmpDestinationConfig>, id: &str) -> (r: Option<usize>)
    ensures
        match r {
            Some(i) => find_id(ds@, id@) == Some(i as int),
            None => find_id(ds@, id@) is None,
        },
{
    proof {
        lemma_find_id(ds@, id@);
    }
    let mut i: usize = 0;
    while i < ds.len()
        invariant
            i <= ds@.len(),
            forall|j: int| 0 <= j < i ==> #[trigger] ds@[j].id@ != id@,
            find_id(ds@, id@) matches Some(k) ==> 0 <= k < ds@.len() && ds@[k].id@ == id@ && forall|j: int|
                0 <= j < k ==> #[trigger] ds@[j].id@ != id@,
            find_id(ds@, id@) is None ==> forall|j: int| 0 <= j < ds@.len() ==> #[trigger] ds@[j].id@ != id@,
        decreases ds@.len() - i,
    {
        if eq_str(ds[i].id.as_str(), id) {
            return Some(i);
        }
        i = i + 1;
    }
    None
}

pub open spec fn opt_index(i: Option<usize>) -> Option<int> {
    match i {
        Some(k) => Some(k as int),
        None => None,
    }
}

/// Where the stream key of an edited destination comes from.
#[derive(Debug, Clone)]
pub enum StreamKeySource {
    /// The user entered a new key.
    Provided(String),
    /// The destination exists; its stored key stays.
    Stored,
}

/// The entered key, or `None` for the stored one.
pub open spec fn key_source(k: StreamKeySource) -> Option<Seq<char>> {
    match k {
        StreamKeySource::Provided(key) => Some(key@),
        StreamKeySource::Stored => None,
    }
}

/// A checked edit of the destination list: the destination to store, the
/// index of the one it replaces, and the source of its key.
#[derive(Debug, Clone)]
pub struct DestinationUpdate {
    pub destination: RtmpDestinationConfig,
    pub existing: Option<usize>,
    pub key: StreamKeySource,
}

/// The destination an input describes, with `id` as its ID.
pub open spec fn input_destination(input: RtmpDestinationInput, id: String) -> (Seq<char>, Seq<
    char,
>, RtmpDestinationKind, Seq<char>, bool) {
    (id@, trim(input.name@), input.kind, strip_trailing(trim(input.server@), '#'), input.enabled)
}

pub open spec fn same_destination(d: RtmpDestinationConfig, v: (Seq<char>, Seq<char>, RtmpDestinationKind, Seq<char>, bool)) -> bool {
    d.id@ == v.0 && d.name@ == v.1 && d.kind == v.2 && d.server@ == v.3 && d.enabled == v.4
}

/// The key the user entered, unless it is blank.
pub open spec fn entered_key(input: RtmpDestinationInput) -> Option<Seq<char>> {
    match input.key {
        Some(k) => if trim(k@).len() > 0 {
            Some(k@)
        } else {
            None
        },
        None => None,
    }
}

/// Checks an edit of the destination list: the live route must be stopped,
/// the destination must be valid, and a new destination needs a stream key.
/// `fresh_id` is the ID a destination without one receives.
pub fn prepare_destination_update(
    config: &AppConfig,
    input: RtmpDestinationInput,
    fresh_id: String,
    live_route_active: bool,
) -> (r: Result<DestinationUpdate, BridgeError>)
    ensures
        ({
            let id = match input.id {
                Some(i) => i,
                None => fresh_id,
            };
            let d = input_destination(input, id);
            let existing = find_id(config.rtmp_destinations@, id@);
            if live_route_active {
                r matches Err(e) && e@ == (
                    ErrorKind::InvalidTransition,
                    "Stop the live route before editing destinations"@,
                )
            } else {
                match destination_fields_problem(d.0, d.1, d.3) {
                    Some(p) => r matches Err(e) && e@ == (ErrorKind::Validation, p),
                    None => match entered_key(input) {
                        Some(k) => match destination_problem(d.3, k) {
                            Some(p) => r matches Err(e) && e@ == (ErrorKind::Validation, p),
                            None => r matches Ok(u) && same_destination(u.destination, d)
                                && key_source(u.key) == Some(k) && opt_index(u.existing) == existing,
                        },
                        None => if existing is Some {
                            r matches Ok(u) && same_destination(u.destination, d)
                                && key_source(u.key) is None && opt_index(u.existing) == existing
                        } else {
                            r matches Err(e) && e@ == (
                                ErrorKind::Validation,
                                "A stream key is required for a new destination"@,
                            )
                        },
                    },
                }
            }
        }),
{
    if live_route_active {
        return Err(
            BridgeError::InvalidTransition(
                String::from_str("Stop the live route before editing destinations"),
            ),
        );
    }
    let name = trim_str(input.name.as_str());
    let trimmed_server = trim_str(input.server.as_str());
    let server = strip_trailing_exec(trimmed_server.as_str(), '#');
    let id = match input.id {
        Some(i) => i,
        None => fresh_id,
    };
    let existing = find_destination(&config.rtmp_destinations, id.as_str());
    let destination = RtmpDestinationConfig {
        id,
        name,
        kind: input.kind,
        server,
        enabled: input.enabled,
    };
    match validate_rtmp_destination_config(&destination) {
        Ok(()) => {},
        Err(e) => {
            return Err(e);
        },
    }
    let key = match input.key {
        Some(k) => {
            let t = trim_str(k.as_str());
            if t.unicode_len() > 0 {
                Some(k)
            } else {
                None
            }
        },
        None => None,
    };
    let source = match key {
        Some(k) => {
            match validate_rtmp_destination(destination.server.as_str(), k.as_str()) {
                Ok(()) => {},
                Err(e) => {
                    return Err(e);
                },
            }
            StreamKeySource::Provided(k)
        },
        None => {
            if existing.is_none() {
                return Err(validation_error("A stream key is required for a new destination"));
            }
            StreamKeySource::Stored
        },
    };
    Ok(DestinationUpdate { destination, existing, key: source })
}

} // verus!

verus! {

/// Stores a checked destination: it replaces the one at `existing`, or is
/// appended when it is new.
pub fn apply_destination_update(
    config: &mut AppConfig,
    destination: RtmpDestinationConfig,
    existing: Option<usize>,
)
    requires
        existing matches Some(i) ==> i < old(config).rtmp_destinations@.len(),
    ensures
        final(config).rtmp_destinations@ == match existing {
            Some(i) => old(config).rtmp_destinations@.update(i as int, destination),
            None => old(config).rtmp_destinations@.push(destination),
        },
        final(config).obs_host == old(config).obs_host,
        final(config).obs_port == old(config).obs_port,
        final(config).production_engine == old(config).production_engine,
{
    match existing {
        Some(i) => {
            config.rtmp_destinations.set(i, destination);
        },
        None => {
            config.rtmp_destinations.push(destination);
        },
    }
}

/// `ds` without the destinations whose ID is `id`, in order.
pub open spec fn without_id(ds: Seq<RtmpDestinationConfig>, id: Seq<char>) -> Seq<
    RtmpDestinationConfig,
>
    decreases ds.len(),
{
    if ds.len() == 0 {
        ds
    } else {
        let rest = without_id(ds.drop_last(), id);
        if ds.last().id@ == id {
            rest
        } else {
            rest.push(ds.last())
        }
    }
}

proof fn lemma_without_absent(ds: Seq<RtmpDestinationConfig>, id: Seq<char>)
    requires
        forall|i: int| 0 <= i < ds.len() ==> #[trigger] ds[i].id@ != id,
    ensures
        without_id(ds, id) == ds,
    decreases ds.len(),
{
    if ds.len() > 0 {
        lemma_without_absent(ds.drop_last(), id);
        assert(ds.drop_last().push(ds.last()) =~= ds);
    }
}

proof fn lemma_without_len(ds: Seq<RtmpDestinationConfig>, id: Seq<char>)
    ensures
        without_id(ds, id).len() <= ds.len(),
        without_id(ds, id).len() == ds.len() ==> forall|i: int|
            0 <= i < ds.len() ==> #[trigger] ds[i].id@ != id,
    decreases ds.len(),
{
    if ds.len() > 0 {
        lemma_without_len(ds.drop_last(), id);
        assert forall|i: int| 0 <= i < ds.len() - 1 implies #[trigger] ds[i] == ds.drop_last()[i] by {}
    }
}

/// Removes the destination `id`; refused while the live route runs, and when
/// no destination has that ID.
pub fn remove_destination(config: &mut AppConfig, id: &str, live_route_active: bool) -> (r: Result<
    (),
    BridgeError,
>)
    ensures
        live_route_active ==> result_matches(
            r,
            Some((ErrorKind::InvalidTransition, "Stop the live route before removing destinations"@)),
        ),
        !live_route_active && find_id(old(config).rtmp_destinations@, id@) is None
            ==> result_matches(r, Some((ErrorKind::Validation, "RTMP destination was not found"@))),
        !live_route_active && find_id(old(config).rtmp_destinations@, id@) is Some ==> r is Ok,
        r is Ok ==> final(config).rtmp_destinations@ == without_id(
            old(config).rtmp_destinations@,
            id@,
        ),
        r is Err ==> final(config).rtmp_destinations@ == old(config).rtmp_destinations@,
        final(config).obs_host == old(config).obs_host,
        final(config).obs_port == old(config).obs_port,
{
    if live_route_active {
        return Err(
            BridgeError::InvalidTransition(
                String::from_str("Stop the live route before removing destinations"),
            ),
        );
    }
    proof {
        lemma_find_id(config.rtmp_destinations@, id@);
    }
    let mut kept: Vec<RtmpDestinationConfig> = Vec::new();
    let mut i: usize = 0;
    let n = config.rtmp_destinations.len();
    while i < n
        invariant
            n == config.rtmp_destinations@.len(),
            i <= n,
            config.rtmp_destinations@ == old(config).rtmp_destinations@,
            kept@ == without_id(config.rtmp_destinations@.subrange(0, i as int), id@),
        decreases n - i,
    {
        let ghost prefix = config.rtmp_destinations@.subrange(0, i + 1);
        assert(prefix.drop_last() =~= config.rtmp_destinations@.subrange(0, i as int));
        if !eq_str(config.rtmp_destinations[i].id.as_str(), id) {
            kept.push(config.rtmp_destinations[i].duplicate());
        }
        i = i + 1;
    }
    proof {
        assert(config.rtmp_destinations@.subrange(0, n as int) =~= config.rtmp_destinations@);
        lemma_without_len(config.rtmp_destinations@, id@);
        lemma_find_id(config.rtmp_destinations@, id@);
        if find_id(config.rtmp_destinations@, id@) is None {
            lemma_without_absent(config.rtmp_destinations@, id@);
        }
    }
    if kept.len() == n {
        return Err(validation_error("RTMP destination was not found"));
    }
    config.rtmp_destinations = kept;
    Ok(())
}

} // verus!

verus! {

/// Turns destination `id` on or off; refused while the live route runs, and
/// when no destination has that ID. Only that destination's flag changes.
pub fn set_destination_enabled(
    config: &mut AppConfig,
    id: &str,
    enabled: bool,
    live_route_active: bool,
) -> (r: Result<(), BridgeError>)
    ensures
        live_route_active ==> result_matches(
            r,
            Some(
                (
                    ErrorKind::InvalidTransition,
                    "Stop the live route before changing active destinations"@,
                ),
            ),
        ),
        !live_route_active && find_id(old(config).rtmp_destinations@, id@) is None
            ==> result_matches(r, Some((ErrorKind::Validation, "RTMP destination was not found"@))),
        r is Err ==> final(config).rtmp_destinations@ == old(config).rtmp_destinations@,
        r is Ok ==> !live_route_active && (find_id(old(config).rtmp_destinations@, id@) matches Some(i)
            && final(config).rtmp_destinations@ == old(config).rtmp_destinations@.update(
            i,
            RtmpDestinationConfig { enabled: enabled, ..old(config).rtmp_destinations@[i] },
        )),
        final(config).obs_host == old(config).obs_host,
        final(config).obs_port == old(config).obs_port,
{
    if live_route_active {
        return Err(
            BridgeError::InvalidTransition(
                String::from_str("Stop the live route before changing active destinations"),
            ),
        );
    }
    proof {
        lemma_find_id(config.rtmp_destinations@, id@);
    }
    match find_destination(&config.rtmp_destinations, id) {
        None => Err(validation_error("RTMP destination was not found")),
        Some(i) => {
            let mut d = config.rtmp_destinations[i].duplicate();
            d.enabled = enabled;
            config.rtmp_destinations.set(i, d);
            Ok(())
        },
    }
}

/// A destination added and then removed by its ID leaves the list as it was,
/// when no other destination had that ID.
pub proof fn law_remove_undoes_add(ds: Seq<RtmpDestinationConfig>, d: RtmpDestinationConfig)
    requires
        find_id(ds, d.id@) is None,
    ensures
        without_id(ds.push(d), d.id@) == ds,
{
    lemma_find_id(ds, d.id@);
    assert(ds.push(d).drop_last() =~= ds);
    lemma_without_absent(ds, d.id@);
}

/// What the move from the single legacy destination to the destination list did.
#[derive(Debug, Clone)]
pub enum LegacyMigration {
    /// There were no legacy fields: nothing changed and nothing is to be saved.
    Absent,
    /// The legacy fields were cleared without adding a destination.
    Cleared,
    /// The legacy destination was added under this ID; its key is to be
    /// copied from the legacy key-store entry.
    Added(String),
}

/// The destination that a legacy mode and server become, if any.
pub open spec fn legacy_destination(mode: DestinationMode) -> Option<(Seq<char>, Seq<char>, RtmpDestinationKind)> {
    match mode {
        DestinationMode::TikTokRtmp => Some(("migrated-tiktok-rtmp"@, "TikTok"@, RtmpDestinationKind::TikTok)),
        DestinationMode::CustomRtmp => Some(("migrated-custom-rtmp"@, "Custom RTMP"@, RtmpDestinationKind::Custom)),
        DestinationMode::TikTokLiveStudio => None,
    }
}

/// Moves the legacy single RTMP destination into the destination list (when
/// the list is still empty) and clears the legacy fields.
pub fn migrate_legacy_destination(config: &mut AppConfig) -> (r: Result<LegacyMigration, BridgeError>)
    ensures
        old(config).destination_mode is None ==> (r matches Ok(LegacyMigration::Absent)
            && *final(config) == *old(config)),
        old(config).destination_mode matches Some(mode) ==> {
            let added = old(config).rtmp_destinations@.len() == 0
                && old(config).destination_server is Some && legacy_destination(mode) is Some;
            if added {
                let (id, name, kind) = legacy_destination(mode)->Some_0;
                let server = old(config).destination_server->Some_0@;
                match destination_fields_problem(id, name, server) {
                    Some(p) => result_matches(r, Some((ErrorKind::Validation, p)))
                        && *final(config) == *old(config),
                    None => r matches Ok(LegacyMigration::Added(new_id)) && new_id@ == id
                        && final(config).rtmp_destinations@.len() == 1
                        && same_destination(
                        final(config).rtmp_destinations@[0],
                        (id, name, kind, server, true),
                    ) && final(config).destination_mode is None
                        && final(config).destination_server is None
                        && final(config).obs_host == old(config).obs_host
                        && final(config).obs_port == old(config).obs_port,
                }
            } else {
                r matches Ok(LegacyMigration::Cleared)
                    && final(config).rtmp_destinations == old(config).rtmp_destinations
                    && final(config).destination_mode is None
                    && final(config).destination_server is None
                    && final(config).obs_host == old(config).obs_host
                    && final(config).obs_port == old(config).obs_port
            }
        },
{
    let mode = match config.destination_mode {
        Some(m) => m,
        None => {
            return Ok(LegacyMigration::Absent);
        },
    };
    let mut outcome = LegacyMigration::Cleared;
    if config.rtmp_destinations.len() == 0 && config.destination_server.is_some() {
        let fields = match mode {
            DestinationMode::TikTokRtmp => Some(
                (
                    String::from_str("migrated-tiktok-rtmp"),
                    String::from_str("TikTok"),
                    RtmpDestinationKind::TikTok,
                ),
            ),
            DestinationMode::CustomRtmp => Some(
                (
                    String::from_str("migrated-custom-rtmp"),
                    String::from_str("Custom RTMP"),
                    RtmpDestinationKind::Custom,
                ),
            ),
            DestinationMode::TikTokLiveStudio => None,
        };
        match fields {
            Some((id, name, kind)) => {
                let server = match &config.destination_server {
                    Some(s) => s.clone(),
                    None => String::new(),
                };
                let destination = RtmpDestinationConfig {
                    id: id.clone(),
                    name,
                    kind,
                    server,
                    enabled: true,
                };
                match validate_rtmp_destination_config(&destination) {
                    Ok(()) => {},
                    Err(e) => {
                        return Err(e);
                    },
                }
                config.rtmp_destinations.push(destination);
                outcome = LegacyMigration::Added(id);
            },
            None => {},
        }
    }
    config.destination_mode = None;
    config.destination_server = None;
    Ok(outcome)
}

} // verus!
