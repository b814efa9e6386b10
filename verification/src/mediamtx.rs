//! The MediaMTX sidecar: how forward targets are written, how its exits are
//! explained, and what its Control API and metrics report.
use vstd::prelude::*;
use crate::config::{destination_problem, validate_rtmp_destination, validation};
use crate::error::{BridgeError, ErrorKind, result_matches};
use crate::live::join;
use crate::process::{ProcessSpec, RestartPolicy};
use crate::redact::{redact_secrets, spec_redact};
use crate::text::{
    chars_of, contains, decimal, eq_str, has_prefix, last_token, last_token_of, opt_view,
    seq_contains, split_lines, starts_with, str_lines, string_from_range, u64_to_string,
    parse_i32, parse_i32_spec, trim, trim_str,
};

verus! {

/// What MediaMTX reports about forwarding `/production` to one destination.
#[derive(Debug, Clone)]
pub struct ForwardStatus {
    pub pos: usize,
    pub state: Option<String>,
    pub last_error: Option<String>,
    pub outbound_bytes: u64,
}

/// `s` without its trailing `#` and `/` characters.
pub open spec fn trim_forward_server(s: Seq<char>) -> Seq<char>
    decreases s.len(),
{
    if s.len() > 0 && (s.last() == '#' || s.last() == '/') {
        trim_forward_server(s.drop_last())
    } else {
        s
    }
}

/// The server part of a forward target: the server itself, less only the
/// `/` and `#` characters at its end, and never ending in one.
pub proof fn law_trim_forward_server(s: Seq<char>)
    ensures
        trim_forward_server(s).len() <= s.len(),
        trim_forward_server(s) == s.subrange(0, trim_forward_server(s).len() as int),
        forall|i: int|
            trim_forward_server(s).len() <= i < s.len() ==> #[trigger] s[i] == '/' || s[i] == '#',
        trim_forward_server(s).len() > 0 ==> trim_forward_server(s).last() != '/'
            && trim_forward_server(s).last() != '#',
    decreases s.len(),
{
    if s.len() > 0 && (s.last() == '#' || s.last() == '/') {
        law_trim_forward_server(s.drop_last());
        let t = trim_forward_server(s.drop_last());
        assert(t =~= s.subrange(0, t.len() as int));
        assert forall|i: int| t.len() <= i < s.len() implies #[trigger] s[i] == '/' || s[i] == '#' by {
            if i < s.len() - 1 {
                assert(s.drop_last()[i] == s[i]);
            }
        }
    } else {
        assert(s =~= s.subrange(0, s.len() as int));
    }
}

/// MediaMTX joins `server#key` as `server + "/" + key`, so trailing `/` (and
/// `#`) are dropped from the server: `rtmps://host/rtmp/` and `KEY` become
/// `rtmps://host/rtmp#KEY`.
pub fn forward_dest(server: &str, key: &str) -> (dest: String)
    ensures
        dest@ == trim_forward_server(server@) + seq!['#'] + key@,
{
    let v = chars_of(server);
    let mut n = v.len();
    assert(v@.subrange(0, v@.len() as int) =~= v@);
    while n > 0 && (v[n - 1] == '#' || v[n - 1] == '/')
        invariant
            n <= v@.len(),
            v@ == server@,
            trim_forward_server(v@.subrange(0, n as int)) == trim_forward_server(server@),
        decreases n,
    {
        assert(v@.subrange(0, n as int).drop_last() =~= v@.subrange(0, n - 1));
        n = n - 1;
    }
    let mut out = string_from_range(&v, 0, n);
    crate::text::push_char(&mut out, '#');
    let out = out.concat(key);
    assert(out@ =~= trim_forward_server(server@) + seq!['#'] + key@);
    out
}

pub open spec fn sidecar_message(reason: Seq<char>) -> Seq<char> {
    if seq_contains(reason, "SIGKILL"@) {
        "MediaMTX was killed by macOS at launch ("@ + reason
            + "). The bundled sidecar has an invalid code signature or restricted entitlements. Rebuild with `npm run build:mac` (never a bare `tauri build`) and check with `npm run verify:bundle -- \"<app path>\"`."@
    } else {
        "MediaMTX exited before its Control API became ready ("@ + reason + ")"@
    }
}

/// Explains why the sidecar exited before its Control API was ready; a SIGKILL
/// at launch is macOS code-signing enforcement.
pub fn sidecar_exit_message(reason: &str) -> (m: String)
    ensures
        m@ == sidecar_message(reason@),
{
    if contains(reason, "SIGKILL") {
        String::from_str("MediaMTX was killed by macOS at launch (").concat(reason).concat(
            "). The bundled sidecar has an invalid code signature or restricted entitlements. Rebuild with `npm run build:mac` (never a bare `tauri build`) and check with `npm run verify:bundle -- \"<app path>\"`.",
        )
    } else {
        String::from_str("MediaMTX exited before its Control API became ready (").concat(
            reason,
        ).concat(")")
    }
}


/// `(keys[x], x)` comes before `(keys[y], y)`: ordered by key, then by
/// original position, which is what a stable sort by key produces.
pub open spec fn key_before(keys: Seq<usize>, x: int, y: int) -> bool {
    keys[x] < keys[y] || (keys[x] == keys[y] && x < y)
}

/// `order` lists the positions `0..keys.len()`, each once, in the order a
/// stable sort by key puts them.
pub open spec fn stable_order(keys: Seq<usize>, order: Seq<usize>) -> bool {
    &&& order.len() == keys.len()
    &&& forall|k: int| 0 <= k < order.len() ==> #[trigger] order[k] < keys.len()
    &&& forall|a: int, b: int| 0 <= a < b < order.len() ==> key_before(keys, #[trigger] order[a] as int, #[trigger] order[b] as int)
    &&& forall|j: int| 0 <= j < keys.len() ==> #[trigger] occurs(order, j)
}

/// Position `j` is somewhere in `order`.
pub open spec fn occurs(order: Seq<usize>, j: int) -> bool {
    exists|k: int| 0 <= k < order.len() && order[k] == j
}

/// The positions of `keys` in stable order by key.
pub fn stable_order_by_key(keys: &Vec<usize>) -> (order: Vec<usize>)
    ensures
        stable_order(keys@, order@),
{
    let mut order: Vec<usize> = Vec::new();
    let mut i: usize = 0;
    while i < keys.len()
        invariant
            i <= keys@.len(),
            order@.len() == i,
            forall|k: int| 0 <= k < order@.len() ==> #[trigger] order@[k] < i,
            forall|a: int, b: int|
                0 <= a < b < order@.len() ==> key_before(keys@, #[trigger] order@[a] as int, #[trigger] order@[b] as int),
            forall|j: int| 0 <= j < i ==> #[trigger] occurs(order@, j),
        decreases keys@.len() - i,
    {
        let key = keys[i];
        let mut p: usize = 0;
        while p < order.len() && keys[order[p]] <= key
            invariant
                p <= order@.len(),
                key == keys@[i as int],
                i < keys@.len(),
                forall|k: int| 0 <= k < order@.len() ==> #[trigger] order@[k] < i,
                forall|k: int| 0 <= k < p ==> keys@[#[trigger] order@[k] as int] <= key,
            decreases order@.len() - p,
        {
            p = p + 1;
        }
        let ghost before = order@;
        proof {
            assert forall|k: int| p <= k < before.len() implies key < keys@[#[trigger] before[k] as int] by {
                if k > p {
                    assert(key_before(keys@, before[p as int] as int, before[k] as int));
                }
            }
        }
        order.insert(p, i);
        assert forall|a: int, b: int|
            0 <= a < b < order@.len() implies key_before(keys@, #[trigger] order@[a] as int, #[trigger] order@[b] as int) by {
            if b < p {
                assert(order@[a] == before[a] && order@[b] == before[b]);
            } else if b == p {
                assert(order@[a] == before[a]);
            } else if a == p {
                assert(order@[b] == before[b - 1]);
            } else if a < p {
                assert(order@[a] == before[a] && order@[b] == before[b - 1]);
            } else {
                assert(order@[a] == before[a - 1] && order@[b] == before[b - 1]);
            }
        }
        assert forall|j: int| 0 <= j < i + 1 implies #[trigger] occurs(order@, j) by {
            if j == i {
                assert(order@[p as int] == j);
            } else {
                assert(occurs(before, j));
                let k = choose|k: int| 0 <= k < before.len() && before[k] == j;
                if k < p {
                    assert(order@[k] == j);
                } else {
                    assert(order@[k + 1] == j);
                }
            }
        }
        i = i + 1;
    }
    order
}

/// One forward as MediaMTX's `forward-dests/list` describes it; an entry is
/// `None` where the answer held none of the expected type.
#[derive(Debug, Clone)]
pub struct ForwardItem {
    pub pos: Option<u64>,
    pub state: Option<String>,
    pub last_error: Option<String>,
    pub outbound_bytes: Option<u64>,
}

/// The position of a forward (0 when absent).
pub open spec fn item_pos(item: ForwardItem) -> usize {
    (match item.pos {
        Some(p) => p,
        None => 0u64,
    }) as usize
}

/// What a forward reports: an empty error counts as none, and an error is
/// shown with its secrets removed.
pub open spec fn reported(item: ForwardItem, status: ForwardStatus) -> bool {
    &&& status.pos == item_pos(item)
    &&& opt_view(status.state) == opt_view(item.state)
    &&& opt_view(status.last_error) == (match item.last_error {
        Some(e) => if e@.len() == 0 {
            None
        } else {
            Some(spec_redact(e@))
        },
        None => None,
    })
    &&& status.outbound_bytes == (match item.outbound_bytes {
        Some(b) => b,
        None => 0u64,
    })
}

pub open spec fn item_positions(items: Seq<ForwardItem>) -> Seq<usize> {
    items.map_values(|i: ForwardItem| item_pos(i))
}

fn clone_text(o: &Option<String>) -> (r: Option<String>)
    ensures
        r == *o,
{
    match o {
        Some(s) => Some(s.clone()),
        None => None,
    }
}

fn forward_status_of(item: &ForwardItem) -> (s: ForwardStatus)
    ensures
        reported(*item, s),
{
    let pos = match item.pos {
        Some(p) => p,
        None => 0,
    };
    let last_error = match &item.last_error {
        Some(e) => if e.unicode_len() == 0 {
            None
        } else {
            Some(redact_secrets(e.as_str()))
        },
        None => None,
    };
    ForwardStatus {
        pos: pos as usize,
        state: clone_text(&item.state),
        last_error,
        outbound_bytes: match item.outbound_bytes {
            Some(b) => b,
            None => 0,
        },
    }
}

/// MediaMTX's forwards of `/production`, in the order of their position
/// (forwards at the same position keep their listed order).
pub fn forward_statuses(items: &Vec<ForwardItem>) -> (statuses: Vec<ForwardStatus>)
    ensures
        exists|order: Seq<usize>|
            stable_order(item_positions(items@), order) && statuses@.len() == order.len() && forall|k: int|
                0 <= k < order.len() ==> reported(items@[#[trigger] order[k] as int], statuses@[k]),
{
    let mut keys: Vec<usize> = Vec::new();
    let mut i: usize = 0;
    while i < items.len()
        invariant
            i <= items@.len(),
            keys@ == item_positions(items@).subrange(0, i as int),
        decreases items@.len() - i,
    {
        let pos = match items[i].pos {
            Some(p) => p,
            None => 0,
        };
        keys.push(pos as usize);
        assert(item_positions(items@).subrange(0, i + 1) =~= item_positions(items@).subrange(
            0,
            i as int,
        ).push(item_pos(items@[i as int])));
        i = i + 1;
    }
    assert(keys@ =~= item_positions(items@));
    let order = stable_order_by_key(&keys);
    let mut statuses: Vec<ForwardStatus> = Vec::new();
    let mut k: usize = 0;
    while k < order.len()
        invariant
            stable_order(item_positions(items@), order@),
            items@.len() == order@.len(),
            k <= order@.len(),
            statuses@.len() == k,
            forall|j: int| 0 <= j < k ==> reported(items@[#[trigger] order@[j] as int], statuses@[j]),
        decreases order@.len() - k,
    {
        assert(order@[k as int] < items@.len());
        statuses.push(forward_status_of(&items[order[k]]));
        k = k + 1;
    }
    statuses
}

/// The number of `statuses` whose state is `state`.
pub open spec fn count_state(statuses: Seq<ForwardStatus>, state: Seq<char>) -> int
    decreases statuses.len(),
{
    if statuses.len() == 0 {
        0
    } else {
        count_state(statuses.drop_last(), state) + if opt_view(statuses.last().state) == Some(
            state,
        ) {
            1int
        } else {
            0
        }
    }
}

/// Counting reports by state: none counted exactly when no report has that
/// state, all counted exactly when every report has it.
pub proof fn law_count_state(statuses: Seq<ForwardStatus>, state: Seq<char>)
    ensures
        0 <= count_state(statuses, state) <= statuses.len(),
        count_state(statuses, state) == 0 <==> forall|i: int|
            0 <= i < statuses.len() ==> opt_view(#[trigger] statuses[i].state) != Some(state),
        count_state(statuses, state) == statuses.len() <==> forall|i: int|
            0 <= i < statuses.len() ==> opt_view(#[trigger] statuses[i].state) == Some(state),
    decreases statuses.len(),
{
    if statuses.len() > 0 {
        let rest = statuses.drop_last();
        law_count_state(rest, state);
        assert forall|i: int| 0 <= i < rest.len() implies #[trigger] rest[i] == statuses[i] by {}
        if forall|i: int| 0 <= i < statuses.len() ==> opt_view(#[trigger] statuses[i].state) != Some(state) {
            assert(opt_view(statuses[statuses.len() - 1].state) != Some(state));
            assert forall|i: int| 0 <= i < rest.len() implies opt_view(#[trigger] rest[i].state) != Some(state) by {
                assert(opt_view(statuses[i].state) != Some(state));
            }
        }
        if forall|i: int| 0 <= i < statuses.len() ==> opt_view(#[trigger] statuses[i].state) == Some(state) {
            assert(opt_view(statuses[statuses.len() - 1].state) == Some(state));
            assert forall|i: int| 0 <= i < rest.len() implies opt_view(#[trigger] rest[i].state) == Some(state) by {
                assert(opt_view(statuses[i].state) == Some(state));
            }
        }
        if count_state(statuses, state) == 0 {
            assert forall|i: int| 0 <= i < statuses.len() implies opt_view(#[trigger] statuses[i].state) != Some(state) by {
                if i < rest.len() {
                    assert(opt_view(rest[i].state) != Some(state));
                }
            }
        }
        if count_state(statuses, state) == statuses.len() {
            assert forall|i: int| 0 <= i < statuses.len() implies opt_view(#[trigger] statuses[i].state) == Some(state) by {
                if i < rest.len() {
                    assert(opt_view(rest[i].state) == Some(state));
                }
            }
        }
    }
}

/// Every forward has settled: forwarding or failed.
pub open spec fn all_settled(statuses: Seq<ForwardStatus>) -> bool {
    forall|i: int|
        0 <= i < statuses.len() ==> opt_view(#[trigger] statuses[i].state) == Some("forwarding"@)
            || opt_view(statuses[i].state) == Some("error"@)
}

/// The reported errors joined with "; ".
pub open spec fn error_list(statuses: Seq<ForwardStatus>) -> Seq<Seq<char>>
    decreases statuses.len(),
{
    if statuses.len() == 0 {
        seq![]
    } else {
        match statuses.last().last_error {
            Some(e) => error_list(statuses.drop_last()).push(e@),
            None => error_list(statuses.drop_last()),
        }
    }
}

/// What waiting for the forwards decides on one look at them.
#[derive(Debug)]
pub enum ForwardWait {
    /// Go live with these reports.
    Ready,
    /// Give up with this error.
    Failed(BridgeError),
    /// Look again.
    Waiting,
}

/// One look at the forwards while going live: once at least `expected`
/// have settled, go live if any forwards (else fail with their errors);
/// at the deadline go live if any forwards, else fail; otherwise wait.
pub fn forward_wait(statuses: &Vec<ForwardStatus>, expected: usize, deadline_passed: bool) -> (w: ForwardWait)
    ensures
        ({
            let forwarding = count_state(statuses@, "forwarding"@);
            let settled = statuses@.len() >= expected && all_settled(statuses@);
            let details = join(error_list(statuses@), "; "@);
            &&& (settled && forwarding > 0) ==> w is Ready
            &&& (settled && forwarding == 0) ==> (w matches ForwardWait::Failed(e) && e@ == (
                ErrorKind::MediaMtx,
                "all production destinations failed: "@ + (if details.len() == 0 {
                    "unknown error"@
                } else {
                    details
                }),
            ))
            &&& (!settled && deadline_passed && forwarding > 0) ==> w is Ready
            &&& (!settled && deadline_passed && forwarding == 0) ==> (w matches ForwardWait::Failed(
                e,
            ) && e@ == (
                ErrorKind::MediaMtx,
                "no production destination started within the readiness window"@,
            ))
            &&& (!settled && !deadline_passed) ==> w is Waiting
        }),
{
    let mut forwarding: usize = 0;
    let mut settled_all = true;
    let mut errors: Vec<String> = Vec::new();
    let mut i: usize = 0;
    while i < statuses.len()
        invariant
            i <= statuses@.len(),
            forwarding as int == count_state(statuses@.subrange(0, i as int), "forwarding"@),
            forwarding <= i,
            settled_all == all_settled(statuses@.subrange(0, i as int)),
            errors.deep_view() == error_list(statuses@.subrange(0, i as int)),
        decreases statuses@.len() - i,
    {
        let ghost prefix = statuses@.subrange(0, i + 1);
        assert(prefix.drop_last() =~= statuses@.subrange(0, i as int));
        let s = &statuses[i];
        let is_forwarding = match &s.state {
            Some(x) => eq_str(x.as_str(), "forwarding"),
            None => false,
        };
        let is_error = match &s.state {
            Some(x) => eq_str(x.as_str(), "error"),
            None => false,
        };
        if is_forwarding {
            forwarding = forwarding + 1;
        }
        proof {
            if settled_all && (is_forwarding || is_error) {
                assert forall|j: int| 0 <= j < prefix.len() implies opt_view(#[trigger] prefix[j].state)
                    == Some("forwarding"@) || opt_view(prefix[j].state) == Some("error"@) by {
                    if j < i {
                        assert(prefix[j] == statuses@.subrange(0, i as int)[j]);
                    }
                }
            }
            if !settled_all {
                let j = choose|j: int|
                    0 <= j < i && !(opt_view(#[trigger] statuses@.subrange(0, i as int)[j].state)
                        == Some("forwarding"@) || opt_view(statuses@.subrange(0, i as int)[j].state)
                        == Some("error"@));
                assert(prefix[j] == statuses@.subrange(0, i as int)[j]);
            }
        }
        settled_all = settled_all && (is_forwarding || is_error);
        match &s.last_error {
            Some(e) => {
                let ghost before = errors.deep_view();
                errors.push(e.clone());
                assert(errors.deep_view() =~= before.push(e@));
            },
            None => {},
        }
        i = i + 1;
    }
    assert(statuses@.subrange(0, i as int) =~= statuses@);
    let settled = statuses.len() >= expected && settled_all;
    if settled && forwarding > 0 {
        return ForwardWait::Ready;
    }
    if settled {
        let details = join_with(&errors, "; ");
        let shown = if details.unicode_len() == 0 {
            String::from_str("unknown error")
        } else {
            details
        };
        return ForwardWait::Failed(
            BridgeError::MediaMtx(
                String::from_str("all production destinations failed: ").concat(shown.as_str()),
            ),
        );
    }
    if deadline_passed {
        if forwarding > 0 {
            return ForwardWait::Ready;
        }
        return ForwardWait::Failed(
            BridgeError::MediaMtx(
                String::from_str("no production destination started within the readiness window"),
            ),
        );
    }
    ForwardWait::Waiting
}

/// `parts.join(sep)`.
pub fn join_with(parts: &Vec<String>, sep: &str) -> (r: String)
    ensures
        r@ == join(parts.deep_view(), sep@),
{
    let mut r = String::new();
    let mut i: usize = 0;
    while i < parts.len()
        invariant
            i <= parts@.len(),
            r@ == join(parts.deep_view().subrange(0, i as int), sep@),
        decreases parts@.len() - i,
    {
        let ghost ps = parts.deep_view().subrange(0, i + 1);
        assert(ps.drop_last() =~= parts.deep_view().subrange(0, i as int));
        assert(ps.last() == parts[i as int]@);
        if i > 0 {
            r = r.concat(sep);
        }
        r = r.concat(parts[i].as_str());
        proof {
            if i == 0 {
                assert(r@ =~= ps[0]);
            }
        }
        i = i + 1;
    }
    assert(parts.deep_view().subrange(0, i as int) =~= parts.deep_view());
    r
}

/// One path as MediaMTX's `paths/list` describes it.
#[derive(Debug, Clone)]
pub struct PathItem {
    pub name: Option<String>,
    pub ready: Option<bool>,
    pub ready_time: Option<String>,
}

/// The path is listed and ready.
pub open spec fn path_listed_ready(items: Seq<PathItem>, path: Seq<char>) -> bool {
    exists|i: int| 0 <= i < items.len() && opt_view(#[trigger] items[i].name) == Some(path) && items[i].ready == Some(true)
}

pub fn path_ready(items: &Vec<PathItem>, path: &str) -> (b: bool)
    ensures
        b == path_listed_ready(items@, path@),
{
    let mut i: usize = 0;
    while i < items.len()
        invariant
            i <= items@.len(),
            forall|j: int| 0 <= j < i ==> !(opt_view(#[trigger] items@[j].name) == Some(path@) && items@[j].ready == Some(true)),
        decreases items@.len() - i,
    {
        let named = match &items[i].name {
            Some(n) => eq_str(n.as_str(), path),
            None => false,
        };
        let ready = match items[i].ready {
            Some(b) => b,
            None => false,
        };
        if named && ready {
            return true;
        }
        i = i + 1;
    }
    false
}

/// The error when a path did not become ready in time.
pub fn path_timeout(path: &str, seconds: u64) -> (e: BridgeError)
    ensures
        e@ == (
            ErrorKind::MediaMtx,
            "path /"@ + path@ + " did not become ready within "@ + decimal(seconds as nat)
                + " seconds"@,
        ),
{
    BridgeError::MediaMtx(
        String::from_str("path /").concat(path).concat(" did not become ready within ").concat(
            u64_to_string(seconds).as_str(),
        ).concat(" seconds"),
    )
}

/// One look at MediaMTX while it starts: its Control API answers (ready),
/// it exited (why), the deadline passed, or look again (`None`).
pub fn sidecar_start_check(api_ready: bool, exit_reason: Option<&str>, deadline_passed: bool) -> (r: Option<Result<(), BridgeError>>)
    ensures
        api_ready ==> r == Some(Ok::<(), BridgeError>(())),
        !api_ready && exit_reason is Some ==> (r matches Some(Err(e)) && e@ == (
            ErrorKind::MediaMtx,
            sidecar_message(exit_reason->0@),
        )),
        !api_ready && exit_reason is None && deadline_passed ==> (r matches Some(Err(e)) && e@ == (
            ErrorKind::MediaMtx,
            "Control API did not become ready on 127.0.0.1:9997"@,
        )),
        !api_ready && exit_reason is None && !deadline_passed ==> r is None,
{
    if api_ready {
        return Some(Ok(()));
    }
    match exit_reason {
        Some(reason) => Some(Err(BridgeError::MediaMtx(sidecar_exit_message(reason)))),
        None => if deadline_passed {
            Some(
                Err(
                    BridgeError::MediaMtx(
                        String::from_str("Control API did not become ready on 127.0.0.1:9997"),
                    ),
                ),
            )
        } else {
            None
        },
    }
}

/// The first destination problem among the first `n` pairs, in order.
pub open spec fn first_target_problem(ds: Seq<(String, String)>, n: int) -> Option<(ErrorKind, Seq<char>)>
    decreases n,
{
    if n <= 0 {
        None
    } else {
        match first_target_problem(ds, n - 1) {
            Some(e) => Some(e),
            None => validation(destination_problem(ds[n - 1].0@, ds[n - 1].1@)),
        }
    }
}

pub open spec fn targets_problem(ds: Seq<(String, String)>) -> Option<(ErrorKind, Seq<char>)> {
    if ds.len() == 0 {
        Some((ErrorKind::Validation, "At least one enabled RTMP destination is required"@))
    } else {
        first_target_problem(ds, ds.len() as int)
    }
}

proof fn lemma_first_target_problem(ds: Seq<(String, String)>, i: int, m: int)
    requires
        0 <= i < m,
        first_target_problem(ds, i) is None,
        destination_problem(ds[i].0@, ds[i].1@) is Some,
    ensures
        first_target_problem(ds, m) == validation(destination_problem(ds[i].0@, ds[i].1@)),
    decreases m,
{
    if m > i + 1 {
        lemma_first_target_problem(ds, i, m - 1);
    }
}

proof fn lemma_first_target_none(ds: Seq<(String, String)>, n: int)
    requires
        0 <= n <= ds.len(),
    ensures
        first_target_problem(ds, n) is None <==> forall|i: int|
            0 <= i < n ==> destination_problem((#[trigger] ds[i]).0@, ds[i].1@) is None,
    decreases n,
{
    if n > 0 {
        lemma_first_target_none(ds, n - 1);
    }
}

/// The production forwards: refused with no destination, else accepted
/// exactly when every destination is; a refusal names the first refused
/// destination's problem.
pub proof fn law_forward_targets(ds: Seq<(String, String)>)
    ensures
        targets_problem(ds) is None <==> ds.len() > 0 && forall|i: int|
            0 <= i < ds.len() ==> destination_problem((#[trigger] ds[i]).0@, ds[i].1@) is None,
        forall|i: int|
            0 <= i < ds.len() && destination_problem((#[trigger] ds[i]).0@, ds[i].1@) is Some
                && (forall|j: int| 0 <= j < i ==> destination_problem((#[trigger] ds[j]).0@, ds[j].1@) is None)
                ==> targets_problem(ds) == validation(destination_problem(ds[i].0@, ds[i].1@)),
{
    lemma_first_target_none(ds, ds.len() as int);
    assert forall|i: int|
        0 <= i < ds.len() && destination_problem((#[trigger] ds[i]).0@, ds[i].1@) is Some
            && (forall|j: int| 0 <= j < i ==> destination_problem((#[trigger] ds[j]).0@, ds[j].1@) is None)
            implies targets_problem(ds) == validation(destination_problem(ds[i].0@, ds[i].1@)) by {
        lemma_first_target_none(ds, i);
        lemma_first_target_problem(ds, i, ds.len() as int);
    }
}

/// The forward targets for the production path: at least one destination,
/// each checked by `validate_rtmp_destination` in order, written as
/// `server#key`.
pub fn forward_targets(destinations: &Vec<(String, String)>) -> (r: Result<Vec<String>, BridgeError>)
    ensures
        result_matches(r, targets_problem(destinations@)),
        r matches Ok(targets) ==> targets@.len() == destinations@.len() && forall|i: int|
            0 <= i < targets@.len() ==> #[trigger] targets@[i]@ == trim_forward_server(
                destinations@[i].0@,
            ) + seq!['#'] + destinations@[i].1@,
{
    if destinations.len() == 0 {
        return Err(
            BridgeError::Validation(
                String::from_str("At least one enabled RTMP destination is required"),
            ),
        );
    }
    let mut targets: Vec<String> = Vec::new();
    let mut i: usize = 0;
    while i < destinations.len()
        invariant
            i <= destinations@.len(),
            targets@.len() == i,
            first_target_problem(destinations@, i as int) is None,
            forall|j: int|
                0 <= j < i ==> #[trigger] targets@[j]@ == trim_forward_server(destinations@[j].0@)
                    + seq!['#'] + destinations@[j].1@,
        decreases destinations@.len() - i,
    {
        let (server, key) = &destinations[i];
        match validate_rtmp_destination(server.as_str(), key.as_str()) {
            Ok(()) => {},
            Err(e) => {
                proof {
                    lemma_first_target_problem(destinations@, i as int, destinations@.len() as int);
                }
                return Err(e);
            },
        }
        targets.push(forward_dest(server.as_str(), key.as_str()));
        i = i + 1;
    }
    Ok(targets)
}

/// The lines of MediaMTX's metrics for `metric` on `path` (`name="<path>"`),
/// each by its last whitespace-separated field, in order. The first field
/// that reads as a number is the value.
pub open spec fn metric_fields(lines: Seq<Seq<char>>, metric: Seq<char>, path: Seq<char>, n: int) -> Seq<Seq<char>>
    decreases n,
{
    if n <= 0 {
        seq![]
    } else {
        let l = lines[n - 1];
        let rest = metric_fields(lines, metric, path, n - 1);
        if starts_with(l, metric) && seq_contains(l, "name=\""@ + path + "\""@) {
            match last_token(l) {
                Some(t) => rest.push(t),
                None => rest,
            }
        } else {
            rest
        }
    }
}

pub fn metric_candidates(body: &str, metric: &str, path: &str) -> (fields: Vec<String>)
    ensures
        fields.deep_view() == metric_fields(str_lines(body@), metric@, path@, str_lines(body@).len() as int),
{
    let lines = split_lines(body);
    let label = String::from_str("name=\"").concat(path).concat("\"");
    let mut fields: Vec<String> = Vec::new();
    let mut i: usize = 0;
    while i < lines.len()
        invariant
            lines.deep_view() == str_lines(body@),
            label@ == "name=\""@ + path@ + "\""@,
            i <= lines@.len(),
            fields.deep_view() == metric_fields(str_lines(body@), metric@, path@, i as int),
        decreases lines@.len() - i,
    {
        let line = lines[i].as_str();
        assert(line@ == str_lines(body@)[i as int]);
        if has_prefix(line, metric) && contains(line, label.as_str()) {
            match last_token_of(line) {
                Some(t) => {
                    let ghost before = fields.deep_view();
                    fields.push(t);
                    assert(fields.deep_view() =~= before.push(last_token(line@)->0));
                },
                None => {},
            }
        }
        i = i + 1;
    }
    fields
}

/// `RFC 3339` parse of a timestamp by the `time` crate: the instant as
/// nanoseconds since the Unix epoch, or `None` when the text is not a valid
/// RFC 3339 date-time.
pub uninterp spec fn rfc3339_unix_nanos(input: Seq<char>) -> Option<i128>;

/// Calls `time::OffsetDateTime::parse` with the RFC 3339 format and takes
/// `unix_timestamp_nanos`; the result is `rfc3339_unix_nanos` of the text.
#[verifier::external_body]
fn parse_rfc3339_nanos(input: &str) -> (r: Option<i128>)
    ensures
        r == rfc3339_unix_nanos(input@),
{
    match time::OffsetDateTime::parse(input, &time::format_description::well_known::Rfc3339) {
        Ok(t) => Some(t.unix_timestamp_nanos()),
        Err(_) => None,
    }
}

/// A MediaMTX `readyTime` in Unix ms: none before the epoch.
pub open spec fn ready_time_ms(nanos: Option<i128>) -> Option<u64> {
    match nanos {
        Some(n) => if n >= 0 {
            Some((n / 1_000_000) as u64)
        } else {
            None
        },
        None => None,
    }
}

pub fn parse_rfc3339_rough(input: &str) -> (r: Option<u64>)
    ensures
        r == ready_time_ms(rfc3339_unix_nanos(input@)),
{
    match parse_rfc3339_nanos(input) {
        Some(n) => if n >= 0 {
            Some((n / 1_000_000) as u64)
        } else {
            None
        },
        None => None,
    }
}

/// The `/drone` path in MediaMTX's answer: the first item named "drone".
pub open spec fn drone_item(items: Seq<PathItem>, i: int) -> Option<int>
    decreases items.len() - i,
{
    if i < 0 || i >= items.len() {
        None
    } else if opt_view(items[i].name) == Some("drone"@) {
        Some(i)
    } else {
        drone_item(items, i + 1)
    }
}

/// Whether a drone publishes and since when (Unix ms), from MediaMTX's
/// `paths/list` answer (`None` when it held no item list).
pub fn drone_presence(items: &Option<Vec<PathItem>>) -> (r: (bool, Option<u64>))
    ensures
        match *items {
            Some(list) => match drone_item(list@, 0) {
                Some(i) => r.0 == (list@[i].ready == Some(true)) && r.1 == (match list@[i].ready_time {
                    Some(t) => ready_time_ms(rfc3339_unix_nanos(t@)),
                    None => None,
                }),
                None => !r.0 && r.1 is None,
            },
            None => !r.0 && r.1 is None,
        },
{
    let list = match items {
        Some(list) => list,
        None => {
            return (false, None);
        },
    };
    let mut i: usize = 0;
    while i < list.len()
        invariant
            i <= list@.len(),
            *items == Some(*list),
            drone_item(list@, 0) == drone_item(list@, i as int),
        decreases list@.len() - i,
    {
        let named = match &list[i].name {
            Some(n) => eq_str(n.as_str(), "drone"),
            None => false,
        };
        if named {
            assert(drone_item(list@, i as int) == Some(i as int));
            let present = match list[i].ready {
                Some(b) => b,
                None => false,
            };
            let since = match &list[i].ready_time {
                Some(t) => parse_rfc3339_rough(t.as_str()),
                None => None,
            };
            return (present, since);
        }
        i = i + 1;
    }
    (false, None)
}


/// MediaMTX's forward reports come out ordered by position, and reports at
/// the same position keep the order MediaMTX listed them in.
pub proof fn law_forward_order(keys: Seq<usize>, order: Seq<usize>, a: int, b: int)
    requires
        stable_order(keys, order),
        0 <= a < b < order.len(),
    ensures
        keys[order[a] as int] <= keys[order[b] as int],
        keys[order[a] as int] == keys[order[b] as int] ==> order[a] < order[b],
{
    assert(key_before(keys, order[a] as int, order[b] as int));
}


/// How the supervisor runs MediaMTX: under the name `mediamtx`, with the
/// config file as its one argument, restarted when it fails.
pub fn sidecar_spec(binary: &str, config_path: &str) -> (spec: ProcessSpec)
    ensures
        spec.name@ == "mediamtx"@,
        spec.executable@ == binary@,
        spec.args.deep_view() == seq![config_path@],
        spec.restart_policy == RestartPolicy::OnFailure,
{
    let mut args: Vec<String> = Vec::new();
    args.push(String::from_str(config_path));
    proof {
        assert(args.deep_view() =~= seq![config_path@]);
    }
    ProcessSpec {
        name: String::from_str("mediamtx"),
        executable: String::from_str(binary),
        args,
        restart_policy: RestartPolicy::OnFailure,
    }
}

/// The process ids in `lines`, one per line that parses as an `i32` once
/// trimmed; other lines are skipped.
pub open spec fn pids_in(lines: Seq<Seq<char>>) -> Seq<i32>
    decreases lines.len(),
{
    if lines.len() == 0 {
        seq![]
    } else {
        match parse_i32_spec(trim(lines.last())) {
            Some(pid) => pids_in(lines.drop_last()).push(pid),
            None => pids_in(lines.drop_last()),
        }
    }
}

/// The process ids that `lsof -t` printed for the Control API port.
pub fn listed_pids(listing: &str) -> (pids: Vec<i32>)
    ensures
        pids@ == pids_in(str_lines(listing@)),
{
    let lines = split_lines(listing);
    let mut pids: Vec<i32> = Vec::new();
    let mut i: usize = 0;
    while i < lines.len()
        invariant
            i <= lines@.len(),
            lines.deep_view() == str_lines(listing@),
            pids@ == pids_in(str_lines(listing@).subrange(0, i as int)),
        decreases lines@.len() - i,
    {
        let ghost all = str_lines(listing@);
        assert(all.subrange(0, i + 1).drop_last() =~= all.subrange(0, i as int));
        assert(lines.deep_view()[i as int] == lines@[i as int]@);
        let line = trim_str(lines[i].as_str());
        match parse_i32(line.as_str()) {
            Some(pid) => pids.push(pid),
            None => {},
        }
        i = i + 1;
    }
    assert(str_lines(listing@).subrange(0, lines@.len() as int) =~= str_lines(listing@));
    pids
}

/// A process listening on the Control API port is a MediaMTX left over
/// from an earlier run only when its command line names this config file.
pub fn is_stale_sidecar(command_line: &str, config_path: &str) -> (b: bool)
    ensures
        b == seq_contains(command_line@, config_path@),
{
    contains(command_line, config_path)
}

} // verus!
