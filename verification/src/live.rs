//! Decisions of the live route: what each destination shows once MediaMTX has
//! reported on its forward, and the checks before going live.
use vstd::prelude::*;
use crate::mediamtx::ForwardStatus;
use crate::state::{ProductionState, RtmpDestinationState};
use crate::text::{opt_view, eq_str};
use crate::config::RtmpDestinationConfig;

verus! {

/// `id` is among `ids`.
pub open spec fn id_listed(ids: Seq<String>, id: Seq<char>) -> bool {
    exists|k: int| 0 <= k < ids.len() && #[trigger] ids[k]@ == id
}

/// Last position before `n` at which `ids` holds `id`.
pub open spec fn last_listed(ids: Seq<String>, n: int, id: Seq<char>) -> Option<int>
    decreases n,
{
    if n <= 0 {
        None
    } else if ids[n - 1]@ == id {
        Some(n - 1)
    } else {
        last_listed(ids, n - 1, id)
    }
}

/// No earlier destination has the ID of destination `j`.
pub open spec fn first_of_id(ds: Seq<RtmpDestinationState>, j: int) -> bool {
    forall|i: int| 0 <= i < j ==> #[trigger] ds[i].id@ != ds[j].id@
}

pub open spec fn zip_len(ids: Seq<String>, statuses: Seq<ForwardStatus>) -> int {
    if ids.len() < statuses.len() {
        ids.len() as int
    } else {
        statuses.len() as int
    }
}

/// The forwarding state, last error and outbound bytes destination `j` shows
/// when `ids` are the active destinations and `statuses[k]` is MediaMTX's
/// report on `ids[k]`: the report on its own ID (the last one, when the ID is
/// listed twice); "starting" while it is active without a report; nothing when
/// it is inactive. Only the first destination with an ID receives reports.
pub open spec fn runtime(
    ds: Seq<RtmpDestinationState>,
    ids: Seq<String>,
    statuses: Seq<ForwardStatus>,
    j: int,
) -> (Option<Seq<char>>, Option<Seq<char>>, u64) {
    if first_of_id(ds, j) {
        match last_listed(ids, zip_len(ids, statuses), ds[j].id@) {
            Some(k) => (
                opt_view(statuses[k].state),
                opt_view(statuses[k].last_error),
                statuses[k].outbound_bytes,
            ),
            None => if id_listed(ids, ds[j].id@) {
                (Some("starting"@), None, 0)
            } else {
                (None, None, 0)
            },
        }
    } else {
        (None, None, 0)
    }
}

/// Counts, among the active destinations in `ds[0..n]`: how many there are,
/// how many are forwarding, how many failed; and their total outbound bytes.
pub open spec fn tally(
    ds: Seq<RtmpDestinationState>,
    ids: Seq<String>,
    statuses: Seq<ForwardStatus>,
    n: int,
) -> (int, int, int, int)
    decreases n,
{
    if n <= 0 {
        (0, 0, 0, 0)
    } else {
        let t = tally(ds, ids, statuses, n - 1);
        if id_listed(ids, ds[n - 1].id@) {
            let r = runtime(ds, ids, statuses, n - 1);
            (
                t.0 + 1,
                t.1 + if r.0 == Some("forwarding"@) {
                    1int
                } else {
                    0
                },
                t.2 + if r.0 == Some("error"@) {
                    1int
                } else {
                    0
                },
                t.3 + r.2,
            )
        } else {
            t
        }
    }
}

/// "name: error" for every active destination in `ds[0..n]` that reports an error.
pub open spec fn error_parts(
    ds: Seq<RtmpDestinationState>,
    ids: Seq<String>,
    statuses: Seq<ForwardStatus>,
    n: int,
) -> Seq<Seq<char>>
    decreases n,
{
    if n <= 0 {
        seq![]
    } else {
        let p = error_parts(ds, ids, statuses, n - 1);
        if id_listed(ids, ds[n - 1].id@) {
            match runtime(ds, ids, statuses, n - 1).1 {
                Some(e) => p.push(ds[n - 1].name@ + ": "@ + e),
                None => p,
            }
        } else {
            p
        }
    }
}

/// `parts` joined with `sep` between them.
pub open spec fn join(parts: Seq<Seq<char>>, sep: Seq<char>) -> Seq<char>
    decreases parts.len(),
{
    if parts.len() == 0 {
        seq![]
    } else if parts.len() == 1 {
        parts[0]
    } else {
        join(parts.drop_last(), sep) + sep + parts.last()
    }
}

/// The overall forwarding state: all forwarding, some forwarding ("partial"),
/// all failed ("error"), or still "starting".
pub open spec fn overall_state(active: int, forwarding: int, failed: int) -> Option<Seq<char>> {
    if active == 0 {
        None
    } else if forwarding == active {
        Some("forwarding"@)
    } else if forwarding > 0 {
        Some("partial"@)
    } else if failed == active {
        Some("error"@)
    } else {
        Some("starting"@)
    }
}

/// The overall forwarding state is "error" exactly when there are active
/// destinations and all of them failed; "forwarding" exactly when all of
/// them forward; "partial" when some but not all forward; none without
/// active destinations.
pub proof fn law_overall_state(active: int, forwarding: int, failed: int)
    requires
        0 <= forwarding,
        0 <= failed,
        forwarding + failed <= active,
    ensures
        overall_state(active, forwarding, failed) is None <==> active == 0,
        overall_state(active, forwarding, failed) == Some("error"@) <==> active > 0 && failed
            == active,
        overall_state(active, forwarding, failed) == Some("forwarding"@) <==> active > 0
            && forwarding == active,
        overall_state(active, forwarding, failed) == Some("partial"@) <==> 0 < forwarding < active,
{
    reveal_strlit("error");
    reveal_strlit("forwarding");
    reveal_strlit("partial");
    reveal_strlit("starting");
    assert("error"@.len() == 5);
    assert("forwarding"@.len() == 10);
    assert("partial"@.len() == 7);
    assert("starting"@.len() == 8);
}

proof fn lemma_tally_all_failed(
    ds: Seq<RtmpDestinationState>,
    ids: Seq<String>,
    statuses: Seq<ForwardStatus>,
    n: int,
)
    requires
        n <= ds.len(),
        forall|j: int|
            0 <= j < n && #[trigger] id_listed(ids, ds[j].id@) ==> runtime(ds, ids, statuses, j).0
                == Some("error"@),
    ensures
        tally(ds, ids, statuses, n).1 == 0,
        tally(ds, ids, statuses, n).2 == tally(ds, ids, statuses, n).0,
        (exists|j: int| 0 <= j < n && #[trigger] id_listed(ids, ds[j].id@)) ==> tally(
            ds,
            ids,
            statuses,
            n,
        ).0 > 0,
        tally(ds, ids, statuses, n).0 >= 0,
    decreases n,
{
    reveal_strlit("error");
    reveal_strlit("forwarding");
    assert("error"@.len() != "forwarding"@.len());
    if n > 0 {
        lemma_tally_all_failed(ds, ids, statuses, n - 1);
        if exists|j: int| 0 <= j < n && #[trigger] id_listed(ids, ds[j].id@) {
            let j = choose|j: int| 0 <= j < n && #[trigger] id_listed(ids, ds[j].id@);
            if j < n - 1 {
                assert(exists|j: int| 0 <= j < n - 1 && #[trigger] id_listed(ids, ds[j].id@));
            }
        }
    }
}

/// When every active destination reports an error (and there is at least
/// one), the overall forwarding state that `apply_forward_statuses` records
/// is "error".
pub proof fn law_all_failed_is_error(
    ds: Seq<RtmpDestinationState>,
    ids: Seq<String>,
    statuses: Seq<ForwardStatus>,
)
    requires
        exists|j: int| 0 <= j < ds.len() && #[trigger] id_listed(ids, ds[j].id@),
        forall|j: int|
            0 <= j < ds.len() && #[trigger] id_listed(ids, ds[j].id@) ==> runtime(
                ds,
                ids,
                statuses,
                j,
            ).0 == Some("error"@),
    ensures
        ({
            let t = tally(ds, ids, statuses, ds.len() as int);
            overall_state(t.0, t.1, t.2) == Some("error"@)
        }),
{
    lemma_tally_all_failed(ds, ids, statuses, ds.len() as int);
}

fn clone_opt(o: &Option<String>) -> (r: Option<String>)
    ensures
        r == *o,
{
    match o {
        Some(s) => Some(s.clone()),
        None => None,
    }
}

fn opt_is(o: &Option<String>, lit: &str) -> (r: bool)
    ensures
        r == (opt_view(*o) == Some(lit@)),
{
    match o {
        Some(s) => eq_str(s.as_str(), lit),
        None => false,
    }
}

fn is_listed(ids: &[String], id: &String) -> (r: bool)
    ensures
        r == id_listed(ids@, id@),
{
    let mut k: usize = 0;
    while k < ids.len()
        invariant
            k <= ids@.len(),
            forall|i: int| 0 <= i < k ==> #[trigger] ids@[i]@ != id@,
        decreases ids@.len() - k,
    {
        if eq_str(ids[k].as_str(), id.as_str()) {
            return true;
        }
        k = k + 1;
    }
    false
}

proof fn lemma_last_listed(ids: Seq<String>, n: int, id: Seq<char>)
    ensures
        last_listed(ids, n, id) matches Some(k) ==> 0 <= k < n && ids[k]@ == id,
    decreases n,
{
    if n > 0 && ids[n - 1]@ != id {
        lemma_last_listed(ids, n - 1, id);
    }
}

fn last_listed_exec(ids: &[String], n: usize, id: &String) -> (r: Option<usize>)
    requires
        n <= ids@.len(),
    ensures
        match r {
            Some(k) => last_listed(ids@, n as int, id@) == Some(k as int),
            None => last_listed(ids@, n as int, id@) is None,
        },
{
    let mut m = n;
    while m > 0
        invariant
            m <= n <= ids@.len(),
            last_listed(ids@, n as int, id@) == last_listed(ids@, m as int, id@),
        decreases m,
    {
        if eq_str(ids[m - 1].as_str(), id.as_str()) {
            return Some(m - 1);
        }
        m = m - 1;
    }
    None
}

fn is_first_of_id(ds: &Vec<RtmpDestinationState>, j: usize) -> (r: bool)
    requires
        j < ds@.len(),
    ensures
        r == first_of_id(ds@, j as int),
{
    let mut i: usize = 0;
    while i < j
        invariant
            i <= j < ds@.len(),
            forall|k: int| 0 <= k < i ==> #[trigger] ds@[k].id@ != ds@[j as int].id@,
        decreases j - i,
    {
        if eq_str(ds[i].id.as_str(), ds[j].id.as_str()) {
            return false;
        }
        i = i + 1;
    }
    true
}

/// Same destination, runtime fields as given.
pub open spec fn with_runtime(
    d: RtmpDestinationState,
    e: RtmpDestinationState,
    r: (Option<Seq<char>>, Option<Seq<char>>, u64),
) -> bool {
    &&& e.id == d.id
    &&& e.name == d.name
    &&& e.kind == d.kind
    &&& e.server == d.server
    &&& e.enabled == d.enabled
    &&& opt_view(e.state) == r.0
    &&& opt_view(e.last_error) == r.1
    &&& e.outbound_bytes == r.2
}

proof fn lemma_join_push(parts: Seq<Seq<char>>, sep: Seq<char>, x: Seq<char>)
    ensures
        join(parts.push(x), sep) == if parts.len() == 0 {
            x
        } else {
            join(parts, sep) + sep + x
        },
{
    assert(parts.push(x).drop_last() =~= parts);
}

/// Applies MediaMTX's forward reports to the destinations. `active_ids` are the
/// destinations the live route started, in the order their forwards were
/// configured, and `statuses[k]` reports on `active_ids[k]`. Each destination
/// shows only its own report, so one failing destination never changes what
/// another shows; the overall state, the joined errors and the total outbound
/// bytes are then taken over the active destinations.
pub fn apply_forward_statuses(
    production: &mut ProductionState,
    active_ids: &[String],
    statuses: &[ForwardStatus],
)
    requires
        tally(
            old(production).destinations@,
            active_ids@,
            statuses@,
            old(production).destinations@.len() as int,
        ).3 <= u64::MAX,
    ensures
        ({
            let ds = old(production).destinations@;
            let t = tally(ds, active_ids@, statuses@, ds.len() as int);
            let errors = error_parts(ds, active_ids@, statuses@, ds.len() as int);
            &&& final(production).destinations@.len() == ds.len()
            &&& forall|j: int|
                0 <= j < ds.len() ==> with_runtime(
                    ds[j],
                    #[trigger] final(production).destinations@[j],
                    runtime(ds, active_ids@, statuses@, j),
                )
            &&& opt_view(final(production).forward_state) == overall_state(t.0, t.1, t.2)
            &&& opt_view(final(production).forward_error) == if errors.len() == 0 {
                None
            } else {
                Some(join(errors, "; "@))
            }
            &&& final(production).outbound_bytes == t.3
            &&& final(production).engine == old(production).engine
            &&& final(production).prepared == old(production).prepared
            &&& final(production).active == old(production).active
            &&& final(production).path_status == old(production).path_status
            &&& final(production).encoder == old(production).encoder
            &&& final(production).recording_active == old(production).recording_active
        }),
{
    let ghost ds = production.destinations@;
    let n = production.destinations.len();
    let zip = if active_ids.len() < statuses.len() {
        active_ids.len()
    } else {
        statuses.len()
    };
    let mut out: Vec<RtmpDestinationState> = Vec::new();
    let mut j: usize = 0;
    while j < n
        invariant
            n == ds.len(),
            production.destinations@ == ds,
            zip == zip_len(active_ids@, statuses@),
            j <= n,
            out@.len() == j,
            forall|i: int|
                0 <= i < j ==> with_runtime(
                    ds[i],
                    #[trigger] out@[i],
                    runtime(ds, active_ids@, statuses@, i),
                ),
        decreases n - j,
    {
        let d = &production.destinations[j];
        let first = is_first_of_id(&production.destinations, j);
        proof {
            lemma_last_listed(active_ids@, zip as int, d.id@);
        }
        let (state, last_error, bytes) = if first {
            match last_listed_exec(active_ids, zip, &d.id) {
                Some(k) => (
                    clone_opt(&statuses[k].state),
                    clone_opt(&statuses[k].last_error),
                    statuses[k].outbound_bytes,
                ),
                None => {
                    if is_listed(active_ids, &d.id) {
                        (Some(String::from_str("starting")), None, 0)
                    } else {
                        (None, None, 0)
                    }
                },
            }
        } else {
            (None, None, 0)
        };
        out.push(
            RtmpDestinationState {
                id: d.id.clone(),
                name: d.name.clone(),
                kind: d.kind,
                server: d.server.clone(),
                enabled: d.enabled,
                state,
                last_error,
                outbound_bytes: bytes,
            },
        );
        j = j + 1;
    }
    let mut active: usize = 0;
    let mut forwarding: usize = 0;
    let mut failed: usize = 0;
    let mut total: u64 = 0;
    let mut errors = String::new();
    let mut error_count: usize = 0;
    let mut j: usize = 0;
    while j < n
        invariant
            n == ds.len(),
            out@.len() == n,
            j <= n,
            tally(ds, active_ids@, statuses@, n as int).3 <= u64::MAX,
            forall|i: int|
                0 <= i < n ==> with_runtime(
                    ds[i],
                    #[trigger] out@[i],
                    runtime(ds, active_ids@, statuses@, i),
                ),
            tally(ds, active_ids@, statuses@, j as int) == (
                active as int,
                forwarding as int,
                failed as int,
                total as int,
            ),
            error_count == error_parts(ds, active_ids@, statuses@, j as int).len(),
            errors@ == join(error_parts(ds, active_ids@, statuses@, j as int), "; "@),
            active <= j,
            forwarding <= j,
            failed <= j,
            error_count <= j,
        decreases n - j,
    {
        proof {
            lemma_tally_monotone(ds, active_ids@, statuses@, j + 1, n as int);
        }
        let e = &out[j];
        if is_listed(active_ids, &e.id) {
            active = active + 1;
            if opt_is(&e.state, "forwarding") {
                forwarding = forwarding + 1;
            }
            if opt_is(&e.state, "error") {
                failed = failed + 1;
            }
            total = total + e.outbound_bytes;
            match &e.last_error {
                Some(message) => {
                    proof {
                        lemma_join_push(
                            error_parts(ds, active_ids@, statuses@, j as int),
                            "; "@,
                            ds[j as int].name@ + ": "@ + message@,
                        );
                    }
                    if error_count > 0 {
                        errors = errors.concat("; ");
                    }
                    errors = errors.concat(e.name.as_str()).concat(": ").concat(message.as_str());
                    error_count = error_count + 1;
                },
                None => {},
            }
        }
        j = j + 1;
    }
    proof {
        assert(ds.len() == n);
    }
    production.destinations = out;
    production.forward_state = if active == 0 {
        None
    } else if forwarding == active {
        Some(String::from_str("forwarding"))
    } else if forwarding > 0 {
        Some(String::from_str("partial"))
    } else if failed == active {
        Some(String::from_str("error"))
    } else {
        Some(String::from_str("starting"))
    };
    production.forward_error = if error_count == 0 {
        None
    } else {
        Some(errors)
    };
    production.outbound_bytes = total;
}

proof fn lemma_tally_monotone(
    ds: Seq<RtmpDestinationState>,
    ids: Seq<String>,
    statuses: Seq<ForwardStatus>,
    a: int,
    b: int,
)
    requires
        0 <= a <= b,
    ensures
        tally(ds, ids, statuses, a).3 <= tally(ds, ids, statuses, b).3,
        tally(ds, ids, statuses, a).3 >= 0,
    decreases b - a,
{
    if b > a {
        lemma_tally_monotone(ds, ids, statuses, a, b - 1);
    }
    lemma_tally_nonneg(ds, ids, statuses, a);
}

proof fn lemma_tally_nonneg(ds: Seq<RtmpDestinationState>, ids: Seq<String>, statuses: Seq<ForwardStatus>, a: int)
    ensures
        tally(ds, ids, statuses, a).3 >= 0,
    decreases a,
{
    if a > 0 {
        lemma_tally_nonneg(ds, ids, statuses, a - 1);
    }
}

} // verus!

verus! {

/// Each active destination with its own report shows exactly that report:
/// with distinct active IDs, what destination `j` shows depends on no other
/// destination's report.
pub proof fn law_forward_isolation(
    ds: Seq<RtmpDestinationState>,
    ids: Seq<String>,
    statuses: Seq<ForwardStatus>,
    j: int,
    k: int,
)
    requires
        0 <= j < ds.len(),
        first_of_id(ds, j),
        0 <= k < zip_len(ids, statuses),
        ids[k]@ == ds[j].id@,
        forall|a: int, b: int| 0 <= a < b < ids.len() ==> #[trigger] ids[a]@ != #[trigger] ids[b]@,
    ensures
        runtime(ds, ids, statuses, j) == (
            opt_view(statuses[k].state),
            opt_view(statuses[k].last_error),
            statuses[k].outbound_bytes,
        ),
{
    lemma_last_listed_is(ids, zip_len(ids, statuses), k);
}

proof fn lemma_last_listed_is(ids: Seq<String>, n: int, k: int)
    requires
        0 <= k < n <= ids.len(),
        forall|a: int, b: int| 0 <= a < b < ids.len() ==> #[trigger] ids[a]@ != #[trigger] ids[b]@,
    ensures
        last_listed(ids, n, ids[k]@) == Some(k),
    decreases n,
{
    if n - 1 != k {
        assert(ids[k]@ != ids[n - 1]@);
        lemma_last_listed_is(ids, n - 1, k);
    }
}

/// A destination with no forwarding report.
pub fn destination_state(destination: &RtmpDestinationConfig) -> (s: RtmpDestinationState)
    ensures
        s.id == destination.id,
        s.name == destination.name,
        s.kind == destination.kind,
        s.server == destination.server,
        s.enabled == destination.enabled,
        s.state is None,
        s.last_error is None,
        s.outbound_bytes == 0,
{
    RtmpDestinationState {
        id: destination.id.clone(),
        name: destination.name.clone(),
        kind: destination.kind,
        server: destination.server.clone(),
        enabled: destination.enabled,
        state: None,
        last_error: None,
        outbound_bytes: 0,
    }
}

/// Forgets every forwarding report.
pub fn clear_destination_runtime(destinations: &mut Vec<RtmpDestinationState>)
    ensures
        final(destinations)@.len() == old(destinations)@.len(),
        forall|j: int|
            0 <= j < old(destinations)@.len() ==> with_runtime(
                old(destinations)@[j],
                #[trigger] final(destinations)@[j],
                (None, None, 0),
            ),
{
    let ghost start = destinations@;
    let mut i: usize = 0;
    while i < destinations.len()
        invariant
            destinations@.len() == start.len(),
            i <= start.len(),
            forall|j: int|
                0 <= j < i ==> with_runtime(start[j], #[trigger] destinations@[j], (None, None, 0)),
            forall|j: int| i <= j < start.len() ==> #[trigger] destinations@[j] == start[j],
        decreases start.len() - i,
    {
        let d = &destinations[i];
        let cleared = RtmpDestinationState {
            id: d.id.clone(),
            name: d.name.clone(),
            kind: d.kind,
            server: d.server.clone(),
            enabled: d.enabled,
            state: None,
            last_error: None,
            outbound_bytes: 0,
        };
        destinations.set(i, cleared);
        i = i + 1;
    }
}

/// Index of the first destination state with `id`.
pub open spec fn find_state(ds: Seq<RtmpDestinationState>, id: Seq<char>) -> Option<int>
    decreases ds.len(),
{
    if ds.len() == 0 {
        None
    } else if ds.last().id@ == id && find_state(ds.drop_last(), id) is None {
        Some(ds.len() - 1)
    } else {
        find_state(ds.drop_last(), id)
    }
}

proof fn lemma_find_state(ds: Seq<RtmpDestinationState>, id: Seq<char>)
    ensures
        find_state(ds, id) matches Some(i) ==> 0 <= i < ds.len() && ds[i].id@ == id,
    decreases ds.len(),
{
    if ds.len() > 0 {
        lemma_find_state(ds.drop_last(), id);
    }
}

fn find_state_exec(ds: &Vec<RtmpDestinationState>, id: &String) -> (r: Option<usize>)
    ensures
        match r {
            Some(i) => find_state(ds@, id@) == Some(i as int),
            None => find_state(ds@, id@) is None,
        },
{
    let mut i: usize = 0;
    let mut found: Option<usize> = None;
    while i < ds.len()
        invariant
            i <= ds@.len(),
            match found {
                Some(k) => find_state(ds@.subrange(0, i as int), id@) == Some(k as int),
                None => find_state(ds@.subrange(0, i as int), id@) is None,
            },
        decreases ds@.len() - i,
    {
        assert(ds@.subrange(0, i + 1).drop_last() =~= ds@.subrange(0, i as int));
        if found.is_none() && eq_str(ds[i].id.as_str(), id.as_str()) {
            found = Some(i);
        }
        i = i + 1;
    }
    assert(ds@.subrange(0, ds@.len() as int) =~= ds@);
    found
}

/// The destination states for the stored destinations: each keeps the report
/// of the state with its ID (if any) and takes its name, kind, server and
/// switch from the stored destination.
pub fn sync_destinations(
    previous: &Vec<RtmpDestinationState>,
    configs: &Vec<RtmpDestinationConfig>,
) -> (r: Vec<RtmpDestinationState>)
    ensures
        r@.len() == configs@.len(),
        forall|j: int|
            0 <= j < configs@.len() ==> ({
                let c = configs@[j];
                let s = #[trigger] r@[j];
                &&& s.id == c.id
                &&& s.name == c.name
                &&& s.kind == c.kind
                &&& s.server == c.server
                &&& s.enabled == c.enabled
                &&& match find_state(previous@, c.id@) {
                    Some(i) => s.state == previous@[i].state && s.last_error
                        == previous@[i].last_error && s.outbound_bytes
                        == previous@[i].outbound_bytes,
                    None => s.state is None && s.last_error is None && s.outbound_bytes == 0,
                }
            }),
{
    let mut out: Vec<RtmpDestinationState> = Vec::new();
    let mut j: usize = 0;
    while j < configs.len()
        invariant
            j <= configs@.len(),
            out@.len() == j,
            forall|k: int|
                0 <= k < j ==> ({
                    let c = configs@[k];
                    let s = #[trigger] out@[k];
                    &&& s.id == c.id
                    &&& s.name == c.name
                    &&& s.kind == c.kind
                    &&& s.server == c.server
                    &&& s.enabled == c.enabled
                    &&& match find_state(previous@, c.id@) {
                        Some(i) => s.state == previous@[i].state && s.last_error
                            == previous@[i].last_error && s.outbound_bytes
                            == previous@[i].outbound_bytes,
                        None => s.state is None && s.last_error is None && s.outbound_bytes == 0,
                    }
                }),
        decreases configs@.len() - j,
    {
        let c = &configs[j];
        proof {
            lemma_find_state(previous@, c.id@);
        }
        let s = match find_state_exec(previous, &c.id) {
            Some(i) => RtmpDestinationState {
                id: c.id.clone(),
                name: c.name.clone(),
                kind: c.kind,
                server: c.server.clone(),
                enabled: c.enabled,
                state: clone_opt(&previous[i].state),
                last_error: clone_opt(&previous[i].last_error),
                outbound_bytes: previous[i].outbound_bytes,
            },
            None => destination_state(c),
        };
        out.push(s);
        j = j + 1;
    }
    out
}

} // verus!
