use dji_live_bridge::mediamtx::{is_stale_sidecar, listed_pids, sidecar_spec};
use dji_live_bridge::process::RestartPolicy;

#[test]
fn lsof_pids_are_read_line_by_line() {
    assert_eq!(listed_pids("4242\n 77 \nnot a pid\n\n-3\n"), vec![4242, 77, -3]);
    assert!(listed_pids("").is_empty());
    assert_eq!(listed_pids("99999999999\n12"), vec![12]);
}

#[test]
fn only_a_sidecar_started_with_our_config_is_reaped() {
    let config = "/Users/a/Library/Application Support/DJI Live Bridge/mediamtx.yml";
    assert!(is_stale_sidecar(&format!("/Applications/DJI Live Bridge.app/Contents/MacOS/mediamtx {config}\n"), config));
    assert!(!is_stale_sidecar("/usr/local/bin/mediamtx /etc/mediamtx.yml", config));
}

#[test]
fn mediamtx_runs_with_its_config_and_restarts_on_failure() {
    let spec = sidecar_spec("/app/mediamtx", "/cfg/mediamtx.yml");
    assert_eq!(spec.name, "mediamtx");
    assert_eq!(spec.executable, "/app/mediamtx");
    assert_eq!(spec.args, vec!["/cfg/mediamtx.yml".to_string()]);
    assert_eq!(spec.restart_policy, RestartPolicy::OnFailure);
}
