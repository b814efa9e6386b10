//! Advertising `live.local` over Bonjour, so the drone can be given a fixed
//! RTMP URL whatever the LAN address.
use vstd::prelude::*;
use crate::error::{BridgeError, ErrorKind};
use crate::ffmpeg::push_all;
use crate::network::{Ipv4, ipv4_text, ipv4_to_string, parse_ipv4, parse_ipv4_spec};
use crate::process::{ProcessSpec, RestartPolicy};
use crate::text::push_owned;

verus! {

pub const HOSTNAME: &'static str = "live.local";
pub const RTMP_URL: &'static str = "rtmp://live.local/drone";
pub const PROCESS_NAME: &'static str = "bonjour-live-local";

/// The `dns-sd` registration: an RTMP service on port 1935 whose host
/// `live.local.` points at the LAN address, with the `/drone` path.
pub open spec fn registration_args(address: Ipv4) -> Seq<Seq<char>> {
    seq![
        "-P"@,
        "DJI Live Bridge"@,
        "_rtmp._tcp"@,
        "local."@,
        "1935"@,
        "live.local."@,
        ipv4_text(address),
        "path=/drone"@,
    ]
}

pub fn process_spec(address: Ipv4) -> (spec: ProcessSpec)
    ensures
        spec.name@ == PROCESS_NAME@,
        spec.executable@ == "/usr/bin/dns-sd"@,
        spec.args.deep_view() == registration_args(address),
        spec.restart_policy == RestartPolicy::OnFailure,
{
    let mut args: Vec<String> = Vec::new();
    push_all(&mut args, vec!["-P", "DJI Live Bridge", "_rtmp._tcp", "local.", "1935", "live.local."]);
    push_owned(&mut args, ipv4_to_string(address));
    push_all(&mut args, vec!["path=/drone"]);
    ProcessSpec {
        name: String::from_str(PROCESS_NAME),
        executable: String::from_str("/usr/bin/dns-sd"),
        args,
        restart_policy: RestartPolicy::OnFailure,
    }
}

/// The registration for a LAN address given as text, which must be an IPv4
/// address.
pub fn advertise_plan(ipv4: &str) -> (r: Result<ProcessSpec, BridgeError>)
    ensures
        parse_ipv4_spec(ipv4@) is None ==> (r matches Err(e) && e@ == (
            ErrorKind::Validation,
            "Bonjour advertisement requires an IPv4 address: "@ + ipv4@,
        )),
        parse_ipv4_spec(ipv4@) matches Some(a) ==> (r matches Ok(spec) && spec.args.deep_view()
            == registration_args(a) && spec.name@ == PROCESS_NAME@ && spec.restart_policy
            == RestartPolicy::OnFailure),
{
    match parse_ipv4(ipv4) {
        Some(address) => Ok(process_spec(address)),
        None => Err(
            BridgeError::Validation(
                String::from_str("Bonjour advertisement requires an IPv4 address: ").concat(ipv4),
            ),
        ),
    }
}

} // verus!
