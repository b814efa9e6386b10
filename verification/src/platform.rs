//! The checks before the app hands something to the operating system: which
//! links may be opened, and where the helper applications are.
use vstd::prelude::*;
use crate::config::{parse_url, url_parse};
use crate::error::{BridgeError, ErrorKind};
use crate::recording::{join_path, join_path_exec};
use crate::text::{chars_of, eq_str, has_char, push_owned, starts_with, strip_prefix};

verus! {

pub const OBS_APP: &'static str = "/Applications/OBS.app";
pub const TIKTOK_LIVE_STUDIO_APP: &'static str = "/Applications/TikTok LIVE Studio.app";
pub const TIKTOK_LIVE_STUDIO_DOWNLOAD_URL: &'static str = "https://www.tiktok.com/studio/download";
pub const OBS_DOWNLOAD_URL: &'static str = "https://obsproject.com/download";

/// Why a link may not be opened: it is no URL, or not an HTTPS one.
pub open spec fn url_problem(url: Seq<char>) -> Option<(ErrorKind, Seq<char>)> {
    match url_parse(url) {
        None => Some((ErrorKind::Validation, "invalid external URL"@)),
        Some(u) => if u.scheme != "https"@ {
            Some((ErrorKind::Validation, "only HTTPS external URLs are allowed"@))
        } else {
            None
        },
    }
}

/// Only HTTPS links are opened in the browser.
pub fn check_external_url(url: &str) -> (r: Result<(), BridgeError>)
    ensures
        crate::error::result_matches(r, url_problem(url@)),
{
    let parsed = match parse_url(url) {
        Some(p) => p,
        None => {
            return Err(BridgeError::Validation(String::from_str("invalid external URL")));
        },
    };
    if !eq_str(parsed.scheme.as_str(), "https") {
        return Err(
            BridgeError::Validation(String::from_str("only HTTPS external URLs are allowed")),
        );
    }
    Ok(())
}

/// How an external link is opened.
#[derive(Debug, Clone, Copy, PartialEq, Eq, Structural)]
pub enum ExternalLink {
    /// A `mailto:` link, handed to the mail client.
    Mail,
    /// An HTTPS link, opened in the browser.
    Web,
}

/// A `mailto:` address must be one address: not empty, no line breaks or
/// spaces.
pub open spec fn mail_address_ok(address: Seq<char>) -> bool {
    address.len() > 0 && !address.contains('\n') && !address.contains('\r') && !address.contains(
        ' ',
    )
}

/// An e-mail link with a usable address, or an HTTPS link.
pub fn check_external_link(url: &str) -> (r: Result<ExternalLink, BridgeError>)
    ensures
        starts_with(url@, "mailto:"@) ==> {
            let address = url@.subrange(7, url@.len() as int);
            &&& mail_address_ok(address) ==> r == Ok::<ExternalLink, BridgeError>(ExternalLink::Mail)
            &&& !mail_address_ok(address) ==> (r matches Err(e) && e@ == (
                ErrorKind::Validation,
                "invalid e-mail address"@,
            ))
        },
        !starts_with(url@, "mailto:"@) ==> match url_problem(url@) {
            None => r == Ok::<ExternalLink, BridgeError>(ExternalLink::Web),
            Some(p) => r matches Err(e) && e@ == p,
        },
{
    proof {
        reveal_strlit("mailto:");
    }
    match strip_prefix(url, "mailto:") {
        Some(address) => {
            let v = chars_of(address.as_str());
            if v.len() == 0 || has_char(&v, '\n') || has_char(&v, '\r') || has_char(&v, ' ') {
                return Err(BridgeError::Validation(String::from_str("invalid e-mail address")));
            }
            Ok(ExternalLink::Mail)
        },
        None => match check_external_url(url) {
            Ok(()) => Ok(ExternalLink::Web),
            Err(e) => Err(e),
        },
    }
}

/// OBS is opened only where it is installed.
pub fn check_obs_installed(installed: bool) -> (r: Result<(), BridgeError>)
    ensures
        installed <==> r is Ok,
        r matches Err(e) ==> e@ == (
            ErrorKind::Obs,
            "OBS is not installed in /Applications/OBS.app"@,
        ),
{
    if !installed {
        return Err(BridgeError::Obs(String::from_str("OBS is not installed in /Applications/OBS.app")));
    }
    Ok(())
}

/// Homebrew's own binary, looked up by path (a GUI app's PATH lacks
/// /opt/homebrew/bin): the first of the two places where `is_file[i]`
/// says it is.
pub fn locate_homebrew(is_file: &Vec<bool>) -> (r: Option<&'static str>)
    requires
        is_file@.len() == 2,
    ensures
        is_file@[0] ==> (r matches Some(p) && p@ == "/opt/homebrew/bin/brew"@),
        !is_file@[0] && is_file@[1] ==> (r matches Some(p) && p@ == "/usr/local/bin/brew"@),
        !is_file@[0] && !is_file@[1] ==> r is None,
{
    if is_file[0] {
        Some("/opt/homebrew/bin/brew")
    } else if is_file[1] {
        Some("/usr/local/bin/brew")
    } else {
        None
    }
}


/// The only external links the About panel opens, by name.
pub open spec fn about_link_url(target: Seq<char>) -> Option<Seq<char>> {
    if target == "github"@ {
        Some("https://github.com/tanerozel/dji-live-bridge"@)
    } else if target == "linkedin"@ {
        Some("https://www.linkedin.com/in/tanerozel"@)
    } else if target == "email"@ {
        Some("mailto:tanerozel47@gmail.com"@)
    } else if target == "homebrew"@ {
        Some("https://brew.sh"@)
    } else {
        None
    }
}

pub fn about_link(target: &str) -> (r: Result<&'static str, BridgeError>)
    ensures
        match about_link_url(target@) {
            Some(url) => r matches Ok(u) && u@ == url,
            None => r matches Err(e) && e@ == (ErrorKind::Validation, "unknown About link"@),
        },
{
    if eq_str(target, "github") {
        Ok("https://github.com/tanerozel/dji-live-bridge")
    } else if eq_str(target, "linkedin") {
        Ok("https://www.linkedin.com/in/tanerozel")
    } else if eq_str(target, "email") {
        Ok("mailto:tanerozel47@gmail.com")
    } else if eq_str(target, "homebrew") {
        Ok("https://brew.sh")
    } else {
        Err(BridgeError::Validation(String::from_str("unknown About link")))
    }
}


/// Where the Windows installers put OBS and TikTok LIVE Studio, under each
/// program-files root.
pub const OBS_WINDOWS_EXECUTABLE: &'static str = "obs-studio\\bin\\64bit\\obs64.exe";
pub const TIKTOK_WINDOWS_EXECUTABLE: &'static str = "TikTok LIVE Studio\\TikTok LIVE Studio.exe";

/// `relative` under each root that is set (`ProgramFiles`,
/// `ProgramFiles(x86)` and `LOCALAPPDATA`, in that order), joined the
/// Windows way.
pub open spec fn candidates_under(roots: Seq<Option<String>>, relative: Seq<char>) -> Seq<Seq<char>>
    decreases roots.len(),
{
    if roots.len() == 0 {
        seq![]
    } else {
        let rest = candidates_under(roots.drop_last(), relative);
        match roots.last() {
            Some(root) => rest.push(join_path(root@, relative, '\\')),
            None => rest,
        }
    }
}

pub fn program_files_candidates(roots: &Vec<Option<String>>, relative: &str) -> (paths: Vec<String>)
    ensures
        paths.deep_view() == candidates_under(roots@, relative@),
{
    let mut paths: Vec<String> = Vec::new();
    let mut i: usize = 0;
    while i < roots.len()
        invariant
            i <= roots@.len(),
            paths.deep_view() == candidates_under(roots@.subrange(0, i as int), relative@),
        decreases roots@.len() - i,
    {
        assert(roots@.subrange(0, i + 1).drop_last() =~= roots@.subrange(0, i as int));
        match &roots[i] {
            Some(root) => push_owned(&mut paths, join_path_exec(root.as_str(), relative, '\\')),
            None => {},
        }
        i = i + 1;
    }
    assert(roots@.subrange(0, roots@.len() as int) =~= roots@);
    paths
}

} // verus!
