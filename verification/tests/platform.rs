use dji_live_bridge::error::ErrorKind;
use dji_live_bridge::platform::{
    about_link, check_external_link, check_external_url, check_obs_installed, locate_homebrew,
    program_files_candidates, ExternalLink, OBS_WINDOWS_EXECUTABLE,
};

#[test]
fn only_https_links_are_opened_in_the_browser() {
    assert!(check_external_url("https://brew.sh").is_ok());
    let error = check_external_url("http://brew.sh").unwrap_err();
    assert_eq!(error.kind(), ErrorKind::Validation);
    assert_eq!(error.detail(), "only HTTPS external URLs are allowed");
    let error = check_external_url("not a url").unwrap_err();
    assert_eq!(error.detail(), "invalid external URL");
}

#[test]
fn mail_links_need_one_plain_address() {
    assert_eq!(check_external_link("mailto:someone@example.test").unwrap(), ExternalLink::Mail);
    assert_eq!(check_external_link("https://example.test/a").unwrap(), ExternalLink::Web);
    for bad in ["mailto:", "mailto:a b@example.test", "mailto:a@example.test\nBcc: x"] {
        let error = check_external_link(bad).unwrap_err();
        assert_eq!(error.detail(), "invalid e-mail address", "{bad:?}");
    }
    assert!(check_external_link("file:///etc/passwd").is_err());
}

#[test]
fn about_links_come_from_a_fixed_list() {
    assert_eq!(about_link("github").unwrap(), "https://github.com/tanerozel/dji-live-bridge");
    assert_eq!(about_link("homebrew").unwrap(), "https://brew.sh");
    assert_eq!(about_link("email").unwrap(), "mailto:tanerozel47@gmail.com");
    let error = about_link("https://evil.example").unwrap_err();
    assert_eq!(error.kind(), ErrorKind::Validation);
    assert_eq!(error.detail(), "unknown About link");
    for target in ["github", "linkedin", "email", "homebrew"] {
        assert!(check_external_link(about_link(target).unwrap()).is_ok());
    }
}

#[test]
fn obs_must_be_installed_to_be_opened() {
    assert!(check_obs_installed(true).is_ok());
    let error = check_obs_installed(false).unwrap_err();
    assert_eq!(error.kind(), ErrorKind::Obs);
    assert_eq!(error.detail(), "OBS is not installed in /Applications/OBS.app");
}

#[test]
fn homebrew_is_looked_up_in_its_two_prefixes() {
    assert_eq!(locate_homebrew(&vec![true, true]), Some("/opt/homebrew/bin/brew"));
    assert_eq!(locate_homebrew(&vec![false, true]), Some("/usr/local/bin/brew"));
    assert_eq!(locate_homebrew(&vec![false, false]), None);
}

#[test]
fn program_files_candidates_skip_unset_roots() {
    let roots = vec![Some("C:\\Program Files".to_string()), None, Some("C:\\Users\\a\\AppData\\Local\\".to_string())];
    assert_eq!(
        program_files_candidates(&roots, OBS_WINDOWS_EXECUTABLE),
        vec![
            "C:\\Program Files\\obs-studio\\bin\\64bit\\obs64.exe".to_string(),
            "C:\\Users\\a\\AppData\\Local\\obs-studio\\bin\\64bit\\obs64.exe".to_string(),
        ]
    );
    assert!(program_files_candidates(&vec![None, None], OBS_WINDOWS_EXECUTABLE).is_empty());
}
