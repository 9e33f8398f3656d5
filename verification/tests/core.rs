use msc_agent::clock::{civil_from_days, iso8601_from_unix_secs, unix_timestamp};
use msc_agent::error::CliError;
use msc_agent::update::{InstallationKind, installation_kind};
use msc_agent::update::{
    CommonArgs, DEFAULT_HOST, DEFAULT_PORT, InstallRoute, UpdateCommand, approve_install,
    current_target, decode_hex_key, declined_output, guidance_output, health_failure,
    install_route, installed_output, is_healthy_response, marks_standalone, package_manager_guidance,
    payload_names, reject_remote_options, run, staging_name,
};

fn local() -> CommonArgs {
    CommonArgs {
        base_url: None,
        token: None,
        host: DEFAULT_HOST.to_string(),
        port: DEFAULT_PORT,
        json: false,
    }
}

#[test]
fn civil_dates_of_known_days() {
    assert_eq!(civil_from_days(0), (1970, 1, 1));
    assert_eq!(civil_from_days(31), (1970, 2, 1));
    assert_eq!(civil_from_days(59), (1970, 3, 1));
    assert_eq!(civil_from_days(11_016), (2000, 2, 29));
    assert_eq!(civil_from_days(19_723), (2024, 1, 1));
    assert_eq!(civil_from_days(-1), (1969, 12, 31));
    assert_eq!(civil_from_days(-719_468), (0, 3, 1));
    assert_eq!(civil_from_days(-719_469), (0, 2, 29));
}

#[test]
fn civil_dates_round_trip_over_four_centuries() {
    let mut previous = civil_from_days(-1);
    for days in 0..146_097i64 {
        let (y, m, d) = civil_from_days(days);
        assert!((1..=12).contains(&m) && d >= 1);
        let next_day = (previous.0, previous.1, previous.2 + 1) == (y, m, d);
        let next_month = previous.1 < 12 && (y, m, d) == (previous.0, previous.1 + 1, 1);
        let next_year = previous.1 == 12 && (y, m, d) == (previous.0 + 1, 1, 1);
        assert!(next_day || next_month || next_year, "{days}");
        previous = (y, m, d);
    }
}

#[test]
fn timestamps() {
    assert_eq!(iso8601_from_unix_secs(0), "1970-01-01T00:00:00Z");
    assert_eq!(iso8601_from_unix_secs(951_782_400), "2000-02-29T00:00:00Z");
    assert_eq!(iso8601_from_unix_secs(1_700_000_000), "2023-11-14T22:13:20Z");
    assert_eq!(unix_timestamp(1_700_000_000), "1700000000");
}

#[test]
fn update_commands_are_local_only() {
    assert!(reject_remote_options(&local()).is_ok());
    let remote = CommonArgs { port: 1, ..local() };
    assert_eq!(
        reject_remote_options(&remote),
        Err(CliError::Usage {
            message: "update commands are local-only; remove remote host, URL, port, and token options".into()
        })
    );
    assert!(reject_remote_options(&CommonArgs { token: Some("t".into()), ..local() }).is_err());
    assert!(reject_remote_options(&CommonArgs { host: "example.com".into(), ..local() }).is_err());
    assert_eq!(run(&local(), UpdateCommand::Check), Ok(UpdateCommand::Check));
    assert!(run(&CommonArgs { base_url: Some("http://x".into()), ..local() }, UpdateCommand::Check).is_err());
}

#[test]
fn signing_keys_are_64_hex_digits() {
    let hex = "00ff10aB".repeat(8);
    let key = decode_hex_key(&hex).unwrap();
    assert_eq!(&key[..4], &[0x00, 0xff, 0x10, 0xab]);
    assert_eq!(key[31], 0xab);
    let invalid = CliError::Internal {
        message: "This headless package has an invalid release-signing key.".into(),
    };
    assert_eq!(decode_hex_key("abc"), Err(invalid.clone()));
    assert_eq!(decode_hex_key(&"zz".repeat(32)), Err(invalid));
}

#[test]
fn release_targets() {
    assert_eq!(current_target("macos", "aarch64"), "aarch64-apple-darwin");
    assert_eq!(current_target("macos", "riscv64"), "unsupported");
    assert_eq!(current_target("linux", "aarch64"), "x86_64-unknown-linux-gnu");
    assert_eq!(current_target("freebsd", "x86_64"), "unsupported");
}

#[test]
fn install_routes_and_reports() {
    assert_eq!(install_route("standalone-archive"), Ok(InstallRoute::ReplacePayload));
    assert_eq!(install_route("authorized-package-install"), Ok(InstallRoute::PackageManagerGuidance));
    assert!(install_route("other").is_err());
    assert_eq!(
        package_manager_guidance("package-deb", "/tmp/msc.deb"),
        "This installation is owned by the distribution package manager. MSC did not replace it. Run: sudo apt install /tmp/msc.deb"
    );
    assert!(package_manager_guidance("zip", "/x").ends_with("Use this distribution's package manager for the staged package."));
    let out = installed_output("0.1.3".into(), "standalone-archive".into(), String::new(), true);
    assert_eq!(out.state, "installed-and-restarted");
    assert_eq!(
        out.detail,
        "Verified 0.1.3 was installed, the local agent service was restarted, and /v1/healthz recovered."
    );
    assert_eq!(installed_output("0.1.3".into(), "m".into(), "n".into(), false).state, "installed");
    assert_eq!(declined_output("r".into(), "m".into(), "n".into()).detail, "Update was not installed.");
    assert_eq!(guidance_output("r".into(), "m".into(), "".into(), "package-rpm", "/p").state, "package-manager-guidance");
    assert_eq!(
        health_failure("timeout", Some("busy")),
        CliError::Internal {
            message: "The updated agent failed its health check (timeout); restoring the previous payload also failed: busy".into()
        }
    );
}

#[test]
fn install_approval() {
    assert_eq!(approve_install("1", true, false, ""), Ok(true));
    assert!(matches!(approve_install("1.2", false, false, ""), Err(CliError::Usage { message }) if message.ends_with("this approves release 1.2")));
    assert_eq!(approve_install("1", false, true, " YES\n"), Ok(true));
    assert_eq!(approve_install("1", false, true, "y"), Ok(false));
}

#[test]
fn local_installation_helpers() {
    assert!(is_healthy_response("HTTP/1.1 204 No Content\r\n"));
    assert!(!is_healthy_response("HTTP/1.1 503 Unavailable"));
    assert!(marks_standalone(" standalone-archive\n"));
    assert!(!marks_standalone("package"));
    assert_eq!(payload_names("msc", true), vec!["msc".to_string(), "sidecar".to_string()]);
    assert_eq!(staging_name("msc", "update", 42), ".msc.msc2-update-42");
}

#[test]
fn installation_kind_prefers_the_marker_then_deb_then_rpm() {
    assert_eq!(installation_kind(false, None, true, true), InstallationKind::Standalone);
    assert_eq!(installation_kind(true, Some(" standalone-archive\n"), true, true), InstallationKind::Standalone);
    assert_eq!(installation_kind(true, Some("other"), true, true), InstallationKind::LinuxPackageDeb);
    assert_eq!(installation_kind(true, None, false, true), InstallationKind::LinuxPackageRpm);
    assert_eq!(installation_kind(true, None, false, false), InstallationKind::Standalone);
}
