//! Local application-update commands: the decisions of `msc update`.
//!
//! Updating a headless host is a local installation: the commands refuse
//! every remote option, verify the staged release's signing key, and decide
//! from the staged release's install mode and the agent service's state
//! what is installed and what is reported.

use vstd::prelude::*;
use crate::error::CliError;
use crate::text::{chars_of, concat_str, string_of, starts_with, starts_with_exec, to_ascii_lowercase, to_ascii_lowercase_exec, trim, trim_vec, is_literal};

verus! {

/// The host that the console talks to when none is given.
pub const DEFAULT_HOST: &'static str = "127.0.0.1";

/// The agent's port when none is given.
pub const DEFAULT_PORT: u16 = 48001;

/// The options shared by every console command, as far as the update
/// commands read them.
#[derive(Debug, Clone, PartialEq, Eq)]
pub struct CommonArgs {
    pub base_url: Option<String>,
    pub token: Option<String>,
    pub host: String,
    pub port: u16,
    pub json: bool,
}

/// The `msc update` subcommands.
#[derive(Debug, Clone, PartialEq, Eq)]
pub enum UpdateCommand {
    /// Fetch, verify, and stage the latest signed release without installing it.
    Check,
    /// Install one exact release that was previously staged by `update check`.
    Install { release_id: String, yes: bool },
    /// Continuation run after the confirming command exits, so that the
    /// executable that launched the update can be replaced.
    Apply { release_id: String, parent_pid: u32, data_dir: Option<String> },
}

/// The message with which a remote option is refused.
pub open spec fn remote_options_message() -> Seq<char> {
    "update commands are local-only; remove remote host, URL, port, and token options"@
}

/// `common` names a remote agent: a base URL, a token, or a host or port
/// other than the local defaults.
pub open spec fn names_remote(common: CommonArgs) -> bool {
    common.base_url is Some || common.token is Some || common.host@ != DEFAULT_HOST@
        || common.port != DEFAULT_PORT
}

/// Refuses every option that names a remote agent.
pub fn reject_remote_options(common: &CommonArgs) -> (res: Result<(), CliError>)
    ensures
        names_remote(*common) ==> (res matches Err(CliError::Usage { message })
            && message@ == remote_options_message()),
        !names_remote(*common) ==> res is Ok,
{
    let host = chars_of(common.host.as_str());
    if common.base_url.is_some() || common.token.is_some() || !is_literal(
        host.as_slice(),
        DEFAULT_HOST,
    ) || common.port != DEFAULT_PORT {
        return Err(
            CliError::usage(
                concat_str(
                    String::new(),
                    "update commands are local-only; remove remote host, URL, port, and token options",
                ),
            ),
        );
    }
    Ok(())
}

/// Runs an update subcommand: every subcommand first refuses remote
/// options; the command that passes is the step to carry out locally.
pub fn run(common: &CommonArgs, command: UpdateCommand) -> (res: Result<UpdateCommand, CliError>)
    ensures
        names_remote(*common) ==> (res matches Err(CliError::Usage { message })
            && message@ == remote_options_message()),
        !names_remote(*common) ==> res == Ok::<UpdateCommand, CliError>(command),
{
    match reject_remote_options(common) {
        Ok(()) => Ok(command),
        Err(e) => Err(e),
    }
}

/// The value of an ASCII hexadecimal digit, where `c` is one.
pub open spec fn hex_value(c: char) -> Option<int> {
    if '0' <= c <= '9' {
        Some(c as int - '0' as int)
    } else if 'a' <= c <= 'f' {
        Some(c as int - 'a' as int + 10)
    } else if 'A' <= c <= 'F' {
        Some(c as int - 'A' as int + 10)
    } else {
        None
    }
}

/// `s` holds only ASCII hexadecimal digits.
pub open spec fn all_hex(s: Seq<char>) -> bool {
    forall|i: int| 0 <= i < s.len() ==> (#[trigger] hex_value(s[i])) is Some
}

/// The byte that the two hexadecimal digits at `2 * i` and `2 * i + 1` denote.
pub open spec fn hex_byte(s: Seq<char>, i: int) -> int {
    hex_value(s[2 * i]).unwrap() * 16 + hex_value(s[2 * i + 1]).unwrap()
}

/// The message with which a malformed signing key is refused.
pub open spec fn invalid_key_message() -> Seq<char> {
    "This headless package has an invalid release-signing key."@
}

fn hex_digit(c: char) -> (res: Option<u8>)
    ensures
        match hex_value(c) {
            Some(v) => res == Some(v as u8),
            None => res is None,
        },
{
    if '0' <= c && c <= '9' {
        Some((c as u32 - '0' as u32) as u8)
    } else if 'a' <= c && c <= 'f' {
        Some((c as u32 - 'a' as u32 + 10) as u8)
    } else if 'A' <= c && c <= 'F' {
        Some((c as u32 - 'A' as u32 + 10) as u8)
    } else {
        None
    }
}

/// Decodes a release-signing key written as 64 hexadecimal digits into its
/// 32 bytes, the first two digits giving the first byte.
pub fn decode_hex_key(value: &str) -> (res: Result<[u8; 32], CliError>)
    ensures
        value@.len() == 64 && all_hex(value@) ==> (res matches Ok(key) && forall|i: int|
            0 <= i < 32 ==> key@[i] as int == #[trigger] hex_byte(value@, i)),
        !(value@.len() == 64 && all_hex(value@)) ==> (res matches Err(CliError::Internal { message })
            && message@ == invalid_key_message()),
{
    let chars = chars_of(value);
    let mut valid = chars.len() == 64;
    let mut i: usize = 0;
    while valid && i < chars.len()
        invariant
            chars@ == value@,
            i <= chars.len(),
            valid ==> chars.len() == 64,
            valid ==> forall|k: int| 0 <= k < i ==> (#[trigger] hex_value(chars@[k])) is Some,
            !valid ==> !(value@.len() == 64 && all_hex(value@)),
        decreases chars.len() - i,
    {
        if hex_digit(chars[i]).is_none() {
            valid = false;
        }
        i += 1;
    }
    if !valid {
        return Err(
            CliError::internal(
                concat_str(String::new(), "This headless package has an invalid release-signing key."),
            ),
        );
    }
    assert(all_hex(value@));
    let mut key = [0u8; 32];
    let mut j: usize = 0;
    while j < 32
        invariant
            chars@ == value@,
            chars.len() == 64,
            all_hex(value@),
            j <= 32,
            forall|k: int| 0 <= k < j ==> key@[k] as int == #[trigger] hex_byte(value@, k),
        decreases 32 - j,
    {
        assert(hex_value(chars@[2 * j as int]) is Some);
        assert(hex_value(chars@[2 * j as int + 1]) is Some);
        let high = match hex_digit(chars[2 * j]) {
            Some(v) => v,
            None => 0,
        };
        let low = match hex_digit(chars[2 * j + 1]) {
            Some(v) => v,
            None => 0,
        };
        key.set(j, high * 16 + low);
        j += 1;
    }
    Ok(key)
}

/// The release target of a host with operating system `os` and
/// architecture `arch` (the names of `std::env::consts`).
pub open spec fn target_for(os: Seq<char>, arch: Seq<char>) -> Seq<char> {
    if os == "macos"@ {
        if arch == "x86_64"@ {
            "x86_64-apple-darwin"@
        } else if arch == "aarch64"@ {
            "aarch64-apple-darwin"@
        } else {
            "unsupported"@
        }
    } else if os == "windows"@ {
        "x86_64-pc-windows-msvc"@
    } else if os == "linux"@ {
        "x86_64-unknown-linux-gnu"@
    } else {
        "unsupported"@
    }
}

/// The release targets: an Intel or Apple-silicon Mac gets its Darwin
/// build, any Windows host the MSVC build, any Linux host the GNU build,
/// and every other host, or a Mac of another architecture, is unsupported.
pub proof fn law_release_targets(os: Seq<char>, arch: Seq<char>)
    ensures
        target_for("macos"@, "x86_64"@) == "x86_64-apple-darwin"@,
        target_for("macos"@, "aarch64"@) == "aarch64-apple-darwin"@,
        target_for("windows"@, arch) == "x86_64-pc-windows-msvc"@,
        target_for("linux"@, arch) == "x86_64-unknown-linux-gnu"@,
        os == "macos"@ && arch != "x86_64"@ && arch != "aarch64"@ ==> target_for(os, arch)
            == "unsupported"@,
        os != "macos"@ && os != "windows"@ && os != "linux"@ ==> target_for(os, arch)
            == "unsupported"@,
{
    reveal_strlit("macos");
    reveal_strlit("windows");
    reveal_strlit("linux");
    reveal_strlit("x86_64");
    reveal_strlit("aarch64");
    assert("windows"@.len() != "macos"@.len() && "windows"@.len() != "linux"@.len());
    assert("linux"@[0] != "macos"@[0]);
    assert("aarch64"@.len() != "x86_64"@.len());
}

/// The release target of a host with operating system `os` and
/// architecture `arch`.
pub fn current_target(os: &str, arch: &str) -> (res: String)
    ensures
        res@ == target_for(os@, arch@),
{
    let o = chars_of(os);
    let a = chars_of(arch);
    let text = if is_literal(o.as_slice(), "macos") {
        if is_literal(a.as_slice(), "x86_64") {
            "x86_64-apple-darwin"
        } else if is_literal(a.as_slice(), "aarch64") {
            "aarch64-apple-darwin"
        } else {
            "unsupported"
        }
    } else if is_literal(o.as_slice(), "windows") {
        "x86_64-pc-windows-msvc"
    } else if is_literal(o.as_slice(), "linux") {
        "x86_64-unknown-linux-gnu"
    } else {
        "unsupported"
    };
    text.to_owned()
}

/// The advice given where the distribution's package manager owns the
/// installation.
pub open spec fn guidance_text(asset_role: Seq<char>, artifact_path: Seq<char>) -> Seq<char> {
    "This installation is owned by the distribution package manager. MSC did not replace it. Run: "@
        + if asset_role == "package-deb"@ {
        "sudo apt install "@ + artifact_path
    } else if asset_role == "package-rpm"@ {
        "sudo dnf install "@ + artifact_path
    } else {
        "Use this distribution's package manager for the staged package."@
    }
}

/// The advice given where the distribution's package manager owns the
/// installation: the command that installs the staged package.
pub fn package_manager_guidance(asset_role: &str, artifact_path: &str) -> (res: String)
    ensures
        res@ == guidance_text(asset_role@, artifact_path@),
{
    let role = chars_of(asset_role);
    let mut text = concat_str(
        String::new(),
        "This installation is owned by the distribution package manager. MSC did not replace it. Run: ",
    );
    if is_literal(role.as_slice(), "package-deb") {
        text = concat_str(text, "sudo apt install ");
        text = concat_str(text, artifact_path);
    } else if is_literal(role.as_slice(), "package-rpm") {
        text = concat_str(text, "sudo dnf install ");
        text = concat_str(text, artifact_path);
    } else {
        text = concat_str(text, "Use this distribution's package manager for the staged package.");
    }
    assert(text@ =~= guidance_text(asset_role@, artifact_path@));
    text
}

/// How a verified staged release is installed.
#[derive(Debug, Clone, Copy, PartialEq, Eq)]
pub enum InstallRoute {
    /// The package manager owns the installation: only advice is given.
    PackageManagerGuidance,
    /// The standalone archive replaces the installed payload.
    ReplacePayload,
}

/// How a staged release with the install mode `install_mode` is installed;
/// any mode but a package install or a standalone archive is refused.
pub fn install_route(install_mode: &str) -> (res: Result<InstallRoute, CliError>)
    ensures
        install_mode@ == "authorized-package-install"@ ==> res == Ok::<InstallRoute, CliError>(
            InstallRoute::PackageManagerGuidance,
        ),
        install_mode@ == "standalone-archive"@ ==> res == Ok::<InstallRoute, CliError>(
            InstallRoute::ReplacePayload,
        ),
        install_mode@ != "authorized-package-install"@ && install_mode@ != "standalone-archive"@ ==> (
        res matches Err(CliError::Internal { message })
            && message@ == "The staged release is not a headless standalone archive."@),
{
    let mode = chars_of(install_mode);
    proof {
        reveal_strlit("authorized-package-install");
        reveal_strlit("standalone-archive");
        assert("authorized-package-install"@.len() != "standalone-archive"@.len());
    }
    if is_literal(mode.as_slice(), "authorized-package-install") {
        Ok(InstallRoute::PackageManagerGuidance)
    } else if is_literal(mode.as_slice(), "standalone-archive") {
        Ok(InstallRoute::ReplacePayload)
    } else {
        Err(
            CliError::internal(
                concat_str(String::new(), "The staged release is not a headless standalone archive."),
            ),
        )
    }
}

/// What `msc update install` and `apply` report.
#[derive(Debug, Clone, PartialEq, Eq)]
pub struct InstallOutput {
    pub state: String,
    pub release_id: String,
    pub install_mode: String,
    pub release_notes: String,
    pub detail: String,
}

/// The report of a release whose payload was replaced: a service that was
/// running was restarted and answered its health check; one that was
/// stopped was left stopped.
pub fn installed_output(
    release_id: String,
    install_mode: String,
    release_notes: String,
    service_was_running: bool,
) -> (res: InstallOutput)
    ensures
        res.state@ == if service_was_running {
            "installed-and-restarted"@
        } else {
            "installed"@
        },
        res.release_id == release_id,
        res.install_mode == install_mode,
        res.release_notes == release_notes,
        res.detail@ == if service_was_running {
            "Verified "@ + release_id@
                + " was installed, the local agent service was restarted, and /v1/healthz recovered."@
        } else {
            "Verified "@ + release_id@
                + " was installed. The local agent service was not running, so it was left stopped."@
        },
{
    let mut detail = concat_str(String::new(), "Verified ");
    detail = concat_str(detail, release_id.as_str());
    let state = if service_was_running {
        detail = concat_str(
            detail,
            " was installed, the local agent service was restarted, and /v1/healthz recovered.",
        );
        concat_str(String::new(), "installed-and-restarted")
    } else {
        detail = concat_str(
            detail,
            " was installed. The local agent service was not running, so it was left stopped.",
        );
        concat_str(String::new(), "installed")
    };
    InstallOutput { state, release_id, install_mode, release_notes, detail }
}

/// The report of a release that the package manager owns.
pub fn guidance_output(
    release_id: String,
    install_mode: String,
    release_notes: String,
    asset_role: &str,
    artifact_path: &str,
) -> (res: InstallOutput)
    ensures
        res.state@ == "package-manager-guidance"@,
        res.release_id == release_id,
        res.install_mode == install_mode,
        res.release_notes == release_notes,
        res.detail@ == guidance_text(asset_role@, artifact_path@),
{
    InstallOutput {
        state: concat_str(String::new(), "package-manager-guidance"),
        release_id,
        install_mode,
        release_notes,
        detail: package_manager_guidance(asset_role, artifact_path),
    }
}

/// The report of a release that the operator declined.
pub fn declined_output(release_id: String, install_mode: String, release_notes: String) -> (res:
    InstallOutput)
    ensures
        res.state@ == "declined"@,
        res.release_id == release_id,
        res.install_mode == install_mode,
        res.release_notes == release_notes,
        res.detail@ == "Update was not installed."@,
{
    InstallOutput {
        state: concat_str(String::new(), "declined"),
        release_id,
        install_mode,
        release_notes,
        detail: concat_str(String::new(), "Update was not installed."),
    }
}

/// The error reported when the restarted agent failed its health check,
/// with the outcome of restoring the previous payload.
pub fn health_failure(error: &str, rollback_error: Option<&str>) -> (res: CliError)
    ensures
        res matches CliError::Internal { message } && message@ == match rollback_error {
            None => "The updated agent failed its health check and the previous payload was restored: "@
                + error@,
            Some(r) => "The updated agent failed its health check ("@ + error@
                + "); restoring the previous payload also failed: "@ + r@,
        },
{
    let text = match rollback_error {
        None => {
            let t = concat_str(
                String::new(),
                "The updated agent failed its health check and the previous payload was restored: ",
            );
            concat_str(t, error)
        },
        Some(r) => {
            let mut t = concat_str(String::new(), "The updated agent failed its health check (");
            t = concat_str(t, error);
            t = concat_str(t, "); restoring the previous payload also failed: ");
            concat_str(t, r)
        },
    };
    CliError::internal(text)
}

/// The operator's typed answer approves an install: trimmed, it is `yes`
/// in any ASCII case.
pub open spec fn approves(answer: Seq<char>) -> bool {
    to_ascii_lowercase(trim(answer)) == "yes"@
}

/// Whether an install goes ahead: `--yes` approves it; without it a
/// terminal is needed, and the typed `answer` decides.
pub fn approve_install(release_id: &str, yes: bool, interactive: bool, answer: &str) -> (res: Result<
    bool,
    CliError,
>)
    ensures
        yes ==> res == Ok::<bool, CliError>(true),
        !yes && !interactive ==> (res matches Err(CliError::Usage { message }) && message@
            == "update install requires --yes when no interactive terminal is available; this approves release "@
            + release_id@),
        !yes && interactive ==> res == Ok::<bool, CliError>(approves(answer@)),
{
    if yes {
        return Ok(true);
    }
    if !interactive {
        let text = concat_str(
            String::new(),
            "update install requires --yes when no interactive terminal is available; this approves release ",
        );
        return Err(CliError::usage(concat_str(text, release_id)));
    }
    let typed = to_ascii_lowercase_exec(trim_vec(chars_of(answer).as_slice()).as_slice());
    Ok(is_literal(typed.as_slice(), "yes"))
}

/// An HTTP answer of the agent's health route that counts as healthy: it
/// starts with `HTTP/1.1 204` or `HTTP/1.1 200`.
pub fn is_healthy_response(response: &str) -> (res: bool)
    ensures
        res == (starts_with(response@, "HTTP/1.1 204"@) || starts_with(response@, "HTTP/1.1 200"@)),
{
    let r = chars_of(response);
    let no_content = chars_of("HTTP/1.1 204");
    let ok = chars_of("HTTP/1.1 200");
    starts_with_exec(r.as_slice(), no_content.as_slice()) || starts_with_exec(
        r.as_slice(),
        ok.as_slice(),
    )
}

/// An installation marker that names a standalone archive: trimmed, it is
/// `standalone-archive`.
pub fn marks_standalone(marker: &str) -> (res: bool)
    ensures
        res == (trim(marker@) == "standalone-archive"@),
{
    let t = trim_vec(chars_of(marker).as_slice());
    is_literal(t.as_slice(), "standalone-archive")
}

/// The files that a standalone archive replaces: the executable, and the
/// sidecar directory where the archive has one.
pub fn payload_names(binary_name: &str, has_sidecar: bool) -> (res: Vec<String>)
    ensures
        res@.len() == if has_sidecar {
            2int
        } else {
            1int
        },
        res@[0]@ == binary_name@,
        has_sidecar ==> res@[1]@ == "sidecar"@,
{
    let mut names: Vec<String> = Vec::new();
    names.push(binary_name.to_owned());
    if has_sidecar {
        names.push(concat_str(String::new(), "sidecar"));
    }
    names
}

/// The hidden name under which `name` is staged next to the installation
/// while process `pid` replaces (`update`) or restores (`rollback`) it:
/// `.<name>.msc2-<purpose>-<pid>`.
pub fn staging_name(name: &str, purpose: &str, pid: u32) -> (res: String)
    ensures
        res@ == seq!['.'] + name@ + ".msc2-"@ + purpose@ + seq!['-'] + crate::text::decimal(
            pid as nat,
        ),
{
    let mut text = String::new();
    crate::text::push_char(&mut text, '.');
    text = concat_str(text, name);
    text = concat_str(text, ".msc2-");
    text = concat_str(text, purpose);
    crate::text::push_char(&mut text, '-');
    let digits = string_of(crate::text::decimal_exec(pid as u64).as_slice());
    text = concat_str(text, digits.as_str());
    assert(text@ =~= seq!['.'] + name@ + ".msc2-"@ + purpose@ + seq!['-'] + crate::text::decimal(
        pid as nat,
    ));
    text
}

/// One step of putting a payload entry in place of the installed one.
#[derive(Debug, Clone, Copy, PartialEq, Eq, Structural)]
pub enum PayloadStep {
    /// Copy the installed entry to the rollback storage.
    BackUp,
    /// Remove a staged copy left by an earlier attempt.
    RemoveStaged,
    /// Copy the payload's entry next to the installation, under its
    /// staged name.
    CopyToStaged,
    /// Remove the installed entry.
    RemoveInstalled,
    /// Rename the staged copy to the entry's name.
    RenameIntoPlace,
}

/// The steps that put one payload entry in place, given whether it is
/// installed now and whether a staged copy is left over: the installed
/// entry is backed up first and removed just before the staged copy takes
/// its name.
pub open spec fn replacement_plan(installed: bool, staged_left: bool) -> Seq<PayloadStep> {
    (if installed {
        seq![PayloadStep::BackUp]
    } else {
        Seq::empty()
    }) + (if staged_left {
        seq![PayloadStep::RemoveStaged]
    } else {
        Seq::empty()
    }) + seq![PayloadStep::CopyToStaged] + (if installed {
        seq![PayloadStep::RemoveInstalled]
    } else {
        Seq::empty()
    }) + seq![PayloadStep::RenameIntoPlace]
}

/// The steps that replace the payload entry `name`; an entry that the
/// archive lacks is refused before anything is touched.
pub fn replacement_steps(name: &str, in_payload: bool, installed: bool, staged_left: bool) -> (res:
    Result<Vec<PayloadStep>, String>)
    ensures
        !in_payload ==> (res matches Err(m) && m@ == "The signed headless archive is missing "@
            + name@ + "."@),
        in_payload ==> (res matches Ok(steps) && steps@ == replacement_plan(installed, staged_left)),
{
    if !in_payload {
        let t = concat_str(String::new(), "The signed headless archive is missing ");
        let t = concat_str(t, name);
        return Err(concat_str(t, "."));
    }
    let mut steps: Vec<PayloadStep> = Vec::new();
    if installed {
        steps.push(PayloadStep::BackUp);
    }
    if staged_left {
        steps.push(PayloadStep::RemoveStaged);
    }
    steps.push(PayloadStep::CopyToStaged);
    if installed {
        steps.push(PayloadStep::RemoveInstalled);
    }
    steps.push(PayloadStep::RenameIntoPlace);
    assert(steps@ =~= replacement_plan(installed, staged_left));
    Ok(steps)
}

/// The error of a failed rename into place.
pub fn install_error(name: &str, error: &str) -> (res: String)
    ensures
        res@ == "Could not install "@ + name@ + ": "@ + error@,
{
    let t = concat_str(String::new(), "Could not install ");
    let t = concat_str(t, name);
    let t = concat_str(t, ": ");
    concat_str(t, error)
}

/// The error of a replacement that failed part-way, once the entries
/// replaced so far were rolled back: the failure itself, followed by the
/// rollback's own failure where it failed too.
pub fn replacement_failure(error: &str, rollback_error: Option<&str>) -> (res: String)
    ensures
        res@ == match rollback_error {
            None => error@,
            Some(r) => error@ + "; partial replacement rollback failed: "@ + r@,
        },
{
    match rollback_error {
        None => error.to_owned(),
        Some(r) => {
            let t = concat_str(error.to_owned(), "; partial replacement rollback failed: ");
            concat_str(t, r)
        },
    }
}

/// How the running executable was installed.
#[derive(Debug, Clone, Copy, PartialEq, Eq)]
pub enum InstallationKind {
    /// Unpacked from the standalone archive.
    Standalone,
    LinuxPackageDeb,
    LinuxPackageRpm,
}

/// How the running executable was installed: on Linux, a standalone
/// archive where the installation-mode marker next to the executable says
/// so, else the package manager that owns the executable (Debian's before
/// RPM's); everywhere else, and where nothing claims it, standalone.
/// `marker` is the marker file's text where it could be read.
pub fn installation_kind(linux: bool, marker: Option<&str>, deb_owns: bool, rpm_owns: bool) -> (res:
    InstallationKind)
    ensures
        res == if !linux {
            InstallationKind::Standalone
        } else if (marker matches Some(m) && trim(m@) == "standalone-archive"@) {
            InstallationKind::Standalone
        } else if deb_owns {
            InstallationKind::LinuxPackageDeb
        } else if rpm_owns {
            InstallationKind::LinuxPackageRpm
        } else {
            InstallationKind::Standalone
        },
{
    if !linux {
        return InstallationKind::Standalone;
    }
    let standalone = match marker {
        Some(m) => marks_standalone(m),
        None => false,
    };
    if standalone {
        InstallationKind::Standalone
    } else if deb_owns {
        InstallationKind::LinuxPackageDeb
    } else if rpm_owns {
        InstallationKind::LinuxPackageRpm
    } else {
        InstallationKind::Standalone
    }
}

} // verus!
