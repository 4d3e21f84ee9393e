//! The self-update procedure as a state machine.
//!
//! An update offer names a target release and, optionally, where its
//! installer and checksum live. The procedure checks the release version,
//! settles the download locations (falling back to the project's GitHub
//! releases), downloads the asset and its checksum (reading a body only
//! from a successful answer), has the asset verified against the checksum,
//! and only then installs it, either through the Windows installer (for MSI
//! packages) or by replacing the running executable. Each step of [`advance_update`] takes what the caller learned
//! from the previous action and returns the next action to perform; the
//! first failure ends the run with its message.

use vstd::prelude::*;
use vstd::utf8::{valid_utf8, decode_utf8};
use crate::text::{has_suffix, bytes_have_prefix, opt_text};

verus! {

/// Where a run of the procedure stands. `S` is the text type and `B` the
/// byte-buffer type: `String` and `Vec<u8>` at run time, `Seq<char>` and
/// `Seq<u8>` in specifications.
pub enum UpdateState<S, B> {
    /// Nothing offered yet.
    Idle,
    /// Waiting for the verdict on the offered release version.
    CheckingVersion { version: S, download_url: Option<S>, checksum_url: Option<S> },
    /// Waiting for the verdict on the default release repository.
    CheckingRepository { version: S },
    /// Waiting for the HTTP client to be built.
    PreparingClient { download_url: S, checksum_url: S },
    /// Waiting for the server's answer to the request for the asset.
    FetchingAsset { download_url: S, checksum_url: S },
    /// Waiting for the body of the asset.
    ReadingAsset { download_url: S, checksum_url: S },
    /// Waiting for the server's answer to the request for the checksum;
    /// the asset is held.
    FetchingChecksum { download_url: S, checksum_url: S, asset: B },
    /// Waiting for the body of the checksum; the asset is held.
    ReadingChecksum { download_url: S, checksum_url: S, asset: B },
    /// Waiting for the asset to be checked against the checksum.
    Verifying { download_url: S, asset: B },
    /// Waiting for the installation to complete.
    Installing,
    /// The run is over.
    Finished { outcome: Result<(), S> },
}

/// Why an installation failed, each with the detail of the error.
pub enum InstallFailure<S> {
    WriteMsi(S),
    LaunchMsiexec(S),
    MsiexecExit(S),
    LocateExecutable(S),
    WriteTemporary(S),
    ReplaceExecutable(S),
}

/// What the caller learned from the last action.
pub enum UpdateEvent<S, B> {
    Offered { target_version: Option<S>, download_url: Option<S>, checksum_url: Option<S> },
    ReleaseVersionChecked { valid: bool },
    DefaultRepositoryChecked { valid: bool },
    ClientPrepared { result: Result<(), S> },
    /// The request could not be sent (detail of the transport error).
    RequestFailed { detail: S },
    /// The server answered with this status code and status text.
    Responded { status_code: u16, status_text: S },
    /// The body was read, or could not be (detail of the error).
    BodyRead { result: Result<B, S> },
    AssetVerified { result: Result<(), S> },
    Installed { result: Result<(), InstallFailure<S>> },
}

/// What the caller is to do next.
pub enum UpdateAction<S, B> {
    /// Decide whether `version` is an acceptable release version.
    CheckReleaseVersion { version: S },
    /// Decide whether `repository` is an acceptable GitHub repository.
    CheckDefaultRepository { repository: S },
    /// Build an HTTP client with this request timeout.
    PrepareClient { timeout_secs: u64 },
    /// Send a request for `url`; `label` names it in messages.
    Fetch { url: S, label: S },
    /// Read the body of the answer to the last request.
    ReadBody { label: S },
    /// Check `asset` against the published `checksum_text`.
    VerifyAsset { asset: B, checksum_text: S },
    /// Install `asset` as an MSI package.
    InstallMsi { asset: B },
    /// Make `asset` the running executable.
    ReplaceExecutable { asset: B },
    /// The run ended with `outcome`.
    Finish { outcome: Result<(), S> },
    /// The event does not belong to the current state; nothing to do.
    Ignore,
}

pub type UpdateStateView = UpdateState<Seq<char>, Seq<u8>>;
pub type UpdateEventView = UpdateEvent<Seq<char>, Seq<u8>>;
pub type UpdateActionView = UpdateAction<Seq<char>, Seq<u8>>;

pub open spec fn unit_result_view(r: Result<(), String>) -> Result<(), Seq<char>> {
    match r {
        Ok(()) => Ok(()),
        Err(e) => Err(e@),
    }
}

impl View for UpdateState<String, Vec<u8>> {
    type V = UpdateStateView;

    open spec fn view(&self) -> UpdateStateView {
        match self {
            UpdateState::Idle => UpdateState::Idle,
            UpdateState::CheckingVersion { version, download_url, checksum_url } =>
                UpdateState::CheckingVersion {
                version: version@,
                download_url: opt_text(*download_url),
                checksum_url: opt_text(*checksum_url),
            },
            UpdateState::CheckingRepository { version } => UpdateState::CheckingRepository {
                version: version@,
            },
            UpdateState::PreparingClient { download_url, checksum_url } =>
                UpdateState::PreparingClient {
                download_url: download_url@,
                checksum_url: checksum_url@,
            },
            UpdateState::FetchingAsset { download_url, checksum_url } =>
                UpdateState::FetchingAsset {
                download_url: download_url@,
                checksum_url: checksum_url@,
            },
            UpdateState::ReadingAsset { download_url, checksum_url } =>
                UpdateState::ReadingAsset {
                download_url: download_url@,
                checksum_url: checksum_url@,
            },
            UpdateState::FetchingChecksum { download_url, checksum_url, asset } =>
                UpdateState::FetchingChecksum {
                download_url: download_url@,
                checksum_url: checksum_url@,
                asset: asset@,
            },
            UpdateState::ReadingChecksum { download_url, checksum_url, asset } =>
                UpdateState::ReadingChecksum {
                download_url: download_url@,
                checksum_url: checksum_url@,
                asset: asset@,
            },
            UpdateState::Verifying { download_url, asset } => UpdateState::Verifying {
                download_url: download_url@,
                asset: asset@,
            },
            UpdateState::Installing => UpdateState::Installing,
            UpdateState::Finished { outcome } => UpdateState::Finished {
                outcome: unit_result_view(*outcome),
            },
        }
    }
}

impl View for InstallFailure<String> {
    type V = InstallFailure<Seq<char>>;

    open spec fn view(&self) -> InstallFailure<Seq<char>> {
        match self {
            InstallFailure::WriteMsi(e) => InstallFailure::WriteMsi(e@),
            InstallFailure::LaunchMsiexec(e) => InstallFailure::LaunchMsiexec(e@),
            InstallFailure::MsiexecExit(e) => InstallFailure::MsiexecExit(e@),
            InstallFailure::LocateExecutable(e) => InstallFailure::LocateExecutable(e@),
            InstallFailure::WriteTemporary(e) => InstallFailure::WriteTemporary(e@),
            InstallFailure::ReplaceExecutable(e) => InstallFailure::ReplaceExecutable(e@),
        }
    }
}

impl View for UpdateEvent<String, Vec<u8>> {
    type V = UpdateEventView;

    open spec fn view(&self) -> UpdateEventView {
        match self {
            UpdateEvent::Offered { target_version, download_url, checksum_url } =>
                UpdateEvent::Offered {
                target_version: opt_text(*target_version),
                download_url: opt_text(*download_url),
                checksum_url: opt_text(*checksum_url),
            },
            UpdateEvent::ReleaseVersionChecked { valid } => UpdateEvent::ReleaseVersionChecked {
                valid: *valid,
            },
            UpdateEvent::DefaultRepositoryChecked { valid } =>
                UpdateEvent::DefaultRepositoryChecked { valid: *valid },
            UpdateEvent::ClientPrepared { result } => UpdateEvent::ClientPrepared {
                result: unit_result_view(*result),
            },
            UpdateEvent::RequestFailed { detail } => UpdateEvent::RequestFailed {
                detail: detail@,
            },
            UpdateEvent::Responded { status_code, status_text } => UpdateEvent::Responded {
                status_code: *status_code,
                status_text: status_text@,
            },
            UpdateEvent::BodyRead { result } => UpdateEvent::BodyRead {
                result: match result {
                    Ok(b) => Ok(b@),
                    Err(e) => Err(e@),
                },
            },
            UpdateEvent::AssetVerified { result } => UpdateEvent::AssetVerified {
                result: unit_result_view(*result),
            },
            UpdateEvent::Installed { result } => UpdateEvent::Installed {
                result: match result {
                    Ok(()) => Ok(()),
                    Err(f) => Err(f@),
                },
            },
        }
    }
}

impl View for UpdateAction<String, Vec<u8>> {
    type V = UpdateActionView;

    open spec fn view(&self) -> UpdateActionView {
        match self {
            UpdateAction::CheckReleaseVersion { version } => UpdateAction::CheckReleaseVersion {
                version: version@,
            },
            UpdateAction::CheckDefaultRepository { repository } =>
                UpdateAction::CheckDefaultRepository { repository: repository@ },
            UpdateAction::PrepareClient { timeout_secs } => UpdateAction::PrepareClient {
                timeout_secs: *timeout_secs,
            },
            UpdateAction::Fetch { url, label } => UpdateAction::Fetch {
                url: url@,
                label: label@,
            },
            UpdateAction::ReadBody { label } => UpdateAction::ReadBody { label: label@ },
            UpdateAction::VerifyAsset { asset, checksum_text } => UpdateAction::VerifyAsset {
                asset: asset@,
                checksum_text: checksum_text@,
            },
            UpdateAction::InstallMsi { asset } => UpdateAction::InstallMsi { asset: asset@ },
            UpdateAction::ReplaceExecutable { asset } => UpdateAction::ReplaceExecutable {
                asset: asset@,
            },
            UpdateAction::Finish { outcome } => UpdateAction::Finish {
                outcome: unit_result_view(*outcome),
            },
            UpdateAction::Ignore => UpdateAction::Ignore,
        }
    }
}

// ----------------------------------------------------------------------
// Constants and messages
// ----------------------------------------------------------------------

/// The repository whose releases are used when an offer names no URLs.
pub open spec fn default_github_repo() -> Seq<char> {
    "Guardian-Parental-Controls/agent-windows"@
}

/// The installer published with each release.
pub open spec fn release_asset_name() -> Seq<char> {
    "guardian-agent-x86_64-pc-windows-msvc.msi"@
}

/// Request timeout of the HTTP client, in seconds.
pub const UPDATE_HTTP_TIMEOUT_SECS: u64 = 60;

/// Where a release's installer is published on GitHub.
pub open spec fn release_asset_url(repo: Seq<char>, version: Seq<char>) -> Seq<char> {
    "https://github.com/"@ + repo + "/releases/download/"@ + version + "/"@
        + release_asset_name()
}

/// Where the checksum of a release's installer is published on GitHub.
pub open spec fn release_checksum_url(repo: Seq<char>, version: Seq<char>) -> Seq<char> {
    release_asset_url(repo, version) + ".sha256"@
}

/// The first bytes of every compound-file (MSI) package.
pub open spec fn msi_signature() -> Seq<u8> {
    seq![0xD0u8, 0xCFu8, 0x11u8, 0xE0u8]
}

/// An update is installed as an MSI package when its URL ends in `.msi`
/// or its bytes carry the compound-file signature.
pub open spec fn is_msi_update(download_url: Seq<char>, asset: Seq<u8>) -> bool {
    ".msi"@.is_suffix_of(download_url) || msi_signature().is_prefix_of(asset)
}

pub open spec fn asset_label() -> Seq<char> {
    "release asset"@
}

pub open spec fn checksum_label() -> Seq<char> {
    "release checksum"@
}

/// What `std::string::FromUtf8Error` displays for these bytes.
pub uninterp spec fn utf8_error_text(bytes: Seq<u8>) -> Seq<char>;

pub open spec fn missing_version_message() -> Seq<char> {
    "Missing target version"@
}

pub open spec fn invalid_version_message(version: Seq<char>) -> Seq<char> {
    "Refusing auto-update: invalid release version '"@ + version + "'"@
}

pub open spec fn invalid_repo_message() -> Seq<char> {
    "Refusing auto-update: invalid default GitHub repository"@
}

pub open spec fn client_failure_message(detail: Seq<char>) -> Seq<char> {
    "Failed to build HTTP client: "@ + detail
}

pub open spec fn checksum_encoding_message(checksum: Seq<u8>) -> Seq<char> {
    "Release checksum is not valid UTF-8: "@ + utf8_error_text(checksum)
}

/// Whether an HTTP status code reports success (`StatusCode::is_success`).
pub open spec fn is_success_status(code: u16) -> bool {
    200 <= code < 300
}

pub open spec fn request_failure_message(label: Seq<char>, detail: Seq<char>) -> Seq<char> {
    "HTTP request failed for "@ + label + ": "@ + detail
}

pub open spec fn status_failure_message(label: Seq<char>, status: Seq<char>, url: Seq<char>) -> Seq<
    char,
> {
    "Server returned error code "@ + status + " for "@ + label + ": "@ + url
}

pub open spec fn stream_failure_message(label: Seq<char>, detail: Seq<char>) -> Seq<char> {
    "Failed to read "@ + label + " download stream: "@ + detail
}

/// The message for a failed installation.
pub open spec fn install_failure_message(failure: InstallFailure<Seq<char>>) -> Seq<char> {
    match failure {
        InstallFailure::WriteMsi(e) => "Failed to write MSI update: "@ + e,
        InstallFailure::LaunchMsiexec(e) => "Failed to launch msiexec: "@ + e,
        InstallFailure::MsiexecExit(status) => "msiexec exited with "@ + status,
        InstallFailure::LocateExecutable(e) => "Failed to determine current executable path: "@
            + e,
        InstallFailure::WriteTemporary(e) => "Failed to write temporary binary file: "@ + e,
        InstallFailure::ReplaceExecutable(e) => "Failed to rename/replace active executable: "@
            + e,
    }
}

// ----------------------------------------------------------------------
// The transition relation
// ----------------------------------------------------------------------

/// End the run with an error.
pub open spec fn fail_with(message: Seq<char>) -> (UpdateStateView, UpdateActionView) {
    (
        UpdateState::Finished { outcome: Err(message) },
        UpdateAction::Finish { outcome: Err(message) },
    )
}

/// One step of the procedure: the next state and the action to perform.
pub open spec fn update_transition(s: UpdateStateView, e: UpdateEventView) -> (
    UpdateStateView,
    UpdateActionView,
) {
    match s {
        UpdateState::Idle => match e {
            UpdateEvent::Offered { target_version, download_url, checksum_url } =>
                match target_version {
                None => fail_with(missing_version_message()),
                Some(version) => (
                    UpdateState::CheckingVersion { version, download_url, checksum_url },
                    UpdateAction::CheckReleaseVersion { version },
                ),
            },
            _ => (s, UpdateAction::Ignore),
        },
        UpdateState::CheckingVersion { version, download_url, checksum_url } => match e {
            UpdateEvent::ReleaseVersionChecked { valid } => if !valid {
                fail_with(invalid_version_message(version))
            } else if download_url is Some && checksum_url is Some {
                (
                    UpdateState::PreparingClient {
                        download_url: download_url->0,
                        checksum_url: checksum_url->0,
                    },
                    UpdateAction::PrepareClient { timeout_secs: UPDATE_HTTP_TIMEOUT_SECS },
                )
            } else {
                (
                    UpdateState::CheckingRepository { version },
                    UpdateAction::CheckDefaultRepository { repository: default_github_repo() },
                )
            },
            _ => (s, UpdateAction::Ignore),
        },
        UpdateState::CheckingRepository { version } => match e {
            UpdateEvent::DefaultRepositoryChecked { valid } => if !valid {
                fail_with(invalid_repo_message())
            } else {
                (
                    UpdateState::PreparingClient {
                        download_url: release_asset_url(default_github_repo(), version),
                        checksum_url: release_checksum_url(default_github_repo(), version),
                    },
                    UpdateAction::PrepareClient { timeout_secs: UPDATE_HTTP_TIMEOUT_SECS },
                )
            },
            _ => (s, UpdateAction::Ignore),
        },
        UpdateState::PreparingClient { download_url, checksum_url } => match e {
            UpdateEvent::ClientPrepared { result } => match result {
                Err(detail) => fail_with(client_failure_message(detail)),
                Ok(()) => (
                    UpdateState::FetchingAsset { download_url, checksum_url },
                    UpdateAction::Fetch { url: download_url, label: asset_label() },
                ),
            },
            _ => (s, UpdateAction::Ignore),
        },
        UpdateState::FetchingAsset { download_url, checksum_url } => match e {
            UpdateEvent::RequestFailed { detail } => fail_with(
                request_failure_message(asset_label(), detail),
            ),
            UpdateEvent::Responded { status_code, status_text } => if is_success_status(
                status_code,
            ) {
                (
                    UpdateState::ReadingAsset { download_url, checksum_url },
                    UpdateAction::ReadBody { label: asset_label() },
                )
            } else {
                fail_with(status_failure_message(asset_label(), status_text, download_url))
            },
            _ => (s, UpdateAction::Ignore),
        },
        UpdateState::ReadingAsset { download_url, checksum_url } => match e {
            UpdateEvent::BodyRead { result } => match result {
                Ok(asset) => (
                    UpdateState::FetchingChecksum { download_url, checksum_url, asset },
                    UpdateAction::Fetch { url: checksum_url, label: checksum_label() },
                ),
                Err(detail) => fail_with(stream_failure_message(asset_label(), detail)),
            },
            _ => (s, UpdateAction::Ignore),
        },
        UpdateState::FetchingChecksum { download_url, checksum_url, asset } => match e {
            UpdateEvent::RequestFailed { detail } => fail_with(
                request_failure_message(checksum_label(), detail),
            ),
            UpdateEvent::Responded { status_code, status_text } => if is_success_status(
                status_code,
            ) {
                (
                    UpdateState::ReadingChecksum { download_url, checksum_url, asset },
                    UpdateAction::ReadBody { label: checksum_label() },
                )
            } else {
                fail_with(status_failure_message(checksum_label(), status_text, checksum_url))
            },
            _ => (s, UpdateAction::Ignore),
        },
        UpdateState::ReadingChecksum { download_url, checksum_url, asset } => match e {
            UpdateEvent::BodyRead { result } => match result {
                Ok(checksum) => if valid_utf8(checksum) {
                    (
                        UpdateState::Verifying { download_url, asset },
                        UpdateAction::VerifyAsset { asset, checksum_text: decode_utf8(checksum) },
                    )
                } else {
                    fail_with(checksum_encoding_message(checksum))
                },
                Err(detail) => fail_with(stream_failure_message(checksum_label(), detail)),
            },
            _ => (s, UpdateAction::Ignore),
        },
        UpdateState::Verifying { download_url, asset } => match e {
            UpdateEvent::AssetVerified { result } => match result {
                Err(message) => fail_with(message),
                Ok(()) => if is_msi_update(download_url, asset) {
                    (UpdateState::Installing, UpdateAction::InstallMsi { asset })
                } else {
                    (UpdateState::Installing, UpdateAction::ReplaceExecutable { asset })
                },
            },
            _ => (s, UpdateAction::Ignore),
        },
        UpdateState::Installing => match e {
            UpdateEvent::Installed { result } => match result {
                Ok(()) => (
                    UpdateState::Finished { outcome: Ok(()) },
                    UpdateAction::Finish { outcome: Ok(()) },
                ),
                Err(failure) => fail_with(install_failure_message(failure)),
            },
            _ => (s, UpdateAction::Ignore),
        },
        UpdateState::Finished { .. } => (s, UpdateAction::Ignore),
    }
}


// ----------------------------------------------------------------------
// Executable steps
// ----------------------------------------------------------------------

/// Decodes the checksum file as UTF-8 through `String::from_utf8`. Claims
/// of it: it succeeds exactly on well-formed UTF-8, the text is then the
/// decoding of the bytes, and otherwise the message is what the standard
/// library's `FromUtf8Error` displays for these bytes.
#[verifier::external_body]
fn decode_checksum_bytes(bytes: Vec<u8>) -> (r: Result<String, String>)
    ensures
        r is Ok <==> valid_utf8(bytes@),
        r matches Ok(text) ==> text@ == decode_utf8(bytes@),
        r matches Err(message) ==> message@ == utf8_error_text(bytes@),
{
    match String::from_utf8(bytes) {
        Ok(text) => Ok(text),
        Err(error) => Err(error.to_string()),
    }
}

/// The repository used when an offer names no URLs.
pub fn default_repository() -> (r: String)
    ensures
        r@ == default_github_repo(),
{
    String::from_str("Guardian-Parental-Controls/agent-windows")
}

/// The installer and checksum URLs of `version` in `repo`'s GitHub releases.
pub fn github_release_urls(repo: &str, version: &str) -> (r: (String, String))
    ensures
        r.0@ == release_asset_url(repo@, version@),
        r.1@ == release_checksum_url(repo@, version@),
        r.0@ == "https://github.com/"@ + repo@ + "/releases/download/"@ + version@
            + "/guardian-agent-x86_64-pc-windows-msvc.msi"@,
        r.1@ == r.0@ + ".sha256"@,
{
    proof {
        lemma_release_url_text(repo@, version@);
    }
    let mut asset = String::from_str("https://github.com/");
    asset.append(repo);
    asset.append("/releases/download/");
    asset.append(version);
    asset.append("/");
    asset.append("guardian-agent-x86_64-pc-windows-msvc.msi");
    let mut checksum = asset.clone();
    checksum.append(".sha256");
    (asset, checksum)
}

/// Whether the downloaded update is an MSI package.
pub fn is_msi_package(download_url: &str, asset: &[u8]) -> (r: bool)
    ensures
        r == is_msi_update(download_url@, asset@),
{
    let signature: Vec<u8> = vec![0xD0u8, 0xCFu8, 0x11u8, 0xE0u8];
    assert(signature@ =~= msi_signature());
    has_suffix(download_url, ".msi") || bytes_have_prefix(asset, signature.as_slice())
}

fn fail_step(message: String) -> (r: (UpdateState<String, Vec<u8>>, UpdateAction<String, Vec<u8>>))
    ensures
        (r.0@, r.1@) == fail_with(message@),
{
    let copy = message.clone();
    (UpdateState::Finished { outcome: Err(message) }, UpdateAction::Finish { outcome: Err(copy) })
}

fn request_failure_text(label: &str, detail: &str) -> (r: String)
    ensures
        r@ == request_failure_message(label@, detail@),
{
    let mut m = String::from_str("HTTP request failed for ");
    m.append(label);
    m.append(": ");
    m.append(detail);
    m
}

fn status_failure_text(label: &str, status: &str, url: &str) -> (r: String)
    ensures
        r@ == status_failure_message(label@, status@, url@),
{
    let mut m = String::from_str("Server returned error code ");
    m.append(status);
    m.append(" for ");
    m.append(label);
    m.append(": ");
    m.append(url);
    m
}

fn stream_failure_text(label: &str, detail: &str) -> (r: String)
    ensures
        r@ == stream_failure_message(label@, detail@),
{
    let mut m = String::from_str("Failed to read ");
    m.append(label);
    m.append(" download stream: ");
    m.append(detail);
    m
}

/// Whether an HTTP status code reports success.
pub fn status_is_success(code: u16) -> (r: bool)
    ensures
        r == is_success_status(code),
{
    200 <= code && code < 300
}

fn install_failure_text(failure: &InstallFailure<String>) -> (r: String)
    ensures
        r@ == install_failure_message(failure@),
{
    let (prefix, detail) = match failure {
        InstallFailure::WriteMsi(e) => ("Failed to write MSI update: ", e),
        InstallFailure::LaunchMsiexec(e) => ("Failed to launch msiexec: ", e),
        InstallFailure::MsiexecExit(e) => ("msiexec exited with ", e),
        InstallFailure::LocateExecutable(e) => ("Failed to determine current executable path: ", e),
        InstallFailure::WriteTemporary(e) => ("Failed to write temporary binary file: ", e),
        InstallFailure::ReplaceExecutable(e) => ("Failed to rename/replace active executable: ", e),
    };
    let mut m = String::from_str(prefix);
    m.append(detail.as_str());
    m
}

/// The file name under the temporary directory where an MSI update is
/// written before it is installed.
pub fn msi_package_file_name() -> (r: String)
    ensures
        r@ == "guardian-agent-update.msi"@,
{
    String::from_str("guardian-agent-update.msi")
}

/// The extension given to a replacement executable while it is written
/// beside the running one.
pub fn staged_executable_extension() -> (r: String)
    ensures
        r@ == "tmp"@,
{
    String::from_str("tmp")
}

/// The `msiexec` arguments that install `package_path` quietly without
/// restarting the machine.
pub fn msiexec_arguments(package_path: &str) -> (r: Vec<String>)
    ensures
        r@.len() == 4,
        r@[0]@ == "/i"@,
        r@[1]@ == package_path@,
        r@[2]@ == "/qn"@,
        r@[3]@ == "/norestart"@,
{
    let mut r: Vec<String> = Vec::new();
    r.push(String::from_str("/i"));
    r.push(String::from_str(package_path));
    r.push(String::from_str("/qn"));
    r.push(String::from_str("/norestart"));
    r
}

/// Performs one step of the update procedure: given the current state and
/// what the caller learned from the last action, returns the next state and
/// the action to perform. An event that does not belong to the current
/// state leaves it unchanged and asks for nothing.
pub fn advance_update(
    state: UpdateState<String, Vec<u8>>,
    event: UpdateEvent<String, Vec<u8>>,
) -> (r: (UpdateState<String, Vec<u8>>, UpdateAction<String, Vec<u8>>))
    ensures
        (r.0@, r.1@) == update_transition(state@, event@),
{
    match state {
        UpdateState::Idle => match event {
            UpdateEvent::Offered { target_version, download_url, checksum_url } => {
                match target_version {
                    None => fail_step(String::from_str("Missing target version")),
                    Some(version) => {
                        let v = version.clone();
                        (
                            UpdateState::CheckingVersion { version, download_url, checksum_url },
                            UpdateAction::CheckReleaseVersion { version: v },
                        )
                    },
                }
            },
            _ => (UpdateState::Idle, UpdateAction::Ignore),
        },
        UpdateState::CheckingVersion { version, download_url, checksum_url } => match event {
            UpdateEvent::ReleaseVersionChecked { valid } => {
                if !valid {
                    let mut m = String::from_str("Refusing auto-update: invalid release version '");
                    m.append(version.as_str());
                    m.append("'");
                    fail_step(m)
                } else {
                    match (download_url, checksum_url) {
                        (Some(d), Some(c)) => (
                            UpdateState::PreparingClient { download_url: d, checksum_url: c },
                            UpdateAction::PrepareClient { timeout_secs: UPDATE_HTTP_TIMEOUT_SECS },
                        ),
                        _ => (
                            UpdateState::CheckingRepository { version },
                            UpdateAction::CheckDefaultRepository { repository: default_repository() },
                        ),
                    }
                }
            },
            _ => (
                UpdateState::CheckingVersion { version, download_url, checksum_url },
                UpdateAction::Ignore,
            ),
        },
        UpdateState::CheckingRepository { version } => match event {
            UpdateEvent::DefaultRepositoryChecked { valid } => {
                if !valid {
                    fail_step(
                        String::from_str("Refusing auto-update: invalid default GitHub repository"),
                    )
                } else {
                    let repo = default_repository();
                    let (d, c) = github_release_urls(repo.as_str(), version.as_str());
                    (
                        UpdateState::PreparingClient { download_url: d, checksum_url: c },
                        UpdateAction::PrepareClient { timeout_secs: UPDATE_HTTP_TIMEOUT_SECS },
                    )
                }
            },
            _ => (UpdateState::CheckingRepository { version }, UpdateAction::Ignore),
        },
        UpdateState::PreparingClient { download_url, checksum_url } => match event {
            UpdateEvent::ClientPrepared { result } => match result {
                Err(detail) => {
                    let mut m = String::from_str("Failed to build HTTP client: ");
                    m.append(detail.as_str());
                    fail_step(m)
                },
                Ok(()) => {
                    let url = download_url.clone();
                    (
                        UpdateState::FetchingAsset { download_url, checksum_url },
                        UpdateAction::Fetch { url, label: String::from_str("release asset") },
                    )
                },
            },
            _ => (UpdateState::PreparingClient { download_url, checksum_url }, UpdateAction::Ignore),
        },
        UpdateState::FetchingAsset { download_url, checksum_url } => match event {
            UpdateEvent::RequestFailed { detail } => fail_step(
                request_failure_text("release asset", detail.as_str()),
            ),
            UpdateEvent::Responded { status_code, status_text } => {
                if status_is_success(status_code) {
                    (
                        UpdateState::ReadingAsset { download_url, checksum_url },
                        UpdateAction::ReadBody { label: String::from_str("release asset") },
                    )
                } else {
                    fail_step(
                        status_failure_text(
                            "release asset",
                            status_text.as_str(),
                            download_url.as_str(),
                        ),
                    )
                }
            },
            _ => (UpdateState::FetchingAsset { download_url, checksum_url }, UpdateAction::Ignore),
        },
        UpdateState::ReadingAsset { download_url, checksum_url } => match event {
            UpdateEvent::BodyRead { result } => match result {
                Ok(asset) => {
                    let url = checksum_url.clone();
                    (
                        UpdateState::FetchingChecksum { download_url, checksum_url, asset },
                        UpdateAction::Fetch { url, label: String::from_str("release checksum") },
                    )
                },
                Err(detail) => fail_step(stream_failure_text("release asset", detail.as_str())),
            },
            _ => (UpdateState::ReadingAsset { download_url, checksum_url }, UpdateAction::Ignore),
        },
        UpdateState::FetchingChecksum { download_url, checksum_url, asset } => match event {
            UpdateEvent::RequestFailed { detail } => fail_step(
                request_failure_text("release checksum", detail.as_str()),
            ),
            UpdateEvent::Responded { status_code, status_text } => {
                if status_is_success(status_code) {
                    (
                        UpdateState::ReadingChecksum { download_url, checksum_url, asset },
                        UpdateAction::ReadBody { label: String::from_str("release checksum") },
                    )
                } else {
                    fail_step(
                        status_failure_text(
                            "release checksum",
                            status_text.as_str(),
                            checksum_url.as_str(),
                        ),
                    )
                }
            },
            _ => (
                UpdateState::FetchingChecksum { download_url, checksum_url, asset },
                UpdateAction::Ignore,
            ),
        },
        UpdateState::ReadingChecksum { download_url, checksum_url, asset } => match event {
            UpdateEvent::BodyRead { result } => match result {
                Ok(checksum) => match decode_checksum_bytes(checksum) {
                    Ok(checksum_text) => {
                        let copy = asset.clone();
                        (
                            UpdateState::Verifying { download_url, asset },
                            UpdateAction::VerifyAsset { asset: copy, checksum_text },
                        )
                    },
                    Err(detail) => {
                        let mut m = String::from_str("Release checksum is not valid UTF-8: ");
                        m.append(detail.as_str());
                        fail_step(m)
                    },
                },
                Err(detail) => fail_step(stream_failure_text("release checksum", detail.as_str())),
            },
            _ => (
                UpdateState::ReadingChecksum { download_url, checksum_url, asset },
                UpdateAction::Ignore,
            ),
        },
        UpdateState::Verifying { download_url, asset } => match event {
            UpdateEvent::AssetVerified { result } => match result {
                Err(message) => fail_step(message),
                Ok(()) => {
                    if is_msi_package(download_url.as_str(), asset.as_slice()) {
                        (UpdateState::Installing, UpdateAction::InstallMsi { asset })
                    } else {
                        (UpdateState::Installing, UpdateAction::ReplaceExecutable { asset })
                    }
                },
            },
            _ => (UpdateState::Verifying { download_url, asset }, UpdateAction::Ignore),
        },
        UpdateState::Installing => match event {
            UpdateEvent::Installed { result } => match result {
                Ok(()) => (
                    UpdateState::Finished { outcome: Ok(()) },
                    UpdateAction::Finish { outcome: Ok(()) },
                ),
                Err(failure) => fail_step(install_failure_text(&failure)),
            },
            _ => (UpdateState::Installing, UpdateAction::Ignore),
        },
        UpdateState::Finished { outcome } => (UpdateState::Finished { outcome }, UpdateAction::Ignore),
    }
}


// ----------------------------------------------------------------------
// Laws
// ----------------------------------------------------------------------

/// The state after feeding `events` to the procedure, starting in `s`.
pub open spec fn run_state(s: UpdateStateView, events: Seq<UpdateEventView>) -> UpdateStateView
    decreases events.len(),
{
    if events.len() == 0 {
        s
    } else {
        run_state(update_transition(s, events[0]).0, events.drop_first())
    }
}

/// The actions asked for while feeding `events`, one per event.
pub open spec fn run_actions(s: UpdateStateView, events: Seq<UpdateEventView>) -> Seq<
    UpdateActionView,
>
    decreases events.len(),
{
    if events.len() == 0 {
        Seq::empty()
    } else {
        let step = update_transition(s, events[0]);
        seq![step.1] + run_actions(step.0, events.drop_first())
    }
}

proof fn lemma_run_actions_len(s: UpdateStateView, events: Seq<UpdateEventView>)
    ensures
        run_actions(s, events).len() == events.len(),
    decreases events.len(),
{
    if events.len() > 0 {
        lemma_run_actions_len(update_transition(s, events[0]).0, events.drop_first());
    }
}

/// The event that accepts the offered release version.
pub open spec fn version_accepted() -> UpdateEventView {
    UpdateEvent::ReleaseVersionChecked { valid: true }
}

/// Stages that are only entered once the release version was accepted.
pub open spec fn past_version_check(s: UpdateStateView) -> bool {
    ||| s is CheckingRepository
    ||| s is PreparingClient
    ||| s is FetchingAsset
    ||| s is ReadingAsset
    ||| s is FetchingChecksum
    ||| s is ReadingChecksum
    ||| s is Verifying
    ||| s is Installing
}

/// Actions that download, verify or install a release.
pub open spec fn touches_release(a: UpdateActionView) -> bool {
    ||| a is Fetch
    ||| a is ReadBody
    ||| a is VerifyAsset
    ||| a is InstallMsi
    ||| a is ReplaceExecutable
}

pub open spec fn installs(a: UpdateActionView) -> bool {
    a is InstallMsi || a is ReplaceExecutable
}

/// An update is installed only right after the asset passed verification,
/// and what is installed is the asset that was verified.
pub proof fn law_install_only_after_verification(s: UpdateStateView, e: UpdateEventView)
    ensures
        ({
            let (next, action) = update_transition(s, e);
            installs(action) ==> {
                &&& s is Verifying
                &&& e == UpdateEvent::<Seq<char>, Seq<u8>>::AssetVerified { result: Ok(()) }
                &&& action matches UpdateAction::InstallMsi { asset } ==> asset == s->Verifying_asset
                    && is_msi_update(s->Verifying_download_url, asset)
                &&& action matches UpdateAction::ReplaceExecutable { asset } ==> asset
                    == s->Verifying_asset && !is_msi_update(s->Verifying_download_url, asset)
                &&& next is Installing
            }
        }),
{
    if let UpdateState::Verifying { download_url, asset } = s {
        if let UpdateEvent::AssetVerified { result } = e {
            if let Ok(u) = result {
                assert(result == Ok::<(), Seq<char>>(()));
            }
        }
    }
}

/// Verification is asked for the downloaded asset against the decoded
/// checksum, and only when the checksum is well-formed UTF-8.
pub proof fn law_verification_checks_downloads(s: UpdateStateView, e: UpdateEventView)
    ensures
        ({
            let (next, action) = update_transition(s, e);
            action matches UpdateAction::VerifyAsset { asset, checksum_text } ==> {
                &&& s is ReadingChecksum
                &&& asset == s->ReadingChecksum_asset
                &&& e matches UpdateEvent::BodyRead { result: Ok(checksum) } && valid_utf8(checksum)
                    && checksum_text == decode_utf8(checksum)
            }
        }),
{
}

/// A body is read only from an answer whose status reports success, and a
/// non-success status ends the run naming the status and the URL.
pub proof fn law_body_read_only_after_success(s: UpdateStateView, e: UpdateEventView)
    ensures
        ({
            let (next, action) = update_transition(s, e);
            &&& action is ReadBody ==> (e matches UpdateEvent::Responded { status_code, .. }
                && is_success_status(status_code))
            &&& s is FetchingAsset ==> (e matches UpdateEvent::Responded { status_code, status_text }
                ==> (!is_success_status(status_code) ==> next == (UpdateState::<
                Seq<char>,
                Seq<u8>,
            >::Finished {
                outcome: Err(
                    status_failure_message(asset_label(), status_text, s->FetchingAsset_download_url),
                ),
            })))
        }),
{
}

/// A finished run stays finished and asks for nothing more.
pub proof fn law_finished_is_final(s: UpdateStateView, events: Seq<UpdateEventView>)
    requires
        s is Finished,
    ensures
        run_state(s, events) == s,
        forall|i: int| 0 <= i < events.len() ==> run_actions(s, events)[i] is Ignore,
    decreases events.len(),
{
    if events.len() > 0 {
        law_finished_is_final(s, events.drop_first());
        lemma_run_actions_len(s, events.drop_first());
        assert forall|i: int| 0 <= i < events.len() implies run_actions(s, events)[i] is Ignore by {
            if i > 0 {
                assert(run_actions(s, events)[i] == run_actions(s, events.drop_first())[i - 1]);
            }
        }
    }
}

/// Whenever a step ends the run, the action reports exactly the outcome
/// the run ended with; a step that does not end the run reports none.
pub proof fn law_finish_reports_outcome(s: UpdateStateView, e: UpdateEventView)
    requires
        !(s is Finished),
    ensures
        ({
            let (next, action) = update_transition(s, e);
            &&& next matches UpdateState::Finished { outcome } ==> action
                == UpdateAction::<Seq<char>, Seq<u8>>::Finish { outcome }
            &&& action matches UpdateAction::Finish { outcome } ==> next
                == UpdateState::<Seq<char>, Seq<u8>>::Finished { outcome }
        }),
{
}

/// An event that belongs to no step of the current state changes nothing.
pub proof fn law_ignored_events_change_nothing(s: UpdateStateView, e: UpdateEventView)
    ensures
        update_transition(s, e).1 is Ignore ==> update_transition(s, e).0 == s,
{
}

proof fn lemma_step_keeps_version_gate(s: UpdateStateView, e: UpdateEventView)
    ensures
        touches_release(update_transition(s, e).1) ==> past_version_check(s),
        past_version_check(update_transition(s, e).0) ==> past_version_check(s) || e
            == version_accepted(),
{
}

proof fn lemma_release_actions_need_accepted_version(
    s: UpdateStateView,
    events: Seq<UpdateEventView>,
)
    ensures
        forall|i: int|
            0 <= i < events.len() && touches_release(#[trigger] run_actions(s, events)[i])
                ==> past_version_check(s) || exists|j: int|
                0 <= j < i && events[j] == version_accepted(),
    decreases events.len(),
{
    if events.len() > 0 {
        let step = update_transition(s, events[0]);
        let rest = events.drop_first();
        lemma_step_keeps_version_gate(s, events[0]);
        lemma_run_actions_len(step.0, rest);
        lemma_release_actions_need_accepted_version(step.0, rest);
        assert forall|i: int|
            0 <= i < events.len() && touches_release(#[trigger] run_actions(s, events)[i])
                implies past_version_check(s) || exists|j: int|
            0 <= j < i && events[j] == version_accepted() by {
            if i > 0 {
                assert(run_actions(s, events)[i] == run_actions(step.0, rest)[i - 1]);
                if !past_version_check(s) && past_version_check(step.0) {
                    assert(events[0] == version_accepted());
                } else if !past_version_check(s) {
                    let j = choose|j: int|
                        0 <= j < i - 1 && rest[j] == version_accepted();
                    assert(events[j + 1] == rest[j]);
                }
            }
        }
    }
}

/// Starting from nothing, no release is downloaded, verified or installed
/// unless an earlier step accepted the offered release version.
pub proof fn law_no_download_before_version_accepted(events: Seq<UpdateEventView>)
    ensures
        forall|i: int|
            0 <= i < events.len() && touches_release(
                #[trigger] run_actions(UpdateState::Idle, events)[i],
            ) ==> exists|j: int|
                0 <= j < i && events[j] == version_accepted(),
{
    lemma_release_actions_need_accepted_version(UpdateState::Idle, events);
}

/// When the offer names no download locations, the project's own GitHub
/// release of the offered version is downloaded, with its checksum published
/// beside it under the same name plus `.sha256`.
pub proof fn law_default_release_locations(version: Seq<char>)
    ensures
        update_transition(
            (UpdateState::CheckingRepository { version }),
            (UpdateEvent::DefaultRepositoryChecked { valid: true }),
        ).0 == (UpdateState::<Seq<char>, Seq<u8>>::PreparingClient {
            download_url: release_asset_url(default_github_repo(), version),
            checksum_url: release_asset_url(default_github_repo(), version) + ".sha256"@,
        }),
{
}

proof fn lemma_release_url_text(repo: Seq<char>, version: Seq<char>)
    ensures
        release_asset_url(repo, version) == "https://github.com/"@ + repo + "/releases/download/"@
            + version + "/guardian-agent-x86_64-pc-windows-msvc.msi"@,
        release_checksum_url(repo, version) == "https://github.com/"@ + repo
            + "/releases/download/"@ + version + "/guardian-agent-x86_64-pc-windows-msvc.msi.sha256"@,
{
    reveal_strlit("/");
    reveal_strlit("guardian-agent-x86_64-pc-windows-msvc.msi");
    reveal_strlit("/guardian-agent-x86_64-pc-windows-msvc.msi");
    reveal_strlit(".sha256");
    reveal_strlit("/guardian-agent-x86_64-pc-windows-msvc.msi.sha256");
    let head = "https://github.com/"@ + repo + "/releases/download/"@ + version;
    assert("/"@ + "guardian-agent-x86_64-pc-windows-msvc.msi"@
        =~= "/guardian-agent-x86_64-pc-windows-msvc.msi"@);
    assert(head + "/"@ + release_asset_name() =~= head + "/guardian-agent-x86_64-pc-windows-msvc.msi"@);
    assert("/guardian-agent-x86_64-pc-windows-msvc.msi"@ + ".sha256"@
        =~= "/guardian-agent-x86_64-pc-windows-msvc.msi.sha256"@);
    assert(head + "/guardian-agent-x86_64-pc-windows-msvc.msi"@ + ".sha256"@
        =~= head + "/guardian-agent-x86_64-pc-windows-msvc.msi.sha256"@);
}

/// A release's installer is fetched from the GitHub release of exactly the
/// requested version, for every repository and every version text, and its
/// checksum from the same URL plus `.sha256`; when the offer names no URLs,
/// the repository is the project's own.
pub proof fn law_release_urls_name_the_version(repo: Seq<char>, version: Seq<char>)
    ensures
        release_asset_url(repo, version) == "https://github.com/"@ + repo + "/releases/download/"@
            + version + "/guardian-agent-x86_64-pc-windows-msvc.msi"@,
        release_checksum_url(repo, version) == "https://github.com/"@ + repo
            + "/releases/download/"@ + version + "/guardian-agent-x86_64-pc-windows-msvc.msi.sha256"@,
        update_transition(
            (UpdateState::CheckingRepository { version }),
            (UpdateEvent::DefaultRepositoryChecked { valid: true }),
        ).0 == (UpdateState::<Seq<char>, Seq<u8>>::PreparingClient {
            download_url: "https://github.com/Guardian-Parental-Controls/agent-windows/releases/download/"@
                + version + "/guardian-agent-x86_64-pc-windows-msvc.msi"@,
            checksum_url: "https://github.com/Guardian-Parental-Controls/agent-windows/releases/download/"@
                + version + "/guardian-agent-x86_64-pc-windows-msvc.msi.sha256"@,
        }),
{
    lemma_release_url_text(repo, version);
    lemma_release_url_text(default_github_repo(), version);
    reveal_strlit("https://github.com/");
    reveal_strlit("Guardian-Parental-Controls/agent-windows");
    reveal_strlit("/releases/download/");
    reveal_strlit("https://github.com/Guardian-Parental-Controls/agent-windows/releases/download/");
    assert("https://github.com/"@ + default_github_repo() + "/releases/download/"@
        =~= "https://github.com/Guardian-Parental-Controls/agent-windows/releases/download/"@);
}

/// The asset a step hands over is the asset the state holds: the body read
/// for the asset is kept whole through the checksum download, handed whole
/// to verification, and the verified bytes, unchanged, are what is installed.
pub proof fn law_asset_kept_whole(
    download_url: Seq<char>,
    checksum_url: Seq<char>,
    asset: Seq<u8>,
    checksum: Seq<u8>,
    status_code: u16,
    status_text: Seq<char>,
)
    ensures
        update_transition(
            (UpdateState::ReadingAsset { download_url, checksum_url }),
            (UpdateEvent::BodyRead { result: Ok(asset) }),
        ).0 == (UpdateState::<Seq<char>, Seq<u8>>::FetchingChecksum {
            download_url,
            checksum_url,
            asset,
        }),
        200 <= status_code < 300 ==> update_transition(
            (UpdateState::FetchingChecksum { download_url, checksum_url, asset }),
            (UpdateEvent::Responded { status_code, status_text }),
        ).0 == (UpdateState::<Seq<char>, Seq<u8>>::ReadingChecksum {
            download_url,
            checksum_url,
            asset,
        }),
        valid_utf8(checksum) ==> update_transition(
            (UpdateState::ReadingChecksum { download_url, checksum_url, asset }),
            (UpdateEvent::BodyRead { result: Ok(checksum) }),
        ) == (
            UpdateState::<Seq<char>, Seq<u8>>::Verifying { download_url, asset },
            UpdateAction::<Seq<char>, Seq<u8>>::VerifyAsset {
                asset,
                checksum_text: decode_utf8(checksum),
            },
        ),
        ({
            let action = update_transition(
                (UpdateState::Verifying { download_url, asset }),
                (UpdateEvent::AssetVerified { result: Ok(()) }),
            ).1;
            action == (UpdateAction::<Seq<char>, Seq<u8>>::InstallMsi { asset })
                || action == (UpdateAction::<Seq<char>, Seq<u8>>::ReplaceExecutable { asset })
        }),
{
}

/// The asset an action carries to verification, if any.
pub open spec fn asset_to_verify(a: UpdateActionView) -> Option<Seq<u8>> {
    match a {
        UpdateAction::VerifyAsset { asset, .. } => Some(asset),
        _ => None,
    }
}

/// The asset an action installs, if any.
pub open spec fn asset_to_install(a: UpdateActionView) -> Option<Seq<u8>> {
    match a {
        UpdateAction::InstallMsi { asset } => Some(asset),
        UpdateAction::ReplaceExecutable { asset } => Some(asset),
        _ => None,
    }
}

/// The downloaded asset a state holds, if any.
pub open spec fn held_asset(s: UpdateStateView) -> Option<Seq<u8>> {
    match s {
        UpdateState::FetchingChecksum { asset, .. } => Some(asset),
        UpdateState::ReadingChecksum { asset, .. } => Some(asset),
        UpdateState::Verifying { asset, .. } => Some(asset),
        _ => None,
    }
}

/// The asset a state holds once it has been handed to verification.
pub open spec fn verified_asset(s: UpdateStateView) -> Option<Seq<u8>> {
    match s {
        UpdateState::Verifying { asset, .. } => Some(asset),
        _ => None,
    }
}

proof fn lemma_step_asset_flow(s: UpdateStateView, e: UpdateEventView)
    ensures
        ({
            let (next, action) = update_transition(s, e);
            &&& asset_to_install(action) is Some ==> verified_asset(s) == asset_to_install(action)
            &&& verified_asset(next) is Some ==> verified_asset(s) == verified_asset(next)
                || asset_to_verify(action) == verified_asset(next)
            &&& asset_to_verify(action) is Some ==> held_asset(s) == asset_to_verify(action)
            &&& held_asset(next) is Some ==> held_asset(s) == held_asset(next) || e == (UpdateEvent::<
                Seq<char>,
                Seq<u8>,
            >::BodyRead { result: Ok(held_asset(next)->0) })
        }),
{
}

proof fn lemma_run_install_follows_verification(s: UpdateStateView, events: Seq<UpdateEventView>)
    ensures
        forall|i: int|
            0 <= i < events.len() && (#[trigger] asset_to_install(run_actions(s, events)[i])) is Some
                ==> verified_asset(s) == asset_to_install(run_actions(s, events)[i]) || exists|j: int|
                0 <= j < i && asset_to_verify(run_actions(s, events)[j]) == asset_to_install(
                    run_actions(s, events)[i],
                ),
    decreases events.len(),
{
    if events.len() > 0 {
        let step = update_transition(s, events[0]);
        let rest = events.drop_first();
        lemma_step_asset_flow(s, events[0]);
        lemma_run_actions_len(step.0, rest);
        lemma_run_install_follows_verification(step.0, rest);
        let acts = run_actions(s, events);
        assert(acts == seq![step.1] + run_actions(step.0, rest));
        assert forall|i: int|
            0 <= i < events.len() && (#[trigger] asset_to_install(acts[i])) is Some implies verified_asset(s)
            == asset_to_install(acts[i]) || exists|j: int|
            0 <= j < i && asset_to_verify(acts[j]) == asset_to_install(acts[i]) by {
            if i > 0 {
                assert(acts[i] == run_actions(step.0, rest)[i - 1]);
                if verified_asset(step.0) == asset_to_install(acts[i]) {
                    if verified_asset(s) != verified_asset(step.0) {
                        assert(asset_to_verify(acts[0]) == asset_to_install(acts[i]));
                    }
                } else {
                    let j = choose|j: int|
                        0 <= j < i - 1 && asset_to_verify(run_actions(step.0, rest)[j])
                            == asset_to_install(acts[i]);
                    assert(acts[j + 1] == run_actions(step.0, rest)[j]);
                }
            }
        }
    }
}

proof fn lemma_run_verification_of_download(s: UpdateStateView, events: Seq<UpdateEventView>)
    ensures
        forall|i: int|
            0 <= i < events.len() && (#[trigger] asset_to_verify(run_actions(s, events)[i])) is Some
                ==> held_asset(s) == asset_to_verify(run_actions(s, events)[i]) || exists|j: int|
                0 <= j < i && events[j] == (UpdateEvent::<Seq<char>, Seq<u8>>::BodyRead {
                    result: Ok(asset_to_verify(run_actions(s, events)[i])->0),
                }),
    decreases events.len(),
{
    if events.len() > 0 {
        let step = update_transition(s, events[0]);
        let rest = events.drop_first();
        lemma_step_asset_flow(s, events[0]);
        lemma_run_actions_len(step.0, rest);
        lemma_run_verification_of_download(step.0, rest);
        let acts = run_actions(s, events);
        assert(acts == seq![step.1] + run_actions(step.0, rest));
        assert forall|i: int|
            0 <= i < events.len() && (#[trigger] asset_to_verify(acts[i])) is Some implies held_asset(s)
            == asset_to_verify(acts[i]) || exists|j: int|
            0 <= j < i && events[j] == (UpdateEvent::<Seq<char>, Seq<u8>>::BodyRead {
                result: Ok(asset_to_verify(acts[i])->0),
            }) by {
            if i > 0 {
                assert(acts[i] == run_actions(step.0, rest)[i - 1]);
                if held_asset(step.0) == asset_to_verify(acts[i]) {
                    if held_asset(s) != held_asset(step.0) {
                        assert(events[0] == (UpdateEvent::<Seq<char>, Seq<u8>>::BodyRead {
                            result: Ok(asset_to_verify(acts[i])->0),
                        }));
                    }
                } else {
                    let j = choose|j: int|
                        0 <= j < i - 1 && rest[j] == (UpdateEvent::<Seq<char>, Seq<u8>>::BodyRead {
                            result: Ok(asset_to_verify(acts[i])->0),
                        });
                    assert(events[j + 1] == rest[j]);
                }
            }
        }
    }
}

/// Over every run from the start, whatever is installed was, byte for byte,
/// handed to verification at an earlier step, and whatever is handed to
/// verification is, byte for byte, a body that was read at an earlier step.
pub proof fn law_installed_asset_is_verified_download(events: Seq<UpdateEventView>)
    ensures
        forall|k: int|
            0 <= k < events.len() && (#[trigger] asset_to_install(
                run_actions(UpdateState::Idle, events)[k],
            )) is Some ==> exists|j: int|
                0 <= j < k && asset_to_verify(run_actions(UpdateState::Idle, events)[j])
                    == asset_to_install(run_actions(UpdateState::Idle, events)[k]),
        forall|j: int|
            0 <= j < events.len() && (#[trigger] asset_to_verify(
                run_actions(UpdateState::Idle, events)[j],
            )) is Some ==> exists|i: int|
                0 <= i < j && events[i] == (UpdateEvent::<Seq<char>, Seq<u8>>::BodyRead {
                    result: Ok(asset_to_verify(run_actions(UpdateState::Idle, events)[j])->0),
                }),
{
    lemma_run_install_follows_verification(UpdateState::Idle, events);
    lemma_run_verification_of_download(UpdateState::Idle, events);
}

} // verus!
