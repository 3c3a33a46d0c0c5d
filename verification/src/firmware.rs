//! Firmware versions, OTA deployment status policy and download grants.
use vstd::prelude::*;
use vstd::string::StringSliceAdditionalSpecFns;
use crate::error::ApplicationError;
use crate::json::{entries_view, lemma_entries_view_push, Json, JsonNumber, JsonValue};
use crate::tenant::{valid_tenant_id, TenantId};
use chrono::NaiveDateTime;
use crate::text::{
    append_u64, ascii_lower_seq, decimal_nat, eq_ignore_ascii_case, has_prefix, parse_u32,
    parse_u32_str, starts_with, str_equal,
};

verus! {

// ---------------------------------------------------------------- OTA status

/// `success` and `failed`, compared without regard to ASCII case, end a deployment.
pub open spec fn ota_terminal(status: Seq<char>) -> bool {
    ascii_lower_seq(status) == "success"@ || ascii_lower_seq(status) == "failed"@
}

/// Position of a status in the deployment lifecycle; unknown statuses have none.
pub open spec fn ota_rank(status: Seq<char>) -> Option<int> {
    if status == "pending"@ {
        Some(0)
    } else if status == "downloading"@ {
        Some(1)
    } else if status == "verifying"@ {
        Some(2)
    } else if status == "installing"@ {
        Some(3)
    } else if status == "rebooting"@ {
        Some(4)
    } else if status == "success"@ || status == "failed"@ {
        Some(5)
    } else {
        None
    }
}

/// A move from `previous` to `next` is accepted when `previous` is not terminal,
/// both statuses are known and `next` is not earlier in the lifecycle.
pub open spec fn ota_transition(previous: Seq<char>, next: Seq<char>) -> bool {
    &&& !ota_terminal(previous)
    &&& ota_rank(previous) is Some
    &&& ota_rank(next) is Some
    &&& ota_rank(next)->0 >= ota_rank(previous)->0
}

/// Whether a deployment status is terminal (`success` or `failed`, any ASCII case).
pub fn ota_status_is_terminal(status: &str) -> (r: bool)
    ensures
        r == ota_terminal(status@),
{
    proof {
        reveal_strlit("success");
        reveal_strlit("failed");
        assert(ascii_lower_seq("success"@) =~= "success"@);
        assert(ascii_lower_seq("failed"@) =~= "failed"@);
    }
    eq_ignore_ascii_case(status, "success") || eq_ignore_ascii_case(status, "failed")
}

fn ota_rank_of(status: &str) -> (r: Option<u8>)
    ensures
        r is Some <==> ota_rank(status@) is Some,
        r matches Some(v) ==> v == ota_rank(status@)->0,
{
    if str_equal(status, "pending") {
        Some(0)
    } else if str_equal(status, "downloading") {
        Some(1)
    } else if str_equal(status, "verifying") {
        Some(2)
    } else if str_equal(status, "installing") {
        Some(3)
    } else if str_equal(status, "rebooting") {
        Some(4)
    } else if str_equal(status, "success") || str_equal(status, "failed") {
        Some(5)
    } else {
        None
    }
}

/// Only forward transitions are accepted; terminal deployments are immutable.
pub fn ota_transition_allowed(previous: &str, next: &str) -> (r: bool)
    ensures
        r == ota_transition(previous@, next@),
{
    if ota_status_is_terminal(previous) {
        return false;
    }
    match (ota_rank_of(previous), ota_rank_of(next)) {
        (Some(a), Some(b)) => b >= a,
        _ => false,
    }
}

/// Law: a terminal deployment accepts no further status.
pub proof fn lemma_terminal_deployments_are_immutable(previous: Seq<char>, next: Seq<char>)
    requires
        ota_terminal(previous),
    ensures
        !ota_transition(previous, next),
{
}

/// Law: accepted transitions never move a deployment backwards, and two
/// accepted steps make an accepted step.
pub proof fn lemma_transitions_move_forward(a: Seq<char>, b: Seq<char>, c: Seq<char>)
    requires
        ota_transition(a, b),
    ensures
        ota_rank(b)->0 >= ota_rank(a)->0,
        ota_transition(b, c) ==> ota_transition(a, c),
{
}

/// Law: the deployment lifecycle runs pending (0), downloading (1),
/// verifying (2), installing (3), rebooting (4) and ends in success or
/// failed (5); each step to the next stage is accepted and no step back is.
pub proof fn lemma_lifecycle_order()
    ensures
        ota_rank("pending"@) == Some(0int),
        ota_rank("downloading"@) == Some(1int),
        ota_rank("verifying"@) == Some(2int),
        ota_rank("installing"@) == Some(3int),
        ota_rank("rebooting"@) == Some(4int),
        ota_rank("success"@) == Some(5int),
        ota_rank("failed"@) == Some(5int),
        ota_transition("pending"@, "downloading"@),
        ota_transition("downloading"@, "verifying"@),
        ota_transition("verifying"@, "installing"@),
        ota_transition("installing"@, "rebooting"@),
        ota_transition("rebooting"@, "success"@),
        ota_transition("rebooting"@, "failed"@),
        !ota_transition("downloading"@, "pending"@),
        !ota_transition("verifying"@, "downloading"@),
        !ota_transition("installing"@, "verifying"@),
        !ota_transition("rebooting"@, "installing"@),
{
    reveal_strlit("pending");
    reveal_strlit("downloading");
    reveal_strlit("verifying");
    reveal_strlit("installing");
    reveal_strlit("rebooting");
    reveal_strlit("success");
    reveal_strlit("failed");
    assert("pending"@.len() == 7 && "pending"@[0] == 'p');
    assert("downloading"@.len() == 11);
    assert("verifying"@.len() == 9 && "verifying"@[0] == 'v');
    assert("installing"@.len() == 10);
    assert("rebooting"@.len() == 9 && "rebooting"@[0] == 'r');
    assert("success"@.len() == 7 && "success"@[0] == 's');
    assert("failed"@.len() == 6);
    assert(ascii_lower_seq("pending"@) =~= "pending"@);
    assert(ascii_lower_seq("downloading"@) =~= "downloading"@);
    assert(ascii_lower_seq("verifying"@) =~= "verifying"@);
    assert(ascii_lower_seq("installing"@) =~= "installing"@);
    assert(ascii_lower_seq("rebooting"@) =~= "rebooting"@);
}

// ------------------------------------------------------------ OTA artifacts

/// An ASCII hexadecimal digit byte.
pub open spec fn is_hex_digit_byte(b: u8) -> bool {
    (0x30 <= b <= 0x39) || (0x41 <= b <= 0x46) || (0x61 <= b <= 0x66)
}

/// A SHA-256 digest written as 64 hexadecimal digits.
pub open spec fn valid_sha256_hex(h: &str) -> bool {
    &&& h.spec_bytes().len() == 64
    &&& forall|i: int| 0 <= i < h.spec_bytes().len() ==> is_hex_digit_byte(#[trigger] h.spec_bytes()[i])
}

/// An OTA artifact is deliverable when its version is non-empty and at most
/// 63 bytes long (`len` counts UTF-8 bytes), its URL is at most 1023 bytes and uses http or https, and it
/// carries a SHA-256 digest.
pub open spec fn valid_artifact(version: &str, hash: Option<&str>, url: &str) -> bool {
    &&& version@.len() > 0
    &&& version.len() <= 63
    &&& url.len() <= 1023
    &&& (has_prefix(url@, "https://"@) || has_prefix(url@, "http://"@))
    &&& match hash {
        Some(h) => valid_sha256_hex(h),
        None => false,
    }
}

fn is_hex_digit(b: u8) -> (r: bool)
    ensures
        r == is_hex_digit_byte(b),
{
    (0x30 <= b && b <= 0x39) || (0x41 <= b && b <= 0x46) || (0x61 <= b && b <= 0x66)
}

fn sha256_hex_valid(h: &str) -> (r: bool)
    ensures
        r == valid_sha256_hex(h),
{
    let bytes = h.as_bytes();
    if bytes.len() != 64 {
        return false;
    }
    let mut i: usize = 0;
    while i < bytes.len()
        invariant
            bytes@ == h.spec_bytes(),
            i <= bytes@.len(),
            forall|j: int| 0 <= j < i ==> is_hex_digit_byte(#[trigger] bytes@[j]),
        decreases bytes@.len() - i,
    {
        if !is_hex_digit(bytes[i]) {
            return false;
        }
        i = i + 1;
    }
    true
}

/// Whether an artifact can be delivered to a device.
pub fn valid_ota_artifact(version: &str, hash: Option<&str>, url: &str) -> (r: bool)
    ensures
        r == valid_artifact(version, hash, url),
{
    !version.is_empty() && version.len() <= 63 && url.len() <= 1023 && (starts_with(
        url,
        "https://",
    ) || starts_with(url, "http://")) && match hash {
        Some(h) => sha256_hex_valid(h),
        None => false,
    }
}

/// Validated OTA artifact shared by transaction-owning adapters.
pub struct PreparedOtaArtifact {
    version: String,
    url: String,
    sha256: String,
}

/// The URL a device downloads from: the stored URL when it is https, the
/// signed grant URL otherwise.
pub open spec fn artifact_url<'a>(stored_url: &'a str, grant_url: &'a str) -> &'a str {
    if has_prefix(stored_url@, "https://"@) {
        stored_url
    } else {
        grant_url
    }
}

impl PreparedOtaArtifact {
    pub closed spec fn spec_version(&self) -> Seq<char> {
        self.version@
    }

    pub closed spec fn spec_url(&self) -> Seq<char> {
        self.url@
    }

    pub closed spec fn spec_sha256(&self) -> Seq<char> {
        self.sha256@
    }

    /// Prepares an artifact, or `None` when it is not deliverable.
    pub fn prepare(version: &str, hash: Option<&str>, stored_url: &str, grant_url: &str) -> (r:
        Option<PreparedOtaArtifact>)
        ensures
            r is Some <==> valid_artifact(version, hash, artifact_url(stored_url, grant_url)),
            r matches Some(a) ==> {
                &&& a.spec_version() == version@
                &&& a.spec_url() == artifact_url(stored_url, grant_url)@
                &&& a.spec_sha256() == hash->0@
            },
    {
        let url = if starts_with(stored_url, "https://") {
            stored_url
        } else {
            grant_url
        };
        if !valid_ota_artifact(version, hash, url) {
            return None;
        }
        match hash {
            Some(h) => Some(
                PreparedOtaArtifact {
                    version: version.to_owned(),
                    url: url.to_owned(),
                    sha256: h.to_owned(),
                },
            ),
            None => None,
        }
    }

    /// The desired-state patch that asks a device to install this artifact:
    /// one member `ota` holding the version, URL, firmware and deployment
    /// identifiers and the SHA-256 digest.
    pub fn desired_patch(self, firmware_id: i32, deployment_id: i64) -> (r: Vec<(String, Json)>)
        ensures
            entries_view(r@) == map![
                "ota"@ => JsonValue::Object(map![
                    "firmware_version"@ => JsonValue::Str(self.spec_version()),
                    "firmware_url"@ => JsonValue::Str(self.spec_url()),
                    "firmware_update_id"@ => JsonValue::Number(int_number(firmware_id as int)),
                    "deployment_id"@ => JsonValue::Number(int_number(deployment_id as int)),
                    "sha256"@ => JsonValue::Str(self.spec_sha256()),
                ]),
            ],
    {
        let ghost version = self.version@;
        let ghost url = self.url@;
        let ghost sha = self.sha256@;
        let mut ota: Vec<(String, Json)> = Vec::new();
        let e1 = ("firmware_version".to_owned(), Json::Str(self.version));
        proof { lemma_entries_view_push(ota@, e1); }
        ota.push(e1);
        let e2 = ("firmware_url".to_owned(), Json::Str(self.url));
        proof { lemma_entries_view_push(ota@, e2); }
        ota.push(e2);
        let e3 = ("firmware_update_id".to_owned(), Json::Number(number_from_i64(firmware_id as i64)));
        proof { lemma_entries_view_push(ota@, e3); }
        ota.push(e3);
        let e4 = ("deployment_id".to_owned(), Json::Number(number_from_i64(deployment_id)));
        proof { lemma_entries_view_push(ota@, e4); }
        ota.push(e4);
        let e5 = ("sha256".to_owned(), Json::Str(self.sha256));
        proof { lemma_entries_view_push(ota@, e5); }
        ota.push(e5);
        let mut patch: Vec<(String, Json)> = Vec::new();
        let e = ("ota".to_owned(), Json::Object(ota));
        proof {
            lemma_entries_view_push(patch@, e);
            assert(entries_view(Seq::<(String, Json)>::empty()) =~= Map::empty());
        }
        patch.push(e);
        proof {
            assert(entries_view(ota@) =~= map![
                "firmware_version"@ => JsonValue::Str(version),
                "firmware_url"@ => JsonValue::Str(url),
                "firmware_update_id"@ => JsonValue::Number(int_number(firmware_id as int)),
                "deployment_id"@ => JsonValue::Number(int_number(deployment_id as int)),
                "sha256"@ => JsonValue::Str(sha),
            ]);
        }
        patch
    }
}

/// The JSON number of an integer: `PosInt` when non-negative, `NegInt` otherwise.
pub open spec fn int_number(i: int) -> JsonNumber {
    if i >= 0 {
        JsonNumber::PosInt(i as u64)
    } else {
        JsonNumber::NegInt(i as i64)
    }
}

/// The JSON number of a signed integer.
pub fn number_from_i64(i: i64) -> (r: JsonNumber)
    ensures
        r == int_number(i as int),
        crate::json::number_view(r) == r,
{
    if i >= 0 {
        JsonNumber::PosInt(i as u64)
    } else {
        JsonNumber::NegInt(i)
    }
}


// -------------------------------------------------------- firmware versions

/// `s` has exactly two dots, at `i` and at `j`: it splits at `.` into three parts.
pub open spec fn dots_at(s: Seq<char>, i: int, j: int) -> bool {
    &&& 0 <= i < j < s.len()
    &&& s[i] == '.'
    &&& s[j] == '.'
    &&& forall|k: int| 0 <= k < s.len() && k != i && k != j ==> #[trigger] s[k] != '.'
}

/// `s` has three dot-separated parts and its last part parses as a `u32`.
pub open spec fn has_numeric_patch(s: Seq<char>) -> bool {
    exists|i: int, j: int| dots_at(s, i, j) && parse_u32(s.skip(j + 1)) is Some
}

/// The next firmware version: `major.minor.(patch + 1)` for a three-part
/// version with a numeric patch, `version.1` for any other version.
pub open spec fn incremented_version(s: Seq<char>) -> Seq<char> {
    if has_numeric_patch(s) {
        let (i, j) = choose|i: int, j: int| dots_at(s, i, j) && parse_u32(s.skip(j + 1)) is Some;
        s.take(j + 1) + decimal_nat(parse_u32(s.skip(j + 1))->0 + 1)
    } else {
        s + seq!['.', '1']
    }
}

/// The patch number of `s` is `u32::MAX`; incrementing it overflows.
pub open spec fn patch_at_max(s: Seq<char>) -> bool {
    exists|i: int, j: int| dots_at(s, i, j) && parse_u32(s.skip(j + 1)) == Some(u32::MAX as nat)
}

proof fn lemma_dots_unique(s: Seq<char>, i: int, j: int, i2: int, j2: int)
    requires
        dots_at(s, i, j),
        dots_at(s, i2, j2),
    ensures
        i == i2,
        j == j2,
{
    assert(s[i2] == '.');
    assert(s[j2] == '.');
    assert(s[i] == '.');
    assert(s[j] == '.');
}

/// The version that follows `version`.
pub fn increment_firmware_version(version: &str) -> (r: String)
    requires
        !patch_at_max(version@),
    ensures
        r@ == incremented_version(version@),
{
    let ghost s = version@;
    let n = version.unicode_len();
    let mut count: usize = 0;
    let mut first: usize = 0;
    let mut second: usize = 0;
    let mut k: usize = 0;
    while k < n && count < 3
        invariant
            s == version@,
            n == s.len(),
            k <= n,
            count <= 3,
            count >= 1 ==> first < k && s[first as int] == '.',
            count >= 2 ==> first < second < k && s[second as int] == '.',
            count == 0 ==> forall|m: int| 0 <= m < k ==> #[trigger] s[m] != '.',
            count >= 1 ==> forall|m: int| 0 <= m < first ==> #[trigger] s[m] != '.',
            count == 1 ==> forall|m: int| first < m < k ==> #[trigger] s[m] != '.',
            count >= 2 ==> forall|m: int| first < m < second ==> #[trigger] s[m] != '.',
            count == 2 ==> forall|m: int| second < m < k ==> #[trigger] s[m] != '.',
            count == 3 ==> exists|t: int| second < t < k && s[t] == '.',
        decreases n - k,
    {
        if version.get_char(k) == '.' {
            if count == 0 {
                first = k;
            } else if count == 1 {
                second = k;
            }
            count = count + 1;
        }
        k = k + 1;
    }
    if count == 2 {
        proof {
            assert(dots_at(s, first as int, second as int));
        }
        let tail = version.substring_char(second + 1, n);
        proof {
            assert(tail@ =~= s.skip(second + 1));
        }
        match parse_u32_str(tail) {
            Some(patch) => {
                proof {
                    assert(has_numeric_patch(s));
                    let (i, j) = choose|i: int, j: int|
                        dots_at(s, i, j) && parse_u32(s.skip(j + 1)) is Some;
                    lemma_dots_unique(s, i, j, first as int, second as int);
                    if patch == u32::MAX {
                        assert(patch_at_max(s));
                    }
                }
                let mut r = String::new();
                let head = version.substring_char(0, second + 1);
                r.append(head);
                append_u64(&mut r, (patch as u64) + 1);
                proof {
                    assert(head@ =~= s.take(second + 1));
                }
                return r;
            },
            None => {
                proof {
                    assert forall|i: int, j: int| dots_at(s, i, j) implies parse_u32(s.skip(j + 1))
                        is None by {
                        lemma_dots_unique(s, i, j, first as int, second as int);
                    }
                }
            },
        }
    } else {
        proof {
            assert forall|i: int, j: int| !dots_at(s, i, j) by {
                if dots_at(s, i, j) {
                    assert(s[i] == '.');
                    assert(s[j] == '.');
                    if count == 3 {
                        let t = choose|t: int| second < t < k && s[t] == '.';
                        assert(s[first as int] == '.');
                        assert(s[second as int] == '.');
                    }
                }
            }
        }
    }
    proof {
        reveal_strlit(".1");
    }
    let mut r = String::new();
    r.append(version);
    r.append(".1");
    r
}

/// Law: a three-part version with a numeric patch keeps its major and minor
/// parts and gains one on its patch.
pub proof fn lemma_increment_bumps_patch(s: Seq<char>, i: int, j: int)
    requires
        dots_at(s, i, j),
        parse_u32(s.skip(j + 1)) is Some,
    ensures
        incremented_version(s) == s.take(j + 1) + decimal_nat(parse_u32(s.skip(j + 1))->0 + 1),
{
    let (i2, j2) = choose|i2: int, j2: int| dots_at(s, i2, j2) && parse_u32(s.skip(j2 + 1)) is Some;
    lemma_dots_unique(s, i, j, i2, j2);
}


/// The version proposed for the next firmware of a device type or blueprint
/// revision: `1.0.0` for the first, the increment of the latest otherwise.
pub fn next_firmware_version(latest: Option<&str>) -> (r: String)
    requires
        latest matches Some(v) ==> !patch_at_max(v@),
    ensures
        r@ == match latest {
            Some(v) => incremented_version(v@),
            None => "1.0.0"@,
        },
{
    match latest {
        Some(v) => increment_firmware_version(v),
        None => "1.0.0".to_owned(),
    }
}

// ------------------------------------------------------ deployment listings

/// Which deployments a listing selects by status.
#[derive(Debug, Clone, PartialEq, Eq)]
pub enum DeploymentStatusFilter {
    All,
    /// Deployments that are neither `success` nor `failed`.
    InProgress,
    /// Deployments that ended in `success` or `failed`.
    Completed,
    /// Deployments with exactly this status.
    Exactly(String),
}

/// Whether a filter selects a deployment with the given stored status.
/// Statuses are compared exactly, as the database compares text.
pub open spec fn filter_selects(f: DeploymentStatusFilter, status: Seq<char>) -> bool {
    match f {
        DeploymentStatusFilter::All => true,
        DeploymentStatusFilter::InProgress => status != "success"@ && status != "failed"@,
        DeploymentStatusFilter::Completed => status == "success"@ || status == "failed"@,
        DeploymentStatusFilter::Exactly(s) => status == s@,
    }
}

/// Reads a listing's status filter: `in_progress` and `active` select
/// unfinished deployments, `completed` and `terminal` finished ones, an
/// absent, empty or `all` filter selects everything, and any other text
/// selects that exact status.
pub fn deployment_status_filter(filter: Option<&str>) -> (r: DeploymentStatusFilter)
    ensures
        match filter {
            None => r == DeploymentStatusFilter::All,
            Some(f) => if f@ == "in_progress"@ || f@ == "active"@ {
                r == DeploymentStatusFilter::InProgress
            } else if f@ == "completed"@ || f@ == "terminal"@ {
                r == DeploymentStatusFilter::Completed
            } else if f@.len() == 0 || f@ == "all"@ {
                r == DeploymentStatusFilter::All
            } else {
                r matches DeploymentStatusFilter::Exactly(s) && s@ == f@
            },
        },
{
    match filter {
        None => DeploymentStatusFilter::All,
        Some(f) => if str_equal(f, "in_progress") || str_equal(f, "active") {
            DeploymentStatusFilter::InProgress
        } else if str_equal(f, "completed") || str_equal(f, "terminal") {
            DeploymentStatusFilter::Completed
        } else if f.unicode_len() == 0 || str_equal(f, "all") {
            DeploymentStatusFilter::All
        } else {
            DeploymentStatusFilter::Exactly(f.to_owned())
        },
    }
}

/// Law: every deployment is either in progress or completed, never both.
pub proof fn lemma_progress_filters_partition(status: Seq<char>)
    ensures
        filter_selects(DeploymentStatusFilter::InProgress, status) != filter_selects(
            DeploymentStatusFilter::Completed,
            status,
        ),
{
}

// ------------------------------------------------------- download grants

/// A grant whose signature, audience and expiry the host has verified.
/// Construction validates the domain scope; it does not verify a raw token.
#[derive(Debug)]
pub struct VerifiedFirmwareDownload {
    tenant: TenantId,
    firmware_id: i32,
}

impl VerifiedFirmwareDownload {
    pub closed spec fn spec_tenant(&self) -> Seq<char> {
        self.tenant@
    }

    pub closed spec fn spec_firmware_id(&self) -> i32 {
        self.firmware_id
    }

    /// Accepts claims naming a positive firmware identifier and a valid tenant;
    /// anything else is `Unauthorized`.
    pub fn from_verified_claims(tenant: String, firmware_id: i32) -> (r: Result<
        VerifiedFirmwareDownload,
        ApplicationError,
    >)
        ensures
            r is Ok <==> (firmware_id > 0 && valid_tenant_id(tenant@)),
            r matches Ok(d) ==> d.spec_tenant() == tenant@ && d.spec_firmware_id() == firmware_id,
            r matches Err(e) ==> e is Unauthorized,
    {
        if firmware_id <= 0 {
            return Err(ApplicationError::Unauthorized);
        }
        let tenant = match TenantId::new(tenant) {
            Ok(t) => t,
            Err(_) => return Err(ApplicationError::Unauthorized),
        };
        Ok(VerifiedFirmwareDownload { tenant, firmware_id })
    }

    pub fn tenant(&self) -> (t: &TenantId)
        ensures
            t@ == self.spec_tenant(),
    {
        &self.tenant
    }

    pub fn firmware_id(&self) -> (id: i32)
        ensures
            id == self.spec_firmware_id(),
    {
        self.firmware_id
    }
}

/// Seconds a firmware download grant stays valid: seven days.
pub const DOWNLOAD_GRANT_LIFETIME_SECS: i64 = 604800;

/// The audience that firmware download grants are issued for.
pub const DOWNLOAD_GRANT_AUDIENCE: &'static str = "extrittio:firmware-download";

/// Signing inputs owned by core; the host selects the token encoding and key.
pub struct FirmwareDownloadGrant {
    pub tenant: TenantId,
    pub firmware_id: i32,
    pub audience: &'static str,
    pub expires_at: u64,
}

impl FirmwareDownloadGrant {
    /// A grant that expires seven days after `now_unix_secs`, the Unix time in
    /// seconds read from the host clock. An expiry that overflows or lies
    /// before the epoch is an internal failure.
    pub fn new(tenant: TenantId, firmware_id: i32, now_unix_secs: i64) -> (r: Result<
        FirmwareDownloadGrant,
        ApplicationError,
    >)
        ensures
            r is Ok <==> 0 <= now_unix_secs + 604800 <= i64::MAX,
            r matches Ok(g) ==> {
                &&& g.tenant@ == tenant@
                &&& g.firmware_id == firmware_id
                &&& g.audience@ == DOWNLOAD_GRANT_AUDIENCE@
                &&& g.expires_at == now_unix_secs + 604800
            },
            r matches Err(e) ==> e is Internal && e->Internal_0@
                == "Failed to authorize firmware download"@,
    {
        match now_unix_secs.checked_add(DOWNLOAD_GRANT_LIFETIME_SECS) {
            Some(expires) => {
                if expires >= 0 {
                    Ok(
                        FirmwareDownloadGrant {
                            tenant,
                            firmware_id,
                            audience: DOWNLOAD_GRANT_AUDIENCE,
                            expires_at: expires as u64,
                        },
                    )
                } else {
                    Err(ApplicationError::Internal("Failed to authorize firmware download".to_owned()))
                }
            },
            None => Err(ApplicationError::Internal("Failed to authorize firmware download".to_owned())),
        }
    }
}

/// Host-owned token signing for firmware download grants.
pub trait FirmwareDownloadSigner {
    fn sign(&self, grant: &FirmwareDownloadGrant) -> Result<String, ApplicationError>;
}

// ------------------------------------------------------- deployment decisions

/// Firmware fits a device when it targets the device's assigned blueprint
/// revision or, for firmware bound to no revision, the device's type.
pub open spec fn ota_target_fits(
    firmware_revision: Option<Seq<char>>,
    assigned_revision: Option<Seq<char>>,
    firmware_device_type: i32,
    device_type: i32,
) -> bool {
    match firmware_revision {
        Some(target) => assigned_revision == Some(target),
        None => firmware_device_type == device_type,
    }
}

/// Whether firmware may be deployed to a device.
pub fn ota_target_compatible(
    firmware_revision: Option<&str>,
    assigned_revision: Option<&str>,
    firmware_device_type: i32,
    device_type: i32,
) -> (r: bool)
    ensures
        r == ota_target_fits(
            match firmware_revision { Some(s) => Some(s@), None => None },
            match assigned_revision { Some(s) => Some(s@), None => None },
            firmware_device_type,
            device_type,
        ),
{
    match firmware_revision {
        Some(target) => match assigned_revision {
            Some(assigned) => str_equal(assigned, target),
            None => false,
        },
        None => firmware_device_type == device_type,
    }
}

/// A device-reported status applies to a stored deployment when it names the
/// deployment's firmware and is an accepted transition.
pub fn ota_status_update_applies(
    stored_status: &str,
    stored_firmware_id: i32,
    reported_firmware_id: Option<i32>,
    reported_status: &str,
) -> (r: bool)
    ensures
        r == (reported_firmware_id == Some(stored_firmware_id) && ota_transition(
            stored_status@,
            reported_status@,
        )),
{
    match reported_firmware_id {
        Some(id) => id == stored_firmware_id && ota_transition_allowed(
            stored_status,
            reported_status,
        ),
        None => false,
    }
}

/// Why a deployment could not be started.
#[derive(Debug, Clone, Copy, PartialEq, Eq, Structural)]
pub enum OtaRefusal {
    DeviceNotFound,
    FirmwareNotFound,
    Incompatible,
    InvalidArtifact,
}

/// What an adapter read, under its transaction, about one deployment request.
pub struct OtaTriggerFacts<'a> {
    pub device_type: Option<i32>,
    pub firmware_device_type: Option<i32>,
    pub firmware_revision: Option<&'a str>,
    pub assigned_revision: Option<&'a str>,
    pub firmware_version: &'a str,
    pub firmware_sha256: Option<&'a str>,
    pub firmware_url: &'a str,
    pub grant_url: &'a str,
}

/// Decides a deployment request: the device and firmware must exist, the
/// firmware must fit the device, and the artifact must be deliverable. On
/// success the prepared artifact is returned for the desired-state patch.
pub fn decide_ota_trigger(facts: &OtaTriggerFacts) -> (r: Result<PreparedOtaArtifact, OtaRefusal>)
    ensures
        facts.device_type is None ==> r == Err::<PreparedOtaArtifact, OtaRefusal>(
            OtaRefusal::DeviceNotFound,
        ),
        facts.device_type is Some && facts.firmware_device_type is None ==> r == Err::<
            PreparedOtaArtifact,
            OtaRefusal,
        >(OtaRefusal::FirmwareNotFound),
        facts.device_type is Some && facts.firmware_device_type is Some && !ota_target_fits(
            match facts.firmware_revision { Some(s) => Some(s@), None => None },
            match facts.assigned_revision { Some(s) => Some(s@), None => None },
            facts.firmware_device_type->0,
            facts.device_type->0,
        ) ==> r == Err::<PreparedOtaArtifact, OtaRefusal>(OtaRefusal::Incompatible),
        facts.device_type is Some && facts.firmware_device_type is Some && ota_target_fits(
            match facts.firmware_revision { Some(s) => Some(s@), None => None },
            match facts.assigned_revision { Some(s) => Some(s@), None => None },
            facts.firmware_device_type->0,
            facts.device_type->0,
        ) ==> {
            let url = artifact_url(facts.firmware_url, facts.grant_url);
            &&& (r is Ok <==> valid_artifact(facts.firmware_version, facts.firmware_sha256, url))
            &&& (r is Err ==> r == Err::<PreparedOtaArtifact, OtaRefusal>(
                OtaRefusal::InvalidArtifact,
            ))
            &&& (r matches Ok(a) ==> a.spec_version() == facts.firmware_version@ && a.spec_url()
                == url@ && a.spec_sha256() == facts.firmware_sha256->0@)
        },
{
    let device_type = match facts.device_type {
        Some(t) => t,
        None => return Err(OtaRefusal::DeviceNotFound),
    };
    let firmware_device_type = match facts.firmware_device_type {
        Some(t) => t,
        None => return Err(OtaRefusal::FirmwareNotFound),
    };
    if !ota_target_compatible(
        facts.firmware_revision,
        facts.assigned_revision,
        firmware_device_type,
        device_type,
    ) {
        return Err(OtaRefusal::Incompatible);
    }
    match PreparedOtaArtifact::prepare(
        facts.firmware_version,
        facts.firmware_sha256,
        facts.firmware_url,
        facts.grant_url,
    ) {
        Some(a) => Ok(a),
        None => Err(OtaRefusal::InvalidArtifact),
    }
}

/// URL path from which a stored firmware blob is downloaded.
pub fn firmware_download_path(firmware_id: i32) -> (r: String)
    ensures
        r@ == "/api/v1/firmware-updates/"@ + crate::text::decimal_i64(firmware_id as int)
            + "/download"@,
{
    let mut r = String::new();
    r.append("/api/v1/firmware-updates/");
    crate::text::append_i64(&mut r, firmware_id as i64);
    r.append("/download");
    r
}

// ----------------------------------------------------------------- records

/// A firmware blob still stored inline in the database.
#[derive(Debug, Clone)]
pub struct LegacyFirmwareBlob {
    pub tenant_id: String,
    pub firmware_update_id: i32,
    pub filename: String,
    pub data: Vec<u8>,
}

#[derive(Debug, Clone)]
pub struct NewFirmwareBlobRecord {
    pub size: i32,
    pub filename: String,
    pub storage_key: String,
    pub storage_backend: String,
}

#[derive(Debug, Clone)]
pub struct FirmwareBlobRecord {
    pub data: Option<Vec<u8>>,
    pub size: i32,
    pub filename: String,
    pub storage_key: Option<String>,
    pub storage_backend: String,
}

#[derive(Debug)]
pub struct FirmwareDownload {
    pub data: Vec<u8>,
    pub filename: String,
    pub size: i32,
}

/// A device-reported deployment status.
#[derive(Debug)]
pub struct OtaStatusUpdate {
    pub deployment_id: i32,
    pub firmware_update_id: Option<i32>,
    pub status: String,
    pub error_message: Option<String>,
    pub completed_at: Option<NaiveDateTime>,
}

} // verus!
