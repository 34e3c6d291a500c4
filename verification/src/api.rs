//! Values exchanged with the remote test-execution service, and the pure
//! request-assembly rules applied before anything is sent.
//!
//! The HTTP transport itself lives outside the library; callers hand in and
//! receive plain values.

use std::collections::HashMap;

use vstd::prelude::*;

use crate::errors::ApiError;
use crate::errors::EnvArgError;
use crate::strutil::find_char;

verus! {

/// Response to submitting a run.
#[derive(Debug, Clone, PartialEq, Eq)]
pub struct CreateRunResponse {
    pub run_id: String,
    pub status: String,
}

/// Response to requesting an access token.
#[derive(Debug, Clone, PartialEq, Eq)]
pub struct GetTokenResponse {
    pub token: String,
}

/// One entry of an artifact listing: a file or a directory.
#[derive(Debug, Clone, PartialEq, Eq)]
pub struct Artifact {
    pub id: String,
    pub name: String,
    pub is_file: bool,
}

impl Artifact {
    /// An equal copy of this artifact.
    pub fn duplicate(&self) -> (r: Artifact)
        ensures
            r == *self,
    {
        Artifact { id: self.id.clone(), name: self.name.clone(), is_file: self.is_file }
    }
}

/// One device of the service's Android catalog.
#[derive(Debug, Clone, PartialEq, Eq)]
pub struct AndroidDevice {
    pub name: String,
    pub id: String,
    pub manufacturer: String,
    pub width: u32,
    pub height: u32,
    pub dpi: u32,
}

/// Status of a run as the service reports it. `completed` and
/// `total_run_time_millis` carry the timestamp and the duration as plain
/// milliseconds; `completed` is present exactly on terminal states.
#[derive(Debug, Clone, PartialEq, Eq)]
pub struct TestRun {
    pub id: String,
    pub state: String,
    pub passed: Option<u32>,
    pub failed: Option<u32>,
    pub ignored: Option<u32>,
    pub completed: Option<u64>,
    pub total_run_time_millis: Option<u64>,
    pub error_message: Option<String>,
}

impl TestRun {
    /// An equal copy of this status record.
    pub fn duplicate(&self) -> (r: TestRun)
        ensures
            r == *self,
    {
        TestRun {
            id: self.id.clone(),
            state: self.state.clone(),
            passed: self.passed,
            failed: self.failed,
            ignored: self.ignored,
            completed: self.completed,
            total_run_time_millis: self.total_run_time_millis,
            error_message: match &self.error_message {
                Some(m) => Some(m.clone()),
                None => None,
            },
        }
    }
}

/// Remove one trailing `/` from a base URL, if present.
pub fn sanitize_base_url(base_url: &str) -> (r: String)
    ensures
        base_url@.len() > 0 && base_url@.last() == '/' ==> r@ == base_url@.take(
            base_url@.len() - 1,
        ),
        !(base_url@.len() > 0 && base_url@.last() == '/') ==> r@ == base_url@,
{
    let len = base_url.unicode_len();
    if len > 0 && base_url.get_char(len - 1) == '/' {
        base_url.substring_char(0, len - 1).to_owned()
    } else {
        base_url.to_owned()
    }
}

/// Sort the outcome of an HTTP exchange by status code, as the service's
/// clients must: `401`/`403` point at the credentials, any other code in the
/// error range carries code and body, and codes below `400` are no error.
pub fn api_error_for_status(status: u16, error: String, body: String) -> (r: Option<ApiError>)
    ensures
        status == 401 || status == 403 ==> (r matches Some(
            ApiError::InvalidAuthenticationToken { error: e },
        ) && e == error),
        (400 <= status < 600 && status != 401 && status != 403) ==> (r matches Some(
            ApiError::RequestFailedWithCode { status_code, error: e, body: b },
        ) && status_code == status && e == error && b == body),
        !(400 <= status < 600) ==> r is None,
{
    if status == 401 || status == 403 {
        Some(ApiError::InvalidAuthenticationToken { error })
    } else if 400 <= status && status < 600 {
        Some(ApiError::RequestFailedWithCode { status_code: status, error, body })
    } else {
        None
    }
}

/// `i` is the position of the first `=` in `s`.
pub open spec fn is_first_eq(s: Seq<char>, i: int) -> bool {
    &&& 0 <= i < s.len()
    &&& s[i] == '='
    &&& forall|j: int| 0 <= j < i ==> s[j] != '='
}

/// A usable `KEY=VALUE` argument: it has an `=` and a non-empty value.
pub open spec fn env_arg_ok(arg: Seq<char>) -> bool {
    exists|i: int| is_first_eq(arg, i) && i + 1 < arg.len()
}

/// `(key, value)` is the split of `arg` at its first `=`.
pub open spec fn env_pair_matches(arg: Seq<char>, key: Seq<char>, value: Seq<char>) -> bool {
    exists|i: int|
        {
            &&& #[trigger] is_first_eq(arg, i)
            &&& key == arg.take(i)
            &&& value == arg.skip(i + 1)
        }
}

/// Split one `KEY=VALUE` argument at its first `=`.
pub fn parse_env_arg(arg: &String) -> (r: Result<(String, String), EnvArgError>)
    ensures
        r matches Ok(pair) ==> env_arg_ok(arg@) && env_pair_matches(arg@, pair.0@, pair.1@),
        r is Ok <==> env_arg_ok(arg@),
        r matches Err(EnvArgError::InvalidKeyValue { env_arg }) ==> !arg@.contains('=') && env_arg@
            == arg@,
        r matches Err(EnvArgError::MissingValue { env_arg }) ==> arg@.contains('=') && env_arg@
            == arg@,
{
    let s = arg.as_str();
    let len = s.unicode_len();
    let first = find_char(s, '=');
    match first {
        None => {
            proof {
                assert(!arg@.contains('='));
                assert forall|i: int| !(is_first_eq(arg@, i) && i + 1 < arg@.len()) by {}
            }
            Err(EnvArgError::InvalidKeyValue { env_arg: arg.clone() })
        },
        Some(i) => {
            assert(is_first_eq(arg@, i as int));
            assert(arg@.contains('='));
            if i + 1 == len {
                proof {
                    assert forall|j: int| is_first_eq(arg@, j) implies j == i as int by {
                        if j < i as int {
                            assert(arg@[j] != '=');
                        }
                        if i < j {
                            assert(arg@[i as int] != '=');
                        }
                    }
                }
                Err(EnvArgError::MissingValue { env_arg: arg.clone() })
            } else {
                let key = s.substring_char(0, i).to_owned();
                let value = s.substring_char(i + 1, len).to_owned();
                assert(env_pair_matches(arg@, key@, value@));
                Ok((key, value))
            }
        },
    }
}

/// Parse every `KEY=VALUE` argument, stopping at the first bad one.
pub fn parse_env_args(args: &Vec<String>) -> (r: Result<Vec<(String, String)>, EnvArgError>)
    ensures
        r matches Ok(pairs) ==> {
            &&& pairs@.len() == args@.len()
            &&& forall|k: int|
                0 <= k < args@.len() ==> env_pair_matches(
                    #[trigger] args@[k]@,
                    pairs@[k].0@,
                    pairs@[k].1@,
                )
        },
        r is Ok <==> (forall|k: int| 0 <= k < args@.len() ==> env_arg_ok(#[trigger] args@[k]@)),
        r matches Err(e) ==> exists|k: int|
            {
                &&& 0 <= k < args@.len()
                &&& !env_arg_ok(#[trigger] args@[k]@)
                &&& (forall|m: int| 0 <= m < k ==> env_arg_ok(#[trigger] args@[m]@))
                &&& (e matches EnvArgError::InvalidKeyValue { env_arg } ==> !args@[k]@.contains('=')
                    && env_arg@ == args@[k]@)
                &&& (e matches EnvArgError::MissingValue { env_arg } ==> args@[k]@.contains('=')
                    && env_arg@ == args@[k]@)
            },
{
    let mut pairs: Vec<(String, String)> = Vec::new();
    let n = args.len();
    let mut k: usize = 0;
    while k < n
        invariant
            n == args@.len(),
            k <= n,
            pairs@.len() == k,
            forall|m: int| 0 <= m < k ==> env_arg_ok(#[trigger] args@[m]@),
            forall|m: int|
                0 <= m < k ==> env_pair_matches(
                    #[trigger] args@[m]@,
                    pairs@[m].0@,
                    pairs@[m].1@,
                ),
        decreases n - k,
    {
        let parsed = parse_env_arg(&args[k]);
        match parsed {
            Ok(pair) => {
                pairs.push(pair);
            },
            Err(e) => {
                return Err(e);
            },
        }
        k = k + 1;
    }
    Ok(pairs)
}

/// Turn optional `KEY=VALUE` arguments into a map, as the wire format wants
/// them. The pairs themselves are pinned down by [`parse_env_args`]; the map
/// holds exactly those pairs, later entries overriding earlier ones.
pub fn vec_to_hashmap(vec: Option<Vec<String>>) -> (r: Result<
    Option<HashMap<String, String>>,
    EnvArgError,
>)
    ensures
        vec is None ==> (r matches Ok(m) && m is None),
        vec matches Some(args) ==> {
            &&& (r is Ok <==> (forall|k: int| 0 <= k < args@.len() ==> env_arg_ok(
                #[trigger] args@[k]@,
            )))
            &&& (r matches Ok(m) ==> m is Some)
            &&& (r matches Err(e) ==> exists|k: int|
                {
                    &&& 0 <= k < args@.len()
                    &&& !env_arg_ok(#[trigger] args@[k]@)
                    &&& (e matches EnvArgError::InvalidKeyValue { env_arg } ==> env_arg@
                        == args@[k]@)
                    &&& (e matches EnvArgError::MissingValue { env_arg } ==> env_arg@
                        == args@[k]@)
                })
        },
{
    match vec {
        None => Ok(None),
        Some(args) => {
            let pairs = parse_env_args(&args)?;
            let mut map: HashMap<String, String> = HashMap::new();
            let n = pairs.len();
            let mut k: usize = 0;
            while k < n
                invariant
                    n == pairs@.len(),
                    k <= n,
                decreases n - k,
            {
                let key = pairs[k].0.clone();
                let value = pairs[k].1.clone();
                map.insert(key, value);
                k = k + 1;
            }
            Ok(Some(map))
        },
    }
}

/// One bundle of the submit payload, by its uploaded handles.
#[derive(Debug, Clone, PartialEq, Eq)]
pub struct CreateRunBundle {
    pub s3_test_app_path: String,
    pub s3_app_path: Option<String>,
}

/// The submit payload, over plain values. The filtering and pull-file
/// configurations arrive already serialized; the environment maps are
/// key-value pairs in argument order.
#[derive(Debug, PartialEq, Eq)]
pub struct CreateRunRequest {
    pub platform: String,
    pub s3_test_app_path: Option<String>,
    pub s3_app_path: Option<String>,
    pub analytics_read_only: Option<bool>,
    pub profiling: Option<bool>,
    pub code_coverage: Option<bool>,
    pub concurrency_limit: Option<u32>,
    pub country: Option<String>,
    pub device: Option<String>,
    pub filtering_configuration: Option<String>,
    pub flavor: Option<String>,
    pub isolated: Option<bool>,
    pub language: Option<String>,
    pub link: Option<String>,
    pub name: Option<String>,
    pub branch: Option<String>,
    pub os_version: Option<String>,
    pub project: Option<String>,
    pub pull_file_config: Option<String>,
    pub retry_quota_test_preventive: Option<u32>,
    pub retry_quota_test_reactive: Option<u32>,
    pub retry_quota_test_uncompleted: Option<u32>,
    pub system_image: Option<String>,
    pub xcode_version: Option<String>,
    pub test_timeout_default: Option<u32>,
    pub test_timeout_max: Option<u32>,
    pub env_args: Option<Vec<(String, String)>>,
    pub test_env_args: Option<Vec<(String, String)>>,
    pub bundles: Option<Vec<CreateRunBundle>>,
}

/// The bundle list of a submit payload: the uploaded application bundles
/// first, each pairing an application and a test application, then the
/// library bundles, which bring only a test application.
pub fn assemble_bundles(
    application_bundles: &Vec<(String, String)>,
    library_bundles: &Vec<String>,
) -> (r: Vec<CreateRunBundle>)
    ensures
        r@.len() == application_bundles@.len() + library_bundles@.len(),
        forall|i: int|
            0 <= i < application_bundles@.len() ==> #[trigger] r@[i] == (CreateRunBundle {
                s3_app_path: Some(application_bundles@[i].0),
                s3_test_app_path: application_bundles@[i].1,
            }),
        forall|i: int|
            0 <= i < library_bundles@.len() ==> #[trigger] r@[application_bundles@.len() + i]
                == (CreateRunBundle {
                s3_app_path: None,
                s3_test_app_path: library_bundles@[i],
            }),
{
    let mut r: Vec<CreateRunBundle> = Vec::new();
    let na = application_bundles.len();
    let mut i: usize = 0;
    while i < na
        invariant
            na == application_bundles@.len(),
            i <= na,
            r@.len() == i,
            forall|k: int|
                0 <= k < i ==> #[trigger] r@[k] == (CreateRunBundle {
                    s3_app_path: Some(application_bundles@[k].0),
                    s3_test_app_path: application_bundles@[k].1,
                }),
        decreases na - i,
    {
        let app = application_bundles[i].0.clone();
        let test_app = application_bundles[i].1.clone();
        r.push(CreateRunBundle { s3_test_app_path: test_app, s3_app_path: Some(app) });
        i = i + 1;
    }
    let nl = library_bundles.len();
    let mut j: usize = 0;
    while j < nl
        invariant
            na == application_bundles@.len(),
            nl == library_bundles@.len(),
            j <= nl,
            r@.len() == na + j,
            forall|k: int|
                0 <= k < na ==> #[trigger] r@[k] == (CreateRunBundle {
                    s3_app_path: Some(application_bundles@[k].0),
                    s3_test_app_path: application_bundles@[k].1,
                }),
            forall|k: int|
                0 <= k < j ==> #[trigger] r@[na + k] == (CreateRunBundle {
                    s3_app_path: None,
                    s3_test_app_path: library_bundles@[k],
                }),
        decreases nl - j,
    {
        let test_app = library_bundles[j].clone();
        r.push(CreateRunBundle { s3_test_app_path: test_app, s3_app_path: None });
        j = j + 1;
    }
    r
}

/// Every argument of an optional `KEY=VALUE` list is usable.
pub open spec fn env_args_ok(args: Option<Vec<String>>) -> bool {
    match args {
        None => true,
        Some(v) => forall|k: int| 0 <= k < v@.len() ==> env_arg_ok((#[trigger] v@[k])@),
    }
}

/// The pairs of a parsed optional `KEY=VALUE` list.
pub open spec fn env_map_matches(
    args: Option<Vec<String>>,
    pairs: Option<Vec<(String, String)>>,
) -> bool {
    match args {
        None => pairs is None,
        Some(v) => pairs matches Some(ps) && ps@.len() == v@.len() && (forall|k: int|
            0 <= k < v@.len() ==> env_pair_matches(
                (#[trigger] v@[k])@,
                ps@[k].0@,
                ps@[k].1@,
            )),
    }
}

/// Build the submit payload from the uploaded handles and the run
/// parameters. Every field carries over unchanged; the environment lists
/// are parsed into pairs, the bundles joined into one list, and `country`
/// and `language` are never set. A bad environment argument refuses the
/// whole request.
pub fn build_create_run_request(
    platform: String,
    s3_app_path: Option<String>,
    s3_test_app_path: Option<String>,
    name: Option<String>,
    link: Option<String>,
    branch: Option<String>,
    os_version: Option<String>,
    system_image: Option<String>,
    device: Option<String>,
    xcode_version: Option<String>,
    isolated: Option<bool>,
    code_coverage: Option<bool>,
    retry_quota_test_uncompleted: Option<u32>,
    retry_quota_test_preventive: Option<u32>,
    retry_quota_test_reactive: Option<u32>,
    analytics_read_only: Option<bool>,
    profiling: Option<bool>,
    filtering_configuration: Option<String>,
    flavor: Option<String>,
    env_args: Option<Vec<String>>,
    test_env_args: Option<Vec<String>>,
    pull_file_config: Option<String>,
    concurrency_limit: Option<u32>,
    test_timeout_default: Option<u32>,
    test_timeout_max: Option<u32>,
    project: Option<String>,
    application_bundles: &Vec<(String, String)>,
    library_bundles: &Vec<String>,
) -> (r: Result<CreateRunRequest, EnvArgError>)
    ensures
        r is Ok <==> env_args_ok(env_args) && env_args_ok(test_env_args),
        r matches Ok(req) ==> {
            &&& req.platform == platform
            &&& req.s3_app_path == s3_app_path
            &&& req.s3_test_app_path == s3_test_app_path
            &&& req.name == name
            &&& req.link == link
            &&& req.branch == branch
            &&& req.os_version == os_version
            &&& req.system_image == system_image
            &&& req.device == device
            &&& req.xcode_version == xcode_version
            &&& req.isolated == isolated
            &&& req.code_coverage == code_coverage
            &&& req.retry_quota_test_uncompleted == retry_quota_test_uncompleted
            &&& req.retry_quota_test_preventive == retry_quota_test_preventive
            &&& req.retry_quota_test_reactive == retry_quota_test_reactive
            &&& req.analytics_read_only == analytics_read_only
            &&& req.profiling == profiling
            &&& req.filtering_configuration == filtering_configuration
            &&& req.flavor == flavor
            &&& req.pull_file_config == pull_file_config
            &&& req.concurrency_limit == concurrency_limit
            &&& req.test_timeout_default == test_timeout_default
            &&& req.test_timeout_max == test_timeout_max
            &&& req.project == project
            &&& req.country is None
            &&& req.language is None
            &&& env_map_matches(env_args, req.env_args)
            &&& env_map_matches(test_env_args, req.test_env_args)
            &&& (application_bundles@.len() + library_bundles@.len() == 0 ==> req.bundles is None)
            &&& (application_bundles@.len() + library_bundles@.len() > 0 ==> (
            req.bundles matches Some(bs) && bs@.len() == application_bundles@.len()
                + library_bundles@.len() && (forall|i: int|
                0 <= i < application_bundles@.len() ==> #[trigger] bs@[i] == (CreateRunBundle {
                    s3_app_path: Some(application_bundles@[i].0),
                    s3_test_app_path: application_bundles@[i].1,
                })) && (forall|i: int|
                0 <= i < library_bundles@.len() ==> #[trigger] bs@[application_bundles@.len() + i]
                    == (CreateRunBundle {
                    s3_app_path: None,
                    s3_test_app_path: library_bundles@[i],
                }))))
        },
{
    let env_pairs: Option<Vec<(String, String)>> = match env_args {
        None => None,
        Some(args) => Some(parse_env_args(&args)?),
    };
    let test_env_pairs: Option<Vec<(String, String)>> = match test_env_args {
        None => None,
        Some(args) => Some(parse_env_args(&args)?),
    };
    let assembled = assemble_bundles(application_bundles, library_bundles);
    let bundles = if assembled.len() == 0 {
        None
    } else {
        Some(assembled)
    };
    Ok(
        CreateRunRequest {
            platform,
            s3_test_app_path,
            s3_app_path,
            analytics_read_only,
            profiling,
            code_coverage,
            concurrency_limit,
            country: None,
            device,
            filtering_configuration,
            flavor,
            isolated,
            language: None,
            link,
            name,
            branch,
            os_version,
            project,
            pull_file_config,
            retry_quota_test_preventive,
            retry_quota_test_reactive,
            retry_quota_test_uncompleted,
            system_image,
            xcode_version,
            test_timeout_default,
            test_timeout_max,
            env_args: env_pairs,
            test_env_args: test_env_pairs,
            bundles,
        },
    )
}

/// Byte-level progress of one upload. The transferred count is clamped to
/// the total read from the file's metadata before streaming began.
pub struct UploadProgress {
    pub total: u64,
    pub sent: u64,
}

impl UploadProgress {
    /// Never more sent than the total.
    pub open spec fn wf(self) -> bool {
        self.sent <= self.total
    }

    /// Progress for an upload of `total` bytes.
    pub fn new(total: u64) -> (r: UploadProgress)
        ensures
            r.wf(),
            r.total == total,
            r.sent == 0,
    {
        UploadProgress { total, sent: 0 }
    }

    /// Record one transferred chunk; the count saturates at the total.
    pub fn on_chunk(&mut self, len: u64)
        requires
            old(self).wf(),
        ensures
            final(self).wf(),
            final(self).total == old(self).total,
            old(self).sent + len <= old(self).total ==> final(self).sent == old(self).sent + len,
            old(self).sent + len > old(self).total ==> final(self).sent == old(self).total,
    {
        if len <= self.total - self.sent {
            self.sent = self.sent + len;
        } else {
            self.sent = self.total;
        }
    }

    /// Whether the whole file has been transferred.
    pub fn finished(&self) -> (r: bool)
        ensures
            r == (self.sent == self.total),
    {
        self.sent == self.total
    }
}

} // verus!
