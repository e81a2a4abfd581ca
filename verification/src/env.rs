use crate::errors::opt_view;
use crate::text::str_equal;
use vstd::prelude::*;

verus! {

/// What `bool::from_str` reads: exactly `true` or `false`.
pub open spec fn parse_bool_spec(s: Seq<char>) -> Option<bool> {
    if s == "true"@ {
        Some(true)
    } else if s == "false"@ {
        Some(false)
    } else {
        None
    }
}

pub fn parse_bool(s: &str) -> (r: Option<bool>)
    ensures
        r == parse_bool_spec(s@),
{
    if str_equal(s, "true") {
        Some(true)
    } else if str_equal(s, "false") {
        Some(false)
    } else {
        None
    }
}

/// An optional flag: absent is `false`; present, it must read as a bool.
pub open spec fn flag_ok(v: Option<String>) -> bool {
    v matches Some(s) ==> parse_bool_spec(s@) is Some
}

pub open spec fn flag_value(v: Option<String>) -> bool {
    match v {
        Some(s) => parse_bool_spec(s@) == Some(true),
        None => false,
    }
}

fn flag(v: &Option<String>) -> (r: bool)
    requires
        flag_ok(*v),
    ensures
        r == flag_value(*v),
{
    match v {
        Some(s) => match parse_bool(s.as_str()) {
            Some(b) => b,
            None => vstd::pervasive::unreached(),
        },
        None => false,
    }
}

/// The variables of the process environment that configure the application,
/// as read (absent when unset).
pub struct EnvVars {
    pub env: Option<String>,
    pub port: Option<String>,
    pub with_lambda: Option<String>,
    pub database_url: Option<String>,
    pub s3_bucket_name: Option<String>,
    pub sns_async_task_topic_arn: Option<String>,
    pub sqs_async_task_queue_url: Option<String>,
    pub sync_task_lambda_arn: Option<String>,
    pub cognito_admin_user_pool_id: Option<String>,
    pub google_project_id: Option<String>,
    pub google_application_credentials_body: Option<String>,
    pub cloudfront_domain: Option<String>,
    pub cloudfront_key_pair_id: Option<String>,
    pub cloudfront_private_key: Option<String>,
}

/// The configuration of the application.
pub struct Env {
    pub env: String,
    pub port: String,
    pub with_lambda: bool,
    pub database_url: String,
    pub s3_bucket_name: String,
    pub sns_async_task_topic_arn: String,
    pub sqs_async_task_queue_url: String,
    pub sync_task_lambda_arn: String,
    pub cognito_admin_user_pool_id: String,
    pub google_project_id: Option<String>,
    /// The service-account key, as the JSON text of the environment.
    pub google_application_credentials: Option<String>,
    pub cloudfront_domain: Option<String>,
    pub cloudfront_key_pair_id: Option<String>,
    pub cloudfront_private_key: Option<String>,
}

/// The variables without which the application does not start, and the flag
/// that must read as a bool.
pub open spec fn vars_complete(v: EnvVars) -> bool {
    &&& v.env is Some
    &&& v.database_url is Some
    &&& v.s3_bucket_name is Some
    &&& v.sns_async_task_topic_arn is Some
    &&& v.sqs_async_task_queue_url is Some
    &&& v.cognito_admin_user_pool_id is Some
    &&& flag_ok(v.with_lambda)
}

/// Whether `serde_json` reads the text as a Google service-account key
/// (`yup_oauth2::ServiceAccountKey`: a JSON object whose `private_key`,
/// `client_email` and `token_uri` are text, and whose other known fields are
/// text, null or absent).
pub uninterp spec fn service_account_key_text(text: Seq<char>) -> bool;

/// `serde_json::from_str::<ServiceAccountKey>`: the claim is that it succeeds
/// exactly when `service_account_key_text` holds of the text.
#[verifier::external_body]
fn reads_as_service_account_key(text: &str) -> (r: bool)
    ensures
        r == service_account_key_text(text@),
{
    serde_json::from_str::<google_identitytoolkit3::yup_oauth2::ServiceAccountKey>(text).is_ok()
}

/// The service-account key text that the configuration keeps: the text when
/// it reads as a service-account key, nothing otherwise (a key that cannot be
/// read counts as no key).
pub open spec fn credentials_kept(v: Option<String>) -> Option<Seq<char>> {
    match v {
        Some(t) => if service_account_key_text(t@) {
            Some(t@)
        } else {
            None
        },
        None => None,
    }
}

fn keep_credentials(v: Option<String>) -> (r: Option<String>)
    ensures
        opt_view(r) == credentials_kept(v),
{
    match v {
        Some(t) => if reads_as_service_account_key(t.as_str()) {
            Some(t)
        } else {
            None
        },
        None => None,
    }
}

fn take_or(v: Option<String>, default: &str) -> (r: String)
    ensures
        r@ == (match v {
            Some(s) => s@,
            None => default@,
        }),
{
    match v {
        Some(s) => s,
        None => String::from_str(default),
    }
}

fn required(v: Option<String>) -> (r: String)
    requires
        v is Some,
    ensures
        r@ == v->0@,
{
    match v {
        Some(s) => s,
        None => vstd::pervasive::unreached(),
    }
}

impl Env {
    /// The configuration from the environment: the required variables as they
    /// are, the port 8080 and an empty task function unless set, `WITH_LAMBDA`
    /// false unless set, the service-account key only when it reads as one
    /// (see `credentials_kept`), the other optional ones as they are.
    pub fn from_vars(vars: EnvVars) -> (r: Env)
        requires
            vars_complete(vars),
        ensures
            r.env@ == vars.env->0@,
            r.port@ == (match vars.port {
                Some(s) => s@,
                None => "8080"@,
            }),
            r.with_lambda == flag_value(vars.with_lambda),
            r.database_url@ == vars.database_url->0@,
            r.s3_bucket_name@ == vars.s3_bucket_name->0@,
            r.sns_async_task_topic_arn@ == vars.sns_async_task_topic_arn->0@,
            r.sqs_async_task_queue_url@ == vars.sqs_async_task_queue_url->0@,
            r.sync_task_lambda_arn@ == (match vars.sync_task_lambda_arn {
                Some(s) => s@,
                None => Seq::<char>::empty(),
            }),
            r.cognito_admin_user_pool_id@ == vars.cognito_admin_user_pool_id->0@,
            opt_view(r.google_project_id) == opt_view(vars.google_project_id),
            opt_view(r.google_application_credentials) == credentials_kept(
                vars.google_application_credentials_body,
            ),
            opt_view(r.cloudfront_domain) == opt_view(vars.cloudfront_domain),
            opt_view(r.cloudfront_key_pair_id) == opt_view(vars.cloudfront_key_pair_id),
            opt_view(r.cloudfront_private_key) == opt_view(vars.cloudfront_private_key),
    {
        let with_lambda = flag(&vars.with_lambda);
        proof {
            reveal_strlit("");
        }
        Env {
            env: required(vars.env),
            port: take_or(vars.port, "8080"),
            with_lambda,
            database_url: required(vars.database_url),
            s3_bucket_name: required(vars.s3_bucket_name),
            sns_async_task_topic_arn: required(vars.sns_async_task_topic_arn),
            sqs_async_task_queue_url: required(vars.sqs_async_task_queue_url),
            sync_task_lambda_arn: take_or(vars.sync_task_lambda_arn, ""),
            cognito_admin_user_pool_id: required(vars.cognito_admin_user_pool_id),
            google_project_id: vars.google_project_id,
            google_application_credentials: keep_credentials(vars.google_application_credentials_body),
            cloudfront_domain: vars.cloudfront_domain,
            cloudfront_key_pair_id: vars.cloudfront_key_pair_id,
            cloudfront_private_key: vars.cloudfront_private_key,
        }
    }

    /// Whether this is the production environment.
    pub fn is_prod(&self) -> (r: bool)
        ensures
            r == (self.env@ == "prod"@),
    {
        str_equal(self.env.as_str(), "prod")
    }

    /// Whether the process runs locally (`IS_LOCAL`, false unless set).
    pub fn is_local(is_local_var: &Option<String>) -> (r: bool)
        requires
            flag_ok(*is_local_var),
        ensures
            r == flag_value(*is_local_var),
    {
        flag(is_local_var)
    }

    /// The CDN's domain, key pair and private key, when all three are set.
    pub fn cloudfront_settings(&self) -> (r: Option<(String, String, String)>)
        ensures
            r is Some <==> (self.cloudfront_domain is Some && self.cloudfront_key_pair_id is Some
                && self.cloudfront_private_key is Some),
            r matches Some(t) ==> t.0@ == self.cloudfront_domain->0@ && t.1@
                == self.cloudfront_key_pair_id->0@ && t.2@ == self.cloudfront_private_key->0@,
    {
        match (&self.cloudfront_domain, &self.cloudfront_key_pair_id, &self.cloudfront_private_key) {
            (Some(d), Some(k), Some(p)) => Some((d.clone(), k.clone(), p.clone())),
            _ => None,
        }
    }
}

} // verus!
