use vstd::prelude::*;
use vstd::slice::slice_to_vec;
use vstd::string::StringSliceAdditionalSpecFns;
use vstd::utf8::encode_utf8;

use crate::account::dns_01_txt_of;
use crate::client::Client;
use crate::error::Error;
use crate::json::{json_str_at, json_u64_at, str_at, u64_at};
use crate::order::{Authorization, Challenge};
use crate::text::{signed_decimal, signed_decimal_text};

verus! {

/// The helper script that publishes and removes DNS records.
pub const ACME_SH_PATH: &'static str = "/usr/share/proxmox-acme/proxmox-acme";

/// The program that runs the helper under a dropped identity.
pub const SETPRIV_PATH: &'static str = "/usr/bin/setpriv";

/// The default time, in seconds, to wait for DNS propagation after setup.
pub const DEFAULT_VALIDATION_DELAY: u32 = 30;

/// The path prefix an HTTP-01 challenge is served under.
pub const CHALLENGE_PATH_PREFIX: &'static str = "/.well-known/acme-challenge/";

/// The body of the HTTP-01 responder's not-found reply.
pub const NOT_FOUND_BODY: &'static str = "Not found.";

/// A domain of an order, with the alias its DNS records are published under.
pub struct AcmeDomain {
    /// The domain.
    pub domain: String,
    /// Where the challenge record is published instead, if anywhere.
    pub alias: Option<String>,
}

/// The configuration of a DNS-01 plugin.
pub struct DnsPlugin {
    /// The plugin's name.
    pub id: String,
    /// The DNS API identifier handed to the helper script.
    pub api: String,
    /// Free-form data for the helper (credentials and the like).
    pub data: String,
    /// Seconds to wait after setup for the record to propagate; 30 if unset.
    pub validation_delay: Option<u32>,
}

/// What one run of the DNS helper needs, and the URL to validate afterwards.
pub struct DnsRun {
    /// The challenge's validation URL.
    pub validation_url: String,
    /// The arguments of the privilege-dropping wrapper.
    pub args: Vec<String>,
    /// The helper's standard input.
    pub stdin: Vec<u8>,
}

/// The kinds of challenge plugins.
pub enum PluginKind {
    /// A DNS-01 plugin running the helper script.
    Dns,
    /// The built-in HTTP-01 standalone responder.
    Standalone,
}

/// Whether the `i`-th of `cs` is the first challenge of type `ty`.
pub open spec fn is_first_of_type(cs: Seq<Challenge>, ty: Seq<char>, i: int) -> bool {
    &&& 0 <= i < cs.len()
    &&& cs[i].ty@ == ty
    &&& forall|j: int| 0 <= j < i ==> cs[j].ty@ != ty
}

/// Whether the first challenge of type `ty` among `cs` exists and has a token.
pub open spec fn first_of_type_has_token(cs: Seq<Challenge>, ty: Seq<char>) -> bool {
    exists|i: int| #[trigger] is_first_of_type(cs, ty, i) && cs[i].token is Some
}

/// The message of the error for an authorization without a challenge of type `ty`.
pub open spec fn no_challenge_text(ty: Seq<char>) -> Seq<char> {
    "no supported challenge type ("@ + ty + ") found"@
}

/// The message of the error for a challenge without a token.
pub open spec fn missing_token_text() -> Seq<char> {
    "missing token in challenge"@
}

/// There is only one first challenge of a type.
pub proof fn lemma_first_of_type_unique(cs: Seq<Challenge>, ty: Seq<char>, i: int, k: int)
    requires
        is_first_of_type(cs, ty, i),
        is_first_of_type(cs, ty, k),
    ensures
        i == k,
{
    if i < k {
        assert(cs[i].ty@ != ty);
    } else if k < i {
        assert(cs[k].ty@ != ty);
    }
}

/// Picks the first challenge of type `ty`; where there is none, the
/// authorization cannot be handled by a plugin of that type.
pub fn extract_challenge<'a>(authorization: &'a Authorization, ty: &str) -> (r: Result<
    &'a Challenge,
    Error,
>)
    ensures
        r.is_ok() == (exists|i: int| 0 <= i < authorization.challenges@.len() && #[trigger] authorization.challenges@[i].ty@ == ty@),
        r matches Ok(c) ==> exists|i: int| #[trigger] is_first_of_type(authorization.challenges@, ty@, i) && *c == authorization.challenges@[i],
        r matches Err(e) ==> (e matches Error::Client(m) && m@ == no_challenge_text(ty@)),
{
    let wanted = String::from_str(ty);
    let mut i: usize = 0;
    while i < authorization.challenges.len()
        invariant
            i <= authorization.challenges@.len(),
            wanted@ == ty@,
            forall|j: int| 0 <= j < i ==> #[trigger] authorization.challenges@[j].ty@ != ty@,
        decreases authorization.challenges@.len() - i,
    {
        if authorization.challenges[i].ty == wanted {
            assert(is_first_of_type(authorization.challenges@, ty@, i as int));
            return Ok(&authorization.challenges[i]);
        }
        i = i + 1;
    }
    let mut text = String::from_str("no supported challenge type (");
    text.append(ty);
    text.append(") found");
    Err(Error::Client(text))
}

/// Picks the first challenge of type `ty` and its token.
pub fn challenge_with_token<'a>(authorization: &'a Authorization, ty: &str) -> (r: Result<
    (&'a Challenge, &'a str),
    Error,
>)
    ensures
        r.is_ok() == first_of_type_has_token(authorization.challenges@, ty@),
        r matches Ok((c, t)) ==> exists|i: int| #[trigger] is_first_of_type(authorization.challenges@, ty@, i)
            && *c == authorization.challenges@[i] && (c.token matches Some(tk) && tk@ == t@),
        r matches Err(e) ==> (e matches Error::Client(m) && (m@ == no_challenge_text(ty@) || m@
            == missing_token_text())),
{
    let challenge = extract_challenge(authorization, ty)?;
    let ghost cs = authorization.challenges@;
    let ghost i = choose|i: int| #[trigger] is_first_of_type(cs, ty@, i) && *challenge == cs[i];
    match challenge_token(challenge) {
        Ok(t) => {
            assert(is_first_of_type(cs, ty@, i) && cs[i].token is Some);
            Ok((challenge, t))
        },
        Err(e) => {
            assert forall|k: int| #[trigger] is_first_of_type(cs, ty@, k) implies cs[k].token is None by {
                lemma_first_of_type_unique(cs, ty@, i, k);
            }
            Err(e)
        },
    }
}

/// The token of a challenge; a challenge without one cannot be answered.
pub fn challenge_token(challenge: &Challenge) -> (r: Result<&str, Error>)
    ensures
        r.is_ok() == challenge.token.is_some(),
        r matches Ok(t) ==> t@ == challenge.token->Some_0@,
        r matches Err(e) ==> (e matches Error::Client(m) && m@ == missing_token_text()),
{
    match challenge.token() {
        Some(t) => Ok(t),
        None => Err(Error::Client(String::from_str("missing token in challenge"))),
    }
}

/// What the DNS helper reads on standard input: the TXT value, a newline,
/// the plugin data, and a newline unless the data already ends with one.
pub open spec fn dns_stdin_of(txt_value: Seq<u8>, data: Seq<u8>) -> Seq<u8> {
    let base = txt_value.push(10u8) + data;
    if base.last() == 10u8 { base } else { base.push(10u8) }
}

/// Builds the DNS helper's standard input from the TXT record value and the plugin data.
pub fn dns_stdin_data(txt_value: &[u8], data: &str) -> (r: Vec<u8>)
    ensures
        r@ == dns_stdin_of(txt_value@, data.spec_bytes()),
{
    let mut out = slice_to_vec(txt_value);
    out.push(10u8);
    let d = data.as_bytes();
    let mut i: usize = 0;
    while i < d.len()
        invariant
            i <= d@.len(),
            d@ == data.spec_bytes(),
            out@ == txt_value@.push(10u8) + d@.subrange(0, i as int),
        decreases d@.len() - i,
    {
        out.push(d[i]);
        i = i + 1;
        assert(d@.subrange(0, i as int) == d@.subrange(0, i - 1).push(d@[i - 1]));
    }
    assert(d@.subrange(0, d@.len() as int) == d@);
    if out[out.len() - 1] != 10u8 {
        out.push(10u8);
    }
    out
}

/// The arguments of the privilege-dropping wrapper that runs the helper for
/// `action` on `domain` (or its alias) with DNS API `api`.
pub open spec fn helper_args_of(action: Seq<char>, api: Seq<char>, target: Seq<char>) -> Seq<Seq<char>> {
    seq![
        "--reuid"@, "nobody"@, "--regid"@, "nogroup"@, "--clear-groups"@, "--reset-env"@, "--"@,
        "/bin/bash"@, ACME_SH_PATH@, action, api, target,
    ]
}

/// The domain the helper works on: the alias if there is one.
pub open spec fn helper_target(domain: AcmeDomain) -> Seq<char> {
    match domain.alias {
        Some(a) => a@,
        None => domain.domain@,
    }
}

/// The message of the error a helper that failed `action` with `code` gives.
pub open spec fn helper_failure_text(action: Seq<char>, code: int) -> Seq<char> {
    "'"@ + ACME_SH_PATH@ + " "@ + action + "' exited with error ("@ + signed_decimal_text(code) + ")"@
}

/// Whether `p` is the DNS plugin configuration the JSON text `body` describes.
pub open spec fn dns_plugin_from_body(p: DnsPlugin, body: Seq<u8>) -> bool {
    &&& json_str_at(body, "/id"@) == Some(p.id@)
    &&& json_str_at(body, "/api"@) == Some(p.api@)
    &&& json_str_at(body, "/data"@) == Some(p.data@)
    &&& match json_u64_at(body, "/validation-delay"@) {
        Some(d) => p.validation_delay == Some(d as u32),
        None => p.validation_delay is None,
    }
}

/// Whether the JSON text `body` is a complete DNS plugin configuration.
pub open spec fn dns_plugin_complete(body: Seq<u8>) -> bool {
    &&& json_str_at(body, "/id"@) is Some
    &&& json_str_at(body, "/api"@) is Some
    &&& json_str_at(body, "/data"@) is Some
    &&& json_u64_at(body, "/validation-delay"@) matches Some(d) ==> d <= u32::MAX
}

impl DnsPlugin {
    /// Reads a DNS plugin configuration from its JSON text: `id`, `api` and
    /// `data` strings and an optional `validation-delay` in seconds.
    pub fn from_json(body: &[u8]) -> (r: Result<DnsPlugin, Error>)
        ensures
            r.is_ok() == dns_plugin_complete(body@),
            r matches Ok(p) ==> dns_plugin_from_body(p, body@),
            r matches Err(e) ==> e is Client,
    {
        let id = str_at(body, "/id");
        let api = str_at(body, "/api");
        let data = str_at(body, "/data");
        let delay = u64_at(body, "/validation-delay");
        let validation_delay = match delay {
            Some(d) => {
                if d > 0xffff_ffff {
                    return Err(Error::Client(String::from_str("validation delay out of range")));
                }
                Some(d as u32)
            },
            None => None,
        };
        match (id, api, data) {
            (Some(id), Some(api), Some(data)) => Ok(DnsPlugin { id, api, data, validation_delay }),
            _ => Err(Error::Client(String::from_str("incomplete DNS plugin configuration"))),
        }
    }

    /// Seconds to wait after setup for the record to propagate.
    pub fn validation_delay_secs(&self) -> (r: u64)
        ensures
            r == match self.validation_delay {
                Some(d) => d as u64,
                None => DEFAULT_VALIDATION_DELAY as u64,
            },
    {
        match self.validation_delay {
            Some(d) => d as u64,
            None => DEFAULT_VALIDATION_DELAY as u64,
        }
    }

    /// The arguments for the privilege-dropping wrapper that runs the helper.
    pub fn helper_args(&self, action: &str, domain: &AcmeDomain) -> (r: Vec<String>)
        ensures
            r@.map_values(|s: String| s@) == helper_args_of(action@, self.api@, helper_target(*domain)),
    {
        let target = match &domain.alias {
            Some(a) => a.clone(),
            None => domain.domain.clone(),
        };
        let args: Vec<String> = vec![
            String::from_str("--reuid"), String::from_str("nobody"), String::from_str("--regid"),
            String::from_str("nogroup"), String::from_str("--clear-groups"),
            String::from_str("--reset-env"), String::from_str("--"), String::from_str("/bin/bash"),
            String::from_str(ACME_SH_PATH), String::from_str(action), self.api.clone(), target,
        ];
        assert(args@.map_values(|s: String| s@) =~= helper_args_of(action@, self.api@, helper_target(*domain)));
        args
    }

    /// The compute part of a helper run for `action` on `domain`: picks the
    /// first dns-01 challenge and its token, and builds the helper's arguments
    /// and standard input from the TXT value under the client's account key.
    /// It succeeds exactly when that challenge has a token and the client an account.
    pub fn prepare(
        &self,
        client: &Client,
        authorization: &Authorization,
        domain: &AcmeDomain,
        action: &str,
    ) -> (r: Result<DnsRun, Error>)
        ensures
            r.is_ok() == (client.account is Some && first_of_type_has_token(
                authorization.challenges@,
                "dns-01"@,
            )),
            r matches Ok(run) ==> exists|i: int|
                #[trigger] is_first_of_type(authorization.challenges@, "dns-01"@, i) && {
                    let c = authorization.challenges@[i];
                    &&& c.token matches Some(t)
                    &&& run.validation_url@ == c.url@
                    &&& client.account matches Some(a)
                    &&& run.stdin@ == dns_stdin_of(dns_01_txt_of(t@, a.thumbprint@), encode_utf8(self.data@))
                    &&& run.args@.map_values(|s: String| s@) == helper_args_of(action@, self.api@, helper_target(*domain))
                },
            r matches Err(e) ==> (e is Client || e is Unauthorized),
    {
        let (challenge, token) = challenge_with_token(authorization, "dns-01")?;
        let txt = client.dns_01_txt_value(token)?;
        let stdin = dns_stdin_data(txt.as_slice(), self.data.as_str());
        let args = self.helper_args(action, domain);
        Ok(DnsRun { validation_url: challenge.url.clone(), args, stdin })
    }

    /// Seconds to wait before returning from setup: the propagation delay
    /// after a setup that succeeded, none after one that failed.
    pub fn wait_after_setup(&self, setup_succeeded: bool) -> (r: u64)
        ensures
            r == if setup_succeeded {
                match self.validation_delay {
                    Some(d) => d as u64,
                    None => DEFAULT_VALIDATION_DELAY as u64,
                }
            } else {
                0
            },
    {
        if setup_succeeded {
            self.validation_delay_secs()
        } else {
            0
        }
    }
}

/// The outcome of a helper run that exited normally or not, with its exit
/// code if it had one; a missing code (killed by a signal) counts as -1.
pub fn helper_status(action: &str, success: bool, code: Option<i32>) -> (r: Result<(), Error>)
    ensures
        r.is_ok() == success,
        r matches Err(Error::Client(m)) ==> m@ == helper_failure_text(
            action@,
            match code {
                Some(c) => c as int,
                None => -1,
            },
        ),
        r matches Err(e) ==> e is Client,
{
    if success {
        return Ok(());
    }
    let c: i32 = match code {
        Some(c) => c,
        None => -1,
    };
    let mut text = String::from_str("'");
    text.append(ACME_SH_PATH);
    text.append(" ");
    text.append(action);
    text.append("' exited with error (");
    let digits = signed_decimal(c);
    text.append(digits.as_str());
    text.append(")");
    Err(Error::Client(text))
}

/// Picks the plugin kind for a configured type tag.
pub fn plugin_kind(ty: &str) -> (r: Result<PluginKind, Error>)
    ensures
        ty@ == "dns"@ ==> r matches Ok(PluginKind::Dns),
        ty@ == "standalone"@ ==> r matches Ok(PluginKind::Standalone),
        ty@ != "dns"@ && ty@ != "standalone"@ ==> (r matches Err(Error::Client(m)) && m@
            == "missing implementation for plugin type '"@ + ty@ + "'"@),
{
    proof {
        reveal_strlit("dns");
        reveal_strlit("standalone");
    }
    assert("dns"@.len() != "standalone"@.len());
    let t = String::from_str(ty);
    if t == String::from_str("dns") {
        Ok(PluginKind::Dns)
    } else if t == String::from_str("standalone") {
        Ok(PluginKind::Standalone)
    } else {
        let mut text = String::from_str("missing implementation for plugin type '");
        text.append(ty);
        text.append("'");
        Err(Error::Client(text))
    }
}

/// The request path an HTTP-01 challenge with `token` is served under.
pub fn challenge_path(token: &str) -> (r: String)
    ensures
        r@ == CHALLENGE_PATH_PREFIX@ + token@,
{
    let mut p = String::from_str(CHALLENGE_PATH_PREFIX);
    p.append(token);
    p
}

/// The HTTP-01 responder's single route: a GET of exactly `path` gets 200
/// and the key authorization, anything else 404.
pub fn standalone_respond(is_get: bool, request_path: &str, path: &str, key_auth: &str) -> (r: (
    u16,
    Vec<u8>,
))
    ensures
        is_get && request_path@ == path@ ==> r.0 == 200 && r.1@ == key_auth.spec_bytes(),
        !(is_get && request_path@ == path@) ==> r.0 == 404 && r.1@ == NOT_FOUND_BODY.spec_bytes(),
{
    if is_get && String::from_str(request_path) == String::from_str(path) {
        (200, slice_to_vec(key_auth.as_bytes()))
    } else {
        (404, slice_to_vec(NOT_FOUND_BODY.as_bytes()))
    }
}

} // verus!
