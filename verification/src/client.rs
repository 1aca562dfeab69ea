//! The client of the account API: who it is, which cache policy each of its
//! calls runs under, what each call sends, and what it makes of the answer.

use vstd::prelude::*;
use vstd::string::StringExecFns;
use crate::coordinator::Coordinator;
use crate::http::{field, Field, HttpMethod, HttpRequest, HttpRequestView};
use crate::identity::{client_id_for, client_id_of};
use crate::http::rejects_credentials;
use crate::options::{CacheComputeResult, CacheGetOptions, OptionsView};
use crate::responses::LoginAccountResponse;

verus! {

/// Twelve hours, in milliseconds.
pub const HALF_DAY: u64 = 43_200_000;

/// One day, in milliseconds.
pub const ONE_DAY: u64 = 86_400_000;

/// Seven days, in milliseconds.
pub const ONE_WEEK: u64 = 604_800_000;

/// The version of the vendor's application that the client gives itself out
/// as.
pub open spec fn app_version() -> Seq<char> {
    "5.6.01"@
}

/// The `User-Agent` of every request.
pub open spec fn user_agent_text() -> Seq<char> {
    "GoveeHome/"@ + app_version()
        + " (com.ihoment.GoVeeSensor; build:2; iOS 16.5.0) Alamofire/5.6.4"@
}

/// The `User-Agent` of every request.
pub fn user_agent() -> (agent: String)
    ensures
        agent@ == user_agent_text(),
{
    String::from_str("GoveeHome/").concat("5.6.01").concat(
        " (com.ihoment.GoVeeSensor; build:2; iOS 16.5.0) Alamofire/5.6.4",
    )
}

/// The topic under which everything of this client is cached.
pub open spec fn topic() -> Seq<char> {
    "undoc-api"@
}

/// The policy of a call that must not serve stale data: one tier of twelve
/// hours, failures remembered for ten seconds.
pub open spec fn strict_policy(key: Seq<char>, soft_ttl: nat) -> OptionsView {
    OptionsView {
        topic: topic(),
        key,
        soft_ttl,
        hard_ttl: HALF_DAY as nat,
        negative_ttl: 10_000,
        allow_stale: false,
    }
}

/// The policy of a listing that may be served stale: stale after a day,
/// gone after a week, failures remembered for one second.
pub open spec fn lenient_policy(key: Seq<char>) -> OptionsView {
    OptionsView {
        topic: topic(),
        key,
        soft_ttl: ONE_DAY as nat,
        hard_ttl: ONE_WEEK as nat,
        negative_ttl: 1_000,
        allow_stale: true,
    }
}

/// The cache key of the scenes of the device model `sku`.
pub open spec fn scenes_key_text(sku: Seq<char>) -> Seq<char> {
    "scenes-"@ + sku
}

/// The headers of a request made on behalf of a logged-in account.
pub open spec fn account_headers(
    client_id: Seq<char>,
    token: Seq<char>,
    timestamp: Seq<char>,
) -> Seq<(Seq<char>, Seq<char>)> {
    seq![
        ("Authorization"@, "Bearer "@ + token),
        ("appVersion"@, app_version()),
        ("clientId"@, client_id),
        ("clientType"@, "1"@),
        ("iotVersion"@, "0"@),
        ("timestamp"@, timestamp),
        ("User-Agent"@, user_agent_text()),
    ]
}

/// The account that the client acts for.
#[derive(Clone, Debug)]
pub struct GoveeUndocumentedApi {
    email: String,
    password: String,
    client_id: String,
}

/// The mathematical content of a [`GoveeUndocumentedApi`].
pub struct ApiView {
    pub email: Seq<char>,
    pub password: Seq<char>,
    pub client_id: Seq<char>,
}

impl View for GoveeUndocumentedApi {
    type V = ApiView;

    closed spec fn view(&self) -> ApiView {
        ApiView { email: self.email@, password: self.password@, client_id: self.client_id@ }
    }
}

impl ApiView {
    /// What asks for the key material of the message broker.
    pub open spec fn iot_key_request(self, token: Seq<char>, timestamp: Seq<char>) -> HttpRequestView {
        HttpRequestView {
            method: HttpMethod::Get,
            url: "https://app2.govee.com/app/v1/account/iot/key"@,
            timeout_secs: 30,
            headers: account_headers(self.client_id, token, timestamp),
            json_body: None,
        }
    }

    /// What logs the account in.
    pub open spec fn login_account_request(self) -> HttpRequestView {
        HttpRequestView {
            method: HttpMethod::Post,
            url: "https://app2.govee.com/account/rest/account/v1/login"@,
            timeout_secs: 30,
            headers: Seq::empty(),
            json_body: Some(
                seq![
                    ("email"@, self.email),
                    ("password"@, self.password),
                    ("client"@, self.client_id),
                ],
            ),
        }
    }

    /// What asks for the devices of the account.
    pub open spec fn device_list_request(self, token: Seq<char>, timestamp: Seq<char>) -> HttpRequestView {
        HttpRequestView {
            method: HttpMethod::Post,
            url: "https://app2.govee.com/device/rest/devices/v1/list"@,
            timeout_secs: 30,
            headers: account_headers(self.client_id, token, timestamp),
            json_body: None,
        }
    }

    /// What logs the account in to the community service.
    pub open spec fn login_community_request(self) -> HttpRequestView {
        HttpRequestView {
            method: HttpMethod::Post,
            url: "https://community-api.govee.com/os/v1/login"@,
            timeout_secs: 60,
            headers: Seq::empty(),
            json_body: Some(seq![("email"@, self.email), ("password"@, self.password)]),
        }
    }

    /// What asks for the shortcuts that the account has saved.
    pub open spec fn one_click_request(
        self,
        community_token: Seq<char>,
        timestamp: Seq<char>,
    ) -> HttpRequestView {
        HttpRequestView {
            method: HttpMethod::Get,
            url: "https://app2.govee.com/bff-app/v1/exec-plat/home"@,
            timeout_secs: 10,
            headers: account_headers(self.client_id, community_token, timestamp),
            json_body: None,
        }
    }
}

/// What asks for the scenes of the device model `sku`.
pub open spec fn scenes_request_view(sku: Seq<char>) -> HttpRequestView {
    HttpRequestView {
        method: HttpMethod::Get,
        url: "https://app2.govee.com/appsku/v1/light-effect-libraries?sku="@ + sku,
        timeout_secs: 10,
        headers: seq![("AppVersion"@, app_version()), ("User-Agent"@, user_agent_text())],
        json_body: None,
    }
}

/// The time-to-live of an account login whose token the service renews
/// every `token_expire_cycle` seconds.
pub open spec fn account_token_ttl(token_expire_cycle: u32) -> nat {
    token_expire_cycle as nat * 1000
}

/// The time-to-live at `now` of a community token that expires at
/// `expired_at`, both in milliseconds since the epoch: the time that is left
/// to it, and a day at most.
pub open spec fn community_token_ttl(expired_at: nat, now: nat) -> nat {
    if expired_at - now < ONE_DAY {
        (expired_at - now) as nat
    } else {
        ONE_DAY as nat
    }
}

impl GoveeUndocumentedApi {
    /// The client for an account, with the client identifier that belongs to
    /// its email address.
    pub fn new(email: String, password: String) -> (api: GoveeUndocumentedApi)
        ensures
            api@ == (ApiView {
                email: email@,
                password: password@,
                client_id: client_id_of(email@),
            }),
            api@.client_id.len() == 32,
    {
        let client_id = client_id_for(email.as_str());
        GoveeUndocumentedApi::with_client_id(email, password, client_id)
    }

    /// The client for an account under a client identifier that is already
    /// known.
    pub fn with_client_id(email: String, password: String, client_id: String) -> (api:
        GoveeUndocumentedApi)
        ensures
            api@ == (ApiView { email: email@, password: password@, client_id: client_id@ }),
    {
        GoveeUndocumentedApi { email, password, client_id }
    }

    pub fn email(&self) -> (r: &String)
        ensures
            r@ == self@.email,
    {
        &self.email
    }

    pub fn password(&self) -> (r: &String)
        ensures
            r@ == self@.password,
    {
        &self.password
    }

    pub fn client_id(&self) -> (r: &String)
        ensures
            r@ == self@.client_id,
    {
        &self.client_id
    }

    /// The policy under which the key material of the message broker is
    /// cached.
    pub fn iot_key_options() -> (options: CacheGetOptions<'static>)
        ensures
            options@ == strict_policy("iot-key"@, HALF_DAY as nat),
    {
        CacheGetOptions {
            topic: "undoc-api",
            key: "iot-key",
            soft_ttl: HALF_DAY,
            hard_ttl: HALF_DAY,
            negative_ttl: 10_000,
            allow_stale: false,
        }
    }

    /// The policy under which the account login is cached. The login itself
    /// declares how long it lasts.
    pub fn account_login_options() -> (options: CacheGetOptions<'static>)
        ensures
            options@ == strict_policy("account-info"@, HALF_DAY as nat),
    {
        CacheGetOptions {
            topic: "undoc-api",
            key: "account-info",
            soft_ttl: HALF_DAY,
            hard_ttl: HALF_DAY,
            negative_ttl: 10_000,
            allow_stale: false,
        }
    }

    /// The policy under which the community login is cached. The login
    /// itself declares how long it lasts.
    pub fn community_login_options() -> (options: CacheGetOptions<'static>)
        ensures
            options@ == strict_policy("community-login"@, ONE_DAY as nat),
    {
        CacheGetOptions {
            topic: "undoc-api",
            key: "community-login",
            soft_ttl: ONE_DAY,
            hard_ttl: HALF_DAY,
            negative_ttl: 10_000,
            allow_stale: false,
        }
    }

    /// The cache key of the scenes of the device model `sku`.
    pub fn scenes_key(sku: &str) -> (key: String)
        ensures
            key@ == scenes_key_text(sku@),
    {
        String::from_str("scenes-").concat(sku)
    }

    /// The policy under which the scenes of a device model are cached, for
    /// the key that [`Self::scenes_key`] gives.
    pub fn scenes_options<'a>(key: &'a str) -> (options: CacheGetOptions<'a>)
        ensures
            options@ == lenient_policy(key@),
    {
        CacheGetOptions {
            topic: "undoc-api",
            key,
            soft_ttl: ONE_DAY,
            hard_ttl: ONE_WEEK,
            negative_ttl: 1_000,
            allow_stale: true,
        }
    }

    /// The policy under which the saved shortcuts are cached.
    pub fn one_click_options() -> (options: CacheGetOptions<'static>)
        ensures
            options@ == lenient_policy("one-click-shortcuts"@),
    {
        CacheGetOptions {
            topic: "undoc-api",
            key: "one-click-shortcuts",
            soft_ttl: ONE_DAY,
            hard_ttl: ONE_WEEK,
            negative_ttl: 1_000,
            allow_stale: true,
        }
    }

    /// Drops the cached account login, so that the next use logs in again.
    pub fn invalidate_account_login(&self, cache: &mut Coordinator)
        ensures
            final(cache)@ == old(cache)@.after_invalidate((topic(), "account-info"@)),
    {
        cache.invalidate("undoc-api", "account-info");
    }

    /// Drops the cached community login, so that the next use logs in again.
    pub fn invalidate_community_login(&self, cache: &mut Coordinator)
        ensures
            final(cache)@ == old(cache)@.after_invalidate((topic(), "community-login"@)),
    {
        cache.invalidate("undoc-api", "community-login");
    }

    fn account_headers(&self, token: &str, timestamp: &str) -> (headers: Vec<Field>)
        ensures
            crate::http::fields_view(headers@) == account_headers(
                self@.client_id,
                token@,
                timestamp@,
            ),
    {
        let mut headers: Vec<Field> = Vec::new();
        let bearer = String::from_str("Bearer ").concat(token);
        headers.push(field("Authorization", bearer.as_str()));
        headers.push(field("appVersion", "5.6.01"));
        headers.push(field("clientId", self.client_id.as_str()));
        headers.push(field("clientType", "1"));
        headers.push(field("iotVersion", "0"));
        headers.push(field("timestamp", timestamp));
        let agent = user_agent();
        headers.push(field("User-Agent", agent.as_str()));
        assert(crate::http::fields_view(headers@) =~= account_headers(
            self@.client_id,
            token@,
            timestamp@,
        ));
        headers
    }

    /// The request for the key material of the message broker, made with the
    /// account's `token` at the time whose text is `timestamp`.
    pub fn iot_key_request(&self, token: &str, timestamp: &str) -> (request: HttpRequest)
        ensures
            request@ == self@.iot_key_request(token@, timestamp@),
    {
        HttpRequest {
            method: HttpMethod::Get,
            url: String::from_str("https://app2.govee.com/app/v1/account/iot/key"),
            timeout_secs: 30,
            headers: self.account_headers(token, timestamp),
            json_body: None,
        }
    }

    /// The request that logs the account in.
    pub fn login_account_request(&self) -> (request: HttpRequest)
        ensures
            request@ == self@.login_account_request(),
    {
        let mut body: Vec<Field> = Vec::new();
        body.push(field("email", self.email.as_str()));
        body.push(field("password", self.password.as_str()));
        body.push(field("client", self.client_id.as_str()));
        let headers: Vec<Field> = Vec::new();
        assert(crate::http::fields_view(body@) =~= seq![
            ("email"@, self@.email),
            ("password"@, self@.password),
            ("client"@, self@.client_id),
        ]);
        assert(crate::http::fields_view(headers@) =~= Seq::empty());
        HttpRequest {
            method: HttpMethod::Post,
            url: String::from_str("https://app2.govee.com/account/rest/account/v1/login"),
            timeout_secs: 30,
            headers,
            json_body: Some(body),
        }
    }

    /// The request for the devices of the account, made with the account's
    /// `token` at the time whose text is `timestamp`.
    pub fn device_list_request(&self, token: &str, timestamp: &str) -> (request: HttpRequest)
        ensures
            request@ == self@.device_list_request(token@, timestamp@),
    {
        HttpRequest {
            method: HttpMethod::Post,
            url: String::from_str("https://app2.govee.com/device/rest/devices/v1/list"),
            timeout_secs: 30,
            headers: self.account_headers(token, timestamp),
            json_body: None,
        }
    }

    /// The request that logs the account in to the community service.
    pub fn login_community_request(&self) -> (request: HttpRequest)
        ensures
            request@ == self@.login_community_request(),
    {
        let mut body: Vec<Field> = Vec::new();
        body.push(field("email", self.email.as_str()));
        body.push(field("password", self.password.as_str()));
        let headers: Vec<Field> = Vec::new();
        assert(crate::http::fields_view(body@) =~= seq![
            ("email"@, self@.email),
            ("password"@, self@.password),
        ]);
        assert(crate::http::fields_view(headers@) =~= Seq::empty());
        HttpRequest {
            method: HttpMethod::Post,
            url: String::from_str("https://community-api.govee.com/os/v1/login"),
            timeout_secs: 60,
            headers,
            json_body: Some(body),
        }
    }

    /// The request for the scenes of the device model `sku`.
    pub fn scenes_request(sku: &str) -> (request: HttpRequest)
        ensures
            request@ == scenes_request_view(sku@),
    {
        let mut headers: Vec<Field> = Vec::new();
        headers.push(field("AppVersion", "5.6.01"));
        let agent = user_agent();
        headers.push(field("User-Agent", agent.as_str()));
        assert(crate::http::fields_view(headers@) =~= seq![
            ("AppVersion"@, app_version()),
            ("User-Agent"@, user_agent_text()),
        ]);
        HttpRequest {
            method: HttpMethod::Get,
            url: String::from_str(
                "https://app2.govee.com/appsku/v1/light-effect-libraries?sku=",
            ).concat(sku),
            timeout_secs: 10,
            headers,
            json_body: None,
        }
    }

    /// The request for the shortcuts that the account has saved, made with
    /// the `community_token` at the time whose text is `timestamp`.
    pub fn one_click_request(&self, community_token: &str, timestamp: &str) -> (request:
        HttpRequest)
        ensures
            request@ == self@.one_click_request(community_token@, timestamp@),
    {
        HttpRequest {
            method: HttpMethod::Get,
            url: String::from_str("https://app2.govee.com/bff-app/v1/exec-plat/home"),
            timeout_secs: 10,
            headers: self.account_headers(community_token, timestamp),
            json_body: None,
        }
    }

    /// The time-to-live, in milliseconds, of an account login whose token the
    /// service renews every `token_expire_cycle` seconds.
    pub fn account_login_ttl(token_expire_cycle: u32) -> (ttl: u64)
        ensures
            ttl == account_token_ttl(token_expire_cycle),
    {
        let seconds: u64 = token_expire_cycle as u64;
        seconds * 1000
    }

    /// The time-to-live, in milliseconds, at `now` of a community token that
    /// expires at `expired_at`.
    pub fn community_login_ttl(expired_at: u64, now: u128) -> (ttl: u64)
        requires
            now <= expired_at,
        ensures
            ttl == community_token_ttl(expired_at as nat, now as nat),
    {
        let left: u64 = expired_at - (now as u64);
        if left < ONE_DAY {
            left
        } else {
            ONE_DAY
        }
    }

    /// What the computation of the account login hands to the cache: the
    /// login, to be kept for as long as the service keeps its token.
    pub fn login_account_result(login: LoginAccountResponse) -> (result: CacheComputeResult<
        LoginAccountResponse,
    >)
        ensures
            result == CacheComputeResult::WithTtl(
                login,
                account_token_ttl(login.token_expire_cycle) as u64,
            ),
    {
        let ttl = GoveeUndocumentedApi::account_login_ttl(login.token_expire_cycle);
        CacheComputeResult::WithTtl(login, ttl)
    }

    /// What the computation of the community login hands to the cache at
    /// `now`: the token, to be kept for as long as it lasts and for a day at
    /// most.
    pub fn login_community_result(token: String, expired_at: u64, now: u128) -> (result:
        CacheComputeResult<String>)
        requires
            now <= expired_at,
        ensures
            result == CacheComputeResult::WithTtl(
                token,
                community_token_ttl(expired_at as nat, now as nat) as u64,
            ),
    {
        let ttl = GoveeUndocumentedApi::community_login_ttl(expired_at, now);
        CacheComputeResult::WithTtl(token, ttl)
    }

    /// Takes note of the status with which the service answered the request
    /// for the devices: where it rejects the credentials, the cached account
    /// login is dropped; otherwise nothing changes.
    pub fn on_device_list_status(&self, status: u16, cache: &mut Coordinator)
        ensures
            final(cache)@ == (if status == crate::http::UNAUTHORIZED {
                old(cache)@.after_invalidate((topic(), "account-info"@))
            } else {
                old(cache)@
            }),
    {
        if rejects_credentials(status) {
            self.invalidate_account_login(cache);
        }
    }

    /// Takes note of the status with which the service answered the request
    /// for the saved shortcuts: where it rejects the credentials, the cached
    /// community login is dropped; otherwise nothing changes.
    pub fn on_one_click_status(&self, status: u16, cache: &mut Coordinator)
        ensures
            final(cache)@ == (if status == crate::http::UNAUTHORIZED {
                old(cache)@.after_invalidate((topic(), "community-login"@))
            } else {
                old(cache)@
            }),
    {
        if rejects_credentials(status) {
            self.invalidate_community_login(cache);
        }
    }

    /// The time-to-live at `now` of a community token that expires at
    /// `expired_at`, or `None` where it has expired already.
    pub fn checked_community_login_ttl(expired_at: u64, now: u128) -> (ttl: Option<u64>)
        ensures
            ttl == (if now <= expired_at {
                Some(community_token_ttl(expired_at as nat, now as nat) as u64)
            } else {
                None
            }),
    {
        if now <= expired_at as u128 {
            Some(GoveeUndocumentedApi::community_login_ttl(expired_at, now))
        } else {
            None
        }
    }
}

} // verus!
