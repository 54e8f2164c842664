//! The requests of the API, one proxy per group of resources.

use vstd::prelude::*;
use vstd::string::StringExecFns;
use crate::rest::{
    pairs_view, Metadata, Method, MullvadRestHandle, PublicKey, RequestBody, RequestBodyView,
    RestRequest,
    RestRequestView, STATUS_CREATED, STATUS_NO_CONTENT, STATUS_OK,
};

verus! {

/// Error code of the API: the voucher has already been used.
pub const VOUCHER_USED: &'static str = "VOUCHER_USED";

/// Error code of the API: the voucher code is invalid.
pub const INVALID_VOUCHER: &'static str = "INVALID_VOUCHER";

/// Error code of the API: the account token is invalid.
pub const INVALID_ACCOUNT: &'static str = "INVALID_ACCOUNT";

/// Error code of the API: the access token is invalid.
pub const INVALID_ACCESS_TOKEN: &'static str = "INVALID_ACCESS_TOKEN";

/// Error code of the API: the account has its full number of devices.
pub const MAX_DEVICES_REACHED: &'static str = "MAX_DEVICES_REACHED";

/// Name of the file that caches the addresses of the API.
pub const API_IP_CACHE_FILENAME: &'static str = "api-ip-address.txt";

/// What can fail when the connection to the API is set up.
#[derive(Clone, Copy, Debug, PartialEq, Eq, Structural)]
pub enum Error {
    /// A REST client could not be constructed.
    RestError,
    /// The address cache could not be loaded.
    AddressCacheError,
    /// The check of the API's availability failed.
    ApiCheckError,
}

impl Error {
    /// The message of the error.
    pub fn message(&self) -> (text: &'static str)
        ensures
            text@ == match *self {
                Error::RestError => "Failed to construct a rest client"@,
                Error::AddressCacheError => "Failed to load address cache"@,
                Error::ApiCheckError => "API availability check failed"@,
            },
    {
        match self {
            Error::RestError => "Failed to construct a rest client",
            Error::AddressCacheError => "Failed to load address cache",
            Error::ApiCheckError => "API availability check failed",
        }
    }
}

/// Where the addresses of the API are loaded from.
#[derive(Clone, Copy, Debug, PartialEq, Eq, Structural)]
pub enum AddressSource {
    /// The file in the cache directory.
    Cache,
    /// The list that ships in the resource directory.
    Bundled,
}

/// What follows once the cached addresses could not be loaded: the
/// bundled list is read where a resource directory is known, and loading
/// has failed where none is.
pub fn fallback_source(has_resource_dir: bool) -> (next: Result<AddressSource, Error>)
    ensures
        next == if has_resource_dir {
            Ok::<AddressSource, Error>(AddressSource::Bundled)
        } else {
            Err::<AddressSource, Error>(Error::AddressCacheError)
        },
{
    if has_resource_dir {
        Ok(AddressSource::Bundled)
    } else {
        Err(Error::AddressCacheError)
    }
}

/// An IPv4 network: an address and the length of its prefix.
#[derive(Clone, Copy, Debug, PartialEq, Eq, Structural)]
pub struct Ipv4Network {
    pub address: u32,
    pub prefix: u8,
}

/// An IPv6 network: an address and the length of its prefix.
#[derive(Clone, Copy, Debug, PartialEq, Eq, Structural)]
pub struct Ipv6Network {
    pub address: u128,
    pub prefix: u8,
}

/// The addresses that the API has assigned to a device.
#[derive(Clone, Copy, Debug, PartialEq, Eq, Structural)]
pub struct AssociatedAddresses {
    pub ipv4_address: Ipv4Network,
    pub ipv6_address: Ipv6Network,
}

/// A device registered with an account.
#[derive(Debug)]
pub struct Device {
    pub id: String,
    pub name: String,
    pub pubkey: PublicKey,
}

/// What the API answers about a device.
#[derive(Debug)]
pub struct DeviceResponse {
    pub id: String,
    pub name: String,
    pub pubkey: PublicKey,
    pub ipv4_address: Ipv4Network,
    pub ipv6_address: Ipv6Network,
}

impl DeviceResponse {
    /// The device and its addresses, as the answer to a registration.
    pub fn into_device(self) -> (registered: (Device, AssociatedAddresses))
        ensures
            registered.0.id == self.id,
            registered.0.name == self.name,
            registered.0.pubkey == self.pubkey,
            registered.1 == (AssociatedAddresses {
                ipv4_address: self.ipv4_address,
                ipv6_address: self.ipv6_address,
            }),
    {
        let DeviceResponse { id, name, pubkey, ipv4_address, ipv6_address } = self;
        (Device { id, name, pubkey }, AssociatedAddresses { ipv4_address, ipv6_address })
    }

    /// The addresses alone, as the answer to a change of key.
    pub fn into_addresses(self) -> (addresses: AssociatedAddresses)
        ensures
            addresses == (AssociatedAddresses {
                ipv4_address: self.ipv4_address,
                ipv6_address: self.ipv6_address,
            }),
    {
        AssociatedAddresses { ipv4_address: self.ipv4_address, ipv6_address: self.ipv6_address }
    }
}

/// What the API answers to a version check.
#[derive(Debug)]
pub struct AppVersionResponse {
    pub supported: bool,
    pub latest: String,
    pub latest_stable: Option<String>,
    pub latest_beta: String,
}

/// The request `plain` made on behalf of `account`.
pub open spec fn authorised(plain: RestRequestView, account: Seq<char>) -> RestRequestView {
    RestRequestView { auth: Some(account), ..plain }
}

/// The path of the device `id`.
pub open spec fn device_path(id: Seq<char>) -> Seq<char> {
    "accounts/v1-alpha/devices/"@ + id
}

/// The path under which the key of the device `id` is replaced.
pub open spec fn device_key_path(id: Seq<char>) -> Seq<char> {
    "accounts/v1-alpha/devices/"@ + id + "/pubkey"@
}

/// The path of the releases of `app_version` for `platform`.
pub open spec fn release_path(platform: Seq<char>, app_version: Seq<char>) -> Seq<char> {
    "app/v1/releases/"@ + platform + "/"@ + app_version
}

/// Requests about accounts.
#[derive(Clone, Debug)]
pub struct AccountsProxy {
    handle: MullvadRestHandle,
}

impl AccountsProxy {
    /// The factory that the proxy builds its requests with.
    pub closed spec fn factory(&self) -> crate::rest::RequestFactoryView {
        self.handle.factory@
    }

    /// A proxy that builds its requests with `handle`.
    pub fn new(handle: MullvadRestHandle) -> (proxy: Self)
        ensures
            proxy.factory() == handle.factory@,
    {
        Self { handle }
    }

    /// The request for the expiry of `account`.
    pub fn get_expiry(&self, account: String) -> (request: RestRequest)
        ensures
            request@ == authorised(
                self.factory().request("accounts/v1-alpha/accounts/me"@, Method::Get, STATUS_OK),
                account@,
            ),
    {
        let mut request = self.handle.factory.request(
            "accounts/v1-alpha/accounts/me",
            Method::Get,
            STATUS_OK,
        );
        request.auth = Some(account);
        request
    }

    /// The request that creates an account.
    pub fn create_account(&mut self) -> (request: RestRequest)
        ensures
            request@ == old(self).factory().request(
                "accounts/v1-alpha/accounts"@,
                Method::Post,
                STATUS_CREATED,
            ),
            final(self).factory() == old(self).factory(),
    {
        self.handle.factory.request("accounts/v1-alpha/accounts", Method::Post, STATUS_CREATED)
    }

    /// The request that redeems `voucher_code` for `account_token`.
    pub fn submit_voucher(
        &mut self,
        account_token: String,
        voucher_code: String,
    ) -> (request: RestRequest)
        ensures
            request@ == (RestRequestView {
                body: RequestBodyView::Voucher { voucher_code: voucher_code@ },
                ..authorised(
                    old(self).factory().request("app/v1/submit-voucher"@, Method::Post, STATUS_OK),
                    account_token@,
                )
            }),
            final(self).factory() == old(self).factory(),
    {
        let mut request = self.handle.factory.request(
            "app/v1/submit-voucher",
            Method::Post,
            STATUS_OK,
        );
        request.auth = Some(account_token);
        request.body = RequestBody::Voucher { voucher_code };
        request
    }

    /// The request for a token that logs `account` in on the website.
    pub fn get_www_auth_token(&self, account: String) -> (request: RestRequest)
        ensures
            request@ == authorised(
                self.factory().request("app/v1/www-auth-token"@, Method::Post, STATUS_OK),
                account@,
            ),
    {
        let mut request = self.handle.factory.request(
            "app/v1/www-auth-token",
            Method::Post,
            STATUS_OK,
        );
        request.auth = Some(account);
        request
    }
}

/// Requests about the devices of an account.
#[derive(Clone, Debug)]
pub struct DevicesProxy {
    handle: MullvadRestHandle,
}

impl DevicesProxy {
    /// The factory that the proxy builds its requests with.
    pub closed spec fn factory(&self) -> crate::rest::RequestFactoryView {
        self.handle.factory@
    }

    /// A proxy that builds its requests with `handle`.
    pub fn new(handle: MullvadRestHandle) -> (proxy: Self)
        ensures
            proxy.factory() == handle.factory@,
    {
        Self { handle }
    }

    fn device_path(id: &String) -> (path: String)
        ensures
            path@ == device_path(id@),
    {
        let mut path = String::from_str("accounts/v1-alpha/devices/");
        path.append(id.as_str());
        path
    }

    /// The request that registers a device with the key `pubkey` for
    /// `account`.
    pub fn create(&self, account: String, pubkey: PublicKey) -> (request: RestRequest)
        ensures
            request@ == (RestRequestView {
                body: RequestBodyView::NewDevice { pubkey, kind: "App"@ },
                ..authorised(
                    self.factory().request(
                        "accounts/v1-alpha/devices"@,
                        Method::Post,
                        STATUS_CREATED,
                    ),
                    account@,
                )
            }),
    {
        let mut request = self.handle.factory.request(
            "accounts/v1-alpha/devices",
            Method::Post,
            STATUS_CREATED,
        );
        request.auth = Some(account);
        request.body = RequestBody::NewDevice { pubkey, kind: String::from_str("App") };
        request
    }

    /// The request for the device `id` of `account`.
    pub fn get(&self, account: String, id: String) -> (request: RestRequest)
        ensures
            request@ == authorised(
                self.factory().request(device_path(id@), Method::Get, STATUS_OK),
                account@,
            ),
    {
        let path = Self::device_path(&id);
        let mut request = self.handle.factory.request(path.as_str(), Method::Get, STATUS_OK);
        request.auth = Some(account);
        request
    }

    /// The request for all devices of `account`.
    pub fn list(&self, account: String) -> (request: RestRequest)
        ensures
            request@ == authorised(
                self.factory().request("accounts/v1-alpha/devices"@, Method::Get, STATUS_OK),
                account@,
            ),
    {
        let mut request = self.handle.factory.request(
            "accounts/v1-alpha/devices",
            Method::Get,
            STATUS_OK,
        );
        request.auth = Some(account);
        request
    }

    /// The request that removes the device `id` from `account`.
    pub fn remove(&self, account: String, id: String) -> (request: RestRequest)
        ensures
            request@ == authorised(
                self.factory().request(device_path(id@), Method::Delete, STATUS_NO_CONTENT),
                account@,
            ),
    {
        let path = Self::device_path(&id);
        let mut request = self.handle.factory.request(
            path.as_str(),
            Method::Delete,
            STATUS_NO_CONTENT,
        );
        request.auth = Some(account);
        request
    }

    /// The request that gives the device `id` of `account` the key
    /// `pubkey`.
    pub fn replace_wg_key(
        &self,
        account: String,
        id: String,
        pubkey: PublicKey,
    ) -> (request: RestRequest)
        ensures
            request@ == (RestRequestView {
                body: RequestBodyView::RotateKey { pubkey },
                ..authorised(
                    self.factory().request(device_key_path(id@), Method::Put, STATUS_OK),
                    account@,
                )
            }),
    {
        let mut path = Self::device_path(&id);
        path.append("/pubkey");
        let mut request = self.handle.factory.request(path.as_str(), Method::Put, STATUS_OK);
        request.auth = Some(account);
        request.body = RequestBody::RotateKey { pubkey };
        request
    }
}

/// Requests that report problems.
#[derive(Debug)]
pub struct ProblemReportProxy {
    handle: MullvadRestHandle,
}

impl ProblemReportProxy {
    /// The factory that the proxy builds its requests with.
    pub closed spec fn factory(&self) -> crate::rest::RequestFactoryView {
        self.handle.factory@
    }

    /// A proxy that builds its requests with `handle`.
    pub fn new(handle: MullvadRestHandle) -> (proxy: Self)
        ensures
            proxy.factory() == handle.factory@,
    {
        Self { handle }
    }

    /// The request that files a problem report.
    pub fn problem_report(
        &self,
        email: &str,
        message: &str,
        log: &str,
        metadata: Metadata,
    ) -> (request: RestRequest)
        ensures
            request@ == (RestRequestView {
                body: RequestBodyView::ProblemReport {
                    address: email@,
                    message: message@,
                    log: log@,
                    metadata: pairs_view(metadata.entries()),
                },
                ..self.factory().request("app/v1/problem-report"@, Method::Post, STATUS_NO_CONTENT)
            }),
    {
        let mut request = self.handle.factory.request(
            "app/v1/problem-report",
            Method::Post,
            STATUS_NO_CONTENT,
        );
        request.body = RequestBody::ProblemReport {
            address: String::from_str(email),
            message: String::from_str(message),
            log: String::from_str(log),
            metadata,
        };
        request
    }
}

/// Requests about versions of the application.
#[derive(Clone, Debug)]
pub struct AppVersionProxy {
    handle: MullvadRestHandle,
}

impl AppVersionProxy {
    /// The factory that the proxy builds its requests with.
    pub closed spec fn factory(&self) -> crate::rest::RequestFactoryView {
        self.handle.factory@
    }

    /// A proxy that builds its requests with `handle`.
    pub fn new(handle: MullvadRestHandle) -> (proxy: Self)
        ensures
            proxy.factory() == handle.factory@,
    {
        Self { handle }
    }

    /// The request that checks `app_version` on `platform`; the version of
    /// the platform travels in a header.
    pub fn version_check(
        &self,
        app_version: String,
        platform: &str,
        platform_version: String,
    ) -> (request: RestRequest)
        ensures
            request@ == (RestRequestView {
                header: Some(("M-Platform-Version"@, platform_version@)),
                ..self.factory().request(
                    release_path(platform@, app_version@),
                    Method::Get,
                    STATUS_OK,
                )
            }),
    {
        let mut path = String::from_str("app/v1/releases/");
        path.append(platform);
        path.append("/");
        path.append(app_version.as_str());
        let mut request = self.handle.factory.request(path.as_str(), Method::Get, STATUS_OK);
        request.header = Some((String::from_str("M-Platform-Version"), platform_version));
        request
    }
}

/// Requests about the API itself.
#[derive(Clone, Debug)]
pub struct ApiProxy {
    handle: MullvadRestHandle,
}

impl ApiProxy {
    /// The factory that the proxy builds its requests with.
    pub closed spec fn factory(&self) -> crate::rest::RequestFactoryView {
        self.handle.factory@
    }

    /// A proxy that builds its requests with `handle`.
    pub fn new(handle: MullvadRestHandle) -> (proxy: Self)
        ensures
            proxy.factory() == handle.factory@,
    {
        Self { handle }
    }

    /// The request for the addresses of the API.
    pub fn get_api_addrs(&self) -> (request: RestRequest)
        ensures
            request@ == self.factory().request("app/v1/api-addrs"@, Method::Get, STATUS_OK),
    {
        self.handle.factory.request("app/v1/api-addrs", Method::Get, STATUS_OK)
    }
}

} // verus!
