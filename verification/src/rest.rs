//! Descriptions of requests to the REST API.
//!
//! A request is built here and sent elsewhere: the transport hands back
//! the response's body for the functions of [`crate::rpc`] to interpret.

use vstd::prelude::*;
use vstd::string::StringExecFns;

verus! {

/// HTTP status of a successful read.
pub const STATUS_OK: u16 = 200;

/// HTTP status of a successful creation.
pub const STATUS_CREATED: u16 = 201;

/// HTTP status of a success without content.
pub const STATUS_NO_CONTENT: u16 = 204;

/// HTTP method of a request.
#[derive(Clone, Copy, Debug, PartialEq, Eq, Structural)]
pub enum Method {
    Get,
    Post,
    Put,
    Delete,
}

/// A WireGuard public key.
#[derive(Clone, Copy, Debug, PartialEq, Eq)]
pub struct PublicKey(pub [u8; 32]);

/// Whether no key occurs twice among `pairs`.
pub open spec fn distinct_keys(pairs: Seq<(String, String)>) -> bool {
    forall|i: int, j: int|
        0 <= i < j < pairs.len() ==> (#[trigger] pairs[i]).0@ != (#[trigger] pairs[j]).0@
}

/// Key-value pairs in which no key occurs twice.
#[derive(Debug)]
pub struct Metadata {
    entries: Vec<(String, String)>,
}

impl Metadata {
    #[verifier::type_invariant]
    spec fn no_key_twice(self) -> bool {
        distinct_keys(self.entries@)
    }

    /// The pairs, in the order in which they were given.
    pub closed spec fn entries(&self) -> Seq<(String, String)> {
        self.entries@
    }

    /// The metadata that holds `entries`, where no key occurs twice
    /// among them; `None` where one does.
    pub fn from_entries(entries: Vec<(String, String)>) -> (metadata: Option<Metadata>)
        ensures
            match metadata {
                Some(m) => distinct_keys(entries@) && m.entries() == entries@,
                None => !distinct_keys(entries@),
            },
    {
        let mut i: usize = 0;
        while i < entries.len()
            invariant
                i <= entries.len(),
                forall|a: int, b: int|
                    0 <= a < b < entries.len() && a < i ==> (#[trigger] entries@[a]).0@ != (
                    #[trigger] entries@[b]).0@,
            decreases entries.len() - i,
        {
            let mut j: usize = i + 1;
            while j < entries.len()
                invariant
                    i < j <= entries.len(),
                    forall|b: int|
                        i < b < j ==> entries@[i as int].0@ != (#[trigger] entries@[b]).0@,
                decreases entries.len() - j,
            {
                if entries[i].0 == entries[j].0 {
                    assert(entries@[i as int].0@ == entries@[j as int].0@);
                    return None;
                }
                j += 1;
            }
            i += 1;
        }
        Some(Metadata { entries })
    }

    /// The pairs, borrowed: no key occurs twice among them.
    pub fn as_entries(&self) -> (entries: &Vec<(String, String)>)
        ensures
            entries@ == self.entries(),
            distinct_keys(entries@),
    {
        proof {
            use_type_invariant(self);
        }
        &self.entries
    }

    /// The pairs: no key occurs twice among them.
    pub fn into_entries(self) -> (entries: Vec<(String, String)>)
        ensures
            entries@ == self.entries(),
            distinct_keys(entries@),
    {
        proof {
            use_type_invariant(&self);
        }
        self.entries
    }
}

/// What a request carries in its body.
#[derive(Debug)]
pub enum RequestBody {
    /// No body.
    Empty,
    /// A voucher to redeem.
    Voucher { voucher_code: String },
    /// A device to register.
    NewDevice { pubkey: PublicKey, kind: String },
    /// A new key for a registered device.
    RotateKey { pubkey: PublicKey },
    /// A problem report.
    ProblemReport { address: String, message: String, log: String, metadata: Metadata },
}

/// Mathematical content of a [`RequestBody`].
pub enum RequestBodyView {
    Empty,
    Voucher { voucher_code: Seq<char> },
    NewDevice { pubkey: PublicKey, kind: Seq<char> },
    RotateKey { pubkey: PublicKey },
    ProblemReport {
        address: Seq<char>,
        message: Seq<char>,
        log: Seq<char>,
        metadata: Seq<(Seq<char>, Seq<char>)>,
    },
}

/// View of a list of key-value pairs.
pub open spec fn pairs_view(pairs: Seq<(String, String)>) -> Seq<(Seq<char>, Seq<char>)> {
    Seq::new(pairs.len(), |i: int| (pairs[i].0@, pairs[i].1@))
}

impl View for RequestBody {
    type V = RequestBodyView;

    open spec fn view(&self) -> RequestBodyView {
        match *self {
            RequestBody::Empty => RequestBodyView::Empty,
            RequestBody::Voucher { voucher_code } => RequestBodyView::Voucher {
                voucher_code: voucher_code@,
            },
            RequestBody::NewDevice { pubkey, kind } => RequestBodyView::NewDevice {
                pubkey,
                kind: kind@,
            },
            RequestBody::RotateKey { pubkey } => RequestBodyView::RotateKey { pubkey },
            RequestBody::ProblemReport { address, message, log, metadata } => {
                RequestBodyView::ProblemReport {
                    address: address@,
                    message: message@,
                    log: log@,
                    metadata: pairs_view(metadata.entries()),
                }
            },
        }
    }
}

/// A request to the API, ready to be sent.
#[derive(Debug)]
pub struct RestRequest {
    pub method: Method,
    /// The full address of the resource.
    pub uri: String,
    /// The account whose access token must authorise the request.
    pub auth: Option<String>,
    /// One additional header, as name and value.
    pub header: Option<(String, String)>,
    pub body: RequestBody,
    /// The status that tells success.
    pub expected_status: u16,
}

/// Mathematical content of a [`RestRequest`].
pub struct RestRequestView {
    pub method: Method,
    pub uri: Seq<char>,
    pub auth: Option<Seq<char>>,
    pub header: Option<(Seq<char>, Seq<char>)>,
    pub body: RequestBodyView,
    pub expected_status: u16,
}

impl View for RestRequest {
    type V = RestRequestView;

    open spec fn view(&self) -> RestRequestView {
        RestRequestView {
            method: self.method,
            uri: self.uri@,
            auth: match self.auth {
                Some(account) => Some(account@),
                None => None,
            },
            header: match self.header {
                Some(pair) => Some((pair.0@, pair.1@)),
                None => None,
            },
            body: self.body@,
            expected_status: self.expected_status,
        }
    }
}

/// Builds requests to one host.
#[derive(Clone, Debug)]
pub struct RequestFactory {
    pub hostname: String,
    /// What every path on the host starts with.
    pub path_prefix: Option<String>,
}

/// Mathematical content of a [`RequestFactory`].
pub struct RequestFactoryView {
    pub hostname: Seq<char>,
    pub path_prefix: Seq<char>,
}

impl View for RequestFactory {
    type V = RequestFactoryView;

    open spec fn view(&self) -> RequestFactoryView {
        RequestFactoryView {
            hostname: self.hostname@,
            path_prefix: match self.path_prefix {
                Some(prefix) => prefix@,
                None => Seq::empty(),
            },
        }
    }
}

impl RequestFactoryView {
    /// The address of the resource at `path`.
    pub open spec fn uri(self, path: Seq<char>) -> Seq<char> {
        "https://"@ + self.hostname + "/"@ + self.path_prefix + path
    }

    /// The plain request for `path`: no authorisation, no body, no extra
    /// header.
    pub open spec fn request(
        self,
        path: Seq<char>,
        method: Method,
        expected_status: u16,
    ) -> RestRequestView {
        RestRequestView {
            method,
            uri: self.uri(path),
            auth: None,
            header: None,
            body: RequestBodyView::Empty,
            expected_status,
        }
    }
}

impl RequestFactory {
    /// A factory for `hostname`.
    pub fn new(hostname: String, path_prefix: Option<String>) -> (factory: RequestFactory)
        ensures
            factory.hostname == hostname,
            factory.path_prefix == path_prefix,
    {
        RequestFactory { hostname, path_prefix }
    }

    /// A copy of the factory.
    pub fn duplicate(&self) -> (copy: RequestFactory)
        ensures
            copy@ == self@,
    {
        RequestFactory {
            hostname: self.hostname.clone(),
            path_prefix: match &self.path_prefix {
                Some(prefix) => Some(prefix.clone()),
                None => None,
            },
        }
    }

    /// The plain request for the resource at `path`.
    pub fn request(
        &self,
        path: &str,
        method: Method,
        expected_status: u16,
    ) -> (request: RestRequest)
        ensures
            request@ == self@.request(path@, method, expected_status),
    {
        let mut uri = String::from_str("https://");
        uri.append(self.hostname.as_str());
        uri.append("/");
        match &self.path_prefix {
            Some(prefix) => {
                uri.append(prefix.as_str());
            },
            None => {
                assert(uri@ + Seq::<char>::empty() =~= uri@);
            },
        }
        uri.append(path);
        RestRequest {
            method,
            uri,
            auth: None,
            header: None,
            body: RequestBody::Empty,
            expected_status,
        }
    }
}

/// What a proxy needs to describe requests to the API.
#[derive(Clone, Debug)]
pub struct MullvadRestHandle {
    pub factory: RequestFactory,
}

impl MullvadRestHandle {
    /// A handle that builds its requests with `factory`.
    pub fn new(factory: RequestFactory) -> (handle: MullvadRestHandle)
        ensures
            handle.factory == factory,
    {
        MullvadRestHandle { factory }
    }

    /// A copy of the handle.
    pub fn duplicate(&self) -> (copy: MullvadRestHandle)
        ensures
            copy.factory@ == self.factory@,
    {
        MullvadRestHandle { factory: self.factory.duplicate() }
    }
}

} // verus!
