use vstd::prelude::*;
use vstd::string::*;

verus! {

/// Path of the item endpoint below the service's address.
pub const API_ENDPOINT: &'static str = "api/1/item";

/// Number of deliveries that a queue holds unless configured otherwise.
pub const DEFAULT_QUEUE_CAPACITY: usize = 50;

/// Milliseconds that shutdown is advised to wait, unless configured otherwise.
pub const DEFAULT_SHUTDOWN_TIMEOUT: u64 = 100;

/// Where and how items are delivered. A transport keeps its own copy.
#[derive(Debug, Clone)]
pub struct Config {
    /// Sent with every delivery in the access-token header.
    pub access_token: String,
    /// The full URL that items are posted to.
    pub endpoint: String,
    /// Advisory bound on the wait at shutdown, in milliseconds.
    pub shutdown_timeout: u64,
    /// Number of deliveries the queue holds at most.
    pub queue_capacity: usize,
}

pub open spec fn default_uri_spec() -> Seq<char> {
    "https://api.rollbar.com"@
}

pub open spec fn default_endpoint_spec() -> Seq<char> {
    default_uri_spec() + "/"@ + API_ENDPOINT@
}

impl Config {
    /// The service's address.
    pub fn default_uri() -> (r: String)
        ensures
            r@ == default_uri_spec(),
    {
        String::from_str("https://api.rollbar.com")
    }

    /// The service's item endpoint.
    pub fn default_endpoint() -> (r: String)
        ensures
            r@ == default_endpoint_spec(),
    {
        let mut r = Config::default_uri();
        r.append("/");
        r.append(API_ENDPOINT);
        r
    }

    pub fn default_shutdown_timeout() -> (r: u64)
        ensures
            r == DEFAULT_SHUTDOWN_TIMEOUT,
    {
        DEFAULT_SHUTDOWN_TIMEOUT
    }

    /// An empty access token, the default endpoint, timeout and capacity.
    pub fn new() -> (r: Config)
        ensures
            r.access_token@ == Seq::<char>::empty(),
            r.endpoint@ == default_endpoint_spec(),
            r.shutdown_timeout == DEFAULT_SHUTDOWN_TIMEOUT,
            r.queue_capacity == DEFAULT_QUEUE_CAPACITY,
    {
        Config {
            access_token: String::new(),
            endpoint: Config::default_endpoint(),
            shutdown_timeout: DEFAULT_SHUTDOWN_TIMEOUT,
            queue_capacity: DEFAULT_QUEUE_CAPACITY,
        }
    }

    pub fn with_access_token(self, access_token: String) -> (r: Config)
        ensures
            r == (Config { access_token, ..self }),
    {
        Config { access_token, ..self }
    }

    pub fn with_endpoint(self, endpoint: String) -> (r: Config)
        ensures
            r == (Config { endpoint, ..self }),
    {
        Config { endpoint, ..self }
    }

    /// The item endpoint below the service address `uri`.
    pub fn endpoint_under(uri: &str) -> (r: String)
        ensures
            r@ == uri@ + "/"@ + API_ENDPOINT@,
    {
        let mut r = String::from_str(uri);
        r.append("/");
        r.append(API_ENDPOINT);
        r
    }

    /// Posts to the item endpoint below the service address `uri`.
    pub fn with_uri(self, uri: &str) -> (r: Config)
        ensures
            r.endpoint@ == uri@ + "/"@ + API_ENDPOINT@,
            r.access_token == self.access_token,
            r.shutdown_timeout == self.shutdown_timeout,
            r.queue_capacity == self.queue_capacity,
    {
        let endpoint = Config::endpoint_under(uri);
        Config { endpoint, ..self }
    }

    pub fn with_shutdown_timeout(self, shutdown_timeout: u64) -> (r: Config)
        ensures
            r == (Config { shutdown_timeout, ..self }),
    {
        Config { shutdown_timeout, ..self }
    }

    pub fn with_queue_capacity(self, queue_capacity: usize) -> (r: Config)
        ensures
            r == (Config { queue_capacity, ..self }),
    {
        Config { queue_capacity, ..self }
    }

    pub fn access_token(&self) -> (r: &str)
        ensures
            r@ == self.access_token@,
    {
        self.access_token.as_str()
    }

    pub fn endpoint(&self) -> (r: &str)
        ensures
            r@ == self.endpoint@,
    {
        self.endpoint.as_str()
    }

    pub fn shutdown_timeout(&self) -> (r: u64)
        ensures
            r == self.shutdown_timeout,
    {
        self.shutdown_timeout
    }

    pub fn queue_capacity(&self) -> (r: usize)
        ensures
            r == self.queue_capacity,
    {
        self.queue_capacity
    }
}

} // verus!
