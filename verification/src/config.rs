//! The configuration of the proxy service.

use crate::headers::{
    is_header_name, lemma_long_name_is_no_header_name, stored_form, stored_name,
    MAX_HEADER_NAME_LEN,
};
use crate::limiter::{client_accepts, Error, Limiter, DEFAULT_LIMIT, DEFAULT_PERIOD_SECS};
use crate::middleware::RateLimiter;
use std::string::ToString;
use vstd::prelude::*;
use vstd::utf8::encode_utf8;

verus! {

/// Service configuration.
#[derive(Debug)]
pub struct Config {
    bind_addr: String,
    redis_url: String,
    proxy_to: String,
    header: String,
    rate_limit: usize,
    rate_period: u64,
}

/// A builder for a [`Config`].
pub struct Builder<'a, 'b, 'c, 'd> {
    bind_addr: &'a str,
    redis_url: &'b str,
    proxy_to: &'c str,
    header: &'d str,
    rate_limit: usize,
    rate_period: u64,
}

/// Why a configuration cannot be built.
#[derive(Clone, Copy, Debug, PartialEq, Eq, Structural)]
pub enum ConfigError {
    /// The address to proxy traffic to makes no URL of the backend.
    InvalidProxyTo,
    /// The Redis URL is no URL.
    InvalidRedisUrl,
    /// The header that holds the key is no header name.
    InvalidHeader,
}

/// The URL that `text` is read as, in the form in which the URL library
/// writes it; none where `text` is no URL.
pub uninterp spec fn url_text(text: Seq<char>) -> Option<Seq<char>>;

/// Calls `Url::parse` and hands out the text of the URL that it has read.
#[verifier::external_body]
fn parse_url(text: &str) -> (url: Option<String>)
    ensures
        match url {
            Some(url) => url_text(text@) == Some(url@),
            None => url_text(text@) is None,
        },
{
    url::Url::parse(text).ok().map(|url| url.as_str().to_string())
}

/// The scheme that the backend is spoken to in.
pub const BACKEND_SCHEME: &'static str = "http://";

/// The configuration that a builder with these settings finishes with, or
/// why it cannot finish.
///
/// The address to proxy to becomes the URL of the backend; that comes first,
/// then the Redis URL is read, and the header is put into the form in which
/// header maps store names. The bind address, the limit and the period are
/// kept as they were set.
pub open spec fn finished(settings: Settings) -> Result<Settings, ConfigError> {
    match url_text(BACKEND_SCHEME@ + settings.proxy_to) {
        None => Err(ConfigError::InvalidProxyTo),
        Some(proxy_to) => match url_text(settings.redis_url) {
            None => Err(ConfigError::InvalidRedisUrl),
            Some(redis_url) => if is_header_name(stored_form(settings.header)) {
                Ok(
                    Settings {
                        redis_url,
                        proxy_to,
                        header: stored_form(settings.header),
                        ..settings
                    },
                )
            } else {
                Err(ConfigError::InvalidHeader)
            },
        },
    }
}

/// The settings of a configuration, as plain values.
pub struct Settings {
    pub bind_addr: Seq<char>,
    pub redis_url: Seq<char>,
    pub proxy_to: Seq<char>,
    pub header: Seq<char>,
    pub rate_limit: usize,
    pub rate_period: u64,
}

/// The settings of a builder that nothing was set on.
pub open spec fn default_settings() -> Settings {
    Settings {
        bind_addr: "127.0.0.1:8080"@,
        redis_url: "redis://127.0.0.1/"@,
        proxy_to: "127.0.0.1:8000"@,
        header: "authorization"@,
        rate_limit: DEFAULT_LIMIT,
        rate_period: DEFAULT_PERIOD_SECS,
    }
}

impl Config {
    #[verifier::type_invariant]
    spec fn well_formed(&self) -> bool {
        is_header_name(self.header@)
    }

    /// The settings that the configuration holds.
    pub closed spec fn view(&self) -> Settings {
        Settings {
            bind_addr: self.bind_addr@,
            redis_url: self.redis_url@,
            proxy_to: self.proxy_to@,
            header: self.header@,
            rate_limit: self.rate_limit,
            rate_period: self.rate_period,
        }
    }

    /// Returns a builder for a `Config`.
    ///
    /// The [`finish`](Builder::finish) method will build the final `Config`.
    pub fn build<'a, 'b, 'c, 'd>() -> (builder: Builder<'a, 'b, 'c, 'd>)
        ensures
            builder@ == default_settings(),
    {
        Builder {
            bind_addr: "127.0.0.1:8080",
            redis_url: "redis://127.0.0.1/",
            proxy_to: "127.0.0.1:8000",
            header: "authorization",
            rate_limit: DEFAULT_LIMIT,
            rate_period: DEFAULT_PERIOD_SECS,
        }
    }

    /// The address that the service binds to.
    pub fn bind_addr(&self) -> (bind_addr: &str)
        ensures
            bind_addr@ == self@.bind_addr,
    {
        self.bind_addr.as_str()
    }

    /// The URL of the Redis server that holds the counters.
    pub fn redis_url(&self) -> (redis_url: &str)
        ensures
            redis_url@ == self@.redis_url,
    {
        self.redis_url.as_str()
    }

    /// The URL of the backend that traffic is proxied to.
    pub fn proxy_to(&self) -> (proxy_to: &str)
        ensures
            proxy_to@ == self@.proxy_to,
    {
        self.proxy_to.as_str()
    }

    /// The name of the header that holds the key, in stored form.
    pub fn header(&self) -> (header: &str)
        ensures
            header@ == self@.header,
            is_header_name(header@),
    {
        proof {
            use_type_invariant(self);
        }
        self.header.as_str()
    }

    /// The maximum number of requests per key in a period.
    pub fn rate_limit(&self) -> (rate_limit: usize)
        ensures
            rate_limit == self@.rate_limit,
    {
        self.rate_limit
    }

    /// The length of a period in seconds.
    pub fn rate_period(&self) -> (rate_period: u64)
        ensures
            rate_period == self@.rate_period,
    {
        self.rate_period
    }

    /// Builds the limiter that this configuration describes.
    ///
    /// Fails where the Redis client does not take the URL, and only then.
    pub fn limiter(&self) -> (limiter: Result<Limiter, Error>)
        ensures
            limiter is Ok <==> client_accepts(self@.redis_url),
            limiter matches Ok(l) ==> l.limit() == self@.rate_limit && l.period()
                == self@.rate_period,
            limiter matches Err(e) ==> e is Client,
    {
        let mut builder = Limiter::build(self.redis_url.as_str());
        builder.limit(self.rate_limit);
        builder.period(self.rate_period);
        builder.finish()
    }

    /// Builds the rate limiting that this configuration describes: its
    /// limiter, keyed on its header.
    ///
    /// Fails where the Redis client does not take the URL, and only then.
    pub fn rate_limiter(&self) -> (rate_limiter: Result<RateLimiter, Error>)
        ensures
            rate_limiter is Ok <==> client_accepts(self@.redis_url),
            rate_limiter matches Ok(r) ==> {
                &&& r.spec_header() == self@.header
                &&& r.spec_limiter().limit() == self@.rate_limit
                &&& r.spec_limiter().period() == self@.rate_period
            },
            rate_limiter matches Err(e) ==> e is Client,
    {
        proof {
            use_type_invariant(self);
        }
        match self.limiter() {
            Ok(limiter) => Ok(RateLimiter::with_stored_header(limiter, self.header.clone())),
            Err(error) => Err(error),
        }
    }
}

impl<'a, 'b, 'c, 'd> Builder<'a, 'b, 'c, 'd> {
    /// The settings that the builder holds.
    pub closed spec fn view(&self) -> Settings {
        Settings {
            bind_addr: self.bind_addr@,
            redis_url: self.redis_url@,
            proxy_to: self.proxy_to@,
            header: self.header@,
            rate_limit: self.rate_limit,
            rate_period: self.rate_period,
        }
    }

    /// Sets a new bind address for service.
    pub fn bind_addr(&mut self, bind_addr: &'a str) -> (builder: &mut Self)
        ensures
            builder@ == (Settings { bind_addr: bind_addr@, ..old(self)@ }),
            *final(self) == *final(builder),
    {
        self.bind_addr = bind_addr;
        self
    }

    /// Sets a new Redis URL for the rate-limiting middleware.
    pub fn redis_url(&mut self, redis_url: &'b str) -> (builder: &mut Self)
        ensures
            builder@ == (Settings { redis_url: redis_url@, ..old(self)@ }),
            *final(self) == *final(builder),
    {
        self.redis_url = redis_url;
        self
    }

    /// Sets a new socket address to proxy traffic to.
    pub fn proxy_to(&mut self, proxy_to: &'c str) -> (builder: &mut Self)
        ensures
            builder@ == (Settings { proxy_to: proxy_to@, ..old(self)@ }),
            *final(self) == *final(builder),
    {
        self.proxy_to = proxy_to;
        self
    }

    /// Sets a new header to take the key from. Its letters may be in either
    /// case.
    pub fn header(&mut self, header: &'d str) -> (builder: &mut Self)
        ensures
            builder@ == (Settings { header: header@, ..old(self)@ }),
            *final(self) == *final(builder),
    {
        self.header = header;
        self
    }

    /// Sets a new maximum limit for the `Limiter`.
    pub fn rate_limit(&mut self, rate_limit: usize) -> (builder: &mut Self)
        ensures
            builder@ == (Settings { rate_limit: rate_limit, ..old(self)@ }),
            *final(self) == *final(builder),
    {
        self.rate_limit = rate_limit;
        self
    }

    /// Sets a new period duration, in seconds, for the `Limiter`.
    pub fn rate_period(&mut self, rate_period: u64) -> (builder: &mut Self)
        ensures
            builder@ == (Settings { rate_period: rate_period, ..old(self)@ }),
            *final(self) == *final(builder),
    {
        self.rate_period = rate_period;
        self
    }

    /// Finalizes and returns a `Config`.
    ///
    /// # Errors
    ///
    /// Returns an `Err` if the address to proxy to makes no URL, if the Redis
    /// URL is no URL, or if the header is no header name, in this order. The
    /// bind address is kept as text: whether it is a socket address is for
    /// whoever binds to it.
    pub fn finish(&self) -> (config: Result<Config, ConfigError>)
        ensures
            match config {
                Ok(config) => finished(self@) == Ok::<Settings, ConfigError>(config@),
                Err(error) => finished(self@) == Err::<Settings, ConfigError>(error),
            },
    {
        let backend = String::from_str(BACKEND_SCHEME).concat(self.proxy_to);
        let proxy_to = match parse_url(backend.as_str()) {
            Some(url) => url,
            None => {
                return Err(ConfigError::InvalidProxyTo);
            },
        };
        let redis_url = match parse_url(self.redis_url) {
            Some(url) => url,
            None => {
                return Err(ConfigError::InvalidRedisUrl);
            },
        };
        if self.header.as_bytes().len() >= MAX_HEADER_NAME_LEN {
            proof {
                lemma_long_name_is_no_header_name(self.header@);
            }
            return Err(ConfigError::InvalidHeader);
        }
        match stored_name(self.header) {
            Some(header) => Ok(
                Config {
                    bind_addr: self.bind_addr.to_string(),
                    redis_url,
                    proxy_to,
                    header,
                    rate_limit: self.rate_limit,
                    rate_period: self.rate_period,
                },
            ),
            None => Err(ConfigError::InvalidHeader),
        }
    }
}

} // verus!
