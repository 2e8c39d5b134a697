//! The authenticated private surface.
//!
//! A [`PrivateClient`] holds the credentials for their whole lifetime: the
//! base64-decoded secret is checked and stored at construction, so an
//! invalid secret fails before any request is attempted.  Every endpoint
//! method builds one GET request description: the exact URL, and the four
//! authentication header values, with the signature computed over the very
//! timestamp and path that the headers and URL carry.

use vstd::prelude::*;

use crate::digits::dec_chars;
use crate::digits::u64_to_string;
use crate::sign::base64_decode;
use crate::sign::base64_decoded;
use crate::sign::signature;
use crate::sign::signature_chars;

verus! {

/// Relies on std::time's `SystemTime::now` and `duration_since`: seconds
/// since the Unix epoch as read from the system clock, zero if the clock is
/// before the epoch.  Nothing can be promised of a clock reading.
#[verifier::external_body]
fn system_clock_seconds() -> u64 {
    match std::time::SystemTime::now().duration_since(std::time::UNIX_EPOCH) {
        Ok(elapsed) => elapsed.as_secs(),
        Err(_) => 0,
    }
}

/// The wall-clock time, in whole seconds since the Unix epoch: the value a
/// request is timestamped and signed with.
pub fn now() -> u64 {
    system_clock_seconds()
}

/// Rejected credentials: the supplied secret is not valid base64.  Client
/// construction is the only place this can arise — an invalid secret never
/// reaches a request.
#[derive(Debug, Clone, Copy, PartialEq, Eq, Structural)]
pub struct InvalidSecret;

/// One authenticated GET request, ready to be put on the wire: the URL and
/// the values of the four `cb-access-*` headers.  The signature is bound to
/// the same timestamp and path+query the other fields carry; sending any of
/// them changed invalidates it.
pub struct SignedRequest {
    /// The full request URL.
    pub uri: String,
    /// The `cb-access-key` header value.
    pub key: String,
    /// The `cb-access-passphrase` header value.
    pub passphrase: String,
    /// The `cb-access-timestamp` header value: Unix seconds, decimal.
    pub timestamp: String,
    /// The `cb-access-sign` header value.
    pub signature: String,
}

/// HTTP client for the authenticated private API.
pub struct PrivateClient {
    base: String,
    key: String,
    secret_key: Vec<u8>,
    passphrase: String,
}

impl PrivateClient {
    /// The base URL every request of this client starts with.
    pub closed spec fn base_spec(&self) -> Seq<char> {
        self.base@
    }

    /// The API key sent in `cb-access-key`.
    pub closed spec fn key_spec(&self) -> Seq<char> {
        self.key@
    }

    /// The base64-decoded secret the signatures are keyed with.
    pub closed spec fn secret_key_spec(&self) -> Seq<u8> {
        self.secret_key@
    }

    /// The passphrase sent in `cb-access-passphrase`.
    pub closed spec fn passphrase_spec(&self) -> Seq<char> {
        self.passphrase@
    }

    /// `r` is the authenticated GET of `query` that this client issues at
    /// `timestamp`: URL and headers exact, and the signature computed over
    /// that same timestamp and query.
    pub open spec fn signs_get(&self, r: SignedRequest, timestamp: u64, query: Seq<char>) -> bool {
        &&& r.uri@ == self.base_spec() + query
        &&& r.key@ == self.key_spec()
        &&& r.passphrase@ == self.passphrase_spec()
        &&& r.timestamp@ == dec_chars(timestamp as nat)
        &&& r.signature@ == signature_chars(self.secret_key_spec(), timestamp, "GET"@, query, ""@)
    }

    /// Creates a new client.
    /// The `base` argument should be [`crate::SANDBOX`] or [`crate::LIVE`].
    /// Fails exactly when `secret` is not valid base64: invalid credentials
    /// are rejected here, before any request is attempted.
    pub fn new(base: &str, key: String, secret: String, passphrase: String) -> (r: Result<
        Self,
        InvalidSecret,
    >)
        ensures
            r is Ok <==> base64_decoded(secret@) is Some,
            r matches Ok(c) ==> {
                &&& c.base_spec() == base@
                &&& c.key_spec() == key@
                &&& Some(c.secret_key_spec()) == base64_decoded(secret@)
                &&& c.passphrase_spec() == passphrase@
            },
    {
        match base64_decode(secret.as_str()) {
            Some(secret_key) => Ok(
                PrivateClient { base: String::from_str(base), key, secret_key, passphrase },
            ),
            None => Err(InvalidSecret),
        }
    }

    /// Computes the `cb-access-sign` value for one request: the signature of
    /// `timestamp ‖ method ‖ path ‖ body` under the decoded secret.  `path`
    /// must be byte-identical to the path+query sent on the wire and `body`
    /// empty for a GET.
    pub fn sign(&self, timestamp: u64, method: &str, path: &str, body: &str) -> (r: String)
        ensures
            r@ == signature_chars(self.secret_key_spec(), timestamp, method@, path@, body@),
    {
        signature(&self.secret_key, timestamp, method, path, body)
    }

    /// Builds the authenticated GET of `query` at the given timestamp.
    pub fn get_at(&self, timestamp: u64, query: &str) -> (r: SignedRequest)
        ensures
            self.signs_get(r, timestamp, query@),
    {
        let mut uri = String::from_str(self.base.as_str());
        uri.append(query);
        SignedRequest {
            uri,
            key: String::from_str(self.key.as_str()),
            passphrase: String::from_str(self.passphrase.as_str()),
            timestamp: u64_to_string(timestamp),
            signature: self.sign(timestamp, "GET", query, ""),
        }
    }

    /// Builds the authenticated GET of `query`, at a freshly read
    /// wall-clock timestamp: signatures are not reusable across requests.
    pub fn get(&self, query: &str) -> (r: SignedRequest)
        ensures
            exists|timestamp: u64| self.signs_get(r, timestamp, query@),
    {
        let timestamp = now();
        let r = self.get_at(timestamp, query);
        proof {
            assert(self.signs_get(r, timestamp, query@));
        }
        r
    }

    /// Authenticated GET that lists the trading accounts.
    pub fn accounts(&self) -> (r: SignedRequest)
        ensures
            exists|timestamp: u64| self.signs_get(r, timestamp, "/accounts"@),
    {
        self.get("/accounts")
    }

    /// Authenticated GET that retrieves one account.
    pub fn account(&self, id: &str) -> (r: SignedRequest)
        ensures
            exists|timestamp: u64| self.signs_get(r, timestamp, "/accounts/"@ + id@),
    {
        let mut query = String::from_str("/accounts/");
        query.append(id);
        proof {
            assert(query@ =~= "/accounts/"@ + id@);
        }
        self.get(query.as_str())
    }

    /// Authenticated GET that lists the ledger of an account.
    pub fn ledger(&self, id: &str) -> (r: SignedRequest)
        ensures
            exists|timestamp: u64|
                self.signs_get(r, timestamp, "/accounts/"@ + id@ + "/ledger"@),
    {
        let mut query = String::from_str("/accounts/");
        query.append(id);
        query.append("/ledger");
        proof {
            assert(query@ =~= "/accounts/"@ + id@ + "/ledger"@);
        }
        self.get(query.as_str())
    }

    /// Authenticated GET that lists the holds of an account.
    pub fn holds(&self, id: &str) -> (r: SignedRequest)
        ensures
            exists|timestamp: u64|
                self.signs_get(r, timestamp, "/accounts/"@ + id@ + "/holds"@),
    {
        let mut query = String::from_str("/accounts/");
        query.append(id);
        query.append("/holds");
        proof {
            assert(query@ =~= "/accounts/"@ + id@ + "/holds"@);
        }
        self.get(query.as_str())
    }

    /// Authenticated GET that lists all orders.
    pub fn orders(&self) -> (r: SignedRequest)
        ensures
            exists|timestamp: u64| self.signs_get(r, timestamp, "/orders?status=all"@),
    {
        self.get("/orders?status=all")
    }

    /// Authenticated GET that lists all orders for one product.
    pub fn orders_for_product(&self, id: &str) -> (r: SignedRequest)
        ensures
            exists|timestamp: u64|
                self.signs_get(r, timestamp, "/orders?status=all&product_id="@ + id@),
    {
        let mut query = String::from_str("/orders?status=all&product_id=");
        query.append(id);
        proof {
            assert(query@ =~= "/orders?status=all&product_id="@ + id@);
        }
        self.get(query.as_str())
    }

    /// Authenticated GET that retrieves one order.
    pub fn order(&self, id: &str) -> (r: SignedRequest)
        ensures
            exists|timestamp: u64| self.signs_get(r, timestamp, "/orders/"@ + id@),
    {
        let mut query = String::from_str("/orders/");
        query.append(id);
        proof {
            assert(query@ =~= "/orders/"@ + id@);
        }
        self.get(query.as_str())
    }

    /// Authenticated GET that lists the recent fills.
    pub fn fills(&self) -> (r: SignedRequest)
        ensures
            exists|timestamp: u64| self.signs_get(r, timestamp, "/fills"@),
    {
        self.get("/fills")
    }

    /// Authenticated GET that lists the recent fills for one product.
    pub fn fills_for_product(&self, id: &str) -> (r: SignedRequest)
        ensures
            exists|timestamp: u64| self.signs_get(r, timestamp, "/fills?product_id="@ + id@),
    {
        let mut query = String::from_str("/fills?product_id=");
        query.append(id);
        proof {
            assert(query@ =~= "/fills?product_id="@ + id@);
        }
        self.get(query.as_str())
    }

    /// Authenticated GET that lists the fills of one order.
    pub fn fills_for_order(&self, id: &str) -> (r: SignedRequest)
        ensures
            exists|timestamp: u64| self.signs_get(r, timestamp, "/fills?order_id="@ + id@),
    {
        let mut query = String::from_str("/fills?order_id=");
        query.append(id);
        proof {
            assert(query@ =~= "/fills?order_id="@ + id@);
        }
        self.get(query.as_str())
    }

    /// Authenticated GET that retrieves the 30-day trailing volumes.
    pub fn trailing_volume(&self) -> (r: SignedRequest)
        ensures
            exists|timestamp: u64| self.signs_get(r, timestamp, "/users/self/trailing-volume"@),
    {
        self.get("/users/self/trailing-volume")
    }
}

} // verus!
