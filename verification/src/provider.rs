//! The broker's cache of tokens and the decisions taken around one fetch.

use vstd::prelude::*;
use vstd::string::StringExecFns;
use vstd::utf8::{decode_utf8, valid_utf8};
use crate::clock::Clock;
use crate::strings::names;
use crate::token::{issued, Token, TokenData, TokenView, EXPIRY_THRESHOLD, NANOS_PER_SEC};

verus! {

/// Why a request for a token failed.
#[derive(Clone, Copy, Debug, PartialEq, Eq, Structural)]
pub enum AuthError {
    /// No scope was requested.
    EmptyScope,
    /// The issuer answered with a status other than success.
    RequestFailed,
    /// The issuer reported success but sent nothing that decodes to a token.
    InvalidResponse,
}

/// The status with which the issuer reports success.
pub const STATUS_OK: i32 = 200;

/// The client in whose name every token is requested.
pub const KEYMASTER_CLIENT_ID: &'static str = "65b708073fc0480ea92a077233ca87bd";

/// What the broker decided on a request for a token.
#[derive(Debug)]
pub enum Step {
    /// A stored token answers the request.
    Cached(Token),
    /// No stored token does: this request is to be sent to the issuer.
    Fetch(String),
}

/// The tokens that the broker holds, in the order in which they were stored,
/// and the clock by which it stamps and judges them.
#[derive(Debug)]
pub struct TokenProvider {
    tokens: Vec<Token>,
    clock: Clock,
}

/// The payloads of a response, each by its bytes.
pub open spec fn payload_bytes(payload: Seq<Vec<u8>>) -> Seq<Seq<u8>> {
    payload.map_values(|p: Vec<u8>| p@)
}

/// The parts, with `sep` between each two neighbours.
pub open spec fn joined(parts: Seq<Seq<char>>, sep: Seq<char>) -> Seq<char>
    decreases parts.len(),
{
    if parts.len() == 0 {
        Seq::empty()
    } else if parts.len() == 1 {
        parts[0]
    } else {
        joined(parts.drop_last(), sep) + sep + parts.last()
    }
}

/// The address under which the issuer grants a token for `scopes` to the
/// device `device_id`.
pub open spec fn request_uri(scopes: Seq<Seq<char>>, device_id: Seq<char>) -> Seq<char> {
    "hm://keymaster/token/authenticated?scope="@ + joined(scopes, ","@) + "&client_id="@
        + KEYMASTER_CLIENT_ID@ + "&device_id="@ + device_id
}

/// What a response of the issuer holds: the text of its first payload, or the
/// reason why it holds none.
pub open spec fn response_text(status_code: int, payload: Seq<Seq<u8>>) -> Result<
    Seq<char>,
    AuthError,
> {
    if status_code != STATUS_OK {
        Err(AuthError::RequestFailed)
    } else if payload.len() == 0 || !valid_utf8(payload[0]) {
        Err(AuthError::InvalidResponse)
    } else {
        Ok(decode_utf8(payload[0]))
    }
}

/// `std::str::from_utf8` accepts exactly the byte strings that are valid
/// UTF-8, and hands back the text that they encode.
#[verifier::external_body]
fn utf8_text(bytes: &[u8]) -> (text: Option<&str>)
    ensures
        text is Some <==> valid_utf8(bytes@),
        text is Some ==> text.unwrap()@ == decode_utf8(bytes@),
{
    match std::str::from_utf8(bytes) {
        Ok(text) => Some(text),
        Err(_) => None,
    }
}

/// The request to send to the issuer for a token that grants `scopes` to the
/// device `device_id`.
pub fn token_request(scopes: &Vec<String>, device_id: &str) -> (uri: String)
    ensures
        uri@ == request_uri(names(scopes@), device_id@),
{
    let mut list = String::new();
    let mut i: usize = 0;
    while i < scopes.len()
        invariant
            0 <= i <= scopes.len(),
            list@ == joined(names(scopes@).take(i as int), ","@),
        decreases scopes.len() - i,
    {
        assert(names(scopes@).take(i + 1).drop_last() =~= names(scopes@).take(i as int));
        if i > 0 {
            list.append(",");
        }
        list.append(scopes[i].as_str());
        i += 1;
    }
    assert(names(scopes@).take(i as int) =~= names(scopes@));
    let mut uri = String::from_str("hm://keymaster/token/authenticated?scope=");
    uri.append(list.as_str());
    uri.append("&client_id=");
    uri.append(KEYMASTER_CLIENT_ID);
    uri.append("&device_id=");
    uri.append(device_id);
    uri
}

/// Reads a response of the issuer: on success the text of its first payload,
/// to be decoded into the fields of a token.
pub fn response_body(status_code: i32, payload: &Vec<Vec<u8>>) -> (body: Result<String, AuthError>)
    ensures
        match response_text(status_code as int, payload_bytes(payload@)) {
            Ok(text) => body matches Ok(s) && s@ == text,
            Err(e) => body matches Err(f) && f == e,
        },
{
    if status_code != STATUS_OK {
        return Err(AuthError::RequestFailed);
    }
    if payload.len() == 0 {
        return Err(AuthError::InvalidResponse);
    }
    match utf8_text(payload[0].as_slice()) {
        Some(text) => Ok(text.to_owned()),
        None => Err(AuthError::InvalidResponse),
    }
}

/// The tokens of a list, each by its value.
pub open spec fn token_views(tokens: Seq<Token>) -> Seq<TokenView> {
    tokens.map_values(|t: Token| t@)
}

/// The position of the earliest stored token that covers `requested`, if any
/// does.
pub open spec fn first_covering(cache: Seq<TokenView>, requested: Seq<Seq<char>>) -> Option<int>
    decreases cache.len(),
{
    if cache.len() == 0 {
        None
    } else if first_covering(cache.drop_last(), requested) is Some {
        first_covering(cache.drop_last(), requested)
    } else if cache.last().covers(requested) {
        Some(cache.len() - 1)
    } else {
        None
    }
}

/// The position of the token that a lookup at `now` hands out: the first
/// covering one, unless it has expired.
pub open spec fn served(cache: Seq<TokenView>, requested: Seq<Seq<char>>, now: nat) -> Option<int> {
    match first_covering(cache, requested) {
        Some(i) => if cache[i].expired_at(now) {
            None
        } else {
            Some(i)
        },
        None => None,
    }
}

/// The position of the token that a lookup at `now` removes: the first
/// covering one, if it has expired.
pub open spec fn evicted(cache: Seq<TokenView>, requested: Seq<Seq<char>>, now: nat) -> Option<int> {
    match first_covering(cache, requested) {
        Some(i) => if cache[i].expired_at(now) {
            Some(i)
        } else {
            None
        },
        None => None,
    }
}

/// The cache as a lookup at `now` leaves it.
pub open spec fn after_lookup(cache: Seq<TokenView>, requested: Seq<Seq<char>>, now: nat) -> Seq<
    TokenView,
> {
    match evicted(cache, requested, now) {
        Some(i) => cache.remove(i),
        None => cache,
    }
}

/// `first_covering` finds a covering token, and none stands before it; where
/// it finds none, no stored token covers the request.
pub proof fn lemma_first_covering(cache: Seq<TokenView>, requested: Seq<Seq<char>>)
    ensures
        match first_covering(cache, requested) {
            Some(i) => {
                &&& 0 <= i < cache.len()
                &&& cache[i].covers(requested)
                &&& forall|j: int| 0 <= j < i ==> !(#[trigger] cache[j]).covers(requested)
            },
            None => forall|j: int| 0 <= j < cache.len() ==> !(#[trigger] cache[j]).covers(requested),
        },
    decreases cache.len(),
{
    if cache.len() > 0 {
        let front = cache.drop_last();
        lemma_first_covering(front, requested);
        assert forall|j: int| 0 <= j < front.len() implies front[j] == cache[j] by {}
        match first_covering(front, requested) {
            Some(i) => {
                assert(cache[i] == front[i]);
                assert forall|j: int| 0 <= j < i implies !(#[trigger] cache[j]).covers(
                    requested,
                ) by {
                    assert(!front[j].covers(requested));
                }
            },
            None => {
                assert forall|j: int| 0 <= j < front.len() implies !(#[trigger] cache[j]).covers(
                    requested,
                ) by {
                    assert(!front[j].covers(requested));
                }
            },
        }
    }
}

/// What `first_covering` finds among the first `k` tokens, it finds in the
/// whole cache.
pub proof fn lemma_first_covering_prefix(cache: Seq<TokenView>, requested: Seq<Seq<char>>, k: int)
    requires
        0 <= k <= cache.len(),
        first_covering(cache.take(k), requested) is Some,
    ensures
        first_covering(cache, requested) == first_covering(cache.take(k), requested),
    decreases cache.len() - k,
{
    if k < cache.len() {
        assert(cache.drop_last().take(k) =~= cache.take(k));
        lemma_first_covering_prefix(cache.drop_last(), requested, k);
    } else {
        assert(cache.take(k) =~= cache);
    }
}

/// A stored token that covers the request and has not expired is handed out,
/// and the cache stays as it is, provided that no expired token that covers
/// the request stands before it; the token handed out is that very one where no
/// covering token at all stands before it.
pub proof fn lemma_cached_token_served(
    cache: Seq<TokenView>,
    requested: Seq<Seq<char>>,
    now: nat,
    t: int,
)
    requires
        0 <= t < cache.len(),
        cache[t].covers(requested),
        !cache[t].expired_at(now),
        forall|j: int|
            0 <= j < t ==> !((#[trigger] cache[j]).covers(requested) && cache[j].expired_at(now)),
    ensures
        served(cache, requested, now) is Some,
        0 <= served(cache, requested, now).unwrap() <= t,
        cache[served(cache, requested, now).unwrap()].covers(requested),
        !cache[served(cache, requested, now).unwrap()].expired_at(now),
        after_lookup(cache, requested, now) == cache,
        (forall|j: int| 0 <= j < t ==> !(#[trigger] cache[j]).covers(requested)) ==> served(
            cache,
            requested,
            now,
        ) == Some(t),
{
    lemma_first_covering(cache, requested);
}

/// A lookup that matches a token whose lifetime, less the safety margin, has
/// run out removes that token and hands out none.
pub proof fn lemma_expired_token_evicted(
    cache: Seq<TokenView>,
    requested: Seq<Seq<char>>,
    now: nat,
    i: int,
)
    requires
        first_covering(cache, requested) == Some(i),
        now >= cache[i].issued_at + (cache[i].lifetime - EXPIRY_THRESHOLD) * NANOS_PER_SEC,
        cache[i].lifetime < EXPIRY_THRESHOLD || now != cache[i].issued_at + (cache[i].lifetime
            - EXPIRY_THRESHOLD) * NANOS_PER_SEC,
    ensures
        served(cache, requested, now) is None,
        evicted(cache, requested, now) == Some(i),
        after_lookup(cache, requested, now) == cache.remove(i),
{
}

impl View for TokenProvider {
    type V = Seq<TokenView>;

    closed spec fn view(&self) -> Seq<TokenView> {
        token_views(self.tokens@)
    }
}

impl TokenProvider {
    /// A broker that holds no token.
    pub fn new() -> (provider: TokenProvider)
        ensures
            provider@ == Seq::<TokenView>::empty(),
    {
        let provider = TokenProvider { tokens: Vec::new(), clock: Clock::start() };
        assert(provider@ =~= Seq::<TokenView>::empty());
        provider
    }

    /// The number of tokens held.
    pub fn len(&self) -> (n: usize)
        ensures
            n == self@.len(),
    {
        self.tokens.len()
    }

    /// The position of the earliest stored token that covers `scopes`.
    pub fn find_token(&self, scopes: &Vec<String>) -> (found: Option<usize>)
        ensures
            match found {
                Some(i) => first_covering(self@, names(scopes@)) == Some(i as int),
                None => first_covering(self@, names(scopes@)) is None,
            },
    {
        let mut i: usize = 0;
        while i < self.tokens.len()
            invariant
                0 <= i <= self.tokens.len(),
                first_covering(self@.take(i as int), names(scopes@)) is None,
            decreases self.tokens.len() - i,
        {
            assert(self@.take(i + 1).drop_last() =~= self@.take(i as int));
            assert(self@.take(i + 1).last() == self.tokens@[i as int]@);
            if self.tokens[i].covers(scopes) {
                proof {
                    lemma_first_covering_prefix(self@, names(scopes@), i + 1);
                }
                return Some(i);
            }
            i += 1;
        }
        assert(self@.take(i as int) =~= self@);
        None
    }

    /// The lookup step at clock reading `now`: hands out the first stored
    /// token that covers `scopes`, or removes it where it has expired.
    pub fn lookup(&mut self, scopes: &Vec<String>, now: u128) -> (r: Result<
        Option<Token>,
        AuthError,
    >)
        ensures
            scopes@.len() == 0 ==> {
                &&& r matches Err(e)
                &&& e == AuthError::EmptyScope
                &&& final(self)@ == old(self)@
            },
            scopes@.len() > 0 ==> final(self)@ == after_lookup(
                old(self)@,
                names(scopes@),
                now as nat,
            ),
            scopes@.len() > 0 ==> match served(old(self)@, names(scopes@), now as nat) {
                Some(i) => r matches Ok(Some(token)) && token@ == old(self)@[i],
                None => r matches Ok(None),
            },
    {
        if scopes.len() == 0 {
            return Err(AuthError::EmptyScope);
        }
        proof {
            lemma_first_covering(self@, names(scopes@));
        }
        match self.find_token(scopes) {
            Some(index) => {
                if self.tokens[index].is_expired(now) {
                    self.tokens.remove(index);
                    assert(self@ =~= old(self)@.remove(index as int));
                    Ok(None)
                } else {
                    Ok(Some(self.tokens[index].clone()))
                }
            },
            None => Ok(None),
        }
    }

    /// The last step at clock reading `now`: builds the token from what the
    /// issuer's payload decoded to, stores it behind the others and hands out
    /// a copy. A payload that did not decode is an invalid response.
    pub fn store(&mut self, decoded: Option<TokenData>, now: u128) -> (r: Result<Token, AuthError>)
        ensures
            match decoded {
                Some(data) => {
                    &&& r matches Ok(token)
                    &&& token@ == issued(data, now as nat)
                    &&& final(self)@ == old(self)@.push(token@)
                },
                None => {
                    &&& r matches Err(e)
                    &&& e == AuthError::InvalidResponse
                    &&& final(self)@ == old(self)@
                },
            },
    {
        match decoded {
            Some(data) => {
                let token = Token::new(data, now);
                let copy = token.clone();
                self.tokens.push(token);
                assert(self@ =~= old(self)@.push(copy@));
                Ok(copy)
            },
            None => Err(AuthError::InvalidResponse),
        }
    }

    /// Decides a request for a token by the broker's own clock: the lookup
    /// step at the reading taken, and, where no stored token answers, the
    /// request to send to the issuer. Whatever the clock reads, an empty
    /// request is refused and the cache left as it is.
    pub fn get_token(&mut self, scopes: &Vec<String>, device_id: &str) -> (r: Result<
        Step,
        AuthError,
    >)
        ensures
            scopes@.len() == 0 ==> {
                &&& r matches Err(e)
                &&& e == AuthError::EmptyScope
                &&& final(self)@ == old(self)@
            },
            scopes@.len() > 0 ==> exists|now: nat|
                {
                    &&& final(self)@ == #[trigger] after_lookup(old(self)@, names(scopes@), now)
                    &&& match served(old(self)@, names(scopes@), now) {
                        Some(i) => r matches Ok(Step::Cached(token)) && token@ == old(self)@[i],
                        None => r matches Ok(Step::Fetch(uri)) && uri@ == request_uri(
                            names(scopes@),
                            device_id@,
                        ),
                    }
                },
    {
        let now = self.clock.now();
        assert(self@ == old(self)@);
        match self.lookup(scopes, now) {
            Ok(Some(token)) => {
                assert(self@ == after_lookup(old(self)@, names(scopes@), now as nat));
                Ok(Step::Cached(token))
            },
            Ok(None) => {
                let uri = token_request(scopes, device_id);
                assert(self@ == after_lookup(old(self)@, names(scopes@), now as nat));
                Ok(Step::Fetch(uri))
            },
            Err(e) => Err(e),
        }
    }

    /// Takes in what the issuer's payload decoded to, by the broker's own
    /// clock: the token is stamped with the reading taken, stored behind the
    /// others and handed out.
    pub fn accept(&mut self, decoded: Option<TokenData>) -> (r: Result<Token, AuthError>)
        ensures
            match decoded {
                Some(data) => {
                    &&& r matches Ok(token)
                    &&& exists|now: nat| token@ == #[trigger] issued(data, now)
                    &&& final(self)@ == old(self)@.push(token@)
                },
                None => {
                    &&& r matches Err(e)
                    &&& e == AuthError::InvalidResponse
                    &&& final(self)@ == old(self)@
                },
            },
    {
        let now = self.clock.now();
        assert(self@ == old(self)@);
        self.store(decoded, now)
    }
}

} // verus!
