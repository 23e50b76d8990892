//! The URL shortener: a command that stores a link under a fresh identifier,
//! a query that resolves one, and the in-memory store behind both.

use dashmap::DashMap;
use std::sync::Arc;
use vstd::prelude::*;
use vstd::string::StringExecFns;

use crate::address::{listen_address, listen_address_spec};
use crate::id_provider::IDProvider;

verus! {

/// The message a lookup fails with when the short link is unknown.
pub open spec fn not_found() -> Seq<char> {
    "Not Found"@
}

/// Storage that can remember a link under its short form.
pub trait CreateShortUrlRepository {
    fn save(&self, full_url: String, short_url: String) -> Result<(), String>;
}

/// Storage that can resolve a short form to its link.
pub trait GetFullUrlRepository {
    fn get(&self, short_url: &str) -> Result<String, String>;
}

/// What shortening answers once the store has replied to the save:
/// the new identifier if it was stored, the store's error otherwise.
pub open spec fn short_url_outcome_spec(id: String, saved: Result<(), String>) -> Result<
    String,
    String,
> {
    match saved {
        Ok(_) => Ok(id),
        Err(e) => Err(e),
    }
}

/// Turns the store's reply to a save into the command's answer.
pub fn short_url_outcome(id: String, saved: Result<(), String>) -> (r: Result<String, String>)
    ensures
        r == short_url_outcome_spec(id, saved),
{
    match saved {
        Ok(_) => Ok(id),
        Err(e) => Err(e),
    }
}

/// The command that shortens a link.
pub struct CreateShortUrlCommand<I, R> where I: IDProvider, R: CreateShortUrlRepository {
    id_provider: I,
    repo: R,
}

impl<I, R> CreateShortUrlCommand<I, R> where I: IDProvider, R: CreateShortUrlRepository {
    pub closed spec fn id_provider(&self) -> I {
        self.id_provider
    }

    pub closed spec fn repo(&self) -> R {
        self.repo
    }

    pub fn new(id_provider: I, repo: R) -> (command: Self)
        ensures
            command.id_provider() == id_provider,
            command.repo() == repo,
    {
        Self { id_provider, repo }
    }

    /// Draws one identifier, saves `full_url` under it, and answers with the
    /// identifier if the store accepted it or with the store's error if not.
    pub fn execute(&self, full_url: String) -> (r: Result<String, String>)
        ensures
            exists|id: String, saved: Result<(), String>|
                {
                    &&& I::provide.ensures((&self.id_provider(),), id)
                    &&& R::save.ensures((&self.repo(), full_url, id), saved)
                    &&& r == short_url_outcome_spec(id, saved)
                },
    {
        let id = self.id_provider.provide();
        let saved = self.repo.save(full_url, id.clone());
        short_url_outcome(id, saved)
    }
}

/// The query that resolves a short link.
pub struct GetFullUrlQuery<R> where R: GetFullUrlRepository {
    repo: R,
}

impl<R> GetFullUrlQuery<R> where R: GetFullUrlRepository {
    pub closed spec fn repo(&self) -> R {
        self.repo
    }

    pub fn new(repo: R) -> (query: Self)
        ensures
            query.repo() == repo,
    {
        Self { repo }
    }

    /// Returns exactly what the store answers for `short_url`.
    pub fn execute(&self, short_url: &str) -> (r: Result<String, String>)
        ensures
            R::get.ensures((&self.repo(), short_url), r),
    {
        self.repo.get(short_url)
    }
}

/// `dashmap::DashMap`, a concurrent hash map that is changed through shared
/// references. Nothing inside it is visible to proofs.
#[verifier::external_type_specification]
#[verifier::external_body]
#[verifier::reject_recursive_types(K)]
#[verifier::reject_recursive_types(V)]
#[verifier::reject_recursive_types(S)]
pub struct ExDashMap<K, V, S>(DashMap<K, V, S>);

/// Calls `DashMap::insert`, which stores `value` under `key` and hands back
/// the value it replaced, if any. The map is shared, so nothing is claimed
/// about what was there before. The call could block for ever only while the
/// caller holds a reference into the map; none outlives a call here.
#[verifier::external_body]
fn store_insert(store: &DashMap<String, String>, key: String, value: String) -> (replaced: Option<
    String,
>) {
    store.insert(key, value)
}

/// Calls `DashMap::get` and copies the value out of the guard it returns,
/// which is dropped before the call ends. The map is shared, so nothing is
/// claimed about whether the key is present.
#[verifier::external_body]
fn store_get(store: &DashMap<String, String>, key: &str) -> (found: Option<String>) {
    match store.get(key) {
        Some(entry) => Some(entry.value().clone()),
        None => None,
    }
}

/// What a lookup answers once the store has been searched:
/// the stored link, or the not-found message.
pub open spec fn full_url_outcome_spec(found: Option<String>) -> Result<Seq<char>, Seq<char>> {
    match found {
        Some(full_url) => Ok(full_url@),
        None => Err(not_found()),
    }
}

/// The view of a lookup's answer.
pub open spec fn lookup_view(r: Result<String, String>) -> Result<Seq<char>, Seq<char>> {
    match r {
        Ok(v) => Ok(v@),
        Err(e) => Err(e@),
    }
}

/// Turns the result of searching the store into the lookup's answer.
pub fn full_url_outcome(found: Option<String>) -> (r: Result<String, String>)
    ensures
        lookup_view(r) == full_url_outcome_spec(found),
{
    match found {
        Some(full_url) => Ok(full_url),
        None => Err(String::from_str("Not Found")),
    }
}

/// A store kept in a shared concurrent map from short form to link.
#[derive(Clone)]
pub struct InMemoryRepository {
    store: Arc<DashMap<String, String>>,
}

impl InMemoryRepository {
    pub closed spec fn store(&self) -> Arc<DashMap<String, String>> {
        self.store
    }

    pub fn new(store: Arc<DashMap<String, String>>) -> (repo: Self)
        ensures
            repo.store() == store,
    {
        Self { store }
    }
}

impl CreateShortUrlRepository for InMemoryRepository {
    /// Stores `full_url` under `short_url`, replacing what was there. Never fails.
    fn save(&self, full_url: String, short_url: String) -> (r: Result<(), String>)
        ensures
            r == Ok::<(), String>(()),
    {
        let _ = store_insert(&self.store, short_url, full_url);
        Ok(())
    }
}

impl GetFullUrlRepository for InMemoryRepository {
    /// Answers with the link stored under `short_url`, or with the
    /// not-found message; it fails in no other way.
    fn get(&self, short_url: &str) -> (r: Result<String, String>)
        ensures
            r matches Err(e) ==> e@ == not_found(),
    {
        full_url_outcome(store_get(&self.store, short_url))
    }
}

/// Everything a running shortener needs, wired once.
pub struct Container<I, R, Q> where
    I: IDProvider,
    R: CreateShortUrlRepository,
    Q: GetFullUrlRepository,
 {
    pub shorten_command: CreateShortUrlCommand<I, R>,
    pub get_full_url_query: GetFullUrlQuery<Q>,
}

impl<I, R, Q> Container<I, R, Q> where
    I: IDProvider,
    R: CreateShortUrlRepository,
    Q: GetFullUrlRepository,
 {
    pub fn new(id_provider: I, create_repo: R, get_repo: Q) -> (container: Self)
        ensures
            container.shorten_command.id_provider() == id_provider,
            container.shorten_command.repo() == create_repo,
            container.get_full_url_query.repo() == get_repo,
    {
        Self {
            shorten_command: CreateShortUrlCommand::new(id_provider, create_repo),
            get_full_url_query: GetFullUrlQuery::new(get_repo),
        }
    }
}

/// Where the shortener listens and what it serves.
pub struct Server<I, R, Q> where
    I: IDProvider + Send + Sync + 'static,
    R: CreateShortUrlRepository + Send + Sync + 'static,
    Q: GetFullUrlRepository + Send + Sync + 'static,
 {
    port: u16,
    container: Arc<Container<I, R, Q>>,
}

impl<I, R, Q> Server<I, R, Q> where
    I: IDProvider + Send + Sync + 'static,
    R: CreateShortUrlRepository + Send + Sync + 'static,
    Q: GetFullUrlRepository + Send + Sync + 'static,
 {
    pub closed spec fn spec_port(&self) -> u16 {
        self.port
    }

    pub closed spec fn spec_container(&self) -> &Arc<Container<I, R, Q>> {
        &self.container
    }

    pub fn new(port: u16, container: Arc<Container<I, R, Q>>) -> (server: Self)
        ensures
            server.spec_port() == port,
            *server.spec_container() == container,
    {
        Server { port, container }
    }

    #[verifier::when_used_as_spec(spec_port)]
    pub fn port(&self) -> (port: u16)
        ensures
            port == self.spec_port(),
    {
        self.port
    }

    #[verifier::when_used_as_spec(spec_container)]
    pub fn container(&self) -> (container: &Arc<Container<I, R, Q>>)
        ensures
            container == self.spec_container(),
    {
        &self.container
    }

    /// The address to bind: all interfaces, this server's port.
    pub fn bind_address(&self) -> (addr: String)
        ensures
            addr@ == listen_address_spec(self.port()),
    {
        listen_address(self.port)
    }
}

} // verus!
