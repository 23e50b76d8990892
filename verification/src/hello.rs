//! A greeting query over a pluggable repository, and the server settings
//! that expose it.

use std::sync::Arc;
use vstd::prelude::*;

use crate::address::{listen_address, listen_address_spec};

verus! {

/// The text every stock repository greets with.
pub open spec fn hello_world() -> Seq<char> {
    "Hello, world!"@
}

/// A source of the greeting.
pub trait Repository {
    fn get_hello_world(&self) -> &'static str;
}

/// The query that asks a repository for its greeting.
pub struct GetHelloWorld<R> where R: Repository {
    repo: R,
}

impl<R> GetHelloWorld<R> where R: Repository {
    /// The repository this query reads.
    pub closed spec fn repo(&self) -> R {
        self.repo
    }

    pub fn new(repo: R) -> (query: Self)
        ensures
            query.repo() == repo,
    {
        Self { repo }
    }

    /// Returns exactly what the repository answers.
    pub fn execute(&self) -> (greeting: &'static str)
        ensures
            R::get_hello_world.ensures((&self.repo(),), greeting),
    {
        self.repo.get_hello_world()
    }
}

/// The repository that always greets the world.
#[derive(Default)]
pub struct InMemoryRepo;

impl Repository for InMemoryRepo {
    fn get_hello_world(&self) -> (greeting: &'static str)
        ensures
            greeting@ == hello_world(),
    {
        "Hello, world!"
    }
}

/// Everything a running service needs, wired once.
pub struct Container<R> where R: Repository {
    pub hello_world_query: GetHelloWorld<R>,
}

impl<R> Container<R> where R: Repository {
    pub fn new(repository: R) -> (container: Self)
        ensures
            container.hello_world_query.repo() == repository,
    {
        Self { hello_world_query: GetHelloWorld::new(repository) }
    }
}

/// Where the greeting service listens and what it serves.
pub struct Server<R> where R: Repository + Send + Sync + 'static {
    port: u16,
    container: Arc<Container<R>>,
}

impl<R> Server<R> where R: Repository + Send + Sync + 'static {
    pub closed spec fn spec_port(&self) -> u16 {
        self.port
    }

    pub closed spec fn spec_container(&self) -> &Arc<Container<R>> {
        &self.container
    }

    pub fn new(port: u16, container: Arc<Container<R>>) -> (server: Self)
        ensures
            server.spec_port() == port,
            *server.spec_container() == container,
    {
        Self { port, container }
    }

    #[verifier::when_used_as_spec(spec_port)]
    pub fn port(&self) -> (port: u16)
        ensures
            port == self.spec_port(),
    {
        self.port
    }

    #[verifier::when_used_as_spec(spec_container)]
    pub fn container(&self) -> (container: &Arc<Container<R>>)
        ensures
            container == self.spec_container(),
    {
        &self.container
    }

    /// The address to bind: all interfaces, this server's port.
    pub fn bind_address(&self) -> (addr: String)
        ensures
            addr@ == listen_address_spec(self.port()),
    {
        listen_address(self.port)
    }
}

} // verus!
