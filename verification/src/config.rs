//! Configuration for the bootstrap operation: the privileged root identity,
//! the least-privilege application identity, and the network target.

use vstd::prelude::*;

verus! {

/// The privileged principal used only while provisioning, together with the
/// maintenance database the privileged session connects to.
#[derive(Clone, Debug)]
pub struct RootConfig {
    pub username: String,
    pub password: String,
    pub database: String,
}

impl RootConfig {
    pub fn new(username: String, password: String, database: String) -> (r: Self)
        ensures
            r.username == username,
            r.password == password,
            r.database == database,
    {
        Self { username, password, database }
    }
}

/// The least-privilege principal the application will use permanently, and
/// the database to be created for it.
#[derive(Clone, Debug)]
pub struct ApplicationConfig {
    pub username: String,
    pub password: String,
    pub database: String,
}

impl ApplicationConfig {
    pub fn new(username: String, password: String, database: String) -> (r: Self)
        ensures
            r.username == username,
            r.password == password,
            r.database == database,
    {
        Self { username, password, database }
    }
}

/// Network location of the server; independent of either identity.
#[derive(Clone, Debug)]
pub struct ConnectionConfig {
    pub host: String,
    pub port: u16,
}

impl ConnectionConfig {
    pub fn new(host: String, port: u16) -> (r: Self)
        ensures
            r.host == host,
            r.port == port,
    {
        Self { host, port }
    }
}

/// Everything a bootstrap run needs. Immutable once constructed; owns no
/// connections.
#[derive(Clone, Debug)]
pub struct BootstrapConfig {
    pub root: RootConfig,
    pub app: ApplicationConfig,
    pub conn: ConnectionConfig,
}

impl BootstrapConfig {
    pub fn new(root: RootConfig, app: ApplicationConfig, conn: ConnectionConfig) -> (r: Self)
        ensures
            r.root == root,
            r.app == app,
            r.conn == conn,
    {
        Self { root, app, conn }
    }
}

} // verus!
