//! Collects what is needed to open the hub's connections.

use vstd::prelude::*;

verus! {

/// Where the relational store is and how many connections to keep open.
struct SqlConnection {
    url: String,
    max_pool_size: u8,
}

/// Collects the addresses of the broker and of the store before any
/// connection is opened.
pub struct ConnectionBuilder {
    rmq_url: String,
    sql_connection: SqlConnection,
}

impl ConnectionBuilder {
    /// The broker address collected so far.
    pub closed spec fn spec_rmq_url(&self) -> Seq<char> {
        self.rmq_url@
    }

    /// The store address collected so far.
    pub closed spec fn spec_sql_url(&self) -> Seq<char> {
        self.sql_connection.url@
    }

    /// The pool size collected so far.
    pub closed spec fn spec_max_pool_size(&self) -> u8 {
        self.sql_connection.max_pool_size
    }

    /// A builder that knows no address yet.
    pub fn new() -> (builder: Self)
        ensures
            builder.spec_rmq_url() == Seq::<char>::empty(),
            builder.spec_sql_url() == Seq::<char>::empty(),
            builder.spec_max_pool_size() == 0,
    {
        ConnectionBuilder {
            rmq_url: String::new(),
            sql_connection: SqlConnection { url: String::new(), max_pool_size: 0 },
        }
    }

    /// The same builder with the broker at `url`.
    pub fn with_rmq_url(self, url: String) -> (builder: Self)
        ensures
            builder.spec_rmq_url() == url@,
            builder.spec_sql_url() == self.spec_sql_url(),
            builder.spec_max_pool_size() == self.spec_max_pool_size(),
    {
        ConnectionBuilder { rmq_url: url, sql_connection: self.sql_connection }
    }

    /// The same builder with the store at `url` and a pool of the given size.
    pub fn with_sql_pool(self, url: String, max_pool_size: u8) -> (builder: Self)
        ensures
            builder.spec_rmq_url() == self.spec_rmq_url(),
            builder.spec_sql_url() == url@,
            builder.spec_max_pool_size() == max_pool_size,
    {
        ConnectionBuilder {
            rmq_url: self.rmq_url,
            sql_connection: SqlConnection { url, max_pool_size },
        }
    }

    /// The broker address collected so far.
    pub fn rmq_url(&self) -> (url: &str)
        ensures
            url@ == self.spec_rmq_url(),
    {
        self.rmq_url.as_str()
    }

    /// The store address collected so far.
    pub fn sql_url(&self) -> (url: &str)
        ensures
            url@ == self.spec_sql_url(),
    {
        self.sql_connection.url.as_str()
    }

    /// The pool size collected so far.
    pub fn max_pool_size(&self) -> (size: u8)
        ensures
            size == self.spec_max_pool_size(),
    {
        self.sql_connection.max_pool_size
    }
}

impl Default for ConnectionBuilder {
    fn default() -> (builder: Self)
        ensures
            builder.spec_rmq_url() == Seq::<char>::empty(),
            builder.spec_sql_url() == Seq::<char>::empty(),
            builder.spec_max_pool_size() == 0,
    {
        ConnectionBuilder::new()
    }
}

} // verus!
