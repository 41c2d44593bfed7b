//! The hub's settings: broker and store coordinates, queue and exchange
//! names, and the allow-lists of services and calling systems.
//!
//! A `Config` is built once at startup and handed by reference to whatever
//! needs it.

use crate::text::{
    cut, decimal, decimal_value, is_whitespace, parse_i32, parse_i32_range, split, split_ranges,
    to_chars, to_decimal, trim, trim_bounds, trim_end, trim_start,
};
use vstd::prelude::*;

verus! {

/// Everything the hub is told at startup.
#[derive(Debug)]
pub struct Config {
    pub rmq_user: String,
    pub rmq_password: String,
    pub rmq_host: String,
    pub rmq_port: u16,
    pub rmq_vhost: String,
    pub rmq_params: String,
    /// Queue on which client requests arrive.
    pub rmq_request_queue: String,
    pub rmq_response_queue: String,
    /// Queue on which delayed request copies arrive once their delay is over.
    pub rmq_timeout_queue: String,
    /// Queue on which services answer.
    pub rmq_service_response_queue: String,
    /// Queue that collects failure records.
    pub rmq_fail_table_queue: String,
    /// Exchange that holds a message back for the delay its header asks for.
    pub rmq_delayed_exchange: String,
    pub rmq_exchange: String,
    pub rmq_exchange_type: String,
    pub postgres_host: String,
    pub postgres_port: u16,
    pub postgres_db: String,
    pub postgres_password: String,
    pub postgres_user: String,
    pub postgres_pool_size: u8,
    /// Comma-separated ids of the services that requests may name.
    pub available_services: String,
    /// Comma-separated ids of the systems that may send requests.
    pub available_users: String,
}

/// The integers that a list of pieces writes, or `None` if one of them writes
/// none. Empty pieces are passed over; the others are trimmed before they are
/// read.
pub open spec fn ids_of(pieces: Seq<Seq<char>>) -> Option<Seq<i32>>
    decreases pieces.len(),
{
    if pieces.len() == 0 {
        Some(Seq::<i32>::empty())
    } else {
        match ids_of(pieces.drop_last()) {
            None => None,
            Some(before) => {
                let piece = pieces.last();
                if piece.len() == 0 {
                    Some(before)
                } else {
                    match parse_i32(trim(piece)) {
                        Some(id) => Some(before.push(id)),
                        None => None,
                    }
                }
            },
        }
    }
}

/// The ids that a comma-separated list names, or `None` if the list is
/// malformed.
pub open spec fn id_list(list: Seq<char>) -> Option<Seq<i32>> {
    ids_of(split(list, ','))
}

/// Reads a comma-separated list of ids.
pub fn parse_id_list(list: &str) -> (ids: Option<Vec<i32>>)
    ensures
        ids.deep_view() == id_list(list@),
{
    let chars = to_chars(list);
    let ranges = split_ranges(&chars, ',');
    let mut ids: Vec<i32> = Vec::new();
    let mut i: usize = 0;
    assert(cut(chars@, ranges@).take(0) =~= Seq::<Seq<char>>::empty());
    while i < ranges.len()
        invariant
            i <= ranges.len(),
            chars@ == list@,
            cut(chars@, ranges@) == split(list@, ','),
            forall|k: int|
                0 <= k < ranges@.len() ==> (#[trigger] ranges@[k]).0 <= ranges@[k].1
                    <= chars@.len(),
            ids_of(cut(chars@, ranges@).take(i as int)) == Some(ids@),
        decreases ranges.len() - i,
    {
        let ghost all = cut(chars@, ranges@);
        let range = ranges[i];
        assert(all.take(i as int + 1).drop_last() =~= all.take(i as int));
        assert(all.take(i as int + 1).last() == chars@.subrange(range.0 as int, range.1 as int));
        if range.0 < range.1 {
            let bounds = trim_bounds(&chars, range.0, range.1);
            match parse_i32_range(&chars, bounds.0, bounds.1) {
                Some(id) => {
                    ids.push(id);
                },
                None => {
                    proof {
                        lemma_ids_of_prefix_none(all, i as int + 1);
                    }
                    return None;
                },
            }
        }
        i = i + 1;
    }
    assert(cut(chars@, ranges@).take(ranges@.len() as int) =~= cut(chars@, ranges@));
    assert(ids.deep_view() =~= ids@);
    Some(ids)
}

/// Once a prefix of the pieces is malformed, so is the whole list.
proof fn lemma_ids_of_prefix_none(pieces: Seq<Seq<char>>, k: int)
    requires
        0 <= k <= pieces.len(),
        ids_of(pieces.take(k)) is None,
    ensures
        ids_of(pieces) is None,
    decreases pieces.len(),
{
    if k == pieces.len() {
        assert(pieces.take(k) =~= pieces);
    } else {
        assert(pieces.drop_last().take(k) =~= pieces.take(k));
        lemma_ids_of_prefix_none(pieces.drop_last(), k);
    }
}

impl Config {
    /// Whether both allow-lists can be read.
    pub open spec fn wf(&self) -> bool {
        &&& id_list(self.available_services@) is Some
        &&& id_list(self.available_users@) is Some
    }

    /// The ids of the services that requests may name.
    pub open spec fn services(&self) -> Seq<i32>
        recommends
            self.wf(),
    {
        id_list(self.available_services@)->0
    }

    /// The ids of the systems that may send requests.
    pub open spec fn systems(&self) -> Seq<i32>
        recommends
            self.wf(),
    {
        id_list(self.available_users@)->0
    }

    /// The address of the store.
    pub open spec fn postgres_url(&self) -> Seq<char> {
        "postgresql://"@ + self.postgres_user@ + ":"@ + self.postgres_password@ + "@"@
            + self.postgres_host@ + ":"@ + decimal(self.postgres_port as nat) + "/"@
            + self.postgres_db@
    }

    /// The address of the broker.
    pub open spec fn rmq_url(&self) -> Seq<char> {
        "amqp://"@ + self.rmq_user@ + ":"@ + self.rmq_password@ + "@"@ + self.rmq_host@ + ":"@
            + decimal(self.rmq_port as nat) + "/"@ + self.rmq_vhost@ + self.rmq_params@
    }

    /// Whether both allow-lists can be read, which the functions that use
    /// them ask for.
    pub fn is_valid(&self) -> (valid: bool)
        ensures
            valid == self.wf(),
    {
        parse_id_list(self.available_services.as_str()).is_some() && parse_id_list(
            self.available_users.as_str(),
        ).is_some()
    }

    /// The address of the store, put together from its parts.
    pub fn get_postgres_url(&self) -> (url: String)
        ensures
            url@ == self.postgres_url(),
    {
        let mut url = "postgresql://".to_owned();
        url.append(self.postgres_user.as_str());
        url.append(":");
        url.append(self.postgres_password.as_str());
        url.append("@");
        url.append(self.postgres_host.as_str());
        url.append(":");
        url.append(to_decimal(self.postgres_port as u128).as_str());
        url.append("/");
        url.append(self.postgres_db.as_str());
        url
    }

    /// The address of the broker, put together from its parts.
    pub fn get_rmq_url(&self) -> (url: String)
        ensures
            url@ == self.rmq_url(),
    {
        let mut url = "amqp://".to_owned();
        url.append(self.rmq_user.as_str());
        url.append(":");
        url.append(self.rmq_password.as_str());
        url.append("@");
        url.append(self.rmq_host.as_str());
        url.append(":");
        url.append(to_decimal(self.rmq_port as u128).as_str());
        url.append("/");
        url.append(self.rmq_vhost.as_str());
        url.append(self.rmq_params.as_str());
        url
    }

    /// The ids of the systems that may send requests. Their list must be
    /// well formed.
    pub fn get_available_systems(&self) -> (ids: Vec<i32>)
        requires
            id_list(self.available_users@) is Some,
        ensures
            ids@ == self.systems(),
    {
        let ids = parse_id_list(self.available_users.as_str());
        let ids = ids.unwrap();
        assert(ids.deep_view() =~= ids@);
        ids
    }

    /// The ids of the services that requests may name. Their list must be
    /// well formed.
    pub fn get_available_services(&self) -> (ids: Vec<i32>)
        requires
            id_list(self.available_services@) is Some,
        ensures
            ids@ == self.services(),
    {
        let ids = parse_id_list(self.available_services.as_str());
        let ids = ids.unwrap();
        assert(ids.deep_view() =~= ids@);
        ids
    }
}

impl Config {
    /// The settings that an empty environment gives: broker `rabbitmq:5672`,
    /// store `postgres:5432`, and service `1` and system `1` allowed.
    pub fn from_empty_env() -> (config: Self)
        ensures
            config.rmq_user@ == "user"@,
            config.rmq_password@ == "bitnami"@,
            config.rmq_host@ == "rabbitmq"@,
            config.rmq_port == 5672,
            config.rmq_vhost@ == "%2f"@,
            config.rmq_params@ == ""@,
            config.rmq_request_queue@ == "servicehub.q.request"@,
            config.rmq_response_queue@ == "servicehub.q.response"@,
            config.rmq_timeout_queue@ == "timeout_requests"@,
            config.rmq_service_response_queue@ == "servicehub.q.service_response"@,
            config.rmq_fail_table_queue@ == "servicehub.q.fail_table"@,
            config.rmq_delayed_exchange@ == "delayed_exchange"@,
            config.rmq_exchange@ == "servicehub"@,
            config.rmq_exchange_type@ == "direct"@,
            config.postgres_host@ == "postgres"@,
            config.postgres_port == 5432,
            config.postgres_db@ == "servicehub"@,
            config.postgres_password@ == ""@,
            config.postgres_user@ == "servicehub"@,
            config.postgres_pool_size == 5,
            config.available_services@ == "1"@,
            config.available_users@ == "1"@,
            config.wf(),
            config.services() == seq![1i32],
            config.systems() == seq![1i32],
    {
        proof {
            lemma_single_id_list();
        }
        Config {
            rmq_user: "user".to_owned(),
            rmq_password: "bitnami".to_owned(),
            rmq_host: "rabbitmq".to_owned(),
            rmq_port: 5672,
            rmq_vhost: "%2f".to_owned(),
            rmq_params: "".to_owned(),
            rmq_request_queue: "servicehub.q.request".to_owned(),
            rmq_response_queue: "servicehub.q.response".to_owned(),
            rmq_timeout_queue: "timeout_requests".to_owned(),
            rmq_service_response_queue: "servicehub.q.service_response".to_owned(),
            rmq_fail_table_queue: "servicehub.q.fail_table".to_owned(),
            rmq_delayed_exchange: "delayed_exchange".to_owned(),
            rmq_exchange: "servicehub".to_owned(),
            rmq_exchange_type: "direct".to_owned(),
            postgres_host: "postgres".to_owned(),
            postgres_port: 5432,
            postgres_db: "servicehub".to_owned(),
            postgres_password: "".to_owned(),
            postgres_user: "servicehub".to_owned(),
            postgres_pool_size: 5,
            available_services: "1".to_owned(),
            available_users: "1".to_owned(),
        }
    }
}

impl Default for Config {
    /// Settings that say nothing: every text is empty, every number is zero,
    /// and nobody is allowed.
    fn default() -> (config: Self)
        ensures
            config.rmq_user@ == Seq::<char>::empty(),
            config.rmq_password@ == Seq::<char>::empty(),
            config.rmq_host@ == Seq::<char>::empty(),
            config.rmq_port == 0,
            config.rmq_vhost@ == Seq::<char>::empty(),
            config.rmq_params@ == Seq::<char>::empty(),
            config.rmq_request_queue@ == Seq::<char>::empty(),
            config.rmq_response_queue@ == Seq::<char>::empty(),
            config.rmq_timeout_queue@ == Seq::<char>::empty(),
            config.rmq_service_response_queue@ == Seq::<char>::empty(),
            config.rmq_fail_table_queue@ == Seq::<char>::empty(),
            config.rmq_delayed_exchange@ == Seq::<char>::empty(),
            config.rmq_exchange@ == Seq::<char>::empty(),
            config.rmq_exchange_type@ == Seq::<char>::empty(),
            config.postgres_host@ == Seq::<char>::empty(),
            config.postgres_port == 0,
            config.postgres_db@ == Seq::<char>::empty(),
            config.postgres_password@ == Seq::<char>::empty(),
            config.postgres_user@ == Seq::<char>::empty(),
            config.postgres_pool_size == 0,
            config.available_services@ == Seq::<char>::empty(),
            config.available_users@ == Seq::<char>::empty(),
            config.wf(),
            config.services() == Seq::<i32>::empty(),
            config.systems() == Seq::<i32>::empty(),
    {
        proof {
            lemma_empty_id_list();
        }
        Config {
            rmq_user: String::new(),
            rmq_password: String::new(),
            rmq_host: String::new(),
            rmq_port: 0,
            rmq_vhost: String::new(),
            rmq_params: String::new(),
            rmq_request_queue: String::new(),
            rmq_response_queue: String::new(),
            rmq_timeout_queue: String::new(),
            rmq_service_response_queue: String::new(),
            rmq_fail_table_queue: String::new(),
            rmq_delayed_exchange: String::new(),
            rmq_exchange: String::new(),
            rmq_exchange_type: String::new(),
            postgres_host: String::new(),
            postgres_port: 0,
            postgres_db: String::new(),
            postgres_password: String::new(),
            postgres_user: String::new(),
            postgres_pool_size: 0,
            available_services: String::new(),
            available_users: String::new(),
        }
    }
}

/// An empty list names no id, and is well formed.
proof fn lemma_empty_id_list()
    ensures
        id_list(Seq::<char>::empty()) == Some(Seq::<i32>::empty()),
{
    let pieces = split(Seq::<char>::empty(), ',');
    assert(pieces =~= seq![Seq::<char>::empty()]);
    assert(pieces.drop_last() =~= Seq::<Seq<char>>::empty());
    assert(ids_of(pieces.drop_last()) == Some(Seq::<i32>::empty()));
    assert(pieces.last().len() == 0);
}

/// A list that names the single id `1` is well formed.
proof fn lemma_single_id_list()
    ensures
        id_list("1"@) == Some(seq![1i32]),
{
    reveal_strlit("1");
    let s = "1"@;
    assert(s =~= seq!['1']);
    assert(s.drop_last() =~= Seq::<char>::empty());
    assert(split(s.drop_last(), ',') =~= seq![Seq::<char>::empty()]);
    let pieces = split(s, ',');
    assert(pieces =~= seq![s]);
    assert(pieces.drop_last() =~= Seq::<Seq<char>>::empty());
    assert(trim(s) =~= s) by {
        assert(!is_whitespace('1'));
        assert(trim_start(s) == s);
        assert(trim_end(s) == s);
    }
    assert(decimal_value(s) == Some(1nat));
    assert(parse_i32(s) == Some(1i32));
    assert(ids_of(pieces.drop_last()) == Some(Seq::<i32>::empty()));
    assert(pieces.last() == s);
    assert(ids_of(pieces) is Some);
    assert(ids_of(pieces)->0 =~= seq![1i32]);
}

} // verus!
