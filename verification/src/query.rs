//! The request side of the data-access adapter: a description of one
//! read against a resource of the data service, and the exact query
//! string, URL and headers it translates to. The transport that
//! sends the request lives outside the crate.

use vstd::prelude::*;

use crate::env::EnvConfig;
use crate::text::{spec_decimal, u64_to_string};

verus! {

/// One read request: a resource name with its column selection,
/// equality filters, ordering, result-size cap, and whether exactly
/// one object (rather than an array) is requested.
#[derive(Debug, PartialEq, Eq)]
pub struct ResourceQuery {
    pub table: String,
    pub select: Option<String>,
    pub filters: Vec<(String, String)>,
    pub order: Option<String>,
    pub limit: Option<u64>,
    pub single: bool,
}

/// Query parts joined with `&`.
pub open spec fn spec_amp_join(parts: Seq<Seq<char>>) -> Seq<char>
    decreases parts.len(),
{
    if parts.len() == 0 {
        Seq::empty()
    } else if parts.len() == 1 {
        parts[0]
    } else {
        spec_amp_join(parts.drop_last()) + "&"@ + parts.last()
    }
}

proof fn lemma_amp_join_push(parts: Seq<Seq<char>>, x: Seq<char>)
    ensures
        spec_amp_join(parts.push(x)) == if parts.len() == 0 {
            x
        } else {
            spec_amp_join(parts) + "&"@ + x
        },
{
    assert(parts.push(x).drop_last() =~= parts);
    assert(parts.push(x).last() == x);
}

/// The `select=` part, when a selection was given.
pub open spec fn spec_select_parts(q: ResourceQuery) -> Seq<Seq<char>> {
    match q.select {
        Some(s) => seq!["select="@ + s@],
        None => Seq::empty(),
    }
}

/// One equality filter, rendered as `column=eq.value`.
pub open spec fn spec_filter_parts(fs: Seq<(String, String)>) -> Seq<Seq<char>> {
    fs.map_values(|f: (String, String)| f.0@ + "=eq."@ + f.1@)
}

/// The `order=` part, when an ordering was given.
pub open spec fn spec_order_parts(q: ResourceQuery) -> Seq<Seq<char>> {
    match q.order {
        Some(o) => seq!["order="@ + o@],
        None => Seq::empty(),
    }
}

/// The `limit=` part, when a cap was given.
pub open spec fn spec_limit_parts(q: ResourceQuery) -> Seq<Seq<char>> {
    match q.limit {
        Some(n) => seq!["limit="@ + spec_decimal(n as nat)],
        None => Seq::empty(),
    }
}

/// All parts of the query string, in the order they are rendered.
pub open spec fn spec_query_parts(q: ResourceQuery) -> Seq<Seq<char>> {
    spec_select_parts(q) + spec_filter_parts(q.filters@) + spec_order_parts(q)
        + spec_limit_parts(q)
}

/// The exact query string a request description translates to.
pub open spec fn spec_query_string(q: ResourceQuery) -> Seq<char> {
    spec_amp_join(spec_query_parts(q))
}

/// Append one part to the string under construction, preceded by `&`
/// when something was already written.
fn append_part(s: &mut String, any: bool, part: &str)
    ensures
        final(s)@ == if any {
            old(s)@ + "&"@ + part@
        } else {
            old(s)@ + part@
        },
{
    if any {
        s.append("&");
    }
    s.append(part);
}

impl ResourceQuery {
    /// Narrow the returned columns.
    pub fn select(self, columns: &str) -> (q: ResourceQuery)
        ensures
            q.table == self.table,
            q.select matches Some(s) && s@ == columns@,
            q.filters == self.filters,
            q.order == self.order,
            q.limit == self.limit,
            q.single == self.single,
    {
        ResourceQuery { select: Some(String::from_str(columns)), ..self }
    }

    /// Constrain a column to equal a value.
    pub fn eq(self, column: &str, filter: &str) -> (q: ResourceQuery)
        ensures
            q.table == self.table,
            q.select == self.select,
            q.order == self.order,
            q.limit == self.limit,
            q.single == self.single,
            q.filters@.len() == self.filters@.len() + 1,
            forall|j: int| 0 <= j < self.filters@.len() ==> q.filters@[j] == self.filters@[j],
            q.filters@.last().0@ == column@,
            q.filters@.last().1@ == filter@,
    {
        let mut filters = self.filters;
        filters.push((String::from_str(column), String::from_str(filter)));
        ResourceQuery { filters, ..self }
    }

    /// Ask for an ordering, e.g. `created_at.desc`.
    pub fn order(self, ordering: &str) -> (q: ResourceQuery)
        ensures
            q.table == self.table,
            q.select == self.select,
            q.filters == self.filters,
            q.order matches Some(o) && o@ == ordering@,
            q.limit == self.limit,
            q.single == self.single,
    {
        ResourceQuery { order: Some(String::from_str(ordering)), ..self }
    }

    /// Cap the number of returned rows.
    pub fn limit(self, count: u64) -> (q: ResourceQuery)
        ensures
            q.table == self.table,
            q.select == self.select,
            q.filters == self.filters,
            q.order == self.order,
            q.limit == Some(count),
            q.single == self.single,
    {
        ResourceQuery { limit: Some(count), ..self }
    }

    /// Ask for exactly one object instead of an array.
    pub fn single(self) -> (q: ResourceQuery)
        ensures
            q.table == self.table,
            q.select == self.select,
            q.filters == self.filters,
            q.order == self.order,
            q.limit == self.limit,
            q.single == true,
    {
        ResourceQuery { single: true, ..self }
    }

    /// Render the query string.
    #[verifier::loop_isolation(false)]
    pub fn query_string(&self) -> (s: String)
        ensures
            s@ == spec_query_string(*self),
    {
        let mut s = String::new();
        let mut any = false;
        let ghost mut parts: Seq<Seq<char>> = Seq::<Seq<char>>::empty();
        proof {
            assert(spec_amp_join(parts) =~= s@);
        }
        if let Some(sel) = &self.select {
            let mut part = String::from_str("select=");
            part.append(sel.as_str());
            append_part(&mut s, any, part.as_str());
            any = true;
            proof {
                lemma_amp_join_push(parts, part@);
                parts = parts.push(part@);
            }
        }
        proof {
            assert(parts =~= spec_select_parts(*self) + spec_filter_parts(
                self.filters@.take(0),
            ));
        }
        let mut i: usize = 0;
        while i < self.filters.len()
            invariant
                i <= self.filters@.len(),
                s@ == spec_amp_join(parts),
                any == (parts.len() != 0),
                parts =~= spec_select_parts(*self) + spec_filter_parts(
                    self.filters@.take(i as int),
                ),
            decreases self.filters@.len() - i,
        {
            let mut part = String::from_str(self.filters[i].0.as_str());
            part.append("=eq.");
            part.append(self.filters[i].1.as_str());
            append_part(&mut s, any, part.as_str());
            any = true;
            proof {
                lemma_amp_join_push(parts, part@);
                parts = parts.push(part@);
                assert(self.filters@.take(i as int + 1) =~= self.filters@.take(i as int).push(
                    self.filters@[i as int],
                ));
                assert(spec_filter_parts(self.filters@.take(i as int + 1)) =~= spec_filter_parts(
                    self.filters@.take(i as int),
                ).push(part@));
                assert(parts =~= spec_select_parts(*self) + spec_filter_parts(
                    self.filters@.take(i as int + 1),
                ));
            }
            i += 1;
        }
        proof {
            assert(self.filters@.take(self.filters@.len() as int) =~= self.filters@);
        }
        if let Some(ord) = &self.order {
            let mut part = String::from_str("order=");
            part.append(ord.as_str());
            append_part(&mut s, any, part.as_str());
            any = true;
            proof {
                lemma_amp_join_push(parts, part@);
                parts = parts.push(part@);
            }
        }
        if let Some(n) = self.limit {
            let mut part = String::from_str("limit=");
            let rendered = u64_to_string(n);
            part.append(rendered.as_str());
            append_part(&mut s, any, part.as_str());
            any = true;
            proof {
                lemma_amp_join_push(parts, part@);
                parts = parts.push(part@);
            }
        }
        proof {
            assert(parts =~= spec_query_parts(*self));
        }
        s
    }

    /// The Accept header a single-object request carries.
    pub fn accept_header(&self) -> (h: Option<(String, String)>)
        ensures
            self.single ==> (h matches Some(p) && p.0@ == "Accept"@ && p.1@
                == "application/vnd.pgrst.object+json"@),
            !self.single ==> h is None,
    {
        if self.single {
            Some(
                (
                    String::from_str("Accept"),
                    String::from_str("application/vnd.pgrst.object+json"),
                ),
            )
        } else {
            None
        }
    }
}

/// The client half of the adapter: where requests go and which key
/// authenticates them.
#[derive(Debug, PartialEq, Eq)]
pub struct ServerSupabaseClient {
    pub rest_url: String,
    pub api_key: String,
}

impl ServerSupabaseClient {
    /// Point a client at a service base URL with its public API key.
    pub fn new(url: &str, api_key: &str) -> (c: ServerSupabaseClient)
        ensures
            c.rest_url@ == url@ + "/rest/v1"@,
            c.api_key@ == api_key@,
    {
        let mut rest_url = String::from_str(url);
        rest_url.append("/rest/v1");
        ServerSupabaseClient { rest_url, api_key: String::from_str(api_key) }
    }

    /// Begin a read against one resource.
    pub fn table(&self, table_name: &str) -> (q: ResourceQuery)
        ensures
            q.table@ == table_name@,
            q.select is None,
            q.filters@.len() == 0,
            q.order is None,
            q.limit is None,
            q.single == false,
    {
        ResourceQuery {
            table: String::from_str(table_name),
            select: None,
            filters: Vec::new(),
            order: None,
            limit: None,
            single: false,
        }
    }

    /// The two headers every request to the service carries: the API
    /// key, and the same key as a bearer token.
    pub fn headers(&self) -> (hs: Vec<(String, String)>)
        ensures
            hs@.len() == 2,
            hs@[0].0@ == "apikey"@,
            hs@[0].1@ == self.api_key@,
            hs@[1].0@ == "Authorization"@,
            hs@[1].1@ == "Bearer "@ + self.api_key@,
    {
        let mut hs: Vec<(String, String)> = Vec::new();
        hs.push((String::from_str("apikey"), self.api_key.clone()));
        let mut bearer = String::from_str("Bearer ");
        bearer.append(self.api_key.as_str());
        hs.push((String::from_str("Authorization"), bearer));
        hs
    }

    /// The full URL a request description translates to.
    pub fn request_url(&self, q: &ResourceQuery) -> (u: String)
        ensures
            u@ == self.rest_url@ + "/"@ + q.table@ + "?"@ + spec_query_string(*q),
    {
        let mut u = self.rest_url.clone();
        u.append("/");
        u.append(q.table.as_str());
        u.append("?");
        let qs = q.query_string();
        u.append(qs.as_str());
        u
    }
}

/// Build the client from the loaded configuration.
pub fn create_server_client(config: &EnvConfig) -> (c: ServerSupabaseClient)
    ensures
        c.rest_url@ == config.supabase_url@ + "/rest/v1"@,
        c.api_key@ == config.supabase_anon_key@,
{
    ServerSupabaseClient::new(config.supabase_url.as_str(), config.supabase_anon_key.as_str())
}

} // verus!
