//! Request framing and the decode-failure policy of each resource.

use vstd::prelude::*;
use vstd::string::StringExecFns;

use crate::data_types::{ObjectInfoRequest, ObjectResponse, ServerInfo, WorldSize};

verus! {

/// The resources that a remote engine serves, each under a fixed path.
#[derive(Clone, Copy, Debug, PartialEq, Eq, Structural)]
pub enum Endpoint {
    Objects,
    ObjectInfo,
    Info,
    WorldSize,
}

impl Endpoint {
    pub open spec fn path_spec(self) -> Seq<char> {
        match self {
            Endpoint::Objects => "/objects"@,
            Endpoint::ObjectInfo => "/object_info"@,
            Endpoint::Info => "/info"@,
            Endpoint::WorldSize => "/world_size"@,
        }
    }

    /// The path of this resource under the server's address.
    pub fn path(&self) -> (r: String)
        ensures
            r@ == self.path_spec(),
    {
        match *self {
            Endpoint::Objects => "/objects".to_owned(),
            Endpoint::ObjectInfo => "/object_info".to_owned(),
            Endpoint::Info => "/info".to_owned(),
            Endpoint::WorldSize => "/world_size".to_owned(),
        }
    }
}

/// The URL of `endpoint` on the server at `addr` (host and port).
pub fn endpoint_url(addr: &str, endpoint: Endpoint) -> (r: String)
    ensures
        r@ == "http://"@ + addr@ + endpoint.path_spec(),
{
    let mut url = "http://".to_owned();
    url.append(addr);
    let path = endpoint.path();
    url.append(path.as_str());
    url
}

/// User name of the basic-auth header that every request carries; the
/// password is empty.
pub fn auth_username() -> (r: String)
    ensures
        r@ == "admin"@,
{
    "admin".to_owned()
}

/// Lower-case hexadecimal digit of `d` (0 to 15).
pub open spec fn hex_digit(d: int) -> char {
    "0123456789abcdef"@[d]
}

/// JSON escape of one character: quote, backslash, control characters
/// and DEL are escaped, everything else stands as it is.
pub open spec fn json_escape_char(c: char) -> Seq<char> {
    if c == '"' {
        seq!['\\', '"']
    } else if c == '\\' {
        seq!['\\', '\\']
    } else if c == '\x08' {
        seq!['\\', 'b']
    } else if c == '\t' {
        seq!['\\', 't']
    } else if c == '\n' {
        seq!['\\', 'n']
    } else if c == '\x0c' {
        seq!['\\', 'f']
    } else if c == '\r' {
        seq!['\\', 'r']
    } else if (c as u32) < 0x20 || c as u32 == 0x7f {
        seq!['\\', 'u', '0', '0', hex_digit((c as u32 / 16) as int), hex_digit((c as u32 % 16) as int)]
    } else {
        seq![c]
    }
}

pub open spec fn json_escape(s: Seq<char>) -> Seq<char>
    decreases s.len(),
{
    if s.len() == 0 {
        Seq::empty()
    } else {
        json_escape(s.drop_last()) + json_escape_char(s.last())
    }
}

/// `s` as a JSON string literal.
pub open spec fn json_quoted(s: Seq<char>) -> Seq<char> {
    seq!['"'] + json_escape(s) + seq!['"']
}

/// Relies on rustc_serialize::json::encode of a `String`: the escaped
/// string between double quotes. Its writer is a `String`, whose
/// `fmt::Write` never fails, so the error arm is never taken.
#[verifier::external_body]
fn json_string_literal(s: &String) -> (r: String)
    ensures
        r@ == json_quoted(s@),
{
    match rustc_serialize::json::encode(s) {
        Ok(t) => t,
        Err(_) => String::new(),
    }
}

impl ObjectInfoRequest {
    /// JSON body of the by-name object query.
    pub fn to_json(&self) -> (r: String)
        ensures
            r@ == "{\"name\":"@ + json_quoted(self.name@) + "}"@,
    {
        let mut body = "{\"name\":".to_owned();
        let quoted = json_string_literal(&self.name);
        body.append(quoted.as_str());
        body.append("}");
        body
    }
}

/// No two entries of a listing share a name.
pub open spec fn listing_keyed(items: Seq<ObjectResponse>) -> bool {
    forall|i: int, j: int|
        0 <= i < items.len() && 0 <= j < items.len() && i != j ==> #[trigger] items[i].name@
            != #[trigger] items[j].name@
}

/// `o` inserted by name: it replaces the entry of the same name, or is
/// appended.
pub open spec fn keyed_insert(items: Seq<ObjectResponse>, o: ObjectResponse) -> Seq<
    ObjectResponse,
> {
    if exists|i: int| 0 <= i < items.len() && #[trigger] items[i].name@ == o.name@ {
        items.update(choose|i: int| 0 <= i < items.len() && #[trigger] items[i].name@ == o.name@, o)
    } else {
        items.push(o)
    }
}

/// A decoded listing keyed by name; of entries sharing a name the last
/// one stands, at the place of the first.
pub open spec fn keyed_listing(items: Seq<ObjectResponse>) -> Seq<ObjectResponse>
    decreases items.len(),
{
    if items.len() == 0 {
        Seq::empty()
    } else {
        keyed_insert(keyed_listing(items.drop_last()), items.last())
    }
}

fn find_listed(items: &Vec<ObjectResponse>, name: &String) -> (r: Option<usize>)
    ensures
        match r {
            Some(k) => k < items@.len() && items@[k as int].name@ == name@,
            None => forall|m: int| 0 <= m < items@.len() ==> #[trigger] items@[m].name@ != name@,
        },
{
    let mut k: usize = 0;
    while k < items.len()
        invariant
            k <= items@.len(),
            forall|m: int| 0 <= m < k ==> #[trigger] items@[m].name@ != name@,
        decreases items@.len() - k,
    {
        if items[k].name == *name {
            return Some(k);
        }
        k = k + 1;
    }
    None
}

/// The object cache built from a bulk listing; a listing that failed to
/// decode yields an empty cache.
pub fn objects_from_listing(parsed: Option<Vec<ObjectResponse>>) -> (r: Vec<ObjectResponse>)
    ensures
        listing_keyed(r@),
        r@ == match parsed {
            Some(v) => keyed_listing(v@),
            None => Seq::empty(),
        },
{
    let items = match parsed {
        Some(v) => v,
        None => {
            return Vec::new();
        },
    };
    let mut result: Vec<ObjectResponse> = Vec::new();
    let mut i: usize = 0;
    while i < items.len()
        invariant
            i <= items@.len(),
            listing_keyed(result@),
            result@ == keyed_listing(items@.take(i as int)),
        decreases items@.len() - i,
    {
        let o = items[i].duplicate();
        assert(items@.take(i as int + 1).drop_last() =~= items@.take(i as int));
        let found = find_listed(&result, &o.name);
        match found {
            Some(k) => {
                proof {
                    let c = choose|m: int|
                        0 <= m < result@.len() && #[trigger] result@[m].name@ == o.name@;
                    assert(result@[k as int].name@ == o.name@);
                    assert(c == k);
                }
                result.set(k, o);
            },
            None => {
                result.push(o);
            },
        }
        i = i + 1;
    }
    assert(items@.take(items@.len() as int) =~= items@);
    result
}

/// The decoded server status, or the error sentinel when it failed to
/// decode.
pub fn server_info_or_sentinel(parsed: Option<ServerInfo>) -> (r: ServerInfo)
    ensures
        match parsed {
            Some(info) => r == info,
            None => r.name@ == "ErrorName"@ && r.status@ == "ErrorStatus"@ && r.tps == 0,
        },
{
    match parsed {
        Some(info) => info,
        None => ServerInfo { name: "ErrorName".to_owned(), status: "ErrorStatus".to_owned(), tps: 0 },
    }
}

/// The decoded world size, or the empty extent when it failed to decode.
pub fn world_size_or_sentinel(parsed: Option<WorldSize>) -> (r: WorldSize)
    ensures
        r == match parsed {
            Some(size) => size,
            None => WorldSize { width: 0, height: 0 },
        },
{
    match parsed {
        Some(size) => size,
        None => WorldSize { width: 0, height: 0 },
    }
}

} // verus!
