//! The calls of the API, resource by resource. Each function plans one
//! call: it says which method goes to which URL, and sends nothing.

pub mod clients;
pub mod connections;
pub mod logs;
pub mod users;

use vstd::prelude::*;
use vstd::string::*;
use crate::client::ManagementClient;
use crate::encoding::{encode_query, encode_segment, form_encode_pairs, pairs_text, path_segment};
use crate::endpoint::{planned, Endpoint, Method};
use crate::error::{yields_view, Auth0Error};

verus! {

/// The path of one item: `id` as one segment between `prefix` and `suffix`.
pub open spec fn item_path(prefix: Seq<char>, id: Seq<char>, suffix: Seq<char>) -> Seq<char> {
    prefix + path_segment(id) + suffix
}

/// `path` with the query that `pairs` make, where there are any: `?` and the
/// pairs in form encoding. A list without pairs still gives the `?`.
pub open spec fn with_query(path: Seq<char>, pairs: Option<Seq<(Seq<char>, Seq<char>)>>) -> Seq<
    char,
> {
    match pairs {
        Some(p) => path + "?"@ + form_encode_pairs(p),
        None => path,
    }
}

/// The names and values of an optional list of pairs.
pub open spec fn opt_pairs_text(pairs: Option<Vec<(String, String)>>) -> Option<
    Seq<(Seq<char>, Seq<char>)>,
> {
    match pairs {
        Some(p) => Some(pairs_text(p@)),
        None => None,
    }
}

/// Writes the path of one item, with `id` percent-encoded so that it stays
/// one segment whatever it holds.
pub fn build_item_path(prefix: &str, id: &str, suffix: &str) -> (path: String)
    ensures
        path@ == item_path(prefix@, id@, suffix@),
{
    let segment = encode_segment(id);
    String::from_str(prefix).concat(segment.as_str()).concat(suffix)
}

impl ManagementClient {
    /// Plans the call of `method` on `path` under the base URL, with the
    /// query that `pairs` make.
    pub fn request(&self, method: Method, path: String, pairs: Option<Vec<(String, String)>>) -> (r:
        Result<Endpoint, Auth0Error>)
        ensures
            yields_view(
                r,
                planned(self@.base_url, method, with_query(path@, opt_pairs_text(pairs))),
            ),
    {
        match pairs {
            Some(p) => match encode_query(&p) {
                Ok(query) => {
                    let reference = path.concat("?").concat(query.as_str());
                    self.endpoint(method, reference.as_str())
                },
                Err(message) => Err(Auth0Error::Configuration(message)),
            },
            None => self.endpoint(method, path.as_str()),
        }
    }
}

} // verus!
