//! Resource locations: how a dataset reference becomes a URL.

use vstd::prelude::*;
use vstd::string::*;

verus! {

/// Every relative resource is resolved against this prefix.
pub const BASE_URL: &'static str = "https://etfmatcher.com/data/";

/// File name of the ticker symbol map below [`BASE_URL`].
pub const SYMBOL_MAP_FILE: &'static str = "ticker_symbol_map.flatbuffers.bin";

/// The URL of `filename` below the base URL: plain concatenation, nothing
/// escaped or normalised.
pub open spec fn resource_url(filename: Seq<char>) -> Seq<char> {
    BASE_URL@ + filename
}

/// Whether `path` is taken as a complete URL: it begins, in exactly this
/// spelling, with `http://` or with `https://`.
pub open spec fn is_absolute_url(path: Seq<char>) -> bool {
    "http://"@.is_prefix_of(path) || "https://"@.is_prefix_of(path)
}

/// The URL that a dataset reference is fetched from.
pub open spec fn fetch_url(path: Seq<char>) -> Seq<char> {
    if is_absolute_url(path) {
        path
    } else {
        resource_url(path)
    }
}

/// A dataset reference, told apart by its form.
#[derive(Debug, PartialEq, Eq)]
pub enum ResourceLocation {
    /// A complete URL, used as it stands.
    Absolute(String),
    /// A file name below the base URL.
    Relative(String),
}

impl ResourceLocation {
    /// The URL this location stands for.
    pub open spec fn spec_url(self) -> Seq<char> {
        match self {
            ResourceLocation::Absolute(url) => url@,
            ResourceLocation::Relative(filename) => resource_url(filename@),
        }
    }

    /// The URL to fetch for this location.
    pub fn url(&self) -> (url: String)
        ensures
            url@ == self.spec_url(),
    {
        match self {
            ResourceLocation::Absolute(url) => url.clone(),
            ResourceLocation::Relative(filename) => get_resource_url(filename.as_str()),
        }
    }
}

/// Whether `text` begins with `prefix`, character by character.
fn starts_with(text: &str, prefix: &str) -> (found: bool)
    ensures
        found == prefix@.is_prefix_of(text@),
{
    let wanted = prefix.unicode_len();
    if text.unicode_len() < wanted {
        return false;
    }
    let mut i: usize = 0;
    while i < wanted
        invariant
            i <= wanted,
            wanted == prefix@.len(),
            wanted <= text@.len(),
            forall|j: int| 0 <= j < i ==> text@[j] == prefix@[j],
        decreases wanted - i,
    {
        if text.get_char(i) != prefix.get_char(i) {
            return false;
        }
        i += 1;
    }
    true
}

/// Builds the URL of `filename` below the base URL.
pub fn get_resource_url(filename: &str) -> (url: String)
    ensures
        url@ == resource_url(filename@),
{
    let mut url = String::from_str(BASE_URL);
    url.append(filename);
    url
}

/// The URL of the ticker symbol map.
pub fn get_symbol_map_url() -> (url: String)
    ensures
        url@ == resource_url(SYMBOL_MAP_FILE@),
{
    get_resource_url(SYMBOL_MAP_FILE)
}

/// Tells a complete URL from a bare file name.
pub fn locate_resource(path: &str) -> (location: ResourceLocation)
    ensures
        match location {
            ResourceLocation::Absolute(url) => is_absolute_url(path@) && url@ == path@,
            ResourceLocation::Relative(filename) => !is_absolute_url(path@) && filename@ == path@,
        },
        location.spec_url() == fetch_url(path@),
{
    if starts_with(path, "http://") || starts_with(path, "https://") {
        ResourceLocation::Absolute(String::from_str(path))
    } else {
        ResourceLocation::Relative(String::from_str(path))
    }
}

} // verus!
