//! Reading the pass's configuration from its JSON text.
use vstd::prelude::*;
use crate::rewrite::Config;

verus! {

#[verifier::external_type_specification]
#[verifier::external_body]
pub struct ExJsonError(serde_json::Error);

/// The key/value map that a JSON text denotes when read as an object whose
/// values are all strings; `None` when it cannot be read so.
pub uninterp spec fn json_string_map(text: Seq<char>) -> Option<Map<Seq<char>, Seq<char>>>;

/// `pairs` lists exactly the entries of `m`, in some order.
pub open spec fn lists_map(pairs: Seq<(String, String)>, m: Map<Seq<char>, Seq<char>>) -> bool {
    &&& forall|i: int|
        0 <= i < pairs.len() ==> m.contains_key(#[trigger] pairs[i].0@) && m[pairs[i].0@]
            == pairs[i].1@
    &&& forall|k: Seq<char>|
        #[trigger] m.contains_key(k) ==> exists|i: int| 0 <= i < pairs.len() && pairs[i].0@ == k
}

/// Relies on serde_json::from_str into a `HashMap<String, String>`: the text either
/// fails to parse or gives one key/value map, which is handed on as its entries,
/// in the map's iteration order.
#[verifier::external_body]
fn parse_string_map(text: &str) -> (r: Result<Vec<(String, String)>, serde_json::Error>)
    ensures
        (r is Ok) == (json_string_map(text@) is Some),
        r matches Ok(pairs) ==> lists_map(pairs@, json_string_map(text@)->Some_0),
{
    serde_json::from_str::<std::collections::HashMap<String, String>>(text).map(
        |m| m.into_iter().collect(),
    )
}

/// Why a configuration could not be read.
#[derive(Debug, PartialEq, Eq)]
pub enum ConfigError {
    /// The text is not a JSON object of string values.
    ConfigurationInvalid,
}

/// The configuration key that holds the prefix.
pub open spec fn prefix_key() -> Seq<char> {
    "modulePrefix"@
}

/// The prefix a configuration map gives: its `modulePrefix` entry, or empty.
pub open spec fn prefix_in(m: Map<Seq<char>, Seq<char>>) -> Seq<char> {
    if m.contains_key(prefix_key()) {
        m[prefix_key()]
    } else {
        Seq::empty()
    }
}

impl Config {
    /// The configuration that a list of entries gives: the value of the first
    /// `modulePrefix` entry, or an empty prefix where there is none.
    pub fn from_entries(pairs: &Vec<(String, String)>) -> (r: Config)
        ensures
            (exists|i: int|
                0 <= i < pairs@.len() && #[trigger] pairs@[i].0@ == prefix_key() && r.module_prefix@
                    == pairs@[i].1@ && forall|j: int|
                    0 <= j < i ==> (#[trigger] pairs@[j]).0@ != prefix_key())
                || ((forall|i: int| 0 <= i < pairs@.len() ==> (#[trigger] pairs@[i]).0@ != prefix_key())
                && r.module_prefix@ == Seq::<char>::empty()),
    {
        let key = "modulePrefix".to_owned();
        let n = pairs.len();
        let mut i: usize = 0;
        while i < n
            invariant
                n == pairs@.len(),
                i <= n,
                key@ == prefix_key(),
                forall|j: int| 0 <= j < i ==> (#[trigger] pairs@[j]).0@ != prefix_key(),
            decreases n - i,
        {
            if pairs[i].0 == key {
                return Config { module_prefix: pairs[i].1.clone() };
            }
            i = i + 1;
        }
        Config { module_prefix: String::new() }
    }

    /// Reads a configuration from its JSON text, an object of string values; a
    /// missing `modulePrefix` gives an empty prefix.
    pub fn from_json(text: &str) -> (r: Result<Config, ConfigError>)
        ensures
            (r is Err) == (json_string_map(text@) is None),
            r matches Ok(c) ==> c.module_prefix@ == prefix_in(json_string_map(text@)->Some_0),
    {
        match parse_string_map(text) {
            Err(_) => Err(ConfigError::ConfigurationInvalid),
            Ok(pairs) => {
                let c = Config::from_entries(&pairs);
                Ok(c)
            },
        }
    }
}

} // verus!
