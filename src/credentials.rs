//! Credentials and endpoints of the outside services, and the memory
//! record stored for a mention that is answered.

use vstd::prelude::*;
use crate::mentions::Mention;
use crate::text::{decimal, decimal_string};

verus! {

/// OAuth 1.0a keys of the social platform's client.
pub struct TwitterAuth {
    pub api_key: String,
    pub api_secret: String,
    pub access_token: String,
    pub access_token_secret: String,
}

/// Keys of the social platform as the process configuration holds them.
pub struct TwitterCredentials {
    pub api_key: String,
    pub api_secret: String,
    pub access_token: String,
    pub access_token_secret: String,
}

/// Where the document store lives.
pub struct MongoCredentials {
    pub conn_url: String,
    pub db: String,
    pub collection: String,
}

/// Where the document store lives, with its vector and stats collections.
pub struct Credentials {
    pub conn_url: String,
    pub db: String,
    pub vec_collection: String,
    pub stats_collection: String,
}

/// A text kept in the persona's vector memory.
#[derive(Debug)]
pub struct Message {
    pub id: String,
    pub content: String,
}

/// The memory id of a mention: `tweet_` and its id.
pub open spec fn mention_memory_id(id: u64) -> Seq<char> {
    seq!['t', 'w', 'e', 'e', 't', '_'] + decimal(id as nat)
}

impl Message {
    /// The memory record of a mention: id `tweet_<id>`, content its text.
    pub fn for_mention(m: &Mention) -> (r: Message)
        ensures
            r.id@ == mention_memory_id(m.id),
            r.content == m.text,
    {
        let mut id = String::from_str("tweet_");
        let digits = decimal_string(m.id);
        id.append(digits.as_str());
        proof {
            reveal_strlit("tweet_");
            assert(id@ =~= mention_memory_id(m.id));
        }
        Message { id, content: m.text.clone() }
    }
}

} // verus!
