//! Keys under which records and counters are kept in the cache.

use vstd::prelude::*;
use vstd::string::*;

verus! {

/// The cache key of one record: the schema, an underscore, the primary key.
pub open spec fn record_key(schema: Seq<char>, primary_key: Seq<char>) -> Seq<char> {
    schema + "_"@ + primary_key
}

/// The cache key of a record's auxiliary entry: schema, the entry's name and
/// the record's id, joined by underscores.
pub open spec fn auxiliary_key(schema: Seq<char>, additional_key: Seq<char>, id_key: Seq<char>) -> Seq<char> {
    schema + "_"@ + additional_key + "_"@ + id_key
}

pub fn get_redis_key(schema: &str, primary_key: &str) -> (key: String)
    ensures
        key@ == record_key(schema@, primary_key@),
{
    let mut key = schema.to_owned();
    key.append("_");
    key.append(primary_key);
    key
}

pub fn get_redis_key_from_keys(schema: &str, additional_key: &str, id_key: &str) -> (key: String)
    ensures
        key@ == auxiliary_key(schema@, additional_key@, id_key@),
{
    let mut key = schema.to_owned();
    key.append("_");
    key.append(additional_key);
    key.append("_");
    key.append(id_key);
    key
}

/// Within one schema, distinct primary keys are cached under distinct keys.
pub proof fn lemma_record_key_injective(schema: Seq<char>, a: Seq<char>, b: Seq<char>)
    requires
        record_key(schema, a) == record_key(schema, b),
    ensures
        a == b,
{
    reveal_strlit("_");
    let n = schema.len() + 1;
    assert(record_key(schema, a).skip(n as int) =~= a);
    assert(record_key(schema, b).skip(n as int) =~= b);
}

/// For one schema and one entry name, distinct ids give distinct keys.
pub proof fn lemma_auxiliary_key_injective(
    schema: Seq<char>,
    additional_key: Seq<char>,
    a: Seq<char>,
    b: Seq<char>,
)
    requires
        auxiliary_key(schema, additional_key, a) == auxiliary_key(schema, additional_key, b),
    ensures
        a == b,
{
    reveal_strlit("_");
    let prefix = schema + "_"@ + additional_key + "_"@;
    let n = prefix.len();
    assert(auxiliary_key(schema, additional_key, a) =~= prefix + a);
    assert(auxiliary_key(schema, additional_key, b) =~= prefix + b);
    assert((prefix + a).skip(n as int) =~= a);
    assert((prefix + b).skip(n as int) =~= b);
}

} // verus!
