//! The database schema and its migrations. A migration is a list of schema
//! steps; a model of the schema says what each step needs and what it
//! leaves, so that a migration can be shown to apply cleanly.

pub mod schema;
pub mod m20220101_000001_create_table;
pub mod m20250613_175020_add_new_tables;

use vstd::prelude::*;

verus! {

/// The migrations of the database, in the order they run.
pub struct Migrator;

impl Migrator {
    /// The names of the migrations, oldest first.
    pub fn migrations() -> (names: Vec<&'static str>)
        ensures
            names@.len() == 4,
            names@[0]@ == "m20220101_000001_create_table"@,
            names@[1]@ == "m20250613_175020_add_new_tables"@,
            names@[2]@ == "m20250615_203815_add_table_in_sub_mods"@,
            names@[3]@ == "m20250620_210632_add_table_in_user_joined_subs"@,
    {
        vec![
            "m20220101_000001_create_table",
            "m20250613_175020_add_new_tables",
            "m20250615_203815_add_table_in_sub_mods",
            "m20250620_210632_add_table_in_user_joined_subs",
        ]
    }
}

} // verus!
