//! The first migration: users, subreddits (`sub`), posts, memberships and
//! comments, with foreign keys and an index on every `*_sov_id` column
//! used for lookups.

use vstd::prelude::*;
use crate::migrations::schema::{
    columns_of, empty_schema, has_reference, lemma_run_push, references_of, references_point_home, run, table_model, Column,
    ColumnDef, ColumnType, ForeignKeyDef, Reference, primary_key_is, has_column_index,
    IndexDef, IndexModel, SchemaModel, SchemaStep, Table, TableDef,
};

verus! {

pub struct Migration;

pub open spec fn col(column: Column, col_type: ColumnType) -> ColumnDef {
    ColumnDef { column, col_type, not_null: false, primary_key: false, random_uuid_default: false }
}

pub open spec fn key_col(column: Column, col_type: ColumnType) -> ColumnDef {
    ColumnDef { column, col_type, not_null: true, primary_key: true, random_uuid_default: false }
}

fn exec_col(column: Column, col_type: ColumnType) -> (c: ColumnDef)
    ensures
        c == col(column, col_type),
{
    ColumnDef { column, col_type, not_null: false, primary_key: false, random_uuid_default: false }
}

fn exec_key_col(column: Column, col_type: ColumnType) -> (c: ColumnDef)
    ensures
        c == key_col(column, col_type),
{
    ColumnDef { column, col_type, not_null: true, primary_key: true, random_uuid_default: false }
}

pub open spec fn users_columns() -> Seq<ColumnDef> {
    seq![key_col(Column::SovId, ColumnType::String), col(Column::Username, ColumnType::String)]
}

pub open spec fn sub_columns() -> Seq<ColumnDef> {
    seq![
        key_col(Column::SubSovId, ColumnType::String),
        col(Column::Subname, ColumnType::String),
        col(Column::SubDescription, ColumnType::String),
        col(Column::Mods, ColumnType::StringArray),
    ]
}

pub open spec fn posts_columns() -> Seq<ColumnDef> {
    seq![
        key_col(Column::PostSovId, ColumnType::String),
        col(Column::Title, ColumnType::String),
        col(Column::Content, ColumnType::String),
        col(Column::SubSovId, ColumnType::String),
        col(Column::Flair, ColumnType::String),
        col(Column::UserSovId, ColumnType::String),
        col(Column::Upvote, ColumnType::Integer),
        col(Column::Downvote, ColumnType::Integer),
        col(Column::Score, ColumnType::Integer),
    ]
}

pub open spec fn posts_foreign_keys() -> Seq<ForeignKeyDef> {
    seq![
        ForeignKeyDef { name: "fk_posts_user_sov_id", column: Column::UserSovId, to_table: Table::Users, to_column: Column::SovId },
        ForeignKeyDef { name: "fk_posts_sub_sov_id", column: Column::SubSovId, to_table: Table::Sub, to_column: Column::SubSovId },
    ]
}

pub open spec fn memberships_columns() -> Seq<ColumnDef> {
    seq![
        key_col(Column::Id, ColumnType::Uuid),
        col(Column::UserSovId, ColumnType::String),
        col(Column::SubSovId, ColumnType::String),
    ]
}

pub open spec fn memberships_foreign_keys() -> Seq<ForeignKeyDef> {
    seq![
        ForeignKeyDef { name: "fk_user_joined_subs_user_sov_id", column: Column::UserSovId, to_table: Table::Users, to_column: Column::SovId },
        ForeignKeyDef { name: "fk_user_joined_subs_sub_sov_id", column: Column::SubSovId, to_table: Table::Sub, to_column: Column::SubSovId },
    ]
}

pub open spec fn comments_columns() -> Seq<ColumnDef> {
    seq![
        key_col(Column::Id, ColumnType::Uuid),
        col(Column::UserSovId, ColumnType::String),
        col(Column::PostSovId, ColumnType::String),
        col(Column::Content, ColumnType::String),
        col(Column::Upvote, ColumnType::Integer),
        col(Column::Downvote, ColumnType::Integer),
        col(Column::Score, ColumnType::Integer),
    ]
}

pub open spec fn comments_foreign_keys() -> Seq<ForeignKeyDef> {
    seq![
        ForeignKeyDef { name: "fk_comments_user_sov_id", column: Column::UserSovId, to_table: Table::Users, to_column: Column::SovId },
        ForeignKeyDef { name: "fk_comments_post_sov_id", column: Column::PostSovId, to_table: Table::Posts, to_column: Column::PostSovId },
    ]
}

pub open spec fn index_model(table: Table, column: Column) -> IndexModel {
    IndexModel { table, columns: seq![column], unique: false }
}

/// The schema this migration leaves on an empty database.
pub open spec fn schema_after_up() -> SchemaModel {
    SchemaModel {
        tables: Map::empty()
            .insert(Table::Users, table_model(users_columns(), seq![]))
            .insert(Table::Sub, table_model(sub_columns(), seq![]))
            .insert(Table::Posts, table_model(posts_columns(), posts_foreign_keys()))
            .insert(Table::UserJoinedSubs, table_model(memberships_columns(), memberships_foreign_keys()))
            .insert(Table::Comments, table_model(comments_columns(), comments_foreign_keys())),
        indexes: Map::empty()
            .insert("idx_user_joined_subs_user_sov_id"@, index_model(Table::UserJoinedSubs, Column::UserSovId))
            .insert("idx_user_joined_subs_sub_sov_id"@, index_model(Table::UserJoinedSubs, Column::SubSovId))
            .insert("idx_posts_user_sov_id"@, index_model(Table::Posts, Column::UserSovId))
            .insert("idx_posts_sub_sov_id"@, index_model(Table::Posts, Column::SubSovId))
            .insert("idx_comments_user_sov_id"@, index_model(Table::Comments, Column::UserSovId))
            .insert("idx_comments_post_sov_id"@, index_model(Table::Comments, Column::PostSovId)),
    }
}

/// The foreign keys the first migration gives its tables: posts, memberships
/// and comments each point at the user, subreddit (`sub`) or post they
/// name, and no foreign key points anywhere else.
pub open spec fn first_migration_keys(s: SchemaModel) -> bool {
    &&& references_point_home(s, Table::Sub)
    &&& has_reference(s, Table::Posts, "fk_posts_user_sov_id"@, Column::UserSovId, Table::Users, Column::SovId)
    &&& has_reference(s, Table::Posts, "fk_posts_sub_sov_id"@, Column::SubSovId, Table::Sub, Column::SubSovId)
    &&& has_reference(
        s,
        Table::UserJoinedSubs,
        "fk_user_joined_subs_user_sov_id"@,
        Column::UserSovId,
        Table::Users,
        Column::SovId,
    )
    &&& has_reference(
        s,
        Table::UserJoinedSubs,
        "fk_user_joined_subs_sub_sov_id"@,
        Column::SubSovId,
        Table::Sub,
        Column::SubSovId,
    )
    &&& has_reference(s, Table::Comments, "fk_comments_user_sov_id"@, Column::UserSovId, Table::Users, Column::SovId)
    &&& has_reference(
        s,
        Table::Comments,
        "fk_comments_post_sov_id"@,
        Column::PostSovId,
        Table::Posts,
        Column::PostSovId,
    )
}

/// On an empty database the first migration leaves each foreign key
/// pointing at the table its column names.
pub proof fn lemma_first_migration_keys()
    ensures
        first_migration_keys(schema_after_up()),
{
    reveal_with_fuel(references_of, 3);
    let s = schema_after_up();
    assert(s.tables[Table::Users].references =~= Set::empty());
    assert(s.tables[Table::Sub].references =~= Set::empty());
    assert forall|t: Table, r: Reference|
        s.tables.contains_key(t) && #[trigger] s.tables[t].references.contains(r) implies {
            &&& r.column == Column::UserSovId ==> r.to_table == Table::Users && r.to_column
                == Column::SovId
            &&& r.column == Column::SubSovId ==> r.to_table == Table::Sub && r.to_column
                == Column::SubSovId
            &&& r.column == Column::PostSovId ==> r.to_table == Table::Posts && r.to_column
                == Column::PostSovId
        } by {
        if t == Table::Users || t == Table::Sub {
            assert(false);
        }
    }
}

/// The keys and lookup indexes the first migration creates: each table is
/// keyed by its own id column alone, and each `*_sov_id` column used for
/// lookups has an index named after its table and column.
pub open spec fn first_migration_layout(s: SchemaModel) -> bool {
    &&& primary_key_is(s, Table::Users, Column::SovId)
    &&& primary_key_is(s, Table::Sub, Column::SubSovId)
    &&& primary_key_is(s, Table::Posts, Column::PostSovId)
    &&& primary_key_is(s, Table::UserJoinedSubs, Column::Id)
    &&& primary_key_is(s, Table::Comments, Column::Id)
    &&& has_column_index(s, "idx_user_joined_subs_user_sov_id"@, Table::UserJoinedSubs, Column::UserSovId)
    &&& has_column_index(s, "idx_user_joined_subs_sub_sov_id"@, Table::UserJoinedSubs, Column::SubSovId)
    &&& has_column_index(s, "idx_posts_user_sov_id"@, Table::Posts, Column::UserSovId)
    &&& has_column_index(s, "idx_posts_sub_sov_id"@, Table::Posts, Column::SubSovId)
    &&& has_column_index(s, "idx_comments_user_sov_id"@, Table::Comments, Column::UserSovId)
    &&& has_column_index(s, "idx_comments_post_sov_id"@, Table::Comments, Column::PostSovId)
}

/// On an empty database the first migration keys each table by its id and
/// indexes the lookup columns.
pub proof fn lemma_first_migration_layout()
    ensures
        first_migration_layout(schema_after_up()),
{
    reveal_with_fuel(columns_of, 10);
    let s = schema_after_up();
    assert(primary_key_is(s, Table::Users, Column::SovId));
    assert(primary_key_is(s, Table::Sub, Column::SubSovId));
    assert(primary_key_is(s, Table::Posts, Column::PostSovId));
    assert(primary_key_is(s, Table::UserJoinedSubs, Column::Id));
    assert(primary_key_is(s, Table::Comments, Column::Id));
    reveal_strlit("idx_user_joined_subs_user_sov_id");
    reveal_strlit("idx_user_joined_subs_sub_sov_id");
    reveal_strlit("idx_posts_user_sov_id");
    reveal_strlit("idx_posts_sub_sov_id");
    reveal_strlit("idx_comments_user_sov_id");
    reveal_strlit("idx_comments_post_sov_id");
    let a = "idx_user_joined_subs_user_sov_id"@;
    let b = "idx_user_joined_subs_sub_sov_id"@;
    let c = "idx_posts_user_sov_id"@;
    let d = "idx_posts_sub_sov_id"@;
    let e = "idx_comments_user_sov_id"@;
    let f = "idx_comments_post_sov_id"@;
    assert(a[21] != b[21] && c[10] != d[10] && e[13] != f[13]);
    assert(a[4] != c[4] && a[4] != d[4] && a[4] != e[4] && a[4] != f[4]);
    assert(b[4] != c[4] && b[4] != d[4] && b[4] != e[4] && b[4] != f[4]);
    assert(c[4] != e[4] && c[4] != f[4] && d[4] != e[4] && d[4] != f[4]);
    assert(has_column_index(s, "idx_user_joined_subs_user_sov_id"@, Table::UserJoinedSubs, Column::UserSovId));
    assert(has_column_index(s, "idx_user_joined_subs_sub_sov_id"@, Table::UserJoinedSubs, Column::SubSovId));
    assert(has_column_index(s, "idx_posts_user_sov_id"@, Table::Posts, Column::UserSovId));
    assert(has_column_index(s, "idx_posts_sub_sov_id"@, Table::Posts, Column::SubSovId));
    assert(has_column_index(s, "idx_comments_user_sov_id"@, Table::Comments, Column::UserSovId));
    assert(has_column_index(s, "idx_comments_post_sov_id"@, Table::Comments, Column::PostSovId));
}

fn create_table(table: Table, columns: Vec<ColumnDef>, foreign_keys: Vec<ForeignKeyDef>) -> (s: SchemaStep)
    ensures
        s matches SchemaStep::CreateTable(t) && t.table == table && t.if_not_exists
            && t.columns@ == columns@ && t.foreign_keys@ == foreign_keys@,
{
    SchemaStep::CreateTable(TableDef { table, if_not_exists: true, columns, foreign_keys })
}

fn create_index(name: &'static str, table: Table, column: Column) -> (s: SchemaStep)
    ensures
        s matches SchemaStep::CreateIndex(ix) && ix.name == name && ix.table == table
            && ix.columns@ == seq![column] && !ix.unique && !ix.if_not_exists,
{
    SchemaStep::CreateIndex(IndexDef { name, table, columns: vec![column], unique: false, if_not_exists: false })
}

impl Migration {
    /// The migration's name.
    pub fn name(&self) -> (s: &'static str)
        ensures
            s@ == "m20220101_000001_create_table"@,
    {
        "m20220101_000001_create_table"
    }

    /// Creates the five tables, each only if it does not exist yet, then
    /// the indexes. On an empty database every step succeeds and leaves
    /// `schema_after_up`.
    pub fn up(&self) -> (steps: Vec<SchemaStep>)
        ensures
            run(empty_schema(), steps@) == Some(schema_after_up()),
            run(empty_schema(), steps@) matches Some(s) && first_migration_keys(s),
            run(empty_schema(), steps@) matches Some(s) && first_migration_layout(s),
    {
        let mut steps: Vec<SchemaStep> = Vec::new();
        let ghost mut st = empty_schema();
        assert(run(empty_schema(), steps@) == Some(st));

        let users = vec![exec_key_col(Column::SovId, ColumnType::String), exec_col(Column::Username, ColumnType::String)];
        assert(users@ =~= users_columns());
        let step = create_table(Table::Users, users, vec![]);
        proof {
            lemma_run_push(empty_schema(), steps@, step);
            reveal_with_fuel(columns_of, 3);
            st = SchemaModel { tables: st.tables.insert(Table::Users, table_model(users_columns(), seq![])), indexes: st.indexes };
        }
        steps.push(step);
        assert(run(empty_schema(), steps@) == Some(st));

        let sub = vec![exec_key_col(Column::SubSovId, ColumnType::String), exec_col(Column::Subname, ColumnType::String), exec_col(Column::SubDescription, ColumnType::String), exec_col(Column::Mods, ColumnType::StringArray)];
        assert(sub@ =~= sub_columns());
        let step = create_table(Table::Sub, sub, vec![]);
        proof {
            lemma_run_push(empty_schema(), steps@, step);
            reveal_with_fuel(columns_of, 5);
            reveal_with_fuel(references_of, 3);
            st = SchemaModel { tables: st.tables.insert(Table::Sub, table_model(sub_columns(), seq![])), indexes: st.indexes };
        }
        steps.push(step);
        assert(run(empty_schema(), steps@) == Some(st));

        let posts = vec![exec_key_col(Column::PostSovId, ColumnType::String), exec_col(Column::Title, ColumnType::String), exec_col(Column::Content, ColumnType::String), exec_col(Column::SubSovId, ColumnType::String), exec_col(Column::Flair, ColumnType::String), exec_col(Column::UserSovId, ColumnType::String), exec_col(Column::Upvote, ColumnType::Integer), exec_col(Column::Downvote, ColumnType::Integer), exec_col(Column::Score, ColumnType::Integer)];
        assert(posts@ =~= posts_columns());
        let posts_fks = vec![ForeignKeyDef { name: "fk_posts_user_sov_id", column: Column::UserSovId, to_table: Table::Users, to_column: Column::SovId }, ForeignKeyDef { name: "fk_posts_sub_sov_id", column: Column::SubSovId, to_table: Table::Sub, to_column: Column::SubSovId }];
        assert(posts_fks@ =~= posts_foreign_keys());
        let step = create_table(Table::Posts, posts, posts_fks);
        proof {
            lemma_run_push(empty_schema(), steps@, step);
            reveal_with_fuel(columns_of, 10);
            reveal_with_fuel(references_of, 3);
            st = SchemaModel { tables: st.tables.insert(Table::Posts, table_model(posts_columns(), posts_foreign_keys())), indexes: st.indexes };
        }
        steps.push(step);
        assert(run(empty_schema(), steps@) == Some(st));

        let memberships = vec![exec_key_col(Column::Id, ColumnType::Uuid), exec_col(Column::UserSovId, ColumnType::String), exec_col(Column::SubSovId, ColumnType::String)];
        assert(memberships@ =~= memberships_columns());
        let memberships_fks = vec![ForeignKeyDef { name: "fk_user_joined_subs_user_sov_id", column: Column::UserSovId, to_table: Table::Users, to_column: Column::SovId }, ForeignKeyDef { name: "fk_user_joined_subs_sub_sov_id", column: Column::SubSovId, to_table: Table::Sub, to_column: Column::SubSovId }];
        assert(memberships_fks@ =~= memberships_foreign_keys());
        let step = create_table(Table::UserJoinedSubs, memberships, memberships_fks);
        proof {
            lemma_run_push(empty_schema(), steps@, step);
            reveal_with_fuel(columns_of, 5);
            reveal_with_fuel(references_of, 3);
            st = SchemaModel { tables: st.tables.insert(Table::UserJoinedSubs, table_model(memberships_columns(), memberships_foreign_keys())), indexes: st.indexes };
        }
        steps.push(step);
        assert(run(empty_schema(), steps@) == Some(st));

        let comments = vec![exec_key_col(Column::Id, ColumnType::Uuid), exec_col(Column::UserSovId, ColumnType::String), exec_col(Column::PostSovId, ColumnType::String), exec_col(Column::Content, ColumnType::String), exec_col(Column::Upvote, ColumnType::Integer), exec_col(Column::Downvote, ColumnType::Integer), exec_col(Column::Score, ColumnType::Integer)];
        assert(comments@ =~= comments_columns());
        let comments_fks = vec![ForeignKeyDef { name: "fk_comments_user_sov_id", column: Column::UserSovId, to_table: Table::Users, to_column: Column::SovId }, ForeignKeyDef { name: "fk_comments_post_sov_id", column: Column::PostSovId, to_table: Table::Posts, to_column: Column::PostSovId }];
        assert(comments_fks@ =~= comments_foreign_keys());
        let step = create_table(Table::Comments, comments, comments_fks);
        proof {
            lemma_run_push(empty_schema(), steps@, step);
            reveal_with_fuel(columns_of, 10);
            reveal_with_fuel(references_of, 3);
            st = SchemaModel { tables: st.tables.insert(Table::Comments, table_model(comments_columns(), comments_foreign_keys())), indexes: st.indexes };
        }
        steps.push(step);
        assert(run(empty_schema(), steps@) == Some(st));

        let step = create_index("idx_user_joined_subs_user_sov_id", Table::UserJoinedSubs, Column::UserSovId);
        proof {
            lemma_run_push(empty_schema(), steps@, step);
            reveal_with_fuel(columns_of, 10);
            reveal_strlit("idx_user_joined_subs_user_sov_id");
            assert(!st.indexes.contains_key("idx_user_joined_subs_user_sov_id"@));
            st = SchemaModel { tables: st.tables, indexes: st.indexes.insert("idx_user_joined_subs_user_sov_id"@, index_model(Table::UserJoinedSubs, Column::UserSovId)) };
        }
        steps.push(step);
        assert(run(empty_schema(), steps@) == Some(st));

        let step = create_index("idx_user_joined_subs_sub_sov_id", Table::UserJoinedSubs, Column::SubSovId);
        proof {
            lemma_run_push(empty_schema(), steps@, step);
            reveal_with_fuel(columns_of, 10);
            reveal_strlit("idx_user_joined_subs_user_sov_id");
            reveal_strlit("idx_user_joined_subs_sub_sov_id");
            assert("idx_user_joined_subs_user_sov_id"@.len() != "idx_user_joined_subs_sub_sov_id"@.len());
            assert(!st.indexes.contains_key("idx_user_joined_subs_sub_sov_id"@));
            st = SchemaModel { tables: st.tables, indexes: st.indexes.insert("idx_user_joined_subs_sub_sov_id"@, index_model(Table::UserJoinedSubs, Column::SubSovId)) };
        }
        steps.push(step);
        assert(run(empty_schema(), steps@) == Some(st));

        let step = create_index("idx_posts_user_sov_id", Table::Posts, Column::UserSovId);
        proof {
            lemma_run_push(empty_schema(), steps@, step);
            reveal_with_fuel(columns_of, 10);
            reveal_strlit("idx_user_joined_subs_user_sov_id");
            reveal_strlit("idx_user_joined_subs_sub_sov_id");
            reveal_strlit("idx_posts_user_sov_id");
            assert("idx_user_joined_subs_user_sov_id"@.len() != "idx_posts_user_sov_id"@.len());
            assert("idx_user_joined_subs_sub_sov_id"@.len() != "idx_posts_user_sov_id"@.len());
            assert(!st.indexes.contains_key("idx_posts_user_sov_id"@));
            st = SchemaModel { tables: st.tables, indexes: st.indexes.insert("idx_posts_user_sov_id"@, index_model(Table::Posts, Column::UserSovId)) };
        }
        steps.push(step);
        assert(run(empty_schema(), steps@) == Some(st));

        let step = create_index("idx_posts_sub_sov_id", Table::Posts, Column::SubSovId);
        proof {
            lemma_run_push(empty_schema(), steps@, step);
            reveal_with_fuel(columns_of, 10);
            reveal_strlit("idx_user_joined_subs_user_sov_id");
            reveal_strlit("idx_user_joined_subs_sub_sov_id");
            reveal_strlit("idx_posts_user_sov_id");
            reveal_strlit("idx_posts_sub_sov_id");
            assert("idx_user_joined_subs_user_sov_id"@.len() != "idx_posts_sub_sov_id"@.len());
            assert("idx_user_joined_subs_sub_sov_id"@.len() != "idx_posts_sub_sov_id"@.len());
            assert("idx_posts_user_sov_id"@.len() != "idx_posts_sub_sov_id"@.len());
            assert(!st.indexes.contains_key("idx_posts_sub_sov_id"@));
            st = SchemaModel { tables: st.tables, indexes: st.indexes.insert("idx_posts_sub_sov_id"@, index_model(Table::Posts, Column::SubSovId)) };
        }
        steps.push(step);
        assert(run(empty_schema(), steps@) == Some(st));

        let step = create_index("idx_comments_user_sov_id", Table::Comments, Column::UserSovId);
        proof {
            lemma_run_push(empty_schema(), steps@, step);
            reveal_with_fuel(columns_of, 10);
            reveal_strlit("idx_user_joined_subs_user_sov_id");
            reveal_strlit("idx_user_joined_subs_sub_sov_id");
            reveal_strlit("idx_posts_user_sov_id");
            reveal_strlit("idx_posts_sub_sov_id");
            reveal_strlit("idx_comments_user_sov_id");
            assert("idx_user_joined_subs_user_sov_id"@.len() != "idx_comments_user_sov_id"@.len());
            assert("idx_user_joined_subs_sub_sov_id"@.len() != "idx_comments_user_sov_id"@.len());
            assert("idx_posts_user_sov_id"@.len() != "idx_comments_user_sov_id"@.len());
            assert("idx_posts_sub_sov_id"@.len() != "idx_comments_user_sov_id"@.len());
            assert(!st.indexes.contains_key("idx_comments_user_sov_id"@));
            st = SchemaModel { tables: st.tables, indexes: st.indexes.insert("idx_comments_user_sov_id"@, index_model(Table::Comments, Column::UserSovId)) };
        }
        steps.push(step);
        assert(run(empty_schema(), steps@) == Some(st));

        let step = create_index("idx_comments_post_sov_id", Table::Comments, Column::PostSovId);
        proof {
            lemma_run_push(empty_schema(), steps@, step);
            reveal_with_fuel(columns_of, 10);
            reveal_strlit("idx_user_joined_subs_user_sov_id");
            reveal_strlit("idx_user_joined_subs_sub_sov_id");
            reveal_strlit("idx_posts_user_sov_id");
            reveal_strlit("idx_posts_sub_sov_id");
            reveal_strlit("idx_comments_user_sov_id");
            reveal_strlit("idx_comments_post_sov_id");
            assert("idx_user_joined_subs_user_sov_id"@.len() != "idx_comments_post_sov_id"@.len());
            assert("idx_user_joined_subs_sub_sov_id"@.len() != "idx_comments_post_sov_id"@.len());
            assert("idx_posts_user_sov_id"@.len() != "idx_comments_post_sov_id"@.len());
            assert("idx_posts_sub_sov_id"@.len() != "idx_comments_post_sov_id"@.len());
            assert("idx_comments_user_sov_id"@[13] != "idx_comments_post_sov_id"@[13]);
            assert(!st.indexes.contains_key("idx_comments_post_sov_id"@));
            st = SchemaModel { tables: st.tables, indexes: st.indexes.insert("idx_comments_post_sov_id"@, index_model(Table::Comments, Column::PostSovId)) };
        }
        steps.push(step);
        assert(run(empty_schema(), steps@) == Some(st));

        assert(st == schema_after_up());
        proof {
            lemma_first_migration_keys();
            lemma_first_migration_layout();
        }
        steps
    }

    /// Drops the tables, each after every table that references it, so
    /// that on the schema `up` leaves every step succeeds and the database
    /// is left empty.
    pub fn down(&self) -> (steps: Vec<SchemaStep>)
        ensures
            run(schema_after_up(), steps@) == Some(empty_schema()),
    {
        let mut steps: Vec<SchemaStep> = Vec::new();
        let ghost mut st = schema_after_up();
        assert(run(schema_after_up(), steps@) == Some(st));

        let step = SchemaStep::DropTable(Table::Comments);
        proof {
            lemma_run_push(schema_after_up(), steps@, step);
            reveal_with_fuel(references_of, 3);
            st = SchemaModel {
                tables: st.tables.remove(Table::Comments),
                indexes: Map::new(
                    |n: Seq<char>| st.indexes.contains_key(n) && st.indexes[n].table != Table::Comments,
                    |n: Seq<char>| st.indexes[n],
                ),
            };
        }
        steps.push(step);
        assert(run(schema_after_up(), steps@) == Some(st));

        let step = SchemaStep::DropTable(Table::UserJoinedSubs);
        proof {
            lemma_run_push(schema_after_up(), steps@, step);
            reveal_with_fuel(references_of, 3);
            st = SchemaModel {
                tables: st.tables.remove(Table::UserJoinedSubs),
                indexes: Map::new(
                    |n: Seq<char>| st.indexes.contains_key(n) && st.indexes[n].table != Table::UserJoinedSubs,
                    |n: Seq<char>| st.indexes[n],
                ),
            };
        }
        steps.push(step);
        assert(run(schema_after_up(), steps@) == Some(st));

        let step = SchemaStep::DropTable(Table::Posts);
        proof {
            lemma_run_push(schema_after_up(), steps@, step);
            reveal_with_fuel(references_of, 3);
            st = SchemaModel {
                tables: st.tables.remove(Table::Posts),
                indexes: Map::new(
                    |n: Seq<char>| st.indexes.contains_key(n) && st.indexes[n].table != Table::Posts,
                    |n: Seq<char>| st.indexes[n],
                ),
            };
        }
        steps.push(step);
        assert(run(schema_after_up(), steps@) == Some(st));

        let step = SchemaStep::DropTable(Table::Sub);
        proof {
            lemma_run_push(schema_after_up(), steps@, step);
            reveal_with_fuel(references_of, 3);
            st = SchemaModel {
                tables: st.tables.remove(Table::Sub),
                indexes: Map::new(
                    |n: Seq<char>| st.indexes.contains_key(n) && st.indexes[n].table != Table::Sub,
                    |n: Seq<char>| st.indexes[n],
                ),
            };
        }
        steps.push(step);
        assert(run(schema_after_up(), steps@) == Some(st));

        let step = SchemaStep::DropTable(Table::Users);
        proof {
            lemma_run_push(schema_after_up(), steps@, step);
            reveal_with_fuel(references_of, 3);
            st = SchemaModel {
                tables: st.tables.remove(Table::Users),
                indexes: Map::new(
                    |n: Seq<char>| st.indexes.contains_key(n) && st.indexes[n].table != Table::Users,
                    |n: Seq<char>| st.indexes[n],
                ),
            };
        }
        steps.push(step);
        assert(run(schema_after_up(), steps@) == Some(st));
        assert(st.tables =~= empty_schema().tables);
        assert(st.indexes =~= empty_schema().indexes);
        steps
    }
}

} // verus!
