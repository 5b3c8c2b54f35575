//! The second migration: memberships with timestamps (skipped where the
//! table exists already), the users' stored votes on posts, and their
//! indexes, including one that keeps a membership unique.

use vstd::prelude::*;
use crate::migrations::m20220101_000001_create_table::{
    col, first_migration_keys, first_migration_layout, index_model, key_col, lemma_first_migration_keys,
    lemma_first_migration_layout,
    schema_after_up as schema_after_first,
};
use crate::migrations::schema::{
    columns_of, has_column_index, has_reference, lemma_run_push, primary_key_is, references_of, references_point_home, run,
    table_model, Column, ColumnDef, ColumnType, ForeignKeyDef, IndexDef, IndexModel, Reference,
    SchemaModel, SchemaStep, Table, TableDef,
};

verus! {

pub struct Migration;

/// A required column.
pub open spec fn required_col(column: Column, col_type: ColumnType) -> ColumnDef {
    ColumnDef { column, col_type, not_null: true, primary_key: false, random_uuid_default: false }
}

/// A uuid primary key that defaults to a random uuid.
pub open spec fn random_uuid_key(column: Column) -> ColumnDef {
    ColumnDef { column, col_type: ColumnType::Uuid, not_null: true, primary_key: true, random_uuid_default: true }
}

fn exec_required_col(column: Column, col_type: ColumnType) -> (c: ColumnDef)
    ensures
        c == required_col(column, col_type),
{
    ColumnDef { column, col_type, not_null: true, primary_key: false, random_uuid_default: false }
}

fn exec_random_uuid_key(column: Column) -> (c: ColumnDef)
    ensures
        c == random_uuid_key(column),
{
    ColumnDef { column, col_type: ColumnType::Uuid, not_null: true, primary_key: true, random_uuid_default: true }
}

pub open spec fn memberships_columns() -> Seq<ColumnDef> {
    seq![
        random_uuid_key(Column::Id),
        required_col(Column::UserSovId, ColumnType::String),
        required_col(Column::SubSovId, ColumnType::String),
        required_col(Column::CreatedAt, ColumnType::DateTime),
        required_col(Column::UpdatedAt, ColumnType::DateTime),
    ]
}

pub open spec fn liked_posts_columns() -> Seq<ColumnDef> {
    seq![
        random_uuid_key(Column::Id),
        required_col(Column::Value, ColumnType::Integer),
        required_col(Column::UserSovId, ColumnType::String),
        required_col(Column::PostSovId, ColumnType::String),
        required_col(Column::CreatedAt, ColumnType::DateTime),
        required_col(Column::UpdatedAt, ColumnType::DateTime),
    ]
}

pub open spec fn liked_posts_foreign_keys() -> Seq<ForeignKeyDef> {
    seq![
        ForeignKeyDef { name: "fk_user_liked_posts_user_sov_id", column: Column::UserSovId, to_table: Table::Users, to_column: Column::SovId },
        ForeignKeyDef { name: "fk_user_liked_posts_post_sov_id", column: Column::PostSovId, to_table: Table::Posts, to_column: Column::PostSovId },
    ]
}

/// The schema this migration leaves after the first one: the stored votes
/// table and three new indexes. The membership table and its two indexes
/// exist already and are kept as they are.
pub open spec fn schema_after_up() -> SchemaModel {
    SchemaModel {
        tables: schema_after_first().tables.insert(
            Table::UserLikedPosts,
            table_model(liked_posts_columns(), liked_posts_foreign_keys()),
        ),
        indexes: schema_after_first().indexes
            .insert("idx_user_joined_subs_unique"@, IndexModel {
                table: Table::UserJoinedSubs,
                columns: seq![Column::UserSovId, Column::SubSovId],
                unique: true,
            })
            .insert("idx_user_liked_posts_user_sov_id"@, index_model(Table::UserLikedPosts, Column::UserSovId))
            .insert("idx_user_liked_posts_post_sov_id"@, index_model(Table::UserLikedPosts, Column::PostSovId)),
    }
}

/// The foreign keys after the second migration: the first migration's are
/// kept, the stored votes point at the voting user and at the post voted
/// on, and every foreign key points at the table its column names.
pub open spec fn second_migration_keys(s: SchemaModel) -> bool {
    &&& first_migration_keys(s)
    &&& references_point_home(s, Table::Sub)
    &&& has_reference(
        s,
        Table::UserLikedPosts,
        "fk_user_liked_posts_user_sov_id"@,
        Column::UserSovId,
        Table::Users,
        Column::SovId,
    )
    &&& has_reference(
        s,
        Table::UserLikedPosts,
        "fk_user_liked_posts_post_sov_id"@,
        Column::PostSovId,
        Table::Posts,
        Column::PostSovId,
    )
}

/// Run after the first migration, the second leaves each foreign key
/// pointing at the table its column names.
pub proof fn lemma_second_migration_keys()
    ensures
        second_migration_keys(schema_after_up()),
{
    lemma_first_migration_keys();
    reveal_with_fuel(references_of, 3);
    let f = schema_after_first();
    let s = schema_after_up();
    assert(f.tables.contains_key(Table::Posts) && f.tables.contains_key(Table::UserJoinedSubs)
        && f.tables.contains_key(Table::Comments));
    assert(s.tables[Table::Posts] == f.tables[Table::Posts]);
    assert(s.tables[Table::UserJoinedSubs] == f.tables[Table::UserJoinedSubs]);
    assert(s.tables[Table::Comments] == f.tables[Table::Comments]);
    assert forall|t: Table, r: Reference|
        s.tables.contains_key(t) && #[trigger] s.tables[t].references.contains(r) implies {
            &&& r.column == Column::UserSovId ==> r.to_table == Table::Users && r.to_column
                == Column::SovId
            &&& r.column == Column::SubSovId ==> r.to_table == Table::Sub && r.to_column
                == Column::SubSovId
            &&& r.column == Column::PostSovId ==> r.to_table == Table::Posts && r.to_column
                == Column::PostSovId
        } by {
        if t != Table::UserLikedPosts {
            assert(f.tables.contains_key(t) && f.tables[t].references.contains(r));
        }
    }
}

/// The keys and indexes after the second migration: the first migration's
/// are kept, stored votes are keyed by their id and indexed by voter and by
/// post, and a membership of a user in a subreddit is unique.
pub open spec fn second_migration_layout(s: SchemaModel) -> bool {
    &&& first_migration_layout(s)
    &&& primary_key_is(s, Table::UserLikedPosts, Column::Id)
    &&& has_column_index(s, "idx_user_liked_posts_user_sov_id"@, Table::UserLikedPosts, Column::UserSovId)
    &&& has_column_index(s, "idx_user_liked_posts_post_sov_id"@, Table::UserLikedPosts, Column::PostSovId)
    &&& s.indexes.contains_key("idx_user_joined_subs_unique"@)
    &&& s.indexes["idx_user_joined_subs_unique"@] == (IndexModel {
        table: Table::UserJoinedSubs,
        columns: seq![Column::UserSovId, Column::SubSovId],
        unique: true,
    })
}

/// Run after the first migration, the second keeps the first's keys and
/// indexes and adds those of the stored votes and the unique membership.
pub proof fn lemma_second_migration_layout()
    ensures
        second_migration_layout(schema_after_up()),
{
    lemma_first_migration_layout();
    reveal_with_fuel(columns_of, 10);
    let f = schema_after_first();
    let s = schema_after_up();
    reveal_strlit("idx_user_joined_subs_user_sov_id");
    reveal_strlit("idx_user_joined_subs_sub_sov_id");
    reveal_strlit("idx_posts_user_sov_id");
    reveal_strlit("idx_posts_sub_sov_id");
    reveal_strlit("idx_comments_user_sov_id");
    reveal_strlit("idx_comments_post_sov_id");
    reveal_strlit("idx_user_joined_subs_unique");
    reveal_strlit("idx_user_liked_posts_user_sov_id");
    reveal_strlit("idx_user_liked_posts_post_sov_id");
    let old_names = seq![
        "idx_user_joined_subs_user_sov_id"@,
        "idx_user_joined_subs_sub_sov_id"@,
        "idx_posts_user_sov_id"@,
        "idx_posts_sub_sov_id"@,
        "idx_comments_user_sov_id"@,
        "idx_comments_post_sov_id"@,
    ];
    let u = "idx_user_joined_subs_unique"@;
    let lu = "idx_user_liked_posts_user_sov_id"@;
    let lp = "idx_user_liked_posts_post_sov_id"@;
    assert(u[22] != old_names[0][22] && u[21] != old_names[1][21]);
    assert(lu[9] != old_names[0][9] && lu[9] != old_names[1][9] && lu[9] != u[9]);
    assert(lp[9] != old_names[0][9] && lp[9] != old_names[1][9] && lp[9] != u[9]);
    assert(lu[4] != old_names[2][4] && lu[4] != old_names[3][4] && lu[4] != old_names[4][4] && lu[4] != old_names[5][4]);
    assert(lp[4] != old_names[2][4] && lp[4] != old_names[3][4] && lp[4] != old_names[4][4] && lp[4] != old_names[5][4]);
    assert(u[4] != old_names[2][4] && u[4] != old_names[3][4] && u[4] != old_names[4][4] && u[4] != old_names[5][4]);
    assert(lu[21] != lp[21]);
    assert(s.tables[Table::Users] == f.tables[Table::Users]);
    assert(s.tables[Table::Sub] == f.tables[Table::Sub]);
    assert(s.tables[Table::Posts] == f.tables[Table::Posts]);
    assert(s.tables[Table::UserJoinedSubs] == f.tables[Table::UserJoinedSubs]);
    assert(s.tables[Table::Comments] == f.tables[Table::Comments]);
    assert(primary_key_is(s, Table::UserLikedPosts, Column::Id));
}

/// The schema `down` leaves: the first migration's, without the membership
/// table and its indexes.
pub open spec fn schema_after_down() -> SchemaModel {
    SchemaModel {
        tables: schema_after_first().tables.remove(Table::UserJoinedSubs),
        indexes: schema_after_first().indexes
            .remove("idx_user_joined_subs_user_sov_id"@)
            .remove("idx_user_joined_subs_sub_sov_id"@),
    }
}

fn create_table(table: Table, columns: Vec<ColumnDef>, foreign_keys: Vec<ForeignKeyDef>) -> (s: SchemaStep)
    ensures
        s matches SchemaStep::CreateTable(t) && t.table == table && t.if_not_exists
            && t.columns@ == columns@ && t.foreign_keys@ == foreign_keys@,
{
    SchemaStep::CreateTable(TableDef { table, if_not_exists: true, columns, foreign_keys })
}

fn create_index(name: &'static str, table: Table, columns: Vec<Column>, unique: bool) -> (s: SchemaStep)
    ensures
        s matches SchemaStep::CreateIndex(ix) && ix.name == name && ix.table == table
            && ix.columns@ == columns@ && ix.unique == unique && ix.if_not_exists,
{
    SchemaStep::CreateIndex(IndexDef { name, table, columns, unique, if_not_exists: true })
}

impl Migration {
    /// The migration's name.
    pub fn name(&self) -> (s: &'static str)
        ensures
            s@ == "m20250613_175020_add_new_tables"@,
    {
        "m20250613_175020_add_new_tables"
    }

    /// Creates the membership and stored-vote tables and their indexes,
    /// each only if it does not exist yet. Run after the first migration,
    /// every step succeeds and leaves `schema_after_up`.
    pub fn up(&self) -> (steps: Vec<SchemaStep>)
        ensures
            run(schema_after_first(), steps@) == Some(schema_after_up()),
            run(schema_after_first(), steps@) matches Some(s) && second_migration_keys(s),
            run(schema_after_first(), steps@) matches Some(s) && second_migration_layout(s),
    {
        let mut steps: Vec<SchemaStep> = Vec::new();
        let ghost mut st = schema_after_first();
        assert(run(schema_after_first(), steps@) == Some(st));

        let memberships = vec![
            exec_random_uuid_key(Column::Id),
            exec_required_col(Column::UserSovId, ColumnType::String),
            exec_required_col(Column::SubSovId, ColumnType::String),
            exec_required_col(Column::CreatedAt, ColumnType::DateTime),
            exec_required_col(Column::UpdatedAt, ColumnType::DateTime),
        ];
        let memberships_fks = vec![
            ForeignKeyDef { name: "fk_user_joined_subs_user_sov_id", column: Column::UserSovId, to_table: Table::Users, to_column: Column::SovId },
            ForeignKeyDef { name: "fk_user_joined_subs_sub_sov_id", column: Column::SubSovId, to_table: Table::Subreddit, to_column: Column::SubSovId },
        ];
        let step = create_table(Table::UserJoinedSubs, memberships, memberships_fks);
        proof {
            lemma_run_push(schema_after_first(), steps@, step);
        }
        steps.push(step);
        assert(run(schema_after_first(), steps@) == Some(st));

        let liked = vec![
            exec_random_uuid_key(Column::Id),
            exec_required_col(Column::Value, ColumnType::Integer),
            exec_required_col(Column::UserSovId, ColumnType::String),
            exec_required_col(Column::PostSovId, ColumnType::String),
            exec_required_col(Column::CreatedAt, ColumnType::DateTime),
            exec_required_col(Column::UpdatedAt, ColumnType::DateTime),
        ];
        assert(liked@ =~= liked_posts_columns());
        let liked_fks = vec![
            ForeignKeyDef { name: "fk_user_liked_posts_user_sov_id", column: Column::UserSovId, to_table: Table::Users, to_column: Column::SovId },
            ForeignKeyDef { name: "fk_user_liked_posts_post_sov_id", column: Column::PostSovId, to_table: Table::Posts, to_column: Column::PostSovId },
        ];
        assert(liked_fks@ =~= liked_posts_foreign_keys());
        let step = create_table(Table::UserLikedPosts, liked, liked_fks);
        proof {
            lemma_run_push(schema_after_first(), steps@, step);
            reveal_with_fuel(columns_of, 10);
            reveal_with_fuel(references_of, 3);
            st = SchemaModel {
                tables: st.tables.insert(Table::UserLikedPosts, table_model(liked_posts_columns(), liked_posts_foreign_keys())),
                indexes: st.indexes,
            };
        }
        steps.push(step);
        assert(run(schema_after_first(), steps@) == Some(st));

        let step = create_index("idx_user_joined_subs_user_sov_id", Table::UserJoinedSubs, vec![Column::UserSovId], false);
        proof {
            lemma_run_push(schema_after_first(), steps@, step);
        }
        steps.push(step);
        assert(run(schema_after_first(), steps@) == Some(st));

        let step = create_index("idx_user_joined_subs_sub_sov_id", Table::UserJoinedSubs, vec![Column::SubSovId], false);
        proof {
            lemma_run_push(schema_after_first(), steps@, step);
        }
        steps.push(step);
        assert(run(schema_after_first(), steps@) == Some(st));

        let columns = vec![Column::UserSovId, Column::SubSovId];
        let step = create_index("idx_user_joined_subs_unique", Table::UserJoinedSubs, columns, true);
        proof {
            lemma_run_push(schema_after_first(), steps@, step);
            reveal_with_fuel(columns_of, 10);
            reveal_strlit("idx_user_joined_subs_user_sov_id");
            reveal_strlit("idx_user_joined_subs_sub_sov_id");
            reveal_strlit("idx_posts_user_sov_id");
            reveal_strlit("idx_posts_sub_sov_id");
            reveal_strlit("idx_comments_user_sov_id");
            reveal_strlit("idx_comments_post_sov_id");
            reveal_strlit("idx_user_joined_subs_unique");
            assert("idx_user_joined_subs_user_sov_id"@.len() != "idx_user_joined_subs_unique"@.len());
            assert("idx_user_joined_subs_sub_sov_id"@.len() != "idx_user_joined_subs_unique"@.len());
            assert("idx_posts_user_sov_id"@.len() != "idx_user_joined_subs_unique"@.len());
            assert("idx_posts_sub_sov_id"@.len() != "idx_user_joined_subs_unique"@.len());
            assert("idx_comments_user_sov_id"@.len() != "idx_user_joined_subs_unique"@.len());
            assert("idx_comments_post_sov_id"@.len() != "idx_user_joined_subs_unique"@.len());
            assert(!st.indexes.contains_key("idx_user_joined_subs_unique"@));
            st = SchemaModel { tables: st.tables, indexes: st.indexes.insert("idx_user_joined_subs_unique"@, IndexModel { table: Table::UserJoinedSubs, columns: seq![Column::UserSovId, Column::SubSovId], unique: true }) };
        }
        steps.push(step);
        assert(run(schema_after_first(), steps@) == Some(st));

        let columns = vec![Column::UserSovId];
        let step = create_index("idx_user_liked_posts_user_sov_id", Table::UserLikedPosts, columns, false);
        proof {
            lemma_run_push(schema_after_first(), steps@, step);
            reveal_with_fuel(columns_of, 10);
            reveal_strlit("idx_user_joined_subs_user_sov_id");
            reveal_strlit("idx_user_joined_subs_sub_sov_id");
            reveal_strlit("idx_posts_user_sov_id");
            reveal_strlit("idx_posts_sub_sov_id");
            reveal_strlit("idx_comments_user_sov_id");
            reveal_strlit("idx_comments_post_sov_id");
            reveal_strlit("idx_user_joined_subs_unique");
            reveal_strlit("idx_user_liked_posts_user_sov_id");
            assert("idx_user_joined_subs_user_sov_id"@[9] != "idx_user_liked_posts_user_sov_id"@[9]);
            assert("idx_user_joined_subs_sub_sov_id"@.len() != "idx_user_liked_posts_user_sov_id"@.len());
            assert("idx_posts_user_sov_id"@.len() != "idx_user_liked_posts_user_sov_id"@.len());
            assert("idx_posts_sub_sov_id"@.len() != "idx_user_liked_posts_user_sov_id"@.len());
            assert("idx_comments_user_sov_id"@.len() != "idx_user_liked_posts_user_sov_id"@.len());
            assert("idx_comments_post_sov_id"@.len() != "idx_user_liked_posts_user_sov_id"@.len());
            assert("idx_user_joined_subs_unique"@.len() != "idx_user_liked_posts_user_sov_id"@.len());
            assert(!st.indexes.contains_key("idx_user_liked_posts_user_sov_id"@));
            assert(st.tables.contains_key(Table::UserLikedPosts));
            assert(st.tables[Table::UserLikedPosts].columns.contains_key(Column::UserSovId));
            assert(columns@ =~= seq![Column::UserSovId]);
            st = SchemaModel { tables: st.tables, indexes: st.indexes.insert("idx_user_liked_posts_user_sov_id"@, index_model(Table::UserLikedPosts, Column::UserSovId)) };
        }
        steps.push(step);
        assert(run(schema_after_first(), steps@) == Some(st));

        let columns = vec![Column::PostSovId];
        let step = create_index("idx_user_liked_posts_post_sov_id", Table::UserLikedPosts, columns, false);
        proof {
            lemma_run_push(schema_after_first(), steps@, step);
            reveal_with_fuel(columns_of, 10);
            reveal_strlit("idx_user_joined_subs_user_sov_id");
            reveal_strlit("idx_user_joined_subs_sub_sov_id");
            reveal_strlit("idx_posts_user_sov_id");
            reveal_strlit("idx_posts_sub_sov_id");
            reveal_strlit("idx_comments_user_sov_id");
            reveal_strlit("idx_comments_post_sov_id");
            reveal_strlit("idx_user_joined_subs_unique");
            reveal_strlit("idx_user_liked_posts_user_sov_id");
            reveal_strlit("idx_user_liked_posts_post_sov_id");
            assert("idx_user_joined_subs_user_sov_id"@[9] != "idx_user_liked_posts_post_sov_id"@[9]);
            assert("idx_user_joined_subs_sub_sov_id"@.len() != "idx_user_liked_posts_post_sov_id"@.len());
            assert("idx_posts_user_sov_id"@.len() != "idx_user_liked_posts_post_sov_id"@.len());
            assert("idx_posts_sub_sov_id"@.len() != "idx_user_liked_posts_post_sov_id"@.len());
            assert("idx_comments_user_sov_id"@.len() != "idx_user_liked_posts_post_sov_id"@.len());
            assert("idx_comments_post_sov_id"@.len() != "idx_user_liked_posts_post_sov_id"@.len());
            assert("idx_user_joined_subs_unique"@.len() != "idx_user_liked_posts_post_sov_id"@.len());
            assert("idx_user_liked_posts_user_sov_id"@[21] != "idx_user_liked_posts_post_sov_id"@[21]);
            assert(!st.indexes.contains_key("idx_user_liked_posts_post_sov_id"@));
            assert(st.tables.contains_key(Table::UserLikedPosts));
            assert(st.tables[Table::UserLikedPosts].columns.contains_key(Column::PostSovId));
            assert(columns@ =~= seq![Column::PostSovId]);
            st = SchemaModel { tables: st.tables, indexes: st.indexes.insert("idx_user_liked_posts_post_sov_id"@, index_model(Table::UserLikedPosts, Column::PostSovId)) };
        }
        steps.push(step);
        assert(run(schema_after_first(), steps@) == Some(st));

        assert(st.indexes =~= schema_after_up().indexes);
        proof {
            lemma_second_migration_keys();
            lemma_second_migration_layout();
        }
        steps
    }

    /// Drops the stored-vote table, then the membership table. On the
    /// schema `up` leaves, both steps succeed.
    pub fn down(&self) -> (steps: Vec<SchemaStep>)
        ensures
            run(schema_after_up(), steps@) == Some(schema_after_down()),
    {
        let mut steps: Vec<SchemaStep> = Vec::new();
        let ghost mut st = schema_after_up();
        assert(run(schema_after_up(), steps@) == Some(st));

        let step = SchemaStep::DropTable(Table::UserLikedPosts);
        proof {
            lemma_run_push(schema_after_up(), steps@, step);
            reveal_with_fuel(references_of, 3);
            st = SchemaModel {
                tables: st.tables.remove(Table::UserLikedPosts),
                indexes: Map::new(
                    |n: Seq<char>| st.indexes.contains_key(n) && st.indexes[n].table != Table::UserLikedPosts,
                    |n: Seq<char>| st.indexes[n],
                ),
            };
        }
        steps.push(step);
        assert(run(schema_after_up(), steps@) == Some(st));

        let step = SchemaStep::DropTable(Table::UserJoinedSubs);
        proof {
            lemma_run_push(schema_after_up(), steps@, step);
            reveal_with_fuel(references_of, 3);
            st = SchemaModel {
                tables: st.tables.remove(Table::UserJoinedSubs),
                indexes: Map::new(
                    |n: Seq<char>| st.indexes.contains_key(n) && st.indexes[n].table != Table::UserJoinedSubs,
                    |n: Seq<char>| st.indexes[n],
                ),
            };
        }
        steps.push(step);
        assert(run(schema_after_up(), steps@) == Some(st));
        assert(st.tables =~= schema_after_down().tables);
        proof {
            reveal_strlit("idx_user_joined_subs_user_sov_id");
            reveal_strlit("idx_user_joined_subs_sub_sov_id");
            reveal_strlit("idx_posts_user_sov_id");
            reveal_strlit("idx_posts_sub_sov_id");
            reveal_strlit("idx_comments_user_sov_id");
            reveal_strlit("idx_comments_post_sov_id");
            reveal_strlit("idx_user_joined_subs_unique");
            reveal_strlit("idx_user_liked_posts_user_sov_id");
            reveal_strlit("idx_user_liked_posts_post_sov_id");
            assert("idx_user_joined_subs_user_sov_id"@.len() != "idx_user_joined_subs_sub_sov_id"@.len());
            assert("idx_user_joined_subs_user_sov_id"@.len() != "idx_posts_user_sov_id"@.len());
            assert("idx_user_joined_subs_user_sov_id"@.len() != "idx_posts_sub_sov_id"@.len());
            assert("idx_user_joined_subs_user_sov_id"@.len() != "idx_comments_user_sov_id"@.len());
            assert("idx_user_joined_subs_user_sov_id"@.len() != "idx_comments_post_sov_id"@.len());
            assert("idx_user_joined_subs_user_sov_id"@.len() != "idx_user_joined_subs_unique"@.len());
            assert("idx_user_joined_subs_user_sov_id"@[9] != "idx_user_liked_posts_user_sov_id"@[9]);
            assert("idx_user_joined_subs_user_sov_id"@[9] != "idx_user_liked_posts_post_sov_id"@[9]);
            assert("idx_user_joined_subs_sub_sov_id"@.len() != "idx_posts_user_sov_id"@.len());
            assert("idx_user_joined_subs_sub_sov_id"@.len() != "idx_posts_sub_sov_id"@.len());
            assert("idx_user_joined_subs_sub_sov_id"@.len() != "idx_comments_user_sov_id"@.len());
            assert("idx_user_joined_subs_sub_sov_id"@.len() != "idx_comments_post_sov_id"@.len());
            assert("idx_user_joined_subs_sub_sov_id"@.len() != "idx_user_joined_subs_unique"@.len());
            assert("idx_user_joined_subs_sub_sov_id"@.len() != "idx_user_liked_posts_user_sov_id"@.len());
            assert("idx_user_joined_subs_sub_sov_id"@.len() != "idx_user_liked_posts_post_sov_id"@.len());
            assert("idx_posts_user_sov_id"@.len() != "idx_posts_sub_sov_id"@.len());
            assert("idx_posts_user_sov_id"@.len() != "idx_comments_user_sov_id"@.len());
            assert("idx_posts_user_sov_id"@.len() != "idx_comments_post_sov_id"@.len());
            assert("idx_posts_user_sov_id"@.len() != "idx_user_joined_subs_unique"@.len());
            assert("idx_posts_user_sov_id"@.len() != "idx_user_liked_posts_user_sov_id"@.len());
            assert("idx_posts_user_sov_id"@.len() != "idx_user_liked_posts_post_sov_id"@.len());
            assert("idx_posts_sub_sov_id"@.len() != "idx_comments_user_sov_id"@.len());
            assert("idx_posts_sub_sov_id"@.len() != "idx_comments_post_sov_id"@.len());
            assert("idx_posts_sub_sov_id"@.len() != "idx_user_joined_subs_unique"@.len());
            assert("idx_posts_sub_sov_id"@.len() != "idx_user_liked_posts_user_sov_id"@.len());
            assert("idx_posts_sub_sov_id"@.len() != "idx_user_liked_posts_post_sov_id"@.len());
            assert("idx_comments_user_sov_id"@[13] != "idx_comments_post_sov_id"@[13]);
            assert("idx_comments_user_sov_id"@.len() != "idx_user_joined_subs_unique"@.len());
            assert("idx_comments_user_sov_id"@.len() != "idx_user_liked_posts_user_sov_id"@.len());
            assert("idx_comments_user_sov_id"@.len() != "idx_user_liked_posts_post_sov_id"@.len());
            assert("idx_comments_post_sov_id"@.len() != "idx_user_joined_subs_unique"@.len());
            assert("idx_comments_post_sov_id"@.len() != "idx_user_liked_posts_user_sov_id"@.len());
            assert("idx_comments_post_sov_id"@.len() != "idx_user_liked_posts_post_sov_id"@.len());
            assert("idx_user_joined_subs_unique"@.len() != "idx_user_liked_posts_user_sov_id"@.len());
            assert("idx_user_joined_subs_unique"@.len() != "idx_user_liked_posts_post_sov_id"@.len());
            assert("idx_user_liked_posts_user_sov_id"@[21] != "idx_user_liked_posts_post_sov_id"@[21]);
        }
        assert(st.indexes =~= schema_after_down().indexes);
        steps
    }
}

} // verus!
