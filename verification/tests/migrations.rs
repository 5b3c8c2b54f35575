use reddit_offchain::migrations::m20220101_000001_create_table as first;
use reddit_offchain::migrations::m20250613_175020_add_new_tables as second;
use reddit_offchain::migrations::schema::{Column, ColumnType, SchemaStep, Table};
use reddit_offchain::migrations::Migrator;

fn outline(steps: &[SchemaStep]) -> Vec<String> {
    steps
        .iter()
        .map(|s| match s {
            SchemaStep::CreateTable(t) => format!("table {}", t.table.as_str()),
            SchemaStep::CreateIndex(i) => format!("index {}", i.name),
            SchemaStep::DropTable(t) => format!("drop {}", t.as_str()),
        })
        .collect()
}

#[test]
fn first_migration_creates_tables_then_indexes() {
    let steps = first::Migration.up();
    assert_eq!(
        outline(&steps),
        vec![
            "table users", "table sub", "table posts", "table user_joined_subs", "table comments",
            "index idx_user_joined_subs_user_sov_id", "index idx_user_joined_subs_sub_sov_id",
            "index idx_posts_user_sov_id", "index idx_posts_sub_sov_id",
            "index idx_comments_user_sov_id", "index idx_comments_post_sov_id",
        ]
    );
    match &steps[2] {
        SchemaStep::CreateTable(t) => {
            assert_eq!(t.columns.len(), 9);
            assert_eq!(t.foreign_keys[1].name, "fk_posts_sub_sov_id");
            assert_eq!(t.foreign_keys[1].to_table, Table::Sub);
            assert_eq!(t.columns[0].column.as_str(), "post_sov_id");
            assert_eq!(t.columns[0].col_type, ColumnType::String);
            assert_eq!(t.columns[6].col_type, ColumnType::Integer);
        },
        _ => panic!("expected the posts table"),
    }
    match &steps[1] {
        SchemaStep::CreateTable(t) => assert_eq!(t.columns[3].col_type, ColumnType::StringArray),
        _ => panic!("expected the sub table"),
    }
    assert_eq!(first::Migration.name(), "m20220101_000001_create_table");
}

#[test]
fn first_migration_drops_dependents_first() {
    assert_eq!(
        outline(&first::Migration.down()),
        vec!["drop comments", "drop user_joined_subs", "drop posts", "drop sub", "drop users"]
    );
}

#[test]
fn second_migration_steps() {
    let steps = second::Migration.up();
    assert_eq!(
        outline(&steps),
        vec![
            "table user_joined_subs", "table user_liked_posts",
            "index idx_user_joined_subs_user_sov_id", "index idx_user_joined_subs_sub_sov_id",
            "index idx_user_joined_subs_unique", "index idx_user_liked_posts_user_sov_id",
            "index idx_user_liked_posts_post_sov_id",
        ]
    );
    match &steps[4] {
        SchemaStep::CreateIndex(i) => {
            assert!(i.unique);
            assert_eq!(i.columns, vec![Column::UserSovId, Column::SubSovId]);
        },
        _ => panic!("expected the unique index"),
    }
    assert_eq!(outline(&second::Migration.down()), vec!["drop user_liked_posts", "drop user_joined_subs"]);
    assert_eq!(Migrator::migrations().len(), 4);
}
