//! Schema steps and the schema model they act on.

use vstd::prelude::*;

verus! {

/// The tables the migrations name.
#[derive(PartialEq, Eq, Structural, Clone, Copy, Debug)]
pub enum Table {
    Users,
    Sub,
    Subreddit,
    Posts,
    UserJoinedSubs,
    Comments,
    UserLikedPosts,
}

impl Table {
    pub open spec fn name(self) -> Seq<char> {
        match self {
            Table::Users => "users"@,
            Table::Sub => "sub"@,
            Table::Subreddit => "subreddit"@,
            Table::Posts => "posts"@,
            Table::UserJoinedSubs => "user_joined_subs"@,
            Table::Comments => "comments"@,
            Table::UserLikedPosts => "user_liked_posts"@,
        }
    }

    /// The table's SQL name.
    pub fn as_str(&self) -> (s: &'static str)
        ensures
            s@ == self.name(),
    {
        match self {
            Table::Users => "users",
            Table::Sub => "sub",
            Table::Subreddit => "subreddit",
            Table::Posts => "posts",
            Table::UserJoinedSubs => "user_joined_subs",
            Table::Comments => "comments",
            Table::UserLikedPosts => "user_liked_posts",
        }
    }
}

/// The columns the migrations name.
#[derive(PartialEq, Eq, Structural, Clone, Copy, Debug)]
pub enum Column {
    Id,
    SovId,
    Username,
    SubSovId,
    Subname,
    SubDescription,
    Mods,
    PostSovId,
    Title,
    Content,
    Flair,
    UserSovId,
    Upvote,
    Downvote,
    Score,
    Value,
    CreatedAt,
    UpdatedAt,
}

impl Column {
    pub open spec fn name(self) -> Seq<char> {
        match self {
            Column::Id => "id"@,
            Column::SovId => "sov_id"@,
            Column::Username => "username"@,
            Column::SubSovId => "sub_sov_id"@,
            Column::Subname => "subname"@,
            Column::SubDescription => "sub_description"@,
            Column::Mods => "mods"@,
            Column::PostSovId => "post_sov_id"@,
            Column::Title => "title"@,
            Column::Content => "content"@,
            Column::Flair => "flair"@,
            Column::UserSovId => "user_sov_id"@,
            Column::Upvote => "upvote"@,
            Column::Downvote => "downvote"@,
            Column::Score => "score"@,
            Column::Value => "value"@,
            Column::CreatedAt => "created_at"@,
            Column::UpdatedAt => "updated_at"@,
        }
    }

    /// The column's SQL name.
    pub fn as_str(&self) -> (s: &'static str)
        ensures
            s@ == self.name(),
    {
        match self {
            Column::Id => "id",
            Column::SovId => "sov_id",
            Column::Username => "username",
            Column::SubSovId => "sub_sov_id",
            Column::Subname => "subname",
            Column::SubDescription => "sub_description",
            Column::Mods => "mods",
            Column::PostSovId => "post_sov_id",
            Column::Title => "title",
            Column::Content => "content",
            Column::Flair => "flair",
            Column::UserSovId => "user_sov_id",
            Column::Upvote => "upvote",
            Column::Downvote => "downvote",
            Column::Score => "score",
            Column::Value => "value",
            Column::CreatedAt => "created_at",
            Column::UpdatedAt => "updated_at",
        }
    }
}

/// Column types.
#[derive(PartialEq, Eq, Structural, Clone, Copy, Debug)]
pub enum ColumnType {
    /// A character string of no declared length (`varchar`).
    String,
    Integer,
    Uuid,
    DateTime,
    /// An array of character strings (`varchar[]`).
    StringArray,
}

/// A column of a created table.
#[derive(PartialEq, Eq, Structural, Clone, Copy, Debug)]
pub struct ColumnDef {
    pub column: Column,
    pub col_type: ColumnType,
    pub not_null: bool,
    pub primary_key: bool,
    /// A new row gets a random uuid here when none is given.
    pub random_uuid_default: bool,
}

/// A foreign key of a created table; the referencing column is the
/// table's own. Deletes and updates of the referenced row cascade.
#[derive(Clone, Copy, Debug)]
pub struct ForeignKeyDef {
    pub name: &'static str,
    pub column: Column,
    pub to_table: Table,
    pub to_column: Column,
}

/// A table to create.
pub struct TableDef {
    pub table: Table,
    pub if_not_exists: bool,
    pub columns: Vec<ColumnDef>,
    pub foreign_keys: Vec<ForeignKeyDef>,
}

/// An index to create.
pub struct IndexDef {
    pub name: &'static str,
    pub table: Table,
    pub columns: Vec<Column>,
    pub unique: bool,
    pub if_not_exists: bool,
}

/// One step of a migration.
pub enum SchemaStep {
    CreateTable(TableDef),
    CreateIndex(IndexDef),
    DropTable(Table),
}

// ---------------------------------------------------------------------------
// The schema model

/// What the schema keeps of a column.
#[derive(PartialEq, Eq, Structural, Clone, Copy, Debug)]
pub struct ColumnFacts {
    pub col_type: ColumnType,
    pub not_null: bool,
    pub primary_key: bool,
}

/// A foreign key in the schema: from a column of its table to a column of
/// another.
pub struct Reference {
    pub name: Seq<char>,
    pub column: Column,
    pub to_table: Table,
    pub to_column: Column,
}

/// A table in the schema.
pub struct TableModel {
    pub columns: Map<Column, ColumnFacts>,
    pub references: Set<Reference>,
}

/// An index in the schema.
pub struct IndexModel {
    pub table: Table,
    pub columns: Seq<Column>,
    pub unique: bool,
}

/// A database schema: its tables and its indexes by name.
pub struct SchemaModel {
    pub tables: Map<Table, TableModel>,
    pub indexes: Map<Seq<char>, IndexModel>,
}

pub open spec fn empty_schema() -> SchemaModel {
    SchemaModel { tables: Map::empty(), indexes: Map::empty() }
}

pub open spec fn facts_of(c: ColumnDef) -> ColumnFacts {
    ColumnFacts { col_type: c.col_type, not_null: c.not_null, primary_key: c.primary_key }
}

/// The columns a list of column definitions gives a table.
pub open spec fn columns_of(cols: Seq<ColumnDef>) -> Map<Column, ColumnFacts>
    decreases cols.len(),
{
    if cols.len() == 0 {
        Map::empty()
    } else {
        columns_of(cols.drop_last()).insert(cols.last().column, facts_of(cols.last()))
    }
}

pub open spec fn reference_of(fk: ForeignKeyDef) -> Reference {
    Reference { name: fk.name@, column: fk.column, to_table: fk.to_table, to_column: fk.to_column }
}

/// The references a list of foreign keys gives a table.
pub open spec fn references_of(fks: Seq<ForeignKeyDef>) -> Set<Reference>
    decreases fks.len(),
{
    if fks.len() == 0 {
        Set::empty()
    } else {
        references_of(fks.drop_last()).insert(reference_of(fks.last()))
    }
}

/// The table model that a definition creates.
pub open spec fn table_model(columns: Seq<ColumnDef>, fks: Seq<ForeignKeyDef>) -> TableModel {
    TableModel { columns: columns_of(columns), references: references_of(fks) }
}

/// Whether no two column definitions name the same column.
pub open spec fn distinct_columns(cols: Seq<ColumnDef>) -> bool {
    forall|i: int, j: int| 0 <= i < j < cols.len() ==> cols[i].column != cols[j].column
}

/// Whether a foreign key can be created on a new table: its column is one
/// of the table's, and it references the primary key of an existing table
/// (or of the new table itself) with a column of the same type.
pub open spec fn foreign_key_ok(
    s: SchemaModel,
    table: Table,
    cols: Map<Column, ColumnFacts>,
    fk: ForeignKeyDef,
) -> bool {
    let target = if fk.to_table == table { cols } else { s.tables[fk.to_table].columns };
    &&& cols.contains_key(fk.column)
    &&& (fk.to_table == table || s.tables.contains_key(fk.to_table))
    &&& target.contains_key(fk.to_column)
    &&& target[fk.to_column].primary_key
    &&& target[fk.to_column].col_type == cols[fk.column].col_type
}

/// The schema after one step, or `None` when the database refuses it: a
/// table that exists already (unless the step allows it), a duplicate
/// column, a foreign key or index that names a missing table or column, an
/// index name already taken (unless the step allows it), or dropping a
/// table that is missing or that another table references.
pub open spec fn apply_step(s: SchemaModel, step: SchemaStep) -> Option<SchemaModel> {
    match step {
        SchemaStep::CreateTable(t) => {
            if s.tables.contains_key(t.table) {
                if t.if_not_exists { Some(s) } else { None }
            } else {
                let cols = columns_of(t.columns@);
                if distinct_columns(t.columns@) && forall|i: int|
                    0 <= i < t.foreign_keys@.len() ==> foreign_key_ok(
                        s,
                        t.table,
                        cols,
                        #[trigger] t.foreign_keys@[i],
                    ) {
                    Some(SchemaModel {
                        tables: s.tables.insert(t.table, table_model(t.columns@, t.foreign_keys@)),
                        indexes: s.indexes,
                    })
                } else {
                    None
                }
            }
        },
        SchemaStep::CreateIndex(ix) => {
            if s.indexes.contains_key(ix.name@) {
                if ix.if_not_exists { Some(s) } else { None }
            } else if s.tables.contains_key(ix.table) && ix.columns@.len() > 0 && forall|i: int|
                0 <= i < ix.columns@.len() ==> s.tables[ix.table].columns.contains_key(
                    #[trigger] ix.columns@[i],
                ) {
                Some(SchemaModel {
                    tables: s.tables,
                    indexes: s.indexes.insert(
                        ix.name@,
                        IndexModel { table: ix.table, columns: ix.columns@, unique: ix.unique },
                    ),
                })
            } else {
                None
            }
        },
        SchemaStep::DropTable(t) => {
            if s.tables.contains_key(t) && forall|other: Table, r: Reference|
                other != t && s.tables.contains_key(other) && #[trigger] s.tables[other].references.contains(r)
                    ==> r.to_table != t {
                Some(SchemaModel {
                    tables: s.tables.remove(t),
                    indexes: Map::new(
                        |n: Seq<char>| s.indexes.contains_key(n) && s.indexes[n].table != t,
                        |n: Seq<char>| s.indexes[n],
                    ),
                })
            } else {
                None
            }
        },
    }
}

/// Whether every foreign key on a `*_sov_id` column points at the key of
/// the table that the column names: `user_sov_id` at users' `sov_id`,
/// `sub_sov_id` at `sub_sov_id` of the subreddit table `subreddits`, and
/// `post_sov_id` at posts' `post_sov_id`.
pub open spec fn references_point_home(s: SchemaModel, subreddits: Table) -> bool {
    forall|t: Table, r: Reference|
        s.tables.contains_key(t) && #[trigger] s.tables[t].references.contains(r) ==> {
            &&& r.column == Column::UserSovId ==> r.to_table == Table::Users && r.to_column
                == Column::SovId
            &&& r.column == Column::SubSovId ==> r.to_table == subreddits && r.to_column
                == Column::SubSovId
            &&& r.column == Column::PostSovId ==> r.to_table == Table::Posts && r.to_column
                == Column::PostSovId
        }
}

/// Whether a table of the schema holds the named foreign key from `column`
/// to `to_column` of `to_table`.
pub open spec fn has_reference(
    s: SchemaModel,
    table: Table,
    name: Seq<char>,
    column: Column,
    to_table: Table,
    to_column: Column,
) -> bool {
    s.tables.contains_key(table) && s.tables[table].references.contains(
        Reference { name, column, to_table, to_column },
    )
}

/// Whether `column` is the one primary key column of `table`.
pub open spec fn primary_key_is(s: SchemaModel, table: Table, column: Column) -> bool {
    &&& s.tables.contains_key(table)
    &&& s.tables[table].columns.contains_key(column)
    &&& s.tables[table].columns[column].primary_key
    &&& forall|c: Column|
        #[trigger] s.tables[table].columns.contains_key(c) && s.tables[table].columns[c].primary_key
            ==> c == column
}

/// Whether the schema holds a plain (not unique) index of the given name on
/// one column of a table.
pub open spec fn has_column_index(s: SchemaModel, name: Seq<char>, table: Table, column: Column) -> bool {
    s.indexes.contains_key(name) && s.indexes[name] == IndexModel { table, columns: seq![column], unique: false }
}

/// The schema after a list of steps, or `None` when one is refused.
pub open spec fn run(s: SchemaModel, steps: Seq<SchemaStep>) -> Option<SchemaModel>
    decreases steps.len(),
{
    if steps.len() == 0 {
        Some(s)
    } else {
        match run(s, steps.drop_last()) {
            Some(m) => apply_step(m, steps.last()),
            None => None,
        }
    }
}

/// Running one more step runs the earlier ones, then that step.
pub proof fn lemma_run_push(s: SchemaModel, steps: Seq<SchemaStep>, step: SchemaStep)
    ensures
        run(s, steps.push(step)) == (match run(s, steps) {
            Some(m) => apply_step(m, step),
            None => None,
        }),
{
    assert(steps.push(step).drop_last() =~= steps);
}

} // verus!
