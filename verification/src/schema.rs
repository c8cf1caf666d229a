//! The tables and indexes of the store, the script that defines them, and
//! what defining them does to a database.

use vstd::prelude::*;

verus! {

/// The table of actor records.
pub const ACTOR_TABLE: &'static str = "actor";

/// The table of request frames.
pub const REQUEST_TABLE: &'static str = "request";

/// The table of reply frames.
pub const REPLY_TABLE: &'static str = "reply";

/// The table of health records.
pub const HEALTH_TABLE: &'static str = "health";

/// The index by which an actor finds the requests addressed to it.
pub const REQUEST_INDEX: &'static str = "request_recipient";

/// The column of the request table that `REQUEST_INDEX` covers.
pub const REQUEST_INDEX_COLUMN: &'static str = "recipient";

/// The index by which a sender finds the replies to its request.
pub const REPLY_INDEX: &'static str = "reply_request_id";

/// The column of the reply table that `REPLY_INDEX` covers.
pub const REPLY_INDEX_COLUMN: &'static str = "request_id";

/// The statement that defines the table `name`, unless it is defined.
pub open spec fn define_table_text(name: Seq<char>) -> Seq<char> {
    "DEFINE TABLE IF NOT EXISTS "@ + name + " SCHEMALESS;\n"@
}

/// The statement that defines the index `index` on the column `column` of
/// the table `table`, unless it is defined.
pub open spec fn define_index_text(index: Seq<char>, table: Seq<char>, column: Seq<char>) -> Seq<
    char,
> {
    "DEFINE INDEX IF NOT EXISTS "@ + index + " ON TABLE "@ + table + " COLUMNS "@ + column
        + ";\n"@
}

/// The schema bootstrap script: the four tables, then the two indexes.
pub open spec fn bootstrap_text() -> Seq<char> {
    define_table_text("actor"@) + define_table_text("request"@) + define_table_text("reply"@)
        + define_table_text("health"@) + define_index_text(
        "request_recipient"@,
        "request"@,
        "recipient"@,
    ) + define_index_text("reply_request_id"@, "reply"@, "request_id"@)
}

fn push_define_table(script: &mut String, name: &str)
    ensures
        final(script)@ == old(script)@ + define_table_text(name@),
{
    let ghost before = script@;
    script.append("DEFINE TABLE IF NOT EXISTS ");
    script.append(name);
    script.append(" SCHEMALESS;\n");
    assert(script@ =~= before + define_table_text(name@));
}

fn push_define_index(script: &mut String, index: &str, table: &str, column: &str)
    ensures
        final(script)@ == old(script)@ + define_index_text(index@, table@, column@),
{
    let ghost before = script@;
    script.append("DEFINE INDEX IF NOT EXISTS ");
    script.append(index);
    script.append(" ON TABLE ");
    script.append(table);
    script.append(" COLUMNS ");
    script.append(column);
    script.append(";\n");
    assert(script@ =~= before + define_index_text(index@, table@, column@));
}

/// The schema bootstrap script. It defines the tables of actors, requests,
/// replies and health records, an index on the recipient of a request and
/// an index on the request of a reply. Each statement leaves alone what is
/// defined already.
pub fn bootstrap_script() -> (script: String)
    ensures
        script@ == bootstrap_text(),
{
    let mut script = String::new();
    push_define_table(&mut script, ACTOR_TABLE);
    push_define_table(&mut script, REQUEST_TABLE);
    push_define_table(&mut script, REPLY_TABLE);
    push_define_table(&mut script, HEALTH_TABLE);
    push_define_index(&mut script, REQUEST_INDEX, REQUEST_TABLE, REQUEST_INDEX_COLUMN);
    push_define_index(&mut script, REPLY_INDEX, REPLY_TABLE, REPLY_INDEX_COLUMN);
    assert(script@ =~= bootstrap_text());
    script
}

/// What a database holds, as far as the runtime cares: the tables and
/// indexes that are defined, and whether any row is stored.
pub struct Database {
    pub tables: Set<Seq<char>>,
    pub indexes: Set<Seq<char>>,
    pub has_rows: bool,
}

/// The tables that the bootstrap script defines.
pub open spec fn schema_tables() -> Set<Seq<char>> {
    set!["actor"@, "request"@, "reply"@, "health"@]
}

/// The indexes that the bootstrap script defines.
pub open spec fn schema_indexes() -> Set<Seq<char>> {
    set!["request_recipient"@, "reply_request_id"@]
}

impl Database {
    /// A database in which nothing is defined or stored.
    pub open spec fn empty() -> Database {
        Database { tables: Set::empty(), indexes: Set::empty(), has_rows: false }
    }

    /// The database after the bootstrap script ran on it: the tables and
    /// indexes of the schema are defined, and whatever was defined or
    /// stored before is kept.
    pub open spec fn bootstrapped(self) -> Database {
        Database {
            tables: self.tables.union(schema_tables()),
            indexes: self.indexes.union(schema_indexes()),
            has_rows: self.has_rows,
        }
    }

    /// The database after it was dropped.
    pub open spec fn removed(self) -> Database {
        Database::empty()
    }

    /// Whether the database defines all of the schema.
    pub open spec fn has_schema(self) -> bool {
        schema_tables().subset_of(self.tables) && schema_indexes().subset_of(self.indexes)
    }
}

/// The bootstrap script defines the schema, whatever the database held.
pub proof fn lemma_bootstrap_defines_schema(database: Database)
    ensures
        database.bootstrapped().has_schema(),
{
}

/// The bootstrap script is idempotent: to run it a second time changes
/// nothing.
pub proof fn lemma_bootstrap_idempotent(database: Database)
    ensures
        database.bootstrapped().bootstrapped() == database.bootstrapped(),
{
    assert(database.bootstrapped().bootstrapped().tables =~= database.bootstrapped().tables);
    assert(database.bootstrapped().bootstrapped().indexes =~= database.bootstrapped().indexes);
}

/// On a database that defines the schema already the bootstrap script
/// changes nothing.
pub proof fn lemma_bootstrap_keeps_schema(database: Database)
    requires
        database.has_schema(),
    ensures
        database.bootstrapped() == database,
{
    assert(database.bootstrapped().tables =~= database.tables);
    assert(database.bootstrapped().indexes =~= database.indexes);
}

} // verus!
