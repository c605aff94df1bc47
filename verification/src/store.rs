//! The decisions of the persistent store: where a record lives on disk and
//! what a read of that place amounts to. Reading and writing the file is the
//! caller's part.

use vstd::prelude::*;
use vstd::string::StringExecFns;
use crate::record::{ChatMemory, MessageView};
use crate::scope::Scope;

verus! {

/// Directory under which every record is kept.
pub const MEMORY_DIR: &'static str = "data";

/// Why a stored record could not be had.
#[derive(Debug)]
pub enum LoadError {
    /// Nothing is stored for the identity.
    NotFound,
    /// Something is stored, but it is no record; the text says why.
    Corrupt(String),
}

/// What a caller found at a record's place on disk.
#[derive(Debug)]
pub enum FileRead {
    /// No file is there.
    Missing,
    /// A file is there, but it could not be read as a record; the text says
    /// why.
    Unreadable(String),
    /// The record the file holds.
    Record(ChatMemory),
}

/// The file name of a record: the id, the scope's label and a fixed ending,
/// joined by underscores.
pub open spec fn file_name_of(id: Seq<char>, scope: Scope) -> Seq<char> {
    id + "_"@ + scope.label() + "_memory.json"@
}

/// The name of the file, under [`MEMORY_DIR`], that holds the record of
/// `id` in `scope`.
pub fn memory_file_name(id: &str, scope: Scope) -> (name: String)
    ensures
        name@ == file_name_of(id@, scope),
{
    let mut name = id.to_string();
    name.append("_");
    name.append(scope.name());
    name.append("_memory.json");
    name
}

/// No two identities share a file: the file name tells the id and the scope.
pub proof fn lemma_file_name_tells_identity(
    id: Seq<char>,
    scope: Scope,
    other_id: Seq<char>,
    other_scope: Scope,
)
    requires
        file_name_of(id, scope) == file_name_of(other_id, other_scope),
    ensures
        id == other_id,
        scope == other_scope,
{
    reveal_strlit("_");
    reveal_strlit("user");
    reveal_strlit("server");
    reveal_strlit("_memory.json");
    let name = file_name_of(id, scope);
    let other_name = file_name_of(other_id, other_scope);
    let ending = "_memory.json"@;
    assert(name.len() == id.len() + 1 + scope.label().len() + ending.len());
    assert(other_name.len() == other_id.len() + 1 + other_scope.label().len() + ending.len());
    if scope != other_scope {
        // Third from last, the two labels differ: `user` has `s` there and
        // `server` has `v`.
        let at = name.len() - ending.len() - 3;
        assert(name[at] == scope.label()[scope.label().len() - 3]);
        assert(other_name[at] == other_scope.label()[other_scope.label().len() - 3]);
        assert("user"@[1] == 's');
        assert("server"@[3] == 'v');
        assert(name[at] != other_name[at]);
    }
    assert(id =~= name.take(id.len() as int));
    assert(other_id =~= other_name.take(other_id.len() as int));
}

/// What a read amounts to. A missing file is a new identity and gives an
/// empty record; an unreadable one is an error that carries the cause; a
/// record is handed on as it is.
pub fn load_memory_from_file(read: FileRead) -> (loaded: Result<ChatMemory, LoadError>)
    ensures
        match read {
            FileRead::Missing => loaded matches Ok(memory) && memory@ == Seq::<MessageView>::empty(),
            FileRead::Unreadable(cause) => loaded == Err::<ChatMemory, LoadError>(
                LoadError::Corrupt(cause),
            ),
            FileRead::Record(stored) => loaded == Ok::<ChatMemory, LoadError>(stored),
        },
{
    match read {
        FileRead::Missing => Ok(ChatMemory::new()),
        FileRead::Unreadable(cause) => Err(LoadError::Corrupt(cause)),
        FileRead::Record(stored) => Ok(stored),
    }
}

} // verus!
