use vstd::prelude::*;

verus! {

/// The Lua state that runs every plugin script.
#[verifier::external_type_specification]
#[verifier::external_body]
pub struct ExLua(mlua::Lua);

/// A Lua function that outlives the borrow of the Lua state it came from.
#[verifier::external_type_specification]
#[verifier::external_body]
pub struct ExOwnedFunction(mlua::OwnedFunction);

/// A Lua table that outlives the borrow of the Lua state it came from.
#[verifier::external_type_specification]
#[verifier::external_body]
pub struct ExOwnedTable(mlua::OwnedTable);

/// An error raised by the Lua runtime.
#[verifier::external_type_specification]
#[verifier::external_body]
pub struct ExLuaError(mlua::Error);

/// A run of a plugin's script: its main chunk with the globals it ran in, or one of its
/// functions; `raised` tells whether the run ended in a Lua error.
pub enum ScriptRun {
    Chunk { source: Seq<char>, globals: mlua::OwnedTable, raised: bool },
    Call { function: mlua::OwnedFunction, raised: bool },
}

/// Calls the Lua function `function` without arguments and discards what it returns
/// (`mlua::OwnedFunction::call`). Whether it fails depends on the script; what is stated is
/// which function ran, in the record returned beside the result.
#[verifier::external_body]
pub(crate) fn call_without_arguments(function: &mlua::OwnedFunction) -> (r: (
    Result<(), mlua::Error>,
    Ghost<ScriptRun>,
))
    ensures
        r.1@ == (ScriptRun::Call { function: *function, raised: r.0 is Err }),
{
    let result = function.call::<_, ()>(());
    let run = Ghost(ScriptRun::Call { function: *function, raised: result is Err });
    (result, run)
}

/// Compiles `source` as Lua source text and runs it in the Lua state `lua` with the globals
/// `environment` (`mlua::Lua::load`, `mlua::Chunk::set_mode` with `mlua::ChunkMode::Text`,
/// `mlua::Chunk::set_environment`, `mlua::Chunk::exec`). The chunk is always read as text:
/// left to itself it would read a source whose first byte is below a line feed as bytecode,
/// which Lua does not check and which can crash the interpreter. What the script does is up
/// to the script; what is stated is which source ran in which globals, in the record returned
/// beside the result.
#[verifier::external_body]
pub(crate) fn exec_chunk(
    lua: &std::sync::Arc<mlua::Lua>,
    source: &str,
    environment: &mlua::OwnedTable,
) -> (r: (Result<(), mlua::Error>, Ghost<ScriptRun>))
    ensures
        r.1@ == (ScriptRun::Chunk { source: source@, globals: *environment, raised: r.0 is Err }),
{
    let result = lua.load(source).set_mode(mlua::ChunkMode::Text).set_environment(environment).exec();
    let run = Ghost(ScriptRun::Chunk { source: source@, globals: *environment, raised: result is Err });
    (result, run)
}

/// The function stored under `name` in `table`, if that entry holds a function
/// (`mlua::Table::get`, `mlua::Function::into_owned`). Lookups may run metamethods of the
/// script, so nothing is stated of the outcome.
#[verifier::external_body]
pub(crate) fn function_field(table: &mlua::OwnedTable, name: &str) -> (r: Option<mlua::OwnedFunction>) {
    table.to_ref().get::<&str, mlua::Function>(name).ok().map(|f| f.into_owned())
}

/// The message of a Lua error (`<mlua::Error as Display>::fmt`). Not stated: its text.
#[verifier::external_body]
pub(crate) fn error_message(error: &mlua::Error) -> (r: String) {
    error.to_string()
}

/// The debug rendering of a Lua error (`<mlua::Error as Debug>::fmt`). Not stated: its text.
#[verifier::external_body]
pub(crate) fn error_details(error: &mlua::Error) -> (r: String) {
    format!("{:?}", error)
}

/// Another handle to the same Lua state (`<Arc<mlua::Lua> as Clone>::clone`): a clone of
/// an `Arc` points to the same value.
#[verifier::external_body]
pub(crate) fn share_runtime(lua: &std::sync::Arc<mlua::Lua>) -> (r: std::sync::Arc<mlua::Lua>)
    ensures
        r == *lua,
{
    lua.clone()
}

/// Runs a full garbage-collection cycle of the Lua state (`mlua::Lua::gc_collect`).
#[verifier::external_body]
pub(crate) fn collect_garbage(lua: &std::sync::Arc<mlua::Lua>) -> (r: Result<(), mlua::Error>) {
    lua.gc_collect()
}

} // verus!
