use vstd::prelude::*;

verus! {

/// The Lua runtime that holds the device script and its state.
#[verifier::external_type_specification]
#[verifier::external_body]
pub struct ExLua(mlua::Lua);

/// A callable Lua function.
#[verifier::external_type_specification]
#[verifier::external_body]
pub struct ExFunction(mlua::Function);

/// A dynamically typed Lua value.
#[verifier::external_type_specification]
#[verifier::external_body]
pub struct ExValue(mlua::Value);

/// An error raised by the Lua runtime.
#[verifier::external_type_specification]
#[verifier::external_body]
pub struct ExError(mlua::Error);

/// One element of a sequence that a script entry point returned, reduced to
/// the shapes the device understands.
#[derive(Clone, Copy, Debug, PartialEq, Eq, Structural)]
pub enum ScriptValue {
    Boolean(bool),
    Integer(i64),
    /// Anything else: nil, a float, a string, a table, a function, ...
    Other,
}

/// Relies on mlua::Lua::new: a fresh runtime with the safe standard libraries.
#[verifier::external_body]
pub(crate) fn new_runtime() -> (r: mlua::Lua) {
    mlua::Lua::new()
}

/// Relies on mlua::Lua::load and mlua::Chunk::exec: runs the script source
/// once in the runtime, reporting a parse or runtime error.
#[verifier::external_body]
pub(crate) fn run_source(lua: &mlua::Lua, source: &str) -> (r: Result<(), mlua::Error>) {
    lua.load(source).exec()
}

/// Relies on mlua::Lua::globals and mlua::Table::get: looks up a global
/// function by name, failing when it is missing or not a function.
#[verifier::external_body]
pub(crate) fn global_function(lua: &mlua::Lua, name: &str) -> (r: Result<mlua::Function, mlua::Error>) {
    lua.globals().get(name)
}

/// Relies on mlua::Function::call with `(address, count)` arguments; the
/// first value the function returns is kept (nil when it returns none).
#[verifier::external_body]
pub(crate) fn call_with_count(f: &mlua::Function, address: u16, count: u16) -> (r: Result<mlua::Value, mlua::Error>) {
    f.call((address, count))
}

/// Relies on mlua::Function::call with `(address, values)` arguments, the
/// values passed as a Lua sequence of booleans.
#[verifier::external_body]
pub(crate) fn call_with_bits(f: &mlua::Function, address: u16, values: Vec<bool>) -> (r: Result<mlua::Value, mlua::Error>) {
    f.call((address, values))
}

/// Relies on mlua::Function::call with `(address, values)` arguments, the
/// values passed as a Lua sequence of integers.
#[verifier::external_body]
pub(crate) fn call_with_words(f: &mlua::Function, address: u16, values: Vec<u16>) -> (r: Result<mlua::Value, mlua::Error>) {
    f.call((address, values))
}

/// Relies on the variants of mlua::Value and on mlua::Table::sequence_values:
/// a table gives its elements from index 1 up to the first nil, any other
/// value gives `None`.
#[verifier::external_body]
pub(crate) fn sequence_items(v: &mlua::Value) -> (r: Option<Result<Vec<mlua::Value>, mlua::Error>>) {
    match v {
        mlua::Value::Table(t) => Some(t.sequence_values().collect()),
        _ => None,
    }
}

/// Relies on the variants of mlua::Value: a boolean or an integer is kept,
/// every other kind of value becomes `Other`.
#[verifier::external_body]
pub(crate) fn classify(v: &mlua::Value) -> (r: ScriptValue) {
    match v {
        mlua::Value::Boolean(b) => ScriptValue::Boolean(*b),
        mlua::Value::Integer(i) => ScriptValue::Integer(*i),
        _ => ScriptValue::Other,
    }
}

/// Relies on the Display impl of mlua::Error: the runtime's diagnostic text.
#[verifier::external_body]
pub(crate) fn error_message(e: &mlua::Error) -> (r: String) {
    e.to_string()
}

/// Reduces every element of a returned sequence to a `ScriptValue`.
pub(crate) fn classify_all(values: &Vec<mlua::Value>) -> (r: Vec<ScriptValue>)
    ensures
        r@.len() == values@.len(),
{
    let mut out: Vec<ScriptValue> = Vec::new();
    let mut i: usize = 0;
    while i < values.len()
        invariant
            i <= values@.len(),
            out@.len() == i,
        decreases values@.len() - i,
    {
        out.push(classify(&values[i]));
        i = i + 1;
    }
    out
}

/// What an entry point call came back with: the runtime's diagnostic if the
/// call failed, `None` if its answer is not a table, else the table's
/// sequence reduced to `ScriptValue`s.
pub(crate) fn reply_of(answer: Result<mlua::Value, mlua::Error>) -> (r: Result<Option<Vec<ScriptValue>>, String>) {
    match answer {
        Err(e) => Err(error_message(&e)),
        Ok(v) => match sequence_items(&v) {
            None => Ok(None),
            Some(Err(e)) => Err(error_message(&e)),
            Some(Ok(items)) => Ok(Some(classify_all(&items))),
        },
    }
}

} // verus!
