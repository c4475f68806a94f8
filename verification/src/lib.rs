//! Verified core of a small desktop shell whose single operation writes
//! caller-supplied text to a caller-supplied path.
//!
//! The host runtime, the window bootstrap and the OS write call itself live
//! outside this crate. What the library holds is the operation's observable
//! contract: how the outcome of the OS write call becomes the result handed
//! back to the caller, and a model of the write's create-or-replace
//! semantics on the file store.

use vstd::prelude::*;

verus! {

/// The text that begins every failure message of the write operation.
pub open spec fn failure_prefix() -> Seq<char> {
    "write_text_file failed: "@
}

/// The full failure message for an underlying OS error text `err`: the fixed
/// prefix followed by the error text, unchanged.
pub open spec fn failure_message_spec(err: Seq<char>) -> Seq<char> {
    failure_prefix() + err
}

/// Builds the failure message for an underlying OS error text.
pub fn failure_message(err: &str) -> (r: String)
    ensures
        r@ == failure_message_spec(err@),
{
    let mut message = String::from_str("write_text_file failed: ");
    message.append(err);
    message
}

/// Maps the outcome of the OS write call to the result handed back to the
/// caller: no error means an empty success, and an error text `e` becomes a
/// failure carrying exactly the failure message for `e`. No outcome escapes
/// as anything else.
pub fn write_result(outcome: Option<String>) -> (r: Result<(), String>)
    ensures
        outcome is None <==> r is Ok,
        outcome matches Some(e) ==> (r matches Err(m) && m@ == failure_message_spec(e@)),
{
    match outcome {
        None => Ok(()),
        Some(err) => Err(failure_message(err.as_str())),
    }
}

/// Every failure message begins with the literal failure prefix, whatever
/// the underlying OS error text is.
pub proof fn lemma_failure_message_starts_with_prefix(err: Seq<char>)
    ensures
        failure_message_spec(err).len() >= failure_prefix().len(),
        failure_message_spec(err).subrange(0, failure_prefix().len() as int) == failure_prefix(),
{
    assert(failure_message_spec(err).subrange(0, failure_prefix().len() as int)
        =~= failure_prefix());
}

/// The file store as the write operation sees it: each existing path maps to
/// the full text of the file at it. A successful write of `contents` to
/// `path` creates or fully replaces that one entry.
pub open spec fn store_after_write(
    store: Map<Seq<char>, Seq<char>>,
    path: Seq<char>,
    contents: Seq<char>,
) -> Map<Seq<char>, Seq<char>> {
    store.insert(path, contents)
}

/// A successful write creates or fully replaces the file: afterwards the
/// file at `path` exists and holds exactly `contents`, and every other path
/// is untouched.
pub proof fn lemma_write_replaces(
    store: Map<Seq<char>, Seq<char>>,
    path: Seq<char>,
    contents: Seq<char>,
)
    ensures
        store_after_write(store, path, contents).dom().contains(path),
        store_after_write(store, path, contents)[path] == contents,
        store_after_write(store, path, contents).remove(path) == store.remove(path),
{
    assert(store_after_write(store, path, contents).remove(path) =~= store.remove(path));
}

/// Writing the same text to the same path twice leaves exactly what one
/// write leaves: the second write overwrites, it does not append or corrupt.
pub proof fn lemma_write_idempotent(
    store: Map<Seq<char>, Seq<char>>,
    path: Seq<char>,
    contents: Seq<char>,
)
    ensures
        store_after_write(store_after_write(store, path, contents), path, contents)
            == store_after_write(store, path, contents),
{
    assert(store_after_write(store_after_write(store, path, contents), path, contents)
        =~= store_after_write(store, path, contents));
}

/// Writing `first` and then `second` to one path leaves the file holding
/// exactly `second`, never a concatenation: the store is as if only the
/// second write had happened.
pub proof fn lemma_write_overwrites(
    store: Map<Seq<char>, Seq<char>>,
    path: Seq<char>,
    first: Seq<char>,
    second: Seq<char>,
)
    ensures
        store_after_write(store_after_write(store, path, first), path, second)
            == store_after_write(store, path, second),
        store_after_write(store_after_write(store, path, first), path, second)[path] == second,
{
    assert(store_after_write(store_after_write(store, path, first), path, second)
        =~= store_after_write(store, path, second));
}

} // verus!
