//! Where scope identifiers come from: the running task, or a fresh draw.

use vstd::prelude::*;

verus! {

/// The number that `str::parse::<u64>` reads from a text, where it reads one.
pub uninterp spec fn parsed_u64(text: Seq<char>) -> Option<u64>;

/// Calls `ulid::Ulid::new` and returns the 128 bits of the identifier it
/// made. The bits come from the clock and a random source, so nothing is
/// claimed about them.
#[verifier::external_body]
fn new_ulid_bits() -> (bits: u128) {
    ulid::Ulid::new().0
}

/// Calls `tokio::task::try_id` and returns the identifier of the running
/// task as tokio prints it, or `None` outside of a task. The answer depends
/// on where the call is made, so nothing is claimed about it.
#[verifier::external_body]
fn current_task_text() -> (text: Option<String>) {
    match tokio::task::try_id() {
        Some(id) => Some(id.to_string()),
        None => None,
    }
}

/// Calls `str::parse::<u64>` on `text`. The result is a function of the
/// text alone and is named by `parsed_u64`; a text that does not parse
/// gives `None`.
#[verifier::external_body]
fn parse_u64(text: &str) -> (number: Option<u64>)
    ensures
        number == parsed_u64(text@),
{
    text.parse::<u64>().ok()
}

/// A freshly drawn identifier: the low 64 bits of a new ULID. Any number
/// may be drawn, so nothing is promised of the one that is.
pub(crate) fn fresh_id() -> u64 {
    low_half(new_ulid_bits())
}

/// The low 64 bits of `bits`: what is left of the 128 bits of a drawn
/// identifier when it is cut down to a scope identifier.
pub fn low_half(bits: u128) -> (low: u64)
    ensures
        low == bits % 0x1_0000_0000_0000_0000,
{
    let kept: u128 = bits & 0xFFFF_FFFF_FFFF_FFFF;
    assert(kept == bits % 0x1_0000_0000_0000_0000 && kept <= 0xFFFF_FFFF_FFFF_FFFF)
        by (bit_vector)
        requires
            kept == bits & 0xFFFF_FFFF_FFFF_FFFF,
    ;
    kept as u64
}

/// The scope identifier for a task whose printed identifier read as
/// `number`: that number, or a freshly drawn identifier where the text did
/// not read as a number.
pub fn id_or_fresh(number: Option<u64>) -> (id: u64)
    ensures
        number matches Some(read) ==> id == read,
{
    match number {
        Some(read) => read,
        None => fresh_id(),
    }
}

/// The scope identifier for the task that prints as `text`: the number the
/// text reads as, or a freshly drawn identifier where it does not read as
/// one.
pub fn task_id_from(text: &str) -> (id: u64)
    ensures
        parsed_u64(text@) matches Some(number) ==> id == number,
{
    id_or_fresh(parse_u64(text))
}

/// The scope identifier of the running task, or `None` outside of a task.
/// Which task is running, if any, is not known before the call, so nothing
/// is promised of the answer.
pub(crate) fn current_task() -> Option<u64> {
    task_from(current_task_text())
}

/// The scope identifier of the task that prints as `text`, where a task is
/// running; `None` where `text` is, which is outside of any task.
pub fn task_from(text: Option<String>) -> (task: Option<u64>)
    ensures
        task is Some <==> text is Some,
        text matches Some(printed) ==> (parsed_u64(printed@) matches Some(number) ==> task
            == Some(number)),
{
    match text {
        Some(printed) => Some(task_id_from(printed.as_str())),
        None => None,
    }
}

} // verus!
