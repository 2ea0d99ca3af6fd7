//! The `initialize` instruction and the context it is invoked with.

use vstd::prelude::*;

use crate::address::{base58_text, key_text};

verus! {

/// Key under which the program is deployed, `DafEaM7Us45XUh4NPz5AgkRWoicgwcXEnLsYt4zgLJou`
/// in base58.
pub const PROGRAM_ID: [u8; 32] = [
    186, 235, 164, 37, 86, 90, 48, 124, 27, 155, 81, 29, 193, 137, 243, 58,
    121, 108, 21, 167, 6, 113, 118, 112, 27, 226, 242, 157, 11, 31, 10, 76,
];

/// Error of an instruction handler, as the runtime reports it.
#[verifier::external_type_specification]
#[verifier::external_body]
pub struct ExError(anchor_lang::error::Error);

/// The accounts that `initialize` requires: none.
pub struct Initialize {}

/// What the runtime hands an instruction handler for one call.
pub struct Context<T> {
    /// Key of the program being invoked.
    pub program_id: [u8; 32],
    /// The accounts that the instruction declares.
    pub accounts: T,
    /// Keys of accounts passed beyond those declared; nothing validates or reads them.
    pub remaining_accounts: Vec<[u8; 32]>,
}

/// The text that opens the greeting.
pub open spec fn greeting_prefix() -> Seq<char> {
    "Greetings from: "@
}

/// The greeting logged by a program whose key is `program_id`.
pub open spec fn greeting(program_id: Seq<u8>) -> Seq<char> {
    greeting_prefix() + base58_text(program_id)
}

/// The line that an invocation of `initialize` on `ctx` logs.
pub open spec fn invocation_log(ctx: Context<Initialize>) -> Seq<char> {
    greeting(ctx.program_id@)
}

/// Handles the `initialize` instruction. It takes no arguments, requires no
/// accounts and changes no state: it always succeeds, with the one line it logs.
pub fn initialize(ctx: Context<Initialize>) -> (r: Result<String, anchor_lang::error::Error>)
    ensures
        r matches Ok(line) && line@ == invocation_log(ctx),
{
    let key = key_text(&ctx.program_id);
    let line = String::from_str("Greetings from: ").concat(key.as_str());
    Ok(line)
}

/// The logged line holds the program's key text unmodified: after the opening
/// text, the rest of the line is exactly that key text.
pub proof fn lemma_log_names_program(ctx: Context<Initialize>)
    ensures
        invocation_log(ctx).subrange(greeting_prefix().len() as int, invocation_log(ctx).len() as int)
            == base58_text(ctx.program_id@),
{
    let line = invocation_log(ctx);
    assert(line.subrange(greeting_prefix().len() as int, line.len() as int) =~= base58_text(
        ctx.program_id@,
    ));
}

/// Accounts passed beyond those declared do not change the outcome: two
/// invocations of one program log the same line, whatever accounts each carries.
pub proof fn lemma_remaining_accounts_ignored(a: Context<Initialize>, b: Context<Initialize>)
    requires
        a.program_id == b.program_id,
    ensures
        invocation_log(a) == invocation_log(b),
{
}

/// Invoking twice is idempotent: the handler keeps and changes no state, so a
/// second invocation on the same context logs the same line as the first.
pub proof fn lemma_repeated_invocation_agrees(first: Context<Initialize>, second: Context<Initialize>)
    requires
        second.program_id == first.program_id,
        second.remaining_accounts@ == first.remaining_accounts@,
    ensures
        invocation_log(second) == invocation_log(first),
{
}

} // verus!
