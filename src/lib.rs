//! An on-chain program with one instruction, `initialize`, which requires no
//! accounts, changes no state, and succeeds after logging a greeting that
//! names the program's key.

mod address;
mod handler;

pub use address::base58_text;
pub use handler::{
    greeting, greeting_prefix, initialize, invocation_log, lemma_log_names_program,
    lemma_remaining_accounts_ignored, lemma_repeated_invocation_agrees, Context, Initialize,
    PROGRAM_ID,
};
