use vstd::prelude::*;

use crate::emitter::{emit, statement, texts};
use crate::grammar::{validate, validation, GrammarError};
use crate::keywords::model;
use crate::tokenizer::{tokenize, tokens_of};

verus! {

/// Compiles a method name into its SQL statement for `table`, binding `args` in order:
/// the name is tokenized, the tokens are validated against the number of arguments, and
/// the statement is emitted. A grammar violation is returned instead of any statement.
pub fn compile(name: &str, table: &str, args: &Vec<String>) -> (r: Result<String, GrammarError>)
    ensures
        match validation(tokens_of(name@), args@.len()) {
            Ok(_) => r is Ok && r->Ok_0@ == statement(tokens_of(name@), table@, texts(args@)),
            Err(e) => r == Err::<String, GrammarError>(e),
        },
{
    let tokens = tokenize(name);
    match validate(&tokens, args.len()) {
        Ok(()) => Ok(emit(&tokens, table, args)),
        Err(e) => Err(e),
    }
}

} // verus!
