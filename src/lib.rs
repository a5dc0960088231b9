pub mod compiler;
pub mod emitter;
pub mod grammar;
pub mod keywords;
pub mod tokenizer;
pub mod validations;

pub use compiler::compile;
pub use emitter::emit;
pub use grammar::{validate, CountRule, GrammarError};
pub use keywords::KeyWord;
pub use tokenizer::tokenize;
pub use validations::{check_if_target_name_correct, validate_target_name, TargetNameError};
