//! DuelScript: a declarative language for card mechanics, with a verified
//! parser, validator, compiler, pretty-printer and chain-ordering logic.

pub mod v2;
pub mod validator;
