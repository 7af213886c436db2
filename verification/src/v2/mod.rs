pub mod ast;
pub mod constants;
pub mod segoc;
pub mod runtime;
pub mod text;
pub mod mock_runtime;
pub mod compiler;
pub mod interp;
mod lexer;
pub use lexer::{TokKind, Token};
pub mod keywords;
pub mod parser;
pub mod validator;
pub mod fmt;
pub mod lsp;
