# duelscript

DuelScript is a small declarative language for trading-card-game card
mechanics. This crate holds its toolchain as verified code:

- `v2::parser` — source text to the AST of `v2::ast` (through an internal
  lexer); syntax errors carry their `line:col` position.
- `v2::fmt` — the AST back to canonical source text.
- `v2::validator` — the semantic checks, as an exact list of findings per card.
- `v2::compiler` — cards to engine effect records (type, category, event
  code, range, count limit) and their callbacks.
- `v2::interp` — the callbacks: conditions, costs, targets and actions,
  evaluated against the engine interface of `v2::runtime`.
- `v2::segoc` — ordering of simultaneous trigger effects into a chain.
- `v2::mock_runtime` — an in-memory engine that records every call.
- `v2::lsp` — editor diagnostics, hover help, completion keywords.
- `validator` — the report type of the first-generation checks.

The engine interface carries a specification-only log of the operations
that change the duel (`calls_of`); every such operation states the call it
appends, which is why none of them has a default body. The interpreter's
contracts state the calls of each action that runs no nested action list;
of `if`, `then`, `also`, `and_if_you_do`, coin flips, dice rolls, choices
and delayed bodies, the list that runs and its actions' calls one level
down; and the calls of costs, targets and compiled operations. Of nested
lists deeper than that, of `for_each` bodies and of searches, they state
the calls made before the nested actions and that the log only grows.

The parser's contracts fix the tokens (`lex`), syntax error positions,
triggers, keywords, numbers and the simplest actions and conditions; they
do not give the full grammar, and the format–parse round trip is checked
by tests, not proved.

Not carried over: the first-generation `validate` and `validate_card`
read a first-generation AST module (`crate::ast`) that this crate does
not have, and the validator tests on restrict actions, fusion
`plus` pools, overlay counters and damage rules exercise AST items that
the v2 AST does not define.

`app/` holds the language-server plumbing and console printing around the
library. The tests under `tests/` run the library on sample cards.
