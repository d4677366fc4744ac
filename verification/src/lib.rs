//! Resolution of resolver docblocks into typed intermediate
//! representation, with the parts of a GraphQL compiler that stand around
//! it.
//!
//! `docblock_ir` resolves the fields of a docblock (`untyped_representation`)
//! to what the docblock declares (`ir`) or to diagnostics (`errors`). The
//! values of its tags are read by `parser`, which follows `grammar` over the
//! tokens of `lexer`; `laws` states what holds of every resolution.
//! `docblock_resolution_info` maps a cursor to a part of a resolved
//! docblock. `schema_coordinates`, `schema_set`, `builtin_scalars`,
//! `transforms`, `status_reporter`, `build_status` and `project_fixture`
//! serve the neighbouring stages of the compiler.

pub mod build_status;
pub mod builtin_scalars;
pub mod docblock_ir;
pub mod docblock_resolution_info;
pub mod errors;
pub mod executable;
pub mod fixture_map;
pub mod grammar;
pub mod ir;
pub mod laws;
pub mod leftover;
pub mod lexer;
pub mod location;
pub mod options;
pub mod parser;
pub mod project_fixture;
pub mod schema_coordinate_order;
pub mod schema_coordinates;
pub mod schema_set;
pub mod source;
pub mod status_reporter;
pub mod syntax;
pub mod transforms;
pub mod untyped_representation;
