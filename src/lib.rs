//! Host-side handle protocol for owned byte strings, the table of output
//! formats of the assembler, and the decisions of one assembly request.
pub mod strings;
pub mod formats;
pub mod pipeline;
