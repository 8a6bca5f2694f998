//! A draggable filled rectangle for a terminal: the shape and its cells, the
//! pointer tracker that turns pointer reports into deltas, and the decisions
//! of the interactive drag loop. Terminal I/O is left to the caller.

pub mod pointer;
pub mod session;
pub mod shape;
