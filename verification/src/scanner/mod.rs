//! Bounded filesystem scanning: the time and file-count budget, the
//! candidates a walk produces, and the bounded top-K structure that is the
//! only thing retained across a whole walk. The walk itself (reading
//! directories, following no symlinks) is I/O and runs outside the
//! library, feeding these types.

pub mod budget;
pub mod candidate;
pub mod topk;
pub mod walker;
