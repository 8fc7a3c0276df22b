//! Reads a struct definition and the traits requested for it, and names the
//! family of struct-of-arrays types derived from it: the owning vector, the
//! shared and mutable slices, references and pointers, with the trait lists
//! that each of them takes.

pub mod input;
pub mod lemmas;
pub mod tokens;
