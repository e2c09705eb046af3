//! Typed handles onto the objects of a dynamically typed host engine.
//!
//! Each handle carries a declared class, fixed where the handle is made, and a
//! reference to an engine object whose runtime class is fixed when the object is
//! allocated. Swapping the references of two handles can make the two disagree;
//! every typed access checks, against the class hierarchy, that they still agree.
pub mod class;
pub mod engine;
pub mod handle;
pub mod laws;
