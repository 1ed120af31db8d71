//! An embedded secondary editor that a script value owns and that the host's
//! compositor mounts as an ordinary visual component.
//!
//! Every call that the compositor makes into the component lends the embedded
//! editor out for the length of that call and restores it afterwards; a call
//! that finds the editor already lent out gets a neutral answer instead.
pub mod editor;
pub mod embedded;
pub mod geometry;
