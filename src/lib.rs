//! Upgrade planning for Arch Linux package managers and Emacs.
//!
//! The library decides which external tool runs, with which arguments and
//! environment, and how each exit status is judged. Running the processes is
//! left to the caller, which feeds the outcomes back through
//! [`plan::next_action`].
pub mod archlinux;
pub mod emacs;
pub mod pacnew;
pub mod args;
pub mod plan;
pub mod text;
