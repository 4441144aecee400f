//! A minimal static-site generator: it assembles two fixed HTML pages (Home
//! and About) out of small markup fragments and plans where they are written.
//!
//! The markup composition and the generation plan are verified; performing
//! the filesystem steps of the plan is left to the surrounding program.

pub mod markup;
pub mod pages;
pub mod plan;
