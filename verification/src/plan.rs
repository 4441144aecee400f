//! The generation plan: the exact sequence of filesystem steps that one run
//! of the generator performs.
//!
//! The plan is pure data. The surrounding program executes it in order and
//! stops at the first failing step, so a directory that cannot be created
//! aborts the run before that page's file is written.

use vstd::prelude::*;

use crate::pages::generate_about_page;
use crate::pages::generate_home_page;
use crate::pages::spec_about_page;
use crate::pages::spec_home_page;

verus! {

/// One step of a generation run: make sure a directory exists (creating
/// missing ancestors), or write a finished document to a file, overwriting
/// whatever was there.
pub enum Step {
    EnsureDir { dir: String },
    WriteFile { path: String, contents: String },
}

/// Builds the whole plan of one run: prepare `dist` and write the Home
/// document into it, then prepare `dist/pages` and write the About document
/// into it, in that order.
pub fn build_plan() -> (r: Vec<Step>)
    ensures
        r@.len() == 4,
        (r@[0] matches Step::EnsureDir { dir } && dir@ == "dist"@),
        (r@[1] matches Step::WriteFile { path, contents } && path@ == "dist/index.html"@
            && contents@ == spec_home_page()),
        (r@[2] matches Step::EnsureDir { dir } && dir@ == "dist/pages"@),
        (r@[3] matches Step::WriteFile { path, contents } && path@ == "dist/pages/about.html"@
            && contents@ == spec_about_page()),
{
    let mut r: Vec<Step> = Vec::new();
    r.push(Step::EnsureDir { dir: String::from_str("dist") });
    r.push(
        Step::WriteFile {
            path: String::from_str("dist/index.html"),
            contents: generate_home_page(),
        },
    );
    r.push(Step::EnsureDir { dir: String::from_str("dist/pages") });
    r.push(
        Step::WriteFile {
            path: String::from_str("dist/pages/about.html"),
            contents: generate_about_page(),
        },
    );
    r
}

} // verus!
