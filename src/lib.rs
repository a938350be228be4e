pub mod config;
pub mod course;
pub mod course_items;
pub mod latexdoc;
pub mod makefile;
pub mod preview;
pub mod text;
