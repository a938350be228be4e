//! Application settings: the editor, the viewer and the typesetting engine.
use vstd::prelude::*;

verus! {

/// Settings that hold for every course: which editor and viewer to open,
/// and how the typesetting engine is invoked.
pub struct AppConfig {
    pub editor: String,
    pub pdf_viewer: String,
    pub tex_engine: String,
    pub tex_flags: String,
}

/// The settings used where none were stored.
pub open spec fn is_default_config(c: AppConfig) -> bool {
    &&& c.editor@ == "vim"@
    &&& c.pdf_viewer@ == "evince"@
    &&& c.tex_engine@ == "pdflatex"@
    &&& c.tex_flags@ == "-interaction=nonstopmode"@
}

impl Default for AppConfig {
    fn default() -> (r: AppConfig)
        ensures
            is_default_config(r),
    {
        AppConfig {
            editor: String::from_str("vim"),
            pdf_viewer: String::from_str("evince"),
            tex_engine: String::from_str("pdflatex"),
            tex_flags: String::from_str("-interaction=nonstopmode"),
        }
    }
}

impl AppConfig {
    /// The settings in force: those that were loaded, or the defaults when
    /// none could be loaded.
    pub fn get(loaded: Option<AppConfig>) -> (r: AppConfig)
        ensures
            match loaded {
                Some(c) => r == c,
                None => is_default_config(r),
            },
    {
        match loaded {
            Some(c) => c,
            None => AppConfig::default(),
        }
    }
}

} // verus!
