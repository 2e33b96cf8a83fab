//! What the player remembers between runs.
use vstd::prelude::*;

verus! {

/// The settings and playback position kept across restarts.
#[derive(Debug, Clone)]
pub struct PersistentState {
    pub last_folder: String,
    pub last_file: Option<String>,
    pub last_elapsed_secs: u64,
    pub resume_mode: bool,
    pub show_hidden: bool,
}

/// The value of a `PersistentState`, with its strings as char sequences.
pub struct PersistentView {
    pub last_folder: Seq<char>,
    pub last_file: Option<Seq<char>>,
    pub last_elapsed_secs: u64,
    pub resume_mode: bool,
    pub show_hidden: bool,
}

impl View for PersistentState {
    type V = PersistentView;

    open spec fn view(&self) -> PersistentView {
        PersistentView {
            last_folder: self.last_folder@,
            last_file: match self.last_file {
                Some(f) => Some(f@),
                None => None,
            },
            last_elapsed_secs: self.last_elapsed_secs,
            resume_mode: self.resume_mode,
            show_hidden: self.show_hidden,
        }
    }
}

impl Default for PersistentState {
    /// Nothing remembered yet: the library root, no track, and resume mode on,
    /// so that the listening position is kept from the first run.
    fn default() -> (s: Self)
        ensures
            s@ == (PersistentView {
                last_folder: Seq::empty(),
                last_file: None,
                last_elapsed_secs: 0,
                resume_mode: true,
                show_hidden: false,
            }),
    {
        PersistentState {
            last_folder: String::new(),
            last_file: None,
            last_elapsed_secs: 0,
            resume_mode: true,
            show_hidden: false,
        }
    }
}

} // verus!
