//! The project console: its commands and the decisions they take before they
//! prompt, print or touch the disk.
use crate::text::{same_text, split_words, texts, words};
use vstd::prelude::*;

verus! {

/// The console's entry point.
pub struct Console;

/// Interactive questions.
pub struct Question;

/// Version-control commits.
pub struct Commit;

/// Removes build artifacts and temporary files.
pub struct Clean;

/// Edits configuration files such as `Rocket.toml`, `.env` or `Cargo.toml`.
pub struct Edit;

/// Generates controllers, models, views and migrations.
pub struct Generate;

/// Initializes a new project, under the given name if there is one.
pub struct Init {
    pub name: Option<String>,
}

/// Runs a script named in the project's `rey.toml`.
pub struct Run {
    pub script_name: String,
}

/// Finds projects under the home directory.
pub struct Scan;

/// Serves the project locally.
pub struct Serve;

/// Watches the sources and rebuilds and restarts on change.
pub struct Watch;

/// Lower-case form of a text, as `str::to_lowercase` computes it.
pub uninterp spec fn lowercase_of(s: Seq<char>) -> Seq<char>;

/// Relies on `str::to_lowercase`: the result depends on the text alone.
#[verifier::external_body]
fn to_lowercase(s: &str) -> (r: String)
    ensures
        r@ == lowercase_of(s@),
{
    s.to_lowercase()
}

/// An answer that means yes.
pub open spec fn is_yes(folded: Seq<char>) -> bool {
    folded == "y"@ || folded == "1"@ || folded == "yes"@
}

impl Question {
    /// Whether an already lower-cased default answer means yes.
    pub fn is_yes_word(folded: &str) -> (r: bool)
        ensures
            r == is_yes(folded@),
    {
        same_text(folded, "y") || same_text(folded, "1") || same_text(folded, "yes")
    }

    /// The preselected answer of a yes/no question: yes when the default is
    /// `y`, `1` or `yes` in any case, no otherwise or without a default.
    pub fn default_yes(default: Option<&str>) -> (r: bool)
        ensures
            r == match default {
                Some(d) => is_yes(lowercase_of(d@)),
                None => false,
            },
    {
        match default {
            Some(d) => {
                let folded = to_lowercase(d);
                Question::is_yes_word(folded.as_str())
            },
            None => false,
        }
    }
}

impl Run {
    /// The arguments handed to `sh` for a script: `-c` followed by the
    /// script's whitespace-separated words.
    pub fn shell_args(script_command: &str) -> (r: Vec<String>)
        ensures
            texts(r@) == seq!["-c"@] + words(script_command@),
    {
        let ws = split_words(script_command);
        let mut r: Vec<String> = Vec::new();
        r.push("-c".to_owned());
        let mut i: usize = 0;
        while i < ws.len()
            invariant
                i <= ws@.len(),
                texts(r@) == seq!["-c"@] + texts(ws@).take(i as int),
            decreases ws@.len() - i,
        {
            let ghost before = texts(r@);
            r.push(ws[i].clone());
            assert(texts(r@) =~= before.push(ws@[i as int]@));
            assert(texts(ws@).take(i + 1) =~= texts(ws@).take(i as int).push(ws@[i as int]@));
            i = i + 1;
        }
        assert(texts(ws@).take(i as int) =~= texts(ws@));
        r
    }
}

} // verus!
