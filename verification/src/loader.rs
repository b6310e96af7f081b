//! Locating and loading the configuration.
//!
//! The loader tries a list of candidate paths: the explicitly given path
//! when there is one, else the default `./flix.toml`. A candidate that
//! cannot be canonicalized or read is skipped silently; the first readable
//! candidate is decisive — if its text is rejected, the load aborts there
//! rather than trying further candidates. On success the directory of the
//! winning file becomes the base directory for every resource path.

use crate::config::Config;
use crate::config::ConfigError;
use crate::config::config_from_table;
use crate::config::doc_assembly_ok;
use crate::config::doc_fault_named;
use crate::config::doc_model;
use crate::paths::parent_dir;
use crate::paths::parent_text;
use crate::toml_doc::doc_of;
use crate::toml_doc::parse_toml_table;
use vstd::prelude::*;

verus! {

/// The candidate configuration paths, in the order they are tried.
pub fn candidate_paths(explicit: Option<String>) -> (r: Vec<String>)
    ensures
        r@.len() == 1,
        match explicit {
            Option::Some(p) => r@[0]@ == p@,
            Option::None => r@[0]@ == "./flix.toml"@,
        },
{
    let mut r: Vec<String> = Vec::new();
    match explicit {
        Some(p) => r.push(p),
        None => r.push(String::from_str("./flix.toml")),
    }
    r
}

/// One candidate after the filesystem has been consulted: its canonical
/// path and its text, or `None` when it could not be canonicalized or
/// read.
pub struct CandidateText {
    pub path: String,
    pub text: Option<String>,
}

/// A successfully loaded configuration and the directory that holds it.
pub struct LoadedConfig {
    pub base_dir: String,
    pub config: Config,
}

/// Why no configuration was loaded.
pub enum LoadFault {
    /// The first readable candidate was rejected; nothing further is
    /// tried.
    Rejected { path: String, error: ConfigError },
    /// No candidate could be read at all.
    NoUsableConfig,
}

/// The index of the first candidate whose text was readable.
pub open spec fn first_readable(reads: Seq<CandidateText>) -> int
    decreases reads.len(),
{
    if reads.len() == 0 {
        0
    } else if reads[0].text is Some {
        0
    } else {
        1 + first_readable(reads.drop_first())
    }
}

proof fn lemma_first_readable(reads: Seq<CandidateText>, i: int)
    requires
        0 <= i < reads.len(),
        forall|j: int| 0 <= j < i ==> (#[trigger] reads[j].text) is None,
        reads[i].text is Some,
    ensures
        first_readable(reads) == i,
    decreases i,
{
    if i > 0 {
        assert(forall|j: int|
            0 <= j < i - 1 ==> (#[trigger] reads.drop_first()[j]) == reads[j + 1]);
        lemma_first_readable(reads.drop_first(), i - 1);
    }
}

/// Decide the load from the read candidates, in order: skip the unreadable
/// ones; the first readable one is decisive. It succeeds exactly when its
/// text parses as a TOML document whose projected fields assemble, and
/// then yields that document's configuration verbatim, with the
/// candidate's directory as the base directory; otherwise it is rejected
/// outright — for its syntax exactly when the text is malformed, else for
/// the document's first faulty field. With no readable candidate there is
/// no usable configuration.
#[verifier::loop_isolation(false)]
pub fn select_config(reads: &Vec<CandidateText>) -> (r: Result<LoadedConfig, LoadFault>)
    ensures
        (r matches Err(f) && f is NoUsableConfig) <==> (forall|i: int|
            0 <= i < reads@.len() ==> (#[trigger] reads@[i].text) is None),
        !(forall|i: int| 0 <= i < reads@.len() ==> (#[trigger] reads@[i].text) is None) ==> ({
            let k = first_readable(reads@);
            let s = (reads@[k].text->0)@;
            &&& ((r is Ok) <==> (doc_of(s) matches Some(t) && doc_assembly_ok(t)))
            &&& (r matches Ok(l) ==> {
                &&& l.base_dir@ == parent_text(reads@[k].path@)
                &&& doc_of(s) matches Some(t) && l.config@ == doc_model(t)
            })
            &&& (r matches Err(LoadFault::Rejected { path, error }) ==> {
                &&& path@ == reads@[k].path@
                &&& ((error is Syntax) <==> doc_of(s) is None)
                &&& (doc_of(s) matches Some(t) ==> doc_fault_named(error, t))
            })
        }),
{
    let mut i: usize = 0;
    while i < reads.len()
        invariant
            0 <= i <= reads@.len(),
            forall|j: int| 0 <= j < i ==> (#[trigger] reads@[j].text) is None,
        decreases reads@.len() - i,
    {
        match &reads[i].text {
            None => {},
            Some(text) => {
                proof {
                    lemma_first_readable(reads@, i as int);
                }
                match parse_toml_table(text.as_str()) {
                    Err(message) => {
                        return Err(
                            LoadFault::Rejected {
                                path: reads[i].path.clone(),
                                error: ConfigError::Syntax { message },
                            },
                        );
                    },
                    Ok(table) => match config_from_table(&table) {
                        Err(error) => {
                            return Err(
                                LoadFault::Rejected { path: reads[i].path.clone(), error },
                            );
                        },
                        Ok(config) => {
                            return Ok(
                                LoadedConfig {
                                    base_dir: parent_dir(reads[i].path.as_str()),
                                    config,
                                },
                            );
                        },
                    },
                }
            },
        }
        i += 1;
    }
    Err(LoadFault::NoUsableConfig)
}

} // verus!
