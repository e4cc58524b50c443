//! The command surface: which operation a run performs, and how raw
//! command-line flags map onto the layered configuration.

use vstd::prelude::*;

use crate::color_mode::color_word_allows;
use crate::color_mode::ColorMode;
use crate::error::IndexError;
use crate::language::lower_of;
use crate::language::parse_language;
use crate::language::LanguageRef;
use crate::opts::IndexConfigOpt;
use crate::opts::SearchConfigOpt;

verus! {

/// Which operation a run performs.
#[derive(Debug, Clone, Copy, PartialEq, Eq, Structural)]
pub enum CmdArg {
    /// Update the index as configured and run the query.
    Search,
    /// Print the files the discovery policy would admit, without
    /// searching.
    ListFiles,
    /// Print the index descriptor, without searching.
    ListIndex,
    /// Delete the cached index files for the directory.
    Delete,
}

/// Everything one run was asked to do: the configuration layers from
/// the command line, the operation, the query, and where to run it.
#[derive(Debug)]
pub struct GlobalConfig {
    /// Index options set on the command line.
    pub index: IndexConfigOpt,
    /// Search options set on the command line.
    pub search: SearchConfigOpt,
    /// The operation.
    pub command: CmdArg,
    /// The query text, if one was given.
    pub query: Option<String>,
    /// The canonical absolute directory the run addresses.
    pub query_path: String,
    /// The directory argument as given (possibly empty or relative).
    pub search_dir: String,
    /// A named index from the configuration file, if requested.
    pub index_name: Option<String>,
}

/// The flags and values of one command-line invocation, as plain
/// values: each `bool` is whether the flag was present, each `Option`
/// a value given. Paired switches (`hidden`/`no_hidden` and the like)
/// arrive as two flags; their conflict is rejected by the surface that
/// parses them, so at most one of each pair is set here.
#[derive(Debug, Clone)]
pub struct RawArgs {
    pub hidden: bool,
    pub no_hidden: bool,
    pub language: Option<String>,
    pub follow: bool,
    pub no_follow: bool,
    pub no_ignore: bool,
    pub glob_case_insensitive: bool,
    pub glob: Option<Vec<String>>,
    pub oglob: Option<Vec<String>>,
    pub threads: Option<usize>,
    pub in_memory: bool,
    pub no_memory: bool,
    pub json: bool,
    pub limit: Option<usize>,
    pub threshold: Option<u32>,
    pub files_with_matches: bool,
    pub color: Option<String>,
    pub rebuild_index: bool,
    pub no_update: bool,
    pub update: bool,
    pub delete: bool,
    pub files: bool,
    pub indexes: bool,
    pub query: Option<String>,
    pub dir: Option<String>,
    pub index_name: Option<String>,
}

/// A paired on/off switch as an optional setting: on wins, then off,
/// else unset.
pub open spec fn spec_tri(on: bool, off: bool) -> Option<bool> {
    if on {
        Some(true)
    } else if off {
        Some(false)
    } else {
        None
    }
}

fn tri(on: bool, off: bool) -> (r: Option<bool>)
    ensures
        r == spec_tri(on, off),
{
    if on {
        Some(true)
    } else if off {
        Some(false)
    } else {
        None
    }
}

/// The operation a set of command flags selects: `delete` wins, then
/// `files`, then `indexes`, else a search.
pub open spec fn spec_command(delete: bool, files: bool, indexes: bool) -> CmdArg {
    if delete {
        CmdArg::Delete
    } else if files {
        CmdArg::ListFiles
    } else if indexes {
        CmdArg::ListIndex
    } else {
        CmdArg::Search
    }
}

/// Maps one invocation's raw flags onto the configuration layers.
///
/// `query_path` is the canonical absolute form of the directory
/// argument (or of the working directory when none was given), which
/// only the caller can resolve. An unknown language or color word is
/// rejected before any index is touched.
pub fn collect_args(raw: RawArgs, query_path: String) -> (r: Result<GlobalConfig, IndexError>)
    ensures
        r matches Ok(g) ==> {
            &&& g.index.hidden == spec_tri(raw.hidden, raw.no_hidden)
            &&& g.index.follow == spec_tri(raw.follow, raw.no_follow)
            &&& g.index.in_memory == spec_tri(raw.in_memory, raw.no_memory)
            &&& g.index.ignore_files == (if raw.no_ignore {
                Some(false)
            } else {
                None::<bool>
            })
            &&& g.index.glob_case_insensitive == (if raw.glob_case_insensitive {
                Some(true)
            } else {
                None::<bool>
            })
            &&& (match raw.language {
                Some(w) => (g.index.language matches Some(l) && parse_language(lower_of(w@))
                    == Some(l)),
                None => g.index.language is None,
            })
            &&& (raw.glob is Some ==> (g.index.glob matches Some(gl) && gl.deep_view()
                == raw.glob->0.deep_view()))
            &&& (raw.glob is None ==> g.index.glob is None)
            &&& (raw.oglob is Some ==> (g.index.oglob matches Some(gl) && gl.deep_view()
                == raw.oglob->0.deep_view()))
            &&& (raw.oglob is None ==> g.index.oglob is None)
            &&& g.index.threads == raw.threads
            &&& g.search.json == (if raw.json {
                Some(true)
            } else {
                None::<bool>
            })
            &&& g.search.limit == raw.limit
            &&& g.search.threshold == raw.threshold
            &&& g.search.filename_only == (if raw.files_with_matches {
                Some(true)
            } else {
                None::<bool>
            })
            &&& (match raw.color {
                Some(w) => (g.search.color matches Some(c) && color_word_allows(lower_of(w@), c)),
                None => g.search.color is None,
            })
            &&& g.search.rebuild_index == (if raw.rebuild_index {
                Some(true)
            } else {
                None::<bool>
            })
            &&& g.search.update == spec_tri(raw.update && !raw.no_update, raw.no_update)
            &&& g.command == spec_command(raw.delete, raw.files, raw.indexes)
            &&& g.query_path@ == query_path@
            &&& (match raw.dir {
                Some(d) => g.search_dir@ == d@,
                None => g.search_dir@.len() == 0,
            })
            &&& (match raw.query {
                Some(q) => g.query matches Some(gq) && gq@ == q@,
                None => g.query is None,
            })
            &&& (match raw.index_name {
                Some(n) => g.index_name matches Some(gn) && gn@ == n@,
                None => g.index_name is None,
            })
        },
        r matches Err(e) ==> e is InvalidValue,
{
    let mut index = IndexConfigOpt::default();
    index.hidden = tri(raw.hidden, raw.no_hidden);
    index.follow = tri(raw.follow, raw.no_follow);
    index.in_memory = tri(raw.in_memory, raw.no_memory);
    if raw.no_ignore {
        index.ignore_files = Some(false);
    }
    if raw.glob_case_insensitive {
        index.glob_case_insensitive = Some(true);
    }
    match raw.language {
        Some(w) => {
            let l = match LanguageRef::from_str(w.as_str()) {
                Ok(l) => l,
                Err(e) => {
                    return Err(e);
                },
            };
            index.language = Some(l);
        },
        None => (),
    }
    index.glob = raw.glob;
    index.oglob = raw.oglob;
    index.threads = raw.threads;

    let mut search = SearchConfigOpt::default();
    if raw.json {
        search.json = Some(true);
    }
    search.limit = raw.limit;
    search.threshold = raw.threshold;
    if raw.files_with_matches {
        search.filename_only = Some(true);
    }
    match raw.color {
        Some(w) => {
            let c = match ColorMode::from_str(w.as_str()) {
                Ok(c) => c,
                Err(e) => {
                    return Err(e);
                },
            };
            search.color = Some(c);
        },
        None => (),
    }
    if raw.rebuild_index {
        search.rebuild_index = Some(true);
    }
    if raw.no_update {
        search.update = Some(false);
    } else if raw.update {
        search.update = Some(true);
    }

    let command = if raw.delete {
        CmdArg::Delete
    } else if raw.files {
        CmdArg::ListFiles
    } else if raw.indexes {
        CmdArg::ListIndex
    } else {
        CmdArg::Search
    };
    let search_dir = match raw.dir {
        Some(d) => d,
        None => String::new(),
    };
    Ok(
        GlobalConfig {
            index,
            search,
            command,
            query: raw.query,
            query_path,
            search_dir,
            index_name: raw.index_name,
        },
    )
}

} // verus!
