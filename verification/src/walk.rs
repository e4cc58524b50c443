//! File discovery policy: traversal rules and the two independent glob
//! mechanisms, composed over the external directory walker.

use vstd::prelude::*;

use crate::error::IndexError;
use crate::file_index::FileIndex;

verus! {

#[verifier::external_type_specification]
#[verifier::external_body]
pub struct ExWalkBuilder(ignore::WalkBuilder);

#[verifier::external_type_specification]
#[verifier::external_body]
pub struct ExOverrideBuilder(ignore::overrides::OverrideBuilder);

#[verifier::external_type_specification]
#[verifier::external_body]
pub struct ExOverride(ignore::overrides::Override);

#[verifier::external_type_specification]
#[verifier::external_body]
pub struct ExDirEntry(ignore::DirEntry);

/// Whether the glob matcher accepts a pattern: a function of the
/// pattern text alone.
pub uninterp spec fn glob_accepted(pattern: Seq<char>) -> bool;

/// How a glob matcher judges one path.
#[derive(Debug, Clone, Copy, PartialEq, Eq, Structural)]
pub enum MatchOutcome {
    /// A whitelist rule matched: the path is selected.
    Whitelist,
    /// An exclusion matched (or, for a whitelist-only matcher, nothing
    /// matched a regular file): the path is rejected.
    Ignore,
    /// No rule applies.
    NoMatch,
}

/// Relies on ignore::overrides::OverrideBuilder::new: a matcher builder
/// whose globs are interpreted relative to `root`.
#[verifier::external_body]
fn override_builder_new(root: &str) -> ignore::overrides::OverrideBuilder {
    ignore::overrides::OverrideBuilder::new(root)
}

/// Relies on OverrideBuilder::case_insensitive: globs added afterwards
/// match case-insensitively.
#[verifier::external_body]
fn override_case_insensitive(
    b: &mut ignore::overrides::OverrideBuilder,
    yes: bool,
) -> Result<(), IndexError> {
    match b.case_insensitive(yes) {
        Ok(_) => Ok(()),
        Err(e) => Err(IndexError::InvalidGlob(format!("{}", e))),
    }
}

/// Relies on OverrideBuilder::add: adds one glob, where a leading `!`
/// inverts it into an exclusion. `Err` exactly when the pattern text
/// does not parse as a glob: acceptance is a function of the pattern
/// alone (the builder's case flag changes matching, not parsing, and
/// override builders always reject unclosed character classes).
#[verifier::external_body]
fn override_add(b: &mut ignore::overrides::OverrideBuilder, glob: &str) -> (r: Result<
    (),
    IndexError,
>)
    ensures
        r is Ok <==> glob_accepted(glob@),
        r matches Err(e) ==> e is InvalidGlob,
{
    match b.add(glob) {
        Ok(_) => Ok(()),
        Err(e) => Err(IndexError::InvalidGlob(format!("{}", e))),
    }
}

/// Relies on OverrideBuilder::build: freezes the added globs into a
/// matcher.
#[verifier::external_body]
fn override_build(b: &ignore::overrides::OverrideBuilder) -> Result<
    ignore::overrides::Override,
    IndexError,
> {
    b.build().map_err(|e| IndexError::InvalidGlob(format!("{}", e)))
}

/// How a matcher built from the given root, patterns and case flag
/// judges a path: a function of those five values alone — matching
/// consults no state beyond the compiled globs and the path text.
pub uninterp spec fn glob_match_of(
    root: Seq<char>,
    patterns: Seq<Seq<char>>,
    case_insensitive: bool,
    path: Seq<char>,
    is_dir: bool,
) -> MatchOutcome;

/// Relies on OverrideBuilder (new, case_insensitive, add, build) and
/// Override::matched: builds a matcher from the patterns and judges
/// one path, the engine's three-way answer mapped variant for variant.
/// A pattern that does not parse as a glob fails the call; on success
/// the outcome is exactly the matcher's, as `glob_match_of` names it.
#[verifier::external_body]
fn build_and_match(
    root: &str,
    patterns: &Vec<String>,
    case_insensitive: bool,
    path: &str,
    is_dir: bool,
) -> (r: Result<MatchOutcome, IndexError>)
    ensures
        r matches Ok(m) ==> m == glob_match_of(
            root@,
            patterns.deep_view(),
            case_insensitive,
            path@,
            is_dir,
        ),
        r matches Ok(m) ==> forall|j: int|
            0 <= j < patterns@.len() ==> glob_accepted(#[trigger] patterns.deep_view()[j]),
        r matches Err(e) ==> e is InvalidGlob,
{
    let mut b = ignore::overrides::OverrideBuilder::new(root);
    b.case_insensitive(case_insensitive).map_err(|e| IndexError::InvalidGlob(format!("{}", e)))?;
    for p in patterns.iter() {
        b.add(p).map_err(|e| IndexError::InvalidGlob(format!("{}", e)))?;
    }
    let m = b.build().map_err(|e| IndexError::InvalidGlob(format!("{}", e)))?;
    let outcome = m.matched(path, is_dir);
    if outcome.is_whitelist() { Ok(MatchOutcome::Whitelist) }
    else if outcome.is_ignore() { Ok(MatchOutcome::Ignore) }
    else { Ok(MatchOutcome::NoMatch) }
}

/// Relies on ignore::WalkBuilder::new: a recursive traversal rooted at
/// `root`.
#[verifier::external_body]
fn walk_builder_new(root: &str) -> ignore::WalkBuilder {
    ignore::WalkBuilder::new(root)
}

/// Relies on WalkBuilder::hidden: skip hidden entries when set.
#[verifier::external_body]
fn walk_skip_hidden(b: &mut ignore::WalkBuilder, skip: bool) {
    b.hidden(skip);
}

/// Relies on WalkBuilder::threads: worker thread count (0 picks a
/// heuristic).
#[verifier::external_body]
fn walk_threads(b: &mut ignore::WalkBuilder, threads: usize) {
    b.threads(threads);
}

/// Relies on WalkBuilder::ignore: honor .ignore files when set.
#[verifier::external_body]
fn walk_use_ignore(b: &mut ignore::WalkBuilder, yes: bool) {
    b.ignore(yes);
}

/// Relies on WalkBuilder::git_global: honor the global git ignore file
/// when set.
#[verifier::external_body]
fn walk_use_git_global(b: &mut ignore::WalkBuilder, yes: bool) {
    b.git_global(yes);
}

/// Relies on WalkBuilder::git_ignore: honor .gitignore files when set.
#[verifier::external_body]
fn walk_use_git_ignore(b: &mut ignore::WalkBuilder, yes: bool) {
    b.git_ignore(yes);
}

/// Relies on WalkBuilder::git_exclude: honor repository exclude files
/// when set.
#[verifier::external_body]
fn walk_use_git_exclude(b: &mut ignore::WalkBuilder, yes: bool) {
    b.git_exclude(yes);
}

/// Relies on WalkBuilder::follow_links: follow symbolic links when set.
#[verifier::external_body]
fn walk_follow_links(b: &mut ignore::WalkBuilder, yes: bool) {
    b.follow_links(yes);
}

/// Relies on WalkBuilder::overrides: the traversal itself applies the
/// matcher and never yields entries it rejects.
#[verifier::external_body]
fn walk_set_overrides(b: &mut ignore::WalkBuilder, m: ignore::overrides::Override) {
    b.overrides(m);
}

/// Relies on DirEntry::file_type: whether the yielded entry is a
/// directory (an entry whose type cannot be told — standard input —
/// counts as not a directory).
#[verifier::external_body]
fn entry_is_dir(e: &ignore::DirEntry) -> bool {
    e.file_type().map(|ft| ft.is_dir()).unwrap_or(false)
}

/// Relies on Override::matched on the entry's path, as a regular file.
#[verifier::external_body]
fn entry_whitelist_match(m: &ignore::overrides::Override, e: &ignore::DirEntry) -> bool {
    m.matched(e.path(), false).is_whitelist()
}

/// Relies on WalkBuilder::filter_entry: attaches the whitelist as a
/// post-walk predicate; the closure only calls the library's
/// `whitelist_entry`.
#[verifier::external_body]
fn walk_set_whitelist_filter(b: &mut ignore::WalkBuilder, m: ignore::overrides::Override) {
    b.filter_entry(move |e| crate::walk::whitelist_entry(&m, e));
}

/// The whitelist rule: directories always pass, so traversal can still
/// descend into them; a regular file passes only on a whitelist match.
pub open spec fn spec_whitelist_admits(is_dir: bool, is_match: bool) -> bool {
    is_dir || is_match
}

/// Decides the whitelist rule from the two facts it depends on.
pub fn whitelist_admits(is_dir: bool, is_match: bool) -> (r: bool)
    ensures
        r == spec_whitelist_admits(is_dir, is_match),
{
    is_dir || is_match
}

/// The whitelist predicate attached to the traversal.
pub fn whitelist_entry(m: &ignore::overrides::Override, e: &ignore::DirEntry) -> bool {
    let is_dir = entry_is_dir(e);
    if is_dir {
        whitelist_admits(true, false)
    } else {
        whitelist_admits(false, entry_whitelist_match(m, e))
    }
}

/// How the two glob mechanisms compose for one entry.
///
/// The override matcher (applied by the traversal itself) rejects an
/// entry it marks `Ignore`, whatever the whitelist would say. The
/// whitelist (when configured, `wl` is `Some` of its outcome for the
/// entry as judged by `override_match_path` with `is_dir` false for
/// files) admits directories always and regular files only on a
/// whitelist match. Both apply simultaneously.
pub open spec fn spec_entry_admitted(
    over: MatchOutcome,
    wl: Option<MatchOutcome>,
    is_dir: bool,
) -> bool {
    &&& over != MatchOutcome::Ignore
    &&& match wl {
        None => true,
        Some(w) => spec_whitelist_admits(is_dir, w == MatchOutcome::Whitelist),
    }
}

/// Decides whether an entry survives both glob mechanisms.
pub fn entry_admitted(over: MatchOutcome, wl: Option<MatchOutcome>, is_dir: bool) -> (r: bool)
    ensures
        r == spec_entry_admitted(over, wl, is_dir),
{
    if over == MatchOutcome::Ignore {
        return false;
    }
    match wl {
        None => true,
        Some(w) => whitelist_admits(is_dir, w == MatchOutcome::Whitelist),
    }
}

/// Builds one glob matcher rooted at `root` from a pattern list.
///
/// Fails fast, before any index is touched, exactly when some pattern
/// does not parse; on success every pattern was accepted.
pub fn build_override(root: &str, patterns: &Vec<String>, case_insensitive: bool) -> (r: Result<
    ignore::overrides::Override,
    IndexError,
>)
    ensures
        r is Ok ==> forall|j: int|
            0 <= j < patterns@.len() ==> glob_accepted(#[trigger] patterns.deep_view()[j]),
{
    let mut b = override_builder_new(root);
    match override_case_insensitive(&mut b, case_insensitive) {
        Ok(_) => (),
        Err(e) => {
            return Err(e);
        },
    }
    let mut i: usize = 0;
    while i < patterns.len()
        invariant
            i <= patterns@.len(),
            forall|j: int| 0 <= j < i ==> glob_accepted(#[trigger] patterns.deep_view()[j]),
        decreases patterns@.len() - i,
    {
        match override_add(&mut b, patterns[i].as_str()) {
            Ok(_) => (),
            Err(e) => {
                return Err(e);
            },
        }
        i += 1;
    }
    override_build(&b)
}

impl FileIndex {
    /// Composes the discovery policy into a traversal builder.
    ///
    /// Hidden-entry inclusion is the negation of the configured
    /// `hidden` flag; the single `ignore_files` switch drives local,
    /// global and repository-exclude ignore semantics together; symlink
    /// following and thread count map directly. The override globs, if
    /// any, are applied by the traversal itself; the whitelist globs,
    /// if any, are attached as a post-walk filter that admits
    /// directories and whitelist-matching files. On success every
    /// configured glob was accepted; an invalid glob fails here, fast.
    pub fn get_file_walker(&self) -> (r: Result<ignore::WalkBuilder, IndexError>)
        ensures
            r is Ok ==> (forall|j: int|
                0 <= j < self.spec_meta().spec_config().glob@.len() ==> glob_accepted(
                    #[trigger] self.spec_meta().spec_config().glob.deep_view()[j],
                )) && (forall|j: int|
                0 <= j < self.spec_meta().spec_config().oglob@.len() ==> glob_accepted(
                    #[trigger] self.spec_meta().spec_config().oglob.deep_view()[j],
                )),
    {
        let config = self.meta().config();
        let root = self.meta().for_dir();
        let mut b = walk_builder_new(root.as_str());
        walk_skip_hidden(&mut b, !config.hidden);
        walk_threads(&mut b, config.threads);
        walk_use_ignore(&mut b, config.ignore_files);
        walk_use_git_global(&mut b, config.ignore_files);
        walk_use_git_ignore(&mut b, config.ignore_files);
        walk_use_git_exclude(&mut b, config.ignore_files);
        walk_follow_links(&mut b, config.follow);
        if config.glob.len() > 0 {
            let m = match build_override(root.as_str(), &config.glob, config.glob_case_insensitive) {
                Ok(m) => m,
                Err(e) => {
                    return Err(e);
                },
            };
            walk_set_overrides(&mut b, m);
        }
        if config.oglob.len() > 0 {
            let m = match build_override(
                root.as_str(),
                &config.oglob,
                config.glob_case_insensitive,
            ) {
                Ok(m) => m,
                Err(e) => {
                    return Err(e);
                },
            };
            walk_set_whitelist_filter(&mut b, m);
        }
        Ok(b)
    }
}

/// Builds a glob matcher for standalone use — exercising the matchers
/// directly, as the walker would apply them — and judges one path.
///
/// On success every pattern was accepted and the answer is exactly the
/// matcher's, `glob_match_of`; a pattern that does not parse fails the
/// call with `InvalidGlob`.
pub fn match_globs(
    root: &str,
    patterns: &Vec<String>,
    case_insensitive: bool,
    path: &str,
    is_dir: bool,
) -> (r: Result<MatchOutcome, IndexError>)
    ensures
        r matches Ok(m) ==> m == glob_match_of(
            root@,
            patterns.deep_view(),
            case_insensitive,
            path@,
            is_dir,
        ),
        r matches Ok(m) ==> forall|j: int|
            0 <= j < patterns@.len() ==> glob_accepted(#[trigger] patterns.deep_view()[j]),
        r matches Err(e) ==> e is InvalidGlob,
        (exists|j: int|
            0 <= j < patterns@.len() && !glob_accepted(#[trigger] patterns.deep_view()[j])) ==> r
            is Err,
{
    build_and_match(root, patterns, case_insensitive, path, is_dir)
}

} // verus!
