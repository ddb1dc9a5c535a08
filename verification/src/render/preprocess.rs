//! Shader text preprocessing: directives that splice other files into a source.

use vstd::prelude::*;
use crate::util::same_text;

verus! {

/// The directive that names a file to splice in: the keyword, one space, and
/// a path of word characters, slashes and dots.
pub const DIRECTIVE_PATTERN: &'static str = r#"#include ([\w/\.]+)"#;

/// An error of the regex engine.
#[verifier::external_type_specification]
#[verifier::external_body]
pub struct ExRegexError(regex::Error);

/// The first capture group of the leftmost match of `pattern` in `haystack`;
/// `None` where `pattern` is no regular expression, matches nowhere, or has
/// no such group in its match.
pub uninterp spec fn regex_first_group(pattern: Seq<char>, haystack: Seq<char>) -> Option<Seq<char>>;

/// `haystack` with the leftmost match of `pattern` replaced by `replacement`,
/// in which `$` refers to the capture groups of the match.
pub uninterp spec fn regex_replaced(
    pattern: Seq<char>,
    haystack: Seq<char>,
    replacement: Seq<char>,
) -> Seq<char>;

/// `regex::Regex::new` and `Regex::captures`. Trusted: where the pattern
/// compiles, the result is the text of group 1 of the leftmost match, which
/// depends on the pattern and the haystack alone. Nothing is said of
/// whether a pattern compiles: the engine refuses a pattern whose compiled
/// form is over its size limit, and that size is counted in bytes of the
/// machine it runs on.
#[verifier::external_body]
fn regex_capture_first(pattern: &str, haystack: &str) -> (found: Result<Option<String>, regex::Error>)
    ensures
        match found {
            Ok(Some(group)) => regex_first_group(pattern@, haystack@) == Some(group@),
            Ok(None) => regex_first_group(pattern@, haystack@) is None,
            Err(_) => true,
        },
{
    let regex = regex::Regex::new(pattern)?;
    Ok(regex.captures(haystack).and_then(|c| c.get(1)).map(|m| m.as_str().to_owned()))
}

/// `regex::Regex::new` and `Regex::replace`. Trusted: where the pattern
/// compiles, the result is the haystack with its leftmost match replaced,
/// which depends on the three texts alone. Nothing is said of whether a
/// pattern compiles, as above.
#[verifier::external_body]
fn regex_replace_first(pattern: &str, haystack: &str, replacement: &str) -> (replaced: Result<
    String,
    regex::Error,
>)
    ensures
        replaced matches Ok(text) ==> text@ == regex_replaced(pattern@, haystack@, replacement@),
{
    let regex = regex::Regex::new(pattern)?;
    Ok(regex.replace(haystack, replacement).into_owned())
}

/// Why preprocessing stopped.
#[derive(Debug, Clone, Copy, PartialEq, Eq, Structural)]
pub enum PreprocessError {
    /// The regex engine refused the directive pattern.
    Engine,
}

/// The file that the first directive of a source names.
#[derive(Debug)]
pub struct Directive {
    /// Path of the file, relative to the directory the renderer runs in.
    pub path: String,
    /// Whether that file was spliced in before.
    pub repeated: bool,
}

/// Whether `seen` holds `path`.
pub open spec fn spec_seen(seen: Seq<String>, path: Seq<char>) -> bool {
    exists|i: int| 0 <= i < seen.len() && (#[trigger] seen[i])@ == path
}

/// Whether `seen` holds `path`.
pub fn already_seen(seen: &Vec<String>, path: &str) -> (found: bool)
    ensures
        found == spec_seen(seen@, path@),
{
    let mut i: usize = 0;
    while i < seen.len()
        invariant
            i <= seen.len(),
            forall|k: int| 0 <= k < i ==> (#[trigger] seen@[k])@ != path@,
        decreases seen.len() - i,
    {
        if same_text(seen[i].as_str(), path) {
            return true;
        }
        i = i + 1;
    }
    false
}

/// Whether no path occurs twice in `seen`.
pub open spec fn spec_each_once(seen: Seq<String>) -> bool {
    forall|i: int, j: int|
        0 <= i < j < seen.len() ==> (#[trigger] seen[i])@ != (#[trigger] seen[j])@
}

/// A shader source whose directives are replaced one by one by the files
/// they name. A file is spliced in once; a later directive that names it
/// again is dropped.
///
/// The files spliced in are a set of paths. Paths are texts, and vstd
/// models hashing for integer keys only, so the set is kept as a list in
/// the order of splicing, with the invariant that makes it a set: no path
/// occurs in it twice. Two paths are one file where they are the same text.
#[derive(Debug)]
pub struct Preprocessor {
    pattern: String,
    source: String,
    seen: Vec<String>,
}

impl Preprocessor {
    #[verifier::type_invariant]
    spec fn each_path_once(&self) -> bool {
        spec_each_once(self.seen@)
    }

    /// The paths spliced in so far, none of which occurs twice.
    pub fn seen(&self) -> (seen: &Vec<String>)
        ensures
            seen@ == self.spec_seen_paths(),
            spec_each_once(seen@),
    {
        proof {
            use_type_invariant(self);
        }
        &self.seen
    }

    /// The pattern of the directives.
    pub closed spec fn spec_pattern(&self) -> Seq<char> {
        self.pattern@
    }

    /// The source as far as it is resolved.
    pub closed spec fn spec_source(&self) -> Seq<char> {
        self.source@
    }

    /// The paths spliced in so far, in their order.
    pub closed spec fn spec_seen_paths(&self) -> Seq<String> {
        self.seen@
    }

    /// Starts on `source`, with no file spliced in and with the directives
    /// of [`DIRECTIVE_PATTERN`].
    pub fn new(source: String) -> (pre: Self)
        ensures
            pre.spec_pattern() == DIRECTIVE_PATTERN@,
            pre.spec_source() == source@,
            pre.spec_seen_paths().len() == 0,
    {
        Preprocessor { pattern: DIRECTIVE_PATTERN.to_owned(), source, seen: Vec::new() }
    }

    /// Starts on `source`, with no file spliced in and with directives of
    /// `pattern`, whose first group is the path.
    pub fn with_pattern(source: String, pattern: String) -> (pre: Self)
        ensures
            pre.spec_pattern() == pattern@,
            pre.spec_source() == source@,
            pre.spec_seen_paths().len() == 0,
    {
        Preprocessor { pattern, source, seen: Vec::new() }
    }

    /// What [`Preprocessor::pending`] answers once the engine has found
    /// `found` as the path of the first directive.
    pub fn classify(&self, found: Option<String>) -> (directive: Option<Directive>)
        ensures
            match (found, directive) {
                (None, None) => true,
                (Some(path), Some(d)) => d.path == path && d.repeated == spec_seen(
                    self.spec_seen_paths(),
                    path@,
                ),
                _ => false,
            },
    {
        match found {
            None => None,
            Some(path) => {
                let repeated = already_seen(&self.seen, path.as_str());
                Some(Directive { path, repeated })
            },
        }
    }

    /// The first directive that is left in the source, if any.
    pub fn pending(&self) -> (directive: Result<Option<Directive>, PreprocessError>)
        ensures
            match directive {
                Ok(None) => regex_first_group(self.spec_pattern(), self.spec_source()) is None,
                Ok(Some(d)) => {
                    &&& regex_first_group(self.spec_pattern(), self.spec_source()) == Some(d.path@)
                    &&& d.repeated == spec_seen(self.spec_seen_paths(), d.path@)
                },
                Err(_) => true,
            },
    {
        match regex_capture_first(self.pattern.as_str(), self.source.as_str()) {
            Ok(found) => Ok(self.classify(found)),
            Err(_) => Err(PreprocessError::Engine),
        }
    }

    /// Replaces the first directive: by `contents` where its file was not
    /// spliced in before, by nothing where it was. Returns whether there was
    /// a directive to replace.
    pub fn resolve(&mut self, contents: &str) -> (replaced: Result<bool, PreprocessError>)
        ensures
            final(self).spec_pattern() == old(self).spec_pattern(),
            spec_each_once(final(self).spec_seen_paths()),
            match replaced {
                Ok(false) => {
                    &&& regex_first_group(old(self).spec_pattern(), old(self).spec_source()) is None
                    &&& final(self).spec_source() == old(self).spec_source()
                    &&& final(self).spec_seen_paths() == old(self).spec_seen_paths()
                },
                Ok(true) => {
                    &&& regex_first_group(old(self).spec_pattern(), old(self).spec_source()) matches Some(
                        path,
                    )
                    &&& if spec_seen(old(self).spec_seen_paths(), path) {
                        &&& final(self).spec_source() == regex_replaced(
                            old(self).spec_pattern(),
                            old(self).spec_source(),
                            Seq::<char>::empty(),
                        )
                        &&& final(self).spec_seen_paths() == old(self).spec_seen_paths()
                    } else {
                        &&& final(self).spec_source() == regex_replaced(
                            old(self).spec_pattern(),
                            old(self).spec_source(),
                            contents@,
                        )
                        &&& final(self).spec_seen_paths().len() == old(self).spec_seen_paths().len()
                            + 1
                        &&& final(self).spec_seen_paths().drop_last() == old(
                            self,
                        ).spec_seen_paths()
                        &&& final(self).spec_seen_paths().last()@ == path
                    }
                },
                Err(_) => {
                    &&& final(self).spec_source() == old(self).spec_source()
                    &&& final(self).spec_seen_paths() == old(self).spec_seen_paths()
                },
            },
    {
        proof {
            use_type_invariant(&*self);
        }
        let found = match regex_capture_first(self.pattern.as_str(), self.source.as_str()) {
            Ok(found) => found,
            Err(_) => {
                return Err(PreprocessError::Engine);
            },
        };
        let directive = match self.classify(found) {
            Some(directive) => directive,
            None => {
                return Ok(false);
            },
        };
        let empty = String::new();
        let replacement: &str = if directive.repeated {
            empty.as_str()
        } else {
            contents
        };
        match regex_replace_first(self.pattern.as_str(), self.source.as_str(), replacement) {
            Ok(text) => {
                self.splice(directive, text);
                Ok(true)
            },
            Err(_) => Err(PreprocessError::Engine),
        }
    }

    /// Takes `text` as the source in which `directive` is replaced, and
    /// remembers the file of the directive unless it was spliced in before.
    pub fn splice(&mut self, directive: Directive, text: String)
        ensures
            final(self).spec_pattern() == old(self).spec_pattern(),
            final(self).spec_source() == text@,
            spec_each_once(final(self).spec_seen_paths()),
            directive.repeated || spec_seen(old(self).spec_seen_paths(), directive.path@)
                ==> final(self).spec_seen_paths() == old(self).spec_seen_paths(),
            !directive.repeated && !spec_seen(old(self).spec_seen_paths(), directive.path@) ==> {
                &&& final(self).spec_seen_paths().len() == old(self).spec_seen_paths().len() + 1
                &&& final(self).spec_seen_paths().drop_last() == old(self).spec_seen_paths()
                &&& final(self).spec_seen_paths().last() == directive.path
            },
    {
        proof {
            use_type_invariant(&*self);
        }
        self.source = text;
        if !directive.repeated && !already_seen(&self.seen, directive.path.as_str()) {
            let mut seen: Vec<String> = Vec::new();
            std::mem::swap(&mut seen, &mut self.seen);
            let ghost before = seen@;
            seen.push(directive.path);
            assert(seen@.drop_last() =~= before);
            self.seen = seen;
        }
    }

    /// The source as far as it is resolved.
    pub fn source(&self) -> (source: &String)
        ensures
            source@ == self.spec_source(),
    {
        &self.source
    }

    /// Ends preprocessing and hands out the source.
    pub fn finish(self) -> (source: String)
        ensures
            source@ == self.spec_source(),
    {
        self.source
    }
}

} // verus!
