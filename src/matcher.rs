//! Compiled regular expressions, each kept with the pattern it was built from.
use vstd::prelude::*;

verus! {

#[verifier::external_type_specification]
#[verifier::external_body]
pub struct ExRegex(regex::Regex);

/// Whether the regular expression written as `pattern` finds a match in `text`.
pub uninterp spec fn regex_match(pattern: Seq<char>, text: Seq<char>) -> bool;

/// Whether `pattern` is a valid regular expression within the default size
/// limit.
pub uninterp spec fn regex_compiles(pattern: Seq<char>) -> bool;

/// A compiled pattern. Its fields are private, so every value comes from
/// [`Matcher::new`], which compiles `re` from `source`.
#[derive(Debug)]
pub struct Matcher {
    source: String,
    re: regex::Regex,
}

impl Matcher {
    /// The pattern text this matcher was compiled from.
    pub closed spec fn pattern(&self) -> Seq<char> {
        self.source@
    }

    /// Whether this matcher finds a match in `text`.
    pub open spec fn accepts(&self, text: Seq<char>) -> bool {
        regex_match(self.pattern(), text)
    }

    /// Relies on `regex::Regex::new`: whether it succeeds depends on the
    /// pattern alone (it fails on an invalid pattern or one over the default
    /// size limit), and the compiled value matches what the pattern describes.
    #[verifier::external_body]
    fn compile(source: &str) -> (r: Option<Matcher>)
        ensures
            r is Some <==> regex_compiles(source@),
            r matches Some(m) ==> m.pattern() == source@,
    {
        match regex::Regex::new(source) {
            Ok(re) => Some(Matcher { source: source.to_string(), re }),
            Err(_) => None,
        }
    }

    /// Relies on `regex::Regex::is_match`: whether the compiled pattern
    /// matches somewhere in `text`, which depends on the pattern and the text
    /// alone.
    #[verifier::external_body]
    fn find(&self, text: &str) -> (r: bool)
        ensures
            r == regex_match(self.pattern(), text@),
    {
        self.re.is_match(text)
    }

    /// Compiles `source`; `None` where it is not a valid pattern.
    pub fn new(source: &str) -> (r: Option<Matcher>)
        ensures
            r is Some <==> regex_compiles(source@),
            r matches Some(m) ==> m.pattern() == source@,
    {
        Matcher::compile(source)
    }

    /// Whether the pattern matches somewhere in `text`.
    pub fn is_match(&self, text: &str) -> (r: bool)
        ensures
            r == self.accepts(text@),
    {
        self.find(text)
    }
}

} // verus!
