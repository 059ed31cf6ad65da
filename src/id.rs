//! Reference values: a scheme, an optional domain and a path of selectors.
use vstd::prelude::*;
use vstd::string::StringExecFns;

verus! {

/// The error kinds of the addressing model.
#[derive(Clone, Copy, Debug, PartialEq, Eq, Structural)]
pub enum Error {
    /// The path holds more than one selector.
    InvalidTerm,
    /// The path holds no selector.
    NotATerm,
}

/// The namespace of a reference.
#[derive(Clone, Debug, PartialEq, Eq, PartialOrd, Ord)]
pub enum Scheme {
    Custom(String),
    Screen,
    Http,
    Hopes,
}

impl Scheme {
    /// The textual name of a scheme.
    pub open spec fn spec_render(&self) -> Seq<char> {
        match self {
            Scheme::Custom(s) => s@,
            Scheme::Screen => "screen"@,
            Scheme::Http => "http"@,
            Scheme::Hopes => "hopes"@,
        }
    }

    pub fn render(&self) -> (r: String)
        ensures
            r@ == self.spec_render(),
    {
        match self {
            Scheme::Custom(s) => s.clone(),
            Scheme::Screen => String::from_str("screen"),
            Scheme::Http => String::from_str("http"),
            Scheme::Hopes => String::from_str("hopes"),
        }
    }
}

/// Selectors joined by `/`.
pub open spec fn join_selectors(s: Seq<Seq<char>>) -> Seq<char>
    decreases s.len(),
{
    if s.len() == 0 {
        Seq::empty()
    } else if s.len() == 1 {
        s[0]
    } else {
        join_selectors(s.drop_last()) + "/"@ + s.last()
    }
}

/// An ordered sequence of selectors.
#[derive(Clone, Debug, PartialEq, Eq, PartialOrd, Ord)]
pub struct Path(pub Vec<String>);

impl View for Path {
    type V = Seq<Seq<char>>;

    open spec fn view(&self) -> Seq<Seq<char>> {
        self.0@.map_values(|s: String| s@)
    }
}

impl Path {
    pub fn new() -> (r: Path)
        ensures
            r@ == Seq::<Seq<char>>::empty(),
    {
        Path(Vec::new())
    }

    pub fn from_vec(vec: Vec<String>) -> (r: Path)
        ensures
            r.0@ == vec@,
            r@ == vec@.map_values(|s: String| s@),
    {
        Path(vec)
    }

    pub fn empty(&self) -> (r: bool)
        ensures
            r == (self@.len() == 0),
    {
        self.0.len() == 0
    }

    pub fn single(&self) -> (r: bool)
        ensures
            r == (self@.len() == 1),
    {
        self.0.len() == 1
    }

    pub fn first_selector(&self) -> (r: String)
        requires
            self@.len() > 0,
        ensures
            r@ == self@[0],
    {
        self.0[0].clone()
    }

    /// The selectors joined by `/`.
    pub fn render(&self) -> (r: String)
        ensures
            r@ == join_selectors(self@),
    {
        let n = self.0.len();
        let mut out = String::new();
        let mut i: usize = 0;
        while i < n
            invariant
                n == self.0@.len(),
                i <= n,
                out@ == join_selectors(self@.subrange(0, i as int)),
            decreases n - i,
        {
            proof {
                let pre = self@.subrange(0, i as int);
                let next = self@.subrange(0, i as int + 1);
                assert(next.drop_last() =~= pre);
                assert(next.last() == self@[i as int]);
            }
            if i > 0 {
                out.append("/");
            }
            out.append(self.0[i].as_str());
            i = i + 1;
        }
        assert(self@.subrange(0, n as int) =~= self@);
        out
    }
}

/// A reference value.
#[derive(Clone, Debug, PartialEq, Eq, PartialOrd, Ord)]
pub struct Id {
    pub scheme: Scheme,
    pub domain: Option<String>,
    pub path: Path,
}

/// The canonical text of a reference with the given parts.
pub open spec fn id_text(scheme: Seq<char>, domain: Option<Seq<char>>, path: Seq<Seq<char>>) -> Seq<char> {
    match domain {
        Some(d) => "@"@ + scheme + "://"@ + d + "/"@ + join_selectors(path),
        None => if path.len() == 0 {
            "@"@ + scheme
        } else {
            "@"@ + scheme + ":"@ + join_selectors(path)
        },
    }
}

impl Id {
    pub open spec fn spec_render(&self) -> Seq<char> {
        id_text(
            self.scheme.spec_render(),
            match self.domain {
                Some(d) => Some(d@),
                None => None,
            },
            self.path@,
        )
    }

    /// A bare identifier: a custom scheme named by the text, no domain, no path.
    pub fn from_str(s: &str) -> (r: Result<Id, Error>)
        ensures
            r matches Ok(id) && id.scheme matches Scheme::Custom(t) && t@ == s@ && id.domain is None
                && id.path@.len() == 0,
    {
        let scheme = Scheme::Custom(String::from_str(s));
        let domain = None;
        let path = Path::new();
        Ok(Id { scheme, domain, path })
    }

    pub fn from_text(t: String) -> (r: Result<Id, Error>)
        ensures
            r matches Ok(id) && id.scheme matches Scheme::Custom(c) && c@ == t@ && id.domain is None
                && id.path@.len() == 0,
    {
        Id::from_str(t.as_str())
    }

    /// The one selector of the path.
    pub fn get_term(&self) -> (r: Result<String, Error>)
        ensures
            self.path@.len() == 0 <==> r == Err::<String, Error>(Error::NotATerm),
            self.path@.len() > 1 <==> r == Err::<String, Error>(Error::InvalidTerm),
            self.path@.len() == 1 <==> (r matches Ok(t) && t@ == self.path@[0]),
    {
        if !self.path.empty() {
            if self.path.single() {
                Ok(self.path.first_selector())
            } else {
                Err(Error::InvalidTerm)
            }
        } else {
            Err(Error::NotATerm)
        }
    }

    /// An internal cross-reference through the given selectors.
    pub fn reference(selectors: Vec<String>) -> (r: Id)
        ensures
            r.scheme == Scheme::Hopes,
            r.domain is None,
            r.path.0@ == selectors@,
            r.path@ == selectors@.map_values(|s: String| s@),
    {
        Id { scheme: Scheme::Hopes, domain: None, path: Path(selectors) }
    }

    /// The reference that stands for "the result".
    pub fn ref_result() -> (r: Id)
        ensures
            r.scheme == Scheme::Hopes,
            r.domain is None,
            r.path@.len() == 0,
    {
        Id { scheme: Scheme::Hopes, domain: None, path: Path::new() }
    }

    /// The canonical text: `@scheme://domain/path`, `@scheme:path` or `@scheme`.
    pub fn render(&self) -> (r: String)
        ensures
            r@ == self.spec_render(),
    {
        let scheme = self.scheme.render();
        let path = self.path.render();
        let mut out = String::from_str("@");
        out.append(scheme.as_str());
        match &self.domain {
            Some(d) => {
                out.append("://");
                out.append(d.as_str());
                out.append("/");
                out.append(path.as_str());
            },
            None => {
                if !self.path.empty() {
                    out.append(":");
                    out.append(path.as_str());
                }
            },
        }
        out
    }
}

} // verus!
