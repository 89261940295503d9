//! HTTP versions as an enum, with their wire names.

use vstd::prelude::*;
use crate::error::Error;
use crate::text::same_text;

verus! {

/// A version of the HTTP protocol.
#[derive(PartialEq, Eq, Structural, PartialOrd, Ord, Clone, Copy, Hash, Debug)]
pub enum HttpVersion {
    /// `HTTP/0.9`
    Http09,
    /// `HTTP/1.0`
    Http10,
    /// `HTTP/1.1`
    Http11,
    /// `HTTP/2.0`
    Http20,
}

impl HttpVersion {
    /// The name of the version as it stands on a request or status line.
    pub open spec fn name(self) -> Seq<char> {
        match self {
            HttpVersion::Http09 => "HTTP/0.9"@,
            HttpVersion::Http10 => "HTTP/1.0"@,
            HttpVersion::Http11 => "HTTP/1.1"@,
            HttpVersion::Http20 => "HTTP/2.0"@,
        }
    }

    /// The version that a piece of text names, if it names one.
    pub open spec fn named(text: Seq<char>) -> Option<HttpVersion> {
        if text == HttpVersion::Http09.name() {
            Some(HttpVersion::Http09)
        } else if text == HttpVersion::Http10.name() {
            Some(HttpVersion::Http10)
        } else if text == HttpVersion::Http11.name() {
            Some(HttpVersion::Http11)
        } else if text == HttpVersion::Http20.name() {
            Some(HttpVersion::Http20)
        } else {
            None
        }
    }

    /// The wire name of the version.
    pub fn as_str(&self) -> (s: &'static str)
        ensures
            s@ == self.name(),
    {
        match self {
            HttpVersion::Http09 => "HTTP/0.9",
            HttpVersion::Http10 => "HTTP/1.0",
            HttpVersion::Http11 => "HTTP/1.1",
            HttpVersion::Http20 => "HTTP/2.0",
        }
    }

    /// The wire name of the version, as an owned string.
    pub fn to_string(&self) -> (s: String)
        ensures
            s@ == self.name(),
    {
        self.as_str().to_owned()
    }

    /// Reads a version from its wire name. Any other text is an
    /// [`Error::Version`].
    pub fn parse(s: &str) -> (r: Result<HttpVersion, Error>)
        ensures
            r == (match HttpVersion::named(s@) {
                Some(v) => Ok::<HttpVersion, Error>(v),
                None => Err::<HttpVersion, Error>(Error::Version),
            }),
    {
        if same_text(s, "HTTP/0.9") {
            Ok(HttpVersion::Http09)
        } else if same_text(s, "HTTP/1.0") {
            Ok(HttpVersion::Http10)
        } else if same_text(s, "HTTP/1.1") {
            Ok(HttpVersion::Http11)
        } else if same_text(s, "HTTP/2.0") {
            Ok(HttpVersion::Http20)
        } else {
            Err(Error::Version)
        }
    }

    /// Distinct versions have distinct names.
    pub proof fn lemma_names_differ(a: HttpVersion, b: HttpVersion)
        requires
            a != b,
        ensures
            a.name() != b.name(),
    {
        reveal_strlit("HTTP/0.9");
        reveal_strlit("HTTP/1.0");
        reveal_strlit("HTTP/1.1");
        reveal_strlit("HTTP/2.0");
        assert(a.name().len() == 8);
        assert(b.name().len() == 8);
        if a.name() == b.name() {
            assert(a.name()[5] == b.name()[5]);
            assert(a.name()[7] == b.name()[7]);
        }
    }

    /// Reading the name of a version gives that version back.
    pub proof fn lemma_name_round_trip(v: HttpVersion)
        ensures
            HttpVersion::named(v.name()) == Some(v),
    {
        if v != HttpVersion::Http09 {
            HttpVersion::lemma_names_differ(v, HttpVersion::Http09);
        }
        if v != HttpVersion::Http10 {
            HttpVersion::lemma_names_differ(v, HttpVersion::Http10);
        }
        if v != HttpVersion::Http11 {
            HttpVersion::lemma_names_differ(v, HttpVersion::Http11);
        }
    }

    /// Text is read as a version only if it is that version's name.
    pub proof fn lemma_named_is_name(text: Seq<char>)
        ensures
            HttpVersion::named(text) matches Some(v) ==> v.name() == text,
    {
    }
}

impl std::convert::AsRef<str> for HttpVersion {
    fn as_ref(&self) -> (s: &str)
        ensures
            s@ == self.name(),
    {
        self.as_str()
    }
}

impl std::str::FromStr for HttpVersion {
    type Err = Error;

    fn from_str(s: &str) -> (r: Result<HttpVersion, Error>)
        ensures
            r == (match HttpVersion::named(s@) {
                Some(v) => Ok::<HttpVersion, Error>(v),
                None => Err::<HttpVersion, Error>(Error::Version),
            }),
    {
        HttpVersion::parse(s)
    }
}

} // verus!
