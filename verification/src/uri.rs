//! Addresses, as the three components that the channel reads.

use vstd::prelude::*;

verus! {

/// The model of an optional piece of text.
pub open spec fn opt_text(o: Option<String>) -> Option<Seq<char>> {
    match o {
        Some(s) => Some(s@),
        None => None,
    }
}

/// A copy of an optional piece of text.
pub fn clone_text(o: &Option<String>) -> (r: Option<String>)
    ensures
        r == *o,
{
    match o {
        Some(s) => Some(s.clone()),
        None => None,
    }
}

/// An address: scheme, authority (host and port), and path with query.
/// Each may be absent.
#[derive(Debug, PartialEq, Eq)]
pub struct Uri {
    pub scheme: Option<String>,
    pub authority: Option<String>,
    pub path_and_query: Option<String>,
}

/// The model of a [`Uri`].
pub struct UriView {
    pub scheme: Option<Seq<char>>,
    pub authority: Option<Seq<char>>,
    pub path_and_query: Option<Seq<char>>,
}

impl View for Uri {
    type V = UriView;

    open spec fn view(&self) -> UriView {
        UriView {
            scheme: opt_text(self.scheme),
            authority: opt_text(self.authority),
            path_and_query: opt_text(self.path_and_query),
        }
    }
}

/// The model of an optional address.
pub open spec fn opt_uri(o: Option<Uri>) -> Option<UriView> {
    match o {
        Some(u) => Some(u@),
        None => None,
    }
}

impl Clone for Uri {
    fn clone(&self) -> (r: Self)
        ensures
            r == *self,
    {
        Uri {
            scheme: clone_text(&self.scheme),
            authority: clone_text(&self.authority),
            path_and_query: clone_text(&self.path_and_query),
        }
    }
}

/// The text was not an address.
#[derive(Clone, Copy, Debug, PartialEq, Eq, Structural)]
pub struct InvalidUri;

/// The components that `http::Uri` finds in a text: scheme, authority, and path
/// with query; `None` where it rejects the text.
pub uninterp spec fn uri_components(text: Seq<char>) -> Option<
    (Option<Seq<char>>, Option<Seq<char>>, Option<Seq<char>>),
>;

/// The model of what [`split_uri`] returns.
pub open spec fn components_view(
    parts: Option<(Option<String>, Option<String>, Option<String>)>,
) -> Option<(Option<Seq<char>>, Option<Seq<char>>, Option<Seq<char>>)> {
    match parts {
        Some(p) => Some((opt_text(p.0), opt_text(p.1), opt_text(p.2))),
        None => None,
    }
}

/// Parses `text` with `http::Uri`'s `FromStr` and reads the result with
/// `scheme_str`, `authority` and `path_and_query`. Trusted: that the outcome is a
/// function of the text alone, which is all that the name `uri_components` says.
#[verifier::external_body]
fn split_uri(text: &str) -> (r: Option<(Option<String>, Option<String>, Option<String>)>)
    ensures
        components_view(r) == uri_components(text@),
{
    match text.parse::<http::Uri>() {
        Ok(uri) => Some((
            uri.scheme_str().map(|s| s.to_string()),
            uri.authority().map(|a| a.as_str().to_string()),
            uri.path_and_query().map(|p| p.as_str().to_string()),
        )),
        Err(_) => None,
    }
}

impl Uri {
    /// The address with the given components.
    pub fn from_parts(
        scheme: Option<String>,
        authority: Option<String>,
        path_and_query: Option<String>,
    ) -> (r: Uri)
        ensures
            r@ == (UriView {
                scheme: opt_text(scheme),
                authority: opt_text(authority),
                path_and_query: opt_text(path_and_query),
            }),
    {
        Uri { scheme, authority, path_and_query }
    }

    /// The address made of split components, or the refusal where there are none.
    pub fn from_components(
        parts: Option<(Option<String>, Option<String>, Option<String>)>,
    ) -> (r: Result<Uri, InvalidUri>)
        ensures
            r is Ok <==> parts is Some,
            r matches Ok(u) ==> components_view(parts) == Some(
                (u@.scheme, u@.authority, u@.path_and_query),
            ),
    {
        match parts {
            Some((scheme, authority, path_and_query)) => Ok(
                Uri::from_parts(scheme, authority, path_and_query),
            ),
            None => Err(InvalidUri),
        }
    }

    /// Reads an address from text.
    pub fn parse(text: &str) -> (r: Result<Uri, InvalidUri>)
        ensures
            r is Ok <==> uri_components(text@) is Some,
            r matches Ok(u) ==> uri_components(text@) == Some(
                (u@.scheme, u@.authority, u@.path_and_query),
            ),
    {
        Uri::from_components(split_uri(text))
    }

    /// Whether the address names both a scheme and an authority.
    pub fn is_absolute(&self) -> (r: bool)
        ensures
            r == (self@.scheme is Some && self@.authority is Some),
    {
        self.scheme.is_some() && self.authority.is_some()
    }
}

} // verus!
