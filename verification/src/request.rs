//! The head of a request, as far as the channel reads and rewrites it.

use crate::uri::{clone_text, Uri, UriView};
use vstd::prelude::*;

verus! {

/// One header line.
#[derive(Debug, PartialEq, Eq)]
pub struct Header {
    pub name: String,
    pub value: String,
}

/// The model of a [`Header`].
pub struct HeaderView {
    pub name: Seq<char>,
    pub value: Seq<char>,
}

impl View for Header {
    type V = HeaderView;

    open spec fn view(&self) -> HeaderView {
        HeaderView { name: self.name@, value: self.value@ }
    }
}

impl Clone for Header {
    fn clone(&self) -> (r: Self)
        ensures
            r == *self,
    {
        Header { name: self.name.clone(), value: self.value.clone() }
    }
}

/// The target and the header lines of a request. No header name holds an upper
/// case letter, so that names which differ only in case cannot stand side by
/// side: equal names are equal texts.
#[derive(Debug, PartialEq, Eq)]
pub struct RequestHead {
    uri: Uri,
    headers: Vec<Header>,
}

/// Whether a character is one of the upper case letters `A` to `Z`.
pub open spec fn is_upper(c: char) -> bool {
    65 <= c as u32 <= 90
}

/// Whether a character is one of the lower case letters `a` to `z`.
pub open spec fn is_lower(c: char) -> bool {
    97 <= c as u32 <= 122
}

/// Whether a name holds no upper case letter.
pub open spec fn lower_case(name: Seq<char>) -> bool {
    forall|i: int| 0 <= i < name.len() ==> !is_upper(#[trigger] name[i])
}

/// Whether no name among the header lines holds an upper case letter.
pub open spec fn normal(headers: Seq<HeaderView>) -> bool {
    forall|i: int| 0 <= i < headers.len() ==> lower_case(#[trigger] headers[i].name)
}

/// Whether two characters are the same but for the case of a letter.
pub open spec fn same_letter(a: char, b: char) -> bool {
    a == b || (is_upper(a) && is_lower(b) && b as u32 == a as u32 + 32) || (is_lower(a)
        && is_upper(b) && a as u32 == b as u32 + 32)
}

/// Whether two names are the same but for the case of their letters.
pub open spec fn same_name(a: Seq<char>, b: Seq<char>) -> bool {
    a.len() == b.len() && forall|i: int| 0 <= i < a.len() ==> same_letter(#[trigger] a[i], b[i])
}

/// The header lines called `name`, in whatever case.
pub open spec fn named_any_case(name: Seq<char>) -> spec_fn(HeaderView) -> bool {
    |h: HeaderView| same_name(h.name, name)
}

/// How many lines of `headers` are called `name`, in whatever case.
pub open spec fn occurrences_any_case(headers: Seq<HeaderView>, name: Seq<char>) -> nat {
    headers.filter(named_any_case(name)).len()
}

/// The model of a [`RequestHead`].
pub struct RequestHeadView {
    pub uri: UriView,
    pub headers: Seq<HeaderView>,
}

/// The model of a list of header lines.
pub open spec fn headers_view(headers: Seq<Header>) -> Seq<HeaderView> {
    headers.map_values(|h: Header| h@)
}

impl View for RequestHead {
    type V = RequestHeadView;

    closed spec fn view(&self) -> RequestHeadView {
        RequestHeadView { uri: self.uri@, headers: headers_view(self.headers@) }
    }
}

/// The header lines called `name`.
pub open spec fn named(name: Seq<char>) -> spec_fn(HeaderView) -> bool {
    |h: HeaderView| h.name == name
}

/// The header lines not called `name`.
pub open spec fn not_named(name: Seq<char>) -> spec_fn(HeaderView) -> bool {
    |h: HeaderView| h.name != name
}

/// How many lines of `headers` are called `name`.
pub open spec fn occurrences(headers: Seq<HeaderView>, name: Seq<char>) -> nat {
    headers.filter(named(name)).len()
}

/// `headers` with every line called `name` taken out and one line
/// `name: value` put at the end.
pub open spec fn with_header(headers: Seq<HeaderView>, name: Seq<char>, value: Seq<char>) -> Seq<
    HeaderView,
> {
    headers.filter(not_named(name)).push(HeaderView { name, value })
}

/// `head` sent to another origin: scheme and authority are replaced, the path
/// with its query and the header lines stay.
pub open spec fn with_origin(
    head: RequestHeadView,
    scheme: Option<Seq<char>>,
    authority: Option<Seq<char>>,
) -> RequestHeadView {
    RequestHeadView {
        uri: UriView { scheme, authority, path_and_query: head.uri.path_and_query },
        headers: head.headers,
    }
}

/// A sequence none of whose items passes a test is emptied by the filter for
/// that test.
proof fn lemma_filter_none<A>(s: Seq<A>, pred: spec_fn(A) -> bool)
    requires
        forall|i: int| 0 <= i < s.len() ==> !pred(#[trigger] s[i]),
    ensures
        s.filter(pred) =~= Seq::<A>::empty(),
    decreases s.len(),
{
    reveal(Seq::filter);
    if s.len() > 0 {
        let rest = s.drop_last();
        assert forall|i: int| 0 <= i < rest.len() implies !pred(#[trigger] rest[i]) by {
            assert(rest[i] == s[i]);
        }
        lemma_filter_none(rest, pred);
    }
}

/// After `with_header`, exactly one line is called `name`; it is the last line
/// and holds `value`.
pub proof fn lemma_with_header_once(headers: Seq<HeaderView>, name: Seq<char>, value: Seq<char>)
    ensures
        occurrences(with_header(headers, name, value), name) == 1,
        with_header(headers, name, value).filter(named(name)) =~= seq![
            HeaderView { name, value },
        ],
        with_header(headers, name, value).last() == (HeaderView { name, value }),
{
    let kept = headers.filter(not_named(name));
    let line = HeaderView { name, value };
    let out = with_header(headers, name, value);
    assert forall|i: int| 0 <= i < kept.len() implies !named(name)(#[trigger] kept[i]) by {
        headers.lemma_filter_pred(not_named(name), i);
    }
    lemma_filter_none(kept, named(name));
    assert(out.drop_last() =~= kept);
    assert(named(name)(out.last()));
    reveal(Seq::filter);
    assert(out.filter(named(name)) =~= kept.filter(named(name)).push(line));
}

/// `with_header` leaves the lines with other names as they were, in number.
pub proof fn lemma_with_header_keeps_others(
    headers: Seq<HeaderView>,
    name: Seq<char>,
    value: Seq<char>,
    other: Seq<char>,
)
    requires
        other != name,
    ensures
        occurrences(with_header(headers, name, value), other) == occurrences(headers, other),
{
    reveal(Seq::filter);
    let line = HeaderView { name, value };
    let out = with_header(headers, name, value);
    let kept = headers.filter(not_named(name));
    assert(out.drop_last() =~= kept);
    assert(!named(other)(out.last()));
    assert(out.filter(named(other)) == kept.filter(named(other)));
    lemma_filter_commutes(headers, name, other);
}

/// Taking out the lines called `name` does not change which lines are called
/// `other`.
proof fn lemma_filter_commutes(headers: Seq<HeaderView>, name: Seq<char>, other: Seq<char>)
    requires
        other != name,
    ensures
        headers.filter(not_named(name)).filter(named(other)) == headers.filter(named(other)),
    decreases headers.len(),
{
    reveal(Seq::filter);
    if headers.len() > 0 {
        let rest = headers.drop_last();
        let last = headers.last();
        lemma_filter_commutes(rest, name, other);
        if not_named(name)(last) {
            let kept = rest.filter(not_named(name)).push(last);
            assert(kept.drop_last() =~= rest.filter(not_named(name)));
            assert(kept.last() == last);
        }
    }
}

/// Names without upper case letters are the same but for case only where they
/// are the same text.
pub proof fn lemma_lower_case_names_are_exact(a: Seq<char>, b: Seq<char>)
    requires
        lower_case(a),
        lower_case(b),
    ensures
        same_name(a, b) <==> a == b,
{
    if same_name(a, b) {
        assert forall|i: int| 0 <= i < a.len() implies a[i] == b[i] by {
            assert(same_letter(a[i], b[i]));
        }
        assert(a =~= b);
    }
}

/// Two tests that agree on every item of a sequence filter it alike.
proof fn lemma_filter_agree<A>(s: Seq<A>, p: spec_fn(A) -> bool, q: spec_fn(A) -> bool)
    requires
        forall|i: int| 0 <= i < s.len() ==> p(#[trigger] s[i]) == q(s[i]),
    ensures
        s.filter(p) == s.filter(q),
    decreases s.len(),
{
    reveal(Seq::filter);
    if s.len() > 0 {
        let rest = s.drop_last();
        assert forall|i: int| 0 <= i < rest.len() implies p(#[trigger] rest[i]) == q(rest[i]) by {
            assert(rest[i] == s[i]);
        }
        lemma_filter_agree(rest, p, q);
        assert(s.last() == s[s.len() - 1]);
    }
}

/// Among header lines whose names hold no upper case letter, the lines called
/// by a lower case name in whatever case are the lines called exactly so.
pub proof fn lemma_any_case_is_exact(headers: Seq<HeaderView>, name: Seq<char>)
    requires
        normal(headers),
        lower_case(name),
    ensures
        headers.filter(named_any_case(name)) == headers.filter(named(name)),
        occurrences_any_case(headers, name) == occurrences(headers, name),
{
    assert forall|i: int| 0 <= i < headers.len() implies named_any_case(name)(
        #[trigger] headers[i],
    ) == named(name)(headers[i]) by {
        lemma_lower_case_names_are_exact(headers[i].name, name);
    }
    lemma_filter_agree(headers, named_any_case(name), named(name));
}

/// `with_header` for a lower case name keeps header lines free of upper case
/// letters in their names, and leaves exactly one line of that name, in
/// whatever case it is looked for.
pub proof fn lemma_with_header_normal(headers: Seq<HeaderView>, name: Seq<char>, value: Seq<char>)
    requires
        normal(headers),
        lower_case(name),
    ensures
        normal(with_header(headers, name, value)),
        occurrences_any_case(with_header(headers, name, value), name) == 1,
{
    let kept = headers.filter(not_named(name));
    let out = with_header(headers, name, value);
    assert forall|i: int| 0 <= i < out.len() implies lower_case(#[trigger] out[i].name) by {
        if i < kept.len() {
            headers.lemma_filter_contains_rev(not_named(name), kept[i]);
            assert(kept.contains(kept[i]));
            let j = choose|j: int| 0 <= j < headers.len() && headers[j] == kept[i];
            assert(lower_case(headers[j].name));
        }
    }
    lemma_with_header_once(headers, name, value);
    lemma_any_case_is_exact(out, name);
}

/// Whether a name holds no upper case letter.
pub fn is_lower_case(name: &str) -> (r: bool)
    ensures
        r == lower_case(name@),
{
    let n: usize = name.unicode_len();
    let mut i: usize = 0;
    while i < n
        invariant
            i <= n,
            n == name@.len(),
            forall|k: int| 0 <= k < i ==> !is_upper(#[trigger] name@[k]),
        decreases n - i,
    {
        let c = name.get_char(i);
        let code: u32 = c as u32;
        if 65 <= code && code <= 90 {
            return false;
        }
        i += 1;
    }
    true
}

impl RequestHead {
    /// What holds of every head: no header name holds an upper case letter.
    #[verifier::type_invariant]
    pub open spec fn inv(self) -> bool {
        normal(self@.headers)
    }

    /// The head with the given target and header lines.
    /// `None` where a header name holds an upper case letter.
    pub fn new(uri: Uri, headers: Vec<Header>) -> (r: Option<RequestHead>)
        ensures
            r is Some <==> normal(headers_view(headers@)),
            r matches Some(head) ==> head@ == (RequestHeadView {
                uri: uri@,
                headers: headers_view(headers@),
            }),
    {
        let ghost all = headers_view(headers@);
        let mut i: usize = 0;
        while i < headers.len()
            invariant
                i <= headers.len(),
                all == headers_view(headers@),
                forall|k: int| 0 <= k < i ==> lower_case(#[trigger] all[k].name),
            decreases headers.len() - i,
        {
            if !is_lower_case(headers[i].name.as_str()) {
                assert(!lower_case(all[i as int].name));
                return None;
            }
            i += 1;
        }
        Some(RequestHead { uri, headers })
    }

    /// The target.
    pub fn uri(&self) -> (r: &Uri)
        ensures
            r@ == self@.uri,
    {
        &self.uri
    }

    /// The header lines, none of whose names holds an upper case letter.
    pub fn headers(&self) -> (r: &Vec<Header>)
        ensures
            headers_view(r@) == self@.headers,
            normal(self@.headers),
    {
        proof {
            use_type_invariant(self);
        }
        &self.headers
    }

    /// The target and the header lines.
    pub fn into_parts(self) -> (r: (Uri, Vec<Header>))
        ensures
            r.0@ == self@.uri,
            headers_view(r.1@) == self@.headers,
            normal(self@.headers),
    {
        proof {
            use_type_invariant(&self);
        }
        let RequestHead { uri, headers } = self;
        (uri, headers)
    }

    /// Sends the request to another origin: replaces scheme and authority, and
    /// keeps the path with its query and the header lines.
    pub fn rewrite_origin(self, scheme: &Option<String>, authority: &Option<String>) -> (r:
        RequestHead)
        ensures
            r@ == with_origin(self@, crate::uri::opt_text(*scheme), crate::uri::opt_text(*authority)),
    {
        proof {
            use_type_invariant(&self);
        }
        let RequestHead { uri, headers } = self;
        let Uri { scheme: _, authority: _, path_and_query } = uri;
        RequestHead {
            uri: Uri {
                scheme: clone_text(scheme),
                authority: clone_text(authority),
                path_and_query,
            },
            headers,
        }
    }

    /// Sets the header `name` to `value`: lines of that name are taken out, and
    /// one line with the value is put at the end. `None` where the name holds an
    /// upper case letter.
    pub fn set_header(self, name: &String, value: &String) -> (r: Option<RequestHead>)
        ensures
            r is Some <==> lower_case(name@),
            r matches Some(head) ==> head@ == (RequestHeadView {
                uri: self@.uri,
                headers: with_header(self@.headers, name@, value@),
            }),
    {
        if is_lower_case(name.as_str()) {
            Some(self.put_header(name, value))
        } else {
            None
        }
    }

    /// Sets the header `name`, which holds no upper case letter, to `value`.
    pub(crate) fn put_header(self, name: &String, value: &String) -> (r: RequestHead)
        requires
            lower_case(name@),
        ensures
            r@ == (RequestHeadView {
                uri: self@.uri,
                headers: with_header(self@.headers, name@, value@),
            }),
    {
        proof {
            use_type_invariant(&self);
        }
        let RequestHead { uri, headers } = self;
        let ghost all = headers_view(headers@);
        let mut out: Vec<Header> = Vec::new();
        let mut i: usize = 0;
        while i < headers.len()
            invariant
                i <= headers.len(),
                all == headers_view(headers@),
                headers_view(out@) == all.take(i as int).filter(not_named(name@)),
            decreases headers.len() - i,
        {
            proof {
                reveal(Seq::filter);
                assert(all.take(i as int + 1).drop_last() =~= all.take(i as int));
                assert(all.take(i as int + 1).last() == headers@[i as int]@);
            }
            if !headers[i].name.eq(name) {
                let ghost before = out@;
                out.push(headers[i].clone());
                assert(headers_view(out@) =~= headers_view(before).push(headers@[i as int]@));
            }
            i += 1;
        }
        let ghost kept = out@;
        out.push(Header { name: name.clone(), value: value.clone() });
        proof {
            assert(all.take(i as int) =~= all);
            assert(headers_view(out@) =~= headers_view(kept).push(
                HeaderView { name: name@, value: value@ },
            ));
            lemma_with_header_normal(all, name@, value@);
        }
        RequestHead { uri, headers: out }
    }

    /// How many header lines are called `name`.
    pub fn count_header(&self, name: &String) -> (r: usize)
        ensures
            r == occurrences(self@.headers, name@),
    {
        let ghost all = headers_view(self.headers@);
        let mut n: usize = 0;
        let mut i: usize = 0;
        while i < self.headers.len()
            invariant
                i <= self.headers.len(),
                all == headers_view(self.headers@),
                n == all.take(i as int).filter(named(name@)).len(),
                n <= i,
            decreases self.headers.len() - i,
        {
            proof {
                reveal(Seq::filter);
                assert(all.take(i as int + 1).drop_last() =~= all.take(i as int));
                assert(all.take(i as int + 1).last() == self.headers@[i as int]@);
            }
            if self.headers[i].name.eq(name) {
                n += 1;
            }
            i += 1;
        }
        proof {
            assert(all.take(i as int) =~= all);
        }
        n
    }
}

} // verus!
