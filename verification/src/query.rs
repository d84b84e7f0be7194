//! The query parameters that a set of search options stands for.

use crate::decimal::decimal_digits;
use crate::options::{Options, OptionsView};
use vstd::prelude::*;

verus! {

/// One query parameter as text: its name and its value.
pub type Pair = (Seq<char>, Seq<char>);

/// The parameter that carries an optional value: one pair if the value is
/// present, none if it is absent.
pub open spec fn optional_pair(name: Seq<char>, value: Option<Seq<char>>) -> Seq<Pair> {
    match value {
        Some(text) => seq![(name, text)],
        None => Seq::empty(),
    }
}

/// The decimal text of an optional number.
pub open spec fn optional_decimal(value: Option<u32>) -> Option<Seq<char>> {
    match value {
        Some(n) => Some(decimal_digits(n as nat)),
        None => None,
    }
}

/// The query parameters of `options`: one per filter that is present, in
/// the order search query, path, tags, skip, limit. Numbers are written in
/// decimal.
pub open spec fn query_pairs(options: OptionsView) -> Seq<Pair> {
    optional_pair("searchQuery"@, options.search_query)
        + optional_pair("path"@, options.path)
        + optional_pair("tags"@, options.tags)
        + optional_pair("skip"@, optional_decimal(options.skip))
        + optional_pair("limit"@, optional_decimal(options.limit))
}

/// The value, as text, that `options` holds for the filter sent under
/// `name`; none where that filter is absent or `name` is no parameter
/// name.
pub open spec fn filter_text(options: OptionsView, name: Seq<char>) -> Option<Seq<char>> {
    if name == "searchQuery"@ {
        options.search_query
    } else if name == "path"@ {
        options.path
    } else if name == "tags"@ {
        options.tags
    } else if name == "skip"@ {
        optional_decimal(options.skip)
    } else if name == "limit"@ {
        optional_decimal(options.limit)
    } else {
        None
    }
}

/// One for a value that is present, zero for one that is absent.
pub open spec fn presence<T>(value: Option<T>) -> nat {
    match value {
        Some(_) => 1,
        None => 0,
    }
}

/// The number of filters that are present in `options`.
pub open spec fn present_filters(options: OptionsView) -> nat {
    presence(options.search_query) + presence(options.path) + presence(options.tags) + presence(
        options.skip,
    ) + presence(options.limit)
}

/// The five parameter names differ from one another.
proof fn lemma_names_differ()
    ensures
        "searchQuery"@ != "path"@,
        "searchQuery"@ != "tags"@,
        "searchQuery"@ != "skip"@,
        "searchQuery"@ != "limit"@,
        "path"@ != "tags"@,
        "path"@ != "skip"@,
        "path"@ != "limit"@,
        "tags"@ != "skip"@,
        "tags"@ != "limit"@,
        "skip"@ != "limit"@,
{
    reveal_strlit("searchQuery");
    reveal_strlit("path");
    reveal_strlit("tags");
    reveal_strlit("skip");
    reveal_strlit("limit");
    assert("searchQuery"@.len() == 11);
    assert("limit"@.len() == 5);
    assert("path"@.len() == 4 && "path"@[0] == 'p');
    assert("tags"@.len() == 4 && "tags"@[0] == 't');
    assert("skip"@.len() == 4 && "skip"@[0] == 's');
}

/// For every choice of filters that are present or absent, the query
/// parameters are exactly those of the filters present: a name and value
/// are sent if and only if the name is that of a present filter and the
/// value is that filter's own, and as many parameters are sent as filters
/// are present.
pub proof fn lemma_params_are_the_present_filters(
    options: OptionsView,
    name: Seq<char>,
    value: Seq<char>,
)
    ensures
        query_pairs(options).contains((name, value)) <==> filter_text(options, name) == Some(value),
        query_pairs(options).len() == present_filters(options),
{
    lemma_names_differ();
    let a = optional_pair("searchQuery"@, options.search_query);
    let b = optional_pair("path"@, options.path);
    let c = optional_pair("tags"@, options.tags);
    let d = optional_pair("skip"@, optional_decimal(options.skip));
    let e = optional_pair("limit"@, optional_decimal(options.limit));
    let all = query_pairs(options);
    let pair = (name, value);
    assert(all == a + b + c + d + e);
    if filter_text(options, name) == Some(value) {
        if name == "searchQuery"@ {
            assert(all[0] == pair);
        } else if name == "path"@ {
            assert(all[a.len() as int] == pair);
        } else if name == "tags"@ {
            assert(all[(a.len() + b.len()) as int] == pair);
        } else if name == "skip"@ {
            assert(all[(a.len() + b.len() + c.len()) as int] == pair);
        } else {
            assert(all[(a.len() + b.len() + c.len() + d.len()) as int] == pair);
        }
        assert(all.contains(pair));
    }
    if all.contains(pair) {
        let i = choose|i: int| 0 <= i < all.len() && all[i] == pair;
        assert(all[i] == pair);
        if i < a.len() {
            assert(all[i] == a[i]);
        } else if i < a.len() + b.len() {
            assert(all[i] == b[i - a.len()]);
        } else if i < a.len() + b.len() + c.len() {
            assert(all[i] == c[i - a.len() - b.len()]);
        } else if i < a.len() + b.len() + c.len() + d.len() {
            assert(all[i] == d[i - a.len() - b.len() - c.len()]);
        } else {
            assert(all[i] == e[i - a.len() - b.len() - c.len() - d.len()]);
        }
    }
}

/// No parameter name is sent twice.
pub proof fn lemma_names_are_sent_once(options: OptionsView, i: int, j: int)
    requires
        0 <= i < j < query_pairs(options).len(),
    ensures
        query_pairs(options)[i].0 != query_pairs(options)[j].0,
{
    lemma_names_differ();
    let a = optional_pair("searchQuery"@, options.search_query);
    let b = optional_pair("path"@, options.path);
    let c = optional_pair("tags"@, options.tags);
    let d = optional_pair("skip"@, optional_decimal(options.skip));
    let e = optional_pair("limit"@, optional_decimal(options.limit));
    let all = query_pairs(options);
    assert(all == a + b + c + d + e);
    lemma_name_at(options, i);
    lemma_name_at(options, j);
}

/// The name at a position of the query parameters is the name of the
/// group that the position falls in.
proof fn lemma_name_at(options: OptionsView, i: int)
    requires
        0 <= i < query_pairs(options).len(),
    ensures
        ({
            let a = presence(options.search_query);
            let b = a + presence(options.path);
            let c = b + presence(options.tags);
            let d = c + presence(options.skip);
            query_pairs(options)[i].0 == (if i < a {
                "searchQuery"@
            } else if i < b {
                "path"@
            } else if i < c {
                "tags"@
            } else if i < d {
                "skip"@
            } else {
                "limit"@
            })
        }),
{
    let a = optional_pair("searchQuery"@, options.search_query);
    let b = optional_pair("path"@, options.path);
    let c = optional_pair("tags"@, options.tags);
    let d = optional_pair("skip"@, optional_decimal(options.skip));
    let e = optional_pair("limit"@, optional_decimal(options.limit));
    let all = query_pairs(options);
    assert(all == a + b + c + d + e);
    if i < a.len() {
        assert(all[i] == a[i]);
    } else if i < a.len() + b.len() {
        assert(all[i] == b[i - a.len()]);
    } else if i < a.len() + b.len() + c.len() {
        assert(all[i] == c[i - a.len() - b.len()]);
    } else if i < a.len() + b.len() + c.len() + d.len() {
        assert(all[i] == d[i - a.len() - b.len() - c.len()]);
    } else {
        assert(all[i] == e[i - a.len() - b.len() - c.len() - d.len()]);
    }
}

/// The text that `form_urlencoded::Serializer` writes for a list of name
/// and value pairs, from an empty target: the
/// `application/x-www-form-urlencoded` form of the pairs, in their order.
pub uninterp spec fn urlencoded(pairs: Seq<(Seq<char>, Seq<char>)>) -> Seq<char>;

/// Calls `form_urlencoded::Serializer::extend_pairs` on a serializer made
/// by `Serializer::new` over an empty `String`, and takes the string back
/// with `finish`. The contract gives the string the name [`urlencoded`] of
/// the pairs handed in; nothing else is claimed of it.
#[verifier::external_body]
fn urlencode(params: &Vec<(&'static str, String)>) -> (text: String)
    ensures
        text@ == urlencoded(params.deep_view()),
{
    form_urlencoded::Serializer::new(String::new()).extend_pairs(params).finish()
}

/// The query string of `options`: none where no filter is present, else
/// the url-encoded form of the query parameters.
pub open spec fn query_text(options: OptionsView) -> Option<Seq<char>> {
    if query_pairs(options).len() == 0 {
        None
    } else {
        Some(urlencoded(query_pairs(options)))
    }
}

/// The query string to put behind the endpoint. Options without a filter
/// have none, so that nothing, not even an empty query, is sent for them.
pub fn query_string(options: &Options) -> (query: Option<String>)
    ensures
        query.deep_view() == query_text(options@),
{
    let params: Vec<(&'static str, String)> = options.query_params();
    if params.len() == 0 {
        None
    } else {
        Some(urlencode(&params))
    }
}

} // verus!
