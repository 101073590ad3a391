//! The redirect callback: from the query of the request that the identity
//! provider sends the browser to, to the page that carries the authorization
//! code on into the application.
//!
//! The code is put into the page as it came, without any escaping: the page
//! is a fixed contract with the front end. A code that holds a quote or a
//! tag therefore ends up as script in the page.

use vstd::prelude::*;
use vstd::string::*;

verus! {

/// The query key under which the authorization code arrives.
pub const CODE_KEY: &'static str = "code";

/// What stands for the code in the page when the request carried none.
pub const MISSING_CODE: &'static str = "none";

/// The in-app callback address, up to the place of the code.
pub const CALLBACK_URL: &'static str = "http://localhost:4200/api/auth/callback?code=";

/// The page up to the callback address.
pub const PAGE_OPENING: &'static str =
    "<!DOCTYPE html><html lang=\"en\"><head><meta charset=\"utf-8\"></head><body><script>window.location.href = \"";

/// The page behind the callback address.
pub const PAGE_CLOSING: &'static str = "\"</script></body></html>";

/// The status of every response of the listener.
pub const STATUS_OK: u16 = 200;

/// The content type of every response of the listener.
pub const CONTENT_TYPE_HTML: &'static str = "text/html; charset=utf-8";

/// What the listener reads from the query of a request: the authorization
/// code, if the query has one.
#[derive(Debug, PartialEq, Eq)]
pub struct OAuthData {
    pub code: Option<String>,
}

impl View for OAuthData {
    type V = Option<Seq<char>>;

    open spec fn view(&self) -> Option<Seq<char>> {
        match self.code {
            Some(code) => Some(code@),
            None => None,
        }
    }
}

/// What the listener answers.
#[derive(Debug, PartialEq, Eq)]
pub struct RedirectResponse {
    pub status: u16,
    pub content_type: String,
    pub body: String,
}

/// The decoded pairs of a query, key and value, as sequences of characters.
pub open spec fn pairs_view(pairs: Seq<(String, String)>) -> Seq<(Seq<char>, Seq<char>)> {
    Seq::new(pairs.len(), |i: int| (pairs[i].0@, pairs[i].1@))
}

/// The values that stand under the key `code`, in the order of the query.
pub open spec fn code_values(pairs: Seq<(Seq<char>, Seq<char>)>) -> Seq<Seq<char>>
    decreases pairs.len(),
{
    if pairs.len() == 0 {
        Seq::empty()
    } else if pairs.last().0 == CODE_KEY@ {
        code_values(pairs.drop_last()).push(pairs.last().1)
    } else {
        code_values(pairs.drop_last())
    }
}

/// How a query is read: no code if the key `code` is absent, else the value
/// of the first pair under `code`. Later pairs under `code` and all other
/// keys are passed over. No query is turned away.
pub open spec fn extract_code(pairs: Seq<(Seq<char>, Seq<char>)>) -> Option<Seq<char>> {
    let values = code_values(pairs);
    if values.len() == 0 {
        None
    } else {
        Some(values[0])
    }
}

/// The code as it is put into the page.
pub open spec fn code_or_none(code: Option<Seq<char>>) -> Seq<char> {
    match code {
        Some(code) => code,
        None => MISSING_CODE@,
    }
}

/// The in-app callback address for `code`.
pub open spec fn callback_url(code: Seq<char>) -> Seq<char> {
    CALLBACK_URL@ + code
}

/// The page that sends the browser to the in-app callback address for `code`.
pub open spec fn redirect_page(code: Seq<char>) -> Seq<char> {
    PAGE_OPENING@ + callback_url(code) + PAGE_CLOSING@
}

impl OAuthData {
    /// Reads the decoded pairs of a query, whatever they are: the code is
    /// the value of the first pair whose key is `code`, and there is none
    /// where no pair has that key.
    pub fn from_pairs(pairs: &[(String, String)]) -> (data: OAuthData)
        ensures
            data@ == extract_code(pairs_view(pairs@)),
    {
        let ghost all = pairs_view(pairs@);
        let key = String::from_str(CODE_KEY);
        let mut first: Option<String> = None;
        let mut i: usize = 0;
        while i < pairs.len()
            invariant
                i <= pairs.len(),
                all == pairs_view(pairs@),
                key@ == CODE_KEY@,
                first is None <==> code_values(all.take(i as int)).len() == 0,
                first is Some ==> first->0@ == code_values(all.take(i as int))[0],
            decreases pairs.len() - i,
        {
            proof {
                assert(all.take(i + 1).drop_last() =~= all.take(i as int));
                assert(all.take(i + 1).last() == (pairs@[i as int].0@, pairs@[i as int].1@));
            }
            if first.is_none() && pairs[i].0 == key {
                first = Some(pairs[i].1.clone());
            }
            i += 1;
        }
        proof {
            assert(all.take(pairs.len() as int) =~= all);
        }
        OAuthData { code: first }
    }
}

/// Answers a request to the listener, whatever its query: with status 200
/// and an HTML page whose only effect is to send the browser to the in-app
/// callback address, with the code of the query, or `none` where it has no
/// code.
pub fn handle_request(query: OAuthData) -> (response: RedirectResponse)
    ensures
        response.status == 200,
        response.content_type@ == CONTENT_TYPE_HTML@,
        response.body@ == redirect_page(code_or_none(query@)),
        response.body@ == PAGE_OPENING@ + CALLBACK_URL@ + code_or_none(query@) + PAGE_CLOSING@,
{
    let mut body = String::from_str(PAGE_OPENING);
    body.append(CALLBACK_URL);
    match &query.code {
        Some(code) => body.append(code.as_str()),
        None => body.append(MISSING_CODE),
    }
    body.append(PAGE_CLOSING);
    proof {
        let code = code_or_none(query@);
        assert(body@ =~= PAGE_OPENING@ + (CALLBACK_URL@ + code) + PAGE_CLOSING@);
    }
    RedirectResponse { status: STATUS_OK, content_type: String::from_str(CONTENT_TYPE_HTML), body }
}

/// The values under `code` of two queries put together are those of the
/// first, then those of the second.
pub proof fn lemma_code_values_of_concat(
    front: Seq<(Seq<char>, Seq<char>)>,
    back: Seq<(Seq<char>, Seq<char>)>,
)
    ensures
        code_values(front + back) == code_values(front) + code_values(back),
    decreases back.len(),
{
    if back.len() == 0 {
        assert(front + back =~= front);
        assert(code_values(front) + code_values(back) =~= code_values(front));
    } else {
        lemma_code_values_of_concat(front, back.drop_last());
        assert((front + back).drop_last() =~= front + back.drop_last());
        assert((front + back).last() == back.last());
        assert(code_values(front + back) =~= code_values(front) + code_values(back));
    }
}

/// A pair under any other key than `code` changes nothing, wherever in the
/// query it stands: the query reads the same with it and without it.
pub proof fn lemma_other_keys_are_ignored(
    pairs: Seq<(Seq<char>, Seq<char>)>,
    at: int,
    key: Seq<char>,
    value: Seq<char>,
)
    requires
        0 <= at <= pairs.len(),
        key != CODE_KEY@,
    ensures
        code_values(pairs.insert(at, (key, value))) == code_values(pairs),
        extract_code(pairs.insert(at, (key, value))) == extract_code(pairs),
{
    let front = pairs.take(at);
    let back = pairs.skip(at);
    let one = seq![(key, value)];
    assert(pairs =~= front + back);
    assert(pairs.insert(at, (key, value)) =~= (front + one) + back);
    assert(one.drop_last() =~= Seq::<(Seq<char>, Seq<char>)>::empty());
    assert(code_values(one.drop_last()) =~= Seq::<Seq<char>>::empty());
    assert(code_values(one) =~= Seq::<Seq<char>>::empty());
    lemma_code_values_of_concat(front, one);
    lemma_code_values_of_concat(front + one, back);
    lemma_code_values_of_concat(front, back);
    assert(code_values(front) + code_values(one) =~= code_values(front));
}

/// Only the first pair under `code` counts: once a query has a code,
/// whatever follows, further pairs under `code` among it, changes nothing.
pub proof fn lemma_first_code_counts(
    front: Seq<(Seq<char>, Seq<char>)>,
    back: Seq<(Seq<char>, Seq<char>)>,
)
    requires
        extract_code(front) is Some,
    ensures
        extract_code(front + back) == extract_code(front),
{
    lemma_code_values_of_concat(front, back);
}

/// A query without pairs is answered like a query whose code is the word
/// `none`: both give the same page.
pub proof fn lemma_missing_code_reads_none()
    ensures
        extract_code(Seq::empty()) == None::<Seq<char>>,
        extract_code(seq![(CODE_KEY@, MISSING_CODE@)]) == Some(MISSING_CODE@),
        redirect_page(code_or_none(extract_code(Seq::empty()))) == redirect_page(
            code_or_none(extract_code(seq![(CODE_KEY@, MISSING_CODE@)])),
        ),
{
    let one = seq![(CODE_KEY@, MISSING_CODE@)];
    assert(one.drop_last() =~= Seq::<(Seq<char>, Seq<char>)>::empty());
    assert(code_values(one.drop_last()) =~= Seq::<Seq<char>>::empty());
    assert(code_values(one) =~= seq![MISSING_CODE@]);
}

/// The page holds the in-app callback address for its code, letter for
/// letter, between the opening and the closing.
pub proof fn lemma_page_holds_callback_url(code: Seq<char>)
    ensures
        ({
            let start = PAGE_OPENING@.len() as int;
            let end = start + callback_url(code).len();
            &&& end <= redirect_page(code).len()
            &&& redirect_page(code).subrange(start, end) == callback_url(code)
            &&& callback_url(code).subrange(CALLBACK_URL@.len() as int, callback_url(code).len() as int)
                == code
        }),
{
    let start = PAGE_OPENING@.len() as int;
    let end = start + callback_url(code).len();
    assert(redirect_page(code).subrange(start, end) =~= callback_url(code));
    assert(callback_url(code).subrange(CALLBACK_URL@.len() as int, callback_url(code).len() as int)
        =~= code);
}

/// The content type of every response names HTML.
pub proof fn lemma_content_type_names_html()
    ensures
        "text/html"@.is_prefix_of(CONTENT_TYPE_HTML@),
{
    reveal_strlit("text/html");
    reveal_strlit("text/html; charset=utf-8");
    assert("text/html"@ =~= CONTENT_TYPE_HTML@.subrange(0, 9));
}

} // verus!
