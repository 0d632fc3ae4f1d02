//! Search hits: where they come from, and what is read of them.
use vstd::prelude::*;

use crate::laws::attribution::lemma_joined_empty;
use crate::laws::attribution::lemma_non_empty;
use crate::laws::texts::all_but_empty_texts_are_kept;
use crate::laws::texts::lists_are_joined_end_to_end;
use crate::models::HitView;
use crate::models::SerpRequestView;
use crate::models::Timestamp;
use crate::ner::hit_sequence;
use crate::ner::sequences_of;
use crate::search::query_for;
use crate::search::reply_result;
use crate::search::search_attempt;
use crate::search::search_result;
use crate::search::serp_request;
use crate::search::AnswerBoxView;
use crate::search::ResponseView;
use crate::search::SearchErrorView;
use crate::search::SearchReply;
use crate::text::cut_out;
use crate::text::decimal;
use crate::text::joined;
use crate::text::non_empty;
use crate::verify::hit_block;
use crate::verify::text_of_hits;

verus! {

/// Two texts with a separator between them; one of them where the other is
/// empty.
pub open spec fn linked(a: Seq<char>, separator: Seq<char>, b: Seq<char>) -> Seq<char> {
    if a.len() == 0 {
        b
    } else if b.len() == 0 {
        a
    } else {
        a + separator + b
    }
}

/// The title and the snippet of a hit, on a line each where it has both.
pub open spec fn title_and_snippet(hit: HitView) -> Seq<char> {
    linked(hit.title, seq!['\n'], hit.snippet)
}

/// Whether a hit has a title or a snippet.
pub open spec fn has_title_or_snippet(hit: HitView) -> bool {
    hit.title.len() > 0 || hit.snippet.len() > 0
}

proof fn lemma_kept_of_both(a: Seq<Seq<char>>, b: Seq<Seq<char>>)
    ensures
        non_empty(a + b) == non_empty(a) + non_empty(b),
{
    all_but_empty_texts_are_kept(a);
    all_but_empty_texts_are_kept(b);
    all_but_empty_texts_are_kept(a + b);
    Seq::filter_distributes_over_add(a, b, |part: Seq<char>| part.len() > 0);
}

proof fn lemma_kept_of_one(part: Seq<char>)
    ensures
        non_empty(seq![part]) == if part.len() == 0 {
            Seq::<Seq<char>>::empty()
        } else {
            seq![part]
        },
{
    let one = seq![part];
    assert(one.drop_last() =~= Seq::empty());
    assert(non_empty(one.drop_last()) =~= Seq::empty());
    assert(one.last() == part);
    if part.len() > 0 {
        assert(non_empty(one) =~= one);
    }
}

/// What is kept of two lists is joined as the two are, each on its own.
proof fn lemma_linked(a: Seq<Seq<char>>, b: Seq<Seq<char>>, separator: Seq<char>)
    ensures
        joined(non_empty(a + b), separator) == linked(
            joined(non_empty(a), separator),
            separator,
            joined(non_empty(b), separator),
        ),
{
    lemma_kept_of_both(a, b);
    lemma_non_empty(a);
    lemma_non_empty(b);
    let x = non_empty(a);
    let y = non_empty(b);
    lists_are_joined_end_to_end(x, y, separator);
    lemma_joined_empty(x, separator);
    lemma_joined_empty(y, separator);
    if x.len() == 0 {
        assert(x + y =~= y);
    } else if y.len() == 0 {
        assert(x + y =~= x);
    }
}

proof fn lemma_one_is_joined(part: Seq<char>, separator: Seq<char>)
    ensures
        joined(non_empty(seq![part]), separator) == part,
{
    lemma_kept_of_one(part);
    if part.len() == 0 {
        assert(part =~= Seq::empty());
    }
}

/// A hit is read by the extractor as its title and its snippet, and by the check
/// as its title, its link and its snippet, each on a line of its own; what a hit
/// has not takes no line.
pub proof fn hits_are_read_line_by_line(hit: HitView)
    ensures
        hit_sequence(hit) == linked(hit.title, seq!['\n'], hit.snippet),
        hit_block(hit) == linked(
            linked(hit.title, seq!['\n'], hit.link),
            seq!['\n'],
            hit.snippet,
        ),
{
    reveal_strlit("\n");
    let feed = "\n"@;
    assert(feed =~= seq!['\n']);
    let title = seq![hit.title];
    let link = seq![hit.link];
    let snippet = seq![hit.snippet];
    assert(seq![hit.title, hit.snippet] =~= title + snippet);
    assert(seq![hit.title, hit.link, hit.snippet] =~= (title + link) + snippet);
    lemma_linked(title, snippet, feed);
    lemma_linked(title, link, feed);
    lemma_linked(title + link, snippet, feed);
    lemma_one_is_joined(hit.title, feed);
    lemma_one_is_joined(hit.link, feed);
    lemma_one_is_joined(hit.snippet, feed);
}

/// The extractor is given one text for each hit that has a title or a snippet,
/// in hit order and no others: there are as many, and the text of each is its
/// title and its snippet.
pub proof fn each_hit_with_text_is_one_input(hits: Seq<HitView>)
    ensures
        ({
            let readable = hits.filter(|hit: HitView| has_title_or_snippet(hit));
            &&& sequences_of(hits).len() == readable.len()
            &&& forall|k: int|
                0 <= k < readable.len() ==> #[trigger] sequences_of(hits)[k] == title_and_snippet(
                    readable[k],
                )
        }),
    decreases hits.len(),
{
    reveal(Seq::filter);
    let keep = |hit: HitView| has_title_or_snippet(hit);
    let read = |hit: HitView| hit_sequence(hit);
    if hits.len() > 0 {
        let less = hits.drop_last();
        each_hit_with_text_is_one_input(less);
        assert(hits.map_values(read).drop_last() =~= less.map_values(read));
        assert(hits.map_values(read).last() == hit_sequence(hits.last()));
        hits_are_read_line_by_line(hits.last());
        let before = less.filter(keep);
        let after = hits.filter(keep);
        assert(after == if keep(hits.last()) {
            before.push(hits.last())
        } else {
            before
        });
    }
}

/// The inputs of two lists of hits are those of the first and then those of the
/// second; a hit without a title and a snippet gives none.
pub proof fn inputs_follow_the_hits(a: Seq<HitView>, b: Seq<HitView>, hit: HitView)
    ensures
        sequences_of(a + b) == sequences_of(a) + sequences_of(b),
        sequences_of(seq![hit]) == if has_title_or_snippet(hit) {
            seq![title_and_snippet(hit)]
        } else {
            Seq::<Seq<char>>::empty()
        },
{
    let read = |hit: HitView| hit_sequence(hit);
    assert((a + b).map_values(read) =~= a.map_values(read) + b.map_values(read));
    lemma_kept_of_both(a.map_values(read), b.map_values(read));
    assert(seq![hit].map_values(read) =~= seq![hit_sequence(hit)]);
    hits_are_read_line_by_line(hit);
    lemma_kept_of_one(hit_sequence(hit));
}

/// The check reads every hit, in order, with an empty line between: the text of
/// two lists of hits is that of the first and then that of the second.
pub proof fn every_hit_is_checked(a: Seq<HitView>, b: Seq<HitView>, hit: HitView)
    ensures
        text_of_hits(a + b) == linked(text_of_hits(a), seq!['\n', '\n'], text_of_hits(b)),
        text_of_hits(seq![hit]) == linked(
            linked(hit.title, seq!['\n'], hit.link),
            seq!['\n'],
            hit.snippet,
        ),
        text_of_hits(Seq::empty()).len() == 0,
{
    reveal_strlit("\n\n");
    let gap = "\n\n"@;
    assert(gap =~= seq!['\n', '\n']);
    let read = |hit: HitView| hit_block(hit);
    assert((a + b).map_values(read) =~= a.map_values(read) + b.map_values(read));
    lemma_linked(a.map_values(read), b.map_values(read), gap);
    assert(seq![hit].map_values(read) =~= seq![hit_block(hit)]);
    hits_are_read_line_by_line(hit);
    lemma_one_is_joined(hit_block(hit), gap);
    assert(Seq::<HitView>::empty().map_values(read) =~= Seq::empty());
    assert(non_empty(Seq::<Seq<char>>::empty()) =~= Seq::empty());
}

/// Whether a text is the one that a response has, and empty where it has none.
pub open spec fn carries_over(given: Option<Seq<char>>, text: Seq<char>) -> bool {
    match given {
        Some(said) => text == said,
        None => text.len() == 0,
    }
}

/// Whether an answer box says anything.
pub open spec fn box_speaks(answer_box: Option<AnswerBoxView>) -> bool {
    answer_box matches Some(said) && (said.answer is Some || said.snippet is Some || said.result
        is Some)
}

/// In a successful response without an error each ordinary result becomes one
/// hit, in order, after the one of an answer box that says anything. Each of the
/// title, the link and the snippet that a result has is that of its hit, whatever
/// the others are, and there are no other hits.
pub proof fn each_result_is_one_hit(
    status: u16,
    body: Seq<char>,
    response: ResponseView,
    at: int,
)
    requires
        200 <= status < 300,
        response.error is None,
    ensures
        ({
            let result = search_result(status, body, Ok(response));
            let hits = result->Ok_0;
            let first: int = if box_speaks(response.answer_box) {
                1
            } else {
                0
            };
            &&& result is Ok
            &&& hits.len() == first + response.organic_results.len()
            &&& 0 <= at < response.organic_results.len() ==> {
                &&& carries_over(response.organic_results[at].title, hits[first + at].title)
                &&& carries_over(response.organic_results[at].link, hits[first + at].link)
                &&& carries_over(response.organic_results[at].snippet, hits[first + at].snippet)
            }
        }),
{
}

/// An answer box that says anything is the first hit: with its title, its link,
/// and of its texts the answer before the snippet before the result.
pub proof fn the_answer_box_comes_first(
    status: u16,
    body: Seq<char>,
    response: ResponseView,
)
    requires
        200 <= status < 300,
        response.error is None,
        box_speaks(response.answer_box),
    ensures
        ({
            let hit = search_result(status, body, Ok(response))->Ok_0[0];
            let said = response.answer_box->0;
            &&& carries_over(said.title, hit.title)
            &&& carries_over(said.link, hit.link)
            &&& said.answer is Some ==> hit.snippet == said.answer->0
            &&& said.answer is None && said.snippet is Some ==> hit.snippet == said.snippet->0
            &&& said.answer is None && said.snippet is None ==> hit.snippet == said.result->0
        }),
{
}

/// A response gives hits just when it is understood, holds no error, and its
/// status means success. An error that it holds is passed on whatever the
/// status; a refusal without one is passed on as such; what cannot be understood
/// is called so where the status means success, and else is shown up to its first
/// two hundred characters.
pub proof fn failed_responses_say_why(
    status: u16,
    body: Seq<char>,
    payload: Result<ResponseView, Seq<char>>,
)
    ensures
        ({
            let result = search_result(status, body, payload);
            let succeeded = 200 <= status < 300;
            &&& result is Ok <==> succeeded && payload is Ok && payload->Ok_0.error is None
            &&& payload is Ok && payload->Ok_0.error is Some ==> result == Err::<
                Seq<HitView>,
                SearchErrorView,
            >(SearchErrorView::Upstream { status, message: payload->Ok_0.error->0 })
            &&& payload is Ok && payload->Ok_0.error is None && !succeeded ==> result == Err::<
                Seq<HitView>,
                SearchErrorView,
            >(
                SearchErrorView::Upstream {
                    status,
                    message: "search provider rejected the request"@,
                },
            )
            &&& payload is Err && succeeded ==> result == Err::<Seq<HitView>, SearchErrorView>(
                SearchErrorView::Decode(payload->Err_0),
            )
            &&& payload is Err && !succeeded && body.len() <= 200 ==> result == Err::<
                Seq<HitView>,
                SearchErrorView,
            >(SearchErrorView::Upstream { status, message: body })
            &&& payload is Err && !succeeded && body.len() > 200 ==> result == Err::<
                Seq<HitView>,
                SearchErrorView,
            >(SearchErrorView::Upstream { status, message: body.subrange(0, 200) })
        }),
{
    if body.len() > 200 {
        assert(body.take(200) =~= body.subrange(0, 200));
    }
}

/// A reply without a response has no status; any other has that of its response.
/// Without a body it is a failure of the transport, and with one it is what the
/// body means.
pub proof fn replies_keep_their_status(reply: SearchReply)
    ensures
        reply matches SearchReply::NoResponse { error } ==> {
            &&& reply_result(reply).0 is None
            &&& reply_result(reply).1 matches Err(SearchErrorView::Transport(message))
            &&& message == error@
        },
        reply matches SearchReply::NoBody { status, error } ==> {
            &&& reply_result(reply).0 == Some(status)
            &&& reply_result(reply).1 matches Err(SearchErrorView::Transport(message))
            &&& message == error@
        },
        reply matches SearchReply::Answer { status, body, payload } ==> {
            &&& reply_result(reply).0 == Some(status)
            &&& payload matches Ok(response) ==> reply_result(reply).1 == search_result(
                status,
                body@,
                Ok(response.deep_view()),
            )
            &&& payload matches Err(error) ==> reply_result(reply).1 == search_result(
                status,
                body@,
                Err(error@),
            )
        },
{
}

/// An attempt keeps the request that was sent, the status and the hits of its
/// reply. Of an error only the key is cut out: its kind and its status stay.
pub proof fn attempts_keep_what_came_back(
    key: Seq<char>,
    request: SerpRequestView,
    reply: SearchReply,
)
    ensures
        ({
            let attempt = search_attempt(key, request, reply);
            let came_back = reply_result(reply).1;
            &&& attempt.request == request
            &&& attempt.http_status == reply_result(reply).0
            &&& came_back is Ok ==> attempt.result == came_back
            &&& came_back matches Err(SearchErrorView::Transport(message)) ==> attempt.result
                == Err::<Seq<HitView>, SearchErrorView>(
                SearchErrorView::Transport(cut_out(message, key)),
            )
            &&& came_back matches Err(SearchErrorView::Upstream { status, message })
                ==> attempt.result == Err::<Seq<HitView>, SearchErrorView>(
                SearchErrorView::Upstream { status, message: cut_out(message, key) },
            )
            &&& came_back matches Err(SearchErrorView::Decode(message)) ==> attempt.result == Err::<
                Seq<HitView>,
                SearchErrorView,
            >(SearchErrorView::Decode(cut_out(message, key)))
        }),
{
}

/// The question holds the whole name and the whole company, and a request asks
/// just that question.
pub proof fn the_question_names_person_and_company(
    name: Seq<char>,
    company: Seq<char>,
    base_url: Seq<char>,
    id: u128,
    sent_at: Timestamp,
)
    ensures
        query_for(name, company) == "What is the job title for "@ + name + " at "@ + company + "?"@,
        ({
            let request = serp_request(base_url, query_for(name, company), id, sent_at);
            &&& request.query == query_for(name, company)
            &&& request.endpoint == base_url + "/search"@
            &&& request.engine == "google"@
            &&& request.num == 10
            &&& request.id == id
            &&& request.sent_at == sent_at
        }),
{
}

/// A failed search in words ends with the whole of its message, and says the
/// status where there is one.
pub proof fn search_errors_end_with_their_message(status: u16, message: Seq<char>)
    ensures
        SearchErrorView::Transport(message).text() == "search request failed: "@ + message,
        (SearchErrorView::Upstream { status, message }).text() == "search provider returned "@
            + decimal(status as nat) + ": "@ + message,
        SearchErrorView::Decode(message).text() == "could not parse search response: "@ + message,
{
}

} // verus!
