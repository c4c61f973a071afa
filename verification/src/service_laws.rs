//! Laws of the service's answers and of what the crawlers and the review
//! processing store, stated over concrete texts and numbers.

use vstd::prelude::*;
use crate::auth::{admin_role_name, request_token_spec, subject_user, RequestUser};
use crate::ids::parsed_uuid;
use crate::crawl::firm_address_spec;
use crate::errors::{error_message, query_failure_message, CustomError, STATUS_INTERNAL_SERVER_ERROR, STATUS_NOT_FOUND};
use crate::processing::{cleaned_review, nonempty_texts, prompt_head, prompt_middle, review_excerpt_spec, system_prompt};
use crate::shared::{limit_of, page_of, page_window_spec, PageWindow};
use crate::text::{has_substring, join_with, lemma_char_pattern_absent, lemma_replace_absent, replace_all, take_chars};

verus! {

// ---------------------------------------------------------------------------
// Errors and roles
// ---------------------------------------------------------------------------

/// A missing endpoint is answered with 404 and an internal failure with
/// 500; their messages name what went wrong after a fixed prefix, and a
/// failed query is reported by its name.
pub proof fn lemma_error_answers(detail: String, query: Seq<char>)
    ensures
        STATUS_NOT_FOUND == 404,
        STATUS_INTERNAL_SERVER_ERROR == 500,
        error_message(CustomError::NotFound(detail)) == "Endpoint is not found: "@ + detail@,
        error_message(CustomError::InternalError(detail)) == "Internal server error: "@ + detail@,
        query_failure_message(query) == "Что-то пошло не так во время запроса "@ + query,
{
}

/// Administration is granted to the role named `admin`.
pub proof fn lemma_admin_role()
    ensures
        admin_role_name() == "admin"@,
{
}

/// A request's token is its `token` cookie whenever it has one; otherwise
/// what follows the seven characters `Bearer ` of its `Authorization`
/// header; a request with neither has none. A token that was refused names
/// nobody, and an accepted token names the user its subject reads as.
pub proof fn lemma_request_tokens(cookie: Seq<char>, header: Option<Seq<char>>, subject: Seq<char>)
    ensures
        request_token_spec(Some(cookie), header) == Some(cookie),
        header matches Some(h) ==> request_token_spec(None, header) == Some(h.subrange(7, h.len() as int)),
        request_token_spec(None, None) is None,
        subject_user(None) == RequestUser::InvalidToken,
        parsed_uuid(subject) matches Some(id) ==> subject_user(Some(subject)) == RequestUser::User(id),
        parsed_uuid(subject) is None ==> subject_user(Some(subject)) == RequestUser::InvalidSubject,
{
    if let Some(h) = header {
        assert(h.skip(7) =~= h.subrange(7, h.len() as int));
    }
}

// ---------------------------------------------------------------------------
// Paging
// ---------------------------------------------------------------------------

/// Listings show the first page, of 10 rows, by default; page 0 has no
/// window; the first page starts at row 0; and each page starts where the
/// one before it ends.
pub proof fn lemma_paging(page: usize, limit: Option<usize>)
    ensures
        limit_of(None) == 10,
        page_of(None) == 1,
        page_window_spec(None, None) == Some(PageWindow { limit: 10, offset: 0 }),
        page_window_spec(Some(0), limit) is None,
        page_window_spec(Some(1), limit) == Some(PageWindow { limit: limit_of(limit) as usize, offset: 0 }),
        page >= 1 && page < usize::MAX ==> (page_window_spec(Some(page), limit) matches Some(w1) ==> (
            page_window_spec(Some((page + 1) as usize), limit) matches Some(w2) ==> (
                w2.limit == w1.limit && w2.offset == w1.offset + w1.limit))),
{
    let l = limit_of(limit);
    let p = page as int;
    assert((p + 1 - 1) * l == (p - 1) * l + l) by (nonlinear_arith);
    assert((1int - 1) * l == 0) by (nonlinear_arith);
}

// ---------------------------------------------------------------------------
// What is stored
// ---------------------------------------------------------------------------

/// A firm's address is its street and city lines joined by `, ` when
/// neither breaks lines and they are not both empty; a block with both
/// empty gives no address, and a page without an address block stores the
/// empty address.
pub proof fn lemma_address_joins_street_and_city(street: Seq<char>, city: Seq<char>)
    ensures
        !street.contains('\n') && !city.contains('\n') && (street.len() > 0 || city.len() > 0)
            ==> firm_address_spec(Some((street, city))) == Some(street + ", "@ + city),
        street.len() == 0 && city.len() == 0 ==> firm_address_spec(Some((street, city))) is None,
        firm_address_spec(None) == Some(Seq::<char>::empty()),
{
    reveal_strlit(", ");
    reveal_strlit("\n");
    let joined = street + ", "@ + city;
    assert(", "@ =~= seq![',', ' ']);
    assert("\n"@ =~= seq!['\n']);
    if street.len() == 0 && city.len() == 0 {
        assert(joined =~= ", "@);
    }
    if !street.contains('\n') && !city.contains('\n') && (street.len() > 0 || city.len() > 0) {
        assert(joined.len() != 2);
        assert(joined != ", "@);
        assert forall|i: int| 0 <= i < joined.len() implies joined[i] != '\n' by {
            if i < street.len() {
                assert(joined[i] == street[i]);
            } else if i < street.len() + 2 {
                assert(joined[i] == ", "@[i - street.len()]);
            } else {
                assert(joined[i] == city[i - street.len() - 2]);
            }
        }
        lemma_char_pattern_absent(joined, '\n');
        lemma_replace_absent(joined, "\n"@, ", "@);
    }
}

/// A generated review with no placeholder `XYZ`, no `#` and no `*` is
/// stored as it was written, whatever the firm's name.
pub proof fn lemma_plain_review_is_stored_as_written(review: Seq<char>, firm_name: Seq<char>)
    requires
        !has_substring(review, "XYZ"@),
        !review.contains('#'),
        !review.contains('*'),
    ensures
        cleaned_review(review, firm_name) == review,
{
    reveal_strlit("#");
    reveal_strlit("*");
    assert("#"@ =~= seq!['#']);
    assert("*"@ =~= seq!['*']);
    lemma_replace_absent(review, "XYZ"@, firm_name);
    lemma_char_pattern_absent(review, '#');
    lemma_replace_absent(review, "#"@, ""@);
    lemma_char_pattern_absent(review, '*');
    lemma_replace_absent(review, "*"@, ""@);
}

/// The placeholder `XYZ` of a generated review is stored as the firm's
/// name.
pub proof fn lemma_placeholder_becomes_the_name(firm_name: Seq<char>)
    requires
        !firm_name.contains('#'),
        !firm_name.contains('*'),
    ensures
        cleaned_review("XYZ"@, firm_name) == firm_name,
{
    reveal_strlit("XYZ");
    reveal_strlit("#");
    reveal_strlit("*");
    let p = "XYZ"@;
    assert(p =~= seq!['X', 'Y', 'Z']);
    assert(p.take(3) =~= p);
    assert(p.skip(3) =~= Seq::<char>::empty());
    assert(replace_all(Seq::<char>::empty(), p, firm_name) == Seq::<char>::empty());
    assert(replace_all(p, p, firm_name) =~= firm_name);
    assert("#"@ =~= seq!['#']);
    assert("*"@ =~= seq!['*']);
    lemma_char_pattern_absent(firm_name, '#');
    lemma_replace_absent(firm_name, "#"@, ""@);
    lemma_char_pattern_absent(firm_name, '*');
    lemma_replace_absent(firm_name, "*"@, ""@);
}

/// The request for a generated review opens with the copywriter
/// instruction, and its text puts the reviews first and then the firm's
/// name.
pub proof fn lemma_prompt_texts()
    ensures
        system_prompt() == "Ты писатель-копирайтер, пишешь SEO оптимизированные тексты"@,
        prompt_head() == "\n\t\tВот отзывы которые ты должен проанализировать: "@,
        prompt_middle() == "\n\n\t\tНапиши большую статью, на основе этих отзывов об автосервисе "@,
{
}

/// A firm with fewer than two reviews gets no request for a generated
/// review; otherwise the request carries at most 3800 characters of them.
pub proof fn lemma_excerpt_bounds(texts: Seq<Option<String>>)
    ensures
        (review_excerpt_spec(texts) is None) <==> texts.len() < 2,
        review_excerpt_spec(texts) matches Some(e) ==> e.len() <= 3800,
{
}

/// Two non-empty reviews short enough are carried whole, in order,
/// separated by `; `.
pub proof fn lemma_two_reviews_are_carried_whole(a: String, b: String)
    requires
        a@.len() > 0,
        b@.len() > 0,
        a@.len() + b@.len() + 2 <= 3800,
    ensures
        review_excerpt_spec(seq![Some(a), Some(b)]) == Some(a@ + "; "@ + b@),
{
    reveal_strlit("; ");
    let texts = seq![Some(a), Some(b)];
    assert(texts.drop_last() =~= seq![Some(a)]);
    assert(seq![Some(a)].drop_last() =~= Seq::<Option<String>>::empty());
    assert(nonempty_texts(Seq::<Option<String>>::empty()) == Seq::<Seq<char>>::empty());
    assert(nonempty_texts(seq![Some(a)]) =~= seq![a@]);
    assert(nonempty_texts(texts) =~= seq![a@, b@]);
    let parts = seq![a@, b@];
    assert(parts.drop_last() =~= seq![a@]);
    assert(join_with(seq![a@], "; "@) == a@);
    assert(join_with(parts, "; "@) == a@ + "; "@ + b@);
    assert(take_chars(a@ + "; "@ + b@, 3800) == a@ + "; "@ + b@);
}

} // verus!
