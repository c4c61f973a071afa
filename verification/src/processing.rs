//! The crawl counters, and the processing of a firm's reviews into a
//! request for a generated review and of the generated text into what is
//! stored.

use vstd::prelude::*;
use crate::shared::Count;
use crate::text::{
    chars_of, format_i64, join_texts, join_with, parse_i64, parse_i64_spec, push_str,
    replace_all, replace_text, signed_decimal, string_from, take_chars, take_text,
    lemma_parse_format_i64, lemma_replace_keeps_out, lemma_replace_removes_char,
};

verus! {

// ---------------------------------------------------------------------------
// Crawl counters
// ---------------------------------------------------------------------------

/// The position a crawl counter holds: its stored text read as a number;
/// `None` when it is missing or not a number.
pub open spec fn counter_value_spec(stored: Option<Seq<char>>) -> Option<i64> {
    match stored {
        Some(s) => parse_i64_spec(s),
        None => None,
    }
}

pub fn counter_value(stored: &Option<String>) -> (r: Option<i64>)
    ensures
        r == counter_value_spec(match stored { Some(s) => Some(s@), None => None }),
{
    match stored {
        Some(s) => parse_i64(s.as_str()),
        None => None,
    }
}

/// The text a crawl counter stores after item `j`: the position of the next
/// item, `j + 1`.
pub fn next_counter_text(j: i64) -> (r: String)
    requires
        j < i64::MAX,
    ensures
        r@ == signed_decimal(j + 1),
{
    format_i64(j + 1)
}

/// A crawl that stores its counter after item `j` resumes at item `j + 1`:
/// what the counter stores is what it reads back.
pub proof fn lemma_counter_resumes_after(j: i64)
    requires
        j < i64::MAX,
    ensures
        counter_value_spec(Some(signed_decimal(j + 1))) == Some((j + 1) as i64),
{
    lemma_parse_format_i64((j + 1) as i64);
}

/// The text stored as a firm's review count: the counted rows, 0 when the
/// count failed.
pub fn reviews_count_text(counted: Option<Count>) -> (r: String)
    requires
        counted matches Some(c) ==> c.count is Some,
    ensures
        r@ == signed_decimal(match counted { Some(c) => c.count->0 as int, None => 0 }),
{
    match counted {
        Some(c) => format_i64(c.count.unwrap()),
        None => format_i64(0),
    }
}

// ---------------------------------------------------------------------------
// From a firm's reviews to a request for a generated review
// ---------------------------------------------------------------------------

/// The fewest reviews a firm needs for a generated review.
pub const MIN_REVIEWS: usize = 2;

/// The most characters of review text that a request carries.
pub const MAX_EXCERPT_CHARS: usize = 3800;

/// The non-empty texts of the reviews, in order (a review without text
/// counts as empty).
pub open spec fn nonempty_texts(texts: Seq<Option<String>>) -> Seq<Seq<char>>
    decreases texts.len(),
{
    if texts.len() == 0 {
        Seq::empty()
    } else {
        let rest = nonempty_texts(texts.drop_last());
        match texts.last() {
            Some(t) => if t@.len() > 0 { rest.push(t@) } else { rest },
            None => rest,
        }
    }
}

/// What a request carries of a firm's reviews: the non-empty texts joined
/// by `; `, cut to the first 3800 characters; nothing when the firm has
/// fewer than two reviews.
pub open spec fn review_excerpt_spec(texts: Seq<Option<String>>) -> Option<Seq<char>> {
    if texts.len() < MIN_REVIEWS {
        None
    } else {
        Some(take_chars(join_with(nonempty_texts(texts), "; "@), MAX_EXCERPT_CHARS as nat))
    }
}

pub fn review_excerpt(texts: &Vec<Option<String>>) -> (r: Option<String>)
    ensures
        r matches Some(s) ==> review_excerpt_spec(texts@) == Some(s@),
        r is None ==> review_excerpt_spec(texts@) is None,
{
    if texts.len() < MIN_REVIEWS {
        return None;
    }
    let mut parts: Vec<String> = Vec::new();
    let mut i: usize = 0;
    while i < texts.len()
        invariant
            i <= texts.len(),
            parts@.map_values(|x: String| x@) == nonempty_texts(texts@.take(i as int)),
        decreases texts.len() - i,
    {
        proof {
            assert(texts@.take(i + 1).drop_last() =~= texts@.take(i as int));
        }
        match &texts[i] {
            Some(t) => {
                let chars = chars_of(t.as_str());
                if chars.len() > 0 {
                    let ghost before = parts@;
                    parts.push(t.clone());
                    assert(parts@.map_values(|x: String| x@) =~= before.map_values(|x: String| x@).push(t@));
                }
            },
            None => {},
        }
        i += 1;
    }
    assert(texts@.take(texts.len() as int) =~= texts@);
    let joined = join_texts(&parts, "; ");
    Some(take_text(joined.as_str(), MAX_EXCERPT_CHARS))
}

/// The instruction that opens a request for a generated review.
pub open spec fn system_prompt() -> Seq<char> {
    "Ты писатель-копирайтер, пишешь SEO оптимизированные тексты"@
}

pub fn system_prompt_text() -> (r: String)
    ensures
        r@ == system_prompt(),
{
    string_from(&chars_of("Ты писатель-копирайтер, пишешь SEO оптимизированные тексты"))
}

/// The text of a request for a generated review, around the excerpt of the
/// reviews and the firm's name.
pub open spec fn prompt_head() -> Seq<char> {
    "\n\t\tВот отзывы которые ты должен проанализировать: "@
}

pub open spec fn prompt_middle() -> Seq<char> {
    "\n\n\t\tНапиши большую статью, на основе этих отзывов об автосервисе "@
}

pub open spec fn prompt_tail() -> Seq<char> {
    ",\n\t\tважно, чтобы текст был понятен 18-летним девушкам и парням, которые не разбираются в автосервисах, но без упоминания слова - Статья\n\n\t\t1. Подробно опиши в этой статье: какие виды работ обсуждают люди,\n\t\t2. Что из этих работ было сделано хорошо, а что плохо,\n\t\t3. Обманывают ли в этом автосервисе или нет.\n\t\tНапример, если об этом говорят в отзывах:\n\t\tВ отзывах обсуждаются следующие услуги:\n\t\t- Кузовной ремонт - плохое качество\n\t\t- Мастера - отзывчивые\n\n\t\t4. Выведи нумерованный список: плюсов и минусов если человек обратится в этот автосервис для ремонта своего автомобиля.\n\t\tНапример, если об этом говорят в отзывах:\n\t\tПлюсы\n\t\t\t1. Хорошо чинят машины\n\t\t\t2. Хорошо красят\n\t\t\tМинусы\n\t\t\t1. Далеко от центра города\n\n\t\t5. Важно - подсчитай и выведи не нумерованным списком сумму положительных и сумму отрицательных отзывов,\n\t\tНапример:\n\t\tПоложительных отзывов проанализировано - 15\n\t\tОтрицательных отзывов проанализировано - 5\n\n\t\t6. Сделай выводы, на основе плюсов и минусов организации, количества положительных и отрицательных отзывов.\n\t\tНапример:\n\t\tУ организации больше положительных отзывов, укажи что рейтинг организации хороший, и объясни почему.\n\t\tИли например:\n\t\tУ организации поровну положительных и отрицательных отзывов, укажи что рейтинг организации удовлетворительный, и объясни почему.\n\t\tИли например:\n\t\tУ организации больше отрицательных отзывов, укажи что рейтинг организации не удовлетворительный, и объясни почему.\n\t\t"@
}

/// The request for a generated review of the firm `firm_name` from the
/// excerpt `excerpt` of its reviews.
pub fn review_prompt(excerpt: &str, firm_name: &str) -> (r: String)
    ensures
        r@ == prompt_head() + excerpt@ + prompt_middle() + firm_name@ + prompt_tail(),
{
    let mut v = chars_of("\n\t\tВот отзывы которые ты должен проанализировать: ");
    push_str(&mut v, excerpt);
    push_str(&mut v, "\n\n\t\tНапиши большую статью, на основе этих отзывов об автосервисе ");
    push_str(&mut v, firm_name);
    push_str(&mut v, ",\n\t\tважно, чтобы текст был понятен 18-летним девушкам и парням, которые не разбираются в автосервисах, но без упоминания слова - Статья\n\n\t\t1. Подробно опиши в этой статье: какие виды работ обсуждают люди,\n\t\t2. Что из этих работ было сделано хорошо, а что плохо,\n\t\t3. Обманывают ли в этом автосервисе или нет.\n\t\tНапример, если об этом говорят в отзывах:\n\t\tВ отзывах обсуждаются следующие услуги:\n\t\t- Кузовной ремонт - плохое качество\n\t\t- Мастера - отзывчивые\n\n\t\t4. Выведи нумерованный список: плюсов и минусов если человек обратится в этот автосервис для ремонта своего автомобиля.\n\t\tНапример, если об этом говорят в отзывах:\n\t\tПлюсы\n\t\t\t1. Хорошо чинят машины\n\t\t\t2. Хорошо красят\n\t\t\tМинусы\n\t\t\t1. Далеко от центра города\n\n\t\t5. Важно - подсчитай и выведи не нумерованным списком сумму положительных и сумму отрицательных отзывов,\n\t\tНапример:\n\t\tПоложительных отзывов проанализировано - 15\n\t\tОтрицательных отзывов проанализировано - 5\n\n\t\t6. Сделай выводы, на основе плюсов и минусов организации, количества положительных и отрицательных отзывов.\n\t\tНапример:\n\t\tУ организации больше положительных отзывов, укажи что рейтинг организации хороший, и объясни почему.\n\t\tИли например:\n\t\tУ организации поровну положительных и отрицательных отзывов, укажи что рейтинг организации удовлетворительный, и объясни почему.\n\t\tИли например:\n\t\tУ организации больше отрицательных отзывов, укажи что рейтинг организации не удовлетворительный, и объясни почему.\n\t\t");
    string_from(&v)
}

// ---------------------------------------------------------------------------
// From a generated review to what is stored
// ---------------------------------------------------------------------------

/// A generated review as stored: the placeholder `XYZ` replaced by the
/// firm's name, then every `#` and every `*` removed.
pub open spec fn cleaned_review(review: Seq<char>, firm_name: Seq<char>) -> Seq<char> {
    replace_all(replace_all(replace_all(review, "XYZ"@, firm_name), "#"@, ""@), "*"@, ""@)
}

/// What is stored of a generated review; nothing when it is empty.
pub fn clean_generated_review(review: &str, firm_name: &str) -> (r: Option<String>)
    ensures
        review@.len() == 0 ==> r is None,
        review@.len() > 0 ==> (r matches Some(s) && s@ == cleaned_review(review@, firm_name@)),
{
    let chars = chars_of(review);
    if chars.len() == 0 {
        return None;
    }
    proof {
        reveal_strlit("XYZ");
        reveal_strlit("#");
        reveal_strlit("*");
    }
    let named = replace_text(review, "XYZ", firm_name);
    let no_hash = replace_text(named.as_str(), "#", "");
    let clean = replace_text(no_hash.as_str(), "*", "");
    Some(clean)
}


/// A stored generated review holds no `#` and no `*`, whatever the
/// generated text and the firm's name hold.
pub proof fn lemma_cleaned_review_has_no_markup(review: Seq<char>, firm_name: Seq<char>)
    ensures
        !cleaned_review(review, firm_name).contains('#'),
        !cleaned_review(review, firm_name).contains('*'),
{
    reveal_strlit("#");
    reveal_strlit("*");
    reveal_strlit("");
    let named = replace_all(review, "XYZ"@, firm_name);
    assert("#"@ =~= seq!['#']);
    assert("*"@ =~= seq!['*']);
    let empty: Seq<char> = ""@;
    assert(empty.len() == 0);
    assert(!empty.contains('#'));
    assert(!empty.contains('*'));
    lemma_replace_removes_char(named, '#', empty);
    let no_hash = replace_all(named, "#"@, empty);
    lemma_replace_removes_char(no_hash, '*', empty);
    lemma_replace_keeps_out(no_hash, "*"@, empty, '#');
}

} // verus!
