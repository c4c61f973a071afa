//! Decisions of the catalogue crawlers: the pages they open, the elements
//! they look for, which pages and blocks they skip, and how they read
//! identifiers, coordinates and addresses out of what the pages show.

use vstd::prelude::*;
use crate::records::{PriceCategory, SaveReview};
use crate::ids::{is_random_id, new_random_id};
use crate::text::{
    format_usize,
    before_first, before_first_chars, chars_of, contains_any, contains_text, has_substring, push_str,
    replace_all, replace_chars, replace_text, second_segment, second_segment_chars, string_from,
    text_equals, decimal, push_decimal, numbered_text, signed_decimal, format_i32, parse_i32,
    parse_i32_spec, lemma_before_first_char, lemma_replace_removes_char,
};

verus! {

// ---------------------------------------------------------------------------
// Page addresses
// ---------------------------------------------------------------------------

/// The search page of a category in a city.
pub fn search_url(city: &str, category: &str) -> (r: String)
    ensures
        r@ == "https://2gis.ru/"@ + city@ + "/search/"@ + category@,
{
    let mut v = chars_of("https://2gis.ru/");
    push_str(&mut v, city);
    push_str(&mut v, "/search/");
    push_str(&mut v, category);
    string_from(&v)
}

/// The page of a firm found by a category search in a city.
pub fn firm_url(city: &str, category: &str, firm: &str) -> (r: String)
    ensures
        r@ == "https://2gis.ru/"@ + city@ + "/search/"@ + category@ + "/firm/"@ + firm@,
{
    let mut v = chars_of("https://2gis.ru/");
    push_str(&mut v, city);
    push_str(&mut v, "/search/");
    push_str(&mut v, category);
    push_str(&mut v, "/firm/");
    push_str(&mut v, firm);
    string_from(&v)
}

/// A tab (`prices`, `reviews`, `info`) of a firm's page.
pub fn firm_tab_url(city: &str, category: &str, firm: &str, tab: &str) -> (r: String)
    ensures
        r@ == "https://2gis.ru/"@ + city@ + "/search/"@ + category@ + "/firm/"@ + firm@ + "/tab/"@
            + tab@,
{
    let mut v = chars_of("https://2gis.ru/");
    push_str(&mut v, city);
    push_str(&mut v, "/search/");
    push_str(&mut v, category);
    push_str(&mut v, "/firm/");
    push_str(&mut v, firm);
    push_str(&mut v, "/tab/");
    push_str(&mut v, tab);
    string_from(&v)
}

/// The page of a firm found in a rubric of a category search in a city.
pub fn firm_rubric_url(city: &str, category: &str, rubric: &str, firm: &str) -> (r: String)
    ensures
        r@ == "https://2gis.ru/"@ + city@ + "/search/"@ + category@ + "/rubricId/"@ + rubric@
            + "/firm/"@ + firm@,
{
    let mut v = chars_of("https://2gis.ru/");
    push_str(&mut v, city);
    push_str(&mut v, "/search/");
    push_str(&mut v, category);
    push_str(&mut v, "/rubricId/");
    push_str(&mut v, rubric);
    push_str(&mut v, "/firm/");
    push_str(&mut v, firm);
    string_from(&v)
}

// ---------------------------------------------------------------------------
// What a page shows
// ---------------------------------------------------------------------------

/// Whether a page shows the map service's error notice, after which the
/// crawler reloads it.
pub fn needs_reload(root_html: &str) -> (r: bool)
    ensures
        r == has_substring(root_html@, "Что-то пошло не так"@),
{
    contains_text(root_html, "Что-то пошло не так")
}

/// Whether any of `markers` occurs in `s`.
pub open spec fn shows_any(s: Seq<char>, markers: Seq<&str>) -> bool {
    exists|i: int| 0 <= i < markers.len() && has_substring(s, #[trigger] markers[i]@)
}

/// Markers of a search result that is an advertisement or a link elsewhere.
pub open spec fn promoted_card_markers() -> Seq<&'static str> {
    seq!["_h2n9mw", "_2p5l74", "↗"]
}

/// Whether a search result is an advertisement or a link elsewhere, which
/// the search crawler passes over.
pub fn is_promoted_card(card_html: &str) -> (r: bool)
    ensures
        r == shows_any(card_html@, promoted_card_markers()),
{
    let markers = vec!["_h2n9mw", "_2p5l74", "↗"];
    assert(markers@ == promoted_card_markers());
    contains_any(card_html, &markers)
}

/// Markers of a firm that is closed or not yet open.
pub open spec fn closed_firm_markers() -> Seq<&'static str> {
    seq!["Филиал удалён из справочника", "Филиал временно не работает", "Скоро открытие"]
}

/// Whether a firm's page says that it is closed or not yet open; its
/// details are then not read.
pub fn is_closed_firm(page_html: &str) -> (r: bool)
    ensures
        r == shows_any(page_html@, closed_firm_markers()),
{
    let markers = vec!["Филиал удалён из справочника", "Филиал временно не работает", "Скоро открытие"];
    assert(markers@ == closed_firm_markers());
    contains_any(page_html, &markers)
}

/// Markers of a reviews tab without reviews to read.
pub open spec fn no_reviews_markers() -> Seq<&'static str> {
    seq![
        "Нет отзывов",
        "Филиал удалён из справочника",
        "Филиал временно не работает",
        "Скоро открытие",
    ]
}

/// Whether a firm's reviews tab has no reviews to read.
pub fn has_no_reviews(main_html: &str) -> (r: bool)
    ensures
        r == shows_any(main_html@, no_reviews_markers()),
{
    let markers = vec![
        "Нет отзывов",
        "Филиал удалён из справочника",
        "Филиал временно не работает",
        "Скоро открытие",
    ];
    assert(markers@ == no_reviews_markers());
    contains_any(main_html, &markers)
}

/// Markers of a block of the reviews tab that is not a review.
pub open spec fn non_review_markers() -> Seq<&'static str> {
    seq![
        "Неподтвержденные отзывы",
        "Все отзывы",
        "Загрузить ещё",
        "официальный ответ",
        "С ответами",
        "Люди говорят",
        "Оцените и оставьте отзыв",
        "оценки",
        "оценок",
        "оценка",
        "ответ",
        "/5",
    ]
}

/// Whether a block of the reviews tab is something other than a review
/// (a filter, a summary, an answer), which the crawler passes over.
pub fn is_non_review_block(block_html: &str) -> (r: bool)
    ensures
        r == shows_any(block_html@, non_review_markers()),
{
    let markers = vec![
        "Неподтвержденные отзывы",
        "Все отзывы",
        "Загрузить ещё",
        "официальный ответ",
        "С ответами",
        "Люди говорят",
        "Оцените и оставьте отзыв",
        "оценки",
        "оценок",
        "оценка",
        "ответ",
        "/5",
    ];
    assert(markers@ == non_review_markers());
    contains_any(block_html, &markers)
}

/// Markers of a prices tab without a price list of the firm's own.
pub open spec fn no_price_list_markers() -> Seq<&'static str> {
    seq![
        "Филиал удалён из справочника",
        "Филиал временно не работает",
        "Посмотреть на сайте",
        "Добавьте сюда фотографий!",
        "_14quei",
        "_1e8kkm3",
        "_1nkoou7",
    ]
}

/// Whether a firm's prices tab has no price list of the firm's own.
pub fn has_no_price_list(catalogue_html: &str) -> (r: bool)
    ensures
        r == shows_any(catalogue_html@, no_price_list_markers()),
{
    let markers = vec![
        "Филиал удалён из справочника",
        "Филиал временно не работает",
        "Посмотреть на сайте",
        "Добавьте сюда фотографий!",
        "_14quei",
        "_1e8kkm3",
        "_1nkoou7",
    ];
    assert(markers@ == no_price_list_markers());
    contains_any(catalogue_html, &markers)
}

/// Markers of a block of a firm's page that is not its address.
pub open spec fn non_address_markers() -> Seq<&'static str> {
    seq!["Оформить", "↗", "Инфо", "Отзывы", "Меню", "Фото"]
}

/// The index of the first block that is an address: one that shows none of
/// the markers of other blocks.
pub open spec fn is_first_address_block(contents: Seq<String>, k: int) -> bool {
    &&& 0 <= k < contents.len()
    &&& !shows_any(contents[k]@, non_address_markers())
    &&& forall|j: int| 0 <= j < k ==> shows_any(#[trigger] contents[j]@, non_address_markers())
}

/// The first block of a firm's page that holds its address, if any.
pub fn first_address_block(contents: &Vec<String>) -> (r: Option<usize>)
    ensures
        r matches Some(k) ==> is_first_address_block(contents@, k as int),
        r is None ==> forall|j: int|
            0 <= j < contents.len() ==> shows_any(#[trigger] contents@[j]@, non_address_markers()),
{
    let markers = vec!["Оформить", "↗", "Инфо", "Отзывы", "Меню", "Фото"];
    assert(markers@ == non_address_markers());
    let mut i: usize = 0;
    while i < contents.len()
        invariant
            i <= contents.len(),
            markers@ == non_address_markers(),
            forall|j: int| 0 <= j < i ==> shows_any(#[trigger] contents@[j]@, non_address_markers()),
        decreases contents.len() - i,
    {
        if !contains_any(contents[i].as_str(), &markers) {
            return Some(i);
        }
        i += 1;
    }
    None
}

// ---------------------------------------------------------------------------
// Reading identifiers, coordinates and addresses
// ---------------------------------------------------------------------------

/// The text that stands in for a missing second part of a split.
pub open spec fn missing_part() -> Seq<char> {
    "-?"@
}

/// The map service's identifier of a firm, read from the link of a search
/// result: what follows `/<city>/firm/` up to the first `?`; `-` when the
/// link holds no such part.
pub open spec fn firm_id_from_link_spec(link: Seq<char>, city: Seq<char>) -> Seq<char> {
    let part = match second_segment(link, "/"@ + city + "/firm/"@) {
        Some(p) => p,
        None => missing_part(),
    };
    before_first(part, "?"@)
}

pub fn firm_id_from_link(link: &str, city: &str) -> (r: String)
    ensures
        r@ == firm_id_from_link_spec(link@, city@),
{
    let lv = chars_of(link);
    let mut target = chars_of("/");
    push_str(&mut target, city);
    push_str(&mut target, "/firm/");
    let part = match second_segment_chars(&lv, &target) {
        Some(p) => p,
        None => chars_of("-?"),
    };
    let q = chars_of("?");
    let id = before_first_chars(&part, &q);
    string_from(&id)
}

/// The coordinates of a firm, read from its route link: what follows
/// `/<city>/directions/points/%7C` up to the first `%3B`, with each `%2C`
/// written as `, `; `-?` when the link holds no such part.
pub open spec fn coords_from_link_spec(link: Seq<char>, city: Seq<char>) -> Seq<char> {
    let part = match second_segment(link, "/"@ + city + "/directions/points/%7C"@) {
        Some(p) => p,
        None => missing_part(),
    };
    replace_all(before_first(part, "%3B"@), "%2C"@, ", "@)
}

pub fn coords_from_link(link: &str, city: &str) -> (r: String)
    ensures
        r@ == coords_from_link_spec(link@, city@),
{
    let lv = chars_of(link);
    let mut target = chars_of("/");
    push_str(&mut target, city);
    push_str(&mut target, "/directions/points/%7C");
    let part = match second_segment_chars(&lv, &target) {
        Some(p) => p,
        None => chars_of("-?"),
    };
    let sep = chars_of("%3B");
    let coords = before_first_chars(&part, &sep);
    let from = chars_of("%2C");
    let to = chars_of(", ");
    proof {
        reveal_strlit("%2C");
    }
    let out = replace_chars(&coords, &from, &to);
    string_from(&out)
}

/// The identifier read from a link never holds a `?`.
pub proof fn lemma_firm_id_has_no_query(link: Seq<char>, city: Seq<char>)
    ensures
        !firm_id_from_link_spec(link, city).contains('?'),
{
    reveal_strlit("?");
    assert("?"@ =~= seq!['?']);
    let part = match second_segment(link, "/"@ + city + "/firm/"@) {
        Some(p) => p,
        None => missing_part(),
    };
    lemma_before_first_char(part, '?');
}

/// Text read from a page with each line break written as `, `.
pub fn lines_to_commas(s: &str) -> (r: String)
    ensures
        r@ == replace_all(s@, "\n"@, ", "@),
{
    proof {
        reveal_strlit("\n");
    }
    replace_text(s, "\n", ", ")
}

/// Text read from a page with each line break written as a space.
pub fn lines_to_spaces(s: &str) -> (r: String)
    ensures
        r@ == replace_all(s@, "\n"@, " "@),
{
    proof {
        reveal_strlit("\n");
    }
    replace_text(s, "\n", " ")
}

/// A review as the reviews crawler stores it: its text on one line (line
/// breaks written as spaces) and its rating as the number of stars shown.
pub fn crawled_review(
    firm_id: u128,
    two_gis_firm_id: &str,
    author: &str,
    date: &str,
    text: &str,
    stars: usize,
) -> (r: SaveReview)
    ensures
        r.firm_id == firm_id,
        r.two_gis_firm_id@ == two_gis_firm_id@,
        r.author@ == author@,
        r.date@ == date@,
        r.text@ == replace_all(text@, "\n"@, " "@),
        r.rating@ == decimal(stars as nat),
{
    SaveReview {
        firm_id,
        two_gis_firm_id: string_from(&chars_of(two_gis_firm_id)),
        author: string_from(&chars_of(author)),
        date: string_from(&chars_of(date)),
        text: lines_to_spaces(text),
        rating: format_usize(stars),
    }
}

/// A phone number read from a `tel:` link.
pub fn phone_from_link(link: &str) -> (r: String)
    ensures
        r@ == replace_all(link@, "tel:"@, ""@),
{
    proof {
        reveal_strlit("tel:");
    }
    replace_text(link, "tel:", "")
}

/// The address of a firm from its address block (street and city lines), as
/// the address crawler stores it: the two joined by `, `, line breaks
/// written as `, `. A block with neither line is passed over (`None`); a
/// page without an address block stores the empty address.
pub open spec fn firm_address_spec(block: Option<(Seq<char>, Seq<char>)>) -> Option<Seq<char>> {
    match block {
        None => Some(Seq::empty()),
        Some((street, city)) => {
            let joined = street + ", "@ + city;
            if joined == ", "@ {
                None
            } else {
                Some(replace_all(joined, "\n"@, ", "@))
            }
        },
    }
}

/// A stored address is a single line.
pub proof fn lemma_address_is_one_line(block: Option<(Seq<char>, Seq<char>)>)
    ensures
        firm_address_spec(block) matches Some(a) ==> !a.contains('\n'),
{
    reveal_strlit("\n");
    reveal_strlit(", ");
    assert("\n"@ =~= seq!['\n']);
    assert(!", "@.contains('\n')) by {
        assert(", "@ =~= seq![',', ' ']);
    }
    match block {
        None => {},
        Some((street, city)) => {
            lemma_replace_removes_char(street + ", "@ + city, '\n', ", "@);
        },
    }
}

pub fn firm_address(block: Option<(&str, &str)>) -> (r: Option<String>)
    ensures
        r matches Some(a) ==> firm_address_spec(
            match block { Some((s, c)) => Some((s@, c@)), None => None },
        ) == Some(a@),
        r is None ==> firm_address_spec(
            match block { Some((s, c)) => Some((s@, c@)), None => None },
        ) is None,
{
    match block {
        None => Some(String::new()),
        Some((street, city)) => {
            let mut v = chars_of(street);
            push_str(&mut v, ", ");
            push_str(&mut v, city);
            let joined = string_from(&v);
            if text_equals(joined.as_str(), ", ") {
                None
            } else {
                Some(lines_to_commas(joined.as_str()))
            }
        },
    }
}


// ---------------------------------------------------------------------------
// Choosing the block of a firm's page that holds its details
// ---------------------------------------------------------------------------

/// Markers of the block that holds a firm's contact details.
pub open spec fn contact_block_markers() -> Seq<&'static str> {
    seq!["Показать вход", "Показать на карте"]
}

/// The number, counted from 1, of the block that holds a firm's contact
/// details: the last block that is at least as tall as the first one
/// (`tall`) and shows one of the markers; 1 when there is none.
pub open spec fn contact_block_number_spec(tall: Seq<bool>, contents: Seq<String>) -> int
    decreases contents.len(),
{
    if contents.len() == 0 || tall.len() != contents.len() {
        1
    } else {
        let k = contents.len() - 1;
        if tall[k] && shows_any(contents[k]@, contact_block_markers()) {
            k + 1
        } else {
            contact_block_number_spec(tall.drop_last(), contents.drop_last())
        }
    }
}

pub fn contact_block_number(tall: &Vec<bool>, contents: &Vec<String>) -> (n: usize)
    requires
        tall.len() == contents.len(),
    ensures
        n == contact_block_number_spec(tall@, contents@),
{
    let markers = vec!["Показать вход", "Показать на карте"];
    assert(markers@ == contact_block_markers());
    let mut n: usize = 1;
    let mut i: usize = 0;
    while i < contents.len()
        invariant
            i <= contents.len(),
            tall.len() == contents.len(),
            markers@ == contact_block_markers(),
            n == contact_block_number_spec(tall@.take(i as int), contents@.take(i as int)),
        decreases contents.len() - i,
    {
        proof {
            assert(tall@.take(i + 1).drop_last() =~= tall@.take(i as int));
            assert(contents@.take(i + 1).drop_last() =~= contents@.take(i as int));
        }
        if tall[i] && contains_any(contents[i].as_str(), &markers) {
            n = i + 1;
        }
        i += 1;
    }
    assert(tall@.take(tall.len() as int) =~= tall@);
    assert(contents@.take(contents.len() as int) =~= contents@);
    n
}

/// Markers of the blocks of a firm's info tab that are not its description.
pub open spec fn non_description_markers() -> Seq<&'static str> {
    seq![
        "Авторемонт",
        "Продажа легковых автомобилей",
        "Кузовной ремонт",
        "Автозапчасти и аксессуары",
        "Марки легковых запчастей",
        "Ремонт ходовой части автомобиля",
        "Способы оплаты",
        "В справочнике",
        "Рядом",
        "Транспорт",
    ]
}

/// The number, counted from 1, of the block of a firm's info tab that holds
/// its description: the last block that is at least as tall as the first
/// one (`tall`) and shows none of the markers of other blocks; 1 when there
/// is none.
pub open spec fn description_block_number_spec(tall: Seq<bool>, contents: Seq<String>) -> int
    decreases contents.len(),
{
    if contents.len() == 0 || tall.len() != contents.len() {
        1
    } else {
        let k = contents.len() - 1;
        if tall[k] && !shows_any(contents[k]@, non_description_markers()) {
            k + 1
        } else {
            description_block_number_spec(tall.drop_last(), contents.drop_last())
        }
    }
}

pub fn description_block_number(tall: &Vec<bool>, contents: &Vec<String>) -> (n: usize)
    requires
        tall.len() == contents.len(),
    ensures
        n == description_block_number_spec(tall@, contents@),
{
    let markers = vec![
        "Авторемонт",
        "Продажа легковых автомобилей",
        "Кузовной ремонт",
        "Автозапчасти и аксессуары",
        "Марки легковых запчастей",
        "Ремонт ходовой части автомобиля",
        "Способы оплаты",
        "В справочнике",
        "Рядом",
        "Транспорт",
    ];
    assert(markers@ == non_description_markers());
    let mut n: usize = 1;
    let mut i: usize = 0;
    while i < contents.len()
        invariant
            i <= contents.len(),
            tall.len() == contents.len(),
            markers@ == non_description_markers(),
            n == description_block_number_spec(tall@.take(i as int), contents@.take(i as int)),
        decreases contents.len() - i,
    {
        proof {
            assert(tall@.take(i + 1).drop_last() =~= tall@.take(i as int));
            assert(contents@.take(i + 1).drop_last() =~= contents@.take(i as int));
        }
        if tall[i] && !contains_any(contents[i].as_str(), &markers) {
            n = i + 1;
        }
        i += 1;
    }
    assert(tall@.take(tall.len() as int) =~= tall@);
    assert(contents@.take(contents.len() as int) =~= contents@);
    n
}

// ---------------------------------------------------------------------------
// Element paths
// ---------------------------------------------------------------------------

/// The path of the list of detail blocks of a firm's page.
pub open spec fn details_path() -> Seq<char> {
    "//body/div/div/div/div/div/div[last()]/div[last()]/div/div/div/div/div[last()]/div[last()]/div/div/div/div/div/div/div[last()]/div[2]/div[1]"@
}

/// The path of the `n`-th detail block followed by `rest`.
pub open spec fn detail_path(n: nat, rest: Seq<char>) -> Seq<char> {
    details_path() + "/div["@ + decimal(n) + "]"@ + rest
}

fn detail_path_exec(n: usize, rest: &str) -> (r: String)
    ensures
        r@ == detail_path(n as nat, rest@),
{
    let mut v = chars_of("//body/div/div/div/div/div/div[last()]/div[last()]/div/div/div/div/div[last()]/div[last()]/div/div/div/div/div/div/div[last()]/div[2]/div[1]");
    push_str(&mut v, "/div[");
    push_decimal(&mut v, n as u64);
    push_str(&mut v, "]");
    push_str(&mut v, rest);
    string_from(&v)
}

/// The path of the rows of contact block `n`, which the info crawler counts.
pub fn contact_rows_path(n: usize) -> (r: String)
    ensures
        r@ == detail_path(n as nat, "/div/div"@),
{
    detail_path_exec(n, "/div/div")
}

/// Where the info crawler reads a firm's address, phone and site.
#[derive(Debug, PartialEq, Eq)]
pub struct ContactPaths {
    pub address: String,
    pub phone: String,
    pub site: String,
}

/// The paths of a firm's address, phone and site within contact block `n`.
/// A page that asks whether the visitor has used the firm's services shifts
/// them by one row; without a phone button the phone is the last row; with
/// at most three rows the site is the last row.
pub open spec fn contact_paths_spec(n: nat, extra: Seq<char>, rows: nat) -> (Seq<char>, Seq<char>, Seq<char>) {
    let asked = has_substring(extra, "Уже воспользовались услугами?"@);
    let address = if asked {
        detail_path(n, "/div/div[2]/div/div[1]/div[2]/div[1]"@)
    } else {
        detail_path(n, "/div/div[1]/div/div[1]"@)
    };
    let phone = if !(has_substring(extra, "Показать телефон"@) || has_substring(extra, "Показать телефоны"@)) {
        detail_path(n, "/div/div[last()]"@)
    } else if asked {
        detail_path(n, "/div/div[4]/div[last()]/div/a"@)
    } else {
        detail_path(n, "/div/div[3]/div[last()]/div/a"@)
    };
    let site = if rows <= 3 {
        detail_path(n, "/div/div[last()]"@)
    } else if asked {
        detail_path(n, "/div/div[5]"@)
    } else {
        detail_path(n, "/div/div[4]"@)
    };
    (address, phone, site)
}

pub fn contact_paths(n: usize, extra: &str, rows: usize) -> (r: ContactPaths)
    ensures
        (r.address@, r.phone@, r.site@) == contact_paths_spec(n as nat, extra@, rows as nat),
{
    let asked = contains_text(extra, "Уже воспользовались услугами?");
    let has_phone = contains_text(extra, "Показать телефон") || contains_text(extra, "Показать телефоны");
    let address = if asked {
        detail_path_exec(n, "/div/div[2]/div/div[1]/div[2]/div[1]")
    } else {
        detail_path_exec(n, "/div/div[1]/div/div[1]")
    };
    let phone = if !has_phone {
        detail_path_exec(n, "/div/div[last()]")
    } else if asked {
        detail_path_exec(n, "/div/div[4]/div[last()]/div/a")
    } else {
        detail_path_exec(n, "/div/div[3]/div[last()]/div/a")
    };
    let site = if rows <= 3 {
        detail_path_exec(n, "/div/div[last()]")
    } else if asked {
        detail_path_exec(n, "/div/div[5]")
    } else {
        detail_path_exec(n, "/div/div[4]")
    };
    ContactPaths { address, phone, site }
}

/// The path of block `n` of a firm's info tab, where its description is read.
pub fn description_path(n: usize) -> (r: String)
    ensures
        r@ == details_path() + "/div/div/div["@ + decimal(n as nat) + "]"@,
{
    let mut v = chars_of("//body/div/div/div/div/div/div[last()]/div[last()]/div/div/div/div/div[last()]/div[last()]/div/div/div/div/div/div/div[last()]/div[2]/div[1]");
    push_str(&mut v, "/div/div/div[");
    push_decimal(&mut v, n as u64);
    push_str(&mut v, "]");
    string_from(&v)
}

/// The path of the name of search result `i` (counted from 0).
pub fn search_result_name_path(i: usize) -> (r: String)
    requires
        i < usize::MAX,
    ensures
        r@ == "//*[@id='root']/div/div/div[1]/div[1]/div[3]/div[1]/div/div[2]/div/div/div/div[2]/div[2]/div[1]/div/div/div/div[2]/div/div["@
            + decimal((i + 1) as nat) + "]/div/div[1]/a/span/span[1]"@,
{
    numbered_text(
        "//*[@id='root']/div/div/div[1]/div[1]/div[3]/div[1]/div/div[2]/div/div/div/div[2]/div[2]/div[1]/div/div/div/div[2]/div/div[",
        (i + 1) as u64,
        "]/div/div[1]/a/span/span[1]",
    )
}

/// The path of the link of search result `i` (counted from 0).
pub fn search_result_link_path(i: usize) -> (r: String)
    requires
        i < usize::MAX,
    ensures
        r@ == "//*[@id='root']/div/div/div[1]/div[1]/div[3]/div/div/div[2]/div/div/div/div[2]/div[2]/div[1]/div/div/div/div[2]/div/div["@
            + decimal((i + 1) as nat) + "]/div/div/a"@,
{
    numbered_text(
        "//*[@id='root']/div/div/div[1]/div[1]/div[3]/div/div/div[2]/div/div/div/div[2]/div[2]/div[1]/div/div/div/div[2]/div/div[",
        (i + 1) as u64,
        "]/div/div/a",
    )
}

/// The path of the reviews list of a firm's reviews tab.
pub open spec fn reviews_path() -> Seq<char> {
    "//*[@id='root']/div/div/div[1]/div[1]/div[3]/div[2]/div/div/div/div/div[2]/div[2]/div/div[1]/div/div/div/div/div[2]/div[2]/div["@
}

/// Where the reviews crawler reads review `count` (counted from 1).
#[derive(Debug, PartialEq, Eq)]
pub struct ReviewPaths {
    pub author: String,
    pub date: String,
    pub text: String,
    pub rating: String,
}

pub fn review_paths(count: usize) -> (r: ReviewPaths)
    ensures
        r.author@ == reviews_path() + decimal(count as nat) + "]/div[1]/div/div[1]/div[2]/span/span[1]/span"@,
        r.date@ == reviews_path() + decimal(count as nat) + "]/div[1]/div/div[1]/div[2]/div"@,
        r.text@ == reviews_path() + decimal(count as nat) + "]/div[3]/div[1]/a"@,
        r.rating@ == reviews_path() + decimal(count as nat) + "]/div[1]/div/div[2]/div/div[1]/span"@,
{
    let prefix = "//*[@id='root']/div/div/div[1]/div[1]/div[3]/div[2]/div/div/div/div/div[2]/div[2]/div/div[1]/div/div/div/div/div[2]/div[2]/div[";
    ReviewPaths {
        author: numbered_text(prefix, count as u64, "]/div[1]/div/div[1]/div[2]/span/span[1]/span"),
        date: numbered_text(prefix, count as u64, "]/div[1]/div/div[1]/div[2]/div"),
        text: numbered_text(prefix, count as u64, "]/div[3]/div[1]/a"),
        rating: numbered_text(prefix, count as u64, "]/div[1]/div/div[2]/div/div[1]/span"),
    }
}

/// A path to look for first, and one to look for when it finds nothing.
#[derive(Debug, PartialEq, Eq)]
pub struct PathPair {
    pub primary: String,
    pub fallback: String,
}

/// The paths of the name and of the value of price category `count`
/// (counted from 1).
pub fn price_category_paths(count: usize) -> (r: (PathPair, PathPair))
    ensures
        r.0.primary@ == "//div[contains(@class, \"_19i46pu\")]["@ + decimal(count as nat) + "]/div[1]"@,
        r.0.fallback@ == "//div[contains(@class, \"_19i46pu\")]["@ + decimal(count as nat) + "]/div"@,
        r.1.primary@ == "//div[contains(@class, \"_19i46pu\")]["@ + decimal(count as nat) + "]/div[2]"@,
        r.1.fallback@ == "//div[contains(@class, \"_19i46pu\")]["@ + decimal(count as nat) + "]/div[last()]"@,
{
    let prefix = "//div[contains(@class, \"_19i46pu\")][";
    (
        PathPair {
            primary: numbered_text(prefix, count as u64, "]/div[1]"),
            fallback: numbered_text(prefix, count as u64, "]/div"),
        },
        PathPair {
            primary: numbered_text(prefix, count as u64, "]/div[2]"),
            fallback: numbered_text(prefix, count as u64, "]/div[last()]"),
        },
    )
}

/// The paths of the name and of the value of price item `i` (counted
/// from 1).
pub fn price_item_paths(i: i32) -> (r: (PathPair, PathPair))
    ensures
        r.0.primary@ == "//div[contains(@class, \"_1q7u1a2\")]["@ + signed_decimal(i as int) + "]/div[1]"@,
        r.0.fallback@ == "//div[contains(@class, \"_1q7u1a2\")]["@ + signed_decimal(i as int) + "]/div"@,
        r.1.primary@ == "//div[contains(@class, \"_1q7u1a2\")]["@ + signed_decimal(i as int) + "]/div[2]"@,
        r.1.fallback@ == "//div[contains(@class, \"_1q7u1a2\")]["@ + signed_decimal(i as int) + "]/div[last()]"@,
{
    let n = format_i32(i);
    let prefix = "//div[contains(@class, \"_1q7u1a2\")][";
    (
        PathPair {
            primary: concat3(prefix, n.as_str(), "]/div[1]"),
            fallback: concat3(prefix, n.as_str(), "]/div"),
        },
        PathPair {
            primary: concat3(prefix, n.as_str(), "]/div[2]"),
            fallback: concat3(prefix, n.as_str(), "]/div[last()]"),
        },
    )
}

fn concat3(a: &str, b: &str, c: &str) -> (r: String)
    ensures
        r@ == a@ + b@ + c@,
{
    let mut v = chars_of(a);
    push_str(&mut v, b);
    push_str(&mut v, c);
    string_from(&v)
}


// ---------------------------------------------------------------------------
// Reading a price list
// ---------------------------------------------------------------------------

/// Where the prices crawler stands in a firm's price list: the number of
/// the next item to read (counted from 1), and the number of the last item
/// that it reads for the current category.
/// A price category read from a firm's prices tab, under a fresh random
/// identifier, as the prices crawler stores it.
pub fn crawled_price_category(firm_id: u128, name: &str, value: &str) -> (r: PriceCategory)
    ensures
        is_random_id(r.price_category_id),
        r.firm_id == firm_id,
        r.name matches Some(n) && n@ == name@,
        r.value matches Some(v) && v@ == value@,
{
    PriceCategory {
        price_category_id: new_random_id(),
        firm_id,
        name: Some(string_from(&chars_of(name))),
        value: Some(string_from(&chars_of(value))),
    }
}

#[derive(Debug, Clone, Copy, PartialEq, Eq)]
pub struct PricePlan {
    pub total_count: i32,
    pub items_by_category: i32,
}

/// The items of one category that the crawler reads: `first` to `last`,
/// both included; none when `first > last`.
#[derive(Debug, Clone, Copy, PartialEq, Eq)]
pub struct ItemRange {
    pub first: i32,
    pub last: i32,
}

/// The plan before the first category.
pub open spec fn initial_plan() -> PricePlan {
    PricePlan { total_count: 1, items_by_category: 0 }
}

pub fn price_plan_start() -> (p: PricePlan)
    ensures
        p == initial_plan(),
{
    PricePlan { total_count: 1, items_by_category: 0 }
}

/// The number of items that a category's value text announces; 0 when it
/// is not a number.
pub open spec fn category_items(value: Seq<char>) -> int {
    match parse_i32_spec(value) {
        Some(v) => v as int,
        None => 0,
    }
}

/// One category of a price list, at index `index` of the category blocks
/// and with value text `value`, read when the list holds at most `limit`
/// items. The first category sets the last item to read to its own count;
/// the items `total_count` to that last one, up to `limit`, are read; then
/// the next item moves on by the category's count, and the last item to
/// read moves on by one less. `None` where that arithmetic leaves `i32`.
pub open spec fn price_category_step_spec(plan: PricePlan, index: nat, value: Seq<char>, limit: i32)
    -> Option<(PricePlan, ItemRange)>
{
    let v = category_items(value);
    let items = if index == 0 { v } else { plan.items_by_category as int };
    let last = if items < limit { items } else { limit as int };
    let total = plan.total_count + v;
    let next_items = items + (v - 1);
    if i32::MIN <= total <= i32::MAX && i32::MIN <= v - 1 && i32::MIN <= next_items <= i32::MAX {
        Some((
            PricePlan { total_count: total as i32, items_by_category: next_items as i32 },
            ItemRange { first: plan.total_count, last: last as i32 },
        ))
    } else {
        None
    }
}

pub fn price_category_step(plan: &PricePlan, index: usize, value: &str, limit: i32) -> (r: Option<(PricePlan, ItemRange)>)
    ensures
        r == price_category_step_spec(*plan, index as nat, value@, limit),
{
    let v: i32 = match parse_i32(value) {
        Some(x) => x,
        None => 0,
    };
    let items: i32 = if index == 0 { v } else { plan.items_by_category };
    let last: i32 = if items < limit { items } else { limit };
    let total = match plan.total_count.checked_add(v) {
        Some(t) => t,
        None => return None,
    };
    let less = match v.checked_sub(1) {
        Some(d) => d,
        None => return None,
    };
    let next_items = match items.checked_add(less) {
        Some(n) => n,
        None => return None,
    };
    Some((
        PricePlan { total_count: total, items_by_category: next_items },
        ItemRange { first: plan.total_count, last },
    ))
}


/// The plan after reading, in order, the categories with the given block
/// indices and value texts; `None` once a step leaves `i32`.
pub open spec fn plan_after(steps: Seq<(nat, Seq<char>)>, limit: i32) -> Option<PricePlan>
    decreases steps.len(),
{
    if steps.len() == 0 {
        Some(initial_plan())
    } else {
        match plan_after(steps.drop_last(), limit) {
            Some(p) => match price_category_step_spec(p, steps.last().0, steps.last().1, limit) {
                Some((q, _)) => Some(q),
                None => None,
            },
            None => None,
        }
    }
}

/// The sum of the item counts that the given categories announce.
pub open spec fn announced_items(steps: Seq<(nat, Seq<char>)>) -> int
    decreases steps.len(),
{
    if steps.len() == 0 {
        0
    } else {
        announced_items(steps.drop_last()) + category_items(steps.last().1)
    }
}

/// After any categories of a price list, the next item to read is the one
/// after all the items that those categories announced.
pub proof fn lemma_next_item_follows_announced(steps: Seq<(nat, Seq<char>)>, limit: i32)
    ensures
        plan_after(steps, limit) matches Some(p) ==> p.total_count == 1 + announced_items(steps),
    decreases steps.len(),
{
    if steps.len() > 0 {
        lemma_next_item_follows_announced(steps.drop_last(), limit);
    }
}

/// The items of the first category of the page, when the walk read it
/// (its index is 0); none otherwise.
pub open spec fn first_category_items(steps: Seq<(nat, Seq<char>)>) -> int {
    if steps.len() > 0 && steps[0].0 == 0 { category_items(steps[0].1) } else { 0 }
}

/// The sum, over the categories read, of their announced items less one.
pub open spec fn shrunk_items(steps: Seq<(nat, Seq<char>)>) -> int
    decreases steps.len(),
{
    if steps.len() == 0 {
        0
    } else {
        shrunk_items(steps.drop_last()) + category_items(steps.last().1) - 1
    }
}

/// The items read for the `k`-th category of a walk, stated directly: from
/// the one after all the items that the earlier categories announce, up to
/// the items of the page's first category plus, for each earlier category,
/// its items less one, but no further than `limit`.
pub open spec fn walk_range(steps: Seq<(nat, Seq<char>)>, k: int, limit: i32) -> (int, int) {
    let upto = first_category_items(steps) + shrunk_items(steps.take(k));
    (1 + announced_items(steps.take(k)), if upto < limit { upto } else { limit as int })
}

/// What the plan counts as the size of the categories after the first `k`
/// of a walk in which only the first category read may be the page's first.
proof fn lemma_items_after(steps: Seq<(nat, Seq<char>)>, k: int, limit: i32)
    requires
        0 <= k <= steps.len(),
        forall|i: int| 0 < i < steps.len() ==> (#[trigger] steps[i]).0 != 0,
    ensures
        plan_after(steps.take(k), limit) matches Some(p) ==> p.items_by_category == (if k == 0 {
            0
        } else {
            first_category_items(steps) + shrunk_items(steps.take(k))
        }),
    decreases k,
{
    if k == 0 {
        assert(steps.take(0) =~= Seq::<(nat, Seq<char>)>::empty());
    } else {
        lemma_items_after(steps, k - 1, limit);
        let prev = steps.take(k - 1);
        let cur = steps.take(k);
        assert(cur.drop_last() =~= prev);
        assert(cur.last() == steps[k - 1]);
        assert(shrunk_items(cur) == shrunk_items(prev) + category_items(steps[k - 1].1) - 1);
        if k == 1 {
            assert(prev =~= Seq::<(nat, Seq<char>)>::empty());
            assert(shrunk_items(prev) == 0);
        }
        match plan_after(prev, limit) {
            Some(p) => {
                assert(plan_after(cur, limit) == match price_category_step_spec(p, steps[k - 1].0, steps[k - 1].1, limit) {
                    Some((q, _)) => Some(q),
                    None => None,
                });
            },
            None => {
                assert(plan_after(cur, limit) is None);
            },
        }
    }
}

/// The items the prices crawler reads for each category are those that
/// `walk_range` states, in a walk in which only the first category read may
/// be the page's first (category indices only grow).
pub proof fn lemma_walk_reads_stated_ranges(steps: Seq<(nat, Seq<char>)>, k: int, limit: i32)
    requires
        0 <= k < steps.len(),
        forall|i: int| 0 < i < steps.len() ==> (#[trigger] steps[i]).0 != 0,
    ensures
        plan_after(steps.take(k), limit) matches Some(p) ==> (
            price_category_step_spec(p, steps[k].0, steps[k].1, limit) matches Some((_, r)) ==> (
                r.first == walk_range(steps, k, limit).0 && r.last == walk_range(steps, k, limit).1)),
{
    lemma_items_after(steps, k, limit);
    lemma_next_item_follows_announced(steps.take(k), limit);
    if k == 0 {
        assert(steps.take(0) =~= Seq::<(nat, Seq<char>)>::empty());
    }
}

} // verus!
