//! Laws of the crawlers' decisions, stated over the texts the map
//! service's pages show: which markers make a crawler pass a card, a page
//! or a block over, which block holds a firm's contacts or description,
//! where its address, phone and site are read, and what each check on a
//! visited firm decides.

use vstd::prelude::*;
use crate::crawl::{
    closed_firm_markers, contact_block_markers, contact_block_number_spec, contact_paths_spec,
    description_block_number_spec, detail_path, no_price_list_markers, no_reviews_markers,
    non_address_markers, non_description_markers, non_review_markers, promoted_card_markers,
    shows_any,
};
use crate::crawl::{coords_from_link_spec, firm_address_spec, firm_id_from_link_spec};
use crate::processing::review_excerpt_spec;
use crate::progress::FirmOutcome;
use crate::text::{
    before_first, decimal, find_from, has_substring, lemma_find_from, lemma_find_has_substring,
    lemma_replace_single, matches_at, replace_all, second_segment,
};
use crate::visits::{passed_over_as, passes_over, visit_checks, Check, Crawl, Observation};

verus! {

// ---------------------------------------------------------------------------
// Markers
// ---------------------------------------------------------------------------

/// A search result is passed over as an advertisement or an outside link exactly when its markup holds one of `_h2n9mw`, `_2p5l74`, `↗`.
pub proof fn lemma_promoted_card_markers(s: Seq<char>)
    ensures
        shows_any(s, promoted_card_markers()) <==> (
            has_substring(s, "_h2n9mw"@)
            || has_substring(s, "_2p5l74"@)
            || has_substring(s, "↗"@)
        ),
{
    let m = promoted_card_markers();
    assert(m.len() == 3);
    assert(m[0] == "_h2n9mw" && m[1] == "_2p5l74" && m[2] == "↗");
    if has_substring(s, "_h2n9mw"@) {
        assert(has_substring(s, m[0]@));
    }
    if has_substring(s, "_2p5l74"@) {
        assert(has_substring(s, m[1]@));
    }
    if has_substring(s, "↗"@) {
        assert(has_substring(s, m[2]@));
    }
    if shows_any(s, m) {
        let i = choose|i: int| 0 <= i < m.len() && has_substring(s, #[trigger] m[i]@);
        if i == 0 {
        } else if i == 1 {
        } else {
        }
    }
}

/// A firm's page says it is closed or not yet open exactly when it holds one of `Филиал удалён из справочника`, `Филиал временно не работает`, `Скоро открытие`.
pub proof fn lemma_closed_firm_markers(s: Seq<char>)
    ensures
        shows_any(s, closed_firm_markers()) <==> (
            has_substring(s, "Филиал удалён из справочника"@)
            || has_substring(s, "Филиал временно не работает"@)
            || has_substring(s, "Скоро открытие"@)
        ),
{
    let m = closed_firm_markers();
    assert(m.len() == 3);
    assert(m[0] == "Филиал удалён из справочника" && m[1] == "Филиал временно не работает" && m[2] == "Скоро открытие");
    if has_substring(s, "Филиал удалён из справочника"@) {
        assert(has_substring(s, m[0]@));
    }
    if has_substring(s, "Филиал временно не работает"@) {
        assert(has_substring(s, m[1]@));
    }
    if has_substring(s, "Скоро открытие"@) {
        assert(has_substring(s, m[2]@));
    }
    if shows_any(s, m) {
        let i = choose|i: int| 0 <= i < m.len() && has_substring(s, #[trigger] m[i]@);
        if i == 0 {
        } else if i == 1 {
        } else {
        }
    }
}

/// A reviews tab has no reviews to read exactly when it holds one of `Нет отзывов`, `Филиал удалён из справочника`, `Филиал временно не работает`, `Скоро открытие`.
pub proof fn lemma_no_reviews_markers(s: Seq<char>)
    ensures
        shows_any(s, no_reviews_markers()) <==> (
            has_substring(s, "Нет отзывов"@)
            || has_substring(s, "Филиал удалён из справочника"@)
            || has_substring(s, "Филиал временно не работает"@)
            || has_substring(s, "Скоро открытие"@)
        ),
{
    let m = no_reviews_markers();
    assert(m.len() == 4);
    assert(m[0] == "Нет отзывов" && m[1] == "Филиал удалён из справочника" && m[2] == "Филиал временно не работает" && m[3] == "Скоро открытие");
    if has_substring(s, "Нет отзывов"@) {
        assert(has_substring(s, m[0]@));
    }
    if has_substring(s, "Филиал удалён из справочника"@) {
        assert(has_substring(s, m[1]@));
    }
    if has_substring(s, "Филиал временно не работает"@) {
        assert(has_substring(s, m[2]@));
    }
    if has_substring(s, "Скоро открытие"@) {
        assert(has_substring(s, m[3]@));
    }
    if shows_any(s, m) {
        let i = choose|i: int| 0 <= i < m.len() && has_substring(s, #[trigger] m[i]@);
        if i == 0 {
        } else if i == 1 {
        } else if i == 2 {
        } else {
        }
    }
}

/// A block of the reviews tab is something other than a review exactly when it holds one of `Неподтвержденные отзывы`, `Все отзывы`, `Загрузить ещё`, `официальный ответ`, `С ответами`, `Люди говорят`, `Оцените и оставьте отзыв`, `оценки`, `оценок`, `оценка`, `ответ`, `/5`.
pub proof fn lemma_non_review_markers(s: Seq<char>)
    ensures
        shows_any(s, non_review_markers()) <==> (
            has_substring(s, "Неподтвержденные отзывы"@)
            || has_substring(s, "Все отзывы"@)
            || has_substring(s, "Загрузить ещё"@)
            || has_substring(s, "официальный ответ"@)
            || has_substring(s, "С ответами"@)
            || has_substring(s, "Люди говорят"@)
            || has_substring(s, "Оцените и оставьте отзыв"@)
            || has_substring(s, "оценки"@)
            || has_substring(s, "оценок"@)
            || has_substring(s, "оценка"@)
            || has_substring(s, "ответ"@)
            || has_substring(s, "/5"@)
        ),
{
    let m = non_review_markers();
    assert(m.len() == 12);
    assert(m[0] == "Неподтвержденные отзывы" && m[1] == "Все отзывы" && m[2] == "Загрузить ещё" && m[3] == "официальный ответ" && m[4] == "С ответами" && m[5] == "Люди говорят" && m[6] == "Оцените и оставьте отзыв" && m[7] == "оценки" && m[8] == "оценок" && m[9] == "оценка" && m[10] == "ответ" && m[11] == "/5");
    if has_substring(s, "Неподтвержденные отзывы"@) {
        assert(has_substring(s, m[0]@));
    }
    if has_substring(s, "Все отзывы"@) {
        assert(has_substring(s, m[1]@));
    }
    if has_substring(s, "Загрузить ещё"@) {
        assert(has_substring(s, m[2]@));
    }
    if has_substring(s, "официальный ответ"@) {
        assert(has_substring(s, m[3]@));
    }
    if has_substring(s, "С ответами"@) {
        assert(has_substring(s, m[4]@));
    }
    if has_substring(s, "Люди говорят"@) {
        assert(has_substring(s, m[5]@));
    }
    if has_substring(s, "Оцените и оставьте отзыв"@) {
        assert(has_substring(s, m[6]@));
    }
    if has_substring(s, "оценки"@) {
        assert(has_substring(s, m[7]@));
    }
    if has_substring(s, "оценок"@) {
        assert(has_substring(s, m[8]@));
    }
    if has_substring(s, "оценка"@) {
        assert(has_substring(s, m[9]@));
    }
    if has_substring(s, "ответ"@) {
        assert(has_substring(s, m[10]@));
    }
    if has_substring(s, "/5"@) {
        assert(has_substring(s, m[11]@));
    }
    if shows_any(s, m) {
        let i = choose|i: int| 0 <= i < m.len() && has_substring(s, #[trigger] m[i]@);
        if i == 0 {
        } else if i == 1 {
        } else if i == 2 {
        } else if i == 3 {
        } else if i == 4 {
        } else if i == 5 {
        } else if i == 6 {
        } else if i == 7 {
        } else if i == 8 {
        } else if i == 9 {
        } else if i == 10 {
        } else {
        }
    }
}

/// A prices tab has no price list of the firm's own exactly when it holds one of `Филиал удалён из справочника`, `Филиал временно не работает`, `Посмотреть на сайте`, `Добавьте сюда фотографий!`, `_14quei`, `_1e8kkm3`, `_1nkoou7`.
pub proof fn lemma_no_price_list_markers(s: Seq<char>)
    ensures
        shows_any(s, no_price_list_markers()) <==> (
            has_substring(s, "Филиал удалён из справочника"@)
            || has_substring(s, "Филиал временно не работает"@)
            || has_substring(s, "Посмотреть на сайте"@)
            || has_substring(s, "Добавьте сюда фотографий!"@)
            || has_substring(s, "_14quei"@)
            || has_substring(s, "_1e8kkm3"@)
            || has_substring(s, "_1nkoou7"@)
        ),
{
    let m = no_price_list_markers();
    assert(m.len() == 7);
    assert(m[0] == "Филиал удалён из справочника" && m[1] == "Филиал временно не работает" && m[2] == "Посмотреть на сайте" && m[3] == "Добавьте сюда фотографий!" && m[4] == "_14quei" && m[5] == "_1e8kkm3" && m[6] == "_1nkoou7");
    if has_substring(s, "Филиал удалён из справочника"@) {
        assert(has_substring(s, m[0]@));
    }
    if has_substring(s, "Филиал временно не работает"@) {
        assert(has_substring(s, m[1]@));
    }
    if has_substring(s, "Посмотреть на сайте"@) {
        assert(has_substring(s, m[2]@));
    }
    if has_substring(s, "Добавьте сюда фотографий!"@) {
        assert(has_substring(s, m[3]@));
    }
    if has_substring(s, "_14quei"@) {
        assert(has_substring(s, m[4]@));
    }
    if has_substring(s, "_1e8kkm3"@) {
        assert(has_substring(s, m[5]@));
    }
    if has_substring(s, "_1nkoou7"@) {
        assert(has_substring(s, m[6]@));
    }
    if shows_any(s, m) {
        let i = choose|i: int| 0 <= i < m.len() && has_substring(s, #[trigger] m[i]@);
        if i == 0 {
        } else if i == 1 {
        } else if i == 2 {
        } else if i == 3 {
        } else if i == 4 {
        } else if i == 5 {
        } else {
        }
    }
}

/// A block of a firm's page is not its address exactly when it holds one of `Оформить`, `↗`, `Инфо`, `Отзывы`, `Меню`, `Фото`.
pub proof fn lemma_non_address_markers(s: Seq<char>)
    ensures
        shows_any(s, non_address_markers()) <==> (
            has_substring(s, "Оформить"@)
            || has_substring(s, "↗"@)
            || has_substring(s, "Инфо"@)
            || has_substring(s, "Отзывы"@)
            || has_substring(s, "Меню"@)
            || has_substring(s, "Фото"@)
        ),
{
    let m = non_address_markers();
    assert(m.len() == 6);
    assert(m[0] == "Оформить" && m[1] == "↗" && m[2] == "Инфо" && m[3] == "Отзывы" && m[4] == "Меню" && m[5] == "Фото");
    if has_substring(s, "Оформить"@) {
        assert(has_substring(s, m[0]@));
    }
    if has_substring(s, "↗"@) {
        assert(has_substring(s, m[1]@));
    }
    if has_substring(s, "Инфо"@) {
        assert(has_substring(s, m[2]@));
    }
    if has_substring(s, "Отзывы"@) {
        assert(has_substring(s, m[3]@));
    }
    if has_substring(s, "Меню"@) {
        assert(has_substring(s, m[4]@));
    }
    if has_substring(s, "Фото"@) {
        assert(has_substring(s, m[5]@));
    }
    if shows_any(s, m) {
        let i = choose|i: int| 0 <= i < m.len() && has_substring(s, #[trigger] m[i]@);
        if i == 0 {
        } else if i == 1 {
        } else if i == 2 {
        } else if i == 3 {
        } else if i == 4 {
        } else {
        }
    }
}

/// A block of a firm's page shows the marks of the contact block (a way in, a place on the map) exactly when it holds one of `Показать вход`, `Показать на карте`.
pub proof fn lemma_contact_block_markers(s: Seq<char>)
    ensures
        shows_any(s, contact_block_markers()) <==> (
            has_substring(s, "Показать вход"@)
            || has_substring(s, "Показать на карте"@)
        ),
{
    let m = contact_block_markers();
    assert(m.len() == 2);
    assert(m[0] == "Показать вход" && m[1] == "Показать на карте");
    if has_substring(s, "Показать вход"@) {
        assert(has_substring(s, m[0]@));
    }
    if has_substring(s, "Показать на карте"@) {
        assert(has_substring(s, m[1]@));
    }
    if shows_any(s, m) {
        let i = choose|i: int| 0 <= i < m.len() && has_substring(s, #[trigger] m[i]@);
        if i == 0 {
        } else {
        }
    }
}

/// A block of a firm's info tab is not its description exactly when it holds one of `Авторемонт`, `Продажа легковых автомобилей`, `Кузовной ремонт`, `Автозапчасти и аксессуары`, `Марки легковых запчастей`, `Ремонт ходовой части автомобиля`, `Способы оплаты`, `В справочнике`, `Рядом`, `Транспорт`.
pub proof fn lemma_non_description_markers(s: Seq<char>)
    ensures
        shows_any(s, non_description_markers()) <==> (
            has_substring(s, "Авторемонт"@)
            || has_substring(s, "Продажа легковых автомобилей"@)
            || has_substring(s, "Кузовной ремонт"@)
            || has_substring(s, "Автозапчасти и аксессуары"@)
            || has_substring(s, "Марки легковых запчастей"@)
            || has_substring(s, "Ремонт ходовой части автомобиля"@)
            || has_substring(s, "Способы оплаты"@)
            || has_substring(s, "В справочнике"@)
            || has_substring(s, "Рядом"@)
            || has_substring(s, "Транспорт"@)
        ),
{
    let m = non_description_markers();
    assert(m.len() == 10);
    assert(m[0] == "Авторемонт" && m[1] == "Продажа легковых автомобилей" && m[2] == "Кузовной ремонт" && m[3] == "Автозапчасти и аксессуары" && m[4] == "Марки легковых запчастей" && m[5] == "Ремонт ходовой части автомобиля" && m[6] == "Способы оплаты" && m[7] == "В справочнике" && m[8] == "Рядом" && m[9] == "Транспорт");
    if has_substring(s, "Авторемонт"@) {
        assert(has_substring(s, m[0]@));
    }
    if has_substring(s, "Продажа легковых автомобилей"@) {
        assert(has_substring(s, m[1]@));
    }
    if has_substring(s, "Кузовной ремонт"@) {
        assert(has_substring(s, m[2]@));
    }
    if has_substring(s, "Автозапчасти и аксессуары"@) {
        assert(has_substring(s, m[3]@));
    }
    if has_substring(s, "Марки легковых запчастей"@) {
        assert(has_substring(s, m[4]@));
    }
    if has_substring(s, "Ремонт ходовой части автомобиля"@) {
        assert(has_substring(s, m[5]@));
    }
    if has_substring(s, "Способы оплаты"@) {
        assert(has_substring(s, m[6]@));
    }
    if has_substring(s, "В справочнике"@) {
        assert(has_substring(s, m[7]@));
    }
    if has_substring(s, "Рядом"@) {
        assert(has_substring(s, m[8]@));
    }
    if has_substring(s, "Транспорт"@) {
        assert(has_substring(s, m[9]@));
    }
    if shows_any(s, m) {
        let i = choose|i: int| 0 <= i < m.len() && has_substring(s, #[trigger] m[i]@);
        if i == 0 {
        } else if i == 1 {
        } else if i == 2 {
        } else if i == 3 {
        } else if i == 4 {
        } else if i == 5 {
        } else if i == 6 {
        } else if i == 7 {
        } else if i == 8 {
        } else {
        }
    }
}

// ---------------------------------------------------------------------------
// Blocks of a firm's page
// ---------------------------------------------------------------------------

/// Whether a block can be the description: as tall as the first block, and
/// showing none of the markers of other blocks.
pub open spec fn describes(tall: Seq<bool>, contents: Seq<String>, k: int) -> bool {
    tall[k] && !shows_any(contents[k]@, non_description_markers())
}

/// The description block is the last block that can be one (counted from
/// 1), and the first block when none can: every block that can be one lies
/// at or before it, and a block other than the first is chosen only when it
/// can be one.
pub proof fn lemma_description_block_is_the_last_candidate(tall: Seq<bool>, contents: Seq<String>)
    requires
        tall.len() == contents.len(),
    ensures
        1 <= description_block_number_spec(tall, contents),
        description_block_number_spec(tall, contents) <= contents.len() || description_block_number_spec(tall, contents) == 1,
        description_block_number_spec(tall, contents) > 1 ==> describes(tall, contents, description_block_number_spec(tall, contents) - 1),
        forall|k: int| 0 <= k < contents.len() && #[trigger] describes(tall, contents, k) ==> k < description_block_number_spec(tall, contents),
    decreases contents.len(),
{
    if contents.len() > 0 {
        let t = tall.drop_last();
        let c = contents.drop_last();
        lemma_description_block_is_the_last_candidate(t, c);
        assert forall|k: int| 0 <= k < c.len() implies (describes(t, c, k) == #[trigger] describes(tall, contents, k)) by {
            assert(t[k] == tall[k]);
            assert(c[k] == contents[k]);
        }
    }
}

/// A block that shows any of the markers of other blocks (a service list,
/// the payment methods, the directory, what is near, transport) is never
/// taken as a firm's description, unless it is the first block, which is
/// taken when no block can be the description.
pub proof fn lemma_marked_block_is_not_the_description(tall: Seq<bool>, contents: Seq<String>, k: int)
    requires
        tall.len() == contents.len(),
        1 <= k < contents.len(),
        has_substring(contents[k]@, "Авторемонт"@)
            || has_substring(contents[k]@, "Продажа легковых автомобилей"@)
            || has_substring(contents[k]@, "Кузовной ремонт"@)
            || has_substring(contents[k]@, "Автозапчасти и аксессуары"@)
            || has_substring(contents[k]@, "Марки легковых запчастей"@)
            || has_substring(contents[k]@, "Ремонт ходовой части автомобиля"@)
            || has_substring(contents[k]@, "Способы оплаты"@)
            || has_substring(contents[k]@, "В справочнике"@)
            || has_substring(contents[k]@, "Рядом"@)
            || has_substring(contents[k]@, "Транспорт"@),
    ensures
        description_block_number_spec(tall, contents) != k + 1,
{
    lemma_description_block_is_the_last_candidate(tall, contents);
    lemma_non_description_markers(contents[k]@);
}

/// Whether a block can be the contact block: as tall as the first block,
/// and showing a way in or a place on the map.
pub open spec fn holds_contacts(tall: Seq<bool>, contents: Seq<String>, k: int) -> bool {
    tall[k] && shows_any(contents[k]@, contact_block_markers())
}

/// The contact block is the last block that can be one (counted from 1),
/// and the first block when none can.
pub proof fn lemma_contact_block_is_the_last_candidate(tall: Seq<bool>, contents: Seq<String>)
    requires
        tall.len() == contents.len(),
    ensures
        1 <= contact_block_number_spec(tall, contents),
        contact_block_number_spec(tall, contents) <= contents.len() || contact_block_number_spec(tall, contents) == 1,
        contact_block_number_spec(tall, contents) > 1 ==> holds_contacts(tall, contents, contact_block_number_spec(tall, contents) - 1),
        forall|k: int| 0 <= k < contents.len() && #[trigger] holds_contacts(tall, contents, k) ==> k < contact_block_number_spec(tall, contents),
    decreases contents.len(),
{
    if contents.len() > 0 {
        let t = tall.drop_last();
        let c = contents.drop_last();
        lemma_contact_block_is_the_last_candidate(t, c);
        assert forall|k: int| 0 <= k < c.len() implies (holds_contacts(t, c, k) == #[trigger] holds_contacts(tall, contents, k)) by {
            assert(t[k] == tall[k]);
            assert(c[k] == contents[k]);
        }
    }
}

/// A block other than the first is taken as the contact block only when it
/// shows a way in or a place on the map.
pub proof fn lemma_contact_block_shows_the_way(tall: Seq<bool>, contents: Seq<String>)
    requires
        tall.len() == contents.len(),
    ensures
        ({
            let n = contact_block_number_spec(tall, contents);
            n > 1 ==> tall[n - 1] && (has_substring(contents[n - 1]@, "Показать вход"@)
                || has_substring(contents[n - 1]@, "Показать на карте"@))
        }),
{
    lemma_contact_block_is_the_last_candidate(tall, contents);
    let n = contact_block_number_spec(tall, contents);
    if n > 1 {
        lemma_contact_block_markers(contents[n - 1]@);
    }
}

// ---------------------------------------------------------------------------
// Where contacts are read
// ---------------------------------------------------------------------------

/// The path of a row of the `n`-th block of a firm's details.
pub proof fn lemma_detail_path(n: nat, rest: Seq<char>)
    ensures
        detail_path(n, rest) == "//body/div/div/div/div/div/div[last()]/div[last()]/div/div/div/div/div[last()]/div[last()]/div/div/div/div/div/div/div[last()]/div[2]/div[1]"@
            + "/div["@ + decimal(n) + "]"@ + rest,
{
}

/// Where the info crawler reads a firm's contacts in its contact block `n`:
/// - the phone is the last row whenever the page shows no phone button,
///   whatever else it asks; with a phone button it is the link of the
///   fourth row when the page asks whether the visitor used the services,
///   of the third otherwise;
/// - the site is the last row when the block has at most three rows;
///   otherwise the fifth row when the page asks, the fourth otherwise;
/// - the address is the first row, or, when the page asks, the second.
pub proof fn lemma_contact_paths(n: nat, extra: Seq<char>, rows: nat)
    ensures
        ({
            let (address, phone, site) = contact_paths_spec(n, extra, rows);
            let asked = has_substring(extra, "Уже воспользовались услугами?"@);
            let button = has_substring(extra, "Показать телефон"@) || has_substring(extra, "Показать телефоны"@);
            &&& !button ==> phone == detail_path(n, "/div/div[last()]"@)
            &&& button && asked ==> phone == detail_path(n, "/div/div[4]/div[last()]/div/a"@)
            &&& button && !asked ==> phone == detail_path(n, "/div/div[3]/div[last()]/div/a"@)
            &&& rows <= 3 ==> site == detail_path(n, "/div/div[last()]"@)
            &&& rows > 3 && asked ==> site == detail_path(n, "/div/div[5]"@)
            &&& rows > 3 && !asked ==> site == detail_path(n, "/div/div[4]"@)
            &&& asked ==> address == detail_path(n, "/div/div[2]/div/div[1]/div[2]/div[1]"@)
            &&& !asked ==> address == detail_path(n, "/div/div[1]/div/div[1]"@)
        }),
{
}

/// Without a phone button, where the phone is read does not depend on
/// anything else the page shows or on the rows of the block.
pub proof fn lemma_phone_without_button(n: nat, extra1: Seq<char>, extra2: Seq<char>, rows1: nat, rows2: nat)
    requires
        !has_substring(extra1, "Показать телефон"@),
        !has_substring(extra1, "Показать телефоны"@),
        !has_substring(extra2, "Показать телефон"@),
        !has_substring(extra2, "Показать телефоны"@),
    ensures
        contact_paths_spec(n, extra1, rows1).1 == contact_paths_spec(n, extra2, rows2).1,
{
    lemma_contact_paths(n, extra1, rows1);
    lemma_contact_paths(n, extra2, rows2);
}

// ---------------------------------------------------------------------------
// Checks on a visited firm
// ---------------------------------------------------------------------------

/// What each check decides from what the crawler saw: a firm found stored
/// is passed over as already stored; one whose prices tab shows any other
/// catalogue or any advertisement, or whose tab shows a count of zero, or
/// whose generated review came back empty, is skipped; a missing answer is
/// not an empty one.
pub proof fn lemma_check_decisions(stored: bool, other: usize, ads: usize, zero: bool, answer: Option<String>)
    ensures
        passes_over(Check::AlreadyStored, Observation::Stored(stored)) == stored,
        passed_over_as(Check::AlreadyStored) == FirmOutcome::AlreadyStored,
        passes_over(Check::OtherCatalogues, Observation::Counts(other, ads)) == (other > 0 || ads > 0),
        passed_over_as(Check::OtherCatalogues) == FirmOutcome::Skipped,
        passes_over(Check::NothingShown, Observation::ShownZero(zero)) == zero,
        passed_over_as(Check::NothingShown) == FirmOutcome::Skipped,
        passes_over(Check::EmptyAnswer, Observation::Answer(answer)) == (answer matches Some(t) && t@.len() == 0),
        passed_over_as(Check::EmptyAnswer) == FirmOutcome::Skipped,
{
}

/// The checks on what was read: a firm whose address blocks give no
/// address is skipped, one whose page had no address block is not (it
/// stores the empty address), and one with a street or a city on a single
/// line is not; a firm with fewer than two reviews is skipped for a
/// generated review, one with two or more is not.
pub proof fn lemma_read_checks(street: String, city: String, texts: Vec<Option<String>>)
    ensures
        !passes_over(Check::NoAddress, Observation::Address(None)),
        (street@.len() == 0 && city@.len() == 0) ==> passes_over(
            Check::NoAddress,
            Observation::Address(Some((street, city))),
        ),
        (!street@.contains('\n') && !city@.contains('\n') && (street@.len() > 0 || city@.len() > 0))
            ==> !passes_over(Check::NoAddress, Observation::Address(Some((street, city)))),
        passed_over_as(Check::NoAddress) == FirmOutcome::Skipped,
        passes_over(Check::TooFewReviews, Observation::Reviews(texts)) == (texts@.len() < 2),
        passed_over_as(Check::TooFewReviews) == FirmOutcome::Skipped,
{
    crate::service_laws::lemma_address_joins_street_and_city(street@, city@);
    crate::service_laws::lemma_excerpt_bounds(texts@);
}

/// The page checks decide by the markers of the page: a closed firm, a
/// reviews tab without reviews, a prices tab without a price list of the
/// firm's own are skipped.
pub proof fn lemma_page_checks(page: String)
    ensures
        passes_over(Check::ClosedFirm, Observation::Page(page)) == (
            has_substring(page@, "Филиал удалён из справочника"@)
            || has_substring(page@, "Филиал временно не работает"@)
            || has_substring(page@, "Скоро открытие"@)
        ),
        passes_over(Check::NoReviews, Observation::Page(page)) == (
            has_substring(page@, "Нет отзывов"@)
            || has_substring(page@, "Филиал удалён из справочника"@)
            || has_substring(page@, "Филиал временно не работает"@)
            || has_substring(page@, "Скоро открытие"@)
        ),
        passes_over(Check::NoPriceList, Observation::Page(page)) == (
            has_substring(page@, "Филиал удалён из справочника"@)
            || has_substring(page@, "Филиал временно не работает"@)
            || has_substring(page@, "Посмотреть на сайте"@)
            || has_substring(page@, "Добавьте сюда фотографий!"@)
            || has_substring(page@, "_14quei"@)
            || has_substring(page@, "_1e8kkm3"@)
            || has_substring(page@, "_1nkoou7"@)
        ),
        passed_over_as(Check::ClosedFirm) == FirmOutcome::Skipped,
        passed_over_as(Check::NoReviews) == FirmOutcome::Skipped,
        passed_over_as(Check::NoPriceList) == FirmOutcome::Skipped,
{
    lemma_closed_firm_markers(page@);
    lemma_no_reviews_markers(page@);
    lemma_no_price_list_markers(page@);
}

/// The crawls that can find a firm's data already stored check that first,
/// before they load any page; the prices crawl then checks for a price list
/// of the firm's own, for other catalogues and advertisements, and for a
/// count of zero, in that order; the reviews crawl for reviews and then for
/// a count of zero; the review generation for enough reviews and then for
/// an empty answer. The address, description and info crawls make one
/// check each.
pub proof fn lemma_visit_order()
    ensures
        visit_checks(Crawl::Prices) == seq![Check::AlreadyStored, Check::NoPriceList, Check::OtherCatalogues, Check::NothingShown],
        visit_checks(Crawl::Reviews) == seq![Check::AlreadyStored, Check::NoReviews, Check::NothingShown],
        visit_checks(Crawl::GeneratedReviews) == seq![Check::AlreadyStored, Check::TooFewReviews, Check::EmptyAnswer],
        visit_checks(Crawl::Addresses) == seq![Check::NoAddress],
        visit_checks(Crawl::Descriptions) == seq![Check::ClosedFirm],
        visit_checks(Crawl::Infos) == seq![Check::ClosedFirm],
{
}

// ---------------------------------------------------------------------------
// Identifiers and coordinates read from links
// ---------------------------------------------------------------------------

/// A link `/<city>/firm/<id>?<query>` gives the identifier `<id>`, when the
/// identifier holds no `?` and the rest of the link does not lead to a firm
/// of the city again.
pub proof fn lemma_firm_id_is_read_from_the_link(city: Seq<char>, id: Seq<char>, query: Seq<char>)
    requires
        !id.contains('?'),
        !has_substring(id + "?"@ + query, "/"@ + city + "/firm/"@),
    ensures
        firm_id_from_link_spec("/"@ + city + "/firm/"@ + id + "?"@ + query, city) == id,
{
    reveal_strlit("?");
    let target = "/"@ + city + "/firm/"@;
    let q = "?"@;
    assert(q =~= seq!['?']);
    let rest = id + q + query;
    let link = target + rest;
    assert(link =~= "/"@ + city + "/firm/"@ + id + "?"@ + query);
    assert(matches_at(link, target, 0)) by {
        assert(link.subrange(0, target.len() as int) =~= target);
    }
    lemma_find_has_substring(link, target);
    lemma_find_from(link, target, 0);
    let k = find_from(link, target, 0)->0;
    assert(k == 0);
    assert(link.skip(target.len() as int) =~= rest);
    lemma_find_has_substring(rest, target);
    assert(second_segment(link, target) == Some(rest));
    let n = id.len() as int;
    assert(matches_at(rest, q, n)) by {
        assert(rest.subrange(n, n + 1) =~= seq!['?']);
    }
    lemma_find_has_substring(rest, q);
    lemma_find_from(rest, q, 0);
    let j = find_from(rest, q, 0)->0;
    if j < n {
        assert(rest.subrange(j, j + 1)[0] == rest[j]);
        assert(rest[j] == id[j]);
        assert(id.contains('?'));
    }
    assert(j == n);
    assert(rest.take(n) =~= id);
}

/// In `<lon>%2C<lat>%3B<rest>` with numbers free of `%`, the text before
/// the first `%3B` is `<lon>%2C<lat>`.
proof fn lemma_text_before_the_end_of_the_point(lon: Seq<char>, lat: Seq<char>, rest: Seq<char>)
    requires
        !lon.contains('%'),
        !lat.contains('%'),
    ensures
        before_first(lon + "%2C"@ + lat + "%3B"@ + rest, "%3B"@) == lon + "%2C"@ + lat,
{
    reveal_strlit("%2C");
    reveal_strlit("%3B");
    let comma = "%2C"@;
    let semi = "%3B"@;
    assert(comma =~= seq!['%', '2', 'C']);
    assert(semi =~= seq!['%', '3', 'B']);
    let u = lon + comma + lat + semi + rest;
    let k0: int = (lon.len() + 3 + lat.len()) as int;
    assert(matches_at(u, semi, k0)) by {
        assert(u.subrange(k0, k0 + 3) =~= semi);
    }
    lemma_find_has_substring(u, semi);
    lemma_find_from(u, semi, 0);
    let j = find_from(u, semi, 0)->0;
    if j < k0 {
        assert(u.subrange(j, j + 3)[0] == u[j]);
        assert(u[j] == '%');
        if j < lon.len() {
            assert(u[j] == lon[j]);
        } else if j == lon.len() {
            assert(u.subrange(j, j + 3)[1] == u[j + 1]);
            assert(u[j + 1] == '2');
        } else if j < lon.len() + 3 {
            assert(u[j] == comma[j - lon.len()]);
        } else {
            assert(u[j] == lat[j - lon.len() - 3]);
        }
    }
    assert(j == k0);
    assert(u.take(k0) =~= lon + comma + lat);
}

/// The part of a link after the first occurrence of `target`, when the
/// link is `target` followed by text that does not hold it again.
proof fn lemma_part_after_the_target(target: Seq<char>, u: Seq<char>)
    requires
        !has_substring(u, target),
    ensures
        second_segment(target + u, target) == Some(u),
{
    let link = target + u;
    assert(matches_at(link, target, 0)) by {
        assert(link.subrange(0, target.len() as int) =~= target);
    }
    lemma_find_has_substring(link, target);
    lemma_find_from(link, target, 0);
    assert(find_from(link, target, 0)->0 == 0);
    assert(link.skip(target.len() as int) =~= u);
    lemma_find_has_substring(u, target);
}

/// A route link `/<city>/directions/points/%7C<lon>%2C<lat>%3B<rest>` gives
/// the coordinates `<lon>, <lat>`, when the two numbers hold no `%` and the
/// rest of the link does not lead from the city again.
pub proof fn lemma_coords_are_read_from_the_route(city: Seq<char>, lon: Seq<char>, lat: Seq<char>, rest: Seq<char>)
    requires
        !lon.contains('%'),
        !lat.contains('%'),
        !has_substring(lon + "%2C"@ + lat + "%3B"@ + rest, "/"@ + city + "/directions/points/%7C"@),
    ensures
        coords_from_link_spec("/"@ + city + "/directions/points/%7C"@ + lon + "%2C"@ + lat + "%3B"@ + rest, city)
            == lon + ", "@ + lat,
{
    reveal_strlit("%2C");
    let target = "/"@ + city + "/directions/points/%7C"@;
    let u = lon + "%2C"@ + lat + "%3B"@ + rest;
    assert(target + u =~= "/"@ + city + "/directions/points/%7C"@ + lon + "%2C"@ + lat + "%3B"@ + rest);
    lemma_part_after_the_target(target, u);
    lemma_text_before_the_end_of_the_point(lon, lat, rest);
    assert("%2C"@ =~= seq!['%', '2', 'C']);
    lemma_replace_single(lon, "%2C"@, lat, ", "@);
}

/// A link that does not lead to a firm of the city gives the identifier
/// `-`, and a route link that does not lead from the city gives the
/// coordinates `-?`.
pub proof fn lemma_links_without_the_city(link: Seq<char>, city: Seq<char>)
    ensures
        !has_substring(link, "/"@ + city + "/firm/"@) ==> firm_id_from_link_spec(link, city) == "-"@,
        !has_substring(link, "/"@ + city + "/directions/points/%7C"@) ==> coords_from_link_spec(link, city) == "-?"@,
{
    reveal_strlit("-?");
    reveal_strlit("-");
    reveal_strlit("?");
    reveal_strlit("%3B");
    reveal_strlit("%2C");
    let missing = "-?"@;
    assert(missing =~= seq!['-', '?']);
    lemma_find_has_substring(link, "/"@ + city + "/firm/"@);
    lemma_find_has_substring(link, "/"@ + city + "/directions/points/%7C"@);
    assert(second_segment(link, "/"@ + city + "/firm/"@) is None <==> !has_substring(link, "/"@ + city + "/firm/"@));
    // `-?` splits at its `?` into `-`.
    let q = "?"@;
    assert(q =~= seq!['?']);
    assert(!matches_at(missing, q, 0)) by {
        assert(missing.subrange(0, 1)[0] == '-');
        assert(q[0] == '?');
    }
    assert(matches_at(missing, q, 1)) by {
        assert(missing.subrange(1, 2) =~= seq!['?']);
    }
    assert(find_from(missing, q, 1) == Some(1int));
    assert(find_from(missing, q, 0) == Some(1int));
    assert(before_first(missing, q) =~= "-"@) by {
        assert("-"@ =~= seq!['-']);
    }
    // `-?` holds neither `%3B` nor `%2C`, which are longer.
    let semi = "%3B"@;
    assert(semi.len() == 3) by {
        assert(semi =~= seq!['%', '3', 'B']);
    }
    assert(find_from(missing, semi, 0) is None);
    assert(before_first(missing, semi) == missing);
    let comma = "%2C"@;
    assert(comma.len() == 3) by {
        assert(comma =~= seq!['%', '2', 'C']);
    }
    assert(replace_all(missing, comma, ", "@) == missing);
}

} // verus!
