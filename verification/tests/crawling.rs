use firms_api::crawl::{
    contact_block_number, contact_paths, contact_rows_path, coords_from_link, crawled_review,
    description_block_number, description_path, firm_address, firm_id_from_link, firm_rubric_url,
    firm_tab_url, firm_url, first_address_block, has_no_price_list, has_no_reviews,
    is_closed_firm, is_non_review_block, is_promoted_card, lines_to_commas, lines_to_spaces,
    needs_reload, phone_from_link, price_category_paths, price_category_step, price_item_paths,
    price_plan_start, review_paths, search_result_link_path, search_result_name_path, search_url,
    ItemRange, PricePlan,
};

const DETAILS: &str = "//body/div/div/div/div/div/div[last()]/div[last()]/div/div/div/div/div[last()]/div[last()]/div/div/div/div/div/div/div[last()]/div[2]/div[1]";

#[test]
fn page_addresses() {
    assert_eq!(search_url("moscow", "шиномонтаж"), "https://2gis.ru/moscow/search/шиномонтаж");
    assert_eq!(firm_url("moscow", "cars", "7001"), "https://2gis.ru/moscow/search/cars/firm/7001");
    assert_eq!(firm_tab_url("moscow", "cars", "7001", "prices"), "https://2gis.ru/moscow/search/cars/firm/7001/tab/prices");
    assert_eq!(firm_rubric_url("spb", "cars", "405", "7001"), "https://2gis.ru/spb/search/cars/rubricId/405/firm/7001");
}

#[test]
fn page_states() {
    assert!(needs_reload("<div>Что-то пошло не так</div>"));
    assert!(!needs_reload("<div>ok</div>"));
    assert!(is_promoted_card("<a>↗</a>"));
    assert!(is_promoted_card("class=\"_2p5l74\""));
    assert!(!is_promoted_card("<a>Шины</a>"));
    assert!(is_closed_firm("Скоро открытие"));
    assert!(!is_closed_firm("Открыто до 20:00"));
    assert!(has_no_reviews("Нет отзывов"));
    assert!(!has_no_reviews("42 отзыва"));
    assert!(is_non_review_block("4.5/5"));
    assert!(is_non_review_block("Загрузить ещё"));
    assert!(!is_non_review_block("Отличный сервис"));
    assert!(has_no_price_list("Посмотреть на сайте"));
    assert!(!has_no_price_list("Шиномонтаж 1500 ₽"));
}

#[test]
fn first_address_block_skips_navigation() {
    let blocks = vec!["Инфо".to_string(), "Фото 12".to_string(), "ул. Ленина, 1".to_string(), "Меню".to_string()];
    assert_eq!(first_address_block(&blocks), Some(2));
    assert_eq!(first_address_block(&vec!["Отзывы".to_string()]), None);
    assert_eq!(first_address_block(&vec![]), None);
}

#[test]
fn firm_id_is_read_from_the_link() {
    assert_eq!(firm_id_from_link("https://2gis.ru/moscow/firm/70000001234?m=37.6", "moscow"), "70000001234");
    assert_eq!(firm_id_from_link("https://2gis.ru/moscow/firm/70000001234", "moscow"), "70000001234");
    assert_eq!(firm_id_from_link("https://2gis.ru/moscow/firm/1/moscow/firm/2", "moscow"), "1");
    assert_eq!(firm_id_from_link("https://2gis.ru/spb/firm/1?x", "moscow"), "-");
    assert_eq!(firm_id_from_link("", "moscow"), "-");
    for (link, city) in [("https://2gis.ru/moscow/firm/7?a?b", "moscow"), ("x/k/firm/?", "k")] {
        assert!(!firm_id_from_link(link, city).contains('?'));
    }
}

#[test]
fn coords_are_read_from_the_route_link() {
    assert_eq!(
        coords_from_link("https://2gis.ru/moscow/directions/points/%7C37.61%2C55.75%3B7001", "moscow"),
        "37.61, 55.75"
    );
    assert_eq!(coords_from_link("https://2gis.ru/other", "moscow"), "-?");
}

#[test]
fn texts_are_flattened() {
    assert_eq!(lines_to_commas("ул. Ленина, 1\nМосква"), "ул. Ленина, 1, Москва");
    assert_eq!(lines_to_spaces("a\nb\nc"), "a b c");
    assert_eq!(phone_from_link("tel:+79001234567"), "+79001234567");
}

#[test]
fn firm_address_joins_street_and_city() {
    assert_eq!(firm_address(Some(("ул. Ленина, 1", "Москва"))), Some("ул. Ленина, 1, Москва".to_string()));
    assert_eq!(firm_address(Some(("a\nb", "c"))), Some("a, b, c".to_string()));
    assert_eq!(firm_address(Some(("", ""))), None);
    assert_eq!(firm_address(None), Some(String::new()));
    let a = firm_address(Some(("x\n", "\ny"))).unwrap();
    assert!(!a.contains('\n'));
}

#[test]
fn block_numbers_pick_the_last_matching_tall_block() {
    let contents = vec![
        "Показать на карте".to_string(),
        "телефон".to_string(),
        "Показать вход".to_string(),
        "Показать вход".to_string(),
    ];
    assert_eq!(contact_block_number(&vec![true, true, true, false], &contents), 3);
    assert_eq!(contact_block_number(&vec![false, false, false, false], &contents), 1);
    assert_eq!(contact_block_number(&vec![], &vec![]), 1);
    let desc = vec!["Авторемонт".to_string(), "О компании".to_string(), "Рядом".to_string()];
    assert_eq!(description_block_number(&vec![true, true, true], &desc), 2);
    assert_eq!(description_block_number(&vec![true, false, true], &desc), 1);
}

#[test]
fn contact_paths_depend_on_the_page() {
    let plain = contact_paths(2, "Показать телефон", 5);
    assert_eq!(plain.address, format!("{}/div[2]/div/div[1]/div/div[1]", DETAILS));
    assert_eq!(plain.phone, format!("{}/div[2]/div/div[3]/div[last()]/div/a", DETAILS));
    assert_eq!(plain.site, format!("{}/div[2]/div/div[4]", DETAILS));
    let asked = contact_paths(3, "Уже воспользовались услугами? Показать телефоны", 4);
    assert_eq!(asked.address, format!("{}/div[3]/div/div[2]/div/div[1]/div[2]/div[1]", DETAILS));
    assert_eq!(asked.phone, format!("{}/div[3]/div/div[4]/div[last()]/div/a", DETAILS));
    assert_eq!(asked.site, format!("{}/div[3]/div/div[5]", DETAILS));
    let bare = contact_paths(1, "", 3);
    assert_eq!(bare.phone, format!("{}/div[1]/div/div[last()]", DETAILS));
    assert_eq!(bare.site, format!("{}/div[1]/div/div[last()]", DETAILS));
    assert_eq!(contact_rows_path(4), format!("{}/div[4]/div/div", DETAILS));
    assert_eq!(description_path(6), format!("{}/div/div/div[6]", DETAILS));
}

#[test]
fn element_paths_are_numbered() {
    assert_eq!(
        search_result_name_path(0),
        "//*[@id='root']/div/div/div[1]/div[1]/div[3]/div[1]/div/div[2]/div/div/div/div[2]/div[2]/div[1]/div/div/div/div[2]/div/div[1]/div/div[1]/a/span/span[1]"
    );
    assert_eq!(
        search_result_link_path(9),
        "//*[@id='root']/div/div/div[1]/div[1]/div[3]/div/div/div[2]/div/div/div/div[2]/div[2]/div[1]/div/div/div/div[2]/div/div[10]/div/div/a"
    );
    let r = review_paths(3);
    let prefix = "//*[@id='root']/div/div/div[1]/div[1]/div[3]/div[2]/div/div/div/div/div[2]/div[2]/div/div[1]/div/div/div/div/div[2]/div[2]/div[3]";
    assert_eq!(r.author, format!("{}/div[1]/div/div[1]/div[2]/span/span[1]/span", prefix));
    assert_eq!(r.date, format!("{}/div[1]/div/div[1]/div[2]/div", prefix));
    assert_eq!(r.text, format!("{}/div[3]/div[1]/a", prefix));
    assert_eq!(r.rating, format!("{}/div[1]/div/div[2]/div/div[1]/span", prefix));
    let (name, value) = price_category_paths(2);
    assert_eq!(name.primary, "//div[contains(@class, \"_19i46pu\")][2]/div[1]");
    assert_eq!(name.fallback, "//div[contains(@class, \"_19i46pu\")][2]/div");
    assert_eq!(value.primary, "//div[contains(@class, \"_19i46pu\")][2]/div[2]");
    assert_eq!(value.fallback, "//div[contains(@class, \"_19i46pu\")][2]/div[last()]");
    let (name, value) = price_item_paths(14);
    assert_eq!(name.primary, "//div[contains(@class, \"_1q7u1a2\")][14]/div[1]");
    assert_eq!(name.fallback, "//div[contains(@class, \"_1q7u1a2\")][14]/div");
    assert_eq!(value.primary, "//div[contains(@class, \"_1q7u1a2\")][14]/div[2]");
    assert_eq!(value.fallback, "//div[contains(@class, \"_1q7u1a2\")][14]/div[last()]");
}

#[test]
fn price_plan_walks_the_categories() {
    let start = price_plan_start();
    assert_eq!(start, PricePlan { total_count: 1, items_by_category: 0 });
    let (p1, r1) = price_category_step(&start, 0, "3", 100).unwrap();
    assert_eq!(r1, ItemRange { first: 1, last: 3 });
    assert_eq!(p1, PricePlan { total_count: 4, items_by_category: 5 });
    let (p2, r2) = price_category_step(&p1, 1, "2", 100).unwrap();
    assert_eq!(r2, ItemRange { first: 4, last: 5 });
    assert_eq!(p2, PricePlan { total_count: 6, items_by_category: 6 });
    let (p3, r3) = price_category_step(&p2, 2, "цены", 100).unwrap();
    assert_eq!(r3, ItemRange { first: 6, last: 6 });
    assert_eq!(p3, PricePlan { total_count: 6, items_by_category: 5 });
    let (_, r4) = price_category_step(&start, 0, "50", 20).unwrap();
    assert_eq!(r4, ItemRange { first: 1, last: 20 });
    assert_eq!(price_category_step(&start, 0, "2147483647", 20), None);
    assert_eq!(price_category_step(&start, 0, "-2147483648", 20), None);
}

#[test]
fn crawled_review_is_stored_on_one_line() {
    let r = crawled_review(7, "70001", "Иван", "1 мая", "Хорошо\nи быстро", 4);
    assert_eq!(r.firm_id, 7);
    assert_eq!(r.two_gis_firm_id, "70001");
    assert_eq!(r.author, "Иван");
    assert_eq!(r.date, "1 мая");
    assert_eq!(r.text, "Хорошо и быстро");
    assert_eq!(r.rating, "4");
}

#[test]
fn next_item_follows_announced_counts() {
    let values = ["4", "x", "7", "1"];
    let mut plan = price_plan_start();
    let mut announced = 0;
    for (i, v) in values.iter().enumerate() {
        let (next, range) = price_category_step(&plan, i, v, 1000).unwrap();
        assert_eq!(range.first, plan.total_count);
        announced += v.parse::<i32>().unwrap_or(0);
        plan = next;
        assert_eq!(plan.total_count, 1 + announced);
    }
}
