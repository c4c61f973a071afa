use firms_api::content::{
    filter_image_record, filter_oai_description_record, filter_page_record, filter_quote_record,
    filter_type_record, filter_user_record, Image, OAIDescription, Page, Quote, Type, User,
};
use firms_api::firms::{
    filter_ext_firm_record, filter_firm_for_map_record, filter_firm_record,
    ExtFirmWithOaiDescription, Firm, FirmForMap,
};
use firms_api::records::{
    filter_add_review_record, filter_category_record, filter_city_record,
    filter_oai_review_record, filter_price_category_record, filter_price_record,
    filter_review_record, Category, City, OAIReview, PriceCategory, PriceItem, Review, Timestamp,
};

const ID_A: u128 = 0x67e5504410b1426f9247bb680e5fe0c8;
const ID_B: u128 = 0x550e8400e29b41d4a716446655440000;
const ID_C: u128 = 1;
const TEXT_A: &str = "67e55044-10b1-426f-9247-bb680e5fe0c8";
const TEXT_B: &str = "550e8400-e29b-41d4-a716-446655440000";
const TEXT_C: &str = "00000000-0000-0000-0000-000000000001";

fn some(s: &str) -> Option<String> {
    Some(s.to_string())
}

#[test]
fn category_record_is_filtered() {
    let c = Category { category_id: ID_A, name: some("Автосервисы"), abbreviation: some("autoservice"), is_active: Some(true) };
    let f = filter_category_record(&c);
    assert_eq!(f.category_id, TEXT_A);
    assert_eq!(f.name, some("Автосервисы"));
    assert_eq!(f.abbreviation, some("autoservice"));
    assert_eq!(f.is_active, Some(true));
}

#[test]
fn city_record_is_filtered() {
    let c = City { city_id: ID_B, name: some("Москва"), abbreviation: some("moscow"), coords: None, is_active: None };
    let f = filter_city_record(&c);
    assert_eq!(f.city_id, TEXT_B);
    assert_eq!(f.name, some("Москва"));
    assert_eq!(f.abbreviation, some("moscow"));
    assert_eq!(f.coords, None);
    assert_eq!(f.is_active, None);
}

fn review() -> Review {
    Review {
        review_id: ID_A,
        firm_id: ID_B,
        two_gis_firm_id: some("70000001"),
        author: some("Иван"),
        date: some("1 мая 2023"),
        text: some("Хорошо"),
        rating: some("5"),
        parsed: Some(true),
    }
}

#[test]
fn review_records_are_filtered() {
    let r = review();
    let f = filter_review_record(&r);
    assert_eq!(f.review_id, TEXT_A);
    assert_eq!(f.firm_id, TEXT_B);
    assert_eq!(f.two_gis_firm_id, some("70000001"));
    assert_eq!(f.author, some("Иван"));
    assert_eq!(f.date, some("1 мая 2023"));
    assert_eq!(f.text, some("Хорошо"));
    assert_eq!(f.rating, some("5"));
    let a = filter_add_review_record(&r);
    assert_eq!(a.review_id, TEXT_A);
    assert_eq!(a.firm_id, TEXT_B);
    assert_eq!(a.author, some("Иван"));
    assert_eq!(a.date, some("1 мая 2023"));
    assert_eq!(a.text, some("Хорошо"));
    let o = filter_oai_review_record(&OAIReview { oai_review_id: ID_C, firm_id: ID_A, text: None });
    assert_eq!(o.oai_review_id, TEXT_C);
    assert_eq!(o.firm_id, TEXT_A);
    assert_eq!(o.text, None);
}

#[test]
fn price_records_are_filtered() {
    let p = PriceItem { price_item_id: ID_A, firm_id: ID_B, price_category_id: ID_C, name: some("Шиномонтаж"), value: some("1500 ₽") };
    let f = filter_price_record(&p);
    assert_eq!(f.price_item_id, TEXT_A);
    assert_eq!(f.firm_id, TEXT_B);
    assert_eq!(f.price_category_id, TEXT_C);
    assert_eq!(f.name, some("Шиномонтаж"));
    assert_eq!(f.value, some("1500 ₽"));
    let c = PriceCategory { price_category_id: ID_C, firm_id: ID_A, name: some("Колёса"), value: some("12") };
    let g = filter_price_category_record(&c);
    assert_eq!(g.price_category_id, TEXT_C);
    assert_eq!(g.firm_id, TEXT_A);
    assert_eq!(g.name, some("Колёса"));
    assert_eq!(g.value, some("12"));
}

fn firm() -> Firm {
    Firm {
        firm_id: ID_A,
        category_id: ID_B,
        type_id: ID_C,
        city_id: ID_C,
        two_gis_firm_id: some("70000001"),
        name: some("Шины"),
        description: some("desc"),
        address: some("ул. Ленина, 1"),
        floor: some("2"),
        site: some("example.org"),
        default_email: None,
        default_phone: some("+79000000000"),
        url: some("shiny"),
        rating: some("4.5"),
        reviews_count: some("10"),
        coords: some("37.6, 55.7"),
        created_ts: None,
        updated_ts: None,
    }
}

#[test]
fn firm_records_are_filtered() {
    let f = filter_firm_record(&firm());
    assert_eq!(f.firm_id, TEXT_A);
    assert_eq!(f.category_id, TEXT_B);
    assert_eq!(f.city_id, TEXT_C);
    assert_eq!(f.two_gis_firm_id, some("70000001"));
    assert_eq!(f.name, some("Шины"));
    assert_eq!(f.description, some("desc"));
    assert_eq!(f.address, some("ул. Ленина, 1"));
    assert_eq!(f.site, some("example.org"));
    assert_eq!(f.rating, some("4.5"));
    assert_eq!(f.reviews_count, some("10"));
    assert_eq!(f.default_phone, some("+79000000000"));
    assert_eq!(f.url, some("shiny"));
    assert_eq!(f.coords, some("37.6, 55.7"));

    let e = ExtFirmWithOaiDescription {
        firm_id: ID_A,
        city_id: ID_B,
        category_id: ID_C,
        name: some("n"),
        address: None,
        site: None,
        default_phone: some("p"),
        oai_description_value: some("o"),
        description: some("d"),
    };
    let g = filter_ext_firm_record(&e);
    assert_eq!(g.firm_id, TEXT_A);
    assert_eq!(g.category_id, TEXT_C);
    assert_eq!(g.name, some("n"));
    assert_eq!(g.address, None);
    assert_eq!(g.site, None);
    assert_eq!(g.default_phone, some("p"));
    assert_eq!(g.oai_description_value, some("o"));
    assert_eq!(g.description, some("d"));

    let m = filter_firm_for_map_record(&FirmForMap { name: some("n"), address: some("a"), url: None, coords: some("c") });
    assert_eq!(m.name, some("n"));
    assert_eq!(m.address, some("a"));
    assert_eq!(m.url, None);
    assert_eq!(m.coords, some("c"));
}

#[test]
fn content_records_are_filtered() {
    let i = filter_image_record(&Image { img_id: ID_A, firm_id: ID_B, img_alt: some("alt"), created_ts: None, updated_ts: None });
    assert_eq!(i.img_id, TEXT_A);
    assert_eq!(i.firm_id, TEXT_B);
    assert_eq!(i.img_alt, some("alt"));

    let d = filter_oai_description_record(&OAIDescription {
        oai_description_id: ID_C,
        firm_id: ID_A,
        oai_description_value: some("v"),
        created_ts: None,
        updated_ts: None,
    });
    assert_eq!(d.oai_description_id, TEXT_C);
    assert_eq!(d.firm_id, TEXT_A);
    assert_eq!(d.oai_description_value, some("v"));

    let t = filter_type_record(&Type { type_id: ID_B, name: some("Шиномонтаж"), abbreviation: some("shinomontazh") });
    assert_eq!(t.type_id, TEXT_B);
    assert_eq!(t.name, some("Шиномонтаж"));
    assert_eq!(t.abbreviation, some("shinomontazh"));
}

#[test]
fn quote_and_user_records_are_filtered() {
    let created = Timestamp { secs: 1_700_000_000, nanos: 5 };
    let updated = Timestamp { secs: 1_700_000_100, nanos: 0 };
    let q = filter_quote_record(&Quote { id: ID_A, text: some("t"), author: None, created_at: Some(created), updated_at: Some(updated) });
    assert_eq!(q.id, TEXT_A);
    assert_eq!(q.text, some("t"));
    assert_eq!(q.author, None);
    assert_eq!(q.created_at, created);
    assert_eq!(q.updated_at, updated);

    let user = User {
        id: ID_B,
        name: "Ivan".to_string(),
        email: "ivan@example.org".to_string(),
        photo: "default.png".to_string(),
        role: "user".to_string(),
        verified: false,
        favourite: None,
        created_at: Some(created),
        updated_at: Some(updated),
    };
    let u = filter_user_record(&user);
    assert_eq!(u.id, TEXT_B);
    assert_eq!(u.name, "Ivan");
    assert_eq!(u.email, "ivan@example.org");
    assert_eq!(u.photo, "default.png");
    assert_eq!(u.role, "user");
    assert!(!u.verified);
    assert!(u.favourite.is_empty());
    assert_eq!(u.created_at, created);
    assert_eq!(u.updated_at, updated);

    let fav = User { favourite: Some(vec!["a".to_string(), "b".to_string()]), ..user };
    assert_eq!(filter_user_record(&fav).favourite, vec!["a".to_string(), "b".to_string()]);
}

#[test]
fn page_record_fills_missing_ids_with_empty_text() {
    let ts = Timestamp { secs: 1, nanos: 2 };
    let p = Page {
        page_id: ID_A,
        firm_id: Some(ID_B),
        page_category_id: None,
        user_id: Some(ID_C),
        url: some("shiny"),
        prompt_value: some("prompt"),
        oai_value: some("text"),
        created_ts: Some(ts),
        updated_ts: None,
    };
    let f = filter_page_record(&p);
    assert_eq!(f.page_id, TEXT_A);
    assert_eq!(f.firm_id, TEXT_B);
    assert_eq!(f.page_category_id, "");
    assert_eq!(f.user_id, TEXT_C);
    assert_eq!(f.url, some("shiny"));
    assert_eq!(f.oai_value, some("text"));
    assert_eq!(f.created_ts, Some(ts));
}
