use firms_api::processing::{
    clean_generated_review, counter_value, next_counter_text, review_excerpt, review_prompt,
    reviews_count_text, system_prompt_text,
};
use firms_api::shared::Count;

#[test]
fn counters_store_and_read_positions() {
    assert_eq!(counter_value(&Some("17".to_string())), Some(17));
    assert_eq!(counter_value(&Some("x".to_string())), None);
    assert_eq!(counter_value(&None), None);
    assert_eq!(next_counter_text(16), "17");
    assert_eq!(next_counter_text(-1), "0");
    for j in [0i64, 5, 999, i64::MAX - 1, -100] {
        assert_eq!(counter_value(&Some(next_counter_text(j))), Some(j + 1));
    }
}

#[test]
fn review_counts_are_stored_as_text() {
    assert_eq!(reviews_count_text(Some(Count { count: Some(12) })), "12");
    assert_eq!(reviews_count_text(None), "0");
}

#[test]
fn excerpt_needs_two_reviews() {
    assert_eq!(review_excerpt(&vec![]), None);
    assert_eq!(review_excerpt(&vec![Some("one".to_string())]), None);
    assert_eq!(review_excerpt(&vec![None, None]), Some(String::new()));
}

#[test]
fn excerpt_joins_non_empty_texts() {
    let texts = vec![Some("Хорошо".to_string()), None, Some(String::new()), Some("Плохо".to_string())];
    assert_eq!(review_excerpt(&texts), Some("Хорошо; Плохо".to_string()));
}

#[test]
fn excerpt_is_cut_to_3800_characters() {
    let long = "я".repeat(3000);
    let texts = vec![Some(long.clone()), Some(long.clone())];
    let e = review_excerpt(&texts).unwrap();
    assert_eq!(e.chars().count(), 3800);
    let expected: String = format!("{}; {}", long, long).chars().take(3800).collect();
    assert_eq!(e, expected);
}

#[test]
fn prompt_embeds_excerpt_and_name() {
    let p = review_prompt("ОТЗЫВЫ", "ШИНЫ");
    assert!(p.starts_with("\n\t\tВот отзывы которые ты должен проанализировать: ОТЗЫВЫ\n\n\t\tНапиши большую статью, на основе этих отзывов об автосервисе ШИНЫ,"));
    assert!(p.contains("6. Сделай выводы"));
    assert!(p.ends_with("и объясни почему.\n\t\t"));
    assert_eq!(system_prompt_text(), "Ты писатель-копирайтер, пишешь SEO оптимизированные тексты");
}

#[test]
fn generated_reviews_are_cleaned() {
    assert_eq!(clean_generated_review("", "Шины"), None);
    assert_eq!(clean_generated_review("## О XYZ\n**Плюсы**", "Шины"), Some(" О Шины\nПлюсы".to_string()));
    let c = clean_generated_review("XYZ", "#*name*#").unwrap();
    assert_eq!(c, "name");
    assert!(!c.contains('#') && !c.contains('*'));
}
