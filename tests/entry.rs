use helper::entry::{
    build_metadata, create_entry, entry_request, ArticleMetadata, EntryContext, NatLangChainEntry,
    StoryMetadata,
};
use helper::json::JsonValue;

fn has_null(v: &JsonValue) -> bool {
    match v {
        JsonValue::Null => true,
        JsonValue::Array(items) => items.iter().any(has_null),
        JsonValue::Object(fields) => fields.iter().any(|(_, v)| has_null(v)),
        _ => false,
    }
}

fn keys(v: &JsonValue) -> Vec<String> {
    match v {
        JsonValue::Object(fields) => fields.iter().map(|(k, _)| k.clone()).collect(),
        _ => panic!("not an object"),
    }
}

fn member<'a>(v: &'a JsonValue, key: &str) -> Option<&'a JsonValue> {
    match v {
        JsonValue::Object(fields) => fields.iter().find(|(k, _)| k == key).map(|(_, v)| v),
        _ => None,
    }
}

fn bare(monetization: &str, price: Option<i128>) -> NatLangChainEntry {
    create_entry(
        "ann".to_string(),
        "Baked bread today.".to_string(),
        "share a recipe".to_string(),
        None,
        None,
        "journal".to_string(),
        monetization.to_string(),
        price,
        "public".to_string(),
        None,
        None,
        None,
    )
}

fn full() -> NatLangChainEntry {
    create_entry(
        "ann".to_string(),
        "Chapter two.".to_string(),
        "tell a story".to_string(),
        Some("The Loaf".to_string()),
        Some(vec!["bread".to_string(), "story".to_string()]),
        "story".to_string(),
        "paid".to_string(),
        Some(2_500_000),
        "subscribers".to_string(),
        Some(EntryContext {
            weather: None,
            location: Some("Oslo, Norway".to_string()),
            mood: None,
            date: "2024-03-01".to_string(),
            time_of_day: "morning".to_string(),
        }),
        Some(StoryMetadata {
            series_id: None,
            series_title: "Bakery".to_string(),
            chapter_number: 2,
            total_chapters: None,
            genre: "slice of life".to_string(),
            is_ongoing: true,
            synopsis: None,
            previous_chapter_id: Some("c1".to_string()),
            next_chapter_id: None,
        }),
        Some(ArticleMetadata {
            headline: "Bread".to_string(),
            byline: None,
            category: "food".to_string(),
            subcategory: None,
            dateline: None,
            sources: Some(vec!["grandma".to_string()]),
            is_breaking: None,
            is_opinion: Some(true),
            is_analysis: None,
        }),
    )
}

#[test]
fn metadata_has_no_nulls_when_fields_absent() {
    let m = build_metadata(&bare("free", None));
    assert!(!has_null(&m));
    assert_eq!(keys(&m), vec!["content_type", "monetization", "visibility", "created_at"]);
}

#[test]
fn metadata_has_no_nulls_in_nested_objects() {
    let e = full();
    let m = build_metadata(&e);
    assert!(!has_null(&m));
    assert_eq!(
        keys(&m),
        vec![
            "title", "tags", "content_type", "monetization", "price", "visibility", "context",
            "story_metadata", "article_metadata", "created_at"
        ]
    );
    assert_eq!(keys(member(&m, "context").unwrap()), vec!["location", "date", "timeOfDay"]);
    assert_eq!(
        keys(member(&m, "story_metadata").unwrap()),
        vec!["seriesTitle", "chapterNumber", "genre", "isOngoing", "previousChapterId"]
    );
    assert_eq!(keys(member(&m, "article_metadata").unwrap()), vec!["headline", "category", "sources", "isOpinion"]);
    assert!(matches!(member(member(&m, "story_metadata").unwrap(), "chapterNumber"), Some(JsonValue::Number(2_000_000))));
    assert!(matches!(member(&m, "price"), Some(JsonValue::Number(2_500_000))));
}

#[test]
fn free_entry_price_is_ignored() {
    let m = build_metadata(&bare("free", Some(1_000_000)));
    assert!(member(&m, "price").is_none());
    let m = build_metadata(&bare("tips", Some(1_000_000)));
    assert!(matches!(member(&m, "price"), Some(JsonValue::Number(1_000_000))));
}

#[test]
fn request_carries_three_fields_and_metadata() {
    let e = full();
    let r = entry_request(&e);
    assert_eq!(keys(&r), vec!["content", "author", "intent", "metadata"]);
    assert!(matches!(member(&r, "author"), Some(JsonValue::Str(a)) if a == "ann"));
    assert!(matches!(member(&r, "intent"), Some(JsonValue::Str(a)) if a == "tell a story"));
    assert!(!has_null(&r));
}

#[test]
fn created_at_is_utc_rfc3339() {
    let e = bare("free", None);
    assert!(e.created_at.ends_with("+00:00"));
    assert!(e.created_at.len() >= "2024-01-01T00:00:00+00:00".len());
    assert_eq!(&e.created_at[4..5], "-");
    assert_eq!(&e.created_at[10..11], "T");
    let parsed = chrono::DateTime::parse_from_rfc3339(&e.created_at).unwrap();
    assert_eq!(parsed.offset().local_minus_utc(), 0);
    let age = chrono::Utc::now().signed_duration_since(parsed);
    assert!(age.num_seconds().abs() < 60);
    assert_eq!(e.author, "ann");
    assert_eq!(e.monetization, "free");
}
