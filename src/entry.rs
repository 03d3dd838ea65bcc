//! The entry model and its outbound form: the minimal request every service
//! generation accepts, with everything else in one metadata object from
//! which absent fields are left out.

use vstd::prelude::*;
use crate::json::{Json, JsonValue, UNIT, members_view, items_view, lemma_array_view, lemma_object_view, text_eq};
use crate::decode::{opt_text, opt_texts, texts_view};
use crate::clock::{utc_now_rfc3339, utc_rfc3339};

verus! {

/// Where and when an entry was written.
#[derive(Debug, Clone)]
pub struct EntryContext {
    pub weather: Option<String>,
    pub location: Option<String>,
    pub mood: Option<String>,
    pub date: String,
    pub time_of_day: String,
}

/// Series linkage of a story chapter.
#[derive(Debug, Clone)]
pub struct StoryMetadata {
    pub series_id: Option<String>,
    pub series_title: String,
    /// Counted from 1.
    pub chapter_number: u32,
    pub total_chapters: Option<u32>,
    pub genre: String,
    pub is_ongoing: bool,
    pub synopsis: Option<String>,
    pub previous_chapter_id: Option<String>,
    pub next_chapter_id: Option<String>,
}

/// Press metadata of an article.
#[derive(Debug, Clone)]
pub struct ArticleMetadata {
    pub headline: String,
    pub byline: Option<String>,
    pub category: String,
    pub subcategory: Option<String>,
    pub dateline: Option<String>,
    pub sources: Option<Vec<String>>,
    pub is_breaking: Option<bool>,
    pub is_opinion: Option<bool>,
    pub is_analysis: Option<bool>,
}

/// A publishable journal entry.
#[derive(Debug, Clone)]
pub struct NatLangChainEntry {
    pub author: String,
    pub content: String,
    pub intent: String,
    pub title: Option<String>,
    pub tags: Option<Vec<String>>,
    pub content_type: String,
    pub monetization: String,
    /// In millionths of the currency unit; ignored when the monetization is `free`.
    pub price: Option<i128>,
    pub visibility: String,
    pub context: Option<EntryContext>,
    pub story_metadata: Option<StoryMetadata>,
    pub article_metadata: Option<ArticleMetadata>,
    /// RFC 3339, set when the entry is made.
    pub created_at: String,
}

/// An array of strings.
pub open spec fn strings_json(l: Seq<Seq<char>>) -> Json {
    Json::Array(l.map_values(|s: Seq<char>| Json::Str(s)))
}

/// A one-member list when the string is there, else nothing.
pub open spec fn text_entry(key: Seq<char>, o: Option<Seq<char>>) -> Seq<(Seq<char>, Json)> {
    match o {
        Some(s) => seq![(key, Json::Str(s))],
        None => seq![],
    }
}

pub open spec fn texts_entry(key: Seq<char>, o: Option<Seq<Seq<char>>>) -> Seq<(Seq<char>, Json)> {
    match o {
        Some(l) => seq![(key, strings_json(l))],
        None => seq![],
    }
}

pub open spec fn flag_entry(key: Seq<char>, o: Option<bool>) -> Seq<(Seq<char>, Json)> {
    match o {
        Some(b) => seq![(key, Json::Bool(b))],
        None => seq![],
    }
}

/// A whole number as a JSON number.
pub open spec fn whole(n: int) -> Json {
    Json::Number(n * UNIT)
}

pub open spec fn whole_entry(key: Seq<char>, o: Option<u32>) -> Seq<(Seq<char>, Json)> {
    match o {
        Some(n) => seq![(key, whole(n as int))],
        None => seq![],
    }
}

pub open spec fn context_members(c: EntryContext) -> Seq<(Seq<char>, Json)> {
    text_entry("weather"@, opt_text(c.weather)) + text_entry("location"@, opt_text(c.location))
        + text_entry("mood"@, opt_text(c.mood)) + seq![("date"@, Json::Str(c.date@))] + seq![
        ("timeOfDay"@, Json::Str(c.time_of_day@)),
    ]
}

pub open spec fn story_members(s: StoryMetadata) -> Seq<(Seq<char>, Json)> {
    text_entry("seriesId"@, opt_text(s.series_id)) + seq![
        ("seriesTitle"@, Json::Str(s.series_title@)),
    ] + seq![("chapterNumber"@, whole(s.chapter_number as int))] + whole_entry(
        "totalChapters"@,
        s.total_chapters,
    ) + seq![("genre"@, Json::Str(s.genre@))] + seq![("isOngoing"@, Json::Bool(s.is_ongoing))]
        + text_entry("synopsis"@, opt_text(s.synopsis)) + text_entry(
        "previousChapterId"@,
        opt_text(s.previous_chapter_id),
    ) + text_entry("nextChapterId"@, opt_text(s.next_chapter_id))
}

pub open spec fn article_members(a: ArticleMetadata) -> Seq<(Seq<char>, Json)> {
    seq![("headline"@, Json::Str(a.headline@))] + text_entry("byline"@, opt_text(a.byline))
        + seq![("category"@, Json::Str(a.category@))] + text_entry(
        "subcategory"@,
        opt_text(a.subcategory),
    ) + text_entry("dateline"@, opt_text(a.dateline)) + texts_entry(
        "sources"@,
        opt_texts(a.sources),
    ) + flag_entry("isBreaking"@, a.is_breaking) + flag_entry("isOpinion"@, a.is_opinion)
        + flag_entry("isAnalysis"@, a.is_analysis)
}

/// The price member: present only for a price of a paid entry.
pub open spec fn price_entry(e: NatLangChainEntry) -> Seq<(Seq<char>, Json)> {
    match e.price {
        Some(p) => if e.monetization@ != "free"@ {
            seq![("price"@, Json::Number(p as int))]
        } else {
            seq![]
        },
        None => seq![],
    }
}

pub open spec fn context_entry(o: Option<EntryContext>) -> Seq<(Seq<char>, Json)> {
    match o {
        Some(c) => seq![("context"@, Json::Object(context_members(c)))],
        None => seq![],
    }
}

pub open spec fn story_entry(o: Option<StoryMetadata>) -> Seq<(Seq<char>, Json)> {
    match o {
        Some(s) => seq![("story_metadata"@, Json::Object(story_members(s)))],
        None => seq![],
    }
}

pub open spec fn article_entry(o: Option<ArticleMetadata>) -> Seq<(Seq<char>, Json)> {
    match o {
        Some(a) => seq![("article_metadata"@, Json::Object(article_members(a)))],
        None => seq![],
    }
}

/// The members of the metadata object of an entry.
pub open spec fn metadata_members(e: NatLangChainEntry) -> Seq<(Seq<char>, Json)> {
    text_entry("title"@, opt_text(e.title)) + texts_entry("tags"@, opt_texts(e.tags)) + seq![
        ("content_type"@, Json::Str(e.content_type@)),
    ] + seq![("monetization"@, Json::Str(e.monetization@))] + price_entry(e) + seq![
        ("visibility"@, Json::Str(e.visibility@)),
    ] + context_entry(e.context) + story_entry(e.story_metadata) + article_entry(
        e.article_metadata,
    ) + seq![("created_at"@, Json::Str(e.created_at@))]
}

/// The members of the request body sent to validate or publish an entry.
pub open spec fn request_members(e: NatLangChainEntry) -> Seq<(Seq<char>, Json)> {
    seq![
        ("content"@, Json::Str(e.content@)),
        ("author"@, Json::Str(e.author@)),
        ("intent"@, Json::Str(e.intent@)),
        ("metadata"@, Json::Object(metadata_members(e))),
    ]
}

proof fn lemma_push_view(fs: Seq<(String, JsonValue)>, p: (String, JsonValue))
    ensures
        members_view(fs.push(p)) == members_view(fs).push((p.0@, p.1@)),
{
    assert(members_view(fs.push(p)) =~= members_view(fs).push((p.0@, p.1@)));
}

fn push_member(fields: &mut Vec<(String, JsonValue)>, key: &str, v: JsonValue)
    ensures
        members_view(final(fields)@) == members_view(old(fields)@) + seq![(key@, v@)],
{
    let ghost before = fields@;
    let k = String::from_str(key);
    fields.push((k, v));
    proof {
        lemma_push_view(before, (k, v));
        assert(members_view(fields@) =~= members_view(before) + seq![(key@, v@)]);
    }
}

fn push_text(fields: &mut Vec<(String, JsonValue)>, key: &str, value: &String)
    ensures
        members_view(final(fields)@) == members_view(old(fields)@) + seq![
            (key@, Json::Str(value@)),
        ],
{
    push_member(fields, key, JsonValue::Str(value.clone()));
}

fn push_opt_text(fields: &mut Vec<(String, JsonValue)>, key: &str, value: &Option<String>)
    ensures
        members_view(final(fields)@) == members_view(old(fields)@) + text_entry(
            key@,
            opt_text(*value),
        ),
{
    match value {
        Some(s) => push_text(fields, key, s),
        None => {
            assert(members_view(fields@) =~= members_view(fields@) + seq![]);
        },
    }
}

fn push_opt_flag(fields: &mut Vec<(String, JsonValue)>, key: &str, value: Option<bool>)
    ensures
        members_view(final(fields)@) == members_view(old(fields)@) + flag_entry(key@, value),
{
    match value {
        Some(b) => push_member(fields, key, JsonValue::Bool(b)),
        None => {
            assert(members_view(fields@) =~= members_view(fields@) + seq![]);
        },
    }
}

fn whole_number(n: u32) -> (r: JsonValue)
    ensures
        r@ == whole(n as int),
{
    JsonValue::Number(n as i128 * UNIT)
}

/// A JSON array of the given strings.
pub fn strings_array(l: &Vec<String>) -> (r: JsonValue)
    ensures
        r@ == strings_json(texts_view(*l)),
{
    let mut items: Vec<JsonValue> = Vec::new();
    let mut i: usize = 0;
    while i < l.len()
        invariant
            i <= l.len(),
            items@.len() == i,
            forall|j: int| 0 <= j < i ==> (#[trigger] items@[j])@ == Json::Str(l@[j]@),
        decreases l.len() - i,
    {
        items.push(JsonValue::Str(l[i].clone()));
        i = i + 1;
    }
    proof {
        lemma_array_view(items);
        assert(items_view(items@) =~= texts_view(*l).map_values(|s: Seq<char>| Json::Str(s))) by {
            assert forall|j: int| 0 <= j < items@.len() implies items_view(items@)[j] == Json::Str(
                l@[j]@,
            ) by {
                assert(items@[j]@ == Json::Str(l@[j]@));
            }
        }
    }
    JsonValue::Array(items)
}

fn push_opt_texts(fields: &mut Vec<(String, JsonValue)>, key: &str, value: &Option<Vec<String>>)
    ensures
        members_view(final(fields)@) == members_view(old(fields)@) + texts_entry(
            key@,
            opt_texts(*value),
        ),
{
    match value {
        Some(l) => push_member(fields, key, strings_array(l)),
        None => {
            assert(members_view(fields@) =~= members_view(fields@) + seq![]);
        },
    }
}

fn object_of_members(fields: Vec<(String, JsonValue)>) -> (r: JsonValue)
    ensures
        r@ == Json::Object(members_view(fields@)),
{
    proof {
        lemma_object_view(fields);
    }
    JsonValue::Object(fields)
}

/// The JSON object of an entry context; absent fields are left out.
pub fn context_json(c: &EntryContext) -> (r: JsonValue)
    ensures
        r@ == Json::Object(context_members(*c)),
{
    let mut fs: Vec<(String, JsonValue)> = Vec::new();
    push_opt_text(&mut fs, "weather", &c.weather);
    push_opt_text(&mut fs, "location", &c.location);
    push_opt_text(&mut fs, "mood", &c.mood);
    push_text(&mut fs, "date", &c.date);
    push_text(&mut fs, "timeOfDay", &c.time_of_day);
    assert(members_view(fs@) =~= context_members(*c));
    object_of_members(fs)
}

/// The JSON object of story metadata; absent fields are left out.
pub fn story_json(s: &StoryMetadata) -> (r: JsonValue)
    ensures
        r@ == Json::Object(story_members(*s)),
{
    let mut fs: Vec<(String, JsonValue)> = Vec::new();
    push_opt_text(&mut fs, "seriesId", &s.series_id);
    push_text(&mut fs, "seriesTitle", &s.series_title);
    push_member(&mut fs, "chapterNumber", whole_number(s.chapter_number));
    match s.total_chapters {
        Some(n) => push_member(&mut fs, "totalChapters", whole_number(n)),
        None => {},
    }
    push_text(&mut fs, "genre", &s.genre);
    push_member(&mut fs, "isOngoing", JsonValue::Bool(s.is_ongoing));
    push_opt_text(&mut fs, "synopsis", &s.synopsis);
    push_opt_text(&mut fs, "previousChapterId", &s.previous_chapter_id);
    push_opt_text(&mut fs, "nextChapterId", &s.next_chapter_id);
    assert(members_view(fs@) =~= story_members(*s));
    object_of_members(fs)
}

/// The JSON object of article metadata; absent fields are left out.
pub fn article_json(a: &ArticleMetadata) -> (r: JsonValue)
    ensures
        r@ == Json::Object(article_members(*a)),
{
    let mut fs: Vec<(String, JsonValue)> = Vec::new();
    push_text(&mut fs, "headline", &a.headline);
    push_opt_text(&mut fs, "byline", &a.byline);
    push_text(&mut fs, "category", &a.category);
    push_opt_text(&mut fs, "subcategory", &a.subcategory);
    push_opt_text(&mut fs, "dateline", &a.dateline);
    push_opt_texts(&mut fs, "sources", &a.sources);
    push_opt_flag(&mut fs, "isBreaking", a.is_breaking);
    push_opt_flag(&mut fs, "isOpinion", a.is_opinion);
    push_opt_flag(&mut fs, "isAnalysis", a.is_analysis);
    assert(members_view(fs@) =~= article_members(*a));
    object_of_members(fs)
}

/// The metadata object of an entry: everything but content, author and
/// intent, with absent fields left out rather than sent as null.
pub fn build_metadata(entry: &NatLangChainEntry) -> (r: JsonValue)
    ensures
        r@ == Json::Object(metadata_members(*entry)),
{
    let mut fs: Vec<(String, JsonValue)> = Vec::new();
    push_opt_text(&mut fs, "title", &entry.title);
    push_opt_texts(&mut fs, "tags", &entry.tags);
    push_text(&mut fs, "content_type", &entry.content_type);
    push_text(&mut fs, "monetization", &entry.monetization);
    let ghost before_price = fs@;
    match entry.price {
        Some(p) => {
            if !text_eq(entry.monetization.as_str(), "free") {
                push_member(&mut fs, "price", JsonValue::Number(p));
            } else {
                assert(members_view(fs@) =~= members_view(before_price) + price_entry(*entry));
            }
        },
        None => {
            assert(members_view(fs@) =~= members_view(before_price) + price_entry(*entry));
        },
    }
    push_text(&mut fs, "visibility", &entry.visibility);
    let ghost before_context = fs@;
    match &entry.context {
        Some(c) => push_member(&mut fs, "context", context_json(c)),
        None => {
            assert(members_view(fs@) =~= members_view(before_context) + context_entry(entry.context));
        },
    }
    let ghost before_story = fs@;
    match &entry.story_metadata {
        Some(s) => push_member(&mut fs, "story_metadata", story_json(s)),
        None => {
            assert(members_view(fs@) =~= members_view(before_story) + story_entry(
                entry.story_metadata,
            ));
        },
    }
    let ghost before_article = fs@;
    match &entry.article_metadata {
        Some(a) => push_member(&mut fs, "article_metadata", article_json(a)),
        None => {
            assert(members_view(fs@) =~= members_view(before_article) + article_entry(
                entry.article_metadata,
            ));
        },
    }
    push_text(&mut fs, "created_at", &entry.created_at);
    assert(members_view(fs@) =~= metadata_members(*entry));
    object_of_members(fs)
}

/// The request body that validates or publishes an entry.
pub fn entry_request(entry: &NatLangChainEntry) -> (r: JsonValue)
    ensures
        r@ == Json::Object(request_members(*entry)),
{
    let mut fs: Vec<(String, JsonValue)> = Vec::new();
    push_text(&mut fs, "content", &entry.content);
    push_text(&mut fs, "author", &entry.author);
    push_text(&mut fs, "intent", &entry.intent);
    push_member(&mut fs, "metadata", build_metadata(entry));
    assert(members_view(fs@) =~= request_members(*entry));
    object_of_members(fs)
}

/// Makes an entry from its parts, stamped with the current instant.
pub fn create_entry(
    author: String,
    content: String,
    intent: String,
    title: Option<String>,
    tags: Option<Vec<String>>,
    content_type: String,
    monetization: String,
    price: Option<i128>,
    visibility: String,
    context: Option<EntryContext>,
    story_metadata: Option<StoryMetadata>,
    article_metadata: Option<ArticleMetadata>,
) -> (r: NatLangChainEntry)
    ensures
        r.author == author,
        r.content == content,
        r.intent == intent,
        r.title == title,
        r.tags == tags,
        r.content_type == content_type,
        r.monetization == monetization,
        r.price == price,
        r.visibility == visibility,
        r.context == context,
        r.story_metadata == story_metadata,
        r.article_metadata == article_metadata,
        utc_rfc3339(r.created_at@),
{
    NatLangChainEntry {
        author,
        content,
        intent,
        title,
        tags,
        content_type,
        monetization,
        price,
        visibility,
        context,
        story_metadata,
        article_metadata,
        created_at: utc_now_rfc3339(),
    }
}

} // verus!

verus! {

use crate::json::{null_free, members_null_free, lemma_members_concat, member, find_from};

proof fn lemma_text_entry(key: Seq<char>, o: Option<Seq<char>>)
    ensures
        members_null_free(text_entry(key, o)),
{
}

proof fn lemma_texts_entry(key: Seq<char>, o: Option<Seq<Seq<char>>>)
    ensures
        members_null_free(texts_entry(key, o)),
{
    if let Some(l) = o {
        let j = strings_json(l);
        assert(null_free(j)) by {
            let items = l.map_values(|s: Seq<char>| Json::Str(s));
            assert forall|i: int| 0 <= i < items.len() implies null_free(#[trigger] items[i]) by {
                assert(items[i] == Json::Str(l[i]));
            }
        }
        assert(texts_entry(key, o)[0].1 == j);
    }
}

proof fn lemma_fixed_members(s: Seq<(Seq<char>, Json)>)
    requires
        forall|i: int| 0 <= i < s.len() ==> !((#[trigger] s[i]).1 is Null) && !(s[i].1 is Array)
            && !(s[i].1 is Object),
    ensures
        members_null_free(s),
{
}

proof fn lemma_context_null_free(c: EntryContext)
    ensures
        null_free(Json::Object(context_members(c))),
{
    lemma_text_entry("weather"@, opt_text(c.weather));
    lemma_text_entry("location"@, opt_text(c.location));
    lemma_text_entry("mood"@, opt_text(c.mood));
    lemma_fixed_members(seq![("date"@, Json::Str(c.date@))]);
    lemma_fixed_members(seq![("timeOfDay"@, Json::Str(c.time_of_day@))]);
    let a = text_entry("weather"@, opt_text(c.weather));
    let b = text_entry("location"@, opt_text(c.location));
    let m = text_entry("mood"@, opt_text(c.mood));
    lemma_members_concat(a, b);
    lemma_members_concat(a + b, m);
    lemma_members_concat(a + b + m, seq![("date"@, Json::Str(c.date@))]);
    lemma_members_concat(
        a + b + m + seq![("date"@, Json::Str(c.date@))],
        seq![("timeOfDay"@, Json::Str(c.time_of_day@))],
    );
}

proof fn lemma_story_null_free(s: StoryMetadata)
    ensures
        null_free(Json::Object(story_members(s))),
{
    let part1 = text_entry("seriesId"@, opt_text(s.series_id));
    let part2 = seq![("seriesTitle"@, Json::Str(s.series_title@))];
    let part3 = seq![("chapterNumber"@, whole(s.chapter_number as int))];
    let part4 = whole_entry("totalChapters"@, s.total_chapters);
    let part5 = seq![("genre"@, Json::Str(s.genre@))];
    let part6 = seq![("isOngoing"@, Json::Bool(s.is_ongoing))];
    let part7 = text_entry("synopsis"@, opt_text(s.synopsis));
    let part8 = text_entry("previousChapterId"@, opt_text(s.previous_chapter_id));
    let part9 = text_entry("nextChapterId"@, opt_text(s.next_chapter_id));
    lemma_text_entry("seriesId"@, opt_text(s.series_id));
    lemma_fixed_members(part2);
    lemma_fixed_members(part3);
    lemma_fixed_members(part4);
    lemma_fixed_members(part5);
    lemma_fixed_members(part6);
    lemma_text_entry("synopsis"@, opt_text(s.synopsis));
    lemma_text_entry("previousChapterId"@, opt_text(s.previous_chapter_id));
    lemma_text_entry("nextChapterId"@, opt_text(s.next_chapter_id));
    lemma_members_concat(part1, part2);
    lemma_members_concat(part1 + part2, part3);
    lemma_members_concat(part1 + part2 + part3, part4);
    lemma_members_concat(part1 + part2 + part3 + part4, part5);
    lemma_members_concat(part1 + part2 + part3 + part4 + part5, part6);
    lemma_members_concat(part1 + part2 + part3 + part4 + part5 + part6, part7);
    lemma_members_concat(part1 + part2 + part3 + part4 + part5 + part6 + part7, part8);
    lemma_members_concat(part1 + part2 + part3 + part4 + part5 + part6 + part7 + part8, part9);
}

proof fn lemma_article_null_free(a: ArticleMetadata)
    ensures
        null_free(Json::Object(article_members(a))),
{
    let part1 = seq![("headline"@, Json::Str(a.headline@))];
    let part2 = text_entry("byline"@, opt_text(a.byline));
    let part3 = seq![("category"@, Json::Str(a.category@))];
    let part4 = text_entry("subcategory"@, opt_text(a.subcategory));
    let part5 = text_entry("dateline"@, opt_text(a.dateline));
    let part6 = texts_entry("sources"@, opt_texts(a.sources));
    let part7 = flag_entry("isBreaking"@, a.is_breaking);
    let part8 = flag_entry("isOpinion"@, a.is_opinion);
    let part9 = flag_entry("isAnalysis"@, a.is_analysis);
    lemma_fixed_members(part1);
    lemma_text_entry("byline"@, opt_text(a.byline));
    lemma_fixed_members(part3);
    lemma_text_entry("subcategory"@, opt_text(a.subcategory));
    lemma_text_entry("dateline"@, opt_text(a.dateline));
    lemma_texts_entry("sources"@, opt_texts(a.sources));
    lemma_fixed_members(part7);
    lemma_fixed_members(part8);
    lemma_fixed_members(part9);
    lemma_members_concat(part1, part2);
    lemma_members_concat(part1 + part2, part3);
    lemma_members_concat(part1 + part2 + part3, part4);
    lemma_members_concat(part1 + part2 + part3 + part4, part5);
    lemma_members_concat(part1 + part2 + part3 + part4 + part5, part6);
    lemma_members_concat(part1 + part2 + part3 + part4 + part5 + part6, part7);
    lemma_members_concat(part1 + part2 + part3 + part4 + part5 + part6 + part7, part8);
    lemma_members_concat(part1 + part2 + part3 + part4 + part5 + part6 + part7 + part8, part9);
}

/// The metadata object of every entry is free of `null` at every depth:
/// absent optional fields are left out, never sent as null.
pub proof fn lemma_metadata_null_free(e: NatLangChainEntry)
    ensures
        null_free(Json::Object(metadata_members(e))),
{
    let part1 = text_entry("title"@, opt_text(e.title));
    let part2 = texts_entry("tags"@, opt_texts(e.tags));
    let part3 = seq![("content_type"@, Json::Str(e.content_type@))];
    let part4 = seq![("monetization"@, Json::Str(e.monetization@))];
    let part5 = price_entry(e);
    let part6 = seq![("visibility"@, Json::Str(e.visibility@))];
    let part7 = context_entry(e.context);
    let part8 = story_entry(e.story_metadata);
    let part9 = article_entry(e.article_metadata);
    let part10 = seq![("created_at"@, Json::Str(e.created_at@))];
    lemma_text_entry("title"@, opt_text(e.title));
    lemma_texts_entry("tags"@, opt_texts(e.tags));
    lemma_fixed_members(part3);
    lemma_fixed_members(part4);
    lemma_fixed_members(part5);
    lemma_fixed_members(part6);
    if let Some(c) = e.context {
        lemma_context_null_free(c);
        assert(part7[0].1 == Json::Object(context_members(c)));
    }
    if let Some(s) = e.story_metadata {
        lemma_story_null_free(s);
        assert(part8[0].1 == Json::Object(story_members(s)));
    }
    if let Some(a) = e.article_metadata {
        lemma_article_null_free(a);
        assert(part9[0].1 == Json::Object(article_members(a)));
    }
    lemma_fixed_members(part10);
    lemma_members_concat(part1, part2);
    lemma_members_concat(part1 + part2, part3);
    lemma_members_concat(part1 + part2 + part3, part4);
    lemma_members_concat(part1 + part2 + part3 + part4, part5);
    lemma_members_concat(part1 + part2 + part3 + part4 + part5, part6);
    lemma_members_concat(part1 + part2 + part3 + part4 + part5 + part6, part7);
    lemma_members_concat(part1 + part2 + part3 + part4 + part5 + part6 + part7, part8);
    lemma_members_concat(part1 + part2 + part3 + part4 + part5 + part6 + part7 + part8, part9);
    lemma_members_concat(part1 + part2 + part3 + part4 + part5 + part6 + part7 + part8 + part9, part10);
}

/// Reading the metadata back out of the serialized request of any entry
/// gives an object with no `null` at any depth.
pub proof fn lemma_request_metadata_null_free(e: NatLangChainEntry)
    ensures
        member(request_members(e), "metadata"@) == Some(Json::Object(metadata_members(e))),
        null_free(Json::Object(metadata_members(e))),
{
    reveal_strlit("content");
    reveal_strlit("author");
    reveal_strlit("intent");
    reveal_strlit("metadata");
    let fs = request_members(e);
    assert(fs[0].0[0] != "metadata"@[0]);
    assert(fs[1].0[0] != "metadata"@[0]);
    assert(fs[2].0 != "metadata"@);
    assert(find_from(fs, "metadata"@, 3) == Some(Json::Object(metadata_members(e))));
    assert(find_from(fs, "metadata"@, 2) == find_from(fs, "metadata"@, 3));
    assert(find_from(fs, "metadata"@, 1) == find_from(fs, "metadata"@, 2));
    assert(find_from(fs, "metadata"@, 0) == find_from(fs, "metadata"@, 1));
    lemma_metadata_null_free(e);
}

} // verus!

verus! {

use crate::json::{has_key, lemma_has_key_concat, lemma_has_key_small};

/// Which members of the metadata object are named `k`, part by part.
proof fn lemma_metadata_key(e: NatLangChainEntry, k: Seq<char>)
    ensures
        has_key(metadata_members(e), k) == ((e.title is Some && k == "title"@) || (e.tags is Some
            && k == "tags"@) || k == "content_type"@ || k == "monetization"@ || (e.price is Some
            && e.monetization@ != "free"@ && k == "price"@) || k == "visibility"@ || (
        e.context is Some && k == "context"@) || (e.story_metadata is Some && k
            == "story_metadata"@) || (e.article_metadata is Some && k == "article_metadata"@) || k
            == "created_at"@),
{
    let part1 = text_entry("title"@, opt_text(e.title));
    let part2 = texts_entry("tags"@, opt_texts(e.tags));
    let part3 = seq![("content_type"@, Json::Str(e.content_type@))];
    let part4 = seq![("monetization"@, Json::Str(e.monetization@))];
    let part5 = price_entry(e);
    let part6 = seq![("visibility"@, Json::Str(e.visibility@))];
    let part7 = context_entry(e.context);
    let part8 = story_entry(e.story_metadata);
    let part9 = article_entry(e.article_metadata);
    let part10 = seq![("created_at"@, Json::Str(e.created_at@))];
    lemma_has_key_small(part1, k);
    lemma_has_key_small(part2, k);
    lemma_has_key_small(part3, k);
    lemma_has_key_small(part4, k);
    lemma_has_key_small(part5, k);
    lemma_has_key_small(part6, k);
    lemma_has_key_small(part7, k);
    lemma_has_key_small(part8, k);
    lemma_has_key_small(part9, k);
    lemma_has_key_small(part10, k);
    lemma_has_key_concat(part1, part2, k);
    lemma_has_key_concat(part1 + part2, part3, k);
    lemma_has_key_concat(part1 + part2 + part3, part4, k);
    lemma_has_key_concat(part1 + part2 + part3 + part4, part5, k);
    lemma_has_key_concat(part1 + part2 + part3 + part4 + part5, part6, k);
    lemma_has_key_concat(part1 + part2 + part3 + part4 + part5 + part6, part7, k);
    lemma_has_key_concat(part1 + part2 + part3 + part4 + part5 + part6 + part7, part8, k);
    lemma_has_key_concat(part1 + part2 + part3 + part4 + part5 + part6 + part7 + part8, part9, k);
    lemma_has_key_concat(
        part1 + part2 + part3 + part4 + part5 + part6 + part7 + part8 + part9,
        part10,
        k,
    );
}

/// The member names of the metadata object are pairwise different.
proof fn lemma_metadata_names_differ()
    ensures
        "title"@ != "tags"@ && "title"@ != "content_type"@ && "title"@ != "monetization"@
            && "title"@ != "price"@ && "title"@ != "visibility"@ && "title"@ != "context"@
            && "title"@ != "story_metadata"@ && "title"@ != "article_metadata"@ && "title"@
            != "created_at"@,
        "tags"@ != "content_type"@ && "tags"@ != "monetization"@ && "tags"@ != "price"@ && "tags"@
            != "visibility"@ && "tags"@ != "context"@ && "tags"@ != "story_metadata"@ && "tags"@
            != "article_metadata"@ && "tags"@ != "created_at"@,
        "price"@ != "content_type"@ && "price"@ != "monetization"@ && "price"@ != "visibility"@
            && "price"@ != "context"@ && "price"@ != "story_metadata"@ && "price"@
            != "article_metadata"@ && "price"@ != "created_at"@,
        "context"@ != "content_type"@ && "context"@ != "monetization"@ && "context"@
            != "visibility"@ && "context"@ != "story_metadata"@ && "context"@ != "article_metadata"@
            && "context"@ != "created_at"@,
        "story_metadata"@ != "content_type"@ && "story_metadata"@ != "monetization"@
            && "story_metadata"@ != "visibility"@ && "story_metadata"@ != "article_metadata"@
            && "story_metadata"@ != "created_at"@,
        "article_metadata"@ != "content_type"@ && "article_metadata"@ != "monetization"@
            && "article_metadata"@ != "visibility"@ && "article_metadata"@ != "created_at"@,
{
    reveal_strlit("title");
    reveal_strlit("tags");
    reveal_strlit("content_type");
    reveal_strlit("monetization");
    reveal_strlit("price");
    reveal_strlit("visibility");
    reveal_strlit("context");
    reveal_strlit("story_metadata");
    reveal_strlit("article_metadata");
    reveal_strlit("created_at");
    assert("title"@.len() == 5 && "title"@[0] == 't');
    assert("tags"@.len() == 4 && "tags"@[0] == 't');
    assert("content_type"@.len() == 12 && "content_type"@[0] == 'c');
    assert("monetization"@.len() == 12 && "monetization"@[0] == 'm');
    assert("price"@.len() == 5 && "price"@[0] == 'p');
    assert("visibility"@.len() == 10 && "visibility"@[0] == 'v');
    assert("context"@.len() == 7 && "context"@[0] == 'c');
    assert("story_metadata"@.len() == 14 && "story_metadata"@[0] == 's');
    assert("article_metadata"@.len() == 16 && "article_metadata"@[0] == 'a');
    assert("created_at"@.len() == 10 && "created_at"@[0] == 'c');
}

/// Each optional member of the metadata object is there exactly when its
/// field is: the title, the tags, the context, the story and article
/// metadata, and the price of a paid entry. The required members always are.
pub proof fn lemma_metadata_keys(e: NatLangChainEntry)
    ensures
        has_key(metadata_members(e), "title"@) <==> e.title is Some,
        has_key(metadata_members(e), "tags"@) <==> e.tags is Some,
        has_key(metadata_members(e), "price"@) <==> (e.price is Some && e.monetization@
            != "free"@),
        has_key(metadata_members(e), "context"@) <==> e.context is Some,
        has_key(metadata_members(e), "story_metadata"@) <==> e.story_metadata is Some,
        has_key(metadata_members(e), "article_metadata"@) <==> e.article_metadata is Some,
        has_key(metadata_members(e), "content_type"@),
        has_key(metadata_members(e), "monetization"@),
        has_key(metadata_members(e), "visibility"@),
        has_key(metadata_members(e), "created_at"@),
{
    lemma_metadata_names_differ();
    lemma_metadata_key(e, "title"@);
    lemma_metadata_key(e, "tags"@);
    lemma_metadata_key(e, "price"@);
    lemma_metadata_key(e, "context"@);
    lemma_metadata_key(e, "story_metadata"@);
    lemma_metadata_key(e, "article_metadata"@);
    lemma_metadata_key(e, "content_type"@);
    lemma_metadata_key(e, "monetization"@);
    lemma_metadata_key(e, "visibility"@);
    lemma_metadata_key(e, "created_at"@);
}

} // verus!
