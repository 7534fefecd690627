use kanime::cache_key::{allocate_cache_key, is_valid_cache_key, CACHE_KEY_ALPHABET, CACHE_KEY_LENGTH};
use kanime::routes::{
    backup_file_name, has_object_id_length, needs_sync, to_oid, BatchQueue, SearchQuery,
    ANIMES_INDEX_BATCH_SIZE,
};
use kanime::seo::{
    sitemap, sitemap_entry, sitemap_footer, sitemap_header, write_escaped, Metadata,
};

fn query(text: &str) -> SearchQuery {
    SearchQuery::new(String::from(text), None, None)
}

#[test]
fn query_length_is_between_2_and_128_bytes() {
    assert!(!query("").validate());
    assert!(!query("a").validate());
    assert!(query("ab").validate());
    assert!(query(&"x".repeat(128)).validate());
    assert!(!query(&"x".repeat(129)).validate());
}

#[test]
fn query_length_is_counted_in_bytes() {
    assert!(query("\u{e9}").validate());
    assert!(query(&"\u{e9}".repeat(64)).validate());
    assert!(!query(&"\u{e9}".repeat(65)).validate());
}

#[test]
fn search_limits_are_applied() {
    assert_eq!(query("ab").effective_limit(), 10);
    assert_eq!(query("ab").effective_offset(), 0);
    assert_eq!(query("ab").text(), "ab");
    let q = SearchQuery::new(String::from("ab"), Some(30), Some(50));
    assert_eq!((q.effective_offset(), q.effective_limit()), (30, 50));
    assert_eq!(SearchQuery::new(String::from("ab"), None, Some(100)).effective_limit(), 100);
    assert_eq!(SearchQuery::new(String::from("ab"), None, Some(101)).effective_limit(), 100);
    assert_eq!(SearchQuery::new(String::from("ab"), None, Some(0)).effective_limit(), 0);
    assert_eq!(SearchQuery::new(String::from("ab"), Some(4294967295), Some(4294967295)).effective_offset(), 4294967295);
}

#[test]
fn object_ids_have_24_bytes() {
    assert!(has_object_id_length("63b44f977ef2f272e15f61ca"));
    assert!(!has_object_id_length("63b44f977ef2f272e15f61c"));
    assert!(!has_object_id_length("63b44f977ef2f272e15f61ca0"));
    assert!(!has_object_id_length(""));
    assert!(has_object_id_length(&"\u{e9}".repeat(12)));
}

#[test]
fn backup_is_named_after_the_series() {
    assert_eq!(backup_file_name("63b44f977ef2f272e15f61ca"), "63b44f977ef2f272e15f61ca.deleted.json");
}

#[test]
fn index_is_filled_when_the_counts_differ() {
    assert!(!needs_sync(0, 0));
    assert!(!needs_sync(12, 12));
    assert!(needs_sync(11, 12));
    assert!(needs_sync(13, 12));
}

#[test]
fn entries_leave_in_batches_of_32_in_order() {
    assert_eq!(ANIMES_INDEX_BATCH_SIZE, 32);
    let mut queue = BatchQueue::new();
    let mut batches: Vec<Vec<u32>> = Vec::new();
    for i in 0..70u32 {
        let (next, batch) = queue.push(i);
        queue = next;
        if let Some(batch) = batch {
            batches.push(batch);
        }
    }
    assert_eq!(batches.len(), 2);
    assert_eq!(batches[0], (0..32).collect::<Vec<u32>>());
    assert_eq!(batches[1], (32..64).collect::<Vec<u32>>());
    assert_eq!(queue.finish(), Some((64..70).collect::<Vec<u32>>()));
}

#[test]
fn nothing_is_left_after_a_full_batch() {
    let mut queue = BatchQueue::new();
    for i in 0..31u8 {
        let (next, batch) = queue.push(i);
        assert!(batch.is_none());
        queue = next;
    }
    let (queue, batch) = queue.push(31);
    assert_eq!(batch.unwrap().len(), 32);
    assert_eq!(queue.finish(), None);
    assert_eq!(BatchQueue::<u8>::new().finish(), None);
}

#[test]
fn cache_keys_have_twenty_characters_of_the_alphabet() {
    assert_eq!(CACHE_KEY_LENGTH, 20);
    assert_eq!(CACHE_KEY_ALPHABET.len(), 60);
    assert!(!CACHE_KEY_ALPHABET.contains('l'));
    assert!(!CACHE_KEY_ALPHABET.contains('L'));
    for _ in 0..200 {
        let key = allocate_cache_key();
        assert_eq!(key.chars().count(), 20);
        assert!(key.chars().all(|c| CACHE_KEY_ALPHABET.contains(c)));
        assert!(is_valid_cache_key(&key));
    }
}

#[test]
fn cache_keys_differ_from_one_another() {
    let first = allocate_cache_key();
    let second = allocate_cache_key();
    let third = allocate_cache_key();
    assert!(first != second || second != third);
}

#[test]
fn ill_shaped_cache_keys_are_told() {
    assert!(is_valid_cache_key("ABCDEFGHIJKMNOPQRSTU"));
    assert!(is_valid_cache_key("abcdefghijkmnopq0123"));
    assert!(!is_valid_cache_key("ABCDEFGHIJKLMNOPQRST"));
    assert!(!is_valid_cache_key("abcdefghijklmnopqrst"));
    assert!(!is_valid_cache_key("ABCDEFGHIJKMNOPQRST"));
    assert!(!is_valid_cache_key("ABCDEFGHIJKMNOPQRSTUV"));
    assert!(!is_valid_cache_key("ABCDEFGHIJKMNOPQRS/U"));
    assert!(!is_valid_cache_key(""));
}

#[test]
fn xml_text_is_escaped() {
    let mut out = String::from(">");
    write_escaped(&mut out, "a&b'c>d<e\"f");
    assert_eq!(out, ">a&amp;b&apos;c&gt;d&lt;e\"f");
    let mut out = String::new();
    write_escaped(&mut out, "");
    assert_eq!(out, "");
    write_escaped(&mut out, "&&\u{e9}");
    assert_eq!(out, "&amp;&amp;\u{e9}");
}

#[test]
fn sitemap_entry_shows_the_last_change() {
    let entry = Metadata { id: String::from("63b44f977ef2f272e15f61ca"), updated_on: 1672531200000 };
    assert_eq!(
        sitemap_entry("kanime.example", &entry),
        "<url><loc>https://kanime.example/anime/63b44f977ef2f272e15f61ca</loc><lastmod>2023-01-01T00:00:00+00:00</lastmod></url>"
    );
    let epoch = Metadata { id: String::from("a<b"), updated_on: 0 };
    assert_eq!(
        sitemap_entry("d", &epoch),
        "<url><loc>https://d/anime/a&lt;b</loc><lastmod>1970-01-01T00:00:00+00:00</lastmod></url>"
    );
    let millis = Metadata { id: String::from("x"), updated_on: 1672531200123 };
    assert_eq!(
        sitemap_entry("d", &millis),
        "<url><loc>https://d/anime/x</loc><lastmod>2023-01-01T00:00:00.123+00:00</lastmod></url>"
    );
}

#[test]
fn sitemap_entry_without_a_date_changes_monthly() {
    for updated_on in [u64::MAX, 9223372036854775808, 9223372036854775807, 9000000000000000000] {
        let entry = Metadata { id: String::from("x"), updated_on };
        assert_eq!(
            sitemap_entry("d", &entry),
            "<url><loc>https://d/anime/x</loc><changefreq>monthly</changefreq></url>"
        );
    }
}

#[test]
fn sitemap_is_a_urlset() {
    assert_eq!(sitemap_header(), "<urlset xmlns=\"http://www.sitemaps.org/schemas/sitemap/0.9\">");
    assert_eq!(sitemap_footer(), "</urlset>");
}

#[test]
fn sitemap_lists_the_entries_in_order() {
    let entries = vec![
        Metadata { id: String::from("a"), updated_on: 0 },
        Metadata { id: String::from("b&c"), updated_on: u64::MAX },
    ];
    assert_eq!(
        sitemap("d", &entries),
        "<urlset xmlns=\"http://www.sitemaps.org/schemas/sitemap/0.9\">\
<url><loc>https://d/anime/a</loc><lastmod>1970-01-01T00:00:00+00:00</lastmod></url>\
<url><loc>https://d/anime/b&amp;c</loc><changefreq>monthly</changefreq></url>\
</urlset>"
    );
    assert_eq!(
        sitemap("d", &Vec::new()),
        "<urlset xmlns=\"http://www.sitemaps.org/schemas/sitemap/0.9\"></urlset>"
    );
}

#[test]
fn object_ids_are_24_hexadecimal_digits() {
    assert_eq!(
        to_oid("63b44f977ef2f272e15f61ca"),
        Some([0x63, 0xb4, 0x4f, 0x97, 0x7e, 0xf2, 0xf2, 0x72, 0xe1, 0x5f, 0x61, 0xca])
    );
    assert_eq!(
        to_oid("63B44F977EF2F272E15F61CA"),
        Some([0x63, 0xb4, 0x4f, 0x97, 0x7e, 0xf2, 0xf2, 0x72, 0xe1, 0x5f, 0x61, 0xca])
    );
    assert_eq!(to_oid("000000000000000000000000"), Some([0u8; 12]));
    assert_eq!(to_oid("ffffffffffffffffffffffff"), Some([255u8; 12]));
}

#[test]
fn texts_that_are_no_object_id_are_refused() {
    assert_eq!(to_oid(""), None);
    assert_eq!(to_oid("63b44f977ef2f272e15f61c"), None);
    assert_eq!(to_oid("63b44f977ef2f272e15f61ca0"), None);
    assert_eq!(to_oid("63b44f977ef2f272e15f61cg"), None);
    assert_eq!(to_oid("63b44f977ef2f272e15f61c "), None);
    assert_eq!(to_oid(&"\u{e9}".repeat(12)), None);
}
