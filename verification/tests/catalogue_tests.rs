use comicdb::catalogue::{
    comic_from_volume, page_is_readable, push_page_comics, search_url_for, volume_is_italian,
    volume_is_readable, IndustryIdentifier, OnlineSearch, SearchPage, VolumeRecord,
};
use comicdb::types::Comic;

fn s(x: &str) -> Option<String> {
    Some(x.to_string())
}

fn id(kind: &str, value: &str) -> IndustryIdentifier {
    IndustryIdentifier { kind: s(kind), identifier: s(value) }
}

fn volume(isbn13: &str, title: &str, italian: bool) -> VolumeRecord {
    VolumeRecord {
        country: if italian { s("IT") } else { s("US") },
        language: if italian { s("it") } else { s("en") },
        identifiers: Some(vec![id("ISBN_10", "8822600000"), id("ISBN_13", isbn13)]),
        title: s(title),
        thumbnail: s("http://thumb"),
        first_author: s("Autore"),
    }
}

fn filter(isbn: &str, title: &str, author: &str) -> Comic {
    let mut c = Comic::default();
    c.isbn = isbn.to_string();
    c.title = title.to_string();
    c.author = author.to_string();
    c.genre = "ignored".to_string();
    c
}

#[test]
fn url_with_every_term() {
    let url = search_url_for(&filter("978", "Dylan Dog", "Sclavi"), None);
    assert_eq!(
        url,
        "https://www.googleapis.com/books/v1/volumes?q=isbn:978intitle:Dylan Doginauthor:Sclavi&langRestrict=it&maxResults=40"
    );
}

#[test]
fn url_without_terms() {
    let url = search_url_for(&Comic::default(), None);
    assert_eq!(url, "https://www.googleapis.com/books/v1/volumes?q=&langRestrict=it&maxResults=40");
}

#[test]
fn url_of_a_later_page() {
    let url = search_url_for(&filter("", "Tex", ""), Some(80));
    assert_eq!(
        url,
        "https://www.googleapis.com/books/v1/volumes?q=intitle:Tex&langRestrict=it&maxResults=40&startIndex=80"
    );
}

#[test]
fn volume_becomes_comic() {
    let c = comic_from_volume(&volume("9788800000001", "Tex 1", true));
    assert_eq!(c.isbn, "9788800000001");
    assert_eq!(c.title, "Tex 1");
    assert_eq!(c.author, "Autore");
    assert_eq!(c.image, "http://thumb");
    assert_eq!(c.genre, "");
    assert_eq!(c.price_bits, 0);
    assert_eq!(c.quantity, 0);
    assert_eq!(c.volume, 0);
    assert!(!c.active);
    assert_eq!(c.id_comic, 0);
}

#[test]
fn missing_fields_take_defaults() {
    let r = VolumeRecord {
        country: None,
        language: None,
        identifiers: None,
        title: None,
        thumbnail: None,
        first_author: None,
    };
    let c = comic_from_volume(&r);
    assert_eq!(c.isbn, "");
    assert_eq!(c.title, "Non disponibile");
    assert_eq!(c.author, "Non disponibile");
    assert_eq!(c.image, "");
}

#[test]
fn isbn_joins_every_isbn13_in_order() {
    let r = VolumeRecord {
        identifiers: Some(vec![
            id("ISBN_13", "111"),
            id("OTHER", "999"),
            IndustryIdentifier { kind: None, identifier: None },
            id("ISBN_13", "222"),
        ]),
        ..volume("x", "t", true)
    };
    assert!(volume_is_readable(&r));
    assert_eq!(comic_from_volume(&r).isbn, "111222");
}

#[test]
fn isbn13_without_text_is_unreadable() {
    let r = VolumeRecord {
        identifiers: Some(vec![id("ISBN_13", "111"), IndustryIdentifier { kind: s("ISBN_13"), identifier: None }]),
        ..volume("x", "t", true)
    };
    assert!(!volume_is_readable(&r));
    let page = SearchPage { total_items: Some(1), items: Some(vec![volume("1", "a", true), r.clone()]) };
    assert!(!page_is_readable(&page, false));
    assert!(!page_is_readable(&page, true));
    let foreign = VolumeRecord { country: s("US"), ..r };
    let later = SearchPage { total_items: None, items: Some(vec![volume("1", "a", true), foreign]) };
    assert!(!page_is_readable(&later, false));
    assert!(page_is_readable(&later, true));
    let ok = SearchPage { total_items: None, items: None };
    assert!(page_is_readable(&ok, false));
}

#[test]
fn italian_means_sold_in_italy_and_in_italian() {
    assert!(volume_is_italian(&volume("1", "a", true)));
    assert!(!volume_is_italian(&volume("1", "a", false)));
    let half = VolumeRecord { language: s("en"), ..volume("1", "a", true) };
    assert!(!volume_is_italian(&half));
    let none = VolumeRecord { country: None, ..volume("1", "a", true) };
    assert!(!volume_is_italian(&none));
}

#[test]
fn filtered_page_keeps_italian_volumes_in_order() {
    let page = SearchPage {
        total_items: Some(3),
        items: Some(vec![volume("1", "a", true), volume("2", "b", false), volume("3", "c", true)]),
    };
    let mut out = Vec::new();
    push_page_comics(&mut out, &page, true);
    let isbns: Vec<String> = out.iter().map(|c| c.isbn.clone()).collect();
    assert_eq!(isbns, vec!["1", "3"]);
    let mut all = Vec::new();
    push_page_comics(&mut all, &page, false);
    assert_eq!(all.len(), 3);
}

#[test]
fn search_reads_later_pages_from_the_total() {
    let query = filter("", "Tex", "");
    let first = SearchPage {
        total_items: Some(125),
        items: Some(vec![volume("1", "a", false), volume("2", "b", true)]),
    };
    let mut search = OnlineSearch::start(&query, &first);
    let mut urls = Vec::new();
    let later = vec![
        SearchPage { total_items: Some(125), items: Some(vec![volume("3", "c", false), volume("4", "d", true)]) },
        SearchPage { total_items: None, items: Some(vec![volume("5", "e", true)]) },
    ];
    let mut k = 0;
    while let Some(url) = search.next_url() {
        urls.push(url);
        search.accept(&later[k]);
        k += 1;
    }
    assert_eq!(
        urls,
        vec![
            "https://www.googleapis.com/books/v1/volumes?q=intitle:Tex&langRestrict=it&maxResults=40&startIndex=40",
            "https://www.googleapis.com/books/v1/volumes?q=intitle:Tex&langRestrict=it&maxResults=40&startIndex=80",
        ]
    );
    let found: Vec<String> = search.into_results().into_iter().map(|c| c.isbn).collect();
    assert_eq!(found, vec!["1", "2", "4", "5"]);
}

#[test]
fn search_with_fewer_than_two_pages_reads_only_the_first() {
    let first = SearchPage { total_items: Some(79), items: Some(vec![volume("1", "a", false)]) };
    let search = OnlineSearch::start(&Comic::default(), &first);
    assert!(search.next_url().is_none());
    assert_eq!(search.into_results().len(), 1);
    let empty = SearchPage { total_items: None, items: None };
    let search = OnlineSearch::start(&Comic::default(), &empty);
    assert!(search.next_url().is_none());
    assert!(search.into_results().is_empty());
}
