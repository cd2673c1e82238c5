//! The search of the online book catalogue: the address of each page of
//! results, what a volume of a page becomes, and the walk over the pages.
//!
//! A page of results reaches the library as a `SearchPage`: the parts of the
//! catalogue's answer that the search reads, each present where the answer
//! holds it with the expected kind.

use vstd::prelude::*;
use crate::types::{Comic, ComicView, comic_views, empty_comic, text_or, text_reads,
    optional_text_is};
use crate::text::{decimal, push_decimal};

verus! {

/// Volumes on one page of results.
pub const PAGE_SIZE: u64 = 40;

/// One entry of a volume's `industryIdentifiers`.
#[derive(Clone, Debug, PartialEq)]
pub struct IndustryIdentifier {
    /// `type`, where it is a text.
    pub kind: Option<String>,
    /// `identifier`, where it is a text.
    pub identifier: Option<String>,
}

/// The parts of one volume of the answer that the search reads.
#[derive(Clone, Debug, PartialEq)]
pub struct VolumeRecord {
    /// `saleInfo.country`, where it is a text.
    pub country: Option<String>,
    /// `volumeInfo.language`, where it is a text.
    pub language: Option<String>,
    /// `volumeInfo.industryIdentifiers`, where it is an array.
    pub identifiers: Option<Vec<IndustryIdentifier>>,
    /// `volumeInfo.title`, where it is a text.
    pub title: Option<String>,
    /// `volumeInfo.imageLinks.thumbnail`, where it is a text.
    pub thumbnail: Option<String>,
    /// `volumeInfo.authors[0]`, where it is a text.
    pub first_author: Option<String>,
}

/// The parts of one page of the answer that the search reads.
#[derive(Clone, Debug, PartialEq)]
pub struct SearchPage {
    /// `totalItems`, where it is an unsigned integer.
    pub total_items: Option<u64>,
    /// `items`, where it is an array.
    pub items: Option<Vec<VolumeRecord>>,
}

/// The identifier is an ISBN-13.
pub open spec fn is_isbn13(id: IndustryIdentifier) -> bool {
    text_reads(id.kind, "ISBN_13"@)
}

/// The identifiers of a volume (none where the answer holds no array).
pub open spec fn record_ids(r: VolumeRecord) -> Seq<IndustryIdentifier> {
    match r.identifiers {
        Some(v) => v@,
        None => Seq::empty(),
    }
}

/// The volumes of a page (none where the answer holds no array).
pub open spec fn page_records(p: SearchPage) -> Seq<VolumeRecord> {
    match p.items {
        Some(v) => v@,
        None => Seq::empty(),
    }
}

/// The ISBN of a volume: its ISBN-13 identifiers, one after the other.
pub open spec fn isbn_of(ids: Seq<IndustryIdentifier>) -> Seq<char>
    decreases ids.len(),
{
    if ids.len() == 0 {
        Seq::empty()
    } else {
        isbn_of(ids.drop_last()) + (if is_isbn13(ids.last()) {
            text_or(ids.last().identifier, Seq::empty())
        } else {
            Seq::empty()
        })
    }
}

/// Every ISBN-13 entry has a textual identifier; the search cannot read a
/// volume where one has not.
pub open spec fn record_ok(r: VolumeRecord) -> bool {
    forall|i: int|
        0 <= i < record_ids(r).len() && #[trigger] is_isbn13(record_ids(r)[i])
            ==> record_ids(r)[i].identifier is Some
}

/// Every volume of the page that the search keeps can be read: all of them,
/// or with `italian_only` the Italian ones.
pub open spec fn page_ok(p: SearchPage, italian_only: bool) -> bool {
    forall|i: int|
        0 <= i < page_records(p).len() && (!italian_only || is_italian(page_records(p)[i]))
            ==> #[trigger] record_ok(page_records(p)[i])
}

/// The comic that a volume becomes: its ISBN, its title (or "Non disponibile"),
/// its thumbnail (or nothing) and its first author (or "Non disponibile");
/// everything else empty.
pub open spec fn volume_comic(r: VolumeRecord) -> ComicView {
    ComicView {
        isbn: isbn_of(record_ids(r)),
        title: text_or(r.title, "Non disponibile"@),
        image: text_or(r.thumbnail, Seq::empty()),
        author: text_or(r.first_author, "Non disponibile"@),
        ..empty_comic()
    }
}

/// The volume is sold in Italy and written in Italian.
pub open spec fn is_italian(r: VolumeRecord) -> bool {
    text_reads(r.country, "IT"@) && text_reads(r.language, "it"@)
}

/// The comics of a page, in order; with `italian_only`, of its Italian
/// volumes alone.
pub open spec fn page_comics(records: Seq<VolumeRecord>, italian_only: bool) -> Seq<ComicView>
    decreases records.len(),
{
    if records.len() == 0 {
        Seq::empty()
    } else if italian_only && !is_italian(records.last()) {
        page_comics(records.drop_last(), italian_only)
    } else {
        page_comics(records.drop_last(), italian_only).push(volume_comic(records.last()))
    }
}

/// The pages that the search reads past the first: as many as there are
/// full pages of results, counting the first.
pub open spec fn total_pages(p: SearchPage) -> nat {
    (match p.total_items {
        Some(n) => n,
        None => 0u64,
    }) as nat / 40
}

/// The search terms for a filter: ISBN, title and author, each where given.
pub open spec fn query_terms(c: ComicView) -> Seq<char> {
    (if c.isbn.len() == 0 { Seq::empty() } else { "isbn:"@ + c.isbn })
    + (if c.title.len() == 0 { Seq::empty() } else { "intitle:"@ + c.title })
    + (if c.author.len() == 0 { Seq::empty() } else { "inauthor:"@ + c.author })
}

/// The address of a page of results for the filter `c`: Italian volumes,
/// forty to a page, starting at `start` where it is given.
pub open spec fn search_url(c: ComicView, start: Option<nat>) -> Seq<char> {
    "https://www.googleapis.com/books/v1/volumes?q="@ + query_terms(c)
        + "&langRestrict=it&maxResults=40"@ + match start {
        Some(n) => "&startIndex="@ + decimal(n),
        None => Seq::empty(),
    }
}

/// The address of a page of results for the filter `query`, from the
/// volume `start` on where it is given.
pub fn search_url_for(query: &Comic, start: Option<u64>) -> (url: String)
    ensures
        url@ == search_url(
            query@,
            match start {
                Some(n) => Some(n as nat),
                None => None,
            },
        ),
{
    let mut url = String::from_str("https://www.googleapis.com/books/v1/volumes?q=");
    let ghost base = url@;
    if !query.isbn.as_str().is_empty() {
        url.append("isbn:");
        url.append(query.isbn.as_str());
    }
    let ghost with_isbn = url@;
    if !query.title.as_str().is_empty() {
        url.append("intitle:");
        url.append(query.title.as_str());
    }
    let ghost with_title = url@;
    if !query.author.as_str().is_empty() {
        url.append("inauthor:");
        url.append(query.author.as_str());
    }
    assert(url@ =~= base + query_terms(query@));
    url.append("&langRestrict=it&maxResults=40");
    let ghost before_start = url@;
    match start {
        Some(n) => {
            url.append("&startIndex=");
            push_decimal(&mut url, n);
            assert(url@ =~= before_start + ("&startIndex="@ + decimal(n as nat)));
        },
        None => {
            assert(url@ =~= before_start + Seq::<char>::empty());
        },
    }
    url
}

fn is_isbn13_entry(id: &IndustryIdentifier) -> (b: bool)
    ensures
        b == is_isbn13(*id),
{
    optional_text_is(&id.kind, "ISBN_13")
}

fn isbn_from(ids: &Vec<IndustryIdentifier>) -> (isbn: String)
    requires
        forall|i: int| 0 <= i < ids@.len() && #[trigger] is_isbn13(ids@[i]) ==> ids@[i].identifier is Some,
    ensures
        isbn@ == isbn_of(ids@),
{
    let mut isbn = String::new();
    let mut i: usize = 0;
    while i < ids.len()
        invariant
            i <= ids@.len(),
            forall|j: int| 0 <= j < ids@.len() && #[trigger] is_isbn13(ids@[j]) ==> ids@[j].identifier is Some,
            isbn@ == isbn_of(ids@.take(i as int)),
        decreases ids@.len() - i,
    {
        let id = &ids[i];
        assert(ids@.take(i + 1).drop_last() =~= ids@.take(i as int));
        if is_isbn13_entry(id) {
            assert(is_isbn13(ids@[i as int]));
            match &id.identifier {
                Some(s) => {
                    isbn.append(s.as_str());
                },
                None => {},
            }
        } else {
            assert(isbn@ =~= isbn@ + Seq::<char>::empty());
        }
        i = i + 1;
    }
    assert(ids@.take(ids@.len() as int) =~= ids@);
    isbn
}

fn text_or_literal(o: &Option<String>, default: &str) -> (s: String)
    ensures
        s@ == text_or(*o, default@),
{
    match o {
        Some(t) => t.clone(),
        None => String::from_str(default),
    }
}

/// The comic that a volume of the catalogue becomes.
pub fn comic_from_volume(r: &VolumeRecord) -> (c: Comic)
    requires
        record_ok(*r),
    ensures
        c@ == volume_comic(*r),
{
    let isbn = match &r.identifiers {
        Some(ids) => {
            assert forall|i: int| 0 <= i < ids@.len() && #[trigger] is_isbn13(ids@[i]) implies ids@[i].identifier is Some by {
                assert(record_ids(*r)[i] == ids@[i]);
            }
            isbn_from(ids)
        },
        None => String::new(),
    };
    let mut c = Comic::default();
    c.isbn = isbn;
    c.title = text_or_literal(&r.title, "Non disponibile");
    c.image = match &r.thumbnail {
        Some(t) => t.clone(),
        None => String::new(),
    };
    c.author = text_or_literal(&r.first_author, "Non disponibile");
    assert(c@ == volume_comic(*r));
    c
}

/// Whether the volume is sold in Italy and written in Italian.
pub fn volume_is_italian(r: &VolumeRecord) -> (b: bool)
    ensures
        b == is_italian(*r),
{
    optional_text_is(&r.country, "IT") && optional_text_is(&r.language, "it")
}

/// Whether every ISBN-13 entry of the volume has a textual identifier.
pub fn volume_is_readable(r: &VolumeRecord) -> (b: bool)
    ensures
        b == record_ok(*r),
{
    match &r.identifiers {
        Some(ids) => {
            let mut i: usize = 0;
            while i < ids.len()
                invariant
                    i <= ids@.len(),
                    record_ids(*r) == ids@,
                    forall|j: int| 0 <= j < i && #[trigger] is_isbn13(ids@[j]) ==> ids@[j].identifier is Some,
                decreases ids@.len() - i,
            {
                if is_isbn13_entry(&ids[i]) && ids[i].identifier.is_none() {
                    assert(is_isbn13(record_ids(*r)[i as int]));
                    return false;
                }
                i = i + 1;
            }
            true
        },
        None => true,
    }
}

/// Whether every volume of the page that the search keeps can be read.
pub fn page_is_readable(p: &SearchPage, italian_only: bool) -> (b: bool)
    ensures
        b == page_ok(*p, italian_only),
{
    match &p.items {
        Some(items) => {
            let mut i: usize = 0;
            while i < items.len()
                invariant
                    i <= items@.len(),
                    page_records(*p) == items@,
                    forall|j: int| 0 <= j < i && (!italian_only || is_italian(items@[j]))
                        ==> #[trigger] record_ok(items@[j]),
                decreases items@.len() - i,
            {
                if (!italian_only || volume_is_italian(&items[i])) && !volume_is_readable(&items[i]) {
                    assert(!record_ok(page_records(*p)[i as int]));
                    return false;
                }
                i = i + 1;
            }
            true
        },
        None => true,
    }
}

/// Appends the comics of the volumes of a page, in order; with
/// `italian_only`, of its Italian volumes alone.
pub fn push_page_comics(out: &mut Vec<Comic>, page: &SearchPage, italian_only: bool)
    requires
        page_ok(*page, italian_only),
    ensures
        comic_views(final(out)@) == comic_views(old(out)@) + page_comics(page_records(*page), italian_only),
{
    match &page.items {
        Some(items) => {
            let ghost start = comic_views(out@);
            let mut i: usize = 0;
            while i < items.len()
                invariant
                    i <= items@.len(),
                    page_records(*page) == items@,
                    page_ok(*page, italian_only),
                    comic_views(out@) == start + page_comics(items@.take(i as int), italian_only),
                decreases items@.len() - i,
            {
                let r = &items[i];
                assert(items@.take(i + 1).drop_last() =~= items@.take(i as int));
                assert(items@.take(i + 1).last() == items@[i as int]);
                if !italian_only || volume_is_italian(r) {
                    assert(record_ok(page_records(*page)[i as int]));
                    let c = comic_from_volume(r);
                    let ghost before = out@;
                    out.push(c);
                    assert(comic_views(out@) =~= comic_views(before).push(c@));
                }
                i = i + 1;
            }
            assert(items@.take(items@.len() as int) =~= items@);
        },
        None => {
            assert(comic_views(out@) =~= comic_views(out@) + Seq::<ComicView>::empty());
        },
    }
}

/// Where a search of the catalogue stands.
pub struct OnlineSearchView {
    /// The filter searched for.
    pub query: ComicView,
    /// Pages counted from the first page's total.
    pub total_pages: nat,
    /// The next page to read.
    pub next_page: nat,
    /// The comics found so far.
    pub results: Seq<ComicView>,
}

/// A search of the catalogue, page by page. The first page is read whole;
/// the later pages `1 .. total_pages` are read in order, their Italian
/// volumes alone.
#[derive(Debug)]
pub struct OnlineSearch {
    query: Comic,
    total_pages: u64,
    next_page: u64,
    results: Vec<Comic>,
}

impl View for OnlineSearch {
    type V = OnlineSearchView;

    closed spec fn view(&self) -> OnlineSearchView {
        OnlineSearchView {
            query: self.query@,
            total_pages: self.total_pages as nat,
            next_page: self.next_page as nat,
            results: comic_views(self.results@),
        }
    }
}

impl OnlineSearch {
    #[verifier::type_invariant]
    spec fn counts_fit(self) -> bool {
        &&& self.total_pages <= u64::MAX / 40
        &&& 1 <= self.next_page
    }

    /// The search as the answer for its first page leaves it.
    pub open spec fn started(query: ComicView, first: SearchPage) -> OnlineSearchView {
        OnlineSearchView {
            query,
            total_pages: total_pages(first),
            next_page: 1,
            results: page_comics(page_records(first), false),
        }
    }

    /// The search after the answer for its next page.
    pub open spec fn advanced(s: OnlineSearchView, page: SearchPage) -> OnlineSearchView {
        OnlineSearchView {
            next_page: s.next_page + 1,
            results: s.results + page_comics(page_records(page), true),
            ..s
        }
    }

    /// Starts a search for `query` from the answer for its first page,
    /// whose address `search_url_for(query, None)` gives.
    pub fn start(query: &Comic, first: &SearchPage) -> (s: OnlineSearch)
        requires
            page_ok(*first, false),
        ensures
            s@ == Self::started(query@, *first),
    {
        let total = match first.total_items {
            Some(n) => n,
            None => 0,
        };
        let mut results: Vec<Comic> = Vec::new();
        push_page_comics(&mut results, first, false);
        assert(comic_views(results@) =~= page_comics(page_records(*first), false));
        OnlineSearch { query: query.clone(), total_pages: total / PAGE_SIZE, next_page: 1, results }
    }

    /// The address of the next page to read, or nothing once the last page
    /// has been read.
    pub fn next_url(&self) -> (url: Option<String>)
        ensures
            url is Some <==> self@.next_page < self@.total_pages,
            url matches Some(u) ==> u@ == search_url(self@.query, Some(self@.next_page * 40)),
    {
        proof {
            use_type_invariant(self);
        }
        if self.next_page < self.total_pages {
            assert(self.next_page * 40 <= self.total_pages * 40) by (nonlinear_arith)
                requires self.next_page < self.total_pages;
            assert(self.total_pages * 40 <= u64::MAX) by (nonlinear_arith)
                requires self.total_pages <= u64::MAX / 40;
            Some(search_url_for(&self.query, Some(self.next_page * PAGE_SIZE)))
        } else {
            None
        }
    }

    /// Takes in the answer for the next page.
    pub fn accept(&mut self, page: &SearchPage)
        requires
            old(self)@.next_page < old(self)@.total_pages,
            page_ok(*page, true),
        ensures
            final(self)@ == Self::advanced(old(self)@, *page),
    {
        proof {
            use_type_invariant(&*self);
        }
        let mut results: Vec<Comic> = Vec::new();
        std::mem::swap(&mut results, &mut self.results);
        push_page_comics(&mut results, page, true);
        self.results = results;
        self.next_page = self.next_page + 1;
    }

    /// The comics found, once no page is left to read.
    pub fn into_results(self) -> (found: Vec<Comic>)
        ensures
            comic_views(found@) == self@.results,
    {
        self.results
    }
}

/// The search after the answers for its first page and then for the pages
/// of `later`, taken in order.
pub open spec fn walked(query: ComicView, first: SearchPage, later: Seq<SearchPage>) -> OnlineSearchView
    decreases later.len(),
{
    if later.len() == 0 {
        OnlineSearch::started(query, first)
    } else {
        OnlineSearch::advanced(walked(query, first, later.drop_last()), later.last())
    }
}

/// The Italian volumes of the pages, page after page, as comics.
pub open spec fn italian_comics(pages: Seq<SearchPage>) -> Seq<ComicView>
    decreases pages.len(),
{
    if pages.len() == 0 {
        Seq::empty()
    } else {
        italian_comics(pages.drop_last()) + page_comics(page_records(pages.last()), true)
    }
}

/// A search of the catalogue finds every volume of its first page, then the
/// Italian volumes of each later page in the order the pages were read; after
/// `k` later pages the next one to read starts at volume `40 * (k + 1)`, and
/// the number of pages and the filter never change.
pub proof fn lemma_search_walk(query: ComicView, first: SearchPage, later: Seq<SearchPage>)
    ensures
        walked(query, first, later).results == page_comics(page_records(first), false)
            + italian_comics(later),
        walked(query, first, later).next_page == later.len() + 1,
        walked(query, first, later).total_pages == total_pages(first),
        walked(query, first, later).query == query,
    decreases later.len(),
{
    if later.len() > 0 {
        lemma_search_walk(query, first, later.drop_last());
        assert(page_comics(page_records(first), false) + italian_comics(later.drop_last())
            + page_comics(page_records(later.last()), true) =~= page_comics(page_records(first), false)
            + italian_comics(later));
    } else {
        assert(page_comics(page_records(first), false) + Seq::<ComicView>::empty()
            =~= page_comics(page_records(first), false));
    }
}

/// Every comic that a filtered page gives comes from an Italian volume of the
/// page, and the filter never gives more comics than the page has volumes.
pub proof fn lemma_filtered_page(records: Seq<VolumeRecord>)
    ensures
        page_comics(records, true).len() <= page_comics(records, false).len(),
        page_comics(records, false).len() == records.len(),
        forall|i: int| 0 <= i < page_comics(records, true).len() ==> exists|j: int|
            0 <= j < records.len() && is_italian(#[trigger] records[j])
            && #[trigger] page_comics(records, true)[i] == volume_comic(records[j]),
    decreases records.len(),
{
    if records.len() > 0 {
        let rest = records.drop_last();
        lemma_filtered_page(rest);
        let filtered = page_comics(records, true);
        let prev = page_comics(rest, true);
        let last = records.last();
        assert(records[records.len() - 1] == last);
        if is_italian(last) {
            assert(filtered == prev.push(volume_comic(last)));
        } else {
            assert(filtered == prev);
        }
        assert forall|i: int| 0 <= i < filtered.len() implies exists|j: int|
            0 <= j < records.len() && is_italian(#[trigger] records[j])
            && #[trigger] filtered[i] == volume_comic(records[j]) by {
            if i < prev.len() {
                assert(filtered[i] == prev[i]);
                let j = choose|j: int| 0 <= j < rest.len() && is_italian(#[trigger] rest[j])
                    && #[trigger] prev[i] == volume_comic(rest[j]);
                assert(records[j] == rest[j]);
                assert(is_italian(records[j]));
            } else {
                assert(is_italian(records[records.len() - 1]));
            }
        }
    }
}

/// Whenever an ISBN is typed, the catalogue address asks for it first,
/// right after the query mark, whatever title and author are typed.
pub proof fn lemma_url_asks_for_isbn(c: ComicView, start: Option<nat>)
    requires
        c.isbn.len() > 0,
    ensures
        ("https://www.googleapis.com/books/v1/volumes?q="@ + ("isbn:"@ + c.isbn)).is_prefix_of(
            search_url(c, start),
        ),
{
    let base = "https://www.googleapis.com/books/v1/volumes?q="@;
    let head = base + ("isbn:"@ + c.isbn);
    let url = search_url(c, start);
    let rest = (if c.title.len() == 0 { Seq::empty() } else { "intitle:"@ + c.title })
        + (if c.author.len() == 0 { Seq::empty() } else { "inauthor:"@ + c.author })
        + "&langRestrict=it&maxResults=40"@ + match start {
        Some(n) => "&startIndex="@ + decimal(n),
        None => Seq::empty(),
    };
    assert(url =~= head + rest);
    assert(url.subrange(0, head.len() as int) =~= head);
}

/// The address of a page of results: after the query mark, the ISBN term
/// (where an ISBN is typed), the title term (where a title is typed), the
/// author term (where an author is typed), the language and page size, and,
/// for a later page, the index of its first volume.
pub proof fn lemma_url_shape(c: ComicView, start: Option<nat>)
    ensures
        search_url(c, start) == "https://www.googleapis.com/books/v1/volumes?q="@
            + (if c.isbn.len() > 0 { "isbn:"@ + c.isbn } else { Seq::empty() })
            + (if c.title.len() > 0 { "intitle:"@ + c.title } else { Seq::empty() })
            + (if c.author.len() > 0 { "inauthor:"@ + c.author } else { Seq::empty() })
            + "&langRestrict=it&maxResults=40"@
            + (if start is Some { "&startIndex="@ + decimal(start.unwrap()) } else { Seq::empty() }),
{
    assert(search_url(c, start) =~= "https://www.googleapis.com/books/v1/volumes?q="@
            + (if c.isbn.len() > 0 { "isbn:"@ + c.isbn } else { Seq::empty() })
            + (if c.title.len() > 0 { "intitle:"@ + c.title } else { Seq::empty() })
            + (if c.author.len() > 0 { "inauthor:"@ + c.author } else { Seq::empty() })
            + "&langRestrict=it&maxResults=40"@
            + (if start is Some { "&startIndex="@ + decimal(start.unwrap()) } else { Seq::empty() }));
}

/// A volume's ISBN is the identifier of its one ISBN-13 entry; other
/// entries give nothing; the entries of a list give their ISBNs in order.
pub proof fn lemma_isbn_joins_entries(a: Seq<IndustryIdentifier>, b: Seq<IndustryIdentifier>, id: IndustryIdentifier)
    ensures
        isbn_of(a + b) == isbn_of(a) + isbn_of(b),
        isbn_of(seq![id]) == (if id.kind matches Some(k) && k@ == "ISBN_13"@ {
            text_or(id.identifier, Seq::empty())
        } else {
            Seq::empty()
        }),
        isbn_of(Seq::empty()) == Seq::<char>::empty(),
    decreases b.len(),
{
    if b.len() == 0 {
        assert(a + b =~= a);
        assert(isbn_of(a) + isbn_of(b) =~= isbn_of(a));
    } else {
        lemma_isbn_joins_entries(a, b.drop_last(), id);
        assert((a + b).drop_last() =~= a + b.drop_last());
        assert((a + b).last() == b.last());
    }
    assert(seq![id].drop_last() =~= Seq::<IndustryIdentifier>::empty());
    assert(isbn_of(seq![id]) =~= isbn_of(Seq::<IndustryIdentifier>::empty()) + (if is_isbn13(id) {
        text_or(id.identifier, Seq::empty())
    } else {
        Seq::empty()
    }));
}

/// A volume becomes a comic with the volume's ISBN, its title where it has
/// one (else "Non disponibile"), its thumbnail where it has one (else
/// nothing) and its first author where it has one (else "Non disponibile");
/// no genre, link, price, stock, volume number or record number, and not
/// active.
pub proof fn lemma_volume_comic_fields(r: VolumeRecord)
    ensures
        volume_comic(r).isbn == isbn_of(record_ids(r)),
        r.title matches Some(t) ==> volume_comic(r).title == t@,
        r.title is None ==> volume_comic(r).title == "Non disponibile"@,
        r.first_author matches Some(a) ==> volume_comic(r).author == a@,
        r.first_author is None ==> volume_comic(r).author == "Non disponibile"@,
        r.thumbnail matches Some(t) ==> volume_comic(r).image == t@,
        r.thumbnail is None ==> volume_comic(r).image.len() == 0,
        volume_comic(r).genre.len() == 0,
        volume_comic(r).external_link.len() == 0,
        volume_comic(r).price_bits == 0,
        volume_comic(r).quantity == 0,
        volume_comic(r).volume == 0,
        volume_comic(r).id_comic == 0,
        !volume_comic(r).active,
        r.identifiers is None ==> volume_comic(r).isbn.len() == 0,
{
}

/// A volume counts as Italian exactly when it is sold in "IT" and written in "it".
pub proof fn lemma_italian_means(r: VolumeRecord)
    ensures
        is_italian(r) <==> (r.country matches Some(c) && c@ == "IT"@) && (r.language matches Some(l)
            && l@ == "it"@),
{
}

/// The comics of two runs of volumes are those of the first, then those of
/// the second; a single volume gives its comic, unless the page is
/// filtered and the volume is not Italian.
pub proof fn lemma_page_comics_split(a: Seq<VolumeRecord>, b: Seq<VolumeRecord>, r: VolumeRecord, italian_only: bool)
    ensures
        page_comics(a + b, italian_only) == page_comics(a, italian_only) + page_comics(b, italian_only),
        page_comics(seq![r], italian_only) == (if !italian_only || is_italian(r) {
            seq![volume_comic(r)]
        } else {
            Seq::empty()
        }),
        page_comics(Seq::empty(), italian_only) == Seq::<ComicView>::empty(),
    decreases b.len(),
{
    if b.len() == 0 {
        assert(a + b =~= a);
        assert(page_comics(a, italian_only) + page_comics(b, italian_only) =~= page_comics(a, italian_only));
    } else {
        lemma_page_comics_split(a, b.drop_last(), r, italian_only);
        assert((a + b).drop_last() =~= a + b.drop_last());
        assert((a + b).last() == b.last());
        if italian_only && !is_italian(b.last()) {
        } else {
            assert(page_comics(a, italian_only) + page_comics(b.drop_last(), italian_only).push(
                volume_comic(b.last()),
            ) =~= (page_comics(a, italian_only) + page_comics(b.drop_last(), italian_only)).push(
                volume_comic(b.last()),
            ));
        }
    }
    let one = seq![r];
    assert(one.drop_last() =~= Seq::<VolumeRecord>::empty());
    assert(one.last() == r);
    assert(one.len() == 1);
    assert(page_comics(one.drop_last(), italian_only) == Seq::<ComicView>::empty());
    assert(Seq::<ComicView>::empty().push(volume_comic(r)) =~= seq![volume_comic(r)]);
    if !italian_only || is_italian(r) {
        assert(page_comics(one, italian_only) == page_comics(one.drop_last(), italian_only).push(volume_comic(r)));
    } else {
        assert(page_comics(one, italian_only) == page_comics(one.drop_last(), italian_only));
    }
}

/// Unfiltered, a page gives one comic per volume, in the order of the volumes.
pub proof fn lemma_page_comics_unfiltered(records: Seq<VolumeRecord>)
    ensures
        page_comics(records, false).len() == records.len(),
        forall|i: int| 0 <= i < records.len() ==> #[trigger] page_comics(records, false)[i] == volume_comic(
            records[i],
        ),
    decreases records.len(),
{
    if records.len() > 0 {
        lemma_page_comics_unfiltered(records.drop_last());
        assert forall|i: int| 0 <= i < records.len() implies #[trigger] page_comics(records, false)[i]
            == volume_comic(records[i]) by {
            if i < records.len() - 1 {
                assert(records.drop_last()[i] == records[i]);
            }
        }
    }
}

/// The search reads as many pages as the first page's total fills whole
/// pages of forty (none where the total is missing).
pub proof fn lemma_total_pages(p: SearchPage)
    ensures
        p.total_items is None ==> total_pages(p) == 0,
        p.total_items matches Some(n) ==> total_pages(p) * 40 <= n < (total_pages(p) + 1) * 40,
{
}

/// The entries and volumes read are those of the arrays where the answer
/// holds them, and none where it does not.
pub proof fn lemma_lists_read(r: VolumeRecord, p: SearchPage)
    ensures
        r.identifiers matches Some(v) ==> record_ids(r) == v@,
        r.identifiers is None ==> record_ids(r).len() == 0,
        p.items matches Some(v) ==> page_records(p) == v@,
        p.items is None ==> page_records(p).len() == 0,
{
}

/// Starting a search reads the first page whole and sets the next page to
/// read to the second; each later page read adds its Italian volumes after
/// what was found and moves on to the page after it.
pub proof fn lemma_search_steps(q: ComicView, first: SearchPage, s: OnlineSearchView, page: SearchPage)
    ensures
        OnlineSearch::started(q, first).query == q,
        OnlineSearch::started(q, first).next_page == 1,
        OnlineSearch::started(q, first).total_pages == total_pages(first),
        OnlineSearch::started(q, first).results == page_comics(page_records(first), false),
        OnlineSearch::advanced(s, page).query == s.query,
        OnlineSearch::advanced(s, page).total_pages == s.total_pages,
        OnlineSearch::advanced(s, page).next_page == s.next_page + 1,
        OnlineSearch::advanced(s, page).results == s.results + page_comics(page_records(page), true),
        walked(q, first, seq![page]).results == page_comics(page_records(first), false)
            + page_comics(page_records(page), true),
{
    let one = seq![page];
    assert(one.drop_last() =~= Seq::<SearchPage>::empty());
    assert(one.last() == page);
    assert(one.len() == 1);
    assert(walked(q, first, one.drop_last()) == OnlineSearch::started(q, first));
    assert(walked(q, first, one) == OnlineSearch::advanced(walked(q, first, one.drop_last()), page));
}

} // verus!
