//! The state of the main window, and the decisions that its buttons and
//! menus take. Drawing, the store and the catalogue are worked by the
//! caller, which hands back what they answered.

use vstd::prelude::*;
use crate::types::{Comic, ComicView, DetailComic, DetailView, DetailType, comic_views,
    empty_comic, opened_view, window_edited, keeps_locked_fields, lemma_edits_keep_locked_fields};
use crate::statement::{SqlParam, SqlStatement, insert_comic_statement, update_comic_statement,
    carica_statement, scarica_statement, params, insert_params, update_params,
    movement_params, Query};
use crate::text::{push_spaces_to_plus, spaces_to_plus};

verus! {

/// A warning shown to the user.
#[derive(Clone, Copy, Debug, PartialEq, Eq, Structural)]
pub enum Warning {
    /// The clipboard does not hold a comic.
    MalformedImport,
    /// The clipboard could not be opened.
    ClipboardUnreadable,
    /// The ISBN searched online is already in the store.
    AlreadyInStore,
    /// The AnimeClick search has no title to look for.
    NoTitleToSearch,
    /// Adding a comic failed.
    InsertFailed,
    /// Recording a load failed.
    CaricoFailed,
    /// Recording an unload failed.
    ScaricoFailed,
    /// Saving changes failed.
    UpdateFailed,
}

impl Warning {
    /// The text of the warning.
    pub fn message(&self) -> (m: &'static str)
        ensures
            *self == Warning::MalformedImport ==> m@ == "Formato non corretto"@,
            *self == Warning::ClipboardUnreadable ==> m@ == "Errore nella lettura della clipboard"@,
            *self == Warning::AlreadyInStore ==> m@ == "Il codice ISBN cercato è già presente in magazzino"@,
            *self == Warning::NoTitleToSearch ==> m@ == "Nessun tiolo impostato da cercare su AnimeClick"@,
            *self == Warning::InsertFailed ==> m@ == "Si è verificato un errore nell'inserimento"@,
            *self == Warning::CaricoFailed ==> m@ == "Si è verificato un errore durante il carico a magazzino"@,
            *self == Warning::ScaricoFailed ==> m@ == "Si è verificato un errore durante lo scarico da magazzino"@,
            *self == Warning::UpdateFailed ==> m@ == "Si è verificato un errore con l'aggiornamento dei dati di questo articolo"@,
    {
        match self {
            Warning::MalformedImport => "Formato non corretto",
            Warning::ClipboardUnreadable => "Errore nella lettura della clipboard",
            Warning::AlreadyInStore => "Il codice ISBN cercato è già presente in magazzino",
            Warning::NoTitleToSearch => "Nessun tiolo impostato da cercare su AnimeClick",
            Warning::InsertFailed => "Si è verificato un errore nell'inserimento",
            Warning::CaricoFailed => "Si è verificato un errore durante il carico a magazzino",
            Warning::ScaricoFailed => "Si è verificato un errore durante lo scarico da magazzino",
            Warning::UpdateFailed => "Si è verificato un errore con l'aggiornamento dei dati di questo articolo",
        }
    }
}

/// What reading a comic from the clipboard gave.
#[derive(Debug)]
pub enum ClipboardRead {
    /// The clipboard could not be opened.
    Unreadable,
    /// Its content is not a comic.
    Malformed,
    /// Its content is this comic.
    Comic(Comic),
}

/// An entry of the menu of a row of a list of comics.
#[derive(Clone, Copy, Debug, PartialEq, Eq, Structural)]
pub enum RowAction {
    Dettaglio,
    Modifica,
    Carico,
    Scarico,
}

/// What follows the search of the store.
#[derive(Clone, Copy, Debug, PartialEq, Eq, Structural)]
pub enum SearchNext {
    /// The comics found are listed.
    Listed,
    /// The ISBN is not in the store: search the online catalogue.
    SearchCatalogue,
    /// Nothing more is done; show the warning.
    Warn(Warning),
}

/// What follows a statement run from the detail window.
#[derive(Clone, Copy, Debug, PartialEq, Eq, Structural)]
pub enum SubmitNext {
    /// The window closed: list the store again.
    Reload,
    /// The window stays as it was; show the warning.
    Warn(Warning),
}

/// How the detail window shows the external link of a comic.
#[derive(Clone, Copy, Debug, PartialEq, Eq, Structural)]
pub enum LinkField {
    /// A field to type it in.
    Editable,
    /// A link that opens it.
    Link,
    /// The words "Non impostato".
    Unset,
}

/// How a window of kind `t` shows the external link `link`: editable where
/// the comic can be edited; otherwise a link where there is one.
pub fn external_link_field(t: DetailType, link: &String) -> (f: LinkField)
    ensures
        (t == DetailType::Modify || t == DetailType::New) ==> f == LinkField::Editable,
        !(t == DetailType::Modify || t == DetailType::New) && link@.len() > 0 ==> f == LinkField::Link,
        !(t == DetailType::Modify || t == DetailType::New) && link@.len() == 0 ==> f == LinkField::Unset,
{
    if t.can_modify() {
        LinkField::Editable
    } else if !link.as_str().is_empty() {
        LinkField::Link
    } else {
        LinkField::Unset
    }
}

/// The state of the main window.
#[derive(Debug)]
pub struct MyApp {
    /// The filter typed in the search fields.
    pub search: Comic,
    /// Search the online catalogue rather than the store.
    pub online_search: bool,
    /// What the last online search found, while its window is open.
    pub online_search_results: Option<Vec<Comic>>,
    /// The comics listed from the store.
    pub comics: Vec<Comic>,
    /// The detail window, where one is open.
    pub detail_opened: Option<DetailComic>,
}

/// What the main window holds.
pub struct MyAppView {
    pub search: ComicView,
    pub online_search: bool,
    pub online_search_results: Option<Seq<ComicView>>,
    pub comics: Seq<ComicView>,
    pub detail_opened: Option<DetailView>,
}

impl View for MyApp {
    type V = MyAppView;

    open spec fn view(&self) -> MyAppView {
        MyAppView {
            search: self.search@,
            online_search: self.online_search,
            online_search_results: match self.online_search_results {
                Some(v) => Some(comic_views(v@)),
                None => None,
            },
            comics: comic_views(self.comics@),
            detail_opened: match self.detail_opened {
                Some(d) => Some(d@),
                None => None,
            },
        }
    }
}

/// The window as it opens: an empty filter, the store searched, nothing
/// listed and no other window open.
pub open spec fn initial_app() -> MyAppView {
    MyAppView {
        search: empty_comic(),
        online_search: false,
        online_search_results: None,
        comics: Seq::empty(),
        detail_opened: None,
    }
}

impl Default for MyApp {
    fn default() -> (a: MyApp)
        ensures
            a@ == initial_app(),
    {
        let a = MyApp {
            search: Comic::default(),
            online_search: false,
            online_search_results: None,
            comics: Vec::new(),
            detail_opened: None,
        };
        assert(comic_views(a.comics@) =~= Seq::<ComicView>::empty());
        a
    }
}

/// The window with its detail window replaced.
pub open spec fn with_detail(a: MyAppView, d: Option<DetailView>) -> MyAppView {
    MyAppView { detail_opened: d, ..a }
}

/// The window with its online results replaced.
pub open spec fn with_online_results(a: MyAppView, r: Option<Seq<ComicView>>) -> MyAppView {
    MyAppView { online_search_results: r, ..a }
}

/// The window with its search fields replaced.
pub open spec fn with_search(a: MyAppView, search: ComicView) -> MyAppView {
    MyAppView { search, ..a }
}

/// The window with its list of comics replaced.
pub open spec fn with_comics(a: MyAppView, comics: Seq<ComicView>) -> MyAppView {
    MyAppView { comics, ..a }
}

/// What importing from the clipboard leaves: the window and the warning shown.
pub open spec fn imported(a: MyAppView, read: ClipboardRead) -> (MyAppView, Option<Warning>) {
    match read {
        ClipboardRead::Comic(c) => (with_detail(a, Some(opened_view(c@, DetailType::New))), None),
        ClipboardRead::Malformed => (a, Some(Warning::MalformedImport)),
        ClipboardRead::Unreadable => (a, Some(Warning::ClipboardUnreadable)),
    }
}

/// What an entry of a row's menu leaves.
pub open spec fn row_opened(a: MyAppView, comic: ComicView, action: RowAction, is_online: bool) -> MyAppView {
    match row_detail_type(action, is_online) {
        Some(t) => with_detail(a, Some(opened_view(comic, t))),
        None => a,
    }
}

/// The kind of window that an entry of a row's menu opens, if the entry is
/// offered: on a list of online results only `Dettaglio` is, and it opens a
/// window that adds the comic.
pub open spec fn row_detail_type(action: RowAction, is_online: bool) -> Option<DetailType> {
    match action {
        RowAction::Dettaglio => Some(if is_online { DetailType::New } else { DetailType::Detail }),
        RowAction::Modifica => if is_online { None } else { Some(DetailType::Modify) },
        RowAction::Carico => if is_online { None } else { Some(DetailType::Carico) },
        RowAction::Scarico => if is_online { None } else { Some(DetailType::Scarico) },
    }
}

/// The statement that submitting a detail window runs: adding the comic,
/// loading or unloading the typed quantity (without note), or saving the
/// comic's fields. A view-only window runs none.
pub open spec fn submit_query(t: DetailType) -> Option<Query> {
    match t {
        DetailType::New => Some(Query::InsertComic),
        DetailType::Carico => Some(Query::CaricoMovement),
        DetailType::Scarico => Some(Query::ScaricoMovement),
        DetailType::Modify => Some(Query::UpdateComic),
        DetailType::Detail => None,
    }
}

/// The values that submitting the window `d` binds.
pub open spec fn submit_params(d: DetailView) -> Seq<SqlParam> {
    match d.detail_type {
        DetailType::New => insert_params(d.comic),
        DetailType::Carico => movement_params(d.comic, d.mag_mov_quantity, None),
        DetailType::Scarico => movement_params(d.comic, d.mag_mov_quantity, None),
        DetailType::Modify => update_params(d.comic),
        DetailType::Detail => Seq::empty(),
    }
}

/// The warning shown when the statement of a window of this kind fails
/// (a kind that runs one: not `Detail`).
pub open spec fn failure_warning(t: DetailType) -> Warning {
    match t {
        DetailType::New => Warning::InsertFailed,
        DetailType::Carico => Warning::CaricoFailed,
        DetailType::Scarico => Warning::ScaricoFailed,
        _ => Warning::UpdateFailed,
    }
}

/// The AnimeClick search address for a title: spaces become plus signs.
pub open spec fn animeclick_url_spec(title: Seq<char>) -> Seq<char> {
    "https://www.animeclick.it/cerca?tipo=opera&name="@ + spaces_to_plus(title)
}

/// A search is asked for: a search field lost focus with Enter pressed, or
/// the search button was clicked.
pub open spec fn search_asked(any_field_left: bool, enter: bool, clicked: bool) -> bool {
    (any_field_left && enter) || clicked
}

/// Whether a search is asked for, from the four search fields losing focus,
/// Enter being pressed and the search button being clicked.
pub fn search_requested(
    isbn_left: bool,
    title_left: bool,
    author_left: bool,
    genre_left: bool,
    enter: bool,
    clicked: bool,
) -> (b: bool)
    ensures
        b == search_asked(isbn_left || title_left || author_left || genre_left, enter, clicked),
{
    (isbn_left || title_left || author_left || genre_left) && enter || clicked
}

/// Some comic of `rows` has the ISBN `isbn`.
pub open spec fn has_isbn(rows: Seq<Comic>, isbn: Seq<char>) -> bool {
    exists|i: int| 0 <= i < rows.len() && #[trigger] rows[i].isbn@ == isbn
}

fn contains_isbn(rows: &Vec<Comic>, isbn: &String) -> (b: bool)
    ensures
        b == has_isbn(rows@, isbn@),
{
    let mut i: usize = 0;
    while i < rows.len()
        invariant
            i <= rows@.len(),
            forall|j: int| 0 <= j < i ==> #[trigger] rows@[j].isbn@ != isbn@,
        decreases rows@.len() - i,
    {
        if rows[i].isbn == *isbn {
            assert(rows@[i as int].isbn@ == isbn@);
            return true;
        }
        i = i + 1;
    }
    false
}

impl MyApp {
    /// "Nuovo": opens an empty window that adds a comic.
    pub fn open_new(&mut self)
        ensures
            final(self)@ == with_detail(old(self)@, Some(opened_view(empty_comic(), DetailType::New))),
    {
        let d = DetailComic::opened(&Comic::default(), DetailType::New);
        self.detail_opened = Some(d);
    }

    /// "Importa": a comic read from the clipboard opens a window that adds
    /// it; otherwise the window stays as it is and a warning is shown.
    pub fn import_from_clipboard(&mut self, read: ClipboardRead) -> (w: Option<Warning>)
        ensures
            (final(self)@, w) == imported(old(self)@, read),
    {
        match read {
            ClipboardRead::Comic(c) => {
                let d = DetailComic { comic: c, mag_mov_quantity: 0, note: String::new(), detail_type: DetailType::New };
                self.detail_opened = Some(d);
                None
            },
            ClipboardRead::Malformed => Some(Warning::MalformedImport),
            ClipboardRead::Unreadable => Some(Warning::ClipboardUnreadable),
        }
    }

    /// "Pulisci": empties the search fields.
    pub fn clear_search(&mut self)
        ensures
            final(self)@ == with_search(old(self)@, empty_comic()),
    {
        self.search = Comic::default();
    }

    /// Takes in what the search of the store with the current filter found.
    /// Searching the store, the comics found are listed. Searching online,
    /// nothing is listed: where a comic found has the ISBN typed, a warning
    /// is shown; otherwise the online catalogue is to be searched.
    pub fn after_store_search(&mut self, rows: Vec<Comic>) -> (next: SearchNext)
        ensures
            !old(self).online_search ==> next == SearchNext::Listed && final(self)@ == with_comics(
                old(self)@,
                comic_views(rows@),
            ),
            old(self).online_search ==> final(self)@ == old(self)@,
            old(self).online_search && has_isbn(rows@, old(self).search.isbn@) ==> next
                == SearchNext::Warn(Warning::AlreadyInStore),
            old(self).online_search && !has_isbn(rows@, old(self).search.isbn@) ==> next
                == SearchNext::SearchCatalogue,
    {
        if self.online_search {
            if contains_isbn(&rows, &self.search.isbn) {
                SearchNext::Warn(Warning::AlreadyInStore)
            } else {
                SearchNext::SearchCatalogue
            }
        } else {
            self.comics = rows;
            SearchNext::Listed
        }
    }

    /// "Cerca con AnimeClick": the address that searches the site for the
    /// title typed, or a warning where no title is typed.
    pub fn animeclick_url(&self) -> (r: Result<String, Warning>)
        ensures
            self.search.title@.len() == 0 ==> r == Err::<String, Warning>(Warning::NoTitleToSearch),
            self.search.title@.len() > 0 ==> (r matches Ok(u) && u@ == animeclick_url_spec(
                self.search.title@,
            )),
    {
        if self.search.title.as_str().is_empty() {
            Err(Warning::NoTitleToSearch)
        } else {
            let mut url = String::from_str("https://www.animeclick.it/cerca?tipo=opera&name=");
            push_spaces_to_plus(&mut url, self.search.title.as_str());
            Ok(url)
        }
    }

    /// An entry of the menu of a row holding `comic`, on the list of the
    /// store or on that of online results: opens the window of its kind on
    /// a copy of the comic, where the entry is offered.
    pub fn open_row_detail(&mut self, comic: &Comic, action: RowAction, is_online: bool)
        ensures
            final(self)@ == row_opened(old(self)@, comic@, action, is_online),
    {
        let kind = match action {
            RowAction::Dettaglio => Some(if is_online { DetailType::New } else { DetailType::Detail }),
            RowAction::Modifica => if is_online { None } else { Some(DetailType::Modify) },
            RowAction::Carico => if is_online { None } else { Some(DetailType::Carico) },
            RowAction::Scarico => if is_online { None } else { Some(DetailType::Scarico) },
        };
        match kind {
            Some(t) => {
                self.detail_opened = Some(DetailComic::opened(comic, t));
            },
            None => {},
        }
    }

    /// One frame of the open detail window, whose fields now show `edited`.
    /// Only what the window's kind lets the user edit is taken from
    /// `edited`. Where its button was clicked, the statement to run on the
    /// window so edited is returned and the window is left as it was;
    /// otherwise the edits are kept. A view-only window keeps nothing and
    /// runs nothing.
    pub fn detail_frame(&mut self, edited: DetailComic, clicked: bool) -> (st: Option<SqlStatement>)
        requires
            old(self).detail_opened is Some,
        ensures
            ({
                let current = old(self).detail_opened.unwrap()@;
                let kept = window_edited(current, edited@);
                &&& current.detail_type == DetailType::Detail ==> st is None && final(self)@ == old(self)@
                &&& current.detail_type != DetailType::Detail && !clicked ==> st is None
                    && final(self)@ == with_detail(old(self)@, Some(kept))
                &&& current.detail_type != DetailType::Detail && clicked ==> final(self)@ == old(self)@
                    && (st matches Some(s) && Some(s.query) == submit_query(current.detail_type)
                    && params(s.args@) == submit_params(kept))
                &&& final(self).detail_opened is Some
                &&& keeps_locked_fields(current, final(self).detail_opened.unwrap()@)
            }),
    {
        let kept = match &self.detail_opened {
            Some(current) => current.with_edits(edited),
            None => edited,
        };
        proof {
            lemma_edits_keep_locked_fields(old(self).detail_opened.unwrap()@, edited@);
        }
        if let DetailType::Detail = kept.detail_type {
            return None;
        }
        if !clicked {
            self.detail_opened = Some(kept);
            return None;
        }
        let st = match kept.detail_type {
            DetailType::New => insert_comic_statement(&kept.comic),
            DetailType::Carico => carica_statement(&kept.comic, kept.mag_mov_quantity, None),
            DetailType::Scarico => scarica_statement(&kept.comic, kept.mag_mov_quantity, None),
            _ => update_comic_statement(&kept.comic),
        };
        Some(st)
    }

    /// Takes in what the online catalogue found: its window opens on it.
    pub fn show_online_results(&mut self, found: Option<Vec<Comic>>)
        ensures
            final(self)@ == with_online_results(
                old(self)@,
                match found {
                    Some(v) => Some(comic_views(v@)),
                    None => None,
                },
            ),
    {
        self.online_search_results = found;
    }

    /// Closes the window of online results.
    pub fn close_online_results(&mut self)
        ensures
            final(self)@ == with_online_results(old(self)@, None),
    {
        self.online_search_results = None;
    }

    /// Takes in the comics that listing the store again found.
    pub fn reload_comics(&mut self, rows: Vec<Comic>)
        ensures
            final(self)@ == with_comics(old(self)@, comic_views(rows@)),
    {
        self.comics = rows;
    }

    /// Closes the detail window.
    pub fn close_detail(&mut self)
        ensures
            final(self)@ == with_detail(old(self)@, None),
    {
        self.detail_opened = None;
    }

    /// Takes in whether the statement of a window of kind `t` succeeded:
    /// on success the window closes and the store is to be listed again;
    /// on failure everything stays and the warning of the kind is shown.
    pub fn after_submit(&mut self, t: DetailType, succeeded: bool) -> (next: SubmitNext)
        requires
            submit_query(t) is Some,
        ensures
            succeeded ==> next == SubmitNext::Reload && final(self)@ == with_detail(old(self)@, None),
            !succeeded ==> next == SubmitNext::Warn(failure_warning(t)) && final(self)@ == old(self)@,
    {
        if succeeded {
            self.detail_opened = None;
            SubmitNext::Reload
        } else {
            SubmitNext::Warn(
                match t {
                    DetailType::New => Warning::InsertFailed,
                    DetailType::Carico => Warning::CaricoFailed,
                    DetailType::Scarico => Warning::ScaricoFailed,
                    _ => Warning::UpdateFailed,
                },
            )
        }
    }
}

/// On a list of online results a row's menu offers no change and no stock
/// movement: what it opens is a window that adds the comic.
pub proof fn lemma_online_rows_only_add(action: RowAction)
    ensures
        row_detail_type(action, true) is None || row_detail_type(action, true) == Some(DetailType::New),
        row_detail_type(RowAction::Dettaglio, true) == Some(DetailType::New),
{
}

/// Exactly the windows that can edit or move stock submit a statement; only
/// a new comic's window adds one, and only a modification saves one.
pub proof fn lemma_submit_kinds(t: DetailType)
    ensures
        submit_query(t) is Some <==> (t == DetailType::Modify || t == DetailType::New
            || t == DetailType::Carico || t == DetailType::Scarico),
        submit_query(t) == Some(Query::InsertComic) <==> t == DetailType::New,
        submit_query(t) == Some(Query::UpdateComic) <==> t == DetailType::Modify,
{
}

/// A stored comic has the ISBN searched exactly when one of the rows found
/// has that very ISBN; an empty ISBN is found only where a row's ISBN is
/// empty too.
pub proof fn lemma_has_isbn_means(rows: Seq<Comic>, isbn: Seq<char>)
    ensures
        has_isbn(rows, isbn) <==> (exists|i: int| 0 <= i < rows.len() && #[trigger] rows[i].isbn@ == isbn),
        rows.len() == 0 ==> !has_isbn(rows, isbn),
        (forall|i: int| 0 <= i < rows.len() ==> #[trigger] rows[i].isbn@.len() > 0) ==> !has_isbn(
            rows,
            Seq::empty(),
        ),
{
    if has_isbn(rows, Seq::empty()) {
        let i = choose|i: int| 0 <= i < rows.len() && #[trigger] rows[i].isbn@ == Seq::<char>::empty();
        assert(rows[i].isbn@.len() == 0);
    }
}

/// A frame of a new comic's or a modification's window takes, from the
/// fields shown, the title, author, genre, image, price, volume number,
/// active flag and external link, and the ISBN in a new comic's window;
/// it keeps the record number and the stock quantity, and the ISBN of a
/// stored comic being modified. The window's kind never changes.
pub proof fn lemma_edits_taken(current: DetailView, edited: DetailView)
    ensures
        window_edited(current, edited).detail_type == current.detail_type,
        (current.detail_type == DetailType::New || current.detail_type == DetailType::Modify) ==> {
            let c = window_edited(current, edited).comic;
            &&& c.title == edited.comic.title
            &&& c.author == edited.comic.author
            &&& c.genre == edited.comic.genre
            &&& c.image == edited.comic.image
            &&& c.price_bits == edited.comic.price_bits
            &&& c.volume == edited.comic.volume
            &&& c.active == edited.comic.active
            &&& c.external_link == edited.comic.external_link
            &&& c.id_comic == current.comic.id_comic
            &&& c.quantity == current.comic.quantity
        },
        current.detail_type == DetailType::New ==> window_edited(current, edited).comic.isbn
            == edited.comic.isbn,
        current.detail_type == DetailType::Modify ==> window_edited(current, edited).comic.isbn
            == current.comic.isbn,
        (current.detail_type == DetailType::Carico || current.detail_type == DetailType::Scarico)
            ==> window_edited(current, edited).mag_mov_quantity == edited.mag_mov_quantity
            && window_edited(current, edited).note == edited.note,
{
}

/// Submitting a window binds: for a load or unload, the comic's ISBN, the
/// quantity typed for the movement and an empty note; for a new comic, its
/// ISBN, title, author, genre, price, image and volume number; for a
/// modification, title, author and genre (NULL where empty), price, volume
/// number, image, active flag and ISBN.
pub proof fn lemma_submit_binds(d: DetailView)
    ensures
        (d.detail_type == DetailType::Carico || d.detail_type == DetailType::Scarico) ==> {
            &&& submit_params(d).len() == 3
            &&& submit_params(d)[0] == SqlParam::Text(d.comic.isbn)
            &&& submit_params(d)[1] == SqlParam::Integer(d.mag_mov_quantity)
            &&& submit_params(d)[2] == SqlParam::Text(Seq::empty())
        },
        d.detail_type == DetailType::New ==> {
            &&& submit_params(d).len() == 7
            &&& submit_params(d)[0] == SqlParam::Text(d.comic.isbn)
            &&& submit_params(d)[1] == SqlParam::Text(d.comic.title)
            &&& submit_params(d)[2] == SqlParam::Text(d.comic.author)
            &&& submit_params(d)[3] == SqlParam::Text(d.comic.genre)
            &&& submit_params(d)[4] == SqlParam::Real(d.comic.price_bits)
            &&& submit_params(d)[5] == SqlParam::Text(d.comic.image)
            &&& submit_params(d)[6] == SqlParam::Integer(d.comic.volume)
        },
        d.detail_type == DetailType::Modify ==> {
            &&& submit_params(d).len() == 8
            &&& submit_params(d)[0] == SqlParam::OptionalText(
                if d.comic.title.len() == 0 { None } else { Some(d.comic.title) },
            )
            &&& submit_params(d)[1] == SqlParam::OptionalText(
                if d.comic.author.len() == 0 { None } else { Some(d.comic.author) },
            )
            &&& submit_params(d)[2] == SqlParam::OptionalText(
                if d.comic.genre.len() == 0 { None } else { Some(d.comic.genre) },
            )
            &&& submit_params(d)[3] == SqlParam::Real(d.comic.price_bits)
            &&& submit_params(d)[4] == SqlParam::Integer(d.comic.volume)
            &&& submit_params(d)[5] == SqlParam::Text(d.comic.image)
            &&& submit_params(d)[6] == SqlParam::Boolean(d.comic.active)
            &&& submit_params(d)[7] == SqlParam::Text(d.comic.isbn)
        },
        submit_query(DetailType::Carico) == Some(Query::CaricoMovement),
        submit_query(DetailType::Scarico) == Some(Query::ScaricoMovement),
        submit_query(DetailType::New) == Some(Query::InsertComic),
        submit_query(DetailType::Modify) == Some(Query::UpdateComic),
        submit_query(DetailType::Detail) is None,
{
}

/// The entries of a row's menu: on the store's list, "Dettaglio" views the
/// comic, "Modifica" modifies it, "Carico" loads and "Scarico" unloads it;
/// on online results only "Dettaglio" is offered, and it adds the comic.
pub proof fn lemma_row_entries()
    ensures
        row_detail_type(RowAction::Dettaglio, false) == Some(DetailType::Detail),
        row_detail_type(RowAction::Modifica, false) == Some(DetailType::Modify),
        row_detail_type(RowAction::Carico, false) == Some(DetailType::Carico),
        row_detail_type(RowAction::Scarico, false) == Some(DetailType::Scarico),
        row_detail_type(RowAction::Dettaglio, true) == Some(DetailType::New),
        row_detail_type(RowAction::Modifica, true) is None,
        row_detail_type(RowAction::Carico, true) is None,
        row_detail_type(RowAction::Scarico, true) is None,
{
}

/// A failed submit warns in the words of its kind: adding, loading,
/// unloading or saving.
pub proof fn lemma_failure_warnings()
    ensures
        failure_warning(DetailType::New) == Warning::InsertFailed,
        failure_warning(DetailType::Carico) == Warning::CaricoFailed,
        failure_warning(DetailType::Scarico) == Warning::ScaricoFailed,
        failure_warning(DetailType::Modify) == Warning::UpdateFailed,
{
}

/// The AnimeClick address is the site's search address followed by the
/// title, character for character, with each space written as a plus sign.
pub proof fn lemma_animeclick_url(title: Seq<char>)
    ensures
        ({
            let prefix = "https://www.animeclick.it/cerca?tipo=opera&name="@;
            let url = animeclick_url_spec(title);
            &&& prefix.is_prefix_of(url)
            &&& url.len() == prefix.len() + title.len()
            &&& forall|i: int| 0 <= i < title.len() ==> #[trigger] url[prefix.len() + i] == (if title[i]
                == ' ' { '+' } else { title[i] })
        }),
{
    let prefix = "https://www.animeclick.it/cerca?tipo=opera&name="@;
    let url = animeclick_url_spec(title);
    assert(url.subrange(0, prefix.len() as int) =~= prefix);
    assert forall|i: int| 0 <= i < title.len() implies #[trigger] url[prefix.len() + i] == (if title[i]
        == ' ' { '+' } else { title[i] }) by {
        assert(url[prefix.len() + i] == spaces_to_plus(title)[i]);
    }
}

/// The window as it opens has an empty filter, searches the store, lists
/// nothing and has no other window open; each change of one part of the
/// window leaves the other parts as they were.
pub proof fn lemma_window_parts(a: MyAppView, d: Option<DetailView>, c: ComicView, l: Seq<ComicView>, r: Option<Seq<ComicView>>)
    ensures
        initial_app().search == empty_comic() && !initial_app().online_search
            && initial_app().online_search_results is None && initial_app().comics.len() == 0
            && initial_app().detail_opened is None,
        with_detail(a, d).detail_opened == d && with_detail(a, d).search == a.search
            && with_detail(a, d).online_search == a.online_search && with_detail(a, d).online_search_results
            == a.online_search_results && with_detail(a, d).comics == a.comics,
        with_search(a, c).search == c && with_search(a, c).online_search == a.online_search
            && with_search(a, c).online_search_results == a.online_search_results && with_search(a, c).comics
            == a.comics && with_search(a, c).detail_opened == a.detail_opened,
        with_comics(a, l).comics == l && with_comics(a, l).search == a.search
            && with_comics(a, l).online_search == a.online_search && with_comics(a, l).online_search_results
            == a.online_search_results && with_comics(a, l).detail_opened == a.detail_opened,
        with_online_results(a, r).online_search_results == r && with_online_results(a, r).search == a.search
            && with_online_results(a, r).online_search == a.online_search && with_online_results(a, r).comics
            == a.comics && with_online_results(a, r).detail_opened == a.detail_opened,
{
}

/// Importing a comic opens a window that adds exactly that comic and shows
/// no warning; a malformed or unreadable clipboard changes nothing and
/// warns accordingly.
pub proof fn lemma_import_outcomes(a: MyAppView, c: Comic)
    ensures
        imported(a, ClipboardRead::Comic(c)).1 is None,
        imported(a, ClipboardRead::Comic(c)).0.detail_opened == Some(
            DetailView { comic: c@, mag_mov_quantity: 0, note: Seq::empty(), detail_type: DetailType::New },
        ),
        imported(a, ClipboardRead::Comic(c)).0.comics == a.comics,
        imported(a, ClipboardRead::Comic(c)).0.search == a.search,
        imported(a, ClipboardRead::Malformed) == (a, Some(Warning::MalformedImport)),
        imported(a, ClipboardRead::Unreadable) == (a, Some(Warning::ClipboardUnreadable)),
{
}

/// An entry of a row's menu that is offered opens a window of its kind on
/// that row's comic, with no movement typed; one that is not offered
/// changes nothing.
pub proof fn lemma_row_opened(a: MyAppView, c: ComicView, action: RowAction, is_online: bool)
    ensures
        row_detail_type(action, is_online) matches Some(t) ==> row_opened(a, c, action, is_online).detail_opened
            == Some(DetailView { comic: c, mag_mov_quantity: 0, note: Seq::empty(), detail_type: t })
            && row_opened(a, c, action, is_online).comics == a.comics,
        row_detail_type(action, is_online) is None ==> row_opened(a, c, action, is_online) == a,
{
}

/// A search is asked for when the button is clicked, or when Enter is
/// pressed as a search field loses focus; never otherwise.
pub proof fn lemma_search_asked(left: bool, enter: bool)
    ensures
        search_asked(left, enter, true),
        search_asked(true, true, false),
        !search_asked(false, enter, false),
        !search_asked(left, false, false),
{
}

} // verus!
