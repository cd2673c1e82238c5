//! The records of the store and what the detail window is opened for.

use vstd::prelude::*;

verus! {

/// A comic as the store keeps it.
///
/// `price_bits` holds the unit price as the bit pattern of an `f32`
/// (`f32::to_bits`), so that a price goes through the library unchanged.
#[derive(Debug, PartialEq)]
pub struct Comic {
    pub id_comic: i32,
    pub isbn: String,
    pub title: String,
    pub author: String,
    pub genre: String,
    pub image: String,
    pub price_bits: u32,
    pub quantity: i32,
    pub volume: i32,
    pub active: bool,
    pub external_link: String,
}

/// What a comic is, with its texts as sequences of characters.
pub struct ComicView {
    pub id_comic: i32,
    pub isbn: Seq<char>,
    pub title: Seq<char>,
    pub author: Seq<char>,
    pub genre: Seq<char>,
    pub image: Seq<char>,
    pub price_bits: u32,
    pub quantity: i32,
    pub volume: i32,
    pub active: bool,
    pub external_link: Seq<char>,
}

impl View for Comic {
    type V = ComicView;

    open spec fn view(&self) -> ComicView {
        ComicView {
            id_comic: self.id_comic,
            isbn: self.isbn@,
            title: self.title@,
            author: self.author@,
            genre: self.genre@,
            image: self.image@,
            price_bits: self.price_bits,
            quantity: self.quantity,
            volume: self.volume,
            active: self.active,
            external_link: self.external_link@,
        }
    }
}

/// The empty comic: every text empty, every number zero, not active.
pub open spec fn empty_comic() -> ComicView {
    ComicView {
        id_comic: 0,
        isbn: Seq::empty(),
        title: Seq::empty(),
        author: Seq::empty(),
        genre: Seq::empty(),
        image: Seq::empty(),
        price_bits: 0,
        quantity: 0,
        volume: 0,
        active: false,
        external_link: Seq::empty(),
    }
}

impl Default for Comic {
    fn default() -> (c: Comic)
        ensures
            c@ == empty_comic(),
    {
        Comic {
            id_comic: 0,
            isbn: String::new(),
            title: String::new(),
            author: String::new(),
            genre: String::new(),
            image: String::new(),
            price_bits: 0,
            quantity: 0,
            volume: 0,
            active: false,
            external_link: String::new(),
        }
    }
}

impl Clone for Comic {
    fn clone(&self) -> (c: Comic)
        ensures
            c@ == self@,
    {
        Comic {
            id_comic: self.id_comic,
            isbn: self.isbn.clone(),
            title: self.title.clone(),
            author: self.author.clone(),
            genre: self.genre.clone(),
            image: self.image.clone(),
            price_bits: self.price_bits,
            quantity: self.quantity,
            volume: self.volume,
            active: self.active,
            external_link: self.external_link.clone(),
        }
    }
}

/// What the detail window of a comic is opened for.
#[derive(Clone, Copy, Debug, PartialEq, Eq, Structural)]
pub enum DetailType {
    Detail,
    New,
    Modify,
    Carico,
    Scarico,
}

impl DetailType {
    /// The fields of the comic can be edited: a new comic, or a modification.
    pub fn can_modify(&self) -> (b: bool)
        ensures
            b <==> (*self == DetailType::Modify || *self == DetailType::New),
    {
        match self {
            DetailType::Modify => true,
            DetailType::New => true,
            _ => false,
        }
    }

    /// The window records a movement of stock: a load or an unload.
    pub fn can_move(&self) -> (b: bool)
        ensures
            b <==> (*self == DetailType::Carico || *self == DetailType::Scarico),
    {
        match self {
            DetailType::Carico => true,
            DetailType::Scarico => true,
            _ => false,
        }
    }

    /// The window creates a comic; only then can its ISBN be typed.
    pub fn is_new(&self) -> (b: bool)
        ensures
            b <==> *self == DetailType::New,
    {
        match self {
            DetailType::New => true,
            _ => false,
        }
    }

    /// The title of the detail window.
    pub fn window_title(&self) -> (t: &'static str)
        ensures
            *self == DetailType::New ==> t@ == "Nuovo articolo"@,
            *self == DetailType::Detail ==> t@ == "Dettaglio articolo"@,
            *self == DetailType::Modify ==> t@ == "Modifica articolo"@,
            *self == DetailType::Carico ==> t@ == "Carico magazzino"@,
            *self == DetailType::Scarico ==> t@ == "Scarico magazzino"@,
    {
        match self {
            DetailType::New => "Nuovo articolo",
            DetailType::Detail => "Dettaglio articolo",
            DetailType::Modify => "Modifica articolo",
            DetailType::Carico => "Carico magazzino",
            DetailType::Scarico => "Scarico magazzino",
        }
    }
}

impl Default for DetailType {
    fn default() -> (d: DetailType)
        ensures
            d == DetailType::Detail,
    {
        DetailType::Detail
    }
}

/// A comic shown in the detail window, with the quantity and the note of a
/// stock movement being typed.
#[derive(Debug, PartialEq)]
pub struct DetailComic {
    pub comic: Comic,
    pub mag_mov_quantity: i32,
    pub note: String,
    pub detail_type: DetailType,
}

/// What a detail window holds, with its texts as sequences of characters.
pub struct DetailView {
    pub comic: ComicView,
    pub mag_mov_quantity: i32,
    pub note: Seq<char>,
    pub detail_type: DetailType,
}

impl View for DetailComic {
    type V = DetailView;

    open spec fn view(&self) -> DetailView {
        DetailView {
            comic: self.comic@,
            mag_mov_quantity: self.mag_mov_quantity,
            note: self.note@,
            detail_type: self.detail_type,
        }
    }
}

/// A window of the given kind on `comic`, with no movement typed.
pub open spec fn opened_view(comic: ComicView, detail_type: DetailType) -> DetailView {
    DetailView { comic, mag_mov_quantity: 0, note: Seq::empty(), detail_type }
}

impl DetailComic {
    /// This window after a frame whose fields show `edited`: only what the
    /// window's kind lets the user edit is taken from `edited`.
    pub fn with_edits(&self, edited: DetailComic) -> (d: DetailComic)
        ensures
            d@ == window_edited(self@, edited@),
    {
        let kind = self.detail_type;
        let comic = if kind.can_modify() {
            let mut c = edited.comic;
            c.id_comic = self.comic.id_comic;
            c.quantity = self.comic.quantity;
            if !kind.is_new() {
                c.isbn = self.comic.isbn.clone();
            }
            c
        } else {
            self.comic.clone()
        };
        let (mag_mov_quantity, note) = if kind.can_move() {
            (edited.mag_mov_quantity, edited.note)
        } else {
            (self.mag_mov_quantity, self.note.clone())
        };
        DetailComic { comic, mag_mov_quantity, note, detail_type: kind }
    }

    /// A window of the given kind on a copy of `comic`, with no movement typed.
    pub fn opened(comic: &Comic, detail_type: DetailType) -> (d: DetailComic)
        ensures
            d@ == opened_view(comic@, detail_type),
    {
        DetailComic { comic: comic.clone(), mag_mov_quantity: 0, note: String::new(), detail_type }
    }
}

/// The comic after a frame of a window of kind `kind` on `current`, whose
/// fields show `edited`: a new comic's window takes every field typed but
/// the stock quantity and the record number; a modification's window the
/// same but the ISBN; any other window changes nothing.
pub open spec fn comic_edited(kind: DetailType, current: ComicView, edited: ComicView) -> ComicView {
    if kind == DetailType::New || kind == DetailType::Modify {
        ComicView {
            id_comic: current.id_comic,
            isbn: if kind == DetailType::New { edited.isbn } else { current.isbn },
            quantity: current.quantity,
            ..edited
        }
    } else {
        current
    }
}

/// The window after a frame on `current` whose fields show `edited`: the
/// comic as its kind lets it be edited, the quantity and note of a stock
/// movement only in a load or unload window, and the kind unchanged.
pub open spec fn window_edited(current: DetailView, edited: DetailView) -> DetailView {
    let moves = current.detail_type == DetailType::Carico || current.detail_type == DetailType::Scarico;
    DetailView {
        comic: comic_edited(current.detail_type, current.comic, edited.comic),
        mag_mov_quantity: if moves { edited.mag_mov_quantity } else { current.mag_mov_quantity },
        note: if moves { edited.note } else { current.note },
        detail_type: current.detail_type,
    }
}

/// `after` keeps every field of `before` that a window of its kind cannot
/// edit: the kind, the stock quantity, the ISBN (except in a new comic's
/// window), the whole comic in a view, load or unload window, and the typed
/// movement except in a load or unload window.
pub open spec fn keeps_locked_fields(before: DetailView, after: DetailView) -> bool {
    let t = before.detail_type;
    &&& after.detail_type == t
    &&& after.comic.quantity == before.comic.quantity
    &&& t != DetailType::New ==> after.comic.isbn == before.comic.isbn
    &&& (t == DetailType::Detail || t == DetailType::Carico || t == DetailType::Scarico) ==> after.comic
        == before.comic
    &&& !(t == DetailType::Carico || t == DetailType::Scarico) ==> after.mag_mov_quantity
        == before.mag_mov_quantity && after.note == before.note
}

/// A frame of a detail window never changes what its kind does not let the
/// user edit, whatever the window's fields show.
pub proof fn lemma_edits_keep_locked_fields(current: DetailView, edited: DetailView)
    ensures
        keeps_locked_fields(current, window_edited(current, edited)),
        keeps_locked_fields(current, current),
{
}

impl Default for DetailComic {
    fn default() -> (d: DetailComic)
        ensures
            d@ == opened_view(empty_comic(), DetailType::Detail),
    {
        DetailComic {
            comic: Comic::default(),
            mag_mov_quantity: 0,
            note: String::new(),
            detail_type: DetailType::Detail,
        }
    }
}

/// The colour scheme of the window.
#[derive(Clone, Copy, Debug, PartialEq, Eq, Structural)]
pub enum Theme {
    Light,
    Dark,
}

impl Theme {
    /// The other scheme: the settings button switches light to dark and
    /// anything else to light.
    pub fn toggled(&self) -> (t: Theme)
        ensures
            t == toggle_spec(*self),
    {
        match self {
            Theme::Light => Theme::Dark,
            Theme::Dark => Theme::Light,
        }
    }
}

/// Switching the scheme twice gives back the scheme one started from.
pub proof fn lemma_toggle_twice(t: Theme)
    ensures
        toggle_spec(toggle_spec(t)) == t,
        toggle_spec(t) != t,
{
}

/// The scheme that the settings button switches to.
pub open spec fn toggle_spec(t: Theme) -> Theme {
    match t {
        Theme::Light => Theme::Dark,
        Theme::Dark => Theme::Light,
    }
}

/// The comics of a list, each as what it is.
pub open spec fn comic_views(s: Seq<Comic>) -> Seq<ComicView> {
    s.map_values(|c: Comic| c@)
}

/// `s@ == lit@`, by the equality of `String`.
pub fn text_is(s: &String, lit: &str) -> (b: bool)
    ensures
        b == (s@ == lit@),
{
    let other = String::from_str(lit);
    *s == other
}

/// The character sequence of an optional text, or `default` where there is none.
pub open spec fn text_or(o: Option<String>, default: Seq<char>) -> Seq<char> {
    match o {
        Some(s) => s@,
        None => default,
    }
}

/// The optional text is present and reads `lit`.
pub open spec fn text_reads(o: Option<String>, lit: Seq<char>) -> bool {
    match o {
        Some(s) => s@ == lit,
        None => false,
    }
}

/// Whether an optional text is present and reads `lit`.
pub fn optional_text_is(o: &Option<String>, lit: &str) -> (b: bool)
    ensures
        b == text_reads(*o, lit@),
{
    match o {
        Some(s) => text_is(s, lit),
        None => false,
    }
}

/// The empty comic has every text empty, every number zero and is not
/// active; a window opened on a comic shows that comic, with no movement
/// quantity and no note, and is of the kind it was opened as.
pub proof fn lemma_empty_and_opened(c: ComicView, t: DetailType)
    ensures
        empty_comic().isbn.len() == 0 && empty_comic().title.len() == 0 && empty_comic().author.len()
            == 0 && empty_comic().genre.len() == 0 && empty_comic().image.len() == 0
            && empty_comic().external_link.len() == 0,
        empty_comic().id_comic == 0 && empty_comic().price_bits == 0 && empty_comic().quantity == 0
            && empty_comic().volume == 0 && !empty_comic().active,
        opened_view(c, t).comic == c,
        opened_view(c, t).detail_type == t,
        opened_view(c, t).mag_mov_quantity == 0,
        opened_view(c, t).note.len() == 0,
{
}

/// The comics of a list, as what they are, one for one and in order.
pub proof fn lemma_comic_views(s: Seq<Comic>)
    ensures
        comic_views(s).len() == s.len(),
        forall|i: int| 0 <= i < s.len() ==> #[trigger] comic_views(s)[i] == s[i]@,
{
}

/// An optional text reads as the text where there is one, else as the
/// default; it reads `lit` only where it is there and equal to `lit`.
pub proof fn lemma_optional_texts(o: Option<String>, d: Seq<char>, lit: Seq<char>)
    ensures
        o matches Some(s) ==> text_or(o, d) == s@,
        o is None ==> text_or(o, d) == d,
        text_reads(o, lit) <==> (o matches Some(s) && s@ == lit),
{
}

} // verus!
