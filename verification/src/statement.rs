//! The statements that write and read the comic store: which statement is
//! run, and the values bound to its placeholders, in order.

use vstd::prelude::*;
use crate::types::{Comic, ComicView};

verus! {

/// The statements of the store.
#[derive(Clone, Copy, Debug, PartialEq, Eq, Structural)]
pub enum Query {
    /// Adds a comic.
    InsertComic,
    /// Changes the stored fields of the comic with a given ISBN.
    UpdateComic,
    /// Lists the comics that match a filter.
    SearchComics,
    /// Records a load of stock.
    CaricoMovement,
    /// Records an unload of stock.
    ScaricoMovement,
}

/// Text of `Query::InsertComic`. It names eight columns and is given seven
/// values; the eighth placeholder, `active`, is left unbound and so NULL.
pub const INSERT_COMIC_SQL: &'static str = "
            INSERT INTO Comics
            (isbn, title, author, genre, price, image, volume, active) VALUES
            (?, ?, ?, ?, ?, ?, ?, ?)
         ";

/// Text of `Query::UpdateComic`. A placeholder bound to NULL keeps the
/// stored value of its column. The text lacks the comma between the `image`
/// and `active` assignments, so the store refuses the statement and every
/// update fails.
pub const UPDATE_COMIC_SQL: &'static str = "
            UPDATE Comics
            SET
                title = IFNULL(?, title),
                author = IFNULL(?, author),
                genre = IFNULL(?, genre),
                price = IFNULL(?, price),
                volume = IFNULL(?, volume),
                image = IFNULL(?, image)
                active = IFNULL(?, active)
            WHERE
                isbn = ?
         ";

/// Text of `Query::CaricoMovement`.
pub const CARICO_SQL: &'static str = "
                    INSERT INTO MagMov
                    (isbn, quantity_s, quantity_c, mov_date, note) VALUES
                    (?, 0, ?, DATE('now'), ?)
                    ";

/// Text of `Query::ScaricoMovement`. It has two placeholders, though the
/// note is bound as a third value.
pub const SCARICO_SQL: &'static str = "
                    INSERT INTO MagMov
                    (isbn, quantity_s, quantity_c, mov_date) VALUES
                    (?, ?, 0, DATE('now'))
                    ";

/// A value bound to a placeholder.
#[derive(Debug, PartialEq)]
pub enum SqlValue {
    Text(String),
    /// A text, or NULL.
    OptionalText(Option<String>),
    Integer(i32),
    Boolean(bool),
    /// A 32-bit float, given by its bit pattern.
    Real(u32),
}

/// What a bound value is, with texts as sequences of characters.
pub enum SqlParam {
    Text(Seq<char>),
    OptionalText(Option<Seq<char>>),
    Integer(i32),
    Boolean(bool),
    Real(u32),
}

impl View for SqlValue {
    type V = SqlParam;

    open spec fn view(&self) -> SqlParam {
        match self {
            SqlValue::Text(s) => SqlParam::Text(s@),
            SqlValue::OptionalText(o) => SqlParam::OptionalText(
                match o {
                    Some(s) => Some(s@),
                    None => None,
                },
            ),
            SqlValue::Integer(i) => SqlParam::Integer(*i),
            SqlValue::Boolean(b) => SqlParam::Boolean(*b),
            SqlValue::Real(r) => SqlParam::Real(*r),
        }
    }
}

/// A statement to run, and its values in the order of its placeholders.
#[derive(Debug, PartialEq)]
pub struct SqlStatement {
    pub query: Query,
    pub args: Vec<SqlValue>,
}

/// The values of a statement, as parameters.
pub open spec fn params(args: Seq<SqlValue>) -> Seq<SqlParam> {
    args.map_values(|v: SqlValue| v@)
}

/// A text bound as NULL when it is empty.
pub open spec fn null_if_empty(s: Seq<char>) -> Option<Seq<char>> {
    if s.len() == 0 { None } else { Some(s) }
}

fn optional_text(s: &String) -> (v: SqlValue)
    ensures
        v@ == SqlParam::OptionalText(null_if_empty(s@)),
{
    if s.as_str().is_empty() {
        SqlValue::OptionalText(None)
    } else {
        SqlValue::OptionalText(Some(s.clone()))
    }
}

/// The values that adding `c` binds: ISBN, title, author, genre, price,
/// image and volume (the statement names eight columns; it is given seven
/// values, and `active` is left unbound).
pub open spec fn insert_params(c: ComicView) -> Seq<SqlParam> {
    seq![
        SqlParam::Text(c.isbn),
        SqlParam::Text(c.title),
        SqlParam::Text(c.author),
        SqlParam::Text(c.genre),
        SqlParam::Real(c.price_bits),
        SqlParam::Text(c.image),
        SqlParam::Integer(c.volume),
    ]
}

/// The statement that adds `comic` to the store.
pub fn insert_comic_statement(comic: &Comic) -> (st: SqlStatement)
    ensures
        st.query == Query::InsertComic,
        params(st.args@) == insert_params(comic@),
{
    let mut args: Vec<SqlValue> = Vec::new();
    args.push(SqlValue::Text(comic.isbn.clone()));
    args.push(SqlValue::Text(comic.title.clone()));
    args.push(SqlValue::Text(comic.author.clone()));
    args.push(SqlValue::Text(comic.genre.clone()));
    args.push(SqlValue::Real(comic.price_bits));
    args.push(SqlValue::Text(comic.image.clone()));
    args.push(SqlValue::Integer(comic.volume));
    assert(params(args@) =~= insert_params(comic@));
    SqlStatement { query: Query::InsertComic, args }
}

/// The values that changing the comic with the ISBN of `c` binds: title,
/// author and genre, each NULL (keep the stored one) when empty, then
/// price, volume, image, the active flag, and last the ISBN that selects
/// the row.
pub open spec fn update_params(c: ComicView) -> Seq<SqlParam> {
    seq![
        SqlParam::OptionalText(null_if_empty(c.title)),
        SqlParam::OptionalText(null_if_empty(c.author)),
        SqlParam::OptionalText(null_if_empty(c.genre)),
        SqlParam::Real(c.price_bits),
        SqlParam::Integer(c.volume),
        SqlParam::Text(c.image),
        SqlParam::Boolean(c.active),
        SqlParam::Text(c.isbn),
    ]
}

/// The statement that writes the fields of `comic` over the stored comic
/// with the same ISBN.
pub fn update_comic_statement(comic: &Comic) -> (st: SqlStatement)
    ensures
        st.query == Query::UpdateComic,
        params(st.args@) == update_params(comic@),
{
    let mut args: Vec<SqlValue> = Vec::new();
    args.push(optional_text(&comic.title));
    args.push(optional_text(&comic.author));
    args.push(optional_text(&comic.genre));
    args.push(SqlValue::Real(comic.price_bits));
    args.push(SqlValue::Integer(comic.volume));
    args.push(SqlValue::Text(comic.image.clone()));
    args.push(SqlValue::Boolean(comic.active));
    args.push(SqlValue::Text(comic.isbn.clone()));
    assert(params(args@) =~= update_params(comic@));
    SqlStatement { query: Query::UpdateComic, args }
}

/// The values of the search with the filter `c`: the ISBN, NULL when empty
/// (any ISBN), then title, genre and author.
pub open spec fn search_params(c: ComicView) -> Seq<SqlParam> {
    seq![
        SqlParam::OptionalText(null_if_empty(c.isbn)),
        SqlParam::Text(c.title),
        SqlParam::Text(c.genre),
        SqlParam::Text(c.author),
    ]
}

/// The statement that lists the stored comics that match the filter `comic`.
pub fn search_comics_statement(comic: &Comic) -> (st: SqlStatement)
    ensures
        st.query == Query::SearchComics,
        params(st.args@) == search_params(comic@),
{
    let mut args: Vec<SqlValue> = Vec::new();
    args.push(optional_text(&comic.isbn));
    args.push(SqlValue::Text(comic.title.clone()));
    args.push(SqlValue::Text(comic.genre.clone()));
    args.push(SqlValue::Text(comic.author.clone()));
    assert(params(args@) =~= search_params(comic@));
    SqlStatement { query: Query::SearchComics, args }
}

/// The note of a movement: the one given, or the empty text.
pub open spec fn note_text(note: Option<String>) -> Seq<char> {
    match note {
        Some(n) => n@,
        None => Seq::empty(),
    }
}

/// The values of a stock movement of `quantity` pieces of `c`: the ISBN,
/// the quantity and the note.
pub open spec fn movement_params(c: ComicView, quantity: i32, note: Option<String>) -> Seq<SqlParam> {
    seq![SqlParam::Text(c.isbn), SqlParam::Integer(quantity), SqlParam::Text(note_text(note))]
}

fn movement_args(comic: &Comic, quantity: i32, note: Option<String>) -> (args: Vec<SqlValue>)
    ensures
        params(args@) == movement_params(comic@, quantity, note),
{
    let ghost given = note;
    let text = match note {
        Some(n) => n,
        None => String::new(),
    };
    let mut args: Vec<SqlValue> = Vec::new();
    args.push(SqlValue::Text(comic.isbn.clone()));
    args.push(SqlValue::Integer(quantity));
    args.push(SqlValue::Text(text));
    assert(params(args@) =~= movement_params(comic@, quantity, given));
    args
}

/// The statement that records a load of `quantity` pieces of `comic`.
pub fn carica_statement(comic: &Comic, quantity: i32, note: Option<String>) -> (st: SqlStatement)
    ensures
        st.query == Query::CaricoMovement,
        params(st.args@) == movement_params(comic@, quantity, note),
{
    SqlStatement { query: Query::CaricoMovement, args: movement_args(comic, quantity, note) }
}

/// The statement that records an unload of `quantity` pieces of `comic`.
/// The note is bound as well, after the two values that the statement
/// names.
pub fn scarica_statement(comic: &Comic, quantity: i32, note: Option<String>) -> (st: SqlStatement)
    ensures
        st.query == Query::ScaricoMovement,
        params(st.args@) == movement_params(comic@, quantity, note),
{
    SqlStatement { query: Query::ScaricoMovement, args: movement_args(comic, quantity, note) }
}

/// Saving a comic never writes an empty title, author or genre over the
/// stored one: exactly those that are empty are bound to NULL, and the
/// others are bound as typed.
pub proof fn lemma_update_keeps_stored_texts(c: ComicView)
    ensures
        update_params(c)[0] == SqlParam::OptionalText(None) <==> c.title.len() == 0,
        update_params(c)[1] == SqlParam::OptionalText(None) <==> c.author.len() == 0,
        update_params(c)[2] == SqlParam::OptionalText(None) <==> c.genre.len() == 0,
        c.title.len() > 0 ==> update_params(c)[0] == SqlParam::OptionalText(Some(c.title)),
        c.author.len() > 0 ==> update_params(c)[1] == SqlParam::OptionalText(Some(c.author)),
        c.genre.len() > 0 ==> update_params(c)[2] == SqlParam::OptionalText(Some(c.genre)),
        update_params(c).last() == SqlParam::Text(c.isbn),
{
}

/// A search with an empty ISBN binds NULL for it (any ISBN matches); with
/// an ISBN typed, that ISBN.
pub proof fn lemma_search_isbn(c: ComicView)
    ensures
        c.isbn.len() == 0 ==> search_params(c)[0] == SqlParam::OptionalText(None),
        c.isbn.len() > 0 ==> search_params(c)[0] == SqlParam::OptionalText(Some(c.isbn)),
{
}

/// Adding a comic binds, in order: its ISBN, title, author, genre, price,
/// image and volume number, and nothing else.
pub proof fn lemma_insert_binds(c: ComicView)
    ensures
        insert_params(c).len() == 7,
        insert_params(c)[0] == SqlParam::Text(c.isbn),
        insert_params(c)[1] == SqlParam::Text(c.title),
        insert_params(c)[2] == SqlParam::Text(c.author),
        insert_params(c)[3] == SqlParam::Text(c.genre),
        insert_params(c)[4] == SqlParam::Real(c.price_bits),
        insert_params(c)[5] == SqlParam::Text(c.image),
        insert_params(c)[6] == SqlParam::Integer(c.volume),
{
}

/// Saving a comic binds, after the three texts that may be NULL: its price,
/// volume number, image, active flag and, last of eight, its ISBN.
pub proof fn lemma_update_binds(c: ComicView)
    ensures
        update_params(c).len() == 8,
        update_params(c)[3] == SqlParam::Real(c.price_bits),
        update_params(c)[4] == SqlParam::Integer(c.volume),
        update_params(c)[5] == SqlParam::Text(c.image),
        update_params(c)[6] == SqlParam::Boolean(c.active),
        update_params(c)[7] == SqlParam::Text(c.isbn),
{
}

/// Searching the store binds, after the ISBN, the title, genre and author
/// of the filter, and nothing else.
pub proof fn lemma_search_binds(c: ComicView)
    ensures
        search_params(c).len() == 4,
        search_params(c)[1] == SqlParam::Text(c.title),
        search_params(c)[2] == SqlParam::Text(c.genre),
        search_params(c)[3] == SqlParam::Text(c.author),
{
}

/// A stock movement binds the comic's ISBN, the quantity moved, and the
/// note given (the empty text where none is).
pub proof fn lemma_movement_binds(c: ComicView, quantity: i32, note: Option<String>)
    ensures
        movement_params(c, quantity, note).len() == 3,
        movement_params(c, quantity, note)[0] == SqlParam::Text(c.isbn),
        movement_params(c, quantity, note)[1] == SqlParam::Integer(quantity),
        note matches Some(n) ==> movement_params(c, quantity, note)[2] == SqlParam::Text(n@),
        note is None ==> movement_params(c, quantity, note)[2] == SqlParam::Text(Seq::empty()),
{
}

/// The parameters of a list of bound values are those values, one for one
/// and in order.
pub proof fn lemma_params_one_for_one(args: Seq<SqlValue>)
    ensures
        params(args).len() == args.len(),
        forall|i: int| 0 <= i < args.len() ==> #[trigger] params(args)[i] == args[i]@,
{
}

} // verus!
