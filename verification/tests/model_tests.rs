use comicdb::model::{
    external_link_field, search_requested, ClipboardRead, LinkField, MyApp, RowAction, SearchNext,
    SubmitNext, Warning,
};
use comicdb::statement::{Query, SqlValue};
use comicdb::types::{Comic, DetailComic, DetailType, Theme};

fn comic(isbn: &str, title: &str) -> Comic {
    let mut c = Comic::default();
    c.isbn = isbn.to_string();
    c.title = title.to_string();
    c
}

#[test]
fn app_starts_empty() {
    let app = MyApp::default();
    assert_eq!(app.search, Comic::default());
    assert!(!app.online_search);
    assert!(app.online_search_results.is_none());
    assert!(app.comics.is_empty());
    assert!(app.detail_opened.is_none());
}

#[test]
fn new_opens_empty_adding_window() {
    let mut app = MyApp::default();
    app.open_new();
    let d = app.detail_opened.unwrap();
    assert_eq!(d.detail_type, DetailType::New);
    assert_eq!(d.comic, Comic::default());
    assert_eq!(d.mag_mov_quantity, 0);
}

#[test]
fn import_of_a_comic_opens_it_for_adding() {
    let mut app = MyApp::default();
    let w = app.import_from_clipboard(ClipboardRead::Comic(comic("123", "Tex")));
    assert!(w.is_none());
    let d = app.detail_opened.unwrap();
    assert_eq!(d.detail_type, DetailType::New);
    assert_eq!(d.comic, comic("123", "Tex"));
}

#[test]
fn import_failures_warn() {
    let mut app = MyApp::default();
    assert_eq!(app.import_from_clipboard(ClipboardRead::Malformed), Some(Warning::MalformedImport));
    assert_eq!(app.import_from_clipboard(ClipboardRead::Unreadable), Some(Warning::ClipboardUnreadable));
    assert!(app.detail_opened.is_none());
}

#[test]
fn clear_empties_the_filter() {
    let mut app = MyApp::default();
    app.search = comic("1", "x");
    app.search.active = true;
    app.clear_search();
    assert_eq!(app.search, Comic::default());
}

#[test]
fn store_search_lists_rows() {
    let mut app = MyApp::default();
    let next = app.after_store_search(vec![comic("1", "a"), comic("2", "b")]);
    assert_eq!(next, SearchNext::Listed);
    assert_eq!(app.comics.len(), 2);
    assert_eq!(app.comics[1].isbn, "2");
}

#[test]
fn online_search_of_a_stored_isbn_warns() {
    let mut app = MyApp::default();
    app.online_search = true;
    app.search = comic("2", "");
    let next = app.after_store_search(vec![comic("1", "a"), comic("2", "b")]);
    assert_eq!(next, SearchNext::Warn(Warning::AlreadyInStore));
    assert!(app.comics.is_empty());
}

#[test]
fn online_search_of_a_new_isbn_goes_to_the_catalogue() {
    let mut app = MyApp::default();
    app.online_search = true;
    app.search = comic("9", "");
    let next = app.after_store_search(vec![comic("1", "a")]);
    assert_eq!(next, SearchNext::SearchCatalogue);
    assert!(app.comics.is_empty());
}

#[test]
fn animeclick_address() {
    let mut app = MyApp::default();
    assert_eq!(app.animeclick_url(), Err(Warning::NoTitleToSearch));
    app.search.title = "One Piece Red".to_string();
    assert_eq!(
        app.animeclick_url(),
        Ok("https://www.animeclick.it/cerca?tipo=opera&name=One+Piece+Red".to_string())
    );
}

#[test]
fn row_menu_on_the_store() {
    let c = comic("5", "Dylan");
    for (action, kind) in [
        (RowAction::Dettaglio, DetailType::Detail),
        (RowAction::Modifica, DetailType::Modify),
        (RowAction::Carico, DetailType::Carico),
        (RowAction::Scarico, DetailType::Scarico),
    ] {
        let mut app = MyApp::default();
        app.open_row_detail(&c, action, false);
        let d = app.detail_opened.unwrap();
        assert_eq!(d.detail_type, kind);
        assert_eq!(d.comic, c);
    }
}

#[test]
fn row_menu_on_online_results() {
    let c = comic("5", "Dylan");
    let mut app = MyApp::default();
    app.open_row_detail(&c, RowAction::Dettaglio, true);
    assert_eq!(app.detail_opened.unwrap().detail_type, DetailType::New);
    for action in [RowAction::Modifica, RowAction::Carico, RowAction::Scarico] {
        let mut app = MyApp::default();
        app.open_row_detail(&c, action, true);
        assert!(app.detail_opened.is_none());
    }
}

fn opened_on(kind: DetailType) -> MyApp {
    let mut app = MyApp::default();
    let mut c = comic("7", "Zagor");
    c.quantity = 10;
    c.id_comic = 42;
    app.detail_opened = Some(DetailComic::opened(&c, kind));
    app
}

fn edits(kind: DetailType) -> DetailComic {
    let mut c = comic("8", "Zagor 2");
    c.quantity = 99;
    c.id_comic = 1;
    c.genre = "Western".to_string();
    DetailComic { comic: c, mag_mov_quantity: 4, note: "nota".to_string(), detail_type: kind }
}

#[test]
fn unclicked_modify_window_keeps_allowed_edits() {
    let mut app = opened_on(DetailType::Modify);
    assert!(app.detail_frame(edits(DetailType::Modify), false).is_none());
    let d = app.detail_opened.unwrap();
    assert_eq!(d.detail_type, DetailType::Modify);
    assert_eq!(d.comic.title, "Zagor 2");
    assert_eq!(d.comic.genre, "Western");
    assert_eq!(d.comic.isbn, "7");
    assert_eq!(d.comic.quantity, 10);
    assert_eq!(d.comic.id_comic, 42);
    assert_eq!(d.mag_mov_quantity, 0);
    assert_eq!(d.note, "");
}

#[test]
fn unclicked_new_window_takes_the_isbn() {
    let mut app = opened_on(DetailType::New);
    assert!(app.detail_frame(edits(DetailType::New), false).is_none());
    let d = app.detail_opened.unwrap();
    assert_eq!(d.comic.isbn, "8");
    assert_eq!(d.comic.quantity, 10);
}

#[test]
fn unclicked_movement_window_keeps_the_comic() {
    let mut app = opened_on(DetailType::Carico);
    assert!(app.detail_frame(edits(DetailType::Modify), false).is_none());
    let d = app.detail_opened.unwrap();
    assert_eq!(d.detail_type, DetailType::Carico);
    assert_eq!(d.comic.isbn, "7");
    assert_eq!(d.comic.title, "Zagor");
    assert_eq!(d.comic.quantity, 10);
    assert_eq!(d.mag_mov_quantity, 4);
    assert_eq!(d.note, "nota");
}

#[test]
fn view_only_window_does_nothing() {
    let mut app = opened_on(DetailType::Detail);
    assert!(app.detail_frame(edits(DetailType::Detail), true).is_none());
    assert!(app.detail_frame(edits(DetailType::New), false).is_none());
    let d = app.detail_opened.unwrap();
    assert_eq!(d.detail_type, DetailType::Detail);
    assert_eq!(d.comic.title, "Zagor");
}

#[test]
fn clicked_window_returns_its_statement() {
    let mut app = opened_on(DetailType::New);
    let st = app.detail_frame(edits(DetailType::New), true).unwrap();
    assert_eq!(st.query, Query::InsertComic);
    assert_eq!(st.args[0], SqlValue::Text("8".to_string()));
    assert_eq!(app.detail_opened.as_ref().unwrap().comic.title, "Zagor");

    let mut app = opened_on(DetailType::Carico);
    let st = app.detail_frame(edits(DetailType::Carico), true).unwrap();
    assert_eq!(st.query, Query::CaricoMovement);
    assert_eq!(
        st.args,
        vec![SqlValue::Text("7".to_string()), SqlValue::Integer(4), SqlValue::Text(String::new())]
    );

    let mut app = opened_on(DetailType::Scarico);
    let st = app.detail_frame(edits(DetailType::Scarico), true).unwrap();
    assert_eq!(st.query, Query::ScaricoMovement);

    let mut app = opened_on(DetailType::Modify);
    let st = app.detail_frame(edits(DetailType::Modify), true).unwrap();
    assert_eq!(st.query, Query::UpdateComic);
    assert_eq!(st.args.len(), 8);
    assert_eq!(st.args[7], SqlValue::Text("7".to_string()));
}

#[test]
fn window_state_changes() {
    let mut app = MyApp::default();
    app.show_online_results(Some(vec![comic("1", "a")]));
    assert_eq!(app.online_search_results.as_ref().unwrap().len(), 1);
    app.close_online_results();
    assert!(app.online_search_results.is_none());
    app.reload_comics(vec![comic("1", "a"), comic("2", "b")]);
    assert_eq!(app.comics.len(), 2);
    app.open_new();
    app.close_detail();
    assert!(app.detail_opened.is_none());
}

#[test]
fn submit_success_closes_and_failure_warns() {
    let mut app = MyApp::default();
    app.open_new();
    assert_eq!(app.after_submit(DetailType::New, false), SubmitNext::Warn(Warning::InsertFailed));
    assert!(app.detail_opened.is_some());
    assert_eq!(app.after_submit(DetailType::Carico, false), SubmitNext::Warn(Warning::CaricoFailed));
    assert_eq!(app.after_submit(DetailType::Scarico, false), SubmitNext::Warn(Warning::ScaricoFailed));
    assert_eq!(app.after_submit(DetailType::Modify, false), SubmitNext::Warn(Warning::UpdateFailed));
    assert_eq!(app.after_submit(DetailType::New, true), SubmitNext::Reload);
    assert!(app.detail_opened.is_none());
}

#[test]
fn warning_texts() {
    assert_eq!(Warning::MalformedImport.message(), "Formato non corretto");
    assert_eq!(Warning::ClipboardUnreadable.message(), "Errore nella lettura della clipboard");
    assert_eq!(Warning::AlreadyInStore.message(), "Il codice ISBN cercato è già presente in magazzino");
    assert_eq!(Warning::NoTitleToSearch.message(), "Nessun tiolo impostato da cercare su AnimeClick");
    assert_eq!(Warning::InsertFailed.message(), "Si è verificato un errore nell'inserimento");
    assert_eq!(Warning::CaricoFailed.message(), "Si è verificato un errore durante il carico a magazzino");
    assert_eq!(Warning::ScaricoFailed.message(), "Si è verificato un errore durante lo scarico da magazzino");
    assert_eq!(
        Warning::UpdateFailed.message(),
        "Si è verificato un errore con l'aggiornamento dei dati di questo articolo"
    );
}

#[test]
fn link_field_by_kind() {
    let link = "https://www.animeclick.it/x".to_string();
    assert_eq!(external_link_field(DetailType::New, &link), LinkField::Editable);
    assert_eq!(external_link_field(DetailType::Modify, &String::new()), LinkField::Editable);
    assert_eq!(external_link_field(DetailType::Detail, &link), LinkField::Link);
    assert_eq!(external_link_field(DetailType::Carico, &String::new()), LinkField::Unset);
}

#[test]
fn search_request_precedence() {
    assert!(search_requested(true, false, false, false, true, false));
    assert!(!search_requested(true, true, true, true, false, false));
    assert!(!search_requested(false, false, false, false, true, false));
    assert!(search_requested(false, false, false, false, false, true));
    assert!(search_requested(false, false, false, true, true, true));
}

#[test]
fn detail_kinds() {
    assert!(DetailType::New.can_modify() && DetailType::Modify.can_modify());
    assert!(!DetailType::Detail.can_modify() && !DetailType::Carico.can_modify());
    assert!(DetailType::Carico.can_move() && DetailType::Scarico.can_move());
    assert!(!DetailType::New.can_move());
    assert!(DetailType::New.is_new() && !DetailType::Modify.is_new());
    assert_eq!(DetailType::New.window_title(), "Nuovo articolo");
    assert_eq!(DetailType::Detail.window_title(), "Dettaglio articolo");
    assert_eq!(DetailType::Modify.window_title(), "Modifica articolo");
    assert_eq!(DetailType::Carico.window_title(), "Carico magazzino");
    assert_eq!(DetailType::Scarico.window_title(), "Scarico magazzino");
    assert_eq!(DetailType::default(), DetailType::Detail);
}

#[test]
fn theme_toggles_back_and_forth() {
    assert_eq!(Theme::Light.toggled(), Theme::Dark);
    assert_eq!(Theme::Dark.toggled(), Theme::Light);
    assert_eq!(Theme::Light.toggled().toggled(), Theme::Light);
}

#[test]
fn comic_clone_and_default() {
    let c = comic("1", "a");
    assert_eq!(c.clone(), c);
    let d = DetailComic::default();
    assert_eq!(d.detail_type, DetailType::Detail);
    assert_eq!(d.comic, Comic::default());
    assert_eq!(d.note, "");
    let o = DetailComic::opened(&c, DetailType::Scarico);
    assert_eq!(o.comic, c);
    assert_eq!(o.detail_type, DetailType::Scarico);
}
