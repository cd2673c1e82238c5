use comicdb::statement::{
    carica_statement, insert_comic_statement, scarica_statement, search_comics_statement,
    update_comic_statement, Query, SqlValue,
};
use comicdb::types::Comic;

fn sample() -> Comic {
    Comic {
        id_comic: 3,
        isbn: "9788822611111".to_string(),
        title: "One Piece".to_string(),
        author: "Eiichiro Oda".to_string(),
        genre: "Shonen".to_string(),
        image: "http://img/1.jpg".to_string(),
        price_bits: 4.9f32.to_bits(),
        quantity: 5,
        volume: 12,
        active: true,
        external_link: String::new(),
    }
}

fn text(s: &str) -> SqlValue {
    SqlValue::Text(s.to_string())
}

#[test]
fn insert_binds_seven_values_in_column_order() {
    let st = insert_comic_statement(&sample());
    assert_eq!(st.query, Query::InsertComic);
    assert_eq!(
        st.args,
        vec![
            text("9788822611111"),
            text("One Piece"),
            text("Eiichiro Oda"),
            text("Shonen"),
            SqlValue::Real(4.9f32.to_bits()),
            text("http://img/1.jpg"),
            SqlValue::Integer(12),
        ]
    );
}

#[test]
fn update_binds_null_for_empty_texts() {
    let mut c = sample();
    c.title = String::new();
    c.genre = String::new();
    c.active = false;
    let st = update_comic_statement(&c);
    assert_eq!(st.query, Query::UpdateComic);
    assert_eq!(
        st.args,
        vec![
            SqlValue::OptionalText(None),
            SqlValue::OptionalText(Some("Eiichiro Oda".to_string())),
            SqlValue::OptionalText(None),
            SqlValue::Real(4.9f32.to_bits()),
            SqlValue::Integer(12),
            text("http://img/1.jpg"),
            SqlValue::Boolean(false),
            text("9788822611111"),
        ]
    );
}

#[test]
fn update_binds_typed_texts() {
    let st = update_comic_statement(&sample());
    assert_eq!(st.args[0], SqlValue::OptionalText(Some("One Piece".to_string())));
    assert_eq!(st.args[2], SqlValue::OptionalText(Some("Shonen".to_string())));
    assert_eq!(st.args[6], SqlValue::Boolean(true));
    assert_eq!(st.args.len(), 8);
}

#[test]
fn search_with_empty_isbn_binds_null() {
    let st = search_comics_statement(&Comic::default());
    assert_eq!(st.query, Query::SearchComics);
    assert_eq!(st.args, vec![SqlValue::OptionalText(None), text(""), text(""), text("")]);
}

#[test]
fn search_with_filter_binds_isbn_title_genre_author() {
    let st = search_comics_statement(&sample());
    assert_eq!(
        st.args,
        vec![
            SqlValue::OptionalText(Some("9788822611111".to_string())),
            text("One Piece"),
            text("Shonen"),
            text("Eiichiro Oda"),
        ]
    );
}

#[test]
fn carico_binds_isbn_quantity_and_note() {
    let st = carica_statement(&sample(), 7, Some("arrivo".to_string()));
    assert_eq!(st.query, Query::CaricoMovement);
    assert_eq!(st.args, vec![text("9788822611111"), SqlValue::Integer(7), text("arrivo")]);
}

#[test]
fn carico_without_note_binds_empty_note() {
    let st = carica_statement(&sample(), -2, None);
    assert_eq!(st.args, vec![text("9788822611111"), SqlValue::Integer(-2), text("")]);
}

#[test]
fn scarico_binds_the_note_too() {
    let st = scarica_statement(&sample(), 3, None);
    assert_eq!(st.query, Query::ScaricoMovement);
    assert_eq!(st.args, vec![text("9788822611111"), SqlValue::Integer(3), text("")]);
    let st = scarica_statement(&sample(), 1, Some("reso".to_string()));
    assert_eq!(st.args[2], text("reso"));
}
