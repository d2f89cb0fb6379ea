use catalog_sync::codes::{candidate_codes, first_match, index_tally, stem_of_path};
use catalog_sync::headers::{first_details_column, first_key_column, header_key, norm};

#[test]
fn candidate_codes_digit_stem() {
    // the alphanumeric-stripped form coincides with the whole stem here, and
    // the digit prefix adds the second candidate
    let r = candidate_codes("7111043002LE");
    assert_eq!(r, vec!["7111043002".to_string(), "7111043002LE".to_string()]);
}

#[test]
fn candidate_codes_separator_stem() {
    let r = candidate_codes("ABC_123");
    assert_eq!(
        r,
        vec!["ABC".to_string(), "ABC123".to_string(), "ABC_123".to_string()]
    );
}

#[test]
fn candidate_codes_fold_and_order() {
    let r = candidate_codes("abc-1");
    assert_eq!(
        r,
        vec!["ABC".to_string(), "ABC-1".to_string(), "ABC1".to_string()]
    );
}

#[test]
fn candidate_codes_trims_and_dedups() {
    let r = candidate_codes("  x  ");
    assert_eq!(r, vec!["X".to_string()]);
    // the trim sees every whitespace character the standard trim sees
    assert_eq!(candidate_codes("\u{00A0}x\u{2003}"), vec!["X".to_string()]);
    assert_eq!(candidate_codes(""), Vec::<String>::new());
    assert_eq!(candidate_codes("   "), Vec::<String>::new());
}

#[test]
fn candidate_codes_space_separator() {
    let r = candidate_codes("71 11");
    // whole stem, the part before the space, digits prefix, alnum-only form
    assert_eq!(
        r,
        vec![
            "71".to_string(),
            "71 11".to_string(),
            "7111".to_string()
        ]
    );
}

#[test]
fn first_match_takes_first_hit() {
    assert_eq!(first_match(&vec![None, Some(5), Some(7)]), Some((1, 5)));
    assert_eq!(first_match(&vec![Some(9)]), Some((0, 9)));
    assert_eq!(first_match(&vec![None, None]), None);
    assert_eq!(first_match(&vec![]), None);
}

#[test]
fn stem_of_path_takes_last_segment_up_to_first_dot() {
    assert_eq!(stem_of_path("dir\\sub/7111043002LE.jpg"), "7111043002LE");
    assert_eq!(stem_of_path("a.b.c"), "a");
    assert_eq!(stem_of_path("name"), "name");
    assert_eq!(stem_of_path("x/y/IMG_1.png"), "IMG_1");
}

#[test]
fn index_tally_counts() {
    let r = index_tally(
        &vec![true, false, true, true],
        &vec![true, false, false, true],
    );
    assert_eq!(r.scanned, 4);
    assert_eq!(r.matched, 3);
    assert_eq!(r.inserted, 2);
}

#[test]
fn norm_folds_accents_and_case() {
    // ASCII letters are upper-cased and upper-case accents folded; a
    // lower-case accented vowel has no ASCII upper case and stays put
    assert_eq!(norm("CÓDIGO"), "CODIGO");
    assert_eq!(norm("DESCRIÇÃO"), "DESCRICAO");
    assert_eq!(norm("APLICAÇÃO"), "APLICACAO");
    assert_eq!(norm(" código "), "CóDIGO");
    assert_eq!(norm("oem"), "OEM");
}

#[test]
fn header_key_maps_known_headers() {
    assert_eq!(header_key("Marca"), "brand");
    assert_eq!(header_key("FABRICANTE"), "brand");
    assert_eq!(header_key("CÓDIGO"), "code");
    assert_eq!(header_key("codigo"), "code");
    assert_eq!(header_key("ref"), "code");
    assert_eq!(header_key("DESCRIÇÃO"), "description");
    assert_eq!(header_key("descricao"), "description");
    assert_eq!(header_key("Grupo de Produtos"), "group");
    assert_eq!(header_key("APLICAÇÃO"), "application");
    assert_eq!(header_key("Montadora/s"), "make");
    assert_eq!(header_key("OEM"), "oem");
    assert_eq!(header_key("Similar"), "similar");
    assert_eq!(header_key("Preço"), "ignore");
}

#[test]
fn header_columns_take_first_occurrence() {
    let headers = vec![
        "Marca".to_string(),
        "CÓDIGO".to_string(),
        "Cod".to_string(),
        "DESCRIÇÃO".to_string(),
        "Observações".to_string(),
    ];
    assert_eq!(first_key_column(&headers, "brand"), Some(0));
    assert_eq!(first_key_column(&headers, "code"), Some(1));
    assert_eq!(first_key_column(&headers, "description"), Some(3));
    assert_eq!(first_key_column(&headers, "oem"), None);
    assert_eq!(first_details_column(&headers), Some(4));
    assert_eq!(first_details_column(&vec!["Marca".to_string()]), None);
}
