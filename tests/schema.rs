use taxscale::schema::{label_pieces, parse_groups, Format, Group};

#[test]
fn comma_separated_groups() {
    assert_eq!(
        parse_groups("ALLE,VERHEIRATET").unwrap(),
        vec![Group::Alle, Group::Verheiratet]
    );
    assert_eq!(
        parse_groups(",LEDIG_ALLEINE,,").unwrap(),
        vec![Group::LedigAlleine]
    );
    assert_eq!(parse_groups("").unwrap(), vec![]);
    assert_eq!(parse_groups("ALLE,NOPE,ALSO_NOPE").unwrap_err().name, "NOPE");
}

#[test]
fn labels_skip_empty_pieces() {
    assert_eq!(label_pieces("A,,B,"), vec!["A".to_string(), "B".to_string()]);
    assert_eq!(label_pieces(",,"), Vec::<String>::new());
}

#[test]
fn format_names() {
    assert_eq!(Format::from_name("PERCENT").unwrap(), Format::Percent);
    assert_eq!("STANDARDIZED".parse::<Format>().unwrap(), Format::Standardized);
    assert_eq!(Format::from_name("percent").unwrap_err().name, "percent");
}
