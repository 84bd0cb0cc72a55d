use tips::add::{get_tip_data, read_template, write_template, Input, Source, PLACEHOLDER};
use tips::error::TipsError;
use tips::template::{decode, encode, is_unchanged, tip_template, SEPARATOR, STARTER, TEMPLATE};
use tips::update::extrace_metadata_data;

#[test]
fn encode_puts_the_separator_line_between_the_parts() {
    let document = encode("subject: brew coffee", "grind, then pour");
    assert_eq!(
        document,
        "subject: brew coffee\n----- TIP BELOW THIS LINE -----\ngrind, then pour"
    );
}

#[test]
fn encode_of_the_starter_is_the_template() {
    assert_eq!(encode(STARTER, ""), TEMPLATE);
    assert_eq!(encode(STARTER, "abc"), format!("{}abc", TEMPLATE));
}

#[test]
fn template_and_separator_are_the_known_texts() {
    let t = tip_template();
    assert_eq!(t.separator, "----- TIP BELOW THIS LINE -----");
    assert_eq!(t.template, "subject:\ntags:\n  - notag\n----- TIP BELOW THIS LINE -----\n");
    assert_eq!(t.separator, SEPARATOR);
    assert_eq!(t.template, TEMPLATE);
}

#[test]
fn decode_splits_at_the_separator() {
    let r = decode("subject: a\ntags:\n  - b\n----- TIP BELOW THIS LINE -----\nline one\nline two\n");
    assert_eq!(
        r,
        Ok(("subject: a\ntags:\n  - b\n".to_string(), "line one\nline two\n".to_string()))
    );
}

#[test]
fn decode_round_trips_encode() {
    let metadata = "subject: fix bike\ntags:\n  - garage";
    let content = "oil the chain\n\nthen ride";
    let document = encode(metadata, content);
    assert_eq!(decode(&document), Ok((format!("{}\n", metadata), content.to_string())));
}

#[test]
fn decode_round_trips_content_that_holds_the_separator() {
    let metadata = "subject: x";
    let content = "a\n----- TIP BELOW THIS LINE -----\nb";
    let document = encode(metadata, content);
    assert_eq!(decode(&document), Ok(("subject: x\n".to_string(), content.to_string())));
}

#[test]
fn decode_round_trips_text_outside_ascii() {
    let metadata = "subject: caf\u{e9} \u{2615}";
    let content = "gr\u{fc}\u{df}e \u{1f600}\n";
    let document = encode(metadata, content);
    assert_eq!(decode(&document), Ok((format!("{}\n", metadata), content.to_string())));
}

#[test]
fn decode_without_separator_is_malformed() {
    assert_eq!(decode(""), Err(TipsError::MalformedDocument));
    assert_eq!(decode("subject: a\ncontent"), Err(TipsError::MalformedDocument));
    assert_eq!(
        decode("subject: a\n----- TIP BELOW THIS LINE ----\ncontent"),
        Err(TipsError::MalformedDocument)
    );
    assert_eq!(
        decode("subject: a\n---- TIP BELOW THIS LINE -----\ncontent"),
        Err(TipsError::MalformedDocument)
    );
}

#[test]
fn decode_skips_one_line_break_only() {
    assert_eq!(
        decode("m----- TIP BELOW THIS LINE -----\n\nc"),
        Ok(("m".to_string(), "\nc".to_string()))
    );
}

#[test]
fn decode_of_a_document_that_ends_with_the_separator() {
    assert_eq!(
        decode("m\n----- TIP BELOW THIS LINE -----"),
        Ok(("m\n".to_string(), "".to_string()))
    );
    assert_eq!(
        decode("----- TIP BELOW THIS LINE -----"),
        Ok(("".to_string(), "".to_string()))
    );
}

#[test]
fn decode_keeps_what_follows_the_separator_on_its_line() {
    assert_eq!(
        decode("m\n----- TIP BELOW THIS LINE -----x\nc"),
        Ok(("m\n".to_string(), "x\nc".to_string()))
    );
}

#[test]
fn extrace_metadata_data_splits_like_decode() {
    let contents = "subject: a\n----- TIP BELOW THIS LINE -----\nthe text".to_string();
    let parts = extrace_metadata_data(&contents).unwrap();
    assert_eq!(parts.metadata, "subject: a\n");
    assert_eq!(parts.data, "the text");
    let broken = "subject: a\nthe text".to_string();
    assert_eq!(extrace_metadata_data(&broken).err(), Some(TipsError::MalformedDocument));
}

#[test]
fn tip_data_of_each_source() {
    assert_eq!(get_tip_data(Source { origin: Input::File("from file".to_string()) }), "from file");
    assert_eq!(get_tip_data(Source { origin: Input::Stdin("from pipe".to_string()) }), "from pipe");
    assert_eq!(get_tip_data(Source { origin: Input::Interactive }), "<replace me>");
    assert_eq!(PLACEHOLDER, "<replace me>");
}

#[test]
fn write_template_appends_the_text() {
    assert_eq!(
        write_template(Source { origin: Input::Interactive }),
        "subject:\ntags:\n  - notag\n----- TIP BELOW THIS LINE -----\n<replace me>"
    );
    assert_eq!(
        write_template(Source { origin: Input::Stdin("piped\n".to_string()) }),
        "subject:\ntags:\n  - notag\n----- TIP BELOW THIS LINE -----\npiped\n"
    );
}

#[test]
fn unmodified_template_is_unchanged() {
    let document = write_template(Source { origin: Input::Interactive });
    assert!(is_unchanged(&document));
    assert!(is_unchanged(TEMPLATE));
    assert!(is_unchanged(&format!("{}anything at all", TEMPLATE)));
}

#[test]
fn edited_template_is_changed() {
    assert!(!is_unchanged("subject: brew coffee\ntags:\n  - kitchen\n----- TIP BELOW THIS LINE -----\ntext"));
    assert!(!is_unchanged(""));
    assert!(!is_unchanged("subject:\ntags:\n  - notag\n"));
    assert!(!is_unchanged("subject:\ntags:\n  - notag\n----- TIP BELOW THIS LINE ----"));
}

#[test]
fn read_template_aborts_on_the_unmodified_template() {
    let document = write_template(Source { origin: Input::Interactive });
    assert_eq!(read_template(&document).err(), Some(TipsError::Unchanged));
    let from_file = write_template(Source { origin: Input::File("some text".to_string()) });
    assert_eq!(read_template(&from_file).err(), Some(TipsError::Unchanged));
}

#[test]
fn read_template_without_separator_is_malformed() {
    assert_eq!(read_template("subject: a\n").err(), Some(TipsError::MalformedDocument));
}

#[test]
fn read_template_splits_an_edited_document() {
    let parts =
        read_template("subject: brew coffee\ntags:\n  - kitchen\n----- TIP BELOW THIS LINE -----\ngrind\n")
            .unwrap();
    assert_eq!(parts.metadata, "subject: brew coffee\ntags:\n  - kitchen\n");
    assert_eq!(parts.data, "grind\n");
}
