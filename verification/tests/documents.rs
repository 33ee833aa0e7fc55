use fdahm::document::{count_field, flag_field, text_field, Field, Schema};
use fdahm::fdahm_result::DocumentFault;
use fdahm::fdahm_storage::{GlobalConfig, VideoMeta};

fn key(name: &str) -> String {
    name.to_string()
}

#[test]
fn text_field_takes_a_text() {
    assert_eq!(text_field("title", Some(Field::Text("T".to_string()))), Ok("T".to_string()));
}

#[test]
fn text_field_reports_a_missing_key() {
    assert_eq!(text_field("title", None), Err(DocumentFault::MissingKey { key: key("title") }));
}

#[test]
fn text_field_refuses_another_type() {
    assert_eq!(
        text_field("title", Some(Field::Integer(3))),
        Err(DocumentFault::WrongType { key: key("title") })
    );
    assert_eq!(
        text_field("title", Some(Field::Table)),
        Err(DocumentFault::WrongType { key: key("title") })
    );
}

#[test]
fn count_field_takes_zero_and_the_largest_number() {
    assert_eq!(count_field("views", Some(Field::Integer(0))), Ok(0));
    assert_eq!(count_field("views", Some(Field::Integer(i64::MAX))), Ok(9223372036854775807));
}

#[test]
fn count_field_refuses_a_number_below_zero() {
    assert_eq!(
        count_field("views", Some(Field::Integer(-1))),
        Err(DocumentFault::Negative { key: key("views") })
    );
}

#[test]
fn count_field_reports_a_missing_key_and_another_type() {
    assert_eq!(count_field("views", None), Err(DocumentFault::MissingKey { key: key("views") }));
    assert_eq!(
        count_field("views", Some(Field::Float)),
        Err(DocumentFault::WrongType { key: key("views") })
    );
    assert_eq!(
        count_field("views", Some(Field::Text("5".to_string()))),
        Err(DocumentFault::WrongType { key: key("views") })
    );
}

#[test]
fn flag_field_is_down_where_the_key_is_missing() {
    assert_eq!(flag_field("published", None), Ok(false));
}

#[test]
fn flag_field_takes_both_truth_values() {
    assert_eq!(flag_field("published", Some(Field::Boolean(true))), Ok(true));
    assert_eq!(flag_field("published", Some(Field::Boolean(false))), Ok(false));
}

#[test]
fn flag_field_refuses_another_type() {
    assert_eq!(
        flag_field("published", Some(Field::Text("true".to_string()))),
        Err(DocumentFault::WrongType { key: key("published") })
    );
    assert_eq!(
        flag_field("published", Some(Field::Integer(1))),
        Err(DocumentFault::WrongType { key: key("published") })
    );
}

#[test]
fn meta_from_fields_reports_the_first_fault_in_schema_order() {
    assert_eq!(
        VideoMeta::from_fields(None, Some(Field::Integer(-1)), Some(Field::Array)),
        Err(DocumentFault::MissingKey { key: key("title") })
    );
    assert_eq!(
        VideoMeta::from_fields(
            Some(Field::Text("T".to_string())),
            Some(Field::Integer(-1)),
            Some(Field::Array)
        ),
        Err(DocumentFault::Negative { key: key("views") })
    );
    assert_eq!(
        VideoMeta::from_fields(
            Some(Field::Text("T".to_string())),
            Some(Field::Integer(1)),
            Some(Field::Array)
        ),
        Err(DocumentFault::WrongType { key: key("published") })
    );
}

#[test]
fn config_from_fields_reports_the_first_fault_in_schema_order() {
    assert_eq!(
        GlobalConfig::from_fields(None, None, None),
        Err(DocumentFault::MissingKey { key: key("channel_id") })
    );
    assert_eq!(
        GlobalConfig::from_fields(Some(Field::Integer(1)), Some(Field::Datetime), None),
        Err(DocumentFault::WrongType { key: key("name") })
    );
    assert_eq!(
        GlobalConfig::from_fields(
            Some(Field::Integer(1)),
            Some(Field::Text("A".to_string())),
            None
        ),
        Err(DocumentFault::MissingKey { key: key("pp_url") })
    );
}

#[test]
fn meta_parses_a_document_without_published() {
    let meta = VideoMeta::parse("title = \"T\"\nviews = 5\n").unwrap();
    assert_eq!(meta, VideoMeta { title: "T".to_string(), views: 5, published: false });
}

#[test]
fn meta_parses_published_true() {
    let meta = VideoMeta::parse("title = \"T\"\nviews = 5\npublished = true\n").unwrap();
    assert!(meta.published);
}

#[test]
fn meta_parses_published_false() {
    let meta = VideoMeta::parse("published = false\ntitle = \"T\"\nviews = 5\n").unwrap();
    assert!(!meta.published);
}

#[test]
fn meta_ignores_keys_that_it_does_not_know() {
    let text = "# by hand\ntitle = \"T\"\nviews = 5\nseason = 2\n\n[extra]\nnote = \"x\"\n";
    let meta = VideoMeta::parse(text).unwrap();
    assert_eq!(meta, VideoMeta { title: "T".to_string(), views: 5, published: false });
}

#[test]
fn meta_needs_title_and_views() {
    assert_eq!(
        VideoMeta::parse("views = 5\n"),
        Err(DocumentFault::MissingKey { key: key("title") })
    );
    assert_eq!(
        VideoMeta::parse("title = \"T\"\n"),
        Err(DocumentFault::MissingKey { key: key("views") })
    );
}

#[test]
fn meta_refuses_values_of_another_type() {
    assert_eq!(
        VideoMeta::parse("title = 3\nviews = 5\n"),
        Err(DocumentFault::WrongType { key: key("title") })
    );
    assert_eq!(
        VideoMeta::parse("title = \"T\"\nviews = \"5\"\n"),
        Err(DocumentFault::WrongType { key: key("views") })
    );
    assert_eq!(
        VideoMeta::parse("title = \"T\"\nviews = 5.0\n"),
        Err(DocumentFault::WrongType { key: key("views") })
    );
    assert_eq!(
        VideoMeta::parse("title = \"T\"\nviews = 5\npublished = \"yes\"\n"),
        Err(DocumentFault::WrongType { key: key("published") })
    );
    assert_eq!(
        VideoMeta::parse("title = \"T\"\nviews = 5\npublished = 1979-05-27\n"),
        Err(DocumentFault::WrongType { key: key("published") })
    );
    assert_eq!(
        VideoMeta::parse("title = [\"T\"]\nviews = 5\n"),
        Err(DocumentFault::WrongType { key: key("title") })
    );
    assert_eq!(
        VideoMeta::parse("views = 5\n[title]\nen = \"T\"\n"),
        Err(DocumentFault::WrongType { key: key("title") })
    );
}

#[test]
fn meta_refuses_views_below_zero() {
    assert_eq!(
        VideoMeta::parse("title = \"T\"\nviews = -1\n"),
        Err(DocumentFault::Negative { key: key("views") })
    );
}

#[test]
fn meta_reports_what_is_no_toml() {
    match VideoMeta::parse("title = \n") {
        Err(DocumentFault::Syntax { message }) => assert!(!message.is_empty()),
        other => panic!("{:?}", other),
    }
    assert!(matches!(VideoMeta::parse("title \"T\""), Err(DocumentFault::Syntax { .. })));
    assert!(matches!(
        VideoMeta::parse("title = \"T\"\ntitle = \"U\"\nviews = 1\n"),
        Err(DocumentFault::Syntax { .. })
    ));
}

#[test]
fn meta_of_an_empty_document_lacks_its_title() {
    assert_eq!(VideoMeta::parse(""), Err(DocumentFault::MissingKey { key: key("title") }));
}

#[test]
fn config_parses_its_three_keys() {
    let config =
        GlobalConfig::parse("channel_id = 1\nname = \"A\"\npp_url = \"http://x\"\n").unwrap();
    assert_eq!(
        config,
        GlobalConfig { channel_id: 1, name: "A".to_string(), pp_url: "http://x".to_string() }
    );
}

#[test]
fn config_keeps_a_large_identifier() {
    let config = GlobalConfig::parse(
        "pp_url = \"p\"\nname = \"n\"\nchannel_id = 762636492421857300\n",
    )
    .unwrap();
    assert_eq!(config.channel_id, 762636492421857300);
}

#[test]
fn config_needs_every_key() {
    assert_eq!(
        GlobalConfig::parse("name = \"A\"\npp_url = \"http://x\"\n"),
        Err(DocumentFault::MissingKey { key: key("channel_id") })
    );
    assert_eq!(
        GlobalConfig::parse("channel_id = 1\npp_url = \"http://x\"\n"),
        Err(DocumentFault::MissingKey { key: key("name") })
    );
    assert_eq!(
        GlobalConfig::parse("channel_id = 1\nname = \"A\"\n"),
        Err(DocumentFault::MissingKey { key: key("pp_url") })
    );
}

#[test]
fn config_refuses_an_identifier_in_quotes() {
    assert_eq!(
        GlobalConfig::parse("channel_id = \"1\"\nname = \"A\"\npp_url = \"http://x\"\n"),
        Err(DocumentFault::WrongType { key: key("channel_id") })
    );
}
