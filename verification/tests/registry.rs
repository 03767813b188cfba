use quickwit_doc_mapping::registry::ALL_FLATTEN_TAG;
use quickwit_doc_mapping::{
    AllFlattenDocMapper, DocMapper, DocParsingError, Mapper, QueryParserError, SearchRequest,
};
use tantivy::schema::Value;

#[test]
fn tag_of_the_flatten_mapper() {
    assert_eq!(ALL_FLATTEN_TAG, "all_flatten");
}

#[test]
fn from_tag_makes_the_flatten_mapper() {
    let mapper = Mapper::from_tag("all_flatten").expect("a mapper");
    assert!(matches!(mapper, Mapper::AllFlatten(_)));
    assert_eq!(mapper.schema(), AllFlattenDocMapper::new().schema());
}

#[test]
fn from_tag_knows_no_other_tag() {
    for tag in ["", "default", "all_flatten ", "All_Flatten", "all_flatte", "all-flatten"] {
        assert!(Mapper::from_tag(tag).is_none());
    }
}

#[test]
fn chosen_mapper_maps_as_the_flatten_mapper() {
    let chosen = Mapper::from_tag("all_flatten").expect("a mapper");
    let flatten = AllFlattenDocMapper::new();
    for text in [r#"{"a":1,"b":"x"}"#, "not json", r#"{"_source":[1]}"#] {
        assert_eq!(chosen.doc_from_json(text), flatten.doc_from_json(text));
    }
    let doc = chosen.doc_from_json(r#"{"k":"v"}"#).expect("a document");
    assert_eq!(doc.field_values()[0].value(), &Value::Str(r#"{"k":"v"}"#.to_string()));
    assert_eq!(
        chosen.doc_from_json("{"),
        Err(DocParsingError::NotJson("{".to_string()))
    );
}

#[test]
fn chosen_mapper_rejects_a_search() {
    let chosen = Mapper::from_tag("all_flatten").expect("a mapper");
    let request = SearchRequest {
        index_id: "logs".to_string(),
        query: "*".to_string(),
        search_fields: vec!["title".to_string()],
        start_timestamp: Some(-5),
        end_timestamp: None,
        max_hits: 0,
        start_offset: 3,
    };
    match chosen.query(&request) {
        Err(error) => assert_eq!(error, QueryParserError::FieldDoesNotExist("title".to_string())),
        Ok(_) => panic!("a query"),
    }
}
