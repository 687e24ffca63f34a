use text_nodes::{ConstructionError, TextNode, TextType};

#[test]
fn unrecognized_tag_fails_with_invalid_type() {
    let result = TextNode::new("Some text", "bogus", Some("https://example.com"));
    assert_eq!(result, Err(ConstructionError::InvalidType));
}

#[test]
fn tag_matching_is_case_sensitive() {
    let result = TextNode::new("Some text", "Bold", None);
    assert_eq!(result, Err(ConstructionError::InvalidType));
}

#[test]
fn invalid_tag_reported_before_empty_text() {
    let result = TextNode::new("", "bogus", None);
    assert_eq!(result, Err(ConstructionError::InvalidType));
}

#[test]
fn missing_link_url_reported_before_empty_text() {
    let result = TextNode::new("", "link", None);
    assert_eq!(result, Err(ConstructionError::MissingLinkUrl));
}

#[test]
fn missing_image_url_reported_before_empty_text() {
    let result = TextNode::new("", "image", None);
    assert_eq!(result, Err(ConstructionError::MissingImageUrl));
}

#[test]
fn empty_text_fails_for_every_valid_tag() {
    assert_eq!(
        TextNode::new("", "text", None),
        Err(ConstructionError::EmptyText)
    );
    assert_eq!(
        TextNode::new("", "bold", None),
        Err(ConstructionError::EmptyText)
    );
    assert_eq!(
        TextNode::new("", "italic", None),
        Err(ConstructionError::EmptyText)
    );
    assert_eq!(
        TextNode::new("", "code", None),
        Err(ConstructionError::EmptyText)
    );
    assert_eq!(
        TextNode::new("", "link", Some("https://example.com")),
        Err(ConstructionError::EmptyText)
    );
    assert_eq!(
        TextNode::new("", "image", Some("https://example.com")),
        Err(ConstructionError::EmptyText)
    );
}

#[test]
fn url_is_ignored_for_tags_without_one() {
    let result = TextNode::new("Some text", "bold", Some("https://example.com"));
    assert!(result.is_ok());
    assert_eq!(result.ok().unwrap().text_type(), TextType::Bold);
}

#[test]
fn identical_inputs_give_value_equal_nodes() {
    let first = TextNode::new("A link", "link", Some("https://example.com"));
    let second = TextNode::new("A link", "link", Some("https://example.com"));
    assert!(first.is_ok());
    assert_eq!(first, second);
}

#[test]
fn identical_inputs_give_value_equal_errors() {
    let first = TextNode::new("", "image", None);
    let second = TextNode::new("", "image", None);
    assert!(first.is_err());
    assert_eq!(first, second);
}

#[test]
fn scenario_plain_text_node() {
    let result = TextNode::new("Some text", "text", None);
    let node = result.ok().unwrap();
    assert_eq!(node.clone().text(), "Some text");
    assert_eq!(node.text_type(), TextType::Text);
}

#[test]
fn scenario_image_node_carries_url() {
    let result = TextNode::new("An image", "image", Some("https://example.com"));
    let node = result.ok().unwrap();
    assert_eq!(node.clone().text(), "An image");
    assert_eq!(
        node.text_type(),
        TextType::Image(String::from("https://example.com"))
    );
}

#[test]
fn scenario_link_without_url_fails() {
    let result = TextNode::new("A link", "link", None);
    assert_eq!(result, Err(ConstructionError::MissingLinkUrl));
}

#[test]
fn scenario_empty_bold_fails() {
    let result = TextNode::new("", "bold", None);
    assert_eq!(result, Err(ConstructionError::EmptyText));
}

#[test]
fn error_messages_name_the_failure() {
    assert_eq!(
        ConstructionError::InvalidType.message(),
        "invalid text type"
    );
    assert_eq!(
        ConstructionError::MissingLinkUrl.message(),
        "Missing link url"
    );
    assert_eq!(
        ConstructionError::MissingImageUrl.message(),
        "Missing image url"
    );
    assert_eq!(
        ConstructionError::EmptyText.message(),
        "Text can not be empty"
    );
}
