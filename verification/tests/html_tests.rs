use rss_reader::html::{
    best_image_in_page, contains_only_text, get_text_from_xml, join_trimmed_texts, pick_best_image,
    replace_image,
};

#[test]
fn replace_image_returns_the_parsed_document() {
    assert_eq!(replace_image("<p>hi</p>"), "<html><head></head><body><p>hi</p></body></html>");
    assert_eq!(
        replace_image("<img src=\"a.png\" alt=\"x\">"),
        "<html><head></head><body><img src=\"a.png\" alt=\"x\"></body></html>"
    );
}

#[test]
fn text_of_fragment_joins_trimmed_text_nodes() {
    assert_eq!(get_text_from_xml("<p> a </p><b>b</b>"), "ab");
    assert_eq!(get_text_from_xml("plain  text "), "plain  text");
    assert_eq!(get_text_from_xml("<div><img src=x></div>"), "");
    assert_eq!(get_text_from_xml(""), "");
}

#[test]
fn join_trimmed_texts_skips_non_text_nodes() {
    let nodes = vec![None, Some(" x ".to_string()), None, Some("\ty".to_string())];
    assert_eq!(join_trimmed_texts(&nodes), "xy");
    assert_eq!(join_trimmed_texts(&Vec::new()), "");
}

#[test]
fn contains_only_text_compares_text_not_markup() {
    assert!(contains_only_text("<p>hello <b>world</b></p>", "world"));
    assert!(contains_only_text("<p>hello world</p>", "<i>hello</i>"));
    assert!(!contains_only_text("<p>hello</p>", "goodbye"));
    assert!(contains_only_text("<p>anything</p>", "<br>"));
    let s = "<div>same <em>text</em></div>";
    assert!(contains_only_text(s, s));
}

#[test]
fn best_image_prefers_og_image() {
    let page = "<html><head><meta property=\"og:image\" content=\"og.png\"></head><body><img src=\"a.png\"></body></html>";
    assert_eq!(best_image_in_page(page), Some("og.png".to_string()));
}

#[test]
fn best_image_falls_back_to_first_img_with_src() {
    let page = "<html><body><img alt=\"no src\"><img src=\"b.png\"><img src=\"c.png\"></body></html>";
    assert_eq!(best_image_in_page(page), Some("b.png".to_string()));
    let og_without_content = "<meta property=\"og:image\"><img src=\"c.png\">";
    assert_eq!(best_image_in_page(og_without_content), Some("c.png".to_string()));
    assert_eq!(best_image_in_page("<p>no images</p>"), None);
}

#[test]
fn pick_best_image_looks_only_at_the_first_og_element() {
    let og = vec![None, Some("second.png".to_string())];
    let imgs = vec![None, Some("img.png".to_string())];
    assert_eq!(pick_best_image(&og, &imgs), Some("img.png".to_string()));
    assert_eq!(pick_best_image(&Vec::new(), &Vec::new()), None);
}
