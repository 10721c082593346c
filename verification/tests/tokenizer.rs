use neoeco::text::{first_segment_of, normalize_commas_str, split_tokens, str_eq};

#[test]
fn split_tokens_drops_all_whitespace() {
    let tokens = split_tokens("  reg\t y,  x1 x2 \n");
    assert_eq!(tokens, vec!["reg", "y,", "x1", "x2"]);
}

#[test]
fn split_tokens_of_blank_input_is_empty() {
    assert!(split_tokens("").is_empty());
    assert!(split_tokens("   \t ").is_empty());
}

#[test]
fn normalize_commas_makes_commas_their_own_tokens() {
    assert_eq!(normalize_commas_str("reg y, x1"), "reg y ,  x1");
    assert_eq!(normalize_commas_str(",,"), " ,  , ");
    assert_eq!(normalize_commas_str("abc"), "abc");
    let tokens = split_tokens(normalize_commas_str("reg y,x1").as_str());
    assert_eq!(tokens, vec!["reg", "y", ",", "x1"]);
}

#[test]
fn first_segment_stops_at_the_first_comma() {
    assert_eq!(first_segment_of("reg y, x1 x2"), "reg y");
    assert_eq!(first_segment_of("no comma here"), "no comma here");
    assert_eq!(first_segment_of(",starts with one"), "");
}

#[test]
fn str_eq_compares_by_characters() {
    assert!(str_eq("reg", "reg"));
    assert!(!str_eq("reg", "regression"));
    assert!(!str_eq("reg", "rag"));
    assert!(str_eq("", ""));
}
