use nostd_rpc::decode::decode_html;

#[test]
fn percent_sequences_decode() {
    assert_eq!(decode_html("%41%42"), "AB");
}

#[test]
fn entity_sequences_decode() {
    assert_eq!(decode_html("&#65;&#66;"), "AB");
}

#[test]
fn malformed_sequences_pass_through() {
    assert_eq!(decode_html("100% &#x;"), "100% &#x;");
}

#[test]
fn plain_text_is_unchanged() {
    let s = "Hello, world! a & b # c; 12";
    assert_eq!(decode_html(s), s);
    assert_eq!(decode_html(""), "");
}

#[test]
fn percent_with_lowercase_hex() {
    assert_eq!(decode_html("a%2fb%3A"), "a/b:");
}

#[test]
fn percent_byte_maps_to_latin1_char() {
    assert_eq!(decode_html("%e9"), "\u{e9}");
}

#[test]
fn percent_at_end_stays() {
    assert_eq!(decode_html("50%"), "50%");
    assert_eq!(decode_html("50%4"), "50%4");
}

#[test]
fn percent_with_non_hex_keeps_both_characters() {
    assert_eq!(decode_html("%zz!"), "%zz!");
    assert_eq!(decode_html("%4g%41"), "%4gA");
}

#[test]
fn entity_with_leading_zeros() {
    assert_eq!(decode_html("&#0065;"), "A");
}

#[test]
fn entity_multibyte_code_point() {
    assert_eq!(decode_html("&#233;t&#233;"), "\u{e9}t\u{e9}");
    assert_eq!(decode_html("&#128512;"), "\u{1F600}");
}

#[test]
fn entity_without_digits_or_semicolon_passes_through() {
    assert_eq!(decode_html("&#;"), "&#;");
    assert_eq!(decode_html("&#12a"), "&#12a");
    assert_eq!(decode_html("&#65"), "&#65");
    assert_eq!(decode_html("&"), "&");
    assert_eq!(decode_html("&#"), "&#");
}

#[test]
fn entity_outside_unicode_passes_through() {
    assert_eq!(decode_html("&#1114112;"), "&#1114112;");
    assert_eq!(decode_html("&#55296;"), "&#55296;");
    assert_eq!(decode_html("&#99999999999999999999;"), "&#99999999999999999999;");
}

#[test]
fn mixed_text() {
    assert_eq!(decode_html("x=%31&#38;y"), "x=1&y");
}
