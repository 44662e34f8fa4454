use chatbot_backend::services::localization::{localize, Language, MessageKey};
use chatbot_backend::services::text::{
    chars_of, contains_chars, eq_ignoring_ascii_case, fold_ascii_char, is_decimal_digit,
    is_whitespace, join, same_text, split_words, str_contains, trim, trim_bounds, words_of,
};
use chatbot_backend::services::topics::extract_keywords;

fn chars(s: &str) -> Vec<char> {
    s.chars().collect()
}

#[test]
fn trim_agrees_with_the_standard_library() {
    for s in [
        "",
        " ",
        "a",
        " a",
        "a ",
        "  hello world \n",
        "\t\r\n x \u{85}\u{a0}",
        "\u{1680}\u{2000}\u{200a}\u{2028}\u{2029}\u{202f}\u{205f}\u{3000}ż\u{3000}",
        "\u{200b}zero width space is no white space\u{200b}",
        "\u{1c}\u{1f}",
    ] {
        assert_eq!(trim(s), s.trim());
    }
}

#[test]
fn white_space_agrees_with_the_standard_library() {
    for n in 0..0x3100u32 {
        if let Some(c) = char::from_u32(n) {
            assert_eq!(is_whitespace(c), c.is_whitespace(), "U+{:04X}", n);
        }
    }
}

#[test]
fn trim_bounds_of_blank_text() {
    assert_eq!(trim_bounds(&chars("   ")), (3, 3));
    assert_eq!(trim_bounds(&chars("")), (0, 0));
    assert_eq!(trim_bounds(&chars(" ab c  ")), (1, 5));
}

#[test]
fn substring_search() {
    assert!(str_contains("what is the price?", "price"));
    assert!(str_contains("price", "price"));
    assert!(str_contains("anything", ""));
    assert!(str_contains("", ""));
    assert!(!str_contains("", "a"));
    assert!(!str_contains("pric", "price"));
    assert!(!str_contains("p r i c e", "price"));
    assert!(str_contains("dzień dobry", "ń d"));
    assert!(str_contains("aab", "ab"));
    assert!(contains_chars(&chars("xxab"), &chars("ab")));
    assert!(!contains_chars(&chars("xxab"), &chars("ba")));
}

#[test]
fn ascii_case_folding() {
    assert_eq!(fold_ascii_char('A'), 'a');
    assert_eq!(fold_ascii_char('Z'), 'z');
    assert_eq!(fold_ascii_char('a'), 'a');
    assert_eq!(fold_ascii_char('@'), '@');
    assert_eq!(fold_ascii_char('['), '[');
    assert_eq!(fold_ascii_char('Ś'), 'Ś');
    assert!(eq_ignoring_ascii_case(&chars("ReSeT"), &chars("reset")));
    assert!(!eq_ignoring_ascii_case(&chars("reset "), &chars("reset")));
    assert!(!eq_ignoring_ascii_case(&chars("resat"), &chars("reset")));
    assert!(eq_ignoring_ascii_case(&chars(""), &chars("")));
}

#[test]
fn digits_and_equality() {
    assert!(is_decimal_digit('0'));
    assert!(is_decimal_digit('9'));
    assert!(!is_decimal_digit('/'));
    assert!(!is_decimal_digit(':'));
    assert!(!is_decimal_digit('٣'));
    assert!(same_text("pl", "pl"));
    assert!(!same_text("pl", "pL"));
    assert_eq!(chars_of("zażółć"), chars("zażółć"));
}

#[test]
fn words_are_runs_of_letters_and_numbers() {
    let found: Vec<String> =
        words_of(&chars("  rust,python3--żółw  a_b ")).iter().map(|w| w.iter().collect()).collect();
    assert_eq!(found, vec!["rust", "python3", "żółw", "a", "b"]);
    assert!(words_of(&chars("")).is_empty());
    assert!(words_of(&chars(" ,.; ")).is_empty());
    assert_eq!(words_of(&chars("one")).len(), 1);
}

#[test]
fn words_by_given_marks() {
    let text = chars("ab cd");
    let found = split_words(&text, &vec![true, true, false, true, true]);
    assert_eq!(found, vec![chars("ab"), chars("cd")]);
    // a mark may call any character part of a word
    let found = split_words(&text, &vec![false, true, true, true, false]);
    assert_eq!(found, vec![chars("b c")]);
    // characters without a mark belong to no word
    let found = split_words(&text, &vec![true]);
    assert_eq!(found, vec![chars("a")]);
    assert!(split_words(&text, &vec![]).is_empty());
    assert!(split_words(&chars(""), &vec![true, true]).is_empty());
}

#[test]
fn keywords_of_a_text() {
    assert_eq!(extract_keywords("I need a Rust backend API"), vec!["rust", "backend", "api"]);
    assert_eq!(extract_keywords("SEO, seo; Seo and UX/UI"), vec!["seo", "ux", "ui"]);
    assert!(extract_keywords("rusty apis").is_empty());
    assert!(extract_keywords("").is_empty());
}

#[test]
fn joining() {
    assert_eq!(join(&vec![], ", "), "");
    assert_eq!(join(&vec!["a".to_string()], ", "), "a");
    assert_eq!(join(&vec!["a".to_string(), "b".to_string(), "c".to_string()], ", "), "a, b, c");
}

#[test]
fn localization_falls_back_to_english() {
    assert_eq!(localize("en", MessageKey::Greeting), "Hello! How can I help you today?");
    assert_eq!(localize("fr", MessageKey::Greeting), "Bonjour ! Comment puis-je vous aider aujourd'hui ?");
    assert_eq!(localize("pl", MessageKey::Greeting), "Cześć! W czym mogę pomóc?");
    assert_eq!(localize("es", MessageKey::Greeting), "¡Hola! ¿En qué puedo ayudarte hoy?");
    assert_eq!(localize("de", MessageKey::Greeting), "Hello! How can I help you today?");
    assert_eq!(localize("", MessageKey::ResetDone), "The conversation has been reset. Let's start over.");
    assert_eq!(localize("PL", MessageKey::NotProvided), "N/A");
    for language in [Language::English, Language::French, Language::Polish, Language::Spanish] {
        assert_eq!(Language::from_code(language.code()), language);
    }
    assert_eq!(Language::from_code("xx"), Language::English);
}
