use forum_scraper::envelope::{
    char_is_digit, extract_payload, locate_payload, parse_envelope, skip_digits_in,
};
use forum_scraper::text::chars_of;
use regex::Regex;

#[test]
fn payload_of_the_padded_envelope() {
    assert_eq!(extract_payload("  [quote=@42]\nHello world\n[/quote]  "), "Hello world");
    assert_eq!(
        parse_envelope("  [quote=@42]\nHello world\n[/quote]  "),
        Some("Hello world".to_string())
    );
}

#[test]
fn payload_of_a_tight_envelope() {
    assert_eq!(extract_payload("[quote=@7]text[/quote]"), "text");
    assert_eq!(extract_payload("[quote=@0123456789]a b[/quote]"), "a b");
}

#[test]
fn inner_content_is_kept_verbatim() {
    assert_eq!(
        extract_payload("[quote=@1] first line\n\n  second\tline \n[/quote]"),
        "first line\n\n  second\tline"
    );
    assert_eq!(extract_payload("[quote=@1][b]bold[/b] [i]it[/i][/quote]"), "[b]bold[/b] [i]it[/i]");
}

#[test]
fn empty_and_blank_bodies_give_an_empty_payload() {
    assert_eq!(parse_envelope("[quote=@1][/quote]"), Some(String::new()));
    assert_eq!(parse_envelope("[quote=@1] \n\t [/quote]"), Some(String::new()));
}

#[test]
fn text_that_is_no_envelope_gives_the_empty_string() {
    let cases = [
        "",
        "   ",
        "Hello world",
        "[quote=@42]Hello world",
        "Hello world[/quote]",
        "[quote=@]Hello[/quote]",
        "[quote=@4x2]Hello[/quote]",
        "[quote=42]Hello[/quote]",
        "[QUOTE=@42]Hello[/QUOTE]",
        "[quote=@42]Hello[/Quote]",
        "x [quote=@42]Hello[/quote]",
        "[quote=@42]Hello[/quote] x",
        "[quote=@42 ]Hello[/quote]",
        "[quote=@42",
        "[quote=@42]",
        "[quote=@42][/quote",
        "[/quote]",
        "[quote=@1][/quot]",
    ];
    for case in cases {
        assert_eq!(extract_payload(case), "", "input {:?}", case);
        assert_eq!(parse_envelope(case), None, "input {:?}", case);
    }
}

#[test]
fn the_markers_may_not_share_characters() {
    assert_eq!(parse_envelope("[quote=@1]/quote]"), None);
    assert_eq!(parse_envelope("[quote=@12][/quote]"), Some(String::new()));
}

#[test]
fn the_last_closing_marker_ends_the_body() {
    assert_eq!(
        extract_payload("[quote=@1]a[/quote] b [/quote]"),
        "a[/quote] b"
    );
    assert_eq!(
        extract_payload("[quote=@1][quote=@2]inner[/quote][/quote]"),
        "[quote=@2]inner[/quote]"
    );
}

#[test]
fn unicode_whitespace_counts_as_whitespace() {
    assert_eq!(
        extract_payload("\u{a0}\u{2003}[quote=@9]\u{3000}body\u{2028}[/quote]\u{85}"),
        "body"
    );
    assert_eq!(extract_payload("\u{200b}[quote=@9]body[/quote]"), "");
    assert_eq!(extract_payload("[quote=@9]\u{200b}body[/quote]"), "\u{200b}body");
}

#[test]
fn only_ascii_digits_make_an_id() {
    assert_eq!(parse_envelope("[quote=@\u{661}]x[/quote]"), None);
    assert_eq!(parse_envelope("[quote=@\u{ff11}]x[/quote]"), None);
}

#[test]
fn multibyte_payloads_come_out_whole() {
    assert_eq!(extract_payload(" [quote=@3] héllo wörld ✓ [/quote] "), "héllo wörld ✓");
}

#[test]
fn parsing_twice_gives_the_same_payload() {
    let input = "  [quote=@42]\nHello world\n[/quote]  ";
    assert_eq!(extract_payload(input), extract_payload(input));
}

#[test]
fn a_payload_wrapped_again_comes_out_unchanged() {
    let inputs = [
        "  [quote=@42]\nHello world\n[/quote]  ",
        "[quote=@1]a[/quote] b [/quote]",
        "no envelope",
        "[quote=@1] [/quote]",
    ];
    for input in inputs {
        let payload = extract_payload(input);
        let again = format!(" \n[quote=@77]\t{}\n [/quote]\n", payload);
        assert_eq!(extract_payload(&again), payload);
        assert_eq!(payload.trim(), payload);
    }
}

fn corpus() -> Vec<String> {
    let leads = ["", " ", "\n\t", "\u{a0}", "x"];
    let opens = ["[quote=@42]", "[quote=@]", "[quote=@0]", "[Quote=@1]", "[quote=@1 ]", ""];
    let bodies = [
        "",
        " ",
        "Hello world",
        "\nHello world\n",
        "  a  b  ",
        "a[/quote]b",
        "a [/quote] b ",
        "[quote=@5]n[/quote]",
        "tail\u{2003}",
        "\u{200b}",
    ];
    let closes = ["[/quote]", "[/quote", "[/QUOTE]", ""];
    let trails = ["", "  ", "\n", "y", "\u{3000}"];
    let mut all = Vec::new();
    for lead in leads {
        for open in opens {
            for body in bodies {
                for close in closes {
                    for trail in trails {
                        all.push(format!("{}{}{}{}{}", lead, open, body, close, trail));
                    }
                }
            }
        }
    }
    all
}

#[test]
fn agrees_with_the_pattern_that_takes_the_shortest_body() {
    let pattern = Regex::new(r"(?s)^\s*\[quote=@[0-9]+\]\s*(.*?)\s*\[/quote\]\s*$").unwrap();
    for input in corpus() {
        let expected = pattern
            .captures(&input)
            .map(|found| found.get(1).unwrap().as_str().to_string());
        assert_eq!(parse_envelope(&input), expected, "input {:?}", input);
    }
}

#[test]
fn agrees_with_the_greedy_pattern_up_to_whitespace_at_the_end() {
    let pattern = Regex::new(r"(?s)^\s*\[quote=@[0-9]+\]\s*(.*)\s*\[/quote\]\s*$").unwrap();
    for input in corpus() {
        let expected = pattern
            .captures(&input)
            .map(|found| found.get(1).unwrap().as_str().trim_end().to_string());
        assert_eq!(parse_envelope(&input), expected, "input {:?}", input);
    }
}

#[test]
fn the_payload_of_a_payload_is_the_same_only_where_it_is_empty() {
    for input in corpus() {
        let once = extract_payload(&input);
        let twice = extract_payload(&once);
        assert_eq!(twice == once, once.is_empty(), "input {:?}", input);
    }
    let nested = "[quote=@1][quote=@2]a[/quote][/quote]";
    assert_eq!(extract_payload(nested), "[quote=@2]a[/quote]");
    assert_eq!(extract_payload(&extract_payload(nested)), "a");
}

#[test]
fn a_payload_is_at_least_eighteen_characters_shorter_than_its_envelope() {
    for input in corpus() {
        if let Some(payload) = parse_envelope(&input) {
            assert!(payload.chars().count() + 18 <= input.chars().count(), "input {:?}", input);
        }
    }
    assert_eq!(parse_envelope("[quote=@1][/quote]"), Some(String::new()));
    assert_eq!("[quote=@1][/quote]".chars().count(), 18);
}

#[test]
fn digits_are_the_ten_ascii_digits() {
    for c in ['0', '1', '5', '9'] {
        assert!(char_is_digit(c));
    }
    for c in ['/', ':', 'a', ' ', '\u{661}', '\u{ff11}'] {
        assert!(!char_is_digit(c));
    }
}

#[test]
fn skipping_digits() {
    let chars = chars_of("12ab345");
    assert_eq!(skip_digits_in(&chars, 0, chars.len()), 2);
    assert_eq!(skip_digits_in(&chars, 2, chars.len()), 2);
    assert_eq!(skip_digits_in(&chars, 4, chars.len()), 7);
    assert_eq!(skip_digits_in(&chars, 4, 6), 6);
    assert_eq!(skip_digits_in(&chars, 5, 4), 5);
    assert_eq!(skip_digits_in(&chars, 0, 8), 0);
}

#[test]
fn the_payload_is_found_where_it_stands() {
    let chars = chars_of("  [quote=@42]\nHello world\n[/quote]  ");
    assert_eq!(locate_payload(&chars), Some((14, 25)));
    let chars = chars_of("[quote=@1] \n [/quote]");
    assert_eq!(locate_payload(&chars), Some((10, 10)));
    let chars = chars_of("[quote=@1][/quote]");
    assert_eq!(locate_payload(&chars), Some((10, 10)));
    let chars = chars_of("[quote=@1]x");
    assert_eq!(locate_payload(&chars), None);
}
