use markdown_ppp::ast_transform::convenience::normalize_text;
use markdown_ppp::ast_transform::edit::is_blank_text;
use markdown_ppp::parser::blocks::container::{
    parse_container_params, parse_key_value_pair, Pair,
};
use markdown_ppp::parser::chars::{
    ascii_punctuation, chars_of, find_pattern, skip_run, skip_run_back, slice_chars,
    starts_with_at, string_of, CharClass,
};
use markdown_ppp::parser::inline::image::{attributes_parser, key_value_parser};
use markdown_ppp::parser::lines::{join_lines, lines_of, strip_line, Strip};
use markdown_ppp::typst_printer::index::str_equal;
use nom::character::complete::{alpha1, multispace0, space0};
use nom::error::Error;

const SAMPLES: [&str; 12] = [
    "",
    " ",
    "   x",
    "\t \tx y",
    " \r\n\t z",
    "\n\n",
    "abc def",
    "ABCdef123",
    "é t",
    "x  ",
    "\u{a0}x",
    "a\tb",
];

fn run(text: &str, class: CharClass) -> usize {
    let chars = chars_of(text);
    skip_run(&chars, 0, chars.len(), class)
}

#[test]
fn blank_run_agrees_with_nom_space0() {
    for sample in SAMPLES {
        let (_, taken) = space0::<&str, Error<&str>>(sample).unwrap();
        assert_eq!(run(sample, CharClass::Blank), taken.chars().count(), "{sample:?}");
    }
}

#[test]
fn multispace_run_agrees_with_nom_multispace0() {
    for sample in SAMPLES {
        let (_, taken) = multispace0::<&str, Error<&str>>(sample).unwrap();
        assert_eq!(
            run(sample, CharClass::MultiSpace),
            taken.chars().count(),
            "{sample:?}"
        );
    }
}

#[test]
fn alpha_run_agrees_with_nom_alpha1() {
    for sample in SAMPLES {
        let expected = match alpha1::<&str, Error<&str>>(sample) {
            Ok((_, taken)) => taken.chars().count(),
            Err(_) => 0,
        };
        assert_eq!(run(sample, CharClass::Alpha), expected, "{sample:?}");
    }
}

#[test]
fn character_classes() {
    let cases: [(CharClass, &str, &str); 13] = [
        (CharClass::Space, " ", "\tx"),
        (CharClass::Blank, " \t", "\nx"),
        (CharClass::MultiSpace, " \t\r\n", "x\u{a0}"),
        (CharClass::Whitespace, " \t\r\n\u{a0}\u{2003}", "x_"),
        (CharClass::Alpha, "azAZ", "0é_ "),
        (CharClass::Digit, "0189", "a٣ "),
        (CharClass::Word, "aZ09é-_中", " .{}="),
        (CharClass::TagName, "aZ09-", "_é "),
        (CharClass::Is('x'), "x", "yX"),
        (CharClass::IsNot('x'), "yX ", "x"),
        (CharClass::NeitherOf('a', 'b'), "cd ", "ab"),
        (CharClass::KindChar, "a-}é", "{ \t\r\n"),
        (CharClass::Scheme, "aZ0+-.", ":/_ "),
    ];
    for (class, inside, outside) in cases {
        for c in inside.chars() {
            assert!(class.test(c), "{class:?} {c:?}");
        }
        for c in outside.chars() {
            assert!(!class.test(c), "{class:?} {c:?}");
        }
    }
    assert!(CharClass::SolidExcept(']').test('a'));
    assert!(!CharClass::SolidExcept(']').test(']'));
    assert!(!CharClass::SolidExcept(']').test(' '));
    assert!(CharClass::IsOrBlank('-').test('-'));
    assert!(CharClass::IsOrBlank('-').test('\t'));
    assert!(!CharClass::IsOrBlank('-').test('*'));
    assert!(CharClass::UrlTail.test('.'));
    assert!(!CharClass::UrlTail.test('/'));
    for c in "!\"#$%&'()*+,-./:;<=>?@[\\]^_`{|}~".chars() {
        assert!(ascii_punctuation(c), "{c:?}");
    }
    for c in "aZ09 \té".chars() {
        assert!(!ascii_punctuation(c), "{c:?}");
    }
}

#[test]
fn runs_forward_and_backward() {
    let s = chars_of("  ab  cd  ");
    assert_eq!(skip_run(&s, 0, s.len(), CharClass::Space), 2);
    assert_eq!(skip_run(&s, 0, 1, CharClass::Space), 1);
    assert_eq!(skip_run(&s, 2, s.len(), CharClass::Space), 2);
    assert_eq!(skip_run(&s, 10, 10, CharClass::Space), 10);
    assert_eq!(skip_run_back(&s, 0, s.len(), CharClass::Space), 8);
    assert_eq!(skip_run_back(&s, 9, s.len(), CharClass::Space), 9);
    assert_eq!(skip_run_back(&s, 0, 8, CharClass::Space), 8);
    assert_eq!(skip_run_back(&s, 0, 2, CharClass::Space), 0);
}

#[test]
fn patterns() {
    let s = chars_of("a~~b~~~");
    let pat = chars_of("~~");
    assert!(starts_with_at(&s, 1, s.len(), &pat));
    assert!(!starts_with_at(&s, 0, s.len(), &pat));
    assert!(!starts_with_at(&s, 1, 2, &pat));
    assert!(!starts_with_at(&s, 6, s.len(), &pat));
    assert_eq!(find_pattern(&s, 0, s.len(), &pat), 1);
    assert_eq!(find_pattern(&s, 2, s.len(), &pat), 4);
    assert_eq!(find_pattern(&s, 6, s.len(), &pat), 7);
    assert_eq!(find_pattern(&s, 0, 2, &pat), 2);
}

#[test]
fn strings_and_characters() {
    let s = chars_of("héllo");
    assert_eq!(s, vec!['h', 'é', 'l', 'l', 'o']);
    assert_eq!(string_of(&s, 1, 4), "éll");
    assert_eq!(string_of(&s, 2, 2), "");
    assert_eq!(slice_chars(&s, 0, 2), vec!['h', 'é']);
    assert!(str_equal("héllo", "héllo"));
    assert!(!str_equal("héllo", "hello"));
    assert!(!str_equal("a", "ab"));
    assert!(str_equal("", ""));
}

#[test]
fn lines_are_cut_at_line_feeds() {
    let text = |lines: Vec<Vec<char>>| -> Vec<String> {
        lines.into_iter().map(|l| l.into_iter().collect()).collect()
    };
    assert_eq!(text(lines_of(&chars_of(""))), Vec::<String>::new());
    assert_eq!(text(lines_of(&chars_of("a"))), vec!["a"]);
    assert_eq!(text(lines_of(&chars_of("a\n"))), vec!["a"]);
    assert_eq!(text(lines_of(&chars_of("a\n\nb"))), vec!["a", "", "b"]);
    assert_eq!(text(lines_of(&chars_of("\n"))), vec![""]);
    assert_eq!(text(lines_of(&chars_of("a\r\nb\r"))), vec!["a", "b"]);
    assert_eq!(text(lines_of(&chars_of("a\rb\n"))), vec!["a\rb"]);
    let lines = lines_of(&chars_of("one\ntwo\nthree"));
    let joined: String = join_lines(&lines, 0, 3).into_iter().collect();
    assert_eq!(joined, "one\ntwo\nthree");
    let joined: String = join_lines(&lines, 1, 2).into_iter().collect();
    assert_eq!(joined, "two");
    assert_eq!(join_lines(&lines, 2, 2), Vec::<char>::new());
}

#[test]
fn stripping_the_front_of_a_line() {
    let strip = |line: &str, s: Strip| -> String {
        strip_line(&chars_of(line), s).into_iter().collect()
    };
    assert_eq!(strip("  \t x ", Strip::Blanks), "x ");
    assert_eq!(strip("  \t x ", Strip::Keep), "  \t x ");
    assert_eq!(strip("     x", Strip::Spaces(4)), " x");
    assert_eq!(strip("  x", Strip::Spaces(4)), "x");
    assert_eq!(strip(" \tx", Strip::Spaces(4)), "\tx");
    assert_eq!(strip("  > q", Strip::Quote), "q");
    assert_eq!(strip(">q", Strip::Quote), "q");
    assert_eq!(strip(">  q", Strip::Quote), " q");
    assert_eq!(strip("q", Strip::Quote), "q");
}

#[test]
fn key_value_pairs_of_a_container() {
    let s = chars_of("key = \"a b\" rest");
    match parse_key_value_pair(&s, 0) {
        Pair::Pair {
            key_to,
            value_from,
            value_to,
            end,
        } => {
            assert_eq!(string_of(&s, 0, key_to), "key");
            assert_eq!(string_of(&s, value_from, value_to), "a b");
            assert_eq!(end, 11);
        }
        _ => panic!("no pair"),
    }
    let s = chars_of("k-1=v_2}");
    match parse_key_value_pair(&s, 0) {
        Pair::Pair {
            key_to,
            value_from,
            value_to,
            end,
        } => {
            assert_eq!(string_of(&s, 0, key_to), "k-1");
            assert_eq!(string_of(&s, value_from, value_to), "v_2");
            assert_eq!(end, 7);
        }
        _ => panic!("no pair"),
    }
    assert!(matches!(parse_key_value_pair(&chars_of("=v"), 0), Pair::Absent));
    assert!(matches!(parse_key_value_pair(&chars_of("k v"), 0), Pair::Absent));
    assert!(matches!(parse_key_value_pair(&chars_of("k="), 0), Pair::Broken));
    assert!(matches!(parse_key_value_pair(&chars_of("k=\"\""), 0), Pair::Broken));
    assert!(matches!(parse_key_value_pair(&chars_of("k=\"a"), 0), Pair::Broken));
    assert!(matches!(parse_key_value_pair(&chars_of("k=%"), 0), Pair::Broken));
}

#[test]
fn params_of_a_container() {
    let s = chars_of("{ a=1\n b=\"x y\" } tail");
    let (params, end) = parse_container_params(&s, 0).unwrap();
    assert_eq!(
        params,
        vec![
            ("a".to_string(), "1".to_string()),
            ("b".to_string(), "x y".to_string())
        ]
    );
    assert_eq!(end, 16);
    assert_eq!(
        parse_container_params(&chars_of("{}"), 0),
        Some((vec![], 2))
    );
    assert_eq!(parse_container_params(&chars_of("{a=1,b=2}"), 0), None);
    assert_eq!(parse_container_params(&chars_of("{a=1"), 0), None);
    assert_eq!(parse_container_params(&chars_of("{a=}"), 0), None);
    assert_eq!(parse_container_params(&chars_of("a=1}"), 0), None);
    assert_eq!(parse_container_params(&chars_of("{a=1 b}"), 0), None);
}

#[test]
fn attributes_of_an_image() {
    let s = chars_of("  width = \"1 0\"");
    assert_eq!(key_value_parser(&s, 0), Some((2, 7, 11, 14, 15)));
    assert_eq!(key_value_parser(&chars_of("w1=2"), 0), None);
    assert_eq!(key_value_parser(&chars_of("w=\"2"), 0), None);
    let s = chars_of(" {height=2 width=3}x");
    let (attrs, end) = attributes_parser(&s, 0).unwrap();
    assert_eq!(attrs.width.as_deref(), Some("3"));
    assert_eq!(attrs.height.as_deref(), Some("2"));
    assert_eq!(end, 19);
    assert!(attributes_parser(&chars_of("x{width=1}"), 0).is_none());
    assert!(attributes_parser(&chars_of("{width=1"), 0).is_none());
}

#[test]
fn whitespace_is_normalized() {
    assert_eq!(normalize_text("  Hello   \n\t  world  "), "Hello world");
    assert_eq!(normalize_text(""), "");
    assert_eq!(normalize_text(" \t\n"), "");
    assert_eq!(normalize_text("a"), "a");
    assert_eq!(normalize_text("a\u{a0}b  c"), "a b c");
    for sample in SAMPLES {
        assert_eq!(
            normalize_text(sample),
            sample.split_whitespace().collect::<Vec<_>>().join(" ")
        );
    }
}

#[test]
fn blank_text() {
    assert!(is_blank_text(""));
    assert!(is_blank_text(" \t\r\n\u{a0}"));
    assert!(!is_blank_text(" x "));
    for sample in SAMPLES {
        assert_eq!(is_blank_text(sample), sample.trim().is_empty());
    }
}
