use watchdesk::text::decimal;
use watchdesk::text::first_word;
use watchdesk::text::lines;
use watchdesk::text::signed_decimal;
use watchdesk::text::strip_prefix;
use watchdesk::text::trim;
use watchdesk::text::trim_filler;
use watchdesk::text::trim_start;
use watchdesk::text::wide;

const SAMPLES: [&str; 10] = [
    "",
    " ",
    "plain",
    "  a b  ",
    "\t\u{85}x\u{a0}\u{3000}",
    "..a.b..",
    " . .",
    "\u{200b}kept\u{200b}",
    "\u{1f600} wide \u{e9}",
    "\u{b}\u{c}\u{1c}y\u{2028}",
];

#[test]
fn trims_as_std_does() {
    for s in SAMPLES {
        assert_eq!(trim(s), s.trim());
        assert_eq!(trim_start(s), s.trim_start());
        assert_eq!(
            trim_filler(s, true),
            s.trim_matches(|c: char| c == '.' || c.is_whitespace())
        );
        assert_eq!(first_word(s).as_deref(), s.split_whitespace().next());
    }
}

#[test]
fn strips_prefixes_as_std_does() {
    let prefixes = ["", "a", "ab", "abc", "abcd", "\u{e9}"];
    for s in ["", "a", "abc", "xabc", "\u{e9}t\u{e9}"] {
        for p in prefixes {
            assert_eq!(strip_prefix(s, p).as_deref(), s.strip_prefix(p));
        }
    }
}

#[test]
fn splits_lines_as_std_does() {
    let samples = [
        "",
        "\n",
        "\r\n",
        "\r",
        "a",
        "a\n",
        "a\r\n",
        "a\r",
        "a\n\nb",
        "a\r\r\nb\r\n\r\nc",
        "a\n\r",
        "\u{e9}\nb\u{2028}c\n",
    ];
    for s in samples {
        let expected: Vec<&str> = s.lines().collect();
        assert_eq!(lines(s), expected);
    }
}

#[test]
fn writes_numbers_in_decimal() {
    for n in [0u64, 7, 9, 10, 99, 100, 1883, 4_294_967_295, u64::MAX] {
        assert_eq!(decimal(n), n.to_string());
    }
    for n in [0i64, -1, 1, -10, 133_000_000_000_000_000, i64::MIN, i64::MAX] {
        assert_eq!(signed_decimal(n), n.to_string());
    }
}

#[test]
fn writes_utf16_with_a_zero_behind_it() {
    for s in ["", "install", "\u{e9}", "\u{ffff}\u{10000}", "\u{10ffff}x"] {
        let mut expected: Vec<u16> = s.encode_utf16().collect();
        expected.push(0);
        assert_eq!(wide(s), expected);
    }
}
