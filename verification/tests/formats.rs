use synacore::text::{chars_of, digit_of, find_from, read_u16, slice_of, split_fields};
use synacore::{decode_image, parse_symbol_line, parse_symbols, ImageError, SymbolError};

fn chars(s: &str) -> Vec<char> {
    s.chars().collect()
}

fn fields(s: &str, sep: char) -> Vec<String> {
    split_fields(&chars(s), 0, sep)
        .into_iter()
        .map(|f| f.into_iter().collect())
        .collect()
}

#[test]
fn image_words_are_little_endian() {
    assert_eq!(decode_image(&[0x34, 0x12]), Ok(vec![0x1234]));
    assert_eq!(
        decode_image(&[9, 0, 0, 128, 1, 128, 4, 0, 19, 0, 0, 128]),
        Ok(vec![9, 32768, 32769, 4, 19, 32768])
    );
    assert_eq!(decode_image(&[0xff, 0xff, 0x00, 0x01]), Ok(vec![65535, 256]));
}

#[test]
fn empty_image_has_no_words() {
    assert_eq!(decode_image(&[]), Ok(vec![]));
}

#[test]
fn image_with_a_trailing_byte_is_rejected() {
    assert_eq!(decode_image(&[1]), Err(ImageError::TrailingByte));
    assert_eq!(decode_image(&[1, 0, 2]), Err(ImageError::TrailingByte));
}

#[test]
fn symbol_line_holds_a_hex_address_and_a_label() {
    assert_eq!(parse_symbol_line("06bb,print"), Ok((0x06bb, String::from("print"))));
    assert_eq!(parse_symbol_line("FFFF,"), Ok((0xffff, String::new())));
    assert_eq!(parse_symbol_line("0,a b"), Ok((0, String::from("a b"))));
    assert_eq!(parse_symbol_line("1f,label,rest"), Ok((0x1f, String::from("label"))));
    assert_eq!(parse_symbol_line("10,\u{e9}t\u{e9}"), Ok((16, String::from("\u{e9}t\u{e9}"))));
}

#[test]
fn symbol_line_errors() {
    assert_eq!(parse_symbol_line(""), Err(SymbolError::BadAddress));
    assert_eq!(parse_symbol_line(",name"), Err(SymbolError::BadAddress));
    assert_eq!(parse_symbol_line("xyz,name"), Err(SymbolError::BadAddress));
    assert_eq!(parse_symbol_line("10000,name"), Err(SymbolError::BadAddress));
    assert_eq!(parse_symbol_line(" 10,name"), Err(SymbolError::BadAddress));
    assert_eq!(parse_symbol_line("10"), Err(SymbolError::MissingLabel));
}

#[test]
fn symbol_table_keeps_the_last_label_of_an_address() {
    let lines = vec![
        String::from("0010,first"),
        String::from("0020,other"),
        String::from("10,second"),
    ];
    let table = parse_symbols(&lines).unwrap();
    assert_eq!(table.len(), 2);
    assert_eq!(table[&0x10], "second");
    assert_eq!(table[&0x20], "other");
    assert!(parse_symbols(&Vec::new()).unwrap().is_empty());
}

#[test]
fn symbol_table_stops_at_the_first_bad_line() {
    let lines = vec![
        String::from("0010,first"),
        String::from("nolabel"),
        String::from("zz,bad"),
    ];
    assert_eq!(parse_symbols(&lines).unwrap_err(), (1, SymbolError::BadAddress));
    let lines = vec![String::from("0010,first"), String::from("20")];
    assert_eq!(parse_symbols(&lines).unwrap_err(), (1, SymbolError::MissingLabel));
}

#[test]
fn numbers_are_read_in_their_base() {
    assert_eq!(read_u16(&chars("0"), 10), Some(0));
    assert_eq!(read_u16(&chars("65535"), 10), Some(65535));
    assert_eq!(read_u16(&chars("65536"), 10), None);
    assert_eq!(read_u16(&chars("ffff"), 16), Some(65535));
    assert_eq!(read_u16(&chars("FfFf"), 16), Some(65535));
    assert_eq!(read_u16(&chars("10000"), 16), None);
    assert_eq!(read_u16(&chars("+12"), 10), Some(12));
    assert_eq!(read_u16(&chars("0000000000000000000000000012"), 10), Some(12));
    assert_eq!(read_u16(&chars("99999999999999999999999999"), 10), None);
    assert_eq!(read_u16(&chars("z"), 36), Some(35));
    assert_eq!(read_u16(&chars("101"), 2), Some(5));
}

#[test]
fn malformed_numbers_are_rejected() {
    assert_eq!(read_u16(&chars(""), 10), None);
    assert_eq!(read_u16(&chars("+"), 10), None);
    assert_eq!(read_u16(&chars("++1"), 10), None);
    assert_eq!(read_u16(&chars("-1"), 10), None);
    assert_eq!(read_u16(&chars("1 "), 10), None);
    assert_eq!(read_u16(&chars(" 1"), 10), None);
    assert_eq!(read_u16(&chars("1_000"), 10), None);
    assert_eq!(read_u16(&chars("a"), 10), None);
    assert_eq!(read_u16(&chars("g"), 16), None);
    assert_eq!(read_u16(&chars("2"), 2), None);
    assert_eq!(read_u16(&chars("\u{661}"), 10), None);
}

#[test]
fn numbers_agree_with_the_standard_library() {
    let samples = [
        "", "+", "-", "0", "+0", "-0", "7", "08", "65535", "65536", "ffff", "FFFF", "fFfF",
        "10000", "12ab", "+ff", "0x10", "1e3", " 1", "1 ", "٣", "zz", "00000000000000000001",
    ];
    for text in samples {
        for radix in [2u32, 8, 10, 16, 36] {
            assert_eq!(
                read_u16(&chars(text), radix),
                u16::from_str_radix(text, radix).ok(),
                "{:?} in base {}",
                text,
                radix
            );
        }
    }
}

#[test]
fn digits_have_their_value() {
    assert_eq!(digit_of('0', 10), Some(0));
    assert_eq!(digit_of('9', 10), Some(9));
    assert_eq!(digit_of('a', 16), Some(10));
    assert_eq!(digit_of('F', 16), Some(15));
    assert_eq!(digit_of('g', 16), None);
    assert_eq!(digit_of('8', 8), None);
    assert_eq!(digit_of('Z', 36), Some(35));
    assert_eq!(digit_of('/', 36), None);
    assert_eq!(digit_of(':', 36), None);
    assert_eq!(digit_of('@', 36), None);
    assert_eq!(digit_of('[', 36), None);
    assert_eq!(digit_of('`', 36), None);
    assert_eq!(digit_of('{', 36), None);
}

#[test]
fn lines_split_on_every_separator() {
    assert_eq!(fields("wmem 10 20", ' '), vec!["wmem", "10", "20"]);
    assert_eq!(fields("", ' '), vec![""]);
    assert_eq!(fields(" ", ' '), vec!["", ""]);
    assert_eq!(fields("a  b", ' '), vec!["a", "", "b"]);
    assert_eq!(fields(" a ", ' '), vec!["", "a", ""]);
    assert_eq!(fields("a,b,,", ','), vec!["a", "b", "", ""]);
    assert_eq!(fields("no separator", ','), vec!["no separator"]);
}

#[test]
fn split_can_start_inside_the_line() {
    let line = chars(".wreg 1 2");
    let parts: Vec<String> = split_fields(&line, 1, ' ')
        .into_iter()
        .map(|f| f.into_iter().collect())
        .collect();
    assert_eq!(parts, vec!["wreg", "1", "2"]);
    let parts = split_fields(&line, line.len(), ' ');
    assert_eq!(parts, vec![Vec::<char>::new()]);
}

#[test]
fn find_from_locates_the_next_separator() {
    let line = chars("ab,cd,ef");
    assert_eq!(find_from(&line, 0, ','), 2);
    assert_eq!(find_from(&line, 2, ','), 2);
    assert_eq!(find_from(&line, 3, ','), 5);
    assert_eq!(find_from(&line, 6, ','), 8);
    assert_eq!(find_from(&line, 8, ','), 8);
    assert_eq!(slice_of(&line, 3, 5), chars("cd"));
    assert_eq!(slice_of(&line, 3, 3), chars(""));
}

#[test]
fn chars_of_keeps_every_character() {
    assert_eq!(chars_of("a\u{e9}\u{1f600}\n"), vec!['a', '\u{e9}', '\u{1f600}', '\n']);
    assert_eq!(chars_of(""), Vec::<char>::new());
}

#[test]
fn fields_rejoin_to_the_line() {
    for line in ["", " ", "a b", " a  b ", "wmem 10 20", "no-separator", "   "] {
        let parts = fields(line, ' ');
        assert!(parts.iter().all(|f| !f.contains(' ')));
        assert_eq!(parts.join(" "), line);
    }
}
