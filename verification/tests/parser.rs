use outer_colors::hex::{hex_digit_value, parse_hex_bytes};
use outer_colors::response::parse_triple;
use outer_colors::utf8::is_utf8;
use outer_colors::{parse_hex_component, parse_osc_color_response};

#[test]
fn test_parse_osc_color_response_16bit() {
    // Typical response: ESC ] 11 ; rgb:3535/3737/3131 ESC \
    let response = b"\x1b]11;rgb:3535/3737/3131\x1b\\";
    let result = parse_osc_color_response(response);
    assert_eq!(result, Some((0x35, 0x37, 0x31))); // (53, 55, 49)
}

#[test]
fn test_parse_osc_color_response_8bit() {
    let response = b"\x1b]11;rgb:35/37/31\x1b\\";
    let result = parse_osc_color_response(response);
    assert_eq!(result, Some((0x35, 0x37, 0x31)));
}

#[test]
fn test_parse_osc_color_response_black() {
    let response = b"\x1b]11;rgb:0000/0000/0000\x1b\\";
    let result = parse_osc_color_response(response);
    assert_eq!(result, Some((0, 0, 0)));
}

#[test]
fn test_parse_osc_color_response_white() {
    let response = b"\x1b]10;rgb:ffff/ffff/ffff\x1b\\";
    let result = parse_osc_color_response(response);
    assert_eq!(result, Some((255, 255, 255)));
}

#[test]
fn test_parse_hex_component() {
    assert_eq!(parse_hex_component("ff"), Some(255));
    assert_eq!(parse_hex_component("00"), Some(0));
    assert_eq!(parse_hex_component("ffff"), Some(255));
    assert_eq!(parse_hex_component("0000"), Some(0));
    assert_eq!(parse_hex_component("3535"), Some(0x35)); // 53
    assert_eq!(parse_hex_component("8080"), Some(0x80)); // 128
}

#[test]
fn sixteen_bit_reply_keeps_high_bytes() {
    let response = b"\x1b]10;rgb:12ab/cd34/ef56\x1b\\";
    assert_eq!(parse_osc_color_response(response), Some((0x12, 0xcd, 0xef)));
    let response = b"\x1b]11;rgb:00ff/ff00/80ff\x1b\\";
    assert_eq!(parse_osc_color_response(response), Some((0x00, 0xff, 0x80)));
}

#[test]
fn eight_bit_reply_keeps_bytes() {
    let response = b"\x1b]10;rgb:12/cd/ef\x1b\\";
    assert_eq!(parse_osc_color_response(response), Some((0x12, 0xcd, 0xef)));
    let response = b"\x1b]10;rgb:00/7f/ff\x1b\\";
    assert_eq!(parse_osc_color_response(response), Some((0, 127, 255)));
}

#[test]
fn reply_ended_by_bel_reports_nothing() {
    // The payload runs to the end of the buffer when no escape byte follows,
    // so the BEL becomes part of the last component.
    let response = b"\x1b]11;rgb:3535/3737/3131\x07";
    assert_eq!(parse_osc_color_response(response), None);
    let response = b"\x1b]11;rgb:3535/3737/3131";
    assert_eq!(parse_osc_color_response(response), Some((0x35, 0x37, 0x31)));
}

#[test]
fn reply_without_marker_is_absent() {
    assert_eq!(parse_osc_color_response(b""), None);
    assert_eq!(parse_osc_color_response(b"\x1b]11;3535/3737/3131\x1b\\"), None);
    assert_eq!(parse_osc_color_response(b"\x1b]11;rgb3535/3737/3131\x1b\\"), None);
    assert_eq!(parse_osc_color_response(b"\x1b]11;RGB:3535/3737/3131\x1b\\"), None);
    assert_eq!(parse_osc_color_response(b"rgb"), None);
    assert_eq!(parse_osc_color_response(b"rg:b"), None);
}

#[test]
fn reply_with_wrong_number_of_parts_is_absent() {
    assert_eq!(parse_osc_color_response(b"\x1b]11;rgb:\x1b\\"), None);
    assert_eq!(parse_osc_color_response(b"\x1b]11;rgb:3535\x1b\\"), None);
    assert_eq!(parse_osc_color_response(b"\x1b]11;rgb:3535/3737\x1b\\"), None);
    assert_eq!(parse_osc_color_response(b"\x1b]11;rgb:3535/3737/3131/ffff\x1b\\"), None);
    assert_eq!(parse_osc_color_response(b"\x1b]11;rgb:3535/3737/3131/\x1b\\"), None);
    assert_eq!(parse_osc_color_response(b"\x1b]11;rgb://\x1b\\"), None);
}

#[test]
fn reply_with_bad_component_is_absent() {
    assert_eq!(parse_osc_color_response(b"\x1b]11;rgb:35g5/3737/3131\x1b\\"), None);
    assert_eq!(parse_osc_color_response(b"\x1b]11;rgb:3535/37 37/3131\x1b\\"), None);
    assert_eq!(parse_osc_color_response(b"\x1b]11;rgb:3535/3737/\x1b\\"), None);
    assert_eq!(parse_osc_color_response(b"\x1b]11;rgb:/3737/3131\x1b\\"), None);
    assert_eq!(parse_osc_color_response(b"\x1b]11;rgb:3535/-3737/3131\x1b\\"), None);
    assert_eq!(parse_osc_color_response(b"\x1b]11;rgb:3535/3737/10000\x1b\\"), None);
    assert_eq!(parse_osc_color_response(b"\x1b]11;rgb:0x35/0x37/0x31\x1b\\"), None);
}

#[test]
fn reply_that_is_not_utf8_is_absent() {
    // The same reply is read when the stray byte is left out.
    assert_eq!(parse_osc_color_response(b"\xff\x1b]11;rgb:35/37/31\x1b\\"), None);
    assert_eq!(parse_osc_color_response(b"\x1b]11;rgb:35/37/31\x1b\\\xc3"), None);
    assert_eq!(parse_osc_color_response(b"\x1b]11;rgb:35/37/31\x1b\\\xed\xa0\x80"), None);
    assert_eq!(parse_osc_color_response(b"\x1b]11;rgb:35/37/31\x1b\\"), Some((0x35, 0x37, 0x31)));
    // Characters of several bytes around the color do no harm.
    let response = "\u{e9}\u{4e2d}\u{1f600}rgb:35/37/31\u{1b}\u{e9}";
    assert_eq!(parse_osc_color_response(response.as_bytes()), Some((0x35, 0x37, 0x31)));
}

#[test]
fn first_marker_and_first_escape_delimit_the_color() {
    let response = b"rgb:01/02/03\x1brgb:04/05/06\x1b\\";
    assert_eq!(parse_osc_color_response(response), Some((1, 2, 3)));
    let response = b"rgb:zz\x1brgb:04/05/06\x1b\\";
    assert_eq!(parse_osc_color_response(response), None);
    let response = b"rgrgb:0a/0b/0c\x1b\\";
    assert_eq!(parse_osc_color_response(response), Some((10, 11, 12)));
    let response = b"rgb:0a/0b\x1b/0c";
    assert_eq!(parse_osc_color_response(response), None);
}

#[test]
fn components_may_differ_in_width() {
    let response = b"\x1b]11;rgb:ff/1234/a\x1b\\";
    assert_eq!(parse_osc_color_response(response), Some((255, 0x12, 10)));
    let response = b"\x1b]11;rgb:FFFF/ABCD/Ef\x1b\\";
    assert_eq!(parse_osc_color_response(response), Some((255, 0xab, 0xef)));
}

#[test]
fn triple_needs_exactly_two_slashes() {
    assert_eq!(parse_triple(b"1/2/3"), Some((1, 2, 3)));
    assert_eq!(parse_triple(b"1/2"), None);
    assert_eq!(parse_triple(b"1/2/3/4"), None);
    assert_eq!(parse_triple(b""), None);
    assert_eq!(parse_triple(b"//"), None);
    assert_eq!(parse_triple(b"1//3"), None);
}

#[test]
fn hex_component_widths() {
    assert_eq!(parse_hex_component("0"), Some(0));
    assert_eq!(parse_hex_component("f"), Some(15));
    assert_eq!(parse_hex_component("7f"), Some(127));
    assert_eq!(parse_hex_component("1ff"), Some(1));
    assert_eq!(parse_hex_component("fff"), Some(0x0f));
    assert_eq!(parse_hex_component("abcd"), Some(0xab));
    assert_eq!(parse_hex_component("ABCD"), Some(0xab));
    assert_eq!(parse_hex_component("0ffff"), Some(255));
    assert_eq!(parse_hex_component("000000ff"), Some(0));
    assert_eq!(parse_hex_component("0000ff00"), Some(255));
}

#[test]
fn hex_component_rejects_what_is_no_number() {
    assert_eq!(parse_hex_component(""), None);
    assert_eq!(parse_hex_component("g"), None);
    assert_eq!(parse_hex_component("fg"), None);
    assert_eq!(parse_hex_component(" ff"), None);
    assert_eq!(parse_hex_component("ff "), None);
    assert_eq!(parse_hex_component("f_f"), None);
    assert_eq!(parse_hex_component("0xff"), None);
    assert_eq!(parse_hex_component("-1"), None);
    assert_eq!(parse_hex_component("-"), None);
    assert_eq!(parse_hex_component("10000"), None);
    assert_eq!(parse_hex_component("fffff"), None);
    assert_eq!(parse_hex_component("\u{e9}"), None);
    assert_eq!(parse_hex_component("\u{ff11}"), None);
}

#[test]
fn hex_component_takes_no_sign() {
    assert_eq!(parse_hex_component("+"), None);
    assert_eq!(parse_hex_component("+f"), None);
    assert_eq!(parse_hex_component("+ff"), None);
    assert_eq!(parse_hex_component("+ffff"), None);
    assert_eq!(parse_hex_component("-f"), None);
    assert_eq!(parse_hex_component("1+1"), None);
    assert_eq!(parse_osc_color_response(b"\x1b]11;rgb:+35/+37/+31\x1b\\"), None);
}

#[test]
fn hex_component_agrees_with_the_standard_parser() {
    // Strings without a sign: there the two agree on every input.
    let alphabet = ["", "0", "1", "9", "a", "f", "A", "F", "g", "G", "-", " ", "/", "x"];
    let mut count = 0;
    for a in alphabet {
        for b in alphabet {
            for c in alphabet {
                for d in alphabet {
                    for e in alphabet {
                        let s = format!("{a}{b}{c}{d}{e}");
                        let expected = match u16::from_str_radix(&s, 16) {
                            Ok(value) if s.len() <= 2 => Some(value as u8),
                            Ok(value) => Some((value >> 8) as u8),
                            Err(_) => None,
                        };
                        assert_eq!(parse_hex_component(&s), expected, "component {s:?}");
                        assert_eq!(parse_hex_bytes(s.as_bytes()), expected, "component {s:?}");
                        count += 1;
                    }
                }
            }
        }
    }
    assert_eq!(count, 14 * 14 * 14 * 14 * 14);
}

#[test]
fn hex_digits() {
    assert_eq!(hex_digit_value(b'0'), Some(0));
    assert_eq!(hex_digit_value(b'9'), Some(9));
    assert_eq!(hex_digit_value(b'a'), Some(10));
    assert_eq!(hex_digit_value(b'f'), Some(15));
    assert_eq!(hex_digit_value(b'A'), Some(10));
    assert_eq!(hex_digit_value(b'F'), Some(15));
    assert_eq!(hex_digit_value(b'g'), None);
    assert_eq!(hex_digit_value(b'G'), None);
    assert_eq!(hex_digit_value(b'/'), None);
    assert_eq!(hex_digit_value(b':'), None);
    assert_eq!(hex_digit_value(b'@'), None);
    assert_eq!(hex_digit_value(b'`'), None);
    assert_eq!(hex_digit_value(0x80), None);
}

#[test]
fn utf8_validation_agrees_with_the_standard_library() {
    let thirds: [u8; 10] = [0x00, 0x7f, 0x80, 0x8f, 0x90, 0x9f, 0xa0, 0xbf, 0xc0, 0xff];
    let fourths: [u8; 4] = [0x7f, 0x80, 0xbf, 0xc0];
    assert!(is_utf8(b""));
    for a in 0..=255u8 {
        assert_eq!(is_utf8(&[a]), std::str::from_utf8(&[a]).is_ok(), "{a:02x}");
        for b in 0..=255u8 {
            let two = [a, b];
            assert_eq!(is_utf8(&two), std::str::from_utf8(&two).is_ok(), "{two:02x?}");
            for c in thirds {
                let three = [a, b, c];
                assert_eq!(is_utf8(&three), std::str::from_utf8(&three).is_ok(), "{three:02x?}");
                for d in fourths {
                    let four = [a, b, c, d];
                    assert_eq!(is_utf8(&four), std::str::from_utf8(&four).is_ok(), "{four:02x?}");
                }
            }
        }
    }
}

#[test]
fn utf8_validation_of_text() {
    assert!(is_utf8("plain".as_bytes()));
    assert!(is_utf8("\u{e9}\u{4e2d}\u{1f600}\u{10ffff}\u{d7ff}\u{e000}\u{80}\u{800}".as_bytes()));
    // A lone continuation byte, a truncated character, an overlong form, a
    // surrogate, a value beyond the last scalar value.
    assert!(!is_utf8(b"\x80"));
    assert!(!is_utf8(b"abc\xe4\xb8"));
    assert!(!is_utf8(b"\xc0\xaf"));
    assert!(!is_utf8(b"\xe0\x80\xaf"));
    assert!(!is_utf8(b"\xf0\x80\x80\xaf"));
    assert!(!is_utf8(b"\xed\xa0\x80"));
    assert!(!is_utf8(b"\xf4\x90\x80\x80"));
    assert!(!is_utf8(b"\xf8\x88\x80\x80\x80"));
}

/// The color of a reply, found with the string functions of the standard
/// library.
fn color_by_string_functions(response: &[u8]) -> Option<(u8, u8, u8)> {
    let text = std::str::from_utf8(response).ok()?;
    let start = text.find("rgb:")?;
    let after = &text[start + 4..];
    let end = after.find('\x1b').unwrap_or(after.len());
    let parts: Vec<&str> = after[..end].split('/').collect();
    if parts.len() != 3 {
        return None;
    }
    let component = |part: &str| -> Option<u8> {
        if part.contains('+') {
            return None;
        }
        let value = u16::from_str_radix(part, 16).ok()?;
        Some(if part.len() <= 2 { value as u8 } else { (value >> 8) as u8 })
    };
    Some((component(parts[0])?, component(parts[1])?, component(parts[2])?))
}

#[test]
fn parser_agrees_with_string_functions() {
    let fragments: [&[u8]; 16] = [
        b"",
        b"rgb:",
        b"rgb",
        b":",
        b"\x1b",
        b"\\",
        b"\x07",
        b"/",
        b"0",
        b"ff",
        b"1234",
        b"fffff",
        b"g",
        b"+",
        b"\xc3\xa9",
        b"\xff",
    ];
    let mut found = 0;
    let mut buffer: Vec<u8> = Vec::new();
    for a in fragments {
        for b in fragments {
            for c in fragments {
                for d in fragments {
                    for e in fragments {
                        buffer.clear();
                        buffer.extend_from_slice(b"rgb:7f/");
                        for fragment in [a, b, c, d, e] {
                            buffer.extend_from_slice(fragment);
                        }
                        let expected = color_by_string_functions(&buffer);
                        assert_eq!(parse_osc_color_response(&buffer), expected, "{buffer:02x?}");
                        if expected.is_some() {
                            found += 1;
                        }
                        let expected = color_by_string_functions(&buffer[4..]);
                        assert_eq!(
                            parse_osc_color_response(&buffer[4..]),
                            expected,
                            "{:02x?}",
                            &buffer[4..]
                        );
                    }
                }
            }
        }
    }
    assert!(found > 100);
}
