use pincer::text::{parse_u64, trim_text};
use pincer::{parse_duration_string, parse_method_params, HttpMethod, ParamDecl, ParamKind, TypeDesc};

#[test]
fn trim_agrees_with_std_on_every_character() {
    for code in 0..=0x10_FFFFu32 {
        let Some(c) = char::from_u32(code) else {
            continue;
        };
        let mut text = String::new();
        text.push(c);
        text.push('x');
        text.push(c);
        assert_eq!(trim_text(&text), text.trim(), "U+{code:04X}");
    }
}

#[test]
fn trim_keeps_what_stands_between() {
    assert_eq!(trim_text(""), "");
    assert_eq!(trim_text("   "), "");
    assert_eq!(trim_text(" \t\r\n"), "");
    assert_eq!(trim_text("a"), "a");
    assert_eq!(trim_text("  a b  "), "a b");
    assert_eq!(trim_text("a  "), "a");
    assert_eq!(trim_text("\u{3000}a\u{a0}b\u{2028}"), "a\u{a0}b");
    // a zero-width space is no white space
    assert_eq!(trim_text("\u{200b}a\u{200b}"), "\u{200b}a\u{200b}");
    assert_eq!(
        parse_duration_string("\u{2003}30s\u{85}"),
        Some(std::time::Duration::from_secs(30))
    );
    assert_eq!(parse_duration_string("\u{200b}30s"), None);
    assert_eq!(parse_duration_string("30 s"), None);
}

#[test]
fn parse_u64_agrees_with_std() {
    let samples = [
        "",
        "+",
        "-",
        "0",
        "+0",
        "-0",
        "00",
        "007",
        "+007",
        "++7",
        "+-7",
        "7+",
        " 7",
        "7 ",
        "1_000",
        "0x10",
        "1e3",
        "1.5",
        "12a",
        "a12",
        "\u{661}\u{662}",
        "\u{ff11}",
        "9",
        "10",
        "4294967295",
        "4294967296",
        "18446744073709551614",
        "18446744073709551615",
        "18446744073709551616",
        "18446744073709551620",
        "28446744073709551615",
        "99999999999999999999",
        "184467440737095516150",
        "000000000000000000000000000018446744073709551615",
        "000000000000000000000000000018446744073709551616",
        "+18446744073709551615",
        "18446744073709551615x",
        "99999999999999999999x",
    ];
    for text in samples {
        assert_eq!(parse_u64(text), text.parse::<u64>().ok(), "{text:?}");
    }
    for n in 0..2_000u64 {
        let text = n.to_string();
        assert_eq!(parse_u64(&text), Some(n));
    }
    for shift in 0..64u32 {
        let n = 1u64 << shift;
        assert_eq!(parse_u64(&n.to_string()), Some(n));
        assert_eq!(parse_u64(&(n - 1).to_string()), Some(n - 1));
    }
}

#[test]
fn ascii_letters_change_case_as_in_ascii() {
    assert_eq!(HttpMethod::parse("get"), Some(HttpMethod::Get));
    assert_eq!(HttpMethod::parse("oPtIoNs"), Some(HttpMethod::Options));
    for c in 0u8..128 {
        let c = c as char;
        let text = format!("a{c}");
        // the first character decides nothing here: it is lower-case already
        let snake = pincer::rename::to_snake_case(&text);
        if c.is_ascii_uppercase() {
            assert_eq!(snake, format!("a_{}", c.to_ascii_lowercase()));
        } else {
            assert_eq!(snake, text);
        }
        let camel = pincer::rename::to_camel_case(&format!("a_{c}"));
        if c == '_' {
            assert_eq!(camel, "a");
        } else {
            assert_eq!(camel, format!("a{}", c.to_ascii_uppercase()));
        }
        let name = format!("f.{c}");
        assert_eq!(
            pincer::multipart::file_extension(&name).to_lowercase(),
            if c == '.' {
                String::new()
            } else {
                c.to_ascii_lowercase().to_string()
            }
        );
    }
    assert_eq!(pincer::RenameRule::UpperCase.apply("a-z_09"), "A-Z_09");
    assert_eq!(pincer::RenameRule::LowerCase.apply("A-Z_09"), "a-z_09");
}

fn plain(name: &str) -> ParamDecl {
    ParamDecl {
        name: name.to_string(),
        declared_type: "T".to_string(),
        ty: TypeDesc::named("String"),
        hint: None,
    }
}

fn hinted(name: &str, kind: ParamKind) -> ParamDecl {
    ParamDecl {
        hint: Some(kind),
        ..plain(name)
    }
}

fn roles(inputs: &Vec<ParamDecl>, method: HttpMethod) -> Result<Vec<(String, ParamKind)>, String> {
    match parse_method_params(inputs, "/users/{id}/{tab}", method) {
        Ok(params) => {
            let mut out: Vec<(String, ParamKind)> =
                params.into_iter().map(|p| (p.name, p.kind)).collect();
            out.sort_by(|x, y| x.0.cmp(&y.0));
            Ok(out)
        }
        Err(e) => Err(format!("{e:?}")
            .split_whitespace()
            .next()
            .unwrap_or_default()
            .to_string()),
    }
}

#[test]
fn roles_do_not_depend_on_the_order_of_declaration() {
    let make = || {
        vec![
            plain("id"),
            plain("update"),
            hinted("tab", ParamKind::Header("X-Tab".to_string())),
            hinted("q", ParamKind::Headers),
        ]
    };
    let base = roles(&make(), HttpMethod::Put).expect("classified");
    assert_eq!(
        base,
        vec![
            ("id".to_string(), ParamKind::Path(None)),
            ("q".to_string(), ParamKind::Headers),
            ("tab".to_string(), ParamKind::Header("X-Tab".to_string())),
            ("update".to_string(), ParamKind::Body),
        ]
    );
    // every order of the four declarations
    let orders: [[usize; 4]; 24] = [
        [0, 1, 2, 3], [0, 1, 3, 2], [0, 2, 1, 3], [0, 2, 3, 1], [0, 3, 1, 2], [0, 3, 2, 1],
        [1, 0, 2, 3], [1, 0, 3, 2], [1, 2, 0, 3], [1, 2, 3, 0], [1, 3, 0, 2], [1, 3, 2, 0],
        [2, 0, 1, 3], [2, 0, 3, 1], [2, 1, 0, 3], [2, 1, 3, 0], [2, 3, 0, 1], [2, 3, 1, 0],
        [3, 0, 1, 2], [3, 0, 2, 1], [3, 1, 0, 2], [3, 1, 2, 0], [3, 2, 0, 1], [3, 2, 1, 0],
    ];
    for order in orders {
        let mut pool: Vec<Option<ParamDecl>> = make().into_iter().map(Some).collect();
        let inputs: Vec<ParamDecl> = order
            .iter()
            .map(|&i| pool[i].take().expect("each once"))
            .collect();
        assert_eq!(roles(&inputs, HttpMethod::Put).expect("classified"), base);
        // on a verb without a body every order fails in the same way
        let mut pool: Vec<Option<ParamDecl>> = make().into_iter().map(Some).collect();
        let inputs: Vec<ParamDecl> = order
            .iter()
            .map(|&i| pool[i].take().expect("each once"))
            .collect();
        assert_eq!(
            roles(&inputs, HttpMethod::Get),
            Err("UnclassifiedParameter".to_string())
        );
    }
}
