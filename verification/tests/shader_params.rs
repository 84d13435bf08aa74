use waylanddisplaycore::shader_params::{is_white_space_char, shader_param_fields};

fn fields(s: &str) -> Vec<(String, String)> {
    shader_param_fields(s)
}

fn pair(a: &str, b: &str) -> (String, String) {
    (a.to_string(), b.to_string())
}

/// The overrides as numbers, the way the shader loader reads the fields.
fn numeric(s: &str) -> Vec<(String, f32)> {
    shader_param_fields(s)
        .into_iter()
        .filter_map(|(k, v)| v.parse::<f32>().ok().map(|x| (k, x)))
        .collect()
}

#[test]
fn test_parse_shader_params() {
    let params = numeric("GRID_STRENGTH=0.08;gamma=2.2;blur=1.5");
    assert_eq!(params.len(), 3);
    assert_eq!(params[0], ("GRID_STRENGTH".to_string(), 0.08));
    assert_eq!(params[1], ("gamma".to_string(), 2.2));
    assert_eq!(params[2], ("blur".to_string(), 1.5));
}

#[test]
fn test_parse_shader_params_empty() {
    let params = numeric("");
    assert!(params.is_empty());
}

#[test]
fn test_parse_shader_params_invalid() {
    let params = numeric("valid=1.0;invalid;also_invalid=abc;ok=2.0");
    assert_eq!(params.len(), 2);
    assert_eq!(params[0], ("valid".to_string(), 1.0));
    assert_eq!(params[1], ("ok".to_string(), 2.0));
}

#[test]
fn fields_keep_value_text() {
    assert_eq!(
        fields("valid=1.0;invalid;also_invalid=abc;ok=2.0"),
        vec![pair("valid", "1.0"), pair("also_invalid", "abc"), pair("ok", "2.0")]
    );
}

#[test]
fn fields_are_trimmed() {
    assert_eq!(fields("  a = 1 ;\tb=\u{3000}2\n"), vec![pair("a", "1"), pair("b", "2")]);
}

#[test]
fn value_keeps_later_equals_signs() {
    assert_eq!(fields("a=b=c"), vec![pair("a", "b=c")]);
}

#[test]
fn empty_pieces_are_skipped() {
    assert_eq!(fields(";;x=1;;"), vec![pair("x", "1")]);
    assert_eq!(fields(";"), Vec::<(String, String)>::new());
    assert_eq!(fields("noequals"), Vec::<(String, String)>::new());
}

#[test]
fn empty_name_and_value_are_kept_as_text() {
    assert_eq!(fields("=;k="), vec![pair("", ""), pair("k", "")]);
}

#[test]
fn non_ascii_text_is_cut_by_characters() {
    assert_eq!(fields("äö=ü;ß=1"), vec![pair("äö", "ü"), pair("ß", "1")]);
}

#[test]
fn white_space_matches_std() {
    for code in 0u32..=0x10FFFF {
        if let Some(c) = char::from_u32(code) {
            assert_eq!(is_white_space_char(c), c.is_whitespace(), "char {:x}", code);
        }
    }
}

#[test]
fn fields_match_std_split_and_trim() {
    let inputs = [
        "GRID_STRENGTH=0.08;gamma=2.2;blur=1.5",
        " a=1 ; b = 2;;c\u{a0}=\u{2009}3\u{85}",
        "x",
        "=",
        "a=b=c;d==e",
    ];
    for s in inputs {
        let expected: Vec<(String, String)> = s
            .split(';')
            .filter_map(|piece| {
                let (k, v) = piece.split_once('=')?;
                Some((k.trim().to_string(), v.trim().to_string()))
            })
            .collect();
        assert_eq!(fields(s), expected, "input {:?}", s);
    }
}
