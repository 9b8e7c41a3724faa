use stylusport::model::Constraint;
use stylusport::parser::constraints::parse_constraints;
use stylusport::parser::types::canonical_type_text;
use stylusport::paths::extract_file_stem;
use stylusport::normalization::instruction::extract_context_type;
use stylusport::text::{char_is_space, decimal_text, same_text, signed_decimal_text, text_contains};

fn pairs(constraints: &[Constraint]) -> Vec<(String, Option<String>)> {
    constraints
        .iter()
        .map(|c| (c.constraint_type.clone(), c.value.clone()))
        .collect()
}

fn pair(name: &str, value: Option<&str>) -> (String, Option<String>) {
    (name.to_string(), value.map(|v| v.to_string()))
}

#[test]
fn splits_attribute_arguments_at_commas() {
    let constraints = parse_constraints("init, payer = authority, space = 8 + 32");
    assert_eq!(
        pairs(&constraints),
        vec![
            pair("init", None),
            pair("payer", Some("authority")),
            pair("space", Some("8 + 32")),
        ]
    );
}

#[test]
fn does_not_split_inside_delimiters() {
    let constraints = parse_constraints("seeds = [b\"vault\", authority.key().as_ref()], bump");
    assert_eq!(
        pairs(&constraints),
        vec![
            pair("seeds", Some("[b\"vault\", authority.key().as_ref()]")),
            pair("bump", None),
        ]
    );
}

#[test]
fn does_not_split_inside_parentheses_and_braces() {
    let constraints = parse_constraints("a = f(x, y), b = S { p: 1, q: 2 }, c");
    assert_eq!(
        pairs(&constraints),
        vec![
            pair("a", Some("f(x, y)")),
            pair("b", Some("S { p: 1, q: 2 }")),
            pair("c", None),
        ]
    );
}

#[test]
fn splits_a_constraint_at_its_first_equals_sign() {
    let constraints = parse_constraints("constraint = a.key() == b.key()");
    assert_eq!(
        pairs(&constraints),
        vec![pair("constraint", Some("a.key() == b.key()"))]
    );
}

#[test]
fn leaves_out_empty_segments() {
    assert_eq!(pairs(&parse_constraints("")), vec![]);
    assert_eq!(pairs(&parse_constraints("   ")), vec![]);
    assert_eq!(
        pairs(&parse_constraints(" , init ,, mut , ")),
        vec![pair("init", None), pair("mut", None)]
    );
}

#[test]
fn keeps_an_empty_name_or_value() {
    assert_eq!(
        pairs(&parse_constraints("= x, y =")),
        vec![pair("", Some("x")), pair("y", Some(""))]
    );
}

#[test]
fn a_closer_without_opener_lowers_the_depth() {
    // After the stray `)` the depth is below zero, so the comma does not split.
    assert_eq!(
        pairs(&parse_constraints("a), b")),
        vec![pair("a), b", None)]
    );
    // An opener brings the depth back to zero.
    assert_eq!(
        pairs(&parse_constraints("a), (b, c")),
        vec![pair("a), (b", None), pair("c", None)]
    );
}

#[test]
fn reads_token_text_as_the_parser_renders_it() {
    let constraints = parse_constraints("init , payer = authority , space = 8 + Vault :: INIT_SPACE");
    assert_eq!(
        pairs(&constraints),
        vec![
            pair("init", None),
            pair("payer", Some("authority")),
            pair("space", Some("8 + Vault :: INIT_SPACE")),
        ]
    );
}

#[test]
fn canonical_type_text_has_no_space_beside_tight_punctuation() {
    assert_eq!(canonical_type_text("u64"), "u64");
    assert_eq!(canonical_type_text("Option < String >"), "Option<String>");
    assert_eq!(
        canonical_type_text("HashMap < Pubkey , Vec < u8 > >"),
        "HashMap<Pubkey,Vec<u8>>"
    );
    assert_eq!(
        canonical_type_text("Account < 'info , TokenAccount >"),
        "Account<'info,TokenAccount>"
    );
    assert_eq!(canonical_type_text("std :: io :: Read"), "std::io::Read");
    assert_eq!(canonical_type_text("Result < ( ) >"), "Result<()>");
    assert_eq!(canonical_type_text("[u8 ; 32]"), "[u8 ; 32]");
    assert_eq!(canonical_type_text("( u8 , u16 )"), "(u8,u16)");
}

#[test]
fn canonical_type_text_collapses_other_white_space() {
    assert_eq!(canonical_type_text("& 'a mut Foo"), "& 'a mut Foo");
    assert_eq!(canonical_type_text("&   'a \t mut\nFoo"), "& 'a mut Foo");
    assert_eq!(canonical_type_text("dyn Foo + Send"), "dyn Foo + Send");
    assert_eq!(canonical_type_text("  u64  "), "u64");
    assert_eq!(canonical_type_text(""), "");
    assert_eq!(canonical_type_text("   "), "");
}

#[test]
fn canonical_type_text_is_the_same_for_two_spacings() {
    assert_eq!(
        canonical_type_text("Context<Initialize>"),
        canonical_type_text("Context < Initialize >")
    );
    assert_eq!(
        canonical_type_text("Account<'info,Mint>"),
        canonical_type_text("  Account  <  'info  ,  Mint  >  ")
    );
}

#[test]
fn file_stem_of_plain_paths() {
    assert_eq!(extract_file_stem("src/lib.rs"), Some("lib".to_string()));
    assert_eq!(
        extract_file_stem("/home/user/programs/token_vault.rs"),
        Some("token_vault".to_string())
    );
    assert_eq!(extract_file_stem("vault"), Some("vault".to_string()));
    assert_eq!(extract_file_stem("a.tar.gz"), Some("a.tar".to_string()));
    assert_eq!(extract_file_stem(".bashrc"), Some(".bashrc".to_string()));
    assert_eq!(extract_file_stem("dir/trailing."), Some("trailing".to_string()));
}

#[test]
fn file_stem_of_paths_without_a_file() {
    assert_eq!(extract_file_stem(""), None);
    assert_eq!(extract_file_stem("/"), None);
    assert_eq!(extract_file_stem("."), None);
    assert_eq!(extract_file_stem(".."), None);
    assert_eq!(extract_file_stem("a/.."), None);
    assert_eq!(extract_file_stem("./"), None);
}

#[test]
fn file_stem_passes_over_empty_components_and_dots() {
    assert_eq!(extract_file_stem("a/b/"), Some("b".to_string()));
    assert_eq!(extract_file_stem("a/b.rs/."), Some("b".to_string()));
    assert_eq!(extract_file_stem("a//b.rs//"), Some("b".to_string()));
    assert_eq!(extract_file_stem("./lib.rs"), Some("lib".to_string()));
}

#[test]
fn file_stem_agrees_with_the_standard_library() {
    let parts = ["", "a", "b.rs", ".", "..", ".x", "x.", "a.b.c", "..b", "/", "//"];
    let mut paths: Vec<String> = Vec::new();
    for a in parts {
        paths.push(a.to_string());
        for b in parts {
            paths.push(format!("{}/{}", a, b));
            for c in parts {
                paths.push(format!("{}/{}/{}", a, b, c));
            }
        }
    }
    for path in &paths {
        let expected = std::path::Path::new(path)
            .file_stem()
            .and_then(|s| s.to_str())
            .map(|s| s.to_string());
        assert_eq!(extract_file_stem(path), expected, "path {:?}", path);
    }
}

#[test]
fn white_space_is_what_the_standard_library_takes_for_it() {
    let mut code: u32 = 0;
    while code <= 0x10FFFF {
        if let Some(c) = char::from_u32(code) {
            assert_eq!(char_is_space(c), c.is_whitespace(), "U+{:04X}", code);
        }
        code += 1;
    }
}

#[test]
fn trims_white_space_at_both_ends() {
    let inside = |text: &str| extract_context_type(&format!("Context<{}>", text)).unwrap();
    assert_eq!(inside("  a b  "), "a b");
    assert_eq!(inside("\t\n x\u{a0}\u{3000}"), "x");
    assert_eq!(inside(""), "");
    assert_eq!(inside(" \t "), "");
    assert_eq!(inside("x"), "x");
}

#[test]
fn finds_text_inside_text() {
    assert!(text_contains("Signer<'info>", "Signer"));
    assert!(text_contains("Box<Signer>", "Signer"));
    assert!(text_contains("abc", ""));
    assert!(text_contains("", ""));
    assert!(!text_contains("", "a"));
    assert!(!text_contains("Sign", "Signer"));
    assert!(!text_contains("signer", "Signer"));
}

#[test]
fn compares_texts() {
    assert!(same_text("", ""));
    assert!(same_text("init", "init"));
    assert!(!same_text("init", "ini"));
    assert!(!same_text("ini", "init"));
    assert!(!same_text("init", "inIt"));
    assert!(same_text("h\u{e9}llo", "h\u{e9}llo"));
}

#[test]
fn writes_numbers_in_decimal() {
    assert_eq!(decimal_text(0), "0");
    assert_eq!(decimal_text(7), "7");
    assert_eq!(decimal_text(10), "10");
    assert_eq!(decimal_text(1234567890), "1234567890");
    assert_eq!(decimal_text(usize::MAX), usize::MAX.to_string());
    assert_eq!(signed_decimal_text(0), "0");
    assert_eq!(signed_decimal_text(-1), "-1");
    assert_eq!(signed_decimal_text(1700000000), "1700000000");
    assert_eq!(signed_decimal_text(i64::MIN), i64::MIN.to_string());
    assert_eq!(signed_decimal_text(i64::MAX), i64::MAX.to_string());
}
