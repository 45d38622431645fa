use statick_pack::filters::scss2css::AssetFilterSCSS;
use statick_pack::filters::scss2css::Format;
use statick_pack::filters::scss2css::Style;
use statick_pack::filters::AssetFilterCustomError;

fn expanded() -> AssetFilterSCSS {
    AssetFilterSCSS { format: Format { style: Style::Expanded, precision: 10 } }
}

fn compile(filter: &AssetFilterSCSS, source: &[u8]) -> Result<Vec<u8>, AssetFilterCustomError> {
    let format = rsass::output::Format {
        style: match filter.format.style {
            Style::Expanded => rsass::output::Style::Expanded,
            Style::Compressed => rsass::output::Style::Compressed,
            Style::Introspection => rsass::output::Style::Introspection,
        },
        precision: filter.format.precision,
    };
    AssetFilterSCSS::compiled(rsass::compile_scss(source, format))
}

#[test]
fn scss_takes_exactly_one_input() {
    let filter = expanded();
    let none: Vec<String> = Vec::new();
    assert!(matches!(
        filter.input_file_path(&none),
        Err(AssetFilterCustomError::InvalidInputCount(0))
    ));
    let two = vec!["a.scss".to_string(), "b.scss".to_string()];
    assert!(matches!(
        filter.input_file_path(&two),
        Err(AssetFilterCustomError::InvalidInputCount(2))
    ));
    let one = vec!["a.scss".to_string()];
    assert_eq!(filter.input_file_path(&one).unwrap(), "a.scss");
}

#[test]
fn scss_compiles_nested_rules_expanded() {
    let css = compile(&expanded(), b"foo {\n    bar {\n        baz:value;\n    }\n}").unwrap();
    assert_eq!(css, b"foo bar {\n  baz: value;\n}\n".to_vec());
}

#[test]
fn scss_compiles_compressed() {
    let filter = AssetFilterSCSS { format: Format { style: Style::Compressed, precision: 5 } };
    let css = compile(&filter, b"div {\n  span {\n    moo: goo;\n  }\n}\n").unwrap();
    assert_eq!(css, b"div span{moo:goo}\n".to_vec());
}

#[test]
fn scss_precision_is_the_number_of_decimals() {
    let two = AssetFilterSCSS { format: Format { style: Style::Compressed, precision: 2 } };
    assert_eq!(compile(&two, b"a { b: (1 / 3); }").unwrap(), b"a{b:.33}\n".to_vec());
    let four = AssetFilterSCSS { format: Format { style: Style::Compressed, precision: 4 } };
    assert_eq!(compile(&four, b"a { b: (1 / 3); }").unwrap(), b"a{b:.3333}\n".to_vec());
}

#[test]
fn scss_compiler_failure_is_a_filter_error() {
    let result = compile(&expanded(), b"a { b: ; ");
    assert!(matches!(result, Err(AssetFilterCustomError::RSASSError(_))));
}

#[test]
fn scss_compiler_answer_is_passed_on() {
    let content: Vec<u8> = vec![97, 123, 125];
    assert_eq!(AssetFilterSCSS::compiled(Ok(content.clone())).unwrap(), content);
    let failure = rsass::compile_scss(b"a { b: ; ", Default::default()).unwrap_err();
    let shown = format!("{:?}", failure);
    match AssetFilterSCSS::compiled(Err(failure)) {
        Err(AssetFilterCustomError::RSASSError(inner)) => assert_eq!(format!("{:?}", inner), shown),
        other => panic!("{:?}", other),
    }
}

#[test]
fn errors_of_other_kinds_convert_into_filter_errors() {
    let failure = rsass::compile_scss(b"a { b: ; ", Default::default()).unwrap_err();
    assert!(matches!(
        AssetFilterCustomError::from(failure),
        AssetFilterCustomError::RSASSError(_)
    ));
    let failure = std::io::Error::new(std::io::ErrorKind::NotFound, "gone");
    match AssetFilterCustomError::from(failure) {
        AssetFilterCustomError::IOError(inner) => {
            assert_eq!(inner.kind(), std::io::ErrorKind::NotFound)
        },
        other => panic!("{:?}", other),
    }
}
