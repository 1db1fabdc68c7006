use wasm_codegen::highlight::{syntax_highlight_expr, syntax_highlight_top_level_defs, HighlightError};

fn expect_html(code_str: &str, want: &str, use_expr: bool) {
    let result = if use_expr {
        syntax_highlight_expr(code_str)
    } else {
        syntax_highlight_top_level_defs(code_str)
    };
    match result {
        Ok(highlighted_code_str) => {
            assert_eq!(highlighted_code_str, want);
        }
        Err(syntax_error) => {
            panic!(
                "Unexpected parse failure when parsing this for rendering in docs:\n\n{}\n\nParse error was:\n\n{:?}\n\n",
                code_str, syntax_error
            )
        }
    }
}

fn expect_html_expr(code_str: &str, want: &str) {
    expect_html(code_str, want, true)
}

fn expect_html_def(code_str: &str, want: &str) {
    expect_html(code_str, want, false)
}

#[test]
fn number_expr() {
    expect_html_expr("2", r#"<span class="syntax-number">2</span>"#);
}

#[test]
fn string_expr() {
    expect_html_expr(r#""abc""#, r#"<span class="syntax-string">"abc"</span>"#);
}

#[test]
fn empty_list_expr() {
    expect_html_expr(
        r#"[]"#,
        r#"<span class="syntax-bracket">[ </span><span class="syntax-bracket"> ]</span>"#,
    );
}

#[test]
fn single_elt_list_expr() {
    expect_html_expr(
        r#"[ 0 ]"#,
        r#"<span class="syntax-bracket">[ </span><span class="syntax-number">0</span><span class="syntax-bracket"> ]</span>"#,
    );
}

#[test]
fn multi_elt_list_expr() {
    expect_html_expr(
        r#"[ "hello", "WoRlD" ]"#,
        r#"<span class="syntax-bracket">[ </span><span class="syntax-string">"hello"</span><span class="syntax-comma">, </span><span class="syntax-string">"WoRlD"</span><span class="syntax-bracket"> ]</span>"#,
    );
}

#[test]
fn record_expr() {
    expect_html_expr(
        r#"{ a: "hello!" }"#,
        "<span class=\"syntax-bracket\">{ </span><span class=\"syntax-recordfield\">a</span><span class=\"syntax-operator\">: </span><span class=\"syntax-string\">\"hello!\"</span><span class=\"syntax-bracket\"> }</span>",
    );
}

#[test]
fn nested_record_expr() {
    expect_html_expr(
        r#"{ a: { bB: "WoRlD" } }"#,
        "<span class=\"syntax-bracket\">{ </span><span class=\"syntax-recordfield\">a</span><span class=\"syntax-operator\">: </span><span class=\"syntax-bracket\">{ </span><span class=\"syntax-recordfield\">bB</span><span class=\"syntax-operator\">: </span><span class=\"syntax-string\">\"WoRlD\"</span><span class=\"syntax-bracket\"> }</span><span class=\"syntax-bracket\"> }</span>",
    );
}

#[test]
fn top_level_def_value() {
    expect_html_def(
        r#"main = "Hello, World!""#,
        "<span class=\"syntax-variable\">main</span><span class=\"syntax-operator\"> = </span><span class=\"syntax-string\">\"Hello, World!\"</span>\n\n",
    );
}

#[test]
fn tld_list() {
    expect_html_def(
        r#"main = [ 1, 2, 3 ]"#,
        "<span class=\"syntax-variable\">main</span><span class=\"syntax-operator\"> = </span><span class=\"syntax-bracket\">[ </span><span class=\"syntax-number\">1</span><span class=\"syntax-comma\">, </span><span class=\"syntax-number\">2</span><span class=\"syntax-comma\">, </span><span class=\"syntax-number\">3</span><span class=\"syntax-bracket\"> ]</span>\n\n",
    );
}

#[test]
fn multi_digit_number_and_identifier_stay_whole() {
    expect_html_expr(
        "x1 = 1234",
        "<span class=\"syntax-variable\">x1</span><span class=\"syntax-operator\"> = </span><span class=\"syntax-number\">1234</span>",
    );
}

#[test]
fn empty_code_gives_empty_html() {
    assert_eq!(syntax_highlight_expr("").unwrap(), "");
    assert_eq!(syntax_highlight_top_level_defs("  ").unwrap(), "\n\n");
}

#[test]
fn unexpected_char_is_refused() {
    assert_eq!(
        syntax_highlight_expr("[ 1 ; 2 ]"),
        Err(HighlightError::UnexpectedChar { at: 4 })
    );
}

#[test]
fn unterminated_string_is_refused() {
    assert_eq!(
        syntax_highlight_expr("[ \"abc ]"),
        Err(HighlightError::UnterminatedString { start: 2 })
    );
}
