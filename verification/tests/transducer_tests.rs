use rigil_proxy::html_parser::parse_html_to_text;

const HEADER: &str = "<!DOCTYPE html><html><head><meta charset=\"UTF-8\"><style>body{font-family:'Segoe UI',Tahoma,Geneva,Verdana,sans-serif;line-height:1.6;margin:20px;color:#333;background-color:#fafafa;max-width:100%;overflow-x:auto;} a{color:#666;text-decoration:underline;margin-right:8px;word-break:break-word;max-width:100%;display:inline-block;} a:hover{color:#333;}</style></head><body>";
const FOOTER: &str = "</body></html>";

fn doc(body: &str) -> String {
    format!("{}{}{}", HEADER, body, FOOTER)
}

const BASE: &str = "https://h.example/dir/";
const FINAL_URL: &str = "https://h.example/dir/page";

#[test]
fn empty_body_gives_bare_document() {
    assert_eq!(parse_html_to_text("", BASE, FINAL_URL), doc(""));
}

#[test]
fn text_passes_through() {
    assert_eq!(parse_html_to_text("Hello, world", BASE, FINAL_URL), doc("Hello, world"));
}

#[test]
fn script_interior_never_reaches_output() {
    let html = "before<script>var a = \"<b>\"; if (1<2) { alert('</div>'); }</script>after";
    assert_eq!(parse_html_to_text(html, BASE, FINAL_URL), doc("beforeafter"));
}

#[test]
fn script_case_insensitive() {
    let html = "<SCRIPT>hidden()</SCRIPT>ok";
    assert_eq!(parse_html_to_text(html, BASE, FINAL_URL), doc("ok"));
}

#[test]
fn style_interior_never_reaches_output() {
    let html = "a<style>p { color: red; }</style>b";
    assert_eq!(parse_html_to_text(html, BASE, FINAL_URL), doc("ab"));
}

#[test]
fn unterminated_script_consumes_to_end() {
    let html = "keep<script>var x = 1;";
    assert_eq!(parse_html_to_text(html, BASE, FINAL_URL), doc("keep"));
}

#[test]
fn allowlisted_tags_survive() {
    let html = "<h1>Title</h1><ul><li>one</li></ul><pre>code</pre>";
    assert_eq!(parse_html_to_text(html, BASE, FINAL_URL), doc(html));
}

#[test]
fn allowlisted_tag_keeps_attributes_and_case() {
    let html = "<H1 class=\"big\">T</H1>";
    assert_eq!(parse_html_to_text(html, BASE, FINAL_URL), doc(html));
}

#[test]
fn unlisted_tags_dropped_but_text_kept() {
    let html = "<div><p>x</p><span>y</span></div>";
    assert_eq!(parse_html_to_text(html, BASE, FINAL_URL), doc("xy"));
}

#[test]
fn rerun_on_own_output_is_noop() {
    let body = "<h1>Hello</h1> world <br><b>bold</b>";
    let once = parse_html_to_text(body, BASE, FINAL_URL);
    assert_eq!(once, doc(body));
    let inner = &once[HEADER.len()..once.len() - FOOTER.len()];
    let twice = parse_html_to_text(inner, BASE, FINAL_URL);
    assert_eq!(twice, once);
}

#[test]
fn anchor_with_root_relative_href() {
    let html = "<a href=\"/x\">L</a>";
    let expected =
        "<a href=\"/proxy?url=https%3A%2F%2Fh.example%2Fx\" title=\"https://h.example/x\">L</a>";
    assert_eq!(parse_html_to_text(html, BASE, FINAL_URL), doc(expected));
}

#[test]
fn anchor_with_relative_href() {
    let html = "<a href=\"x\">L</a>";
    let expected = "<a href=\"/proxy?url=https%3A%2F%2Fh.example%2Fdir%2Fx\" title=\"https://h.example/dir/x\">L</a>";
    assert_eq!(parse_html_to_text(html, BASE, FINAL_URL), doc(expected));
}

#[test]
fn anchor_with_absolute_href() {
    let html = "<a href=\"https://other.example/p\">Go</a>";
    let expected = "<a href=\"/proxy?url=https%3A%2F%2Fother.example%2Fp\" title=\"https://other.example/p\">Go</a>";
    assert_eq!(parse_html_to_text(html, BASE, FINAL_URL), doc(expected));
}

#[test]
fn anchor_href_merely_containing_http_is_left_as_is() {
    // the resolver treats any target mentioning "http" as absolute
    let html = "<a href=\"x?ref=http\">L</a>";
    let expected = "<a href=\"/proxy?url=x%3Fref%3Dhttp\" title=\"x?ref=http\">L</a>";
    assert_eq!(parse_html_to_text(html, BASE, FINAL_URL), doc(expected));
}

#[test]
fn uppercase_anchor_recognized() {
    let html = "<A HREF=\"/x\">L</A>";
    let expected =
        "<a href=\"/proxy?url=https%3A%2F%2Fh.example%2Fx\" title=\"https://h.example/x\">L</a>";
    assert_eq!(parse_html_to_text(html, BASE, FINAL_URL), doc(expected));
}

#[test]
fn anchor_without_href_is_consumed_silently() {
    let html = "<a>inner text</a>more";
    assert_eq!(parse_html_to_text(html, BASE, FINAL_URL), doc("more"));
}

#[test]
fn anchor_empty_label_falls_back_to_url() {
    let html = "<a href=\"/x\">  </a>";
    let expected = "<a href=\"/proxy?url=https%3A%2F%2Fh.example%2Fx\" title=\"https://h.example/x\">https://h.example/x</a>";
    assert_eq!(parse_html_to_text(html, BASE, FINAL_URL), doc(expected));
}

#[test]
fn anchor_label_markup_skipped_text_kept() {
    let html = "<a href=\"/x\">a <b>bold</b> label</a>";
    let expected = "<a href=\"/proxy?url=https%3A%2F%2Fh.example%2Fx\" title=\"https://h.example/x\">a bold label</a>";
    assert_eq!(parse_html_to_text(html, BASE, FINAL_URL), doc(expected));
}

#[test]
fn sixty_character_label_shortened_to_47_plus_ellipsis() {
    let label = "abcdefghij".repeat(6);
    assert_eq!(label.chars().count(), 60);
    let html = format!("<a href=\"/x\">{}</a>", label);
    let shortened = &label[..47];
    let expected = format!(
        "<a href=\"/proxy?url=https%3A%2F%2Fh.example%2Fx\" title=\"https://h.example/x\">{}...</a>",
        shortened
    );
    assert_eq!(parse_html_to_text(&html, BASE, FINAL_URL), doc(&expected));
}

#[test]
fn fifty_character_label_kept_whole() {
    let label = "abcdefghij".repeat(5);
    let html = format!("<a href=\"/x\">{}</a>", label);
    let expected = format!(
        "<a href=\"/proxy?url=https%3A%2F%2Fh.example%2Fx\" title=\"https://h.example/x\">{}</a>",
        label
    );
    assert_eq!(parse_html_to_text(&html, BASE, FINAL_URL), doc(&expected));
}

#[test]
fn label_and_title_are_entity_escaped() {
    let html = "<a href=\"/x?a=1&b=2\">A & B</a>";
    let expected = "<a href=\"/proxy?url=https%3A%2F%2Fh.example%2Fx%3Fa%3D1%26b%3D2\" title=\"https://h.example/x?a=1&amp;b=2\">A &amp; B</a>";
    assert_eq!(parse_html_to_text(html, BASE, FINAL_URL), doc(expected));
}

#[test]
fn unterminated_allowlisted_tag_kept() {
    let html = "abc<b";
    assert_eq!(parse_html_to_text(html, BASE, FINAL_URL), doc("abc<b"));
}

#[test]
fn base_without_trailing_slash_joined_with_one() {
    let html = "<a href=\"y\">L</a>";
    let expected = "<a href=\"/proxy?url=https%3A%2F%2Fh.example%2Fdir%2Fy\" title=\"https://h.example/dir/y\">L</a>";
    assert_eq!(
        parse_html_to_text(html, "https://h.example/dir", FINAL_URL),
        doc(expected)
    );
}
