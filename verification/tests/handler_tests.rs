use rigil_proxy::handlers::{create_error_page, fetch_error_message, FetchError};
use rigil_proxy::html_parser::process_fetched_page;

#[test]
fn error_page_wraps_message() {
    let page = create_error_page("それは失敗しました");
    let expected = format!(
        "<html><head><meta charset=\"UTF-8\"></head><body>\n            <h1>エラー</h1>\n            <p>{}</p>\n            <p><a href=\"/\">ホーム画面に戻る</a></p>\n        </body></html>",
        "それは失敗しました"
    );
    assert_eq!(page, expected);
}

#[test]
fn fetch_error_messages_are_distinct() {
    assert_eq!(
        fetch_error_message(&FetchError::ClientBuild("tls".to_string())),
        "HTTPクライアントの作成エラー: tls"
    );
    assert_eq!(
        fetch_error_message(&FetchError::UrlParse("empty host".to_string())),
        "URL解析エラー: empty host"
    );
    assert_eq!(
        fetch_error_message(&FetchError::HttpStatus(
            "404 Not Found".to_string(),
            "Not Found".to_string()
        )),
        "HTTPエラー: 404 Not Found - Not Found"
    );
    assert_eq!(
        fetch_error_message(&FetchError::TimeoutRead),
        "タイムアウトエラー: レスポンスの読み取りに時間がかかりすぎました"
    );
    assert_eq!(
        fetch_error_message(&FetchError::Decode("bad gzip".to_string())),
        "レスポンス読み取りエラー: bad gzip"
    );
    assert_eq!(
        fetch_error_message(&FetchError::TimeoutConnect),
        "タイムアウトエラー: サーバーからの応答に時間がかかりすぎました"
    );
    assert_eq!(
        fetch_error_message(&FetchError::Connect),
        "接続エラー: サーバーに接続できません"
    );
    assert_eq!(
        fetch_error_message(&FetchError::Request),
        "リクエストエラー: 不正なリクエストです"
    );
    assert_eq!(
        fetch_error_message(&FetchError::Network("reset".to_string())),
        "ネットワークエラー: reset"
    );
}

#[test]
fn redirected_page_resolves_links_against_final_host() {
    // the page was requested from one host but the fetch ended on
    // another: the base URL must come from the final host
    let html = "<a href=\"/x\">L</a><a href=\"rel\">R</a>";
    let (doc, original, processed) =
        process_fetched_page(html, "https://second.example/dir/page");
    assert!(doc.contains(
        "<a href=\"/proxy?url=https%3A%2F%2Fsecond.example%2Fx\" title=\"https://second.example/x\">L</a>"
    ));
    assert!(doc.contains(
        "<a href=\"/proxy?url=https%3A%2F%2Fsecond.example%2Fdir%2Frel\" title=\"https://second.example/dir/rel\">R</a>"
    ));
    assert_eq!(original, html.len() as u64);
    assert_eq!(processed, doc.len() as u64);
}

#[test]
fn home_page_names_the_service() {
    let html = rigil_proxy::web_ui::get_home_page_html();
    assert!(html.contains("<!DOCTYPE html>"));
    assert!(html.contains("Rigil Proxy"));
}

#[test]
fn api_docs_page_lists_endpoints() {
    let html = rigil_proxy::web_ui::get_api_docs_html();
    assert!(html.contains("/proxy?url="));
    assert!(html.contains("/api/process"));
}

#[test]
fn admin_page_is_served() {
    let html = rigil_proxy::web_ui::get_admin_page_html();
    assert!(html.contains("<!DOCTYPE html>"));
    assert!(html.contains("管理"));
}
