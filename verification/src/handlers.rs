//! Presentation of failures: the rendered error page and the messages
//! of the fetch client's error taxonomy.  The fetch itself is I/O and
//! lives outside the library; its caller classifies the failure into a
//! `FetchError` and renders it here.

use vstd::prelude::*;

verus! {

/// The ways a page fetch can fail, told apart for the caller.
pub enum FetchError {
    /// The HTTP client could not be built.
    ClientBuild(String),
    /// The target URL did not parse.
    UrlParse(String),
    /// The server answered with a non-success status and reason.
    HttpStatus(String, String),
    /// The body read timed out.
    TimeoutRead,
    /// The body could not be read or decoded.
    Decode(String),
    /// The request itself timed out before a response arrived.
    TimeoutConnect,
    /// The server could not be reached.
    Connect,
    /// The request was malformed.
    Request,
    /// Any other network failure.
    Network(String),
}

/// The message reported for each kind of fetch failure.
pub open spec fn fetch_error_message_spec(e: FetchError) -> Seq<char> {
    match e {
        FetchError::ClientBuild(d) => ("HTTPクライアントの作成エラー: ")@ + d@,
        FetchError::UrlParse(d) => ("URL解析エラー: ")@ + d@,
        FetchError::HttpStatus(status, reason) => ("HTTPエラー: ")@ + status@ + (" - ")@
            + reason@,
        FetchError::TimeoutRead => (
        "タイムアウトエラー: レスポンスの読み取りに時間がかかりすぎました")@,
        FetchError::Decode(d) => ("レスポンス読み取りエラー: ")@ + d@,
        FetchError::TimeoutConnect => (
        "タイムアウトエラー: サーバーからの応答に時間がかかりすぎました")@,
        FetchError::Connect => ("接続エラー: サーバーに接続できません")@,
        FetchError::Request => ("リクエストエラー: 不正なリクエストです")@,
        FetchError::Network(d) => ("ネットワークエラー: ")@ + d@,
    }
}

/// Renders a fetch failure as its human-readable message.
pub fn fetch_error_message(e: &FetchError) -> (r: String)
    ensures
        r@ == fetch_error_message_spec(*e),
{
    match e {
        FetchError::ClientBuild(d) => {
            let mut s = String::from_str("HTTPクライアントの作成エラー: ");
            s.append(d.as_str());
            s
        },
        FetchError::UrlParse(d) => {
            let mut s = String::from_str("URL解析エラー: ");
            s.append(d.as_str());
            s
        },
        FetchError::HttpStatus(status, reason) => {
            let mut s = String::from_str("HTTPエラー: ");
            s.append(status.as_str());
            s.append(" - ");
            s.append(reason.as_str());
            s
        },
        FetchError::TimeoutRead => String::from_str(
            "タイムアウトエラー: レスポンスの読み取りに時間がかかりすぎました",
        ),
        FetchError::Decode(d) => {
            let mut s = String::from_str("レスポンス読み取りエラー: ");
            s.append(d.as_str());
            s
        },
        FetchError::TimeoutConnect => String::from_str(
            "タイムアウトエラー: サーバーからの応答に時間がかかりすぎました",
        ),
        FetchError::Connect => String::from_str("接続エラー: サーバーに接続できません"),
        FetchError::Request => String::from_str("リクエストエラー: 不正なリクエストです"),
        FetchError::Network(d) => {
            let mut s = String::from_str("ネットワークエラー: ");
            s.append(d.as_str());
            s
        },
    }
}

/// Renders the HTML error page around a message.
pub fn create_error_page(message: &str) -> (r: String)
    ensures
        r@ == ("<html><head><meta charset=\"UTF-8\"></head><body>\n            <h1>エラー</h1>\n            <p>")@
            + message@
            + ("</p>\n            <p><a href=\"/\">ホーム画面に戻る</a></p>\n        </body></html>")@,
{
    let mut s = String::from_str(
        "<html><head><meta charset=\"UTF-8\"></head><body>\n            <h1>エラー</h1>\n            <p>",
    );
    s.append(message);
    s.append(
        "</p>\n            <p><a href=\"/\">ホーム画面に戻る</a></p>\n        </body></html>",
    );
    s
}

} // verus!
