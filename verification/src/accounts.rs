//! Logins: by a code that is scanned, and what is shown of them.

use crate::json::{json_inner_text, json_string_inner};
use crate::text::{concat, opt_text};
use vstd::prelude::*;

verus! {

/// A login that waits for its code to be scanned.
#[derive(Debug)]
pub struct BilibiliQrChallenge {
    /// The answer of the service, which the login goes on with.
    pub payload: String,
    /// The address in the code.
    pub url: String,
}

/// An account.
#[derive(Debug)]
pub struct BilibiliAccount {
    pub mid: u64,
    pub name: Option<String>,
}

/// The address that is to be shown as a code.
#[derive(Debug)]
pub struct BilibiliQrStart {
    pub url: String,
}

/// Whether there is a login.
#[derive(Debug)]
pub struct BilibiliAuthStatus {
    pub logged_in: bool,
    pub mid: Option<u64>,
    pub name: Option<String>,
    pub last_error: Option<String>,
}

/// Chooses the address of a code, from the two places where an answer may hold it.
pub fn choose_qr_url(url: Option<String>, qrcode_url: Option<String>, shown: &str) -> (r: Result<
    String,
    String,
>)
    ensures
        match url {
            Some(u) => r == Ok::<String, String>(u),
            None => match qrcode_url {
                Some(u) => r == Ok::<String, String>(u),
                None => r matches Err(m) && m@ == "B站二维码响应缺少 URL: "@ + shown@,
            },
        },
{
    match url {
        Some(url) => Ok(url),
        None => match qrcode_url {
            Some(url) => Ok(url),
            None => Err(concat("B站二维码响应缺少 URL: ", shown)),
        },
    }
}

/// Reads a login that waits for its code from the answer of the service.
pub fn create_qr_challenge(payload: String) -> (r: Result<BilibiliQrChallenge, String>)
    ensures
        match json_inner_text(payload@, "data"@, "url"@) {
            Some(u) => r matches Ok(c) && c.payload == payload && c.url@ == u,
            None => match json_inner_text(payload@, "data"@, "qrcode_url"@) {
                Some(u) => r matches Ok(c) && c.payload == payload && c.url@ == u,
                None => r matches Err(m) && m@ == "B站二维码响应缺少 URL: "@ + payload@,
            },
        },
{
    let url = json_string_inner(payload.as_str(), "data", "url");
    let qrcode_url = json_string_inner(payload.as_str(), "data", "qrcode_url");
    match choose_qr_url(url, qrcode_url, payload.as_str()) {
        Ok(url) => Ok(BilibiliQrChallenge { payload, url }),
        Err(error) => Err(error),
    }
}

/// The account of a login, from the answer about it.
pub fn account_info(mid: u64, info: &str) -> (r: BilibiliAccount)
    ensures
        r.mid == mid,
        opt_text(r.name) == json_inner_text(info@, "data"@, "name"@),
{
    BilibiliAccount { mid, name: json_string_inner(info, "data", "name") }
}

/// A login as it is shown.
pub open spec fn login_shown(account: Result<BilibiliAccount, String>) -> BilibiliAuthStatus {
    match account {
        Ok(a) => BilibiliAuthStatus {
            logged_in: true,
            mid: Some(a.mid),
            name: a.name,
            last_error: None,
        },
        Err(e) => BilibiliAuthStatus {
            logged_in: false,
            mid: None,
            name: None,
            last_error: Some(e),
        },
    }
}

/// What is shown of a login: its account, or why there is none.
pub fn auth_status(account: Result<BilibiliAccount, String>) -> (r: BilibiliAuthStatus)
    ensures
        r == login_shown(account),
{
    match account {
        Ok(account) => BilibiliAuthStatus {
            logged_in: true,
            mid: Some(account.mid),
            name: account.name,
            last_error: None,
        },
        Err(error) => BilibiliAuthStatus {
            logged_in: false,
            mid: None,
            name: None,
            last_error: Some(error),
        },
    }
}

/// Why a login could not be read.
pub fn login_read_error(missing: bool, error: &str) -> (r: String)
    ensures
        r@ == if missing {
            "尚未登录 B站。"@
        } else {
            "读取 B站登录信息失败: "@ + error@
        },
{
    if missing {
        "尚未登录 B站。".to_owned()
    } else {
        concat("读取 B站登录信息失败: ", error)
    }
}

/// What is done with the tokens of a login, in this order.
#[derive(Clone, Copy, Debug, PartialEq, Eq, Structural)]
pub enum LoginStep {
    /// They are renewed.
    Renew,
    /// They are saved; only saved tokens are handed out.
    Save,
}

/// Decides what is done with the tokens of a login that was checked.
pub fn after_login_check(needs_refresh: bool) -> (r: LoginStep)
    ensures
        r == if needs_refresh {
            LoginStep::Renew
        } else {
            LoginStep::Save
        },
{
    if needs_refresh {
        LoginStep::Renew
    } else {
        LoginStep::Save
    }
}

/// A login is shown with its account where it could be read, and with what went wrong where not.
pub proof fn law_login_shown(account: Result<BilibiliAccount, String>)
    ensures
        login_shown(account).logged_in <==> account is Ok,
        account matches Ok(a) ==> login_shown(account).mid == Some(a.mid) && login_shown(
            account,
        ).name == a.name && login_shown(account).last_error is None,
        account matches Err(e) ==> login_shown(account).last_error == Some(e) && login_shown(
            account,
        ).mid is None && login_shown(account).name is None,
{
}

} // verus!
