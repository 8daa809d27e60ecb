//! The page-context script that watches the login page's own network calls and
//! posts the captured token to the loopback callback listener.

use vstd::prelude::*;
use vstd::string::StringExecFns;

verus! {

/// The decimal digit `d` (below ten) as a character.
pub open spec fn digit_char(d: nat) -> char {
    if d == 0 { '0' }
    else if d == 1 { '1' }
    else if d == 2 { '2' }
    else if d == 3 { '3' }
    else if d == 4 { '4' }
    else if d == 5 { '5' }
    else if d == 6 { '6' }
    else if d == 7 { '7' }
    else if d == 8 { '8' }
    else { '9' }
}

/// The decimal representation of `n`, without leading zeros.
pub open spec fn decimal(n: nat) -> Seq<char>
    decreases n,
{
    if n < 10 {
        seq![digit_char(n)]
    } else {
        decimal(n / 10).push(digit_char(n % 10))
    }
}

pub open spec fn callback_url_prefix() -> Seq<char> {
    "http://127.0.0.1:"@
}

pub open spec fn callback_url_suffix() -> Seq<char> {
    "/callback"@
}

/// The address of the callback endpoint for a listener on `port`.
pub open spec fn callback_url_spec(port: u16) -> Seq<char> {
    callback_url_prefix() + decimal(port as nat) + callback_url_suffix()
}

fn digit_str(d: u16) -> (r: &'static str)
    requires
        d < 10,
    ensures
        r@ == seq![digit_char(d as nat)],
{
    proof {
        reveal_strlit("0");
        reveal_strlit("1");
        reveal_strlit("2");
        reveal_strlit("3");
        reveal_strlit("4");
        reveal_strlit("5");
        reveal_strlit("6");
        reveal_strlit("7");
        reveal_strlit("8");
        reveal_strlit("9");
    }
    if d == 0 { "0" }
    else if d == 1 { "1" }
    else if d == 2 { "2" }
    else if d == 3 { "3" }
    else if d == 4 { "4" }
    else if d == 5 { "5" }
    else if d == 6 { "6" }
    else if d == 7 { "7" }
    else if d == 8 { "8" }
    else { "9" }
}

fn append_decimal(out: &mut String, n: u16)
    ensures
        final(out)@ == old(out)@ + decimal(n as nat),
    decreases n,
{
    if n >= 10 {
        append_decimal(out, n / 10);
    }
    out.append(digit_str(n % 10));
    proof {
        assert(final(out)@ =~= old(out)@ + decimal(n as nat));
    }
}

/// The decimal text of `n`.
pub fn decimal_string(n: u16) -> (r: String)
    ensures
        r@ == decimal(n as nat),
{
    let mut out = String::new();
    append_decimal(&mut out, n);
    proof {
        assert(out@ =~= decimal(n as nat));
    }
    out
}

/// The address to which the injected script posts the token: the loopback host,
/// the listener's port, and the `/callback` path.
pub fn callback_url(port: u16) -> (r: String)
    ensures
        r@ == callback_url_spec(port),
{
    let mut out = String::from_str("http://127.0.0.1:");
    append_decimal(&mut out, port);
    out.append("/callback");
    proof {
        assert(out@ =~= callback_url_spec(port));
    }
    out
}

/// The script up to the callback address. It keeps a page-local guard so that
/// a token is sent once, and reads the cookie string visible to page scripts.
pub const SCRIPT_HEAD: &'static str = r#"
(function() {
    var __sent = false;
    var __callbackUrl = ""#;

/// The script after the callback address: the token extraction from a
/// `Result.Token` response field, and the wrappers around `fetch` and
/// `XMLHttpRequest` that match requests whose address holds the marker.
/// Parse failures are swallowed so the page keeps working.
pub const SCRIPT_TAIL: &'static str = r#"";

    function sendToken(token) {
        if (__sent || !token || token.length < 50) return;
        __sent = true;
        var cookies = document.cookie;
        var xhr = new XMLHttpRequest();
        xhr.open("POST", __callbackUrl, true);
        xhr.setRequestHeader("Content-Type", "application/json");
        xhr.send(JSON.stringify({
            token: token,
            cookies: cookies || ""
        }));
    }

    function tryExtractToken(text) {
        try {
            var data = typeof text === "string" ? JSON.parse(text) : text;
            if (data && data.Result && data.Result.Token) {
                return data.Result.Token;
            }
        } catch(e) {}
        return null;
    }

    var origFetch = window.fetch;
    window.fetch = function() {
        var url = arguments[0];
        if (typeof url === "object" && url.url) url = url.url;
        var p = origFetch.apply(this, arguments);
        if (typeof url === "string" && url.indexOf("GetUserToken") !== -1) {
            p.then(function(resp) {
                return resp.clone().text();
            }).then(function(text) {
                var token = tryExtractToken(text);
                if (token) sendToken(token);
            }).catch(function() {});
        }
        return p;
    };

    var origOpen = XMLHttpRequest.prototype.open;
    var origSend = XMLHttpRequest.prototype.send;
    XMLHttpRequest.prototype.open = function(method, url) {
        this.__url = url;
        return origOpen.apply(this, arguments);
    };
    XMLHttpRequest.prototype.send = function() {
        var self = this;
        if (self.__url && self.__url.indexOf("GetUserToken") !== -1) {
            self.addEventListener("load", function() {
                var token = tryExtractToken(self.responseText);
                if (token) sendToken(token);
            });
        }
        return origSend.apply(this, arguments);
    };
})();
"#;

/// The interception script for a listener on `port`: the fixed head, the
/// callback address, and the fixed tail.
pub open spec fn interception_script_spec(port: u16) -> Seq<char> {
    SCRIPT_HEAD@ + callback_url_spec(port) + SCRIPT_TAIL@
}

/// Builds the script injected into the login window at load, with the
/// callback address of the listener on `port` embedded.
pub fn interception_script(port: u16) -> (r: String)
    ensures
        r@ == interception_script_spec(port),
{
    let mut out = String::from_str(SCRIPT_HEAD);
    let url = callback_url(port);
    out.append(url.as_str());
    out.append(SCRIPT_TAIL);
    proof {
        assert(out@ =~= interception_script_spec(port));
    }
    out
}

} // verus!
